//! The navigation state machine: what a key means, and what each event
//! does to the level, the selection, the cursor and the search.

use vstd::prelude::*;
use crate::data::{
    bytes_read,
    cursor_in_range,
    KubeComponentState,
    KubeData,
    KubeWidgetState,
};
use crate::error::CacheError;
use crate::fuzzy::{narrowed, search_list};
pub use crate::modes::{InteractionMode, ViewMode};
use crate::text::clone_names;
use crate::view::{data_updated, level_list, read_reported, KubeWidget};

verus! {

/// What the application is asked to do.
#[derive(Debug, Clone, Copy, PartialEq, Eq, Structural)]
pub enum AppEvent {
    /// Read the level's list again.
    Refresh,
    /// End the application.
    Quit,
    /// One level down.
    NavRight,
    /// One level up.
    NavLeft,
}

/// The keys that are told apart.
#[derive(Debug, Clone, Copy, PartialEq, Eq, Structural)]
pub enum Key {
    Esc,
    Enter,
    Left,
    Right,
    Up,
    Down,
    Backspace,
    Char(char),
    Other,
}

/// A key press: the key, and whether control, and nothing else, was held.
#[derive(Debug, Clone, Copy, PartialEq, Eq, Structural)]
pub struct KeyInput {
    pub code: Key,
    pub control: bool,
}

/// What a key press means.
#[derive(Debug, Clone, Copy, PartialEq, Eq, Structural)]
pub enum Command {
    /// Ask the application for something.
    Send(AppEvent),
    /// Start a search in the list that is shown.
    EnterSearch,
    /// End the search and show the whole list again.
    LeaveSearch,
    /// End the search and go down into the entry under the cursor.
    Confirm,
    /// Move the cursor towards the end of the list.
    CursorUp,
    /// Move the cursor towards the start of the list.
    CursorDown,
    /// Add a character to the search text.
    Insert(char),
    /// Take the last character off the search text.
    Erase,
    /// The key means nothing here.
    Nothing,
}

/// The list that was shown when a search began: the domain of the filter.
#[derive(Debug, Clone)]
pub struct Cache {
    pub display: Vec<String>,
}

/// The application's state.
#[derive(Debug)]
pub struct Kuco {
    pub running: bool,
    pub view: KubeWidget,
    pub cache: Option<Cache>,
}

/// What a key press means while keys are read as commands.
pub open spec fn normal_command(key: KeyInput) -> Command {
    match key.code {
        Key::Esc => Command::Send(AppEvent::Quit),
        Key::Char(c) => if c == 'q' {
            Command::Send(AppEvent::Quit)
        } else if (c == 'c' || c == 'C') && key.control {
            Command::Send(AppEvent::Quit)
        } else if c == 'r' {
            Command::Send(AppEvent::Refresh)
        } else if c == '/' {
            Command::EnterSearch
        } else if c == 'l' {
            Command::Send(AppEvent::NavRight)
        } else if c == 'h' {
            Command::Send(AppEvent::NavLeft)
        } else if c == 'k' {
            Command::CursorUp
        } else if c == 'j' {
            Command::CursorDown
        } else {
            Command::Nothing
        },
        Key::Right => Command::Send(AppEvent::NavRight),
        Key::Left => Command::Send(AppEvent::NavLeft),
        Key::Up => Command::CursorUp,
        Key::Down => Command::CursorDown,
        _ => Command::Nothing,
    }
}

/// What a key press means while keys are read as the text of a search.
pub open spec fn search_command(key: KeyInput) -> Command {
    match key.code {
        Key::Esc => Command::LeaveSearch,
        Key::Char(c) => if (c == 'c' || c == 'C') && key.control {
            Command::Send(AppEvent::Quit)
        } else {
            Command::Insert(c)
        },
        Key::Right => Command::Confirm,
        Key::Enter => Command::Confirm,
        Key::Left => Command::Send(AppEvent::NavLeft),
        Key::Up => Command::CursorUp,
        Key::Down => Command::CursorDown,
        Key::Backspace => Command::Erase,
        Key::Other => Command::Nothing,
    }
}

/// What a key press means.
pub open spec fn command_of(mode: InteractionMode, key: KeyInput) -> Command {
    match mode {
        InteractionMode::NORMAL => normal_command(key),
        InteractionMode::SEARCH => search_command(key),
    }
}

/// Reads a key press.
pub fn interpret(mode: InteractionMode, key: KeyInput) -> (command: Command)
    ensures
        command == command_of(mode, key),
{
    match mode {
        InteractionMode::NORMAL => match key.code {
            Key::Esc => Command::Send(AppEvent::Quit),
            Key::Char(c) => {
                if c == 'q' {
                    Command::Send(AppEvent::Quit)
                } else if (c == 'c' || c == 'C') && key.control {
                    Command::Send(AppEvent::Quit)
                } else if c == 'r' {
                    Command::Send(AppEvent::Refresh)
                } else if c == '/' {
                    Command::EnterSearch
                } else if c == 'l' {
                    Command::Send(AppEvent::NavRight)
                } else if c == 'h' {
                    Command::Send(AppEvent::NavLeft)
                } else if c == 'k' {
                    Command::CursorUp
                } else if c == 'j' {
                    Command::CursorDown
                } else {
                    Command::Nothing
                }
            },
            Key::Right => Command::Send(AppEvent::NavRight),
            Key::Left => Command::Send(AppEvent::NavLeft),
            Key::Up => Command::CursorUp,
            Key::Down => Command::CursorDown,
            _ => Command::Nothing,
        },
        InteractionMode::SEARCH => match key.code {
            Key::Esc => Command::LeaveSearch,
            Key::Char(c) => {
                if (c == 'c' || c == 'C') && key.control {
                    Command::Send(AppEvent::Quit)
                } else {
                    Command::Insert(c)
                }
            },
            Key::Right => Command::Confirm,
            Key::Enter => Command::Confirm,
            Key::Left => Command::Send(AppEvent::NavLeft),
            Key::Up => Command::CursorUp,
            Key::Down => Command::CursorDown,
            Key::Backspace => Command::Erase,
            Key::Other => Command::Nothing,
        },
    }
}

/// The entries of what is shown; nothing shown counts as the empty list.
pub open spec fn shown(display: Option<Vec<String>>) -> Seq<Seq<char>> {
    match display {
        Some(list) => list.deep_view(),
        None => Seq::empty(),
    }
}

/// The entries of a snapshot, if there is one.
pub open spec fn snapshot(cache: Option<Cache>) -> Option<Seq<Seq<char>>> {
    match cache {
        Some(taken) => Some(taken.display.deep_view()),
        None => None,
    }
}

/// The domain of the filter: the snapshot, or, while none was taken, what
/// is shown.
pub open spec fn filter_domain(cache: Option<Cache>, display: Option<Vec<String>>) -> Seq<
    Seq<char>,
> {
    match cache {
        Some(taken) => taken.display.deep_view(),
        None => shown(display),
    }
}

/// The entry under the cursor, or `fallback` where the list is empty.
/// Without a cursor the first entry is meant; a cursor past the end means
/// the last.
pub open spec fn entry_under_cursor(
    list: Seq<Seq<char>>,
    cursor: Option<usize>,
    fallback: Seq<char>,
) -> Seq<char> {
    if list.len() == 0 {
        fallback
    } else {
        match cursor {
            None => list[0],
            Some(at) => if at < list.len() {
                list[at as int]
            } else {
                list[list.len() - 1]
            },
        }
    }
}

/// The name taken for the namespace while the list is empty.
pub const NO_NAMESPACE: &'static str = "default";

/// The name taken for the pod while the list is empty.
pub const NO_POD: &'static str = "none";

/// The name taken for the container while the list is empty.
pub const NO_CONTAINER: &'static str = "none";

/// The text taken for the log line while the list is empty.
pub const NO_LOG_LINE: &'static str = "none";

impl Kuco {
    /// The application as it starts: running, at the namespace level,
    /// nothing shown, no search.
    pub fn new() -> (app: Self)
        ensures
            app.running,
            app.cache.is_none(),
            app.view.display.is_none(),
            app.view.view_mode == ViewMode::NS,
            app.view.interact_mode == InteractionMode::NORMAL,
            app.view.data.current_namespace_name.is_none(),
            app.view.data.current_pod_name.is_none(),
            app.view.data.current_container_name.is_none(),
            app.view.data.current_log_line.is_none(),
    {
        Kuco { running: true, view: KubeWidget::new(), cache: None }
    }

    /// The entry of what is shown that lies under the cursor.
    fn pick(&self, cursor: Option<usize>, fallback: &str) -> (name: String)
        ensures
            name@ == entry_under_cursor(shown(self.view.display), cursor, fallback@),
    {
        match &self.view.display {
            Some(list) => {
                if list.len() == 0 {
                    String::from_str(fallback)
                } else {
                    let at: usize = match cursor {
                        None => 0,
                        Some(at) => if at < list.len() {
                            at
                        } else {
                            list.len() - 1
                        },
                    };
                    list[at].clone()
                }
            },
            None => String::from_str(fallback),
        }
    }

    /// Takes the filter domain: the snapshot, which is taken now if there
    /// is none yet.
    fn domain(&mut self) -> (entries: Vec<String>)
        ensures
            entries.deep_view() == filter_domain(old(self).cache, old(self).view.display),
            snapshot(final(self).cache) == Some(
                filter_domain(old(self).cache, old(self).view.display),
            ),
            final(self).running == old(self).running,
            final(self).view == old(self).view,
    {
        match &self.cache {
            Some(taken) => clone_names(&taken.display),
            None => {
                let entries = match &self.view.display {
                    Some(list) => clone_names(list),
                    None => Vec::new(),
                };
                assert(entries.deep_view() =~= shown(self.view.display));
                self.cache = Some(Cache { display: clone_names(&entries) });
                entries
            },
        }
    }

    /// Shows what the search text of `state` leaves of `current_list` and
    /// puts the cursor on the first entry. Without a list nothing changes.
    pub fn search(&mut self, state: &mut KubeComponentState, current_list: Option<Vec<String>>)
        ensures
            final(self).running == old(self).running,
            final(self).cache == old(self).cache,
            final(self).view.view_mode == old(self).view.view_mode,
            final(self).view.interact_mode == old(self).view.interact_mode,
            final(self).view.data == old(self).view.data,
            final(state).search == old(state).search,
            match current_list {
                Some(list) => {
                    &&& final(state).list_cursor == Some(0usize)
                    &&& final(self).view.display.is_some()
                    &&& shown(final(self).view.display) == narrowed(
                        old(state).search.input@,
                        list.deep_view(),
                    )
                },
                None => {
                    &&& final(state).list_cursor == old(state).list_cursor
                    &&& final(self).view.display == old(self).view.display
                },
            },
    {
        match current_list {
            Some(list) => {
                state.list_cursor = Some(0);
                self.view.display = Some(search_list(state.search.input.as_str(), &list));
            },
            None => {},
        }
    }

    /// Takes a key press: changes mode, search and cursor as the key says,
    /// and hands back what the application is asked to do, if anything.
    pub fn handle_key_events(&mut self, key: KeyInput, mode_state: &mut KubeComponentState) -> (asked:
        Option<AppEvent>)
        ensures
            final(self).running == old(self).running,
            final(self).view.view_mode == old(self).view.view_mode,
            final(self).view.data == old(self).view.data,
            key_effect(
                command_of(old(self).view.interact_mode, key),
                *old(self),
                *old(mode_state),
                *final(self),
                *final(mode_state),
                asked,
            ),
    {
        let command = interpret(self.view.interact_mode, key);
        match command {
            Command::Send(event) => Some(event),
            Command::EnterSearch => {
                self.view.interact_mode = InteractionMode::SEARCH;
                self.cache = None;
                let _ = self.domain();
                None
            },
            Command::LeaveSearch => {
                self.view.interact_mode = InteractionMode::NORMAL;
                match &self.cache {
                    Some(taken) => {
                        self.view.display = Some(clone_names(&taken.display));
                    },
                    None => {},
                }
                self.cache = None;
                mode_state.search.input = String::new();
                Some(AppEvent::Refresh)
            },
            Command::Confirm => {
                self.view.interact_mode = InteractionMode::NORMAL;
                self.cache = None;
                mode_state.search.input = String::new();
                Some(AppEvent::NavRight)
            },
            Command::CursorUp => {
                let len: usize = match &self.view.display {
                    Some(list) => list.len(),
                    None => 0,
                };
                mode_state.select_next(len);
                None
            },
            Command::CursorDown => {
                mode_state.select_previous();
                None
            },
            Command::Insert(c) => {
                let entries = self.domain();
                mode_state.search.input.push(c);
                self.search(mode_state, Some(entries));
                None
            },
            Command::Erase => {
                let entries = self.domain();
                let _ = mode_state.search.input.pop();
                self.search(mode_state, Some(entries));
                None
            },
            Command::Nothing => None,
        }
    }

    /// A tick of the clock changes nothing.
    pub fn tick(&mut self)
        ensures
            *final(self) == *old(self),
    {
    }

    /// Ends the application.
    pub fn quit(&mut self)
        ensures
            !final(self).running,
            final(self).view == old(self).view,
            final(self).cache == old(self).cache,
    {
        self.running = false;
    }

    /// Selects the log line under the cursor. Nothing else changes.
    pub fn refresh_logs_selection(&mut self, component_state: &KubeComponentState)
        ensures
            *final(self) == (Kuco {
                view: KubeWidget {
                    data: KubeData {
                        current_log_line: final(self).view.data.current_log_line,
                        ..old(self).view.data
                    },
                    ..old(self).view
                },
                ..*old(self)
            }),
            final(self).view.data.current_log_line.deep_view() == Some(
                entry_under_cursor(
                    shown(old(self).view.display),
                    component_state.list_cursor,
                    NO_LOG_LINE@,
                ),
            ),
    {
        let name = self.pick(component_state.list_cursor, NO_LOG_LINE);
        self.view.data.current_log_line = Some(name);
    }

    /// Selects the container under the cursor. Nothing else changes.
    pub fn refresh_containers_selection(&mut self, component_state: &KubeComponentState)
        ensures
            *final(self) == (Kuco {
                view: KubeWidget {
                    data: KubeData {
                        current_container_name: final(self).view.data.current_container_name,
                        ..old(self).view.data
                    },
                    ..old(self).view
                },
                ..*old(self)
            }),
            final(self).view.data.current_container_name.deep_view() == Some(
                entry_under_cursor(
                    shown(old(self).view.display),
                    component_state.list_cursor,
                    NO_CONTAINER@,
                ),
            ),
    {
        let name = self.pick(component_state.list_cursor, NO_CONTAINER);
        self.view.data.current_container_name = Some(name);
    }

    /// Selects the pod under the cursor. Nothing else changes.
    pub fn refresh_pods_selection(&mut self, component_state: &KubeComponentState)
        ensures
            *final(self) == (Kuco {
                view: KubeWidget {
                    data: KubeData {
                        current_pod_name: final(self).view.data.current_pod_name,
                        ..old(self).view.data
                    },
                    ..old(self).view
                },
                ..*old(self)
            }),
            final(self).view.data.current_pod_name.deep_view() == Some(
                entry_under_cursor(
                    shown(old(self).view.display),
                    component_state.list_cursor,
                    NO_POD@,
                ),
            ),
    {
        let name = self.pick(component_state.list_cursor, NO_POD);
        self.view.data.current_pod_name = Some(name);
    }

    /// Selects the namespace under the cursor. Nothing else changes.
    pub fn refresh_namespace_selection(&mut self, component_state: &KubeComponentState)
        ensures
            *final(self) == (Kuco {
                view: KubeWidget {
                    data: KubeData {
                        current_namespace_name: final(self).view.data.current_namespace_name,
                        ..old(self).view.data
                    },
                    ..old(self).view
                },
                ..*old(self)
            }),
            final(self).view.data.current_namespace_name.deep_view() == Some(
                entry_under_cursor(
                    shown(old(self).view.display),
                    component_state.list_cursor,
                    NO_NAMESPACE@,
                ),
            ),
    {
        let name = self.pick(component_state.list_cursor, NO_NAMESPACE);
        self.view.data.current_namespace_name = Some(name);
    }

    /// From the namespaces down to the pods of the namespace under the
    /// cursor. A snapshot taken at the level that is left is dropped.
    pub fn transition_ns_to_pod_view(&mut self, component_state: &KubeComponentState)
        ensures
            *final(self) == (Kuco {
                cache: None,
                view: KubeWidget {
                    view_mode: ViewMode::PODS,
                    data: KubeData {
                        current_namespace_name: final(self).view.data.current_namespace_name,
                        ..old(self).view.data
                    },
                    ..old(self).view
                },
                ..*old(self)
            }),
            final(self).view.data.current_namespace_name.deep_view() == Some(
                entry_under_cursor(
                    shown(old(self).view.display),
                    component_state.list_cursor,
                    NO_NAMESPACE@,
                ),
            ),
    {
        self.refresh_namespace_selection(component_state);
        self.view.view_mode = ViewMode::PODS;
        self.cache = None;
    }

    /// From the pods down to the containers of the pod under the cursor.
    pub fn transition_pod_to_cont_view(&mut self, component_state: &KubeComponentState)
        ensures
            *final(self) == (Kuco {
                cache: None,
                view: KubeWidget {
                    view_mode: ViewMode::CONT,
                    data: KubeData {
                        current_pod_name: final(self).view.data.current_pod_name,
                        ..old(self).view.data
                    },
                    ..old(self).view
                },
                ..*old(self)
            }),
            final(self).view.data.current_pod_name.deep_view() == Some(
                entry_under_cursor(
                    shown(old(self).view.display),
                    component_state.list_cursor,
                    NO_POD@,
                ),
            ),
    {
        self.refresh_pods_selection(component_state);
        self.view.view_mode = ViewMode::CONT;
        self.cache = None;
    }

    /// From the containers down to the log of the container under the
    /// cursor.
    pub fn transition_cont_to_log_view(&mut self, component_state: &KubeComponentState)
        ensures
            *final(self) == (Kuco {
                cache: None,
                view: KubeWidget {
                    view_mode: ViewMode::LOGS,
                    data: KubeData {
                        current_container_name: final(self).view.data.current_container_name,
                        ..old(self).view.data
                    },
                    ..old(self).view
                },
                ..*old(self)
            }),
            final(self).view.data.current_container_name.deep_view() == Some(
                entry_under_cursor(
                    shown(old(self).view.display),
                    component_state.list_cursor,
                    NO_CONTAINER@,
                ),
            ),
    {
        self.refresh_containers_selection(component_state);
        self.view.view_mode = ViewMode::LOGS;
        self.cache = None;
    }

    /// One level up. The selection of the level that is left, and of the
    /// level below it, is cleared; the cursor of the level that is left
    /// goes back to the first entry; a snapshot taken there is dropped. At
    /// the namespaces there is no level above and nothing changes.
    pub fn transition_back(&mut self, mode_state: &mut KubeComponentState)
        ensures
            match old(self).view.view_mode {
                ViewMode::NS => {
                    &&& *final(self) == *old(self)
                    &&& *final(mode_state) == *old(mode_state)
                },
                ViewMode::PODS => {
                    &&& *final(self) == (Kuco {
                        cache: None,
                        view: KubeWidget {
                            view_mode: ViewMode::NS,
                            data: KubeData {
                                current_pod_name: None,
                                current_container_name: None,
                                ..old(self).view.data
                            },
                            ..old(self).view
                        },
                        ..*old(self)
                    })
                    &&& *final(mode_state) == (KubeComponentState {
                        list_cursor: Some(0usize),
                        ..*old(mode_state)
                    })
                },
                ViewMode::CONT => {
                    &&& *final(self) == (Kuco {
                        cache: None,
                        view: KubeWidget {
                            view_mode: ViewMode::PODS,
                            data: KubeData {
                                current_container_name: None,
                                current_log_line: None,
                                ..old(self).view.data
                            },
                            ..old(self).view
                        },
                        ..*old(self)
                    })
                    &&& *final(mode_state) == (KubeComponentState {
                        list_cursor: Some(0usize),
                        ..*old(mode_state)
                    })
                },
                ViewMode::LOGS => {
                    &&& *final(self) == (Kuco {
                        cache: None,
                        view: KubeWidget {
                            view_mode: ViewMode::CONT,
                            data: KubeData { current_log_line: None, ..old(self).view.data },
                            ..old(self).view
                        },
                        ..*old(self)
                    })
                    &&& *final(mode_state) == (KubeComponentState {
                        list_cursor: Some(0usize),
                        ..*old(mode_state)
                    })
                },
            },
    {
        match self.view.view_mode {
            ViewMode::NS => {},
            ViewMode::PODS => {
                self.view.view_mode = ViewMode::NS;
                self.view.data.current_pod_name = None;
                self.view.data.current_container_name = None;
                self.cache = None;
                mode_state.list_cursor = Some(0);
            },
            ViewMode::CONT => {
                self.view.view_mode = ViewMode::PODS;
                self.view.data.current_container_name = None;
                self.view.data.current_log_line = None;
                self.cache = None;
                mode_state.list_cursor = Some(0);
            },
            ViewMode::LOGS => {
                self.view.view_mode = ViewMode::CONT;
                self.view.data.current_log_line = None;
                self.cache = None;
                mode_state.list_cursor = Some(0);
            },
        }
    }
}

/// The name that is selected at a level.
pub open spec fn selection(app: Kuco, mode: ViewMode) -> Option<Seq<char>> {
    match mode {
        ViewMode::NS => app.view.data.current_namespace_name.deep_view(),
        ViewMode::PODS => app.view.data.current_pod_name.deep_view(),
        ViewMode::CONT => app.view.data.current_container_name.deep_view(),
        ViewMode::LOGS => app.view.data.current_log_line.deep_view(),
    }
}

/// The name that is taken at a level while its list is empty.
pub open spec fn placeholder(mode: ViewMode) -> Seq<char> {
    match mode {
        ViewMode::NS => NO_NAMESPACE@,
        ViewMode::PODS => NO_POD@,
        ViewMode::CONT => NO_CONTAINER@,
        ViewMode::LOGS => NO_LOG_LINE@,
    }
}

/// The cursor and search text of a level.
pub open spec fn level_state(levels: KubeWidgetState, mode: ViewMode) -> KubeComponentState {
    match mode {
        ViewMode::NS => levels.namespace_state,
        ViewMode::PODS => levels.pods_state,
        ViewMode::CONT => levels.containers_state,
        ViewMode::LOGS => levels.logs_state,
    }
}

/// Whether two data differ in nothing but the names that are selected.
pub open spec fn only_selections_differ(before: KubeData, after: KubeData) -> bool {
    after == (KubeData {
        current_namespace_name: after.current_namespace_name,
        current_pod_name: after.current_pod_name,
        current_container_name: after.current_container_name,
        current_log_line: after.current_log_line,
        ..before
    })
}

/// What one level down does: the entry under the cursor becomes the
/// selection of the level that is left, and the level below is looked at.
/// At the log there is no level below and nothing changes.
pub open spec fn went_down(before: Kuco, levels: KubeWidgetState, after: Kuco) -> bool {
    let mode = before.view.view_mode;
    if mode == ViewMode::LOGS {
        after == before
    } else {
        &&& after.running == before.running
        &&& after.cache.is_none()
        &&& after.view.display == before.view.display
        &&& after.view.interact_mode == before.view.interact_mode
        &&& after.view.view_mode == mode.below()
        &&& only_selections_differ(before.view.data, after.view.data)
        &&& selection(after, mode) == Some(
            entry_under_cursor(
                shown(before.view.display),
                level_state(levels, mode).list_cursor,
                placeholder(mode),
            ),
        )
        &&& forall|other: ViewMode|
            other != mode ==> selection(after, other) == selection(before, other)
    }
}

/// What one level up does: the selections of the level that is left and of
/// the level below it are cleared, the cursor of the level that is left
/// goes to the first entry, the level below it loses its cursor, and the
/// level above is looked at. At the namespaces there is no level above and
/// nothing changes.
pub open spec fn went_up(
    before: Kuco,
    levels_before: KubeWidgetState,
    after: Kuco,
    levels_after: KubeWidgetState,
) -> bool {
    let mode = before.view.view_mode;
    if mode == ViewMode::NS {
        after == before && levels_after == levels_before
    } else {
        &&& after.running == before.running
        &&& after.cache.is_none()
        &&& after.view.display == before.view.display
        &&& after.view.interact_mode == before.view.interact_mode
        &&& after.view.view_mode == mode.above()
        &&& only_selections_differ(before.view.data, after.view.data)
        &&& selection(after, mode).is_none()
        &&& selection(after, mode.below()).is_none()
        &&& forall|other: ViewMode|
            other != mode && other != mode.below() ==> selection(after, other) == selection(
                before,
                other,
            )
        &&& level_state(levels_after, mode).list_cursor == Some(0usize)
        &&& level_state(levels_after, mode).search == level_state(levels_before, mode).search
        &&& mode != ViewMode::LOGS ==> level_state(levels_after, mode.below()).list_cursor.is_none()
        &&& mode != ViewMode::LOGS ==> level_state(levels_after, mode.below()).search
            == level_state(levels_before, mode.below()).search
        &&& forall|other: ViewMode|
            other != mode && other != mode.below() ==> level_state(levels_after, other)
                == level_state(levels_before, other)
    }
}

/// What the start of a frame does at the level that is looked at: the
/// cursor is brought into the range of what is shown, a missing cursor
/// onto the first entry and a cursor past the end onto the last; above the
/// log, the entry under the cursor becomes the level's selection; while
/// keys are read as commands the level's search text is empty.
pub open spec fn frame_ready(
    before: Kuco,
    levels_before: KubeWidgetState,
    after: Kuco,
    levels_after: KubeWidgetState,
) -> bool {
    let mode = before.view.view_mode;
    let cursor = cursor_in_range(
        level_state(levels_before, mode).list_cursor,
        shown(before.view.display).len() as int,
    );
    &&& after.running == before.running
    &&& after.cache == before.cache
    &&& after.view.display == before.view.display
    &&& after.view.interact_mode == before.view.interact_mode
    &&& after.view.view_mode == mode
    &&& only_selections_differ(before.view.data, after.view.data)
    &&& level_state(levels_after, mode).list_cursor == cursor
    &&& level_state(levels_after, mode).search.input@ == if before.view.interact_mode
        == InteractionMode::NORMAL {
        Seq::<char>::empty()
    } else {
        level_state(levels_before, mode).search.input@
    }
    &&& forall|other: ViewMode|
        other != mode ==> level_state(levels_after, other) == level_state(levels_before, other)
    &&& selection(after, mode) == if mode == ViewMode::LOGS {
        selection(before, mode)
    } else {
        Some(entry_under_cursor(shown(before.view.display), cursor, placeholder(mode)))
    }
    &&& forall|other: ViewMode| other != mode ==> selection(after, other) == selection(before, other)
}

impl Kuco {
    /// Makes a level ready for a frame.
    fn ready_level(&mut self, mode_state: &mut KubeComponentState)
        ensures
            final(self).running == old(self).running,
            final(self).cache == old(self).cache,
            final(self).view.display == old(self).view.display,
            final(self).view.interact_mode == old(self).view.interact_mode,
            final(self).view.view_mode == old(self).view.view_mode,
            only_selections_differ(old(self).view.data, final(self).view.data),
            final(mode_state).list_cursor == cursor_in_range(
                old(mode_state).list_cursor,
                shown(old(self).view.display).len() as int,
            ),
            final(mode_state).search.input@ == if old(self).view.interact_mode
                == InteractionMode::NORMAL {
                Seq::<char>::empty()
            } else {
                old(mode_state).search.input@
            },
            selection(*final(self), old(self).view.view_mode) == if old(self).view.view_mode
                == ViewMode::LOGS {
                selection(*old(self), old(self).view.view_mode)
            } else {
                Some(
                    entry_under_cursor(
                        shown(old(self).view.display),
                        final(mode_state).list_cursor,
                        placeholder(old(self).view.view_mode),
                    ),
                )
            },
            forall|other: ViewMode|
                other != old(self).view.view_mode ==> selection(*final(self), other) == selection(
                    *old(self),
                    other,
                ),
    {
        let len: usize = match &self.view.display {
            Some(list) => list.len(),
            None => 0,
        };
        mode_state.settle_cursor(len);
        match self.view.view_mode {
            ViewMode::NS => self.refresh_namespace_selection(mode_state),
            ViewMode::PODS => self.refresh_pods_selection(mode_state),
            ViewMode::CONT => self.refresh_containers_selection(mode_state),
            ViewMode::LOGS => {},
        }
        match self.view.interact_mode {
            InteractionMode::NORMAL => {
                mode_state.search.input = String::new();
            },
            InteractionMode::SEARCH => {},
        }
    }

    /// The start of a frame, before anything is drawn.
    pub fn prepare_frame(&mut self, kube_state: &mut KubeWidgetState)
        ensures
            frame_ready(*old(self), *old(kube_state), *final(self), *final(kube_state)),
    {
        match self.view.view_mode {
            ViewMode::NS => self.ready_level(&mut kube_state.namespace_state),
            ViewMode::PODS => self.ready_level(&mut kube_state.pods_state),
            ViewMode::CONT => self.ready_level(&mut kube_state.containers_state),
            ViewMode::LOGS => self.ready_level(&mut kube_state.logs_state),
        }
    }

    /// One level down.
    pub fn nav_right(&mut self, kube_state: &KubeWidgetState)
        ensures
            went_down(*old(self), *kube_state, *final(self)),
    {
        match self.view.view_mode {
            ViewMode::NS => self.transition_ns_to_pod_view(&kube_state.namespace_state),
            ViewMode::PODS => self.transition_pod_to_cont_view(&kube_state.pods_state),
            ViewMode::CONT => self.transition_cont_to_log_view(&kube_state.containers_state),
            ViewMode::LOGS => {},
        }
    }

    /// One level up.
    pub fn nav_left(&mut self, kube_state: &mut KubeWidgetState)
        ensures
            went_up(*old(self), *old(kube_state), *final(self), *final(kube_state)),
    {
        match self.view.view_mode {
            ViewMode::NS => {},
            ViewMode::PODS => {
                self.transition_back(&mut kube_state.pods_state);
                kube_state.containers_state.list_cursor = None;
            },
            ViewMode::CONT => {
                self.transition_back(&mut kube_state.containers_state);
                kube_state.logs_state.list_cursor = None;
            },
            ViewMode::LOGS => self.transition_back(&mut kube_state.logs_state),
        }
    }

    /// Takes what the application was asked to do and says whether the
    /// level's list is to be read again: after a refresh, and after a
    /// change of level.
    pub fn update(&mut self, event: AppEvent, kube_state: &mut KubeWidgetState) -> (reload: bool)
        ensures
            match event {
                AppEvent::Refresh => {
                    &&& reload
                    &&& *final(self) == *old(self)
                    &&& *final(kube_state) == *old(kube_state)
                },
                AppEvent::Quit => {
                    &&& !reload
                    &&& !final(self).running
                    &&& final(self).view == old(self).view
                    &&& final(self).cache == old(self).cache
                    &&& *final(kube_state) == *old(kube_state)
                },
                AppEvent::NavRight => {
                    &&& reload == (old(self).view.view_mode != ViewMode::LOGS)
                    &&& went_down(*old(self), *old(kube_state), *final(self))
                    &&& *final(kube_state) == *old(kube_state)
                },
                AppEvent::NavLeft => {
                    &&& reload == (old(self).view.view_mode != ViewMode::NS)
                    &&& went_up(*old(self), *old(kube_state), *final(self), *final(kube_state))
                },
            },
    {
        match event {
            AppEvent::Refresh => true,
            AppEvent::Quit => {
                self.quit();
                false
            },
            AppEvent::NavRight => {
                let moved = match self.view.view_mode {
                    ViewMode::LOGS => false,
                    _ => true,
                };
                self.nav_right(kube_state);
                moved
            },
            AppEvent::NavLeft => {
                let moved = match self.view.view_mode {
                    ViewMode::NS => false,
                    _ => true,
                };
                self.nav_left(kube_state);
                moved
            },
        }
    }

    /// Takes in what was read for the level that is looked at, as
    /// `KubeWidget::update_widget_kube_data` does, and shows it: the whole
    /// list, or, while a search with a text is on, what the text leaves of
    /// the snapshot. A search without a snapshot filters the list that was
    /// read.
    pub fn load(
        &mut self,
        mode_state: &KubeComponentState,
        stamp: Option<Vec<u8>>,
        stored: Option<Vec<u8>>,
        log: Option<String>,
    ) -> (r: Result<(), CacheError>)
        ensures
            final(self).running == old(self).running,
            final(self).cache == old(self).cache,
            final(self).view.view_mode == old(self).view.view_mode,
            final(self).view.interact_mode == old(self).view.interact_mode,
            data_updated(
                old(self).view.data,
                final(self).view.data,
                old(self).view.view_mode,
                bytes_read(stamp),
                bytes_read(stored),
                log.deep_view(),
            ),
            final(self).view.display.is_some(),
            shown(final(self).view.display) == if old(self).view.interact_mode
                == InteractionMode::SEARCH && mode_state.search.input@.len() > 0 {
                narrowed(
                    mode_state.search.input@,
                    match snapshot(old(self).cache) {
                        Some(domain) => domain,
                        None => level_list(final(self).view.data, old(self).view.view_mode),
                    },
                )
            } else {
                level_list(final(self).view.data, old(self).view.view_mode)
            },
            read_reported(r, old(self).view, bytes_read(stamp), bytes_read(stored)),
    {
        let r = self.view.update_widget_kube_data(stamp, stored, log);
        let ghost read = self.view;
        let searching = match self.view.interact_mode {
            InteractionMode::SEARCH => !mode_state.search.input.as_str().is_empty(),
            InteractionMode::NORMAL => false,
        };
        if searching {
            let domain = match &self.cache {
                Some(taken) => clone_names(&taken.display),
                None => match &self.view.display {
                    Some(list) => clone_names(list),
                    None => Vec::new(),
                },
            };
            assert(domain.deep_view() =~= filter_domain(self.cache, read.display));
            self.view.display = Some(search_list(mode_state.search.input.as_str(), &domain));
        }
        r
    }
}

/// Down and up again leads back to the level, and the selection made on
/// the way down is cleared on the way up.
pub proof fn lemma_down_then_up(
    start: Kuco,
    levels: KubeWidgetState,
    down: Kuco,
    up: Kuco,
    levels_after: KubeWidgetState,
)
    requires
        start.view.view_mode != ViewMode::LOGS,
        went_down(start, levels, down),
        went_up(down, levels, up, levels_after),
    ensures
        down.view.view_mode == start.view.view_mode.below(),
        selection(down, start.view.view_mode).is_some(),
        up.view.view_mode == start.view.view_mode,
        selection(up, down.view.view_mode).is_none(),
        selection(up, start.view.view_mode) == selection(down, start.view.view_mode),
{
}

/// Leaving a search shows the list that was there when the search began,
/// whatever was typed in between, and empties the search text.
pub proof fn lemma_escape_restores(
    before: Kuco,
    level_before: KubeComponentState,
    after: Kuco,
    level_after: KubeComponentState,
    asked: Option<AppEvent>,
)
    requires
        before.cache.is_some(),
        key_effect(Command::LeaveSearch, before, level_before, after, level_after, asked),
    ensures
        Some(shown(after.view.display)) == snapshot(before.cache),
        level_after.search.input@.len() == 0,
        after.view.interact_mode == InteractionMode::NORMAL,
        after.cache.is_none(),
{
}

/// Typing in a search never touches the snapshot: after any key that adds
/// to or takes from the search text, the snapshot is the one taken when
/// the search began, and what is shown is what the text leaves of it.
pub proof fn lemma_typing_keeps_snapshot(
    command: Command,
    before: Kuco,
    level_before: KubeComponentState,
    after: Kuco,
    level_after: KubeComponentState,
    asked: Option<AppEvent>,
)
    requires
        before.cache.is_some(),
        command is Insert || command is Erase,
        key_effect(command, before, level_before, after, level_after, asked),
    ensures
        snapshot(after.cache) == snapshot(before.cache),
        snapshot(after.cache) matches Some(domain) && shown(after.view.display) == narrowed(
            level_after.search.input@,
            domain,
        ),
        level_after.search.input@.len() == 0 ==> Some(shown(after.view.display)) == snapshot(
            before.cache,
        ),
{
}

/// What a command does to the application `before` and to the state
/// `level_before` of the level that is looked at, and what is asked of the
/// application.
pub open spec fn key_effect(
    command: Command,
    before: Kuco,
    level_before: KubeComponentState,
    after: Kuco,
    level_after: KubeComponentState,
    asked: Option<AppEvent>,
) -> bool {
    match command {
        Command::Send(event) => {
            &&& asked == Some(event)
            &&& after == before
            &&& level_after == level_before
        },
        Command::Nothing => {
            &&& asked.is_none()
            &&& after == before
            &&& level_after == level_before
        },
        Command::EnterSearch => {
            &&& asked.is_none()
            &&& after.view.interact_mode == InteractionMode::SEARCH
            &&& after.view.display == before.view.display
            &&& snapshot(after.cache) == Some(shown(before.view.display))
            &&& level_after == level_before
        },
        Command::LeaveSearch => {
            &&& asked == Some(AppEvent::Refresh)
            &&& after.view.interact_mode == InteractionMode::NORMAL
            &&& after.cache.is_none()
            &&& shown(after.view.display) == filter_domain(before.cache, before.view.display)
            &&& level_after.search.input@.len() == 0
            &&& level_after.list_cursor == level_before.list_cursor
        },
        Command::Confirm => {
            &&& asked == Some(AppEvent::NavRight)
            &&& after.view.interact_mode == InteractionMode::NORMAL
            &&& after.cache.is_none()
            &&& after.view.display == before.view.display
            &&& level_after.search.input@.len() == 0
            &&& level_after.list_cursor == level_before.list_cursor
        },
        Command::CursorUp => {
            &&& asked.is_none()
            &&& after == before
            &&& level_after.search == level_before.search
            &&& level_after.list_cursor == crate::data::cursor_after_up(
                level_before.list_cursor,
                shown(before.view.display).len() as int,
            )
        },
        Command::CursorDown => {
            &&& asked.is_none()
            &&& after == before
            &&& level_after.search == level_before.search
            &&& level_after.list_cursor == crate::data::cursor_after_down(
                level_before.list_cursor,
            )
        },
        Command::Insert(c) => {
            &&& asked.is_none()
            &&& after.view.interact_mode == before.view.interact_mode
            &&& snapshot(after.cache) == Some(filter_domain(before.cache, before.view.display))
            &&& level_after.search.input@ == level_before.search.input@.push(c)
            &&& level_after.list_cursor == Some(0usize)
            &&& after.view.display.is_some()
            &&& shown(after.view.display) == narrowed(
                level_after.search.input@,
                filter_domain(before.cache, before.view.display),
            )
        },
        Command::Erase => {
            &&& asked.is_none()
            &&& after.view.interact_mode == before.view.interact_mode
            &&& snapshot(after.cache) == Some(filter_domain(before.cache, before.view.display))
            &&& level_after.search.input@ == if level_before.search.input@.len() > 0 {
                level_before.search.input@.drop_last()
            } else {
                level_before.search.input@
            }
            &&& level_after.list_cursor == Some(0usize)
            &&& after.view.display.is_some()
            &&& shown(after.view.display) == narrowed(
                level_after.search.input@,
                filter_domain(before.cache, before.view.display),
            )
        },
    }
}

} // verus!
