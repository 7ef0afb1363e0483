//! What a frame says: the texts of header and input line and the entries
//! of the list. How they are laid out and coloured is left to the
//! terminal.

use vstd::prelude::*;
use crate::app::Kuco;
use crate::data::{cursor_in_range, settled_cursor, KubeComponentState};
use crate::modes::{InteractionMode, ViewMode};
use crate::view::{level_list, rendered};

verus! {

/// The time that is shown as "still loading".
pub const LOADING_CLOCK: &'static str = "19:00:00";

/// What stands between the names of a trail.
pub const TRAIL_SEPARATOR: &'static str = " > ";

/// The content of one frame.
#[derive(Debug, Clone, PartialEq, Eq)]
pub struct Screen {
    /// The title, top left.
    pub title: String,
    /// The lines on the time of the last refresh, top right.
    pub refresh: Vec<String>,
    /// The entries of the list, in the order the list takes them.
    pub items: Vec<String>,
    /// The place of the entry under the cursor, within `items` unless
    /// there are none.
    pub cursor: Option<usize>,
    /// The input line at the bottom.
    pub input: String,
}

/// The name of a mode.
pub open spec fn mode_label_text(mode: InteractionMode) -> Seq<char> {
    match mode {
        InteractionMode::NORMAL => "NORMAL"@,
        InteractionMode::SEARCH => "SEARCH"@,
    }
}

/// A selected name, or nothing where none is selected.
pub open spec fn name_or_empty(name: Option<Seq<char>>) -> Seq<char> {
    match name {
        Some(text) => text,
        None => Seq::empty(),
    }
}

/// The trail of selections down to a level: the namespace; below it the
/// pod as well; below that the container as well.
pub open spec fn trail_text(
    mode: ViewMode,
    namespace: Option<Seq<char>>,
    pod: Option<Seq<char>>,
    container: Option<Seq<char>>,
) -> Seq<char> {
    match mode {
        ViewMode::NS => name_or_empty(namespace),
        ViewMode::PODS => name_or_empty(namespace) + TRAIL_SEPARATOR@ + name_or_empty(pod),
        _ => name_or_empty(namespace) + TRAIL_SEPARATOR@ + name_or_empty(pod) + TRAIL_SEPARATOR@
            + name_or_empty(container),
    }
}

/// The input line: the mode in brackets, then the text.
pub open spec fn input_text(mode: InteractionMode, text: Seq<char>) -> Seq<char> {
    "[ "@ + mode_label_text(mode) + " ] "@ + text
}

/// The title for a version.
pub open spec fn title_text(version: Seq<char>) -> Seq<char> {
    "KuCo v"@ + version
}

/// The lines on the last refresh, for the time the header holds.
pub open spec fn refresh_texts(last_refreshed_at: Seq<char>) -> Seq<Seq<char>> {
    if last_refreshed_at == LOADING_CLOCK@ {
        seq!["loading cache ..."@]
    } else {
        seq!["last refreshed at "@ + last_refreshed_at, "press 'r' to refresh"@]
    }
}

/// The name of a mode.
pub fn mode_label(mode: InteractionMode) -> (label: String)
    ensures
        label@ == mode_label_text(mode),
{
    match mode {
        InteractionMode::NORMAL => String::from_str("NORMAL"),
        InteractionMode::SEARCH => String::from_str("SEARCH"),
    }
}

/// Appends a selected name, if there is one.
fn append_name(text: &mut String, name: &Option<String>)
    ensures
        final(text)@ == old(text)@ + name_or_empty(name.deep_view()),
{
    match name {
        Some(name) => text.append(name.as_str()),
        None => {
            assert(text@ + Seq::<char>::empty() =~= text@);
        },
    }
}

/// The title for a version.
pub fn title(version: &str) -> (text: String)
    ensures
        text@ == title_text(version@),
{
    let mut text = String::from_str("KuCo v");
    text.append(version);
    text
}

/// The lines on the last refresh.
pub fn refresh_lines(last_refreshed_at: &str) -> (lines: Vec<String>)
    ensures
        lines.deep_view() == refresh_texts(last_refreshed_at@),
{
    let mut lines: Vec<String> = Vec::new();
    if *last_refreshed_at == *LOADING_CLOCK {
        lines.push(String::from_str("loading cache ..."));
        assert(lines.deep_view() =~= refresh_texts(last_refreshed_at@));
    } else {
        let mut first = String::from_str("last refreshed at ");
        first.append(last_refreshed_at);
        lines.push(first);
        lines.push(String::from_str("press 'r' to refresh"));
        assert(lines.deep_view() =~= refresh_texts(last_refreshed_at@));
    }
    lines
}

impl Kuco {
    /// The trail of selections down to the level that is looked at.
    pub fn navigation(&self) -> (trail: String)
        ensures
            trail@ == trail_text(
                self.view.view_mode,
                self.view.data.current_namespace_name.deep_view(),
                self.view.data.current_pod_name.deep_view(),
                self.view.data.current_container_name.deep_view(),
            ),
    {
        let mut trail = String::new();
        append_name(&mut trail, &self.view.data.current_namespace_name);
        assert(trail@ =~= name_or_empty(self.view.data.current_namespace_name.deep_view()));
        match self.view.view_mode {
            ViewMode::NS => {},
            ViewMode::PODS => {
                trail.append(TRAIL_SEPARATOR);
                append_name(&mut trail, &self.view.data.current_pod_name);
            },
            _ => {
                trail.append(TRAIL_SEPARATOR);
                append_name(&mut trail, &self.view.data.current_pod_name);
                trail.append(TRAIL_SEPARATOR);
                append_name(&mut trail, &self.view.data.current_container_name);
            },
        }
        trail
    }

    /// The content of a frame. The cursor is the level's, brought into the
    /// range of the entries: a level without a cursor is drawn with it on
    /// the first entry. The input line shows the trail while keys are read
    /// as commands and the search text while they are not.
    pub fn draw_view(&self, mode_state: &KubeComponentState, version: &str) -> (screen: Screen)
        ensures
            screen.title@ == title_text(version@),
            screen.refresh.deep_view() == refresh_texts(self.view.data.last_refreshed_at@),
            screen.items.deep_view() == rendered(
                self.view.display.deep_view(),
                level_list(self.view.data, self.view.view_mode),
                self.view.view_mode,
            ),
            screen.cursor == cursor_in_range(mode_state.list_cursor, screen.items.len() as int),
            screen.input@ == input_text(
                self.view.interact_mode,
                match self.view.interact_mode {
                    InteractionMode::NORMAL => trail_text(
                        self.view.view_mode,
                        self.view.data.current_namespace_name.deep_view(),
                        self.view.data.current_pod_name.deep_view(),
                        self.view.data.current_container_name.deep_view(),
                    ),
                    InteractionMode::SEARCH => mode_state.search.input@,
                },
            ),
    {
        let mut input = String::from_str("[ ");
        input.append(mode_label(self.view.interact_mode).as_str());
        input.append(" ] ");
        match self.view.interact_mode {
            InteractionMode::NORMAL => input.append(self.navigation().as_str()),
            InteractionMode::SEARCH => input.append(mode_state.search.input.as_str()),
        }
        let items = self.view.render_items();
        let cursor = settled_cursor(mode_state.list_cursor, items.len());
        Screen {
            title: title(version),
            refresh: refresh_lines(self.view.data.last_refreshed_at.as_str()),
            items,
            cursor,
            input,
        }
    }
}

} // verus!
