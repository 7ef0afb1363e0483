//! The display projector: from the level that is looked at and the names
//! that are selected to the cache key to read, and from what was read to
//! the list that is shown.

use vstd::prelude::*;
use crate::data::{
    bytes_read,
    label_after,
    lines_after,
    list_after,
    list_read,
    namespace_or_default,
    stamp_unreadable,
    KubeData,
};
use crate::error::CacheError;
use crate::keys::{
    containers_key_text,
    pods_key_text,
    KUCO_CACHE_TABLE,
    LAST_REFRESHED_CACHE_KEY,
    NS_NAMES_CACHE_KEY,
};
use crate::logs::{log_request, LogRequest, LOG_TAIL_LINES};
use crate::modes::{InteractionMode, ViewMode};
use crate::store::{stored, CacheView, KvStore};
use crate::text::clone_names;

verus! {

/// What is shown: the list, the level, the way keys are read, and the data
/// behind them.
#[derive(Clone, Debug)]
pub struct KubeWidget {
    pub display: Option<Vec<String>>,
    pub view_mode: ViewMode,
    pub interact_mode: InteractionMode,
    pub data: KubeData,
}

/// The container whose log is to be fetched, and how.
#[derive(Clone, Debug, PartialEq, Eq)]
pub struct LogTarget {
    pub namespace: String,
    pub pod: String,
    pub request: LogRequest,
}

/// The cache key that holds the list of a level: the namespace list; the
/// pods of the namespace that is looked at; the containers of the selected
/// pod, while one is selected. The log is in no cache.
pub open spec fn projection_key(
    mode: ViewMode,
    namespace: Option<Seq<char>>,
    pod: Option<Seq<char>>,
) -> Option<Seq<char>> {
    match mode {
        ViewMode::NS => Some(NS_NAMES_CACHE_KEY@),
        ViewMode::PODS => Some(pods_key_text(namespace_or_default(namespace))),
        ViewMode::CONT => match pod {
            Some(pod) => Some(containers_key_text(namespace_or_default(namespace), pod)),
            None => None,
        },
        ViewMode::LOGS => None,
    }
}

/// What the cache holds for the level that a widget looks at: the entry
/// under the level's key, nothing where the level has no key.
pub open spec fn entry_for(cache: CacheView, widget: KubeWidget) -> Option<Seq<u8>> {
    match projection_key(
        widget.view_mode,
        widget.data.current_namespace_name.deep_view(),
        widget.data.current_pod_name.deep_view(),
    ) {
        Some(key) => stored(cache, KUCO_CACHE_TABLE@, key),
        None => None,
    }
}

/// The list that the data holds for a level.
pub open spec fn level_list(data: KubeData, mode: ViewMode) -> Seq<Seq<char>> {
    match mode {
        ViewMode::NS => data.namespace_names_list.deep_view(),
        ViewMode::PODS => data.pod_names_list.deep_view(),
        ViewMode::CONT => data.containers.names.deep_view(),
        ViewMode::LOGS => data.logs.lines.deep_view(),
    }
}

/// The entries handed to the list on screen: what is shown, or the
/// level's own list while nothing is; the log is turned around, so that
/// its latest line comes first.
pub open spec fn rendered(
    display: Option<Seq<Seq<char>>>,
    own: Seq<Seq<char>>,
    mode: ViewMode,
) -> Seq<Seq<char>> {
    let base = match display {
        Some(shown) => if shown.len() > 0 {
            shown
        } else {
            own
        },
        None => own,
    };
    if mode == ViewMode::LOGS {
        base.reverse()
    } else {
        base
    }
}

/// A list turned around.
pub fn reversed(list: &Vec<String>) -> (turned: Vec<String>)
    ensures
        turned.deep_view() == list.deep_view().reverse(),
{
    let mut turned: Vec<String> = Vec::new();
    let mut i: usize = list.len();
    while i > 0
        invariant
            i <= list.len(),
            turned.len() == list.len() - i,
            forall|k: int|
                0 <= k < turned.len() ==> #[trigger] turned.deep_view()[k]
                    == list.deep_view()[list.len() - 1 - k],
        decreases i,
    {
        i -= 1;
        let ghost before = turned.deep_view();
        turned.push(list[i].clone());
        assert(turned.deep_view() == before.push(list.deep_view()[i as int]));
    }
    assert(turned.deep_view() =~= list.deep_view().reverse());
    turned
}

impl KubeWidget {
    /// The namespace level, keys read as commands, nothing shown yet.
    pub fn new() -> (widget: Self)
        ensures
            widget.display.is_none(),
            widget.view_mode == ViewMode::NS,
            widget.interact_mode == InteractionMode::NORMAL,
            widget.data.current_namespace_name.is_none(),
            widget.data.current_pod_name.is_none(),
            widget.data.current_container_name.is_none(),
            widget.data.current_log_line.is_none(),
    {
        KubeWidget {
            display: None,
            view_mode: ViewMode::NS,
            interact_mode: InteractionMode::NORMAL,
            data: KubeData::new(),
        }
    }

    /// The cache key to read for the level that is looked at; `None` where
    /// the level has none.
    pub fn cache_key(&self) -> (key: Option<String>)
        ensures
            key.deep_view() == projection_key(
                self.view_mode,
                self.data.current_namespace_name.deep_view(),
                self.data.current_pod_name.deep_view(),
            ),
    {
        match self.view_mode {
            ViewMode::NS => Some(String::from_str(NS_NAMES_CACHE_KEY)),
            ViewMode::PODS => Some(self.data.pods_cache_key()),
            ViewMode::CONT => self.data.containers_cache_key(),
            ViewMode::LOGS => None,
        }
    }

    /// The log to fetch for the level that is looked at: that of the
    /// selected container, at the log level, while a pod and a container
    /// are selected; else none.
    pub fn log_target(&self) -> (target: Option<LogTarget>)
        ensures
            target.is_some() == (self.view_mode == ViewMode::LOGS
                && self.data.current_pod_name.is_some()
                && self.data.current_container_name.is_some()),
            match target {
                Some(t) => {
                    &&& t.namespace@ == namespace_or_default(
                        self.data.current_namespace_name.deep_view(),
                    )
                    &&& Some(t.pod@) == self.data.current_pod_name.deep_view()
                    &&& Some(t.request.container@)
                        == self.data.current_container_name.deep_view()
                    &&& t.request.timestamps
                    &&& t.request.tail_lines == LOG_TAIL_LINES
                },
                None => true,
            },
    {
        match self.view_mode {
            ViewMode::LOGS => match (&self.data.current_pod_name, &self.data.current_container_name) {
                (Some(pod), Some(container)) => Some(
                    LogTarget {
                        namespace: self.data.namespace(),
                        pod: pod.clone(),
                        request: log_request(container.as_str()),
                    },
                ),
                _ => None,
            },
            _ => None,
        }
    }

    /// The list that the data holds for the level that is looked at.
    pub fn own_list(&self) -> (list: Vec<String>)
        ensures
            list.deep_view() == level_list(self.data, self.view_mode),
    {
        match self.view_mode {
            ViewMode::NS => clone_names(&self.data.namespace_names_list),
            ViewMode::PODS => clone_names(&self.data.pod_names_list),
            ViewMode::CONT => clone_names(&self.data.containers.names),
            ViewMode::LOGS => clone_names(&self.data.logs.lines),
        }
    }

    /// Takes in what was read for the level that is looked at and shows
    /// it: `stamp` is what the cache held under the key of the last pass's
    /// time, `stored` what it held under `cache_key()`, `log` the text
    /// fetched for the selected container. Only the log level reads `log`,
    /// only the other levels read `stored`.
    ///
    /// An absent entry shows as the empty list. Bytes that are no list
    /// leave the level's list as it was and are reported; bytes that are no
    /// time are reported where the list was read well.
    pub fn update_widget_kube_data(
        &mut self,
        stamp: Option<Vec<u8>>,
        stored: Option<Vec<u8>>,
        log: Option<String>,
    ) -> (r: Result<(), CacheError>)
        ensures
            updated(
                *old(self),
                *final(self),
                bytes_read(stamp),
                bytes_read(stored),
                log.deep_view(),
            ),
            read_reported(r, *old(self), bytes_read(stamp), bytes_read(stored)),
    {
        let stamped = self.data.get_timestamp(stamp);
        let listed = match self.view_mode {
            ViewMode::NS => self.data.update_namespaces_names_list(stored),
            ViewMode::PODS => self.data.update_pods_names_list(stored),
            ViewMode::CONT => self.data.update_containers_names_list(stored),
            ViewMode::LOGS => {
                self.data.update_logs_lines_list(log);
                Ok(())
            },
        };
        self.display = Some(self.own_list());
        match listed {
            Err(e) => Err(e),
            Ok(()) => stamped,
        }
    }

    /// Reads from `store` what the level that is looked at shows, and
    /// shows it: the time of the last pass and the entry under
    /// `cache_key()`, each as the cache table holds it. An entry that is
    /// absent shows as the empty list.
    pub fn project(&mut self, store: &KvStore, log: Option<String>) -> (r: Result<(), CacheError>)
        requires
            store.wf(),
        ensures
            updated(
                *old(self),
                *final(self),
                stored(store@, KUCO_CACHE_TABLE@, LAST_REFRESHED_CACHE_KEY@),
                entry_for(store@, *old(self)),
                log.deep_view(),
            ),
            read_reported(
                r,
                *old(self),
                stored(store@, KUCO_CACHE_TABLE@, LAST_REFRESHED_CACHE_KEY@),
                entry_for(store@, *old(self)),
            ),
    {
        let stamp = store.get_bytes(KUCO_CACHE_TABLE, LAST_REFRESHED_CACHE_KEY);
        let found = match self.cache_key() {
            Some(key) => store.get_bytes(KUCO_CACHE_TABLE, key.as_str()),
            None => None,
        };
        proof {
            if stamp.is_some() {
                assert(stamp.unwrap().deep_view() =~= stamp.unwrap()@);
            }
            if found.is_some() {
                assert(found.unwrap().deep_view() =~= found.unwrap()@);
            }
        }
        self.update_widget_kube_data(stamp, found, log)
    }

    /// The entries to hand to the list on screen.
    pub fn render_items(&self) -> (items: Vec<String>)
        ensures
            items.deep_view() == rendered(
                self.display.deep_view(),
                level_list(self.data, self.view_mode),
                self.view_mode,
            ),
    {
        let base = match &self.display {
            Some(shown) => if shown.len() > 0 {
                clone_names(shown)
            } else {
                self.own_list()
            },
            None => self.own_list(),
        };
        match self.view_mode {
            ViewMode::LOGS => reversed(&base),
            _ => base,
        }
    }
}

/// What a read makes of the data behind a widget that looks at the level
/// `mode`: the selections stay; the header's time is read from `stamp`;
/// the list of the level is read from `stored`, or, at the log level, from
/// `log`; the lists of the other levels, and all else, stay.
pub open spec fn data_updated(
    before: KubeData,
    after: KubeData,
    mode: ViewMode,
    stamp: Option<Seq<u8>>,
    stored: Option<Seq<u8>>,
    log: Option<Seq<char>>,
) -> bool {
    &&& after == (KubeData {
        last_refreshed_at: after.last_refreshed_at,
        namespace_names_list: after.namespace_names_list,
        pod_names_list: after.pod_names_list,
        containers: after.containers,
        logs: after.logs,
        ..before
    })
    &&& after.last_refreshed_at@ == label_after(before.last_refreshed_at@, stamp)
    &&& level_list(after, ViewMode::NS) == if mode == ViewMode::NS {
        list_after(level_list(before, ViewMode::NS), stored)
    } else {
        level_list(before, ViewMode::NS)
    }
    &&& level_list(after, ViewMode::PODS) == if mode == ViewMode::PODS {
        list_after(level_list(before, ViewMode::PODS), stored)
    } else {
        level_list(before, ViewMode::PODS)
    }
    &&& level_list(after, ViewMode::CONT) == if mode == ViewMode::CONT
        && before.current_pod_name.is_some() {
        list_after(level_list(before, ViewMode::CONT), stored)
    } else {
        level_list(before, ViewMode::CONT)
    }
    &&& level_list(after, ViewMode::LOGS) == if mode == ViewMode::LOGS {
        lines_after(before, log)
    } else {
        level_list(before, ViewMode::LOGS)
    }
}

/// What `update_widget_kube_data` makes of a widget: level and mode stay,
/// the data is read, and what is shown is the list of the level that is
/// looked at.
pub open spec fn updated(
    before: KubeWidget,
    after: KubeWidget,
    stamp: Option<Seq<u8>>,
    stored: Option<Seq<u8>>,
    log: Option<Seq<char>>,
) -> bool {
    &&& after.view_mode == before.view_mode
    &&& after.interact_mode == before.interact_mode
    &&& data_updated(before.data, after.data, before.view_mode, stamp, stored, log)
    &&& after.display.deep_view() == Some(level_list(after.data, before.view_mode))
}

/// What a read reports for a widget: a list that could not be read, under
/// the key of the level; else a time that could not be read, under its
/// key; else nothing.
pub open spec fn read_reported(
    r: Result<(), CacheError>,
    before: KubeWidget,
    stamp: Option<Seq<u8>>,
    stored: Option<Seq<u8>>,
) -> bool {
    let no_list = list_unreadable(before.view_mode, before.data.current_pod_name.is_some(), stored);
    match r {
        Ok(()) => !no_list && !stamp_unreadable(stamp),
        Err(e) => if no_list {
            match projection_key(
                before.view_mode,
                before.data.current_namespace_name.deep_view(),
                before.data.current_pod_name.deep_view(),
            ) {
                Some(key) => e.is_deserialize_of(key),
                None => false,
            }
        } else {
            stamp_unreadable(stamp) && e.is_deserialize_of(LAST_REFRESHED_CACHE_KEY@)
        },
    }
}

/// Whether what the cache held as the list of a level is no list. The log
/// level reads no list, and the container level reads one only while a pod
/// is selected.
pub open spec fn list_unreadable(mode: ViewMode, pod_selected: bool, stored: Option<Seq<u8>>) -> bool {
    mode != ViewMode::LOGS && (mode == ViewMode::CONT ==> pod_selected) && list_read(
        stored,
    ).is_none()
}

} // verus!
