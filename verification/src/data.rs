//! What the dashboard knows and points at: the lists of each level, the
//! names that are selected, and each level's cursor and search text.

use vstd::prelude::*;
use crate::clock::{clock_text, format_clock, has_clock};
use crate::containers::ContainerData;
use crate::error::{CacheError, KucoBackendError};
use crate::json::{decode_names, decode_seconds, json_names, json_seconds};
use crate::keys::{
    containers_key,
    containers_key_text,
    pods_key,
    pods_key_text,
    LAST_REFRESHED_CACHE_KEY,
    NS_NAMES_CACHE_KEY,
};
use crate::logs::{fetch_failure_text, LogData};
use crate::namespaces::NamespaceData;
use crate::pods::{PodData, PodInfo};
use crate::text::{clone_names, text_lines};

verus! {

/// The namespace that is looked at while none is selected.
pub const DEFAULT_NAMESPACE: &'static str = "default";

/// What the header shows before the time of a pass is known.
pub const SYNCING_LABEL: &'static str = "..syncing..";

/// The text of a search.
#[derive(Debug, Clone, Default)]
pub struct Search {
    pub input: String,
}

/// The cursor and the search text of one level. The cursor counts from the
/// first entry of the list that is shown.
#[derive(Clone, Debug)]
pub struct KubeComponentState {
    pub list_cursor: Option<usize>,
    pub search: Search,
}

/// The cursor after a step towards the end of a list of `len` entries: one
/// further, but never past the last entry. Without a cursor the first
/// entry is taken. An empty list leaves the cursor as it is.
pub open spec fn cursor_after_up(cursor: Option<usize>, len: int) -> Option<usize> {
    match cursor {
        None => if len > 0 {
            Some(0usize)
        } else {
            None
        },
        Some(at) => if at + 1 < len {
            Some((at + 1) as usize)
        } else {
            Some(at)
        },
    }
}

/// The cursor after a step towards the start of a list: one back, but never
/// before the first entry. Without a cursor there is nothing to move.
pub open spec fn cursor_after_down(cursor: Option<usize>) -> Option<usize> {
    match cursor {
        None => None,
        Some(at) => if at > 0 {
            Some((at - 1) as usize)
        } else {
            Some(at)
        },
    }
}

/// The cursor as a list of `len` entries is drawn with it: a missing
/// cursor stands on the first entry, a cursor past the end on the last,
/// and over an empty list the cursor stands at the start.
pub open spec fn cursor_in_range(cursor: Option<usize>, len: int) -> Option<usize> {
    match cursor {
        None => Some(0usize),
        Some(at) => if at < len {
            Some(at)
        } else if len > 0 {
            Some((len - 1) as usize)
        } else {
            Some(0usize)
        },
    }
}

/// Brings a cursor into the range of a list of `len` entries.
pub fn settled_cursor(cursor: Option<usize>, len: usize) -> (settled: Option<usize>)
    ensures
        settled == cursor_in_range(cursor, len as int),
{
    match cursor {
        None => Some(0),
        Some(at) => {
            if at < len {
                Some(at)
            } else if len > 0 {
                Some(len - 1)
            } else {
                Some(0)
            }
        },
    }
}

/// Whether the cursor, if there is one, points into a list of `len`
/// entries.
pub open spec fn cursor_within(cursor: Option<usize>, len: int) -> bool {
    match cursor {
        None => true,
        Some(at) => at < len,
    }
}

impl KubeComponentState {
    /// No cursor, no search text.
    pub fn new() -> (state: Self)
        ensures
            state.list_cursor.is_none(),
            state.search.input@.len() == 0,
    {
        KubeComponentState { search: Search { input: String::new() }, list_cursor: None }
    }

    /// Moves the cursor one entry towards the end of a list of `len`
    /// entries.
    pub fn select_next(&mut self, len: usize)
        ensures
            final(self).search == old(self).search,
            final(self).list_cursor == cursor_after_up(old(self).list_cursor, len as int),
    {
        match self.list_cursor {
            None => {
                if len > 0 {
                    self.list_cursor = Some(0);
                }
            },
            Some(at) => {
                if at < len && at + 1 < len {
                    self.list_cursor = Some(at + 1);
                }
            },
        }
    }

    /// Moves the cursor one entry towards the start of the list.
    pub fn select_previous(&mut self)
        ensures
            final(self).search == old(self).search,
            final(self).list_cursor == cursor_after_down(old(self).list_cursor),
    {
        match self.list_cursor {
            None => {},
            Some(at) => {
                if at > 0 {
                    self.list_cursor = Some(at - 1);
                }
            },
        }
    }

    /// Brings the cursor into the range of a list of `len` entries.
    pub fn settle_cursor(&mut self, len: usize)
        ensures
            final(self).search == old(self).search,
            final(self).list_cursor == cursor_in_range(old(self).list_cursor, len as int),
    {
        self.list_cursor = settled_cursor(self.list_cursor, len);
    }

    /// Puts the cursor on the first entry.
    pub fn select_first(&mut self)
        ensures
            final(self).search == old(self).search,
            final(self).list_cursor == Some(0usize),
    {
        self.list_cursor = Some(0);
    }
}

/// A cursor within the list stays within it, whichever way it is moved; on
/// a list of one entry it stays on that entry.
pub proof fn lemma_cursor_stays_within(cursor: Option<usize>, len: int)
    requires
        cursor_within(cursor, len),
    ensures
        cursor_within(cursor_after_up(cursor, len), len),
        cursor_within(cursor_after_down(cursor), len),
        len == 1 && cursor.is_some() ==> cursor_after_up(cursor, len) == Some(0usize)
            && cursor_after_down(cursor) == Some(0usize),
{
}

/// A cursor that was brought into range points into the list, unless the
/// list is empty; a cursor that points into the list is left where it is.
pub proof fn lemma_cursor_in_range(cursor: Option<usize>, len: int)
    requires
        0 <= len <= usize::MAX,
    ensures
        cursor_in_range(cursor, len).is_some(),
        len > 0 ==> cursor_within(cursor_in_range(cursor, len), len),
        cursor.is_some() && cursor_within(cursor, len) ==> cursor_in_range(cursor, len) == cursor,
{
}

/// At either end of the list a step further changes nothing.
pub proof fn lemma_cursor_stops_at_ends(len: int)
    requires
        0 < len <= usize::MAX,
    ensures
        cursor_after_up(Some((len - 1) as usize), len) == Some((len - 1) as usize),
        cursor_after_down(Some(0usize)) == Some(0usize),
{
}

/// The cursors and search texts of the four levels.
#[derive(Debug)]
pub struct KubeWidgetState {
    pub namespace_state: KubeComponentState,
    pub pods_state: KubeComponentState,
    pub containers_state: KubeComponentState,
    pub logs_state: KubeComponentState,
}

impl KubeWidgetState {
    /// Every level without cursor and search text.
    pub fn new() -> (state: Self)
        ensures
            state.namespace_state.list_cursor.is_none(),
            state.pods_state.list_cursor.is_none(),
            state.containers_state.list_cursor.is_none(),
            state.logs_state.list_cursor.is_none(),
            state.namespace_state.search.input@.len() == 0,
            state.pods_state.search.input@.len() == 0,
            state.containers_state.search.input@.len() == 0,
            state.logs_state.search.input@.len() == 0,
    {
        KubeWidgetState {
            namespace_state: KubeComponentState::new(),
            pods_state: KubeComponentState::new(),
            containers_state: KubeComponentState::new(),
            logs_state: KubeComponentState::new(),
        }
    }
}

impl Default for KubeWidgetState {
    fn default() -> (state: Self)
        ensures
            state.namespace_state.list_cursor.is_none(),
            state.pods_state.list_cursor.is_none(),
            state.containers_state.list_cursor.is_none(),
            state.logs_state.list_cursor.is_none(),
    {
        KubeWidgetState::new()
    }
}

/// The lists of each level and the names that are selected.
#[derive(Clone, Debug)]
pub struct KubeData {
    /// The time of the last complete pass of stage 1, as the header shows
    /// it.
    pub last_refreshed_at: String,
    pub current_namespace_name: Option<String>,
    pub current_pod_name: Option<String>,
    pub current_container_name: Option<String>,
    pub current_log_line: Option<String>,
    pub current_pod_info: PodInfo,
    pub namespace_names_list: Vec<String>,
    pub pod_names_list: Vec<String>,
    pub namespaces: NamespaceData,
    pub pods: PodData,
    pub containers: ContainerData,
    pub logs: LogData,
}

/// The namespace that is looked at: the one selected, or the default.
pub open spec fn namespace_or_default(selected: Option<Seq<char>>) -> Seq<char> {
    match selected {
        Some(name) => name,
        None => DEFAULT_NAMESPACE@,
    }
}

/// The list that a read of the cache gives: what is stored, or the empty
/// list where nothing is; `None` where what is stored is no list.
pub open spec fn list_read(stored: Option<Seq<u8>>) -> Option<Seq<Seq<char>>> {
    match stored {
        None => Some(Seq::empty()),
        Some(bytes) => json_names(bytes),
    }
}

/// The bytes of a read, as contracts speak of them.
pub open spec fn bytes_read(stored: Option<Vec<u8>>) -> Option<Seq<u8>> {
    match stored {
        None => None,
        Some(bytes) => Some(bytes@),
    }
}

/// Reads a list of names out of what the cache held under `key`. An absent
/// entry is the empty list; bytes that are no list are a failure of their
/// own.
pub fn read_list(key: &str, stored: Option<Vec<u8>>) -> (r: Result<Vec<String>, CacheError>)
    ensures
        match list_read(bytes_read(stored)) {
            Some(names) => r matches Ok(list) && list.deep_view() == names,
            None => r matches Err(e) && e.is_deserialize_of(key@),
        },
{
    match stored {
        None => {
            let list: Vec<String> = Vec::new();
            assert(list.deep_view() =~= Seq::<Seq<char>>::empty());
            Ok(list)
        },
        Some(bytes) => decode_names(key, &bytes),
    }
}

/// The header's time after `stamp` was read: the time of day of the stored
/// second, midnight where nothing is stored, and the label as it was where
/// what is stored is no time or falls on no calendar date.
pub open spec fn label_after(label: Seq<char>, stamp: Option<Seq<u8>>) -> Seq<char> {
    match stamp {
        None => clock_text(0),
        Some(bytes) => match json_seconds(bytes) {
            Some(seconds) => if has_clock(seconds as i64) {
                clock_text(seconds)
            } else {
                label
            },
            None => label,
        },
    }
}

/// A list after `stored` was read for it: the stored list, the empty list
/// where nothing is stored, and the list as it was where what is stored is
/// no list.
pub open spec fn list_after(list: Seq<Seq<char>>, stored: Option<Seq<u8>>) -> Seq<Seq<char>> {
    match list_read(stored) {
        Some(names) => names,
        None => list,
    }
}

/// The log lines after `log` was fetched for the selected container: the
/// lines of the text, or of the line that says that the fetch failed;
/// while no pod or no container is selected, the lines as they were.
pub open spec fn lines_after(data: KubeData, log: Option<Seq<char>>) -> Seq<Seq<char>> {
    match (data.current_pod_name.deep_view(), data.current_container_name.deep_view()) {
        (Some(pod), Some(container)) => text_lines(
            match log {
                Some(text) => text,
                None => fetch_failure_text(
                    container,
                    pod,
                    namespace_or_default(data.current_namespace_name.deep_view()),
                ),
            },
        ),
        _ => data.logs.lines.deep_view(),
    }
}

/// Whether what the cache held as the time of the last pass is no time.
pub open spec fn stamp_unreadable(stamp: Option<Seq<u8>>) -> bool {
    match stamp {
        Some(bytes) => json_seconds(bytes).is_none(),
        None => false,
    }
}

impl KubeData {
    /// Nothing known, nothing selected.
    pub fn new() -> (data: Self)
        ensures
            data.last_refreshed_at@ == SYNCING_LABEL@,
            data.current_namespace_name.is_none(),
            data.current_pod_name.is_none(),
            data.current_container_name.is_none(),
            data.current_log_line.is_none(),
            data.namespace_names_list@.len() == 0,
            data.pod_names_list@.len() == 0,
            data.namespaces.names@.len() == 0,
            data.pods.list@.len() == 0,
            data.pods.names@.len() == 0,
            data.containers.names@.len() == 0,
            data.logs.lines@.len() == 0,
            data.current_pod_info.name@.len() == 0,
            data.current_pod_info.status@.len() == 0,
            data.current_pod_info.replicas.is_none(),
            data.current_pod_info.desired_replicas.is_none(),
    {
        KubeData {
            last_refreshed_at: String::from_str(SYNCING_LABEL),
            namespaces: NamespaceData::new(),
            current_namespace_name: None,
            current_log_line: None,
            pods: PodData { list: Vec::new(), names: Vec::new() },
            current_pod_info: PodInfo {
                name: String::new(),
                status: String::new(),
                replicas: None,
                desired_replicas: None,
            },
            current_pod_name: None,
            containers: ContainerData::new(),
            current_container_name: None,
            logs: LogData::new(),
            namespace_names_list: Vec::new(),
            pod_names_list: Vec::new(),
        }
    }

    /// The namespaces that were read last.
    pub fn get_namespaces(&self) -> (names: Vec<String>)
        ensures
            names@ == self.namespace_names_list@,
    {
        clone_names(&self.namespace_names_list)
    }

    /// The pods that were read last.
    pub fn get_pods(&self) -> (names: Vec<String>)
        ensures
            names@ == self.pod_names_list@,
    {
        clone_names(&self.pod_names_list)
    }

    /// The log lines that were fetched last.
    pub fn get_logs(&self) -> (lines: Vec<String>)
        ensures
            lines@ == self.logs.lines@,
    {
        clone_names(&self.logs.lines)
    }

    /// The containers that were read last.
    pub fn get_containers(&self) -> (names: Vec<String>)
        ensures
            names@ == self.containers.names@,
    {
        clone_names(&self.containers.names)
    }

    /// The namespace that is looked at: the one selected, or the default.
    pub fn namespace(&self) -> (name: String)
        ensures
            name@ == namespace_or_default(self.current_namespace_name.deep_view()),
    {
        match &self.current_namespace_name {
            Some(name) => name.clone(),
            None => String::from_str(DEFAULT_NAMESPACE),
        }
    }

    /// The key of the pods of the namespace that is looked at.
    pub fn pods_cache_key(&self) -> (key: String)
        ensures
            key@ == pods_key_text(namespace_or_default(self.current_namespace_name.deep_view())),
    {
        pods_key(self.namespace().as_str())
    }

    /// The key of the containers of the pod that is selected, in the
    /// namespace that is looked at; `None` while no pod is selected.
    pub fn containers_cache_key(&self) -> (key: Option<String>)
        ensures
            key.deep_view() == match self.current_pod_name.deep_view() {
                Some(pod) => Some(
                    containers_key_text(
                        namespace_or_default(self.current_namespace_name.deep_view()),
                        pod,
                    ),
                ),
                None => None,
            },
    {
        match &self.current_pod_name {
            Some(pod) => Some(containers_key(self.namespace().as_str(), pod.as_str())),
            None => None,
        }
    }

    /// Takes in what the cache held under the key of the last pass's time.
    /// An absent entry counts as the epoch. A time that falls on no
    /// calendar date, or bytes that are no number, leave the label as it
    /// is; the latter is reported.
    pub fn get_timestamp(&mut self, stored: Option<Vec<u8>>) -> (r: Result<(), CacheError>)
        ensures
            *final(self) == (KubeData {
                last_refreshed_at: final(self).last_refreshed_at,
                ..*old(self)
            }),
            final(self).last_refreshed_at@ == label_after(
                old(self).last_refreshed_at@,
                bytes_read(stored),
            ),
            match r {
                Ok(()) => !stamp_unreadable(bytes_read(stored)),
                Err(e) => stamp_unreadable(bytes_read(stored)) && e.is_deserialize_of(
                    LAST_REFRESHED_CACHE_KEY@,
                ),
            },
    {
        let seconds: i64 = match stored {
            None => 0,
            Some(bytes) => match decode_seconds(LAST_REFRESHED_CACHE_KEY, &bytes) {
                Ok(seconds) => seconds,
                Err(e) => {
                    return Err(e);
                },
            },
        };
        match format_clock(seconds) {
            Some(label) => {
                self.last_refreshed_at = label;
            },
            None => {},
        }
        Ok(())
    }

    /// Takes in what the cache held under the key of the namespace list.
    pub fn update_namespaces_names_list(&mut self, stored: Option<Vec<u8>>) -> (r: Result<
        (),
        CacheError,
    >)
        ensures
            *final(self) == (KubeData {
                namespace_names_list: final(self).namespace_names_list,
                ..*old(self)
            }),
            final(self).namespace_names_list.deep_view() == list_after(
                old(self).namespace_names_list.deep_view(),
                bytes_read(stored),
            ),
            match r {
                Ok(()) => list_read(bytes_read(stored)).is_some(),
                Err(e) => list_read(bytes_read(stored)).is_none() && e.is_deserialize_of(
                    NS_NAMES_CACHE_KEY@,
                ),
            },
    {
        match read_list(NS_NAMES_CACHE_KEY, stored) {
            Ok(names) => {
                self.namespace_names_list = names;
                Ok(())
            },
            Err(e) => Err(e),
        }
    }

    /// Takes in what the cache held under the key of the pods of the
    /// namespace that is looked at.
    pub fn update_pods_names_list(&mut self, stored: Option<Vec<u8>>) -> (r: Result<
        (),
        CacheError,
    >)
        ensures
            *final(self) == (KubeData {
                pod_names_list: final(self).pod_names_list,
                ..*old(self)
            }),
            final(self).pod_names_list.deep_view() == list_after(
                old(self).pod_names_list.deep_view(),
                bytes_read(stored),
            ),
            match r {
                Ok(()) => list_read(bytes_read(stored)).is_some(),
                Err(e) => list_read(bytes_read(stored)).is_none() && e.is_deserialize_of(
                    pods_key_text(namespace_or_default(old(self).current_namespace_name.deep_view())),
                ),
            },
    {
        let key = self.pods_cache_key();
        match read_list(key.as_str(), stored) {
            Ok(names) => {
                self.pod_names_list = names;
                Ok(())
            },
            Err(e) => Err(e),
        }
    }

    /// Takes in what the cache held under the key of the containers of the
    /// pod that is selected. While no pod is selected nothing changes.
    pub fn update_containers_names_list(&mut self, stored: Option<Vec<u8>>) -> (r: Result<
        (),
        CacheError,
    >)
        ensures
            *final(self) == (KubeData { containers: final(self).containers, ..*old(self) }),
            match old(self).current_pod_name.deep_view() {
                None => r.is_ok() && final(self).containers == old(self).containers,
                Some(pod) => {
                    &&& final(self).containers.names.deep_view() == list_after(
                        old(self).containers.names.deep_view(),
                        bytes_read(stored),
                    )
                    &&& match r {
                        Ok(()) => list_read(bytes_read(stored)).is_some(),
                        Err(e) => list_read(bytes_read(stored)).is_none() && e.is_deserialize_of(
                            containers_key_text(
                                namespace_or_default(old(self).current_namespace_name.deep_view()),
                                pod,
                            ),
                        ),
                    }
                },
            },
    {
        match self.containers_cache_key() {
            None => Ok(()),
            Some(key) => match read_list(key.as_str(), stored) {
                Ok(names) => {
                    self.containers.names = names;
                    Ok(())
                },
                Err(e) => Err(e),
            },
        }
    }

    /// Takes in the log text that was fetched for the container that is
    /// selected, `None` where the fetch failed. While no pod or no
    /// container is selected nothing changes.
    pub fn update_logs_lines_list(&mut self, fetched: Option<String>)
        ensures
            *final(self) == (KubeData { logs: final(self).logs, ..*old(self) }),
            final(self).logs.lines.deep_view() == lines_after(*old(self), fetched.deep_view()),
            old(self).current_pod_name.is_none() || old(self).current_container_name.is_none()
                ==> final(self).logs == old(self).logs,
    {
        let namespace = self.namespace();
        match &self.current_pod_name {
            Some(pod) => match &self.current_container_name {
                Some(container) => {
                    let pod = pod.clone();
                    let container = container.clone();
                    self.logs.update(
                        fetched,
                        namespace.as_str(),
                        pod.as_str(),
                        container.as_str(),
                    );
                },
                None => {},
            },
            None => {},
        }
    }

    /// Takes in what was gathered of the pods of the namespace that is
    /// looked at; the names that go with them are those read last from the
    /// cache. A failure leaves the gathered list as it was.
    pub fn update_pods(&mut self, gathered: Result<Vec<PodInfo>, KucoBackendError>)
        ensures
            *final(self) == (KubeData { pods: final(self).pods, ..*old(self) }),
            final(self).pods.names@ == old(self).pod_names_list@,
            final(self).pods.list == match gathered {
                Ok(list) => list,
                Err(_) => old(self).pods.list,
            },
    {
        let _ = self.pods.update_all(gathered);
        self.pods.names = self.get_pods();
    }

    /// Takes in what the cache held under the keys of the namespace list,
    /// of the pods of the namespace that is looked at, and of the time of
    /// the last pass. What cannot be read leaves its part as it was.
    pub fn update_all(
        &mut self,
        namespaces: Option<Vec<u8>>,
        pods: Option<Vec<u8>>,
        stamp: Option<Vec<u8>>,
    )
        ensures
            *final(self) == (KubeData {
                namespace_names_list: final(self).namespace_names_list,
                pod_names_list: final(self).pod_names_list,
                last_refreshed_at: final(self).last_refreshed_at,
                ..*old(self)
            }),
            final(self).namespace_names_list.deep_view() == list_after(
                old(self).namespace_names_list.deep_view(),
                bytes_read(namespaces),
            ),
            final(self).pod_names_list.deep_view() == list_after(
                old(self).pod_names_list.deep_view(),
                bytes_read(pods),
            ),
            final(self).last_refreshed_at@ == label_after(
                old(self).last_refreshed_at@,
                bytes_read(stamp),
            ),
    {
        let _ = self.update_namespaces_names_list(namespaces);
        let _ = self.update_pods_names_list(pods);
        let _ = self.get_timestamp(stamp);
    }
}

} // verus!
