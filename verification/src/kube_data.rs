//! The namespace list as a unit of its own: its data, its cursor and
//! search text, and the little that goes with them.

use vstd::prelude::*;
pub use crate::data::Search;
use crate::namespaces::{merged_names, NamespaceData};
use crate::pods::{PodData, PodInfo};

verus! {

/// The namespaces that a list of them shows.
#[derive(Clone, Debug)]
pub struct NamespaceList {
    pub namespaces: NamespaceData,
}

impl NamespaceList {
    /// A list without namespaces.
    pub fn new() -> (list: Self)
        ensures
            list.namespaces.names@.len() == 0,
    {
        NamespaceList { namespaces: NamespaceData::new() }
    }

    /// The entries to hand to the list on screen: the names, in the order
    /// they were first seen.
    pub fn render_items(&self) -> (items: Vec<String>)
        ensures
            items@ == self.namespaces.names@,
    {
        crate::text::clone_names(&self.namespaces.names)
    }
}

/// The cursor and the search text of the namespace list.
#[derive(Clone, Debug)]
pub struct NamespaceListState {
    pub ns_list_cursor: Option<usize>,
    pub search: Search,
}

impl NamespaceListState {
    /// No cursor, no search text.
    pub fn new() -> (state: Self)
        ensures
            state.ns_list_cursor.is_none(),
            state.search.input@.len() == 0,
    {
        NamespaceListState { search: Search { input: String::new() }, ns_list_cursor: None }
    }

    /// Puts a missing cursor on the first entry, as the list does before
    /// it is drawn.
    pub fn ensure_cursor(&mut self)
        ensures
            final(self).search == old(self).search,
            final(self).ns_list_cursor == match old(self).ns_list_cursor {
                Some(at) => Some(at),
                None => Some(0usize),
            },
    {
        if self.ns_list_cursor.is_none() {
            self.ns_list_cursor = Some(0);
        }
    }
}

/// The namespaces with the pods of one of them.
#[derive(Clone, Debug)]
pub struct KubeData {
    pub namespace_list: NamespaceList,
    pub pods: PodData,
    pub current_pod: PodInfo,
}

impl KubeData {
    /// Nothing known.
    pub fn new() -> (data: Self)
        ensures
            data.namespace_list.namespaces.names@.len() == 0,
            data.pods.list@.len() == 0,
            data.pods.names@.len() == 0,
            data.current_pod.replicas.is_none(),
            data.current_pod.desired_replicas.is_none(),
    {
        KubeData {
            namespace_list: NamespaceList::new(),
            pods: PodData { list: Vec::new(), names: Vec::new() },
            current_pod: PodInfo {
                name: String::new(),
                status: String::new(),
                replicas: None,
                desired_replicas: None,
            },
        }
    }

    /// Takes in a listing of the cluster's namespaces.
    pub fn update_namespaces(&mut self, listed: &Vec<String>)
        ensures
            final(self).pods == old(self).pods,
            final(self).current_pod == old(self).current_pod,
            final(self).namespace_list.namespaces.names.deep_view() == merged_names(
                old(self).namespace_list.namespaces.names.deep_view(),
                listed.deep_view(),
            ),
    {
        self.namespace_list.namespaces.update(listed);
    }
}

/// The state of the namespace list, as the whole of what is on screen.
#[derive(Clone, Debug)]
pub struct KubeState {
    pub namespace_state: NamespaceListState,
}

impl KubeState {
    /// No cursor, no search text.
    pub fn new() -> (state: Self)
        ensures
            state.namespace_state.ns_list_cursor.is_none(),
            state.namespace_state.search.input@.len() == 0,
    {
        KubeState { namespace_state: NamespaceListState::new() }
    }
}

} // verus!
