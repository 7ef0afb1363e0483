//! The staged synchronizer, as two state machines and a schedule.
//!
//! A machine never touches the cluster or the store. Each step takes what
//! came of the last action and says which action is next; the driver
//! performs it. Stage 1 lists namespaces and their pods; stage 2 fills in
//! the containers of the pods of one namespace, and asks the cluster only
//! for pods that the cache does not hold yet.

use vstd::prelude::*;
use crate::json::{encode_names, encode_seconds, names_json, seconds_json};
use crate::keys::{pods_key, pods_key_text, LAST_REFRESHED_CACHE_KEY, NS_NAMES_CACHE_KEY};
use crate::namespaces::{merged_names, NamespaceData};

verus! {

/// Seconds between two passes of stage 1.
pub const STAGE1_INTERVAL_SECS: u64 = 10;

/// Seconds between two ticks of stage 2.
pub const STAGE2_INTERVAL_SECS: u64 = 20;

/// Milliseconds stage 2 waits after it has asked the cluster for a pod.
pub const STAGE2_PAUSE_MILLIS: u64 = 100;

/// What the driver is to do next. Reads and writes go to the cache table.
#[derive(Debug, Clone, PartialEq, Eq)]
pub enum SyncAction {
    /// List the cluster's namespaces.
    ListNamespaces,
    /// List the pods of a namespace.
    ListPods { namespace: String },
    /// Fetch a pod and report the names of its containers.
    GetPod { namespace: String, pod: String },
    /// Write `value` under `key`.
    SetBytes { key: String, value: Vec<u8> },
    /// Read the bytes under `key`.
    GetBytes { key: String },
    /// Wait.
    Sleep { millis: u64 },
    /// Nothing is left to do.
    Done,
}

/// What came of the last action.
#[derive(Debug, Clone, PartialEq, Eq)]
pub enum SyncEvent {
    /// The cluster answered with names.
    Listed(Vec<String>),
    /// The cluster call failed.
    ApiFailure,
    /// The write went through.
    Stored,
    /// The read went through: the bytes, or `None` where the key is absent.
    Found(Option<Vec<u8>>),
    /// The store failed.
    IoFailure,
    /// The wait is over.
    Slept,
}

/// A `SyncAction` by its texts.
pub enum ActionView {
    ListNamespaces,
    ListPods { namespace: Seq<char> },
    GetPod { namespace: Seq<char>, pod: Seq<char> },
    SetBytes { key: Seq<char>, value: Seq<u8> },
    GetBytes { key: Seq<char> },
    Sleep { millis: u64 },
    Done,
}

/// A `SyncEvent` by its texts.
pub enum EventView {
    Listed(Seq<Seq<char>>),
    ApiFailure,
    Stored,
    Found(Option<Seq<u8>>),
    IoFailure,
    Slept,
}

impl View for SyncAction {
    type V = ActionView;

    open spec fn view(&self) -> ActionView {
        match self {
            SyncAction::ListNamespaces => ActionView::ListNamespaces,
            SyncAction::ListPods { namespace } => ActionView::ListPods { namespace: namespace@ },
            SyncAction::GetPod { namespace, pod } => ActionView::GetPod {
                namespace: namespace@,
                pod: pod@,
            },
            SyncAction::SetBytes { key, value } => ActionView::SetBytes {
                key: key@,
                value: value@,
            },
            SyncAction::GetBytes { key } => ActionView::GetBytes { key: key@ },
            SyncAction::Sleep { millis } => ActionView::Sleep { millis: *millis },
            SyncAction::Done => ActionView::Done,
        }
    }
}

impl View for SyncEvent {
    type V = EventView;

    open spec fn view(&self) -> EventView {
        match self {
            SyncEvent::Listed(names) => EventView::Listed(names.deep_view()),
            SyncEvent::ApiFailure => EventView::ApiFailure,
            SyncEvent::Stored => EventView::Stored,
            SyncEvent::Found(Some(bytes)) => EventView::Found(Some(bytes@)),
            SyncEvent::Found(None) => EventView::Found(None),
            SyncEvent::IoFailure => EventView::IoFailure,
            SyncEvent::Slept => EventView::Slept,
        }
    }
}

/// Where a pass of stage 1 stands.
#[derive(Clone, Copy, Debug, PartialEq, Eq, Structural)]
pub enum Stage1Phase {
    /// The namespaces are being listed.
    ListingNamespaces,
    /// The namespace list is being written.
    StoringNamespaces,
    /// The pods of the namespace at `index` are being listed.
    ListingPods,
    /// The pods of the namespace at `index` are being written.
    StoringPods,
    /// The time of the pass is being written.
    StoringTimestamp,
    /// The pass is complete.
    Finished,
    /// The pass was given up.
    Failed,
}

/// One pass of stage 1.
#[derive(Debug)]
pub struct Stage1 {
    pub phase: Stage1Phase,
    pub namespaces: Vec<String>,
    pub index: usize,
}

/// A `Stage1` by its texts.
pub struct Stage1View {
    pub phase: Stage1Phase,
    pub namespaces: Seq<Seq<char>>,
    pub index: int,
}

impl View for Stage1 {
    type V = Stage1View;

    open spec fn view(&self) -> Stage1View {
        Stage1View {
            phase: self.phase,
            namespaces: self.namespaces.deep_view(),
            index: self.index as int,
        }
    }
}

/// Stage 1 turning to the namespace at `index`: its pods are listed, or,
/// past the last namespace, the time of the pass is written.
pub open spec fn stage1_turn_to(namespaces: Seq<Seq<char>>, index: int, now: i64) -> (
    Stage1View,
    ActionView,
) {
    if index < namespaces.len() {
        (
            Stage1View { phase: Stage1Phase::ListingPods, namespaces, index },
            ActionView::ListPods { namespace: namespaces[index] },
        )
    } else {
        (
            Stage1View { phase: Stage1Phase::StoringTimestamp, namespaces, index },
            ActionView::SetBytes {
                key: LAST_REFRESHED_CACHE_KEY@,
                value: seconds_json(now as int),
            },
        )
    }
}

/// Stage 1 giving the pass up.
pub open spec fn stage1_give_up(state: Stage1View) -> (Stage1View, ActionView) {
    (Stage1View { phase: Stage1Phase::Failed, ..state }, ActionView::Done)
}

/// One step of stage 1: the state and the action that follow `state` when
/// `event` came of the last action, at the time `now`.
///
/// The listed namespaces are written first, each name once. Then each
/// namespace has its pods listed and written in turn; a listing that fails
/// skips that namespace. Last the time is written. A write that does not go
/// through, or a namespace listing that fails, gives the pass up.
pub open spec fn stage1_step(state: Stage1View, event: EventView, now: i64) -> (
    Stage1View,
    ActionView,
) {
    match state.phase {
        Stage1Phase::ListingNamespaces => match event {
            EventView::Listed(listed) => {
                let names = merged_names(Seq::empty(), listed);
                (
                    Stage1View {
                        phase: Stage1Phase::StoringNamespaces,
                        namespaces: names,
                        index: 0,
                    },
                    ActionView::SetBytes { key: NS_NAMES_CACHE_KEY@, value: names_json(names) },
                )
            },
            _ => stage1_give_up(state),
        },
        Stage1Phase::StoringNamespaces => match event {
            EventView::Stored => stage1_turn_to(state.namespaces, 0, now),
            _ => stage1_give_up(state),
        },
        Stage1Phase::ListingPods => match event {
            EventView::Listed(pods) => (
                Stage1View { phase: Stage1Phase::StoringPods, ..state },
                ActionView::SetBytes {
                    key: pods_key_text(state.namespaces[state.index]),
                    value: names_json(pods),
                },
            ),
            _ => stage1_turn_to(state.namespaces, state.index + 1, now),
        },
        Stage1Phase::StoringPods => match event {
            EventView::Stored => stage1_turn_to(state.namespaces, state.index + 1, now),
            _ => stage1_give_up(state),
        },
        Stage1Phase::StoringTimestamp => match event {
            EventView::Stored => (
                Stage1View { phase: Stage1Phase::Finished, ..state },
                ActionView::Done,
            ),
            _ => stage1_give_up(state),
        },
        Stage1Phase::Finished => (state, ActionView::Done),
        Stage1Phase::Failed => (state, ActionView::Done),
    }
}

impl Stage1 {
    /// The machine's invariant: while a namespace's pods are listed or
    /// written, `index` is the place of that namespace.
    pub open spec fn wf(&self) -> bool {
        &&& self.index <= self.namespaces.len()
        &&& (self.phase == Stage1Phase::ListingPods || self.phase == Stage1Phase::StoringPods)
            ==> self.index < self.namespaces.len()
    }

    /// Tests the machine's invariant.
    pub fn check(&self) -> (ok: bool)
        ensures
            ok == self.wf(),
    {
        let working = match self.phase {
            Stage1Phase::ListingPods => true,
            Stage1Phase::StoringPods => true,
            _ => false,
        };
        self.index <= self.namespaces.len() && (!working || self.index < self.namespaces.len())
    }

    /// Starts a pass: the namespaces are to be listed.
    pub fn begin() -> (started: (Self, SyncAction))
        ensures
            started.0.wf(),
            started.0@ == (Stage1View {
                phase: Stage1Phase::ListingNamespaces,
                namespaces: Seq::empty(),
                index: 0,
            }),
            started.1@ == ActionView::ListNamespaces,
    {
        let machine = Stage1 {
            phase: Stage1Phase::ListingNamespaces,
            namespaces: Vec::new(),
            index: 0,
        };
        assert(machine.namespaces.deep_view() =~= Seq::<Seq<char>>::empty());
        (machine, SyncAction::ListNamespaces)
    }

    /// Turns to the namespace at `index`.
    fn turn_to(&mut self, index: usize, now: i64) -> (action: SyncAction)
        requires
            index <= old(self).namespaces.len(),
        ensures
            final(self).wf(),
            (final(self)@, action@) == stage1_turn_to(
                old(self).namespaces.deep_view(),
                index as int,
                now,
            ),
    {
        self.index = index;
        if index < self.namespaces.len() {
            self.phase = Stage1Phase::ListingPods;
            SyncAction::ListPods { namespace: self.namespaces[index].clone() }
        } else {
            self.phase = Stage1Phase::StoringTimestamp;
            SyncAction::SetBytes {
                key: String::from_str(LAST_REFRESHED_CACHE_KEY),
                value: encode_seconds(now),
            }
        }
    }

    /// Gives the pass up.
    fn give_up(&mut self) -> (action: SyncAction)
        requires
            old(self).index <= old(self).namespaces.len(),
        ensures
            final(self).wf(),
            (final(self)@, action@) == stage1_give_up(old(self)@),
    {
        self.phase = Stage1Phase::Failed;
        SyncAction::Done
    }

    /// Takes what came of the last action and says what is next.
    pub fn step(&mut self, event: SyncEvent, now: i64) -> (action: SyncAction)
        requires
            old(self).wf(),
        ensures
            final(self).wf(),
            (final(self)@, action@) == stage1_step(old(self)@, event@, now),
    {
        match self.phase {
            Stage1Phase::ListingNamespaces => match event {
                SyncEvent::Listed(listed) => {
                    let mut data = NamespaceData::new();
                    assert(data.names.deep_view() =~= Seq::<Seq<char>>::empty());
                    data.update(&listed);
                    let value = encode_names(&data.names);
                    self.namespaces = data.names;
                    self.index = 0;
                    self.phase = Stage1Phase::StoringNamespaces;
                    SyncAction::SetBytes { key: String::from_str(NS_NAMES_CACHE_KEY), value }
                },
                _ => self.give_up(),
            },
            Stage1Phase::StoringNamespaces => match event {
                SyncEvent::Stored => self.turn_to(0, now),
                _ => self.give_up(),
            },
            Stage1Phase::ListingPods => match event {
                SyncEvent::Listed(pods) => {
                    self.phase = Stage1Phase::StoringPods;
                    SyncAction::SetBytes {
                        key: pods_key(self.namespaces[self.index].as_str()),
                        value: encode_names(&pods),
                    }
                },
                _ => {
                    let next: usize = self.index + 1;
                    self.turn_to(next, now)
                },
            },
            Stage1Phase::StoringPods => match event {
                SyncEvent::Stored => {
                    let next: usize = self.index + 1;
                    self.turn_to(next, now)
                },
                _ => self.give_up(),
            },
            Stage1Phase::StoringTimestamp => match event {
                SyncEvent::Stored => {
                    self.phase = Stage1Phase::Finished;
                    SyncAction::Done
                },
                _ => self.give_up(),
            },
            Stage1Phase::Finished => SyncAction::Done,
            Stage1Phase::Failed => SyncAction::Done,
        }
    }

    /// Whether the pass has ended, complete or given up.
    pub fn is_over(&self) -> (over: bool)
        ensures
            over == (self.phase == Stage1Phase::Finished || self.phase == Stage1Phase::Failed),
    {
        match self.phase {
            Stage1Phase::Finished => true,
            Stage1Phase::Failed => true,
            _ => false,
        }
    }

    /// The namespaces of a complete pass, for stage 2 to go through; `None`
    /// while the pass runs or when it was given up.
    pub fn outcome(&self) -> (names: Option<Vec<String>>)
        ensures
            names.deep_view() == if self.phase == Stage1Phase::Finished {
                Some(self.namespaces.deep_view())
            } else {
                None
            },
    {
        match self.phase {
            Stage1Phase::Finished => Some(crate::text::clone_names(&self.namespaces)),
            _ => None,
        }
    }
}

} // verus!
