//! Stage 2 of the synchronizer: the containers of the pods of one
//! namespace. A pod whose containers the cache holds is not fetched again.

use vstd::prelude::*;
use crate::json::{decode_names, encode_names, json_names, names_json};
use crate::keys::{containers_key, containers_key_text, pods_key, pods_key_text};
use crate::sync::{ActionView, EventView, SyncAction, SyncEvent, STAGE2_PAUSE_MILLIS};

verus! {

/// Where a tick of stage 2 stands.
#[derive(Clone, Copy, Debug, PartialEq, Eq, Structural)]
pub enum Stage2Phase {
    /// The namespace's pod list is being read from the cache.
    ReadingPods,
    /// The cache is being asked for the containers of the pod at `index`.
    Probing,
    /// The cluster is being asked for the pod at `index`.
    Fetching,
    /// The containers of the pod at `index` are being written.
    Storing,
    /// The wait after the pod at `index`.
    Pausing,
    /// The tick is over.
    Finished,
}

/// One tick of stage 2.
#[derive(Debug)]
pub struct Stage2 {
    pub phase: Stage2Phase,
    pub namespace: String,
    pub pods: Vec<String>,
    pub index: usize,
}

/// A `Stage2` by its texts.
pub struct Stage2View {
    pub phase: Stage2Phase,
    pub namespace: Seq<char>,
    pub pods: Seq<Seq<char>>,
    pub index: int,
}

impl View for Stage2 {
    type V = Stage2View;

    open spec fn view(&self) -> Stage2View {
        Stage2View {
            phase: self.phase,
            namespace: self.namespace@,
            pods: self.pods.deep_view(),
            index: self.index as int,
        }
    }
}

/// Stage 2 turning to the pod at `index`: the cache is asked for its
/// containers, or, past the last pod, the tick is over.
pub open spec fn stage2_turn_to(state: Stage2View, index: int) -> (Stage2View, ActionView) {
    if index < state.pods.len() {
        (
            Stage2View { phase: Stage2Phase::Probing, index, ..state },
            ActionView::GetBytes { key: containers_key_text(state.namespace, state.pods[index]) },
        )
    } else {
        (Stage2View { phase: Stage2Phase::Finished, index, ..state }, ActionView::Done)
    }
}

/// Stage 2 waiting after the pod it asked the cluster about.
pub open spec fn stage2_pause(state: Stage2View) -> (Stage2View, ActionView) {
    (
        Stage2View { phase: Stage2Phase::Pausing, ..state },
        ActionView::Sleep { millis: STAGE2_PAUSE_MILLIS },
    )
}

/// One step of stage 2: the state and the action that follow `state` when
/// `event` came of the last action.
///
/// The pod list is read from the cache; where none is stored, or what is
/// stored is no list, the tick is over. Each pod is then probed: where the
/// cache answers with bytes for its containers the pod is passed over;
/// where the key is absent, or the probe fails, the cluster is asked, the
/// answer is written, and the machine waits before the next pod. A failed
/// fetch or write is passed over after the same wait.
pub open spec fn stage2_step(state: Stage2View, event: EventView) -> (Stage2View, ActionView) {
    match state.phase {
        Stage2Phase::ReadingPods => match event {
            EventView::Found(Some(bytes)) => match json_names(bytes) {
                Some(pods) => stage2_turn_to(Stage2View { pods, ..state }, 0),
                None => (Stage2View { phase: Stage2Phase::Finished, ..state }, ActionView::Done),
            },
            _ => (Stage2View { phase: Stage2Phase::Finished, ..state }, ActionView::Done),
        },
        Stage2Phase::Probing => match event {
            EventView::Found(Some(_)) => stage2_turn_to(state, state.index + 1),
            _ => (
                Stage2View { phase: Stage2Phase::Fetching, ..state },
                ActionView::GetPod { namespace: state.namespace, pod: state.pods[state.index] },
            ),
        },
        Stage2Phase::Fetching => match event {
            EventView::Listed(containers) => (
                Stage2View { phase: Stage2Phase::Storing, ..state },
                ActionView::SetBytes {
                    key: containers_key_text(state.namespace, state.pods[state.index]),
                    value: names_json(containers),
                },
            ),
            _ => stage2_pause(state),
        },
        Stage2Phase::Storing => stage2_pause(state),
        Stage2Phase::Pausing => stage2_turn_to(state, state.index + 1),
        Stage2Phase::Finished => (state, ActionView::Done),
    }
}

impl Stage2 {
    /// The machine's invariant: while a pod is worked on, `index` is its
    /// place.
    pub open spec fn wf(&self) -> bool {
        &&& self.index <= self.pods.len()
        &&& (self.phase == Stage2Phase::Probing || self.phase == Stage2Phase::Fetching
            || self.phase == Stage2Phase::Storing || self.phase == Stage2Phase::Pausing)
            ==> self.index < self.pods.len()
    }

    /// Tests the machine's invariant.
    pub fn check(&self) -> (ok: bool)
        ensures
            ok == self.wf(),
    {
        let working = match self.phase {
            Stage2Phase::Probing => true,
            Stage2Phase::Fetching => true,
            Stage2Phase::Storing => true,
            Stage2Phase::Pausing => true,
            _ => false,
        };
        self.index <= self.pods.len() && (!working || self.index < self.pods.len())
    }

    /// Starts a tick for `namespace`: its pod list is to be read.
    pub fn begin(namespace: String) -> (started: (Self, SyncAction))
        ensures
            started.0.wf(),
            started.0@ == (Stage2View {
                phase: Stage2Phase::ReadingPods,
                namespace: namespace@,
                pods: Seq::empty(),
                index: 0,
            }),
            started.1@ == (ActionView::GetBytes { key: pods_key_text(namespace@) }),
    {
        let key = pods_key(namespace.as_str());
        let machine = Stage2 {
            phase: Stage2Phase::ReadingPods,
            namespace,
            pods: Vec::new(),
            index: 0,
        };
        assert(machine.pods.deep_view() =~= Seq::<Seq<char>>::empty());
        (machine, SyncAction::GetBytes { key })
    }

    /// Turns to the pod at `index`.
    fn turn_to(&mut self, index: usize) -> (action: SyncAction)
        requires
            index <= old(self).pods.len(),
        ensures
            final(self).wf(),
            (final(self)@, action@) == stage2_turn_to(old(self)@, index as int),
    {
        self.index = index;
        if index < self.pods.len() {
            self.phase = Stage2Phase::Probing;
            SyncAction::GetBytes {
                key: containers_key(self.namespace.as_str(), self.pods[index].as_str()),
            }
        } else {
            self.phase = Stage2Phase::Finished;
            SyncAction::Done
        }
    }

    /// Waits after the pod at `index`.
    fn pause(&mut self) -> (action: SyncAction)
        requires
            old(self).index < old(self).pods.len(),
        ensures
            final(self).wf(),
            (final(self)@, action@) == stage2_pause(old(self)@),
    {
        self.phase = Stage2Phase::Pausing;
        SyncAction::Sleep { millis: STAGE2_PAUSE_MILLIS }
    }

    /// Ends the tick.
    fn end(&mut self) -> (action: SyncAction)
        requires
            old(self).index <= old(self).pods.len(),
        ensures
            final(self).wf(),
            final(self)@ == (Stage2View { phase: Stage2Phase::Finished, ..old(self)@ }),
            action@ == ActionView::Done,
    {
        self.phase = Stage2Phase::Finished;
        SyncAction::Done
    }

    /// Takes what came of the last action and says what is next.
    pub fn step(&mut self, event: SyncEvent) -> (action: SyncAction)
        requires
            old(self).wf(),
        ensures
            final(self).wf(),
            (final(self)@, action@) == stage2_step(old(self)@, event@),
    {
        match self.phase {
            Stage2Phase::ReadingPods => match event {
                SyncEvent::Found(Some(bytes)) => {
                    let key = pods_key(self.namespace.as_str());
                    match decode_names(key.as_str(), &bytes) {
                        Ok(pods) => {
                            self.pods = pods;
                            self.turn_to(0)
                        },
                        Err(_) => self.end(),
                    }
                },
                _ => self.end(),
            },
            Stage2Phase::Probing => match event {
                SyncEvent::Found(Some(_)) => {
                    let next: usize = self.index + 1;
                    self.turn_to(next)
                },
                _ => {
                    self.phase = Stage2Phase::Fetching;
                    SyncAction::GetPod {
                        namespace: self.namespace.clone(),
                        pod: self.pods[self.index].clone(),
                    }
                },
            },
            Stage2Phase::Fetching => match event {
                SyncEvent::Listed(containers) => {
                    self.phase = Stage2Phase::Storing;
                    SyncAction::SetBytes {
                        key: containers_key(
                            self.namespace.as_str(),
                            self.pods[self.index].as_str(),
                        ),
                        value: encode_names(&containers),
                    }
                },
                _ => self.pause(),
            },
            Stage2Phase::Storing => self.pause(),
            Stage2Phase::Pausing => {
                let next: usize = self.index + 1;
                self.turn_to(next)
            },
            Stage2Phase::Finished => SyncAction::Done,
        }
    }

    /// Whether the tick is over.
    pub fn is_over(&self) -> (over: bool)
        ensures
            over == (self.phase == Stage2Phase::Finished),
    {
        match self.phase {
            Stage2Phase::Finished => true,
            _ => false,
        }
    }
}

/// Stage 2 asks the cluster for a pod only right after the cache was
/// probed for that pod's containers and did not answer with bytes.
pub proof fn lemma_fetch_only_when_absent(state: Stage2View, event: EventView)
    requires
        stage2_step(state, event).1 is GetPod,
    ensures
        state.phase == Stage2Phase::Probing,
        !(event matches EventView::Found(Some(_))),
        stage2_step(state, event).1 == (ActionView::GetPod {
            namespace: state.namespace,
            pod: state.pods[state.index],
        }),
{
}

/// A pod whose containers the cache holds is passed over: the step that
/// follows the probe goes on to the next pod, or ends the tick, and
/// neither asks the cluster nor writes.
pub proof fn lemma_cached_pod_is_skipped(state: Stage2View, bytes: Seq<u8>)
    requires
        state.phase == Stage2Phase::Probing,
    ensures
        stage2_step(state, EventView::Found(Some(bytes))) == stage2_turn_to(state, state.index + 1),
        !(stage2_step(state, EventView::Found(Some(bytes))).1 is GetPod),
        !(stage2_step(state, EventView::Found(Some(bytes))).1 is SetBytes),
{
}

/// Stage 2 writes nothing but the containers of the pod it has just
/// fetched, under that pod's key.
pub proof fn lemma_stage2_writes_fetched_pod(state: Stage2View, event: EventView)
    requires
        stage2_step(state, event).1 is SetBytes,
    ensures
        state.phase == Stage2Phase::Fetching,
        event is Listed,
        stage2_step(state, event).1 == (ActionView::SetBytes {
            key: containers_key_text(state.namespace, state.pods[state.index]),
            value: names_json(event->Listed_0),
        }),
{
}

} // verus!
