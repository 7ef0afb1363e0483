//! What a tick of stage 2 amounts to, when a driver performs each action
//! against a cluster and a cache that takes every write: which pods the
//! cluster is asked about, and what the cache holds afterwards.

use vstd::prelude::*;
use crate::json::json_names;
use crate::keys::{
    containers_key_text,
    lemma_key_kinds_apart,
    pods_key_text,
    KUCO_CACHE_TABLE,
};
use crate::pass::{performed, ClusterView};
use crate::stage2::{stage2_step, stage2_turn_to, Stage2Phase, Stage2View};
use crate::store::{stored, CacheView};
use crate::sync::ActionView;

verus! {

/// The pods that the cluster was asked about, in the order asked.
pub type Fetches = Seq<(Seq<char>, Seq<char>)>;

/// The fetches so far, with the one that `action` asks for, if it asks for
/// one.
pub open spec fn noted(fetched: Fetches, action: ActionView) -> Fetches {
    match action {
        ActionView::GetPod { namespace, pod } => fetched.push((namespace, pod)),
        _ => fetched,
    }
}

/// Stage 2 driven for at most `steps` actions from `state` with `action`
/// next: the state it ends in, what the cache then holds, and which pods
/// the cluster was asked about on the way.
pub open spec fn stage2_driven(
    state: Stage2View,
    action: ActionView,
    cluster: ClusterView,
    cache: CacheView,
    fetched: Fetches,
    now: i64,
    steps: nat,
) -> (Stage2View, CacheView, Fetches)
    decreases steps,
{
    if steps == 0 || action is Done {
        (state, cache, fetched)
    } else {
        let (after, event) = performed(cluster, cache, action, now);
        let (next_state, next_action) = stage2_step(state, event);
        stage2_driven(
            next_state,
            next_action,
            cluster,
            after,
            noted(fetched, action),
            now,
            (steps - 1) as nat,
        )
    }
}

/// The start of a tick for `namespace`.
pub open spec fn stage2_start(namespace: Seq<char>) -> Stage2View {
    Stage2View { phase: Stage2Phase::ReadingPods, namespace, pods: Seq::empty(), index: 0 }
}

/// Whether the cache holds the containers of each of `pods`.
pub open spec fn all_cached(cache: CacheView, namespace: Seq<char>, pods: Seq<Seq<char>>) -> bool {
    forall|i: int|
        0 <= i < pods.len() ==> stored(
            cache,
            KUCO_CACHE_TABLE@,
            containers_key_text(namespace, #[trigger] pods[i]),
        ).is_some()
}

/// Whether the cache holds `pods` as the pod list of `namespace`.
pub open spec fn lists_pods(cache: CacheView, namespace: Seq<char>, pods: Seq<Seq<char>>) -> bool {
    match stored(cache, KUCO_CACHE_TABLE@, pods_key_text(namespace)) {
        Some(bytes) => json_names(bytes) == Some(pods),
        None => false,
    }
}

/// Whether the cluster answers for each of `pods`.
pub open spec fn all_answered(
    cluster: ClusterView,
    namespace: Seq<char>,
    pods: Seq<Seq<char>>,
) -> bool {
    forall|i: int|
        0 <= i < pods.len() ==> cluster.containers.dom().contains(
            (namespace, #[trigger] pods[i]),
        )
}

/// One action of a drive.
proof fn lemma_drive_on(
    state: Stage2View,
    action: ActionView,
    cluster: ClusterView,
    cache: CacheView,
    fetched: Fetches,
    now: i64,
    steps: nat,
)
    requires
        steps > 0,
        !(action is Done),
    ensures
        stage2_driven(state, action, cluster, cache, fetched, now, steps) == stage2_driven(
            stage2_step(state, performed(cluster, cache, action, now).1).0,
            stage2_step(state, performed(cluster, cache, action, now).1).1,
            cluster,
            performed(cluster, cache, action, now).0,
            noted(fetched, action),
            now,
            (steps - 1) as nat,
        ),
{
}

/// From the pod at `index` on, over a cache that holds the containers of
/// every pod, the machine probes each pod left, asks the cluster nothing
/// and writes nothing.
proof fn lemma_cached_pods_driven(
    state: Stage2View,
    index: int,
    cluster: ClusterView,
    cache: CacheView,
    fetched: Fetches,
    now: i64,
    steps: nat,
)
    requires
        0 <= index <= state.pods.len(),
        all_cached(cache, state.namespace, state.pods),
        steps >= state.pods.len() - index,
    ensures
        stage2_driven(
            stage2_turn_to(state, index).0,
            stage2_turn_to(state, index).1,
            cluster,
            cache,
            fetched,
            now,
            steps,
        ).1 == cache,
        stage2_driven(
            stage2_turn_to(state, index).0,
            stage2_turn_to(state, index).1,
            cluster,
            cache,
            fetched,
            now,
            steps,
        ).2 == fetched,
        stage2_driven(
            stage2_turn_to(state, index).0,
            stage2_turn_to(state, index).1,
            cluster,
            cache,
            fetched,
            now,
            steps,
        ).0.phase == Stage2Phase::Finished,
    decreases state.pods.len() - index,
{
    let (at, action) = stage2_turn_to(state, index);
    if index < state.pods.len() {
        lemma_drive_on(at, action, cluster, cache, fetched, now, steps);
        assert(stored(
            cache,
            KUCO_CACHE_TABLE@,
            containers_key_text(state.namespace, state.pods[index]),
        ).is_some());
        let event = performed(cluster, cache, action, now).1;
        assert(stage2_step(at, event) == stage2_turn_to(at, index + 1));
        assert(stage2_turn_to(at, index + 1) == stage2_turn_to(state, index + 1));
        lemma_cached_pods_driven(state, index + 1, cluster, cache, fetched, now, (steps - 1) as nat);
    }
}

/// A tick over a cache that holds the containers of every pod of the
/// namespace asks the cluster about no pod and leaves the cache as it is.
pub proof fn lemma_cached_tick_fetches_nothing(
    namespace: Seq<char>,
    pods: Seq<Seq<char>>,
    cluster: ClusterView,
    cache: CacheView,
    now: i64,
    steps: nat,
)
    requires
        lists_pods(cache, namespace, pods),
        all_cached(cache, namespace, pods),
        steps >= pods.len() + 1,
    ensures
        stage2_driven(
            stage2_start(namespace),
            ActionView::GetBytes { key: pods_key_text(namespace) },
            cluster,
            cache,
            Seq::empty(),
            now,
            steps,
        ) == (
            stage2_driven(
                stage2_start(namespace),
                ActionView::GetBytes { key: pods_key_text(namespace) },
                cluster,
                cache,
                Seq::empty(),
                now,
                steps,
            ).0,
            cache,
            Seq::<(Seq<char>, Seq<char>)>::empty(),
        ),
        stage2_driven(
            stage2_start(namespace),
            ActionView::GetBytes { key: pods_key_text(namespace) },
            cluster,
            cache,
            Seq::empty(),
            now,
            steps,
        ).0.phase == Stage2Phase::Finished,
{
    let start = stage2_start(namespace);
    let first = ActionView::GetBytes { key: pods_key_text(namespace) };
    lemma_drive_on(start, first, cluster, cache, Seq::empty(), now, steps);
    let listed = Stage2View { pods, ..start };
    assert(stage2_step(start, performed(cluster, cache, first, now).1) == stage2_turn_to(listed, 0));
    lemma_cached_pods_driven(listed, 0, cluster, cache, Seq::empty(), now, (steps - 1) as nat);
}

/// From the pod at `index` on, with a cluster that answers for every pod,
/// the machine leaves a cache that holds the containers of every pod, and
/// the pod list as it was.
proof fn lemma_answered_pods_driven(
    state: Stage2View,
    index: int,
    cluster: ClusterView,
    cache: CacheView,
    fetched: Fetches,
    now: i64,
    steps: nat,
)
    requires
        0 <= index <= state.pods.len(),
        all_answered(cluster, state.namespace, state.pods),
        all_cached(cache, state.namespace, state.pods.subrange(0, index)),
        steps >= 4 * (state.pods.len() - index),
    ensures
        all_cached(
            stage2_driven(
                stage2_turn_to(state, index).0,
                stage2_turn_to(state, index).1,
                cluster,
                cache,
                fetched,
                now,
                steps,
            ).1,
            state.namespace,
            state.pods,
        ),
        stored(
            stage2_driven(
                stage2_turn_to(state, index).0,
                stage2_turn_to(state, index).1,
                cluster,
                cache,
                fetched,
                now,
                steps,
            ).1,
            KUCO_CACHE_TABLE@,
            pods_key_text(state.namespace),
        ) == stored(cache, KUCO_CACHE_TABLE@, pods_key_text(state.namespace)),
    decreases state.pods.len() - index,
{
    let (at, action) = stage2_turn_to(state, index);
    let namespace = state.namespace;
    let pods = state.pods;
    if index == pods.len() {
        assert(pods.subrange(0, index) == pods);
    } else {
        let pod = pods[index];
        let key = containers_key_text(namespace, pod);
        lemma_key_kinds_apart(namespace, namespace, pod);
        lemma_drive_on(at, action, cluster, cache, fetched, now, steps);
        if stored(cache, KUCO_CACHE_TABLE@, key).is_some() {
            let event = performed(cluster, cache, action, now).1;
            assert(stage2_step(at, event) == stage2_turn_to(at, index + 1));
            assert(stage2_turn_to(at, index + 1) == stage2_turn_to(state, index + 1));
            assert forall|i: int| 0 <= i < index + 1 implies stored(
                cache,
                KUCO_CACHE_TABLE@,
                containers_key_text(namespace, #[trigger] pods.subrange(0, index + 1)[i]),
            ).is_some() by {
                if i < index {
                    assert(pods.subrange(0, index)[i] == pods[i]);
                }
            }
            lemma_answered_pods_driven(
                state,
                index + 1,
                cluster,
                cache,
                fetched,
                now,
                (steps - 1) as nat,
            );
        } else {
            let (fetching, ask) = stage2_step(at, performed(cluster, cache, action, now).1);
            assert(ask == ActionView::GetPod { namespace, pod });
            assert(cluster.containers.dom().contains((namespace, pod)));
            lemma_drive_on(fetching, ask, cluster, cache, fetched, now, (steps - 1) as nat);
            let (storing, write) = stage2_step(fetching, performed(cluster, cache, ask, now).1);
            let fetched1 = noted(fetched, ask);
            assert(write is SetBytes);
            lemma_drive_on(storing, write, cluster, cache, fetched1, now, (steps - 2) as nat);
            let cache1 = performed(cluster, cache, write, now).0;
            let (pausing, wait) = stage2_step(storing, performed(cluster, cache, write, now).1);
            assert(wait is Sleep);
            lemma_drive_on(pausing, wait, cluster, cache1, fetched1, now, (steps - 3) as nat);
            let (next_state, next_action) = stage2_step(
                pausing,
                performed(cluster, cache1, wait, now).1,
            );
            assert((next_state, next_action) == stage2_turn_to(pausing, index + 1));
            assert(stage2_turn_to(pausing, index + 1) == stage2_turn_to(state, index + 1));
            assert(stored(cache1, KUCO_CACHE_TABLE@, key).is_some());
            assert forall|i: int| 0 <= i < index + 1 implies stored(
                cache1,
                KUCO_CACHE_TABLE@,
                containers_key_text(namespace, #[trigger] pods.subrange(0, index + 1)[i]),
            ).is_some() by {
                if i < index {
                    assert(pods.subrange(0, index)[i] == pods[i]);
                }
            }
            assert(stored(cache1, KUCO_CACHE_TABLE@, pods_key_text(namespace)) == stored(
                cache,
                KUCO_CACHE_TABLE@,
                pods_key_text(namespace),
            ));
            lemma_answered_pods_driven(
                state,
                index + 1,
                cluster,
                cache1,
                fetched1,
                now,
                (steps - 4) as nat,
            );
        }
    }
}

/// After a tick in which the cluster answered for every pod, the next tick
/// for the same namespace asks the cluster about no pod: no pod is fetched
/// a second time while its containers are in the cache.
pub proof fn lemma_second_tick_fetches_nothing(
    namespace: Seq<char>,
    pods: Seq<Seq<char>>,
    cluster: ClusterView,
    cache: CacheView,
    now: i64,
    later: i64,
    steps: nat,
)
    requires
        lists_pods(cache, namespace, pods),
        all_answered(cluster, namespace, pods),
        steps >= 4 * pods.len() + 1,
    ensures
        ({
            let first = stage2_driven(
                stage2_start(namespace),
                ActionView::GetBytes { key: pods_key_text(namespace) },
                cluster,
                cache,
                Seq::empty(),
                now,
                steps,
            );
            let second = stage2_driven(
                stage2_start(namespace),
                ActionView::GetBytes { key: pods_key_text(namespace) },
                cluster,
                first.1,
                Seq::empty(),
                later,
                steps,
            );
            &&& all_cached(first.1, namespace, pods)
            &&& second.2 == Seq::<(Seq<char>, Seq<char>)>::empty()
            &&& second.1 == first.1
        }),
{
    let start = stage2_start(namespace);
    let read = ActionView::GetBytes { key: pods_key_text(namespace) };
    lemma_drive_on(start, read, cluster, cache, Seq::empty(), now, steps);
    let listed = Stage2View { pods, ..start };
    assert(stage2_step(start, performed(cluster, cache, read, now).1) == stage2_turn_to(listed, 0));
    assert(pods.subrange(0, 0).len() == 0);
    lemma_answered_pods_driven(listed, 0, cluster, cache, Seq::empty(), now, (steps - 1) as nat);
    let first = stage2_driven(start, read, cluster, cache, Seq::empty(), now, steps);
    assert(lists_pods(first.1, namespace, pods));
    lemma_cached_tick_fetches_nothing(namespace, pods, cluster, first.1, later, steps);
}

/// Whether `action` is what the machine in `state` waits on over `cache`:
/// the action that the step into `state` asked for, and, while the cluster
/// is asked about a pod or the answer is written, a cache that does not
/// hold the pod's containers.
pub open spec fn awaited(state: Stage2View, action: ActionView, cache: CacheView) -> bool {
    let key = containers_key_text(state.namespace, state.pods[state.index]);
    &&& 0 <= state.index <= state.pods.len()
    &&& match state.phase {
        Stage2Phase::ReadingPods => action == (ActionView::GetBytes {
            key: pods_key_text(state.namespace),
        }),
        Stage2Phase::Probing => state.index < state.pods.len() && action == (ActionView::GetBytes {
            key,
        }),
        Stage2Phase::Fetching => {
            &&& state.index < state.pods.len()
            &&& action == (ActionView::GetPod {
                namespace: state.namespace,
                pod: state.pods[state.index],
            })
            &&& stored(cache, KUCO_CACHE_TABLE@, key).is_none()
        },
        Stage2Phase::Storing => {
            &&& state.index < state.pods.len()
            &&& action is SetBytes
            &&& action->SetBytes_key == key
            &&& stored(cache, KUCO_CACHE_TABLE@, key).is_none()
        },
        Stage2Phase::Pausing => state.index < state.pods.len() && action is Sleep,
        Stage2Phase::Finished => action is Done,
    }
}

/// Two pods of one namespace have two keys for their containers.
proof fn lemma_pod_keys_apart(namespace: Seq<char>, pod: Seq<char>, other: Seq<char>)
    requires
        containers_key_text(namespace, pod) == containers_key_text(namespace, other),
    ensures
        pod == other,
{
    let key = containers_key_text(namespace, pod);
    let key2 = containers_key_text(namespace, other);
    let start = key.len() - pod.len();
    assert(key.len() == key2.len());
    assert(pod.len() == other.len());
    assert forall|i: int| 0 <= i < pod.len() implies pod[i] == other[i] by {
        assert(key[start + i] == pod[i]);
        assert(key2[start + i] == other[i]);
    }
    assert(pod =~= other);
}

/// However a tick goes on from a state of the machine, a pod whose
/// containers the cache holds is not among the pods that the cluster is
/// asked about, and what the cache holds for it stays.
pub proof fn lemma_cached_pod_kept(
    state: Stage2View,
    action: ActionView,
    cluster: ClusterView,
    cache: CacheView,
    fetched: Fetches,
    now: i64,
    steps: nat,
    pod: Seq<char>,
)
    requires
        awaited(state, action, cache),
        stored(cache, KUCO_CACHE_TABLE@, containers_key_text(state.namespace, pod)).is_some(),
        !fetched.contains((state.namespace, pod)),
    ensures
        !stage2_driven(state, action, cluster, cache, fetched, now, steps).2.contains(
            (state.namespace, pod),
        ),
        stored(
            stage2_driven(state, action, cluster, cache, fetched, now, steps).1,
            KUCO_CACHE_TABLE@,
            containers_key_text(state.namespace, pod),
        ) == stored(cache, KUCO_CACHE_TABLE@, containers_key_text(state.namespace, pod)),
    decreases steps,
{
    if steps > 0 && !(action is Done) {
        let namespace = state.namespace;
        let kept = containers_key_text(namespace, pod);
        let (after, event) = performed(cluster, cache, action, now);
        let (next_state, next_action) = stage2_step(state, event);
        let next_fetched = noted(fetched, action);
        lemma_drive_on(state, action, cluster, cache, fetched, now, steps);
        assert(next_state.namespace == namespace);
        if state.phase == Stage2Phase::Fetching || state.phase == Stage2Phase::Storing {
            let at = state.pods[state.index];
            if at == pod {
                assert(containers_key_text(namespace, at) == kept);
            }
            assert(at != pod);
            if containers_key_text(namespace, at) == kept {
                lemma_pod_keys_apart(namespace, at, pod);
            }
            assert(containers_key_text(namespace, at) != kept);
        }
        assert(stored(after, KUCO_CACHE_TABLE@, kept) == stored(cache, KUCO_CACHE_TABLE@, kept));
        assert(!next_fetched.contains((namespace, pod))) by {
            if next_fetched.contains((namespace, pod)) {
                let i = choose|i: int|
                    0 <= i < next_fetched.len() && next_fetched[i] == (namespace, pod);
                if i < fetched.len() {
                    assert(fetched[i] == (namespace, pod));
                    assert(fetched.contains((namespace, pod)));
                }
            }
        }
        assert(awaited(next_state, next_action, after));
        lemma_cached_pod_kept(
            next_state,
            next_action,
            cluster,
            after,
            next_fetched,
            now,
            (steps - 1) as nat,
            pod,
        );
    }
}

/// No pod is fetched while its containers are in the cache: in a tick for
/// `namespace`, whatever holds of the other pods, the cluster is not asked
/// about a pod whose key is present, and the bytes under that key stay.
pub proof fn lemma_cached_pod_is_never_fetched(
    namespace: Seq<char>,
    pod: Seq<char>,
    cluster: ClusterView,
    cache: CacheView,
    now: i64,
    steps: nat,
)
    requires
        stored(cache, KUCO_CACHE_TABLE@, containers_key_text(namespace, pod)).is_some(),
    ensures
        !stage2_driven(
            stage2_start(namespace),
            ActionView::GetBytes { key: pods_key_text(namespace) },
            cluster,
            cache,
            Seq::empty(),
            now,
            steps,
        ).2.contains((namespace, pod)),
        stored(
            stage2_driven(
                stage2_start(namespace),
                ActionView::GetBytes { key: pods_key_text(namespace) },
                cluster,
                cache,
                Seq::empty(),
                now,
                steps,
            ).1,
            KUCO_CACHE_TABLE@,
            containers_key_text(namespace, pod),
        ) == stored(cache, KUCO_CACHE_TABLE@, containers_key_text(namespace, pod)),
{
    lemma_cached_pod_kept(
        stage2_start(namespace),
        ActionView::GetBytes { key: pods_key_text(namespace) },
        cluster,
        cache,
        Seq::empty(),
        now,
        steps,
        pod,
    );
}

} // verus!
