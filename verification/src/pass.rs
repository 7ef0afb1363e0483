//! What a pass of stage 1 amounts to, when a driver performs each action
//! against a cluster and a cache that takes every write.

use vstd::prelude::*;
use crate::json::{names_json, seconds_json};
use crate::keys::{
    lemma_key_kinds_apart,
    lemma_pods_keys_apart,
    pods_key_text,
    KUCO_CACHE_TABLE,
    LAST_REFRESHED_CACHE_KEY,
    NS_NAMES_CACHE_KEY,
};
use crate::namespaces::{distinct_names, lemma_add_missing_distinct, merged_names};
use crate::store::{stored, written, CacheView};
use crate::sync::{stage1_step, stage1_turn_to, ActionView, EventView, Stage1Phase, Stage1View};

verus! {

/// What a cluster answers: its namespaces, the pods of each namespace, the
/// containers of each pod. A listing that is missing is a call that fails.
pub struct ClusterView {
    pub namespaces: Option<Seq<Seq<char>>>,
    pub pods: Map<Seq<char>, Seq<Seq<char>>>,
    pub containers: Map<(Seq<char>, Seq<char>), Seq<Seq<char>>>,
}

/// What comes of an action, and what the cache holds afterwards.
pub open spec fn performed(cluster: ClusterView, cache: CacheView, action: ActionView, now: i64) -> (
    CacheView,
    EventView,
) {
    match action {
        ActionView::ListNamespaces => (
            cache,
            match cluster.namespaces {
                Some(names) => EventView::Listed(names),
                None => EventView::ApiFailure,
            },
        ),
        ActionView::ListPods { namespace } => (
            cache,
            if cluster.pods.dom().contains(namespace) {
                EventView::Listed(cluster.pods[namespace])
            } else {
                EventView::ApiFailure
            },
        ),
        ActionView::GetPod { namespace, pod } => (
            cache,
            if cluster.containers.dom().contains((namespace, pod)) {
                EventView::Listed(cluster.containers[(namespace, pod)])
            } else {
                EventView::ApiFailure
            },
        ),
        ActionView::SetBytes { key, value } => (
            written(cache, KUCO_CACHE_TABLE@, key, value, now),
            EventView::Stored,
        ),
        ActionView::GetBytes { key } => (
            cache,
            EventView::Found(stored(cache, KUCO_CACHE_TABLE@, key)),
        ),
        ActionView::Sleep { millis } => (cache, EventView::Slept),
        ActionView::Done => (cache, EventView::Slept),
    }
}

/// Stage 1 driven for at most `steps` actions from `state` with `action`
/// next: the state it ends in and what the cache then holds.
pub open spec fn stage1_driven(
    state: Stage1View,
    action: ActionView,
    cluster: ClusterView,
    cache: CacheView,
    now: i64,
    steps: nat,
) -> (Stage1View, CacheView)
    decreases steps,
{
    if steps == 0 || action is Done {
        (state, cache)
    } else {
        let (after, event) = performed(cluster, cache, action, now);
        let (next_state, next_action) = stage1_step(state, event, now);
        stage1_driven(next_state, next_action, cluster, after, now, (steps - 1) as nat)
    }
}

/// The cache after the pods of the first `upto` namespaces were written:
/// each namespace whose pods could be listed has its list under its key.
pub open spec fn pods_written(
    cache: CacheView,
    names: Seq<Seq<char>>,
    cluster: ClusterView,
    now: i64,
    upto: int,
) -> CacheView
    decreases upto,
{
    if upto <= 0 {
        cache
    } else {
        let before = pods_written(cache, names, cluster, now, upto - 1);
        let namespace = names[upto - 1];
        if cluster.pods.dom().contains(namespace) {
            written(
                before,
                KUCO_CACHE_TABLE@,
                pods_key_text(namespace),
                names_json(cluster.pods[namespace]),
                now,
            )
        } else {
            before
        }
    }
}

/// The namespaces that a pass takes from a listing: each name once, in the
/// order first listed.
pub open spec fn pass_names(listed: Seq<Seq<char>>) -> Seq<Seq<char>> {
    merged_names(Seq::empty(), listed)
}

/// The cache after a whole pass: the namespace list, then the pods of each
/// namespace, then the time. A pass whose namespaces cannot be listed
/// leaves the cache as it is.
pub open spec fn stage1_pass(cache: CacheView, cluster: ClusterView, now: i64) -> CacheView {
    match cluster.namespaces {
        None => cache,
        Some(listed) => {
            let names = pass_names(listed);
            let listed_first = written(
                cache,
                KUCO_CACHE_TABLE@,
                NS_NAMES_CACHE_KEY@,
                names_json(names),
                now,
            );
            written(
                pods_written(listed_first, names, cluster, now, names.len() as int),
                KUCO_CACHE_TABLE@,
                LAST_REFRESHED_CACHE_KEY@,
                seconds_json(now as int),
                now,
            )
        },
    }
}

/// The start of a pass.
pub open spec fn stage1_start() -> Stage1View {
    Stage1View { phase: Stage1Phase::ListingNamespaces, namespaces: Seq::empty(), index: 0 }
}

/// From the namespace at `index` on, the machine writes the pods of each
/// namespace left and then the time, and finishes.
proof fn lemma_pods_driven(
    names: Seq<Seq<char>>,
    index: int,
    cluster: ClusterView,
    first: CacheView,
    cache: CacheView,
    now: i64,
    steps: nat,
)
    requires
        0 <= index <= names.len(),
        cache == pods_written(first, names, cluster, now, index),
        steps >= 2 * (names.len() - index) + 1,
    ensures
        stage1_driven(
            stage1_turn_to(names, index, now).0,
            stage1_turn_to(names, index, now).1,
            cluster,
            cache,
            now,
            steps,
        ) == (
            Stage1View { phase: Stage1Phase::Finished, namespaces: names, index: names.len() as int },
            written(
                pods_written(first, names, cluster, now, names.len() as int),
                KUCO_CACHE_TABLE@,
                LAST_REFRESHED_CACHE_KEY@,
                seconds_json(now as int),
                now,
            ),
        ),
    decreases names.len() - index,
{
    let (state, action) = stage1_turn_to(names, index, now);
    let (after, event) = performed(cluster, cache, action, now);
    let (state1, action1) = stage1_step(state, event, now);
    let left = (steps - 1) as nat;
    assert(stage1_driven(state, action, cluster, cache, now, steps) == stage1_driven(
        state1,
        action1,
        cluster,
        after,
        now,
        left,
    ));
    if index == names.len() {
        assert(action1 is Done);
        assert(stage1_driven(state1, action1, cluster, after, now, left) == (state1, after));
    } else {
        let namespace = names[index];
        if cluster.pods.dom().contains(namespace) {
            let (after2, event2) = performed(cluster, after, action1, now);
            let (state2, action2) = stage1_step(state1, event2, now);
            let left2 = (left - 1) as nat;
            assert(stage1_driven(state1, action1, cluster, after, now, left) == stage1_driven(
                state2,
                action2,
                cluster,
                after2,
                now,
                left2,
            ));
            assert((state2, action2) == stage1_turn_to(names, index + 1, now));
            assert(after2 == pods_written(first, names, cluster, now, index + 1));
            lemma_pods_driven(names, index + 1, cluster, first, after2, now, left2);
        } else {
            assert((state1, action1) == stage1_turn_to(names, index + 1, now));
            assert(after == pods_written(first, names, cluster, now, index + 1));
            lemma_pods_driven(names, index + 1, cluster, first, after, now, left);
        }
    }
}

/// A pass that is driven to its end leaves the cache as `stage1_pass`
/// says: finished with the listed namespaces where they could be listed,
/// given up with the cache untouched where not. Three actions and two for
/// each namespace are enough.
pub proof fn lemma_stage1_pass(cluster: ClusterView, cache: CacheView, now: i64, steps: nat)
    requires
        match cluster.namespaces {
            Some(listed) => steps >= 2 * pass_names(listed).len() + 3,
            None => steps >= 1,
        },
    ensures
        stage1_driven(stage1_start(), ActionView::ListNamespaces, cluster, cache, now, steps).1
            == stage1_pass(cache, cluster, now),
        stage1_driven(stage1_start(), ActionView::ListNamespaces, cluster, cache, now, steps).0
            == match cluster.namespaces {
            Some(listed) => Stage1View {
                phase: Stage1Phase::Finished,
                namespaces: pass_names(listed),
                index: pass_names(listed).len() as int,
            },
            None => Stage1View { phase: Stage1Phase::Failed, ..stage1_start() },
        },
{
    let start = stage1_start();
    let (after, event) = performed(cluster, cache, ActionView::ListNamespaces, now);
    let (state1, action1) = stage1_step(start, event, now);
    let left = (steps - 1) as nat;
    assert(stage1_driven(start, ActionView::ListNamespaces, cluster, cache, now, steps)
        == stage1_driven(state1, action1, cluster, after, now, left));
    match cluster.namespaces {
        None => {
            assert(action1 is Done);
            assert(stage1_driven(state1, action1, cluster, after, now, left) == (state1, after));
        },
        Some(listed) => {
            let names = pass_names(listed);
            let (after2, event2) = performed(cluster, after, action1, now);
            let (state2, action2) = stage1_step(state1, event2, now);
            let left2 = (left - 1) as nat;
            assert(stage1_driven(state1, action1, cluster, after, now, left) == stage1_driven(
                state2,
                action2,
                cluster,
                after2,
                now,
                left2,
            ));
            assert((state2, action2) == stage1_turn_to(names, 0, now));
            assert(after2 == pods_written(after2, names, cluster, now, 0));
            lemma_pods_driven(names, 0, cluster, after2, after2, now, left2);
        },
    }
}

/// Writing pods touches no key but the pods' keys.
proof fn lemma_pods_written_keeps(
    cache: CacheView,
    names: Seq<Seq<char>>,
    cluster: ClusterView,
    now: i64,
    upto: int,
    key: Seq<char>,
)
    requires
        upto <= names.len(),
        forall|i: int| 0 <= i < upto ==> pods_key_text(#[trigger] names[i]) != key,
    ensures
        stored(pods_written(cache, names, cluster, now, upto), KUCO_CACHE_TABLE@, key) == stored(
            cache,
            KUCO_CACHE_TABLE@,
            key,
        ),
    decreases upto,
{
    if upto > 0 {
        lemma_pods_written_keeps(cache, names, cluster, now, upto - 1, key);
        assert(pods_key_text(names[upto - 1]) != key);
    }
}

/// After a pass the cache holds the namespaces that were listed, each
/// once, in the order produced.
pub proof fn lemma_pass_stores_namespaces(cache: CacheView, cluster: ClusterView, now: i64)
    requires
        cluster.namespaces.is_some(),
    ensures
        stored(stage1_pass(cache, cluster, now), KUCO_CACHE_TABLE@, NS_NAMES_CACHE_KEY@) == Some(
            names_json(pass_names(cluster.namespaces.unwrap())),
        ),
        distinct_names(pass_names(cluster.namespaces.unwrap())),
{
    let names = pass_names(cluster.namespaces.unwrap());
    let listed_first = written(cache, KUCO_CACHE_TABLE@, NS_NAMES_CACHE_KEY@, names_json(names), now);
    assert forall|i: int| 0 <= i < names.len() implies pods_key_text(#[trigger] names[i])
        != NS_NAMES_CACHE_KEY@ by {
        lemma_key_kinds_apart(names[i], names[i], names[i]);
    }
    lemma_pods_written_keeps(
        listed_first,
        names,
        cluster,
        now,
        names.len() as int,
        NS_NAMES_CACHE_KEY@,
    );
    lemma_key_kinds_apart(Seq::empty(), Seq::empty(), Seq::empty());
    lemma_add_missing_distinct(Seq::empty(), cluster.namespaces.unwrap());
}

/// Once the pods of a namespace are written, the pods of the namespaces
/// after it do not write over them.
proof fn lemma_pods_written_holds(
    cache: CacheView,
    names: Seq<Seq<char>>,
    cluster: ClusterView,
    now: i64,
    upto: int,
    i: int,
)
    requires
        distinct_names(names),
        0 <= i < upto <= names.len(),
        cluster.pods.dom().contains(names[i]),
    ensures
        stored(
            pods_written(cache, names, cluster, now, upto),
            KUCO_CACHE_TABLE@,
            pods_key_text(names[i]),
        ) == Some(names_json(cluster.pods[names[i]])),
    decreases upto,
{
    if upto > i + 1 {
        lemma_pods_written_holds(cache, names, cluster, now, upto - 1, i);
        if pods_key_text(names[upto - 1]) == pods_key_text(names[i]) {
            lemma_pods_keys_apart(names[upto - 1], names[i]);
        }
    }
}

/// After a pass the cache holds, for each listed namespace whose pods
/// could be listed, those pods under the namespace's key, and the time of
/// the pass.
pub proof fn lemma_pass_stores_pods(cache: CacheView, cluster: ClusterView, now: i64, i: int)
    requires
        cluster.namespaces.is_some(),
        0 <= i < pass_names(cluster.namespaces.unwrap()).len(),
        cluster.pods.dom().contains(pass_names(cluster.namespaces.unwrap())[i]),
    ensures
        stored(
            stage1_pass(cache, cluster, now),
            KUCO_CACHE_TABLE@,
            pods_key_text(pass_names(cluster.namespaces.unwrap())[i]),
        ) == Some(names_json(cluster.pods[pass_names(cluster.namespaces.unwrap())[i]])),
        stored(stage1_pass(cache, cluster, now), KUCO_CACHE_TABLE@, LAST_REFRESHED_CACHE_KEY@)
            == Some(seconds_json(now as int)),
{
    let names = pass_names(cluster.namespaces.unwrap());
    let listed_first = written(cache, KUCO_CACHE_TABLE@, NS_NAMES_CACHE_KEY@, names_json(names), now);
    lemma_add_missing_distinct(Seq::empty(), cluster.namespaces.unwrap());
    lemma_pods_written_holds(listed_first, names, cluster, now, names.len() as int, i);
    lemma_key_kinds_apart(names[i], names[i], names[i]);
}

} // verus!
