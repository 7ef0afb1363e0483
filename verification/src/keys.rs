//! The key scheme of the cache: one table, keys that spell a path.

use vstd::prelude::*;

verus! {

/// The table that holds every cache entry.
pub const KUCO_CACHE_TABLE: &'static str = "kv_cache";

/// Key of the namespace list.
pub const NS_NAMES_CACHE_KEY: &'static str = "all_namespaces";

/// Prefix of the key of a namespace's pod list.
pub const POD_NAMES_CACHE_KEY: &'static str = "pods_";

/// Prefix of the key of a pod's container list.
pub const CONT_NAMES_CACHE_KEY: &'static str = "cont_";

/// Key of the time of the last complete discovery pass.
pub const LAST_REFRESHED_CACHE_KEY: &'static str = "last_refreshed_at";

/// The text of the key under which the pods of `namespace` are cached.
pub open spec fn pods_key_text(namespace: Seq<char>) -> Seq<char> {
    POD_NAMES_CACHE_KEY@ + namespace
}

/// The text of the key under which the containers of `pod` in `namespace`
/// are cached.
pub open spec fn containers_key_text(namespace: Seq<char>, pod: Seq<char>) -> Seq<char> {
    CONT_NAMES_CACHE_KEY@ + namespace + seq!['_'] + pod
}

/// Builds the key of a namespace's pod list.
pub fn pods_key(namespace: &str) -> (key: String)
    ensures
        key@ == pods_key_text(namespace@),
{
    let mut key = String::from_str(POD_NAMES_CACHE_KEY);
    key.append(namespace);
    key
}

/// Builds the key of a pod's container list.
pub fn containers_key(namespace: &str, pod: &str) -> (key: String)
    ensures
        key@ == containers_key_text(namespace@, pod@),
{
    let mut key = String::from_str(CONT_NAMES_CACHE_KEY);
    key.append(namespace);
    key.append("_");
    key.append(pod);
    proof {
        reveal_strlit("_");
        assert("_"@ =~= seq!['_']);
    }
    key
}

/// Whether a name holds no underscore, as the names of namespaces and pods
/// do not.
pub open spec fn plain_name(name: Seq<char>) -> bool {
    forall|i: int| 0 <= i < name.len() ==> name[i] != '_'
}

/// Two namespaces have two keys for their pods.
pub proof fn lemma_pods_keys_apart(first: Seq<char>, second: Seq<char>)
    requires
        pods_key_text(first) == pods_key_text(second),
    ensures
        first == second,
{
    let prefix = POD_NAMES_CACHE_KEY@;
    assert(first =~= pods_key_text(first).subrange(
        prefix.len() as int,
        pods_key_text(first).len() as int,
    ));
    assert(second =~= pods_key_text(second).subrange(
        prefix.len() as int,
        pods_key_text(second).len() as int,
    ));
}

/// Two pods have two keys for their containers, as long as the names of
/// their namespaces hold no underscore.
pub proof fn lemma_containers_keys_apart(
    namespace: Seq<char>,
    pod: Seq<char>,
    other_namespace: Seq<char>,
    other_pod: Seq<char>,
)
    requires
        plain_name(namespace),
        plain_name(other_namespace),
        containers_key_text(namespace, pod) == containers_key_text(other_namespace, other_pod),
    ensures
        namespace == other_namespace,
        pod == other_pod,
{
    let prefix = CONT_NAMES_CACHE_KEY@;
    let key = containers_key_text(namespace, pod);
    let other = containers_key_text(other_namespace, other_pod);
    let start = prefix.len() as int;
    let n = namespace.len() as int;
    let m = other_namespace.len() as int;
    assert forall|i: int| 0 <= i < n implies key[start + i] == namespace[i] by {}
    assert forall|i: int| 0 <= i < m implies other[start + i] == other_namespace[i] by {}
    assert(key[start + n] == '_');
    assert(other[start + m] == '_');
    if n < m {
        assert(other[start + n] == other_namespace[n]);
        assert(false);
    }
    if m < n {
        assert(key[start + m] == namespace[m]);
        assert(false);
    }
    assert(namespace =~= other_namespace);
    assert forall|i: int| 0 <= i < pod.len() implies key[start + n + 1 + i] == pod[i] by {}
    assert forall|i: int| 0 <= i < other_pod.len() implies other[start + n + 1 + i]
        == other_pod[i] by {}
    assert(key.len() == start + n + 1 + pod.len());
    assert(other.len() == start + n + 1 + other_pod.len());
    assert(pod =~= other_pod);
}

/// The four kinds of key never meet: no pod list is written over the
/// namespace list, no container list over a pod list, and none of them
/// over the time of the last pass.
pub proof fn lemma_key_kinds_apart(namespace: Seq<char>, other_namespace: Seq<char>, pod: Seq<char>)
    ensures
        pods_key_text(namespace) != NS_NAMES_CACHE_KEY@,
        pods_key_text(namespace) != LAST_REFRESHED_CACHE_KEY@,
        containers_key_text(other_namespace, pod) != NS_NAMES_CACHE_KEY@,
        containers_key_text(other_namespace, pod) != LAST_REFRESHED_CACHE_KEY@,
        containers_key_text(other_namespace, pod) != pods_key_text(namespace),
        NS_NAMES_CACHE_KEY@ != LAST_REFRESHED_CACHE_KEY@,
{
    reveal_strlit("all_namespaces");
    reveal_strlit("pods_");
    reveal_strlit("cont_");
    reveal_strlit("last_refreshed_at");
    assert(pods_key_text(namespace)[0] == 'p');
    assert(containers_key_text(other_namespace, pod)[0] == 'c');
    assert(NS_NAMES_CACHE_KEY@[0] == 'a');
    assert(LAST_REFRESHED_CACHE_KEY@[0] == 'l');
}

} // verus!
