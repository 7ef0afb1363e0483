use kuco::keys::KUCO_CACHE_TABLE;
use kuco::schedule::SyncSchedule;
use kuco::stage2::{Stage2, Stage2Phase};
use kuco::store::KvStore;
use kuco::sync::{
    Stage1, Stage1Phase, SyncAction, SyncEvent, STAGE1_INTERVAL_SECS, STAGE2_INTERVAL_SECS,
    STAGE2_PAUSE_MILLIS,
};

fn strings(items: &[&str]) -> Vec<String> {
    items.iter().map(|s| s.to_string()).collect()
}

/// A cluster that answers from tables and counts what it is asked.
struct FakeCluster {
    namespaces: Option<Vec<String>>,
    pods: Vec<(String, Option<Vec<String>>)>,
    containers: Vec<(String, String, Option<Vec<String>>)>,
    pod_fetches: Vec<(String, String)>,
    failing_keys: Vec<String>,
    slept: u64,
    log: Vec<String>,
}

impl FakeCluster {
    fn new(namespaces: Option<Vec<String>>) -> Self {
        FakeCluster {
            namespaces,
            pods: Vec::new(),
            containers: Vec::new(),
            pod_fetches: Vec::new(),
            failing_keys: Vec::new(),
            slept: 0,
            log: Vec::new(),
        }
    }

    fn perform(&mut self, store: &mut KvStore, action: &SyncAction, now: i64) -> SyncEvent {
        match action {
            SyncAction::ListNamespaces => {
                self.log.push("list namespaces".to_string());
                match &self.namespaces {
                    Some(names) => SyncEvent::Listed(names.clone()),
                    None => SyncEvent::ApiFailure,
                }
            }
            SyncAction::ListPods { namespace } => {
                self.log.push(format!("list pods {}", namespace));
                match self.pods.iter().find(|(ns, _)| ns == namespace) {
                    Some((_, Some(pods))) => SyncEvent::Listed(pods.clone()),
                    _ => SyncEvent::ApiFailure,
                }
            }
            SyncAction::GetPod { namespace, pod } => {
                self.log.push(format!("get pod {}/{}", namespace, pod));
                self.pod_fetches.push((namespace.clone(), pod.clone()));
                match self.containers.iter().find(|(ns, po, _)| ns == namespace && po == pod) {
                    Some((_, _, Some(names))) => SyncEvent::Listed(names.clone()),
                    _ => SyncEvent::ApiFailure,
                }
            }
            SyncAction::SetBytes { key, value } => {
                self.log.push(format!("set {}", key));
                if self.failing_keys.contains(key) {
                    SyncEvent::IoFailure
                } else {
                    store.set_bytes(KUCO_CACHE_TABLE, key, value.clone(), now);
                    SyncEvent::Stored
                }
            }
            SyncAction::GetBytes { key } => {
                self.log.push(format!("get {}", key));
                SyncEvent::Found(store.get_bytes(KUCO_CACHE_TABLE, key))
            }
            SyncAction::Sleep { millis } => {
                self.slept += millis;
                SyncEvent::Slept
            }
            SyncAction::Done => unreachable!(),
        }
    }

    fn run_stage1(&mut self, store: &mut KvStore, now: i64) -> Option<Vec<String>> {
        let (mut machine, mut action) = Stage1::begin();
        let mut steps = 0;
        while action != SyncAction::Done {
            let event = self.perform(store, &action, now);
            action = machine.step(event, now);
            steps += 1;
            assert!(steps < 10_000);
        }
        assert!(machine.is_over());
        machine.outcome()
    }

    fn run_stage2(&mut self, store: &mut KvStore, namespace: &str, now: i64) {
        let (mut machine, mut action) = Stage2::begin(namespace.to_string());
        let mut steps = 0;
        while action != SyncAction::Done {
            let event = self.perform(store, &action, now);
            action = machine.step(event);
            steps += 1;
            assert!(steps < 10_000);
        }
        assert!(machine.is_over());
    }
}

#[test]
fn stage1_writes_namespaces_and_their_pods() {
    let mut cluster = FakeCluster::new(Some(strings(&["default", "kube-system"])));
    cluster.pods.push(("default".to_string(), Some(strings(&["web-1", "web-2"]))));
    cluster.pods.push(("kube-system".to_string(), Some(Vec::new())));
    let mut store = KvStore::new();
    let outcome = cluster.run_stage1(&mut store, 1_700_000_000);
    assert_eq!(outcome, Some(strings(&["default", "kube-system"])));
    assert_eq!(
        store.get_json(KUCO_CACHE_TABLE, "all_namespaces"),
        Ok(Some(strings(&["default", "kube-system"])))
    );
    assert_eq!(store.get_json(KUCO_CACHE_TABLE, "pods_default"), Ok(Some(strings(&["web-1", "web-2"]))));
    assert_eq!(store.get_json(KUCO_CACHE_TABLE, "pods_kube-system"), Ok(Some(Vec::new())));
    assert_eq!(store.get_json_seconds(KUCO_CACHE_TABLE, "last_refreshed_at"), Ok(Some(1_700_000_000)));
}

#[test]
fn stage1_writes_the_namespace_list_before_any_pods() {
    let mut cluster = FakeCluster::new(Some(strings(&["a", "b"])));
    cluster.pods.push(("a".to_string(), Some(strings(&["p"]))));
    cluster.pods.push(("b".to_string(), Some(strings(&["q"]))));
    let mut store = KvStore::new();
    cluster.run_stage1(&mut store, 7);
    assert_eq!(
        cluster.log,
        strings(&[
            "list namespaces",
            "set all_namespaces",
            "list pods a",
            "set pods_a",
            "list pods b",
            "set pods_b",
            "set last_refreshed_at",
        ])
    );
}

#[test]
fn stage1_skips_a_namespace_whose_pods_cannot_be_listed() {
    let mut cluster = FakeCluster::new(Some(strings(&["a", "broken", "c"])));
    cluster.pods.push(("a".to_string(), Some(strings(&["p"]))));
    cluster.pods.push(("broken".to_string(), None));
    cluster.pods.push(("c".to_string(), Some(strings(&["r"]))));
    let mut store = KvStore::new();
    let outcome = cluster.run_stage1(&mut store, 7);
    assert_eq!(outcome, Some(strings(&["a", "broken", "c"])));
    assert_eq!(store.get_json(KUCO_CACHE_TABLE, "pods_a"), Ok(Some(strings(&["p"]))));
    assert_eq!(store.get_bytes(KUCO_CACHE_TABLE, "pods_broken"), None);
    assert_eq!(store.get_json(KUCO_CACHE_TABLE, "pods_c"), Ok(Some(strings(&["r"]))));
    assert_eq!(store.get_json_seconds(KUCO_CACHE_TABLE, "last_refreshed_at"), Ok(Some(7)));
}

#[test]
fn stage1_gives_up_when_namespaces_cannot_be_listed() {
    let mut cluster = FakeCluster::new(None);
    let mut store = KvStore::new();
    assert_eq!(cluster.run_stage1(&mut store, 7), None);
    assert_eq!(store.get_bytes(KUCO_CACHE_TABLE, "all_namespaces"), None);
    assert_eq!(store.get_bytes(KUCO_CACHE_TABLE, "last_refreshed_at"), None);
}

#[test]
fn stage1_gives_up_when_a_write_fails() {
    let mut cluster = FakeCluster::new(Some(strings(&["a", "b"])));
    cluster.pods.push(("a".to_string(), Some(strings(&["p"]))));
    cluster.pods.push(("b".to_string(), Some(strings(&["q"]))));
    cluster.failing_keys.push("pods_a".to_string());
    let mut store = KvStore::new();
    assert_eq!(cluster.run_stage1(&mut store, 7), None);
    assert_eq!(store.get_json(KUCO_CACHE_TABLE, "all_namespaces"), Ok(Some(strings(&["a", "b"]))));
    assert_eq!(store.get_bytes(KUCO_CACHE_TABLE, "pods_b"), None);
    assert_eq!(store.get_bytes(KUCO_CACHE_TABLE, "last_refreshed_at"), None);
    assert_eq!(cluster.log.last().map(|s| s.as_str()), Some("set pods_a"));
}

#[test]
fn stage1_lists_each_namespace_once() {
    let mut cluster = FakeCluster::new(Some(strings(&["a", "b", "a"])));
    cluster.pods.push(("a".to_string(), Some(strings(&["p"]))));
    cluster.pods.push(("b".to_string(), Some(strings(&["q"]))));
    let mut store = KvStore::new();
    assert_eq!(cluster.run_stage1(&mut store, 7), Some(strings(&["a", "b"])));
    assert_eq!(store.get_json(KUCO_CACHE_TABLE, "all_namespaces"), Ok(Some(strings(&["a", "b"]))));
}

#[test]
fn stage1_with_no_namespaces_writes_list_and_time() {
    let mut cluster = FakeCluster::new(Some(Vec::new()));
    let mut store = KvStore::new();
    assert_eq!(cluster.run_stage1(&mut store, 9), Some(Vec::new()));
    assert_eq!(store.get_json(KUCO_CACHE_TABLE, "all_namespaces"), Ok(Some(Vec::new())));
    assert_eq!(store.get_json_seconds(KUCO_CACHE_TABLE, "last_refreshed_at"), Ok(Some(9)));
}

#[test]
fn stage1_steps_are_the_documented_ones() {
    let (mut machine, first) = Stage1::begin();
    assert_eq!(first, SyncAction::ListNamespaces);
    assert_eq!(machine.phase, Stage1Phase::ListingNamespaces);
    let action = machine.step(SyncEvent::Listed(strings(&["default"])), 5);
    assert_eq!(
        action,
        SyncAction::SetBytes { key: "all_namespaces".to_string(), value: b"[\"default\"]".to_vec() }
    );
    assert_eq!(machine.phase, Stage1Phase::StoringNamespaces);
    assert_eq!(machine.outcome(), None);
    let action = machine.step(SyncEvent::Stored, 5);
    assert_eq!(action, SyncAction::ListPods { namespace: "default".to_string() });
    let action = machine.step(SyncEvent::Listed(strings(&["web-1"])), 5);
    assert_eq!(
        action,
        SyncAction::SetBytes { key: "pods_default".to_string(), value: b"[\"web-1\"]".to_vec() }
    );
    let action = machine.step(SyncEvent::Stored, 6);
    assert_eq!(
        action,
        SyncAction::SetBytes { key: "last_refreshed_at".to_string(), value: b"6".to_vec() }
    );
    assert!(!machine.is_over());
    assert_eq!(machine.step(SyncEvent::Stored, 6), SyncAction::Done);
    assert_eq!(machine.phase, Stage1Phase::Finished);
    assert_eq!(machine.step(SyncEvent::Stored, 6), SyncAction::Done);
    assert_eq!(machine.outcome(), Some(strings(&["default"])));
}

#[test]
fn stage2_fetches_containers_once_per_pod() {
    let mut cluster = FakeCluster::new(Some(strings(&["default"])));
    cluster.pods.push(("default".to_string(), Some(strings(&["web-1"]))));
    cluster.containers.push(("default".to_string(), "web-1".to_string(), Some(strings(&["app", "sidecar"]))));
    let mut store = KvStore::new();
    cluster.run_stage1(&mut store, 1);
    for _ in 0..5 {
        cluster.run_stage2(&mut store, "default", 2);
    }
    assert_eq!(cluster.pod_fetches, vec![("default".to_string(), "web-1".to_string())]);
    assert_eq!(
        store.get_json(KUCO_CACHE_TABLE, "cont_default_web-1"),
        Ok(Some(strings(&["app", "sidecar"])))
    );
    assert_eq!(cluster.slept, STAGE2_PAUSE_MILLIS);
}

#[test]
fn stage2_passes_over_pods_that_are_cached_and_fetches_the_rest() {
    let mut cluster = FakeCluster::new(Some(strings(&["default"])));
    cluster.pods.push(("default".to_string(), Some(strings(&["a", "b", "c"]))));
    cluster.containers.push(("default".to_string(), "a".to_string(), Some(strings(&["x"]))));
    cluster.containers.push(("default".to_string(), "c".to_string(), Some(strings(&["z"]))));
    let mut store = KvStore::new();
    cluster.run_stage1(&mut store, 1);
    store.set_json(KUCO_CACHE_TABLE, "cont_default_b", &strings(&["cached"]), 1);
    cluster.run_stage2(&mut store, "default", 2);
    assert_eq!(
        cluster.pod_fetches,
        vec![("default".to_string(), "a".to_string()), ("default".to_string(), "c".to_string())]
    );
    assert_eq!(store.get_json(KUCO_CACHE_TABLE, "cont_default_b"), Ok(Some(strings(&["cached"]))));
    assert_eq!(store.get_json(KUCO_CACHE_TABLE, "cont_default_c"), Ok(Some(strings(&["z"]))));
    assert_eq!(cluster.slept, 2 * STAGE2_PAUSE_MILLIS);
}

#[test]
fn stage2_retries_a_failed_fetch_on_the_next_tick_only() {
    let mut cluster = FakeCluster::new(Some(strings(&["default"])));
    cluster.pods.push(("default".to_string(), Some(strings(&["a"]))));
    let mut store = KvStore::new();
    cluster.run_stage1(&mut store, 1);
    cluster.run_stage2(&mut store, "default", 2);
    assert_eq!(cluster.pod_fetches.len(), 1);
    assert_eq!(store.get_bytes(KUCO_CACHE_TABLE, "cont_default_a"), None);
    cluster.containers.push(("default".to_string(), "a".to_string(), Some(strings(&["x"]))));
    cluster.run_stage2(&mut store, "default", 3);
    assert_eq!(cluster.pod_fetches.len(), 2);
    cluster.run_stage2(&mut store, "default", 4);
    assert_eq!(cluster.pod_fetches.len(), 2);
}

#[test]
fn stage2_without_a_pod_list_does_nothing() {
    let mut cluster = FakeCluster::new(None);
    let mut store = KvStore::new();
    cluster.run_stage2(&mut store, "default", 2);
    assert_eq!(cluster.log, strings(&["get pods_default"]));
    store.set_bytes(KUCO_CACHE_TABLE, "pods_default", b"nonsense".to_vec(), 1);
    cluster.log.clear();
    cluster.run_stage2(&mut store, "default", 2);
    assert_eq!(cluster.log, strings(&["get pods_default"]));
    assert!(cluster.pod_fetches.is_empty());
}

#[test]
fn stage2_steps_are_the_documented_ones() {
    let (mut machine, first) = Stage2::begin("ns".to_string());
    assert_eq!(first, SyncAction::GetBytes { key: "pods_ns".to_string() });
    assert_eq!(machine.phase, Stage2Phase::ReadingPods);
    let action = machine.step(SyncEvent::Found(Some(b"[\"p\",\"q\"]".to_vec())));
    assert_eq!(action, SyncAction::GetBytes { key: "cont_ns_p".to_string() });
    assert_eq!(machine.phase, Stage2Phase::Probing);
    let action = machine.step(SyncEvent::Found(None));
    assert_eq!(action, SyncAction::GetPod { namespace: "ns".to_string(), pod: "p".to_string() });
    let action = machine.step(SyncEvent::Listed(strings(&["c"])));
    assert_eq!(action, SyncAction::SetBytes { key: "cont_ns_p".to_string(), value: b"[\"c\"]".to_vec() });
    let action = machine.step(SyncEvent::IoFailure);
    assert_eq!(action, SyncAction::Sleep { millis: 100 });
    let action = machine.step(SyncEvent::Slept);
    assert_eq!(action, SyncAction::GetBytes { key: "cont_ns_q".to_string() });
    let action = machine.step(SyncEvent::IoFailure);
    assert_eq!(action, SyncAction::GetPod { namespace: "ns".to_string(), pod: "q".to_string() });
    let action = machine.step(SyncEvent::ApiFailure);
    assert_eq!(action, SyncAction::Sleep { millis: 100 });
    assert_eq!(machine.step(SyncEvent::Slept), SyncAction::Done);
    assert!(machine.is_over());
    assert_eq!(machine.step(SyncEvent::Slept), SyncAction::Done);
}

#[test]
fn schedule_goes_round_the_namespaces() {
    let mut schedule = SyncSchedule::new();
    assert_eq!(schedule.stage2_tick(), None);
    schedule.stage1_finished(Some(strings(&["a", "b", "c"])));
    let mut seen = Vec::new();
    for _ in 0..7 {
        seen.push(schedule.stage2_tick().unwrap());
    }
    assert_eq!(seen, strings(&["a", "b", "c", "a", "b", "c", "a"]));
}

#[test]
fn schedule_keeps_its_namespaces_when_a_pass_is_given_up() {
    let mut schedule = SyncSchedule::new();
    schedule.stage1_finished(Some(strings(&["a", "b"])));
    assert_eq!(schedule.stage2_tick(), Some("a".to_string()));
    schedule.stage1_finished(None);
    assert_eq!(schedule.stage2_tick(), Some("b".to_string()));
    assert_eq!(schedule.namespaces, strings(&["a", "b"]));
}

#[test]
fn schedule_wraps_when_the_list_shrinks() {
    let mut schedule = SyncSchedule::new();
    schedule.stage1_finished(Some(strings(&["a", "b", "c"])));
    schedule.stage2_tick();
    schedule.stage2_tick();
    assert_eq!(schedule.next, 2);
    schedule.stage1_finished(Some(strings(&["x", "y"])));
    assert_eq!(schedule.stage2_tick(), Some("x".to_string()));
    assert_eq!(schedule.stage2_tick(), Some("y".to_string()));
    schedule.stage1_finished(Some(Vec::new()));
    assert_eq!(schedule.stage2_tick(), None);
}

#[test]
fn intervals_are_the_configured_ones() {
    assert_eq!(STAGE1_INTERVAL_SECS, 10);
    assert_eq!(STAGE2_INTERVAL_SECS, 20);
    assert_eq!(STAGE2_PAUSE_MILLIS, 100);
}

#[test]
fn machines_test_their_own_invariant() {
    let (mut one, _) = Stage1::begin();
    assert!(one.check());
    one.step(SyncEvent::Listed(strings(&["a"])), 1);
    one.step(SyncEvent::Stored, 1);
    assert!(one.check());
    one.index = 5;
    assert!(!one.check());
    let (mut two, _) = Stage2::begin("ns".to_string());
    assert!(two.check());
    two.step(SyncEvent::Found(Some(b"[\"p\"]".to_vec())));
    assert!(two.check());
    two.index = 1;
    assert!(!two.check());
}

#[test]
fn what_stage1_wrote_is_what_the_dashboard_shows() {
    let mut cluster = FakeCluster::new(Some(strings(&["default", "kube-system"])));
    cluster.pods.push(("default".to_string(), Some(strings(&["web-1", "web-2"]))));
    let mut store = KvStore::new();
    cluster.run_stage1(&mut store, 3_600);
    let mut widget = kuco::view::KubeWidget::new();
    assert_eq!(widget.project(&store, None), Ok(()));
    assert_eq!(widget.display, Some(strings(&["default", "kube-system"])));
    assert_eq!(widget.data.last_refreshed_at, "01:00:00");
    widget.view_mode = kuco::modes::ViewMode::PODS;
    widget.project(&store, None).unwrap();
    assert_eq!(widget.display, Some(strings(&["web-1", "web-2"])));
    widget.data.current_namespace_name = Some("kube-system".to_string());
    widget.project(&store, None).unwrap();
    assert_eq!(widget.display, Some(Vec::new()));
    store.set_bytes(KUCO_CACHE_TABLE, "pods_kube-system", b"oops".to_vec(), 1);
    assert!(widget.project(&store, None).is_err());
}
