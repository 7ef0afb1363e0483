use kuco::clock::{format_clock, FIRST_CLOCK_SECOND, LAST_CLOCK_SECOND};
use kuco::containers::ContainerData;
use kuco::error::{CacheError, KucoBackendError};
use kuco::kube_data::NamespaceList;
use kuco::logs::{fetch_failure, log_request, LogData, LogRequest, LOG_TAIL_LINES};
use kuco::namespaces::NamespaceData;
use kuco::pods::{
    workload_kind, OwnerQuery, OwnerReference, OwnerScan, PodData, PodInfo, WorkloadKind,
    UNKNOWN_STATUS,
};

fn texts(items: &[&str]) -> Vec<String> {
    items.iter().map(|s| s.to_string()).collect()
}

fn owner(kind: &str, name: &str) -> OwnerReference {
    OwnerReference { kind: kind.to_string(), name: name.to_string() }
}

#[test]
fn new_data_is_empty() {
    assert!(NamespaceData::new().names.is_empty());
    assert!(NamespaceData::default().names.is_empty());
    assert!(ContainerData::new().names.is_empty());
    assert!(ContainerData::default().names.is_empty());
    assert!(LogData::new().lines.is_empty());
    assert!(LogData::default().lines.is_empty());
    assert!(NamespaceList::new().namespaces.names.is_empty());
    assert!(NamespaceList::new().render_items().is_empty());
    assert!(PodData::default().names.is_empty());
    assert_eq!(PodInfo::default().replicas, None);
}

#[test]
fn namespaces_are_kept_in_the_order_first_seen() {
    let mut data = NamespaceData::new();
    data.update(&texts(&["default", "kube-system"]));
    assert_eq!(data.names, texts(&["default", "kube-system"]));
    data.update(&texts(&["kube-system", "dev", "default"]));
    assert_eq!(data.names, texts(&["default", "kube-system", "dev"]));
}

#[test]
fn a_shorter_listing_replaces_the_namespaces() {
    let mut data = NamespaceData::new();
    data.update(&texts(&["a", "b", "c"]));
    data.update(&texts(&["c", "a"]));
    assert_eq!(data.names, texts(&["c", "a"]));
    data.update(&Vec::new());
    assert!(data.names.is_empty());
}

#[test]
fn a_listing_of_equal_length_only_adds() {
    let mut data = NamespaceData::new();
    data.update(&texts(&["a", "b"]));
    data.update(&texts(&["b", "c"]));
    assert_eq!(data.names, texts(&["a", "b", "c"]));
}

#[test]
fn repeated_names_are_listed_once() {
    let mut data = NamespaceData::new();
    data.update(&texts(&["a", "a", "b", "a"]));
    assert_eq!(data.names, texts(&["a", "b"]));
}

#[test]
fn containers_come_from_the_pod_spec() {
    let mut data = ContainerData::new();
    assert_eq!(data.update(Ok(Some(texts(&["app", "sidecar"])))), Ok(()));
    assert_eq!(data.names, texts(&["app", "sidecar"]));
    assert_eq!(data.update(Err(KucoBackendError::KubeConnectionError)), Err(KucoBackendError::KubeConnectionError));
    assert_eq!(data.names, texts(&["app", "sidecar"]));
    assert_eq!(data.update(Ok(None)), Ok(()));
    assert!(data.names.is_empty());
}

#[test]
fn log_text_is_cut_into_lines() {
    let mut data = LogData::new();
    data.update(Some("first\nsecond\r\nthird\n".to_string()), "ns", "po", "co");
    assert_eq!(data.lines, texts(&["first", "second", "third"]));
    data.update(Some(String::new()), "ns", "po", "co");
    assert!(data.lines.is_empty());
    data.update(Some("a\n\nb".to_string()), "ns", "po", "co");
    assert_eq!(data.lines, texts(&["a", "", "b"]));
}

#[test]
fn a_failed_log_fetch_is_one_line_that_says_so() {
    let mut data = LogData::new();
    data.update(None, "default", "web-1", "app");
    assert_eq!(
        data.lines,
        texts(&["Failed to fetch logs for container 'app' in pod 'web-1', namespace 'default'"])
    );
    assert_eq!(
        fetch_failure("app", "web-1", "default"),
        "Failed to fetch logs for container 'app' in pod 'web-1', namespace 'default'"
    );
}

#[test]
fn the_log_request_asks_for_the_latest_lines_with_times() {
    assert_eq!(LOG_TAIL_LINES, 200);
    assert_eq!(
        log_request("app"),
        LogRequest { container: "app".to_string(), timestamps: true, tail_lines: 200 }
    );
}

#[test]
fn owner_kinds_are_told_apart() {
    assert_eq!(workload_kind("ReplicaSet"), Some(WorkloadKind::ReplicaSet));
    assert_eq!(workload_kind("Deployment"), Some(WorkloadKind::Deployment));
    assert_eq!(workload_kind("StatefulSet"), Some(WorkloadKind::StatefulSet));
    assert_eq!(workload_kind("DaemonSet"), None);
    assert_eq!(workload_kind("replicaset"), None);
    assert_eq!(workload_kind(""), None);
}

#[test]
fn the_owner_scan_asks_about_workloads_in_order() {
    let mut scan = OwnerScan::new(vec![
        owner("Node", "n1"),
        owner("ReplicaSet", "web-abc"),
        owner("Job", "j"),
        owner("StatefulSet", "db"),
    ]);
    assert_eq!(
        scan.advance(),
        Some(OwnerQuery { kind: WorkloadKind::ReplicaSet, name: "web-abc".to_string() })
    );
    assert_eq!(scan.next, 2);
    assert_eq!(
        scan.advance(),
        Some(OwnerQuery { kind: WorkloadKind::StatefulSet, name: "db".to_string() })
    );
    assert_eq!(scan.advance(), None);
    assert_eq!(scan.next, 4);
    assert_eq!(scan.advance(), None);
}

#[test]
fn the_owner_scan_ends_when_an_owner_answered() {
    let mut scan = OwnerScan::new(vec![owner("Deployment", "web"), owner("ReplicaSet", "web-abc")]);
    assert!(scan.advance().is_some());
    scan.finish();
    assert_eq!(scan.advance(), None);
    let mut none = OwnerScan::new(Vec::new());
    assert_eq!(none.advance(), None);
}

#[test]
fn a_pod_without_phase_is_unknown() {
    assert_eq!(UNKNOWN_STATUS, "Unknown");
    let info = PodInfo::describe("web-1".to_string(), None);
    assert_eq!(info.name, "web-1");
    assert_eq!(info.status, "Unknown");
    assert_eq!(info.replicas, None);
    assert_eq!(info.desired_replicas, None);
    let running = PodInfo::describe("web-2".to_string(), Some("Running".to_string()));
    assert_eq!(running.status, "Running");
}

#[test]
fn replica_counts_come_from_the_owner() {
    let mut info = PodInfo::describe("web-1".to_string(), Some("Running".to_string()));
    info.set_replicas(Some(3), Some(2));
    assert_eq!(info.desired_replicas, Some(3));
    assert_eq!(info.replicas, Some(2));
    assert_eq!(info.update(Ok(("web-1b".to_string(), None))), Ok(()));
    assert_eq!(info.name, "web-1b");
    assert_eq!(info.status, "Unknown");
    assert_eq!(info.replicas, Some(2));
    assert_eq!(info.update(Err(KucoBackendError::Unknown)), Err(KucoBackendError::Unknown));
    assert_eq!(info.name, "web-1b");
}

#[test]
fn pod_data_takes_names_and_infos() {
    let mut data = PodData::default();
    assert_eq!(data.get_names(Ok(texts(&["a", "b"]))), Ok(()));
    assert_eq!(data.names, texts(&["a", "b"]));
    assert_eq!(data.get_names(Err(KucoBackendError::Unknown)), Err(KucoBackendError::Unknown));
    assert_eq!(data.names, texts(&["a", "b"]));
    let infos = vec![PodInfo::describe("a".to_string(), None)];
    assert_eq!(data.update_all(Ok(infos)), Ok(()));
    assert_eq!(data.list.len(), 1);
    assert_eq!(data.list[0].name, "a");
    assert_eq!(data.update_all(Err(KucoBackendError::Unknown)), Err(KucoBackendError::Unknown));
    assert_eq!(data.list.len(), 1);
}

#[test]
fn backend_failures_have_their_texts() {
    assert_eq!(
        KucoBackendError::KubeConnectionError.message(),
        "unable to initialize kubernetes client - please verify you can access the cluster"
    );
    assert_eq!(KucoBackendError::Unknown.message(), "unknown data store error");
    let io = CacheError::IoFailure { message: "gone".to_string() };
    assert_ne!(io, CacheError::DeserializeFailure { key: "k".to_string(), cause: "gone".to_string() });
}

#[test]
fn the_clock_is_the_utc_time_of_day() {
    assert_eq!(format_clock(0).as_deref(), Some("00:00:00"));
    assert_eq!(format_clock(3661).as_deref(), Some("01:01:01"));
    assert_eq!(format_clock(86_399).as_deref(), Some("23:59:59"));
    assert_eq!(format_clock(86_400).as_deref(), Some("00:00:00"));
    assert_eq!(format_clock(1_431_648_000).as_deref(), Some("00:00:00"));
    assert_eq!(format_clock(1_700_000_000).as_deref(), Some("22:13:20"));
    assert_eq!(format_clock(-1).as_deref(), Some("23:59:59"));
    assert_eq!(format_clock(-86_400 - 3_600).as_deref(), Some("23:00:00"));
}

#[test]
fn the_clock_ends_where_the_calendar_ends() {
    assert_eq!(FIRST_CLOCK_SECOND, chrono::DateTime::<chrono::Utc>::MIN_UTC.timestamp());
    assert_eq!(LAST_CLOCK_SECOND, chrono::DateTime::<chrono::Utc>::MAX_UTC.timestamp());
    assert_eq!(format_clock(FIRST_CLOCK_SECOND).as_deref(), Some("00:00:00"));
    assert_eq!(format_clock(LAST_CLOCK_SECOND).as_deref(), Some("23:59:59"));
    assert_eq!(format_clock(FIRST_CLOCK_SECOND - 1), None);
    assert_eq!(format_clock(LAST_CLOCK_SECOND + 1), None);
    assert_eq!(format_clock(i64::MIN), None);
    assert_eq!(format_clock(i64::MAX), None);
}

#[test]
fn a_pod_line_reports_its_replicas() {
    let mut info = PodInfo::describe("web".to_string(), None);
    assert_eq!(info.replica_report(), kuco::pods::ReplicaReport::Unowned);
    info.set_replicas(Some(3), Some(-1));
    assert_eq!(info.replica_report(), kuco::pods::ReplicaReport::Failed);
    info.set_replicas(Some(3), Some(2));
    assert_eq!(
        info.replica_report(),
        kuco::pods::ReplicaReport::Counts { current: 2, desired: Some(3) }
    );
    info.set_replicas(None, Some(0));
    assert_eq!(
        info.replica_report(),
        kuco::pods::ReplicaReport::Counts { current: 0, desired: None }
    );
}

#[test]
fn the_namespace_list_stands_on_its_own() {
    let mut data = kuco::kube_data::KubeData::new();
    data.update_namespaces(&texts(&["default", "dev", "default"]));
    assert_eq!(data.namespace_list.render_items(), texts(&["default", "dev"]));
    let mut state = kuco::kube_data::KubeState::new();
    assert_eq!(state.namespace_state.ns_list_cursor, None);
    assert_eq!(state.namespace_state.search.input, "");
    state.namespace_state.ensure_cursor();
    assert_eq!(state.namespace_state.ns_list_cursor, Some(0));
    state.namespace_state.ns_list_cursor = Some(3);
    state.namespace_state.ensure_cursor();
    assert_eq!(state.namespace_state.ns_list_cursor, Some(3));
}

#[test]
fn lines_end_at_line_feeds_only() {
    let mut data = LogData::new();
    data.update(Some("foo\r\nbar\n\nbaz\r".to_string()), "ns", "po", "co");
    assert_eq!(data.lines, texts(&["foo", "bar", "", "baz\r"]));
    data.update(Some("\n".to_string()), "ns", "po", "co");
    assert_eq!(data.lines, texts(&[""]));
    data.update(Some("\r".to_string()), "ns", "po", "co");
    assert_eq!(data.lines, texts(&["\r"]));
    data.update(Some("a\r\r\n".to_string()), "ns", "po", "co");
    assert_eq!(data.lines, texts(&["a\r"]));
    data.update(Some("a\rb\n\n".to_string()), "ns", "po", "co");
    assert_eq!(data.lines, texts(&["a\rb", ""]));
}
