//! The pods of a namespace and the workload that owns each.

use vstd::prelude::*;
use crate::error::KucoBackendError;

verus! {

/// What is shown of one pod.
#[derive(Clone, Debug, Default)]
pub struct PodInfo {
    pub name: String,
    pub status: String,
    pub replicas: Option<i32>,
    pub desired_replicas: Option<i32>,
}

/// The pods of a namespace.
#[derive(Clone, Debug, Default)]
pub struct PodData {
    pub list: Vec<PodInfo>,
    pub names: Vec<String>,
}

/// The kinds of owner that carry replica counts.
#[derive(Clone, Copy, Debug, PartialEq, Eq, Structural)]
pub enum WorkloadKind {
    ReplicaSet,
    Deployment,
    StatefulSet,
}

/// One owner reference of a pod: the owner's kind and name.
#[derive(Clone, Debug)]
pub struct OwnerReference {
    pub kind: String,
    pub name: String,
}

/// The workload kind that a reference's kind text stands for.
pub open spec fn workload_kind_of(kind: Seq<char>) -> Option<WorkloadKind> {
    if kind == "ReplicaSet"@ {
        Some(WorkloadKind::ReplicaSet)
    } else if kind == "Deployment"@ {
        Some(WorkloadKind::Deployment)
    } else if kind == "StatefulSet"@ {
        Some(WorkloadKind::StatefulSet)
    } else {
        None
    }
}

/// Reads a reference's kind text.
pub fn workload_kind(kind: &str) -> (r: Option<WorkloadKind>)
    ensures
        r == workload_kind_of(kind@),
{
    if *kind == *"ReplicaSet" {
        Some(WorkloadKind::ReplicaSet)
    } else if *kind == *"Deployment" {
        Some(WorkloadKind::Deployment)
    } else if *kind == *"StatefulSet" {
        Some(WorkloadKind::StatefulSet)
    } else {
        None
    }
}

/// The status shown for a pod whose phase the cluster did not tell.
pub const UNKNOWN_STATUS: &'static str = "Unknown";

/// The owners of one pod, looked through in order for the first that
/// answers with replica counts.
#[derive(Debug, Clone)]
pub struct OwnerScan {
    pub owners: Vec<OwnerReference>,
    pub next: usize,
}

/// An owner to ask the cluster about.
#[derive(Debug, Clone, PartialEq, Eq)]
pub struct OwnerQuery {
    pub kind: WorkloadKind,
    pub name: String,
}

/// Whether `i` is the first owner from `from` on that carries replica
/// counts.
pub open spec fn first_workload_from(owners: Seq<OwnerReference>, from: int, i: int) -> bool {
    &&& from <= i < owners.len()
    &&& workload_kind_of(owners[i].kind@).is_some()
    &&& forall|j: int| from <= j < i ==> workload_kind_of(#[trigger] owners[j].kind@).is_none()
}

/// Whether no owner from `from` on carries replica counts.
pub open spec fn no_workload_from(owners: Seq<OwnerReference>, from: int) -> bool {
    forall|j: int| from <= j < owners.len() ==> workload_kind_of(#[trigger] owners[j].kind@).is_none()
}

impl OwnerScan {
    /// A scan that starts at the first owner.
    pub fn new(owners: Vec<OwnerReference>) -> (scan: Self)
        ensures
            scan.owners == owners,
            scan.next == 0,
    {
        OwnerScan { owners, next: 0 }
    }

    /// The next owner to ask about: the first from the scan's position on
    /// whose kind carries replica counts. The scan then stands behind it.
    /// `None` when no such owner is left; the scan then stands at the end.
    pub fn advance(&mut self) -> (query: Option<OwnerQuery>)
        requires
            old(self).next <= old(self).owners.len(),
        ensures
            final(self).owners == old(self).owners,
            match query {
                Some(q) => {
                    &&& first_workload_from(
                        old(self).owners@,
                        old(self).next as int,
                        final(self).next - 1,
                    )
                    &&& Some(q.kind) == workload_kind_of(
                        old(self).owners[final(self).next - 1].kind@,
                    )
                    &&& q.name@ == old(self).owners[final(self).next - 1].name@
                },
                None => {
                    &&& no_workload_from(old(self).owners@, old(self).next as int)
                    &&& final(self).next == old(self).owners.len()
                },
            },
    {
        let mut i: usize = self.next;
        while i < self.owners.len()
            invariant
                self.next <= i <= self.owners.len(),
                self.owners == old(self).owners,
                self.next == old(self).next,
                forall|j: int|
                    self.next <= j < i ==> workload_kind_of(
                        #[trigger] self.owners[j].kind@,
                    ).is_none(),
            decreases self.owners.len() - i,
        {
            match workload_kind(self.owners[i].kind.as_str()) {
                Some(kind) => {
                    let name = self.owners[i].name.clone();
                    self.next = i + 1;
                    return Some(OwnerQuery { kind, name });
                },
                None => {},
            }
            i += 1;
        }
        self.next = i;
        None
    }

    /// Ends the scan: an owner has answered.
    pub fn finish(&mut self)
        ensures
            final(self).owners == old(self).owners,
            final(self).next == old(self).owners.len(),
    {
        self.next = self.owners.len();
    }
}

/// What a pod's line says of its replicas.
#[derive(Clone, Copy, Debug, PartialEq, Eq, Structural)]
pub enum ReplicaReport {
    /// The pod has no owner that counts replicas.
    Unowned,
    /// The owner could not say how many replicas run.
    Failed,
    /// How many replicas run, and how many are asked for, if that is known.
    Counts { current: i32, desired: Option<i32> },
}

impl PodInfo {
    /// What the pod's line says of its replicas: nothing without a count, a
    /// failure for the count -1, else the counts.
    pub fn replica_report(&self) -> (report: ReplicaReport)
        ensures
            report == match self.replicas {
                None => ReplicaReport::Unowned,
                Some(current) => if current == -1 {
                    ReplicaReport::Failed
                } else {
                    ReplicaReport::Counts { current, desired: self.desired_replicas }
                },
            },
    {
        match self.replicas {
            None => ReplicaReport::Unowned,
            Some(current) => {
                if current == -1 {
                    ReplicaReport::Failed
                } else {
                    ReplicaReport::Counts { current, desired: self.desired_replicas }
                }
            },
        }
    }

    /// What is known of a pod from the pod itself: its name and its phase,
    /// `Unknown` where the cluster tells none. The replica counts are open.
    pub fn describe(name: String, phase: Option<String>) -> (info: Self)
        ensures
            info.name == name,
            info.status@ == match phase {
                Some(p) => p@,
                None => UNKNOWN_STATUS@,
            },
            info.replicas.is_none(),
            info.desired_replicas.is_none(),
    {
        let status = match phase {
            Some(p) => p,
            None => String::from_str(UNKNOWN_STATUS),
        };
        PodInfo { name, status, replicas: None, desired_replicas: None }
    }

    /// Takes in the replica counts that an owner answered with: how many
    /// its spec asks for and how many its status reports.
    pub fn set_replicas(&mut self, desired: Option<i32>, current: Option<i32>)
        ensures
            final(self).name == old(self).name,
            final(self).status == old(self).status,
            final(self).desired_replicas == desired,
            final(self).replicas == current,
    {
        self.desired_replicas = desired;
        self.replicas = current;
    }

    /// Takes in what the cluster answered for this pod, keeping the replica
    /// counts until an owner answers. A failure changes nothing and is
    /// handed on.
    pub fn update(&mut self, fetched: Result<(String, Option<String>), KucoBackendError>) -> (r:
        Result<(), KucoBackendError>)
        ensures
            match fetched {
                Ok((name, phase)) => {
                    &&& r.is_ok()
                    &&& final(self).name == name
                    &&& final(self).status@ == match phase {
                        Some(p) => p@,
                        None => UNKNOWN_STATUS@,
                    }
                    &&& final(self).replicas == old(self).replicas
                    &&& final(self).desired_replicas == old(self).desired_replicas
                },
                Err(e) => r == Err::<(), KucoBackendError>(e) && *final(self) == *old(self),
            },
    {
        match fetched {
            Ok((name, phase)) => {
                self.name = name;
                self.status = match phase {
                    Some(p) => p,
                    None => String::from_str(UNKNOWN_STATUS),
                };
                Ok(())
            },
            Err(e) => Err(e),
        }
    }
}

impl PodData {
    /// Takes in a listing of the pods' names. A failure leaves the names as
    /// they were and is handed on.
    pub fn get_names(&mut self, listed: Result<Vec<String>, KucoBackendError>) -> (r: Result<
        (),
        KucoBackendError,
    >)
        ensures
            final(self).list == old(self).list,
            match listed {
                Ok(names) => r.is_ok() && final(self).names == names,
                Err(e) => r == Err::<(), KucoBackendError>(e) && final(self).names == old(self).names,
            },
    {
        match listed {
            Ok(names) => {
                self.names = names;
                Ok(())
            },
            Err(e) => Err(e),
        }
    }

    /// Takes in what was gathered of each pod. A failure leaves the list as
    /// it was and is handed on.
    pub fn update_all(&mut self, gathered: Result<Vec<PodInfo>, KucoBackendError>) -> (r: Result<
        (),
        KucoBackendError,
    >)
        ensures
            final(self).names == old(self).names,
            match gathered {
                Ok(list) => r.is_ok() && final(self).list == list,
                Err(e) => r == Err::<(), KucoBackendError>(e) && final(self).list == old(self).list,
            },
    {
        match gathered {
            Ok(list) => {
                self.list = list;
                Ok(())
            },
            Err(e) => Err(e),
        }
    }
}

} // verus!
