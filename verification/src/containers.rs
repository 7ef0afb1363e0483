//! The containers of the pod that is looked at.

use vstd::prelude::*;
use crate::error::KucoBackendError;

verus! {

/// The names of a pod's containers.
#[derive(Clone, Debug)]
pub struct ContainerData {
    pub names: Vec<String>,
}

/// The containers of a pod, from the container names of its spec: a pod
/// without a spec has none.
pub fn spec_containers(spec: Option<Vec<String>>) -> (names: Vec<String>)
    ensures
        names@ == match spec {
            Some(listed) => listed@,
            None => Seq::empty(),
        },
{
    match spec {
        Some(listed) => listed,
        None => Vec::new(),
    }
}

impl ContainerData {
    /// No container known yet.
    pub fn new() -> (data: Self)
        ensures
            data.names@.len() == 0,
    {
        ContainerData { names: Vec::new() }
    }

    /// Takes in what the cluster answered for a pod: the container names of
    /// its spec, `None` where the pod has no spec, or the failure. A pod
    /// without a spec has no containers; a failure leaves the names as
    /// they were and is handed on.
    pub fn update(&mut self, fetched: Result<Option<Vec<String>>, KucoBackendError>) -> (r: Result<
        (),
        KucoBackendError,
    >)
        ensures
            match fetched {
                Ok(Some(names)) => r.is_ok() && final(self).names@ == names@,
                Ok(None) => r.is_ok() && final(self).names@.len() == 0,
                Err(e) => r == Err::<(), KucoBackendError>(e) && final(self).names@ == old(self).names@,
            },
    {
        match fetched {
            Ok(spec) => {
                self.names = spec_containers(spec);
                Ok(())
            },
            Err(e) => Err(e),
        }
    }
}

impl Default for ContainerData {
    fn default() -> (data: Self)
        ensures
            data.names@.len() == 0,
    {
        ContainerData::new()
    }
}

} // verus!
