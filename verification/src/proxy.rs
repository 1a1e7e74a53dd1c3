//! The service proxy: the finished remote service adapter together with its
//! executor. The system under test drives the service lifecycle through it;
//! each operation delegates to the remote object and translates a
//! configured injected exception into a recoverable error value.

use vstd::prelude::*;

use crate::errors::RemoteInvocationError;
use crate::runtime::BuilderState;
use crate::runtime::Executor;
use crate::runtime::InteractionRecord;
use crate::runtime::RemoteObject;
use crate::runtime::RemoteRef;
use crate::runtime::Runtime;
use crate::runtime::same_but;
use crate::wire::spec_unmarshal_short;

verus! {

/// The view of an optional configuration string.
pub open spec fn opt_text_view(o: Option<String>) -> Option<Seq<char>> {
    match o {
        Some(s) => Some(s@),
        None => None,
    }
}

/// What invoking the conversion operation on a service with configuration
/// `d` yields: the configured exception kind if conversion was set to
/// throw, otherwise the registered transaction adapter's slot.
pub open spec fn convert_outcome(d: BuilderState) -> Result<Option<usize>, Seq<char>> {
    match d.convert_tx_throwing {
        Some(k) => Err(k@),
        None => Ok(d.convert_tx_adapter),
    }
}

/// What retrieving the initial configuration of a service with
/// configuration `d` yields: the configured exception kind if retrieval was
/// set to throw, otherwise the configured value.
pub open spec fn initial_config_outcome(d: BuilderState) -> Result<
    Option<Seq<char>>,
    Seq<char>,
> {
    match d.initial_config_throwing {
        Some(k) => Err(k@),
        None => Ok(opt_text_view(d.initial_config)),
    }
}

/// What running the after-commit hook of a service with configuration `d`
/// yields: the configured exception kind if the hook was set to throw,
/// otherwise success.
pub open spec fn after_commit_outcome(d: BuilderState) -> Result<(), Seq<char>> {
    match d.after_commit_throwing {
        Some(k) => Err(k@),
        None => Ok(()),
    }
}

/// The finished remote service adapter plus the executor its calls are
/// routed through.
pub struct ServiceProxy {
    /// The executor every delegated call is routed through.
    pub executor: Executor,
    /// The owned handle to the remote service adapter.
    pub service: RemoteRef,
}

impl ServiceProxy {
    /// The runtime as reached through this proxy's executor.
    pub open spec fn rt(self) -> Runtime {
        self.executor.runtime
    }

    /// The slot of the remote service adapter.
    pub open spec fn slot(self) -> int {
        self.service.id()
    }

    /// The slot holding the configuration the service was built from.
    pub open spec fn desc_slot(self) -> int {
        self.rt().service_at(self.slot()).desc_slot as int
    }

    /// The configuration the service observes.
    pub open spec fn desc(self) -> BuilderState {
        self.rt().builder_at(self.desc_slot())
    }

    /// The handle is sound: its slot holds a live service adapter whose
    /// configuration slot holds a builder state, and a wired interaction
    /// recorder, if any, holds a recorder.
    pub open spec fn wf(self) -> bool {
        &&& self.rt().is_service(self.slot())
        &&& self.rt().live(self.slot())
        &&& self.rt().is_builder(self.desc_slot())
        &&& (self.desc().interaction matches Some(ii) ==> self.rt().is_interaction(
            ii as int,
        ))
    }

    /// The slot holding the service's configuration.
    fn desc_index(&self) -> (ds: usize)
        requires
            self.wf(),
        ensures
            ds as int == self.desc_slot(),
    {
        match &self.executor.runtime.slots[self.service.slot_index()].obj {
            RemoteObject::Service(s) => s.desc_slot,
            _ => 0,
        }
    }

    /// The service identifier, read back from its marshaled representation.
    pub fn id(&self) -> (r: u16)
        requires
            self.wf(),
        ensures
            r == spec_unmarshal_short(self.desc().id),
    {
        let ds = self.desc_index();
        let raw = match &self.executor.runtime.slots[ds].obj {
            RemoteObject::Builder(st) => st.id,
            _ => 0,
        };
        crate::wire::unmarshal_short(raw)
    }

    /// The service display name.
    pub fn name(&self) -> (r: String)
        requires
            self.wf(),
        ensures
            r@ == self.desc().name@,
    {
        let ds = self.desc_index();
        match &self.executor.runtime.slots[ds].obj {
            RemoteObject::Builder(st) => st.name.clone(),
            _ => String::new(),
        }
    }

    /// The ordered state hashes the service reports, exactly as configured.
    pub fn state_hashes(&self) -> (r: Vec<crate::hash::Hash>)
        requires
            self.wf(),
        ensures
            r@.len() == self.desc().state_hashes@.len(),
            forall|j: int|
                0 <= j < r@.len() ==> r@[j]@ == self.desc().state_hashes@[j]@,
    {
        let ds = self.desc_index();
        let n = match &self.executor.runtime.slots[ds].obj {
            RemoteObject::Builder(st) => st.state_hashes.len(),
            _ => 0,
        };
        let mut out: Vec<crate::hash::Hash> = Vec::new();
        let mut k: usize = 0;
        while k < n
            invariant
                self.wf(),
                ds as int == self.desc_slot(),
                n == self.desc().state_hashes@.len(),
                k <= n,
                out@.len() == k,
                forall|j: int|
                    0 <= j < k ==> out@[j]@ == self.desc().state_hashes@[j]@,
            decreases n - k,
        {
            match &self.executor.runtime.slots[ds].obj {
                RemoteObject::Builder(st) => {
                    out.push(st.state_hashes[k].duplicate());
                },
                _ => {},
            }
            k = k + 1;
        }
        out
    }

    /// Invokes the conversion operation. Yields the configured exception
    /// kind exactly when conversion was set to throw; otherwise succeeds
    /// with the registered transaction adapter's slot.
    pub fn convert_transaction(&self, _message: &Vec<u8>) -> (r: Result<
        Option<usize>,
        RemoteInvocationError,
    >)
        requires
            self.wf(),
        ensures
            (convert_outcome(self.desc()) matches Ok(a) ==> (r matches Ok(x) && x == a)),
            (convert_outcome(self.desc()) matches Err(k) ==> (r matches Err(e)
                && e.kind@ == k)),
    {
        let ds = self.desc_index();
        match &self.executor.runtime.slots[ds].obj {
            RemoteObject::Builder(st) => {
                match &st.convert_tx_throwing {
                    Some(k) => Err(RemoteInvocationError { kind: k.clone() }),
                    None => Ok(st.convert_tx_adapter),
                }
            },
            _ => Ok(None),
        }
    }

    /// Retrieves the initial configuration. Yields the configured exception
    /// kind exactly when retrieval was set to throw; otherwise succeeds
    /// with the configured value.
    pub fn initial_global_config(&self) -> (r: Result<
        Option<String>,
        RemoteInvocationError,
    >)
        requires
            self.wf(),
        ensures
            (initial_config_outcome(self.desc()) matches Ok(c) ==> (r matches Ok(x)
                && opt_text_view(x) == c)),
            (initial_config_outcome(self.desc()) matches Err(k) ==> (r matches Err(e)
                && e.kind@ == k)),
    {
        let ds = self.desc_index();
        match &self.executor.runtime.slots[ds].obj {
            RemoteObject::Builder(st) => {
                match &st.initial_config_throwing {
                    Some(k) => Err(RemoteInvocationError { kind: k.clone() }),
                    None => {
                        match &st.initial_config {
                            Some(c) => Ok(Some(c.clone())),
                            None => Ok(None),
                        }
                    },
                }
            },
            _ => Ok(None),
        }
    }

    /// Runs the after-commit hook. Yields the configured exception kind
    /// exactly when the hook was set to throw, and then mutates nothing;
    /// otherwise succeeds, and the wired interaction recorder, if any,
    /// records exactly this invocation, after everything it already held.
    pub fn after_commit(&mut self, height: u64) -> (r: Result<(), RemoteInvocationError>)
        requires
            old(self).wf(),
        ensures
            final(self).wf(),
            final(self).slot() == old(self).slot(),
            final(self).desc_slot() == old(self).desc_slot(),
            final(self).executor.attached == old(self).executor.attached,
            (after_commit_outcome(old(self).desc()) matches Err(k) ==> (r matches Err(e)
                && e.kind@ == k && final(self).rt() == old(self).rt())),
            (after_commit_outcome(old(self).desc()) is Ok ==> r is Ok),
            (after_commit_outcome(old(self).desc()) is Ok ==> match old(
                self,
            ).desc().interaction {
                Some(ii) => {
                    &&& same_but(old(self).rt(), final(self).rt(), ii as int)
                    &&& final(self).rt().call_log@ == old(self).rt().call_log@
                    &&& final(self).rt().slots@[ii as int].rc == old(self).rt().slots@[ii as int].rc
                    &&& final(self).rt().is_interaction(ii as int)
                    &&& final(self).rt().interaction_at(ii as int) == old(
                        self,
                    ).rt().interaction_at(ii as int).push(InteractionRecord { height })
                },
                None => final(self).rt() == old(self).rt(),
            }),
    {
        let did = self.executor.attach();
        let ds = self.desc_index();
        let throwing: Option<String> = match &self.executor.runtime.slots[ds].obj {
            RemoteObject::Builder(st) => {
                match &st.after_commit_throwing {
                    Some(k) => Some(k.clone()),
                    None => None,
                }
            },
            _ => None,
        };
        match throwing {
            Some(kind) => {
                self.executor.detach(did);
                Err(RemoteInvocationError { kind })
            },
            None => {
                let inter: Option<usize> = match &self.executor.runtime.slots[ds].obj {
                    RemoteObject::Builder(st) => st.interaction,
                    _ => None,
                };
                match inter {
                    Some(ii) => {
                        let slot = &mut self.executor.runtime.slots[ii];
                        match &mut slot.obj {
                            RemoteObject::Interaction(log) => {
                                log.push(InteractionRecord { height });
                            },
                            _ => {},
                        }
                    },
                    None => {},
                }
                self.executor.detach(did);
                Ok(())
            },
        }
    }

    /// The calls an interaction recorder has recorded so far, in order.
    pub fn interaction_records(&self, handle: &RemoteRef) -> (r: Vec<InteractionRecord>)
        requires
            self.rt().is_interaction(handle.id()),
        ensures
            r@ == self.rt().interaction_at(handle.id()),
    {
        let i_idx = handle.slot_index();
        let n = match &self.executor.runtime.slots[i_idx].obj {
            RemoteObject::Interaction(log) => log.len(),
            _ => 0,
        };
        let mut out: Vec<InteractionRecord> = Vec::new();
        let mut k: usize = 0;
        while k < n
            invariant
                self.rt().is_interaction(i_idx as int),
                i_idx as int == handle.id(),
                n == self.rt().interaction_at(i_idx as int).len(),
                k <= n,
                out@.len() == k,
                forall|j: int|
                    0 <= j < k ==> out@[j] == self.rt().interaction_at(i_idx as int)[j],
            decreases n - k,
        {
            match &self.executor.runtime.slots[i_idx].obj {
                RemoteObject::Interaction(log) => {
                    out.push(log[k]);
                },
                _ => {},
            }
            k = k + 1;
        }
        proof {
            assert(out@ =~= self.rt().interaction_at(handle.id()));
        }
        out
    }
}

} // verus!
