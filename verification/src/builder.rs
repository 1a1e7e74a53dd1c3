//! The builder protocol: a fluent, consuming configuration object that
//! drives a remote mock builder through the fixed call surface, one remote
//! call per setter.
//!
//! Every setter takes the builder by value and returns it, so a builder can
//! only ever be configured from one call site at a time, and after `build`
//! no further configuration call is possible on the consumed handle: reuse
//! is a type-level impossibility, not a runtime check.

use vstd::prelude::*;

use crate::runtime::BuilderState;
use crate::runtime::ConfigOp;
use crate::runtime::Executor;
use crate::runtime::RemoteObject;
use crate::runtime::RemoteRef;
use crate::runtime::Runtime;
use crate::runtime::ServiceState;
use crate::runtime::apply_op;
use crate::runtime::same_but;
use crate::proxy::ServiceProxy;
use crate::wire::CallRecord;
use crate::wire::MethodId;
use crate::wire::SERVICE_DEFAULT_ID;
use crate::wire::service_default_name;
use crate::wire::spec_marshal_short;

verus! {

/// The effect of one configuration call on the runtime: the builder state
/// in slot `i` advances by `op`, one wire call naming `m` is logged against
/// that slot, and nothing else changes.
pub open spec fn setter_step(
    pre: Runtime,
    post: Runtime,
    i: int,
    op: ConfigOp,
    m: MethodId,
) -> bool {
    &&& same_but(pre, post, i)
    &&& post.slots@[i].rc == pre.slots@[i].rc
    &&& post.is_builder(i)
    &&& post.builder_at(i) == apply_op(pre.builder_at(i), op)
    &&& post.call_log@ == pre.call_log@.push(
        CallRecord { target: Some(i as usize), method: m },
    )
}

/// Performs one configuration call: attach, apply the step to the remote
/// builder state, log the wire call, detach.
fn apply_setter(executor: &mut Executor, idx: usize, op: ConfigOp, m: MethodId)
    requires
        old(executor).runtime.is_builder(idx as int),
    ensures
        final(executor).attached == old(executor).attached,
        setter_step(old(executor).runtime, final(executor).runtime, idx as int, op, m),
{
    let did = executor.attach();
    let slot = &mut executor.runtime.slots[idx];
    match &mut slot.obj {
        RemoteObject::Builder(st) => {
            match op {
                ConfigOp::Id(v) => {
                    st.id = crate::wire::marshal_short(v);
                },
                ConfigOp::Name(s) => {
                    st.name = s;
                },
                ConfigOp::ConvertTransaction(a) => {
                    st.convert_tx_adapter = Some(a);
                },
                ConfigOp::ConvertTransactionThrowing(k) => {
                    st.convert_tx_throwing = Some(k);
                },
                ConfigOp::StateHashes(hs) => {
                    st.state_hashes = hs;
                },
                ConfigOp::InitialGlobalConfig(c) => {
                    st.initial_config = c;
                },
                ConfigOp::InitialGlobalConfigThrowing(k) => {
                    st.initial_config_throwing = Some(k);
                },
                ConfigOp::AfterCommitHandlerThrowing(k) => {
                    st.after_commit_throwing = Some(k);
                },
                ConfigOp::MockInteraction(mi) => {
                    st.interaction = Some(mi);
                },
            }
        },
        _ => {},
    }
    executor.runtime.log_call(Some(idx), m);
    executor.detach(did);
}

/// A fluent, consuming handle that configures one remote mock builder
/// object. Constructing it creates the remote builder and seeds it with the
/// default identifier, name, and single default state hash, so an
/// unconfigured builder still builds successfully.
pub struct ServiceMockBuilder {
    /// The executor every remote call is routed through.
    pub executor: Executor,
    /// The owned handle to the remote mock builder object.
    pub builder: RemoteRef,
}

impl ServiceMockBuilder {
    /// The runtime as reached through this builder's executor.
    pub open spec fn rt(self) -> Runtime {
        self.executor.runtime
    }

    /// The slot of the remote mock builder object.
    pub open spec fn slot(self) -> int {
        self.builder.id()
    }

    /// The state accumulated so far on the remote builder.
    pub open spec fn desc(self) -> BuilderState {
        self.rt().builder_at(self.slot())
    }

    /// The handle is sound: its slot holds a live mock builder, and a
    /// requested interaction recorder, if any, holds a recorder.
    pub open spec fn wf(self) -> bool {
        &&& self.rt().is_builder(self.slot())
        &&& self.rt().live(self.slot())
        &&& (self.desc().interaction matches Some(ii) ==> self.rt().is_interaction(
            ii as int,
        ))
    }

    /// The configuration calls shared by every plain setter's contract.
    pub open spec fn setter_post(self, r: Self, op: ConfigOp, m: MethodId) -> bool {
        &&& r.wf()
        &&& r.slot() == self.slot()
        &&& r.executor.attached == self.executor.attached
        &&& setter_step(self.rt(), r.rt(), self.slot(), op, m)
        &&& r.desc() == apply_op(self.desc(), op)
    }

    /// Creates a remote mock builder through the static factory call and
    /// seeds it with the default identifier, the default name, and a single
    /// state hash: the digest of the fixed default input.
    pub fn new(executor: Executor) -> (r: Self)
        ensures
            r.wf(),
            r.executor.attached == executor.attached,
            r.slot() == executor.runtime.slots@.len(),
            r.rt().slots@.len() == executor.runtime.slots@.len() + 1,
            forall|j: int|
                0 <= j < executor.runtime.slots@.len() ==> r.rt().slots@[j]
                    == executor.runtime.slots@[j],
            r.rt().slots@[r.slot()].rc == 1,
            r.rt().exception_kinds@ == executor.runtime.exception_kinds@,
            r.desc().id == spec_marshal_short(SERVICE_DEFAULT_ID),
            r.desc().name@ == "service 42"@,
            r.desc().state_hashes@.len() == 1,
            r.desc().state_hashes@[0]@ == crate::hash::digest_of(default_hash_input()),
            r.desc().initial_config is None,
            r.desc().convert_tx_adapter is None,
            r.desc().convert_tx_throwing is None,
            r.desc().initial_config_throwing is None,
            r.desc().after_commit_throwing is None,
            r.desc().interaction is None,
            r.rt().call_log@ == executor.runtime.call_log@.push(
                CallRecord { target: None, method: MethodId::CreateServiceFakeBuilder },
            ).push(
                CallRecord {
                    target: Some(r.slot() as usize),
                    method: MethodId::Id,
                },
            ).push(
                CallRecord {
                    target: Some(r.slot() as usize),
                    method: MethodId::Name,
                },
            ).push(
                CallRecord {
                    target: Some(r.slot() as usize),
                    method: MethodId::StateHashes,
                },
            ),
    {
        let mut executor = executor;
        let did = executor.attach();
        let fresh = BuilderState {
            id: 0,
            name: String::new(),
            state_hashes: Vec::new(),
            initial_config: None,
            convert_tx_adapter: None,
            convert_tx_throwing: None,
            initial_config_throwing: None,
            after_commit_throwing: None,
            interaction: None,
        };
        let idx = executor.runtime.create_object(RemoteObject::Builder(fresh));
        executor.runtime.log_call(None, MethodId::CreateServiceFakeBuilder);
        executor.detach(did);
        let b = ServiceMockBuilder { executor, builder: RemoteRef::from_index(idx) };
        let b = b.id(SERVICE_DEFAULT_ID);
        let b = b.name(service_default_name().to_owned());
        let mut hashes: Vec<crate::hash::Hash> = Vec::new();
        let input = default_input_bytes();
        hashes.push(crate::hash::hash(input.as_slice()));
        let b = b.state_hashes(hashes);
        b
    }

    /// Sets the service identifier; one remote `id` call, marshaling the
    /// identifier to the runtime's signed 16-bit representation.
    pub fn id(self, id: u16) -> (r: Self)
        requires
            self.wf(),
        ensures
            self.setter_post(r, ConfigOp::Id(id), MethodId::Id),
    {
        let mut b = self;
        apply_setter(&mut b.executor, b.builder.slot_index(), ConfigOp::Id(id), MethodId::Id);
        b
    }

    /// Sets the service display name; one remote `name` call.
    pub fn name(self, name: String) -> (r: Self)
        requires
            self.wf(),
        ensures
            self.setter_post(r, ConfigOp::Name(name), MethodId::Name),
    {
        let mut b = self;
        apply_setter(&mut b.executor, b.builder.slot_index(), ConfigOp::Name(name), MethodId::Name);
        b
    }

    /// Registers a transaction adapter for conversion calls; one remote
    /// `convertTransaction` call. The native handle to the adapter is
    /// consumed and released; the remote builder keeps the adapter by its
    /// own slot reference.
    pub fn convert_transaction(self, transaction: RemoteRef) -> (r: Self)
        requires
            self.wf(),
            self.rt().live(transaction.id()),
            self.rt().is_transaction_adapter(transaction.id()),
        ensures
            r.wf(),
            r.slot() == self.slot(),
            r.executor.attached == self.executor.attached,
            r.desc() == apply_op(
                self.desc(),
                ConfigOp::ConvertTransaction(transaction.id() as usize),
            ),
            r.rt().slots@.len() == self.rt().slots@.len(),
            forall|j: int|
                0 <= j < self.rt().slots@.len() && j != self.slot() && j
                    != transaction.id() ==> r.rt().slots@[j] == self.rt().slots@[j],
            r.rt().slots@[self.slot()].rc == self.rt().slots@[self.slot()].rc,
            r.rt().obj_at(transaction.id()) == self.rt().obj_at(transaction.id()),
            r.rt().slots@[transaction.id()].rc == self.rt().slots@[transaction.id()].rc
                - 1,
            r.rt().exception_kinds@ == self.rt().exception_kinds@,
            r.rt().call_log@ == self.rt().call_log@.push(
                CallRecord {
                    target: Some(self.slot() as usize),
                    method: MethodId::ConvertTransaction,
                },
            ),
    {
        let mut b = self;
        proof {
            assert(b.slot() != transaction.id());
        }
        let t_idx = transaction.slot_index();
        apply_setter(
            &mut b.executor,
            b.builder.slot_index(),
            ConfigOp::ConvertTransaction(t_idx),
            MethodId::ConvertTransaction,
        );
        b.executor.release(transaction);
        b
    }

    /// Configures conversion calls on the built service to raise the given
    /// exception kind; one remote `convertTransactionThrowing` call. The
    /// kind must be resolvable inside the runtime.
    pub fn convert_transaction_throwing(self, exception_class: String) -> (r: Self)
        requires
            self.wf(),
            self.rt().registered(exception_class@),
        ensures
            self.setter_post(
                r,
                ConfigOp::ConvertTransactionThrowing(exception_class),
                MethodId::ConvertTransactionThrowing,
            ),
    {
        let mut b = self;
        apply_setter(
            &mut b.executor,
            b.builder.slot_index(),
            ConfigOp::ConvertTransactionThrowing(exception_class),
            MethodId::ConvertTransactionThrowing,
        );
        b
    }

    /// Sets the ordered sequence of state hashes the built service reports;
    /// one remote `stateHashes` call marshaling the hashes as an array of
    /// byte arrays.
    pub fn state_hashes(self, hashes: Vec<crate::hash::Hash>) -> (r: Self)
        requires
            self.wf(),
        ensures
            self.setter_post(r, ConfigOp::StateHashes(hashes), MethodId::StateHashes),
    {
        let mut b = self;
        apply_setter(
            &mut b.executor,
            b.builder.slot_index(),
            ConfigOp::StateHashes(hashes),
            MethodId::StateHashes,
        );
        b
    }

    /// Sets or clears the initial configuration value; one remote
    /// `initialGlobalConfig` call, marshaling `None` as the runtime's null.
    pub fn initial_global_config(self, config: Option<String>) -> (r: Self)
        requires
            self.wf(),
        ensures
            self.setter_post(
                r,
                ConfigOp::InitialGlobalConfig(config),
                MethodId::InitialGlobalConfig,
            ),
    {
        let mut b = self;
        apply_setter(
            &mut b.executor,
            b.builder.slot_index(),
            ConfigOp::InitialGlobalConfig(config),
            MethodId::InitialGlobalConfig,
        );
        b
    }

    /// Configures initial-configuration retrieval on the built service to
    /// raise the given exception kind; one remote
    /// `initialGlobalConfigThrowing` call. The kind must be resolvable
    /// inside the runtime.
    pub fn initial_global_config_throwing(self, exception_class: String) -> (r: Self)
        requires
            self.wf(),
            self.rt().registered(exception_class@),
        ensures
            self.setter_post(
                r,
                ConfigOp::InitialGlobalConfigThrowing(exception_class),
                MethodId::InitialGlobalConfigThrowing,
            ),
    {
        let mut b = self;
        apply_setter(
            &mut b.executor,
            b.builder.slot_index(),
            ConfigOp::InitialGlobalConfigThrowing(exception_class),
            MethodId::InitialGlobalConfigThrowing,
        );
        b
    }

    /// Configures the after-commit hook on the built service to raise the
    /// given exception kind; one remote `afterCommitHandlerThrowing` call.
    /// The kind must be resolvable inside the runtime.
    pub fn after_commit_throwing(self, exception_class: String) -> (r: Self)
        requires
            self.wf(),
            self.rt().registered(exception_class@),
        ensures
            self.setter_post(
                r,
                ConfigOp::AfterCommitHandlerThrowing(exception_class),
                MethodId::AfterCommitHandlerThrowing,
            ),
    {
        let mut b = self;
        apply_setter(
            &mut b.executor,
            b.builder.slot_index(),
            ConfigOp::AfterCommitHandlerThrowing(exception_class),
            MethodId::AfterCommitHandlerThrowing,
        );
        b
    }

    /// Creates an interaction recorder inside the runtime, wires it into
    /// the built service's after-commit hook, and returns the continuation
    /// of the builder together with the owned handle to the recorder; one
    /// remote `getMockInteractionAfterCommit` call.
    pub fn get_mock_interaction_after_commit(self) -> (r: (Self, RemoteRef))
        requires
            self.wf(),
        ensures
            r.0.wf(),
            r.0.slot() == self.slot(),
            r.0.executor.attached == self.executor.attached,
            r.1.id() == self.rt().slots@.len(),
            r.0.rt().slots@.len() == self.rt().slots@.len() + 1,
            forall|j: int|
                0 <= j < self.rt().slots@.len() && j != self.slot() ==> r.0.rt().slots@[j]
                    == self.rt().slots@[j],
            r.0.rt().slots@[self.slot()].rc == self.rt().slots@[self.slot()].rc,
            r.0.rt().is_interaction(r.1.id()),
            r.0.rt().live(r.1.id()),
            r.0.rt().slots@[r.1.id()].rc == 1,
            r.0.rt().interaction_at(r.1.id()) == Seq::<
                crate::runtime::InteractionRecord,
            >::empty(),
            r.0.desc() == apply_op(
                self.desc(),
                ConfigOp::MockInteraction(r.1.id() as usize),
            ),
            r.0.rt().exception_kinds@ == self.rt().exception_kinds@,
            r.0.rt().call_log@ == self.rt().call_log@.push(
                CallRecord {
                    target: Some(self.slot() as usize),
                    method: MethodId::GetMockInteractionAfterCommit,
                },
            ),
    {
        let mut b = self;
        let did = b.executor.attach();
        let records: Vec<crate::runtime::InteractionRecord> = Vec::new();
        let ii = b.executor.runtime.create_object(RemoteObject::Interaction(records));
        apply_setter(
            &mut b.executor,
            b.builder.slot_index(),
            ConfigOp::MockInteraction(ii),
            MethodId::GetMockInteractionAfterCommit,
        );
        b.executor.detach(did);
        (b, RemoteRef::from_index(ii))
    }

    /// The terminal operation: requests remote construction of the service
    /// adapter from the accumulated configuration, consumes the builder,
    /// releases its native handle, and wraps the new adapter with the
    /// executor as a service proxy. The configuration the proxy observes is
    /// exactly the builder's accumulated state.
    pub fn build(self) -> (p: ServiceProxy)
        requires
            self.wf(),
        ensures
            p.wf(),
            p.executor.attached == self.executor.attached,
            p.slot() == self.rt().slots@.len(),
            p.desc() == self.desc(),
            p.desc_slot() == self.slot(),
            p.rt().slots@.len() == self.rt().slots@.len() + 1,
            forall|j: int|
                0 <= j < self.rt().slots@.len() && j != self.slot() ==> p.rt().slots@[j]
                    == self.rt().slots@[j],
            p.rt().obj_at(self.slot()) == self.rt().obj_at(self.slot()),
            p.rt().slots@[self.slot()].rc == self.rt().slots@[self.slot()].rc - 1,
            p.rt().slots@[p.slot()].rc == 1,
            p.rt().exception_kinds@ == self.rt().exception_kinds@,
            p.rt().call_log@ == self.rt().call_log@.push(
                CallRecord { target: Some(self.slot() as usize), method: MethodId::Build },
            ),
    {
        let ServiceMockBuilder { mut executor, builder } = self;
        let did = executor.attach();
        let idx = builder.slot_index();
        let si = executor.runtime.create_object(
            RemoteObject::Service(ServiceState { desc_slot: idx }),
        );
        executor.runtime.log_call(Some(idx), MethodId::Build);
        executor.release(builder);
        executor.detach(did);
        ServiceProxy { executor, service: RemoteRef::from_index(si) }
    }
}

/// The fixed input whose digest seeds an unconfigured builder's single
/// default state hash.
pub open spec fn default_hash_input() -> Seq<u8> {
    seq![1u8, 2u8, 3u8]
}

/// The fixed default input, as bytes.
fn default_input_bytes() -> (v: Vec<u8>)
    ensures
        v@ == default_hash_input(),
{
    let mut v: Vec<u8> = Vec::new();
    v.push(1u8);
    v.push(2u8);
    v.push(3u8);
    proof {
        assert(v@ =~= seq![1u8, 2u8, 3u8]);
    }
    v
}

} // verus!
