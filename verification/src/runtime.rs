//! A model of the managed runtime's object table, of remote references into
//! it, and of the executor that attaches the calling thread around each
//! remote call.
//!
//! Remote objects live in slots that are never reused; a remote reference is
//! a slot index together with a native ownership count. The count tracks how
//! many native handles to the slot exist: a reference is created with count
//! one and released exactly once per handle, with release routed through the
//! executor. Remote-side links between objects (a built service reading the
//! builder state it was made from, a builder holding its interaction
//! recorder) are plain slot indices and do not need a native handle to stay
//! meaningful.

use vstd::prelude::*;

use crate::wire::CallRecord;
use crate::wire::MethodId;
use crate::wire::spec_marshal_short;

verus! {

/// One call recorded by an interaction recorder while the built service's
/// after-commit hook ran.
#[derive(Clone, Copy, Debug, PartialEq, Eq, Structural)]
pub struct InteractionRecord {
    /// The block height the hook was invoked with.
    pub height: u64,
}

/// The state a remote mock builder object accumulates, one field per
/// configurable aspect of the service double being described.
pub struct BuilderState {
    /// The service identifier, as marshaled into the runtime's signed
    /// 16-bit representation.
    pub id: i16,
    /// The service display name.
    pub name: String,
    /// The ordered state hashes the built service reports.
    pub state_hashes: Vec<crate::hash::Hash>,
    /// The configured initial configuration value, if any.
    pub initial_config: Option<String>,
    /// The slot of the transaction adapter registered for conversion calls.
    pub convert_tx_adapter: Option<usize>,
    /// The exception kind conversion calls are configured to raise.
    pub convert_tx_throwing: Option<String>,
    /// The exception kind initial-configuration retrieval is configured to
    /// raise.
    pub initial_config_throwing: Option<String>,
    /// The exception kind the after-commit hook is configured to raise.
    pub after_commit_throwing: Option<String>,
    /// The slot of the interaction recorder wired into the after-commit
    /// hook, if one was requested.
    pub interaction: Option<usize>,
}

/// The state of a built service adapter: it reads the configuration that was
/// accumulated in the builder slot it was made from, frozen there because
/// the native builder handle is consumed by building.
pub struct ServiceState {
    /// The slot holding the configuration this service was built from.
    pub desc_slot: usize,
}

/// One object inside the managed runtime.
pub enum RemoteObject {
    /// A mock builder accumulating a service description.
    Builder(BuilderState),
    /// A built service adapter.
    Service(ServiceState),
    /// An interaction recorder for the after-commit hook.
    Interaction(Vec<InteractionRecord>),
    /// A transaction adapter registered for conversion.
    TransactionAdapter,
}

/// One slot of the runtime's object table.
pub struct Slot {
    /// How many native handles to this object exist.
    pub rc: u64,
    /// The object itself.
    pub obj: RemoteObject,
}

/// The managed runtime: its object table, the log of every remote call
/// issued against it over the fixed call surface, and the registry of
/// exception kinds that are resolvable inside it.
pub struct Runtime {
    /// The object table; slots are appended and never removed.
    pub slots: Vec<Slot>,
    /// Every wire call issued so far, in order.
    pub call_log: Vec<CallRecord>,
    /// The exception kinds resolvable inside the runtime.
    pub exception_kinds: Vec<String>,
}

/// An owned native handle to one remote object: the index of its slot.
/// The type has no copy or clone, so a handle is released at most once,
/// by ownership transfer rather than by a runtime check.
pub struct RemoteRef {
    pub(crate) index: usize,
}

impl RemoteRef {
    /// The slot this handle refers to.
    pub closed spec fn id(&self) -> int {
        self.index as int
    }

    /// Wraps a slot index as an owned handle.
    pub(crate) fn from_index(index: usize) -> (r: RemoteRef)
        ensures
            r.id() == index as int,
    {
        RemoteRef { index }
    }

    /// The slot this handle refers to, as an index.
    pub fn slot_index(&self) -> (i: usize)
        ensures
            i as int == self.id(),
    {
        self.index
    }
}

impl Runtime {
    /// A runtime with no objects, no calls issued, and no exception kinds
    /// registered.
    pub fn new() -> (rt: Runtime)
        ensures
            rt.slots@.len() == 0,
            rt.call_log@.len() == 0,
            rt.exception_kinds@.len() == 0,
    {
        Runtime { slots: Vec::new(), call_log: Vec::new(), exception_kinds: Vec::new() }
    }

    /// Whether slot `i` exists.
    pub open spec fn has_obj(self, i: int) -> bool {
        0 <= i < self.slots@.len()
    }

    /// Whether slot `i` exists and some native handle to it is still owned.
    pub open spec fn live(self, i: int) -> bool {
        self.has_obj(i) && self.slots@[i].rc > 0
    }

    /// The object in slot `i`.
    pub open spec fn obj_at(self, i: int) -> RemoteObject {
        self.slots@[i].obj
    }

    /// Whether slot `i` holds a mock builder.
    pub open spec fn is_builder(self, i: int) -> bool {
        self.has_obj(i) && self.obj_at(i) is Builder
    }

    /// The builder state in slot `i`.
    pub open spec fn builder_at(self, i: int) -> BuilderState {
        self.obj_at(i)->Builder_0
    }

    /// Whether slot `i` holds a built service.
    pub open spec fn is_service(self, i: int) -> bool {
        self.has_obj(i) && self.obj_at(i) is Service
    }

    /// The service state in slot `i`.
    pub open spec fn service_at(self, i: int) -> ServiceState {
        self.obj_at(i)->Service_0
    }

    /// Whether slot `i` holds an interaction recorder.
    pub open spec fn is_interaction(self, i: int) -> bool {
        self.has_obj(i) && self.obj_at(i) is Interaction
    }

    /// The calls recorded by the interaction recorder in slot `i`.
    pub open spec fn interaction_at(self, i: int) -> Seq<InteractionRecord> {
        (self.obj_at(i)->Interaction_0)@
    }

    /// Whether slot `i` holds a transaction adapter.
    pub open spec fn is_transaction_adapter(self, i: int) -> bool {
        self.has_obj(i) && self.obj_at(i) is TransactionAdapter
    }

    /// Whether the exception kind named `kind` is resolvable inside the
    /// runtime.
    pub open spec fn registered(self, kind: Seq<char>) -> bool {
        exists|i: int|
            0 <= i < self.exception_kinds@.len() && self.exception_kinds@[i]@ == kind
    }

    /// Makes the exception kind named `kind` resolvable inside the runtime.
    pub fn register_exception_kind(&mut self, kind: String)
        ensures
            final(self).slots@ == old(self).slots@,
            final(self).call_log@ == old(self).call_log@,
            final(self).exception_kinds@ == old(self).exception_kinds@.push(kind),
            final(self).registered(kind@),
    {
        let ghost k = kind@;
        self.exception_kinds.push(kind);
        proof {
            assert(self.exception_kinds@[self.exception_kinds@.len() - 1]@ == k);
        }
    }

    /// Appends one wire call to the log.
    pub(crate) fn log_call(&mut self, target: Option<usize>, method: MethodId)
        ensures
            final(self).slots@ == old(self).slots@,
            final(self).exception_kinds@ == old(self).exception_kinds@,
            final(self).call_log@ == old(self).call_log@.push(
                CallRecord { target, method },
            ),
    {
        self.call_log.push(CallRecord { target, method });
    }

    /// Creates a remote object in a fresh slot, owned by one native handle.
    pub(crate) fn create_object(&mut self, obj: RemoteObject) -> (i: usize)
        ensures
            i == old(self).slots@.len(),
            final(self).slots@ == old(self).slots@.push(Slot { rc: 1, obj }),
            final(self).call_log@ == old(self).call_log@,
            final(self).exception_kinds@ == old(self).exception_kinds@,
    {
        let i = self.slots.len();
        self.slots.push(Slot { rc: 1, obj });
        i
    }
}

/// Slots other than `i` are untouched between `pre` and `post`, no slot was
/// added or removed, and the exception registry is unchanged.
pub open spec fn same_but(pre: Runtime, post: Runtime, i: int) -> bool {
    &&& post.slots@.len() == pre.slots@.len()
    &&& forall|j: int|
        0 <= j < pre.slots@.len() && j != i ==> post.slots@[j] == pre.slots@[j]
    &&& post.exception_kinds@ == pre.exception_kinds@
}

/// The executor: it owns the handle to the managed runtime and attaches the
/// calling thread around each remote call. This is the single-thread
/// variant, for test harnesses whose calls all originate from one thread;
/// it keeps no synchronization of its own.
pub struct Executor {
    /// The managed runtime reached through this executor.
    pub runtime: Runtime,
    /// Whether the calling thread is currently attached.
    pub attached: bool,
}

impl Executor {
    /// An executor over the given runtime, with the calling thread not yet
    /// attached.
    pub fn new(runtime: Runtime) -> (e: Executor)
        ensures
            e.runtime == runtime,
            !e.attached,
    {
        Executor { runtime, attached: false }
    }

    /// Attaches the calling thread if it is not already attached; an
    /// attached thread is reused as it is. Returns whether this call
    /// performed the attachment, so that exactly the scope that attached
    /// detaches.
    pub fn attach(&mut self) -> (did: bool)
        ensures
            final(self).runtime == old(self).runtime,
            final(self).attached,
            did == !old(self).attached,
    {
        if self.attached {
            false
        } else {
            self.attached = true;
            true
        }
    }

    /// Detaches the calling thread exactly when this scope performed the
    /// attachment, so a reused attachment is never torn down by a nested
    /// scope.
    pub fn detach(&mut self, did_attach: bool)
        requires
            old(self).attached,
        ensures
            final(self).runtime == old(self).runtime,
            final(self).attached == !did_attach,
    {
        if did_attach {
            self.attached = false;
        }
    }

    /// Creates a second owned handle to the same remote object; the remote
    /// object itself is not duplicated.
    pub fn clone_ref(&mut self, r: &RemoteRef) -> (r2: RemoteRef)
        requires
            old(self).runtime.live(r.id()),
            old(self).runtime.slots@[r.id()].rc < u64::MAX,
        ensures
            r2.id() == r.id(),
            final(self).attached == old(self).attached,
            same_but(old(self).runtime, final(self).runtime, r.id()),
            final(self).runtime.call_log@ == old(self).runtime.call_log@,
            final(self).runtime.obj_at(r.id()) == old(self).runtime.obj_at(r.id()),
            final(self).runtime.slots@[r.id()].rc == old(self).runtime.slots@[r.id()].rc + 1,
    {
        let i = r.index;
        let slot = &mut self.runtime.slots[i];
        slot.rc = slot.rc + 1;
        RemoteRef { index: i }
    }

    /// Gives up an owned handle. The handle is consumed, so no owner can
    /// release the same handle twice.
    pub fn release(&mut self, r: RemoteRef)
        requires
            old(self).runtime.live(r.id()),
        ensures
            final(self).attached == old(self).attached,
            same_but(old(self).runtime, final(self).runtime, r.id()),
            final(self).runtime.call_log@ == old(self).runtime.call_log@,
            final(self).runtime.obj_at(r.id()) == old(self).runtime.obj_at(r.id()),
            final(self).runtime.slots@[r.id()].rc == old(self).runtime.slots@[r.id()].rc - 1,
    {
        let i = r.index;
        let slot = &mut self.runtime.slots[i];
        slot.rc = slot.rc - 1;
    }

    /// Creates a transaction adapter object inside the runtime and hands
    /// back the owned handle to it.
    pub fn create_transaction_adapter(&mut self) -> (r: RemoteRef)
        ensures
            final(self).attached == old(self).attached,
            r.id() == old(self).runtime.slots@.len(),
            final(self).runtime.slots@ == old(self).runtime.slots@.push(
                Slot { rc: 1, obj: RemoteObject::TransactionAdapter },
            ),
            final(self).runtime.call_log@ == old(self).runtime.call_log@,
            final(self).runtime.exception_kinds@ == old(self).runtime.exception_kinds@,
            final(self).runtime.live(r.id()),
            final(self).runtime.is_transaction_adapter(r.id()),
    {
        let did = self.attach();
        let i = self.runtime.create_object(RemoteObject::TransactionAdapter);
        self.detach(did);
        RemoteRef { index: i }
    }
}

/// A configuration step of the builder protocol, as applied by the remote
/// builder object to its accumulated state.
pub enum ConfigOp {
    /// Set the service identifier.
    Id(u16),
    /// Set the service display name.
    Name(String),
    /// Register the transaction adapter in the given slot for conversion.
    ConvertTransaction(usize),
    /// Configure conversion to raise the given exception kind.
    ConvertTransactionThrowing(String),
    /// Set the ordered state hashes.
    StateHashes(Vec<crate::hash::Hash>),
    /// Set or clear the initial configuration value.
    InitialGlobalConfig(Option<String>),
    /// Configure initial-configuration retrieval to raise the given
    /// exception kind.
    InitialGlobalConfigThrowing(String),
    /// Configure the after-commit hook to raise the given exception kind.
    AfterCommitHandlerThrowing(String),
    /// Wire the interaction recorder in the given slot into the
    /// after-commit hook.
    MockInteraction(usize),
}

/// What one configuration step does to the accumulated builder state: it
/// replaces the one field the step names and leaves every other field as it
/// was.
pub open spec fn apply_op(d: BuilderState, op: ConfigOp) -> BuilderState {
    match op {
        ConfigOp::Id(v) => BuilderState { id: spec_marshal_short(v), ..d },
        ConfigOp::Name(s) => BuilderState { name: s, ..d },
        ConfigOp::ConvertTransaction(a) => BuilderState {
            convert_tx_adapter: Some(a),
            ..d
        },
        ConfigOp::ConvertTransactionThrowing(k) => BuilderState {
            convert_tx_throwing: Some(k),
            ..d
        },
        ConfigOp::StateHashes(hs) => BuilderState { state_hashes: hs, ..d },
        ConfigOp::InitialGlobalConfig(c) => BuilderState { initial_config: c, ..d },
        ConfigOp::InitialGlobalConfigThrowing(k) => BuilderState {
            initial_config_throwing: Some(k),
            ..d
        },
        ConfigOp::AfterCommitHandlerThrowing(k) => BuilderState {
            after_commit_throwing: Some(k),
            ..d
        },
        ConfigOp::MockInteraction(m) => BuilderState { interaction: Some(m), ..d },
    }
}

} // verus!
