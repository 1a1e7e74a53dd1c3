//! The fixed remote call surface: each named operation the bridge issues
//! against the managed runtime, with its exact wire signature, and the
//! marshaling of native argument values into the runtime's representation.

use vstd::prelude::*;

verus! {

/// The managed-runtime class of the finished service adapter.
pub fn service_adapter_class() -> (r: &'static str)
    ensures
        r@ == "com/exonum/binding/service/adapters/UserServiceAdapter"@,
{
    "com/exonum/binding/service/adapters/UserServiceAdapter"
}

/// The managed-runtime class of the remote mock builder object.
pub fn service_mock_builder_class() -> (r: &'static str)
    ensures
        r@ == "com/exonum/binding/fakes/mocks/UserServiceAdapterMockBuilder"@,
{
    "com/exonum/binding/fakes/mocks/UserServiceAdapterMockBuilder"
}

/// The identifier a freshly created builder is seeded with.
pub const SERVICE_DEFAULT_ID: u16 = 42;

/// The display name a freshly created builder is seeded with.
pub fn service_default_name() -> (r: &'static str)
    ensures
        r@ == "service 42"@,
{
    "service 42"
}

/// One named operation of the fixed call surface.
#[derive(Clone, Copy, Debug, PartialEq, Eq, Structural)]
pub enum MethodId {
    CreateServiceFakeBuilder,
    Id,
    Name,
    ConvertTransaction,
    ConvertTransactionThrowing,
    StateHashes,
    InitialGlobalConfig,
    InitialGlobalConfigThrowing,
    AfterCommitHandlerThrowing,
    GetMockInteractionAfterCommit,
    Build,
}

impl MethodId {
    /// The remote method name of this operation.
    pub open spec fn spec_name(self) -> Seq<char> {
        match self {
            MethodId::CreateServiceFakeBuilder => "createServiceFakeBuilder"@,
            MethodId::Id => "id"@,
            MethodId::Name => "name"@,
            MethodId::ConvertTransaction => "convertTransaction"@,
            MethodId::ConvertTransactionThrowing => "convertTransactionThrowing"@,
            MethodId::StateHashes => "stateHashes"@,
            MethodId::InitialGlobalConfig => "initialGlobalConfig"@,
            MethodId::InitialGlobalConfigThrowing => "initialGlobalConfigThrowing"@,
            MethodId::AfterCommitHandlerThrowing => "afterCommitHandlerThrowing"@,
            MethodId::GetMockInteractionAfterCommit => "getMockInteractionAfterCommit"@,
            MethodId::Build => "build"@,
        }
    }

    /// The exact wire signature of this operation, in the managed runtime's
    /// type encoding.
    pub open spec fn spec_signature(self) -> Seq<char> {
        match self {
            MethodId::CreateServiceFakeBuilder => "()Lcom/exonum/binding/fakes/mocks/UserServiceAdapterMockBuilder;"@,
            MethodId::Id => "(S)V"@,
            MethodId::Name => "(Ljava/lang/String;)V"@,
            MethodId::ConvertTransaction => "(Lcom/exonum/binding/service/adapters/UserTransactionAdapter;)V"@,
            MethodId::ConvertTransactionThrowing => "(Ljava/lang/Class;)V"@,
            MethodId::StateHashes => "([[B)V"@,
            MethodId::InitialGlobalConfig => "(Ljava/lang/String;)V"@,
            MethodId::InitialGlobalConfigThrowing => "(Ljava/lang/Class;)V"@,
            MethodId::AfterCommitHandlerThrowing => "(Ljava/lang/Class;)V"@,
            MethodId::GetMockInteractionAfterCommit => "()Lcom/exonum/binding/fakes/mocks/MockInteraction;"@,
            MethodId::Build => "()Lcom/exonum/binding/service/adapters/UserServiceAdapter;"@,
        }
    }

    /// The remote method name of this operation.
    pub fn name(&self) -> (r: &'static str)
        ensures
            r@ == self.spec_name(),
    {
        match self {
            MethodId::CreateServiceFakeBuilder => "createServiceFakeBuilder",
            MethodId::Id => "id",
            MethodId::Name => "name",
            MethodId::ConvertTransaction => "convertTransaction",
            MethodId::ConvertTransactionThrowing => "convertTransactionThrowing",
            MethodId::StateHashes => "stateHashes",
            MethodId::InitialGlobalConfig => "initialGlobalConfig",
            MethodId::InitialGlobalConfigThrowing => "initialGlobalConfigThrowing",
            MethodId::AfterCommitHandlerThrowing => "afterCommitHandlerThrowing",
            MethodId::GetMockInteractionAfterCommit => "getMockInteractionAfterCommit",
            MethodId::Build => "build",
        }
    }

    /// The exact wire signature of this operation.
    pub fn signature(&self) -> (r: &'static str)
        ensures
            r@ == self.spec_signature(),
    {
        match self {
            MethodId::CreateServiceFakeBuilder => "()Lcom/exonum/binding/fakes/mocks/UserServiceAdapterMockBuilder;",
            MethodId::Id => "(S)V",
            MethodId::Name => "(Ljava/lang/String;)V",
            MethodId::ConvertTransaction => "(Lcom/exonum/binding/service/adapters/UserTransactionAdapter;)V",
            MethodId::ConvertTransactionThrowing => "(Ljava/lang/Class;)V",
            MethodId::StateHashes => "([[B)V",
            MethodId::InitialGlobalConfig => "(Ljava/lang/String;)V",
            MethodId::InitialGlobalConfigThrowing => "(Ljava/lang/Class;)V",
            MethodId::AfterCommitHandlerThrowing => "(Ljava/lang/Class;)V",
            MethodId::GetMockInteractionAfterCommit => "()Lcom/exonum/binding/fakes/mocks/MockInteraction;",
            MethodId::Build => "()Lcom/exonum/binding/service/adapters/UserServiceAdapter;",
        }
    }
}

/// One remote invocation as issued on the wire: the remote object it targets
/// (`None` for a static factory call) and the operation invoked.
#[derive(Clone, Copy, Debug, PartialEq, Eq, Structural)]
pub struct CallRecord {
    pub target: Option<usize>,
    pub method: MethodId,
}

/// The factory call's wire signature is exactly the no-argument signature
/// returning the mock builder class.
pub proof fn lemma_factory_signature_names_builder_class()
    ensures
        MethodId::CreateServiceFakeBuilder.spec_signature() == "()L"@
            + "com/exonum/binding/fakes/mocks/UserServiceAdapterMockBuilder"@ + ";"@,
{
    reveal_strlit("()Lcom/exonum/binding/fakes/mocks/UserServiceAdapterMockBuilder;");
    reveal_strlit("()L");
    reveal_strlit("com/exonum/binding/fakes/mocks/UserServiceAdapterMockBuilder");
    reveal_strlit(";");
    assert(MethodId::CreateServiceFakeBuilder.spec_signature() =~= "()L"@
        + "com/exonum/binding/fakes/mocks/UserServiceAdapterMockBuilder"@ + ";"@);
}

/// The terminal build call's wire signature is exactly the no-argument
/// signature returning the service adapter class.
pub proof fn lemma_build_signature_names_adapter_class()
    ensures
        MethodId::Build.spec_signature() == "()L"@
            + "com/exonum/binding/service/adapters/UserServiceAdapter"@ + ";"@,
{
    reveal_strlit("()Lcom/exonum/binding/service/adapters/UserServiceAdapter;");
    reveal_strlit("()L");
    reveal_strlit("com/exonum/binding/service/adapters/UserServiceAdapter");
    reveal_strlit(";");
    assert(MethodId::Build.spec_signature() =~= "()L"@
        + "com/exonum/binding/service/adapters/UserServiceAdapter"@ + ";"@);
}

/// The value of a 16-bit unsigned identifier once marshaled into the managed
/// runtime's signed 16-bit argument representation.
pub open spec fn spec_marshal_short(v: u16) -> i16 {
    if v < 32768 {
        v as i16
    } else {
        ((v as int) - 65536) as i16
    }
}

/// The identifier a marshaled signed 16-bit value stands for.
pub open spec fn spec_unmarshal_short(v: i16) -> u16 {
    if v >= 0 {
        v as u16
    } else {
        ((v as int) + 65536) as u16
    }
}

/// Marshals an identifier into the runtime's signed 16-bit representation.
pub fn marshal_short(v: u16) -> (r: i16)
    ensures
        r == spec_marshal_short(v),
{
    if v < 32768 {
        v as i16
    } else {
        ((v as i32) - 65536) as i16
    }
}

/// Recovers an identifier from its signed 16-bit representation.
pub fn unmarshal_short(v: i16) -> (r: u16)
    ensures
        r == spec_unmarshal_short(v),
{
    if v >= 0 {
        v as u16
    } else {
        ((v as i32) + 65536) as u16
    }
}

/// Marshaling an identifier and reading it back yields the identifier:
/// no information is lost crossing the runtime boundary in either direction.
pub proof fn lemma_short_round_trip(v: u16)
    ensures
        spec_unmarshal_short(spec_marshal_short(v)) == v,
{
}

} // verus!
