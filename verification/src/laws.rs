//! Laws of the configuration protocol, stated over the builder-state
//! transition `apply_op` that every setter's contract is written with, and
//! over the outcome functions the proxy's contracts are written with.

use vstd::prelude::*;

use crate::proxy::after_commit_outcome;
use crate::proxy::convert_outcome;
use crate::proxy::initial_config_outcome;
use crate::runtime::BuilderState;
use crate::runtime::ConfigOp;
use crate::runtime::apply_op;
use crate::wire::spec_marshal_short;

verus! {

/// The builder state after a whole sequence of configuration steps,
/// applied in order.
pub open spec fn apply_ops(d: BuilderState, ops: Seq<ConfigOp>) -> BuilderState
    decreases ops.len(),
{
    if ops.len() == 0 {
        d
    } else {
        apply_op(apply_ops(d, ops.drop_last()), ops.last())
    }
}

/// Each configuration step replaces only the field it names: every other
/// field of the accumulated state is left exactly as it was, so the
/// configurable fields are independent of one another.
pub proof fn lemma_step_touches_only_its_field(d: BuilderState, op: ConfigOp)
    ensures
        !(op is Id) ==> apply_op(d, op).id == d.id,
        !(op is Name) ==> apply_op(d, op).name == d.name,
        !(op is StateHashes) ==> apply_op(d, op).state_hashes == d.state_hashes,
        !(op is InitialGlobalConfig) ==> apply_op(d, op).initial_config
            == d.initial_config,
        !(op is ConvertTransaction) ==> apply_op(d, op).convert_tx_adapter
            == d.convert_tx_adapter,
        !(op is ConvertTransactionThrowing) ==> apply_op(d, op).convert_tx_throwing
            == d.convert_tx_throwing,
        !(op is InitialGlobalConfigThrowing) ==> apply_op(d, op).initial_config_throwing
            == d.initial_config_throwing,
        !(op is AfterCommitHandlerThrowing) ==> apply_op(d, op).after_commit_throwing
            == d.after_commit_throwing,
        !(op is MockInteraction) ==> apply_op(d, op).interaction == d.interaction,
{
}

/// Last write wins for the identifier: after any configuration sequence
/// whose last identifier step sets `v`, the accumulated identifier is the
/// marshaled form of `v`, whatever other steps surround it.
pub proof fn lemma_id_last_write_wins(
    d: BuilderState,
    ops: Seq<ConfigOp>,
    i: int,
    v: u16,
)
    requires
        0 <= i < ops.len(),
        ops[i] == ConfigOp::Id(v),
        forall|j: int| i < j < ops.len() ==> !(ops[j] is Id),
    ensures
        apply_ops(d, ops).id == spec_marshal_short(v),
    decreases ops.len(),
{
    if i == ops.len() - 1 {
        assert(ops.last() == ConfigOp::Id(v));
    } else {
        assert(ops.drop_last()[i] == ops[i]);
        lemma_id_last_write_wins(d, ops.drop_last(), i, v);
        assert(!(ops.last() is Id));
    }
}

/// A configuration sequence with no identifier step leaves the identifier
/// as it was seeded.
pub proof fn lemma_id_untouched(d: BuilderState, ops: Seq<ConfigOp>)
    requires
        forall|j: int| 0 <= j < ops.len() ==> !(ops[j] is Id),
    ensures
        apply_ops(d, ops).id == d.id,
    decreases ops.len(),
{
    if ops.len() > 0 {
        lemma_id_untouched(d, ops.drop_last());
    }
}

/// Last write wins for the display name.
pub proof fn lemma_name_last_write_wins(
    d: BuilderState,
    ops: Seq<ConfigOp>,
    i: int,
    s: String,
)
    requires
        0 <= i < ops.len(),
        ops[i] == ConfigOp::Name(s),
        forall|j: int| i < j < ops.len() ==> !(ops[j] is Name),
    ensures
        apply_ops(d, ops).name == s,
    decreases ops.len(),
{
    if i == ops.len() - 1 {
        assert(ops.last() == ConfigOp::Name(s));
    } else {
        assert(ops.drop_last()[i] == ops[i]);
        lemma_name_last_write_wins(d, ops.drop_last(), i, s);
        assert(!(ops.last() is Name));
    }
}

/// A configuration sequence with no name step leaves the name as seeded.
pub proof fn lemma_name_untouched(d: BuilderState, ops: Seq<ConfigOp>)
    requires
        forall|j: int| 0 <= j < ops.len() ==> !(ops[j] is Name),
    ensures
        apply_ops(d, ops).name == d.name,
    decreases ops.len(),
{
    if ops.len() > 0 {
        lemma_name_untouched(d, ops.drop_last());
    }
}

/// Last write wins for the state-hash sequence.
pub proof fn lemma_state_hashes_last_write_wins(
    d: BuilderState,
    ops: Seq<ConfigOp>,
    i: int,
    hs: Vec<crate::hash::Hash>,
)
    requires
        0 <= i < ops.len(),
        ops[i] == ConfigOp::StateHashes(hs),
        forall|j: int| i < j < ops.len() ==> !(ops[j] is StateHashes),
    ensures
        apply_ops(d, ops).state_hashes == hs,
    decreases ops.len(),
{
    if i == ops.len() - 1 {
        assert(ops.last() == ConfigOp::StateHashes(hs));
    } else {
        assert(ops.drop_last()[i] == ops[i]);
        lemma_state_hashes_last_write_wins(d, ops.drop_last(), i, hs);
        assert(!(ops.last() is StateHashes));
    }
}

/// A configuration sequence with no state-hash step leaves the hashes as
/// seeded.
pub proof fn lemma_state_hashes_untouched(d: BuilderState, ops: Seq<ConfigOp>)
    requires
        forall|j: int| 0 <= j < ops.len() ==> !(ops[j] is StateHashes),
    ensures
        apply_ops(d, ops).state_hashes == d.state_hashes,
    decreases ops.len(),
{
    if ops.len() > 0 {
        lemma_state_hashes_untouched(d, ops.drop_last());
    }
}

/// Configuring conversion to throw `kind` makes the conversion operation
/// yield exactly that kind, and affects nothing else the service observes:
/// every other operation's outcome and every other configured field is
/// exactly as before.
pub proof fn lemma_convert_throwing_isolated(d: BuilderState, kind: String)
    ensures
        ({
            let d2 = apply_op(d, ConfigOp::ConvertTransactionThrowing(kind));
            &&& convert_outcome(d2) == Err::<Option<usize>, Seq<char>>(kind@)
            &&& initial_config_outcome(d2) == initial_config_outcome(d)
            &&& after_commit_outcome(d2) == after_commit_outcome(d)
            &&& d2.id == d.id
            &&& d2.name == d.name
            &&& d2.state_hashes == d.state_hashes
            &&& d2.interaction == d.interaction
        }),
{
}

/// Configuring initial-configuration retrieval to throw `kind` makes that
/// retrieval yield exactly that kind, and affects nothing else the service
/// observes.
pub proof fn lemma_config_throwing_isolated(d: BuilderState, kind: String)
    ensures
        ({
            let d2 = apply_op(d, ConfigOp::InitialGlobalConfigThrowing(kind));
            &&& initial_config_outcome(d2) == Err::<Option<Seq<char>>, Seq<char>>(kind@)
            &&& convert_outcome(d2) == convert_outcome(d)
            &&& after_commit_outcome(d2) == after_commit_outcome(d)
            &&& d2.id == d.id
            &&& d2.name == d.name
            &&& d2.state_hashes == d.state_hashes
            &&& d2.interaction == d.interaction
        }),
{
}

/// Configuring the after-commit hook to throw `kind` makes the hook yield
/// exactly that kind, and affects nothing else the service observes.
pub proof fn lemma_after_commit_throwing_isolated(d: BuilderState, kind: String)
    ensures
        ({
            let d2 = apply_op(d, ConfigOp::AfterCommitHandlerThrowing(kind));
            &&& after_commit_outcome(d2) == Err::<(), Seq<char>>(kind@)
            &&& convert_outcome(d2) == convert_outcome(d)
            &&& initial_config_outcome(d2) == initial_config_outcome(d)
            &&& d2.id == d.id
            &&& d2.name == d.name
            &&& d2.state_hashes == d.state_hashes
            &&& d2.interaction == d.interaction
        }),
{
}

} // verus!
