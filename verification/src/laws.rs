use vstd::prelude::*;

use crate::state::AdminListView;

verus! {

/// One attempted operation against the stored record, reduced to what it can
/// do to that record. Relay never changes it; Freeze and UpdateAdmins change
/// it exactly as `freeze_step` and `update_step` say, whether the attempt
/// succeeds or is rejected.
pub enum AdminOp {
    Relay { caller: Seq<char> },
    Freeze { caller: Seq<char> },
    UpdateAdmins { caller: Seq<char>, new_admins: Seq<Seq<char>>, all_valid: bool },
}

/// The record one attempted operation leaves behind.
pub open spec fn apply_op(v: AdminListView, op: AdminOp) -> AdminListView {
    match op {
        AdminOp::Relay { .. } => v,
        AdminOp::Freeze { caller } => v.freeze_step(caller),
        AdminOp::UpdateAdmins { caller, new_admins, all_valid } => v.update_step(
            caller,
            new_admins,
            all_valid,
        ),
    }
}

/// The record a whole sequence of attempted operations leaves behind, first
/// operation first.
pub open spec fn apply_ops(v: AdminListView, ops: Seq<AdminOp>) -> AdminListView
    decreases ops.len(),
{
    if ops.len() == 0 {
        v
    } else {
        apply_ops(apply_op(v, ops[0]), ops.subrange(1, ops.len() as int))
    }
}

/// A frozen record is beyond every operation's reach: whatever sequence of
/// operations follows, the record stays exactly as it is.
pub proof fn lemma_frozen_stays_frozen(v: AdminListView, ops: Seq<AdminOp>)
    requires
        !v.mutable,
    ensures
        apply_ops(v, ops) == v,
    decreases ops.len(),
{
    if ops.len() > 0 {
        assert(apply_op(v, ops[0]) == v);
        lemma_frozen_stays_frozen(v, ops.subrange(1, ops.len() as int));
    }
}

/// Monotonic freeze: once a Freeze by an authorized caller succeeds, the
/// record is frozen and remains frozen under every further sequence of
/// operations, and no caller ever satisfies the modification predicate
/// again — so every later Freeze or UpdateAdmins is rejected with
/// `Unauthorized`, by those operations' contracts.
pub proof fn lemma_monotonic_freeze(v: AdminListView, freezer: Seq<char>, ops: Seq<AdminOp>)
    requires
        v.can_modify(freezer),
    ensures
        !apply_ops(v.freeze_step(freezer), ops).mutable,
        forall|caller: Seq<char>| !apply_ops(v.freeze_step(freezer), ops).can_modify(caller),
{
    lemma_frozen_stays_frozen(v.freeze_step(freezer), ops);
}

/// The mutability flag never rises under a single operation: whatever the
/// caller and arguments, a record that comes out mutable went in mutable, so
/// true-to-false is the only transition the flag ever makes.
pub proof fn lemma_mutability_monotonic(v: AdminListView, op: AdminOp)
    ensures
        apply_op(v, op).mutable ==> v.mutable,
{
}

/// The mutability flag never rises under any sequence of operations.
pub proof fn lemma_mutability_monotonic_ops(v: AdminListView, ops: Seq<AdminOp>)
    ensures
        apply_ops(v, ops).mutable ==> v.mutable,
    decreases ops.len(),
{
    if ops.len() > 0 {
        lemma_mutability_monotonic(v, ops[0]);
        lemma_mutability_monotonic_ops(apply_op(v, ops[0]), ops.subrange(1, ops.len() as int));
    }
}

/// Relay authorization ignores the mutability flag: two records with the
/// same admins admit exactly the same relayers, frozen or not.
pub proof fn lemma_relay_ignores_mutability(
    a: AdminListView,
    b: AdminListView,
    caller: Seq<char>,
)
    requires
        a.admins == b.admins,
    ensures
        a.is_admin(caller) == b.is_admin(caller),
{
}

/// Self-removal: UpdateAdmins judges its caller against the record before
/// the call, so an admin of a still-mutable record may hand in a new set
/// that excludes themself; the update succeeds, and afterwards they are no
/// longer an admin.
pub proof fn lemma_self_removal(v: AdminListView, caller: Seq<char>, new_admins: Seq<Seq<char>>)
    requires
        v.can_modify(caller),
        !new_admins.contains(caller),
    ensures
        v.update_step(caller, new_admins, true) == (AdminListView {
            admins: new_admins,
            mutable: v.mutable,
        }),
        !v.update_step(caller, new_admins, true).is_admin(caller),
{
}

/// Update atomicity: an UpdateAdmins batch in which any entry failed
/// validation leaves the record exactly as it was, whoever the caller is.
pub proof fn lemma_update_atomicity(
    v: AdminListView,
    caller: Seq<char>,
    new_admins: Seq<Seq<char>>,
)
    ensures
        v.update_step(caller, new_admins, false) == v,
{
}

} // verus!
