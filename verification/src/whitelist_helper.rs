use vstd::prelude::*;

use crate::error::ContractError;
use crate::state::Addr;
use crate::store::Store;

verus! {

/// Whether every submitted entry passed the external address validator.
/// `entries` carries the validator's verdicts, in submission order: the
/// canonical token, or `None` where validation failed.
pub open spec fn all_valid(entries: Seq<Option<Addr>>) -> bool {
    forall|i: int| 0 <= i < entries.len() ==> entries[i] is Some
}

/// The validated tokens, in submission order; meaningful when `all_valid`
/// holds of `entries`.
pub open spec fn valid_seq(entries: Seq<Option<Addr>>) -> Seq<Seq<char>> {
    Seq::new(entries.len(), |i: int| entries[i]->Some_0@)
}

/// The relay predicate, read from the store: whether `sender` is a current
/// admin. A pure read.
pub fn can_execute(store: &Store, sender: &String) -> (r: bool)
    requires
        store.has_record(),
    ensures
        r == store.record().is_admin(sender@),
{
    store.load().is_admin(sender)
}

/// Collects the validator's verdicts for a whole batch: every entry must
/// have passed, in which case the tokens come back in submission order; a
/// single failed entry rejects the whole batch with `InvalidAddress`.
pub fn map_validate(entries: Vec<Option<Addr>>) -> (r: Result<Vec<Addr>, ContractError>)
    ensures
        r is Ok <==> all_valid(entries@),
        (r matches Ok(v) ==> {
            &&& v@.len() == entries@.len()
            &&& forall|i: int| 0 <= i < entries@.len() ==> v@[i]@ == valid_seq(entries@)[i]
        }),
        r matches Err(e) ==> e == ContractError::InvalidAddress,
{
    let mut rest = entries;
    let mut out: Vec<Addr> = Vec::new();
    while rest.len() > 0
        invariant
            out@.len() + rest@.len() == entries@.len(),
            forall|i: int| 0 <= i < rest@.len() ==> rest@[i] == entries@[out@.len() + i],
            forall|i: int|
                0 <= i < out@.len() ==> entries@[i] is Some && out@[i]@ == entries@[i]->Some_0@,
        decreases rest@.len(),
    {
        let entry = rest.remove(0);
        match entry {
            Some(token) => {
                out.push(token);
            },
            None => {
                proof {
                    assert(entries@[out@.len() as int] is None);
                }
                return Err(ContractError::InvalidAddress);
            },
        }
    }
    Ok(out)
}

} // verus!
