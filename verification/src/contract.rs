use vstd::prelude::*;

use crate::error::ContractError;
use crate::msg::{Empty, Response};
use crate::state::{Addr, AdminList, AdminListView};
use crate::store::Store;
use crate::whitelist_helper::{all_valid, map_validate, valid_seq};

verus! {

/// Initialize: create and persist the admin-list record from the address
/// validator's verdicts on the caller-supplied entries, in submission order,
/// together with the mutability flag. A single failed entry rejects the whole
/// batch with `InvalidAddress` and leaves the store untouched. No
/// authorization applies: the instantiating context is trusted.
pub fn instantiate(
    store: &mut Store,
    admins: Vec<Option<Addr>>,
    mutable: bool,
) -> (r: Result<Response<Empty>, ContractError>)
    ensures
        r is Ok <==> all_valid(admins@),
        r is Ok ==> final(store)@ == Some(
            AdminListView { admins: valid_seq(admins@), mutable: mutable },
        ),
        r is Err ==> final(store)@ == old(store)@ && r == Err::<Response<Empty>, ContractError>(
            ContractError::InvalidAddress,
        ),
        r matches Ok(res) ==> res.messages@.len() == 0 && res.attributes@.len() == 0,
{
    let validated = match map_validate(admins) {
        Ok(v) => v,
        Err(e) => {
            return Err(e);
        },
    };
    let cfg = AdminList { admins: validated, mutable };
    proof {
        assert(cfg@.admins =~= valid_seq(admins@));
    }
    store.save(cfg);
    Ok(Response::new())
}

} // verus!
