use core::marker::PhantomData;

use vstd::prelude::*;

use crate::error::ContractError;
use crate::msg::{AdminListResponse, CanExecuteResponse, Empty, Response};
use crate::state::{Addr, AdminList};
use crate::store::Store;
use crate::whitelist_helper::{all_valid, can_execute, map_validate, valid_seq};

verus! {

/// The capabilities a custom relayed-command type must offer. The library
/// never inspects such a value: a command is accepted, carried in a batch and
/// handed back verbatim.
pub trait CustomMsg: Clone {

}

impl CustomMsg for Empty {

}

/// The access-control state machine around one stored `AdminList`. The handle
/// itself carries no state; it only fixes the custom command, execute and
/// query payload types, which the operations forward or ignore unread.
pub struct WhiteListContract<C, E, Q> where C: CustomMsg {
    _custom_response: PhantomData<C>,
    _custom_execute: PhantomData<E>,
    _custom_query: PhantomData<Q>,
}

impl<C, E, Q> Default for WhiteListContract<C, E, Q> where
    C: CustomMsg,
    E: CustomMsg,
    Q: CustomMsg,
 {
    fn default() -> Self {
        Self::new()
    }
}

impl<C, E, Q> WhiteListContract<C, E, Q> where C: CustomMsg, E: CustomMsg, Q: CustomMsg {
    /// A fresh handle on the state machine.
    pub fn new() -> Self {
        WhiteListContract {
            _custom_response: PhantomData,
            _custom_execute: PhantomData,
            _custom_query: PhantomData,
        }
    }

    /// Relay: re-emit `msgs` unchanged for the host to carry out, tagged
    /// `action = execute`. Succeeds exactly when the sender is a current
    /// admin — the mutability flag plays no part — and never changes the
    /// stored record.
    pub fn execute_execute(
        &self,
        store: &mut Store,
        sender: &Addr,
        msgs: Vec<C>,
    ) -> (r: Result<Response<C>, ContractError>)
        requires
            old(store).has_record(),
        ensures
            *final(store) == *old(store),
            r is Ok <==> old(store).record().is_admin(sender@),
            (r matches Ok(res) ==> {
                &&& res.messages@ == msgs@
                &&& res.attributes@.len() == 1
                &&& res.attributes@[0].key@ == "action"@
                &&& res.attributes@[0].value@ == "execute"@
            }),
            r is Err ==> r == Err::<Response<C>, ContractError>(ContractError::Unauthorized),
    {
        if !can_execute(store, sender.as_string()) {
            Err(ContractError::Unauthorized)
        } else {
            let res = Response::new().add_messages(msgs).add_attribute("action", "execute");
            proof {
                assert(res.messages@ =~= msgs@);
            }
            Ok(res)
        }
    }

    /// Freeze: permanently clear the mutability flag, tagged
    /// `action = freeze`. Succeeds exactly when the sender may modify the
    /// record — a current admin, and the record still mutable — and leaves
    /// the record untouched otherwise, so a freeze can only ever succeed once
    /// in a record's lifetime.
    pub fn execute_freeze(&self, store: &mut Store, sender: &Addr) -> (r: Result<
        Response<C>,
        ContractError,
    >)
        requires
            old(store).has_record(),
        ensures
            final(store).has_record(),
            final(store).record() == old(store).record().freeze_step(sender@),
            r is Ok <==> old(store).record().can_modify(sender@),
            (r matches Ok(res) ==> {
                &&& res.messages@.len() == 0
                &&& res.attributes@.len() == 1
                &&& res.attributes@[0].key@ == "action"@
                &&& res.attributes@[0].value@ == "freeze"@
            }),
            r is Err ==> r == Err::<Response<C>, ContractError>(ContractError::Unauthorized),
    {
        let cfg = store.take();
        if !cfg.can_modify(sender.as_string()) {
            store.save(cfg);
            Err(ContractError::Unauthorized)
        } else {
            let frozen = AdminList { admins: cfg.admins, mutable: false };
            proof {
                assert(frozen@.admins =~= cfg@.admins);
            }
            store.save(frozen);
            Ok(Response::new().add_attribute("action", "freeze"))
        }
    }

    /// UpdateAdmins: replace the member list with the validated entries,
    /// tagged `action = update_admins`. `admins` carries the address
    /// validator's verdict for each submitted entry, in submission order:
    /// the canonical token, or `None` where validation failed.
    ///
    /// Authorization is judged against the record before the call — the
    /// sender must be a current admin of a still-mutable record, and may
    /// hand in a set that excludes themself. An unauthorized sender is
    /// rejected outright; a failed entry then aborts the whole update with
    /// `InvalidAddress`. Either way the record is untouched on failure: the
    /// update is all-or-nothing.
    pub fn execute_update_admins(
        &self,
        store: &mut Store,
        sender: &Addr,
        admins: Vec<Option<Addr>>,
    ) -> (r: Result<Response<C>, ContractError>)
        requires
            old(store).has_record(),
        ensures
            final(store).has_record(),
            final(store).record() == old(store).record().update_step(
                sender@,
                valid_seq(admins@),
                all_valid(admins@),
            ),
            r is Ok <==> old(store).record().can_modify(sender@) && all_valid(admins@),
            (r matches Ok(res) ==> {
                &&& res.messages@.len() == 0
                &&& res.attributes@.len() == 1
                &&& res.attributes@[0].key@ == "action"@
                &&& res.attributes@[0].value@ == "update_admins"@
            }),
            !old(store).record().can_modify(sender@) ==> r == Err::<
                Response<C>,
                ContractError,
            >(ContractError::Unauthorized),
            old(store).record().can_modify(sender@) && !all_valid(admins@) ==> r == Err::<
                Response<C>,
                ContractError,
            >(ContractError::InvalidAddress),
    {
        let cfg = store.take();
        if !cfg.can_modify(sender.as_string()) {
            store.save(cfg);
            return Err(ContractError::Unauthorized);
        }
        match map_validate(admins) {
            Ok(validated) => {
                let updated = AdminList { admins: validated, mutable: cfg.mutable };
                proof {
                    assert(updated@.admins =~= valid_seq(admins@));
                }
                store.save(updated);
                Ok(Response::new().add_attribute("action", "update_admins"))
            },
            Err(e) => {
                store.save(cfg);
                Err(e)
            },
        }
    }

    /// QueryAdminList: the stored admins, in stored order, and the
    /// mutability flag. No authorization applies, and the store is only
    /// borrowed: a pure read.
    pub fn query_admin_list(&self, store: &Store) -> (r: AdminListResponse)
        requires
            store.has_record(),
        ensures
            r@ == store.record(),
    {
        let cfg = store.load();
        let mut admins: Vec<String> = Vec::new();
        let mut i: usize = 0;
        while i < cfg.admins.len()
            invariant
                i <= cfg.admins.len(),
                admins@.len() == i,
                forall|j: int| 0 <= j < i ==> admins@[j]@ == cfg.admins@[j]@,
                cfg@ == store.record(),
            decreases cfg.admins.len() - i,
        {
            admins.push(cfg.admins[i].to_string());
            i += 1;
        }
        let r = AdminListResponse { admins, mutable: cfg.mutable };
        proof {
            assert(r@ =~= store.record());
        }
        r
    }

    /// QueryCanExecute: whether `sender` is currently an admin, which is all
    /// that relay authorization asks. The command payload is accepted but
    /// never inspected: any admin may relay any command. No authorization
    /// applies, and the store is only borrowed: a pure read.
    pub fn query_can_execute<M>(&self, store: &Store, sender: String, _msg: M) -> (r:
        CanExecuteResponse)
        requires
            store.has_record(),
        ensures
            r.can_execute == store.record().is_admin(sender@),
    {
        CanExecuteResponse { can_execute: can_execute(store, &sender) }
    }
}

} // verus!
