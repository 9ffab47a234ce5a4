use vstd::prelude::*;

use crate::state::{AdminList, AdminListView};

verus! {

/// The single-record persistence handle every operation reads and writes the
/// admin-list record through. It stands for the one durable key-value entry
/// the hosting environment keeps for this instance; the host injects it into
/// each operation and commits it afterwards, so the library's view of storage
/// is this explicit value rather than hidden global state.
pub struct Store {
    admin_list: Option<AdminList>,
}

impl View for Store {
    type V = Option<AdminListView>;

    closed spec fn view(&self) -> Option<AdminListView> {
        match self.admin_list {
            Some(cfg) => Some(cfg@),
            None => None,
        }
    }
}

impl Store {
    /// An empty store: no record has been written yet.
    pub fn new() -> (s: Store)
        ensures
            s@ is None,
    {
        Store { admin_list: None }
    }

    /// Whether a record has been written.
    pub open spec fn has_record(self) -> bool {
        self@ is Some
    }

    /// The stored record's content; meaningful only when `has_record()`.
    pub open spec fn record(self) -> AdminListView
        recommends
            self.has_record(),
    {
        self@->Some_0
    }

    /// Exec-visible form of `has_record`, for unverified callers that must
    /// establish it before invoking an operation.
    pub fn is_initialized(&self) -> (r: bool)
        ensures
            r == self.has_record(),
    {
        self.admin_list.is_some()
    }

    /// Writes `cfg` as the stored record, replacing any previous one.
    pub fn save(&mut self, cfg: AdminList)
        ensures
            final(self)@ == Some(cfg@),
    {
        self.admin_list = Some(cfg);
    }

    /// Borrows the stored record.
    pub fn load(&self) -> (r: &AdminList)
        requires
            self.has_record(),
        ensures
            r@ == self.record(),
    {
        match &self.admin_list {
            Some(cfg) => cfg,
            None => vstd::pervasive::unreached(),
        }
    }

    /// Removes and returns the stored record, leaving the store empty until
    /// the next `save`.
    pub fn take(&mut self) -> (r: AdminList)
        requires
            old(self).has_record(),
        ensures
            r@ == old(self).record(),
            final(self)@ is None,
    {
        let taken = self.admin_list.take();
        match taken {
            Some(cfg) => cfg,
            None => vstd::pervasive::unreached(),
        }
    }
}

} // verus!
