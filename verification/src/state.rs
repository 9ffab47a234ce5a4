use vstd::prelude::*;

verus! {

/// A validated identity token: the canonical form of an address that the
/// external address validator has accepted. The library never parses or
/// normalizes addresses; it stores and compares them as opaque strings.
#[derive(Debug, Clone)]
pub struct Addr {
    token: String,
}

impl View for Addr {
    type V = Seq<char>;

    closed spec fn view(&self) -> Seq<char> {
        self.token@
    }
}

impl Addr {
    /// Wraps an already-validated address string as an identity token.
    pub fn new(token: String) -> (a: Addr)
        ensures
            a@ == token@,
    {
        Addr { token }
    }

    /// The token's characters, borrowed.
    pub fn as_string(&self) -> (r: &String)
        ensures
            r@ == self@,
    {
        &self.token
    }

    /// The token's characters, as a fresh owned string.
    pub fn to_string(&self) -> (r: String)
        ensures
            r@ == self@,
    {
        self.token.clone()
    }
}

/// The mathematical content of an `AdminList`: the admin identities as a
/// sequence of character strings, plus the mutability flag.
#[verifier::ext_equal]
pub struct AdminListView {
    pub admins: Seq<Seq<char>>,
    pub mutable: bool,
}

impl AdminListView {
    /// The relay predicate: membership alone; the mutability flag plays no
    /// part in it.
    pub open spec fn is_admin(self, addr: Seq<char>) -> bool {
        self.admins.contains(addr)
    }

    /// The modification predicate: the record is still mutable and the
    /// caller is a current member.
    pub open spec fn can_modify(self, addr: Seq<char>) -> bool {
        self.mutable && self.is_admin(addr)
    }

    /// The record a Freeze attempt by `caller` leaves behind: frozen when the
    /// caller may modify the record, unchanged otherwise.
    pub open spec fn freeze_step(self, caller: Seq<char>) -> AdminListView {
        if self.can_modify(caller) {
            AdminListView { admins: self.admins, mutable: false }
        } else {
            self
        }
    }

    /// The record an UpdateAdmins attempt by `caller` leaves behind:
    /// `new_admins` replaces the member list only when the caller may modify
    /// the record and every submitted entry passed validation (`all_valid`);
    /// otherwise the record is unchanged.
    pub open spec fn update_step(
        self,
        caller: Seq<char>,
        new_admins: Seq<Seq<char>>,
        all_valid: bool,
    ) -> AdminListView {
        if self.can_modify(caller) && all_valid {
            AdminListView { admins: new_admins, mutable: self.mutable }
        } else {
            self
        }
    }
}

/// The sole persisted entity: the admin identities, in caller-supplied order
/// and without implicit deduplication, and the flag that says whether the
/// record may still change.
#[derive(Debug, Clone)]
pub struct AdminList {
    pub admins: Vec<Addr>,
    pub mutable: bool,
}

impl View for AdminList {
    type V = AdminListView;

    open spec fn view(&self) -> AdminListView {
        AdminListView {
            admins: Seq::new(self.admins@.len(), |i: int| self.admins@[i]@),
            mutable: self.mutable,
        }
    }
}

impl AdminList {
    /// Returns whether `addr` is a registered admin.
    pub fn is_admin(&self, addr: &String) -> (r: bool)
        ensures
            r == self@.is_admin(addr@),
    {
        let mut i: usize = 0;
        while i < self.admins.len()
            invariant
                i <= self.admins.len(),
                forall|j: int| 0 <= j < i ==> self.admins@[j]@ != addr@,
            decreases self.admins.len() - i,
        {
            if self.admins[i].as_string().eq(addr) {
                proof {
                    assert(self@.admins[i as int] == addr@);
                }
                return true;
            }
            i += 1;
        }
        proof {
            assert forall|j: int| 0 <= j < self@.admins.len() implies self@.admins[j] != addr@ by {
                assert(self@.admins[j] == self.admins@[j]@);
            }
        }
        false
    }

    /// Returns whether `addr` may change the record: it is a registered
    /// admin and the record is still mutable.
    pub fn can_modify(&self, addr: &String) -> (r: bool)
        ensures
            r == self@.can_modify(addr@),
    {
        self.mutable && self.is_admin(addr)
    }
}

} // verus!
