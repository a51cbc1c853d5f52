use vstd::prelude::*;
use crate::account::AccountId;
use crate::state::{ErrorCode, Global, MAX_ADMINS};

verus! {

impl Clone for Global {
    fn clone(&self) -> (copy: Global)
        ensures
            copy.authority == self.authority,
            copy.authorized_admins@ == self.authorized_admins@,
    {
        Global { authority: self.authority, authorized_admins: self.authorized_admins.clone() }
    }
}

impl Global {
    /// `who` is one of the admins.
    pub open spec fn is_admin(self, who: AccountId) -> bool {
        self.authorized_admins@.contains(who)
    }

    /// The admins are a set of at most `MAX_ADMINS` accounts: none is listed twice.
    pub open spec fn well_formed(self) -> bool {
        &&& self.authorized_admins@.len() <= MAX_ADMINS
        &&& self.authorized_admins@.no_duplicates()
    }

    /// A configuration under `authority`, without admins.
    pub fn new(authority: AccountId) -> (global: Global)
        ensures
            global.well_formed(),
            global.authority == authority,
            global.authorized_admins@ == Seq::<AccountId>::empty(),
    {
        Global { authority, authorized_admins: Vec::new() }
    }

    /// The place of `who` among the admins, if it is one: the first, should there be several.
    fn admin_index(&self, who: &AccountId) -> (r: Option<usize>)
        ensures
            match r {
                Some(i) => self.authorized_admins@.index_of_first(*who) == Some(i as int),
                None => !self.is_admin(*who),
            },
    {
        let mut i: usize = 0;
        while i < self.authorized_admins.len()
            invariant
                i <= self.authorized_admins@.len(),
                forall|j: int| 0 <= j < i ==> self.authorized_admins@[j] != *who,
            decreases self.authorized_admins@.len() - i,
        {
            if self.authorized_admins[i] == *who {
                proof {
                    self.authorized_admins@.index_of_first_ensures(*who);
                }
                return Some(i);
            }
            i += 1;
        }
        None
    }

    /// Makes `admin` an admin, on behalf of `caller`.
    ///
    /// Only the authority may do so (`NotAuthorizedAdmin` otherwise). An account that is an
    /// admin already is refused with `AlreadyAuthorizedAdmin`, and a further admin beside
    /// `MAX_ADMINS` others with `ErrorCustom`. A refusal changes nothing.
    pub fn add_admin(&mut self, caller: &AccountId, admin: AccountId) -> (r: Result<(), ErrorCode>)
        ensures
            final(self).authority == old(self).authority,
            *caller != old(self).authority ==> r == Err::<(), ErrorCode>(ErrorCode::NotAuthorizedAdmin),
            *caller == old(self).authority && old(self).is_admin(admin) ==> r == Err::<(), ErrorCode>(
                ErrorCode::AlreadyAuthorizedAdmin,
            ),
            *caller == old(self).authority && !old(self).is_admin(admin)
                && old(self).authorized_admins@.len() >= MAX_ADMINS ==> r == Err::<(), ErrorCode>(
                ErrorCode::ErrorCustom,
            ),
            *caller == old(self).authority && !old(self).is_admin(admin)
                && old(self).authorized_admins@.len() < MAX_ADMINS ==> r is Ok,
            r is Ok ==> final(self).authorized_admins@ == old(self).authorized_admins@.push(admin),
            r is Err ==> final(self).authorized_admins@ == old(self).authorized_admins@,
            old(self).well_formed() ==> final(self).well_formed(),
    {
        if *caller != self.authority {
            return Err(ErrorCode::NotAuthorizedAdmin);
        }
        if self.admin_index(&admin).is_some() {
            proof {
                self.authorized_admins@.index_of_first_ensures(admin);
            }
            return Err(ErrorCode::AlreadyAuthorizedAdmin);
        }
        if self.authorized_admins.len() >= MAX_ADMINS {
            return Err(ErrorCode::ErrorCustom);
        }
        self.authorized_admins.push(admin);
        Ok(())
    }

    /// Takes `admin` from the admins, on behalf of `caller`.
    ///
    /// Only the authority may do so, and only an admin can be taken away (`NotAuthorizedAdmin`
    /// otherwise). A refusal changes nothing.
    pub fn remove_admin(&mut self, caller: &AccountId, admin: &AccountId) -> (r: Result<(), ErrorCode>)
        ensures
            final(self).authority == old(self).authority,
            r is Ok <==> *caller == old(self).authority && old(self).is_admin(*admin),
            r is Err ==> r->Err_0 == ErrorCode::NotAuthorizedAdmin,
            r is Ok ==> final(self).authorized_admins@ == old(self).authorized_admins@.remove_value(
                *admin,
            ),
            r is Err ==> final(self).authorized_admins@ == old(self).authorized_admins@,
            old(self).well_formed() ==> final(self).well_formed(),
            old(self).well_formed() && r is Ok ==> !final(self).is_admin(*admin),
    {
        if *caller != self.authority {
            return Err(ErrorCode::NotAuthorizedAdmin);
        }
        match self.admin_index(admin) {
            None => Err(ErrorCode::NotAuthorizedAdmin),
            Some(i) => {
                proof {
                    self.authorized_admins@.index_of_first_ensures(*admin);
                }
                let ghost before = self.authorized_admins@;
                self.authorized_admins.remove(i);
                proof {
                    let after = self.authorized_admins@;
                    assert(after == before.remove(i as int));
                    if before.no_duplicates() {
                        assert forall|a: int, b: int|
                            0 <= a < after.len() && 0 <= b < after.len() && a != b implies after[a]
                            != after[b] by {
                            let a0 = if a < i { a } else { a + 1 };
                            let b0 = if b < i { b } else { b + 1 };
                            assert(after[a] == before[a0]);
                            assert(after[b] == before[b0]);
                        }
                        assert forall|a: int| 0 <= a < after.len() implies after[a] != *admin by {
                            let a0 = if a < i { a } else { a + 1 };
                            assert(after[a] == before[a0]);
                        }
                    }
                }
                Ok(())
            },
        }
    }
}

/// Lets the caller pass if it is an admin of the configuration, and fails with
/// `NotAuthorizedAdmin` if it is not.
pub fn require_admin(caller: &AccountId, global: &Global) -> (r: Result<(), ErrorCode>)
    ensures
        r is Ok <==> global.is_admin(*caller),
        r is Err ==> r->Err_0 == ErrorCode::NotAuthorizedAdmin,
{
    let mut i: usize = 0;
    while i < global.authorized_admins.len()
        invariant
            i <= global.authorized_admins@.len(),
            forall|j: int| 0 <= j < i ==> global.authorized_admins@[j] != *caller,
        decreases global.authorized_admins@.len() - i,
    {
        if global.authorized_admins[i] == *caller {
            return Ok(());
        }
        i += 1;
    }
    Err(ErrorCode::NotAuthorizedAdmin)
}

} // verus!
