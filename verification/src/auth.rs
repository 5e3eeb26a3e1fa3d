//! Identity plumbing the token layer builds on: session claims with their
//! expiry, granted roles, and the account lookup the login flow uses.

use vstd::prelude::*;

use crate::host::now_timestamp;
use crate::school::School;
use crate::structs::{MySelf, Role};
use crate::text::str_eq;

verus! {

/// The claims a session token carries: the identity and a unix expiry
/// timestamp, one hour after issue.
pub struct Claims {
    pub exp: u64,
    pub user: MySelf,
}

impl Claims {
    /// Builds the claims of a fresh session for the given identity.
    pub fn new(user: MySelf) -> (c: Claims)
        ensures
            c.user == user,
    {
        let now = now_timestamp();
        let exp = if now > u64::MAX - 3600 {
            u64::MAX
        } else {
            now + 3600
        };
        Claims { exp, user }
    }
}

/// The role was granted to the account.
pub open spec fn role_granted(db: School, user_id: u64, role: Role) -> bool {
    exists|i: int|
        0 <= i < db.roles@.len() && #[trigger] db.roles@[i].user_id == user_id
            && db.roles@[i].role == role
}

/// The granted roles of one account, in storage order, from position `i`
/// on.
pub open spec fn roles_listed_from(db: School, user_id: u64, i: int) -> Seq<Role>
    decreases db.roles@.len() - i,
{
    if !(0 <= i < db.roles@.len()) {
        Seq::empty()
    } else {
        let rest = roles_listed_from(db, user_id, i + 1);
        if db.roles@[i].user_id == user_id {
            seq![db.roles@[i].role] + rest
        } else {
            rest
        }
    }
}

/// The granted roles of one account, in storage order.
pub open spec fn roles_listed(db: School, user_id: u64) -> Seq<Role> {
    roles_listed_from(db, user_id, 0)
}

/// Index of the first user row with the given email, searching from `i`.
pub open spec fn user_by_email_from(db: School, email: Seq<char>, i: int) -> Option<int>
    decreases db.users@.len() - i,
{
    if !(0 <= i < db.users@.len()) {
        None
    } else if db.users@[i].email@ == email {
        Some(i)
    } else {
        user_by_email_from(db, email, i + 1)
    }
}

/// Index of the first user row with the given email.
pub open spec fn user_by_email(db: School, email: Seq<char>) -> Option<int> {
    user_by_email_from(db, email, 0)
}

impl School {
    /// Decides [`role_granted`].
    pub fn has_role(&self, user_id: u64, role: Role) -> (b: bool)
        ensures
            b == role_granted(*self, user_id, role),
    {
        let mut i: usize = 0;
        while i < self.roles.len()
            invariant
                i <= self.roles@.len(),
                forall|k: int|
                    0 <= k < i ==> !(#[trigger] self.roles@[k].user_id == user_id
                        && self.roles@[k].role == role),
            decreases self.roles@.len() - i,
        {
            if self.roles[i].user_id == user_id && self.roles[i].role == role {
                return true;
            }
            i += 1;
        }
        false
    }

    /// Lists the granted roles of an account, as the role-selection screen
    /// shows them.
    pub fn roles_of_user(&self, user_id: u64) -> (res: Vec<Role>)
        ensures
            res@ == roles_listed(*self, user_id),
    {
        let mut res: Vec<Role> = Vec::new();
        let mut i: usize = 0;
        while i < self.roles.len()
            invariant
                i <= self.roles@.len(),
                roles_listed(*self, user_id) == res@ + roles_listed_from(
                    *self,
                    user_id,
                    i as int,
                ),
            decreases self.roles@.len() - i,
        {
            if self.roles[i].user_id == user_id {
                proof {
                    crate::listing::lemma_push_concat(
                        res@,
                        self.roles@[i as int].role,
                        roles_listed_from(*self, user_id, i + 1),
                    );
                }
                res.push(self.roles[i].role);
            }
            i += 1;
        }
        res
    }

    /// Position of the first user row with the given email, as the login
    /// flow resolves credentials.
    pub fn user_pos_by_email(&self, email: &String) -> (r: Option<usize>)
        ensures
            match r {
                Some(k) => user_by_email(*self, email@) == Some(k as int) && k
                    < self.users@.len() && self.users@[k as int].email@ == email@,
                None => user_by_email(*self, email@) is None,
            },
    {
        let mut i: usize = 0;
        while i < self.users.len()
            invariant
                i <= self.users@.len(),
                user_by_email(*self, email@) == user_by_email_from(*self, email@, i as int),
            decreases self.users@.len() - i,
        {
            if str_eq(&self.users[i].email, email) {
                return Some(i);
            }
            i += 1;
        }
        None
    }
}


/// The login stamp of the account was replaced and nothing else changed;
/// an absent account means no change at all.
pub open spec fn last_login_set_effect(a: School, b: School, user_id: u64, stamp: String) -> bool {
    &&& match crate::school::user_idx(a, user_id) {
        Some(k) => b.users@ == a.users@.update(
            k,
            crate::structs::UserRow {
                id: a.users@[k].id,
                email: a.users@[k].email,
                password: a.users@[k].password,
                course_id: a.users@[k].course_id,
                photo: a.users@[k].photo,
                last_login: stamp,
            },
        ),
        None => b.users@ == a.users@,
    }
    &&& b.next_id == a.next_id
    &&& crate::school::unchanged_except_users(a, b)
}

impl School {
    /// Records the moment of a successful login on the account row.
    pub fn set_last_login(&mut self, user_id: u64, stamp: String)
        requires
            old(self).wf(),
        ensures
            final(self).wf(),
            last_login_set_effect(*old(self), *final(self), user_id, stamp),
    {
        match self.user_pos(user_id) {
            Some(k) => {
                let u = &self.users[k];
                let row = crate::structs::UserRow {
                    id: u.id,
                    email: u.email.clone(),
                    password: u.password.clone(),
                    course_id: crate::structs::clone_opt_u64(&u.course_id),
                    photo: crate::structs::clone_opt_string(&u.photo),
                    last_login: stamp,
                };
                self.users.set(k, row);
                proof {
                    assert forall|i: int, j: int|
                        0 <= i < j < final(self).users@.len() implies (
                    #[trigger] final(self).users@[i].id) != (
                    #[trigger] final(self).users@[j].id) by {
                        assert(final(self).users@[i].id == old(self).users@[i].id);
                        assert(final(self).users@[j].id == old(self).users@[j].id);
                    }
                    assert forall|i: int|
                        0 <= i < final(self).users@.len() implies (
                    #[trigger] final(self).users@[i].id) < final(self).next_id by {
                        assert(final(self).users@[i].id == old(self).users@[i].id);
                    }
                }
            },
            None => {},
        }
    }
}

} // verus!
