//! Personal data and profile pictures: the caller's own record, the public
//! person search, and the stored photo reference.

use vstd::prelude::*;

use crate::filters::UserFilter;
use crate::listing::lemma_push_concat;
use crate::school::{pd_idx, user_idx, School};
use crate::scope::public_pd_visible;
use crate::structs::{MySelf, PersonalData, PublicPersonalData};
use crate::ApiError;

verus! {

/// The personal data of the account, as the owner reads it.
pub open spec fn personal_data_of(db: School, user_id: u64) -> Option<PersonalData> {
    match pd_idx(db, user_id) {
        Some(i) => Some(
            PersonalData {
                full_name: db.personal_data@[i].full_name,
                phone_number: db.personal_data@[i].phone_number,
                address: db.personal_data@[i].address,
                birth_date: db.personal_data@[i].birth_date,
            },
        ),
        None => None,
    }
}

/// The person-search rows under filter `f`, from table position `i` on.
pub open spec fn public_pd_listed_from(db: School, f: UserFilter, i: int) -> Seq<
    PublicPersonalData,
>
    decreases db.personal_data@.len() - i,
{
    if !(0 <= i < db.personal_data@.len()) {
        Seq::empty()
    } else {
        let rest = public_pd_listed_from(db, f, i + 1);
        let pd = db.personal_data@[i];
        if public_pd_visible(db, f, pd) {
            let ui = match user_idx(db, pd.user_id) {
                Some(k) => k,
                None => 0,
            };
            seq![
                PublicPersonalData { full_name: pd.full_name, photo: db.users@[ui].photo },
            ] + rest
        } else {
            rest
        }
    }
}

/// The person-search rows under filter `f`.
pub open spec fn public_pd_listed(db: School, f: UserFilter) -> Seq<PublicPersonalData> {
    public_pd_listed_from(db, f, 0)
}

fn public_pd_visible_exec(db: &School, f: &UserFilter, i: usize) -> (b: bool)
    requires
        i < db.personal_data@.len(),
    ensures
        b == public_pd_visible(*db, *f, db.personal_data@[i as int]),
{
    let pd = &db.personal_data[i];
    let name_ok = match &f.name {
        Some(n) => crate::text::ci_contains_exec(pd.full_name.as_str(), n.as_str()),
        None => true,
    };
    let user_ok = match f.user_id {
        Some(u) => pd.user_id == u,
        None => true,
    };
    if !(name_ok && user_ok) {
        return false;
    }
    match db.user_pos(pd.user_id) {
        Some(k) => match f.course {
            Some(c) => match db.users[k].course_id {
                Some(uc) => uc == c,
                None => false,
            },
            None => true,
        },
        None => false,
    }
}

impl MySelf {
    /// Reads this caller's own personal data; absent data is reported as
    /// not found.
    pub fn get_personal_data(&self, db: &School) -> (r: Result<PersonalData, ApiError>)
        ensures
            match r {
                Ok(pd) => personal_data_of(*db, self.id) == Some(pd),
                Err(e) => e == ApiError::NotFound && personal_data_of(*db, self.id) is None,
            },
    {
        match db.pd_pos(self.id) {
            Some(k) => {
                let row = &db.personal_data[k];
                Ok(
                    PersonalData {
                        full_name: row.full_name.clone(),
                        phone_number: row.phone_number.clone(),
                        address: row.address.clone(),
                        birth_date: row.birth_date,
                    },
                )
            },
            None => Err(ApiError::NotFound),
        }
    }

    /// Lists the public person-search rows matching the filter: names with
    /// their photo, no role restriction.
    pub fn get_public_personal_data(&self, db: &School, filter: &UserFilter) -> (res: Vec<
        PublicPersonalData,
    >)
        ensures
            res@ == public_pd_listed(*db, *filter),
    {
        let mut res: Vec<PublicPersonalData> = Vec::new();
        let mut i: usize = 0;
        while i < db.personal_data.len()
            invariant
                i <= db.personal_data@.len(),
                public_pd_listed(*db, *filter) == res@ + public_pd_listed_from(
                    *db,
                    *filter,
                    i as int,
                ),
            decreases db.personal_data@.len() - i,
        {
            if public_pd_visible_exec(db, filter, i) {
                let pd = &db.personal_data[i];
                let ui = db.user_pos(pd.user_id).unwrap();
                let out = PublicPersonalData {
                    full_name: pd.full_name.clone(),
                    photo: crate::structs::clone_opt_string(&db.users[ui].photo),
                };
                proof {
                    lemma_push_concat(res@, out, public_pd_listed_from(*db, *filter, i + 1));
                }
                res.push(out);
            }
            i += 1;
        }
        res
    }

    /// The stored photo reference of this caller's account, if the account
    /// exists and has one.
    pub fn get_profile_picture(&self, db: &School) -> (r: Option<String>)
        ensures
            r == match user_idx(*db, self.id) {
                Some(k) => db.users@[k].photo,
                None => None::<String>,
            },
    {
        match db.user_pos(self.id) {
            Some(k) => crate::structs::clone_opt_string(&db.users[k].photo),
            None => None,
        }
    }
}

} // verus!
