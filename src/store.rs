//! The accounts, unique by id and by email.

use vstd::prelude::*;

use crate::error::AuthError;
use crate::model::{Role, UpdateUser, User};

verus! {

/// Whether some account in `users` has email `e`.
pub open spec fn email_present(users: Seq<User>, e: Seq<char>) -> bool {
    exists|i: int| 0 <= i < users.len() && #[trigger] users[i].email@ == e
}

/// The position of the account with email `e`.
pub open spec fn find_email(users: Seq<User>, e: Seq<char>) -> Option<int> {
    if email_present(users, e) {
        Some(choose|i: int| 0 <= i < users.len() && #[trigger] users[i].email@ == e)
    } else {
        None
    }
}

/// Whether some account in `users` has id `id`.
pub open spec fn id_present(users: Seq<User>, id: i32) -> bool {
    exists|i: int| 0 <= i < users.len() && #[trigger] users[i].id == id
}

/// The position of the account with id `id`.
pub open spec fn find_id(users: Seq<User>, id: i32) -> Option<int> {
    if id_present(users, id) {
        Some(choose|i: int| 0 <= i < users.len() && #[trigger] users[i].id == id)
    } else {
        None
    }
}

/// No two accounts share an id or an email, and every id lies below `next_id`.
pub open spec fn users_wf(users: Seq<User>, next_id: i32) -> bool {
    &&& next_id >= 1
    &&& forall|i: int| 0 <= i < users.len() ==> 1 <= #[trigger] users[i].id < next_id
    &&& forall|i: int, j: int|
        0 <= i < users.len() && 0 <= j < users.len() && i != j ==> users[i].id != users[j].id
    &&& forall|i: int, j: int|
        0 <= i < users.len() && 0 <= j < users.len() && i != j ==> users[i].email@ != users[j].email@
}

pub proof fn lemma_find_email(users: Seq<User>, next_id: i32, i: int)
    requires
        users_wf(users, next_id),
        0 <= i < users.len(),
    ensures
        find_email(users, users[i].email@) == Some(i),
{
    assert(email_present(users, users[i].email@));
}

pub proof fn lemma_find_id(users: Seq<User>, next_id: i32, i: int)
    requires
        users_wf(users, next_id),
        0 <= i < users.len(),
    ensures
        find_id(users, users[i].id) == Some(i),
{
    assert(id_present(users, users[i].id));
}

/// A new account as sign-up creates it: standard role, unverified, no
/// profile fields.
pub open spec fn new_user(id: i32, uuid: String, full_name: String, email: String, password_hash: String) -> User {
    User {
        id,
        uuid,
        role: Role::User,
        full_name,
        email,
        password_hash,
        is_verified: false,
        profile_pic: None,
        github_link: None,
        linkdin_link: None,
    }
}

/// `u` with its verification flag set.
pub open spec fn verified(u: User) -> User {
    User { is_verified: true, ..u }
}

/// `u` with its password hash replaced.
pub open spec fn with_password_hash(u: User, password_hash: String) -> User {
    User { password_hash, ..u }
}

/// `u` with its role replaced.
pub open spec fn with_role(u: User, role: Role) -> User {
    User { role, ..u }
}

/// `o` where given, else `old`.
pub open spec fn or_keep<T>(o: Option<T>, old: T) -> T {
    match o {
        Some(v) => v,
        None => old,
    }
}

/// `u` with the fields of `p` that are given.
pub open spec fn updated(u: User, p: UpdateUser) -> User {
    User {
        full_name: or_keep(p.fullname, u.full_name),
        email: or_keep(p.email_id, u.email),
        profile_pic: if p.profile_pic is Some { p.profile_pic } else { u.profile_pic },
        github_link: if p.github_link is Some { p.github_link } else { u.github_link },
        linkdin_link: if p.linkdin_link is Some { p.linkdin_link } else { u.linkdin_link },
        is_verified: or_keep(p.is_verdified, u.is_verified),
        ..u
    }
}

/// `p` would give the account at position `i` an email that another account has.
pub open spec fn email_clash(users: Seq<User>, i: int, p: UpdateUser) -> bool {
    p.email_id matches Some(e) && find_email(users, e@) matches Some(k) && k != i
}

/// The accounts, keyed by id and by email.
pub struct UserStore {
    pub users: Vec<User>,
    /// The id the next account receives.
    pub next_id: i32,
}

impl UserStore {
    pub open spec fn wf(&self) -> bool {
        users_wf(self.users@, self.next_id)
    }

    /// An empty store.
    pub fn new() -> (r: UserStore)
        ensures
            r.wf(),
            r.users@.len() == 0,
            r.next_id == 1,
    {
        UserStore { users: Vec::new(), next_id: 1 }
    }

    /// Position of the account with this email.
    pub fn find_by_email(&self, email: &String) -> (r: Option<usize>)
        requires
            self.wf(),
        ensures
            r matches Some(i) ==> find_email(self.users@, email@) == Some(i as int),
            r is None ==> find_email(self.users@, email@) is None,
    {
        let mut i: usize = 0;
        while i < self.users.len()
            invariant
                self.wf(),
                i <= self.users@.len(),
                forall|k: int| 0 <= k < i ==> #[trigger] self.users@[k].email@ != email@,
            decreases self.users@.len() - i,
        {
            if self.users[i].email == *email {
                proof {
                    lemma_find_email(self.users@, self.next_id, i as int);
                }
                return Some(i);
            }
            i += 1;
        }
        None
    }

    /// Position of the account with this id.
    pub fn find_by_id(&self, id: i32) -> (r: Option<usize>)
        requires
            self.wf(),
        ensures
            r matches Some(i) ==> find_id(self.users@, id) == Some(i as int),
            r is None ==> find_id(self.users@, id) is None,
    {
        let mut i: usize = 0;
        while i < self.users.len()
            invariant
                self.wf(),
                i <= self.users@.len(),
                forall|k: int| 0 <= k < i ==> #[trigger] self.users@[k].id != id,
            decreases self.users@.len() - i,
        {
            if self.users[i].id == id {
                proof {
                    lemma_find_id(self.users@, self.next_id, i as int);
                }
                return Some(i);
            }
            i += 1;
        }
        None
    }

    /// Adds an account with the next id, unless the email is taken (the
    /// store's unique constraint) or the ids are exhausted.
    pub fn create(&mut self, uuid: String, full_name: String, email: String, password_hash: String) -> (r: Result<i32, AuthError>)
        requires
            old(self).wf(),
        ensures
            final(self).wf(),
            email_present(old(self).users@, email@) ==> r == Err::<i32, AuthError>(AuthError::DuplicateEmail)
                && *final(self) == *old(self),
            !email_present(old(self).users@, email@) && old(self).next_id == i32::MAX ==> r == Err::<i32, AuthError>(
                AuthError::Internal,
            ) && *final(self) == *old(self),
            !email_present(old(self).users@, email@) && old(self).next_id < i32::MAX ==> r == Ok::<i32, AuthError>(
                old(self).next_id,
            ) && final(self).users@ == old(self).users@.push(
                new_user(old(self).next_id, uuid, full_name, email, password_hash),
            ) && final(self).next_id == old(self).next_id + 1,
    {
        if self.find_by_email(&email).is_some() {
            return Err(AuthError::DuplicateEmail);
        }
        if self.next_id == i32::MAX {
            return Err(AuthError::Internal);
        }
        let id = self.next_id;
        let user = User {
            id,
            uuid,
            role: Role::User,
            full_name,
            email,
            password_hash,
            is_verified: false,
            profile_pic: None,
            github_link: None,
            linkdin_link: None,
        };
        self.users.push(user);
        self.next_id = id + 1;
        Ok(id)
    }

    /// Marks the account at position `i` as verified.
    pub fn mark_verified(&mut self, i: usize)
        requires
            old(self).wf(),
            i < old(self).users@.len(),
        ensures
            final(self).wf(),
            final(self).next_id == old(self).next_id,
            final(self).users@ == old(self).users@.update(i as int, verified(old(self).users@[i as int])),
    {
        self.users[i].is_verified = true;
    }

    /// Replaces the password hash of the account at position `i`.
    pub fn set_password_hash(&mut self, i: usize, password_hash: String)
        requires
            old(self).wf(),
            i < old(self).users@.len(),
        ensures
            final(self).wf(),
            final(self).next_id == old(self).next_id,
            final(self).users@ == old(self).users@.update(
                i as int,
                with_password_hash(old(self).users@[i as int], password_hash),
            ),
    {
        self.users[i].password_hash = password_hash;
    }

    /// Replaces the role of the account at position `i`.
    pub fn set_role(&mut self, i: usize, role: Role)
        requires
            old(self).wf(),
            i < old(self).users@.len(),
        ensures
            final(self).wf(),
            final(self).next_id == old(self).next_id,
            final(self).users@ == old(self).users@.update(i as int, with_role(old(self).users@[i as int], role)),
    {
        self.users[i].role = role;
    }

    /// Applies a partial update to the account at position `i`, unless it
    /// would give it another account's email.
    pub fn apply_update(&mut self, i: usize, p: &UpdateUser) -> (r: Result<(), AuthError>)
        requires
            old(self).wf(),
            i < old(self).users@.len(),
        ensures
            final(self).wf(),
            email_clash(old(self).users@, i as int, *p) ==> r == Err::<(), AuthError>(AuthError::DuplicateEmail)
                && *final(self) == *old(self),
            !email_clash(old(self).users@, i as int, *p) ==> r is Ok && final(self).next_id == old(self).next_id
                && final(self).users@ == old(self).users@.update(i as int, updated(old(self).users@[i as int], *p)),
    {
        if let Some(e) = &p.email_id {
            match self.find_by_email(e) {
                Some(k) => {
                    if k != i {
                        return Err(AuthError::DuplicateEmail);
                    }
                },
                None => {},
            }
        }
        let mut u = self.users[i].duplicate();
        if let Some(n) = &p.fullname {
            u.full_name = n.clone();
        }
        if let Some(e) = &p.email_id {
            u.email = e.clone();
        }
        if let Some(x) = &p.profile_pic {
            u.profile_pic = Some(x.clone());
        }
        if let Some(x) = &p.github_link {
            u.github_link = Some(x.clone());
        }
        if let Some(x) = &p.linkdin_link {
            u.linkdin_link = Some(x.clone());
        }
        if let Some(b) = p.is_verdified {
            u.is_verified = b;
        }
        proof {
            let users = old(self).users@;
            if p.email_id is Some {
                let e = p.email_id->Some_0;
                assert forall|k: int| 0 <= k < users.len() && k != i implies users[k].email@ != e@ by {
                    if users[k].email@ == e@ {
                        lemma_find_email(users, old(self).next_id, k);
                    }
                }
            }
        }
        self.users[i] = u;
        Ok(())
    }

    /// Deletes the account at position `i`.
    pub fn remove(&mut self, i: usize)
        requires
            old(self).wf(),
            i < old(self).users@.len(),
        ensures
            final(self).wf(),
            final(self).next_id == old(self).next_id,
            final(self).users@ == old(self).users@.remove(i as int),
    {
        self.users.remove(i);
    }
}

} // verus!
