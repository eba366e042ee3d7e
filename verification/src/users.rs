//! The user store: identity, credential hash and profile metadata, with
//! case-insensitive uniqueness of usernames and emails as its invariant.
//!
//! The store keeps rows in memory in insertion order; lookups scan in that
//! order, which mirrors a relational table whose unique constraints make the
//! first match the only one.

use vstd::prelude::*;

use crate::dberror::DbError;
use crate::text::eq_ci;
use crate::text::str_eq_ci;

verus! {

/// One user row. `password` holds the bcrypt hash, never a plaintext; it is
/// withheld (set to `None`) by every read that serves a client.
#[derive(Debug, Clone, PartialEq, Eq)]
#[verifier::ext_equal]
pub struct User {
    pub id: u64,
    pub username: String,
    pub email: String,
    pub created_at: u64,
    pub last_logged_in: Option<u64>,
    pub terms: bool,
    pub is_admin: bool,
    pub password: Option<String>,
}

impl User {
    pub fn new(
        id: u64,
        username: String,
        email: String,
        created_at: u64,
        last_logged_in: Option<u64>,
        terms: bool,
        is_admin: bool,
        password: Option<String>,
    ) -> (r: User)
        ensures
            r == (User { id, username, email, created_at, last_logged_in, terms, is_admin, password }),
    {
        User { id, username, email, created_at, last_logged_in, terms, is_admin, password }
    }
}

/// The record as handed to clients: every field as stored, with the
/// credential hash withheld.
pub open spec fn public_view(u: User) -> User {
    User { password: None, ..u }
}

/// The identifier names this user: it equals the username or the email,
/// ASCII-case-insensitively.
pub open spec fn matches_identifier(u: User, ident: Seq<char>) -> bool {
    eq_ci(u.username@, ident) || eq_ci(u.email@, ident)
}

/// The first user in `s` that the identifier names, if any.
pub open spec fn first_identifier_match(s: Seq<User>, ident: Seq<char>) -> Option<User>
    decreases s.len(),
{
    if s.len() == 0 {
        None
    } else if matches_identifier(s[0], ident) {
        Some(s[0])
    } else {
        first_identifier_match(s.skip(1), ident)
    }
}

/// A found user is one of the stored rows.
pub proof fn lemma_first_match_is_member(s: Seq<User>, ident: Seq<char>)
    ensures
        first_identifier_match(s, ident) matches Some(u) ==> exists|i: int|
            0 <= i < s.len() && s[i] == u,
    decreases s.len(),
{
    if s.len() > 0 && !matches_identifier(s[0], ident) {
        lemma_first_match_is_member(s.skip(1), ident);
        if first_identifier_match(s, ident) is Some {
            let u = first_identifier_match(s, ident)->Some_0;
            let i = choose|i: int| 0 <= i < s.skip(1).len() && s.skip(1)[i] == u;
            assert(s[i + 1] == u);
        }
    }
}

/// No stored row is named by `ident` when neither a username nor an email
/// equals it case-insensitively.
pub proof fn lemma_no_match_when_absent(s: Seq<User>, ident: Seq<char>)
    requires
        forall|i: int| 0 <= i < s.len() ==> !matches_identifier(#[trigger] s[i], ident),
    ensures
        first_identifier_match(s, ident) is None,
    decreases s.len(),
{
    if s.len() > 0 {
        assert(s.skip(1).len() == s.len() - 1);
        assert forall|i: int| 0 <= i < s.skip(1).len() implies !matches_identifier(
            #[trigger] s.skip(1)[i],
            ident,
        ) by {
            assert(s.skip(1)[i] == s[i + 1]);
        }
        lemma_no_match_when_absent(s.skip(1), ident);
    }
}

/// A registration followed by a login with the registered username: once
/// the new row `u` is appended to a well-formed store that does not carry
/// the username, the login lookup under that username finds exactly `u`.
/// Well-formedness gives every stored email an '@'; a username the
/// validator passed has none, so it can name no older row's email either.
pub proof fn lemma_register_then_login(pre: UserStore, post: UserStore, u: User, ident: Seq<char>)
    requires
        pre.wf(),
        !pre.has_username(ident),
        post.users_seq() == pre.users_seq().push(u),
        eq_ci(u.username@, ident),
        !ident.contains('@'),
    ensures
        first_identifier_match(post.users_seq(), ident) == Some(u),
{
    let s = pre.users_seq();
    assert forall|i: int| 0 <= i < s.len() implies !matches_identifier(
        #[trigger] s[i],
        ident,
    ) by {
        assert(!eq_ci(s[i].username@, ident));
        if eq_ci(s[i].email@, ident) {
            assert(s[i].email@.contains('@'));
            crate::text::lemma_eq_ci_at_sign(s[i].email@, ident);
        }
    }
    lemma_no_match_when_absent(s, ident);
    lemma_push_match(s, post.users_seq(), u, ident);
}

proof fn lemma_push_match(pre: Seq<User>, post: Seq<User>, u: User, ident: Seq<char>)
    requires
        post == pre.push(u),
        first_identifier_match(pre, ident) is None,
        matches_identifier(u, ident),
    ensures
        first_identifier_match(post, ident) == Some(u),
    decreases pre.len(),
{
    if pre.len() == 0 {
        assert(post[0] == u);
    } else {
        assert(post[0] == pre[0]);
        assert(!matches_identifier(pre[0], ident));
        assert(post.skip(1) =~= pre.skip(1).push(u));
        lemma_push_match(pre.skip(1), post.skip(1), u, ident);
    }
}

/// Registering a username that a stored row already carries is reported as
/// a conflict: the store recognizes the duplicate.
pub proof fn lemma_duplicate_username_is_conflict(store: UserStore, k: int, username: Seq<char>)
    requires
        0 <= k < store.users_seq().len(),
        eq_ci(store.users_seq()[k].username@, username),
    ensures
        store.has_username(username),
{
}

fn clone_opt_string(o: &Option<String>) -> (r: Option<String>)
    ensures
        r == *o,
{
    match o {
        Some(s) => Some(s.clone()),
        None => None,
    }
}

fn clone_user(u: &User) -> (r: User)
    ensures
        r == *u,
{
    let r = User {
        id: u.id,
        username: u.username.clone(),
        email: u.email.clone(),
        created_at: u.created_at,
        last_logged_in: u.last_logged_in,
        terms: u.terms,
        is_admin: u.is_admin,
        password: clone_opt_string(&u.password),
    };
    proof {
        assert(r =~= *u);
    }
    r
}

/// In-memory persistence for user rows.
pub struct UserStore {
    users: Vec<User>,
    next_id: u64,
}

impl UserStore {
    /// The stored rows, in insertion order.
    pub closed spec fn users_seq(self) -> Seq<User> {
        self.users@
    }

    /// The identifier the next registration will receive.
    pub closed spec fn spec_next_id(self) -> u64 {
        self.next_id
    }

    /// Well-formedness: usernames and emails are pairwise distinct
    /// case-insensitively, row identifiers are pairwise distinct and below
    /// the next fresh one, and every row holds a credential hash and an
    /// email with an '@' in it.
    pub open spec fn wf(self) -> bool {
        &&& forall|i: int, j: int|
            #![trigger self.users_seq()[i], self.users_seq()[j]]
            0 <= i < j < self.users_seq().len() ==> {
                &&& !eq_ci(self.users_seq()[i].username@, self.users_seq()[j].username@)
                &&& !eq_ci(self.users_seq()[i].email@, self.users_seq()[j].email@)
                &&& self.users_seq()[i].id != self.users_seq()[j].id
            }
        &&& forall|i: int|
            0 <= i < self.users_seq().len() ==> (#[trigger] self.users_seq()[i]).id
                < self.spec_next_id() && self.users_seq()[i].password is Some
                && self.users_seq()[i].email@.contains('@')
    }

    /// A stored username equals `username` case-insensitively.
    pub open spec fn has_username(self, username: Seq<char>) -> bool {
        exists|i: int|
            0 <= i < self.users_seq().len() && eq_ci(
                #[trigger] self.users_seq()[i].username@,
                username,
            )
    }

    /// A stored email equals `email` case-insensitively.
    pub open spec fn has_email(self, email: Seq<char>) -> bool {
        exists|i: int|
            0 <= i < self.users_seq().len() && eq_ci(#[trigger] self.users_seq()[i].email@, email)
    }

    /// A stored row carries this identifier.
    pub open spec fn has_user_id(self, user_id: u64) -> bool {
        exists|i: int|
            0 <= i < self.users_seq().len() && (#[trigger] self.users_seq()[i]).id == user_id
    }

    /// An empty store.
    pub fn new() -> (r: UserStore)
        ensures
            r.wf(),
            r.users_seq() == Seq::<User>::empty(),
            r.spec_next_id() == 1,
    {
        UserStore { users: Vec::new(), next_id: 1 }
    }

    /// Whether a user with this username is registered, case-insensitively.
    pub fn user_exists_by_username(&self, username: &str) -> (r: bool)
        ensures
            r == self.has_username(username@),
    {
        let n = self.users.len();
        let mut i: usize = 0;
        while i < n
            invariant
                n == self.users_seq().len(),
                i <= n,
                forall|j: int| 0 <= j < i ==> !eq_ci(self.users_seq()[j].username@, username@),
            decreases n - i,
        {
            if str_eq_ci(self.users[i].username.as_str(), username) {
                return true;
            }
            i = i + 1;
        }
        false
    }

    /// Whether a user with this email is registered, case-insensitively.
    pub fn user_exists_by_email(&self, email: &str) -> (r: bool)
        ensures
            r == self.has_email(email@),
    {
        let n = self.users.len();
        let mut i: usize = 0;
        while i < n
            invariant
                n == self.users_seq().len(),
                i <= n,
                forall|j: int| 0 <= j < i ==> !eq_ci(self.users_seq()[j].email@, email@),
            decreases n - i,
        {
            if str_eq_ci(self.users[i].email.as_str(), email) {
                return true;
            }
            i = i + 1;
        }
        false
    }

    /// Looks a user up by row identifier; the credential hash is withheld
    /// from the returned record.
    pub fn get_user_id(&self, user_id: u64) -> (r: Result<User, DbError>)
        ensures
            (r matches Ok(u)) <==> self.has_user_id(user_id),
            r matches Ok(u) ==> exists|i: int|
                0 <= i < self.users_seq().len() && (#[trigger] self.users_seq()[i]).id == user_id
                    && u == public_view(self.users_seq()[i]),
            r matches Err(e) ==> e == DbError::NotFound,
    {
        let n = self.users.len();
        let mut i: usize = 0;
        while i < n
            invariant
                n == self.users_seq().len(),
                i <= n,
                forall|j: int| 0 <= j < i ==> (#[trigger] self.users_seq()[j]).id != user_id,
            decreases n - i,
        {
            if self.users[i].id == user_id {
                let u = &self.users[i];
                let r = User {
                    id: u.id,
                    username: u.username.clone(),
                    email: u.email.clone(),
                    created_at: u.created_at,
                    last_logged_in: u.last_logged_in,
                    terms: u.terms,
                    is_admin: u.is_admin,
                    password: None,
                };
                proof {
                    assert(r =~= public_view(self.users_seq()[i as int]));
                }
                return Ok(r);
            }
            i = i + 1;
        }
        Err(DbError::NotFound)
    }

    /// Looks a user up by username or email for authentication; the record
    /// is returned with its credential hash.
    pub fn get_user_username_authentication(&self, username: &str) -> (r: Result<User, DbError>)
        ensures
            r matches Ok(u) ==> first_identifier_match(self.users_seq(), username@) == Some(u),
            r matches Err(e) ==> e == DbError::NotFound && first_identifier_match(
                self.users_seq(),
                username@,
            ) is None,
    {
        let n = self.users.len();
        let mut i: usize = 0;
        proof {
            assert(self.users_seq().skip(0) =~= self.users_seq());
        }
        while i < n
            invariant
                n == self.users_seq().len(),
                i <= n,
                first_identifier_match(self.users_seq(), username@) == first_identifier_match(
                    self.users_seq().skip(i as int),
                    username@,
                ),
            decreases n - i,
        {
            let u = &self.users[i];
            let matched = str_eq_ci(u.username.as_str(), username) || str_eq_ci(
                u.email.as_str(),
                username,
            );
            proof {
                assert(self.users_seq().skip(i as int)[0] == self.users_seq()[i as int]);
            }
            if matched {
                return Ok(clone_user(u));
            }
            proof {
                assert(self.users_seq().skip(i as int).skip(1) =~= self.users_seq().skip(i + 1));
            }
            i = i + 1;
        }
        proof {
            assert(self.users_seq().skip(n as int) =~= Seq::<User>::empty());
        }
        Err(DbError::NotFound)
    }

    /// Inserts a new user unless the username or the email is already taken,
    /// case-insensitively; a duplicate is reported as a conflict and leaves
    /// the store unchanged. The email must carry an '@' (every address the
    /// validator passes does), which keeps usernames and emails disjoint
    /// name spaces for the login lookup.
    pub fn register_user(
        &mut self,
        username: String,
        email: String,
        password: String,
        terms: bool,
        created_at: u64,
    ) -> (r: Result<u64, DbError>)
        requires
            old(self).wf(),
            old(self).spec_next_id() < u64::MAX,
            email@.contains('@'),
        ensures
            final(self).wf(),
            (r matches Ok(id)) <==> !(old(self).has_username(username@) || old(self).has_email(
                email@,
            )),
            r matches Ok(id) ==> id == old(self).spec_next_id() && final(self).spec_next_id()
                == old(self).spec_next_id() + 1 && final(self).users_seq() == old(
                self,
            ).users_seq().push(
                User {
                    id: old(self).spec_next_id(),
                    username,
                    email,
                    created_at,
                    last_logged_in: None,
                    terms,
                    is_admin: false,
                    password: Some(password),
                },
            ),
            r matches Err(e) ==> e == DbError::Conflict && *final(self) == *old(self),
    {
        if self.user_exists_by_username(username.as_str()) || self.user_exists_by_email(
            email.as_str(),
        ) {
            return Err(DbError::Conflict);
        }
        let id = self.next_id;
        self.next_id = id + 1;
        let u = User {
            id,
            username,
            email,
            created_at,
            last_logged_in: None,
            terms,
            is_admin: false,
            password: Some(password),
        };
        self.users.push(u);
        proof {
            let s0 = old(self).users_seq();
            let s1 = self.users_seq();
            assert forall|i: int, j: int|
                #![trigger s1[i], s1[j]]
                0 <= i < j < s1.len() implies {
                &&& !eq_ci(s1[i].username@, s1[j].username@)
                &&& !eq_ci(s1[i].email@, s1[j].email@)
                &&& s1[i].id != s1[j].id
            } by {
                if j < s1.len() - 1 {
                    assert(s1[i] == s0[i] && s1[j] == s0[j]);
                } else {
                    assert(s1[i] == s0[i]);
                    assert(!eq_ci(s0[i].username@, username@));
                    assert(!eq_ci(s0[i].email@, email@));
                }
            }
        }
        Ok(id)
    }
}

} // verus!
