//! The catalog store: app records owned by users, read by record id or by
//! owner.

use vstd::prelude::*;

use crate::dberror::DbError;

verus! {

/// One catalog entry. `image_name` is the stored name of the uploaded
/// image; `user_id` references the owning user.
#[derive(Debug, Clone, PartialEq, Eq)]
#[verifier::ext_equal]
pub struct Apps {
    pub id: u64,
    pub name: String,
    pub description: String,
    pub created_at: u64,
    pub updated_at: u64,
    pub is_active: bool,
    pub image_name: String,
    pub github_url: Option<String>,
    pub user_id: u64,
}

impl Apps {
    pub fn new(
        id: u64,
        name: String,
        description: String,
        created_at: u64,
        updated_at: u64,
        is_active: bool,
        image_name: String,
        github_url: Option<String>,
        user_id: u64,
    ) -> (r: Apps)
        ensures
            r == (Apps {
                id,
                name,
                description,
                created_at,
                updated_at,
                is_active,
                image_name,
                github_url,
                user_id,
            }),
    {
        Apps { id, name, description, created_at, updated_at, is_active, image_name, github_url, user_id }
    }
}

/// The records of `s` owned by `user_id`, in stored order.
pub open spec fn apps_of_user(s: Seq<Apps>, user_id: u64) -> Seq<Apps>
    decreases s.len(),
{
    if s.len() == 0 {
        Seq::empty()
    } else {
        let rest = apps_of_user(s.drop_last(), user_id);
        if s.last().user_id == user_id {
            rest.push(s.last())
        } else {
            rest
        }
    }
}

fn clone_opt_string(o: &Option<String>) -> (r: Option<String>)
    ensures
        r == *o,
{
    match o {
        Some(s) => Some(s.clone()),
        None => None,
    }
}

fn clone_app(a: &Apps) -> (r: Apps)
    ensures
        r == *a,
{
    let r = Apps {
        id: a.id,
        name: a.name.clone(),
        description: a.description.clone(),
        created_at: a.created_at,
        updated_at: a.updated_at,
        is_active: a.is_active,
        image_name: a.image_name.clone(),
        github_url: clone_opt_string(&a.github_url),
        user_id: a.user_id,
    };
    proof {
        assert(r =~= *a);
    }
    r
}

/// In-memory persistence for catalog entries.
pub struct AppStore {
    apps: Vec<Apps>,
    next_id: u64,
}

impl AppStore {
    /// The stored records, in insertion order.
    pub closed spec fn apps_seq(self) -> Seq<Apps> {
        self.apps@
    }

    /// The identifier the next insertion will receive.
    pub closed spec fn spec_next_id(self) -> u64 {
        self.next_id
    }

    /// Well-formedness: record identifiers are pairwise distinct and below
    /// the next fresh one.
    pub open spec fn wf(self) -> bool {
        &&& forall|i: int, j: int|
            #![trigger self.apps_seq()[i], self.apps_seq()[j]]
            0 <= i < j < self.apps_seq().len() ==> self.apps_seq()[i].id != self.apps_seq()[j].id
        &&& forall|i: int|
            0 <= i < self.apps_seq().len() ==> (#[trigger] self.apps_seq()[i]).id
                < self.spec_next_id()
    }

    /// A stored record carries this identifier.
    pub open spec fn has_app_id(self, id: u64) -> bool {
        exists|i: int| 0 <= i < self.apps_seq().len() && (#[trigger] self.apps_seq()[i]).id == id
    }

    /// An empty store.
    pub fn new() -> (r: AppStore)
        ensures
            r.wf(),
            r.apps_seq() == Seq::<Apps>::empty(),
            r.spec_next_id() == 1,
    {
        AppStore { apps: Vec::new(), next_id: 1 }
    }

    /// Looks a record up by identifier.
    pub fn get_app_by_id(&self, id: u64) -> (r: Result<Apps, DbError>)
        ensures
            (r matches Ok(a)) <==> self.has_app_id(id),
            r matches Ok(a) ==> exists|i: int|
                0 <= i < self.apps_seq().len() && (#[trigger] self.apps_seq()[i]).id == id && a
                    == self.apps_seq()[i],
            r matches Err(e) ==> e == DbError::NotFound,
    {
        let n = self.apps.len();
        let mut i: usize = 0;
        while i < n
            invariant
                n == self.apps_seq().len(),
                i <= n,
                forall|j: int| 0 <= j < i ==> (#[trigger] self.apps_seq()[j]).id != id,
            decreases n - i,
        {
            if self.apps[i].id == id {
                return Ok(clone_app(&self.apps[i]));
            }
            i = i + 1;
        }
        Err(DbError::NotFound)
    }

    /// The records owned by this user, in stored order.
    pub fn get_apps_by_user_id(&self, user_id: u64) -> (r: Vec<Apps>)
        ensures
            r@ == apps_of_user(self.apps_seq(), user_id),
    {
        let n = self.apps.len();
        let mut r: Vec<Apps> = Vec::new();
        let mut i: usize = 0;
        proof {
            assert(self.apps_seq().take(0) =~= Seq::<Apps>::empty());
        }
        while i < n
            invariant
                n == self.apps_seq().len(),
                i <= n,
                r@ == apps_of_user(self.apps_seq().take(i as int), user_id),
            decreases n - i,
        {
            proof {
                assert(self.apps_seq().take(i + 1).drop_last() =~= self.apps_seq().take(i as int));
                assert(self.apps_seq().take(i + 1).last() == self.apps_seq()[i as int]);
            }
            if self.apps[i].user_id == user_id {
                r.push(clone_app(&self.apps[i]));
            }
            i = i + 1;
        }
        proof {
            assert(self.apps_seq().take(n as int) =~= self.apps_seq());
        }
        r
    }

    /// Inserts a new record owned by `user_id`, created and updated at
    /// `now`, and returns its identifier.
    pub fn add_app(
        &mut self,
        name: &str,
        description: &str,
        github_url: Option<&str>,
        image_name: &str,
        user_id: u64,
        now: u64,
    ) -> (r: u64)
        requires
            old(self).wf(),
            old(self).spec_next_id() < u64::MAX,
        ensures
            final(self).wf(),
            r == old(self).spec_next_id(),
            final(self).spec_next_id() == old(self).spec_next_id() + 1,
            final(self).apps_seq().len() == old(self).apps_seq().len() + 1,
            final(self).apps_seq().drop_last() == old(self).apps_seq(),
            final(self).apps_seq().last().id == old(self).spec_next_id(),
            final(self).apps_seq().last().name@ == name@,
            final(self).apps_seq().last().description@ == description@,
            final(self).apps_seq().last().created_at == now,
            final(self).apps_seq().last().updated_at == now,
            final(self).apps_seq().last().is_active == true,
            final(self).apps_seq().last().image_name@ == image_name@,
            final(self).apps_seq().last().user_id == user_id,
            github_url matches Some(g) ==> (final(self).apps_seq().last().github_url matches Some(s)
                && s@ == g@),
            github_url is None ==> final(self).apps_seq().last().github_url is None,
    {
        let id = self.next_id;
        self.next_id = id + 1;
        let gh = match github_url {
            Some(g) => Some(g.to_owned()),
            None => None,
        };
        let a = Apps {
            id,
            name: name.to_owned(),
            description: description.to_owned(),
            created_at: now,
            updated_at: now,
            is_active: true,
            image_name: image_name.to_owned(),
            github_url: gh,
            user_id,
        };
        self.apps.push(a);
        proof {
            assert(self.apps_seq().drop_last() =~= old(self).apps_seq());
        }
        id
    }
}

} // verus!
