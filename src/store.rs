use std::collections::HashMap;
use vstd::prelude::*;

use crate::clock::now_unix_seconds;

verus! {

broadcast use vstd::std_specs::hash::group_hash_axioms;

/// Free transcription seconds granted to each identity over its whole history.
pub const FREE_USAGE_LIMIT_SECONDS: u64 = 300;

/// Errors of the user record store and the usage ledger.
#[derive(Debug, Clone, Copy, PartialEq, Eq, Structural)]
pub enum StoreError {
    /// `create_user` on an identity that already has a record.
    AlreadyExists,
    /// The operation needs a user record that does not exist.
    UserNotFound,
}

/// What onboarding needs to create a user: the identity and a display name.
pub struct UserPayload {
    pub telegram_id: i64,
    pub name: String,
}

/// One onboarded user.
#[derive(Debug, Clone)]
pub struct User {
    pub telegram_id: i64,
    pub username: String,
    /// Key of the drafting service.
    pub typefully_api_key: Option<String>,
    /// Personal key of the transcription provider.
    pub openai_api_key: Option<String>,
    pub rewrite_enabled: bool,
    /// Seconds since the Unix epoch.
    pub created_at: i64,
}

pub struct UserView {
    pub telegram_id: i64,
    pub username: Seq<char>,
    pub typefully_api_key: Option<Seq<char>>,
    pub openai_api_key: Option<Seq<char>>,
    pub rewrite_enabled: bool,
    pub created_at: i64,
}

pub open spec fn opt_str_view(o: Option<String>) -> Option<Seq<char>> {
    match o {
        Some(s) => Some(s@),
        None => None,
    }
}

impl View for User {
    type V = UserView;

    open spec fn view(&self) -> UserView {
        UserView {
            telegram_id: self.telegram_id,
            username: self.username@,
            typefully_api_key: opt_str_view(self.typefully_api_key),
            openai_api_key: opt_str_view(self.openai_api_key),
            rewrite_enabled: self.rewrite_enabled,
            created_at: self.created_at,
        }
    }
}

fn copy_opt_string(o: &Option<String>) -> (r: Option<String>)
    ensures
        r == *o,
{
    match o {
        Some(s) => Some(s.clone()),
        None => None,
    }
}

fn copy_user(u: &User) -> (r: User)
    ensures
        r == *u,
{
    User {
        telegram_id: u.telegram_id,
        username: u.username.clone(),
        typefully_api_key: copy_opt_string(&u.typefully_api_key),
        openai_api_key: copy_opt_string(&u.openai_api_key),
        rewrite_enabled: u.rewrite_enabled,
        created_at: u.created_at,
    }
}

/// One completed, quota-funded transcription.
#[derive(Debug, Clone, Copy, PartialEq, Eq, Structural)]
pub struct UsageRecord {
    pub telegram_id: i64,
    pub duration_seconds: u32,
    pub created_at: i64,
}

/// The usage total of an identity captured when its user record was deleted.
#[derive(Debug, Clone, Copy, PartialEq, Eq, Structural)]
pub struct DeletedUserRecord {
    pub telegram_id: i64,
    pub total_usage_seconds: u128,
    pub deleted_at: i64,
}

/// Sum of the durations that `records` holds for `id`.
pub open spec fn usage_total(records: Seq<UsageRecord>, id: i64) -> int
    decreases records.len(),
{
    if records.len() == 0 {
        0
    } else {
        usage_total(records.drop_last(), id) + if records.last().telegram_id == id {
            records.last().duration_seconds as int
        } else {
            0
        }
    }
}

/// Free seconds left to `id` given the records: may be negative.
pub open spec fn remaining_quota(records: Seq<UsageRecord>, id: i64) -> int {
    FREE_USAGE_LIMIT_SECONDS as int - usage_total(records, id)
}

/// Appending a record of `id` raises the total of `id` by its duration and
/// leaves every other identity's total as it was.
pub proof fn lemma_usage_total_push(records: Seq<UsageRecord>, r: UsageRecord, id: i64)
    ensures
        usage_total(records.push(r), id) == usage_total(records, id) + if r.telegram_id == id {
            r.duration_seconds as int
        } else {
            0
        },
{
    assert(records.push(r).drop_last() =~= records);
}

impl User {
    /// Stores `api_key` as this user's drafting-service key.
    pub fn update_key(&self, db: &mut Database, api_key: &str) -> (r: Result<(), StoreError>)
        requires
            old(db).wf(),
        ensures
            final(db).wf(),
            final(db)@.usage == old(db)@.usage,
            final(db)@.deleted == old(db)@.deleted,
            old(db)@.users.contains_key(self.telegram_id) <==> r is Ok,
            r is Ok ==> {
                &&& final(db)@.users.contains_key(self.telegram_id)
                &&& final(db)@.users[self.telegram_id]@ == (UserView {
                    typefully_api_key: Some(api_key@),
                    ..old(db)@.users[self.telegram_id]@
                })
                &&& final(db)@.users.remove(self.telegram_id) == old(db)@.users.remove(
                    self.telegram_id,
                )
            },
            r is Err ==> final(db)@ == old(db)@,
    {
        db.set_typefully_api_key(self.telegram_id, api_key)
    }

    /// Stores `openai_api_key` as this user's personal transcription key.
    pub fn update_openai_api_key(&self, db: &mut Database, openai_api_key: &str) -> (r: Result<
        (),
        StoreError,
    >)
        requires
            old(db).wf(),
        ensures
            final(db).wf(),
            final(db)@.usage == old(db)@.usage,
            final(db)@.deleted == old(db)@.deleted,
            old(db)@.users.contains_key(self.telegram_id) <==> r is Ok,
            r is Ok ==> {
                &&& final(db)@.users.contains_key(self.telegram_id)
                &&& final(db)@.users[self.telegram_id]@ == (UserView {
                    openai_api_key: Some(openai_api_key@),
                    ..old(db)@.users[self.telegram_id]@
                })
                &&& final(db)@.users.remove(self.telegram_id) == old(db)@.users.remove(
                    self.telegram_id,
                )
            },
            r is Err ==> final(db)@ == old(db)@,
    {
        db.set_openai_api_key(self.telegram_id, openai_api_key)
    }

    /// Flips this user's rewrite preference and returns the new value.
    pub fn toggle_rewrite(&self, db: &mut Database) -> (r: Result<bool, StoreError>)
        requires
            old(db).wf(),
        ensures
            final(db).wf(),
            final(db)@.usage == old(db)@.usage,
            final(db)@.deleted == old(db)@.deleted,
            old(db)@.users.contains_key(self.telegram_id) <==> r is Ok,
            r matches Ok(b) ==> {
                &&& b == !old(db)@.users[self.telegram_id].rewrite_enabled
                &&& final(db)@.users.contains_key(self.telegram_id)
                &&& final(db)@.users[self.telegram_id]@ == (UserView {
                    rewrite_enabled: b,
                    ..old(db)@.users[self.telegram_id]@
                })
                &&& final(db)@.users.remove(self.telegram_id) == old(db)@.users.remove(
                    self.telegram_id,
                )
            },
            r is Err ==> final(db)@ == old(db)@,
    {
        db.toggle_rewrite(self.telegram_id)
    }
}

/// The total over two stretches of records is the sum of their totals.
pub proof fn lemma_usage_total_concat(a: Seq<UsageRecord>, b: Seq<UsageRecord>, id: i64)
    ensures
        usage_total(a + b, id) == usage_total(a, id) + usage_total(b, id),
    decreases b.len(),
{
    if b.len() > 0 {
        lemma_usage_total_concat(a, b.drop_last(), id);
        assert((a + b).drop_last() =~= a + b.drop_last());
    } else {
        assert(a + b =~= a);
    }
}

/// Deleting a user keeps its consumption: where the archive was written with
/// the identity's total at deletion and the usage records stayed, then any
/// records `later` were added, the free time left is the ceiling minus the
/// archived total minus what `later` holds for the identity, not the ceiling
/// minus `later` alone.
pub proof fn lemma_reonboarding_keeps_consumed_quota(
    before: DatabaseView,
    deleted: DatabaseView,
    later: Seq<UsageRecord>,
    after: DatabaseView,
    id: i64,
)
    requires
        deleted.usage == before.usage,
        deleted.deleted == before.deleted.push(deleted.deleted.last()),
        deleted.deleted.last().telegram_id == id,
        deleted.deleted.last().total_usage_seconds == usage_total(before.usage, id),
        after.usage == deleted.usage + later,
        after.deleted == deleted.deleted,
    ensures
        after.deleted.last().telegram_id == id,
        remaining_quota(after.usage, id) == FREE_USAGE_LIMIT_SECONDS
            - after.deleted.last().total_usage_seconds - usage_total(later, id),
        (usage_total(after.usage, id) < FREE_USAGE_LIMIT_SECONDS) == (
        after.deleted.last().total_usage_seconds + usage_total(later, id)
            < FREE_USAGE_LIMIT_SECONDS),
{
    lemma_usage_total_concat(deleted.usage, later, id);
}

pub struct DatabaseView {
    pub users: Map<i64, User>,
    pub usage: Seq<UsageRecord>,
    pub deleted: Seq<DeletedUserRecord>,
}

/// The user record store, the usage ledger and the archive of deleted users.
pub struct Database {
    users: HashMap<i64, User>,
    usage: Vec<UsageRecord>,
    deleted: Vec<DeletedUserRecord>,
}

impl View for Database {
    type V = DatabaseView;

    closed spec fn view(&self) -> DatabaseView {
        DatabaseView { users: self.users@, usage: self.usage@, deleted: self.deleted@ }
    }
}

impl Database {
    /// Each record is stored under its own identity, and the ledger is bounded.
    pub open spec fn wf(&self) -> bool {
        forall|k: i64| #[trigger]
            self@.users.contains_key(k) ==> self@.users[k].telegram_id == k
    }

    pub fn new() -> (r: Database)
        ensures
            r.wf(),
            r@.users.is_empty(),
            r@.usage.len() == 0,
            r@.deleted.len() == 0,
    {
        let r = Database { users: HashMap::new(), usage: Vec::new(), deleted: Vec::new() };
        assert(r@.users =~= Map::empty());
        r
    }

    /// A copy of the record of `telegram_id`, if there is one.
    pub fn get_user(&self, telegram_id: i64) -> (r: Option<User>)
        ensures
            match r {
                Some(u) => self@.users.contains_key(telegram_id) && u == self@.users[telegram_id],
                None => !self@.users.contains_key(telegram_id),
            },
    {
        match self.users.get(&telegram_id) {
            Some(u) => Some(copy_user(u)),
            None => None,
        }
    }

    /// The archive of deleted users, oldest first.
    pub fn deleted_users(&self) -> (r: &Vec<DeletedUserRecord>)
        ensures
            r@ == self@.deleted,
    {
        &self.deleted
    }

    /// Total seconds recorded for `telegram_id`; zero when it has no records.
    pub fn get_total_usage_seconds(&self, telegram_id: i64) -> (r: u128)
        requires
            self.wf(),
        ensures
            r == usage_total(self@.usage, telegram_id),
    {
        let mut total: u128 = 0;
        let mut i: usize = 0;
        while i < self.usage.len()
            invariant
                self.wf(),
                i <= self.usage@.len(),
                total == usage_total(self.usage@.take(i as int), telegram_id),
                total <= i * 4294967295,
            decreases self.usage@.len() - i,
        {
            let rec = self.usage[i];
            proof {
                assert(self.usage@.take(i + 1).drop_last() =~= self.usage@.take(i as int));
                assert(i * 4294967295 + 4294967295 <= 18446744073709551616 * 4294967295)
                    by (nonlinear_arith)
                    requires
                        i < 18446744073709551616,
                ;
            }
            if rec.telegram_id == telegram_id {
                total = total + rec.duration_seconds as u128;
            }
            i = i + 1;
        }
        assert(self.usage@.take(i as int) =~= self.usage@);
        total
    }

    /// Whether `telegram_id` has used less than the free allowance.
    pub fn has_free_usage(&self, telegram_id: i64) -> (r: bool)
        requires
            self.wf(),
        ensures
            r == (usage_total(self@.usage, telegram_id) < FREE_USAGE_LIMIT_SECONDS),
    {
        self.get_total_usage_seconds(telegram_id) < FREE_USAGE_LIMIT_SECONDS as u128
    }

    /// Appends one usage record of `duration_seconds` for `telegram_id`.
    pub fn add_usage(&mut self, telegram_id: i64, duration_seconds: u32)
        requires
            old(self).wf(),
        ensures
            final(self).wf(),
            final(self)@.users == old(self)@.users,
            final(self)@.deleted == old(self)@.deleted,
            ({
                let rec = final(self)@.usage.last();
                &&& final(self)@.usage == old(self)@.usage.push(rec)
                &&& rec.telegram_id == telegram_id
                &&& rec.duration_seconds == duration_seconds
                &&& usage_total(final(self)@.usage, telegram_id) == usage_total(
                    old(self)@.usage,
                    telegram_id,
                ) + duration_seconds
                &&& forall|other: i64|
                    other != telegram_id ==> #[trigger] usage_total(final(self)@.usage, other)
                        == usage_total(old(self)@.usage, other)
            }),
    {
        let now = now_unix_seconds();
        let rec = UsageRecord { telegram_id, duration_seconds, created_at: now };
        self.usage.push(rec);
        proof {
            lemma_usage_total_push(old(self)@.usage, rec, telegram_id);
            assert forall|other: i64| other != telegram_id implies #[trigger] usage_total(
                self@.usage,
                other,
            ) == usage_total(old(self)@.usage, other) by {
                lemma_usage_total_push(old(self)@.usage, rec, other);
            }
        }
    }

    /// Creates the record of a new user: no keys, rewriting off.
    pub fn create_user(&mut self, user_payload: UserPayload) -> (r: Result<User, StoreError>)
        requires
            old(self).wf(),
        ensures
            final(self).wf(),
            final(self)@.usage == old(self)@.usage,
            final(self)@.deleted == old(self)@.deleted,
            old(self)@.users.contains_key(user_payload.telegram_id) <==> r is Err,
            match r {
                Ok(u) => {
                    &&& u.telegram_id == user_payload.telegram_id
                    &&& u@.username == user_payload.name@
                    &&& u.typefully_api_key is None
                    &&& u.openai_api_key is None
                    &&& !u.rewrite_enabled
                    &&& final(self)@.users.contains_key(u.telegram_id)
                    &&& final(self)@.users[u.telegram_id]@ == u@
                    &&& final(self)@.users.remove(u.telegram_id) == old(self)@.users
                },
                Err(e) => e == StoreError::AlreadyExists && final(self)@.users == old(self)@.users,
            },
    {
        if self.users.contains_key(&user_payload.telegram_id) {
            return Err(StoreError::AlreadyExists);
        }
        let now = now_unix_seconds();
        let id = user_payload.telegram_id;
        let stored = User {
            telegram_id: id,
            username: user_payload.name.clone(),
            typefully_api_key: None,
            openai_api_key: None,
            rewrite_enabled: false,
            created_at: now,
        };
        self.users.insert(id, stored);
        assert(self@.users.remove(id) =~= old(self)@.users);
        Ok(
            User {
                telegram_id: id,
                username: user_payload.name,
                typefully_api_key: None,
                openai_api_key: None,
                rewrite_enabled: false,
                created_at: now,
            },
        )
    }

    /// Archives `total_usage` for `telegram_id` and removes its user record.
    /// The usage records stay, so the identity keeps its consumption.
    pub fn mark_user_deleted(&mut self, telegram_id: i64, total_usage: u128)
        requires
            old(self).wf(),
        ensures
            final(self).wf(),
            final(self)@.usage == old(self)@.usage,
            final(self)@.users == old(self)@.users.remove(telegram_id),
            ({
                let rec = final(self)@.deleted.last();
                &&& final(self)@.deleted == old(self)@.deleted.push(rec)
                &&& rec.telegram_id == telegram_id
                &&& rec.total_usage_seconds == total_usage
            }),
    {
        let now = now_unix_seconds();
        self.deleted.push(
            DeletedUserRecord { telegram_id, total_usage_seconds: total_usage, deleted_at: now },
        );
        self.users.remove(&telegram_id);
    }

    /// Stores `api_key` as the drafting-service key of `telegram_id`.
    pub fn set_typefully_api_key(&mut self, telegram_id: i64, api_key: &str) -> (r: Result<
        (),
        StoreError,
    >)
        requires
            old(self).wf(),
        ensures
            final(self).wf(),
            final(self)@.usage == old(self)@.usage,
            final(self)@.deleted == old(self)@.deleted,
            old(self)@.users.contains_key(telegram_id) <==> r is Ok,
            r is Ok ==> {
                &&& final(self)@.users.contains_key(telegram_id)
                &&& final(self)@.users[telegram_id]@ == (UserView {
                    typefully_api_key: Some(api_key@),
                    ..old(self)@.users[telegram_id]@
                })
                &&& final(self)@.users.remove(telegram_id) == old(self)@.users.remove(telegram_id)
            },
            r is Err ==> r == Err::<(), StoreError>(StoreError::UserNotFound) && final(self)@.users
                == old(self)@.users,
    {
        let updated = match self.users.get(&telegram_id) {
            Some(u) => {
                let mut nu = copy_user(u);
                nu.typefully_api_key = Some(api_key.to_owned());
                nu
            },
            None => {
                return Err(StoreError::UserNotFound);
            },
        };
        self.users.insert(telegram_id, updated);
        assert(self@.users.remove(telegram_id) =~= old(self)@.users.remove(telegram_id));
        Ok(())
    }

    /// Stores `api_key` as the personal transcription key of `telegram_id`.
    pub fn set_openai_api_key(&mut self, telegram_id: i64, api_key: &str) -> (r: Result<
        (),
        StoreError,
    >)
        requires
            old(self).wf(),
        ensures
            final(self).wf(),
            final(self)@.usage == old(self)@.usage,
            final(self)@.deleted == old(self)@.deleted,
            old(self)@.users.contains_key(telegram_id) <==> r is Ok,
            r is Ok ==> {
                &&& final(self)@.users.contains_key(telegram_id)
                &&& final(self)@.users[telegram_id]@ == (UserView {
                    openai_api_key: Some(api_key@),
                    ..old(self)@.users[telegram_id]@
                })
                &&& final(self)@.users.remove(telegram_id) == old(self)@.users.remove(telegram_id)
            },
            r is Err ==> r == Err::<(), StoreError>(StoreError::UserNotFound) && final(self)@.users
                == old(self)@.users,
    {
        let updated = match self.users.get(&telegram_id) {
            Some(u) => {
                let mut nu = copy_user(u);
                nu.openai_api_key = Some(api_key.to_owned());
                nu
            },
            None => {
                return Err(StoreError::UserNotFound);
            },
        };
        self.users.insert(telegram_id, updated);
        assert(self@.users.remove(telegram_id) =~= old(self)@.users.remove(telegram_id));
        Ok(())
    }

    /// Flips the rewrite preference of `telegram_id` and returns the new value.
    pub fn toggle_rewrite(&mut self, telegram_id: i64) -> (r: Result<bool, StoreError>)
        requires
            old(self).wf(),
        ensures
            final(self).wf(),
            final(self)@.usage == old(self)@.usage,
            final(self)@.deleted == old(self)@.deleted,
            old(self)@.users.contains_key(telegram_id) <==> r is Ok,
            match r {
                Ok(b) => {
                    &&& b == !old(self)@.users[telegram_id].rewrite_enabled
                    &&& final(self)@.users.contains_key(telegram_id)
                    &&& final(self)@.users[telegram_id]@ == (UserView {
                        rewrite_enabled: b,
                        ..old(self)@.users[telegram_id]@
                    })
                    &&& final(self)@.users.remove(telegram_id) == old(self)@.users.remove(
                        telegram_id,
                    )
                },
                Err(e) => e == StoreError::UserNotFound && final(self)@.users == old(self)@.users,
            },
    {
        let updated = match self.users.get(&telegram_id) {
            Some(u) => {
                let mut nu = copy_user(u);
                nu.rewrite_enabled = !u.rewrite_enabled;
                nu
            },
            None => {
                return Err(StoreError::UserNotFound);
            },
        };
        let value = updated.rewrite_enabled;
        self.users.insert(telegram_id, updated);
        assert(self@.users.remove(telegram_id) =~= old(self)@.users.remove(telegram_id));
        Ok(value)
    }
}

} // verus!
