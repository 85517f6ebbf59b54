//! The user store: one record per end-user, held as a single in-memory
//! arena.  The file backend persists exactly this snapshot (read whole,
//! mutate, rewrite whole under one exclusive section); the relational
//! backend mirrors the same contract with per-row statements built from
//! [`update_query_for`].
//!
//! The abstract state of a store is a finite map from user id to record,
//! and every operation's contract is stated over that map.

use vstd::prelude::*;

use crate::numbers::{format_i64, i64_text, int_value, parse_i64, valid_i64_text};

verus! {

broadcast use vstd::set::group_set_axioms, vstd::map::group_map_axioms;

/// One record per end-user.
#[derive(Debug)]
pub struct User {
    /// Platform-assigned identity; immutable; the store's key.
    pub id: i64,
    /// Conversation handle to deliver into; null until first observed.
    pub chat_id: Option<i64>,
    /// Display name, overwritten when the platform reports a new one.
    pub name: String,
    /// Count of successfully resolved requests; never decreases.
    pub requests_amount: i64,
    /// Millisecond epoch time of the last successful resolution.
    pub timestamp: i64,
    /// Millisecond epoch time of creation; immutable.
    pub register_timestamp: i64,
}

/// Mathematical image of a [`User`] record.
pub ghost struct UserView {
    pub id: int,
    pub chat_id: Option<int>,
    pub name: Seq<char>,
    pub requests_amount: int,
    pub timestamp: int,
    pub register_timestamp: int,
}

impl UserView {
    /// A record is well formed when its counter and timestamps are
    /// non-negative (millisecond epoch times, a non-decreasing counter).
    pub open spec fn wf(self) -> bool {
        &&& 0 <= self.requests_amount
        &&& 0 <= self.timestamp
        &&& 0 <= self.register_timestamp
    }
}

impl View for User {
    type V = UserView;

    open spec fn view(&self) -> UserView {
        UserView {
            id: self.id as int,
            chat_id: match self.chat_id {
                Some(c) => Some(c as int),
                None => None,
            },
            name: self.name@,
            requests_amount: self.requests_amount as int,
            timestamp: self.timestamp as int,
            register_timestamp: self.register_timestamp as int,
        }
    }
}

/// The columns of a user record that `set_data` and `get_data` address.
#[derive(Debug, Clone, Copy, PartialEq, Eq, Structural)]
pub enum UserColumn {
    Id,
    Name,
    RequestsAmount,
    Timestamp,
    ChatId,
    RegisterTimestamp,
}

/// How a store operation can fail.  The store itself does no I/O, so the
/// backends' transport failures stay outside the library.
#[derive(Debug, Clone, Copy, PartialEq, Eq, Structural)]
pub enum StoreError {
    /// The id has no record.
    NotFound,
    /// A record with this id already exists.
    AlreadyExists,
    /// The addressed column may not be written (`Id`, `RegisterTimestamp`).
    InvalidField,
    /// The textual value does not parse, or would break the record's shape.
    InvalidValue,
}

/// Abstract effect of creating a record.
pub open spec fn create_spec(m: Map<int, UserView>, u: UserView) -> Map<int, UserView> {
    m.insert(u.id, u)
}

/// Abstract result of fetching a record.
pub open spec fn fetch_spec(m: Map<int, UserView>, id: int) -> Option<UserView> {
    if m.contains_key(id) {
        Some(m[id])
    } else {
        None
    }
}

/// Abstract effect of one successful counter increment at time `now`.
pub open spec fn increment_spec(m: Map<int, UserView>, id: int, now: int) -> Map<
    int,
    UserView,
> {
    m.insert(
        id,
        UserView {
            requests_amount: m[id].requests_amount + 1,
            timestamp: now,
            ..m[id]
        },
    )
}

spec fn has_id(s: Seq<User>, k: int) -> bool {
    exists|i: int| 0 <= i < s.len() && (#[trigger] s[i])@.id == k
}

spec fn index_of(s: Seq<User>, k: int) -> int {
    choose|i: int| 0 <= i < s.len() && (#[trigger] s[i])@.id == k
}

spec fn unique_ids(s: Seq<User>) -> bool {
    forall|i: int, j: int|
        #![trigger s[i], s[j]]
        0 <= i < s.len() && 0 <= j < s.len() && i != j ==> s[i]@.id != s[j]@.id
}

spec fn contents(s: Seq<User>) -> Map<int, UserView> {
    Map::new(|k: int| has_id(s, k), |k: int| s[index_of(s, k)]@)
}

/// The arena of user records.
pub struct Store {
    users: Vec<User>,
}

impl View for Store {
    type V = Map<int, UserView>;

    closed spec fn view(&self) -> Map<int, UserView> {
        contents(self.users@)
    }
}

proof fn lemma_contents(s: Seq<User>)
    requires
        unique_ids(s),
    ensures
        forall|k: int| #[trigger] contents(s).contains_key(k) <==> has_id(s, k),
        forall|i: int|
            0 <= i < s.len() ==> contents(s).contains_key((#[trigger] s[i])@.id)
                && contents(s)[s[i]@.id] == s[i]@,
{
    assert forall|i: int| 0 <= i < s.len() implies contents(s).contains_key(
        (#[trigger] s[i])@.id,
    ) && contents(s)[s[i]@.id] == s[i]@ by {
        let k = s[i]@.id;
        assert(has_id(s, k));
        let j = index_of(s, k);
        assert(0 <= j < s.len() && s[j]@.id == k);
        assert(j == i);
    }
}

proof fn lemma_contents_push(s: Seq<User>, u: User)
    requires
        unique_ids(s),
        !has_id(s, u@.id),
    ensures
        unique_ids(s.push(u)),
        contents(s.push(u)) == contents(s).insert(u@.id, u@),
{
    let t = s.push(u);
    assert forall|i: int, j: int|
        #![trigger t[i], t[j]]
        0 <= i < t.len() && 0 <= j < t.len() && i != j implies t[i]@.id != t[j]@.id by {
        if i < s.len() && j < s.len() {
            assert(s[i]@.id != s[j]@.id);
        } else if i < s.len() {
            assert(t[j] == u);
            assert(s[i]@.id != u@.id);
        } else {
            assert(t[i] == u);
            assert(s[j]@.id != u@.id);
        }
    }
    lemma_contents(s);
    lemma_contents(t);
    let expected = contents(s).insert(u@.id, u@);
    assert forall|k: int| contents(t).contains_key(k) <==> expected.contains_key(k) by {
        if has_id(t, k) {
            let i = choose|i: int| 0 <= i < t.len() && (#[trigger] t[i])@.id == k;
            if i < s.len() {
                assert(s[i]@.id == k);
                assert(has_id(s, k));
            } else {
                assert(t[i] == u);
            }
        }
        if has_id(s, k) {
            let i = choose|i: int| 0 <= i < s.len() && (#[trigger] s[i])@.id == k;
            assert(t[i]@.id == k);
            assert(has_id(t, k));
        }
        if k == u@.id {
            assert(t[s.len() as int]@.id == k);
            assert(has_id(t, k));
        }
    }
    assert forall|k: int| contents(t).contains_key(k) implies contents(t)[k] == expected[k] by {
        if k == u@.id {
            assert(t[s.len() as int] == u);
            assert(contents(t)[k] == u@);
        } else {
            let i = choose|i: int| 0 <= i < t.len() && (#[trigger] t[i])@.id == k;
            assert(i < s.len()) by {
                if i == s.len() {
                    assert(t[i] == u);
                }
            }
            assert(s[i]@.id == k);
            assert(contents(s)[k] == s[i]@);
            assert(contents(t)[k] == t[i]@);
        }
    }
    assert(contents(t) =~= expected);
}

proof fn lemma_contents_update(s: Seq<User>, i: int, u: User)
    requires
        unique_ids(s),
        0 <= i < s.len(),
        u@.id == s[i]@.id,
    ensures
        unique_ids(s.update(i, u)),
        contents(s.update(i, u)) == contents(s).insert(u@.id, u@),
{
    let t = s.update(i, u);
    assert forall|p: int, q: int|
        #![trigger t[p], t[q]]
        0 <= p < t.len() && 0 <= q < t.len() && p != q implies t[p]@.id != t[q]@.id by {
        assert(s[p]@.id != s[q]@.id);
        if p != i && q != i {
            assert(t[p] == s[p] && t[q] == s[q]);
        } else if p == i {
            assert(t[q] == s[q]);
        } else {
            assert(t[p] == s[p]);
        }
    }
    lemma_contents(s);
    lemma_contents(t);
    let expected = contents(s).insert(u@.id, u@);
    assert forall|k: int| contents(t).contains_key(k) <==> expected.contains_key(k) by {
        if has_id(t, k) {
            let p = choose|p: int| 0 <= p < t.len() && (#[trigger] t[p])@.id == k;
            if p == i {
                assert(t[p] == u);
            } else {
                assert(t[p] == s[p]);
                assert(has_id(s, k));
            }
        }
        if has_id(s, k) {
            let p = choose|p: int| 0 <= p < s.len() && (#[trigger] s[p])@.id == k;
            if p == i {
                assert(t[p] == u);
                assert(t[p]@.id == k);
            } else {
                assert(t[p] == s[p]);
                assert(t[p]@.id == k);
            }
            assert(has_id(t, k));
        }
        if k == u@.id {
            assert(t[i] == u);
            assert(t[i]@.id == k);
            assert(has_id(t, k));
        }
    }
    assert forall|k: int| contents(t).contains_key(k) implies contents(t)[k] == expected[k] by {
        if k == u@.id {
            assert(t[i] == u);
            assert(contents(t)[k] == u@);
        } else {
            let p = choose|p: int| 0 <= p < t.len() && (#[trigger] t[p])@.id == k;
            assert(p != i) by {
                if p == i {
                    assert(t[p] == u);
                }
            }
            assert(t[p] == s[p]);
            assert(s[p]@.id == k);
            assert(contents(s)[k] == s[p]@);
            assert(contents(t)[k] == t[p]@);
        }
    }
    assert(contents(t) =~= expected);
}

impl Store {
    /// Every id names at most one record and every record is well formed.
    pub closed spec fn wf(&self) -> bool {
        &&& unique_ids(self.users@)
        &&& forall|i: int|
            0 <= i < self.users@.len() ==> (#[trigger] self.users@[i])@.wf()
    }

    /// Every record a well-formed store holds is well formed and filed
    /// under its own id.
    pub proof fn lemma_wf_records(&self)
        requires
            self.wf(),
        ensures
            forall|k: int|
                #[trigger] self@.contains_key(k) ==> self@[k].wf() && self@[k].id == k,
    {
        lemma_contents(self.users@);
        assert forall|k: int| self@.contains_key(k) implies self@[k].wf() && self@[k].id
            == k by {
            let i = choose|i: int|
                0 <= i < self.users@.len() && (#[trigger] self.users@[i])@.id == k;
            assert(contents(self.users@)[k] == self.users@[i]@);
        }
    }

    /// An empty store.
    pub fn new() -> (s: Store)
        ensures
            s.wf(),
            s@ == Map::<int, UserView>::empty(),
    {
        let s = Store { users: Vec::new() };
        proof {
            assert(s@ =~= Map::<int, UserView>::empty());
        }
        s
    }

    fn find_index(&self, id: i64) -> (r: Option<usize>)
        ensures
            match r {
                Some(i) => i < self.users@.len() && self.users@[i as int]@.id == id as int,
                None => !has_id(self.users@, id as int),
            },
    {
        let n = self.users.len();
        let mut i: usize = 0;
        while i < n
            invariant
                n == self.users@.len(),
                i <= n,
                forall|j: int| 0 <= j < i ==> (#[trigger] self.users@[j])@.id != id as int,
            decreases n - i,
        {
            if self.users[i].id == id {
                return Some(i);
            }
            i += 1;
        }
        None
    }

    /// Whether the id has a record.
    pub fn has_user(&self, id: i64) -> (r: bool)
        requires
            self.wf(),
        ensures
            r == self@.contains_key(id as int),
    {
        proof {
            lemma_contents(self.users@);
        }
        match self.find_index(id) {
            Some(_) => true,
            None => false,
        }
    }

    /// Fetch a copy of the record filed under this id.
    pub fn get_user(&self, id: i64) -> (r: Option<User>)
        requires
            self.wf(),
        ensures
            match r {
                Some(u) => fetch_spec(self@, id as int) == Some(u@),
                None => fetch_spec(self@, id as int) is None,
            },
    {
        proof {
            lemma_contents(self.users@);
        }
        match self.find_index(id) {
            Some(i) => Some(copy_user(&self.users[i])),
            None => None,
        }
    }

    /// File a new record; a second record for the same id is refused.
    pub fn add_user(&mut self, user: User) -> (r: Result<(), StoreError>)
        requires
            old(self).wf(),
            user@.wf(),
        ensures
            final(self).wf(),
            old(self)@.contains_key(user@.id) ==> r == Err::<(), StoreError>(
                StoreError::AlreadyExists,
            ) && final(self)@ == old(self)@,
            !old(self)@.contains_key(user@.id) ==> r is Ok && final(self)@ == create_spec(
                old(self)@,
                user@,
            ),
    {
        proof {
            lemma_contents(self.users@);
        }
        match self.find_index(user.id) {
            Some(_) => Err(StoreError::AlreadyExists),
            None => {
                proof {
                    lemma_contents_push(self.users@, user);
                }
                self.users.push(user);
                Ok(())
            },
        }
    }
}

proof fn lemma_contents_remove(s: Seq<User>, i: int)
    requires
        unique_ids(s),
        0 <= i < s.len(),
    ensures
        unique_ids(s.remove(i)),
        contents(s.remove(i)) == contents(s).remove(s[i]@.id),
{
    let t = s.remove(i);
    s.remove_ensures(i);
    assert forall|p: int, q: int|
        #![trigger t[p], t[q]]
        0 <= p < t.len() && 0 <= q < t.len() && p != q implies t[p]@.id != t[q]@.id by {
        let sp = if p < i {
            p
        } else {
            p + 1
        };
        let sq = if q < i {
            q
        } else {
            q + 1
        };
        assert(t[p] == s[sp] && t[q] == s[sq]);
        assert(s[sp]@.id != s[sq]@.id);
    }
    lemma_contents(s);
    lemma_contents(t);
    let k0 = s[i]@.id;
    let expected = contents(s).remove(k0);
    assert forall|k: int| contents(t).contains_key(k) <==> expected.contains_key(k) by {
        if has_id(t, k) {
            let p = choose|p: int| 0 <= p < t.len() && (#[trigger] t[p])@.id == k;
            let sp = if p < i {
                p
            } else {
                p + 1
            };
            assert(t[p] == s[sp]);
            assert(has_id(s, k));
            assert(sp != i);
            assert(s[sp]@.id != s[i]@.id);
        }
        if has_id(s, k) && k != k0 {
            let p = choose|p: int| 0 <= p < s.len() && (#[trigger] s[p])@.id == k;
            assert(p != i);
            let tp = if p < i {
                p
            } else {
                p - 1
            };
            assert(t[tp] == s[p]);
            assert(has_id(t, k));
        }
    }
    assert forall|k: int| contents(t).contains_key(k) implies contents(t)[k] == expected[k] by {
        let p = choose|p: int| 0 <= p < t.len() && (#[trigger] t[p])@.id == k;
        let sp = if p < i {
            p
        } else {
            p + 1
        };
        assert(t[p] == s[sp]);
        assert(sp != i);
        assert(s[sp]@.id != s[i]@.id);
        assert(contents(t)[k] == t[p]@);
        assert(contents(s)[k] == s[sp]@);
    }
    assert(contents(t) =~= expected);
}

impl Store {
    /// Overwrite one writable column of the record filed under `user_id`
    /// with the value the text denotes.  The key column and the
    /// registration time may never be written; numeric columns take a
    /// decimal text, and the counter and timestamp refuse negative values.
    pub fn set_data(&mut self, user_id: i64, column: UserColumn, value: &str) -> (r: Result<
        (),
        StoreError,
    >)
        requires
            old(self).wf(),
        ensures
            final(self).wf(),
            (column is Id || column is RegisterTimestamp) ==> r == Err::<(), StoreError>(
                StoreError::InvalidField,
            ) && final(self)@ == old(self)@,
            !(column is Id || column is RegisterTimestamp) && !old(self)@.contains_key(
                user_id as int,
            ) ==> r == Err::<(), StoreError>(StoreError::NotFound) && final(self)@ == old(self)@,
            column is Name && old(self)@.contains_key(user_id as int) ==> r is Ok && final(self)@ == old(self)@.insert(
                user_id as int,
                (UserView { name: value@, ..old(self)@[user_id as int] }),
            ),
            column is ChatId && old(self)@.contains_key(user_id as int) ==> if valid_i64_text(
                value@,
            ) {
                r is Ok && final(self)@ == old(self)@.insert(
                    user_id as int,
                    (UserView { chat_id: Some(int_value(value@)), ..old(self)@[user_id as int] }),
                )
            } else {
                r == Err::<(), StoreError>(StoreError::InvalidValue) && final(self)@ == old(self)@
            },
            column is RequestsAmount && old(self)@.contains_key(user_id as int)
                ==> if valid_i64_text(value@) && int_value(value@) >= 0 {
                r is Ok && final(self)@ == old(self)@.insert(
                    user_id as int,
                    (UserView {
                        requests_amount: int_value(value@),
                        ..old(self)@[user_id as int]
                    }),
                )
            } else {
                r == Err::<(), StoreError>(StoreError::InvalidValue) && final(self)@ == old(self)@
            },
            column is Timestamp && old(self)@.contains_key(user_id as int)
                ==> if valid_i64_text(value@) && int_value(value@) >= 0 {
                r is Ok && final(self)@ == old(self)@.insert(
                    user_id as int,
                    (UserView { timestamp: int_value(value@), ..old(self)@[user_id as int] }),
                )
            } else {
                r == Err::<(), StoreError>(StoreError::InvalidValue) && final(self)@ == old(self)@
            },
    {
        let writable = match column {
            UserColumn::Id => false,
            UserColumn::RegisterTimestamp => false,
            _ => true,
        };
        if !writable {
            return Err(StoreError::InvalidField);
        }
        proof {
            lemma_contents(self.users@);
        }
        let idx = match self.find_index(user_id) {
            Some(i) => i,
            None => {
                return Err(StoreError::NotFound);
            },
        };
        let mut nu = copy_user(&self.users[idx]);
        match column {
            UserColumn::Name => {
                nu.name = String::from_str(value);
            },
            UserColumn::ChatId => {
                match parse_i64(value) {
                    Some(v) => {
                        nu.chat_id = Some(v);
                    },
                    None => {
                        return Err(StoreError::InvalidValue);
                    },
                }
            },
            UserColumn::RequestsAmount => {
                match parse_i64(value) {
                    Some(v) => {
                        if v < 0 {
                            return Err(StoreError::InvalidValue);
                        }
                        nu.requests_amount = v;
                    },
                    None => {
                        return Err(StoreError::InvalidValue);
                    },
                }
            },
            UserColumn::Timestamp => {
                match parse_i64(value) {
                    Some(v) => {
                        if v < 0 {
                            return Err(StoreError::InvalidValue);
                        }
                        nu.timestamp = v;
                    },
                    None => {
                        return Err(StoreError::InvalidValue);
                    },
                }
            },
            UserColumn::Id | UserColumn::RegisterTimestamp => {
                return Err(StoreError::InvalidField);
            },
        }
        proof {
            lemma_contents_update(self.users@, idx as int, nu);
        }
        let ghost pre = self.users@;
        self.users[idx] = nu;
        proof {
            assert forall|j: int| 0 <= j < self.users@.len() implies (#[trigger] self.users@[j])@.wf() by {
                if j != idx {
                    assert(self.users@[j] == pre[j]);
                }
            }
        }
        Ok(())
    }

    /// Read one column of the record filed under `user_id` as text:
    /// numeric columns in decimal, the name verbatim, and a null chat id
    /// as no value.
    pub fn get_data(&self, user_id: i64, column: UserColumn) -> (r: Option<String>)
        requires
            self.wf(),
        ensures
            match fetch_spec(self@, user_id as int) {
                None => r is None,
                Some(u) => match column {
                    UserColumn::Id => r matches Some(t) && t@ == i64_text(u.id),
                    UserColumn::Name => r matches Some(t) && t@ == u.name,
                    UserColumn::RequestsAmount => r matches Some(t) && t@ == i64_text(
                        u.requests_amount,
                    ),
                    UserColumn::Timestamp => r matches Some(t) && t@ == i64_text(u.timestamp),
                    UserColumn::RegisterTimestamp => r matches Some(t) && t@ == i64_text(
                        u.register_timestamp,
                    ),
                    UserColumn::ChatId => match u.chat_id {
                        Some(c) => r matches Some(t) && t@ == i64_text(c),
                        None => r is None,
                    },
                },
            },
    {
        proof {
            lemma_contents(self.users@);
        }
        let idx = match self.find_index(user_id) {
            Some(i) => i,
            None => {
                return None;
            },
        };
        let u = &self.users[idx];
        match column {
            UserColumn::Id => Some(format_i64(u.id)),
            UserColumn::Name => Some(u.name.clone()),
            UserColumn::RequestsAmount => Some(format_i64(u.requests_amount)),
            UserColumn::Timestamp => Some(format_i64(u.timestamp)),
            UserColumn::RegisterTimestamp => Some(format_i64(u.register_timestamp)),
            UserColumn::ChatId => match u.chat_id {
                Some(c) => Some(format_i64(c)),
                None => None,
            },
        }
    }

    /// Raise the counter by one and refresh the last-seen time to `now`,
    /// as one logical operation.
    pub fn increment_requests(&mut self, id: i64, now: i64) -> (r: Result<(), StoreError>)
        requires
            old(self).wf(),
            0 <= now,
            old(self)@.contains_key(id as int) ==> old(self)@[id as int].requests_amount
                < i64::MAX,
        ensures
            final(self).wf(),
            old(self)@.contains_key(id as int) ==> r is Ok && final(self)@ == increment_spec(
                old(self)@,
                id as int,
                now as int,
            ),
            !old(self)@.contains_key(id as int) ==> r == Err::<(), StoreError>(
                StoreError::NotFound,
            ) && final(self)@ == old(self)@,
    {
        proof {
            lemma_contents(self.users@);
        }
        let idx = match self.find_index(id) {
            Some(i) => i,
            None => {
                return Err(StoreError::NotFound);
            },
        };
        let mut nu = copy_user(&self.users[idx]);
        nu.requests_amount = nu.requests_amount + 1;
        nu.timestamp = now;
        proof {
            lemma_contents_update(self.users@, idx as int, nu);
        }
        let ghost pre = self.users@;
        self.users[idx] = nu;
        proof {
            assert forall|j: int| 0 <= j < self.users@.len() implies (#[trigger] self.users@[j])@.wf() by {
                if j != idx {
                    assert(self.users@[j] == pre[j]);
                }
            }
        }
        Ok(())
    }

    /// Replace the whole record filed under the user's id.
    pub fn update_user(&mut self, user: User) -> (r: Result<(), StoreError>)
        requires
            old(self).wf(),
            user@.wf(),
        ensures
            final(self).wf(),
            old(self)@.contains_key(user@.id) ==> r is Ok && final(self)@ == old(self)@.insert(user@.id, user@),
            !old(self)@.contains_key(user@.id) ==> r == Err::<(), StoreError>(
                StoreError::NotFound,
            ) && final(self)@ == old(self)@,
    {
        proof {
            lemma_contents(self.users@);
        }
        let idx = match self.find_index(user.id) {
            Some(i) => i,
            None => {
                return Err(StoreError::NotFound);
            },
        };
        proof {
            lemma_contents_update(self.users@, idx as int, user);
        }
        let ghost pre = self.users@;
        self.users[idx] = user;
        proof {
            assert forall|j: int| 0 <= j < self.users@.len() implies (#[trigger] self.users@[j])@.wf() by {
                if j != idx {
                    assert(self.users@[j] == pre[j]);
                }
            }
        }
        Ok(())
    }

    /// A copy of every record, for the file backend's whole-arena rewrite:
    /// each copied record is filed in the store, every filed id is among
    /// the copies, and no id appears twice.
    pub fn snapshot(&self) -> (r: Vec<User>)
        requires
            self.wf(),
        ensures
            forall|i: int|
                0 <= i < r@.len() ==> self@.contains_key((#[trigger] r@[i])@.id)
                    && self@[r@[i]@.id] == r@[i]@,
            forall|k: int|
                #[trigger] self@.contains_key(k) ==> exists|i: int|
                    0 <= i < r@.len() && (#[trigger] r@[i])@.id == k,
            forall|i: int, j: int|
                #![trigger r@[i], r@[j]]
                0 <= i < r@.len() && 0 <= j < r@.len() && i != j ==> r@[i]@.id != r@[j]@.id,
    {
        proof {
            lemma_contents(self.users@);
        }
        let mut out: Vec<User> = Vec::new();
        let n = self.users.len();
        let mut i: usize = 0;
        while i < n
            invariant
                i <= n,
                n == self.users@.len(),
                out@.len() == i,
                forall|j: int| 0 <= j < i ==> #[trigger] out@[j]@ == self.users@[j]@,
            decreases n - i,
        {
            out.push(copy_user(&self.users[i]));
            i += 1;
        }
        proof {
            assert forall|k: int| self@.contains_key(k) implies exists|i: int|
                0 <= i < out@.len() && (#[trigger] out@[i])@.id == k by {
                let j = choose|j: int|
                    0 <= j < self.users@.len() && (#[trigger] self.users@[j])@.id == k;
                assert(out@[j]@.id == k);
            }
        }
        out
    }

    /// Drop the record filed under this id, if any.  Removal is an
    /// administrative operation: the pipeline itself never deletes.
    pub fn remove_user(&mut self, id: i64)
        requires
            old(self).wf(),
        ensures
            final(self).wf(),
            final(self)@ == old(self)@.remove(id as int),
    {
        proof {
            lemma_contents(self.users@);
        }
        let idx = match self.find_index(id) {
            Some(i) => i,
            None => {
                proof {
                    assert(old(self)@ =~= old(self)@.remove(id as int));
                }
                return ;
            },
        };
        proof {
            lemma_contents_remove(self.users@, idx as int);
        }
        let ghost pre = self.users@;
        let _ = self.users.remove(idx);
        proof {
            pre.remove_ensures(idx as int);
            assert forall|j: int| 0 <= j < self.users@.len() implies (#[trigger] self.users@[j])@.wf() by {
                if j < idx {
                    assert(self.users@[j] == pre[j]);
                } else {
                    assert(self.users@[j] == pre[j + 1]);
                }
            }
        }
    }
}

/// The row-update statement the relational backend runs for one writable
/// column.  The key column and the registration time may never be written,
/// exactly as in the arena.
pub fn update_query_for(column: UserColumn) -> (r: Result<&'static str, StoreError>)
    ensures
        match column {
            UserColumn::Name => r matches Ok(q) && q@ == "UPDATE users SET name = $1 WHERE id = $2"@,
            UserColumn::RequestsAmount => r matches Ok(q) && q@
                == "UPDATE users SET requests_amount = $1 WHERE id = $2"@,
            UserColumn::Timestamp => r matches Ok(q) && q@
                == "UPDATE users SET timestamp = $1 WHERE id = $2"@,
            UserColumn::ChatId => r matches Ok(q) && q@
                == "UPDATE users SET chat_id = $1 WHERE id = $2"@,
            UserColumn::Id => r == Err::<&'static str, StoreError>(StoreError::InvalidField),
            UserColumn::RegisterTimestamp => r == Err::<&'static str, StoreError>(
                StoreError::InvalidField,
            ),
        },
{
    match column {
        UserColumn::Name => Ok("UPDATE users SET name = $1 WHERE id = $2"),
        UserColumn::RequestsAmount => Ok("UPDATE users SET requests_amount = $1 WHERE id = $2"),
        UserColumn::Timestamp => Ok("UPDATE users SET timestamp = $1 WHERE id = $2"),
        UserColumn::ChatId => Ok("UPDATE users SET chat_id = $1 WHERE id = $2"),
        UserColumn::Id | UserColumn::RegisterTimestamp => Err(StoreError::InvalidField),
    }
}

/// Law: creating a user whose id was not yet filed and then fetching that
/// id returns exactly the record that was created.
pub proof fn lemma_create_then_fetch(m: Map<int, UserView>, u: UserView)
    requires
        !m.contains_key(u.id),
    ensures
        fetch_spec(create_spec(m, u), u.id) == Some(u),
{
}

/// The effect of a whole sequence of counter increments, one entry per
/// call, each with the time it was made.
pub open spec fn increment_many(m: Map<int, UserView>, id: int, times: Seq<int>) -> Map<
    int,
    UserView,
>
    decreases times.len(),
{
    if times.len() == 0 {
        m
    } else {
        increment_spec(increment_many(m, id, times.drop_last()), id, times.last())
    }
}

/// Law: repeating the increment `n` times raises the counter by exactly
/// `n`, leaves the last call's time as the last-seen time, keeps every
/// other field of the record, and leaves every other record untouched.
pub proof fn lemma_increment_repeated(m: Map<int, UserView>, id: int, times: Seq<int>)
    requires
        m.contains_key(id),
        times.len() > 0,
    ensures
        increment_many(m, id, times).contains_key(id),
        increment_many(m, id, times)[id].requests_amount == m[id].requests_amount
            + times.len(),
        increment_many(m, id, times)[id].timestamp == times.last(),
        increment_many(m, id, times)[id].id == m[id].id,
        increment_many(m, id, times)[id].name == m[id].name,
        increment_many(m, id, times)[id].chat_id == m[id].chat_id,
        increment_many(m, id, times)[id].register_timestamp == m[id].register_timestamp,
        increment_many(m, id, times).remove(id) == m.remove(id),
    decreases times.len(),
{
    let prev = increment_many(m, id, times.drop_last());
    if times.len() == 1 {
        assert(times.drop_last().len() == 0);
        assert(prev == m);
        assert(increment_spec(m, id, times.last()).remove(id) =~= m.remove(id));
    } else {
        lemma_increment_repeated(m, id, times.drop_last());
        assert(increment_spec(prev, id, times.last()).remove(id) =~= prev.remove(id));
    }
}

fn copy_user(u: &User) -> (r: User)
    ensures
        r@ == u@,
{
    User {
        id: u.id,
        chat_id: u.chat_id,
        name: u.name.clone(),
        requests_amount: u.requests_amount,
        timestamp: u.timestamp,
        register_timestamp: u.register_timestamp,
    }
}

} // verus!
