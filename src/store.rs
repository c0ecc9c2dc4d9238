//! Per-user records: usage counters and the linked statistics account, and
//! an in-memory store of them keyed by the chat user id.

use vstd::prelude::*;
use std::collections::HashMap;
use crate::error::CommandError;

verus! {

broadcast use vstd::std_specs::hash::group_hash_axioms;

/// What is kept of one chat user.
#[derive(Clone, Debug, PartialEq, Eq)]
pub struct User {
    pub user_id: u64,
    pub currency: u64,
    pub experience: u64,
    /// The number of commands that completed.
    pub command_count: u64,
    /// The statistics account linked to this user, if any.
    pub linked_username: Option<String>,
}

/// The record of a user seen for the first time.
pub open spec fn fresh_user(user_id: u64) -> User {
    User { user_id, currency: 0, experience: 0, command_count: 0, linked_username: None }
}

/// The record after one more completed command; unchanged where the counter
/// is at its largest value.
pub open spec fn counted(u: User) -> User {
    if u.command_count < u64::MAX {
        User { command_count: (u.command_count + 1) as u64, ..u }
    } else {
        u
    }
}

impl User {
    /// A record with all counters at zero and no linked account.
    pub fn new(user_id: u64) -> (r: User)
        ensures
            r == fresh_user(user_id),
    {
        User { user_id, currency: 0, experience: 0, command_count: 0, linked_username: None }
    }

    /// A copy of this record.
    pub fn copied(&self) -> (r: User)
        ensures
            r == *self,
    {
        let linked_username = match &self.linked_username {
            Some(name) => Some(name.clone()),
            None => None,
        };
        User {
            user_id: self.user_id,
            currency: self.currency,
            experience: self.experience,
            command_count: self.command_count,
            linked_username,
        }
    }

    /// The linked account's name; fails when none is linked.
    pub fn linked(&self) -> (r: Result<String, CommandError>)
        ensures
            match self.linked_username {
                Some(name) => r == Ok::<String, CommandError>(name),
                None => r == Err::<String, CommandError>(CommandError::NotLinked),
            },
    {
        match &self.linked_username {
            Some(name) => Ok(name.clone()),
            None => Err(CommandError::NotLinked),
        }
    }

    /// The record with `username` linked; fails when an account is linked
    /// already.
    pub fn with_link(&self, username: String) -> (r: Result<User, CommandError>)
        ensures
            match self.linked_username {
                Some(_) => r == Err::<User, CommandError>(CommandError::AlreadyLinkedOrConflict),
                None => r == Ok::<User, CommandError>(User { linked_username: Some(username), ..*self }),
            },
    {
        match &self.linked_username {
            Some(_) => Err(CommandError::AlreadyLinkedOrConflict),
            None => {
                let mut u = self.copied();
                u.linked_username = Some(username);
                Ok(u)
            },
        }
    }

    /// The record with its link removed; fails when none is linked.
    pub fn without_link(&self) -> (r: Result<User, CommandError>)
        ensures
            match self.linked_username {
                Some(_) => r == Ok::<User, CommandError>(User { linked_username: None, ..*self }),
                None => r == Err::<User, CommandError>(CommandError::NotLinked),
            },
    {
        match &self.linked_username {
            Some(_) => {
                let mut u = self.copied();
                u.linked_username = None;
                Ok(u)
            },
            None => Err(CommandError::NotLinked),
        }
    }

    /// The record after one more completed command.
    pub fn with_command_counted(&self) -> (r: User)
        ensures
            r == counted(*self),
    {
        let mut u = self.copied();
        if u.command_count < u64::MAX {
            u.command_count = u.command_count + 1;
        }
        u
    }
}

/// The store after `get_or_create` of `user_id`.
pub open spec fn after_get_or_create(m: Map<u64, User>, user_id: u64) -> Map<u64, User> {
    if m.contains_key(user_id) {
        m
    } else {
        m.insert(user_id, fresh_user(user_id))
    }
}

/// The store after one more completed command of `user_id`; unchanged where
/// it has no such user or the counter is at its largest value.
pub open spec fn after_increment(m: Map<u64, User>, user_id: u64) -> Map<u64, User> {
    if m.contains_key(user_id) {
        m.insert(user_id, counted(m[user_id]))
    } else {
        m
    }
}

/// The store after the completed commands of `ids`, in that order.
pub open spec fn after_increments(m: Map<u64, User>, ids: Seq<u64>) -> Map<u64, User>
    decreases ids.len(),
{
    if ids.len() == 0 {
        m
    } else {
        after_increment(after_increments(m, ids.drop_last()), ids.last())
    }
}

/// How often `id` occurs in `ids`.
pub open spec fn occurrences(ids: Seq<u64>, id: u64) -> nat
    decreases ids.len(),
{
    if ids.len() == 0 {
        0
    } else {
        occurrences(ids.drop_last(), id) + if ids.last() == id {
            1nat
        } else {
            0nat
        }
    }
}

/// Calling `get_or_create` for a user twice leaves exactly one record of that
/// user: the second call changes nothing and finds the record that the first
/// one left, and no other record appears.
pub proof fn lemma_get_or_create_idempotent(m: Map<u64, User>, user_id: u64)
    ensures
        after_get_or_create(after_get_or_create(m, user_id), user_id) == after_get_or_create(m, user_id),
        after_get_or_create(m, user_id).dom() == m.dom().insert(user_id),
        m.contains_key(user_id) ==> after_get_or_create(m, user_id)[user_id] == m[user_id],
        !m.contains_key(user_id) ==> after_get_or_create(m, user_id)[user_id] == fresh_user(user_id),
{
    if !m.contains_key(user_id) {
        assert(after_get_or_create(m, user_id).dom() =~= m.dom().insert(user_id));
    } else {
        assert(m.dom().insert(user_id) =~= m.dom());
    }
}

/// Counting the completed commands of a sequence of users, in any
/// interleaving, adds to each user's counter exactly the number of that
/// user's commands, where all those users have records and the counter has
/// room.
pub proof fn lemma_increments_add_up(m: Map<u64, User>, ids: Seq<u64>, id: u64)
    requires
        forall|i: int| 0 <= i < ids.len() ==> m.contains_key(#[trigger] ids[i]),
        m.contains_key(id),
        m[id].command_count + occurrences(ids, id) <= u64::MAX,
    ensures
        after_increments(m, ids).dom() == m.dom(),
        after_increments(m, ids)[id].command_count == m[id].command_count + occurrences(ids, id),
    decreases ids.len(),
{
    if ids.len() > 0 {
        let prefix = ids.drop_last();
        assert forall|i: int| 0 <= i < prefix.len() implies m.contains_key(#[trigger] prefix[i]) by {
            assert(prefix[i] == ids[i]);
        }
        lemma_increments_add_up(m, prefix, id);
        let mid = after_increments(m, prefix);
        assert(m.contains_key(ids[ids.len() - 1]));
        assert(mid.contains_key(ids.last()));
        assert(after_increments(m, ids) == after_increment(mid, ids.last()));
        assert(after_increment(mid, ids.last()).dom() =~= mid.dom());
    }
}

/// The outcome of a write of a link that applies only where no account is
/// linked: it fails with `AlreadyLinkedOrConflict` where it matched no record.
pub fn link_written(matched: u64) -> (r: Result<(), CommandError>)
    ensures
        matched > 0 ==> r is Ok,
        matched == 0 ==> r == Err::<(), CommandError>(CommandError::AlreadyLinkedOrConflict),
{
    if matched > 0 {
        Ok(())
    } else {
        Err(CommandError::AlreadyLinkedOrConflict)
    }
}

/// The outcome of a removal of a link that applies only where an account is
/// linked: it fails with `NotLinked` where it matched no record.
pub fn unlink_written(matched: u64) -> (r: Result<(), CommandError>)
    ensures
        matched > 0 ==> r is Ok,
        matched == 0 ==> r == Err::<(), CommandError>(CommandError::NotLinked),
{
    if matched > 0 {
        Ok(())
    } else {
        Err(CommandError::NotLinked)
    }
}

/// The user records, one per chat user id.
pub struct AccountStore {
    records: HashMap<u64, User>,
}

impl View for AccountStore {
    type V = Map<u64, User>;

    closed spec fn view(&self) -> Map<u64, User> {
        self.records@
    }
}

impl AccountStore {
    /// Each record is stored under its own user id.
    pub open spec fn wf(&self) -> bool {
        forall|k: u64| #[trigger] self@.contains_key(k) ==> self@[k].user_id == k
    }

    /// An empty store.
    pub fn new() -> (r: AccountStore)
        ensures
            r.wf(),
            r@ == Map::<u64, User>::empty(),
    {
        AccountStore { records: HashMap::new() }
    }

    /// The record of `user_id`, if there is one.
    pub fn record(&self, user_id: u64) -> (r: Option<User>)
        ensures
            match r {
                Some(u) => self@.contains_key(user_id) && u == self@[user_id],
                None => !self@.contains_key(user_id),
            },
    {
        match self.records.get(&user_id) {
            Some(u) => Some(u.copied()),
            None => None,
        }
    }

    /// The record of `user_id`, created with counters at zero and no linked
    /// account when there is none. Creating is a single step, so two calls
    /// never leave two records.
    pub fn get_or_create(&mut self, user_id: u64) -> (r: User)
        requires
            old(self).wf(),
        ensures
            final(self).wf(),
            final(self)@ == after_get_or_create(old(self)@, user_id),
            r == final(self)@[user_id],
    {
        match self.records.get(&user_id) {
            Some(u) => u.copied(),
            None => {
                let u = User::new(user_id);
                self.records.insert(user_id, User::new(user_id));
                u
            },
        }
    }

    /// Adds one to the command counter of `user_id`; fails when there is no
    /// such record or the counter is at its largest value.
    pub fn increment_command_count(&mut self, user_id: u64) -> (r: Result<(), CommandError>)
        requires
            old(self).wf(),
        ensures
            final(self).wf(),
            final(self)@ == after_increment(old(self)@, user_id),
            r is Ok <==> (old(self)@.contains_key(user_id) && old(self)@[user_id].command_count < u64::MAX),
            r is Err ==> r == Err::<(), CommandError>(CommandError::StorageFailure),
    {
        match self.records.get(&user_id) {
            Some(u) => {
                if u.command_count == u64::MAX {
                    return Err(CommandError::StorageFailure);
                }
                let next = u.with_command_counted();
                self.records.insert(user_id, next);
                Ok(())
            },
            None => Err(CommandError::StorageFailure),
        }
    }

    /// Links `username` to `user_id`; fails when an account is linked
    /// already, or when there is no such record.
    pub fn set_linked_username(&mut self, user_id: u64, username: String) -> (r: Result<(), CommandError>)
        requires
            old(self).wf(),
        ensures
            final(self).wf(),
            !old(self)@.contains_key(user_id) ==> r == Err::<(), CommandError>(CommandError::StorageFailure)
                && final(self)@ == old(self)@,
            old(self)@.contains_key(user_id) && old(self)@[user_id].linked_username is Some ==> r == Err::<
                (),
                CommandError,
            >(CommandError::AlreadyLinkedOrConflict) && final(self)@ == old(self)@,
            old(self)@.contains_key(user_id) && old(self)@[user_id].linked_username is None ==> r is Ok
                && final(self)@ == old(self)@.insert(
                user_id,
                User { linked_username: Some(username), ..old(self)@[user_id] },
            ),
    {
        match self.records.get(&user_id) {
            Some(u) => match u.with_link(username) {
                Ok(next) => {
                    self.records.insert(user_id, next);
                    Ok(())
                },
                Err(e) => Err(e),
            },
            None => Err(CommandError::StorageFailure),
        }
    }

    /// Removes the link of `user_id`; fails when none is linked.
    pub fn clear_linked_username(&mut self, user_id: u64) -> (r: Result<(), CommandError>)
        requires
            old(self).wf(),
        ensures
            final(self).wf(),
            old(self)@.contains_key(user_id) && old(self)@[user_id].linked_username is Some ==> r is Ok
                && final(self)@ == old(self)@.insert(
                user_id,
                User { linked_username: None, ..old(self)@[user_id] },
            ),
            !(old(self)@.contains_key(user_id) && old(self)@[user_id].linked_username is Some) ==> r
                == Err::<(), CommandError>(CommandError::NotLinked) && final(self)@ == old(self)@,
    {
        match self.records.get(&user_id) {
            Some(u) => match u.without_link() {
                Ok(next) => {
                    self.records.insert(user_id, next);
                    Ok(())
                },
                Err(e) => Err(e),
            },
            None => Err(CommandError::NotLinked),
        }
    }

    /// The account linked to `user_id`; fails when there is none.
    pub fn get_linked_username(&self, user_id: u64) -> (r: Result<String, CommandError>)
        ensures
            self@.contains_key(user_id) && self@[user_id].linked_username is Some ==> r == Ok::<
                String,
                CommandError,
            >(self@[user_id].linked_username->0),
            !(self@.contains_key(user_id) && self@[user_id].linked_username is Some) ==> r == Err::<
                String,
                CommandError,
            >(CommandError::NotLinked),
    {
        match self.records.get(&user_id) {
            Some(u) => u.linked(),
            None => Err(CommandError::NotLinked),
        }
    }
}

} // verus!
