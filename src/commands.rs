//! The bodies of the bot's commands, between the user's record, the
//! statistics service and what is shown.

use vstd::prelude::*;
use crate::clock::now_unix;
use crate::error::CommandError;
use crate::json::{Json, json_document};
use crate::numeric::{decimal, decimal_text};
use crate::render::{list_items, list_operation, render_list, renders, ListKind, RenderedList};
use crate::stats::{checked, decode_response, reports_error, StatsQuery, Operation};
use crate::store::User;

verus! {

/// How many items a list shows when the user asks for no number.
pub const DEFAULT_LIMIT: u32 = 12;

/// The size of a list: the number asked for, or the default.
pub open spec fn limit_of(count: Option<u32>) -> u32 {
    match count {
        Some(n) => n,
        None => DEFAULT_LIMIT,
    }
}

/// The size of a list: the number asked for, or the default.
pub fn list_limit(count: Option<u32>) -> (r: u32)
    ensures
        r == limit_of(count),
{
    match count {
        Some(n) => n,
        None => DEFAULT_LIMIT,
    }
}

/// The request for a list of the linked account of `user`, of `count` items
/// or the default number; fails when no account is linked.
pub fn list_query(kind: ListKind, user: &User, count: Option<u32>) -> (r: Result<StatsQuery, CommandError>)
    ensures
        match user.linked_username {
            None => r == Err::<StatsQuery, CommandError>(CommandError::NotLinked),
            Some(name) => r matches Ok(q) && q.operation_spec() == list_operation(kind) && q.subject_spec()
                == name@ && q.limit_spec() == Some(limit_of(count)),
        },
{
    let name = match user.linked() {
        Ok(name) => name,
        Err(e) => return Err(e),
    };
    Ok(kind.query(name, list_limit(count)))
}

/// The request for the profile of the linked account of `user`, or for its
/// latest tracks when `latest` (the first step of showing what it plays);
/// fails when no account is linked.
pub fn account_query(user: &User, latest: bool) -> (r: Result<StatsQuery, CommandError>)
    ensures
        match user.linked_username {
            None => r == Err::<StatsQuery, CommandError>(CommandError::NotLinked),
            Some(name) => r matches Ok(q) && q.subject_spec() == name@ && if latest {
                q.operation_spec() == Operation::RecentTracks && q.limit_spec() == Some(1u32)
            } else {
                q.operation_spec() == Operation::UserInfo
            },
        },
{
    let name = match user.linked() {
        Ok(name) => name,
        Err(e) => return Err(e),
    };
    if latest {
        Ok(StatsQuery::RecentTracks { user: name, limit: Some(1) })
    } else {
        Ok(StatsQuery::UserInfo { user: name })
    }
}

/// Renders a list as of the current time.
pub fn render_list_now(doc: &Json, kind: ListKind, limit: usize) -> (r: Result<RenderedList, CommandError>)
    ensures
        match list_items(*doc, kind) {
            None => r == Err::<RenderedList, CommandError>(CommandError::ListNotFound),
            Some(items) => r matches Ok(l) && exists|now: i64| renders(l, *doc, kind, items, limit as nat, now as int),
        },
{
    let now = now_unix();
    render_list(doc, kind, limit, now)
}

/// Whether the body of an answer holds a document that reports no error.
pub open spec fn answer_ok(body: Seq<char>) -> bool {
    match json_document(body) {
        Some(doc) => doc is Object && !reports_error(doc),
        None => false,
    }
}

/// Links `username` to `user`, given the body of the service's answer to a
/// profile request for that name: the link is made only when the answer
/// reports no error, and only when `user` has no linked account yet.
pub fn link_account(user: &User, username: String, profile_answer: &str) -> (r: Result<User, CommandError>)
    ensures
        r is Ok <==> (answer_ok(profile_answer@) && user.linked_username is None),
        r matches Ok(u) ==> u == (User { linked_username: Some(username), ..*user }),
        !answer_ok(profile_answer@) ==> match json_document(profile_answer@) {
            None => r == Err::<User, CommandError>(CommandError::MalformedResponse),
            Some(doc) => checked(doc, match r { Ok(_) => Ok(doc), Err(e) => Err(e) }),
        },
        answer_ok(profile_answer@) && user.linked_username is Some ==> r == Err::<User, CommandError>(
            CommandError::AlreadyLinkedOrConflict,
        ),
{
    match decode_response(profile_answer) {
        Err(e) => Err(e),
        Ok(_) => user.with_link(username),
    }
}

/// The reply to a user asking how many commands they used.
pub open spec fn commands_text(u: User) -> Seq<char> {
    "you've used "@ + decimal(u.command_count as nat) + " commands!"@
}

/// Says how many commands `user` used.
pub fn commands_reply(user: &User) -> (r: String)
    ensures
        r@ == commands_text(*user),
{
    let mut s = String::from_str("you've used ");
    s.append(decimal_text(user.command_count).as_str());
    s.append(" commands!");
    s
}

/// A user's counters, as shown on their profile.
pub struct UserCard {
    pub commands: String,
    pub pieces: String,
    pub level: String,
}

/// The counters of `user` in decimal.
pub fn user_card(user: &User) -> (r: UserCard)
    ensures
        r.commands@ == decimal(user.command_count as nat),
        r.pieces@ == decimal(user.currency as nat),
        r.level@ == decimal(user.experience as nat),
{
    UserCard {
        commands: decimal_text(user.command_count),
        pieces: decimal_text(user.currency),
        level: decimal_text(user.experience),
    }
}

} // verus!
