use cocoa::commands::{account_query, commands_reply, link_account, list_limit, list_query, user_card, DEFAULT_LIMIT};
use cocoa::error::CommandError;
use cocoa::invocation::{Action, Event, Invocation, Phase};
use cocoa::detail::render_profile;
use cocoa::render::ListKind;
use cocoa::stats::{decode_response, request_url, StatsQuery};
use cocoa::store::{link_written, unlink_written, AccountStore, User};

#[test]
fn get_or_create_twice_keeps_one_record() {
    let mut store = AccountStore::new();
    let first = store.get_or_create(42);
    assert_eq!(first, User::new(42));
    store.increment_command_count(42).unwrap();
    let second = store.get_or_create(42);
    assert_eq!(second.command_count, 1);
    assert_eq!(store.record(42), Some(second));
    assert_eq!(store.record(7), None);
}

#[test]
fn increments_add_up_across_users() {
    let mut store = AccountStore::new();
    store.get_or_create(1);
    store.get_or_create(2);
    for i in 0..10 {
        store.increment_command_count(1).unwrap();
        if i % 3 == 0 {
            store.increment_command_count(2).unwrap();
        }
    }
    assert_eq!(store.record(1).unwrap().command_count, 10);
    assert_eq!(store.record(2).unwrap().command_count, 4);
    assert_eq!(store.increment_command_count(3), Err(CommandError::StorageFailure));
}

#[test]
fn counter_at_its_largest_is_not_wrapped() {
    let mut u = User::new(5);
    u.command_count = u64::MAX;
    assert_eq!(u.with_command_counted().command_count, u64::MAX);
}

#[test]
fn failed_command_is_not_counted() {
    let mut store = AccountStore::new();
    let (inv, action) = Invocation::start(9);
    assert_eq!(action, Action::ResolveUser(9));
    let user = store.get_or_create(9);
    let (inv, action) = inv.step(Event::Resolved(user.clone()));
    assert_eq!(inv.phase, Phase::Resolved);
    assert_eq!(action, Action::RunCommand(user));
    let (inv, _) = inv.step(Event::Started);
    assert_eq!(inv.phase, Phase::Executing);
    let (inv, action) = inv.step(Event::Finished(Err(CommandError::TransportFailure)));
    assert_eq!(inv.phase, Phase::Failed);
    assert_eq!(action, Action::ReportError(CommandError::TransportFailure));
    let (inv, action) = inv.step(Event::Finished(Ok(())));
    assert_eq!(inv.phase, Phase::Failed);
    assert_eq!(action, Action::Idle);
    assert_eq!(store.record(9).unwrap().command_count, 0);
}

#[test]
fn completed_command_is_counted_once() {
    let mut store = AccountStore::new();
    let (inv, _) = Invocation::start(3);
    let user = store.get_or_create(3);
    let (inv, _) = inv.step(Event::Resolved(user));
    let (inv, _) = inv.step(Event::Started);
    let (inv, action) = inv.step(Event::Finished(Ok(())));
    assert_eq!(inv.phase, Phase::Completed);
    assert_eq!(action, Action::CountCommand(3));
    store.increment_command_count(3).unwrap();
    let (_, again) = inv.step(Event::Finished(Ok(())));
    assert_eq!(again, Action::Idle);
    assert_eq!(store.record(3).unwrap().command_count, 1);
}

#[test]
fn phases_are_not_skipped() {
    let (inv, _) = Invocation::start(1);
    let (same, action) = inv.step(Event::Finished(Ok(())));
    assert_eq!(same.phase, Phase::Pending);
    assert_eq!(action, Action::Idle);
    let (same, _) = inv.step(Event::Started);
    assert_eq!(same.phase, Phase::Pending);
    let (same, _) = inv.step(Event::Resolved(User::new(2)));
    assert_eq!(same.phase, Phase::Pending);
}

#[test]
fn unlink_without_link_fails_and_is_not_counted() {
    let mut store = AccountStore::new();
    let (inv, _) = Invocation::start(11);
    let user = store.get_or_create(11);
    let (inv, _) = inv.step(Event::Resolved(user.clone()));
    let (inv, _) = inv.step(Event::Started);
    let outcome = store.clear_linked_username(11);
    assert_eq!(outcome, Err(CommandError::NotLinked));
    assert_eq!(user.without_link(), Err(CommandError::NotLinked));
    let (inv, action) = inv.step(Event::Finished(outcome));
    assert_eq!(inv.phase, Phase::Failed);
    assert_eq!(action, Action::ReportError(CommandError::NotLinked));
    assert_eq!(store.record(11).unwrap().command_count, 0);
}

#[test]
fn link_needs_a_clean_profile_answer() {
    let user = User::new(1);
    let ok = link_account(&user, String::from("alice"), r#"{"user": {"name": "alice"}}"#).unwrap();
    assert_eq!(ok.linked_username, Some(String::from("alice")));
    assert_eq!(ok.command_count, 0);
    let missing = link_account(&user, String::from("ghost"), r#"{"error": 6, "message": "User not found"}"#);
    assert_eq!(missing, Err(CommandError::ExternalServiceError(String::from("User not found"))));
    let again = link_account(&ok, String::from("bob"), r#"{"user": {}}"#);
    assert_eq!(again, Err(CommandError::AlreadyLinkedOrConflict));
    assert_eq!(link_account(&user, String::from("x"), "oops"), Err(CommandError::MalformedResponse));
}

#[test]
fn store_links_and_unlinks() {
    let mut store = AccountStore::new();
    assert_eq!(store.set_linked_username(1, String::from("a")), Err(CommandError::StorageFailure));
    store.get_or_create(1);
    assert_eq!(store.get_linked_username(1), Err(CommandError::NotLinked));
    store.set_linked_username(1, String::from("alice")).unwrap();
    assert_eq!(store.get_linked_username(1), Ok(String::from("alice")));
    assert_eq!(
        store.set_linked_username(1, String::from("bob")),
        Err(CommandError::AlreadyLinkedOrConflict)
    );
    store.clear_linked_username(1).unwrap();
    assert_eq!(store.get_linked_username(1), Err(CommandError::NotLinked));
    assert_eq!(store.clear_linked_username(1), Err(CommandError::NotLinked));
}

#[test]
fn queries_need_a_linked_account() {
    let user = User::new(1);
    assert_eq!(list_query(ListKind::Recent, &user, Some(3)), Err(CommandError::NotLinked));
    assert_eq!(account_query(&user, false), Err(CommandError::NotLinked));
    let linked = user.with_link(String::from("alice")).unwrap();
    assert_eq!(
        list_query(ListKind::Recent, &linked, Some(3)),
        Ok(StatsQuery::RecentTracks { user: String::from("alice"), limit: Some(3) })
    );
    assert_eq!(
        list_query(ListKind::TopAlbums, &linked, None),
        Ok(StatsQuery::TopAlbums { user: String::from("alice"), limit: Some(DEFAULT_LIMIT) })
    );
    assert_eq!(account_query(&linked, false), Ok(StatsQuery::UserInfo { user: String::from("alice") }));
    assert_eq!(
        account_query(&linked, true),
        Ok(StatsQuery::RecentTracks { user: String::from("alice"), limit: Some(1) })
    );
}

#[test]
fn usage_replies() {
    let mut u = User::new(1);
    u.command_count = 27;
    u.currency = 5;
    u.experience = 3;
    assert_eq!(commands_reply(&u), "you've used 27 commands!");
    let c = user_card(&u);
    assert_eq!(c.commands, "27");
    assert_eq!(c.pieces, "5");
    assert_eq!(c.level, "3");
    assert_eq!(CommandError::NotLinked.message(), "You don't have a LastFM account linked.");
    assert_eq!(
        CommandError::ExternalServiceError(String::from("Track not found")).message(),
        "Track not found"
    );
}

#[test]
fn link_then_profile_end_to_end() {
    let mut store = AccountStore::new();
    let user = store.get_or_create(77);
    let check = StatsQuery::UserInfo { user: String::from("alice") };
    assert_eq!(
        request_url("K", &check),
        "https://ws.audioscrobbler.com/2.0?format=json&api_key=K&method=user.getInfo&user=alice"
    );
    let answer = r#"{"user": {"name": "alice", "playcount": "10", "track_count": "4",
        "album_count": "3", "artist_count": "2", "registered": {"unixtime": "1600000000"}}}"#;
    let linked = link_account(&user, String::from("alice"), answer).unwrap();
    store.set_linked_username(77, linked.linked_username.clone().unwrap()).unwrap();
    let user = store.get_or_create(77);
    assert_eq!(user, linked);
    let query = account_query(&user, false).unwrap();
    assert_eq!(query, check);
    let doc = decode_response(answer).unwrap();
    let card = render_profile(&doc, user.linked().unwrap());
    assert_eq!(card.title, "alice");
    assert_eq!(card.scrobbles, "10 scrobbles");
    assert_eq!(card.counts, "**4** tracks\n**3** albums\n**2** artists");
    assert_eq!(card.registered, "<t:1600000000:R>");
    assert_eq!(card.country, "N/A");
}

#[test]
fn conditional_writes_map_to_errors() {
    assert_eq!(link_written(1), Ok(()));
    assert_eq!(link_written(0), Err(CommandError::AlreadyLinkedOrConflict));
    assert_eq!(unlink_written(1), Ok(()));
    assert_eq!(unlink_written(0), Err(CommandError::NotLinked));
}

#[test]
fn list_size_defaults_to_twelve() {
    assert_eq!(list_limit(None), 12);
    assert_eq!(list_limit(Some(3)), 3);
}
