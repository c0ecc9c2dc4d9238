use cocoa::clock::age_text;
use cocoa::detail::{now_playing_query, render_now_playing, render_profile};
use cocoa::error::CommandError;
use cocoa::json::Json;
use cocoa::stats::decode_response;
use cocoa::render::{render_list, ListKind};
use cocoa::stats::StatsQuery;

fn doc(text: &str) -> Json {
    decode_response(text).expect("test document is a JSON object")
}

const NOW: i64 = 1_700_003_600;

#[test]
fn missing_name_shows_placeholder() {
    let d = doc(r##"{"toptracks": {"track": [
        {"name": "One", "playcount": "50", "artist": {"name": "A"}},
        {"name": "Two", "playcount": "40", "artist": {"name": "B"}},
        {"playcount": "30", "artist": {"name": "C"}},
        {"name": "Four", "playcount": "20", "artist": {"name": "D"}},
        {"name": "Five", "playcount": "10", "artist": {"name": "E"}}
    ], "@attr": {"total": "5"}}}"##);
    let l = render_list(&d, ListKind::TopTracks, 12, NOW).unwrap();
    assert_eq!(l.lines.len(), 5);
    assert_eq!(l.lines[2], "`# 3` **30** plays • **C — ???**");
    assert_eq!(l.lines[0], "`# 1` **50** plays • **A — One**");
    assert_eq!(l.lines[4], "`# 5` **10** plays • **E — Five**");
    assert_eq!(l.description, l.lines.join("\n"));
    assert_eq!(l.footer, Some(String::from("total: 5")));
}

#[test]
fn zero_timestamp_is_now() {
    assert_eq!(age_text(0, NOW), "a moment ago");
    assert_eq!(age_text(0, 0), "a moment ago");
}

#[test]
fn age_of_an_hour() {
    assert_eq!(age_text(NOW - 3600, NOW), "1 hour ago");
    assert_eq!(age_text(NOW - 2 * 86400, NOW), "2 days ago");
}

#[test]
fn recent_three_tracks_in_service_order() {
    let d = doc(r##"{"recenttracks": {"track": [
        {"name": "Now", "artist": {"#text": "A"}, "@attr": {"nowplaying": "true"}, "date": {"uts": "0"}},
        {"name": "Earlier", "artist": {"#text": "B"}, "date": {"uts": "1700000000"}},
        {"name": "Long ago", "artist": {"#text": "C"}, "date": {"uts": "1690000000"}}
    ]}}"##);
    let l = render_list(&d, ListKind::Recent, 3, NOW).unwrap();
    assert_eq!(l.lines.len(), 3);
    assert_eq!(l.lines[0], "`a moment ago` **A — Now**");
    assert_eq!(l.lines[1], "`1 hour ago` **B — Earlier**");
    assert!(l.lines[2].starts_with("`"));
    assert!(l.lines[2].ends_with(" ago` **C — Long ago**"));
    assert!(l.lines[2].contains("month"));
    assert_eq!(l.footer, None);
}

#[test]
fn missing_timestamp_is_now() {
    let d = doc(r##"{"recenttracks": {"track": [{"name": "X", "artist": {"#text": "Y"}}]}}"##);
    let l = render_list(&d, ListKind::Recent, 5, NOW).unwrap();
    assert_eq!(l.lines, vec![String::from("`a moment ago` **Y — X**")]);
}

#[test]
fn top_artists_and_albums_lines() {
    let d = doc(r##"{"topartists": {"artist": [{"name": "Cher", "playcount": "99"}, {"name": "Abba"}]}}"##);
    let l = render_list(&d, ListKind::TopArtists, 12, NOW).unwrap();
    assert_eq!(l.lines, vec![
        String::from("`# 1` **99** plays • **Cher**"),
        String::from("`# 2` **0** plays • **Abba**"),
    ]);
    let d = doc(r##"{"topalbums": {"album": [{"name": "Gold", "playcount": "7", "artist": {"name": "Abba"}}]}}"##);
    let l = render_list(&d, ListKind::TopAlbums, 12, NOW).unwrap();
    assert_eq!(l.lines, vec![String::from("`# 1` **7** plays • **Abba — Gold**")]);
}

#[test]
fn list_is_cut_at_the_limit() {
    let mut items = Vec::new();
    for i in 0..11 {
        items.push(format!(r##"{{"name": "N{}", "playcount": "{}"}}"##, i, 100 - i));
    }
    let text = format!(r##"{{"topartists": {{"artist": [{}]}}}}"##, items.join(","));
    let d = doc(&text);
    let l = render_list(&d, ListKind::TopArtists, 10, NOW).unwrap();
    assert_eq!(l.lines.len(), 10);
    assert_eq!(l.lines[9], "`#10` **91** plays • **N9**");
    let none = render_list(&d, ListKind::TopArtists, 0, NOW).unwrap();
    assert!(none.lines.is_empty());
    assert_eq!(none.description, "");
}

#[test]
fn missing_list_is_an_error() {
    let d = doc(r##"{"toptracks": {"track": "nope"}}"##);
    assert_eq!(render_list(&d, ListKind::TopTracks, 12, NOW).err(), Some(CommandError::ListNotFound));
    let d = doc(r##"{"recenttracks": {}}"##);
    assert_eq!(render_list(&d, ListKind::Recent, 12, NOW).err(), Some(CommandError::ListNotFound));
    let d = doc(r##"{"toptracks": {"track": []}}"##);
    assert_eq!(render_list(&d, ListKind::TopAlbums, 12, NOW).err(), Some(CommandError::ListNotFound));
}

#[test]
fn thumbnail_is_the_largest_picture_of_the_first_item() {
    let d = doc(r##"{"topalbums": {"album": [
        {"name": "G", "image": [{"#text": "s.png", "size": "small"}, {"#text": "xl.png", "size": "extralarge"}]},
        {"name": "H", "image": [{"#text": "other.png"}]}
    ]}}"##);
    let l = render_list(&d, ListKind::TopAlbums, 12, NOW).unwrap();
    assert_eq!(l.thumbnail, "xl.png");
    let d = doc(r##"{"topalbums": {"album": []}}"##);
    let l = render_list(&d, ListKind::TopAlbums, 12, NOW).unwrap();
    assert_eq!(l.thumbnail, "");
    assert!(l.lines.is_empty());
}

#[test]
fn profile_card_after_link() {
    let d = doc(r##"{"user": {"name": "alice", "playcount": "1234", "track_count": "300",
        "album_count": "120", "artist_count": "80", "country": "France",
        "registered": {"unixtime": "1037793040", "#text": 1037793040},
        "image": [{"#text": "a.png"}, {"#text": "b.png"}, {"#text": "c.png"}]}}"##);
    let c = render_profile(&d, String::from("alice"));
    assert_eq!(c.title, "alice");
    assert_eq!(c.scrobbles, "1234 scrobbles");
    assert_eq!(c.counts, "**300** tracks\n**120** albums\n**80** artists");
    assert_eq!(c.registered, "<t:1037793040:R>");
    assert_eq!(c.country, "France");
    assert_eq!(c.thumbnail, "c.png");
}

#[test]
fn profile_card_with_missing_fields() {
    let d = doc(r##"{"user": {"registered": {"unixtime": "soon"}}}"##);
    let c = render_profile(&d, String::from("bob"));
    assert_eq!(c.scrobbles, "0 scrobbles");
    assert_eq!(c.counts, "**0** tracks\n**0** albums\n**0** artists");
    assert_eq!(c.registered, "N/A");
    assert_eq!(c.country, "N/A");
    assert_eq!(c.thumbnail, "");
    let c = render_profile(&doc(r##"{"user": {}}"##), String::from("bob"));
    assert_eq!(c.registered, "a moment ago");
    let c = render_profile(&doc(r##"{"user": {"registered": {"unixtime": "0"}}}"##), String::from("bob"));
    assert_eq!(c.registered, "a moment ago");
}

#[test]
fn now_playing_asks_for_the_latest_track() {
    let d = doc(r##"{"recenttracks": {"track": [{"name": "Believe", "artist": {"#text": "Cher"}}]}}"##);
    let request = now_playing_query(&d, String::from("alice")).unwrap();
    assert_eq!(request.artist, "Cher");
    assert_eq!(request.track, "Believe");
    assert_eq!(request.query, StatsQuery::TrackInfo {
        username: String::from("alice"),
        artist: String::from("Cher"),
        track: String::from("Believe"),
    });
    let empty = doc(r##"{"recenttracks": {"track": []}}"##);
    assert!(matches!(now_playing_query(&empty, String::from("alice")), Err(CommandError::ListNotFound)));
}

#[test]
fn now_playing_card_with_length_and_tags() {
    let d = doc(r##"{"track": {"duration": "239000", "userplaycount": "17",
        "album": {"title": "Believe", "image": [{"#text": "s.png"}, {"#text": "l.png"}]},
        "toptags": {"tag": [{"name": "pop"}, {"url": "x"}, {"name": "dance"}]}}}"##);
    let c = render_now_playing("Cher", "Believe", &d);
    assert_eq!(c.title, "Cher — Believe `[3:59]`");
    assert_eq!(c.description, ":cd: Believe\n> 17 plays");
    assert_eq!(c.thumbnail, "l.png");
    assert_eq!(c.footer, "pop, ???, dance");
}

#[test]
fn zero_length_track_has_no_length() {
    let d = doc(r##"{"track": {"duration": "0", "toptags": {"tag": []}}}"##);
    let c = render_now_playing("A", "B", &d);
    assert_eq!(c.title, "A — B");
    assert_eq!(c.description, ":cd: N/A\n> 0 plays");
    assert_eq!(c.footer, "");
    let d = doc(r##"{"track": {"toptags": {"tag": []}}}"##);
    assert_eq!(render_now_playing("A", "B", &d).title, "A — B");
}

#[test]
fn now_playing_without_tags_has_an_empty_footer() {
    let d = doc(r##"{"track": {"duration": "61000", "toptags": "none"}}"##);
    let c = render_now_playing("A", "B", &d);
    assert_eq!(c.footer, "");
    assert_eq!(c.title, "A — B `[1:1]`");
    let c = render_now_playing("A", "B", &doc(r##"{"track": {}}"##));
    assert_eq!(c.footer, "");
    assert_eq!(c.thumbnail, "");
}

#[test]
fn future_or_unrepresentable_time_is_unknown() {
    assert_eq!(age_text(NOW + 60, NOW), "???");
    assert_eq!(age_text(i64::MAX, NOW), "???");
    assert_eq!(age_text(-8_334_601_228_800, -8_334_601_228_800 + 60), "1 minute ago");
    assert_eq!(age_text(-8_334_601_228_801, NOW), "???");
    assert_eq!(age_text(8_210_266_876_799 - 60, 8_210_266_876_799), "1 minute ago");
    assert_eq!(age_text(NOW, 8_210_266_876_800), "???");
}
