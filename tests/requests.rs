use cocoa::error::CommandError;
use cocoa::json::Json;
use cocoa::numeric::{decimal_text, padded_decimal, parse_int, signed_decimal_text};
use cocoa::stats::{answer_body, check_document, decode_response, request_url, Operation, StatsQuery};

#[test]
fn track_lookup_names_its_user_username() {
    assert_eq!(Operation::TrackInfo.subject_param(), "username");
    assert_eq!(Operation::TopArtists.subject_param(), "user");
    assert_eq!(Operation::UserInfo.subject_param(), "user");
    assert_eq!(Operation::RecentTracks.subject_param(), "user");
}

#[test]
fn method_names_follow_the_service() {
    assert_eq!(Operation::UserInfo.method_name(), "user.getInfo");
    assert_eq!(Operation::RecentTracks.method_name(), "user.getRecentTracks");
    assert_eq!(Operation::TopArtists.method_name(), "user.getTopArtists");
    assert_eq!(Operation::TopAlbums.method_name(), "user.getTopAlbums");
    assert_eq!(Operation::TopTracks.method_name(), "user.getTopTracks");
    assert_eq!(Operation::TrackInfo.method_name(), "track.getInfo");
}

#[test]
fn top_artists_url_uses_user_and_limit() {
    let q = StatsQuery::TopArtists { user: String::from("alice"), limit: Some(12) };
    assert_eq!(
        request_url("KEY", &q),
        "https://ws.audioscrobbler.com/2.0?format=json&api_key=KEY&method=user.getTopArtists&user=alice&limit=12"
    );
}

#[test]
fn track_info_url_uses_username() {
    let q = StatsQuery::TrackInfo {
        username: String::from("alice"),
        artist: String::from("Cher"),
        track: String::from("Believe"),
    };
    assert_eq!(
        request_url("KEY", &q),
        "https://ws.audioscrobbler.com/2.0?format=json&api_key=KEY&method=track.getInfo&artist=Cher&track=Believe&username=alice"
    );
}

#[test]
fn profile_url_has_no_limit() {
    let q = StatsQuery::UserInfo { user: String::from("bob") };
    assert_eq!(
        request_url("k", &q),
        "https://ws.audioscrobbler.com/2.0?format=json&api_key=k&method=user.getInfo&user=bob"
    );
    assert_eq!(q.operation(), Operation::UserInfo);
}

#[test]
fn service_error_carries_its_message() {
    let r = decode_response(r#"{"error": 6, "message": "User not found"}"#);
    assert_eq!(r.err(), Some(CommandError::ExternalServiceError(String::from("User not found"))));
}

#[test]
fn service_error_without_message_is_generic() {
    let r = decode_response(r#"{"error": 8}"#);
    assert_eq!(
        r.err(),
        Some(CommandError::ExternalServiceError(String::from("Failed endpoint request.")))
    );
}

#[test]
fn null_error_field_is_no_error() {
    let r = decode_response(r#"{"error": null, "user": {"name": "alice"}}"#);
    assert!(r.is_ok());
}

#[test]
fn unreadable_answer_is_malformed() {
    assert_eq!(decode_response("<html>bad gateway</html>").err(), Some(CommandError::MalformedResponse));
    assert_eq!(decode_response("[1, 2]").err(), Some(CommandError::MalformedResponse));
}

#[test]
fn check_document_passes_a_clean_object() {
    let doc = decode_response(r#"{"a": "b"}"#).unwrap();
    match check_document(doc) {
        Ok(Json::Object(members)) => {
            assert_eq!(members.len(), 1);
            assert_eq!(members[0].0, "a");
        }
        _ => panic!("expected the document back"),
    }
}

#[test]
fn decoding_reads_nested_values() {
    let doc = decode_response(r#"{"list": [1, "two", null, true], "n": 2.5}"#).unwrap();
    let list = doc.get("list").unwrap().as_array().unwrap();
    assert_eq!(list.len(), 4);
    assert!(matches!(&list[0], Json::Number(n) if n == "1"));
    assert!(matches!(&list[1], Json::Str(s) if s == "two"));
    assert!(list[2].is_null());
    assert!(matches!(&list[3], Json::Bool(true)));
    assert!(matches!(doc.get("n"), Some(Json::Number(n)) if n == "2.5"));
    assert_eq!(decode_response("{").err(), Some(CommandError::MalformedResponse));
}

#[test]
fn decimal_writing() {
    assert_eq!(decimal_text(0), "0");
    assert_eq!(decimal_text(1234567890), "1234567890");
    assert_eq!(decimal_text(u64::MAX), "18446744073709551615");
    assert_eq!(padded_decimal(3, 2), " 3");
    assert_eq!(padded_decimal(12, 2), "12");
    assert_eq!(padded_decimal(123, 2), "123");
    assert_eq!(signed_decimal_text(-42), "-42");
    assert_eq!(signed_decimal_text(i64::MIN), "-9223372036854775808");
}

#[test]
fn integer_reading() {
    assert_eq!(parse_int("1700000000"), Some(1700000000));
    assert_eq!(parse_int("-5"), Some(-5));
    assert_eq!(parse_int("+7"), Some(7));
    assert_eq!(parse_int("007"), Some(7));
    assert_eq!(parse_int("9223372036854775807"), Some(i64::MAX));
    assert_eq!(parse_int("-9223372036854775808"), Some(i64::MIN));
    assert_eq!(parse_int("9223372036854775808"), None);
    assert_eq!(parse_int("N/A"), None);
    assert_eq!(parse_int(""), None);
    assert_eq!(parse_int("-"), None);
    assert_eq!(parse_int("12a"), None);
}

#[test]
fn failed_answer_without_body_is_a_transport_failure() {
    assert_eq!(answer_body(false, String::from(" \n\t")), Err(CommandError::TransportFailure));
    assert_eq!(answer_body(false, String::new()), Err(CommandError::TransportFailure));
    assert_eq!(answer_body(false, String::from("{}")), Ok(String::from("{}")));
    assert_eq!(answer_body(true, String::new()), Ok(String::new()));
}
