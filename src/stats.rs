//! Requests to the statistics service: which operation, about whom, and how
//! its answer is checked.

use vstd::prelude::*;
use crate::error::CommandError;
use crate::json::{Json, json_document, parse_json, text_or};
use crate::numeric::{decimal, decimal_text};

verus! {

/// The operations of the statistics service that the bot uses.
#[derive(PartialEq, Eq, Structural, Clone, Copy, Debug)]
pub enum Operation {
    UserInfo,
    RecentTracks,
    TopArtists,
    TopAlbums,
    TopTracks,
    TrackInfo,
}

/// The service's name for an operation.
pub open spec fn method_spec(op: Operation) -> Seq<char> {
    match op {
        Operation::UserInfo => "user.getInfo"@,
        Operation::RecentTracks => "user.getRecentTracks"@,
        Operation::TopArtists => "user.getTopArtists"@,
        Operation::TopAlbums => "user.getTopAlbums"@,
        Operation::TopTracks => "user.getTopTracks"@,
        Operation::TrackInfo => "track.getInfo"@,
    }
}

/// The name of the parameter that carries the user: `username` for a track
/// lookup, `user` for the others.
pub open spec fn subject_param_spec(op: Operation) -> Seq<char> {
    match op {
        Operation::TrackInfo => "username"@,
        _ => "user"@,
    }
}

impl Operation {
    /// The service's name for this operation.
    pub fn method_name(&self) -> (r: &'static str)
        ensures
            r@ == method_spec(*self),
    {
        match self {
            Operation::UserInfo => "user.getInfo",
            Operation::RecentTracks => "user.getRecentTracks",
            Operation::TopArtists => "user.getTopArtists",
            Operation::TopAlbums => "user.getTopAlbums",
            Operation::TopTracks => "user.getTopTracks",
            Operation::TrackInfo => "track.getInfo",
        }
    }

    /// The name of the parameter that carries the user.
    pub fn subject_param(&self) -> (r: &'static str)
        ensures
            r@ == subject_param_spec(*self),
    {
        match self {
            Operation::TrackInfo => "username",
            _ => "user",
        }
    }
}

/// One request: an operation with its subject and, for lists, a size limit.
#[derive(Clone, Debug, PartialEq, Eq)]
pub enum StatsQuery {
    UserInfo { user: String },
    RecentTracks { user: String, limit: Option<u32> },
    TopArtists { user: String, limit: Option<u32> },
    TopAlbums { user: String, limit: Option<u32> },
    TopTracks { user: String, limit: Option<u32> },
    /// A track, looked up for the play counts of `username`.
    TrackInfo { username: String, artist: String, track: String },
}

impl StatsQuery {
    /// The operation this request asks for.
    pub open spec fn operation_spec(self) -> Operation {
        match self {
            StatsQuery::UserInfo { .. } => Operation::UserInfo,
            StatsQuery::RecentTracks { .. } => Operation::RecentTracks,
            StatsQuery::TopArtists { .. } => Operation::TopArtists,
            StatsQuery::TopAlbums { .. } => Operation::TopAlbums,
            StatsQuery::TopTracks { .. } => Operation::TopTracks,
            StatsQuery::TrackInfo { .. } => Operation::TrackInfo,
        }
    }

    /// The user the request is about.
    pub open spec fn subject_spec(self) -> Seq<char> {
        match self {
            StatsQuery::UserInfo { user } => user@,
            StatsQuery::RecentTracks { user, .. } => user@,
            StatsQuery::TopArtists { user, .. } => user@,
            StatsQuery::TopAlbums { user, .. } => user@,
            StatsQuery::TopTracks { user, .. } => user@,
            StatsQuery::TrackInfo { username, .. } => username@,
        }
    }

    /// The size limit of a list request.
    pub open spec fn limit_spec(self) -> Option<u32> {
        match self {
            StatsQuery::RecentTracks { limit, .. } => limit,
            StatsQuery::TopArtists { limit, .. } => limit,
            StatsQuery::TopAlbums { limit, .. } => limit,
            StatsQuery::TopTracks { limit, .. } => limit,
            _ => None,
        }
    }

    /// The operation this request asks for.
    pub fn operation(&self) -> (r: Operation)
        ensures
            r == self.operation_spec(),
    {
        match self {
            StatsQuery::UserInfo { .. } => Operation::UserInfo,
            StatsQuery::RecentTracks { .. } => Operation::RecentTracks,
            StatsQuery::TopArtists { .. } => Operation::TopArtists,
            StatsQuery::TopAlbums { .. } => Operation::TopAlbums,
            StatsQuery::TopTracks { .. } => Operation::TopTracks,
            StatsQuery::TrackInfo { .. } => Operation::TrackInfo,
        }
    }
}

/// The address of the service's endpoint, up to the key.
pub open spec fn endpoint_prefix() -> Seq<char> {
    "https://ws.audioscrobbler.com/2.0?format=json&api_key="@
}

/// The parameters that name a track, for a track lookup.
pub open spec fn track_params(q: StatsQuery) -> Seq<char> {
    match q {
        StatsQuery::TrackInfo { artist, track, .. } => "&artist="@ + artist@ + "&track="@ + track@,
        _ => Seq::empty(),
    }
}

/// The size-limit parameter, when the request has a limit.
pub open spec fn limit_param(q: StatsQuery) -> Seq<char> {
    match q.limit_spec() {
        Some(n) => "&limit="@ + decimal(n as nat),
        None => Seq::empty(),
    }
}

/// The full address of a request.
pub open spec fn request_url_spec(api_key: Seq<char>, q: StatsQuery) -> Seq<char> {
    endpoint_prefix() + api_key + "&method="@ + method_spec(q.operation_spec()) + track_params(q)
        + "&"@ + subject_param_spec(q.operation_spec()) + "="@ + q.subject_spec() + limit_param(q)
}

/// Builds the address of a request: key, operation, the track for a track
/// lookup, the user under the operation's parameter name, then the limit.
pub fn request_url(api_key: &str, query: &StatsQuery) -> (r: String)
    ensures
        r@ == request_url_spec(api_key@, *query),
{
    let op = query.operation();
    let mut url = String::from_str("https://ws.audioscrobbler.com/2.0?format=json&api_key=");
    url.append(api_key);
    url.append("&method=");
    url.append(op.method_name());
    let ghost head = url@;
    match query {
        StatsQuery::TrackInfo { artist, track, .. } => {
            url.append("&artist=");
            url.append(artist.as_str());
            url.append("&track=");
            url.append(track.as_str());
        },
        _ => {},
    }
    assert(url@ =~= head + track_params(*query));
    let ghost mid = url@;
    url.append("&");
    url.append(op.subject_param());
    url.append("=");
    let subject: &String = match query {
        StatsQuery::UserInfo { user } => user,
        StatsQuery::RecentTracks { user, .. } => user,
        StatsQuery::TopArtists { user, .. } => user,
        StatsQuery::TopAlbums { user, .. } => user,
        StatsQuery::TopTracks { user, .. } => user,
        StatsQuery::TrackInfo { username, .. } => username,
    };
    url.append(subject.as_str());
    let ghost tail = url@;
    let limit: Option<u32> = match query {
        StatsQuery::RecentTracks { limit, .. } => *limit,
        StatsQuery::TopArtists { limit, .. } => *limit,
        StatsQuery::TopAlbums { limit, .. } => *limit,
        StatsQuery::TopTracks { limit, .. } => *limit,
        _ => None,
    };
    match limit {
        Some(n) => {
            url.append("&limit=");
            let digits = decimal_text(n as u64);
            url.append(digits.as_str());
        },
        None => {},
    }
    assert(url@ =~= tail + limit_param(*query));
    assert(url@ =~= request_url_spec(api_key@, *query));
    url
}

/// Whether a character is ASCII white space.
pub open spec fn is_space(c: char) -> bool {
    c == ' ' || c == '\t' || c == '\n' || c == '\r'
}

/// Whether a text holds nothing but white space.
pub open spec fn is_blank(s: Seq<char>) -> bool {
    forall|i: int| 0 <= i < s.len() ==> is_space(#[trigger] s[i])
}

/// The body of an HTTP answer, or a transport failure where the answer is
/// not a success and brings no body to read an error from.
pub fn answer_body(success: bool, body: String) -> (r: Result<String, CommandError>)
    ensures
        !success && is_blank(body@) ==> r == Err::<String, CommandError>(CommandError::TransportFailure),
        !(!success && is_blank(body@)) ==> r == Ok::<String, CommandError>(body),
{
    if success {
        return Ok(body);
    }
    let n = body.as_str().unicode_len();
    let mut i: usize = 0;
    while i < n
        invariant
            i <= n,
            n == body@.len(),
            forall|j: int| 0 <= j < i ==> is_space(#[trigger] body@[j]),
        decreases n - i,
    {
        let c = body.as_str().get_char(i);
        if !(c == ' ' || c == '\t' || c == '\n' || c == '\r') {
            return Ok(body);
        }
        i = i + 1;
    }
    Err(CommandError::TransportFailure)
}

/// Whether the document reports an error: a top-level `error` that is not
/// null.
pub open spec fn reports_error(doc: Json) -> bool {
    match doc.member("error"@) {
        Some(e) => !(e is Null),
        None => false,
    }
}

/// The text shown when the service reports an error without a message.
pub open spec fn generic_service_error() -> Seq<char> {
    "Failed endpoint request."@
}

/// The outcome of checking a decoded document: a document that is no
/// object is malformed, one that reports an error fails with the service's
/// message, any other is the answer.
pub open spec fn checked(doc: Json, r: Result<Json, CommandError>) -> bool {
    if !(doc is Object) {
        r == Err::<Json, CommandError>(CommandError::MalformedResponse)
    } else if reports_error(doc) {
        r matches Err(CommandError::ExternalServiceError(m))
            && m@ == text_or(doc.member("message"@), generic_service_error())
    } else {
        r == Ok::<Json, CommandError>(doc)
    }
}

/// Checks a decoded answer of the service for a reported error.
pub fn check_document(doc: Json) -> (r: Result<Json, CommandError>)
    ensures
        checked(doc, r),
{
    let is_object = match doc {
        Json::Object(_) => true,
        _ => false,
    };
    if !is_object {
        return Err(CommandError::MalformedResponse);
    }
    let failed = match doc.get("error") {
        Some(e) => !e.is_null(),
        None => false,
    };
    if failed {
        let m = crate::json::text_or_else(doc.get("message"), "Failed endpoint request.");
        Err(CommandError::ExternalServiceError(m))
    } else {
        Ok(doc)
    }
}

/// Decodes the body of an answer of the service and checks it.
pub fn decode_response(body: &str) -> (r: Result<Json, CommandError>)
    ensures
        match json_document(body@) {
            None => r == Err::<Json, CommandError>(CommandError::MalformedResponse),
            Some(doc) => checked(doc, r),
        },
{
    match parse_json(body) {
        None => Err(CommandError::MalformedResponse),
        Some(doc) => check_document(doc),
    }
}

} // verus!
