//! Single-item views: a user's statistics profile and the track they play
//! now. Missing fields show placeholders, as in lists.

use vstd::prelude::*;
use crate::clock::now_sentinel;
use crate::error::CommandError;
use crate::json::{Json, member2, member3, largest_image, largest_image_text, text_of, text_or, text_or_else};
use crate::numeric::{
    decimal, decimal_text, int_value, lemma_int_value_of_signed_decimal, parse_int, signed_decimal,
    signed_decimal_text,
};
use crate::render::{join_with, list_items, name_of, unknown, ListKind};
use crate::stats::StatsQuery;

verus! {

/// The placeholder for a missing country, album or registration.
pub open spec fn not_available() -> Seq<char> {
    "N/A"@
}

/// A member of the `user` object of a profile answer, or `fallback`.
pub open spec fn user_field(doc: Json, key: Seq<char>, fallback: Seq<char>) -> Seq<char> {
    text_or(member2(doc, "user"@, key), fallback)
}

/// A count of the `user` object, or `0`.
pub open spec fn user_count(doc: Json, key: Seq<char>) -> Seq<char> {
    user_field(doc, key, "0"@)
}

/// The registration, from `user.registered.unixtime`: a chat timestamp that
/// shows its age; the now sentinel for a zero or missing time stamp, never
/// an age counted from the epoch; the placeholder when it is no integer.
pub open spec fn registered_label(doc: Json) -> Seq<char> {
    match int_value(text_or(member3(doc, "user"@, "registered"@, "unixtime"@), "0"@)) {
        Some(v) => if v == 0 {
            now_sentinel()
        } else {
            "<t:"@ + signed_decimal(v) + ":R>"@
        },
        None => not_available(),
    }
}

/// A registration time that the service writes as the plain decimal text of
/// a non-zero integer shows as a chat timestamp holding that same text.
pub proof fn lemma_registered_shows_service_text(doc: Json, v: i64)
    requires
        v != 0,
        text_of(member3(doc, "user"@, "registered"@, "unixtime"@)) == Some(signed_decimal(v as int)),
    ensures
        registered_label(doc) == "<t:"@ + signed_decimal(v as int) + ":R>"@,
{
    lemma_int_value_of_signed_decimal(v);
}

/// The profile of a linked user, as shown.
pub struct ProfileCard {
    pub title: String,
    pub thumbnail: String,
    /// "N scrobbles".
    pub scrobbles: String,
    /// The track, album and artist counts, one per line.
    pub counts: String,
    pub registered: String,
    pub country: String,
}

/// `c` shows the profile answer `doc` of `username`.
pub open spec fn shows_profile(c: ProfileCard, doc: Json, username: Seq<char>) -> bool {
    &&& c.title@ == username
    &&& c.thumbnail@ == largest_image(member2(doc, "user"@, "image"@))
    &&& c.scrobbles@ == user_count(doc, "playcount"@) + " scrobbles"@
    &&& c.counts@ == "**"@ + user_count(doc, "track_count"@) + "** tracks\n**"@ + user_count(
        doc,
        "album_count"@,
    ) + "** albums\n**"@ + user_count(doc, "artist_count"@) + "** artists"@
    &&& c.registered@ == registered_label(doc)
    &&& c.country@ == user_field(doc, "country"@, not_available())
}

/// A member of the `user` object, or `fallback`.
fn user_text(doc: &Json, key: &str, fallback: &str) -> (r: String)
    ensures
        r@ == user_field(*doc, key@, fallback@),
{
    text_or_else(doc.get2("user", key), fallback)
}

/// Renders the answer to a profile request for `username`.
pub fn render_profile(doc: &Json, username: String) -> (r: ProfileCard)
    ensures
        shows_profile(r, *doc, username@),
{
    let mut scrobbles = user_text(doc, "playcount", "0");
    scrobbles.append(" scrobbles");
    let mut counts = String::from_str("**");
    counts.append(user_text(doc, "track_count", "0").as_str());
    counts.append("** tracks\n**");
    counts.append(user_text(doc, "album_count", "0").as_str());
    counts.append("** albums\n**");
    counts.append(user_text(doc, "artist_count", "0").as_str());
    counts.append("** artists");
    let stamp = text_or_else(doc.get3("user", "registered", "unixtime"), "0");
    proof {
        reveal_strlit("a moment ago");
    }
    let registered = match parse_int(stamp.as_str()) {
        Some(0) => String::from_str("a moment ago"),
        Some(v) => {
            let mut s = String::from_str("<t:");
            s.append(signed_decimal_text(v).as_str());
            s.append(":R>");
            s
        },
        None => String::from_str("N/A"),
    };
    let card = ProfileCard {
        title: username,
        thumbnail: largest_image_text(doc.get2("user", "image")),
        scrobbles,
        counts,
        registered,
        country: user_text(doc, "country", "N/A"),
    };
    assert(card.counts@ =~= "**"@ + user_count(*doc, "track_count"@) + "** tracks\n**"@ + user_count(
        *doc,
        "album_count"@,
    ) + "** albums\n**"@ + user_count(*doc, "artist_count"@) + "** artists"@);
    assert(card.scrobbles@ =~= user_count(*doc, "playcount"@) + " scrobbles"@);
    card
}

/// The artist and the name of the latest track in an answer to a recent
/// tracks request.
pub open spec fn latest_track(recent: Json) -> Option<(Seq<char>, Seq<char>)> {
    match list_items(recent, ListKind::Recent) {
        Some(items) => if items.len() > 0 {
            Some((text_or(member2(items[0], "artist"@, "#text"@), unknown()), name_of(items[0])))
        } else {
            None
        },
        None => None,
    }
}

/// The request for the details of a track, with the track it names.
pub struct TrackRequest {
    pub query: StatsQuery,
    pub artist: String,
    pub track: String,
}

/// The request for the details of the latest track in `recent`, with the
/// play counts of `username`; fails when the answer lists no track.
pub fn now_playing_query(recent: &Json, username: String) -> (r: Result<TrackRequest, CommandError>)
    ensures
        match latest_track(*recent) {
            None => r == Err::<TrackRequest, CommandError>(CommandError::ListNotFound),
            Some((a, t)) => r matches Ok(req) && {
                &&& req.artist@ == a
                &&& req.track@ == t
                &&& req.query is TrackInfo
                &&& req.query->username@ == username@
                &&& req.query->artist@ == a
                &&& req.query->track@ == t
            },
        },
{
    let items = match recent.get2("recenttracks", "track") {
        Some(l) => match l.as_array() {
            Some(items) => items,
            None => return Err(CommandError::ListNotFound),
        },
        None => return Err(CommandError::ListNotFound),
    };
    if items.len() == 0 {
        return Err(CommandError::ListNotFound);
    }
    let first = &items[0];
    let artist = text_or_else(first.get2("artist", "#text"), "???");
    let track = text_or_else(first.get("name"), "???");
    let query = StatsQuery::TrackInfo { username, artist: artist.clone(), track: track.clone() };
    Ok(TrackRequest { query, artist, track })
}

/// The names of a track's tags, each or the placeholder.
pub open spec fn tag_names(tags: Seq<Json>) -> Seq<Seq<char>> {
    Seq::new(tags.len(), |i: int| text_or(tags[i].member("name"@), unknown()))
}

/// The length suffix of a title, from a duration in milliseconds: minutes
/// and seconds for a positive duration, nothing for a zero, missing or
/// unreadable one.
pub open spec fn duration_suffix(duration: Option<int>) -> Seq<char> {
    match duration {
        Some(ms) => if ms > 0 {
            " `["@ + decimal((ms / 60000) as nat) + ":"@ + decimal(((ms % 60000) / 1000) as nat) + "]`"@
        } else {
            Seq::empty()
        },
        None => Seq::empty(),
    }
}

/// The track that a user plays now, as shown.
pub struct NowPlayingCard {
    /// Artist, name and length.
    pub title: String,
    /// Album and the user's play count.
    pub description: String,
    pub thumbnail: String,
    /// The track's tags.
    pub footer: String,
}

/// `c` shows the track details `detail` of `artist`'s `track`.
pub open spec fn shows_track(c: NowPlayingCard, artist: Seq<char>, track: Seq<char>, detail: Json, tags: Seq<Json>) -> bool {
    let duration = int_value(text_or(member2(detail, "track"@, "duration"@), not_available()));
    let plays = match int_value(text_or(member2(detail, "track"@, "userplaycount"@), "0"@)) {
        Some(v) => signed_decimal(v),
        None => "0"@,
    };
    &&& c.title@ == artist + " — "@ + track + duration_suffix(duration)
    &&& c.description@ == ":cd: "@ + text_or(member3(detail, "track"@, "album"@, "title"@), not_available())
        + "\n> "@ + plays + " plays"@
    &&& c.thumbnail@ == largest_image(member3(detail, "track"@, "album"@, "image"@))
    &&& c.footer@ == join_with(tag_names(tags), ", "@)
}

/// The tags of the track in a track details answer; none when the answer
/// holds no list of them.
pub open spec fn track_tags(detail: Json) -> Seq<Json> {
    match member3(detail, "track"@, "toptags"@, "tag"@) {
        Some(l) => match l.elements() {
            Some(tags) => tags,
            None => Seq::empty(),
        },
        None => Seq::empty(),
    }
}

/// Joins the names of tags with commas.
fn tag_line(tags: &Vec<Json>) -> (r: String)
    ensures
        r@ == join_with(tag_names(tags@), ", "@),
{
    let ghost names = tag_names(tags@);
    let mut out = String::new();
    let mut i: usize = 0;
    while i < tags.len()
        invariant
            i <= tags@.len(),
            names == tag_names(tags@),
            out@ == join_with(names.subrange(0, i as int), ", "@),
        decreases tags.len() - i,
    {
        let name = text_or_else(tags[i].get("name"), "???");
        if i > 0 {
            out.append(", ");
        }
        out.append(name.as_str());
        proof {
            let done = names.subrange(0, i + 1);
            assert(done.drop_last() =~= names.subrange(0, i as int));
            assert(out@ =~= join_with(done, ", "@));
        }
        i = i + 1;
    }
    assert(names.subrange(0, tags@.len() as int) =~= names);
    out
}

/// Renders the details of `artist`'s `track`. Missing fields show
/// placeholders; missing tags leave the footer empty.
pub fn render_now_playing(artist: &str, track: &str, detail: &Json) -> (r: NowPlayingCard)
    ensures
        shows_track(r, artist@, track@, *detail, track_tags(*detail)),
{
    let footer = match detail.get3("track", "toptags", "tag") {
        Some(l) => match l.as_array() {
            Some(tags) => tag_line(tags),
            None => String::new(),
        },
        None => String::new(),
    };
    proof {
        reveal_strlit(", ");
        assert(join_with(tag_names(Seq::<Json>::empty()), ", "@) =~= Seq::<char>::empty());
    }
    let length_text = text_or_else(detail.get2("track", "duration"), "N/A");
    let mut title = String::from_str(artist);
    title.append(" — ");
    title.append(track);
    let ghost head = title@;
    match parse_int(length_text.as_str()) {
        Some(ms) => if ms > 0 {
            title.append(" `[");
            title.append(decimal_text((ms / 60000) as u64).as_str());
            title.append(":");
            title.append(decimal_text(((ms % 60000) / 1000) as u64).as_str());
            title.append("]`");
        },
        None => {},
    }
    proof {
        reveal_strlit("");
    }
    assert(title@ =~= head + duration_suffix(int_value(length_text@)));
    let plays_text = text_or_else(detail.get2("track", "userplaycount"), "0");
    let plays = match parse_int(plays_text.as_str()) {
        Some(v) => signed_decimal_text(v),
        None => String::from_str("0"),
    };
    let mut description = String::from_str(":cd: ");
    description.append(text_or_else(detail.get3("track", "album", "title"), "N/A").as_str());
    description.append("\n> ");
    description.append(plays.as_str());
    description.append(" plays");
    let card = NowPlayingCard {
        title,
        description,
        thumbnail: largest_image_text(detail.get3("track", "album", "image")),
        footer,
    };
    card
}

} // verus!
