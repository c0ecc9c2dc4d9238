//! Ranked and recent lists: where each operation keeps its items in the
//! service's answer, and how each item is written as one line.

use vstd::prelude::*;
use crate::clock::{age_label, age_text, ago_phrase, now_sentinel, representable};
use crate::error::CommandError;
use crate::json::{Json, member2, member3, largest_image, largest_image_text, text_of, text_or, text_or_else};
use crate::numeric::{decimal, int_value, pad_left, padded_decimal, parse_int};
use crate::stats::{Operation, StatsQuery};

verus! {

/// The lists the bot shows.
#[derive(PartialEq, Eq, Structural, Clone, Copy, Debug)]
pub enum ListKind {
    Recent,
    TopArtists,
    TopAlbums,
    TopTracks,
}

/// The member of the answer that holds the list.
pub open spec fn container_key(k: ListKind) -> Seq<char> {
    match k {
        ListKind::Recent => "recenttracks"@,
        ListKind::TopArtists => "topartists"@,
        ListKind::TopAlbums => "topalbums"@,
        ListKind::TopTracks => "toptracks"@,
    }
}

/// The member of the container that is the list of items.
pub open spec fn items_key(k: ListKind) -> Seq<char> {
    match k {
        ListKind::Recent => "track"@,
        ListKind::TopArtists => "artist"@,
        ListKind::TopAlbums => "album"@,
        ListKind::TopTracks => "track"@,
    }
}

/// Where an item names its artist (a member, and a key in it); none where the
/// item is the artist.
pub open spec fn artist_path(k: ListKind) -> Option<(Seq<char>, Seq<char>)> {
    match k {
        ListKind::Recent => Some(("artist"@, "#text"@)),
        ListKind::TopArtists => None,
        _ => Some(("artist"@, "name"@)),
    }
}

/// The operation that fetches a list.
pub open spec fn list_operation(k: ListKind) -> Operation {
    match k {
        ListKind::Recent => Operation::RecentTracks,
        ListKind::TopArtists => Operation::TopArtists,
        ListKind::TopAlbums => Operation::TopAlbums,
        ListKind::TopTracks => Operation::TopTracks,
    }
}

/// The extraction rule of one list: where the items are and where an item
/// names its artist.
pub struct ListRule {
    pub container: &'static str,
    pub items: &'static str,
    pub artist: Option<(&'static str, &'static str)>,
}

impl ListKind {
    /// The extraction rule of this list.
    pub fn rule(&self) -> (r: ListRule)
        ensures
            r.container@ == container_key(*self),
            r.items@ == items_key(*self),
            match r.artist {
                Some((a, b)) => artist_path(*self) == Some((a@, b@)),
                None => artist_path(*self) is None,
            },
    {
        match self {
            ListKind::Recent => ListRule {
                container: "recenttracks",
                items: "track",
                artist: Some(("artist", "#text")),
            },
            ListKind::TopArtists => ListRule { container: "topartists", items: "artist", artist: None },
            ListKind::TopAlbums => ListRule {
                container: "topalbums",
                items: "album",
                artist: Some(("artist", "name")),
            },
            ListKind::TopTracks => ListRule {
                container: "toptracks",
                items: "track",
                artist: Some(("artist", "name")),
            },
        }
    }

    /// The operation that fetches this list.
    pub fn operation(&self) -> (r: Operation)
        ensures
            r == list_operation(*self),
    {
        match self {
            ListKind::Recent => Operation::RecentTracks,
            ListKind::TopArtists => Operation::TopArtists,
            ListKind::TopAlbums => Operation::TopAlbums,
            ListKind::TopTracks => Operation::TopTracks,
        }
    }

    /// The request for this list of `user`, at most `limit` items.
    pub fn query(&self, user: String, limit: u32) -> (r: StatsQuery)
        ensures
            r.operation_spec() == list_operation(*self),
            r.subject_spec() == user@,
            r.limit_spec() == Some(limit),
    {
        match self {
            ListKind::Recent => StatsQuery::RecentTracks { user, limit: Some(limit) },
            ListKind::TopArtists => StatsQuery::TopArtists { user, limit: Some(limit) },
            ListKind::TopAlbums => StatsQuery::TopAlbums { user, limit: Some(limit) },
            ListKind::TopTracks => StatsQuery::TopTracks { user, limit: Some(limit) },
        }
    }
}

/// The placeholder for a missing name.
pub open spec fn unknown() -> Seq<char> {
    "???"@
}

/// An item's name, or the placeholder.
pub open spec fn name_of(item: Json) -> Seq<char> {
    text_or(item.member("name"@), unknown())
}

/// An item's play count, or `0`.
pub open spec fn plays_of(item: Json) -> Seq<char> {
    text_or(item.member("playcount"@), "0"@)
}

/// What an item is: its artist and its name, or only its name where the item
/// is an artist.
pub open spec fn subject_of(k: ListKind, item: Json) -> Seq<char> {
    match artist_path(k) {
        Some((a, b)) => text_or(member2(item, a, b), unknown()) + " — "@ + name_of(item),
        None => name_of(item),
    }
}

/// When an item was played, from its `date.uts`; `0` (playing now) when
/// that is missing or no integer.
pub open spec fn timestamp_of(item: Json) -> int {
    match int_value(text_or(member2(item, "date"@, "uts"@), "0"@)) {
        Some(v) => v,
        None => 0,
    }
}

/// The line of the item at 0-based `rank`.
pub open spec fn item_line(k: ListKind, rank: nat, item: Json, now: int) -> Seq<char> {
    match k {
        ListKind::Recent => "`"@ + age_label(timestamp_of(item), now) + "` **"@ + subject_of(k, item)
            + "**"@,
        _ => "`#"@ + pad_left(decimal(rank + 1), 2) + "` **"@ + plays_of(item) + "** plays • **"@
            + subject_of(k, item) + "**"@,
    }
}

/// The items of the list in the answer, if it has one.
pub open spec fn list_items(doc: Json, k: ListKind) -> Option<Seq<Json>> {
    match member2(doc, container_key(k), items_key(k)) {
        Some(l) => l.elements(),
        None => None,
    }
}

/// The smaller of two numbers.
pub open spec fn min_nat(a: nat, b: nat) -> nat {
    if a <= b {
        a
    } else {
        b
    }
}

/// The lines of the first `limit` items, in the order of the answer.
pub open spec fn list_lines(k: ListKind, items: Seq<Json>, limit: nat, now: int) -> Seq<Seq<char>> {
    Seq::new(min_nat(items.len(), limit), |i: int| item_line(k, i as nat, items[i], now))
}

/// In a list of recent tracks, the line of a track played now (time stamp
/// zero) shows the now sentinel. The lines of two tracks played before `now`
/// keep the order of the answer. Each shows the phrase for the time since it
/// was played, and the earlier track shows the longer span.
pub proof fn lemma_recent_ages(items: Seq<Json>, limit: nat, now: int, k: int, i: int, j: int)
    requires
        0 <= k < min_nat(items.len(), limit),
        timestamp_of(items[k]) == 0,
        0 <= i < j < min_nat(items.len(), limit),
        0 < timestamp_of(items[j]) < timestamp_of(items[i]) <= now,
        representable(now),
        representable(timestamp_of(items[j])),
    ensures
        list_lines(ListKind::Recent, items, limit, now)[k] == "`"@ + now_sentinel() + "` **"@ + subject_of(
            ListKind::Recent,
            items[k],
        ) + "**"@,
        list_lines(ListKind::Recent, items, limit, now)[i] == "`"@ + ago_phrase(
            now - timestamp_of(items[i]),
        ) + "` **"@ + subject_of(ListKind::Recent, items[i]) + "**"@,
        list_lines(ListKind::Recent, items, limit, now)[j] == "`"@ + ago_phrase(
            now - timestamp_of(items[j]),
        ) + "` **"@ + subject_of(ListKind::Recent, items[j]) + "**"@,
        now - timestamp_of(items[i]) < now - timestamp_of(items[j]),
{
}

/// Lines joined by newlines.
pub open spec fn join_lines(lines: Seq<Seq<char>>) -> Seq<char> {
    join_with(lines, "\n"@)
}

/// Pieces joined by `sep`.
pub open spec fn join_with(pieces: Seq<Seq<char>>, sep: Seq<char>) -> Seq<char>
    decreases pieces.len(),
{
    if pieces.len() == 0 {
        Seq::empty()
    } else if pieces.len() == 1 {
        pieces[0]
    } else {
        join_with(pieces.drop_last(), sep) + sep + pieces.last()
    }
}

/// The footer with the total the service reports, when it reports one.
pub open spec fn total_footer(doc: Json, k: ListKind) -> Option<Seq<char>> {
    match text_of(member3(doc, container_key(k), "@attr"@, "total"@)) {
        Some(t) => Some("total: "@ + t),
        None => None,
    }
}

/// The picture of a list: the largest picture of its first item.
pub open spec fn list_thumbnail(items: Seq<Json>) -> Seq<char> {
    if items.len() > 0 {
        largest_image(items[0].member("image"@))
    } else {
        Seq::empty()
    }
}

/// A list as shown.
#[derive(Debug)]
pub struct RenderedList {
    /// One line per item, in rank order.
    pub lines: Vec<String>,
    /// The lines joined by newlines.
    pub description: String,
    /// The address of the list's picture; empty when there is none.
    pub thumbnail: String,
    /// The total the service reports, when it reports one.
    pub footer: Option<String>,
}

/// The views of some strings.
pub open spec fn views(v: Seq<String>) -> Seq<Seq<char>> {
    v.map_values(|s: String| s@)
}

/// The view of an optional string.
pub open spec fn opt_view(o: Option<String>) -> Option<Seq<char>> {
    match o {
        Some(s) => Some(s@),
        None => None,
    }
}

/// `l` shows the list of kind `k` in `doc`, whose items are `items`.
pub open spec fn renders(l: RenderedList, doc: Json, k: ListKind, items: Seq<Json>, limit: nat, now: int) -> bool {
    &&& views(l.lines@) == list_lines(k, items, limit, now)
    &&& l.description@ == join_lines(list_lines(k, items, limit, now))
    &&& l.thumbnail@ == list_thumbnail(items)
    &&& opt_view(l.footer) == total_footer(doc, k)
}

/// Writes the line of the item at 0-based `rank`.
pub fn item_line_text(kind: ListKind, rule: &ListRule, rank: usize, item: &Json, now: i64) -> (r: String)
    requires
        rank < usize::MAX,
        rule.artist matches Some((a, b)) ==> artist_path(kind) == Some((a@, b@)),
        rule.artist is None ==> artist_path(kind) is None,
    ensures
        r@ == item_line(kind, rank as nat, *item, now as int),
{
    let name = text_or_else(item.get("name"), "???");
    let mut subject = match rule.artist {
        Some((a, b)) => text_or_else(item.get2(a, b), "???"),
        None => String::new(),
    };
    match rule.artist {
        Some(_) => {
            subject.append(" — ");
            subject.append(name.as_str());
        },
        None => {
            subject = name;
        },
    }
    assert(subject@ =~= subject_of(kind, *item));
    let mut line: String;
    match kind {
        ListKind::Recent => {
            let stamp = text_or_else(item.get2("date", "uts"), "0");
            let timestamp: i64 = match parse_int(stamp.as_str()) {
                Some(v) => v,
                None => 0,
            };
            line = String::from_str("`");
            line.append(age_text(timestamp, now).as_str());
            line.append("` **");
        },
        _ => {
            let place = padded_decimal(rank as u64 + 1, 2);
            let plays = text_or_else(item.get("playcount"), "0");
            line = String::from_str("`#");
            line.append(place.as_str());
            line.append("` **");
            line.append(plays.as_str());
            line.append("** plays • **");
        },
    }
    line.append(subject.as_str());
    line.append("**");
    assert(line@ =~= item_line(kind, rank as nat, *item, now as int));
    line
}

/// Renders the list of kind `kind` in the answer `doc`: a line for each of
/// the first `limit` items in the answer's order, the picture of the first
/// item and the reported total. Fails when the answer holds no such list.
pub fn render_list(doc: &Json, kind: ListKind, limit: usize, now: i64) -> (r: Result<RenderedList, CommandError>)
    ensures
        match list_items(*doc, kind) {
            None => r == Err::<RenderedList, CommandError>(CommandError::ListNotFound),
            Some(items) => r matches Ok(l) && renders(l, *doc, kind, items, limit as nat, now as int),
        },
{
    let rule = kind.rule();
    let list = match doc.get2(rule.container, rule.items) {
        Some(l) => l,
        None => return Err(CommandError::ListNotFound),
    };
    let items = match list.as_array() {
        Some(items) => items,
        None => return Err(CommandError::ListNotFound),
    };
    let ghost want = list_lines(kind, items@, limit as nat, now as int);
    let count: usize = if items.len() <= limit {
        items.len()
    } else {
        limit
    };
    let mut lines: Vec<String> = Vec::new();
    let mut description = String::new();
    let mut i: usize = 0;
    while i < count
        invariant
            i <= count,
            count == min_nat(items@.len(), limit as nat),
            count <= items@.len(),
            want == list_lines(kind, items@, limit as nat, now as int),
            rule.artist matches Some((a, b)) ==> artist_path(kind) == Some((a@, b@)),
            rule.artist is None ==> artist_path(kind) is None,
            views(lines@) == want.subrange(0, i as int),
            description@ == join_lines(want.subrange(0, i as int)),
        decreases count - i,
    {
        let line = item_line_text(kind, &rule, i, &items[i], now);
        proof {
            reveal_strlit("\n");
        }
        if i > 0 {
            description.append("\n");
        }
        description.append(line.as_str());
        lines.push(line);
        proof {
            let done = want.subrange(0, i + 1);
            assert(done.drop_last() =~= want.subrange(0, i as int));
            assert(views(lines@) =~= done);
            assert(description@ =~= join_lines(done));
        }
        i = i + 1;
    }
    assert(want.subrange(0, count as int) =~= want);
    let thumbnail = if items.len() > 0 {
        largest_image_text(items[0].get("image"))
    } else {
        String::new()
    };
    let footer = match doc.get3(rule.container, "@attr", "total") {
        Some(Json::Str(t)) => {
            let mut f = String::from_str("total: ");
            f.append(t.as_str());
            Some(f)
        },
        _ => None,
    };
    Ok(RenderedList { lines, description, thumbnail, footer })
}

} // verus!
