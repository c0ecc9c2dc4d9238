//! Instants as seconds since the Unix epoch, and how long ago one was.

use vstd::prelude::*;

verus! {

/// Whether chrono can represent the instant `secs` seconds after the epoch:
/// from the first second of the year -262143 to the last of the year 262142.
pub open spec fn representable(secs: int) -> bool {
    -8_334_601_228_800 <= secs <= 8_210_266_876_799
}

/// The English phrase with which timeago describes a span of `elapsed`
/// seconds that ended now, such as "3 hours ago".
pub uninterp spec fn ago_phrase(elapsed: int) -> Seq<char>;

/// Relies on chrono::Utc::now, read as whole seconds since the epoch.
#[verifier::external_body]
pub(crate) fn now_unix() -> (r: i64) {
    chrono::Utc::now().timestamp()
}

/// Relies on chrono::DateTime::from_timestamp, which fails exactly outside
/// chrono's range, and on timeago::Formatter::convert_chrono with the
/// default English formatter, which describes the span from `from` to `to`
/// and gives `???` where that span is negative.
#[verifier::external_body]
fn relative_phrase(from: i64, to: i64) -> (r: Option<String>)
    ensures
        r is Some <==> (representable(from as int) && representable(to as int)),
        r matches Some(s) ==> if to < from {
            s@ == "???"@
        } else {
            s@ == ago_phrase(to - from)
        },
{
    let from = chrono::DateTime::from_timestamp(from, 0)?;
    let to = chrono::DateTime::from_timestamp(to, 0)?;
    Some(timeago::Formatter::new().convert_chrono(from, to))
}

/// What an age is shown as when the service gives the timestamp `0`: the
/// item is playing now.
pub open spec fn now_sentinel() -> Seq<char> {
    "a moment ago"@
}

/// How long before `now` the instant `timestamp` was, as shown: the sentinel
/// for a zero timestamp, the phrase for the elapsed span otherwise, `???`
/// for an instant after `now` or one that chrono cannot represent.
pub open spec fn age_label(timestamp: int, now: int) -> Seq<char> {
    if timestamp == 0 {
        now_sentinel()
    } else if representable(timestamp) && representable(now) && timestamp <= now {
        ago_phrase(now - timestamp)
    } else {
        "???"@
    }
}

/// Says how long before `now` the instant `timestamp` was.
pub fn age_text(timestamp: i64, now: i64) -> (r: String)
    ensures
        r@ == age_label(timestamp as int, now as int),
        timestamp == 0 ==> r@ == now_sentinel(),
{
    if timestamp == 0 {
        return String::from_str("a moment ago");
    }
    proof {
        reveal_strlit("???");
    }
    match relative_phrase(timestamp, now) {
        Some(s) => s,
        None => String::from_str("???"),
    }
}

} // verus!
