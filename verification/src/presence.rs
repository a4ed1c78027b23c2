//! Presence-payload construction: truncation of the presentation strings,
//! the end-timestamp arithmetic, and the playing/paused payload variants.

use vstd::prelude::*;

use vstd::arithmetic::div_mod::{
    lemma_div_is_ordered, lemma_fundamental_div_mod, lemma_fundamental_div_mod_converse,
    lemma_mod_pos_bound,
};

use crate::status::is_playing;
use crate::track::TrackState;

verus! {

/// Upper bound, in Unicode scalar values, on the presentation strings.
pub const CHAR_LIMIT: usize = 128;

/// Microseconds in one second.
pub const MICROS_PER_SEC: u64 = 1_000_000;

/// Asset labels of a payload.
pub struct Assets {
    pub large_text: String,
    pub large_image: String,
    pub small_text: String,
    pub small_image: String,
}

/// The presence payload delivered to the outbound endpoint.
pub struct Payload {
    pub state: String,
    pub details: String,
    pub end_timestamp: Option<i64>,
    pub assets: Assets,
}

/// A string cut down to at most `limit` Unicode scalar values.
pub open spec fn spec_truncate(s: Seq<char>, limit: int) -> Seq<char> {
    if s.len() <= limit {
        s
    } else {
        s.take(limit)
    }
}

/// Truncation keeps exactly `min(N, limit)` scalars, and every kept position
/// holds the original scalar unchanged: no scalar is ever split or altered.
pub proof fn lemma_truncation_length(s: Seq<char>, limit: int)
    requires
        0 <= limit,
    ensures
        spec_truncate(s, limit).len() == if s.len() <= limit {
            s.len() as int
        } else {
            limit
        },
        forall|i: int| 0 <= i < spec_truncate(s, limit).len() ==> spec_truncate(s, limit)[i] == s[i],
{
}

/// Cut a string down to at most `limit` Unicode scalar values, whole scalars
/// only.
pub fn truncate_scalars(s: &str, limit: usize) -> (r: String)
    ensures
        r@ == spec_truncate(s@, limit as int),
{
    let n = s.unicode_len();
    if n <= limit {
        String::from_str(s)
    } else {
        let cut = s.substring_char(0, limit);
        proof {
            assert(cut@ =~= s@.take(limit as int));
        }
        String::from_str(cut)
    }
}

/// The epoch second in which the track ends: the clock instant plus the
/// remaining play time, floored to whole seconds.
pub open spec fn spec_end_timestamp(now_micros: i64, length_micros: i64, position_micros: i64) -> int {
    (now_micros + length_micros - position_micros) / (MICROS_PER_SEC as int)
}

/// Floor of `total` microseconds in whole seconds, negative instants
/// included.
fn floor_div_micros(total: i64) -> (r: i64)
    ensures
        r == total as int / (MICROS_PER_SEC as int),
{
    if total >= 0 {
        let q: u64 = (total as u64) / MICROS_PER_SEC;
        proof {
            lemma_div_is_ordered(total as int, i64::MAX as int, MICROS_PER_SEC as int);
        }
        q as i64
    } else {
        let b: i64 = -(total + 1);
        let q: u64 = (b as u64) / MICROS_PER_SEC;
        proof {
            let m = MICROS_PER_SEC as int;
            lemma_fundamental_div_mod(b as int, m);
            lemma_mod_pos_bound(b as int, m);
            let rem = (b as int) % m;
            assert(total as int == (-(q as int) - 1) * m + (m - rem - 1)) by {
                assert(b as int == m * (q as int) + rem);
            };
            lemma_fundamental_div_mod_converse(total as int, m, -(q as int) - 1, m - rem - 1);
            lemma_div_is_ordered(0, b as int, m);
        }
        -1 - (q as i64)
    }
}

/// The end timestamp of a track, in epoch seconds, from a clock instant in
/// epoch microseconds.
pub fn end_timestamp_micros(now_micros: i64, length_micros: i64, position_micros: i64) -> (r: i64)
    requires
        0 <= length_micros,
        0 <= position_micros,
        i64::MIN <= now_micros + length_micros - position_micros <= i64::MAX,
    ensures
        r == spec_end_timestamp(now_micros, length_micros, position_micros),
{
    let delta: i64 = length_micros - position_micros;
    let total: i64 = now_micros + delta;
    floor_div_micros(total)
}

/// While the track plays on, the end timestamp never precedes the clock
/// instant it was computed from: the remaining play time is non-negative.
pub proof fn lemma_end_timestamp_future(now_micros: i64, length_micros: i64, position_micros: i64)
    requires
        0 <= position_micros <= length_micros,
    ensures
        spec_end_timestamp(now_micros, length_micros, position_micros) >= now_micros as int / (
        MICROS_PER_SEC as int),
{
    lemma_div_is_ordered(
        now_micros as int,
        now_micros + length_micros - position_micros,
        MICROS_PER_SEC as int,
    );
}

/// Relies on `chrono::Local::now` and `chrono::DateTime::timestamp_micros`
/// for the current wall-clock instant in microseconds since the Unix epoch.
/// Nothing is assumed of the value: the clock may report any instant.
#[verifier::external_body]
fn now_unix_micros() -> (r: i64) {
    chrono::Local::now().timestamp_micros()
}

/// Read the clock and compute the end timestamp of a track from it: the
/// instant the clock reported in microseconds, paired with the end second
/// computed from exactly that instant.  `None` when the instant plus the
/// remaining play time falls outside the microsecond range, whole-second
/// arithmetic then being undefined.
pub fn end_timestamp_from_clock(length_micros: i64, position_micros: i64) -> (r: Option<(i64, i64)>)
    requires
        0 <= length_micros,
        0 <= position_micros,
    ensures
        r matches Some(pair) ==> pair.1 == spec_end_timestamp(pair.0, length_micros, position_micros),
{
    let now: i64 = now_unix_micros();
    let delta: i64 = length_micros - position_micros;
    match now.checked_add(delta) {
        Some(_) => Some((now, end_timestamp_micros(now, length_micros, position_micros))),
        None => None,
    }
}

/// The state line of a payload: artist and album joined by a dash, cut to
/// the scalar limit.
pub open spec fn spec_state_line(track: TrackState) -> Seq<char> {
    spec_truncate(track.artist@ + " - "@ + track.album@, CHAR_LIMIT as int)
}

/// The details line of a payload: the title, cut to the scalar limit.
pub open spec fn spec_details_line(track: TrackState) -> Seq<char> {
    spec_truncate(track.title@, CHAR_LIMIT as int)
}

/// Build the presence payload for the active session.  The state and details
/// lines come from the track, truncated to whole scalars; the end timestamp
/// is attached exactly while playing; the small asset labels follow the
/// playing/paused variant; the large label names the player.
pub fn build(player: &str, track: &TrackState, now_micros: i64) -> (p: Payload)
    requires
        track.wf(),
        track.status is Playing ==> i64::MIN <= now_micros + track.length_micros
            - track.position_micros <= i64::MAX,
    ensures
        p.state@ == spec_state_line(*track),
        p.details@ == spec_details_line(*track),
        track.status is Playing ==> (p.end_timestamp matches Some(e) && e == spec_end_timestamp(
            now_micros,
            track.length_micros,
            track.position_micros,
        )),
        !(track.status is Playing) ==> p.end_timestamp is None,
        p.assets.large_text@ == "Listening with "@ + player@,
        p.assets.large_image@ == "logo"@,
        track.status is Playing ==> p.assets.small_text@ == "Playing"@
            && p.assets.small_image@ == "playing"@,
        !(track.status is Playing) ==> p.assets.small_text@ == "Paused"@
            && p.assets.small_image@ == "paused"@,
{
    let mut line = track.artist.clone();
    line.append(" - ");
    line.append(track.album.as_str());
    let state = truncate_scalars(line.as_str(), CHAR_LIMIT);
    let details = truncate_scalars(track.title.as_str(), CHAR_LIMIT);
    let mut large_text = String::from_str("Listening with ");
    large_text.append(player);
    if is_playing(track.status) {
        let end = end_timestamp_micros(now_micros, track.length_micros, track.position_micros);
        Payload {
            state,
            details,
            end_timestamp: Some(end),
            assets: Assets {
                large_text,
                large_image: String::from_str("logo"),
                small_text: String::from_str("Playing"),
                small_image: String::from_str("playing"),
            },
        }
    } else {
        Payload {
            state,
            details,
            end_timestamp: None,
            assets: Assets {
                large_text,
                large_image: String::from_str("logo"),
                small_text: String::from_str("Paused"),
                small_image: String::from_str("paused"),
            },
        }
    }
}

} // verus!
