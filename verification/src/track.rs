//! Normalized track state, and its extraction from the raw property bag that
//! a media-player session exposes.  Extraction is total: missing fields fall
//! back to documented defaults, never to an error.

use vstd::prelude::*;

use crate::status::PlaybackStatus;

verus! {

/// The raw property bag read from a session: every field may be absent.
pub struct PropertyBag {
    pub title: Option<String>,
    pub album: Option<String>,
    pub artist: Option<Vec<String>>,
    pub url: Option<String>,
    pub length_micros: Option<i64>,
    pub position_micros: Option<i64>,
    pub status: PlaybackStatus,
}

/// Normalized track state: every field populated, lengths and positions
/// non-negative.
pub struct TrackState {
    pub title: String,
    pub album: String,
    pub artist: String,
    pub url: String,
    pub length_micros: i64,
    pub position_micros: i64,
    pub status: PlaybackStatus,
}

impl TrackState {
    /// Well-formedness: the numeric fields are non-negative.
    pub open spec fn wf(self) -> bool {
        self.length_micros >= 0 && self.position_micros >= 0
    }
}

/// A string field of the bag, or the given default when absent.
pub open spec fn spec_or_default(v: Option<String>, default: Seq<char>) -> Seq<char> {
    match v {
        Some(s) => s@,
        None => default,
    }
}

/// The artist list joined with single spaces; two artists "A" and "B" give
/// "A B", an empty list gives the empty string.
pub open spec fn spec_join_spaced(parts: Seq<String>) -> Seq<char>
    decreases parts.len(),
{
    if parts.len() == 0 {
        Seq::empty()
    } else if parts.len() == 1 {
        parts[0]@
    } else {
        parts[0]@ + seq![' '] + spec_join_spaced(parts.drop_first())
    }
}

/// The artist field: the joined list, or the default when absent.
pub open spec fn spec_artist_of(v: Option<Vec<String>>) -> Seq<char> {
    match v {
        Some(parts) => spec_join_spaced(parts@),
        None => "Unknown artist"@,
    }
}

/// The track length: the given value clamped at zero, or 1 when absent
/// (never 0, so that remaining-time arithmetic stays well defined).
pub open spec fn spec_length_of(v: Option<i64>) -> i64 {
    match v {
        Some(l) => if l >= 0 { l } else { 0 },
        None => 1,
    }
}

/// The playback position: the given value clamped at zero, or 0 when absent.
pub open spec fn spec_position_of(v: Option<i64>) -> i64 {
    match v {
        Some(p) => if p >= 0 { p } else { 0 },
        None => 0,
    }
}

/// Appending one more part to a non-empty list appends one space and the part.
proof fn lemma_join_spaced_push(parts: Seq<String>, last: String)
    requires
        parts.len() >= 1,
    ensures
        spec_join_spaced(parts.push(last)) == spec_join_spaced(parts) + seq![' '] + last@,
    decreases parts.len(),
{
    if parts.len() == 1 {
        assert(parts.push(last).drop_first() =~= seq![last]);
        assert(spec_join_spaced(seq![last]) == last@);
        assert(spec_join_spaced(parts.push(last)) == parts[0]@ + seq![' '] + last@);
    } else {
        lemma_join_spaced_push(parts.drop_first(), last);
        assert(parts.push(last).drop_first() =~= parts.drop_first().push(last));
        assert(spec_join_spaced(parts) + seq![' '] + last@ =~= parts[0]@ + seq![' ']
            + (spec_join_spaced(parts.drop_first()) + seq![' '] + last@));
    }
}

/// Join a list of names with single spaces.
pub fn join_spaced(parts: &Vec<String>) -> (r: String)
    ensures
        r@ == spec_join_spaced(parts@),
{
    let mut r = String::new();
    if parts.len() == 0 {
        return r;
    }
    r.append(parts[0].as_str());
    assert(parts@.take(1) =~= seq![parts@[0]]);
    assert(r@ == spec_join_spaced(parts@.take(1)));
    let mut i: usize = 1;
    while i < parts.len()
        invariant
            1 <= i <= parts@.len(),
            r@ == spec_join_spaced(parts@.take(i as int)),
        decreases parts@.len() - i,
    {
        r.append(" ");
        r.append(parts[i].as_str());
        proof {
            lemma_join_spaced_push(parts@.take(i as int), parts@[i as int]);
            assert(parts@.take(i as int).push(parts@[i as int]) =~= parts@.take(i + 1));
            reveal_strlit(" ");
            assert(" "@ =~= seq![' ']);
        }
        i += 1;
    }
    proof {
        assert(parts@.take(parts@.len() as int) =~= parts@);
    }
    r
}

/// A string field of the bag, or the given default when absent.
fn or_default(v: Option<String>, default: &str) -> (r: String)
    ensures
        r@ == spec_or_default(v, default@),
{
    match v {
        Some(s) => s,
        None => String::from_str(default),
    }
}

/// Normalize a raw property bag into a fully populated track state.  Total
/// over every bag: a missing string field becomes its "Unknown ..." default,
/// a missing length becomes 1, a missing position becomes 0, and negative
/// numeric values are clamped at zero.
pub fn extract(bag: PropertyBag) -> (t: TrackState)
    ensures
        t.wf(),
        t.title@ == spec_or_default(bag.title, "Unknown title"@),
        t.album@ == spec_or_default(bag.album, "Unknown album"@),
        t.url@ == spec_or_default(bag.url, "Unknown url"@),
        t.artist@ == spec_artist_of(bag.artist),
        t.length_micros == spec_length_of(bag.length_micros),
        t.position_micros == spec_position_of(bag.position_micros),
        t.status == bag.status,
{
    let title = or_default(bag.title, "Unknown title");
    let album = or_default(bag.album, "Unknown album");
    let url = or_default(bag.url, "Unknown url");
    let artist = match bag.artist {
        Some(parts) => join_spaced(&parts),
        None => String::from_str("Unknown artist"),
    };
    let length_micros: i64 = match bag.length_micros {
        Some(l) => if l >= 0 { l } else { 0 },
        None => 1,
    };
    let position_micros: i64 = match bag.position_micros {
        Some(p) => if p >= 0 { p } else { 0 },
        None => 0,
    };
    TrackState {
        title,
        album,
        artist,
        url,
        length_micros,
        position_micros,
        status: bag.status,
    }
}

} // verus!
