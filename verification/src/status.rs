//! Playback status of a media-player session, and its parsing from the
//! string value that the session's well-known status property carries.

use vstd::prelude::*;

verus! {

/// Playback state of a media-player session.
#[derive(Clone, Copy, Debug, PartialEq, Eq, Structural)]
pub enum PlaybackStatus {
    Playing,
    Paused,
    Stopped,
}

/// A session reported a status value outside the fixed three-value contract.
/// The caller decides whether to treat this as fatal.
#[derive(Clone, Copy, Debug, PartialEq, Eq, Structural)]
pub struct ProtocolViolation;

/// Character-for-character string equality.
pub fn str_eq(a: &str, b: &str) -> (r: bool)
    ensures
        r == (a@ == b@),
{
    let alen = a.unicode_len();
    let blen = b.unicode_len();
    if alen != blen {
        proof {
            assert(a@ != b@);
        }
        return false;
    }
    let mut i: usize = 0;
    while i < alen
        invariant
            i <= alen,
            alen == a@.len(),
            alen == b@.len(),
            forall|j: int| 0 <= j < i ==> a@[j] == b@[j],
        decreases alen - i,
    {
        if a.get_char(i) != b.get_char(i) {
            proof {
                assert(a@[i as int] != b@[i as int]);
            }
            return false;
        }
        i += 1;
    }
    proof {
        assert(a@ =~= b@);
    }
    true
}

/// What a raw status string denotes: one of the three contract values, or a
/// protocol violation.
pub open spec fn spec_parse_status(s: Seq<char>) -> Result<PlaybackStatus, ProtocolViolation> {
    if s == "Playing"@ {
        Ok(PlaybackStatus::Playing)
    } else if s == "Paused"@ {
        Ok(PlaybackStatus::Paused)
    } else if s == "Stopped"@ {
        Ok(PlaybackStatus::Stopped)
    } else {
        Err(ProtocolViolation)
    }
}

/// Parse the raw value of the session's status property.  Exactly the three
/// contract strings are accepted; anything else is a protocol violation.
pub fn parse_playback_status(s: &str) -> (r: Result<PlaybackStatus, ProtocolViolation>)
    ensures
        r == spec_parse_status(s@),
{
    if str_eq(s, "Playing") {
        Ok(PlaybackStatus::Playing)
    } else if str_eq(s, "Paused") {
        Ok(PlaybackStatus::Paused)
    } else if str_eq(s, "Stopped") {
        Ok(PlaybackStatus::Stopped)
    } else {
        Err(ProtocolViolation)
    }
}

/// Whether a status counts as actively playing.
pub fn is_playing(status: PlaybackStatus) -> (r: bool)
    ensures
        r == (status is Playing),
{
    match status {
        PlaybackStatus::Playing => true,
        PlaybackStatus::Paused => false,
        PlaybackStatus::Stopped => false,
    }
}

} // verus!
