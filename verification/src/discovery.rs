//! Active-player discovery: filtering registered bus names down to
//! media-player sessions, and choosing which session counts as active.

use vstd::prelude::*;

use crate::status::{is_playing, PlaybackStatus};

verus! {

/// The bus-name prefix that every media-player session carries.
pub open spec fn spec_prefix() -> Seq<char> {
    "org.mpris.MediaPlayer2."@
}

/// Whether a bus name lies in the media-player namespace.
pub open spec fn spec_has_prefix(s: Seq<char>) -> bool {
    s.len() >= spec_prefix().len() && s.take(spec_prefix().len() as int) == spec_prefix()
}

/// The session identifier of a media-player bus name: what follows the prefix.
pub open spec fn spec_strip(s: Seq<char>) -> Seq<char> {
    s.skip(spec_prefix().len() as int)
}

/// Strip the media-player namespace prefix from a bus name; `None` for names
/// outside the namespace.
pub fn media_player_suffix(name: &str) -> (r: Option<String>)
    ensures
        spec_has_prefix(name@) ==> (r matches Some(s) && s@ == spec_strip(name@)),
        !spec_has_prefix(name@) ==> r is None,
{
    let prefix = "org.mpris.MediaPlayer2.";
    let plen = prefix.unicode_len();
    let nlen = name.unicode_len();
    if nlen < plen {
        return None;
    }
    let mut i: usize = 0;
    while i < plen
        invariant
            i <= plen,
            prefix@ == spec_prefix(),
            plen == spec_prefix().len(),
            nlen == name@.len(),
            plen <= nlen,
            forall|j: int| 0 <= j < i ==> name@[j] == spec_prefix()[j],
        decreases plen - i,
    {
        if name.get_char(i) != prefix.get_char(i) {
            proof {
                assert(spec_has_prefix(name@) ==> name@.take(plen as int)[i as int]
                    == spec_prefix()[i as int]);
            }
            return None;
        }
        i += 1;
    }
    proof {
        assert(name@.take(plen as int) =~= spec_prefix());
    }
    let suffix = name.substring_char(plen, nlen);
    Some(String::from_str(suffix))
}

/// The session identifiers among a list of bus names, in enumeration order.
pub open spec fn spec_suffixes(names: Seq<String>) -> Seq<Seq<char>>
    decreases names.len(),
{
    if names.len() == 0 {
        Seq::empty()
    } else {
        let rest = spec_suffixes(names.drop_last());
        if spec_has_prefix(names.last()@) {
            rest + seq![spec_strip(names.last()@)]
        } else {
            rest
        }
    }
}

/// Filter a list of registered bus names down to the media-player session
/// identifiers, in enumeration order.
pub fn media_player_suffixes(names: &Vec<String>) -> (r: Vec<String>)
    ensures
        r.deep_view() == spec_suffixes(names@),
{
    let mut r: Vec<String> = Vec::new();
    assert(names@.take(0) =~= Seq::<String>::empty());
    let mut i: usize = 0;
    while i < names.len()
        invariant
            i <= names@.len(),
            r.deep_view() == spec_suffixes(names@.take(i as int)),
        decreases names@.len() - i,
    {
        proof {
            assert(names@.take(i + 1).drop_last() =~= names@.take(i as int));
            assert(names@.take(i + 1).last() == names@[i as int]);
        }
        match media_player_suffix(names[i].as_str()) {
            Some(s) => {
                r.push(s);
                proof {
                    assert(r.deep_view() =~= spec_suffixes(names@.take(i + 1)));
                }
            },
            None => {},
        }
        i += 1;
    }
    proof {
        assert(names@.take(names@.len() as int) =~= names@);
    }
    r
}

/// A discovered session: its identifier and the status read from it.
pub struct Candidate {
    pub name: String,
    pub status: PlaybackStatus,
}

/// Which session is the active one: the first candidate found `Playing` in
/// enumeration order; if none plays, the last-enumerated candidate (an
/// observed tie-break, not a semantic ranking); `None` only when the
/// candidate set is empty.
pub open spec fn spec_find_active(s: Seq<Candidate>) -> Option<Seq<char>>
    decreases s.len(),
{
    if s.len() == 0 {
        None
    } else if s[0].status is Playing {
        Some(s[0].name@)
    } else if s.len() == 1 {
        Some(s[0].name@)
    } else {
        spec_find_active(s.drop_first())
    }
}

/// While no candidate before position `i` plays, the choice over the whole
/// list equals the choice over the list from position `i` on.
proof fn lemma_find_active_skip(s: Seq<Candidate>, i: int)
    requires
        0 <= i < s.len(),
        forall|j: int| 0 <= j < i ==> !(s[j].status is Playing),
    ensures
        spec_find_active(s) == spec_find_active(s.skip(i)),
    decreases i,
{
    if i > 0 {
        lemma_find_active_skip(s, i - 1);
        assert(s.skip(i - 1).drop_first() =~= s.skip(i));
        assert(s.skip(i - 1)[0] == s[i - 1]);
        assert(s.skip(i - 1).len() == s.len() - i + 1 >= 2);
    } else {
        assert(s.skip(0) =~= s);
    }
}

/// Discovery determinism: the choice of active player is a function of the
/// enumeration order and the session statuses alone, so two discoveries over
/// the same candidate list agree.  `find_active_player` pins its result to
/// this choice, so repeated calls on one list return the same identifier.
pub proof fn lemma_discovery_deterministic(s1: Seq<Candidate>, s2: Seq<Candidate>)
    requires
        s1 == s2,
    ensures
        spec_find_active(s1) == spec_find_active(s2),
{
}

/// Choose the active session among the discovered candidates: the first one
/// playing, else the last-enumerated one, and `None` only for an empty set.
pub fn find_active_player(candidates: &Vec<Candidate>) -> (r: Option<String>)
    ensures
        match r {
            Some(p) => spec_find_active(candidates@) == Some(p@),
            None => spec_find_active(candidates@) is None,
        },
{
    if candidates.len() == 0 {
        return None;
    }
    let mut i: usize = 0;
    while i < candidates.len()
        invariant
            i <= candidates@.len(),
            candidates@.len() >= 1,
            forall|j: int| 0 <= j < i ==> !(candidates@[j].status is Playing),
        decreases candidates@.len() - i,
    {
        if is_playing(candidates[i].status) {
            proof {
                lemma_find_active_skip(candidates@, i as int);
                assert(candidates@.skip(i as int)[0] == candidates@[i as int]);
            }
            return Some(candidates[i].name.clone());
        }
        i += 1;
    }
    let last = candidates.len() - 1;
    proof {
        lemma_find_active_skip(candidates@, last as int);
        assert(candidates@.skip(last as int)[0] == candidates@[last as int]);
        assert(candidates@.skip(last as int).len() == 1);
    }
    Some(candidates[last].name.clone())
}

} // verus!
