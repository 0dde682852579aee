//! Probing mirrors: what a metadata-only request told, and which mirror is the
//! first to tell the size of a file.

use crate::number::{parse_u64, parsed_u64};
use crate::progress::capped_sum;
use vstd::prelude::*;

verus! {

/// A status code that reports success: 200 to 299.
pub open spec fn status_success(code: u16) -> bool {
    200 <= code < 300
}

/// Tells whether a status code reports success.
pub fn is_success_status(code: u16) -> (ok: bool)
    ensures
        ok == status_success(code),
{
    200 <= code && code < 300
}

/// What a metadata-only request to one mirror told.
#[derive(Clone, Copy, Debug, PartialEq, Eq, Structural)]
pub enum Probe {
    /// The request failed before any answer came.
    Unreachable,
    /// The mirror answered with a status and, where its length header held a
    /// number, that length.
    Answered { status: u16, length: Option<u64> },
}

/// The number in an optional header text.
pub open spec fn header_length(content_length: Option<&str>) -> Option<u64> {
    match content_length {
        Some(text) => parsed_u64(text@),
        None => None,
    }
}

impl Probe {
    /// The mirror answered with a success status.
    pub open spec fn available(self) -> bool {
        match self {
            Probe::Answered { status, .. } => status_success(status),
            Probe::Unreachable => false,
        }
    }

    /// The size that the probe tells: the length of a successful answer.
    pub open spec fn known_size(self) -> Option<u64> {
        match self {
            Probe::Answered { status, length } => if status_success(status) {
                length
            } else {
                None
            },
            Probe::Unreachable => None,
        }
    }

    /// The probe of a mirror that answered, from its status code and the text
    /// of its length header, if it sent one.
    pub fn from_response(status: u16, content_length: Option<&str>) -> (probe: Probe)
        ensures
            probe == (Probe::Answered { status, length: header_length(content_length) }),
    {
        let length = match content_length {
            Some(text) => parse_u64(text),
            None => None,
        };
        Probe::Answered { status, length }
    }

    /// Tells whether the mirror answered with a success status.
    pub fn is_available(&self) -> (ok: bool)
        ensures
            ok == self.available(),
    {
        match self {
            Probe::Answered { status, .. } => is_success_status(*status),
            Probe::Unreachable => false,
        }
    }

    /// The size that the probe tells, if any.
    pub fn size(&self) -> (size: Option<u64>)
        ensures
            size == self.known_size(),
    {
        match self {
            Probe::Answered { status, length } => if is_success_status(*status) {
                *length
            } else {
                None
            },
            Probe::Unreachable => None,
        }
    }
}

/// No probe before position `upto` tells a size.
pub open spec fn none_sized(probes: Seq<Probe>, upto: int) -> bool {
    forall|j: int| 0 <= j < upto && j < probes.len() ==> (#[trigger] probes[j]).known_size() is None
}

/// The first mirror, in order of preference, whose probe tells a size, with
/// that size.
pub open spec fn first_sized(probes: Seq<Probe>) -> Option<(usize, u64)> {
    if exists|i: int| 0 <= i < probes.len() && (#[trigger] probes[i]).known_size() is Some {
        let i = choose|i: int|
            0 <= i < probes.len() && (#[trigger] probes[i]).known_size() is Some && none_sized(
                probes,
                i,
            );
        Some((i as usize, probes[i].known_size()->0))
    } else {
        None
    }
}

/// The first sized mirror is determined by being sized with none sized before.
pub proof fn first_sized_is(probes: Seq<Probe>, i: int)
    requires
        0 <= i < probes.len(),
        i <= usize::MAX,
        probes[i].known_size() is Some,
        none_sized(probes, i),
    ensures
        first_sized(probes) == Some((i as usize, probes[i].known_size()->0)),
{
    let k = choose|k: int|
        0 <= k < probes.len() && (#[trigger] probes[k]).known_size() is Some && none_sized(
            probes,
            k,
        );
    assert(probes[i].known_size() is Some && none_sized(probes, i));
    if k < i {
        assert(probes[k].known_size() is None);
    } else if i < k {
        assert(probes[i].known_size() is None);
    }
}

/// Picks, from the probes of all mirrors in order of preference, the first
/// that tells a size. Returns the mirror's position and the size, or `None`
/// where no probe tells one.
pub fn resolve_size(probes: &[Probe]) -> (found: Option<(usize, u64)>)
    ensures
        found == first_sized(probes@),
        match found {
            Some((mirror, size)) => mirror < probes@.len() && probes@[mirror as int].known_size()
                == Some(size) && none_sized(probes@, mirror as int),
            None => none_sized(probes@, probes@.len() as int),
        },
{
    let mut i: usize = 0;
    while i < probes.len()
        invariant
            i <= probes@.len(),
            none_sized(probes@, i as int),
        decreases probes@.len() - i,
    {
        if let Some(size) = probes[i].size() {
            proof {
                first_sized_is(probes@, i as int);
            }
            return Some((i, size));
        }
        i += 1;
    }
    None
}

/// What a survey of the manifest's sizes has found so far.
#[derive(Clone, Copy, Debug, PartialEq, Eq, Structural)]
pub struct SizeSurvey {
    /// The sum of the sizes that were found, held at `u64::MAX`.
    pub total: u64,
    /// The files whose size no mirror told.
    pub unresolved: u64,
}

impl SizeSurvey {
    /// The survey after a file whose probes are given: its size is added
    /// where a mirror told it, else the file is counted as unresolved.
    pub open spec fn with_file(self, probes: Seq<Probe>) -> SizeSurvey {
        match first_sized(probes) {
            Some((_, size)) => SizeSurvey { total: capped_sum(self.total, size), ..self },
            None => SizeSurvey { unresolved: capped_sum(self.unresolved, 1), ..self },
        }
    }

    /// A survey of no file.
    pub fn new() -> (survey: SizeSurvey)
        ensures
            survey == (SizeSurvey { total: 0, unresolved: 0 }),
    {
        SizeSurvey { total: 0, unresolved: 0 }
    }

    /// Takes in the probes of one file's mirrors, in order of preference, as
    /// far as they were made, and returns the size found for the file.
    pub fn add_file(&mut self, probes: &[Probe]) -> (found: Option<(usize, u64)>)
        ensures
            found == first_sized(probes@),
            *final(self) == old(self).with_file(probes@),
    {
        let found = resolve_size(probes);
        match found {
            Some((_, size)) => {
                self.total = self.total.saturating_add(size);
            },
            None => {
                self.unresolved = self.unresolved.saturating_add(1);
            },
        }
        found
    }
}

/// Probing further mirrors after the first that tells a size changes
/// nothing: the size found is the one of the shorter sequence.
pub proof fn later_probes_do_not_matter(probes: Seq<Probe>, more: Seq<Probe>)
    requires
        first_sized(probes) is Some,
        probes.len() + more.len() <= usize::MAX,
    ensures
        first_sized(probes + more) == first_sized(probes),
{
    let at = choose|k: int| 0 <= k < probes.len() && (#[trigger] probes[k]).known_size() is Some;
    let least = least_sized(probes, at);
    first_sized_is(probes, least);
    let all = probes + more;
    assert(all[least] == probes[least]);
    assert(none_sized(all, least)) by {
        assert forall|j: int| 0 <= j < least && j < all.len() implies (
        #[trigger] all[j]).known_size() is None by {
            assert(all[j] == probes[j]);
        }
    }
    first_sized_is(all, least);
}

/// The least position with a size, given one position with a size.
proof fn least_sized(probes: Seq<Probe>, at: int) -> (least: int)
    requires
        0 <= at < probes.len(),
        probes[at].known_size() is Some,
    ensures
        0 <= least <= at,
        probes[least].known_size() is Some,
        none_sized(probes, least),
    decreases at,
{
    if exists|k: int| 0 <= k < at && (#[trigger] probes[k]).known_size() is Some {
        let k = choose|k: int| 0 <= k < at && (#[trigger] probes[k]).known_size() is Some;
        least_sized(probes, k)
    } else {
        at
    }
}

} // verus!
