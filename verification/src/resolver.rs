//! Device resolution: picking the first enumerated device whose name
//! contains a requested substring and which supports the requested
//! capability scope.
//!
//! Enumerating the devices and probing their capabilities are platform
//! calls; they hand the library one candidate per device, carrying the
//! device identifier, its human-readable name and what the capability
//! probe reported.  A probe failure counts as a non-match and never
//! fails the whole search.

use crate::strutil::contains_seq;
use crate::strutil::str_contains;
use vstd::prelude::*;
use vstd::string::StringExecFns;

verus! {

/// Direction of a device capability.
#[derive(Clone, Copy, Debug, PartialEq, Eq, Structural)]
pub enum Scope {
    Input,
    Output,
}

/// What probing a candidate device's capability reported.
#[derive(Clone, Copy, Debug, PartialEq, Eq, Structural)]
pub enum CapabilityProbe {
    /// The device supports the requested scope.
    Supports,
    /// The device does not support the requested scope.
    LacksScope,
    /// The probe itself failed; treated as a non-match, not escalated.
    ProbeFailed,
}

/// One enumerated device, with the outcome of its capability probe.
pub struct DeviceCandidate {
    pub id: u32,
    pub name: String,
    pub probe: CapabilityProbe,
}

/// Failure of device resolution.
#[derive(Clone, Copy, Debug)]
pub enum MomDeviceError<'a> {
    DADNotFound(&'a str),
    Unknown(&'a str),
}

impl<'a> MomDeviceError<'a> {
    /// The human-readable description of the failure.
    pub fn message(&self) -> (r: String)
        ensures
            (self matches MomDeviceError::DADNotFound(s) ==> r@
                == "Could not find the DAD on this host: searched for device with '"@ + s@ + "'"@),
            (self matches MomDeviceError::Unknown(s) ==> r@ == "unknown error: "@ + s@),
    {
        match self {
            MomDeviceError::DADNotFound(s) => {
                let mut m = String::from_str(
                    "Could not find the DAD on this host: searched for device with '",
                );
                m.append(s);
                m.append("'");
                m
            },
            MomDeviceError::Unknown(s) => {
                let mut m = String::from_str("unknown error: ");
                m.append(s);
                m
            },
        }
    }
}

/// A candidate matches when its name contains the substring and its
/// capability probe positively reported support.
pub open spec fn candidate_matches(c: DeviceCandidate, substr: Seq<char>) -> bool {
    contains_seq(c.name@, substr) && c.probe is Supports
}

/// The first matching candidate of the enumeration, if any.
pub open spec fn first_match(cands: Seq<DeviceCandidate>, substr: Seq<char>) -> Option<
    DeviceCandidate,
>
    decreases cands.len(),
{
    if cands.len() == 0 {
        None
    } else if candidate_matches(cands[0], substr) {
        Some(cands[0])
    } else {
        first_match(cands.drop_first(), substr)
    }
}

proof fn lemma_first_match_skip(cands: Seq<DeviceCandidate>, substr: Seq<char>, i: int)
    requires
        0 <= i <= cands.len(),
        forall|k: int| 0 <= k < i ==> !candidate_matches(#[trigger] cands[k], substr),
    ensures
        first_match(cands, substr) == first_match(cands.skip(i), substr),
    decreases i,
{
    if i > 0 {
        assert(cands.skip(0) =~= cands);
        assert(cands.drop_first() =~= cands.skip(1));
        assert(cands.skip(1).skip(i - 1) =~= cands.skip(i));
        assert(forall|k: int|
            0 <= k < i - 1 ==> !candidate_matches(#[trigger] cands.skip(1)[k], substr));
        lemma_first_match_skip(cands.skip(1), substr, i - 1);
    } else {
        assert(cands.skip(0) =~= cands);
    }
}

/// Finds the first enumerated device whose name contains `name_substr`
/// and whose capability probe reported support.  A failed probe only
/// skips that candidate.  Fails with `DADNotFound` exactly when no
/// candidate matches.
pub fn find_matching_dev<'a>(name_substr: &'a str, candidates: &Vec<DeviceCandidate>) -> (r: Result<
    (u32, String),
    MomDeviceError<'a>,
>)
    ensures
        match r {
            Ok(p) => first_match(candidates@, name_substr@) matches Some(c) && p.0 == c.id && p.1@
                == c.name@,
            Err(e) => first_match(candidates@, name_substr@) is None && (e matches
                MomDeviceError::DADNotFound(s) && s@ == name_substr@),
        },
{
    let n = candidates.len();
    let mut i: usize = 0;
    while i < n
        invariant
            i <= n,
            n == candidates@.len(),
            forall|k: int| 0 <= k < i ==> !candidate_matches(#[trigger] candidates@[k], name_substr@),
        decreases n - i,
    {
        let cand = &candidates[i];
        if str_contains(cand.name.as_str(), name_substr) {
            let supports = match cand.probe {
                CapabilityProbe::Supports => true,
                CapabilityProbe::LacksScope => false,
                CapabilityProbe::ProbeFailed => false,
            };
            if supports {
                proof {
                    lemma_first_match_skip(candidates@, name_substr@, i as int);
                    assert(candidates@.skip(i as int)[0] == candidates@[i as int]);
                }
                return Ok((cand.id, cand.name.clone()));
            }
        }
        i += 1;
    }
    proof {
        lemma_first_match_skip(candidates@, name_substr@, n as int);
        assert(candidates@.skip(n as int) =~= Seq::<DeviceCandidate>::empty());
    }
    Err(MomDeviceError::DADNotFound(name_substr))
}

/// Law: resolution fails when the candidate set is empty or no
/// candidate's name contains the substring.
pub proof fn lemma_resolution_fails_without_name_match(cands: Seq<DeviceCandidate>, substr: Seq<
    char,
>)
    requires
        forall|k: int| 0 <= k < cands.len() ==> !contains_seq(#[trigger] cands[k].name@, substr),
    ensures
        first_match(cands, substr) is None,
    decreases cands.len(),
{
    if cands.len() > 0 {
        assert(forall|k: int|
            0 <= k < cands.drop_first().len() ==> !contains_seq(
                #[trigger] cands.drop_first()[k].name@,
                substr,
            ));
        lemma_resolution_fails_without_name_match(cands.drop_first(), substr);
    }
}

/// Law: a candidate whose capability probe failed is skipped, and the
/// search over the remaining candidates is unchanged.
pub proof fn lemma_failed_probe_skipped(
    pre: Seq<DeviceCandidate>,
    c: DeviceCandidate,
    post: Seq<DeviceCandidate>,
    substr: Seq<char>,
)
    requires
        c.probe is ProbeFailed,
    ensures
        first_match(pre + seq![c] + post, substr) == first_match(pre + post, substr),
    decreases pre.len(),
{
    if pre.len() == 0 {
        let all = pre + seq![c] + post;
        assert(all[0] == c);
        assert(!candidate_matches(c, substr));
        assert(all.len() > 0);
        assert(all.drop_first() =~= post);
        assert(pre + post =~= post);
    } else {
        let all = pre + seq![c] + post;
        let rest = pre + post;
        assert(all[0] == pre[0]);
        assert(rest[0] == pre[0]);
        assert(all.drop_first() =~= pre.drop_first() + seq![c] + post);
        assert(rest.drop_first() =~= pre.drop_first() + post);
        lemma_failed_probe_skipped(pre.drop_first(), c, post, substr);
    }
}

} // verus!
