//! Accepting a connection: extracting the project reference from the request
//! path and classifying the result of the external lookup.

use vstd::prelude::*;

verus! {

/// A project as the external lookup resolves it: the directory the session's
/// shell will work in.
#[derive(Debug)]
pub struct ProjectRecord {
    pub path: String,
}

/// What the external lookup collaborator answered.
#[derive(Debug)]
pub enum LookupResult {
    /// The reference resolved to a project.
    Found(ProjectRecord),
    /// The reference is unknown.
    Missing,
    /// The lookup itself failed.
    Failed,
}

/// The status a rejected handshake carries.
#[derive(Clone, Copy, PartialEq, Eq, Structural, Debug)]
pub enum RejectStatus {
    /// The project reference could not be resolved.
    NotFound,
    /// The lookup service failed internally.
    InternalError,
}

/// The routing decision of the handshake.
#[derive(Debug)]
pub enum HandshakeDecision {
    /// Complete the handshake and launch a session in this project.
    Accept(ProjectRecord),
    /// Refuse the handshake with this status; no session is created.
    Reject(RejectStatus),
}

/// The trailing path segment: the bytes after the last `/`, or the whole
/// path when it holds none.
pub open spec fn spec_last_segment(s: Seq<u8>) -> Seq<u8>
    decreases s.len(),
{
    if s.len() == 0 {
        s
    } else if s[s.len() - 1] == 47 {
        Seq::empty()
    } else {
        spec_last_segment(s.drop_last()).push(s[s.len() - 1])
    }
}

/// How a lookup answer decides the handshake: a resolved project is accepted
/// as it stands, an unknown reference is refused as not found, and a lookup
/// failure is refused as an internal error.
pub open spec fn spec_classify(l: LookupResult) -> HandshakeDecision {
    match l {
        LookupResult::Found(rec) => HandshakeDecision::Accept(rec),
        LookupResult::Missing => HandshakeDecision::Reject(RejectStatus::NotFound),
        LookupResult::Failed => HandshakeDecision::Reject(RejectStatus::InternalError),
    }
}

/// Extracts the project reference from a request path: its trailing segment.
pub fn project_ref_of_path(path: &[u8]) -> (r: Vec<u8>)
    ensures
        r@ == spec_last_segment(path@),
{
    let ghost s = path@;
    let mut i: usize = path.len();
    proof {
        assert(s.subrange(0, s.len() as int) =~= s);
        assert(s.subrange(s.len() as int, s.len() as int) =~= Seq::<u8>::empty());
        assert(spec_last_segment(s) + Seq::<u8>::empty() =~= spec_last_segment(s));
    }
    while i > 0 && path[i - 1] != 47
        invariant
            i <= s.len(),
            s == path@,
            spec_last_segment(s) =~= spec_last_segment(s.subrange(0, i as int)) + s.subrange(
                i as int,
                s.len() as int,
            ),
        decreases i,
    {
        proof {
            let a = s.subrange(0, i as int);
            assert(a.len() == i);
            assert(a.last() == s[i - 1]);
            assert(a.drop_last() =~= s.subrange(0, i - 1));
            assert(spec_last_segment(a) == spec_last_segment(s.subrange(0, i - 1)).push(
                s[i - 1],
            ));
            assert(spec_last_segment(s.subrange(0, i - 1)).push(s[i - 1]) + s.subrange(
                i as int,
                s.len() as int,
            ) =~= spec_last_segment(s.subrange(0, i - 1)) + s.subrange(i - 1, s.len() as int));
        }
        i -= 1;
    }
    proof {
        let a = s.subrange(0, i as int);
        if i == 0 {
            assert(a.len() == 0);
            assert(spec_last_segment(a) == a);
            assert(spec_last_segment(a) + s.subrange(i as int, s.len() as int) =~= s.subrange(
                i as int,
                s.len() as int,
            ));
        } else {
            assert(a.last() == s[i - 1]);
            assert(s[i - 1] == 47);
            assert(spec_last_segment(a) == Seq::<u8>::empty());
            assert(spec_last_segment(a) + s.subrange(i as int, s.len() as int) =~= s.subrange(
                i as int,
                s.len() as int,
            ));
        }
    }
    let mut out: Vec<u8> = Vec::new();
    let mut j: usize = i;
    while j < path.len()
        invariant
            i <= j <= s.len(),
            s == path@,
            out@ =~= s.subrange(i as int, j as int),
        decreases s.len() - j,
    {
        out.push(path[j]);
        proof {
            assert(out@ =~= s.subrange(i as int, j + 1));
        }
        j += 1;
    }
    proof {
        assert(out@ =~= s.subrange(i as int, s.len() as int));
    }
    out
}

/// Turns the lookup answer into the routing decision of the handshake.
pub fn classify_handshake(lookup: LookupResult) -> (r: HandshakeDecision)
    ensures
        r == spec_classify(lookup),
{
    match lookup {
        LookupResult::Found(rec) => HandshakeDecision::Accept(rec),
        LookupResult::Missing => HandshakeDecision::Reject(RejectStatus::NotFound),
        LookupResult::Failed => HandshakeDecision::Reject(RejectStatus::InternalError),
    }
}

/// A session is granted exactly to a resolved project, and to the very
/// project the lookup found: the handshake accepts if and only if the lookup
/// succeeded, carries that record through unchanged, and refuses every other
/// answer with the status its cause demands, so no shell is ever launched
/// for an unknown or failing reference.
pub proof fn lemma_session_only_for_resolved(l: LookupResult)
    ensures
        spec_classify(l) is Accept <==> l is Found,
        l matches LookupResult::Found(rec) ==> spec_classify(l) == HandshakeDecision::Accept(rec),
        l is Missing ==> spec_classify(l) == HandshakeDecision::Reject(RejectStatus::NotFound),
        l is Failed ==> spec_classify(l) == HandshakeDecision::Reject(
            RejectStatus::InternalError,
        ),
{
}

} // verus!
