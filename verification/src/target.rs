//! The upstream target: the one configured base URL, held with its trailing
//! slashes trimmed so that appending an inbound path (which starts with `/`)
//! never produces a double slash at the junction.

use vstd::prelude::*;

verus! {

/// The byte for `/`.
pub open spec fn slash() -> u8 {
    '/' as u8
}

/// A byte string with its trailing `/` bytes removed.
pub open spec fn spec_trim_trailing_slashes(s: Seq<u8>) -> Seq<u8>
    decreases s.len(),
{
    if s.len() > 0 && s[s.len() - 1] == slash() {
        spec_trim_trailing_slashes(s.drop_last())
    } else {
        s
    }
}

/// The trimmed form never ends in a slash.
pub proof fn lemma_trimmed_has_no_trailing_slash(s: Seq<u8>)
    ensures
        spec_trim_trailing_slashes(s).len() > 0 ==> spec_trim_trailing_slashes(s)[
            spec_trim_trailing_slashes(s).len() - 1] != slash(),
    decreases s.len(),
{
    if s.len() > 0 && s[s.len() - 1] == slash() {
        lemma_trimmed_has_no_trailing_slash(s.drop_last());
    }
}

/// The single configured upstream origin: scheme, host and optional port,
/// with no trailing slash.  Built once at startup and never mutated.
pub struct UpstreamTarget {
    pub base: Vec<u8>,
}

impl UpstreamTarget {
    /// A well-formed target does not end in `/`.
    pub open spec fn wf(&self) -> bool {
        self.base@.len() > 0 ==> self.base@[self.base@.len() - 1] != slash()
    }

    /// Build the target from the configured base URL, trimming every
    /// trailing slash.
    pub fn new(base_url: Vec<u8>) -> (t: UpstreamTarget)
        ensures
            t.base@ == spec_trim_trailing_slashes(base_url@),
            t.wf(),
    {
        let mut base = base_url;
        let mut n: usize = base.len();
        proof {
            assert(base@.take(n as int) =~= base@);
        }
        while n > 0 && base[n - 1] == 47
            invariant
                n <= base.len(),
                spec_trim_trailing_slashes(base@) == spec_trim_trailing_slashes(
                    base@.take(n as int),
                ),
            decreases n,
        {
            proof {
                assert(base@.take(n as int).drop_last() =~= base@.take(n - 1));
            }
            n = n - 1;
        }
        proof {
            assert(spec_trim_trailing_slashes(base@.take(n as int)) == base@.take(n as int));
        }
        base.truncate(n);
        let t = UpstreamTarget { base };
        proof {
            lemma_trimmed_has_no_trailing_slash(base_url@);
        }
        t
    }

    /// The outbound URL for one relayed request: the base followed by the
    /// inbound path-and-query, byte for byte.
    pub fn join(&self, path_and_query: &Vec<u8>) -> (r: Vec<u8>)
        ensures
            r@ == self.base@ + path_and_query@,
    {
        let mut r = crate::headers::clone_bytes(&self.base);
        r.extend_from_slice(path_and_query.as_slice());
        proof {
            assert(r@ =~= self.base@ + path_and_query@);
        }
        r
    }
}

/// Joining a well-formed target with a path that starts with `/` introduces
/// no double slash at the junction: the last base byte is not `/`, and the
/// query string, being part of the appended bytes, is kept whole.
pub proof fn lemma_join_no_double_slash(t: UpstreamTarget, path_and_query: Seq<u8>)
    requires
        t.wf(),
        path_and_query.len() > 0,
        path_and_query[0] == slash(),
    ensures
        forall|i: int|
            0 <= i < t.base@.len() ==> (t.base@ + path_and_query)[i] == t.base@[i],
        (t.base@ + path_and_query)[t.base@.len() as int] == slash(),
        t.base@.len() > 0 ==> (t.base@ + path_and_query)[t.base@.len() - 1] != slash(),
{
}

} // verus!
