//! The header sanitizer: an inbound header set becomes an outbound header set
//! by removing, case-insensitively, the fixed denylist of hop-by-hop and
//! client-identifying names, plus `content-length` (the outbound transport
//! recomputes the length or streams with chunked encoding).  Every other
//! header passes through unchanged, in order.

use vstd::prelude::*;
use crate::ascii::{bytes_of, lower_bytes, to_lower, bytes_eq, str_bytes};

verus! {

/// One HTTP header: a name and a value, both byte strings.
pub struct Header {
    pub name: Vec<u8>,
    pub value: Vec<u8>,
}

impl View for Header {
    type V = (Seq<u8>, Seq<u8>);

    open spec fn view(&self) -> (Seq<u8>, Seq<u8>) {
        (self.name@, self.value@)
    }
}

/// The mathematical image of a header list.
pub open spec fn header_views(hs: Seq<Header>) -> Seq<(Seq<u8>, Seq<u8>)> {
    hs.map_values(|h: Header| h@)
}

/// Whether a header name is on the outbound denylist, compared after ASCII
/// lowercasing.  `host` must be recomputed for the new destination; the
/// `cf-*`, `x-forwarded-for` and `x-real-ip` names carry client-identifying
/// network metadata that must not reach the upstream; `content-length` is
/// dropped because the outbound transport determines the length itself.
pub open spec fn denied_name(name: Seq<u8>) -> bool {
    let l = lower_bytes(name);
    ||| l == bytes_of("host"@)
    ||| l == bytes_of("cf-connecting-ip"@)
    ||| l == bytes_of("cf-ipcountry"@)
    ||| l == bytes_of("x-forwarded-for"@)
    ||| l == bytes_of("x-real-ip"@)
    ||| l == bytes_of("content-length"@)
}

/// The sanitized image of a header set: exactly the entries whose name is not
/// denied, in their original order, values untouched.
pub open spec fn spec_sanitize(hs: Seq<(Seq<u8>, Seq<u8>)>) -> Seq<(Seq<u8>, Seq<u8>)> {
    hs.filter(|h: (Seq<u8>, Seq<u8>)| !denied_name(h.0))
}

/// Whether a header name is on the outbound denylist, executable form.
pub fn is_denied_name(name: &Vec<u8>) -> (r: bool)
    ensures
        r == denied_name(name@),
{
    proof {
        reveal_strlit("host");
        reveal_strlit("cf-connecting-ip");
        reveal_strlit("cf-ipcountry");
        reveal_strlit("x-forwarded-for");
        reveal_strlit("x-real-ip");
        reveal_strlit("content-length");
    }
    let l = to_lower(name);
    if bytes_eq(&l, &str_bytes("host")) {
        return true;
    }
    if bytes_eq(&l, &str_bytes("cf-connecting-ip")) {
        return true;
    }
    if bytes_eq(&l, &str_bytes("cf-ipcountry")) {
        return true;
    }
    if bytes_eq(&l, &str_bytes("x-forwarded-for")) {
        return true;
    }
    if bytes_eq(&l, &str_bytes("x-real-ip")) {
        return true;
    }
    if bytes_eq(&l, &str_bytes("content-length")) {
        return true;
    }
    false
}

/// Sanitize a header list: keep exactly the entries whose name is not on the
/// denylist, preserving order and values.
pub fn sanitize(headers: Vec<Header>) -> (r: Vec<Header>)
    ensures
        header_views(r@) == spec_sanitize(header_views(headers@)),
{
    broadcast use vstd::seq_lib::group_filter_ensures;

    let ghost pred = |h: (Seq<u8>, Seq<u8>)| !denied_name(h.0);
    let mut r: Vec<Header> = Vec::new();
    let mut i: usize = 0;
    while i < headers.len()
        invariant
            i <= headers.len(),
            header_views(r@) =~= spec_sanitize(header_views(headers@.take(i as int))),
        decreases headers.len() - i,
    {
        let h = &headers[i];
        let keep = !is_denied_name(&h.name);
        proof {
            reveal(Seq::filter);
            let hv = header_views(headers@.take(i + 1));
            assert(hv.drop_last() =~= header_views(headers@.take(i as int)));
            assert(hv.last() == headers@[i as int]@);
        }
        if keep {
            r.push(Header { name: clone_bytes(&h.name), value: clone_bytes(&h.value) });
        }
        i = i + 1;
        proof {
            assert(header_views(r@) =~= spec_sanitize(header_views(headers@.take(i as int))));
        }
    }
    proof {
        assert(headers@.take(headers@.len() as int) =~= headers@);
    }
    r
}

/// Copy a byte string.
pub fn clone_bytes(b: &Vec<u8>) -> (r: Vec<u8>)
    ensures
        r@ == b@,
{
    let r = b.clone();
    proof {
        assert(r@ =~= b@);
    }
    r
}

/// No denied name survives sanitization: the outbound set holds no `host`,
/// `cf-connecting-ip`, `cf-ipcountry`, `x-forwarded-for`, `x-real-ip` or
/// `content-length` entry.
pub proof fn lemma_sanitize_removes_denied(hs: Seq<(Seq<u8>, Seq<u8>)>)
    ensures
        forall|i: int|
            0 <= i < spec_sanitize(hs).len() ==> !denied_name(#[trigger] spec_sanitize(hs)[i].0),
{
    broadcast use vstd::seq_lib::group_filter_ensures;

}

/// Every header whose name is not denied survives sanitization unchanged,
/// name and value both.
pub proof fn lemma_sanitize_keeps_others(hs: Seq<(Seq<u8>, Seq<u8>)>)
    ensures
        forall|i: int|
            0 <= i < hs.len() && !denied_name(hs[i].0) ==> #[trigger] spec_sanitize(hs).contains(
                hs[i],
            ),
{
    broadcast use vstd::seq_lib::group_filter_ensures;

}

/// A sequence all of whose elements satisfy the filter predicate is its own
/// filtrate.
proof fn lemma_filter_all_kept<A>(s: Seq<A>, pred: spec_fn(A) -> bool)
    requires
        forall|i: int| 0 <= i < s.len() ==> pred(#[trigger] s[i]),
    ensures
        s.filter(pred) == s,
    decreases s.len(),
{
    reveal(Seq::filter);
    if s.len() > 0 {
        lemma_filter_all_kept(s.drop_last(), pred);
        assert(s.filter(pred) =~= s);
    } else {
        assert(s.filter(pred) =~= s);
    }
}

/// Sanitizing is idempotent: sanitizing an already sanitized header set
/// changes nothing.
pub proof fn lemma_sanitize_idempotent(hs: Seq<(Seq<u8>, Seq<u8>)>)
    ensures
        spec_sanitize(spec_sanitize(hs)) == spec_sanitize(hs),
{
    lemma_sanitize_removes_denied(hs);
    lemma_filter_all_kept(spec_sanitize(hs), |h: (Seq<u8>, Seq<u8>)| !denied_name(h.0));
}

} // verus!
