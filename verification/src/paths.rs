//! A byte-level model of filesystem paths: joining a single segment under a
//! base directory, and what it means for the result to stay confined there.

use vstd::prelude::*;
use crate::bytes::push_all;
use crate::mac::is_b64_url_byte;

verus! {

/// The path separator byte, `/`.
pub const SLASH: u8 = 47;

/// The byte `.`.
pub const DOT: u8 = 46;

/// A safe path segment: nonempty, free of separators, and neither of the
/// two relative names that climb the tree.
pub open spec fn is_safe_segment(s: Seq<u8>) -> bool {
    s.len() > 0
    && (forall|i: int| 0 <= i < s.len() ==> s[i] != SLASH)
    && s != seq![DOT]
    && s != seq![DOT, DOT]
}

/// `base` with one more path component `seg` below it.
pub open spec fn joined(base: Seq<u8>, seg: Seq<u8>) -> Seq<u8> {
    base + seq![SLASH] + seg
}

/// `p` names an entry strictly inside `base`: it extends `base` with a
/// separator and one safe segment, so resolving it can never leave `base`.
pub open spec fn is_strict_descendant(p: Seq<u8>, base: Seq<u8>) -> bool {
    p.len() > base.len() + 1
    && p.take(base.len() as int) == base
    && p[base.len() as int] == SLASH
    && is_safe_segment(p.skip(base.len() as int + 1))
}

/// Joining a safe segment under any base yields a strict descendant.
pub proof fn lemma_join_confines(base: Seq<u8>, seg: Seq<u8>)
    requires
        is_safe_segment(seg),
    ensures
        is_strict_descendant(joined(base, seg), base),
{
    let p = joined(base, seg);
    assert(p.take(base.len() as int) =~= base);
    assert(p.skip(base.len() as int + 1) =~= seg);
}

/// Path confinement: any nonempty run of URL-safe base64 bytes is a safe
/// segment, so every derived scramble keeps its directory strictly inside
/// the storage root.
pub proof fn lemma_scramble_confined(base: Seq<u8>, seg: Seq<u8>)
    requires
        seg.len() > 0,
        forall|i: int| 0 <= i < seg.len() ==> is_b64_url_byte(seg[i]),
    ensures
        is_strict_descendant(joined(base, seg), base),
{
    assert(forall|i: int| 0 <= i < seg.len() ==> seg[i] != SLASH);
    assert(seg[0] != DOT);
    assert(seg != seq![DOT]);
    assert(seg != seq![DOT, DOT]);
    lemma_join_confines(base, seg);
}

/// Builds `joined(base, seg)` as bytes.
pub fn join_under(base: &Vec<u8>, seg: &Vec<u8>) -> (p: Vec<u8>)
    ensures
        p@ == joined(base@, seg@),
{
    let mut p: Vec<u8> = Vec::new();
    push_all(&mut p, base.as_slice());
    p.push(SLASH);
    push_all(&mut p, seg.as_slice());
    proof {
        assert(p@ =~= joined(base@, seg@));
    }
    p
}

} // verus!
