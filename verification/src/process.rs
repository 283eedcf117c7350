use vstd::prelude::*;

verus! {

/// How many bytes of a child's stderr are kept for error reports.
pub const STDERR_TAIL_LIMIT: usize = 65536;

/// The newest `limit` bytes of `s` (all of `s` when it is no longer).
pub open spec fn spec_tail(s: Seq<u8>, limit: int) -> Seq<u8> {
    if s.len() > limit {
        s.subrange(s.len() - limit, s.len() as int)
    } else {
        s
    }
}

/// Append `bytes` to `tail`, then drop the oldest bytes until at most
/// `limit` remain.
pub fn append_tail(tail: &mut Vec<u8>, bytes: &[u8], limit: usize)
    requires
        old(tail)@.len() + bytes@.len() <= usize::MAX,
    ensures
        final(tail)@ == spec_tail(old(tail)@ + bytes@, limit as int),
        final(tail)@.len() <= limit || final(tail)@ == old(tail)@ + bytes@,
{
    let ghost joined = old(tail)@ + bytes@;
    let old_len = tail.len();
    let total = old_len + bytes.len();
    let start: usize = if total > limit { total - limit } else { 0 };
    let mut kept: Vec<u8> = Vec::new();
    let mut i: usize = start;
    while i < total
        invariant
            start <= i <= total,
            total == joined.len(),
            old_len == tail@.len(),
            joined == tail@ + bytes@,
            kept@ == joined.subrange(start as int, i as int),
        decreases total - i,
    {
        let b: u8 = if i < old_len { tail[i] } else { bytes[i - old_len] };
        kept.push(b);
        assert(kept@ == joined.subrange(start as int, i + 1));
        i = i + 1;
    }
    *tail = kept;
}

} // verus!
