//! Scanning a buffer that grows: every frame of a buffer in one pass, and a
//! scanner that keeps what is left between two deliveries of bytes.

use crate::frame::{
    frame_at, lemma_noise_from_bounds, lemma_noise_len_unique, lemma_scan_spec_bounds,
    may_start_marker, noise_len, scan, scan_spec, ScanResult, ScanView,
};
use vstd::prelude::*;
use vstd::slice::slice_subrange;

verus! {

/// The results a pass over `b` reports, in order, and the number of bytes the
/// pass is done with.
///
/// The pass scans, drops what the scan consumed and scans again, until a
/// scan finds no frame. Each frame and each refusal is reported; the final
/// `NoFrame` is not.
pub open spec fn drain_spec(b: Seq<u8>) -> (Seq<ScanView>, int)
    decreases b.len(),
{
    let step = scan_spec(b);
    if step.0 is NoFrame {
        (Seq::empty(), step.1)
    } else {
        proof {
            lemma_scan_spec_bounds(b);
        }
        let rest = drain_spec(b.skip(step.1));
        (seq![step.0] + rest.0, step.1 + rest.1)
    }
}

/// The views of a list of scan results.
pub open spec fn scan_views(results: Seq<ScanResult>) -> Seq<ScanView> {
    Seq::new(results.len(), |i: int| results[i]@)
}

/// A pass is done with no more bytes than there are, and reports no `NoFrame`.
pub proof fn lemma_drain_spec_bounds(b: Seq<u8>)
    ensures
        0 <= drain_spec(b).1 <= b.len(),
        forall|i: int| 0 <= i < drain_spec(b).0.len() ==> !(drain_spec(b).0[i] is NoFrame),
    decreases b.len(),
{
    lemma_scan_spec_bounds(b);
    let step = scan_spec(b);
    if !(step.0 is NoFrame) {
        lemma_drain_spec_bounds(b.skip(step.1));
    }
}

/// Reads every frame that `buffer` holds.
///
/// Returns the frames and refusals in the order met, and how many leading
/// bytes of `buffer` are done with. The rest is an unfinished frame, or
/// the first half of a marker: the caller keeps it for the next pass.
pub fn drain(buffer: &[u8]) -> (r: (Vec<ScanResult>, usize))
    ensures
        scan_views(r.0@) == drain_spec(buffer@).0,
        r.1 as int == drain_spec(buffer@).1,
        r.1 <= buffer.len(),
{
    let mut results: Vec<ScanResult> = Vec::new();
    let mut pos: usize = 0;
    let len: usize = buffer.len();
    assert(buffer@.skip(0) =~= buffer@);
    assert(scan_views(results@) =~= Seq::<ScanView>::empty());
    loop
        invariant_except_break
            pos <= len,
            len == buffer.len(),
            drain_spec(buffer@) == (
                scan_views(results@) + drain_spec(buffer@.skip(pos as int)).0,
                pos + drain_spec(buffer@.skip(pos as int)).1,
            ),
        ensures
            pos <= len,
            scan_views(results@) == drain_spec(buffer@).0,
            pos as int == drain_spec(buffer@).1,
        decreases len - pos,
    {
        let ghost rest = buffer@.skip(pos as int);
        let step = scan(slice_subrange(buffer, pos, len));
        proof {
            assert(buffer@.subrange(pos as int, len as int) =~= rest);
            lemma_scan_spec_bounds(rest);
            assert(rest.skip(step.1 as int) =~= buffer@.skip(pos + step.1));
        }
        match step.0 {
            ScanResult::NoFrame => {
                pos = pos + step.1;
                proof {
                    assert(scan_views(results@) + Seq::<ScanView>::empty() =~= scan_views(
                        results@,
                    ));
                }
                break ;
            },
            found => {
                let ghost before = results@;
                results.push(found);
                pos = pos + step.1;
                proof {
                    let after = drain_spec(buffer@.skip(pos as int));
                    assert(scan_views(results@) =~= scan_views(before) + seq![found@]);
                    assert(scan_views(before) + (seq![found@] + after.0) =~= scan_views(
                        results@,
                    ) + after.0);
                }
            },
        }
    }
    (results, pos)
}

/// Bytes appended to a buffer cannot move the place where its noise ends
/// to the left.
proof fn lemma_noise_len_extend(x: Seq<u8>, y: Seq<u8>)
    ensures
        noise_len(x) <= noise_len(x + y),
        noise_len(x) + 1 < x.len() ==> noise_len(x + y) == noise_len(x),
{
    let n = noise_len(x);
    let z = x + y;
    lemma_noise_from_bounds(x, 0);
    lemma_noise_from_bounds(z, 0);
    let m = noise_len(z);
    if m < n {
        assert(may_start_marker(z, m));
        assert(!may_start_marker(x, m));
    }
    if n + 1 < x.len() {
        assert(may_start_marker(x, n));
        assert(may_start_marker(z, n));
        if n < m {
            assert(!may_start_marker(z, n));
        }
    }
}

/// Dropping leading noise does not change where the rest of the noise ends.
proof fn lemma_noise_len_skip(b: Seq<u8>, c: int)
    requires
        0 <= c <= noise_len(b),
    ensures
        noise_len(b.skip(c)) == noise_len(b) - c,
{
    lemma_noise_from_bounds(b, 0);
    let n = noise_len(b);
    let t = b.skip(c);
    assert forall|j: int| 0 <= j < n - c implies !may_start_marker(t, j) by {
        assert(!may_start_marker(b, j + c));
    }
    if n - c < t.len() {
        assert(may_start_marker(b, n));
    }
    lemma_noise_len_unique(t, n - c);
}

/// A frame or a refusal read at a marker is read again, unchanged, when more
/// bytes follow.
proof fn lemma_frame_at_extend(s: Seq<u8>, y: Seq<u8>)
    requires
        !(frame_at(s).0 is NoFrame),
    ensures
        frame_at(s + y) == frame_at(s),
{
    reveal(frame_at);
    let z = s + y;
    if s.len() >= 5 {
        let declared = if s[4] == crate::frame::ACK_SENTINEL {
            3int
        } else {
            s[3] as int
        };
        let end = 2 + declared;
        if declared >= 3 && s.len() >= end + 2 {
            assert(z.subrange(2, end) =~= s.subrange(2, end));
            assert(z.subrange(5, end) =~= s.subrange(5, end));
        }
    }
}

/// A scan that found a frame or a refusal finds the same, and consumes the
/// same, when more bytes follow.
pub proof fn lemma_scan_spec_extend(x: Seq<u8>, y: Seq<u8>)
    requires
        !(scan_spec(x).0 is NoFrame),
    ensures
        scan_spec(x + y) == scan_spec(x),
{
    let n = noise_len(x);
    lemma_noise_from_bounds(x, 0);
    assert(x.skip(n).len() >= 3) by {
        reveal(frame_at);
    }
    lemma_noise_len_extend(x, y);
    assert((x + y).skip(n) =~= x.skip(n) + y);
    lemma_frame_at_extend(x.skip(n), y);
}

/// Dropping leading noise changes nothing of a scan but the count of what
/// it consumed.
pub proof fn lemma_scan_spec_skip_noise(b: Seq<u8>, c: int)
    requires
        0 <= c <= noise_len(b),
    ensures
        scan_spec(b) == (scan_spec(b.skip(c)).0, c + scan_spec(b.skip(c)).1),
{
    lemma_noise_from_bounds(b, 0);
    lemma_noise_len_skip(b, c);
    assert(b.skip(c).skip(noise_len(b) - c) =~= b.skip(noise_len(b)));
}

/// A buffer split in two and read in two passes gives what one pass over the
/// whole gives.
///
/// The first pass reads the first `k` bytes. What it is not done with is put
/// before the rest of the buffer and read by the second pass. The results of
/// the two passes, one after the other, are the results of a single pass, and
/// so is the number of bytes consumed.
pub proof fn lemma_drain_split(b: Seq<u8>, k: int)
    requires
        0 <= k <= b.len(),
    ensures
        ({
            let first = drain_spec(b.take(k));
            let second = drain_spec(b.take(k).skip(first.1) + b.skip(k));
            drain_spec(b) == (first.0 + second.0, first.1 + second.1)
        }),
    decreases k,
{
    let x = b.take(k);
    let y = b.skip(k);
    assert(x + y =~= b);
    let step = scan_spec(x);
    lemma_scan_spec_bounds(x);
    let first = drain_spec(x);
    let second = drain_spec(x.skip(first.1) + y);
    if step.0 is NoFrame {
        let c = step.1;
        lemma_noise_len_extend(x, y);
        lemma_scan_spec_skip_noise(b, c);
        assert(b.skip(c) =~= x.skip(c) + y);
        let inner = scan_spec(x.skip(c) + y);
        lemma_scan_spec_bounds(x.skip(c) + y);
        assert(first.0 + second.0 =~= second.0);
        if !(inner.0 is NoFrame) {
            assert(b.skip(c + inner.1) =~= (x.skip(c) + y).skip(inner.1));
        }
    } else {
        let c = step.1;
        lemma_scan_spec_extend(x, y);
        let b2 = b.skip(c);
        assert(b2.take(k - c) =~= x.skip(c));
        assert(b2.skip(k - c) =~= y);
        lemma_drain_split(b2, k - c);
        let inner = drain_spec(x.skip(c));
        lemma_drain_spec_bounds(x.skip(c));
        assert(x.skip(c).skip(inner.1) =~= x.skip(c + inner.1));
        let tail = drain_spec(x.skip(c).skip(inner.1) + y);
        assert(seq![step.0] + (inner.0 + tail.0) =~= (seq![step.0] + inner.0) + tail.0);
    }
}

/// A scanner that is fed bytes as they arrive and keeps the unfinished end
/// of the stream between two deliveries.
#[derive(Debug)]
pub struct FrameScanner {
    pending: Vec<u8>,
}

impl View for FrameScanner {
    type V = Seq<u8>;

    /// The bytes received and not yet consumed.
    closed spec fn view(&self) -> Seq<u8> {
        self.pending@
    }
}

impl FrameScanner {
    /// A scanner that holds no bytes.
    pub fn new() -> (scanner: FrameScanner)
        ensures
            scanner@ == Seq::<u8>::empty(),
    {
        FrameScanner { pending: Vec::new() }
    }

    /// The bytes received and not yet consumed.
    pub fn pending(&self) -> (bytes: &[u8])
        ensures
            bytes@ == self@,
    {
        self.pending.as_slice()
    }

    /// Takes in `bytes` and reads every frame that is now complete.
    ///
    /// The results are those of one pass over the bytes held before followed
    /// by `bytes`; what that pass is not done with is held for the next call.
    pub fn push(&mut self, bytes: &[u8]) -> (results: Vec<ScanResult>)
        ensures
            scan_views(results@) == drain_spec(old(self)@ + bytes@).0,
            final(self)@ == (old(self)@ + bytes@).skip(drain_spec(old(self)@ + bytes@).1),
    {
        let mut i: usize = 0;
        while i < bytes.len()
            invariant
                i <= bytes.len(),
                self.pending@ == old(self).pending@ + bytes@.take(i as int),
            decreases bytes.len() - i,
        {
            self.pending.push(bytes[i]);
            i += 1;
            assert(bytes@.take(i as int) =~= bytes@.take(i - 1).push(bytes@[i - 1]));
            assert(self.pending@ =~= old(self).pending@ + bytes@.take(i as int));
        }
        assert(bytes@.take(i as int) =~= bytes@);
        let (results, consumed) = drain(self.pending.as_slice());
        let rest: Vec<u8> = self.pending.split_off(consumed);
        assert(rest@ =~= (old(self).pending@ + bytes@).skip(consumed as int));
        self.pending = rest;
        results
    }
}

} // verus!
