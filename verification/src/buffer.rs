//! The byte-stream resynchronizer: one rolling buffer per connection
//! that accumulates arbitrarily chunked reads, scans for frame markers,
//! hands every delimited candidate to the dispatcher, and drops what has
//! been consumed, so that noise or a bad frame never wedges the stream.

use vstd::prelude::*;
use crate::messages::{parse_sysex_message, spec_dispatch, FractalAudioMessages, MessageView};

verus! {

/// The views of a run of decoded messages.
pub open spec fn views_of(s: Seq<FractalAudioMessages>) -> Seq<MessageView> {
    s.map_values(|m: FractalAudioMessages| m@)
}

/// The first option, or the second where the first is empty.
pub open spec fn opt_or(a: Option<int>, b: Option<int>) -> Option<int> {
    if a is Some {
        a
    } else {
        b
    }
}

/// What the end-marker scan for the header at `i` yields from position
/// `n` on: each end marker delimits a candidate slice, and the
/// candidates that dispatch contribute their message, in order.
pub open spec fn inner_scan(c: Seq<u8>, i: int, n: int) -> Seq<MessageView>
    decreases c.len() - n,
{
    if n < 0 || n >= c.len() {
        Seq::empty()
    } else {
        let rest = inner_scan(c, i, n + 1);
        if c[n] == 0xF7 && spec_dispatch(c.subrange(i, n + 1)) is Some {
            seq![spec_dispatch(c.subrange(i, n + 1)).unwrap()] + rest
        } else {
            rest
        }
    }
}

/// The messages the whole scan yields from header position `i` on.
pub open spec fn outer_scan(c: Seq<u8>, i: int) -> Seq<MessageView>
    decreases c.len() - i,
{
    if i < 0 || i >= c.len() {
        Seq::empty()
    } else {
        (if crate::consts::is_header_at(c, i) {
            inner_scan(c, i, i + 4)
        } else {
            Seq::empty()
        }) + outer_scan(c, i + 1)
    }
}

/// Every message one scan of the buffer yields.
pub open spec fn scan_views(c: Seq<u8>) -> Seq<MessageView> {
    outer_scan(c, 0)
}

/// The last end-marker position at or after `n`.
pub open spec fn last_end_from(c: Seq<u8>, n: int) -> Option<int>
    decreases c.len() - n,
{
    if n < 0 || n >= c.len() {
        None
    } else {
        let rest = last_end_from(c, n + 1);
        if rest is Some {
            rest
        } else if c[n] == 0xF7 {
            Some(n)
        } else {
            None
        }
    }
}

/// The scan's high-water mark from header position `i` on: the last end
/// marker seen after a header, whether or not its candidate decoded.
pub open spec fn outer_last(c: Seq<u8>, i: int) -> Option<int>
    decreases c.len() - i,
{
    if i < 0 || i >= c.len() {
        None
    } else {
        opt_or(
            outer_last(c, i + 1),
            if crate::consts::is_header_at(c, i) {
                last_end_from(c, i + 4)
            } else {
                None
            },
        )
    }
}

/// What stays in the buffer after one scan: everything after the
/// high-water mark, or everything when no candidate was delimited.
pub open spec fn spec_remainder(c: Seq<u8>) -> Seq<u8> {
    match outer_last(c, 0) {
        Some(n) => c.subrange(n + 1, c.len() as int),
        None => c,
    }
}

/// One feed of a chunk into a buffer: scan the concatenation, keep the
/// remainder.
pub open spec fn spec_feed(buf: Seq<u8>, m: Seq<u8>) -> (Seq<MessageView>, Seq<u8>) {
    (scan_views(buf + m), spec_remainder(buf + m))
}

/// The rolling receive buffer of one connection.
#[derive(Debug)]
pub struct MessagesBuffer {
    buffer: Vec<u8>,
}

impl View for MessagesBuffer {
    type V = Seq<u8>;

    closed spec fn view(&self) -> Seq<u8> {
        self.buffer@
    }
}

impl MessagesBuffer {
    pub fn new() -> (r: Self)
        ensures
            r@ == Seq::<u8>::empty(),
    {
        let r = MessagesBuffer { buffer: Vec::new() };
        proof {
            assert(r@ =~= Seq::<u8>::empty());
        }
        r
    }

    /// How many bytes wait in the buffer.
    pub fn pending_len(&self) -> (r: usize)
        ensures
            r == self@.len(),
    {
        self.buffer.len()
    }

    /// Feeds one chunk of transport bytes: appends it, scans the whole
    /// buffer for delimited candidates, returns every message that
    /// decoded, and truncates the buffer past the last delimited
    /// candidate.
    pub fn parse(&mut self, msg: &[u8]) -> (ret: Vec<FractalAudioMessages>)
        ensures
            views_of(ret@) == spec_feed(old(self)@, msg@).0,
            final(self)@ == spec_feed(old(self)@, msg@).1,
    {
        let mut k: usize = 0;
        while k < msg.len()
            invariant
                k <= msg@.len(),
                self.buffer@ == old(self)@ + msg@.take(k as int),
            decreases msg@.len() - k,
        {
            self.buffer.push(msg[k]);
            proof {
                assert(old(self)@ + msg@.take(k + 1) =~= (old(self)@ + msg@.take(k as int)).push(
                    msg@[k as int],
                ));
            }
            k = k + 1;
        }
        proof {
            assert(old(self)@ + msg@.take(msg@.len() as int) =~= old(self)@ + msg@);
        }
        let ghost c = self.buffer@;

        let mut ret: Vec<FractalAudioMessages> = Vec::new();
        let mut last: Option<usize> = None;
        let total = self.buffer.len();
        let mut i: usize = 0;
        proof {
            assert(views_of(ret@) =~= Seq::<MessageView>::empty());
        }
        while i < total
            invariant
                total == c.len(),
                i <= total,
                self.buffer@ == c,
                scan_views(c) == views_of(ret@) + outer_scan(c, i as int),
                outer_last(c, 0) == opt_or(
                    outer_last(c, i as int),
                    match last {
                        Some(n) => Some(n as int),
                        None => None,
                    },
                ),
                last matches Some(n) ==> n < c.len(),
            decreases total - i,
        {
            let is_header = total - i >= 4 && self.buffer[i] == 0xF0 && self.buffer[i + 1] == 0x00
                && self.buffer[i + 2] == 0x01 && self.buffer[i + 3] == 0x74;
            proof {
                assert(is_header == crate::consts::is_header_at(c, i as int));
            }
            if is_header {
                let mut n: usize = i + 4;
                while n < total
                    invariant
                        total == c.len(),
                        i + 4 <= n <= total,
                        self.buffer@ == c,
                        crate::consts::is_header_at(c, i as int),
                        scan_views(c) == views_of(ret@) + inner_scan(c, i as int, n as int)
                            + outer_scan(c, i + 1),
                        outer_last(c, 0) == opt_or(
                            outer_last(c, i + 1),
                            opt_or(
                                last_end_from(c, n as int),
                                match last {
                                    Some(m) => Some(m as int),
                                    None => None,
                                },
                            ),
                        ),
                        last matches Some(m) ==> m < c.len(),
                    decreases total - n,
                {
                    if self.buffer[n] == 0xF7 {
                        let frame = &self.buffer.as_slice()[i..n + 1];
                        proof {
                            assert(frame@ =~= c.subrange(i as int, n + 1));
                        }
                        match parse_sysex_message(frame) {
                            Ok(m) => {
                                proof {
                                    assert(views_of(ret@.push(m)) =~= views_of(ret@) + seq![m@]);
                                    assert(views_of(ret@) + (seq![m@] + inner_scan(
                                        c,
                                        i as int,
                                        n + 1,
                                    )) + outer_scan(c, i + 1) =~= (views_of(ret@) + seq![m@])
                                        + inner_scan(c, i as int, n + 1) + outer_scan(c, i + 1));
                                }
                                ret.push(m);
                            },
                            Err(_) => {},
                        }
                        last = Some(n);
                    }
                    n = n + 1;
                }
            }
            i = i + 1;
        }
        proof {
            assert(outer_scan(c, c.len() as int) =~= Seq::<MessageView>::empty());
            assert(views_of(ret@) + Seq::<MessageView>::empty() =~= views_of(ret@));
            assert(scan_views(c) == views_of(ret@));
        }

        match last {
            Some(n) => {
                let nb = vstd::slice::slice_to_vec(&self.buffer.as_slice()[n + 1..total]);
                proof {
                    assert(nb@ =~= c.subrange(n + 1, c.len() as int));
                }
                self.buffer = nb;
            },
            None => {},
        }
        ret
    }
}


proof fn lemma_inner_skip(c: Seq<u8>, i: int, n: int, n2: int)
    requires
        0 <= n <= n2 <= c.len(),
        forall|m: int| n <= m < n2 ==> c[m] != 0xF7,
    ensures
        inner_scan(c, i, n) == inner_scan(c, i, n2),
        last_end_from(c, n) == last_end_from(c, n2),
    decreases n2 - n,
{
    if n < n2 {
        lemma_inner_skip(c, i, n + 1, n2);
    }
}

proof fn lemma_outer_skip(c: Seq<u8>, i: int, i2: int)
    requires
        0 <= i <= i2 <= c.len(),
        forall|m: int| i <= m < i2 ==> !crate::consts::is_header_at(c, m),
    ensures
        outer_scan(c, i) == outer_scan(c, i2),
        outer_last(c, i) == outer_last(c, i2),
    decreases i2 - i,
{
    if i < i2 {
        lemma_outer_skip(c, i + 1, i2);
        assert(outer_scan(c, i) =~= outer_scan(c, i + 1));
    }
}

proof fn lemma_scan_no_end(c: Seq<u8>)
    requires
        forall|m: int| 0 <= m < c.len() ==> c[m] != 0xF7,
    ensures
        scan_views(c) == Seq::<MessageView>::empty(),
        outer_last(c, 0) is None,
        spec_remainder(c) == c,
    decreases c.len(),
{
    lemma_scan_no_end_from(c, 0);
}

proof fn lemma_scan_no_end_from(c: Seq<u8>, i: int)
    requires
        0 <= i,
        forall|m: int| 0 <= m < c.len() ==> c[m] != 0xF7,
    ensures
        outer_scan(c, i) == Seq::<MessageView>::empty(),
        outer_last(c, i) is None,
    decreases c.len() - i,
{
    if i < c.len() {
        lemma_scan_no_end_from(c, i + 1);
        if crate::consts::is_header_at(c, i) {
            lemma_inner_skip(c, i, i + 4, c.len() as int);
        }
        assert(outer_scan(c, i) =~= outer_scan(c, i + 1));
    }
}

/// A proper prefix of a decodable frame holds no end marker, so feeding
/// it yields nothing and leaves it waiting in the buffer.
pub proof fn lemma_scan_frame_prefix(f: Seq<u8>, j: int)
    requires
        spec_dispatch(f) is Some,
        0 <= j < f.len(),
    ensures
        scan_views(f.take(j)) == Seq::<MessageView>::empty(),
        spec_remainder(f.take(j)) == f.take(j),
{
    crate::messages::lemma_dispatch_frame_markers(f);
    let t = f.take(j);
    assert forall|m: int| 0 <= m < t.len() implies t[m] != 0xF7 by {
        assert(t[m] == f[m]);
        if m == 0 {
        } else {
            assert(crate::consts::is_non_marker(f[m]));
        }
    }
    lemma_scan_no_end(t);
}

/// Scanning exactly one decodable frame yields exactly its message and
/// clears the buffer.
pub proof fn lemma_scan_whole_frame(f: Seq<u8>)
    requires
        spec_dispatch(f) is Some,
    ensures
        scan_views(f) == seq![spec_dispatch(f).unwrap()],
        spec_remainder(f) == Seq::<u8>::empty(),
{
    crate::messages::lemma_dispatch_frame_markers(f);
    let len = f.len() as int;
    let e = len - 1;
    assert forall|m: int| 1 <= m < len implies !crate::consts::is_header_at(f, m) by {
        if m + 4 <= len {
            assert(crate::consts::is_non_marker(f[m]) || f[m] == 0xF7);
        }
    }
    lemma_outer_skip(f, 1, len);
    assert forall|m: int| 4 <= m < e implies f[m] != 0xF7 by {
        assert(crate::consts::is_non_marker(f[m]));
    }
    lemma_inner_skip(f, 0, 4, e);
    assert(f.subrange(0, e + 1) =~= f);
    assert(inner_scan(f, 0, e) == seq![spec_dispatch(f).unwrap()] + inner_scan(f, 0, e + 1));
    assert(inner_scan(f, 0, e + 1) =~= Seq::<MessageView>::empty());
    assert(last_end_from(f, e + 1) is None);
    assert(last_end_from(f, e) == Some(e));
    assert(outer_scan(f, 0) == inner_scan(f, 0, 4) + outer_scan(f, 1));
    assert(scan_views(f) =~= seq![spec_dispatch(f).unwrap()]);
    assert(outer_last(f, 0) == Some(e));
    assert(spec_remainder(f) =~= Seq::<u8>::empty());
}

/// Feeding a run of chunks in order: each chunk's messages, in order,
/// and the final buffer.
pub open spec fn feed_all(buf: Seq<u8>, chunks: Seq<Seq<u8>>) -> (Seq<MessageView>, Seq<u8>)
    decreases chunks.len(),
{
    if chunks.len() == 0 {
        (Seq::empty(), buf)
    } else {
        let first = spec_feed(buf, chunks[0]);
        let rest = feed_all(first.1, chunks.drop_first());
        (first.0 + rest.0, rest.1)
    }
}

proof fn lemma_feed_all_empty(chunks: Seq<Seq<u8>>)
    requires
        chunks.flatten() == Seq::<u8>::empty(),
    ensures
        feed_all(Seq::empty(), chunks) == (Seq::<MessageView>::empty(), Seq::<u8>::empty()),
    decreases chunks.len(),
{
    if chunks.len() == 0 {
    } else {
        assert(chunks.flatten() == chunks[0] + chunks.drop_first().flatten());
        assert(chunks[0] =~= Seq::<u8>::empty());
        assert(chunks.drop_first().flatten() =~= Seq::<u8>::empty());
        lemma_feed_all_empty(chunks.drop_first());
        assert(Seq::<u8>::empty() + chunks[0] =~= Seq::<u8>::empty());
        lemma_scan_no_end(Seq::<u8>::empty());
        assert(feed_all(Seq::empty(), chunks).0 =~= Seq::<MessageView>::empty());
    }
}

proof fn lemma_feed_all_partial(f: Seq<u8>, chunks: Seq<Seq<u8>>, k: int)
    requires
        spec_dispatch(f) is Some,
        0 <= k < f.len(),
        chunks.flatten() == f.subrange(k, f.len() as int),
    ensures
        feed_all(f.take(k), chunks) == (
            seq![spec_dispatch(f).unwrap()],
            Seq::<u8>::empty(),
        ),
    decreases chunks.len(),
{
    let len = f.len() as int;
    if chunks.len() == 0 {
        assert(f.subrange(k, len).len() == 0);
        assert(false);
    } else {
        assert(chunks.flatten() == chunks[0] + chunks.drop_first().flatten());
        let c0 = chunks[0];
        let k2 = k + c0.len();
        assert(k2 <= len) by {
            assert(c0.len() <= chunks.flatten().len());
        }
        assert(c0 =~= f.subrange(k, k2)) by {
            assert forall|m: int| 0 <= m < c0.len() implies c0[m] == f[k + m] by {
                assert(chunks.flatten()[m] == c0[m]);
                assert(f.subrange(k, len)[m] == f[k + m]);
            }
        }
        assert(f.take(k) + c0 =~= f.take(k2));
        assert(chunks.drop_first().flatten() =~= f.subrange(k2, len)) by {
            assert forall|m: int| 0 <= m < chunks.drop_first().flatten().len()
                implies chunks.drop_first().flatten()[m] == f[k2 + m] by {
                assert(chunks.flatten()[c0.len() + m] == chunks.drop_first().flatten()[m]);
                assert(f.subrange(k, len)[c0.len() + m] == f[k + c0.len() + m]);
            }
            assert(chunks.flatten().len() == c0.len() + chunks.drop_first().flatten().len());
        }
        if k2 < len {
            lemma_scan_frame_prefix(f, k2);
            assert(spec_feed(f.take(k), c0) == (
                Seq::<MessageView>::empty(),
                f.take(k2),
            ));
            lemma_feed_all_partial(f, chunks.drop_first(), k2);
            assert(Seq::<MessageView>::empty() + seq![spec_dispatch(f).unwrap()] =~= seq![
                spec_dispatch(f).unwrap(),
            ]);
        } else {
            assert(f.take(k2) =~= f);
            lemma_scan_whole_frame(f);
            assert(spec_feed(f.take(k), c0) == (
                seq![spec_dispatch(f).unwrap()],
                Seq::<u8>::empty(),
            ));
            assert(f.subrange(k2, len) =~= Seq::<u8>::empty());
            lemma_feed_all_empty(chunks.drop_first());
            assert(seq![spec_dispatch(f).unwrap()] + Seq::<MessageView>::empty() =~= seq![
                spec_dispatch(f).unwrap(),
            ]);
        }
    }
}

/// Resynchronization under fragmentation: feeding one decodable frame
/// split into any run of chunks yields exactly its one message, the same
/// as feeding it whole, and leaves the buffer empty.
pub proof fn lemma_resync_fragmentation(f: Seq<u8>, chunks: Seq<Seq<u8>>)
    requires
        spec_dispatch(f) is Some,
        chunks.flatten() == f,
    ensures
        feed_all(Seq::empty(), chunks) == (
            seq![spec_dispatch(f).unwrap()],
            Seq::<u8>::empty(),
        ),
        spec_feed(Seq::empty(), f) == (seq![spec_dispatch(f).unwrap()], Seq::<u8>::empty()),
{
    crate::messages::lemma_dispatch_frame_markers(f);
    assert(f.take(0) =~= Seq::<u8>::empty());
    assert(f.subrange(0, f.len() as int) =~= f);
    lemma_feed_all_partial(f, chunks, 0);
    lemma_scan_whole_frame(f);
    assert(Seq::<u8>::empty() + f =~= f);
}


/// Resynchronization under noise: non-marker bytes before, between and
/// after two decodable frames leave exactly the two messages, in order,
/// and only the trailing noise in the buffer (an empty buffer when
/// nothing trails the second frame).
pub proof fn lemma_resync_noise(n1: Seq<u8>, f1: Seq<u8>, n2: Seq<u8>, f2: Seq<u8>, n3: Seq<u8>)
    requires
        spec_dispatch(f1) is Some,
        spec_dispatch(f2) is Some,
        forall|i: int| 0 <= i < n1.len() ==> crate::consts::is_non_marker(#[trigger] n1[i]),
        forall|i: int| 0 <= i < n2.len() ==> crate::consts::is_non_marker(#[trigger] n2[i]),
        forall|i: int| 0 <= i < n3.len() ==> crate::consts::is_non_marker(#[trigger] n3[i]),
    ensures
        scan_views(n1 + f1 + n2 + f2 + n3) == seq![
            spec_dispatch(f1).unwrap(),
            spec_dispatch(f2).unwrap(),
        ],
        spec_remainder(n1 + f1 + n2 + f2 + n3) == n3,
{
    crate::messages::lemma_dispatch_frame_markers(f1);
    crate::messages::lemma_dispatch_frame_markers(f2);
    let c = n1 + f1 + n2 + f2 + n3;
    let len = c.len() as int;
    let s1 = n1.len() as int;
    let e1 = s1 + f1.len() - 1;
    let s2 = e1 + 1 + n2.len();
    let e2 = s2 + f2.len() - 1;
    assert(len == e2 + 1 + n3.len());

    assert forall|m: int| 0 <= m < len implies c[m] == (if m < s1 {
        n1[m]
    } else if m <= e1 {
        f1[m - s1]
    } else if m < s2 {
        n2[m - (e1 + 1)]
    } else if m <= e2 {
        f2[m - s2]
    } else {
        n3[m - (e2 + 1)]
    }) by {}

    assert forall|m: int| 0 <= m < len && m != s1 && m != s2 implies c[m] != 0xF0 by {
        if m < s1 {
        } else if m <= e1 {
            if m - s1 > 0 && m - s1 < f1.len() - 1 {
                assert(crate::consts::is_non_marker(f1[m - s1]));
            }
        } else if m < s2 {
        } else if m <= e2 {
            if m - s2 > 0 && m - s2 < f2.len() - 1 {
                assert(crate::consts::is_non_marker(f2[m - s2]));
            }
        } else {
        }
    }
    assert forall|m: int| 0 <= m < len && m != e1 && m != e2 implies c[m] != 0xF7 by {
        if m < s1 {
        } else if m <= e1 {
            if m - s1 > 0 && m - s1 < f1.len() - 1 {
                assert(crate::consts::is_non_marker(f1[m - s1]));
            }
        } else if m < s2 {
        } else if m <= e2 {
            if m - s2 > 0 && m - s2 < f2.len() - 1 {
                assert(crate::consts::is_non_marker(f2[m - s2]));
            }
        } else {
        }
    }

    assert(crate::consts::is_header_at(c, s1));
    assert(crate::consts::is_header_at(c, s2));
    assert(forall|m: int|
        0 <= m < len && m != s1 && m != s2 ==> !crate::consts::is_header_at(c, m));

    // The two frames stand as slices of the stream.
    assert(c.subrange(s1, e1 + 1) =~= f1);
    assert(c.subrange(s2, e2 + 1) =~= f2);

    // The scan from the second header on.
    lemma_outer_skip(c, s2 + 1, len);
    lemma_inner_skip(c, s2, s2 + 4, e2);
    assert(inner_scan(c, s2, e2 + 1) =~= Seq::<MessageView>::empty()) by {
        lemma_inner_skip(c, s2, e2 + 1, len);
    }
    assert(last_end_from(c, e2 + 1) is None) by {
        lemma_inner_skip(c, s2, e2 + 1, len);
    }
    assert(inner_scan(c, s2, e2) == seq![spec_dispatch(f2).unwrap()] + inner_scan(c, s2, e2 + 1));
    assert(inner_scan(c, s2, s2 + 4) =~= seq![spec_dispatch(f2).unwrap()]);
    assert(last_end_from(c, e2) == Some(e2));
    assert(last_end_from(c, s2 + 4) == Some(e2));
    assert(outer_scan(c, s2) =~= seq![spec_dispatch(f2).unwrap()]);
    assert(outer_last(c, s2) == Some(e2));

    // The scan for the first header: its own frame decodes; the longer
    // candidate, which runs through the first end marker, never does.
    lemma_inner_skip(c, s1, s1 + 4, e1);
    assert(inner_scan(c, s1, e1) == seq![spec_dispatch(f1).unwrap()] + inner_scan(c, s1, e1 + 1));
    lemma_inner_skip(c, s1, e1 + 1, e2);
    let g = c.subrange(s1, e2 + 1);
    assert(g[e1 - s1] == 0xF7);
    assert(0 < e1 - s1 < g.len() - 1);
    crate::messages::lemma_interior_marker_no_dispatch(g, e1 - s1);
    assert(inner_scan(c, s1, e2) == inner_scan(c, s1, e2 + 1));
    lemma_inner_skip(c, s1, e2 + 1, len);
    assert(inner_scan(c, s1, s1 + 4) =~= seq![spec_dispatch(f1).unwrap()]);

    // Assemble the whole scan.
    lemma_outer_skip(c, 0, s1);
    lemma_outer_skip(c, s1 + 1, s2);
    assert(outer_scan(c, s1) == inner_scan(c, s1, s1 + 4) + outer_scan(c, s1 + 1));
    assert(scan_views(c) =~= seq![spec_dispatch(f1).unwrap(), spec_dispatch(f2).unwrap()]);
    assert(outer_last(c, s1) == Some(e2));
    assert(outer_last(c, 0) == Some(e2));
    assert(spec_remainder(c) =~= n3);
}

/// A checksum-mismatched frame is dropped, not fatal: corrupting one
/// payload byte of a well-formed frame in its low seven bits yields no
/// message from it, and a following valid frame in the same stream still
/// decodes, leaving the buffer empty.
pub proof fn lemma_corrupt_frame_dropped(f1: Seq<u8>, pos: int, nb: u8, f2: Seq<u8>)
    requires
        spec_dispatch(f1) is Some,
        spec_dispatch(f2) is Some,
        6 <= pos < f1.len() - 2,
        crate::consts::is_non_marker(nb),
        nb & 0x7F != f1[pos] & 0x7F,
    ensures
        spec_dispatch(f1.update(pos, nb)) is None,
        scan_views(f1.update(pos, nb) + f2) == seq![spec_dispatch(f2).unwrap()],
        spec_remainder(f1.update(pos, nb) + f2) == Seq::<u8>::empty(),
{
    crate::messages::lemma_dispatch_frame_markers(f1);
    crate::messages::lemma_dispatch_frame_markers(f2);
    let g = f1.update(pos, nb);
    let glen = g.len() as int;

    // The corrupted frame fails its checksum, so no schema takes it.
    assert(g.take(glen - 2) =~= f1.take(glen - 2).update(pos, nb));
    crate::checksum::lemma_checksum_differs(f1.take(glen - 2), g.take(glen - 2), pos);
    assert(g[glen - 2] == f1[glen - 2]);
    assert(!crate::messages::spec_frame_env_ok(g));
    assert(spec_dispatch(g) is None);

    let c = g + f2;
    let len = c.len() as int;
    let e1 = glen - 1;
    let s2 = glen;
    let e2 = len - 1;

    assert forall|m: int| 0 <= m < len && m != 0 && m != s2 implies c[m] != 0xF0 by {
        if m <= e1 {
            if 0 < m < glen - 1 {
                if m == pos {
                } else {
                    assert(crate::consts::is_non_marker(f1[m]));
                }
            }
        } else {
            if 0 < m - s2 < f2.len() - 1 {
                assert(crate::consts::is_non_marker(f2[m - s2]));
            }
        }
    }
    assert forall|m: int| 0 <= m < len && m != e1 && m != e2 implies c[m] != 0xF7 by {
        if m <= e1 {
            if 0 < m < glen - 1 {
                if m == pos {
                } else {
                    assert(crate::consts::is_non_marker(f1[m]));
                }
            }
        } else {
            if 0 < m - s2 < f2.len() - 1 {
                assert(crate::consts::is_non_marker(f2[m - s2]));
            }
        }
    }

    assert(crate::consts::is_header_at(c, 0));
    assert(crate::consts::is_header_at(c, s2));
    assert(forall|m: int| 0 <= m < len && m != 0 && m != s2 ==> !crate::consts::is_header_at(c, m));

    assert(c.subrange(0, e1 + 1) =~= g);
    assert(c.subrange(s2, e2 + 1) =~= f2);

    // Second header: its frame decodes.
    lemma_outer_skip(c, s2 + 1, len);
    lemma_inner_skip(c, s2, s2 + 4, e2);
    assert(inner_scan(c, s2, e2 + 1) =~= Seq::<MessageView>::empty()) by {
        lemma_inner_skip(c, s2, e2 + 1, len);
    }
    assert(last_end_from(c, e2 + 1) is None) by {
        lemma_inner_skip(c, s2, e2 + 1, len);
    }
    assert(inner_scan(c, s2, s2 + 4) =~= seq![spec_dispatch(f2).unwrap()]);
    assert(last_end_from(c, s2 + 4) == Some(e2));
    assert(outer_scan(c, s2) =~= seq![spec_dispatch(f2).unwrap()]);
    assert(outer_last(c, s2) == Some(e2));

    // First header: the corrupted candidate fails, and the long
    // candidate through the interior end marker fails too.
    lemma_inner_skip(c, 0, 4, e1);
    assert(inner_scan(c, 0, e1) == inner_scan(c, 0, e1 + 1));
    lemma_inner_skip(c, 0, e1 + 1, e2);
    let w = c.subrange(0, e2 + 1);
    assert(w[e1] == 0xF7);
    assert(0 < e1 < w.len() - 1);
    crate::messages::lemma_interior_marker_no_dispatch(w, e1);
    assert(inner_scan(c, 0, e2) == inner_scan(c, 0, e2 + 1));
    lemma_inner_skip(c, 0, e2 + 1, len);
    assert(inner_scan(c, 0, 4) =~= Seq::<MessageView>::empty());

    lemma_outer_skip(c, 1, s2);
    assert(outer_scan(c, 0) == inner_scan(c, 0, 4) + outer_scan(c, 1));
    assert(scan_views(c) =~= seq![spec_dispatch(f2).unwrap()]);
    assert(outer_last(c, 0) == Some(e2));
    assert(spec_remainder(c) =~= Seq::<u8>::empty());
}

} // verus!
