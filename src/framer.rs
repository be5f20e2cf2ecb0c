use vstd::arithmetic::div_mod::{
    lemma_div_pos_is_pos,
    lemma_fundamental_div_mod,
    lemma_fundamental_div_mod_converse,
    lemma_mod_pos_bound,
};
use vstd::prelude::*;

verus! {

/// The frames that a sample stream `s` splits into: one for every whole
/// `len` samples, in order.
pub open spec fn frames_of(s: Seq<i16>, len: nat) -> Seq<Seq<i16>>
    recommends
        len > 0,
{
    Seq::new(s.len() / len, |k: int| s.subrange(k * len, k * len + len))
}

/// What is left of `s` after its whole frames: the partial frame.
pub open spec fn tail_of(s: Seq<i16>, len: nat) -> Seq<i16>
    recommends
        len > 0,
{
    s.subrange((s.len() / len) * len as int, s.len() as int)
}

/// The views of a list of frames.
pub open spec fn frames_view(v: Seq<Vec<i16>>) -> Seq<Seq<i16>> {
    v.map_values(|f: Vec<i16>| f@)
}

/// Frame `k` of length `len` ends within the first `q` frames.
proof fn lemma_frame_within(k: int, q: int, len: int)
    requires
        0 <= k < q,
        len > 0,
    ensures
        0 <= k * len,
        k * len + len <= q * len,
{
    assert(0 <= k * len) by (nonlinear_arith)
        requires
            0 <= k,
            len > 0,
    ;
    assert(k * len + len <= q * len) by (nonlinear_arith)
        requires
            k < q,
            len > 0,
    ;
}

/// The frames and the tail of `s` are those of any split `s == q * len + r`
/// with `r < len` that the caller already holds.
proof fn lemma_frames_by_count(s: Seq<i16>, len: nat, f: Seq<Seq<i16>>, p: Seq<i16>)
    requires
        len > 0,
        p.len() < len,
        s.len() == f.len() * len + p.len(),
        forall|k: int| 0 <= k < f.len() ==> #[trigger] f[k] == s.subrange(k * len, k * len + len),
        p == s.subrange((f.len() * len) as int, s.len() as int),
    ensures
        frames_of(s, len) == f,
        tail_of(s, len) == p,
{
    lemma_fundamental_div_mod_converse(s.len() as int, len as int, f.len() as int, p.len() as int);
    assert(frames_of(s, len) =~= f);
}

/// A count of samples splits into whole frames and a remainder.
proof fn lemma_split(n: int, len: int)
    requires
        0 <= n,
        0 < len,
    ensures
        0 <= n / len,
        0 <= n % len < len,
        n == (n / len) * len + n % len,
{
    lemma_div_pos_is_pos(n, len);
    lemma_mod_pos_bound(n, len);
    lemma_fundamental_div_mod(n, len);
    assert(len * (n / len) == (n / len) * len) by (nonlinear_arith);
}

/// Appending `c` to a stream `s`: the whole frames of `s`, then those of its
/// tail followed by `c`, are the whole frames of `s + c`; and what is left is
/// the same either way.
proof fn lemma_frames_append(s: Seq<i16>, c: Seq<i16>, len: nat)
    requires
        len > 0,
    ensures
        frames_of(s, len) + frames_of(tail_of(s, len) + c, len) == frames_of(s + c, len),
        tail_of(tail_of(s, len) + c, len) == tail_of(s + c, len),
{
    let l = len as int;
    let q = s.len() as int / l;
    lemma_split(s.len() as int, l);
    let y = tail_of(s, len) + c;
    let q2 = y.len() as int / l;
    lemma_split(y.len() as int, l);
    let x = s + c;
    let f1 = frames_of(s, len);
    let f2 = frames_of(y, len);
    let f = f1 + f2;
    let xl = x.len() as int;
    let yl = y.len() as int;
    let r2 = yl % l;
    assert(xl == (q + q2) * l + r2) by (nonlinear_arith)
        requires
            xl == q * l + yl,
            yl == q2 * l + r2,
    ;
    assert(x.subrange(q * l, x.len() as int) =~= y);
    assert forall|k: int| 0 <= k < f.len() implies #[trigger] f[k] == x.subrange(
        k * l,
        k * l + l,
    ) by {
        if k < q {
            lemma_frame_within(k, q, l);
            assert(x.subrange(k * l, k * l + l) =~= s.subrange(k * l, k * l + l));
        } else {
            let j = k - q;
            lemma_frame_within(j, q2, l);
            assert(k * l == q * l + j * l) by (nonlinear_arith)
                requires
                    j == k - q,
            ;
            assert(x.subrange(k * l, k * l + l) =~= y.subrange(j * l, j * l + l));
        }
    }
    assert((q + q2) * l == q * l + q2 * l) by (nonlinear_arith);
    assert(tail_of(y, len) =~= x.subrange((q + q2) * l, x.len() as int));
    lemma_frames_by_count(x, len, f, tail_of(y, len));
}

/// All the samples of a list of chunks, in order.
pub open spec fn concat(chunks: Seq<Seq<i16>>) -> Seq<i16>
    decreases chunks.len(),
{
    if chunks.len() == 0 {
        Seq::empty()
    } else {
        concat(chunks.drop_last()) + chunks.last()
    }
}

/// The frames produced, and the samples left buffered, when `chunks` are
/// pushed one after another into a framer that holds `pending`.
pub open spec fn feed(pending: Seq<i16>, chunks: Seq<Seq<i16>>, len: nat) -> (Seq<Seq<i16>>, Seq<i16>)
    decreases chunks.len(),
{
    if chunks.len() == 0 {
        (Seq::empty(), pending)
    } else {
        let (f, p) = feed(pending, chunks.drop_last(), len);
        let all = p + chunks.last();
        (f + frames_of(all, len), tail_of(all, len))
    }
}

/// Framing is a pure function of the whole stream: pushing chunks one after
/// another into an empty framer gives the whole frames of all their samples
/// together, and leaves their tail buffered. Where the chunks hold
/// `k * len + r` samples with `r < len`, exactly `k` frames come out, frame
/// `i` is samples `i * len` up to `(i + 1) * len`, and the last `r` samples
/// stay buffered: none is skipped or duplicated across chunk boundaries.
pub proof fn lemma_framing(chunks: Seq<Seq<i16>>, len: nat, k: nat, r: nat)
    requires
        len > 0,
        r < len,
        concat(chunks).len() == k * len + r,
    ensures
        feed(Seq::empty(), chunks, len).0 == frames_of(concat(chunks), len),
        feed(Seq::empty(), chunks, len).1 == tail_of(concat(chunks), len),
        feed(Seq::empty(), chunks, len).0.len() == k,
        feed(Seq::empty(), chunks, len).1.len() == r,
        forall|i: int|
            0 <= i < k ==> #[trigger] feed(Seq::empty(), chunks, len).0[i] == concat(
                chunks,
            ).subrange(i * len, i * len + len),
        feed(Seq::empty(), chunks, len).1 == concat(chunks).subrange(k * len as int, concat(chunks).len() as int),
{
    lemma_feed_whole(chunks, len);
    lemma_fundamental_div_mod_converse(concat(chunks).len() as int, len as int, k as int, r as int);
}

/// Pushing chunks one by one frames their concatenation.
proof fn lemma_feed_whole(chunks: Seq<Seq<i16>>, len: nat)
    requires
        len > 0,
    ensures
        feed(Seq::empty(), chunks, len) == (frames_of(concat(chunks), len), tail_of(concat(chunks), len)),
    decreases chunks.len(),
{
    if chunks.len() == 0 {
        lemma_fundamental_div_mod_converse(0, len as int, 0, 0);
        assert(frames_of(Seq::<i16>::empty(), len) =~= Seq::<Seq<i16>>::empty());
        assert(tail_of(Seq::<i16>::empty(), len) =~= Seq::<i16>::empty());
    } else {
        let init = chunks.drop_last();
        lemma_feed_whole(init, len);
        lemma_frames_append(concat(init), chunks.last(), len);
    }
}

/// Accumulates an irregularly sized stream of samples into frames of a fixed
/// length. Partial data is kept across calls; no sample is dropped or
/// duplicated.
pub struct AudioFramer {
    buf: Vec<i16>,
    fill: usize,
}

impl AudioFramer {
    /// The frame length and the buffered samples are consistent.
    pub closed spec fn wf(&self) -> bool {
        &&& self.buf@.len() > 0
        &&& self.fill < self.buf@.len()
    }

    /// Number of samples in one frame.
    pub closed spec fn spec_frame_length(&self) -> nat {
        self.buf@.len()
    }

    /// The samples buffered towards the next frame.
    pub closed spec fn pending(&self) -> Seq<i16> {
        self.buf@.subrange(0, self.fill as int)
    }

    /// A framer with an empty buffer for frames of `frame_length` samples.
    pub fn new(frame_length: usize) -> (r: AudioFramer)
        requires
            frame_length > 0,
        ensures
            r.wf(),
            r.spec_frame_length() == frame_length,
            r.spec_frame_length() > 0,
            r.pending() == Seq::<i16>::empty(),
    {
        let r = AudioFramer { buf: vec![0i16; frame_length], fill: 0 };
        assert(r.pending() =~= Seq::<i16>::empty());
        r
    }

    pub fn frame_length(&self) -> (r: usize)
        requires
            self.wf(),
        ensures
            r == self.spec_frame_length(),
            r > 0,
    {
        self.buf.len()
    }

    /// Adds a chunk of samples; returns the frames it completes, in order.
    /// A chunk may complete no frame, one, or several.
    pub fn push(&mut self, chunk: &[i16]) -> (frames: Vec<Vec<i16>>)
        requires
            old(self).wf(),
        ensures
            final(self).wf(),
            final(self).spec_frame_length() == old(self).spec_frame_length(),
            final(self).spec_frame_length() > 0,
            frames_view(frames@) == frames_of(
                old(self).pending() + chunk@,
                old(self).spec_frame_length(),
            ),
            final(self).pending() == tail_of(
                old(self).pending() + chunk@,
                old(self).spec_frame_length(),
            ),
    {
        let ghost p0 = self.pending();
        let ghost len: int = self.buf@.len() as int;
        let mut frames: Vec<Vec<i16>> = Vec::new();
        let mut i: usize = 0;
        while i < chunk.len()
            invariant
                self.wf(),
                self.buf@.len() == len,
                i <= chunk@.len(),
                (p0 + chunk@.subrange(0, i as int)).len() == frames@.len() * len + self.fill,
                forall|k: int|
                    0 <= k < frames@.len() ==> #[trigger] frames@[k]@ == (p0 + chunk@.subrange(
                        0,
                        i as int,
                    )).subrange(k * len, k * len + len),
                self.pending() == (p0 + chunk@.subrange(0, i as int)).subrange(
                    frames@.len() * len,
                    (frames@.len() * len + self.fill) as int,
                ),
            decreases chunk.len() - i,
        {
            let ghost all = p0 + chunk@.subrange(0, i as int);
            let ghost q: int = frames@.len() as int;
            let ghost old_pending = self.pending();
            let x = chunk[i];
            self.buf.set(self.fill, x);
            let n = self.buf.len();
            assert(self.fill < n);
            self.fill = self.fill + 1;
            let ghost all2 = p0 + chunk@.subrange(0, i + 1);
            assert(all2 =~= all.push(x));
            assert(self.buf@.subrange(0, self.fill as int) =~= old_pending.push(x));
            assert(old_pending.push(x) =~= all2.subrange(q * len, q * len + self.fill));
            assert forall|k: int| 0 <= k < q implies #[trigger] frames@[k]@ == all2.subrange(
                k * len,
                k * len + len,
            ) by {
                lemma_frame_within(k, q, len);
                assert(all2.subrange(k * len, k * len + len) =~= all.subrange(k * len, k * len + len));
            }
            if self.fill == self.buf.len() {
                let frame = self.buf.clone();
                assert(frame@ =~= self.buf@);
                frames.push(frame);
                self.fill = 0;
                assert(self.pending() =~= Seq::<i16>::empty());
                assert((q + 1) * len == q * len + len) by (nonlinear_arith);
                assert(all2.subrange((q + 1) * len, (q + 1) * len) =~= Seq::<i16>::empty());
            }
            i = i + 1;
        }
        proof {
            let all = p0 + chunk@.subrange(0, i as int);
            assert(chunk@.subrange(0, i as int) =~= chunk@);
            let fv = frames_view(frames@);
            assert forall|k: int| 0 <= k < fv.len() implies #[trigger] fv[k] == all.subrange(
                k * len,
                k * len + len,
            ) by {
                assert(fv[k] == frames@[k]@);
            }
            lemma_frames_by_count(all, len as nat, fv, self.pending());
        }
        frames
    }

    /// Ends a capture session's partial frame: the buffered samples are
    /// dropped, and no short frame is produced.
    pub fn discard_partial(&mut self)
        requires
            old(self).wf(),
        ensures
            final(self).wf(),
            final(self).spec_frame_length() == old(self).spec_frame_length(),
            final(self).spec_frame_length() > 0,
            final(self).pending() == Seq::<i16>::empty(),
    {
        self.fill = 0;
        assert(self.pending() =~= Seq::<i16>::empty());
    }

    /// Number of samples buffered towards the next frame.
    pub fn buffered(&self) -> (r: usize)
        requires
            self.wf(),
        ensures
            r == self.pending().len(),
    {
        self.fill
    }
}

} // verus!
