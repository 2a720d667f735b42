//! The frame classifier: a stage that counts every buffer it receives and
//! forwards only key frames, untouched and in arrival order.
use vstd::prelude::*;

verus! {

/// An encoded video buffer: its payload, which the classifier never reads,
/// and whether it is a delta unit, i.e. depends on an earlier buffer to be
/// decoded.
pub struct Buffer<P> {
    pub data: P,
    pub delta_unit: bool,
}

impl<P> Buffer<P> {
    /// A buffer without the delta-unit flag is a key frame.
    pub open spec fn is_key(&self) -> bool {
        !self.delta_unit
    }

    pub fn new(data: P, delta_unit: bool) -> (r: Buffer<P>)
        ensures
            r.data == data,
            r.delta_unit == delta_unit,
    {
        Buffer { data, delta_unit }
    }

    pub fn is_key_frame(&self) -> (r: bool)
        ensures
            r == self.is_key(),
    {
        !self.delta_unit
    }
}

/// The test that decides whether a buffer is forwarded.
pub open spec fn key_pred<P>() -> spec_fn(Buffer<P>) -> bool {
    |b: Buffer<P>| b.is_key()
}

/// The key frames of a stream, in their input order.
pub open spec fn key_frames<P>(s: Seq<Buffer<P>>) -> Seq<Buffer<P>> {
    s.filter(key_pred::<P>())
}

/// How many buffers of `s` lack the delta-unit flag.
pub open spec fn key_count<P>(s: Seq<Buffer<P>>) -> nat
    decreases s.len(),
{
    if s.len() == 0 {
        0
    } else {
        (if s[0].is_key() {
            1nat
        } else {
            0nat
        }) + key_count(s.subrange(1, s.len() as int))
    }
}

/// Where the buffer at input position `i` lands among the forwarded ones,
/// if it is forwarded: after every key frame that came before it.
pub open spec fn forward_position<P>(s: Seq<Buffer<P>>, i: int) -> int {
    key_frames(s.subrange(0, i)).len() as int
}

/// The classifier forwards exactly as many buffers as the stream holds key
/// frames.
pub proof fn lemma_forwarded_count<P>(s: Seq<Buffer<P>>)
    ensures
        key_frames(s).len() == key_count(s),
    decreases s.len(),
{
    if s.len() > 0 {
        let rest = s.subrange(1, s.len() as int);
        assert(s =~= seq![s[0]] + rest);
        rest.lemma_filter_prepend(s[0], key_pred::<P>());
        lemma_forwarded_count(rest);
    }
}

/// A stream with no buffers forwards nothing.
pub proof fn lemma_empty_stream<P>()
    ensures
        key_frames(Seq::<Buffer<P>>::empty()) == Seq::<Buffer<P>>::empty(),
        key_count(Seq::<Buffer<P>>::empty()) == 0,
{
    reveal(Seq::filter);
}

/// A key frame is forwarded, and lands at its forward position.
pub proof fn lemma_key_frame_forwarded<P>(s: Seq<Buffer<P>>, i: int)
    requires
        0 <= i < s.len(),
        s[i].is_key(),
    ensures
        0 <= forward_position(s, i) < key_frames(s).len(),
        key_frames(s)[forward_position(s, i)] == s[i],
{
    let front = s.subrange(0, i);
    let back = s.subrange(i + 1, s.len() as int);
    assert(s =~= front + (seq![s[i]] + back));
    Seq::filter_distributes_over_add(front, seq![s[i]] + back, key_pred::<P>());
    back.lemma_filter_prepend(s[i], key_pred::<P>());
}

/// Key frames leave in the order in which they came: of two key frames, the
/// earlier one is forwarded first.
pub proof fn lemma_key_order_kept<P>(s: Seq<Buffer<P>>, i: int, j: int)
    requires
        0 <= i < j < s.len(),
        s[i].is_key(),
        s[j].is_key(),
    ensures
        0 <= forward_position(s, i) < forward_position(s, j) < key_frames(s).len(),
        key_frames(s)[forward_position(s, i)] == s[i],
        key_frames(s)[forward_position(s, j)] == s[j],
{
    lemma_key_frame_forwarded(s, i);
    lemma_key_frame_forwarded(s, j);
    let front = s.subrange(0, i);
    let mid = s.subrange(i + 1, j);
    assert(s.subrange(0, j) =~= front + (seq![s[i]] + mid));
    Seq::filter_distributes_over_add(front, seq![s[i]] + mid, key_pred::<P>());
    mid.lemma_filter_prepend(s[i], key_pred::<P>());
}

/// Why a downstream neighbour declined a pushed buffer.
#[derive(Clone, Copy, Debug, PartialEq, Eq, Structural)]
pub enum FlowError {
    NotLinked,
    Flushing,
    Eos,
    NotNegotiated,
    Error,
    NotSupported,
    CustomError,
    CustomError1,
    CustomError2,
}

/// The outcome of handing one buffer to the classifier.
pub open spec fn chain_outcome_spec(pushed: Option<Result<(), FlowError>>) -> Result<(), FlowError> {
    match pushed {
        None => Ok(()),
        Some(r) => r,
    }
}

/// What the classifier reports upstream for one buffer: success where the
/// buffer was dropped (`None`), else exactly what downstream answered.
pub fn chain_outcome(pushed: Option<Result<(), FlowError>>) -> (r: Result<(), FlowError>)
    ensures
        r == chain_outcome_spec(pushed),
{
    match pushed {
        None => Ok(()),
        Some(r) => r,
    }
}

/// The state of one classifier instance: how many buffers it has seen.
pub struct FrameFilter {
    frame_counter: u64,
}

impl FrameFilter {
    pub closed spec fn frames_seen(&self) -> nat {
        self.frame_counter as nat
    }

    pub fn new() -> (r: FrameFilter)
        ensures
            r.frames_seen() == 0,
    {
        FrameFilter { frame_counter: 0 }
    }

    pub fn frame_count(&self) -> (r: u64)
        ensures
            r as nat == self.frames_seen(),
    {
        self.frame_counter
    }

    /// Counts `buffer` and decides its fate: a key frame comes back, unchanged,
    /// to be pushed downstream; a delta unit is consumed.
    pub fn sink_chain<P>(&mut self, buffer: Buffer<P>) -> (r: Option<Buffer<P>>)
        requires
            old(self).frames_seen() < u64::MAX,
        ensures
            final(self).frames_seen() == old(self).frames_seen() + 1,
            buffer.is_key() ==> r == Some(buffer),
            !buffer.is_key() ==> r is None,
    {
        self.frame_counter = self.frame_counter + 1;
        if buffer.is_key_frame() {
            Some(buffer)
        } else {
            None
        }
    }

    /// Feeds a whole stream through the classifier, in order, and returns
    /// what it forwarded.
    pub fn filter_stream<P>(&mut self, input: Vec<Buffer<P>>) -> (out: Vec<Buffer<P>>)
        requires
            old(self).frames_seen() + input@.len() <= u64::MAX,
        ensures
            out@ == key_frames(input@),
            final(self).frames_seen() == old(self).frames_seen() + input@.len(),
    {
        let ghost all = input@;
        let mut pending = input;
        let mut out: Vec<Buffer<P>> = Vec::new();
        let n: usize = pending.len();
        let mut i: usize = 0;
        while i < n
            invariant
                i <= n,
                n == all.len(),
                pending@ == all.subrange(i as int, n as int),
                out@ == key_frames(all.subrange(0, i as int)),
                self.frames_seen() == old(self).frames_seen() + i,
                old(self).frames_seen() + n <= u64::MAX,
            decreases n - i,
        {
            let b = pending.remove(0);
            proof {
                reveal(Seq::filter);
                let head = all.subrange(0, i + 1);
                assert(head.drop_last() =~= all.subrange(0, i as int));
                assert(head.last() == b);
                assert(pending@ =~= all.subrange(i + 1, n as int));
                assert(key_frames(head) == if b.is_key() {
                    key_frames(head.drop_last()).push(b)
                } else {
                    key_frames(head.drop_last())
                });
            }
            match self.sink_chain(b) {
                Some(k) => {
                    out.push(k);
                },
                None => {},
            }
            i = i + 1;
        }
        proof {
            assert(all.subrange(0, n as int) =~= all);
        }
        out
    }
}

} // verus!
