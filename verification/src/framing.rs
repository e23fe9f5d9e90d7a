//! Length-prefixed framing, for transports whose reads do not keep the
//! boundaries of the writes.
//!
//! The session layer takes each read for one message. Over a plain byte
//! stream that holds only if the messages are framed: every message goes out
//! behind a header of four bytes that gives its length, and the receiving
//! side cuts the stream back into messages, however the transport has
//! chunked it.
use vstd::prelude::*;
use crate::transport::{ReadOutcome, ReadView};

verus! {

/// The number of bytes of a frame's header.
pub const HEADER_LEN: usize = 4;

/// The longest message that a header can announce.
pub const MAX_FRAME: usize = 0xffff_ffff;

/// The header that announces a message of the given length: the length in
/// four bytes, the most significant first.
pub open spec fn header_of(length: nat) -> Seq<u8> {
    seq![
        ((length / 0x100_0000) % 0x100) as u8,
        ((length / 0x1_0000) % 0x100) as u8,
        ((length / 0x100) % 0x100) as u8,
        (length % 0x100) as u8,
    ]
}

/// The length that the first four bytes announce.
pub open spec fn announced(bytes: Seq<u8>) -> nat
    recommends
        bytes.len() >= HEADER_LEN,
{
    (bytes[0] as nat) * 0x100_0000 + (bytes[1] as nat) * 0x1_0000 + (bytes[2] as nat) * 0x100
        + (bytes[3] as nat)
}

/// A message behind its header.
pub open spec fn framed(message: Seq<u8>) -> Seq<u8> {
    header_of(message.len()) + message
}

/// What stands at the front of a stream of frames.
pub enum Front {
    /// Not yet a whole frame.
    Partial,
    /// A header that announces more than the receiver takes.
    TooLong,
    /// A whole frame: its message, and the bytes behind it.
    Whole { message: Seq<u8>, rest: Seq<u8> },
}

/// The front of a stream, for a receiver that takes messages of up to `limit`
/// bytes.
pub open spec fn front(bytes: Seq<u8>, limit: nat) -> Front {
    if bytes.len() < HEADER_LEN {
        Front::Partial
    } else if announced(bytes) > limit {
        Front::TooLong
    } else if bytes.len() < HEADER_LEN + announced(bytes) {
        Front::Partial
    } else {
        Front::Whole {
            message: bytes.subrange(HEADER_LEN as int, HEADER_LEN + announced(bytes)),
            rest: bytes.subrange(HEADER_LEN + announced(bytes), bytes.len() as int),
        }
    }
}

/// The messages of the whole frames at the front of a stream, in order.
pub open spec fn messages_of(bytes: Seq<u8>, limit: nat) -> Seq<Seq<u8>>
    decreases bytes.len(),
{
    match front(bytes, limit) {
        Front::Whole { message, rest } => seq![message] + messages_of(rest, limit),
        _ => Seq::empty(),
    }
}

/// What is left of a stream behind its whole frames.
pub open spec fn remainder_of(bytes: Seq<u8>, limit: nat) -> Seq<u8>
    decreases bytes.len(),
{
    match front(bytes, limit) {
        Front::Whole { message, rest } => remainder_of(rest, limit),
        _ => bytes,
    }
}

/// Whether a stream runs, behind its whole frames, into a header that
/// announces too much. Such a stream cannot be cut any further.
pub open spec fn derailed(bytes: Seq<u8>, limit: nat) -> bool {
    front(remainder_of(bytes, limit), limit) is TooLong
}

/// The frames of a list of messages, one behind the other.
pub open spec fn stream_of(messages: Seq<Seq<u8>>) -> Seq<u8>
    decreases messages.len(),
{
    if messages.len() == 0 {
        Seq::empty()
    } else {
        framed(messages[0]) + stream_of(messages.subrange(1, messages.len() as int))
    }
}

/// Puts a message behind its header. A message too long for a header has no
/// frame.
pub fn frame(message: &[u8]) -> (out: Option<Vec<u8>>)
    ensures
        out is Some <==> message@.len() <= MAX_FRAME,
        out matches Some(bytes) ==> bytes@ == framed(message@),
{
    let length = message.len();
    if length > MAX_FRAME {
        return None;
    }
    let mut bytes: Vec<u8> = Vec::new();
    bytes.push(((length / 0x100_0000) % 0x100) as u8);
    bytes.push(((length / 0x1_0000) % 0x100) as u8);
    bytes.push(((length / 0x100) % 0x100) as u8);
    bytes.push((length % 0x100) as u8);
    assert(bytes@ =~= header_of(length as nat));
    let mut i: usize = 0;
    while i < length
        invariant
            i <= length,
            length == message@.len(),
            bytes@ == header_of(length as nat) + message@.subrange(0, i as int),
        decreases length - i,
    {
        bytes.push(message[i]);
        assert(message@.subrange(0, i + 1) =~= message@.subrange(0, i as int).push(message@[i as int]));
        assert(bytes@ =~= header_of(length as nat) + message@.subrange(0, i + 1));
        i += 1;
    }
    assert(message@.subrange(0, length as int) =~= message@);
    Some(bytes)
}

/// A header says what it was made from.
pub proof fn lemma_header_roundtrip(length: nat)
    requires
        length <= MAX_FRAME,
    ensures
        header_of(length).len() == HEADER_LEN,
        announced(header_of(length)) == length,
{
    let h = header_of(length);
    assert(h[0] == ((length / 0x100_0000) % 0x100) as u8);
    assert(h[1] == ((length / 0x1_0000) % 0x100) as u8);
    assert(h[2] == ((length / 0x100) % 0x100) as u8);
    assert(h[3] == (length % 0x100) as u8);
}

/// The whole frames of a stream are those of the frame at its front and of
/// what stands behind that frame.
pub proof fn lemma_unfold_whole(bytes: Seq<u8>, limit: nat)
    requires
        front(bytes, limit) is Whole,
    ensures
        messages_of(bytes, limit) == seq![front(bytes, limit)->message] + messages_of(
            front(bytes, limit)->rest,
            limit,
        ),
        remainder_of(bytes, limit) == remainder_of(front(bytes, limit)->rest, limit),
        front(bytes, limit)->rest.len() < bytes.len(),
{
}

/// A stream without a whole frame at its front has no message and is its own
/// remainder.
pub proof fn lemma_unfold_other(bytes: Seq<u8>, limit: nat)
    requires
        !(front(bytes, limit) is Whole),
    ensures
        messages_of(bytes, limit) == Seq::<Seq<u8>>::empty(),
        remainder_of(bytes, limit) == bytes,
{
}

/// The bytes of a vector between two positions.
fn copy_range(bytes: &Vec<u8>, from: usize, to: usize) -> (out: Vec<u8>)
    requires
        from <= to <= bytes@.len(),
    ensures
        out@ == bytes@.subrange(from as int, to as int),
{
    let mut out: Vec<u8> = Vec::new();
    let mut i: usize = from;
    while i < to
        invariant
            from <= i <= to <= bytes@.len(),
            out@ == bytes@.subrange(from as int, i as int),
        decreases to - i,
    {
        out.push(bytes[i]);
        assert(bytes@.subrange(from as int, i + 1) =~= bytes@.subrange(from as int, i as int).push(
            bytes@[i as int],
        ));
        i += 1;
    }
    out
}

/// The reads that a list of messages stands for: one read of data for each.
pub open spec fn reads_of(messages: Seq<Seq<u8>>) -> Seq<ReadView> {
    Seq::new(messages.len(), |i: int| ReadView::Data(messages[i]))
}

/// The views of a list of read answers.
pub open spec fn views_of(reads: Seq<ReadOutcome>) -> Seq<ReadView> {
    Seq::new(reads.len(), |i: int| reads[i]@)
}

/// Cuts a framed stream back into messages.
pub struct Deframer {
    limit: usize,
    pending: Vec<u8>,
    derailed: bool,
}

/// What a `Deframer` holds.
pub struct DeframerView {
    /// The longest message that is taken.
    pub limit: usize,
    /// The bytes that came and are not yet part of a whole frame.
    pub pending: Seq<u8>,
    /// Whether the stream has run into a header that announces too much.
    pub derailed: bool,
}

impl DeframerView {
    /// What the receiver of a stream is handed for one answer of the
    /// transport, and what it holds afterwards.
    ///
    /// Bytes are put behind those that are pending. Each whole frame then
    /// becomes one read of its message; what is left stays pending. A header
    /// that announces more than the limit derails the stream: from then on,
    /// every answer is a failed read. The end of the stream is the end where
    /// nothing is pending, and a failed read inside a frame. A read without
    /// bytes counts as the end.
    pub open spec fn fed(self, answer: ReadView) -> (DeframerView, Seq<ReadView>) {
        if self.derailed {
            (self, seq![ReadView::Failed])
        } else {
            match answer {
                ReadView::Failed => (self, seq![ReadView::Failed]),
                ReadView::End => (self, seq![self.at_end()]),
                ReadView::Data(chunk) => if chunk.len() == 0 {
                    (self, seq![self.at_end()])
                } else {
                    let all = self.pending + chunk;
                    let reads = reads_of(messages_of(all, self.limit as nat));
                    let left = remainder_of(all, self.limit as nat);
                    if derailed(all, self.limit as nat) {
                        (
                            DeframerView { pending: left, derailed: true, ..self },
                            reads.push(ReadView::Failed),
                        )
                    } else {
                        (DeframerView { pending: left, ..self }, reads)
                    }
                },
            }
        }
    }

    /// What the end of the stream means: the end, or a failure inside a frame.
    pub open spec fn at_end(self) -> ReadView {
        if self.pending.len() == 0 {
            ReadView::End
        } else {
            ReadView::Failed
        }
    }
}

impl View for Deframer {
    type V = DeframerView;

    closed spec fn view(&self) -> DeframerView {
        DeframerView { limit: self.limit, pending: self.pending@, derailed: self.derailed }
    }
}

impl Deframer {
    /// A deframer at the start of a stream, which takes messages of up to
    /// `limit` bytes.
    pub fn new(limit: usize) -> (deframer: Deframer)
        ensures
            deframer@ == (DeframerView { limit, pending: Seq::empty(), derailed: false }),
    {
        Deframer { limit, pending: Vec::new(), derailed: false }
    }

    /// The number of bytes that wait for the rest of their frame.
    pub fn pending_len(&self) -> (length: usize)
        ensures
            length == self@.pending.len(),
    {
        self.pending.len()
    }

    /// Whether the stream has run into a header that announces too much.
    pub fn is_derailed(&self) -> (derailed: bool)
        ensures
            derailed == self@.derailed,
    {
        self.derailed
    }

    /// Takes in one answer of the transport and hands out the reads that it
    /// stands for, in order; none, where the bytes so far end inside a frame.
    pub fn feed(&mut self, answer: ReadOutcome) -> (reads: Vec<ReadOutcome>)
        ensures
            final(self)@ == old(self)@.fed(answer@).0,
            views_of(reads@) == old(self)@.fed(answer@).1,
    {
        let mut reads: Vec<ReadOutcome> = Vec::new();
        if self.derailed {
            reads.push(ReadOutcome::Failed);
            assert(views_of(reads@) =~= seq![ReadView::Failed]);
            return reads;
        }
        let chunk = match answer {
            ReadOutcome::Failed => {
                reads.push(ReadOutcome::Failed);
                assert(views_of(reads@) =~= seq![ReadView::Failed]);
                return reads;
            },
            ReadOutcome::End => Vec::new(),
            ReadOutcome::Data(chunk) => chunk,
        };
        if chunk.len() == 0 {
            if self.pending.len() == 0 {
                reads.push(ReadOutcome::End);
            } else {
                reads.push(ReadOutcome::Failed);
            }
            assert(views_of(reads@) =~= seq![old(self)@.at_end()]);
            return reads;
        }
        let ghost limit = self.limit as nat;
        let ghost all = self.pending@ + chunk@;
        let mut stream: Vec<u8> = copy_range(&self.pending, 0, self.pending.len());
        let mut k: usize = 0;
        while k < chunk.len()
            invariant
                k <= chunk@.len(),
                stream@ == self.pending@ + chunk@.subrange(0, k as int),
            decreases chunk@.len() - k,
        {
            stream.push(chunk[k]);
            assert(chunk@.subrange(0, k + 1) =~= chunk@.subrange(0, k as int).push(chunk@[k as int]));
            assert(stream@ =~= self.pending@ + chunk@.subrange(0, k + 1));
            k += 1;
        }
        assert(chunk@.subrange(0, chunk@.len() as int) =~= chunk@);
        assert(stream@ == all);
        let total = stream.len();
        let mut at: usize = 0;
        let mut too_long = false;
        proof {
            assert(all.subrange(0, total as int) =~= all);
            assert(views_of(reads@) + reads_of(messages_of(all, limit)) =~= reads_of(
                messages_of(all, limit),
            ));
        }
        loop
            invariant_except_break
                !too_long,
            invariant
                at <= total,
                total == stream@.len(),
                stream@ == all,
                limit == self.limit,
                self.limit == old(self).limit,
                views_of(reads@) + reads_of(messages_of(all.subrange(at as int, total as int), limit))
                    == reads_of(messages_of(all, limit)),
                remainder_of(all.subrange(at as int, total as int), limit) == remainder_of(
                    all,
                    limit,
                ),
            ensures
                at <= total,
                views_of(reads@) == reads_of(messages_of(all, limit)),
                all.subrange(at as int, total as int) == remainder_of(all, limit),
                too_long == derailed(all, limit),
            decreases total - at,
        {
            let ghost here = all.subrange(at as int, total as int);
            if total - at < HEADER_LEN {
                proof {
                    lemma_unfold_other(here, limit);
                    assert(views_of(reads@) + reads_of(Seq::<Seq<u8>>::empty()) =~= views_of(reads@));
                }
                break;
            }
            let announced_here: u64 = (stream[at] as u64) * 0x100_0000 + (stream[at + 1] as u64)
                * 0x1_0000 + (stream[at + 2] as u64) * 0x100 + (stream[at + 3] as u64);
            assert(announced_here == announced(here));
            if announced_here > self.limit as u64 {
                proof {
                    lemma_unfold_other(here, limit);
                    assert(views_of(reads@) + reads_of(Seq::<Seq<u8>>::empty()) =~= views_of(reads@));
                }
                too_long = true;
                break;
            }
            if ((total - at - HEADER_LEN) as u64) < announced_here {
                proof {
                    lemma_unfold_other(here, limit);
                    assert(views_of(reads@) + reads_of(Seq::<Seq<u8>>::empty()) =~= views_of(reads@));
                }
                break;
            }
            let length = announced_here as usize;
            let first = at + HEADER_LEN;
            let message = copy_range(&stream, first, first + length);
            proof {
                lemma_unfold_whole(here, limit);
                let whole = front(here, limit);
                assert(whole->message =~= all.subrange(first as int, first + length));
                assert(whole->rest =~= all.subrange(first + length, total as int));
                let before = views_of(reads@);
                let rest_reads = reads_of(messages_of(whole->rest, limit));
                assert(reads_of(seq![whole->message] + messages_of(whole->rest, limit)) =~= seq![
                    ReadView::Data(whole->message),
                ] + rest_reads);
                assert(views_of(reads@.push(ReadOutcome::Data(message))) =~= before.push(
                    ReadView::Data(whole->message),
                ));
                assert(before.push(ReadView::Data(whole->message)) + rest_reads =~= before + (seq![
                    ReadView::Data(whole->message),
                ] + rest_reads));
            }
            reads.push(ReadOutcome::Data(message));
            at = first + length;
        }
        let left = copy_range(&stream, at, total);
        self.pending = left;
        if too_long {
            self.derailed = true;
            let ghost before = views_of(reads@);
            reads.push(ReadOutcome::Failed);
            assert(views_of(reads@) =~= before.push(ReadView::Failed));
        }
        reads
    }
}

/// Framing then cutting gives the message back. A frame at the front of a
/// stream is cut off as its message, whatever stands behind it, and what
/// stands behind it is left as it was.
pub proof fn law_frame_roundtrip(message: Seq<u8>, behind: Seq<u8>, limit: nat)
    requires
        message.len() <= limit <= MAX_FRAME,
    ensures
        front(framed(message) + behind, limit) == (Front::Whole { message, rest: behind }),
        messages_of(framed(message) + behind, limit) == seq![message] + messages_of(behind, limit),
        remainder_of(framed(message) + behind, limit) == remainder_of(behind, limit),
{
    let bytes = framed(message) + behind;
    lemma_header_roundtrip(message.len());
    let header = header_of(message.len());
    assert(bytes[0] == header[0] && bytes[1] == header[1] && bytes[2] == header[2] && bytes[3]
        == header[3]);
    assert(announced(bytes) == message.len());
    assert(bytes.subrange(HEADER_LEN as int, HEADER_LEN + message.len()) =~= message);
    assert(bytes.subrange(HEADER_LEN + message.len(), bytes.len() as int) =~= behind);
    lemma_unfold_whole(bytes, limit);
}

/// A stream of frames is cut into exactly the messages that were framed, in
/// their order, with nothing left over.
pub proof fn law_stream_roundtrip(messages: Seq<Seq<u8>>, limit: nat)
    requires
        limit <= MAX_FRAME,
        forall|i: int| 0 <= i < messages.len() ==> (#[trigger] messages[i]).len() <= limit,
    ensures
        messages_of(stream_of(messages), limit) == messages,
        remainder_of(stream_of(messages), limit) == Seq::<u8>::empty(),
        !derailed(stream_of(messages), limit),
    decreases messages.len(),
{
    if messages.len() == 0 {
        lemma_unfold_other(Seq::<u8>::empty(), limit);
        assert(messages_of(stream_of(messages), limit) =~= messages);
    } else {
        let later = messages.subrange(1, messages.len() as int);
        assert forall|i: int| 0 <= i < later.len() implies (#[trigger] later[i]).len() <= limit by {
            assert(later[i] == messages[i + 1]);
        }
        law_stream_roundtrip(later, limit);
        law_frame_roundtrip(messages[0], stream_of(later), limit);
        assert(seq![messages[0]] + later =~= messages);
    }
}

/// How the transport chunks a stream does not show. Cutting one chunk and
/// then, behind what it left, the next gives the messages that cutting both
/// chunks as one gives, and leaves the same bytes.
pub proof fn law_chunking_is_invisible(first: Seq<u8>, second: Seq<u8>, limit: nat)
    requires
        !derailed(first, limit),
    ensures
        messages_of(first + second, limit) == messages_of(first, limit) + messages_of(
            remainder_of(first, limit) + second,
            limit,
        ),
        remainder_of(first + second, limit) == remainder_of(
            remainder_of(first, limit) + second,
            limit,
        ),
    decreases first.len(),
{
    match front(first, limit) {
        Front::Whole { message, rest } => {
            let both = first + second;
            assert(announced(both) == announced(first));
            assert(both.subrange(HEADER_LEN as int, HEADER_LEN + announced(first)) =~= message);
            assert(both.subrange(HEADER_LEN + announced(first), both.len() as int) =~= rest
                + second);
            lemma_unfold_whole(first, limit);
            lemma_unfold_whole(both, limit);
            law_chunking_is_invisible(rest, second, limit);
            assert(seq![message] + (messages_of(rest, limit) + messages_of(
                remainder_of(rest, limit) + second,
                limit,
            )) =~= (seq![message] + messages_of(rest, limit)) + messages_of(
                remainder_of(rest, limit) + second,
                limit,
            ));
        },
        _ => {
            lemma_unfold_other(first, limit);
            assert(Seq::<Seq<u8>>::empty() + messages_of(first + second, limit) =~= messages_of(
                first + second,
                limit,
            ));
        },
    }
}

/// The same of a deframer: fed two chunks one after the other, it hands out
/// in all the reads that it hands out when fed both as one, and holds the
/// same afterwards, as long as the first chunk does not derail the stream.
pub proof fn law_deframer_ignores_chunking(deframer: DeframerView, first: Seq<u8>, second: Seq<u8>)
    requires
        !deframer.derailed,
        first.len() > 0,
        second.len() > 0,
        !deframer.fed(ReadView::Data(first)).0.derailed,
    ensures
        ({
            let one = deframer.fed(ReadView::Data(first));
            let two = one.0.fed(ReadView::Data(second));
            let both = deframer.fed(ReadView::Data(first + second));
            &&& two.0 == both.0
            &&& one.1 + two.1 == both.1
        }),
{
    let limit = deframer.limit as nat;
    let start = deframer.pending + first;
    law_chunking_is_invisible(start, second, limit);
    assert(start + second =~= deframer.pending + (first + second));
    let a = messages_of(start, limit);
    let b = messages_of(remainder_of(start, limit) + second, limit);
    assert(reads_of(a) + reads_of(b) =~= reads_of(a + b));
    assert(reads_of(a) + reads_of(b).push(ReadView::Failed) =~= reads_of(a + b).push(
        ReadView::Failed,
    ));
}

} // verus!
