//! What the transport answers to the operations that the session layer asks
//! for, as plain values.
use vstd::prelude::*;

verus! {

/// The answer to one read of an inbound stream.
#[derive(Debug, PartialEq, Eq)]
pub enum ReadOutcome {
    /// The bytes that the read yielded.
    Data(Vec<u8>),
    /// The stream has ended.
    End,
    /// The read failed.
    Failed,
}

/// A `ReadOutcome` with its bytes as a sequence.
pub enum ReadView {
    Data(Seq<u8>),
    End,
    Failed,
}

impl View for ReadOutcome {
    type V = ReadView;

    open spec fn view(&self) -> ReadView {
        match self {
            ReadOutcome::Data(bytes) => ReadView::Data(bytes@),
            ReadOutcome::End => ReadView::End,
            ReadOutcome::Failed => ReadView::Failed,
        }
    }
}

impl ReadOutcome {
    /// What a read into a buffer yielded, as the transport reports it: the
    /// number of bytes that it filled, or nothing at the end of the stream. A
    /// number beyond the buffer's length stands for the whole buffer.
    pub open spec fn read_of(buffer: Seq<u8>, filled: Option<usize>) -> ReadView {
        match filled {
            Some(count) => if count <= buffer.len() {
                ReadView::Data(buffer.subrange(0, count as int))
            } else {
                ReadView::Data(buffer)
            },
            None => ReadView::End,
        }
    }

    /// The answer of a read that went into `buffer` and reported `filled`.
    pub fn of_read(buffer: Vec<u8>, filled: Option<usize>) -> (outcome: ReadOutcome)
        ensures
            outcome@ == ReadOutcome::read_of(buffer@, filled),
    {
        match filled {
            Some(count) => {
                let mut bytes = buffer;
                bytes.truncate(count);
                ReadOutcome::Data(bytes)
            },
            None => ReadOutcome::End,
        }
    }
}

/// The answer to one write on an outbound stream. A write is whole: it has
/// either carried all of its bytes or failed.
#[derive(Clone, Copy, Debug, PartialEq, Eq, Structural)]
pub enum WriteOutcome {
    Done,
    Failed,
}

impl WriteOutcome {
    /// The answer of a write that was given `given` bytes and reports that it
    /// carried `written` of them: done only where it carried them all.
    pub fn of_count(written: usize, given: usize) -> (outcome: WriteOutcome)
        ensures
            outcome == (if written == given {
                WriteOutcome::Done
            } else {
                WriteOutcome::Failed
            }),
    {
        if written == given {
            WriteOutcome::Done
        } else {
            WriteOutcome::Failed
        }
    }
}

/// The answer to a request for a new pair of streams.
#[derive(Clone, Copy, Debug, PartialEq, Eq, Structural)]
pub enum OpenOutcome {
    /// The pair is open.
    Opened,
    /// The connection is gone.
    SessionGone,
    /// The transport refused the pair.
    Refused,
}

impl OpenOutcome {
    /// The answer to a request for a pair of streams, from whether there was
    /// a session to ask and whether it gave the pair.
    pub fn of_attempt(session_present: bool, pair_given: bool) -> (outcome: OpenOutcome)
        ensures
            outcome == (if !session_present {
                OpenOutcome::SessionGone
            } else if pair_given {
                OpenOutcome::Opened
            } else {
                OpenOutcome::Refused
            }),
    {
        if !session_present {
            OpenOutcome::SessionGone
        } else if pair_given {
            OpenOutcome::Opened
        } else {
            OpenOutcome::Refused
        }
    }
}

/// The answer to a connection attempt.
#[derive(Clone, Copy, Debug, PartialEq, Eq, Structural)]
pub enum ConnectOutcome {
    Connected,
    Unreachable,
}

impl ConnectOutcome {
    /// The answer to a connection attempt, from whether it gave a session.
    pub fn of_attempt(session_given: bool) -> (outcome: ConnectOutcome)
        ensures
            outcome == (if session_given {
                ConnectOutcome::Connected
            } else {
                ConnectOutcome::Unreachable
            }),
    {
        if session_given {
            ConnectOutcome::Connected
        } else {
            ConnectOutcome::Unreachable
        }
    }
}

} // verus!
