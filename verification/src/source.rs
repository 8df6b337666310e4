//! The line source and the bounded queue it feeds.
//!
//! The source reads one line at a time and hands it to the queue. A full
//! queue never costs a line: the source keeps the line and offers it again.

use vstd::prelude::*;

verus! {

/// The sending half of the queue, `futures::channel::mpsc::Sender`.
#[verifier::external_type_specification]
#[verifier::external_body]
#[verifier::reject_recursive_types(T)]
pub struct ExSender<T>(futures::channel::mpsc::Sender<T>);

/// The receiving half of the queue, `futures::channel::mpsc::Receiver`.
#[verifier::external_type_specification]
#[verifier::external_body]
#[verifier::reject_recursive_types(T)]
pub struct ExReceiver<T>(futures::channel::mpsc::Receiver<T>);

/// The number of shared slots a channel was created with: the `buffer`
/// argument of `futures::channel::mpsc::channel`. Beside them every sender
/// has one slot of its own.
pub uninterp spec fn relay_buffer(sender: futures::channel::mpsc::Sender<String>) -> nat;

/// The largest number of lines a queue can be asked to hold.
pub open spec fn max_relay_capacity() -> nat {
    (usize::MAX / 4) as nat
}

/// Creates the channel with `futures::channel::mpsc::channel`, which takes
/// any `buffer` below a quarter of the address space (and panics above) and
/// returns a channel with that many shared slots.
#[verifier::external_body]
fn open_channel(buffer: usize) -> (ends: (
    futures::channel::mpsc::Sender<String>,
    futures::channel::mpsc::Receiver<String>,
))
    requires
        buffer < usize::MAX / 4,
    ensures
        relay_buffer(ends.0) == buffer,
{
    futures::channel::mpsc::channel(buffer)
}

/// What one attempt to hand a line to the queue gave. A line that was not
/// taken comes back.
#[derive(Clone, Debug, PartialEq, Eq)]
pub enum SendAttempt {
    /// The queue took the line.
    Sent,
    /// The queue is full.
    Full(String),
    /// The receiving half is gone.
    Disconnected(String),
}

/// Mathematical value of a [`SendAttempt`].
pub enum AttemptView {
    Sent,
    Full(Seq<char>),
    Disconnected(Seq<char>),
}

impl View for SendAttempt {
    type V = AttemptView;

    open spec fn view(&self) -> AttemptView {
        match self {
            SendAttempt::Sent => AttemptView::Sent,
            SendAttempt::Full(line) => AttemptView::Full(line@),
            SendAttempt::Disconnected(line) => AttemptView::Disconnected(line@),
        }
    }
}

/// One `Sender::try_send`. It does not wait. Whether the line is taken
/// depends on the receiving side; when it is not, the error carries the
/// very line that was offered, and says whether the queue was full.
#[verifier::external_body]
fn try_send_line(sendto: &mut futures::channel::mpsc::Sender<String>, line: String) -> (attempt:
    SendAttempt)
    ensures
        attempt matches SendAttempt::Full(back) ==> back@ == line@,
        attempt matches SendAttempt::Disconnected(back) ==> back@ == line@,
{
    match sendto.try_send(line) {
        Ok(()) => SendAttempt::Sent,
        Err(e) if e.is_full() => SendAttempt::Full(e.into_inner()),
        Err(e) => SendAttempt::Disconnected(e.into_inner()),
    }
}

/// Opens the queue between the line source and the dispatcher. The queue
/// holds at most `concurrency` lines: the single sender's own slot and
/// `concurrency - 1` shared ones. There is no queue of capacity zero, nor
/// one beyond [`max_relay_capacity`].
pub fn open_relay(concurrency: usize) -> (ends: Option<
    (futures::channel::mpsc::Sender<String>, futures::channel::mpsc::Receiver<String>),
>)
    ensures
        ends is Some <==> 1 <= concurrency <= max_relay_capacity(),
        ends matches Some(pair) ==> relay_buffer(pair.0) + 1 == concurrency,
{
    if concurrency == 0 || concurrency > usize::MAX / 4 {
        None
    } else {
        Some(open_channel(concurrency - 1))
    }
}

/// What one read from the input gave.
#[derive(Clone, Debug, PartialEq, Eq)]
pub enum ReadEvent {
    /// A line, without its trailing newline.
    Line(String),
    /// A line that is not valid UTF-8.
    Undecodable,
    /// The read failed for another reason.
    Failed,
    /// The end of the input.
    End,
}

/// Mathematical value of a [`ReadEvent`].
pub enum ReadView {
    Line(Seq<char>),
    Undecodable,
    Failed,
    End,
}

impl View for ReadEvent {
    type V = ReadView;

    open spec fn view(&self) -> ReadView {
        match self {
            ReadEvent::Line(line) => ReadView::Line(line@),
            ReadEvent::Undecodable => ReadView::Undecodable,
            ReadEvent::Failed => ReadView::Failed,
            ReadEvent::End => ReadView::End,
        }
    }
}

/// Where the line source stands.
#[derive(Clone, Debug, PartialEq, Eq)]
pub enum SourceState {
    /// Ready to read the next line.
    Reading,
    /// Holding a line the queue has not taken yet.
    Holding(String),
    /// The input has ended; the sending half is to be dropped.
    Closed,
}

/// Mathematical value of a [`SourceState`].
pub enum SourceView {
    Reading,
    Holding(Seq<char>),
    Closed,
}

impl View for SourceState {
    type V = SourceView;

    open spec fn view(&self) -> SourceView {
        match self {
            SourceState::Reading => SourceView::Reading,
            SourceState::Holding(line) => SourceView::Holding(line@),
            SourceState::Closed => SourceView::Closed,
        }
    }
}

/// The state after a read. Every decoded line is an item, whatever it
/// holds; an undecodable line is skipped; the end of the input, or a read
/// that failed otherwise, closes the source.
pub open spec fn after_read_spec(event: ReadView) -> SourceView {
    match event {
        ReadView::Line(line) => SourceView::Holding(line),
        ReadView::Undecodable => SourceView::Reading,
        ReadView::Failed => SourceView::Closed,
        ReadView::End => SourceView::Closed,
    }
}

/// The state after an attempt to send the held line. A full queue leaves
/// the source holding the same line. A line offered to a queue whose
/// receiver is gone is given up, and the source reads on.
pub open spec fn after_send_spec(attempt: AttemptView) -> SourceView {
    match attempt {
        AttemptView::Sent => SourceView::Reading,
        AttemptView::Full(line) => SourceView::Holding(line),
        AttemptView::Disconnected(_) => SourceView::Reading,
    }
}

/// Decides what follows a read.
pub fn after_read(event: ReadEvent) -> (next: SourceState)
    ensures
        next@ == after_read_spec(event@),
{
    match event {
        ReadEvent::Line(line) => SourceState::Holding(line),
        ReadEvent::Undecodable => SourceState::Reading,
        ReadEvent::Failed => SourceState::Closed,
        ReadEvent::End => SourceState::Closed,
    }
}

/// Decides what follows an attempt to send the held line.
pub fn after_send(attempt: SendAttempt) -> (next: SourceState)
    ensures
        next@ == after_send_spec(attempt@),
{
    match attempt {
        SendAttempt::Sent => SourceState::Reading,
        SendAttempt::Full(line) => SourceState::Holding(line),
        SendAttempt::Disconnected(_) => SourceState::Reading,
    }
}

/// Offers `line` to the queue, up to `attempts` times, until the queue is
/// no longer full. The source ends up reading again, or still holding the
/// same line: the line is never lost to a full queue, and with no attempt
/// allowed nothing is tried.
pub fn offer(line: String, sendto: &mut futures::channel::mpsc::Sender<String>, attempts: usize)
    -> (next: SourceState)
    ensures
        next@ == SourceView::Reading || next@ == SourceView::Holding(line@),
        attempts == 0 ==> next@ == SourceView::Holding(line@),
{
    let ghost offered = line@;
    let mut held = line;
    let mut left: usize = attempts;
    while left > 0
        invariant
            held@ == offered,
            left <= attempts,
        decreases left,
    {
        left = left - 1;
        match after_send(try_send_line(sendto, held)) {
            SourceState::Holding(back) => {
                held = back;
            },
            next => {
                return next;
            },
        }
    }
    SourceState::Holding(held)
}

/// Backpressure never drops an item: a line that met a full queue is the
/// line the source holds afterwards.
pub proof fn law_full_queue_keeps_line(line: Seq<char>)
    ensures
        after_send_spec(AttemptView::Full(line)) == SourceView::Holding(line),
{
}

} // verus!
