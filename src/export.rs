use vstd::prelude::*;
use crossbeam_channel::{Receiver, Sender};
use crate::span::FinishedSpan;

verus! {

#[verifier::external_type_specification]
#[verifier::external_body]
#[verifier::reject_recursive_types(T)]
pub struct ExSender<T>(Sender<T>);

#[verifier::external_type_specification]
#[verifier::external_body]
#[verifier::reject_recursive_types(T)]
pub struct ExReceiver<T>(Receiver<T>);

/// Relies on `crossbeam_channel::Sender::clone`: another sending end of the
/// same queue.
pub assume_specification<T>[ <Sender<T> as Clone>::clone ](s: &Sender<T>) -> Sender<T>;

/// The largest export queue capacity accepted.
pub const MAX_QUEUE_CAPACITY: usize = 1048576;

/// The number of spans that the queue behind `s` holds at most: the
/// capacity it was made with, which never changes.
pub uninterp spec fn queue_bound(s: Sender<FinishedSpan>) -> usize;

/// Relies on `crossbeam_channel::bounded`: a queue that holds at most `cap`
/// spans, with its sending and receiving ends (`Sender::capacity` reports
/// `cap`). It panics only for a capacity too large to allocate.
#[verifier::external_body]
fn bounded_queue(cap: usize) -> (r: (Sender<FinishedSpan>, Receiver<FinishedSpan>))
    requires
        cap <= MAX_QUEUE_CAPACITY,
    ensures
        queue_bound(r.0) == cap,
{
    crossbeam_channel::bounded(cap)
}

/// Relies on `crossbeam_channel::Sender::send`: blocks while the queue is
/// full, and hands the span back when every receiving end is gone.
#[verifier::external_body]
fn send_span(tx: &Sender<FinishedSpan>, span: FinishedSpan) -> (r: Result<(), FinishedSpan>)
    ensures
        r matches Err(s) ==> s == span,
{
    tx.send(span).map_err(|e| e.0)
}

/// Relies on `crossbeam_channel::Receiver::recv`: blocks until a span
/// arrives, and yields none once the queue is empty and every sending end is
/// gone.
#[verifier::external_body]
fn recv_span(rx: &Receiver<FinishedSpan>) -> (r: Option<FinishedSpan>) {
    rx.recv().ok()
}

/// The producing end of the export queue; every clone feeds the same queue.
#[derive(Clone)]
pub struct SpanExporter {
    sender: Sender<FinishedSpan>,
}

/// The consuming end of the export queue, for the one thread that reports
/// finished spans.
pub struct SpanReceiver {
    receiver: Receiver<FinishedSpan>,
}

/// An export queue that holds at most `capacity` finished spans. A full
/// queue makes producers wait instead of dropping spans.
pub fn export_queue(capacity: usize) -> (r: (SpanExporter, SpanReceiver))
    requires
        capacity <= MAX_QUEUE_CAPACITY,
    ensures
        r.0.capacity() == capacity,
{
    let (sender, receiver) = bounded_queue(capacity);
    (SpanExporter { sender }, SpanReceiver { receiver })
}

impl SpanExporter {
    /// The number of finished spans the queue holds at most.
    pub closed spec fn capacity(&self) -> usize {
        queue_bound(self.sender)
    }

    /// Enqueues `span`, waiting while the queue is full. When the consuming
    /// end is gone the span comes back as the error.
    pub fn export(&self, span: FinishedSpan) -> (r: Result<(), FinishedSpan>)
        ensures
            r matches Err(s) ==> s == span,
    {
        send_span(&self.sender, span)
    }
}

impl SpanReceiver {
    /// The next finished span, in the order of enqueueing; none once every
    /// exporter is dropped and the queue is drained.
    pub fn next_span(&self) -> (r: Option<FinishedSpan>) {
        recv_span(&self.receiver)
    }
}

} // verus!
