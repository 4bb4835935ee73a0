//! The thread-safe hand-off between the notification callback and the
//! control loop: thin trusted declarations over `crossbeam_channel`'s
//! unbounded FIFO queues.
//!
//! A queue is shared with other threads, so nothing relates one call's
//! outcome to the next: each item here states only what holds of every
//! outcome of the call it makes.

use vstd::prelude::*;

verus! {

/// Declares crossbeam_channel::Sender, the producer end of a queue, so that
/// it can stand in signatures and fields; its value is opaque here.
#[verifier::external_type_specification]
#[verifier::external_body]
#[verifier::reject_recursive_types(T)]
pub struct ExSender<T>(crossbeam_channel::Sender<T>);

/// Declares crossbeam_channel::Receiver, the consumer end of a queue, so
/// that it can stand in signatures and fields; its value is opaque here.
#[verifier::external_type_specification]
#[verifier::external_body]
#[verifier::reject_recursive_types(T)]
pub struct ExReceiver<T>(crossbeam_channel::Receiver<T>);

/// Relies on crossbeam_channel::unbounded: a fresh queue of unlimited
/// capacity, the sender and receiver ends connected to each other.
pub assume_specification<T>[ crossbeam_channel::unbounded::<T> ]() -> (crossbeam_channel::Sender<
    T,
>, crossbeam_channel::Receiver<T>);

/// What one non-blocking poll of a queue can come back with.
pub enum Polled<T> {
    Item(T),
    Empty,
    Closed,
}

/// Relies on crossbeam_channel::Receiver::try_recv: hands out the oldest
/// queued item without blocking, or reports the queue empty, or closed once
/// every sender is gone and the queue drained.
#[verifier::external_body]
pub fn poll<T>(rx: &crossbeam_channel::Receiver<T>) -> (r: Polled<T>) {
    match rx.try_recv() {
        Ok(item) => Polled::Item(item),
        Err(crossbeam_channel::TryRecvError::Empty) => Polled::Empty,
        Err(crossbeam_channel::TryRecvError::Disconnected) => Polled::Closed,
    }
}

/// Relies on crossbeam_channel::Sender::send: enqueues the value without
/// blocking (the queue is unbounded); reports failure only when every
/// receiver is gone.
#[verifier::external_body]
pub fn send<T>(tx: &crossbeam_channel::Sender<T>, value: T) -> (ok: bool) {
    tx.send(value).is_ok()
}

/// Relies on crossbeam_channel::Select::ready: blocks until one of the four
/// queues has a pending item or a closed end, then returns.
#[verifier::external_body]
pub fn wait_ready<A, B, C, D>(
    a: &crossbeam_channel::Receiver<A>,
    b: &crossbeam_channel::Receiver<B>,
    c: &crossbeam_channel::Receiver<C>,
    d: &crossbeam_channel::Receiver<D>,
) {
    let mut select = crossbeam_channel::Select::new();
    select.recv(a);
    select.recv(b);
    select.recv(c);
    select.recv(d);
    let _ = select.ready();
}

} // verus!
