//! The queue that carries scancodes from the keyboard interrupt to the task
//! that consumes them.

use crossbeam_queue::ArrayQueue;
use vstd::prelude::*;

verus! {

/// Number of scancodes that the queue holds at most.
pub const SCANCODE_CAPACITY: usize = 100;

#[verifier::external_type_specification]
#[verifier::external_body]
#[verifier::reject_recursive_types(T)]
pub struct ExArrayQueue<T>(ArrayQueue<T>);

/// The bytes that a queue holds, the oldest first.
pub uninterp spec fn queued(queue: ArrayQueue<u8>) -> Seq<u8>;

/// The capacity that a queue was made with.
pub uninterp spec fn capacity_of(queue: ArrayQueue<u8>) -> nat;

/// `ArrayQueue::new` makes an empty queue of the capacity asked for. It
/// panics where the capacity is zero or so large that the next power of two
/// does not fit the index type.
#[verifier::external_body]
fn new_queue(capacity: usize) -> (queue: ArrayQueue<u8>)
    requires
        0 < capacity <= 0x4000_0000,
    ensures
        queued(queue) == Seq::<u8>::empty(),
        capacity_of(queue) == capacity,
{
    ArrayQueue::new(capacity)
}

/// `ArrayQueue::push` appends the value at the tail unless the queue holds as
/// many values as its capacity; then it hands the value back and leaves the
/// queue as it is. The result says whether the value was taken.
#[verifier::external_body]
fn push(queue: &mut ArrayQueue<u8>, value: u8) -> (taken: bool)
    ensures
        capacity_of(*final(queue)) == capacity_of(*old(queue)),
        taken == (queued(*old(queue)).len() < capacity_of(*old(queue))),
        queued(*final(queue)) == (if taken {
            queued(*old(queue)).push(value)
        } else {
            queued(*old(queue))
        }),
{
    queue.push(value).is_ok()
}

/// `ArrayQueue::pop` removes the value at the head and returns it; from an
/// empty queue it returns nothing.
#[verifier::external_body]
fn pop(queue: &mut ArrayQueue<u8>) -> (value: Option<u8>)
    ensures
        capacity_of(*final(queue)) == capacity_of(*old(queue)),
        value == (if queued(*old(queue)).len() > 0 {
            Some(queued(*old(queue))[0])
        } else {
            None
        }),
        queued(*final(queue)) == (if queued(*old(queue)).len() > 0 {
            queued(*old(queue)).skip(1)
        } else {
            queued(*old(queue))
        }),
{
    queue.pop()
}

/// What became of a scancode that the interrupt handler handed in.
#[derive(Debug, Clone, Copy, PartialEq, Eq, Structural)]
pub enum ScancodeOutcome {
    /// The scancode is in the queue, and the consumer is to be woken.
    Queued,
    /// The queue was full: the scancode is dropped, and nobody is woken.
    Dropped,
    /// No stream has been made yet: the scancode is dropped.
    Uninitialized,
}

/// First step of a poll of the stream.
#[derive(Debug, Clone, Copy, PartialEq, Eq, Structural)]
pub enum StreamPoll {
    /// A scancode was waiting.
    Ready(u8),
    /// The queue was empty: the waker is to be registered, and the queue
    /// looked at again with `poll_after_register`.
    RegisterWaker,
}

/// Second step of a poll of the stream, after the waker was registered.
#[derive(Debug, Clone, Copy, PartialEq, Eq, Structural)]
pub enum StreamRetry {
    /// A scancode arrived in between: the waker is to be taken back.
    Ready(u8),
    /// The queue is still empty: the task waits for the waker.
    Pending,
}

/// The stream of scancodes: the bounded queue between the keyboard interrupt
/// and the consuming task.
pub struct ScancodeStream {
    queue: ArrayQueue<u8>,
}

impl View for ScancodeStream {
    type V = Seq<u8>;

    /// The scancodes that wait in the queue, the oldest first.
    closed spec fn view(&self) -> Seq<u8> {
        queued(self.queue)
    }
}

impl ScancodeStream {
    /// What every stream made by `new` satisfies, and every operation keeps:
    /// the queue has the capacity of the stream and holds no more.
    pub closed spec fn well_formed(&self) -> bool {
        capacity_of(self.queue) == SCANCODE_CAPACITY && queued(self.queue).len()
            <= SCANCODE_CAPACITY
    }

    /// An empty stream.
    pub fn new() -> (stream: Self)
        ensures
            stream.well_formed(),
            stream@ == Seq::<u8>::empty(),
    {
        ScancodeStream { queue: new_queue(SCANCODE_CAPACITY) }
    }

    /// Puts a scancode at the end of the queue, unless the queue is full.
    pub fn add(&mut self, scancode: u8) -> (outcome: ScancodeOutcome)
        requires
            old(self).well_formed(),
        ensures
            final(self).well_formed(),
            outcome == (if old(self)@.len() < SCANCODE_CAPACITY {
                ScancodeOutcome::Queued
            } else {
                ScancodeOutcome::Dropped
            }),
            final(self)@ == (if old(self)@.len() < SCANCODE_CAPACITY {
                old(self)@.push(scancode)
            } else {
                old(self)@
            }),
    {
        if push(&mut self.queue, scancode) {
            ScancodeOutcome::Queued
        } else {
            ScancodeOutcome::Dropped
        }
    }

    /// Takes the oldest scancode out of the queue, if there is one.
    pub fn next(&mut self) -> (scancode: Option<u8>)
        requires
            old(self).well_formed(),
        ensures
            final(self).well_formed(),
            scancode == (if old(self)@.len() > 0 {
                Some(old(self)@[0])
            } else {
                None
            }),
            final(self)@ == (if old(self)@.len() > 0 {
                old(self)@.skip(1)
            } else {
                old(self)@
            }),
    {
        pop(&mut self.queue)
    }

    /// First step of a poll: the fast path.
    pub fn poll_next(&mut self) -> (step: StreamPoll)
        requires
            old(self).well_formed(),
        ensures
            final(self).well_formed(),
            step == (if old(self)@.len() > 0 {
                StreamPoll::Ready(old(self)@[0])
            } else {
                StreamPoll::RegisterWaker
            }),
            final(self)@ == (if old(self)@.len() > 0 {
                old(self)@.skip(1)
            } else {
                old(self)@
            }),
    {
        // fast path
        match self.next() {
            Some(scancode) => StreamPoll::Ready(scancode),
            None => StreamPoll::RegisterWaker,
        }
    }

    /// Second step of a poll: looks again once the waker is registered, so
    /// that a scancode that arrived in between is not missed.
    pub fn poll_after_register(&mut self) -> (step: StreamRetry)
        requires
            old(self).well_formed(),
        ensures
            final(self).well_formed(),
            step == (if old(self)@.len() > 0 {
                StreamRetry::Ready(old(self)@[0])
            } else {
                StreamRetry::Pending
            }),
            final(self)@ == (if old(self)@.len() > 0 {
                old(self)@.skip(1)
            } else {
                old(self)@
            }),
    {
        match self.next() {
            Some(scancode) => StreamRetry::Ready(scancode),
            None => StreamRetry::Pending,
        }
    }

    /// Takes every waiting scancode out of the queue, the oldest first.
    pub fn drain(&mut self) -> (scancodes: Vec<u8>)
        requires
            old(self).well_formed(),
        ensures
            final(self).well_formed(),
            scancodes@ == old(self)@,
            final(self)@ == Seq::<u8>::empty(),
    {
        let mut scancodes: Vec<u8> = Vec::new();
        loop
            invariant
                self.well_formed(),
                scancodes@ + self@ == old(self)@,
            ensures
                self.well_formed(),
                scancodes@ == old(self)@,
                self@ == Seq::<u8>::empty(),
            decreases self@.len(),
        {
            let ghost before = self@;
            match self.next() {
                Some(scancode) => {
                    scancodes.push(scancode);
                    assert(scancodes@ + self@ =~= old(self)@) by {
                        assert(before =~= seq![before[0]] + before.skip(1));
                    }
                },
                None => {
                    assert(scancodes@ =~= scancodes@ + self@);
                    assert(self@ =~= Seq::<u8>::empty());
                    break ;
                },
            }
        }
        scancodes
    }
}

/// Called by the keyboard interrupt handler with the scancode that it read.
/// The scancode is queued unless the queue is full or there is no stream
/// yet; it neither blocks nor allocates.
pub fn add_scancode(stream: &mut Option<ScancodeStream>, scancode: u8) -> (outcome:
    ScancodeOutcome)
    requires
        *old(stream) matches Some(queue) ==> queue.well_formed(),
    ensures
        *final(stream) matches Some(queue) ==> queue.well_formed(),
        (*final(stream) is Some) == (*old(stream) is Some),
        match *old(stream) {
            Some(before) => {
                &&& outcome == (if before@.len() < SCANCODE_CAPACITY {
                    ScancodeOutcome::Queued
                } else {
                    ScancodeOutcome::Dropped
                })
                &&& (*final(stream))->0@ == (if before@.len() < SCANCODE_CAPACITY {
                    before@.push(scancode)
                } else {
                    before@
                })
            },
            None => outcome == ScancodeOutcome::Uninitialized,
        },
{
    match stream {
        Some(queue) => queue.add(scancode),
        None => ScancodeOutcome::Uninitialized,
    }
}

/// What the scancode decoder makes of the scancodes of one key press.
#[derive(Debug, Clone, Copy, PartialEq, Eq, Structural)]
pub enum DecodedKey {
    /// A key that stands for a character.
    Unicode(char),
    /// A key that stands for none.
    RawKey,
}

/// What the console does on a key press.
#[derive(Debug, Clone, Copy, PartialEq, Eq, Structural)]
pub enum KeyOutput {
    /// Take the last character back.
    Backspace,
    /// Print the character.
    Print(char),
    /// Print the name of the key.
    PrintName,
}

/// What the console does on a key press: the backspace character takes the
/// last character back, every other character is printed, and of a key
/// without a character the name is printed.
pub fn key_output(key: DecodedKey) -> (output: KeyOutput)
    ensures
        output == (match key {
            DecodedKey::Unicode(character) => if character == '\u{0008}' {
                KeyOutput::Backspace
            } else {
                KeyOutput::Print(character)
            },
            DecodedKey::RawKey => KeyOutput::PrintName,
        }),
{
    match key {
        DecodedKey::Unicode('\u{0008}') => KeyOutput::Backspace,
        DecodedKey::Unicode(character) => KeyOutput::Print(character),
        DecodedKey::RawKey => KeyOutput::PrintName,
    }
}

/// A scancode that was queued is observed by the consumer, after the ones
/// that were queued before it and before any that is queued later: it is the
/// last of the scancodes that wait, and taking out those before it makes it
/// the next.
pub proof fn queued_scancode_is_delivered(before: Seq<u8>, scancode: u8)
    ensures
        before.push(scancode).skip(before.len() as int) == seq![scancode],
        forall|i: int| 0 <= i < before.len() ==> before.push(scancode)[i] == before[i],
{
    assert(before.push(scancode).skip(before.len() as int) =~= seq![scancode]);
}

} // verus!
