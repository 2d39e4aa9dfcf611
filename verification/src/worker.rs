//! The decisions of the run loop and of the workers around the core.

use vstd::prelude::*;
use crate::action::{Action, ActionView};
use crate::app::{App, AppView};
use crate::data::Post;
use crate::handle_posts::with_read;

verus! {

/// What a wait on a channel brought.
#[derive(Debug)]
pub enum Received<T> {
    Message(T),
    /// Nothing arrived in time.
    Timeout,
    /// The other end of the channel is gone.
    Disconnected,
}

/// What the run loop does after a wait on the event queue.
#[derive(Debug, Clone, Copy, PartialEq, Eq)]
pub enum LoopStep {
    /// Nothing arrived: look at the running flag and wait again.
    Wait,
    /// The queue is gone: leave the loop.
    Stop,
    /// An event was handled: hand out the work and draw.
    Draw,
}

impl AppView {
    /// Whether the run loop can take what the wait brought.
    pub open spec fn accepts_received(self, received: Received<ActionView>) -> bool {
        match received {
            Received::Message(action) => self.accepts(action),
            _ => true,
        }
    }

    /// The state after the run loop took what the wait brought: an event is
    /// handled, anything else changes nothing.
    pub open spec fn on_received(self, received: Received<ActionView>) -> AppView {
        match received {
            Received::Message(action) => self.on_action(action),
            _ => self,
        }
    }
}

/// What the wait brought, with the event as its view.
pub open spec fn received_view(received: Received<Action>) -> Received<ActionView> {
    match received {
        Received::Message(action) => Received::Message(action@),
        Received::Timeout => Received::Timeout,
        Received::Disconnected => Received::Disconnected,
    }
}

/// The step of the run loop for what a wait brought.
pub open spec fn loop_step(received: Received<ActionView>) -> LoopStep {
    match received {
        Received::Message(_) => LoopStep::Draw,
        Received::Timeout => LoopStep::Wait,
        Received::Disconnected => LoopStep::Stop,
    }
}

impl App {
    /// Whether the run loop can take what the wait brought.
    pub fn accepts_received(&self, received: &Received<Action>) -> (ok: bool)
        ensures
            ok == self@.accepts_received(received_view(*received)),
    {
        match received {
            Received::Message(action) => self.accepts(action),
            _ => true,
        }
    }

    /// One turn of the run loop: handles the event that the wait on the
    /// queue brought, if it brought one, and says how the loop goes on.
    pub fn main_loop_step(&mut self, received: Received<Action>) -> (step: LoopStep)
        requires
            old(self).wf(),
            old(self)@.accepts_received(received_view(received)),
        ensures
            final(self)@ == old(self)@.on_received(received_view(received)),
            step == loop_step(received_view(received)),
            final(self).wf(),
    {
        match received {
            Received::Message(action) => {
                self.handle_action(action);
                LoopStep::Draw
            },
            // Check `is_running` again
            Received::Timeout => LoopStep::Wait,
            Received::Disconnected => LoopStep::Stop,
        }
    }
}

/// What a worker does after a wait on its channel.
#[derive(Debug)]
pub enum WorkerStep<T> {
    /// Nothing arrived: look at the running flag and wait again.
    Wait,
    /// The channel is gone: the worker ends without an error.
    Stop,
    /// Carry out this request.
    Work(T),
}

/// The step of a worker for what a wait brought: every request is carried
/// out, in the order of arrival.
pub fn worker_step<T>(received: Received<T>) -> (step: WorkerStep<T>)
    ensures
        step == match received {
            Received::Message(request) => WorkerStep::Work(request),
            Received::Timeout => WorkerStep::Wait,
            Received::Disconnected => WorkerStep::Stop,
        },
{
    match received {
        Received::Message(request) => WorkerStep::Work(request),
        Received::Timeout => WorkerStep::Wait,
        Received::Disconnected => WorkerStep::Stop,
    }
}

/// The index of the last error among `results`, if there is one.
pub open spec fn last_error<E>(results: Seq<Result<(), E>>) -> Option<int>
    decreases results.len(),
{
    if results.len() == 0 {
        None
    } else if results.last() is Err {
        Some(results.len() - 1)
    } else {
        last_error(results.drop_last())
    }
}

/// How a run ends: with the last error among the workers where one failed,
/// else as the run loop ended.
pub open spec fn outcome_of<E>(main: Result<(), E>, workers: Seq<Result<(), E>>) -> Result<(), E> {
    match last_error(workers) {
        Some(i) => workers[i],
        None => main,
    }
}

/// [`last_error`] is the largest index of an error, and none exactly where
/// every result is a success.
pub proof fn lemma_last_error<E>(results: Seq<Result<(), E>>)
    ensures
        match last_error(results) {
            Some(i) => 0 <= i < results.len() && results[i] is Err && forall|j: int|
                i < j < results.len() ==> (#[trigger] results[j]) is Ok,
            None => forall|j: int| 0 <= j < results.len() ==> (#[trigger] results[j]) is Ok,
        },
    decreases results.len(),
{
    if results.len() > 0 && results.last() is Ok {
        let rest = results.drop_last();
        lemma_last_error(rest);
        match last_error(rest) {
            Some(i) => {
                assert(results[i] == rest[i]);
                assert forall|j: int| i < j < results.len() implies (#[trigger] results[j]) is Ok by {
                    if j < rest.len() {
                        assert(results[j] == rest[j]);
                    }
                }
            },
            None => {
                assert forall|j: int| 0 <= j < results.len() implies (#[trigger] results[j]) is Ok by {
                    if j < rest.len() {
                        assert(results[j] == rest[j]);
                    }
                }
            },
        }
    }
}

/// Settles how a run ends, from how the run loop ended and how each worker
/// did: the errors of the workers come first, the last of them wins.
pub fn run_outcome<E>(main: Result<(), E>, workers: Vec<Result<(), E>>) -> (outcome: Result<(), E>)
    ensures
        outcome == outcome_of(main, workers@),
{
    let mut res = main;
    let mut workers = workers;
    let ghost all = workers@;
    // Take the results from the last to the first; the first error met is the last error.
    loop
        invariant_except_break
            workers@ == all.take(workers@.len() as int),
            res == main,
            last_error(all) == last_error(workers@),
        invariant
            workers@.len() <= all.len(),
        ensures
            res == outcome_of(main, all),
        decreases workers@.len(),
    {
        match workers.pop() {
            Some(Err(e)) => {
                assert(all.take(workers@.len() + 1 as int).last() == Err::<(), E>(e));
                res = Err(e);
                break ;
            },
            Some(Ok(())) => {
                assert(workers@ =~= all.take(workers@.len() as int));
                assert(all.take(workers@.len() + 1 as int).drop_last() =~= workers@);
            },
            None => {
                break ;
            },
        }
    }
    res
}

/// `posts`, with those read for which `found` says so; the others, and the
/// posts beyond the end of `found`, as they are.
pub open spec fn flagged(posts: Seq<Post>, found: Seq<bool>) -> Seq<Post> {
    Seq::new(
        posts.len(),
        |i: int|
            if i < found.len() && found[i] {
                with_read(posts[i], true)
            } else {
                posts[i]
            },
    )
}

/// Marks as read the posts of a fetched listing that the store knows:
/// `found[i]` tells whether the store holds post `i`.
pub fn update_posts(posts: &mut Vec<Post>, found: &Vec<bool>)
    ensures
        final(posts)@ == flagged(old(posts)@, found@),
{
    let mut i: usize = 0;
    while i < posts.len() && i < found.len()
        invariant
            posts@.len() == old(posts)@.len(),
            i <= posts@.len(),
            i <= found@.len(),
            forall|k: int| 0 <= k < i ==> posts@[k] == flagged(old(posts)@, found@)[k],
            forall|k: int| i <= k < posts@.len() ==> posts@[k] == old(posts)@[k],
        decreases posts@.len() - i,
    {
        if found[i] {
            posts[i].is_read = true;
        }
        i += 1;
    }
    assert(posts@ =~= flagged(old(posts)@, found@));
}

/// The count of downloaded bytes after a response that declared
/// `content_length` bytes, or no length: the sum, or the largest count where
/// the sum is beyond it.
pub open spec fn downloaded_after(total: u32, content_length: Option<u64>) -> u32 {
    match content_length {
        Some(len) => if total + len <= u32::MAX {
            (total + len) as u32
        } else {
            u32::MAX
        },
        None => total,
    }
}

/// Adds the declared length of a response to the count of downloaded bytes.
/// The count never goes down.
pub fn add_downloaded(total: u32, content_length: Option<u64>) -> (new_total: u32)
    ensures
        new_total == downloaded_after(total, content_length),
        new_total >= total,
{
    match content_length {
        Some(len) => {
            if len <= (u32::MAX - total) as u64 {
                total + (len as u32)
            } else {
                u32::MAX
            }
        },
        None => total,
    }
}

} // verus!
