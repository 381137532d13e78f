use vstd::prelude::*;
use crate::crowdfund_client::Invocation;
use crate::events::RegistryEvent;
use crate::registry::RegistryError;

verus! {

/// A batch of calls into campaign instances, forwarded one at a time in order,
/// and the event to publish once every call has succeeded. The first call
/// that fails aborts the batch: no later call is made and the event is not
/// published.
pub struct BatchDispatch {
    calls: Vec<Invocation>,
    done: usize,
    event: RegistryEvent,
}

impl BatchDispatch {
    /// The calls of the batch, in order.
    pub closed spec fn calls_view(&self) -> Seq<Invocation> {
        self.calls@
    }

    /// How many calls have succeeded so far.
    pub closed spec fn done_view(&self) -> nat {
        self.done as nat
    }

    /// The event of the whole batch.
    pub closed spec fn event_view(&self) -> RegistryEvent {
        self.event
    }

    pub open spec fn wf(&self) -> bool {
        self.done_view() <= self.calls_view().len()
    }

    /// A batch of `calls` that none has been made of yet.
    pub fn new(calls: Vec<Invocation>, event: RegistryEvent) -> (r: BatchDispatch)
        ensures
            r.wf(),
            r.calls_view() == calls@,
            r.done_view() == 0,
            r.event_view() == event,
    {
        BatchDispatch { calls, done: 0, event }
    }

    /// The call to make next; `None` once every call has succeeded.
    pub fn next_call(&self) -> (r: Option<Invocation>)
        requires
            self.wf(),
        ensures
            r == if self.done_view() < self.calls_view().len() {
                Some(self.calls_view()[self.done_view() as int])
            } else {
                None::<Invocation>
            },
    {
        if self.done < self.calls.len() {
            Some(self.calls[self.done])
        } else {
            None
        }
    }

    /// Takes the outcome of the call that [`Self::next_call`] gave. A success
    /// moves on to the next call; a failure aborts the batch with the
    /// campaign's reason.
    pub fn record(self, outcome: Result<(), String>) -> (r: Result<BatchDispatch, RegistryError>)
        requires
            self.wf(),
            self.done_view() < self.calls_view().len(),
        ensures
            outcome is Ok ==> (r matches Ok(d) && {
                &&& d.wf()
                &&& d.calls_view() == self.calls_view()
                &&& d.done_view() == self.done_view() + 1
                &&& d.event_view() == self.event_view()
            }),
            outcome matches Err(reason) ==> r == Err::<BatchDispatch, RegistryError>(
                RegistryError::DownstreamFailure(reason),
            ),
    {
        let n = self.calls.len();
        assert(self.done < n);
        match outcome {
            Ok(()) => Ok(BatchDispatch { calls: self.calls, done: self.done + 1, event: self.event }),
            Err(reason) => Err(RegistryError::DownstreamFailure(reason)),
        }
    }

    /// The batch's event, once every call has succeeded; `None` before.
    pub fn finish(self) -> (r: Option<RegistryEvent>)
        requires
            self.wf(),
        ensures
            r == if self.done_view() == self.calls_view().len() {
                Some(self.event_view())
            } else {
                None::<RegistryEvent>
            },
    {
        if self.done == self.calls.len() {
            Some(self.event)
        } else {
            None
        }
    }
}

} // verus!
