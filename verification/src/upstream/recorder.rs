//! A transport that answers every request with the same output and keeps
//! what it was asked: an upstream for dry runs.

use vstd::prelude::*;

use super::{Request, Subscription, Transport};
use crate::pubsub::SessionId;
use crate::rpc::{duplicate_output, optional_output_view, Call, Output, OutputView};

verus! {

/// A request as the recorder keeps it.
pub enum Recorded {
    /// A subscribe request.
    Subscribe(Call, Option<SessionId>, Subscription),
    /// An unsubscribe request.
    Unsubscribe(Call, Subscription),
    /// A regular call.
    Send(Call),
}

impl View for Recorded {
    type V = Request;

    open spec fn view(&self) -> Request {
        match self {
            Recorded::Subscribe(call, session, subscription) => Request::Subscribe(
                call@,
                *session,
                subscription@,
            ),
            Recorded::Unsubscribe(call, subscription) => Request::Unsubscribe(call@, subscription@),
            Recorded::Send(call) => Request::Send(call@),
        }
    }
}

/// The views of a list of requests, in order.
pub open spec fn requests_view(requests: Seq<Recorded>) -> Seq<Request> {
    Seq::new(requests.len(), |i: int| requests[i]@)
}

/// A transport that answers every request with the same output.
pub struct Recorder {
    requests: Vec<Recorded>,
    reply: Option<Output>,
}

impl Recorder {
    /// The requests that were made, in their order.
    pub closed spec fn requests(&self) -> Seq<Request> {
        requests_view(self.requests@)
    }

    /// The output that answers every request.
    pub closed spec fn reply(&self) -> Option<OutputView> {
        optional_output_view(self.reply)
    }

    /// A recorder that answers with `reply` and was asked nothing yet.
    pub fn new(reply: Option<Output>) -> (r: Recorder)
        ensures
            r.requests() == Seq::<Request>::empty(),
            r.reply() == optional_output_view(reply),
    {
        let r = Recorder { requests: Vec::new(), reply };
        assert(r.requests() =~= Seq::<Request>::empty());
        r
    }

    /// The number of requests that were made.
    pub fn count(&self) -> (r: usize)
        ensures
            r == self.requests().len(),
    {
        self.requests.len()
    }

    /// The requests that were made, in their order.
    pub fn recorded(&self) -> (r: &Vec<Recorded>)
        ensures
            requests_view(r@) == self.requests(),
    {
        &self.requests
    }

    fn record(&mut self, request: Recorded) -> (r: Result<Option<Output>, ()>)
        ensures
            final(self).requests() == old(self).requests().push(request@),
            final(self).reply() == old(self).reply(),
            r matches Ok(output) && optional_output_view(output) == old(self).reply(),
    {
        self.requests.push(request);
        assert(self.requests() =~= old(self).requests().push(request@));
        Ok(duplicate_output(&self.reply))
    }
}

impl Transport for Recorder {
    type Error = ();

    open spec fn answers(
        &self,
        after: &Self,
        request: Request,
        answer: Result<Option<Output>, ()>,
    ) -> bool {
        &&& after.requests() == self.requests().push(request)
        &&& after.reply() == self.reply()
        &&& answer matches Ok(output) && optional_output_view(output) == self.reply()
    }

    fn subscribe(&mut self, call: Call, sink: Option<SessionId>, subscription: Subscription) -> (r:
        Result<Option<Output>, ()>) {
        self.record(Recorded::Subscribe(call, sink, subscription))
    }

    fn unsubscribe(&mut self, call: Call, subscription: Subscription) -> (r: Result<
        Option<Output>,
        (),
    >) {
        self.record(Recorded::Unsubscribe(call, subscription))
    }

    fn send(&mut self, call: Call) -> (r: Result<Option<Output>, ()>) {
        self.record(Recorded::Send(call))
    }
}

} // verus!
