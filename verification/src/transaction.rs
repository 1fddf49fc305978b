//! One exchange with a control point: the request is written and the first value that
//! the control point notifies afterwards is its response.
//!
//! The caller performs one action at a time and reports what happened;
//! `Transaction::advance` answers with the next action.  Notifications are switched on
//! before the request is written and off again when the exchange ends, whether a
//! response came or the wait ran out.  Values notified by other characteristics are
//! passed over.  One exchange runs at a time: an exchange in progress takes no new
//! start.

use vstd::prelude::*;

use crate::error::Error;
use crate::ids::Characteristic;

verus! {

/// The longest wait for a response, in milliseconds, counted from the moment the
/// caller begins to observe the events of the device.
pub const RESPONSE_TIMEOUT_MS: u64 = 1000;

/// Where an exchange stands.
#[derive(Debug, Clone, Copy, PartialEq, Eq, Hash, Structural)]
pub enum TxState {
    /// Not begun, or ended.
    Idle,
    /// Notifications are being switched on.
    Subscribing,
    /// The events of the device are being tapped.
    Observing,
    /// The request is being written.
    Writing,
    /// The response is awaited.
    AwaitingResponse,
    /// Notifications are being switched off.
    Unsubscribing,
}

/// What the caller reports.
#[derive(Debug, Clone, PartialEq, Eq)]
pub enum TxEvent {
    /// The exchange is to begin.
    Start,
    /// The action asked for was performed.
    Done,
    /// The action asked for failed.
    Failed,
    /// A characteristic notified a value.
    Value { from: Characteristic, value: Vec<u8> },
    /// The device reported something else.
    Other,
    /// The wait for a response ran out.
    TimedOut,
}

/// What the caller is to do next.
#[derive(Debug, Clone, PartialEq, Eq)]
pub enum TxAction {
    /// Switch notifications of the control point on.
    StartNotify,
    /// Begin to observe the events of the device.
    Observe,
    /// Write the request to the control point.
    Write,
    /// Wait for the next event of the device, no longer than the wait allows.
    Await,
    /// Switch notifications of the control point off.
    StopNotify,
    /// Hand the response to whoever asked.
    Deliver(Vec<u8>),
    /// End with this error.
    Fail(Error),
    /// End with the failure that the action reported.
    Propagate,
    /// Nothing: the event has no place here, and nothing has changed.
    Rejected,
}

/// A `TxAction` with its bytes as a sequence.
pub enum TxActionView {
    StartNotify,
    Observe,
    Write,
    Await,
    StopNotify,
    Deliver(Seq<u8>),
    Fail(Error),
    Propagate,
    Rejected,
}

impl View for TxAction {
    type V = TxActionView;

    open spec fn view(&self) -> TxActionView {
        match self {
            TxAction::StartNotify => TxActionView::StartNotify,
            TxAction::Observe => TxActionView::Observe,
            TxAction::Write => TxActionView::Write,
            TxAction::Await => TxActionView::Await,
            TxAction::StopNotify => TxActionView::StopNotify,
            TxAction::Deliver(v) => TxActionView::Deliver(v@),
            TxAction::Fail(e) => TxActionView::Fail(*e),
            TxAction::Propagate => TxActionView::Propagate,
            TxAction::Rejected => TxActionView::Rejected,
        }
    }
}

/// An exchange with a control point.
#[derive(Debug, Clone, PartialEq, Eq)]
pub struct Transaction {
    /// The control point.
    pub point: Characteristic,
    /// The bytes of the request.
    pub request: Vec<u8>,
    /// Where the exchange stands.
    pub state: TxState,
    /// The response, while notifications are being switched off.
    pub response: Option<Vec<u8>>,
}

/// The bytes of a response that may be missing, as a sequence.
pub open spec fn response_view(v: Option<Vec<u8>>) -> Option<Seq<u8>> {
    match v {
        Some(b) => Some(b@),
        None => None,
    }
}

impl Transaction {
    /// The state that follows an event.
    pub open spec fn spec_state(&self, event: &TxEvent) -> TxState {
        match (self.state, event) {
            (TxState::Idle, TxEvent::Start) => TxState::Subscribing,
            (TxState::Subscribing, TxEvent::Done) => TxState::Observing,
            (TxState::Observing, TxEvent::Done) => TxState::Writing,
            (TxState::Writing, TxEvent::Done) => TxState::AwaitingResponse,
            (TxState::AwaitingResponse, TxEvent::Value { from, .. }) => if *from == self.point {
                TxState::Unsubscribing
            } else {
                TxState::AwaitingResponse
            },
            (TxState::AwaitingResponse, TxEvent::Other) => TxState::AwaitingResponse,
            (TxState::AwaitingResponse, TxEvent::TimedOut) => TxState::Unsubscribing,
            (TxState::Unsubscribing, TxEvent::Done) => TxState::Idle,
            (_, TxEvent::Failed) => TxState::Idle,
            _ => self.state,
        }
    }

    /// The response held after an event: the value that the control point notified,
    /// from the moment it came until the exchange ends.
    pub open spec fn spec_response(&self, event: &TxEvent) -> Option<Seq<u8>> {
        match (self.state, event) {
            (TxState::AwaitingResponse, TxEvent::Value { from, value }) => if *from == self.point {
                Some(value@)
            } else {
                None
            },
            (TxState::Unsubscribing, TxEvent::Done) => None,
            (TxState::Unsubscribing, TxEvent::Failed) => None,
            (TxState::Unsubscribing, _) => response_view(self.response),
            _ => None,
        }
    }

    /// The action that follows an event.
    ///
    /// When notifications are off again the exchange ends: with the response where one
    /// came, with `NoResponse` where the wait ran out.  A failure of any action ends the
    /// exchange with that failure, but for one that follows a wait that ran out, which
    /// ends it with `NoResponse` as well.
    pub open spec fn spec_action(&self, event: &TxEvent) -> TxActionView {
        match (self.state, event) {
            (TxState::Idle, TxEvent::Start) => TxActionView::StartNotify,
            (TxState::Subscribing, TxEvent::Done) => TxActionView::Observe,
            (TxState::Observing, TxEvent::Done) => TxActionView::Write,
            (TxState::Writing, TxEvent::Done) => TxActionView::Await,
            (TxState::AwaitingResponse, TxEvent::Value { from, .. }) => if *from == self.point {
                TxActionView::StopNotify
            } else {
                TxActionView::Await
            },
            (TxState::AwaitingResponse, TxEvent::Other) => TxActionView::Await,
            (TxState::AwaitingResponse, TxEvent::TimedOut) => TxActionView::StopNotify,
            (TxState::Unsubscribing, TxEvent::Done) => match self.response {
                Some(v) => TxActionView::Deliver(v@),
                None => TxActionView::Fail(Error::NoResponse),
            },
            (TxState::Unsubscribing, TxEvent::Failed) => match self.response {
                Some(_) => TxActionView::Propagate,
                None => TxActionView::Fail(Error::NoResponse),
            },
            (TxState::Idle, TxEvent::Failed) => TxActionView::Rejected,
            (_, TxEvent::Failed) => TxActionView::Propagate,
            _ => TxActionView::Rejected,
        }
    }

    /// An exchange that has not begun.
    pub fn new(point: Characteristic, request: Vec<u8>) -> (r: Self)
        ensures
            r.point == point,
            r.request@ == request@,
            r.state == TxState::Idle,
            r.response is None,
    {
        Transaction { point, request, state: TxState::Idle, response: None }
    }

    /// The bytes of the request.
    pub fn request(&self) -> (r: &[u8])
        ensures
            r@ == self.request@,
    {
        self.request.as_slice()
    }

    /// Where the exchange stands.
    pub fn state(&self) -> (r: TxState)
        ensures
            r == self.state,
    {
        self.state
    }

    /// Takes in what happened and says what to do next.
    pub fn advance(&mut self, event: TxEvent) -> (r: TxAction)
        ensures
            r@ == old(self).spec_action(&event),
            final(self).state == old(self).spec_state(&event),
            response_view(final(self).response) == old(self).spec_response(&event),
            final(self).point == old(self).point,
            final(self).request@ == old(self).request@,
    {
        match (self.state, event) {
            (TxState::Idle, TxEvent::Start) => {
                self.state = TxState::Subscribing;
                self.response = None;
                TxAction::StartNotify
            },
            (TxState::Subscribing, TxEvent::Done) => {
                self.state = TxState::Observing;
                self.response = None;
                TxAction::Observe
            },
            (TxState::Observing, TxEvent::Done) => {
                self.state = TxState::Writing;
                self.response = None;
                TxAction::Write
            },
            (TxState::Writing, TxEvent::Done) => {
                self.state = TxState::AwaitingResponse;
                self.response = None;
                TxAction::Await
            },
            (TxState::AwaitingResponse, TxEvent::Value { from, value }) => {
                if from == self.point {
                    self.state = TxState::Unsubscribing;
                    self.response = Some(value);
                    TxAction::StopNotify
                } else {
                    self.response = None;
                    TxAction::Await
                }
            },
            (TxState::AwaitingResponse, TxEvent::Other) => {
                self.response = None;
                TxAction::Await
            },
            (TxState::AwaitingResponse, TxEvent::TimedOut) => {
                self.state = TxState::Unsubscribing;
                self.response = None;
                TxAction::StopNotify
            },
            (TxState::Unsubscribing, TxEvent::Done) => {
                self.state = TxState::Idle;
                match self.response.take() {
                    Some(v) => TxAction::Deliver(v),
                    None => TxAction::Fail(Error::NoResponse),
                }
            },
            (TxState::Unsubscribing, TxEvent::Failed) => {
                self.state = TxState::Idle;
                match self.response.take() {
                    Some(_) => TxAction::Propagate,
                    None => TxAction::Fail(Error::NoResponse),
                }
            },
            (TxState::Idle, TxEvent::Failed) => {
                self.response = None;
                TxAction::Rejected
            },
            (_, TxEvent::Failed) => {
                self.state = TxState::Idle;
                self.response = None;
                TxAction::Propagate
            },
            (TxState::Unsubscribing, _) => TxAction::Rejected,
            _ => {
                self.response = None;
                TxAction::Rejected
            },
        }
    }

    /// An exchange moves along one path: from `Idle` through `Subscribing`, `Observing`,
    /// `Writing`, `AwaitingResponse` and `Unsubscribing` back to `Idle`.  From each state
    /// an event leads to the state itself, to the next on the path, or back to `Idle`.
    pub proof fn lemma_path(&self, event: &TxEvent)
        ensures
            ({
                let next = self.spec_state(event);
                next == self.state || next == TxState::Idle || next == (match self.state {
                    TxState::Idle => TxState::Subscribing,
                    TxState::Subscribing => TxState::Observing,
                    TxState::Observing => TxState::Writing,
                    TxState::Writing => TxState::AwaitingResponse,
                    TxState::AwaitingResponse => TxState::Unsubscribing,
                    TxState::Unsubscribing => TxState::Idle,
                })
            }),
            self.spec_action(event) is Deliver || self.spec_action(event) is Fail
                || self.spec_action(event) is Propagate ==> self.spec_state(event)
                == TxState::Idle,
            self.spec_action(event) is Deliver ==> self.state == TxState::Unsubscribing
                && self.response is Some,
    {
    }

    /// An exchange in progress takes no new start, and the request is written only
    /// after notifications are on and the events are tapped.
    pub proof fn lemma_half_duplex(&self, event: &TxEvent)
        ensures
            self.state != TxState::Idle ==> self.spec_action(&TxEvent::Start)
                == TxActionView::Rejected && self.spec_state(&TxEvent::Start) == self.state,
            self.spec_action(event) == TxActionView::Write ==> self.state == TxState::Observing,
            self.spec_state(event) == TxState::Observing && self.state != TxState::Observing
                ==> self.state == TxState::Subscribing,
    {
    }

    /// A wait that runs out ends the exchange with `NoResponse` once notifications are
    /// off, and a value of another characteristic changes nothing.
    pub proof fn lemma_no_response(&self, other: Characteristic, value: Vec<u8>)
        requires
            self.state == TxState::AwaitingResponse,
            other != self.point,
        ensures
            self.spec_action(&TxEvent::TimedOut) == TxActionView::StopNotify,
            self.spec_state(&TxEvent::TimedOut) == TxState::Unsubscribing,
            self.spec_response(&TxEvent::TimedOut) is None,
            self.spec_state(&(TxEvent::Value { from: other, value }))
                == TxState::AwaitingResponse,
            self.spec_action(&(TxEvent::Value { from: other, value })) == TxActionView::Await,
    {
    }
}

} // verus!
