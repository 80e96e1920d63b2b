//! WebSocket Upstream Transport

use vstd::prelude::*;

pub mod address;
pub mod config;
pub mod params;

use self::config::{url_param, UrlParser};
use crate::cli_params::Parser;
use crate::text::text;
use crate::pubsub::SessionId;
use crate::rpc::Call;
use crate::upstream::connection::{
    abandoned_by, after_frame, after_send, after_unsubscribe, dispatches, receiver_of, Connection,
    Dispatched,
    Frame, Sent, State, SubscribeError, FIRST_REQUEST_ID,
};
use crate::upstream::shared::PendingKindView;
use crate::upstream::Subscription;

verus! {

/// What a close message says.
#[derive(Debug, Clone, PartialEq, Eq)]
pub struct CloseData {
    /// The status code.
    pub status_code: u16,
    /// The reason.
    pub reason: String,
}

/// A message of a WebSocket connection.
pub enum Message {
    /// A text message, as the frame that it was read as.
    Text(Frame),
    /// A binary message.
    Binary(Vec<u8>),
    /// A close message.
    Close(Option<CloseData>),
    /// A ping.
    Ping(Vec<u8>),
    /// A pong.
    Pong(Vec<u8>),
}

/// What the handler does with a message from upstream.
pub enum Handled {
    /// A close message is echoed.
    EchoClose(Option<CloseData>),
    /// A ping is answered with a pong of the same data.
    Pong(Vec<u8>),
    /// A text message was dispatched as a frame.
    Frame(Dispatched),
    /// The message is ignored.
    Ignored,
}

/// The state of the connection after a message from upstream: only a text
/// message changes it.
pub open spec fn after_message(state: State, message: Message) -> State {
    match message {
        Message::Text(frame) => after_frame(state, frame),
        _ => state,
    }
}

/// The option that counts: the last among the given ones, or without one
/// what the default address gives.
pub open spec fn configured(params: Seq<config::Param>) -> Result<config::Param, Seq<char>> {
    if params.len() > 0 {
        Ok(params.last())
    } else {
        url_param("ws://127.0.0.1:9944"@)
    }
}

/// What handles the messages that arrive from upstream.
pub struct WebSocketHandler {
    connection: Connection,
}

impl WebSocketHandler {
    /// Whether the tables of the connection are consistent.
    pub closed spec fn wf(&self) -> bool {
        self.connection.wf()
    }

    /// The state of the connection.
    pub closed spec fn state(&self) -> State {
        self.connection.state()
    }

    /// Handles a message from upstream: a close message is echoed, a ping
    /// is answered with a pong, a text message is dispatched as a frame,
    /// and any other message is ignored.
    pub fn process_message(&mut self, message: Message) -> (r: Handled)
        requires
            old(self).wf(),
        ensures
            final(self).wf(),
            final(self).state() == after_message(old(self).state(), message),
            match message {
                Message::Close(data) => r == Handled::EchoClose(data),
                Message::Ping(data) => r == Handled::Pong(data),
                Message::Text(frame) => r matches Handled::Frame(dispatched) && dispatches(
                    old(self).state(),
                    frame,
                    dispatched,
                ),
                _ => r is Ignored,
            },
    {
        match message {
            Message::Close(data) => Handled::EchoClose(data),
            Message::Ping(data) => Handled::Pong(data),
            Message::Text(frame) => Handled::Frame(self.connection.process_frame(frame)),
            _ => Handled::Ignored,
        }
    }
}

/// WebSocket transport
pub struct WebSocket {
    url: url::Url,
    handler: WebSocketHandler,
}

impl WebSocket {
    /// Whether the tables of the connection are consistent.
    pub closed spec fn wf(&self) -> bool {
        self.handler.connection.wf()
    }

    /// The state of the connection.
    pub closed spec fn state(&self) -> State {
        self.handler.connection.state()
    }

    /// The address of upstream.
    pub closed spec fn spec_url(&self) -> url::Url {
        self.url
    }

    /// Create new WebSocket transport: the last address among the options
    /// counts. Without one the default address is taken, which is an
    /// error where it cannot be read.
    pub fn new(params: Vec<config::Param>) -> (r: Result<WebSocket, String>)
        ensures
            match configured(params@) {
                Ok(option) => {
                    &&& r matches Ok(transport)
                    &&& option == config::Param::Url(transport.spec_url())
                    &&& transport.wf()
                    &&& transport.state() == (State {
                        id: FIRST_REQUEST_ID,
                        next_sink: 0,
                        pending: Map::empty(),
                        subscriptions: Map::empty(),
                        sessions: Map::empty(),
                    })
                },
                Err(reason) => r matches Err(error) && error@ == reason,
            },
    {
        let mut params = params;
        let option = match params.pop() {
            Some(option) => option,
            None => match UrlParser.parse(text("ws://127.0.0.1:9944")) {
                Ok(option) => option,
                Err(e) => { return Err(e); },
            },
        };
        match option {
            config::Param::Url(url) => Ok(
                WebSocket { url, handler: WebSocketHandler { connection: Connection::new() } },
            ),
        }
    }

    /// The address of upstream.
    pub fn url(&self) -> (r: &url::Url)
        ensures
            *r == self.spec_url(),
    {
        &self.url
    }

    /// The connection.
    pub fn connection(&mut self) -> (r: &mut Connection)
        requires
            old(self).wf(),
        ensures
            r.wf(),
            r.state() == old(self).state(),
            final(self).spec_url() == old(self).spec_url(),
            final(r).wf() ==> final(self).wf(),
            final(self).state() == final(r).state(),
    {
        &mut self.handler.connection
    }

    /// Handles a message from upstream: a close message is echoed, a ping
    /// is answered with a pong, a text message is dispatched as a frame,
    /// and any other message is ignored.
    pub fn process_message(&mut self, message: Message) -> (r: Handled)
        requires
            old(self).wf(),
        ensures
            final(self).wf(),
            final(self).spec_url() == old(self).spec_url(),
            final(self).state() == after_message(old(self).state(), message),
            match message {
                Message::Close(data) => r == Handled::EchoClose(data),
                Message::Ping(data) => r == Handled::Pong(data),
                Message::Text(frame) => r matches Handled::Frame(dispatched) && dispatches(
                    old(self).state(),
                    frame,
                    dispatched,
                ),
                _ => r is Ignored,
            },
    {
        self.handler.process_message(message)
    }

    /// Send a regular call upstream.
    pub fn send(&mut self, call: Call) -> (r: Sent)
        requires
            old(self).wf(),
        ensures
            final(self).wf(),
            final(self).spec_url() == old(self).spec_url(),
            final(self).state() == after_send(old(self).state(), call@, PendingKindView::Regular),
            r.write == call,
            r.receiver == receiver_of(old(self).state(), call@),
            r.abandoned == abandoned_by(old(self).state(), call@),
    {
        self.handler.connection.send(call)
    }

    /// Send subscribe call upstream.
    pub fn subscribe(&mut self, call: Call, session: Option<SessionId>, subscription: Subscription) -> (r:
        Result<Sent, SubscribeError>)
        requires
            old(self).wf(),
        ensures
            final(self).wf(),
            final(self).spec_url() == old(self).spec_url(),
            match session {
                None => r == Err::<Sent, SubscribeError>(SubscribeError::NoSession) && final(self).state() == old(self).state(),
                Some(session) => {
                    &&& r matches Ok(sent)
                    &&& sent.write == call
                    &&& sent.receiver == receiver_of(old(self).state(), call@)
                    &&& sent.abandoned == abandoned_by(old(self).state(), call@)
                    &&& final(self).state() == after_send(
                        old(self).state(),
                        call@,
                        PendingKindView::Subscribe(session, subscription@),
                    )
                },
            },
    {
        self.handler.connection.subscribe(call, session, subscription)
    }

    /// Send unsubscribe call upstream.
    pub fn unsubscribe(&mut self, call: Call, subscription: Subscription) -> (r: Sent)
        requires
            old(self).wf(),
        ensures
            final(self).wf(),
            final(self).spec_url() == old(self).spec_url(),
            final(self).state() == after_unsubscribe(old(self).state(), call@),
            r.write == call,
            r.receiver == receiver_of(old(self).state(), call@),
            r.abandoned == abandoned_by(old(self).state(), call@),
    {
        self.handler.connection.unsubscribe(call, subscription)
    }
}

} // verus!
