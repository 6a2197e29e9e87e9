//! The engine of one proxy connection.
//!
//! A connection reads a request, answers it, and for `CONNECT` relays bytes
//! between the client and the upstream peer. Nothing here blocks: each call
//! of `poll` does what the streams allow at that moment and returns; the
//! caller polls again later. The phases follow each other as the table
//! shows:
//!
//! | from | on | to |
//! |---|---|---|
//! | `Request` | the request is incomplete | `Request` |
//! | `Request` | `CONNECT`, and the dial succeeds | `AcceptingProxyRequest` |
//! | `Request` | `GET` | `Response` |
//! | `Request` | anything else | `Done` |
//! | `Response` | a part is left to write | `Response` |
//! | `Response` | the response is written | `Done` |
//! | `AcceptingProxyRequest` | a part is left to write | `AcceptingProxyRequest` |
//! | `AcceptingProxyRequest` | the response is written | `TunnellingRead` |
//! | `TunnellingRead` | bytes came from the client | `TunnellingRead` |
//! | `TunnellingRead` | the client has nothing to read | `TunnellingWrite` |
//! | `TunnellingWrite` | bytes came from the upstream peer | `TunnellingWrite` |
//! | `TunnellingWrite` | the upstream peer has nothing to read | `TunnellingRead` |
//! | a tunnel phase | the end it listens to is closed | `Done` |
//! | any phase | a stream fails | `Done` |
//!
//! A poll makes the one call that its phase asks for, of a handler's poll
//! or of `copy`, and hands what came back to the step of that phase:
//! `requested`, `responded` or `turned`. What the streams do is theirs to
//! decide; what the connection makes of it is decided by the steps, whose
//! contracts say for each report what follows.

use crate::fault::Fault;
use crate::relay::{copied, copy, Relay, Turn};
use crate::request::{hands_over, RequestHandler, RequestHandlerResult};
use crate::response::{ResponseHandler, ResponseHandlerResult};
use crate::stream::Stream;
use vstd::prelude::*;
use vstd::slice::slice_to_vec;
use vstd::string::StringSliceAdditionalSpecFns;

verus! {

/// The answer to a request for a tunnel: `HTTP/1.1 200 OK` and a blank
/// line.
pub open spec fn tunnel_accepted() -> Seq<u8> {
    "HTTP/1.1 200 OK\r\n\r\n".spec_bytes()
}

/// The answer to a request for a resource: `HTTP/1.1 404 Not Found` and a
/// blank line.
pub open spec fn not_found() -> Seq<u8> {
    "HTTP/1.1 404 Not Found\r\n\r\n".spec_bytes()
}

/// The two directions of a tunnel.
pub struct Tunnel {
    /// From the client to the upstream peer.
    pub up: Relay,
    /// From the upstream peer to the client.
    pub down: Relay,
}

impl Tunnel {
    /// Nothing has passed through the tunnel, in either direction.
    pub open spec fn fresh(self) -> bool {
        &&& self.up.received() == Seq::<u8>::empty()
        &&& self.up.forwarded() == Seq::<u8>::empty()
        &&& self.down.received() == Seq::<u8>::empty()
        &&& self.down.forwarded() == Seq::<u8>::empty()
    }

    /// A tunnel through which nothing has passed.
    pub fn new() -> (tunnel: Tunnel)
        ensures
            tunnel.up.wf(),
            tunnel.down.wf(),
            tunnel.fresh(),
    {
        Tunnel { up: Relay::new(), down: Relay::new() }
    }
}

/// The state of a connection. Each phase owns the streams that it works
/// on; a transition moves them into the next phase, so that no two phases
/// ever hold the same stream.
pub enum ConnectionState<S: Stream, U: Stream> {
    /// The request is being read.
    Request(RequestHandler<S>),
    /// The answer to a request for a resource is being written.
    Response(ResponseHandler<S>),
    /// The answer to a request for a tunnel is being written; the upstream
    /// peer is connected.
    AcceptingProxyRequest(ResponseHandler<S>, U),
    /// The tunnel is open and listens to the upstream peer.
    TunnellingWrite(U, S, Tunnel),
    /// The tunnel is open and listens to the client.
    TunnellingRead(S, U, Tunnel),
    /// The connection has ended and the streams are handed back.
    Done,
}

impl<S: Stream, U: Stream> ConnectionState<S, U> {
    /// The handlers hold their streams, and a tunnel has nothing waiting
    /// in the direction that it is not listening to.
    pub open spec fn wf(self) -> bool {
        match self {
            ConnectionState::Request(handler) => handler.holds_stream(),
            ConnectionState::Response(handler) => handler.wf(),
            ConnectionState::AcceptingProxyRequest(handler, _) => handler.wf(),
            ConnectionState::TunnellingWrite(_, _, tunnel) => tunnel.up.wf() && tunnel.down.wf()
                && tunnel.up.idle(),
            ConnectionState::TunnellingRead(_, _, tunnel) => tunnel.up.wf() && tunnel.down.wf()
                && tunnel.down.idle(),
            ConnectionState::Done => true,
        }
    }

    /// The state of a connection that has just been accepted: the request
    /// is to be read from `stream`.
    pub fn new(stream: S) -> (state: ConnectionState<S, U>)
        ensures
            state matches ConnectionState::Request(handler) && handler.stream() == Some(stream)
                && handler.buffer().len() == 0,
    {
        ConnectionState::Request(RequestHandler::new(stream))
    }

    /// The tunnel, while it is open.
    pub open spec fn tunnel(self) -> Option<Tunnel> {
        match self {
            ConnectionState::TunnellingWrite(_, _, tunnel) => Some(tunnel),
            ConnectionState::TunnellingRead(_, _, tunnel) => Some(tunnel),
            _ => None,
        }
    }

    /// In an open tunnel, in each direction, what was forwarded is the head
    /// of what was received, and in the direction that the tunnel is not
    /// listening to, all that was received is forwarded.
    pub proof fn tunnel_is_faithful(self)
        requires
            self.wf(),
        ensures
            match self {
                ConnectionState::TunnellingRead(_, _, tunnel) => {
                    &&& tunnel.up.received() == tunnel.up.forwarded() + tunnel.up.pending()
                    &&& tunnel.down.received() == tunnel.down.forwarded()
                },
                ConnectionState::TunnellingWrite(_, _, tunnel) => {
                    &&& tunnel.down.received() == tunnel.down.forwarded() + tunnel.down.pending()
                    &&& tunnel.up.received() == tunnel.up.forwarded()
                },
                _ => true,
            },
    {
        match self {
            ConnectionState::TunnellingRead(_, _, tunnel) => {
                tunnel.up.is_faithful();
            },
            ConnectionState::TunnellingWrite(_, _, tunnel) => {
                tunnel.down.is_faithful();
            },
            _ => {},
        }
    }
}

/// The streams of a connection that has ended.
#[derive(Debug)]
pub struct Closed<S, U> {
    /// The stream of the client.
    pub client: S,
    /// The stream of the upstream peer, where one was connected.
    pub upstream: Option<U>,
}

/// Why a connection was aborted, and its streams.
#[derive(Debug)]
pub struct Aborted<S, U> {
    /// What went wrong.
    pub fault: Fault,
    /// The stream of the client. `None` only where the connection had ended
    /// before and had handed its streams back then.
    pub client: Option<S>,
    /// The stream of the upstream peer, where one was connected.
    pub upstream: Option<U>,
}

/// `dial` was called with the text `destination` and gave `answer`.
pub open spec fn dialed<F: FnMut(&str) -> Option<U>, U>(
    dial: F,
    destination: Seq<char>,
    answer: Option<U>,
) -> bool {
    exists|text: &str| #[trigger] text@ == destination && call_ensures(dial, (text,), answer)
}

/// What a poll returns.
pub type Polled<S, U> = Result<Option<Closed<S, U>>, Aborted<S, U>>;

/// A proxy connection: the state that it is in, the means to reach an
/// upstream peer, and a record of the destinations that were dialed.
pub struct Connection<S: Stream, F, U: Stream> {
    state: ConnectionState<S, U>,
    upstream_fn: F,
    dials: Ghost<Seq<Seq<char>>>,
}

impl<S: Stream, F: FnMut(&str) -> Option<U>, U: Stream> Connection<S, F, U> {
    /// The state that the connection is in.
    pub closed spec fn state(self) -> ConnectionState<S, U> {
        self.state
    }

    /// The function that connects to an upstream peer.
    pub closed spec fn dialer(self) -> F {
        self.upstream_fn
    }

    /// The destinations that the connection has dialed so far, one entry
    /// for each call of the dial function, in the order of the calls.
    pub closed spec fn dials(self) -> Seq<Seq<char>> {
        self.dials@
    }

    /// The state is well formed, and the dial function may be called with
    /// any destination.
    pub open spec fn wf(self) -> bool {
        &&& self.state().wf()
        &&& forall|destination: &str| call_requires(self.dialer(), (destination,))
    }

    /// Whether a step can have taken a connection from `before` to `after`
    /// without a call of the dial function.
    pub open spec fn stepped(before: Self, after: Self) -> bool {
        &&& after.dialer() == before.dialer()
        &&& after.dials() == before.dials()
    }

    /// What the step behind a poll of the request handler comes to, where
    /// `handler` is the handler after its poll and `polled` what it
    /// reported.
    ///
    /// An incomplete request leaves the connection in the request phase,
    /// with the same handler. A request for a resource queues the answer
    /// `not_found()` for the stream handed over. A request for a tunnel
    /// dials the destination reported, exactly once, and queues the answer
    /// `tunnel_accepted()`; if the dial fails, the connection is aborted.
    /// An invalid request ends the connection, and a fault aborts it; both
    /// hand back the stream that the handler holds. Only the request for a
    /// tunnel dials.
    pub open spec fn after_request(
        handler: RequestHandler<S>,
        polled: Result<RequestHandlerResult<S>, Fault>,
        before: Self,
        after: Self,
        r: Polled<S, U>,
    ) -> bool {
        &&& after.dialer() == before.dialer()
        &&& match polled {
            Ok(RequestHandlerResult::MoreDataRequired) => {
                &&& r matches Ok(None)
                &&& after.state() == ConnectionState::<S, U>::Request(handler)
                &&& after.dials() == before.dials()
            },
            Ok(RequestHandlerResult::WantsResource(_, stream)) => {
                &&& r matches Ok(None)
                &&& after.state() matches ConnectionState::Response(queued)
                &&& queued.stream() == Some(stream)
                &&& queued.response() == not_found()
                &&& queued.written() == 0
                &&& after.dials() == before.dials()
            },
            Ok(RequestHandlerResult::WantsProxy(destination, stream)) => {
                &&& after.dials() == before.dials().push(destination@)
                &&& match r {
                    Ok(None) => {
                        &&& after.state() matches ConnectionState::AcceptingProxyRequest(
                            queued,
                            upstream,
                        )
                        &&& dialed(before.dialer(), destination@, Some(upstream))
                        &&& queued.stream() == Some(stream)
                        &&& queued.response() == tunnel_accepted()
                        &&& queued.written() == 0
                    },
                    Ok(Some(_)) => false,
                    Err(aborted) => {
                        &&& after.state() is Done
                        &&& dialed(before.dialer(), destination@, None::<U>)
                        &&& aborted.fault == Fault::Dial
                        &&& aborted.client == Some(stream)
                        &&& aborted.upstream is None
                    },
                }
            },
            Ok(RequestHandlerResult::Invalid) => {
                &&& r matches Ok(Some(closed))
                &&& Some(closed.client) == handler.stream()
                &&& closed.upstream is None
                &&& after.state() is Done
                &&& after.dials() == before.dials()
            },
            Err(fault) => {
                &&& r matches Err(aborted)
                &&& aborted.fault == fault
                &&& aborted.client == handler.stream()
                &&& aborted.upstream is None
                &&& after.state() is Done
                &&& after.dials() == before.dials()
            },
        }
    }

    /// What the step behind a poll of a response handler comes to, where
    /// `handler` is the handler after its poll, `upstream` the upstream
    /// peer, if one is connected, and `polled` what the handler reported.
    ///
    /// Once the response is written, the connection ends where no upstream
    /// peer is connected, and a fresh tunnel opens where one is: no byte is
    /// relayed before. While a part is left to write, the connection stays
    /// in its phase with the same handler. A fault aborts the connection.
    /// Each hands the streams on as they came.
    pub open spec fn after_response(
        handler: ResponseHandler<S>,
        upstream: Option<U>,
        polled: Result<ResponseHandlerResult<S>, Fault>,
        before: Self,
        after: Self,
        r: Polled<S, U>,
    ) -> bool {
        &&& Self::stepped(before, after)
        &&& match polled {
            Ok(ResponseHandlerResult::Done(stream)) => match upstream {
                None => {
                    &&& r matches Ok(Some(closed))
                    &&& closed.client == stream
                    &&& closed.upstream is None
                    &&& after.state() is Done
                },
                Some(peer) => {
                    &&& r matches Ok(None)
                    &&& after.state() matches ConnectionState::TunnellingRead(
                        inside,
                        outside,
                        tunnel,
                    )
                    &&& inside == stream
                    &&& outside == peer
                    &&& tunnel.fresh()
                },
            },
            Ok(ResponseHandlerResult::NotDone) => {
                &&& r matches Ok(None)
                &&& after.state() == match upstream {
                    None => ConnectionState::<S, U>::Response(handler),
                    Some(peer) => ConnectionState::<S, U>::AcceptingProxyRequest(handler, peer),
                }
            },
            Err(fault) => {
                &&& r matches Err(aborted)
                &&& aborted.fault == fault
                &&& aborted.client == handler.stream()
                &&& aborted.upstream == upstream
                &&& after.state() is Done
            },
        }
    }

    /// What the step behind a copy comes to, where `turn` is what the copy
    /// answered, `upward` says that the tunnel was listening to the client,
    /// and `inside`, `outside` and `tunnel` are the client's stream, the
    /// upstream peer's stream and the tunnel after the copy.
    ///
    /// The tunnel keeps listening to the same end, turns to the other end,
    /// ends the connection or aborts it, as the turn says, and hands the
    /// streams and the tunnel on as they came.
    pub open spec fn after_turn(
        turn: Turn,
        upward: bool,
        inside: S,
        outside: U,
        tunnel: Tunnel,
        before: Self,
        after: Self,
        r: Polled<S, U>,
    ) -> bool {
        &&& Self::stepped(before, after)
        &&& match turn {
            Turn::Stay => {
                &&& r matches Ok(None)
                &&& after.state() == Self::listening(upward, inside, outside, tunnel)
            },
            Turn::Switch => {
                &&& r matches Ok(None)
                &&& after.state() == Self::listening(!upward, inside, outside, tunnel)
            },
            Turn::Close => {
                &&& r matches Ok(Some(closed))
                &&& closed.client == inside
                &&& closed.upstream == Some(outside)
                &&& after.state() is Done
            },
            Turn::Abort => {
                &&& r matches Err(aborted)
                &&& aborted.fault == Fault::Stream
                &&& aborted.client == Some(inside)
                &&& aborted.upstream == Some(outside)
                &&& after.state() is Done
            },
        }
    }

    /// The state of an open tunnel that listens to the client (`upward`)
    /// or to the upstream peer.
    pub open spec fn listening(
        upward: bool,
        inside: S,
        outside: U,
        tunnel: Tunnel,
    ) -> ConnectionState<S, U> {
        if upward {
            ConnectionState::TunnellingRead(inside, outside, tunnel)
        } else {
            ConnectionState::TunnellingWrite(outside, inside, tunnel)
        }
    }

    /// What a poll comes to, where `before` is the connection before it
    /// and `after` the connection after it.
    ///
    /// In each phase the poll makes one call, of the handler's poll or of
    /// `copy`, and the step behind it is the one that `after_request`,
    /// `after_response` or `after_turn` makes of what the call gave: there
    /// are a handler, or streams and a relay, as that call can have left
    /// them, and a report that it can have given, for which the step holds.
    /// A connection that is done reports `Fault::AlreadyFinished` and
    /// stays as it is.
    pub open spec fn polled(before: Self, after: Self, r: Polled<S, U>) -> bool {
        match before.state() {
            ConnectionState::Request(handler) => exists|
                left: RequestHandler<S>,
                report: Result<RequestHandlerResult<S>, Fault>,
            |
                RequestHandler::polled(handler, left, report) && #[trigger] Self::after_request(
                    left,
                    report,
                    before,
                    after,
                    r,
                ),
            ConnectionState::Response(handler) => exists|
                left: ResponseHandler<S>,
                report: Result<ResponseHandlerResult<S>, Fault>,
            |
                ResponseHandler::polled(handler, left, report) && #[trigger] Self::after_response(
                    left,
                    None,
                    report,
                    before,
                    after,
                    r,
                ),
            ConnectionState::AcceptingProxyRequest(handler, upstream) => exists|
                left: ResponseHandler<S>,
                report: Result<ResponseHandlerResult<S>, Fault>,
            |
                ResponseHandler::polled(handler, left, report) && #[trigger] Self::after_response(
                    left,
                    Some(upstream),
                    report,
                    before,
                    after,
                    r,
                ),
            ConnectionState::TunnellingRead(_, _, tunnel) => exists|
                turn: Turn,
                inside: S,
                outside: U,
                left: Tunnel,
            |
                left.down == tunnel.down && copied(tunnel.up, left.up, turn)
                    && #[trigger] Self::after_turn(
                    turn,
                    true,
                    inside,
                    outside,
                    left,
                    before,
                    after,
                    r,
                ),
            ConnectionState::TunnellingWrite(_, _, tunnel) => exists|
                turn: Turn,
                inside: S,
                outside: U,
                left: Tunnel,
            |
                left.up == tunnel.up && copied(tunnel.down, left.down, turn)
                    && #[trigger] Self::after_turn(
                    turn,
                    false,
                    inside,
                    outside,
                    left,
                    before,
                    after,
                    r,
                ),
            ConnectionState::Done => {
                &&& r matches Err(aborted)
                &&& aborted.fault == Fault::AlreadyFinished
                &&& aborted.client is None
                &&& aborted.upstream is None
                &&& after.state() is Done
                &&& Self::stepped(before, after)
            },
        }
    }

    /// Only a request for a tunnel dials, and it dials once. A poll
    /// outside the request phase leaves the record of the dials as it is,
    /// and so does a poll that leads to the answer to a request for a
    /// resource; a poll that adds to the record adds one destination,
    /// starts in the request phase and leads to the answer to a request
    /// for a tunnel, or to `Fault::Dial`.
    pub proof fn dials_only_for_a_tunnel(before: Self, after: Self, r: Polled<S, U>)
        requires
            Self::polled(before, after, r),
        ensures
            !(before.state() is Request) ==> after.dials() == before.dials(),
            after.state() is Response ==> after.dials() == before.dials(),
            after.dials() != before.dials() ==> {
                &&& before.state() is Request
                &&& after.dials().len() == before.dials().len() + 1
                &&& after.dials().drop_last() == before.dials()
                &&& after.state() is AcceptingProxyRequest || (r matches Err(aborted)
                    && aborted.fault == Fault::Dial)
            },
    {
        if after.dials() != before.dials() {
            assert(after.dials().drop_last() =~= before.dials());
        }
    }

    /// A poll takes nothing back from a tunnel: from one poll of an open
    /// tunnel to the next, in each direction, what was received and what
    /// was forwarded grow at their ends, if at all.
    pub proof fn tunnel_only_grows(before: Self, after: Self, r: Polled<S, U>)
        requires
            Self::polled(before, after, r),
            before.state().tunnel() is Some,
            after.state().tunnel() is Some,
        ensures
            ({
                let earlier = before.state().tunnel().unwrap();
                let later = after.state().tunnel().unwrap();
                &&& earlier.up.received().is_prefix_of(later.up.received())
                &&& earlier.up.forwarded().is_prefix_of(later.up.forwarded())
                &&& earlier.down.received().is_prefix_of(later.down.received())
                &&& earlier.down.forwarded().is_prefix_of(later.down.forwarded())
            }),
    {
    }

    /// A connection for the client on `stream`, which reaches upstream
    /// peers through `f`.
    pub fn new(stream: S, f: F) -> (connection: Connection<S, F, U>)
        requires
            forall|destination: &str| call_requires(f, (destination,)),
        ensures
            connection.wf(),
            connection.dialer() == f,
            connection.dials() == Seq::<Seq<char>>::empty(),
            connection.state() matches ConnectionState::Request(handler) && handler.stream()
                == Some(stream) && handler.buffer().len() == 0,
    {
        Connection {
            state: ConnectionState::new(stream),
            upstream_fn: f,
            dials: Ghost(Seq::empty()),
        }
    }

    /// Takes the step behind a poll of the request handler: `handler` is
    /// the handler after its poll and `polled` what it reported.
    pub fn requested(
        &mut self,
        handler: RequestHandler<S>,
        polled: Result<RequestHandlerResult<S>, Fault>,
    ) -> (r: Polled<S, U>)
        requires
            old(self).wf(),
            old(self).state() is Done,
            !hands_over(polled) ==> handler.holds_stream(),
        ensures
            final(self).wf(),
            Self::after_request(handler, polled, *old(self), *final(self), r),
    {
        let r = match polled {
            Ok(RequestHandlerResult::MoreDataRequired) => {
                self.state = ConnectionState::Request(handler);
                Ok(None)
            },
            Ok(RequestHandlerResult::WantsProxy(destination, stream)) => {
                proof {
                    self.dials@ = self.dials@.push(destination@);
                }
                assert(self.dialer() == old(self).dialer());
                match (self.upstream_fn)(destination.as_str()) {
                    Some(upstream) => {
                        let response = slice_to_vec("HTTP/1.1 200 OK\r\n\r\n".as_bytes());
                        self.state = ConnectionState::AcceptingProxyRequest(
                            ResponseHandler::new(response, stream),
                            upstream,
                        );
                        Ok(None)
                    },
                    None => Err(
                        Aborted { fault: Fault::Dial, client: Some(stream), upstream: None },
                    ),
                }
            },
            Ok(RequestHandlerResult::WantsResource(_, stream)) => {
                let response = slice_to_vec("HTTP/1.1 404 Not Found\r\n\r\n".as_bytes());
                self.state = ConnectionState::Response(ResponseHandler::new(response, stream));
                Ok(None)
            },
            Ok(RequestHandlerResult::Invalid) => Ok(
                Some(Closed { client: handler.into_inner(), upstream: None }),
            ),
            Err(fault) => Err(
                Aborted { fault, client: Some(handler.into_inner()), upstream: None },
            ),
        };
        assert(self.dialer() == old(self).dialer());
        r
    }

    /// Takes the step behind a poll of a response handler: `handler` is the
    /// handler after its poll, `upstream` the upstream peer, if one is
    /// connected, and `polled` what the handler reported.
    pub fn responded(
        &mut self,
        handler: ResponseHandler<S>,
        upstream: Option<U>,
        polled: Result<ResponseHandlerResult<S>, Fault>,
    ) -> (r: Polled<S, U>)
        requires
            old(self).wf(),
            old(self).state() is Done,
            polled matches Ok(ResponseHandlerResult::NotDone) ==> handler.wf(),
            polled is Err ==> handler.holds_stream(),
        ensures
            final(self).wf(),
            Self::after_response(handler, upstream, polled, *old(self), *final(self), r),
    {
        let r = match polled {
            Ok(ResponseHandlerResult::Done(stream)) => match upstream {
                None => Ok(Some(Closed { client: stream, upstream: None })),
                Some(peer) => {
                    self.state = ConnectionState::TunnellingRead(stream, peer, Tunnel::new());
                    Ok(None)
                },
            },
            Ok(ResponseHandlerResult::NotDone) => {
                self.state = match upstream {
                    None => ConnectionState::Response(handler),
                    Some(peer) => ConnectionState::AcceptingProxyRequest(handler, peer),
                };
                Ok(None)
            },
            Err(fault) => Err(Aborted { fault, client: Some(handler.into_inner()), upstream }),
        };
        assert(self.dialer() == old(self).dialer());
        r
    }

    /// Takes the step behind a copy: `turn` is what the copy answered,
    /// `upward` says that the tunnel was listening to the client, and
    /// `inside`, `outside` and `tunnel` are the client's stream, the
    /// upstream peer's stream and the tunnel after the copy.
    pub fn turned(&mut self, turn: Turn, upward: bool, inside: S, outside: U, tunnel: Tunnel) -> (r:
        Polled<S, U>)
        requires
            old(self).wf(),
            old(self).state() is Done,
            turn == Turn::Stay ==> Self::listening(upward, inside, outside, tunnel).wf(),
            turn == Turn::Switch ==> Self::listening(!upward, inside, outside, tunnel).wf(),
        ensures
            final(self).wf(),
            Self::after_turn(turn, upward, inside, outside, tunnel, *old(self), *final(self), r),
    {
        let r = match turn {
            Turn::Stay => {
                self.state = if upward {
                    ConnectionState::TunnellingRead(inside, outside, tunnel)
                } else {
                    ConnectionState::TunnellingWrite(outside, inside, tunnel)
                };
                Ok(None)
            },
            Turn::Switch => {
                self.state = if upward {
                    ConnectionState::TunnellingWrite(outside, inside, tunnel)
                } else {
                    ConnectionState::TunnellingRead(inside, outside, tunnel)
                };
                Ok(None)
            },
            Turn::Close => Ok(Some(Closed { client: inside, upstream: Some(outside) })),
            Turn::Abort => Err(
                Aborted { fault: Fault::Stream, client: Some(inside), upstream: Some(outside) },
            ),
        };
        assert(self.dialer() == old(self).dialer());
        r
    }

    /// Advances the connection by one step: one attempt to read the
    /// request, to write the response, or to move bytes through the tunnel.
    ///
    /// Returns `Ok(None)` while the connection goes on, and then wants to be
    /// polled again; `Ok(Some(..))` with the streams once it has ended; and
    /// the fault with the streams once it is aborted. A connection that has
    /// ended or is aborted is done: a poll of it reports
    /// `Fault::AlreadyFinished`.
    ///
    /// The poll makes the one call that the phase asks for and hands what
    /// came back to `requested`, `responded` or `turned`, which take the
    /// step. Whatever came back, `polled` holds.
    pub fn poll(&mut self) -> (r: Polled<S, U>)
        requires
            old(self).wf(),
        ensures
            final(self).wf(),
            r matches Ok(None) <==> !(final(self).state() is Done),
            Self::polled(*old(self), *final(self), r),
    {
        let mut state = ConnectionState::Done;
        core::mem::swap(&mut self.state, &mut state);
        let ghost emptied = *self;
        assert(Self::stepped(*old(self), emptied));
        match state {
            ConnectionState::Request(mut handler) => {
                let polled = handler.poll();
                let ghost left = handler;
                let ghost report = polled;
                let r = self.requested(handler, polled);
                assert(Self::after_request(left, report, *old(self), *self, r));
                r
            },
            ConnectionState::Response(mut handler) => {
                let polled = handler.poll();
                let ghost left = handler;
                let ghost report = polled;
                let r = self.responded(handler, None, polled);
                assert(Self::after_response(left, None, report, *old(self), *self, r));
                r
            },
            ConnectionState::AcceptingProxyRequest(mut handler, upstream) => {
                let polled = handler.poll();
                let ghost left = handler;
                let ghost report = polled;
                let ghost peer = upstream;
                let r = self.responded(handler, Some(upstream), polled);
                assert(Self::after_response(left, Some(peer), report, *old(self), *self, r));
                r
            },
            ConnectionState::TunnellingRead(mut inside, mut outside, mut tunnel) => {
                let turn = copy(&mut inside, &mut outside, &mut tunnel.up);
                let ghost left = (inside, outside, tunnel);
                let r = self.turned(turn, true, inside, outside, tunnel);
                assert(Self::after_turn(turn, true, left.0, left.1, left.2, *old(self), *self, r));
                r
            },
            ConnectionState::TunnellingWrite(mut outside, mut inside, mut tunnel) => {
                let turn = copy(&mut outside, &mut inside, &mut tunnel.down);
                let ghost left = (inside, outside, tunnel);
                let r = self.turned(turn, false, inside, outside, tunnel);
                assert(Self::after_turn(turn, false, left.0, left.1, left.2, *old(self), *self, r));
                r
            },
            ConnectionState::Done => Err(
                Aborted { fault: Fault::AlreadyFinished, client: None, upstream: None },
            ),
        }
    }
}

} // verus!
