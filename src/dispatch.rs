//! The request-dispatch pipeline as a state machine.
//!
//! Every endpoint call goes through the same steps: the request is encoded in
//! its wire form, the session is read where the endpoint requires
//! authentication, the request target is built, the transport is called, and
//! the response is decoded. The outside steps (encoding, reading the store,
//! the transport, decoding) are performed by the caller, which hands their
//! outcome back as an `Event`; `Dispatch::step` decides what comes next.
use vstd::prelude::*;
use vstd::string::StringExecFns;

use crate::error::{ClientError, ErrorKind, InnerError};
use crate::target::{
    append_access_token, lemma_token_added_once, query_with_token, request_uri, target_accepted,
    token_pairs_in,
};

verus! {

/// Where a dispatch stands.
#[derive(Debug, Clone, Copy, PartialEq, Eq, Structural)]
pub enum Phase {
    /// Waiting for the request's wire form.
    Encoding,
    /// Waiting for the current session.
    Authorizing,
    /// Waiting for the transport.
    Sending,
    /// Waiting for the response to be decoded.
    Decoding,
    /// Finished; no further step is taken.
    Done,
}

/// The outcome of an outside step.
#[derive(Debug)]
pub enum Event {
    /// The request was encoded; its target has this path and query.
    Encoded { path: String, query: Option<String> },
    /// The request could not be encoded.
    EncodeFailed(ruma_api::Error),
    /// The session store was read: the current session's access token, if any.
    SessionRead(Option<String>),
    /// The transport returned a response.
    Responded,
    /// The transport failed.
    TransportFailed,
    /// The response was decoded.
    Decoded,
    /// The response could not be decoded; the error carries what the server
    /// reported, when it reported an error.
    DecodeFailed(ruma_api::Error),
}

/// What the caller does next.
#[derive(Debug)]
pub enum Action {
    /// Read the current session from the session store.
    ReadSession,
    /// Send the wire request to this URI through the transport.
    Send(http::Uri),
    /// Decode the response.
    Decode,
    /// The dispatch is over, with this outcome.
    Finish(Result<(), ClientError>),
    /// The event did not fit the phase; nothing is to be done.
    Idle,
}

/// The state of one dispatch.
#[derive(Debug)]
pub struct Dispatch {
    base: String,
    requires_authentication: bool,
    phase: Phase,
    path: String,
    query: Option<String>,
    target_query: Option<String>,
}

/// What a dispatch has recorded, as plain values.
pub struct DispatchView {
    /// The homeserver's base URL, as text.
    pub base: Seq<char>,
    pub requires_authentication: bool,
    pub phase: Phase,
    pub path: Seq<char>,
    /// The query of the encoded request.
    pub query: Option<Seq<char>>,
    /// The query of the request target, once it is built.
    pub target_query: Option<Seq<char>>,
}

pub open spec fn opt_view(o: Option<String>) -> Option<Seq<char>> {
    match o {
        Some(s) => Some(s@),
        None => None,
    }
}

/// Whether `phase` takes `ev`.
pub open spec fn accepts(phase: Phase, ev: Event) -> bool {
    match ev {
        Event::Encoded { .. } | Event::EncodeFailed(_) => phase == Phase::Encoding,
        Event::SessionRead(_) => phase == Phase::Authorizing,
        Event::Responded | Event::TransportFailed => phase == Phase::Sending,
        Event::Decoded | Event::DecodeFailed(_) => phase == Phase::Decoding,
    }
}

/// Whether `a` ends the dispatch with an error of kind `k`.
pub open spec fn fails_with(a: Action, k: ErrorKind) -> bool {
    a is Finish && a->Finish_0 is Err && a->Finish_0->Err_0@ == k
}

impl Dispatch {
    pub closed spec fn view(&self) -> DispatchView {
        DispatchView {
            base: self.base@,
            requires_authentication: self.requires_authentication,
            phase: self.phase,
            path: self.path@,
            query: opt_view(self.query),
            target_query: opt_view(self.target_query),
        }
    }

    /// A dispatch to an endpoint on the server whose base URL is `base`; the
    /// endpoint requires authentication when `requires_authentication` is set.
    pub fn new(base: &str, requires_authentication: bool) -> (r: Dispatch)
        ensures
            r@.base == base@,
            r@.requires_authentication == requires_authentication,
            r@.phase == Phase::Encoding,
            r@.target_query is None,
    {
        Dispatch {
            base: String::from_str(base),
            requires_authentication,
            phase: Phase::Encoding,
            path: String::new(),
            query: None,
            target_query: None,
        }
    }

    /// The phase the dispatch is in.
    pub fn phase(&self) -> (r: Phase)
        ensures
            r == self@.phase,
    {
        self.phase
    }

    /// Builds the request target with the query `query`, and sends or fails.
    fn send_to(&mut self, query: Option<String>) -> (r: Action)
        ensures
            final(self)@.requires_authentication == old(self)@.requires_authentication,
            final(self)@.base == old(self)@.base,
            final(self)@.path == old(self)@.path,
            final(self)@.query == old(self)@.query,
            final(self)@.target_query == opt_view(query),
            r is Send <==> target_accepted(old(self)@.base, old(self)@.path, opt_view(query)),
            r is Send ==> final(self)@.phase == Phase::Sending,
            !(r is Send) ==> fails_with(r, ErrorKind::Uri) && final(self)@.phase == Phase::Done,
    {
        let uri = match &query {
            Some(q) => request_uri(self.base.as_str(), self.path.as_str(), Some(q.as_str())),
            None => request_uri(self.base.as_str(), self.path.as_str(), None),
        };
        self.target_query = query;
        match uri {
            Ok(uri) => {
                self.phase = Phase::Sending;
                Action::Send(uri)
            },
            Err(e) => {
                self.phase = Phase::Done;
                Action::Finish(Err(e))
            },
        }
    }

    /// Takes the outcome of the last outside step and decides the next one.
    pub fn step(&mut self, ev: Event) -> (r: Action)
        ensures
            final(self)@.requires_authentication == old(self)@.requires_authentication,
            final(self)@.base == old(self)@.base,
            !accepts(old(self)@.phase, ev) ==> r is Idle && final(self)@ == old(self)@,
            // the session store is read only for an endpoint that requires authentication
            r is ReadSession ==> old(self)@.requires_authentication,
            // the transport is called only with a token where one is required
            r is Send ==> final(self)@.phase == Phase::Sending && (old(self)@.requires_authentication
                ==> ev is SessionRead && ev->SessionRead_0 is Some),
            r is Finish ==> final(self)@.phase == Phase::Done,
            old(self)@.phase == Phase::Encoding ==> match ev {
                Event::Encoded { path, query } => {
                    &&& final(self)@.path == path@
                    &&& final(self)@.query == opt_view(query)
                    &&& if old(self)@.requires_authentication {
                        r is ReadSession && final(self)@.phase == Phase::Authorizing
                    } else {
                        &&& final(self)@.target_query == opt_view(query)
                        &&& (r is Send <==> target_accepted(
                            old(self)@.base,
                            path@,
                            opt_view(query),
                        ))
                        &&& (r is Send || fails_with(r, ErrorKind::Uri))
                    }
                },
                Event::EncodeFailed(e) => r == Action::Finish(
                    Err(ClientError(InnerError::RumaApi(e))),
                ),
                _ => true,
            },
            old(self)@.phase == Phase::Authorizing ==> match ev {
                Event::SessionRead(None) => fails_with(r, ErrorKind::AuthenticationRequired),
                Event::SessionRead(Some(token)) => {
                    &&& final(self)@.path == old(self)@.path
                    &&& final(self)@.query == old(self)@.query
                    &&& (r is Send <==> target_accepted(
                        old(self)@.base,
                        old(self)@.path,
                        Some(query_with_token(old(self)@.query, token@)),
                    ))
                    &&& final(self)@.target_query == Some(
                        query_with_token(old(self)@.query, token@),
                    )
                    // one pair carrying the token is added to the endpoint's query
                    &&& token_pairs_in(query_with_token(old(self)@.query, token@)) == 1 + match old(
                        self,
                    )@.query {
                        Some(q) => token_pairs_in(q),
                        None => 0,
                    }
                    // so exactly one where the endpoint's query holds none
                    &&& (old(self)@.query is None || token_pairs_in(old(self)@.query->Some_0) == 0)
                        ==> token_pairs_in(query_with_token(old(self)@.query, token@)) == 1
                    &&& (r is Send || fails_with(r, ErrorKind::Uri))
                },
                _ => true,
            },
            old(self)@.phase == Phase::Sending ==> match ev {
                Event::Responded => r is Decode && final(self)@.phase == Phase::Decoding,
                Event::TransportFailed => fails_with(r, ErrorKind::HttpRequester),
                _ => true,
            },
            old(self)@.phase == Phase::Decoding ==> match ev {
                Event::Decoded => r is Finish && r->Finish_0 is Ok,
                Event::DecodeFailed(e) => r == Action::Finish(
                    Err(ClientError(InnerError::RumaApi(e))),
                ),
                _ => true,
            },
    {
        match (self.phase, ev) {
            (Phase::Encoding, Event::Encoded { path, query }) => {
                self.path = path;
                if self.requires_authentication {
                    self.query = query;
                    self.phase = Phase::Authorizing;
                    Action::ReadSession
                } else {
                    self.query = match &query {
                        Some(q) => Some(q.clone()),
                        None => None,
                    };
                    self.send_to(query)
                }
            },
            (Phase::Encoding, Event::EncodeFailed(e)) => {
                self.phase = Phase::Done;
                Action::Finish(Err(ClientError(InnerError::RumaApi(e))))
            },
            (Phase::Authorizing, Event::SessionRead(None)) => {
                self.phase = Phase::Done;
                Action::Finish(Err(ClientError(InnerError::AuthenticationRequired)))
            },
            (Phase::Authorizing, Event::SessionRead(Some(token))) => {
                let query = match &self.query {
                    Some(q) => append_access_token(Some(q.as_str()), token.as_str()),
                    None => append_access_token(None, token.as_str()),
                };
                proof {
                    lemma_token_added_once(self@.query, token@);
                }
                self.send_to(Some(query))
            },
            (Phase::Sending, Event::Responded) => {
                self.phase = Phase::Decoding;
                Action::Decode
            },
            (Phase::Sending, Event::TransportFailed) => {
                self.phase = Phase::Done;
                Action::Finish(Err(ClientError(InnerError::HttpRequester)))
            },
            (Phase::Decoding, Event::Decoded) => {
                self.phase = Phase::Done;
                Action::Finish(Ok(()))
            },
            (Phase::Decoding, Event::DecodeFailed(e)) => {
                self.phase = Phase::Done;
                Action::Finish(Err(ClientError(InnerError::RumaApi(e))))
            },
            _ => Action::Idle,
        }
    }
}

} // verus!
