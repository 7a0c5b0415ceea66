//! The conversation client and its single-retry state machine.
//!
//! The client owns the session cookie and the bounded history. Network
//! transport stays outside: the caller sends what [`Exchange::payload`]
//! holds and feeds the observed reply back in. A first attempt that fails
//! in a way a fresh cookie may cure asks for exactly one cookie refresh
//! and one resend of the same payload; the second attempt is final.

use vstd::prelude::*;
use vstd::utf8::*;
use crate::cookie::{cookie_of_header, extract_cookie};
use crate::error::{Error, ErrorSpec};
use crate::history::{push_evict, History};
use crate::payload::{build_payload, history_bytes, payload_bytes};
use crate::response::{classify_answer, first_segment, is_bad_answer, parse_answer};
use crate::text::{lemma_encode_utf8_empty, try_utf8_string};

verus! {

/// What the transport observed for one request: a transport-level failure
/// message, or the raw response body.
pub enum Reply {
    Transport(String),
    Body(Vec<u8>),
}

/// The mathematical shape of a [`Reply`].
pub enum ReplySpec {
    Transport(Seq<char>),
    Body(Seq<u8>),
}

impl View for Reply {
    type V = ReplySpec;

    open spec fn view(&self) -> ReplySpec {
        match self {
            Reply::Transport(t) => ReplySpec::Transport(t@),
            Reply::Body(b) => ReplySpec::Body(b@),
        }
    }
}

/// What a cookie-endpoint request yielded: a transport-level failure, or
/// the `set-cookie` header value if the reply carried one.
pub enum CookieReply {
    Transport(String),
    Header(Option<String>),
}

/// The mathematical shape of a [`CookieReply`].
pub enum CookieReplySpec {
    Transport(Seq<char>),
    Header(Option<Seq<char>>),
}

impl View for CookieReply {
    type V = CookieReplySpec;

    open spec fn view(&self) -> CookieReplySpec {
        match self {
            CookieReply::Transport(t) => CookieReplySpec::Transport(t@),
            CookieReply::Header(Some(h)) => CookieReplySpec::Header(Some(h@)),
            CookieReply::Header(None) => CookieReplySpec::Header(None),
        }
    }
}

/// The outcome of feeding the first attempt's reply into the machine.
pub enum FirstOutcome {
    /// A real answer; the history took the message/answer pair.
    Done(String),
    /// The call failed for good; nothing changed.
    Failed(Error),
    /// The attempt failed in a way a fresh cookie may cure. The caller
    /// must fetch a cookie, hand it to `recookie`, resend the same
    /// payload, and feed the reply to `respond_retry`.
    RetryNeeded,
}

/// The mathematical shape of a [`FirstOutcome`].
pub enum FirstOutcomeSpec {
    Done(Seq<char>),
    Failed(ErrorSpec),
    RetryNeeded,
}

impl View for FirstOutcome {
    type V = FirstOutcomeSpec;

    open spec fn view(&self) -> FirstOutcomeSpec {
        match self {
            FirstOutcome::Done(a) => FirstOutcomeSpec::Done(a@),
            FirstOutcome::Failed(e) => FirstOutcomeSpec::Failed(e@),
            FirstOutcome::RetryNeeded => FirstOutcomeSpec::RetryNeeded,
        }
    }
}

/// The mutable state and fixed policy of a client, as mathematical values.
pub struct ClientModel {
    /// The current session cookie.
    pub cookie: Seq<char>,
    /// The history entries, oldest first.
    pub history: Seq<Seq<char>>,
    /// The history capacity fixed at construction.
    pub capacity: nat,
    /// Whether a curable first failure is retried once.
    pub retries: bool,
}

/// The answer a raw response body yields, before classification: decoded
/// text is split at the first carriage return; an undecodable body or an
/// empty one is an error.
pub open spec fn body_answer(b: Seq<u8>) -> Result<Seq<char>, ErrorSpec> {
    if !valid_utf8(b) {
        Err(ErrorSpec::DecodeError)
    } else if b.len() == 0 {
        Err(ErrorSpec::EmptyResponse)
    } else {
        Ok(decode_utf8(first_segment(b)))
    }
}

/// Appending one confirmed exchange: the message, then the answer, as two
/// single pushes.
pub open spec fn record_exchange(
    h: Seq<Seq<char>>,
    cap: nat,
    msg: Seq<char>,
    ans: Seq<char>,
) -> Seq<Seq<char>> {
    push_evict(push_evict(h, cap, msg), cap, ans)
}

/// The first-attempt step: a transport failure or a sentinel answer asks
/// for a retry when the policy allows one and fails otherwise; an
/// undecodable or empty body is fatal either way; a real answer is
/// recorded and returned. Only a recorded answer touches the state.
pub open spec fn first_step(m: ClientModel, msg: Seq<char>, reply: ReplySpec) -> (
    ClientModel,
    FirstOutcomeSpec,
) {
    match reply {
        ReplySpec::Transport(t) => {
            if m.retries {
                (m, FirstOutcomeSpec::RetryNeeded)
            } else {
                (m, FirstOutcomeSpec::Failed(ErrorSpec::TransportError(t)))
            }
        },
        ReplySpec::Body(b) => match body_answer(b) {
            Err(e) => (m, FirstOutcomeSpec::Failed(e)),
            Ok(a) => {
                if is_bad_answer(encode_utf8(a)) {
                    if m.retries {
                        (m, FirstOutcomeSpec::RetryNeeded)
                    } else {
                        (m, FirstOutcomeSpec::Failed(ErrorSpec::BadResponse(a)))
                    }
                } else {
                    (
                        ClientModel {
                            history: record_exchange(m.history, m.capacity, msg, a),
                            ..m
                        },
                        FirstOutcomeSpec::Done(a),
                    )
                }
            },
        },
    }
}

/// The second-attempt step: no further retry exists, so a sentinel answer
/// now surfaces as the distinct after-retrying error; a real answer is
/// recorded as on the first attempt.
pub open spec fn retry_step(m: ClientModel, msg: Seq<char>, reply: ReplySpec) -> (
    ClientModel,
    Result<Seq<char>, ErrorSpec>,
) {
    match reply {
        ReplySpec::Transport(t) => (m, Err(ErrorSpec::TransportError(t))),
        ReplySpec::Body(b) => match body_answer(b) {
            Err(e) => (m, Err(e)),
            Ok(a) => {
                if is_bad_answer(encode_utf8(a)) {
                    (m, Err(ErrorSpec::BadResponseAfterRetrying(a)))
                } else {
                    (
                        ClientModel {
                            history: record_exchange(m.history, m.capacity, msg, a),
                            ..m
                        },
                        Ok(a),
                    )
                }
            },
        },
    }
}

/// The session token a cookie-endpoint reply yields, if any. A header
/// whose extracted token is empty is no usable header: an empty session
/// would break the invariant that a constructed client always holds one.
pub open spec fn cookie_result(reply: CookieReplySpec) -> Result<Seq<char>, ErrorSpec> {
    match reply {
        CookieReplySpec::Transport(t) => Err(ErrorSpec::TransportError(t)),
        CookieReplySpec::Header(None) => Err(ErrorSpec::NoCookieFound),
        CookieReplySpec::Header(Some(h)) => {
            if valid_utf8(cookie_of_header(encode_utf8(h))) && cookie_of_header(
                encode_utf8(h),
            ).len() > 0 {
                Ok(decode_utf8(cookie_of_header(encode_utf8(h))))
            } else {
                Err(ErrorSpec::NoCookieFound)
            }
        },
    }
}

/// The session-refresh step: last writer wins, nothing else changes.
pub open spec fn cookie_step(m: ClientModel, reply: CookieReplySpec) -> (
    ClientModel,
    Result<(), ErrorSpec>,
) {
    match cookie_result(reply) {
        Ok(c) => (ClientModel { cookie: c, ..m }, Ok(())),
        Err(e) => (m, Err(e)),
    }
}

/// Relates an executable result carrying an answer to its model.
pub open spec fn answer_result_models(
    r: Result<String, Error>,
    m: Result<Seq<char>, ErrorSpec>,
) -> bool {
    match (r, m) {
        (Ok(s), Ok(v)) => s@ == v,
        (Err(e), Err(em)) => e@ == em,
        _ => false,
    }
}

/// Relates an executable unit result to its model.
pub open spec fn unit_result_models(r: Result<(), Error>, m: Result<(), ErrorSpec>) -> bool {
    match (r, m) {
        (Ok(_), Ok(_)) => true,
        (Err(e), Err(em)) => e@ == em,
        _ => false,
    }
}

/// One in-flight call: the message and the payload built over the history
/// snapshot taken at build time. The payload is fixed; a retry resends it
/// unchanged rather than rebuilding it.
pub struct Exchange {
    message: String,
    payload: String,
}

impl Exchange {
    /// The user message this call carries.
    pub closed spec fn message_view(self) -> Seq<char> {
        self.message@
    }

    /// The request body, exactly as built.
    pub closed spec fn payload_view(self) -> Seq<char> {
        self.payload@
    }

    /// The request body to send, on the first attempt and on the retry.
    pub fn payload(&self) -> (r: &String)
        ensures
            r@ == self.payload_view(),
    {
        &self.payload
    }

    /// The user message this call carries.
    pub fn message(&self) -> (r: &String)
        ensures
            r@ == self.message_view(),
    {
        &self.message
    }
}

/// A Cleverbot client: the session cookie, the bounded history, and the
/// retry policy. The transport handle lives with the caller.
pub struct Cleverbot {
    cookie: String,
    history: History,
    with_retries: bool,
}

impl Cleverbot {
    /// The client's state as mathematical values.
    pub closed spec fn model(self) -> ClientModel {
        ClientModel {
            cookie: self.cookie@,
            history: self.history@,
            capacity: self.history.capacity(),
            retries: self.with_retries,
        }
    }

    /// Well-formed: the history is, and its capacity leaves room for the
    /// payload builder's index arithmetic.
    pub closed spec fn wf(self) -> bool {
        self.history.wf() && self.history.capacity() < usize::MAX
    }

    /// A snapshot of the conversation history, oldest first.
    pub fn get_history(&self) -> (v: Vec<String>)
        ensures
            v@.map_values(|s: String| s@) == self.model().history,
    {
        self.history.snapshot()
    }

    /// Clears the messaging history; session and policy stay.
    pub fn clear_history(&mut self)
        requires
            old(self).wf(),
        ensures
            final(self).wf(),
            final(self).model() == (ClientModel {
                history: Seq::<Seq<char>>::empty(),
                ..old(self).model()
            }),
    {
        self.history.clear();
    }

    /// The current session cookie, for the transport to send.
    pub fn session_cookie(&self) -> (r: &String)
        ensures
            r@ == self.model().cookie,
    {
        &self.cookie
    }

    /// Whether a curable first failure is retried once.
    pub fn retries_enabled(&self) -> (r: bool)
        ensures
            r == self.model().retries,
    {
        self.with_retries
    }

    /// Starts a call: builds the payload for the message over the current
    /// history snapshot.
    pub fn begin_exchange(&self, message: &str) -> (e: Exchange)
        requires
            self.wf(),
        ensures
            e.message_view() == message@,
            encode_utf8(e.payload_view()) == payload_bytes(
                encode_utf8(message@),
                history_bytes(self.model().history),
            ),
    {
        let snap = self.history.snapshot();
        proof {
            assert(snap@.map_values(|s: String| s@).len() == snap@.len());
        }
        let payload = build_payload(message, &snap);
        Exchange { message: message.to_owned(), payload }
    }

    /// Feeds the transport's reply to the first attempt into the state
    /// machine.
    pub fn respond_first(&mut self, ex: &Exchange, reply: Reply) -> (r: FirstOutcome)
        requires
            old(self).wf(),
        ensures
            final(self).wf(),
            final(self).model() == first_step(old(self).model(), ex.message_view(), reply@).0,
            r@ == first_step(old(self).model(), ex.message_view(), reply@).1,
    {
        match reply {
            Reply::Transport(t) => {
                if self.with_retries {
                    FirstOutcome::RetryNeeded
                } else {
                    FirstOutcome::Failed(Error::TransportError(t))
                }
            },
            Reply::Body(b) => {
                let ghost bb = b@;
                match try_utf8_string(b) {
                    None => FirstOutcome::Failed(Error::DecodeError),
                    Some(text) => {
                        proof {
                            lemma_encode_utf8_empty(text@);
                        }
                        match parse_answer(text.as_str()) {
                            Err(e) => FirstOutcome::Failed(e),
                            Ok(a) => {
                                proof {
                                    broadcast use encode_utf8_decode_utf8;

                                    assert(a@ == decode_utf8(first_segment(bb)));
                                }
                                if classify_answer(a.as_str()) {
                                    if self.with_retries {
                                        FirstOutcome::RetryNeeded
                                    } else {
                                        FirstOutcome::Failed(Error::BadResponse(a))
                                    }
                                } else {
                                    self.history.push(ex.message.clone());
                                    self.history.push(a.clone());
                                    FirstOutcome::Done(a)
                                }
                            },
                        }
                    },
                }
            },
        }
    }

    /// Feeds the transport's reply to the retry into the state machine.
    pub fn respond_retry(&mut self, ex: &Exchange, reply: Reply) -> (r: Result<String, Error>)
        requires
            old(self).wf(),
        ensures
            final(self).wf(),
            final(self).model() == retry_step(old(self).model(), ex.message_view(), reply@).0,
            answer_result_models(r, retry_step(old(self).model(), ex.message_view(), reply@).1),
    {
        match reply {
            Reply::Transport(t) => Err(Error::TransportError(t)),
            Reply::Body(b) => {
                let ghost bb = b@;
                match try_utf8_string(b) {
                    None => Err(Error::DecodeError),
                    Some(text) => {
                        proof {
                            lemma_encode_utf8_empty(text@);
                        }
                        match parse_answer(text.as_str()) {
                            Err(e) => Err(e),
                            Ok(a) => {
                                proof {
                                    broadcast use encode_utf8_decode_utf8;

                                    assert(a@ == decode_utf8(first_segment(bb)));
                                }
                                if classify_answer(a.as_str()) {
                                    Err(Error::BadResponseAfterRetrying(a))
                                } else {
                                    self.history.push(ex.message.clone());
                                    self.history.push(a.clone());
                                    Ok(a)
                                }
                            },
                        }
                    },
                }
            },
        }
    }

    /// Replaces the session cookie from a cookie-endpoint reply: atomic,
    /// last writer wins. Serves both the retry path and manual refresh.
    pub fn recookie(&mut self, reply: CookieReply) -> (r: Result<(), Error>)
        requires
            old(self).wf(),
        ensures
            final(self).wf(),
            final(self).model() == cookie_step(old(self).model(), reply@).0,
            unit_result_models(r, cookie_step(old(self).model(), reply@).1),
    {
        match reply {
            CookieReply::Transport(t) => Err(Error::TransportError(t)),
            CookieReply::Header(None) => Err(Error::NoCookieFound),
            CookieReply::Header(Some(h)) => {
                match extract_cookie(h.as_str()) {
                    Some(c) => {
                        proof {
                            broadcast use encode_utf8_decode_utf8;

                        }
                        self.cookie = c;
                        Ok(())
                    },
                    None => Err(Error::NoCookieFound),
                }
            },
        }
    }
}

/// A builder for a Cleverbot client: the retry policy and the history
/// capacity, with documented defaults.
pub struct CleverbotBuilder {
    with_retries: bool,
    history_size: usize,
}

impl CleverbotBuilder {
    /// The default history capacity.
    pub open spec fn default_history_size() -> nat {
        50
    }

    /// The configured retry policy.
    pub closed spec fn retries_spec(self) -> bool {
        self.with_retries
    }

    /// The configured history capacity.
    pub closed spec fn history_size_spec(self) -> nat {
        self.history_size as nat
    }

    /// Enables or disables the single retry; the default is enabled.
    pub fn with_retries(self, with_retries: bool) -> (b: CleverbotBuilder)
        ensures
            b.retries_spec() == with_retries,
            b.history_size_spec() == self.history_size_spec(),
    {
        CleverbotBuilder { with_retries, ..self }
    }

    /// Sets the history capacity; the default is 50.
    pub fn with_custom_history_size(self, history_size: usize) -> (b: CleverbotBuilder)
        ensures
            b.retries_spec() == self.retries_spec(),
            b.history_size_spec() == history_size,
    {
        CleverbotBuilder { history_size, ..self }
    }

    /// Finishes construction from the cookie endpoint's reply. No client
    /// exists unless a session cookie was obtained.
    pub fn build(self, reply: CookieReply) -> (r: Result<Cleverbot, Error>)
        requires
            1 <= self.history_size_spec() < usize::MAX,
        ensures
            match cookie_result(reply@) {
                Ok(c) => r matches Ok(cb) && cb.wf() && cb.model() == (ClientModel {
                    cookie: c,
                    history: Seq::<Seq<char>>::empty(),
                    capacity: self.history_size_spec(),
                    retries: self.retries_spec(),
                }),
                Err(e) => r matches Err(err) && err@ == e,
            },
    {
        let cookie = match reply {
            CookieReply::Transport(t) => {
                return Err(Error::TransportError(t));
            },
            CookieReply::Header(None) => {
                return Err(Error::NoCookieFound);
            },
            CookieReply::Header(Some(h)) => {
                match extract_cookie(h.as_str()) {
                    Some(c) => c,
                    None => {
                        return Err(Error::NoCookieFound);
                    },
                }
            },
        };
        proof {
            broadcast use encode_utf8_decode_utf8;

        }
        Ok(Cleverbot {
            cookie,
            history: History::new(self.history_size),
            with_retries: self.with_retries,
        })
    }
}

impl Default for CleverbotBuilder {
    /// The defaults: retries enabled, history capacity 50.
    fn default() -> (b: CleverbotBuilder)
        ensures
            b.retries_spec() == true,
            b.history_size_spec() == CleverbotBuilder::default_history_size(),
    {
        CleverbotBuilder { with_retries: true, history_size: 50 }
    }
}

/// With retries enabled, a first attempt that draws a sentinel answer
/// changes nothing and asks for exactly one cookie refresh and one resend:
/// the step's outcome is `RetryNeeded` and its state is the old one.
pub proof fn law_bad_first_attempt_retries(m: ClientModel, msg: Seq<char>, b: Seq<u8>)
    requires
        m.retries,
        body_answer(b) matches Ok(a) && is_bad_answer(encode_utf8(a)),
    ensures
        first_step(m, msg, ReplySpec::Body(b)).0 == m,
        first_step(m, msg, ReplySpec::Body(b)).1 == FirstOutcomeSpec::RetryNeeded,
{
}

/// A retry that again draws a sentinel answer surfaces the distinct
/// after-retrying error carrying that answer, never plain `BadResponse`,
/// and leaves the state untouched.
pub proof fn law_retry_bad_is_escalated(m: ClientModel, msg: Seq<char>, b: Seq<u8>)
    requires
        body_answer(b) matches Ok(a) && is_bad_answer(encode_utf8(a)),
    ensures
        retry_step(m, msg, ReplySpec::Body(b)).0 == m,
        retry_step(m, msg, ReplySpec::Body(b)).1 == Result::<Seq<char>, ErrorSpec>::Err(
            ErrorSpec::BadResponseAfterRetrying(body_answer(b)->Ok_0),
        ),
{
}

/// With retries disabled, a sentinel answer on the first attempt surfaces
/// immediately as `BadResponse` and the state is untouched, so no cookie
/// call is asked for.
pub proof fn law_bad_without_retries(m: ClientModel, msg: Seq<char>, b: Seq<u8>)
    requires
        !m.retries,
        body_answer(b) matches Ok(a) && is_bad_answer(encode_utf8(a)),
    ensures
        first_step(m, msg, ReplySpec::Body(b)).0 == m,
        first_step(m, msg, ReplySpec::Body(b)).1 == FirstOutcomeSpec::Failed(
            ErrorSpec::BadResponse(body_answer(b)->Ok_0),
        ),
{
}

/// A successful exchange appends exactly two entries, the message then the
/// answer, in that order.
pub proof fn law_success_appends_pair(m: ClientModel, msg: Seq<char>, b: Seq<u8>)
    requires
        body_answer(b) matches Ok(a) && !is_bad_answer(encode_utf8(a)),
    ensures
        first_step(m, msg, ReplySpec::Body(b)).1 == FirstOutcomeSpec::Done(body_answer(b)->Ok_0),
        first_step(m, msg, ReplySpec::Body(b)).0.history == push_evict(
            push_evict(m.history, m.capacity, msg),
            m.capacity,
            body_answer(b)->Ok_0,
        ),
        first_step(m, msg, ReplySpec::Body(b)).0.cookie == m.cookie,
{
}

/// A retry is only ever asked for when the policy allows one.
pub proof fn law_retry_only_when_enabled(m: ClientModel, msg: Seq<char>, reply: ReplySpec)
    ensures
        first_step(m, msg, reply).1 is RetryNeeded ==> m.retries,
{
}

/// A successful construction or refresh never installs an empty session
/// cookie: an unusable header fails with `NoCookieFound` instead.
pub proof fn law_session_never_empty(reply: CookieReplySpec)
    ensures
        cookie_result(reply) matches Ok(c) ==> c.len() > 0,
{
    match reply {
        CookieReplySpec::Header(Some(h)) => {
            let b = cookie_of_header(encode_utf8(h));
            if valid_utf8(b) && b.len() > 0 {
                assert(decode_utf8(b).len() > 0);
            }
        },
        _ => {},
    }
}

/// A failed cookie refresh leaves the whole state unchanged; a successful
/// one replaces the cookie and nothing else, last writer wins.
pub proof fn law_cookie_refresh(m: ClientModel, reply: CookieReplySpec)
    ensures
        cookie_step(m, reply).1 is Err ==> cookie_step(m, reply).0 == m,
        cookie_step(m, reply).1 is Ok ==> cookie_step(m, reply).0 == (ClientModel {
            cookie: cookie_result(reply)->Ok_0,
            ..m
        }),
{
}

/// History is only ever touched by a recorded answer: every outcome other
/// than `Done` leaves the whole state unchanged.
pub proof fn law_state_untouched_unless_done(m: ClientModel, msg: Seq<char>, reply: ReplySpec)
    ensures
        !(first_step(m, msg, reply).1 is Done) ==> first_step(m, msg, reply).0 == m,
        !(retry_step(m, msg, reply).1 is Ok) ==> retry_step(m, msg, reply).0 == m,
{
}

} // verus!
