//! The order of one relay attempt, as a state machine.
//!
//! An exchange fetches the landing page, reads the session token out of it,
//! sends the two priming requests in order, then the caller's own request, and
//! turns the answer into the caller's response. Each step takes what came of
//! the request last asked for and says what to do next. The first failure ends
//! the exchange: nothing is retried and nothing more is sent.
use vstd::prelude::*;
use crate::error::ProxyError;
use crate::extract::{credential, extract_credential, has_credential};
use crate::upstream::{
    api_request, api_spec, entry_request, entry_spec, landing_request, landing_spec,
    relay_response, response_of, session_headers, signal_request, signal_spec, RelayResponse,
    ReplyView, RequestView, ResponseView, UpstreamReply, UpstreamRequest, API_PREFIX, BASE_URL,
    ENTRY_PATH, SIGNAL_PATH,
};

verus! {

/// Where an exchange stands.
pub enum Stage {
    /// The landing page has been asked for.
    Landing,
    /// The first priming request has been asked for.
    Signal,
    /// The second priming request has been asked for.
    Entry,
    /// The caller's own request has been asked for.
    Relay,
    /// The exchange gave up.
    Failed(ProxyError),
    /// The exchange produced the caller's response.
    Completed(RelayResponse),
}

pub enum StageView {
    Landing,
    Signal,
    Entry,
    Relay,
    Failed(ProxyError),
    Completed(ResponseView),
}

impl View for Stage {
    type V = StageView;

    open spec fn view(&self) -> StageView {
        match self {
            Stage::Landing => StageView::Landing,
            Stage::Signal => StageView::Signal,
            Stage::Entry => StageView::Entry,
            Stage::Relay => StageView::Relay,
            Stage::Failed(e) => StageView::Failed(*e),
            Stage::Completed(r) => StageView::Completed(r@),
        }
    }
}

/// What came of the request last asked for.
pub enum Event {
    /// It could not be sent, or no answer came.
    Unreachable,
    /// An answer came, but its body could not be read.
    Unreadable,
    /// An answer came.
    Received(UpstreamReply),
}

pub enum EventView {
    Unreachable,
    Unreadable,
    Received(ReplyView),
}

impl View for Event {
    type V = EventView;

    open spec fn view(&self) -> EventView {
        match self {
            Event::Unreachable => EventView::Unreachable,
            Event::Unreadable => EventView::Unreadable,
            Event::Received(r) => EventView::Received(r@),
        }
    }
}

/// What the exchange asks its driver to do.
pub enum Action {
    /// Send this request upstream and report what came of it.
    Send(UpstreamRequest),
    /// Answer the caller with this response.
    Respond(RelayResponse),
    /// Answer the caller with a server error.
    Fail(ProxyError),
}

pub enum ActionView {
    Send(RequestView),
    Respond(ResponseView),
    Fail(ProxyError),
}

impl View for Action {
    type V = ActionView;

    open spec fn view(&self) -> ActionView {
        match self {
            Action::Send(q) => ActionView::Send(q@),
            Action::Respond(r) => ActionView::Respond(r@),
            Action::Fail(e) => ActionView::Fail(*e),
        }
    }
}

/// One relay attempt for the caller's API path.
pub struct Exchange {
    pub stage: Stage,
    /// The caller's API path.
    pub path: String,
    /// The session token, once read from the landing page.
    pub token: String,
}

pub struct ExchangeView {
    pub stage: StageView,
    pub path: Seq<char>,
    pub token: Seq<char>,
}

impl View for Exchange {
    type V = ExchangeView;

    open spec fn view(&self) -> ExchangeView {
        ExchangeView { stage: self.stage@, path: self.path@, token: self.token@ }
    }
}

/// An exchange for `path`, waiting for the landing page.
pub open spec fn initial(path: Seq<char>) -> ExchangeView {
    ExchangeView { stage: StageView::Landing, path, token: Seq::empty() }
}

/// The exchange `x`, given up for `e`.
pub open spec fn failed(x: ExchangeView, e: ProxyError) -> (ExchangeView, ActionView) {
    (ExchangeView { stage: StageView::Failed(e), ..x }, ActionView::Fail(e))
}

/// The step from `x` once `e` came of the request last asked for.
pub open spec fn next(x: ExchangeView, e: EventView) -> (ExchangeView, ActionView) {
    match x.stage {
        StageView::Landing => match e {
            EventView::Unreachable => failed(x, ProxyError::UpstreamUnavailable),
            EventView::Unreadable => failed(x, ProxyError::UpstreamReadError),
            EventView::Received(r) => if has_credential(r.body) {
                let t = credential(r.body);
                (
                    ExchangeView { stage: StageView::Signal, token: t, ..x },
                    ActionView::Send(signal_spec(t)),
                )
            } else {
                failed(x, ProxyError::CredentialNotFound)
            },
        },
        StageView::Signal => match e {
            EventView::Unreachable => failed(x, ProxyError::UpstreamUnavailable),
            _ => (ExchangeView { stage: StageView::Entry, ..x }, ActionView::Send(entry_spec(x.token))),
        },
        StageView::Entry => match e {
            EventView::Unreachable => failed(x, ProxyError::UpstreamUnavailable),
            _ => (
                ExchangeView { stage: StageView::Relay, ..x },
                ActionView::Send(api_spec(x.token, x.path)),
            ),
        },
        StageView::Relay => match e {
            EventView::Unreachable => failed(x, ProxyError::UpstreamUnavailable),
            EventView::Unreadable => failed(x, ProxyError::UpstreamReadError),
            EventView::Received(r) => (
                ExchangeView { stage: StageView::Completed(response_of(r)), ..x },
                ActionView::Respond(response_of(r)),
            ),
        },
        StageView::Failed(err) => (x, ActionView::Fail(err)),
        StageView::Completed(resp) => (x, ActionView::Respond(resp)),
    }
}

/// The actions that `x` asks for, one per event of `es`, in order.
pub open spec fn run(x: ExchangeView, es: Seq<EventView>) -> Seq<ActionView>
    decreases es.len(),
{
    if es.len() == 0 {
        Seq::empty()
    } else {
        let (y, a) = next(x, es[0]);
        seq![a] + run(y, es.drop_first())
    }
}

/// Once an exchange has given up, it only repeats its error: whatever comes
/// next, no request is sent again.
pub proof fn lemma_failed_stays_failed(x: ExchangeView, es: Seq<EventView>)
    requires
        x.stage is Failed,
    ensures
        run(x, es).len() == es.len(),
        forall|k: int| 0 <= k < es.len() ==> run(x, es)[k] == ActionView::Fail(x.stage->Failed_0),
    decreases es.len(),
{
    if es.len() > 0 {
        lemma_failed_stays_failed(x, es.drop_first());
        assert forall|k: int| 0 <= k < es.len() implies run(x, es)[k] == ActionView::Fail(
            x.stage->Failed_0,
        ) by {
            if k > 0 {
                assert(run(x, es)[k] == run(x, es.drop_first())[k - 1]);
            }
        }
    }
}

/// A request that could not be sent, at any step, ends the exchange with
/// `UpstreamUnavailable`: it is not retried, and nothing after it is sent.
pub proof fn lemma_unreachable_ends_exchange(x: ExchangeView, rest: Seq<EventView>)
    requires
        x.stage is Landing || x.stage is Signal || x.stage is Entry || x.stage is Relay,
    ensures
        ({
            let acts = run(x, seq![EventView::Unreachable] + rest);
            &&& acts.len() == rest.len() + 1
            &&& forall|k: int|
                0 <= k < acts.len() ==> acts[k] == ActionView::Fail(ProxyError::UpstreamUnavailable)
        }),
{
    let es = seq![EventView::Unreachable] + rest;
    assert(es.drop_first() =~= rest);
    let y = next(x, es[0]).0;
    lemma_failed_stays_failed(y, rest);
    assert forall|k: int| 0 <= k < es.len() implies run(x, es)[k] == ActionView::Fail(
        ProxyError::UpstreamUnavailable,
    ) by {
        if k > 0 {
            assert(run(x, es)[k] == run(y, rest)[k - 1]);
        }
    }
}

/// A landing page that carries no token ends the exchange with
/// `CredentialNotFound`, before any priming request: none is ever sent.
pub proof fn lemma_missing_token_sends_nothing(path: Seq<char>, page: ReplyView, rest: Seq<EventView>)
    requires
        !has_credential(page.body),
    ensures
        ({
            let acts = run(initial(path), seq![EventView::Received(page)] + rest);
            &&& acts.len() == rest.len() + 1
            &&& forall|k: int|
                0 <= k < acts.len() ==> acts[k] == ActionView::Fail(ProxyError::CredentialNotFound)
        }),
{
    let es = seq![EventView::Received(page)] + rest;
    assert(es.drop_first() =~= rest);
    let y = next(initial(path), es[0]).0;
    lemma_failed_stays_failed(y, rest);
    assert forall|k: int| 0 <= k < es.len() implies run(initial(path), es)[k] == ActionView::Fail(
        ProxyError::CredentialNotFound,
    ) by {
        if k > 0 {
            assert(run(initial(path), es)[k] == run(y, rest)[k - 1]);
        }
    }
}

proof fn lemma_paths_differ(token: Seq<char>, t2: Seq<char>, path: Seq<char>)
    ensures
        entry_spec(token) != signal_spec(t2),
        entry_spec(token) != api_spec(t2, path),
        entry_spec(token) != landing_spec(),
{
    reveal_strlit("/entrypoint");
    reveal_strlit("/appsignal");
    reveal_strlit("/api/");
    let n = BASE_URL@.len() as int;
    assert((BASE_URL@ + ENTRY_PATH@)[n + 1] == 'e');
    assert((BASE_URL@ + SIGNAL_PATH@)[n + 1] == 'a');
    assert((BASE_URL@ + API_PREFIX@ + path)[n + 1] == 'a');
    assert((BASE_URL@ + ENTRY_PATH@).len() != BASE_URL@.len());
}

/// The entry request is only ever asked for right after the signal request
/// of the same session went out and came back: it never comes first, and
/// never after the signal request could not be sent.
pub proof fn lemma_entry_follows_signal(x: ExchangeView, e: EventView, token: Seq<char>)
    requires
        next(x, e).1 == ActionView::Send(entry_spec(token)),
    ensures
        x.stage is Signal,
        !(e is Unreachable),
        token == x.token,
{
    lemma_paths_differ(token, x.token, x.path);
    match e {
        EventView::Received(r) => {
            if x.stage is Landing && has_credential(r.body) {
                lemma_paths_differ(token, credential(r.body), x.path);
            }
        },
        _ => {},
    }
    assert(session_headers(token)[0].1 == token);
}

/// The order of a whole exchange: once the landing page carries a token and
/// both priming requests went out, the exchange asks for the signal request,
/// the entry request and the caller's own request, in that order, all inside
/// the session of that token, then answers with the upstream's last answer.
pub proof fn lemma_exchange_order(
    path: Seq<char>,
    page: ReplyView,
    signal: EventView,
    entry: EventView,
    reply: ReplyView,
)
    requires
        has_credential(page.body),
        !(signal is Unreachable),
        !(entry is Unreachable),
    ensures
        run(
            initial(path),
            seq![EventView::Received(page), signal, entry, EventView::Received(reply)],
        ) == seq![
            ActionView::Send(signal_spec(credential(page.body))),
            ActionView::Send(entry_spec(credential(page.body))),
            ActionView::Send(api_spec(credential(page.body), path)),
            ActionView::Respond(response_of(reply)),
        ],
{
    let es = seq![EventView::Received(page), signal, entry, EventView::Received(reply)];
    let x0 = initial(path);
    let x1 = next(x0, es[0]).0;
    let x2 = next(x1, es[1]).0;
    let x3 = next(x2, es[2]).0;
    let x4 = next(x3, es[3]).0;
    assert(es.drop_first() =~= seq![signal, entry, EventView::Received(reply)]);
    assert(es.drop_first().drop_first() =~= seq![entry, EventView::Received(reply)]);
    assert(es.drop_first().drop_first().drop_first() =~= seq![EventView::Received(reply)]);
    assert(es.drop_first().drop_first().drop_first().drop_first() =~= Seq::<EventView>::empty());
    assert(run(x4, Seq::<EventView>::empty()) =~= Seq::<ActionView>::empty());
    assert(run(x3, seq![EventView::Received(reply)]) =~= seq![ActionView::Respond(response_of(reply))]);
    assert(run(x2, seq![entry, EventView::Received(reply)]) =~= seq![
        ActionView::Send(api_spec(credential(page.body), path)),
        ActionView::Respond(response_of(reply)),
    ]);
    assert(run(x1, seq![signal, entry, EventView::Received(reply)]) =~= seq![
        ActionView::Send(entry_spec(credential(page.body))),
        ActionView::Send(api_spec(credential(page.body), path)),
        ActionView::Respond(response_of(reply)),
    ]);
    assert(run(x0, es) =~= seq![
        ActionView::Send(signal_spec(credential(page.body))),
        ActionView::Send(entry_spec(credential(page.body))),
        ActionView::Send(api_spec(credential(page.body), path)),
        ActionView::Respond(response_of(reply)),
    ]);
}

fn copy_response(r: &RelayResponse) -> (c: RelayResponse)
    ensures
        c@ == r@,
{
    RelayResponse { status: r.status, content_type: r.content_type.clone(), body: r.body.clone() }
}

impl Exchange {
    /// Starts an exchange for the caller's API `path`: the first action asks
    /// for the landing page.
    pub fn start(path: String) -> (r: (Exchange, Action))
        ensures
            r.0@ == initial(path@),
            r.1@ == ActionView::Send(landing_spec()),
    {
        let x = Exchange { stage: Stage::Landing, path, token: String::new() };
        (x, Action::Send(landing_request()))
    }

    /// Takes what came of the request last asked for and moves on.
    pub fn advance(self, event: Event) -> (r: (Exchange, Action))
        ensures
            (r.0@, r.1@) == next(self@, event@),
    {
        let Exchange { stage, path, token } = self;
        match stage {
            Stage::Landing => match event {
                Event::Unreachable => Self::give_up(Stage::Landing, path, token, ProxyError::UpstreamUnavailable),
                Event::Unreadable => Self::give_up(Stage::Landing, path, token, ProxyError::UpstreamReadError),
                Event::Received(reply) => match extract_credential(reply.body.as_str()) {
                    Ok(t) => {
                        let q = signal_request(t.as_str());
                        (Exchange { stage: Stage::Signal, path, token: t }, Action::Send(q))
                    },
                    Err(e) => Self::give_up(Stage::Landing, path, token, e),
                },
            },
            Stage::Signal => match event {
                Event::Unreachable => Self::give_up(Stage::Signal, path, token, ProxyError::UpstreamUnavailable),
                _ => {
                    let q = entry_request(token.as_str());
                    (Exchange { stage: Stage::Entry, path, token }, Action::Send(q))
                },
            },
            Stage::Entry => match event {
                Event::Unreachable => Self::give_up(Stage::Entry, path, token, ProxyError::UpstreamUnavailable),
                _ => {
                    let q = api_request(token.as_str(), path.as_str());
                    (Exchange { stage: Stage::Relay, path, token }, Action::Send(q))
                },
            },
            Stage::Relay => match event {
                Event::Unreachable => Self::give_up(Stage::Relay, path, token, ProxyError::UpstreamUnavailable),
                Event::Unreadable => Self::give_up(Stage::Relay, path, token, ProxyError::UpstreamReadError),
                Event::Received(reply) => {
                    let resp = relay_response(reply);
                    let out = copy_response(&resp);
                    (Exchange { stage: Stage::Completed(resp), path, token }, Action::Respond(out))
                },
            },
            Stage::Failed(e) => (Exchange { stage: Stage::Failed(e), path, token }, Action::Fail(e)),
            Stage::Completed(resp) => {
                let out = copy_response(&resp);
                (Exchange { stage: Stage::Completed(resp), path, token }, Action::Respond(out))
            },
        }
    }

    fn give_up(stage: Stage, path: String, token: String, e: ProxyError) -> (r: (Exchange, Action))
        ensures
            (r.0@, r.1@) == failed(ExchangeView { stage: stage@, path: path@, token: token@ }, e),
    {
        (Exchange { stage: Stage::Failed(e), path, token }, Action::Fail(e))
    }

    /// Whether the driver should read the body of the answer to the request
    /// last asked for: the priming answers are not read.
    pub fn reads_body(&self) -> (r: bool)
        ensures
            r == (self@.stage is Landing || self@.stage is Relay),
    {
        match self.stage {
            Stage::Landing | Stage::Relay => true,
            _ => false,
        }
    }

    /// Whether the exchange has answered the caller, with a response or an error.
    pub fn is_finished(&self) -> (r: bool)
        ensures
            r == (self@.stage is Failed || self@.stage is Completed),
    {
        match self.stage {
            Stage::Failed(_) | Stage::Completed(_) => true,
            _ => false,
        }
    }
}

} // verus!
