//! One request/response exchange with the broker over QUIC, as a state
//! machine: the caller performs each action and hands back its outcome, and
//! the machine says what to do next.
//!
//! The exchange configures the client, binds an endpoint, checks that the
//! request decodes as a protocol message, connects to the broker, opens a
//! bidirectional stream, rebinds the endpoint's socket if asked to, sends
//! the re-encoded request, finishes the stream, reads the whole response,
//! decodes it and re-encodes it, and completes with those bytes. The first
//! failure aborts the exchange with an error that names the failing stage.

use vstd::prelude::*;
use crate::options::Opt;

verus! {

/// The stages of an exchange, in the order in which they happen.
#[derive(Debug, Clone, Copy, PartialEq, Eq, Structural)]
pub enum Stage {
    Configuring,
    Binding,
    DecodingRequest,
    Connecting,
    AwaitingConnection,
    OpeningStream,
    Rebinding,
    EncodingRequest,
    Sending,
    Finishing,
    Reading,
    DecodingResponse,
    EncodingResponse,
    Finished,
}

/// The outcome of the last action: its bytes (empty where it yields none),
/// or the error message it failed with.
#[derive(Debug, Clone)]
pub enum Outcome {
    Done(Vec<u8>),
    Failed(String),
}

/// Why an exchange failed: the stage and the underlying message.
#[derive(Debug, Clone)]
pub struct ExchangeError {
    pub stage: Stage,
    pub cause: String,
}

/// What the caller is to do next.
#[derive(Debug, Clone)]
pub enum Action {
    /// Build the client configuration: offer these application protocols,
    /// log session keys only when `keylog` is set, and trust the certificate
    /// that `ca` selects.
    Configure { keylog: bool, protocols: Vec<Vec<u8>>, ca: Option<Vec<u8>> },
    /// Bind a client endpoint to `0.0.0.0:0`.
    Bind,
    /// Decode these request bytes as a protocol message.
    DecodeRequest(Vec<u8>),
    /// Start connecting to the broker at `server`, under the name `host`.
    Connect { server: String, host: String },
    /// Wait for the connection to be established.
    AwaitConnection,
    /// Open a bidirectional stream.
    OpenStream,
    /// Move the endpoint to a fresh socket bound to `0.0.0.0:0`.
    Rebind,
    /// Encode the decoded request as MessagePack.
    EncodeRequest,
    /// Write these bytes to the stream.
    Send(Vec<u8>),
    /// Finish the sending side of the stream.
    Finish,
    /// Read the whole response.
    Read,
    /// Decode these response bytes as a protocol message.
    DecodeResponse(Vec<u8>),
    /// Encode the decoded response as MessagePack.
    EncodeResponse,
    /// The exchange succeeded with these bytes.
    Complete(Vec<u8>),
    /// The exchange failed.
    Abort(ExchangeError),
}

/// An outcome as values.
pub enum OutcomeView {
    Done(Seq<u8>),
    Failed(Seq<char>),
}

/// An action as values.
pub enum ActionView {
    Configure(bool, Seq<Seq<u8>>, Option<Seq<u8>>),
    Bind,
    DecodeRequest(Seq<u8>),
    Connect(Seq<char>, Seq<char>),
    AwaitConnection,
    OpenStream,
    Rebind,
    EncodeRequest,
    Send(Seq<u8>),
    Finish,
    Read,
    DecodeResponse(Seq<u8>),
    EncodeResponse,
    Complete(Seq<u8>),
    Abort(Stage, Seq<char>),
}

/// The state of an exchange as values.
pub struct ExchangeView {
    pub stage: Stage,
    pub keylog: bool,
    pub ca: Option<Seq<u8>>,
    pub rebind: bool,
    pub server: Seq<char>,
    pub host: Seq<char>,
    pub request: Seq<u8>,
}

impl View for Outcome {
    type V = OutcomeView;

    open spec fn view(&self) -> OutcomeView {
        match self {
            Outcome::Done(b) => OutcomeView::Done(b@),
            Outcome::Failed(m) => OutcomeView::Failed(m@),
        }
    }
}

impl View for Action {
    type V = ActionView;

    open spec fn view(&self) -> ActionView {
        match self {
            Action::Configure { keylog, protocols, ca } => ActionView::Configure(
                *keylog,
                protocols@.map_values(|p: Vec<u8>| p@),
                match ca {
                    Some(c) => Some(c@),
                    None => None,
                },
            ),
            Action::Bind => ActionView::Bind,
            Action::DecodeRequest(b) => ActionView::DecodeRequest(b@),
            Action::Connect { server, host } => ActionView::Connect(server@, host@),
            Action::AwaitConnection => ActionView::AwaitConnection,
            Action::OpenStream => ActionView::OpenStream,
            Action::Rebind => ActionView::Rebind,
            Action::EncodeRequest => ActionView::EncodeRequest,
            Action::Send(b) => ActionView::Send(b@),
            Action::Finish => ActionView::Finish,
            Action::Read => ActionView::Read,
            Action::DecodeResponse(b) => ActionView::DecodeResponse(b@),
            Action::EncodeResponse => ActionView::EncodeResponse,
            Action::Complete(b) => ActionView::Complete(b@),
            Action::Abort(e) => ActionView::Abort(e.stage, e.cause@),
        }
    }
}

/// The application protocols the client offers: `hq-27`.
pub open spec fn alpn() -> Seq<Seq<u8>> {
    seq![seq![0x68u8, 0x71u8, 0x2du8, 0x32u8, 0x37u8]]
}

/// The application protocols the client offers.
pub fn alpn_protocols() -> (p: Vec<Vec<u8>>)
    ensures
        p@.map_values(|v: Vec<u8>| v@) == alpn(),
{
    let mut p = Vec::new();
    p.push(vec![0x68u8, 0x71u8, 0x2du8, 0x32u8, 0x37u8]);
    assert(p@.map_values(|v: Vec<u8>| v@) =~= alpn());
    p
}

/// The position of a stage in the exchange.
pub open spec fn rank(stage: Stage) -> nat {
    match stage {
        Stage::Configuring => 0,
        Stage::Binding => 1,
        Stage::DecodingRequest => 2,
        Stage::Connecting => 3,
        Stage::AwaitingConnection => 4,
        Stage::OpeningStream => 5,
        Stage::Rebinding => 6,
        Stage::EncodingRequest => 7,
        Stage::Sending => 8,
        Stage::Finishing => 9,
        Stage::Reading => 10,
        Stage::DecodingResponse => 11,
        Stage::EncodingResponse => 12,
        Stage::Finished => 13,
    }
}

/// The stage after `stage` when it succeeds; rebinding happens only when
/// the options ask for it.
pub open spec fn successor(stage: Stage, rebind: bool) -> Stage {
    match stage {
        Stage::Configuring => Stage::Binding,
        Stage::Binding => Stage::DecodingRequest,
        Stage::DecodingRequest => Stage::Connecting,
        Stage::Connecting => Stage::AwaitingConnection,
        Stage::AwaitingConnection => Stage::OpeningStream,
        Stage::OpeningStream => if rebind { Stage::Rebinding } else { Stage::EncodingRequest },
        Stage::Rebinding => Stage::EncodingRequest,
        Stage::EncodingRequest => Stage::Sending,
        Stage::Sending => Stage::Finishing,
        Stage::Finishing => Stage::Reading,
        Stage::Reading => Stage::DecodingResponse,
        Stage::DecodingResponse => Stage::EncodingResponse,
        Stage::EncodingResponse => Stage::Finished,
        Stage::Finished => Stage::Finished,
    }
}

/// The action that carries out `stage`, where `payload` is what the
/// previous action yielded.
pub open spec fn action_for(ex: ExchangeView, stage: Stage, payload: Seq<u8>) -> ActionView {
    match stage {
        Stage::Configuring => ActionView::Configure(ex.keylog, alpn(), ex.ca),
        Stage::Binding => ActionView::Bind,
        Stage::DecodingRequest => ActionView::DecodeRequest(ex.request),
        Stage::Connecting => ActionView::Connect(ex.server, ex.host),
        Stage::AwaitingConnection => ActionView::AwaitConnection,
        Stage::OpeningStream => ActionView::OpenStream,
        Stage::Rebinding => ActionView::Rebind,
        Stage::EncodingRequest => ActionView::EncodeRequest,
        Stage::Sending => ActionView::Send(payload),
        Stage::Finishing => ActionView::Finish,
        Stage::Reading => ActionView::Read,
        Stage::DecodingResponse => ActionView::DecodeResponse(payload),
        Stage::EncodingResponse => ActionView::EncodeResponse,
        Stage::Finished => ActionView::Complete(payload),
    }
}

/// Whether an outcome may be handed to an exchange in this state: not after
/// it finished, and a failed rebind is not an outcome (it panics).
pub open spec fn can_step(ex: ExchangeView, o: OutcomeView) -> bool {
    ex.stage != Stage::Finished && !(ex.stage == Stage::Rebinding && o is Failed)
}

/// The state and action that follow an outcome.
pub open spec fn next(ex: ExchangeView, o: OutcomeView) -> (ExchangeView, ActionView) {
    match o {
        OutcomeView::Done(p) => {
            let s = successor(ex.stage, ex.rebind);
            (ExchangeView { stage: s, ..ex }, action_for(ex, s, p))
        },
        OutcomeView::Failed(c) => (
            ExchangeView { stage: Stage::Finished, ..ex },
            ActionView::Abort(ex.stage, c),
        ),
    }
}

/// The text put before the cause of a failure at `stage`.
pub open spec fn failure_prefix(stage: Stage) -> Seq<char> {
    match stage {
        Stage::AwaitingConnection => "Failed to connect: "@,
        Stage::OpeningStream => "Failed to open stream: "@,
        Stage::Sending => "Failed to send request: "@,
        Stage::Finishing => "Failed to shutdown stream: "@,
        Stage::Reading => "Failed to read response: "@,
        _ => Seq::empty(),
    }
}

/// The state after handing the outcomes `os` to an exchange one by one, and
/// the actions it answered with; outcomes after it finished are not looked at.
pub open spec fn run_exchange(ex: ExchangeView, os: Seq<OutcomeView>) -> (ExchangeView, Seq<ActionView>)
    decreases os.len(),
{
    if os.len() == 0 || ex.stage == Stage::Finished {
        (ex, Seq::empty())
    } else {
        let (ex1, a) = next(ex, os[0]);
        let (last, actions) = run_exchange(ex1, os.drop_first());
        (last, seq![a] + actions)
    }
}

/// Whether an action ends the exchange.
pub open spec fn is_final(a: ActionView) -> bool {
    a is Complete || a is Abort
}

/// Every outcome moves an unfinished exchange strictly forward, and leaves
/// its options and request as they were.
pub proof fn exchange_step_progresses(ex: ExchangeView, o: OutcomeView)
    requires
        ex.stage != Stage::Finished,
    ensures
        rank(next(ex, o).0.stage) > rank(ex.stage),
        next(ex, o).0.rebind == ex.rebind,
        next(ex, o).0.server == ex.server,
        next(ex, o).0.host == ex.host,
        next(ex, o).0.request == ex.request,
{
}

/// An exchange finishes after at most as many outcomes as it has stages
/// left: thirteen from the start.
pub proof fn exchange_finishes(ex: ExchangeView, os: Seq<OutcomeView>)
    requires
        rank(ex.stage) + os.len() >= 13,
    ensures
        run_exchange(ex, os).0.stage == Stage::Finished,
    decreases os.len(),
{
    if os.len() > 0 && ex.stage != Stage::Finished {
        exchange_step_progresses(ex, os[0]);
        exchange_finishes(next(ex, os[0]).0, os.drop_first());
    }
}

/// The endpoint is rebound only when the options ask for it.
pub proof fn exchange_rebinds_only_when_asked(ex: ExchangeView, os: Seq<OutcomeView>, i: int)
    requires
        0 <= i < run_exchange(ex, os).1.len(),
        run_exchange(ex, os).1[i] is Rebind,
    ensures
        ex.rebind,
    decreases os.len(),
{
    if os.len() > 0 && ex.stage != Stage::Finished {
        let ex1 = next(ex, os[0]).0;
        if i > 0 {
            exchange_rebinds_only_when_asked(ex1, os.drop_first(), i - 1);
        }
    }
}

/// An exchange answers at most once: only its last action can complete or
/// abort it, and it has finished exactly when its last action does.
pub proof fn exchange_answers_once(ex: ExchangeView, os: Seq<OutcomeView>)
    requires
        ex.stage != Stage::Finished,
    ensures
        forall|i: int| 0 <= i < run_exchange(ex, os).1.len() - 1 ==> !is_final(#[trigger] run_exchange(ex, os).1[i]),
        run_exchange(ex, os).1.len() > 0 ==> (is_final(run_exchange(ex, os).1.last()) <==> run_exchange(ex, os).0.stage
            == Stage::Finished),
    decreases os.len(),
{
    if os.len() > 0 {
        let (ex1, a) = next(ex, os[0]);
        let rest = run_exchange(ex1, os.drop_first());
        assert(is_final(a) <==> ex1.stage == Stage::Finished);
        if ex1.stage != Stage::Finished {
            exchange_answers_once(ex1, os.drop_first());
        } else {
            assert(rest.1.len() == 0);
        }
        assert(run_exchange(ex, os).1 == seq![a] + rest.1);
        assert forall|i: int| 0 <= i < run_exchange(ex, os).1.len() - 1 implies !is_final(
            #[trigger] run_exchange(ex, os).1[i],
        ) by {
            if i > 0 {
                assert(run_exchange(ex, os).1[i] == rest.1[i - 1]);
            }
        }
    }
}

/// What the request encoding yields is what is sent, what is read is what
/// is decoded, and what the response encoding yields is what the exchange
/// completes with; a failure aborts at the failing stage with its cause.
pub proof fn exchange_forwards_payloads(ex: ExchangeView, p: Seq<u8>, c: Seq<char>)
    ensures
        ex.stage == Stage::EncodingRequest ==> next(ex, OutcomeView::Done(p)).1
            == ActionView::Send(p),
        ex.stage == Stage::Reading ==> next(ex, OutcomeView::Done(p)).1
            == ActionView::DecodeResponse(p),
        ex.stage == Stage::EncodingResponse ==> next(ex, OutcomeView::Done(p)).1
            == ActionView::Complete(p),
        next(ex, OutcomeView::Failed(c)).1 == ActionView::Abort(ex.stage, c),
        next(ex, OutcomeView::Failed(c)).0.stage == Stage::Finished,
{
}

/// How many successful outcomes an exchange still needs to complete.
pub open spec fn successes_left(stage: Stage, rebind: bool) -> nat {
    if rank(stage) <= 5 && !rebind {
        (12 - rank(stage)) as nat
    } else {
        (13 - rank(stage)) as nat
    }
}

/// When every action succeeds, the exchange completes after exactly the
/// outcomes it still needs, never aborts, and completes with the bytes of
/// the last outcome (the re-encoded response).
pub proof fn exchange_completes_when_all_succeed(ex: ExchangeView, os: Seq<OutcomeView>)
    requires
        ex.stage != Stage::Finished,
        os.len() == successes_left(ex.stage, ex.rebind),
        forall|i: int| 0 <= i < os.len() ==> #[trigger] os[i] is Done,
    ensures
        run_exchange(ex, os).0.stage == Stage::Finished,
        run_exchange(ex, os).1.len() == os.len(),
        run_exchange(ex, os).1.last() == ActionView::Complete(os.last()->Done_0),
        forall|i: int| 0 <= i < run_exchange(ex, os).1.len() ==> !(#[trigger] run_exchange(ex, os).1[i] is Abort),
    decreases os.len(),
{
    let o = os[0];
    assert(o is Done);
    let (ex1, a) = next(ex, o);
    let tail = os.drop_first();
    if os.len() == 1 {
        assert(ex.stage == Stage::EncodingResponse);
        assert(run_exchange(ex1, tail).1 == Seq::<ActionView>::empty());
        assert(run_exchange(ex, os).1 == seq![a]);
    } else {
        assert(ex1.stage != Stage::Finished);
        assert(tail.len() == successes_left(ex1.stage, ex1.rebind));
        assert forall|i: int| 0 <= i < tail.len() implies #[trigger] tail[i] is Done by {
            assert(tail[i] == os[i + 1]);
        }
        exchange_completes_when_all_succeed(ex1, tail);
        let rest = run_exchange(ex1, tail).1;
        assert(run_exchange(ex, os).1 == seq![a] + rest);
        assert(tail.last() == os.last());
        assert forall|i: int| 0 <= i < run_exchange(ex, os).1.len() implies !(
        #[trigger] run_exchange(ex, os).1[i] is Abort) by {
            if i > 0 {
                assert(run_exchange(ex, os).1[i] == rest[i - 1]);
            }
        }
    }
}

proof fn lemma_run_length(ex: ExchangeView, os: Seq<OutcomeView>)
    ensures
        run_exchange(ex, os).1.len() <= os.len(),
    decreases os.len(),
{
    if os.len() > 0 && ex.stage != Stage::Finished {
        lemma_run_length(next(ex, os[0]).0, os.drop_first());
    }
}

/// An exchange completes only when every action up to then succeeded.
pub proof fn exchange_completes_only_when_all_succeed(ex: ExchangeView, os: Seq<OutcomeView>, k: int)
    requires
        0 <= k < run_exchange(ex, os).1.len(),
        run_exchange(ex, os).1[k] is Complete,
    ensures
        forall|i: int| 0 <= i <= k ==> #[trigger] os[i] is Done,
    decreases os.len(),
{
    lemma_run_length(ex, os);
    let (ex1, a) = next(ex, os[0]);
    let rest = run_exchange(ex1, os.drop_first());
    assert(run_exchange(ex, os).1 == seq![a] + rest.1);
    if os[0] is Failed {
        assert(ex1.stage == Stage::Finished);
        assert(rest.1.len() == 0);
        assert(a is Abort);
    } else if k > 0 {
        assert(rest.1[k - 1] == run_exchange(ex, os).1[k]);
        exchange_completes_only_when_all_succeed(ex1, os.drop_first(), k - 1);
        assert forall|i: int| 0 <= i <= k implies #[trigger] os[i] is Done by {
            if i > 0 {
                assert(os[i] == os.drop_first()[i - 1]);
            }
        }
    }
}

/// The client is configured with the key-logging choice and the
/// certificate choice of the options and with the protocols `alpn()`, the
/// connection goes to the server and host of the options, and what is
/// decoded as the request is the request the exchange was started with.
pub proof fn exchange_uses_its_inputs(ex: ExchangeView, os: Seq<OutcomeView>, i: int)
    requires
        0 <= i < run_exchange(ex, os).1.len(),
    ensures
        run_exchange(ex, os).1[i] matches ActionView::Connect(server, host) ==> server == ex.server && host
            == ex.host,
        run_exchange(ex, os).1[i] matches ActionView::DecodeRequest(r) ==> r == ex.request,
        run_exchange(ex, os).1[i] matches ActionView::Configure(keylog, protocols, ca) ==> keylog
            == ex.keylog && protocols == alpn() && ca == ex.ca,
    decreases os.len(),
{
    if i > 0 {
        exchange_uses_its_inputs(next(ex, os[0]).0, os.drop_first(), i - 1);
    }
}

/// The order of an exchange: what follows each stage's success, and the
/// action that carries it out. The sending side is always finished before
/// the response is read, and the response is always read, decoded and
/// re-encoded before the exchange completes.
pub proof fn exchange_protocol_order(ex: ExchangeView, p: Seq<u8>)
    ensures
        ({
            let (ex1, a) = next(ex, OutcomeView::Done(p));
            &&& ex.stage == Stage::Configuring ==> ex1.stage == Stage::Binding && a == ActionView::Bind
            &&& ex.stage == Stage::Binding ==> ex1.stage == Stage::DecodingRequest && a
                == ActionView::DecodeRequest(ex.request)
            &&& ex.stage == Stage::DecodingRequest ==> ex1.stage == Stage::Connecting && a
                == ActionView::Connect(ex.server, ex.host)
            &&& ex.stage == Stage::Connecting ==> ex1.stage == Stage::AwaitingConnection && a
                == ActionView::AwaitConnection
            &&& ex.stage == Stage::AwaitingConnection ==> ex1.stage == Stage::OpeningStream && a
                == ActionView::OpenStream
            &&& ex.stage == Stage::OpeningStream && ex.rebind ==> ex1.stage == Stage::Rebinding && a
                == ActionView::Rebind
            &&& ex.stage == Stage::OpeningStream && !ex.rebind ==> ex1.stage == Stage::EncodingRequest
                && a == ActionView::EncodeRequest
            &&& ex.stage == Stage::Rebinding ==> ex1.stage == Stage::EncodingRequest && a
                == ActionView::EncodeRequest
            &&& ex.stage == Stage::EncodingRequest ==> ex1.stage == Stage::Sending && a
                == ActionView::Send(p)
            &&& ex.stage == Stage::Sending ==> ex1.stage == Stage::Finishing && a == ActionView::Finish
            &&& ex.stage == Stage::Finishing ==> ex1.stage == Stage::Reading && a == ActionView::Read
            &&& ex.stage == Stage::Reading ==> ex1.stage == Stage::DecodingResponse && a
                == ActionView::DecodeResponse(p)
            &&& ex.stage == Stage::DecodingResponse ==> ex1.stage == Stage::EncodingResponse && a
                == ActionView::EncodeResponse
            &&& ex.stage == Stage::EncodingResponse ==> ex1.stage == Stage::Finished && a
                == ActionView::Complete(p)
        }),
{
}

/// Each option matters only where it is used: key logging and the
/// certificate never change what follows an outcome, rebinding matters only
/// right after the stream opened, and the server and host only for the
/// connection. Two exchanges at the same stage with the same request that
/// agree on what matters there take the same next action.
pub proof fn exchange_options_matter_only_where_used(
    ex1: ExchangeView,
    ex2: ExchangeView,
    o: OutcomeView,
)
    requires
        ex1.stage == ex2.stage,
        ex1.request == ex2.request,
        ex1.stage == Stage::OpeningStream ==> ex1.rebind == ex2.rebind,
        ex1.stage == Stage::DecodingRequest ==> ex1.server == ex2.server && ex1.host == ex2.host,
    ensures
        next(ex1, o).1 == next(ex2, o).1,
        next(ex1, o).0.stage == next(ex2, o).0.stage,
{
}

/// The client offers one application protocol, `hq-27`.
pub proof fn exchange_offers_hq27()
    ensures
        alpn().len() == 1,
        alpn()[0] =~= "hq-27"@.map_values(|c: char| c as u8),
{
    reveal_strlit("hq-27");
    assert(alpn()[0] =~= "hq-27"@.map_values(|c: char| c as u8));
}

/// The error text of each failing stage: the stages where the connection is
/// made or the stream is used put a description before the cause; every
/// other stage gives the cause alone.
pub proof fn exchange_failure_texts(stage: Stage, cause: Seq<char>)
    ensures
        stage == Stage::AwaitingConnection ==> failure_prefix(stage) + cause == "Failed to connect: "@
            + cause,
        stage == Stage::OpeningStream ==> failure_prefix(stage) + cause
            == "Failed to open stream: "@ + cause,
        stage == Stage::Sending ==> failure_prefix(stage) + cause == "Failed to send request: "@
            + cause,
        stage == Stage::Finishing ==> failure_prefix(stage) + cause
            == "Failed to shutdown stream: "@ + cause,
        stage == Stage::Reading ==> failure_prefix(stage) + cause == "Failed to read response: "@
            + cause,
        !(stage == Stage::AwaitingConnection || stage == Stage::OpeningStream || stage
            == Stage::Sending || stage == Stage::Finishing || stage == Stage::Reading)
            ==> failure_prefix(stage) + cause == cause,
{
    assert(Seq::<char>::empty() + cause =~= cause);
}

impl ExchangeError {
    /// Whether the error is the failing action's own error, passed on as it
    /// is; otherwise it is replaced by `message()`.
    pub fn keeps_cause(&self) -> (b: bool)
        ensures
            b == (failure_prefix(self.stage).len() == 0),
    {
        proof {
            reveal_strlit("Failed to connect: ");
            reveal_strlit("Failed to open stream: ");
            reveal_strlit("Failed to send request: ");
            reveal_strlit("Failed to shutdown stream: ");
            reveal_strlit("Failed to read response: ");
        }
        match self.stage {
            Stage::AwaitingConnection | Stage::OpeningStream | Stage::Sending | Stage::Finishing
            | Stage::Reading => false,
            _ => true,
        }
    }

    /// The error's text: the cause, after a prefix that names the stage
    /// where the stage's own error is not descriptive by itself.
    pub fn message(&self) -> (m: String)
        ensures
            m@ == failure_prefix(self.stage) + self.cause@,
    {
        let prefix = match self.stage {
            Stage::AwaitingConnection => String::from_str("Failed to connect: "),
            Stage::OpeningStream => String::from_str("Failed to open stream: "),
            Stage::Sending => String::from_str("Failed to send request: "),
            Stage::Finishing => String::from_str("Failed to shutdown stream: "),
            Stage::Reading => String::from_str("Failed to read response: "),
            _ => String::new(),
        };
        prefix.concat(self.cause.as_str())
    }
}

/// An exchange in progress.
pub struct Exchange {
    stage: Stage,
    keylog: bool,
    ca: Option<Vec<u8>>,
    rebind: bool,
    server: String,
    host: String,
    request: Vec<u8>,
}

impl View for Exchange {
    type V = ExchangeView;

    closed spec fn view(&self) -> ExchangeView {
        ExchangeView {
            stage: self.stage,
            keylog: self.keylog,
            ca: match self.ca {
                Some(c) => Some(c@),
                None => None,
            },
            rebind: self.rebind,
            server: self.server@,
            host: self.host@,
            request: self.request@,
        }
    }
}

impl Exchange {
    /// Starts an exchange of `request` under `options`; the first action is
    /// to configure the client.
    pub fn new(options: &Opt, request: Vec<u8>) -> (r: (Exchange, Action))
        ensures
            r.0@ == (ExchangeView {
                stage: Stage::Configuring,
                keylog: options.keylog,
                ca: match options.ca {
                    Some(c) => Some(c@),
                    None => None,
                },
                rebind: options.rebind,
                server: options.server@,
                host: options.host@,
                request: request@,
            }),
            r.1@ == action_for(r.0@, Stage::Configuring, Seq::empty()),
            r.1@ == ActionView::Configure(
                options.keylog,
                alpn(),
                match options.ca {
                    Some(c) => Some(c@),
                    None => None,
                },
            ),
    {
        let ex = Exchange {
            stage: Stage::Configuring,
            keylog: options.keylog,
            ca: options.ca.clone(),
            rebind: options.rebind,
            server: options.server.clone(),
            host: options.host.clone(),
            request,
        };
        let a = ex.action_entering(Stage::Configuring, Vec::new());
        (ex, a)
    }

    /// The current stage.
    pub fn stage(&self) -> (s: Stage)
        ensures
            s == self@.stage,
    {
        self.stage
    }

    /// Whether the exchange has completed or aborted.
    pub fn is_finished(&self) -> (b: bool)
        ensures
            b == (self@.stage == Stage::Finished),
    {
        self.stage == Stage::Finished
    }

    fn successor_stage(&self) -> (s: Stage)
        ensures
            s == successor(self@.stage, self@.rebind),
    {
        match self.stage {
            Stage::Configuring => Stage::Binding,
            Stage::Binding => Stage::DecodingRequest,
            Stage::DecodingRequest => Stage::Connecting,
            Stage::Connecting => Stage::AwaitingConnection,
            Stage::AwaitingConnection => Stage::OpeningStream,
            Stage::OpeningStream => if self.rebind {
                Stage::Rebinding
            } else {
                Stage::EncodingRequest
            },
            Stage::Rebinding => Stage::EncodingRequest,
            Stage::EncodingRequest => Stage::Sending,
            Stage::Sending => Stage::Finishing,
            Stage::Finishing => Stage::Reading,
            Stage::Reading => Stage::DecodingResponse,
            Stage::DecodingResponse => Stage::EncodingResponse,
            Stage::EncodingResponse => Stage::Finished,
            Stage::Finished => Stage::Finished,
        }
    }

    fn action_entering(&self, stage: Stage, payload: Vec<u8>) -> (a: Action)
        ensures
            a@ == action_for(self@, stage, payload@),
    {
        match stage {
            Stage::Configuring => Action::Configure {
                keylog: self.keylog,
                protocols: alpn_protocols(),
                ca: self.ca.clone(),
            },
            Stage::Binding => Action::Bind,
            Stage::DecodingRequest => Action::DecodeRequest(self.request.clone()),
            Stage::Connecting => Action::Connect {
                server: self.server.clone(),
                host: self.host.clone(),
            },
            Stage::AwaitingConnection => Action::AwaitConnection,
            Stage::OpeningStream => Action::OpenStream,
            Stage::Rebinding => Action::Rebind,
            Stage::EncodingRequest => Action::EncodeRequest,
            Stage::Sending => Action::Send(payload),
            Stage::Finishing => Action::Finish,
            Stage::Reading => Action::Read,
            Stage::DecodingResponse => Action::DecodeResponse(payload),
            Stage::EncodingResponse => Action::EncodeResponse,
            Stage::Finished => Action::Complete(payload),
        }
    }

    /// Takes the outcome of the last action and returns the next one.
    pub fn step(&mut self, outcome: Outcome) -> (a: Action)
        requires
            can_step(old(self)@, outcome@),
        ensures
            (final(self)@, a@) == next(old(self)@, outcome@),
    {
        match outcome {
            Outcome::Done(payload) => {
                let s = self.successor_stage();
                let a = self.action_entering(s, payload);
                self.stage = s;
                a
            },
            Outcome::Failed(cause) => {
                let failed = self.stage;
                self.stage = Stage::Finished;
                Action::Abort(ExchangeError { stage: failed, cause })
            },
        }
    }
}

} // verus!
