use quic_gateway::exchange::{Action, Exchange, ExchangeError, Outcome, Stage};
use quic_gateway::options::Opt;

fn options(rebind: bool) -> Opt {
    Opt {
        keylog: false,
        server: "127.0.0.1:8000".to_string(),
        host: "localhost".to_string(),
        ca: None,
        rebind,
    }
}

fn done(b: &[u8]) -> Outcome {
    Outcome::Done(b.to_vec())
}

fn label(a: &Action) -> String {
    match a {
        Action::Configure { keylog, protocols, ca } => format!("configure {} {:?} {:?}", keylog, protocols, ca),
        Action::Bind => "bind".into(),
        Action::DecodeRequest(b) => format!("decode-request {:?}", b),
        Action::Connect { server, host } => format!("connect {} {}", server, host),
        Action::AwaitConnection => "await".into(),
        Action::OpenStream => "open".into(),
        Action::Rebind => "rebind".into(),
        Action::EncodeRequest => "encode-request".into(),
        Action::Send(b) => format!("send {:?}", b),
        Action::Finish => "finish".into(),
        Action::Read => "read".into(),
        Action::DecodeResponse(b) => format!("decode-response {:?}", b),
        Action::EncodeResponse => "encode-response".into(),
        Action::Complete(b) => format!("complete {:?}", b),
        Action::Abort(e) => format!("abort {:?}: {}", e.stage, e.message()),
    }
}

fn drive(rebind: bool, outcomes: Vec<Outcome>) -> Vec<String> {
    let (mut ex, first) = Exchange::new(&options(rebind), vec![7, 8]);
    let mut seen = vec![label(&first)];
    for o in outcomes {
        if ex.is_finished() {
            break;
        }
        let a = ex.step(o);
        seen.push(label(&a));
    }
    seen
}

fn all_done() -> Vec<Outcome> {
    vec![
        done(b""),        // configure
        done(b""),        // bind
        done(b""),        // decode request
        done(b""),        // connect
        done(b""),        // await
        done(b""),        // open stream
        done(&[1, 2, 3]), // encode request
        done(b""),        // send
        done(b""),        // finish
        done(&[4, 5]),    // read
        done(b""),        // decode response
        done(&[9]),       // encode response
    ]
}

#[test]
fn successful_exchange_without_rebind() {
    let seen = drive(false, all_done());
    assert_eq!(
        seen,
        vec![
            "configure false [[104, 113, 45, 50, 55]] None",
            "bind",
            "decode-request [7, 8]",
            "connect 127.0.0.1:8000 localhost",
            "await",
            "open",
            "encode-request",
            "send [1, 2, 3]",
            "finish",
            "read",
            "decode-response [4, 5]",
            "encode-response",
            "complete [9]",
        ]
    );
}

#[test]
fn successful_exchange_with_rebind() {
    let mut outs = all_done();
    outs.insert(6, done(b"")); // the rebind
    let seen = drive(true, outs);
    assert_eq!(seen[6], "rebind");
    assert_eq!(seen[7], "encode-request");
    assert_eq!(seen.last().unwrap(), "complete [9]");
    assert_eq!(seen.len(), 14);
}

#[test]
fn connect_failure_is_prefixed() {
    let outs = vec![done(b""), done(b""), done(b""), done(b""), Outcome::Failed("timed out".into())];
    let seen = drive(false, outs);
    assert_eq!(seen.last().unwrap(), "abort AwaitingConnection: Failed to connect: timed out");
}

#[test]
fn early_failures_keep_their_message() {
    let seen = drive(false, vec![Outcome::Failed("no such file".into())]);
    assert_eq!(seen, vec!["configure false [[104, 113, 45, 50, 55]] None", "abort Configuring: no such file"]);
    let seen = drive(false, vec![done(b""), done(b""), Outcome::Failed("bad request".into())]);
    assert_eq!(seen.last().unwrap(), "abort DecodingRequest: bad request");
}

#[test]
fn every_prefixed_stage() {
    let cases = [
        (Stage::AwaitingConnection, "Failed to connect: x"),
        (Stage::OpeningStream, "Failed to open stream: x"),
        (Stage::Sending, "Failed to send request: x"),
        (Stage::Finishing, "Failed to shutdown stream: x"),
        (Stage::Reading, "Failed to read response: x"),
        (Stage::Binding, "x"),
        (Stage::Connecting, "x"),
        (Stage::EncodingRequest, "x"),
        (Stage::DecodingResponse, "x"),
        (Stage::EncodingResponse, "x"),
    ];
    for (stage, text) in cases.iter() {
        let e = ExchangeError { stage: *stage, cause: "x".into() };
        assert_eq!(e.message(), *text);
    }
}

#[test]
fn finishes_after_abort() {
    let (mut ex, _) = Exchange::new(&options(false), vec![]);
    assert_eq!(ex.stage(), Stage::Configuring);
    let a = ex.step(Outcome::Failed("boom".into()));
    assert!(matches!(a, Action::Abort(_)));
    assert!(ex.is_finished());
    assert_eq!(ex.stage(), Stage::Finished);
}

#[test]
fn configuration_follows_the_options() {
    let opts = Opt {
        keylog: true,
        server: "10.0.0.1:9000".to_string(),
        host: "broker".to_string(),
        ca: Some(b"/tmp/ca.der".to_vec()),
        rebind: false,
    };
    let (_, first) = Exchange::new(&opts, vec![]);
    match first {
        Action::Configure { keylog, protocols, ca } => {
            assert!(keylog);
            assert_eq!(protocols, vec![b"hq-27".to_vec()]);
            assert_eq!(ca, Some(b"/tmp/ca.der".to_vec()));
        }
        _ => panic!("expected configuration first"),
    }
}

#[test]
fn which_errors_keep_their_cause() {
    for stage in [Stage::Configuring, Stage::Binding, Stage::DecodingRequest, Stage::Connecting,
                  Stage::EncodingRequest, Stage::DecodingResponse, Stage::EncodingResponse].iter() {
        assert!(ExchangeError { stage: *stage, cause: String::new() }.keeps_cause());
    }
    for stage in [Stage::AwaitingConnection, Stage::OpeningStream, Stage::Sending,
                  Stage::Finishing, Stage::Reading].iter() {
        assert!(!ExchangeError { stage: *stage, cause: String::new() }.keeps_cause());
    }
}

#[test]
fn a_failure_never_completes() {
    let mut outs = all_done();
    outs[7] = Outcome::Failed("reset".into());
    let seen = drive(false, outs);
    assert!(seen.iter().all(|a| !a.starts_with("complete")));
    assert_eq!(seen.last().unwrap(), "abort Sending: Failed to send request: reset");
}
