use quic_gateway::dispatch::{Dispatch, Dispatched};
use quic_gateway::routes::{path_segments, Endpoint, Route};

fn route(endpoint: Endpoint, name: Option<&str>) -> Route {
    Route { endpoint, name: name.map(|n| n.to_string()) }
}

fn start(is_post: bool, is_json: bool, path: &str) -> (Dispatch, Dispatched) {
    Dispatch::new(is_post, is_json, &path_segments(path))
}

fn is_decode(a: &Dispatched, r: &Route) -> bool {
    matches!(a, Dispatched::Decode(x) if x == r)
}

fn is_serve(a: &Dispatched, r: &Route) -> bool {
    matches!(a, Dispatched::Serve(x) if x == r)
}

fn is_refuse(a: &Dispatched, s: u16) -> bool {
    matches!(a, Dispatched::Refuse(x) if *x == s)
}

#[test]
fn first_decoding_endpoint_serves() {
    let (mut d, a) = start(true, true, "/container/list/inspect");
    let inspect = route(Endpoint::Inspect, Some("list"));
    assert!(is_decode(&a, &inspect));
    assert!(d.is_decoding());
    let b = d.decoded(true);
    assert!(is_serve(&b, &inspect));
}

#[test]
fn body_taken_refuses_later_endpoints() {
    // inspect takes the body and cannot decode it; list then finds it gone.
    let (mut d, _) = start(true, true, "/container/list/inspect");
    let b = d.decoded(false);
    assert!(is_refuse(&b, 500));
}

#[test]
fn undecodable_body_alone() {
    let (mut d, a) = start(true, true, "/container/list");
    assert!(is_decode(&a, &route(Endpoint::List, None)));
    assert!(is_refuse(&d.decoded(false), 400));
}

#[test]
fn wrong_content_type() {
    let (_, a) = start(true, false, "/container/list");
    assert!(is_refuse(&a, 415));
}

#[test]
fn change_needs_no_body() {
    let (_, a) = start(true, false, "/container/web/change");
    assert!(is_serve(&a, &route(Endpoint::Change, Some("web"))));
}

#[test]
fn creation_never_serves() {
    let (mut d, a) = start(true, true, "/container/create");
    assert!(is_decode(&a, &route(Endpoint::Create, None)));
    assert!(is_refuse(&d.decoded(true), 500));
}

#[test]
fn creation_then_a_named_endpoint() {
    // create takes the body; stop, named "create", then finds it gone.
    let (mut d, _) = start(true, true, "/container/create/stop");
    assert!(is_refuse(&d.decoded(true), 500));
}

#[test]
fn no_route() {
    assert!(is_refuse(&start(true, true, "/elsewhere").1, 404));
    assert!(is_refuse(&start(false, true, "/container/list").1, 405));
}
