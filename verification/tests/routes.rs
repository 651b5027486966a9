use quic_gateway::routes::{
    body_kind, path_segments, refused_with, route_candidates, BodyKind, Endpoint, Route,
};

fn segs(path: &str) -> Vec<String> {
    path_segments(path)
}

fn named(endpoint: Endpoint, name: &str) -> Route {
    Route { endpoint, name: Some(name.to_string()) }
}

fn plain(endpoint: Endpoint) -> Route {
    Route { endpoint, name: None }
}

#[test]
fn segments_drop_the_leading_slash() {
    assert_eq!(segs("/container/list"), vec!["container", "list"]);
}

#[test]
fn segments_keep_empty_pieces() {
    assert_eq!(segs("/a//b/"), vec!["a", "", "b", ""]);
    assert_eq!(segs("/"), vec![""]);
    assert_eq!(segs(""), vec![""]);
}

#[test]
fn segments_without_leading_slash() {
    assert_eq!(segs("x/y"), vec!["x", "y"]);
}

#[test]
fn segments_of_non_ascii_path() {
    assert_eq!(segs("/container/héllo/inspect"), vec!["container", "héllo", "inspect"]);
}

#[test]
fn named_endpoints_take_the_container_name() {
    let cases = [
        ("inspect", Endpoint::Inspect),
        ("change", Endpoint::Change),
        ("logs", Endpoint::Logs),
        ("stats", Endpoint::Stats),
        ("stop", Endpoint::Stop),
        ("start", Endpoint::Start),
        ("kill", Endpoint::Kill),
        ("restart", Endpoint::Restart),
        ("top", Endpoint::Top),
        ("remove", Endpoint::Remove),
        ("update", Endpoint::Update),
    ];
    for (word, endpoint) in cases.iter() {
        let path = format!("/container/web1/{}", word);
        assert_eq!(route_candidates(true, &segs(&path)), vec![named(*endpoint, "web1")]);
    }
}

#[test]
fn plain_endpoints() {
    assert_eq!(route_candidates(true, &segs("/container/list")), vec![plain(Endpoint::List)]);
    assert_eq!(route_candidates(true, &segs("/container/prune")), vec![plain(Endpoint::Prune)]);
    assert_eq!(route_candidates(true, &segs("/container/create")), vec![plain(Endpoint::Create)]);
}

#[test]
fn only_post_is_routed() {
    assert!(route_candidates(false, &segs("/container/list")).is_empty());
}

#[test]
fn paths_outside_container_are_not_routed() {
    assert!(route_candidates(true, &segs("/containers/list")).is_empty());
    assert!(route_candidates(true, &segs("/list")).is_empty());
    assert!(route_candidates(true, &segs("/")).is_empty());
    assert!(route_candidates(true, &Vec::new()).is_empty());
}

#[test]
fn patterns_match_a_prefix() {
    assert_eq!(
        route_candidates(true, &segs("/container/list/extra/parts")),
        vec![plain(Endpoint::List)]
    );
}

#[test]
fn candidates_come_in_order() {
    // "list" is both a container name for `inspect` and the `list` word.
    assert_eq!(
        route_candidates(true, &segs("/container/list/inspect")),
        vec![named(Endpoint::Inspect, "list"), plain(Endpoint::List)]
    );
    // "create" first as itself, then as a container name for `stop`.
    assert_eq!(
        route_candidates(true, &segs("/container/create/stop")),
        vec![plain(Endpoint::Create), named(Endpoint::Stop, "create")]
    );
}

#[test]
fn empty_container_name_is_refused() {
    assert!(route_candidates(true, &segs("/container//inspect")).is_empty());
}

#[test]
fn unknown_action_is_refused() {
    assert!(route_candidates(true, &segs("/container/web1/pause")).is_empty());
    assert!(route_candidates(true, &segs("/container/web1")).is_empty());
}

#[test]
fn bodies() {
    assert_eq!(body_kind(Endpoint::Change), BodyKind::NoBody);
    assert_eq!(body_kind(Endpoint::Create), BodyKind::JsonTwice);
    assert_eq!(body_kind(Endpoint::List), BodyKind::Json);
    assert_eq!(body_kind(Endpoint::Update), BodyKind::Json);
}

#[test]
fn segments_join_back_to_the_path() {
    for path in ["/container/a/b", "/a//b/", "/", "/x", "/héllo/wörld//"].iter() {
        let joined = segs(path).join("/");
        assert_eq!(format!("/{}", joined), *path);
        assert!(segs(path).iter().all(|s| !s.contains('/')));
    }
}

#[test]
fn every_candidate_matches_and_every_match_is_a_candidate() {
    let routes = route_candidates(true, &segs("/container/top/logs"));
    assert_eq!(routes, vec![named(Endpoint::Logs, "top")]);
    let routes = route_candidates(true, &segs("/container/prune/update"));
    assert_eq!(routes, vec![named(Endpoint::Update, "prune"), plain(Endpoint::Prune)]);
}

#[test]
fn refusals() {
    assert_eq!(refused_with(false, &vec![400]), 405);
    assert_eq!(refused_with(true, &vec![]), 404);
    assert_eq!(refused_with(true, &vec![415, 400]), 415);
    assert_eq!(refused_with(true, &vec![400, 500, 415]), 500);
    assert_eq!(refused_with(true, &vec![400]), 400);
}
