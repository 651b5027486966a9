//! The HTTP routes of the gateway: how a request path is cut into segments,
//! and which endpoints a `POST` to a path may reach, in the order in which
//! they are tried.
//!
//! Every endpoint lives under `/container`. Endpoints that act on one
//! container take its name as the segment before the action word
//! (`/container/{name}/inspect`); the others are a single word
//! (`/container/list`). A pattern matches a prefix of the path: segments
//! after it are not looked at.

use vstd::prelude::*;

verus! {

/// The endpoints, each served by one handler.
#[derive(Debug, Clone, Copy, PartialEq, Eq, Structural)]
pub enum Endpoint {
    Inspect,
    Create,
    Change,
    Logs,
    Stats,
    Stop,
    Start,
    Kill,
    Restart,
    Top,
    Remove,
    Update,
    List,
    Prune,
}

/// What an endpoint reads from the request body.
#[derive(Debug, Clone, Copy, PartialEq, Eq, Structural)]
pub enum BodyKind {
    /// Nothing.
    NoBody,
    /// One JSON value.
    Json,
    /// A JSON value, then a second one from the same body.
    JsonTwice,
}

/// An endpoint that a path matches, with the container name taken from the
/// path where the endpoint takes one.
#[derive(Debug, Clone, PartialEq, Eq)]
pub struct Route {
    pub endpoint: Endpoint,
    pub name: Option<String>,
}

/// A route as mathematical values.
pub type RouteView = (Endpoint, Option<Seq<char>>);

impl View for Route {
    type V = RouteView;

    open spec fn view(&self) -> RouteView {
        (
            self.endpoint,
            match self.name {
                Some(n) => Some(n@),
                None => None,
            },
        )
    }
}

/// The order in which the endpoints are tried.
pub open spec fn endpoint_order() -> Seq<Endpoint> {
    seq![
        Endpoint::Inspect,
        Endpoint::Create,
        Endpoint::Change,
        Endpoint::Logs,
        Endpoint::Stats,
        Endpoint::Stop,
        Endpoint::Start,
        Endpoint::Kill,
        Endpoint::Restart,
        Endpoint::Top,
        Endpoint::Remove,
        Endpoint::Update,
        Endpoint::List,
        Endpoint::Prune,
    ]
}

/// The word that names an endpoint's action in the path.
pub open spec fn action_word(e: Endpoint) -> Seq<char> {
    match e {
        Endpoint::Inspect => "inspect"@,
        Endpoint::Create => "create"@,
        Endpoint::Change => "change"@,
        Endpoint::Logs => "logs"@,
        Endpoint::Stats => "stats"@,
        Endpoint::Stop => "stop"@,
        Endpoint::Start => "start"@,
        Endpoint::Kill => "kill"@,
        Endpoint::Restart => "restart"@,
        Endpoint::Top => "top"@,
        Endpoint::Remove => "remove"@,
        Endpoint::Update => "update"@,
        Endpoint::List => "list"@,
        Endpoint::Prune => "prune"@,
    }
}

/// Whether an endpoint acts on one named container.
pub open spec fn takes_name(e: Endpoint) -> bool {
    !(e is Create || e is List || e is Prune)
}

/// What an endpoint reads from the body.
pub open spec fn body_of(e: Endpoint) -> BodyKind {
    match e {
        Endpoint::Change => BodyKind::NoBody,
        Endpoint::Create => BodyKind::JsonTwice,
        _ => BodyKind::Json,
    }
}

/// The segment that every path starts with.
pub open spec fn root_word() -> Seq<char> {
    "container"@
}

/// Whether endpoint `e` matches the segments that follow `container`, and
/// the container name it takes from them.
pub open spec fn match_endpoint(e: Endpoint, rest: Seq<Seq<char>>) -> Option<Option<Seq<char>>> {
    if takes_name(e) {
        if rest.len() >= 2 && rest[0].len() > 0 && rest[1] == action_word(e) {
            Some(Some(rest[0]))
        } else {
            None
        }
    } else {
        if rest.len() >= 1 && rest[0] == action_word(e) {
            Some(None)
        } else {
            None
        }
    }
}

/// The routes among `es` that match `rest`, in the order of `es`.
pub open spec fn matching(es: Seq<Endpoint>, rest: Seq<Seq<char>>) -> Seq<RouteView>
    decreases es.len(),
{
    if es.len() == 0 {
        Seq::empty()
    } else {
        let before = matching(es.drop_last(), rest);
        match match_endpoint(es.last(), rest) {
            Some(name) => before.push((es.last(), name)),
            None => before,
        }
    }
}

/// The routes that a request may reach, in the order in which they are tried:
/// none unless it is a `POST` whose path starts with `container`.
pub open spec fn candidates(is_post: bool, segments: Seq<Seq<char>>) -> Seq<RouteView> {
    if is_post && segments.len() >= 1 && segments[0] == root_word() {
        matching(endpoint_order(), segments.skip(1))
    } else {
        Seq::empty()
    }
}

/// The segments of a path: split at every `/`, empty pieces included.
pub open spec fn split_at_slashes(s: Seq<char>) -> Seq<Seq<char>>
    decreases s.len(),
{
    if s.len() == 0 {
        seq![Seq::empty()]
    } else {
        let before = split_at_slashes(s.drop_last());
        if s.last() == '/' {
            before.push(Seq::empty())
        } else {
            before.update(before.len() - 1, before.last().push(s.last()))
        }
    }
}

/// The segments of a request path, after its leading `/`.
pub open spec fn segments_of(path: Seq<char>) -> Seq<Seq<char>> {
    if path.len() > 0 && path[0] == '/' {
        split_at_slashes(path.skip(1))
    } else {
        split_at_slashes(path)
    }
}

/// The text of each string in a sequence.
pub open spec fn texts(v: Seq<String>) -> Seq<Seq<char>> {
    v.map_values(|s: String| s@)
}

/// The routes of a sequence, as values.
pub open spec fn route_views(v: Seq<Route>) -> Seq<RouteView> {
    v.map_values(|r: Route| r@)
}

proof fn lemma_split_nonempty(s: Seq<char>)
    ensures
        split_at_slashes(s).len() >= 1,
    decreases s.len(),
{
    if s.len() > 0 {
        lemma_split_nonempty(s.drop_last());
    }
}

/// The segments joined back together with `/` between them.
pub open spec fn join_with_slashes(segments: Seq<Seq<char>>) -> Seq<char>
    decreases segments.len(),
{
    if segments.len() <= 1 {
        if segments.len() == 1 { segments[0] } else { Seq::empty() }
    } else {
        join_with_slashes(segments.drop_last()) + seq!['/'] + segments.last()
    }
}

/// Splitting at slashes loses nothing: joining the segments with `/` gives
/// the text back, and no segment holds a `/`.
pub proof fn split_then_join(s: Seq<char>)
    ensures
        split_at_slashes(s).len() >= 1,
        join_with_slashes(split_at_slashes(s)) == s,
        forall|i: int, j: int|
            0 <= i < split_at_slashes(s).len() && 0 <= j < split_at_slashes(s)[i].len()
                ==> split_at_slashes(s)[i][j] != '/',
    decreases s.len(),
{
    if s.len() == 0 {
        assert(join_with_slashes(seq![Seq::<char>::empty()]) == Seq::<char>::empty());
    } else {
        let t = s.drop_last();
        let c = s.last();
        split_then_join(t);
        let p = split_at_slashes(t);
        assert(s == t.push(c));
        if c == '/' {
            let q = p.push(Seq::<char>::empty());
            assert(q.drop_last() == p);
            assert(join_with_slashes(q) == s);
        } else {
            let q = p.update(p.len() - 1, p.last().push(c));
            if p.len() == 1 {
                assert(join_with_slashes(q) == q[0]);
                assert(q[0] == s);
            } else {
                assert(q.drop_last() == p.drop_last());
                assert(join_with_slashes(p) == join_with_slashes(p.drop_last()) + seq!['/']
                    + p.last());
                assert(join_with_slashes(q) == join_with_slashes(p.drop_last()) + seq!['/']
                    + p.last().push(c));
                assert(join_with_slashes(q) == s);
            }
            assert forall|i: int, j: int|
                0 <= i < q.len() && 0 <= j < q[i].len() implies q[i][j] != '/' by {
                if i == q.len() - 1 && j == q[i].len() - 1 {
                } else if i == q.len() - 1 {
                    assert(q[i][j] == p.last()[j]);
                }
            }
        }
    }
}

proof fn lemma_matching(es: Seq<Endpoint>, rest: Seq<Seq<char>>)
    ensures
        forall|i: int| 0 <= i < matching(es, rest).len() ==> {
            &&& es.contains(#[trigger] matching(es, rest)[i].0)
            &&& match_endpoint(matching(es, rest)[i].0, rest) == Some(matching(es, rest)[i].1)
        },
        forall|e: Endpoint| es.contains(e) && #[trigger] match_endpoint(e, rest) is Some
            ==> exists|i: int| 0 <= i < matching(es, rest).len() && #[trigger] matching(es, rest)[i].0 == e,
    decreases es.len(),
{
    if es.len() > 0 {
        let init = es.drop_last();
        lemma_matching(init, rest);
        let m = matching(es, rest);
        let before = matching(init, rest);
        assert forall|i: int| 0 <= i < m.len() implies {
            &&& es.contains(#[trigger] m[i].0)
            &&& match_endpoint(m[i].0, rest) == Some(m[i].1)
        } by {
            if i < before.len() {
                assert(m[i] == before[i]);
                let k = choose|k: int| 0 <= k < init.len() && init[k] == before[i].0;
                assert(es[k] == init[k]);
            } else {
                assert(es[es.len() - 1] == es.last());
            }
        }
        assert forall|e: Endpoint| es.contains(e) && #[trigger] match_endpoint(e, rest) is Some
            implies exists|i: int| 0 <= i < m.len() && #[trigger] m[i].0 == e by {
            let k = choose|k: int| 0 <= k < es.len() && es[k] == e;
            if k < es.len() - 1 {
                assert(init[k] == e);
                assert(init.contains(e));
                let i = choose|i: int| 0 <= i < before.len() && #[trigger] before[i].0 == e;
                assert(m[i] == before[i]);
            } else {
                assert(m[m.len() - 1].0 == e);
            }
        }
    }
}

/// The routes a request may reach are exactly the endpoints whose pattern
/// matches the path under `container`, each with the name taken from the
/// path, and only for a `POST`.
pub proof fn candidates_are_the_matches(is_post: bool, segments: Seq<Seq<char>>)
    ensures
        candidates(is_post, segments).len() > 0 ==> is_post && segments.len() >= 1 && segments[0]
            == root_word(),
        forall|i: int| 0 <= i < candidates(is_post, segments).len() ==> match_endpoint(
            (#[trigger] candidates(is_post, segments)[i]).0,
            segments.skip(1),
        ) == Some(candidates(is_post, segments)[i].1),
        is_post && segments.len() >= 1 && segments[0] == root_word() ==> forall|e: Endpoint|
            #[trigger] match_endpoint(e, segments.skip(1)) is Some ==> exists|i: int|
                0 <= i < candidates(is_post, segments).len() && candidates(is_post, segments)[i].0
                    == e,
{
    lemma_matching(endpoint_order(), segments.skip(1));
    assert forall|e: Endpoint| #[trigger] endpoint_order().contains(e) by {
        match e {
            Endpoint::Inspect => assert(endpoint_order()[0] == e),
            Endpoint::Create => assert(endpoint_order()[1] == e),
            Endpoint::Change => assert(endpoint_order()[2] == e),
            Endpoint::Logs => assert(endpoint_order()[3] == e),
            Endpoint::Stats => assert(endpoint_order()[4] == e),
            Endpoint::Stop => assert(endpoint_order()[5] == e),
            Endpoint::Start => assert(endpoint_order()[6] == e),
            Endpoint::Kill => assert(endpoint_order()[7] == e),
            Endpoint::Restart => assert(endpoint_order()[8] == e),
            Endpoint::Top => assert(endpoint_order()[9] == e),
            Endpoint::Remove => assert(endpoint_order()[10] == e),
            Endpoint::Update => assert(endpoint_order()[11] == e),
            Endpoint::List => assert(endpoint_order()[12] == e),
            Endpoint::Prune => assert(endpoint_order()[13] == e),
        }
    }
}

/// Only changing a container reads no body, and only creating one reads two
/// values from the body; every other endpoint reads one JSON value.
pub proof fn endpoint_bodies(e: Endpoint)
    ensures
        (body_of(e) == BodyKind::NoBody) <==> (e == Endpoint::Change),
        (body_of(e) == BodyKind::JsonTwice) <==> (e == Endpoint::Create),
        (e != Endpoint::Change && e != Endpoint::Create) ==> body_of(e) == BodyKind::Json,
{
}

/// Only creating, listing and pruning take no container name; every other
/// endpoint acts on one named container.
pub proof fn endpoint_names(e: Endpoint)
    ensures
        !takes_name(e) <==> (e == Endpoint::Create || e == Endpoint::List || e == Endpoint::Prune),
{
}

/// The word of each endpoint in the path.
pub proof fn endpoint_words()
    ensures
        action_word(Endpoint::Inspect) == "inspect"@,
        action_word(Endpoint::Create) == "create"@,
        action_word(Endpoint::Change) == "change"@,
        action_word(Endpoint::Logs) == "logs"@,
        action_word(Endpoint::Stats) == "stats"@,
        action_word(Endpoint::Stop) == "stop"@,
        action_word(Endpoint::Start) == "start"@,
        action_word(Endpoint::Kill) == "kill"@,
        action_word(Endpoint::Restart) == "restart"@,
        action_word(Endpoint::Top) == "top"@,
        action_word(Endpoint::Remove) == "remove"@,
        action_word(Endpoint::Update) == "update"@,
        action_word(Endpoint::List) == "list"@,
        action_word(Endpoint::Prune) == "prune"@,
        root_word() == "container"@,
{
}

/// A named endpoint matches any non-empty container name followed by its
/// word, whatever follows, and takes that name; nothing else about the name
/// matters. An endpoint without a name matches its word, whatever follows.
pub proof fn endpoints_match_by_word(e: Endpoint, name: Seq<char>, rest: Seq<Seq<char>>)
    ensures
        takes_name(e) && name.len() > 0 ==> match_endpoint(e, seq![name, action_word(e)] + rest)
            == Some(Some(name)),
        takes_name(e) && name.len() == 0 ==> match_endpoint(e, seq![name, action_word(e)] + rest)
            is None,
        !takes_name(e) ==> match_endpoint(e, seq![action_word(e)] + rest) == Some(
            None::<Seq<char>>,
        ),
{
    let s = seq![name, action_word(e)] + rest;
    assert(s[0] == name && s[1] == action_word(e));
    let t = seq![action_word(e)] + rest;
    assert(t[0] == action_word(e));
}

/// The order in which endpoints are tried: the endpoints acting on a named
/// container (inspect first, then after creation change, logs, stats, stop,
/// start, kill, restart, top, remove, update), then list and prune.
pub proof fn endpoint_order_is_fixed()
    ensures
        endpoint_order() == seq![
            Endpoint::Inspect,
            Endpoint::Create,
            Endpoint::Change,
            Endpoint::Logs,
            Endpoint::Stats,
            Endpoint::Stop,
            Endpoint::Start,
            Endpoint::Kill,
            Endpoint::Restart,
            Endpoint::Top,
            Endpoint::Remove,
            Endpoint::Update,
            Endpoint::List,
            Endpoint::Prune,
        ],
{
}

/// A request that is not a `POST` is refused with 405, and a `POST` that no
/// endpoint's path matched with 404.
pub proof fn refusals_without_candidates(refusals: Seq<u16>)
    ensures
        refusal_status(false, refusals) == 405,
        refusal_status(true, Seq::empty()) == 404,
{
}

/// The action word of an endpoint, as a string.
pub fn action_word_of(e: Endpoint) -> (w: String)
    ensures
        w@ == action_word(e),
{
    match e {
        Endpoint::Inspect => String::from_str("inspect"),
        Endpoint::Create => String::from_str("create"),
        Endpoint::Change => String::from_str("change"),
        Endpoint::Logs => String::from_str("logs"),
        Endpoint::Stats => String::from_str("stats"),
        Endpoint::Stop => String::from_str("stop"),
        Endpoint::Start => String::from_str("start"),
        Endpoint::Kill => String::from_str("kill"),
        Endpoint::Restart => String::from_str("restart"),
        Endpoint::Top => String::from_str("top"),
        Endpoint::Remove => String::from_str("remove"),
        Endpoint::Update => String::from_str("update"),
        Endpoint::List => String::from_str("list"),
        Endpoint::Prune => String::from_str("prune"),
    }
}

/// Whether the endpoint takes a container name from the path.
pub fn endpoint_takes_name(e: Endpoint) -> (b: bool)
    ensures
        b == takes_name(e),
{
    match e {
        Endpoint::Create | Endpoint::List | Endpoint::Prune => false,
        _ => true,
    }
}

/// What the endpoint reads from the request body.
pub fn body_kind(e: Endpoint) -> (k: BodyKind)
    ensures
        k == body_of(e),
{
    match e {
        Endpoint::Change => BodyKind::NoBody,
        Endpoint::Create => BodyKind::JsonTwice,
        _ => BodyKind::Json,
    }
}

/// The endpoints in the order in which they are tried.
pub fn endpoints_in_order() -> (v: Vec<Endpoint>)
    ensures
        v@ == endpoint_order(),
{
    vec![
        Endpoint::Inspect,
        Endpoint::Create,
        Endpoint::Change,
        Endpoint::Logs,
        Endpoint::Stats,
        Endpoint::Stop,
        Endpoint::Start,
        Endpoint::Kill,
        Endpoint::Restart,
        Endpoint::Top,
        Endpoint::Remove,
        Endpoint::Update,
        Endpoint::List,
        Endpoint::Prune,
    ]
}

/// Whether endpoint `e` matches the segments of `segments` from index 1 on,
/// and the container name it takes.
fn match_at(e: Endpoint, segments: &Vec<String>) -> (r: Option<Option<String>>)
    requires
        segments.len() >= 1,
    ensures
        match (r, match_endpoint(e, texts(segments@).skip(1))) {
            (Some(Some(n)), Some(Some(m))) => n@ == m,
            (Some(None), Some(None)) => true,
            (None, None) => true,
            _ => false,
        },
{
    let ghost rest = texts(segments@).skip(1);
    let word = action_word_of(e);
    if endpoint_takes_name(e) {
        if segments.len() >= 3 {
            assert(rest[0] == segments@[1]@ && rest[1] == segments@[2]@);
            if !segments[1].as_str().is_empty() && segments[2] == word {
                return Some(Some(segments[1].clone()));
            }
        }
        None
    } else {
        if segments.len() >= 2 {
            assert(rest[0] == segments@[1]@);
            if segments[1] == word {
                return Some(None);
            }
        }
        None
    }
}

/// The routes that a request with these path segments may reach, in the
/// order in which they are tried; empty unless the request is a `POST`
/// under `container`.
pub fn route_candidates(is_post: bool, segments: &Vec<String>) -> (routes: Vec<Route>)
    ensures
        route_views(routes@) == candidates(is_post, texts(segments@)),
{
    let mut routes: Vec<Route> = Vec::new();
    if !is_post || segments.len() == 0 {
        return routes;
    }
    let root = String::from_str("container");
    if !(segments[0] == root) {
        return routes;
    }
    let ghost rest = texts(segments@).skip(1);
    let order = endpoints_in_order();
    let mut i: usize = 0;
    while i < order.len()
        invariant
            segments.len() >= 1,
            order@ == endpoint_order(),
            0 <= i <= order.len(),
            rest == texts(segments@).skip(1),
            route_views(routes@) == matching(order@.take(i as int), rest),
        decreases order.len() - i,
    {
        let e = order[i];
        assert(order@.take(i + 1).drop_last() == order@.take(i as int));
        assert(order@.take(i + 1).last() == e);
        match match_at(e, segments) {
            Some(name) => {
                let ghost before = routes@;
                routes.push(Route { endpoint: e, name });
                assert(route_views(routes@) == route_views(before).push(routes@.last()@));
            },
            None => {},
        }
        i = i + 1;
    }
    assert(order@.take(order.len() as int) == order@);
    routes
}

/// The segments of a request path as the router sees them: the leading `/`
/// is dropped and the rest is split at every `/`, keeping empty segments.
pub fn path_segments(path: &str) -> (segments: Vec<String>)
    ensures
        texts(segments@) == segments_of(path@),
{
    let n = path.unicode_len();
    let off: usize = if n > 0 && path.get_char(0) == '/' { 1 } else { 0 };
    let ghost body = path@.skip(off as int);
    let mut segments: Vec<String> = Vec::new();
    let mut start: usize = off;
    let mut i: usize = off;
    assert(path@.subrange(off as int, off as int) == Seq::<char>::empty());
    while i < n
        invariant
            n == path@.len(),
            off <= start <= i <= n,
            body == path@.skip(off as int),
            texts(segments@).push(path@.subrange(start as int, i as int))
                == split_at_slashes(path@.subrange(off as int, i as int)),
        decreases n - i,
    {
        let c = path.get_char(i);
        let ghost prefix = path@.subrange(off as int, i as int);
        let ghost next = path@.subrange(off as int, i + 1);
        assert(next.drop_last() == prefix);
        assert(next.last() == c);
        proof {
            lemma_split_nonempty(prefix);
        }
        if c == '/' {
            let piece = String::from_str(path.substring_char(start, i));
            let ghost before = texts(segments@);
            segments.push(piece);
            assert(texts(segments@) == before.push(piece@));
            start = i + 1;
            assert(path@.subrange(start as int, start as int) == Seq::<char>::empty());
        } else {
            assert(path@.subrange(start as int, i + 1) == path@.subrange(start as int, i as int).push(c));
        }
        i = i + 1;
    }
    let last = String::from_str(path.substring_char(start, n));
    let ghost before = texts(segments@);
    segments.push(last);
    assert(texts(segments@) == before.push(last@));
    assert(path@.subrange(off as int, n as int) == path@.skip(off as int));
    if off == 0 {
        assert(path@.skip(0) == path@);
    }
    segments
}

/// The HTTP status of a request that no endpoint served: 405 for a method
/// other than `POST`, 404 when no endpoint's path matched, else the highest
/// of the statuses the matching endpoints refused it with.
pub open spec fn refusal_status(is_post: bool, refusals: Seq<u16>) -> u16 {
    if !is_post {
        405
    } else if refusals.len() == 0 {
        404
    } else {
        highest(refusals)
    }
}

/// The highest status of a non-empty sequence.
pub open spec fn highest(s: Seq<u16>) -> u16
    decreases s.len(),
{
    if s.len() <= 1 {
        s[0]
    } else {
        let before = highest(s.drop_last());
        if s.last() > before {
            s.last()
        } else {
            before
        }
    }
}

/// The status a refused `POST` is answered with is one of the refusals,
/// and none is higher.
pub proof fn refusal_is_the_highest(refusals: Seq<u16>)
    requires
        refusals.len() > 0,
    ensures
        refusals.contains(refusal_status(true, refusals)),
        forall|i: int| 0 <= i < refusals.len() ==> #[trigger] refusals[i] <= refusal_status(
            true,
            refusals,
        ),
    decreases refusals.len(),
{
    if refusals.len() == 1 {
        assert(refusals[0] == highest(refusals));
    } else {
        let init = refusals.drop_last();
        refusal_is_the_highest(init);
        let h = highest(init);
        assert(init.contains(h));
        let k = choose|k: int| 0 <= k < init.len() && init[k] == h;
        assert(refusals[k] == h);
        assert(refusals[refusals.len() - 1] == refusals.last());
        assert forall|i: int| 0 <= i < refusals.len() implies #[trigger] refusals[i] <= refusal_status(
            true,
            refusals,
        ) by {
            if i < refusals.len() - 1 {
                assert(refusals[i] == init[i]);
            }
        }
    }
}

/// The status to answer a request with when no endpoint served it; see
/// `refusal_status`.
pub fn refused_with(is_post: bool, refusals: &Vec<u16>) -> (status: u16)
    ensures
        status == refusal_status(is_post, refusals@),
{
    if !is_post {
        return 405;
    }
    if refusals.len() == 0 {
        return 404;
    }
    let mut best = refusals[0];
    let mut i: usize = 1;
    assert(refusals@.take(1) == seq![refusals@[0]]);
    while i < refusals.len()
        invariant
            1 <= i <= refusals.len(),
            best == highest(refusals@.take(i as int)),
        decreases refusals.len() - i,
    {
        assert(refusals@.take(i + 1).drop_last() == refusals@.take(i as int));
        assert(refusals@.take(i + 1).last() == refusals@[i as int]);
        if refusals[i] > best {
            best = refusals[i];
        }
        i = i + 1;
    }
    assert(refusals@.take(refusals.len() as int) == refusals@);
    best
}

} // verus!
