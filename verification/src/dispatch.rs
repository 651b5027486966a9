//! Which endpoint serves a request, and with what status a request that
//! none serves is refused.
//!
//! The candidate routes are tried in order. An endpoint without a body
//! serves at once. An endpoint with a JSON body refuses a request whose
//! content type is not JSON (415); the body can be taken only once, so once
//! an earlier endpoint has taken it, every later one refuses (500). The
//! first endpoint that takes the body decodes it: if it decodes, that
//! endpoint serves, except that creation reads a second value from the body
//! that is already gone (500); if it does not decode, it refuses (400). When
//! no endpoint serves, the request is refused with `refused_with`'s status.

use vstd::prelude::*;
use crate::routes::{
    body_kind, body_of, candidates, refusal_status, refused_with, route_candidates, route_views,
    texts, BodyKind, Route, RouteView,
};

verus! {

/// What the caller is to do with a request.
#[derive(Debug, Clone)]
pub enum Dispatched {
    /// Decode the body as this route's endpoint expects, and report whether
    /// that succeeded.
    Decode(Route),
    /// Serve the request with this route (with the body decoded last, if any).
    Serve(Route),
    /// Answer with this HTTP status.
    Refuse(u16),
}

/// A decision as values.
pub enum DispatchedView {
    Decode(RouteView),
    Serve(RouteView),
    Refuse(u16),
}

impl View for Dispatched {
    type V = DispatchedView;

    open spec fn view(&self) -> DispatchedView {
        match self {
            Dispatched::Decode(r) => DispatchedView::Decode(r@),
            Dispatched::Serve(r) => DispatchedView::Serve(r@),
            Dispatched::Refuse(s) => DispatchedView::Refuse(*s),
        }
    }
}

/// Trying the candidates from index `i` on, where `taken` says whether the
/// body is gone and `refusals` holds the statuses of the candidates refused
/// so far: the index reached, the refusals then, and the decision.
pub open spec fn scan(
    cands: Seq<RouteView>,
    i: int,
    taken: bool,
    is_post: bool,
    is_json: bool,
    refusals: Seq<u16>,
) -> (int, Seq<u16>, DispatchedView)
    decreases cands.len() - i,
{
    if i < 0 || i >= cands.len() {
        (i, refusals, DispatchedView::Refuse(refusal_status(is_post, refusals)))
    } else if body_of(cands[i].0) == BodyKind::NoBody {
        (i, refusals, DispatchedView::Serve(cands[i]))
    } else if !is_json {
        scan(cands, i + 1, taken, is_post, is_json, refusals.push(415))
    } else if taken {
        scan(cands, i + 1, taken, is_post, is_json, refusals.push(500))
    } else {
        (i, refusals, DispatchedView::Decode(cands[i]))
    }
}

/// After candidate `i` took the body and it decoded (`ok`) or not.
pub open spec fn after_decode(
    cands: Seq<RouteView>,
    i: int,
    is_post: bool,
    is_json: bool,
    refusals: Seq<u16>,
    ok: bool,
) -> (int, Seq<u16>, DispatchedView) {
    if ok && body_of(cands[i].0) == BodyKind::Json {
        (i, refusals, DispatchedView::Serve(cands[i]))
    } else {
        scan(cands, i + 1, true, is_post, is_json, refusals.push(if ok { 500u16 } else { 400u16 }))
    }
}

/// The state of a dispatch as values.
pub struct DispatchView {
    pub candidates: Seq<RouteView>,
    pub index: int,
    pub is_post: bool,
    pub is_json: bool,
    pub refusals: Seq<u16>,
    pub decoding: bool,
}

/// Candidates are tried in order, each refused one adding one status, and
/// the decision falls on the first that is not refused: it serves at once if
/// it takes no body, else it takes and decodes the body, which happens only
/// while the body is still there and of JSON type; when every candidate is
/// refused, the status is `refusal_status` of all the refusals.
pub proof fn dispatch_tries_candidates_in_order(
    cands: Seq<RouteView>,
    i: int,
    taken: bool,
    is_post: bool,
    is_json: bool,
    refusals: Seq<u16>,
)
    requires
        0 <= i <= cands.len(),
    ensures
        ({
            let (j, refs, a) = scan(cands, i, taken, is_post, is_json, refusals);
            &&& i <= j <= cands.len()
            &&& refs.len() == refusals.len() + (j - i)
            &&& refs.take(refusals.len() as int) == refusals
            &&& (a matches DispatchedView::Serve(r) ==> j < cands.len() && r == cands[j] && body_of(
                r.0,
            ) == BodyKind::NoBody)
            &&& (a matches DispatchedView::Decode(r) ==> j < cands.len() && r == cands[j] && body_of(
                r.0,
            ) != BodyKind::NoBody && is_json && !taken)
            &&& (a matches DispatchedView::Refuse(s) ==> j == cands.len() && s == refusal_status(
                is_post,
                refs,
            ))
        }),
    decreases cands.len() - i,
{
    if i < cands.len() && body_of(cands[i].0) != BodyKind::NoBody && (!is_json || taken) {
        let code: u16 = if !is_json { 415 } else { 500 };
        dispatch_tries_candidates_in_order(cands, i + 1, taken, is_post, is_json, refusals.push(code));
        let refs = scan(cands, i, taken, is_post, is_json, refusals).1;
        assert(refs.take((refusals.len() + 1) as int).take(refusals.len() as int) == refs.take(
            refusals.len() as int,
        ));
        assert(refusals.push(code).take(refusals.len() as int) == refusals);
    } else {
        assert(refusals.take(refusals.len() as int) == refusals);
    }
}

/// The body is taken at most once: after an endpoint decoded it, no other
/// endpoint is asked to decode.
pub proof fn dispatch_reads_body_once(
    cands: Seq<RouteView>,
    i: int,
    is_post: bool,
    is_json: bool,
    refusals: Seq<u16>,
    ok: bool,
)
    requires
        0 <= i < cands.len(),
    ensures
        !(after_decode(cands, i, is_post, is_json, refusals, ok).2 is Decode),
{
    if !(ok && body_of(cands[i].0) == BodyKind::Json) {
        let code: u16 = if ok { 500 } else { 400 };
        dispatch_tries_candidates_in_order(cands, i + 1, true, is_post, is_json, refusals.push(code));
    }
}

/// A candidate whose JSON body decoded serves the request, whatever the
/// endpoint, named or not, and whatever was refused before it.
pub proof fn dispatch_serves_decoded_json(
    cands: Seq<RouteView>,
    i: int,
    is_post: bool,
    is_json: bool,
    refusals: Seq<u16>,
)
    requires
        0 <= i < cands.len(),
        body_of(cands[i].0) == BodyKind::Json,
    ensures
        after_decode(cands, i, is_post, is_json, refusals, true) == (
            i,
            refusals,
            DispatchedView::Serve(cands[i]),
        ),
{
}

/// A candidate whose body did not decode is refused with 400, and no later
/// candidate decodes the body again.
pub proof fn dispatch_refuses_undecodable_body(
    cands: Seq<RouteView>,
    i: int,
    is_post: bool,
    is_json: bool,
    refusals: Seq<u16>,
)
    requires
        0 <= i < cands.len(),
    ensures
        ({
            let (j, refs, a) = after_decode(cands, i, is_post, is_json, refusals, false);
            &&& refs.len() > refusals.len() && refs[refusals.len() as int] == 400
            &&& refs.take(refusals.len() as int) == refusals
            &&& !(a is Decode)
            &&& (a matches DispatchedView::Serve(r) ==> body_of(r.0) == BodyKind::NoBody)
        }),
{
    dispatch_tries_candidates_in_order(cands, i + 1, true, is_post, is_json, refusals.push(400));
    let refs = after_decode(cands, i, is_post, is_json, refusals, false).1;
    assert(refs.take((refusals.len() + 1) as int).take(refusals.len() as int) == refs.take(
        refusals.len() as int,
    ));
    assert(refusals.push(400).take(refusals.len() as int) == refusals);
    assert(refs[refusals.len() as int] == refs.take((refusals.len() + 1) as int)[refusals.len() as int]);
}

/// An endpoint that reads no body serves at once when its turn comes,
/// whatever the content type and whether the body is already taken.
pub proof fn dispatch_serves_bodiless_at_once(
    cands: Seq<RouteView>,
    i: int,
    taken: bool,
    is_post: bool,
    is_json: bool,
    refusals: Seq<u16>,
)
    requires
        0 <= i < cands.len(),
        body_of(cands[i].0) == BodyKind::NoBody,
    ensures
        scan(cands, i, taken, is_post, is_json, refusals) == (
            i,
            refusals,
            DispatchedView::Serve(cands[i]),
        ),
{
}

/// An endpoint with a JSON body refuses a request of another content type
/// with 415, and one whose body an earlier endpoint took with 500; when the
/// body is there and of JSON type, it is asked to decode it.
pub proof fn dispatch_json_endpoint_turn(
    cands: Seq<RouteView>,
    i: int,
    taken: bool,
    is_post: bool,
    is_json: bool,
    refusals: Seq<u16>,
)
    requires
        0 <= i < cands.len(),
        body_of(cands[i].0) != BodyKind::NoBody,
    ensures
        !is_json ==> scan(cands, i, taken, is_post, is_json, refusals) == scan(
            cands,
            i + 1,
            taken,
            is_post,
            is_json,
            refusals.push(415),
        ),
        is_json && taken ==> scan(cands, i, taken, is_post, is_json, refusals) == scan(
            cands,
            i + 1,
            taken,
            is_post,
            is_json,
            refusals.push(500),
        ),
        is_json && !taken ==> scan(cands, i, taken, is_post, is_json, refusals) == (
            i,
            refusals,
            DispatchedView::Decode(cands[i]),
        ),
{
}

/// Choosing the endpoint that serves a request.
pub struct Dispatch {
    candidates: Vec<Route>,
    index: usize,
    is_post: bool,
    is_json: bool,
    refusals: Vec<u16>,
    decoding: bool,
}

impl View for Dispatch {
    type V = DispatchView;

    closed spec fn view(&self) -> DispatchView {
        DispatchView {
            candidates: route_views(self.candidates@),
            index: self.index as int,
            is_post: self.is_post,
            is_json: self.is_json,
            refusals: self.refusals@,
            decoding: self.decoding,
        }
    }
}

fn copy_route(r: &Route) -> (c: Route)
    ensures
        c@ == r@,
{
    Route {
        endpoint: r.endpoint,
        name: match &r.name {
            Some(n) => Some(n.clone()),
            None => None,
        },
    }
}

impl Dispatch {
    /// Whether a decision is awaiting the outcome of decoding the body.
    pub closed spec fn well_formed(&self) -> bool {
        &&& self.index <= self.candidates.len()
        &&& self.decoding ==> self.index < self.candidates.len()
    }

    fn scan_from(&mut self, taken: bool) -> (a: Dispatched)
        requires
            old(self).index <= old(self).candidates.len(),
        ensures
            (final(self)@.index, final(self)@.refusals, a@) == scan(
                old(self)@.candidates,
                old(self)@.index,
                taken,
                old(self)@.is_post,
                old(self)@.is_json,
                old(self)@.refusals,
            ),
            final(self)@.candidates == old(self)@.candidates,
            final(self)@.is_post == old(self)@.is_post,
            final(self)@.is_json == old(self)@.is_json,
            final(self)@.decoding == (a is Decode),
            final(self).well_formed(),
    {
        let ghost target = scan(
            self@.candidates,
            self@.index,
            taken,
            self@.is_post,
            self@.is_json,
            self@.refusals,
        );
        let ghost cands = self@.candidates;
        while self.index < self.candidates.len()
            invariant
                self.index <= self.candidates.len(),
                self@.candidates == cands,
                cands == old(self)@.candidates,
                target == scan(
                    old(self)@.candidates,
                    old(self)@.index,
                    taken,
                    old(self)@.is_post,
                    old(self)@.is_json,
                    old(self)@.refusals,
                ),
                self@.is_post == old(self)@.is_post,
                self@.is_json == old(self)@.is_json,
                scan(cands, self@.index, taken, self@.is_post, self@.is_json, self@.refusals)
                    == target,
            decreases self.candidates.len() - self.index,
        {
            let i = self.index;
            assert(cands[i as int] == self.candidates@[i as int]@);
            let kind = body_kind(self.candidates[i].endpoint);
            if kind == BodyKind::NoBody {
                self.decoding = false;
                return Dispatched::Serve(copy_route(&self.candidates[i]));
            } else if !self.is_json {
                self.refusals.push(415);
            } else if taken {
                self.refusals.push(500);
            } else {
                self.decoding = true;
                return Dispatched::Decode(copy_route(&self.candidates[i]));
            }
            self.index = i + 1;
        }
        self.decoding = false;
        Dispatched::Refuse(refused_with(self.is_post, &self.refusals))
    }

    /// Starts choosing among the routes that a request with these path
    /// segments may reach; `is_json` says whether its content type is JSON
    /// or absent.
    pub fn new(is_post: bool, is_json: bool, segments: &Vec<String>) -> (r: (Dispatch, Dispatched))
        ensures
            r.0.well_formed(),
            ({
                let cands = candidates(is_post, texts(segments@));
                let (j, refs, a) = scan(cands, 0, false, is_post, is_json, Seq::empty());
                &&& r.1@ == a
                &&& r.0@ == DispatchView {
                    candidates: cands,
                    index: j,
                    is_post,
                    is_json,
                    refusals: refs,
                    decoding: a is Decode,
                }
            }),
    {
        let mut d = Dispatch {
            candidates: route_candidates(is_post, segments),
            index: 0,
            is_post,
            is_json,
            refusals: Vec::new(),
            decoding: false,
        };
        assert(d.refusals@ == Seq::<u16>::empty());
        let a = d.scan_from(false);
        (d, a)
    }

    /// Takes whether the body decoded for the route last given to decode,
    /// and returns the next decision.
    pub fn decoded(&mut self, ok: bool) -> (a: Dispatched)
        requires
            old(self).well_formed(),
            old(self)@.decoding,
        ensures
            final(self).well_formed(),
            ({
                let (j, refs, b) = after_decode(
                    old(self)@.candidates,
                    old(self)@.index,
                    old(self)@.is_post,
                    old(self)@.is_json,
                    old(self)@.refusals,
                    ok,
                );
                &&& a@ == b
                &&& final(self)@ == DispatchView {
                    index: j,
                    refusals: refs,
                    decoding: b is Decode,
                    ..old(self)@
                }
            }),
    {
        let i = self.index;
        assert(self@.candidates[i as int] == self.candidates@[i as int]@);
        let kind = body_kind(self.candidates[i].endpoint);
        if ok && kind == BodyKind::Json {
            self.decoding = false;
            return Dispatched::Serve(copy_route(&self.candidates[i]));
        }
        let code: u16 = if ok { 500 } else { 400 };
        self.refusals.push(code);
        self.index = i + 1;
        self.scan_from(true)
    }

    /// Whether the last decision asked to decode the body.
    pub fn is_decoding(&self) -> (b: bool)
        ensures
            b == self@.decoding,
    {
        self.decoding
    }
}

} // verus!
