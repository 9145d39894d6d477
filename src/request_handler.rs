use vstd::prelude::*;

use crate::receiver_api::RithmicResponse;

verus! {

/// Template ids of replies that come in several parts: show orders, show
/// brackets, show bracket stops, product codes, symbol search, time bar replay
/// and tick bar replay.
pub open spec fn is_multi_part_template(template_id: i32) -> bool {
    template_id == 321 || template_id == 339 || template_id == 341 || template_id == 112
        || template_id == 110 || template_id == 203 || template_id == 207
}

/// A reply ends its request: a single-part reply always, a part of a
/// multi-part reply when it carries an `rp_code`.
pub open spec fn is_terminal(r: RithmicResponse) -> bool {
    !is_multi_part_template(r.template_id) || r.rp_code is Some
}

/// A request in flight: its correlation tag and the parts received so far.
pub struct RithmicRequest {
    pub request_id: String,
    pub responses: Vec<RithmicResponse>,
}

/// The mathematical value of a request in flight.
pub struct RequestView {
    pub request_id: Seq<char>,
    pub responses: Seq<RithmicResponse>,
}

/// No two requests share a tag.
pub open spec fn distinct_tags(q: Seq<RequestView>) -> bool {
    forall|i: int, j: int|
        #![trigger q[i], q[j]]
        0 <= i < j < q.len() ==> q[i].request_id != q[j].request_id
}

/// A request with this tag is among `q`.
pub open spec fn has_tag(q: Seq<RequestView>, tag: Seq<char>) -> bool {
    exists|i: int| 0 <= i < q.len() && q[i].request_id == tag
}

/// The position in `q` of the request with this tag.
pub open spec fn tag_index(q: Seq<RequestView>, tag: Seq<char>) -> int {
    choose|i: int| 0 <= i < q.len() && q[i].request_id == tag
}

/// The request a reply answers: its tag, when a request with it is in `q`.
pub open spec fn matched_tag(q: Seq<RequestView>, r: RithmicResponse) -> Option<Seq<char>> {
    match r.request_id {
        Some(t) => if has_tag(q, t@) {
            Some(t@)
        } else {
            None
        },
        None => None,
    }
}

/// The parts of the request that `r` answers, `r` included.
pub open spec fn parts_with(q: Seq<RequestView>, tag: Seq<char>, r: RithmicResponse) -> Seq<RithmicResponse> {
    q[tag_index(q, tag)].responses.push(r)
}

/// The requests in flight after `r` is delivered to `q`.
pub open spec fn after_delivery(q: Seq<RequestView>, r: RithmicResponse) -> Seq<RequestView> {
    match matched_tag(q, r) {
        None => q,
        Some(tag) => if is_terminal(r) {
            q.remove(tag_index(q, tag))
        } else {
            q.update(tag_index(q, tag), RequestView { request_id: tag, responses: parts_with(q, tag, r) })
        },
    }
}

/// The parts handed back when `r` is delivered to `q`, if it ends its request.
pub open spec fn completion(q: Seq<RequestView>, r: RithmicResponse) -> Option<Seq<RithmicResponse>> {
    match matched_tag(q, r) {
        Some(tag) => if is_terminal(r) {
            Some(parts_with(q, tag, r))
        } else {
            None
        },
        None => None,
    }
}

/// What became of an inbound reply handed to the registry.
pub enum Delivery {
    /// No request in flight carries its tag.
    Unmatched,
    /// It was added to its request, which awaits further parts.
    Pending,
    /// It ended its request, whose parts are returned in arrival order.
    Completed { request_id: String, responses: Vec<RithmicResponse> },
}

/// The requests in flight, keyed by correlation tag.
pub struct RithmicRequestHandler {
    requests: Vec<RithmicRequest>,
}

impl RithmicRequestHandler {
    /// The requests in flight, in the order they were registered.
    pub closed spec fn view_requests(&self) -> Seq<RequestView> {
        self.requests@.map_values(
            |q: RithmicRequest| RequestView { request_id: q.request_id@, responses: q.responses@ },
        )
    }

    /// No two requests in flight share a tag.
    pub open spec fn wf(&self) -> bool {
        distinct_tags(self.view_requests())
    }

    /// The tags of the requests in flight.
    pub open spec fn tags(&self) -> Seq<Seq<char>> {
        self.view_requests().map_values(|q: RequestView| q.request_id)
    }

    /// A request with this tag is in flight.
    pub open spec fn has(&self, tag: Seq<char>) -> bool {
        has_tag(self.view_requests(), tag)
    }

    /// The position of the request with this tag.
    pub open spec fn index_of(&self, tag: Seq<char>) -> int {
        tag_index(self.view_requests(), tag)
    }

    pub fn new() -> (r: RithmicRequestHandler)
        ensures
            r.wf(),
            r.view_requests() == Seq::<RequestView>::empty(),
    {
        let r = RithmicRequestHandler { requests: Vec::new() };
        assert(r.view_requests() =~= Seq::<RequestView>::empty());
        r
    }

    pub fn len(&self) -> (r: usize)
        ensures
            r == self.view_requests().len(),
    {
        self.requests.len()
    }

    pub fn is_empty(&self) -> (r: bool)
        ensures
            r == (self.view_requests().len() == 0),
    {
        self.requests.len() == 0
    }

    fn find(&self, tag: &String) -> (r: Option<usize>)
        requires
            self.wf(),
        ensures
            r is None ==> !self.has(tag@),
            r is Some ==> self.has(tag@) && r->Some_0 == self.index_of(tag@),
    {
        let mut i: usize = 0;
        while i < self.requests.len()
            invariant
                0 <= i <= self.requests@.len(),
                self.wf(),
                forall|k: int| 0 <= k < i ==> self.view_requests()[k].request_id != tag@,
            decreases self.requests@.len() - i,
        {
            if self.requests[i].request_id == *tag {
                assert(self.view_requests()[i as int].request_id == tag@);
                proof {
                    assert(self.has(tag@));
                    let j = self.index_of(tag@);
                    assert(self.view_requests()[j].request_id == tag@);
                    if j < i {
                        assert(self.view_requests()[j].request_id != self.view_requests()[i as int].request_id);
                    } else if j > i {
                        assert(self.view_requests()[i as int].request_id != self.view_requests()[j].request_id);
                    }
                }
                return Some(i);
            }
            i = i + 1;
        }
        None
    }

    /// Whether a request with this tag is in flight.
    pub fn contains(&self, tag: &String) -> (r: bool)
        requires
            self.wf(),
        ensures
            r == self.has(tag@),
    {
        self.find(tag).is_some()
    }

    /// Starts tracking a request; tags are unique by construction.
    pub fn register_request(&mut self, request_id: String)
        requires
            old(self).wf(),
            !old(self).has(request_id@),
        ensures
            final(self).wf(),
            final(self).view_requests() == old(self).view_requests().push(
                RequestView { request_id: request_id@, responses: Seq::<RithmicResponse>::empty() },
            ),
    {
        let ghost tag = request_id@;
        self.requests.push(RithmicRequest { request_id, responses: Vec::new() });
        assert(self.view_requests() =~= old(self).view_requests().push(
            RequestView { request_id: tag, responses: Seq::<RithmicResponse>::empty() },
        ));
    }

    /// Hands an inbound reply to the request it answers.
    pub fn handle_response(&mut self, response: RithmicResponse) -> (r: Delivery)
        requires
            old(self).wf(),
        ensures
            final(self).wf(),
            final(self).view_requests() == after_delivery(old(self).view_requests(), response),
            match completion(old(self).view_requests(), response) {
                Some(parts) => r matches Delivery::Completed { request_id, responses } && responses@
                    == parts && Some(request_id@) == matched_tag(old(self).view_requests(), response),
                None => if matched_tag(old(self).view_requests(), response) is Some {
                    r is Pending
                } else {
                    r is Unmatched
                },
            },
    {
        let found = match &response.request_id {
            None => None,
            Some(tag) => self.find(tag),
        };
        match found {
            None => Delivery::Unmatched,
            Some(i) => {
                let ghost old_q = self.view_requests();
                let terminal = !multi_part_template(response.template_id) || response.rp_code.is_some();
                let mut entry = self.requests.remove(i);
                assert(self.view_requests() =~= old_q.remove(i as int));
                entry.responses.push(response);
                if terminal {
                    proof {
                        assert forall|a: int, b: int|
                            #![trigger self.view_requests()[a], self.view_requests()[b]]
                            0 <= a < b < self.view_requests().len() implies self.view_requests()[a].request_id
                                != self.view_requests()[b].request_id by {
                            let a0 = if a < i { a } else { a + 1 };
                            let b0 = if b < i { b } else { b + 1 };
                            assert(self.view_requests()[a] == old_q[a0]);
                            assert(self.view_requests()[b] == old_q[b0]);
                        }
                    }
                    Delivery::Completed { request_id: entry.request_id, responses: entry.responses }
                } else {
                    self.requests.insert(i, entry);
                    assert(self.view_requests() =~= old_q.update(
                        i as int,
                        RequestView { request_id: old_q[i as int].request_id, responses: old_q[i as int].responses.push(response) },
                    ));
                    Delivery::Pending
                }
            },
        }
    }

    /// Stops tracking the request with this tag, if one is in flight.
    pub fn remove_request(&mut self, request_id: &String) -> (r: bool)
        requires
            old(self).wf(),
        ensures
            final(self).wf(),
            r == old(self).has(request_id@),
            r ==> final(self).view_requests() == old(self).view_requests().remove(
                old(self).index_of(request_id@),
            ),
            !r ==> final(self).view_requests() == old(self).view_requests(),
            !final(self).has(request_id@),
    {
        match self.find(request_id) {
            None => false,
            Some(i) => {
                let ghost old_q = self.view_requests();
                self.requests.remove(i);
                assert(self.view_requests() =~= old_q.remove(i as int));
                proof {
                    assert forall|a: int, b: int|
                        #![trigger self.view_requests()[a], self.view_requests()[b]]
                        0 <= a < b < self.view_requests().len() implies self.view_requests()[a].request_id
                            != self.view_requests()[b].request_id by {
                        let a0 = if a < i { a } else { a + 1 };
                        let b0 = if b < i { b } else { b + 1 };
                        assert(self.view_requests()[a] == old_q[a0]);
                        assert(self.view_requests()[b] == old_q[b0]);
                    }
                    if self.has(request_id@) {
                        let k = choose|k: int|
                            0 <= k < self.view_requests().len() && self.view_requests()[k].request_id
                                == request_id@;
                        if k < i {
                            assert(old_q[k] == self.view_requests()[k]);
                            assert(old_q[k].request_id != old_q[i as int].request_id);
                        } else {
                            assert(old_q[k + 1] == self.view_requests()[k]);
                            assert(old_q[i as int].request_id != old_q[k + 1].request_id);
                        }
                    }
                }
                true
            },
        }
    }

    /// Ends every request in flight, returning their tags in registration order.
    pub fn drain(&mut self) -> (r: Vec<String>)
        requires
            old(self).wf(),
        ensures
            final(self).wf(),
            final(self).view_requests().len() == 0,
            r@.map_values(|s: String| s@) == old(self).tags(),
    {
        let mut tags: Vec<String> = Vec::new();
        let mut i: usize = 0;
        while i < self.requests.len()
            invariant
                0 <= i <= self.requests@.len(),
                tags@.map_values(|s: String| s@) == self.tags().subrange(0, i as int),
            decreases self.requests@.len() - i,
        {
            let ghost before = tags@;
            tags.push(self.requests[i].request_id.clone());
            assert(self.tags()[i as int] == self.requests@[i as int].request_id@);
            assert(tags@ == before.push(self.requests@[i as int].request_id));
            assert(tags@.map_values(|s: String| s@) =~= before.map_values(|s: String| s@).push(
                self.tags()[i as int],
            ));
            assert(self.tags().subrange(0, i + 1) =~= self.tags().subrange(0, i as int).push(
                self.tags()[i as int],
            ));
            assert(tags@.map_values(|s: String| s@) =~= self.tags().subrange(0, i + 1));
            i = i + 1;
        }
        assert(self.tags().subrange(0, self.requests@.len() as int) =~= self.tags());
        self.requests.clear();
        assert(self.view_requests() =~= Seq::<RequestView>::empty());
        tags
    }
}

/// Whether replies of this template come in several parts.
pub fn multi_part_template(template_id: i32) -> (r: bool)
    ensures
        r == is_multi_part_template(template_id),
{
    template_id == 321 || template_id == 339 || template_id == 341 || template_id == 112
        || template_id == 110 || template_id == 203 || template_id == 207
}

/// In a set of requests with distinct tags, the request with a tag is the one at its position.
pub proof fn lemma_tag_index_unique(q: Seq<RequestView>, i: int)
    requires
        distinct_tags(q),
        0 <= i < q.len(),
    ensures
        has_tag(q, q[i].request_id),
        tag_index(q, q[i].request_id) == i,
{
    let tag = q[i].request_id;
    assert(0 <= i < q.len() && q[i].request_id == tag);
    let j = tag_index(q, tag);
    if j < i {
        assert(q[j].request_id != q[i].request_id);
    } else if j > i {
        assert(q[i].request_id != q[j].request_id);
    }
}

/// A request whose reply comes in several parts collects two parts that carry
/// no `rp_code`, is ended by a third whose `rp_code` is "0", hands back the
/// three parts in arrival order, and leaves the registry.
pub proof fn lemma_multi_part_termination(
    q: Seq<RequestView>,
    tag: Seq<char>,
    r1: RithmicResponse,
    r2: RithmicResponse,
    r3: RithmicResponse,
)
    requires
        distinct_tags(q),
        has_tag(q, tag),
        q[tag_index(q, tag)].responses.len() == 0,
        r1.request_id is Some && r1.request_id->Some_0@ == tag,
        r2.request_id is Some && r2.request_id->Some_0@ == tag,
        r3.request_id is Some && r3.request_id->Some_0@ == tag,
        is_multi_part_template(r1.template_id),
        is_multi_part_template(r2.template_id),
        is_multi_part_template(r3.template_id),
        r1.rp_code is None,
        r2.rp_code is None,
        r3.rp_code is Some && r3.rp_code->Some_0@ == "0"@,
    ensures
        completion(q, r1) is None,
        completion(after_delivery(q, r1), r2) is None,
        completion(after_delivery(after_delivery(q, r1), r2), r3) == Some(seq![r1, r2, r3]),
        !has_tag(after_delivery(after_delivery(after_delivery(q, r1), r2), r3), tag),
        after_delivery(after_delivery(after_delivery(q, r1), r2), r3).len() == q.len() - 1,
{
    let i = tag_index(q, tag);
    lemma_tag_index_unique(q, i);
    let q1 = after_delivery(q, r1);
    assert(q1 == q.update(i, RequestView { request_id: tag, responses: seq![r1] })) by {
        assert(q[i].responses =~= Seq::<RithmicResponse>::empty());
        assert(matched_tag(q, r1) == Some(tag));
        assert(parts_with(q, tag, r1) =~= seq![r1]);
    }
    assert(distinct_tags(q1)) by {
        assert forall|a: int, b: int| #![trigger q1[a], q1[b]] 0 <= a < b < q1.len() implies q1[a].request_id != q1[b].request_id by {
            assert(q1[a].request_id == q[a].request_id);
            assert(q1[b].request_id == q[b].request_id);
        }
    }
    lemma_tag_index_unique(q1, i);
    let q2 = after_delivery(q1, r2);
    assert(q2 == q1.update(i, RequestView { request_id: tag, responses: seq![r1, r2] })) by {
        assert(matched_tag(q1, r2) == Some(tag));
        assert(parts_with(q1, tag, r2) =~= seq![r1, r2]);
    }
    assert(distinct_tags(q2)) by {
        assert forall|a: int, b: int| #![trigger q2[a], q2[b]] 0 <= a < b < q2.len() implies q2[a].request_id != q2[b].request_id by {
            assert(q2[a].request_id == q[a].request_id);
            assert(q2[b].request_id == q[b].request_id);
        }
    }
    lemma_tag_index_unique(q2, i);
    assert(matched_tag(q2, r3) == Some(tag));
    assert(parts_with(q2, tag, r3) =~= seq![r1, r2, r3]);
    let q3 = after_delivery(q2, r3);
    assert(q3 == q2.remove(i));
    if has_tag(q3, tag) {
        let k = choose|k: int| 0 <= k < q3.len() && q3[k].request_id == tag;
        if k < i {
            assert(q2[k].request_id != q2[i].request_id);
        } else {
            assert(q3[k] == q2[k + 1]);
            assert(q2[i].request_id != q2[k + 1].request_id);
        }
    }
}

} // verus!
