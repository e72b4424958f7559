//! Toggle dispatch.
//!
//! From a chosen area, the dispatcher keeps exactly the entities in
//! the `light` domain, in their original relative order, and issues
//! one toggle action per kept entity. The dispatch is fail-fast: the
//! first failed toggle aborts the remaining ones and is the whole
//! result; entities already toggled stay toggled, as toggling has no
//! compensating action. This module decides the requests and the
//! outcome; the caller performs each HTTP round trip.

use vstd::prelude::*;
use vstd::string::StrSliceExecFns;
use vstd::string::StringExecFns;

use crate::discovery::Area;
use crate::errors::HaclError;

verus! {

/// An entity id in the `light` domain: it starts with the literal
/// prefix `light.`.
pub open spec fn is_light_entity(e: Seq<char>) -> bool {
    e.len() >= 6 && e.subrange(0, 6) == "light."@
}

/// Whether an entity id is in the `light` domain.
pub fn is_light(e: &String) -> (r: bool)
    ensures
        r == is_light_entity(e@),
{
    proof {
        reveal_strlit("light.");
    }
    let s = e.as_str();
    let n = s.unicode_len();
    if n < 6 {
        return false;
    }
    let r = s.get_char(0) == 'l' && s.get_char(1) == 'i' && s.get_char(2) == 'g' && s.get_char(3)
        == 'h' && s.get_char(4) == 't' && s.get_char(5) == '.';
    proof {
        if r {
            assert(e@.subrange(0, 6) =~= "light."@);
        } else {
            assert(e@.subrange(0, 6) != "light."@) by {
                if e@.subrange(0, 6) == "light."@ {
                    assert(e@[0] == 'l' && e@[1] == 'i' && e@[2] == 'g' && e@[3] == 'h' && e@[4]
                        == 't' && e@[5] == '.') by {
                        assert(forall|j: int|
                            0 <= j < 6 ==> e@.subrange(0, 6)[j] == #[trigger] e@[j]);
                    }
                }
            }
        }
    }
    r
}

/// Keeps exactly the entities in the `light` domain, in their original
/// relative order.
pub fn filter_lights(entities: &Vec<String>) -> (r: Vec<String>)
    ensures
        r.deep_view() == entities.deep_view().filter(|e: Seq<char>| is_light_entity(e)),
{
    let mut out: Vec<String> = Vec::new();
    let mut i: usize = 0;
    proof {
        reveal_with_fuel(Seq::<_>::filter, 2);
        assert(entities.deep_view().take(0).filter(|e: Seq<char>| is_light_entity(e))
            =~= Seq::<Seq<char>>::empty());
    }
    while i < entities.len()
        invariant
            i <= entities.len(),
            entities.deep_view().len() == entities.len(),
            out.deep_view() == entities.deep_view().take(i as int).filter(
                |e: Seq<char>| is_light_entity(e),
            ),
        decreases entities.len() - i,
    {
        let keep = is_light(&entities[i]);
        if keep {
            out.push(entities[i].clone());
        }
        proof {
            reveal_with_fuel(Seq::<_>::filter, 2);
            let pred = |e: Seq<char>| is_light_entity(e);
            let done = entities.deep_view().take(i as int);
            let x = entities.deep_view()[i as int];
            let single = seq![x];
            assert(entities.deep_view().take(i + 1) =~= done + single);
            Seq::<Seq<char>>::filter_distributes_over_add(done, single, pred);
            assert(single.drop_last() =~= Seq::<Seq<char>>::empty());
            assert(single.drop_last().filter(pred) =~= Seq::<Seq<char>>::empty());
            assert(x == entities@[i as int]@);
            if keep {
                assert(single.filter(pred) =~= single);
                assert(out.deep_view() =~= done.filter(pred) + single.filter(pred));
            } else {
                assert(single.filter(pred) =~= Seq::<Seq<char>>::empty());
                assert(out.deep_view() =~= done.filter(pred) + single.filter(pred));
            }
            assert(out.deep_view() == entities.deep_view().take(i + 1).filter(pred));
        }
        i = i + 1;
    }
    proof {
        assert(entities.deep_view().take(entities.len() as int) =~= entities.deep_view());
    }
    out
}

/// The relative path of the hub's action-invocation endpoint for one
/// domain and action, joined onto the configured base URL by the
/// caller.
pub fn action_endpoint_path(domain: &str, action: &str) -> (r: String)
    ensures
        r@ == "api/services/"@ + domain@ + "/"@ + action@,
{
    let mut path = String::from_str("api/services/");
    path.append(domain);
    path.append("/");
    path.append(action);
    proof {
        assert(path@ =~= "api/services/"@ + domain@ + "/"@ + action@);
    }
    path
}

/// The body of the toggle request for one entity.
pub open spec fn toggle_request(entity: Seq<char>) -> Seq<char> {
    "{\"entity_id\": \""@ + entity + "\"}"@
}

/// Builds the toggle request body for one entity.
pub fn toggle_request_body(entity: &String) -> (r: String)
    ensures
        r@ == toggle_request(entity@),
{
    let mut body = String::from_str("{\"entity_id\": \"");
    body.append(entity.as_str());
    body.append("\"}");
    proof {
        assert(body@ =~= toggle_request(entity@));
    }
    body
}

/// A toggle pass over one area: the light entities still to toggle, in
/// order, and whether a toggle has failed. After a failure no further
/// request is handed out.
pub struct ToggleDispatch {
    targets: Vec<String>,
    sent: usize,
    failed: bool,
}

impl ToggleDispatch {
    /// The dispatch position never passes the end of the target list.
    pub closed spec fn wf(&self) -> bool {
        self.sent <= self.targets@.len()
    }

    /// The entities to toggle: the area's light entities, in order.
    pub closed spec fn targets(&self) -> Seq<Seq<char>> {
        self.targets.deep_view()
    }

    /// How many toggles have been confirmed.
    pub closed spec fn dispatched(&self) -> nat {
        self.sent as nat
    }

    /// Whether a toggle has failed.
    pub closed spec fn has_failed(&self) -> bool {
        self.failed
    }

    /// Starts a toggle pass over the area's light entities.
    pub fn new(area: &Area) -> (r: ToggleDispatch)
        ensures
            r.wf(),
            r.targets() == area@.entities.filter(|e: Seq<char>| is_light_entity(e)),
            r.dispatched() == 0,
            !r.has_failed(),
    {
        ToggleDispatch { targets: filter_lights(&area.entities), sent: 0, failed: false }
    }

    /// The body of the next toggle request: `None` once every light
    /// was toggled or a toggle has failed.
    pub fn next_request_body(&self) -> (r: Option<String>)
        requires
            self.wf(),
        ensures
            self.has_failed() || self.dispatched() == self.targets().len() ==> r is None,
            !self.has_failed() && self.dispatched() < self.targets().len() ==> (r matches Some(b)
                && b@ == toggle_request(self.targets()[self.dispatched() as int])),
    {
        if !self.failed && self.sent < self.targets.len() {
            Some(toggle_request_body(&self.targets[self.sent]))
        } else {
            None
        }
    }

    /// Records that the pending toggle succeeded and moves to the next.
    pub fn record_success(&mut self)
        requires
            old(self).wf(),
            !old(self).has_failed(),
            old(self).dispatched() < old(self).targets().len(),
        ensures
            final(self).wf(),
            final(self).targets() == old(self).targets(),
            final(self).dispatched() == old(self).dispatched() + 1,
            !final(self).has_failed(),
    {
        let bound = self.targets.len();
        assert(self.sent < bound);
        self.sent = self.sent + 1;
    }

    /// Records that the pending toggle failed: the remaining entities
    /// are not toggled in this pass.
    pub fn record_failure(&mut self)
        requires
            old(self).wf(),
        ensures
            final(self).wf(),
            final(self).targets() == old(self).targets(),
            final(self).dispatched() == old(self).dispatched(),
            final(self).has_failed(),
    {
        self.failed = true;
    }

    /// The result of the pass: the first failure, if any, is the whole
    /// result; no partial-success report is synthesized.
    pub fn outcome(&self) -> (r: Result<(), HaclError>)
        ensures
            self.has_failed() ==> (r matches Err(e) && e is TransportError),
            !self.has_failed() ==> r is Ok,
    {
        if self.failed {
            Err(HaclError::TransportError)
        } else {
            Ok(())
        }
    }
}

} // verus!
