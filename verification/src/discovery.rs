//! Area discovery.
//!
//! The hub's template API answers one expression at a time, so the
//! catalog is built by a one-plus-N fan-out: one request lists the
//! area ids, then one request per area lists that area's entities.
//! This module holds the request bodies and the discovery state
//! machine; the caller performs each HTTP round trip and feeds the
//! raw response text back in. The catalog keeps the areas in exactly
//! the order the area ids were received, and any decode failure fails
//! the whole discovery: no partial catalog can be obtained.

use vstd::prelude::*;
use vstd::string::StringExecFns;

use crate::decoder::decode_string_list;
use crate::decoder::decoded_string_list;
use crate::errors::HaclError;

verus! {

/// One hub area: its id and the entity ids that belong to it, in the
/// order the hub reported them.
#[derive(Debug)]
pub struct Area {
    pub id: String,
    pub entities: Vec<String>,
}

/// The mathematical content of an `Area`.
pub struct AreaView {
    pub id: Seq<char>,
    pub entities: Seq<Seq<char>>,
}

impl View for Area {
    type V = AreaView;

    open spec fn view(&self) -> AreaView {
        AreaView { id: self.id@, entities: self.entities.deep_view() }
    }
}

impl DeepView for Area {
    type V = AreaView;

    open spec fn deep_view(&self) -> AreaView {
        self.view()
    }
}

/// Copies a list of entity ids, value for value.
fn clone_string_vec(v: &Vec<String>) -> (r: Vec<String>)
    ensures
        r.deep_view() == v.deep_view(),
{
    let mut out: Vec<String> = Vec::new();
    let mut i: usize = 0;
    while i < v.len()
        invariant
            i <= v.len(),
            out@.len() == i,
            forall|j: int| 0 <= j < i ==> out@[j] == v@[j],
        decreases v.len() - i,
    {
        out.push(v[i].clone());
        i = i + 1;
    }
    proof {
        assert(out.deep_view() =~= v.deep_view());
    }
    out
}

impl Clone for Area {
    /// A copy with the same id and the same entities.
    fn clone(&self) -> (r: Self)
        ensures
            r@ == self@,
    {
        Area { id: self.id.clone(), entities: clone_string_vec(&self.entities) }
    }
}

/// The body of the template request that lists all area ids.
pub open spec fn areas_template() -> Seq<char> {
    "{\"template\": \"{{ areas() }}\"}"@
}

/// The body of the template request that lists the entities of the
/// area with the given id. The id is spliced in unescaped, as the
/// hub's template language expects a single-quoted literal.
pub open spec fn area_entities_template(id: Seq<char>) -> Seq<char> {
    "{\"template\": \"{{ area_entities('"@ + id + "') }}\"}"@
}

/// The relative path of the hub's template-evaluation endpoint,
/// joined onto the configured base URL by the caller.
pub fn template_endpoint_path() -> (r: String)
    ensures
        r@ == "api/template"@,
{
    String::from_str("api/template")
}

/// Builds the request body that lists all area ids.
pub fn areas_template_body() -> (r: String)
    ensures
        r@ == areas_template(),
{
    String::from_str("{\"template\": \"{{ areas() }}\"}")
}

/// Builds the request body that lists the entities of one area.
pub fn area_entities_template_body(id: &String) -> (r: String)
    ensures
        r@ == area_entities_template(id@),
{
    let mut body = String::from_str("{\"template\": \"{{ area_entities('");
    body.append(id.as_str());
    body.append("') }}\"}");
    proof {
        assert(body@ =~= area_entities_template(id@));
    }
    body
}

/// The discovery pass in progress: the area ids in received order, and
/// the areas already assembled, one per answered per-area request.
pub struct Discovery {
    area_ids: Vec<String>,
    areas: Vec<Area>,
}

impl Discovery {
    /// Each assembled area carries the id it was fetched for, in order.
    pub closed spec fn wf(&self) -> bool {
        &&& self.areas@.len() <= self.area_ids@.len()
        &&& forall|i: int|
            0 <= i < self.areas@.len() ==> (#[trigger] self.areas.deep_view()[i]).id
                == self.area_ids.deep_view()[i]
    }

    /// The area ids the hub reported, in received order.
    pub closed spec fn ids(&self) -> Seq<Seq<char>> {
        self.area_ids.deep_view()
    }

    /// The areas assembled so far, in id order.
    pub closed spec fn assembled(&self) -> Seq<AreaView> {
        self.areas.deep_view()
    }

    /// Every area id has been answered.
    pub open spec fn complete(&self) -> bool {
        self.assembled().len() == self.ids().len()
    }

    /// Starts a discovery pass from the raw response to the area-list
    /// request: decodes the area ids, or fails with a protocol error
    /// carrying the raw text.
    pub fn begin(raw: &str) -> (r: Result<Discovery, HaclError>)
        ensures
            decoded_string_list(raw@) matches Some(ids) ==> (r matches Ok(d) && d.wf() && d.ids()
                == ids && d.assembled() === Seq::<AreaView>::empty()),
            decoded_string_list(raw@) is None ==> (r matches Err(e) && e matches
                HaclError::HubProtocolError(p) && p@ == raw@),
    {
        match decode_string_list(raw) {
            Ok(ids) => {
                let d = Discovery { area_ids: ids, areas: Vec::new() };
                proof {
                    assert(d.assembled() =~= Seq::<AreaView>::empty());
                }
                Ok(d)
            },
            Err(HaclError::DecodeError(p)) => Err(HaclError::HubProtocolError(p)),
            Err(e) => Err(e),
        }
    }

    /// Whether every per-area request has been answered.
    pub fn is_complete(&self) -> (r: bool)
        requires
            self.wf(),
        ensures
            r == self.complete(),
    {
        self.areas.len() == self.area_ids.len()
    }

    /// The body of the next per-area request, or `None` once the pass
    /// is complete.
    pub fn next_request_body(&self) -> (r: Option<String>)
        requires
            self.wf(),
        ensures
            self.complete() ==> r is None,
            !self.complete() ==> (r matches Some(b) && b@ == area_entities_template(
                self.ids()[self.assembled().len() as int],
            )),
    {
        if self.areas.len() < self.area_ids.len() {
            Some(area_entities_template_body(&self.area_ids[self.areas.len()]))
        } else {
            None
        }
    }

    /// Consumes the raw response to the pending per-area request:
    /// decodes the entity ids and assembles the next area, or fails
    /// with a protocol error carrying the raw text, leaving the pass
    /// unchanged. A failed pass yields no partial catalog: the one
    /// error is the whole result.
    pub fn accept_entities(&mut self, raw: &str) -> (r: Result<(), HaclError>)
        requires
            old(self).wf(),
            !old(self).complete(),
        ensures
            final(self).wf(),
            final(self).ids() == old(self).ids(),
            decoded_string_list(raw@) matches Some(entities) ==> (r is Ok && final(self).assembled()
                === old(self).assembled().push(
                AreaView { id: old(self).ids()[old(self).assembled().len() as int], entities },
            )),
            decoded_string_list(raw@) is None ==> (r matches Err(e) && e matches
                HaclError::HubProtocolError(p) && p@ == raw@ && final(self).assembled() === old(
                self,
            ).assembled()),
    {
        match decode_string_list(raw) {
            Ok(entities) => {
                let k = self.areas.len();
                let id = self.area_ids[k].clone();
                self.areas.push(Area { id, entities });
                proof {
                    assert(self.assembled() =~= old(self).assembled().push(
                        AreaView {
                            id: old(self).ids()[old(self).assembled().len() as int],
                            entities: decoded_string_list(raw@)->Some_0,
                        },
                    ));
                }
                Ok(())
            },
            Err(HaclError::DecodeError(p)) => Err(HaclError::HubProtocolError(p)),
            Err(e) => Err(e),
        }
    }

    /// Hands out the finished catalog: one area per received area id,
    /// in exactly the order the ids were received.
    pub fn into_catalog(self) -> (r: Vec<Area>)
        requires
            self.wf(),
            self.complete(),
        ensures
            r.deep_view() == self.assembled(),
            r.deep_view().len() == self.ids().len(),
            forall|i: int|
                0 <= i < r.deep_view().len() ==> (#[trigger] r.deep_view()[i]).id == self.ids()[i],
    {
        self.areas
    }
}

} // verus!
