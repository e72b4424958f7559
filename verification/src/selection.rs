//! Selection bridge.
//!
//! The catalog is rendered as a newline-joined list of area ids, in
//! catalog order, and handed to an external interactive chooser. What the
//! chooser reports — an abort, an empty result, or one chosen line —
//! is interpreted here, and the chosen line is mapped back to the
//! catalog entry whose id equals it exactly. A chooser abort or an
//! empty choice is a clean termination, not a failure.

use vstd::prelude::*;
use vstd::string::StringExecFns;

use crate::discovery::Area;
use crate::discovery::AreaView;
use crate::errors::HaclError;

verus! {

/// The chooser's input: every id followed by a newline, in catalog
/// order.
pub open spec fn selection_lines(ids: Seq<Seq<char>>) -> Seq<char>
    decreases ids.len(),
{
    if ids.len() == 0 {
        Seq::empty()
    } else {
        selection_lines(ids.drop_last()) + ids.last() + seq!['\n']
    }
}

/// The ids of a catalog, in order.
pub open spec fn catalog_ids(catalog: Seq<AreaView>) -> Seq<Seq<char>> {
    catalog.map_values(|a: AreaView| a.id)
}

/// Renders the catalog for the chooser: one line per area id, in
/// catalog order.
pub fn render_selection_list(catalog: &Vec<Area>) -> (r: String)
    ensures
        r@ == selection_lines(catalog_ids(catalog.deep_view())),
{
    let mut text = String::new();
    let mut i: usize = 0;
    proof {
        assert(catalog_ids(catalog.deep_view().take(0)) =~= Seq::<Seq<char>>::empty());
    }
    while i < catalog.len()
        invariant
            i <= catalog.len(),
            catalog.deep_view().len() == catalog.len(),
            text@ == selection_lines(catalog_ids(catalog.deep_view().take(i as int))),
        decreases catalog.len() - i,
    {
        text.append(catalog[i].id.as_str());
        text.append("\n");
        proof {
            reveal_strlit("\n");
            let done = catalog_ids(catalog.deep_view().take(i as int));
            let next = catalog_ids(catalog.deep_view().take(i + 1));
            assert(next.drop_last() =~= done);
            assert(next.last() == catalog@[i as int]@.id);
            assert("\n"@ =~= seq!['\n']);
            assert(text@ =~= selection_lines(done) + next.last() + seq!['\n']);
        }
        i = i + 1;
    }
    proof {
        assert(catalog.deep_view().take(catalog.len() as int) =~= catalog.deep_view());
    }
    text
}

/// Interprets what the chooser reported: an abort is a clean termination,
/// an empty result likewise, and otherwise the chosen line is the
/// selection.
pub fn interpret_choice(aborted: bool, selected: Option<String>) -> (r: Result<String, HaclError>)
    ensures
        aborted ==> (r matches Err(e) && e is SelectionAborted),
        !aborted && selected is None ==> (r matches Err(e) && e is SelectionEmpty),
        selected matches Some(picked) ==> (aborted || (r matches Ok(chosen) && chosen
            == picked)),
{
    if aborted {
        Err(HaclError::SelectionAborted)
    } else {
        match selected {
            Some(line) => Ok(line),
            None => Err(HaclError::SelectionEmpty),
        }
    }
}

/// Maps the chosen line back to the catalog: the first area whose id
/// equals it exactly. A miss is an invariant violation — the chooser
/// was fed exactly the catalog's ids — and is reported as such, never
/// as a user-facing condition.
pub fn select_area(catalog: &Vec<Area>, chosen: &String) -> (r: Result<Area, HaclError>)
    ensures
        r matches Ok(a) ==> exists|i: int|
            0 <= i < catalog.deep_view().len() && (#[trigger] catalog.deep_view()[i]).id == chosen@
                && a@ == catalog.deep_view()[i] && (forall|j: int|
                0 <= j < i ==> (#[trigger] catalog.deep_view()[j]).id != chosen@),
        r matches Err(e) ==> e is InternalConsistencyError && (forall|i: int|
            0 <= i < catalog.deep_view().len() ==> (#[trigger] catalog.deep_view()[i]).id
                != chosen@),
        (exists|i: int|
            0 <= i < catalog.deep_view().len() && (#[trigger] catalog.deep_view()[i]).id
                == chosen@) ==> r is Ok,
{
    let mut i: usize = 0;
    while i < catalog.len()
        invariant
            i <= catalog.len(),
            catalog.deep_view().len() == catalog.len(),
            forall|j: int| 0 <= j < i ==> (#[trigger] catalog.deep_view()[j]).id != chosen@,
        decreases catalog.len() - i,
    {
        if catalog[i].id == *chosen {
            let found = catalog[i].clone();
            proof {
                assert(catalog.deep_view()[i as int].id == chosen@);
            }
            return Ok(found);
        }
        proof {
            assert(catalog.deep_view()[i as int].id == catalog@[i as int]@.id);
        }
        i = i + 1;
    }
    Err(HaclError::InternalConsistencyError)
}

} // verus!
