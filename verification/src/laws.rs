//! General properties of the controller, stated over its mathematical state
//! and proved once and for all: they hold of every well-formed controller and
//! every sequence of operations.

use vstd::prelude::*;

use crate::controller::ControllerView;
use crate::controller::Key;
use crate::controller::TaskView;
use crate::controller::seeded;

verus! {

/// The state after dispatching each key of `keys` in order, starting from
/// `v`.
pub open spec fn dispatch_all(v: ControllerView, keys: Seq<Key>) -> ControllerView
    decreases keys.len(),
{
    if keys.len() == 0 {
        v
    } else {
        dispatch_all(v.dispatch(keys[0]), keys.drop_first())
    }
}

/// Dispatching any single key preserves well-formedness: the selection stays
/// a valid index (or 0 on an empty list) and no stale buffer survives a
/// return to normal mode.
pub proof fn lemma_dispatch_preserves_wf(v: ControllerView, key: Key)
    requires
        v.wf(),
    ensures
        v.dispatch(key).wf(),
{
}

/// Dispatching any sequence of keys preserves well-formedness.
pub proof fn lemma_dispatch_all_preserves_wf(v: ControllerView, keys: Seq<Key>)
    requires
        v.wf(),
    ensures
        dispatch_all(v, keys).wf(),
    decreases keys.len(),
{
    if keys.len() > 0 {
        lemma_dispatch_preserves_wf(v, keys[0]);
        lemma_dispatch_all_preserves_wf(v.dispatch(keys[0]), keys.drop_first());
    }
}

/// Any sequence of navigation keys leaves the tasks unchanged and keeps the
/// selection within `[0, tasks.len() - 1]`, or at 0 when the list is empty.
pub proof fn lemma_navigation_stays_in_bounds(v: ControllerView, keys: Seq<Key>)
    requires
        v.wf(),
        forall|i: int| 0 <= i < keys.len() ==> keys[i] == Key::Up || keys[i] == Key::Down,
    ensures
        dispatch_all(v, keys).tasks == v.tasks,
        0 <= dispatch_all(v, keys).selected,
        dispatch_all(v, keys).tasks.len() == 0 ==> dispatch_all(v, keys).selected == 0,
        dispatch_all(v, keys).tasks.len() > 0 ==> dispatch_all(v, keys).selected < dispatch_all(
            v,
            keys,
        ).tasks.len(),
    decreases keys.len(),
{
    if keys.len() > 0 {
        assert(keys[0] == Key::Up || keys[0] == Key::Down);
        let next = v.dispatch(keys[0]);
        assert forall|i: int| 0 <= i < keys.drop_first().len() implies keys.drop_first()[i]
            == Key::Up || keys.drop_first()[i] == Key::Down by {
            assert(keys.drop_first()[i] == keys[i + 1]);
        }
        lemma_navigation_stays_in_bounds(next, keys.drop_first());
    }
}

/// Toggling the selected task flips exactly its completion flag, so two
/// consecutive toggles on the same selection restore the original state.
pub proof fn lemma_toggle_twice_restores(v: ControllerView)
    requires
        v.wf(),
    ensures
        v.toggle_selected().toggle_selected() == v,
{
    assert(v.toggle_selected().toggle_selected() =~~= v);
}

/// Round trip: a controller seeded from a persisted sequence, with no
/// mutations performed, still holds exactly that sequence — order and
/// fields preserved — so saving reproduces it.
pub proof fn lemma_seed_save_round_trip(s: Seq<TaskView>)
    ensures
        seeded(s).wf(),
        seeded(s).tasks == s,
{
}

/// Entering edit mode always starts with an empty buffer, whatever was
/// composed, committed, or cancelled before.
pub proof fn lemma_begin_edit_clears_buffer(v: ControllerView)
    requires
        v.wf(),
        v.mode is Normal,
    ensures
        v.begin_edit().buffer == Seq::<char>::empty(),
{
}

} // verus!
