//! Laws of the window lifecycle, stated over the registry's abstraction.
//! Each lemma is phrased over the same map and action-sequence forms that
//! the manager's postconditions pin down, so together they carry the
//! manager's guarantees one step further.
use vstd::prelude::*;

use crate::actions::HostAction;
use crate::actions::count_main_vis;
use crate::actions::hide_actions;
use crate::actions::is_emit_main_vis;
use crate::actions::reveal_actions;
use crate::manager::LiveWindow;

verus! {

proof fn lemma_count_no_emit(s: Seq<HostAction>)
    requires
        forall|i: int|
            0 <= i < s.len() ==> !(#[trigger] s[i] matches HostAction::EmitMainVisibility(_)),
    ensures
        count_main_vis(s) == 0,
    decreases s.len(),
{
    if s.len() > 0 {
        assert(s.drop_last() =~= s.subrange(0, s.len() - 1));
        lemma_count_no_emit(s.drop_last());
    }
}

/// Creating a single-instance window twice in a row leaves exactly one
/// live window under its label: the first call inserts the entry, and the
/// second — which `create_window`'s contract turns into a focus — changes
/// no label's presence.
pub proof fn lemma_single_instance_create_idempotent(
    m0: Map<Seq<char>, LiveWindow>,
    l: Seq<char>,
    v0: bool,
)
    ensures
        ({
            let m1 = m0.insert(l, (LiveWindow { visible: v0 }));
            let m2 = m1.insert(l, (LiveWindow { visible: true }));
            &&& m1.dom().contains(l)
            &&& m2.dom() =~= m1.dom()
            &&& m1.dom() =~= m0.dom().insert(l)
        }),
{
}

/// Closing a window whose preset closes to the tray keeps it alive but
/// hidden — `close_window` then acts as `hide_window` — while closing any
/// other window removes its registry entry for good.
pub proof fn lemma_close_semantics(m0: Map<Seq<char>, LiveWindow>, l: Seq<char>)
    requires
        m0.dom().contains(l),
    ensures
        ({
            let hidden = m0.insert(l, (LiveWindow { visible: false }));
            hidden.dom().contains(l) && !hidden[l].visible
        }),
        !m0.remove(l).dom().contains(l),
{
}

/// Toggling a window's visibility twice restores the registry exactly:
/// each toggle flips the stored visibility and touches nothing else.
pub proof fn lemma_toggle_twice_restores(m0: Map<Seq<char>, LiveWindow>, l: Seq<char>)
    requires
        m0.dom().contains(l),
    ensures
        ({
            let m1 = m0.insert(l, (LiveWindow { visible: !m0[l].visible }));
            let m2 = m1.insert(l, (LiveWindow { visible: !m1[l].visible }));
            m2 =~= m0
        }),
{
    let m1 = m0.insert(l, (LiveWindow { visible: !m0[l].visible }));
    let m2 = m1.insert(l, (LiveWindow { visible: !m1[l].visible }));
    assert(m2[l] == m0[l]);
}

/// Toggling the main window notifies listeners of its visibility exactly
/// once per call, carrying the new state: the hide branch and the reveal
/// branch each end in one `EmitMainVisibility` and contain no other.
pub proof fn lemma_toggle_main_emits_once(s: Seq<HostAction>, minimized: bool, shown: bool)
    requires
        shown ==> reveal_actions(s, "main"@, minimized),
        !shown ==> hide_actions(s, "main"@),
    ensures
        count_main_vis(s) == 1,
        is_emit_main_vis(s[s.len() - 1], shown),
{
    assert forall|i: int|
        0 <= i < s.drop_last().len() implies !(#[trigger] s.drop_last()[i]
        matches HostAction::EmitMainVisibility(_)) by {
        assert(s.drop_last()[i] == s[i]);
    }
    lemma_count_no_emit(s.drop_last());
}

} // verus!
