//! The map from window handles to the windows' state.
use vstd::prelude::*;

use std::collections::HashMap;

use crate::window::{WindowHandle, WindowState};

verus! {

broadcast use vstd::std_specs::hash::group_hash_axioms;

/// The live windows, by handle. A handle is in the registry from the moment its window
/// is created until the window's destruction is processed.
pub struct Registry {
    windows: HashMap<isize, WindowState>,
}

impl Registry {
    /// The windows, by the integer value of their handles.
    pub closed spec fn view(&self) -> Map<isize, WindowState> {
        self.windows@
    }

    /// Every window's state is well formed.
    pub open spec fn wf(&self) -> bool {
        forall|h: isize| #[trigger] self.view().contains_key(h) ==> self.view()[h].wf()
    }

    pub fn new() -> (r: Registry)
        ensures
            r.view() == Map::<isize, WindowState>::empty(),
            r.wf(),
    {
        Registry { windows: HashMap::new() }
    }

    /// Adds a window, replacing any state kept under the same handle.
    pub fn insert(&mut self, handle: WindowHandle, state: WindowState)
        requires
            old(self).wf(),
            state.wf(),
        ensures
            final(self).wf(),
            final(self).view() == old(self).view().insert(handle.0, state),
            !final(self).view().is_empty(),
    {
        self.windows.insert(handle.0, state);
        proof {
            assert(self.view().contains_key(handle.0));
            assert forall|h: isize| #[trigger] self.view().contains_key(h) implies self.view()[h].wf() by {
                if h != handle.0 {
                    assert(old(self).view().contains_key(h));
                }
            }
        }
    }

    /// Removes a window and hands back its state, if it was there.
    pub fn remove(&mut self, handle: WindowHandle) -> (r: Option<WindowState>)
        requires
            old(self).wf(),
        ensures
            final(self).wf(),
            final(self).view() == old(self).view().remove(handle.0),
            old(self).view().contains_key(handle.0) ==> r == Some(old(self).view()[handle.0]),
            !old(self).view().contains_key(handle.0) ==> r is None,
    {
        let r = self.windows.remove(&handle.0);
        proof {
            assert forall|h: isize| #[trigger] self.view().contains_key(h) implies self.view()[h].wf() by {
                assert(old(self).view().contains_key(h));
            }
        }
        r
    }

    /// Whether no window is registered.
    pub fn is_empty(&self) -> (r: bool)
        ensures
            r == self.view().is_empty(),
    {
        self.windows.is_empty()
    }

    /// Whether `handle` names a registered window.
    pub fn contains(&self, handle: WindowHandle) -> (r: bool)
        ensures
            r == self.view().contains_key(handle.0),
    {
        self.windows.contains_key(&handle.0)
    }

    /// The state of the window `handle`, if it is registered.
    pub fn get(&self, handle: WindowHandle) -> (r: Option<&WindowState>)
        ensures
            self.view().contains_key(handle.0) ==> r == Some(&self.view()[handle.0]),
            !self.view().contains_key(handle.0) ==> r is None,
    {
        self.windows.get(&handle.0)
    }
}

/// A registry that just got a window is not empty; removing a window empties a registry
/// exactly when that window was the only one, or the registry was empty already.
pub proof fn law_registry_emptiness(
    m: Map<isize, WindowState>,
    handle: WindowHandle,
    state: WindowState,
)
    requires
        m.dom().finite(),
    ensures
        !m.insert(handle.0, state).is_empty(),
        m.remove(handle.0).is_empty() <==> m.dom().subset_of(set![handle.0]),
{
    assert(m.insert(handle.0, state).contains_key(handle.0));
    if m.remove(handle.0).is_empty() {
        assert forall|k: isize| m.dom().contains(k) implies set![handle.0].contains(k) by {
            if k != handle.0 {
                assert(m.remove(handle.0).contains_key(k));
            }
        }
    }
    if m.dom().subset_of(set![handle.0]) {
        assert(m.remove(handle.0).dom() =~= Set::<isize>::empty());
    }
}

} // verus!
