use vstd::prelude::*;
use std::collections::HashMap;
use crate::geometry::ScreenRect;
use crate::gesture::{spec_gestures, PointerInput};
use crate::viewport::{spec_normalize, Memory};

verus! {

broadcast use vstd::std_specs::hash::group_hash_axioms;

/// The viewport states of all plots, keyed by plot id, with the state that a
/// plot seen for the first time starts from.
pub struct PlotCtx {
    states: HashMap<u64, Memory>,
    initial: Memory,
}

impl View for PlotCtx {
    type V = Map<u64, Memory>;

    closed spec fn view(&self) -> Map<u64, Memory> {
        self.states@
    }
}

impl PlotCtx {
    /// The state that a new plot starts from.
    pub closed spec fn initial(&self) -> Memory {
        self.initial
    }

    /// Every stored state and the initial state are well formed, and the
    /// initial state is not dragging.
    pub closed spec fn wf(&self) -> bool {
        &&& self.initial.wf()
        &&& self.initial.last_pos is None
        &&& forall|k: u64| #[trigger] self.states@.contains_key(k) ==> self.states@[k].wf()
    }

    /// Every stored state is well formed.
    pub open spec fn states_wf(&self) -> bool {
        forall|k: u64| #[trigger] self@.contains_key(k) ==> self@[k].wf()
    }

    /// What a well-formed registry guarantees its callers: each stored state is
    /// well formed, and a new plot starts from a well-formed state that is not
    /// dragging.
    pub proof fn lemma_wf(&self)
        requires
            self.wf(),
        ensures
            self.states_wf(),
            self.initial().wf(),
            self.initial().last_pos is None,
    {
    }

    /// An empty registry whose new plots start from `[y_start, y_end]`
    /// (corrected as `Memory::set_y_range` does).
    pub fn with_default(y_start: i64, y_end: i64) -> (r: PlotCtx)
        ensures
            r.wf(),
            r@ == Map::<u64, Memory>::empty(),
            (r.initial().y_start as int, r.initial().y_end as int) == spec_normalize(
                y_start as int,
                y_end as int,
            ),
            r.initial().last_pos is None,
    {
        PlotCtx { states: HashMap::new(), initial: Memory::with_range(y_start, y_end) }
    }

    /// The state of plot `id`, created from the initial state if the plot has
    /// none yet. A second call with the same id gives the stored state back.
    pub fn get_or_create(&mut self, id: u64) -> (m: Memory)
        requires
            old(self).wf(),
        ensures
            final(self).wf(),
            final(self).initial() == old(self).initial(),
            old(self)@.contains_key(id) ==> m == old(self)@[id] && final(self)@ == old(self)@,
            !old(self)@.contains_key(id) ==> m == old(self).initial() && final(self)@ == old(
                self,
            )@.insert(id, m),
            m.wf(),
    {
        match self.states.get(&id) {
            Some(m) => *m,
            None => {
                let m = self.initial;
                self.states.insert(id, m);
                m
            },
        }
    }

    /// Whether plot `id` has a state.
    pub fn contains(&self, id: u64) -> (r: bool)
        ensures
            r == self@.contains_key(id),
    {
        self.states.contains_key(&id)
    }

    /// The number of plots with a state.
    pub fn len(&self) -> (r: usize)
        ensures
            r == self@.len(),
    {
        self.states.len()
    }

    /// Replaces the state of plot `id`.
    pub fn store(&mut self, id: u64, m: Memory)
        requires
            old(self).wf(),
            m.wf(),
        ensures
            final(self).wf(),
            final(self).initial() == old(self).initial(),
            final(self)@ == old(self)@.insert(id, m),
    {
        self.states.insert(id, m);
    }

    /// One frame of gestures on plot `id` (created first if need be): the
    /// state after the frame is stored and returned.
    pub fn apply_gestures(
        &mut self,
        id: u64,
        r: &ScreenRect,
        input: &PointerInput,
        drag: bool,
        zoom: bool,
    ) -> (m: Memory)
        requires
            old(self).wf(),
        ensures
            final(self).wf(),
            final(self).initial() == old(self).initial(),
            m == spec_gestures(
                if old(self)@.contains_key(id) {
                    old(self)@[id]
                } else {
                    old(self).initial()
                },
                *r,
                *input,
                drag,
                zoom,
            ),
            final(self)@ == old(self)@.insert(id, m),
            m.wf(),
    {
        let mut m = self.get_or_create(id);
        m.apply_gestures(r, input, drag, zoom);
        self.store(id, m);
        m
    }
}

impl Default for PlotCtx {
    /// An empty registry whose new plots start from `[-300, 300]`.
    fn default() -> (r: PlotCtx)
        ensures
            r.wf(),
            r@ == Map::<u64, Memory>::empty(),
            r.initial().y_start == -300,
            r.initial().y_end == 300,
            r.initial().last_pos is None,
    {
        PlotCtx { states: HashMap::new(), initial: Memory::with_range(-300, 300) }
    }
}

} // verus!
