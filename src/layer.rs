//! Pluggable simulation and render hooks, dispatched in registration order.
use vstd::prelude::*;

use crate::event::Event;

verus! {

/// A unit of simulation and render logic registered with the engine.
///
/// Each implementation says, through `update_post` and `render_post`, what
/// one call of its hooks does to it.
pub trait Layer: Sized {
    /// `post` is what one simulation step with `events` makes of `self`.
    /// An implementation that does not state it promises nothing.
    open spec fn update_post(&self, events: Seq<Event>, post: Self) -> bool {
        true
    }

    /// `post` is what drawing one frame makes of `self`. An implementation
    /// that does not state it promises nothing.
    open spec fn render_post(&self, post: Self) -> bool {
        true
    }

    /// Runs one simulation step; `events` are the events buffered since the
    /// previous step, in arrival order.
    fn update(&mut self, events: &[Event])
        ensures
            old(self).update_post(events@, *final(self)),
    ;

    /// Draws one frame.
    fn render(&mut self)
        ensures
            old(self).render_post(*final(self)),
    ;
}

/// An ordered sequence of owned layers.
#[derive(Debug)]
pub struct LayerStack<L> {
    layers: Vec<L>,
}

impl<L> View for LayerStack<L> {
    type V = Seq<L>;

    closed spec fn view(&self) -> Seq<L> {
        self.layers@
    }
}

impl<L: Layer> LayerStack<L> {
    /// A stack without layers.
    pub fn new() -> (r: LayerStack<L>)
        ensures
            r@.len() == 0,
    {
        LayerStack { layers: Vec::new() }
    }

    /// Appends `layer` after every layer already registered.
    pub fn push(&mut self, layer: L)
        ensures
            final(self)@ == old(self)@.push(layer),
    {
        self.layers.push(layer);
    }

    /// Number of layers.
    pub fn len(&self) -> (r: usize)
        ensures
            r == self@.len(),
    {
        self.layers.len()
    }

    /// The layer at position `i`, counted from the first registered.
    pub fn get(&self, i: usize) -> (r: &L)
        requires
            i < self@.len(),
        ensures
            *r == self@[i as int],
    {
        &self.layers[i]
    }

    /// Runs one simulation step on every layer, front to back: each layer's
    /// update hook is called once with `events`.
    pub fn update(&mut self, events: &[Event])
        ensures
            final(self)@.len() == old(self)@.len(),
            forall|j: int|
                0 <= j < old(self)@.len() ==> #[trigger] old(self)@[j].update_post(
                    events@,
                    final(self)@[j],
                ),
    {
        let ghost before = self.layers@;
        let n = self.layers.len();
        let mut i: usize = 0;
        while i < n
            invariant
                self.layers.len() == n,
                before.len() == n,
                i <= n,
                forall|j: int| 0 <= j < i ==> #[trigger] before[j].update_post(events@, self.layers@[j]),
                forall|j: int| i <= j < n ==> #[trigger] self.layers@[j] == before[j],
            decreases n - i,
        {
            self.layers[i].update(events);
            i = i + 1;
        }
    }

    /// Draws one frame with every layer, front to back: each layer's render
    /// hook is called once.
    pub fn render(&mut self)
        ensures
            final(self)@.len() == old(self)@.len(),
            forall|j: int|
                0 <= j < old(self)@.len() ==> #[trigger] old(self)@[j].render_post(final(self)@[j]),
    {
        let ghost before = self.layers@;
        let n = self.layers.len();
        let mut i: usize = 0;
        while i < n
            invariant
                self.layers.len() == n,
                before.len() == n,
                i <= n,
                forall|j: int| 0 <= j < i ==> #[trigger] before[j].render_post(self.layers@[j]),
                forall|j: int| i <= j < n ==> #[trigger] self.layers@[j] == before[j],
            decreases n - i,
        {
            self.layers[i].render();
            i = i + 1;
        }
    }
}

} // verus!
