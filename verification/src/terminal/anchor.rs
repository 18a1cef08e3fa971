use vstd::prelude::*;

verus! {

/// The layout node that serves as the insertion anchor: new lines are inserted
/// relative to it.
pub struct TaskLayoutAnchor<N> {
    anchor: Option<N>,
}

impl<N> View for TaskLayoutAnchor<N> {
    type V = Option<N>;

    closed spec fn view(&self) -> Option<N> {
        self.anchor
    }
}

impl<N> TaskLayoutAnchor<N> {
    /// An anchor holding `anchor`.
    pub fn new(anchor: Option<N>) -> (a: Self)
        ensures
            a@ == anchor,
    {
        TaskLayoutAnchor { anchor }
    }

    /// Moves the anchor to `node`.
    pub fn set_anchor(&mut self, node: N)
        ensures
            final(self)@ == Some(node),
    {
        self.anchor = Some(node);
    }

    /// The current anchor.
    pub fn get(&self) -> (r: Option<&N>)
        ensures
            match r {
                Some(n) => self@ == Some(*n),
                None => self@ is None,
            },
    {
        match &self.anchor {
            Some(n) => Some(n),
            None => None,
        }
    }
}

} // verus!
