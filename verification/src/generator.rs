use vstd::prelude::*;

verus! {

/// A pull-based element generator: it owns a copy of the input sequence and
/// hands its elements out one at a time, front first. Once the copy is empty,
/// every further call reports exhaustion, indefinitely.
pub struct ElementGenerator<T> {
    items: Vec<T>,
}

impl<T> View for ElementGenerator<T> {
    type V = Seq<T>;

    /// The elements the generator has yet to hand out, in order.
    closed spec fn view(&self) -> Seq<T> {
        self.items@
    }
}

impl<T> ElementGenerator<T> {
    /// Hands out the next remaining element, or `None` — the exhausted
    /// signal, not an error — once no element is left. Calling it on an
    /// exhausted generator leaves the generator unchanged, so exhaustion is
    /// reported forever after.
    pub fn next(&mut self) -> (r: Option<T>)
        ensures
            old(self)@.len() == 0 ==> r is None && final(self)@ == old(self)@,
            old(self)@.len() > 0 ==> r == Some(old(self)@[0]) && final(self)@ == old(self)@.skip(
                1,
            ),
    {
        if self.items.is_empty() {
            return None;
        }
        let curr_element = self.items.remove(0);
        proof {
            assert(self.items@ =~= old(self)@.skip(1));
        }
        Some(curr_element)
    }
}

/// Builds a generator over an owned copy of `list`, so later mutation of the
/// caller's data cannot affect what the generator produces.
pub fn make_element_generator<T>(list: Vec<T>) -> (g: ElementGenerator<T>)
    ensures
        g@ == list@,
{
    ElementGenerator { items: list }
}

} // verus!
