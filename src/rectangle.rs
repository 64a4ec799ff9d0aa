use vstd::prelude::*;

verus! {

/// A rectangle given by its width (`largeur`) and height (`hauteur`).
///
/// Any pair of dimensions is a valid rectangle, zero included.
#[derive(Debug, Clone, Copy, PartialEq, Eq, Structural)]
pub struct Rectangle {
    pub largeur: u32,
    pub hauteur: u32,
}

impl Rectangle {
    /// The mathematical area, width times height, as an unbounded integer.
    pub open spec fn spec_aire(self) -> int {
        self.largeur * self.hauteur
    }

    /// Strict containment: `self` exceeds `autre` on both axes.
    pub open spec fn spec_peut_contenir(self, autre: Rectangle) -> bool {
        self.largeur > autre.largeur && self.hauteur > autre.hauteur
    }

    /// Returns the area; the product must fit in a `u32`.
    pub fn aire(&self) -> (r: u32)
        requires
            self.spec_aire() <= u32::MAX,
        ensures
            r == self.spec_aire(),
    {
        self.largeur * self.hauteur
    }

    /// Returns whether `autre` fits strictly inside `self`: `self` is wider
    /// and taller. Equal width or equal height means no containment.
    pub fn peut_contenir(&self, autre: &Rectangle) -> (r: bool)
        ensures
            r == self.spec_peut_contenir(*autre),
    {
        self.largeur > autre.largeur && self.hauteur > autre.hauteur
    }
}

/// Containment is asymmetric: if `a` can contain `b`, then `b` cannot contain
/// `a`. In particular, when the dimensions differ on both axes, at most one of
/// the two rectangles can contain the other.
pub proof fn lemma_peut_contenir_asymmetric(a: Rectangle, b: Rectangle)
    ensures
        a.spec_peut_contenir(b) ==> !b.spec_peut_contenir(a),
{
}

/// A rectangle cannot contain another one that is at least as wide, or at
/// least as tall, as itself.
pub proof fn lemma_peut_contenir_needs_both_strict(a: Rectangle, b: Rectangle)
    ensures
        (a.largeur <= b.largeur || a.hauteur <= b.hauteur) ==> !a.spec_peut_contenir(b),
{
}

} // verus!
