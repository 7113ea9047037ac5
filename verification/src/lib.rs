//! One value, another, or the two together.
//!
//! [`Orwith`] holds zero, one or two values of a type. It is built from two
//! optional values: both present give [`Orwith::With`], one present gives
//! [`Orwith::Or`], whichever of the two it was, and none gives
//! [`Orwith::Neither`].
//!
//! Every operation is total. The contracts are stated over the variants and
//! over the view of a value, the sequence of the values it holds; the module
//! [`laws`] proves what holds between the operations.
use vstd::prelude::*;

pub mod convert;
pub mod laws;

verus! {

/// Zero, one or two values.
#[derive(Debug)]
pub enum Orwith<T> {
    /// Nothing is held.
    Neither,
    /// Two values are held: the first slot, then the second.
    With(T, T),
    /// One value is held. Which of two candidates it once was is not kept.
    Or(T),
}

impl<T> View for Orwith<T> {
    type V = Seq<T>;

    /// The values held, the first slot first.
    open spec fn view(&self) -> Seq<T> {
        match *self {
            Orwith::Neither => seq![],
            Orwith::With(a, b) => seq![a, b],
            Orwith::Or(v) => seq![v],
        }
    }
}

/// The values that an optional value holds: one or none.
pub open spec fn held<T>(x: Option<T>) -> Seq<T> {
    match x {
        Some(v) => seq![v],
        None => seq![],
    }
}

impl<T> Orwith<T> {
    /// What [`Orwith::orwith`] makes of two optional values.
    pub open spec fn spec_orwith(x: Option<T>, y: Option<T>) -> Self {
        match (x, y) {
            (Some(a), Some(b)) => Orwith::With(a, b),
            (Some(a), None) => Orwith::Or(a),
            (None, Some(b)) => Orwith::Or(b),
            (None, None) => Orwith::Neither,
        }
    }

    /// The value that `Default` gives: nothing is held.
    pub open spec fn spec_default() -> Self {
        Orwith::Neither
    }

    /// The first item: the value in the first slot, or the lone value.
    pub open spec fn spec_first(self) -> Option<T> {
        match self {
            Orwith::Neither => None,
            Orwith::With(a, _) => Some(a),
            Orwith::Or(v) => Some(v),
        }
    }

    /// The last item: the value in the second slot, or else the first item.
    pub open spec fn spec_last(self) -> Option<T> {
        match self {
            Orwith::With(_, b) => Some(b),
            _ => self.spec_first(),
        }
    }

    /// The same shape with `v` in place of the first item.
    pub open spec fn set_first(self, v: T) -> Self {
        match self {
            Orwith::Neither => Orwith::Neither,
            Orwith::With(_, b) => Orwith::With(v, b),
            Orwith::Or(_) => Orwith::Or(v),
        }
    }

    /// The same shape with `v` in place of the last item.
    pub open spec fn set_last(self, v: T) -> Self {
        match self {
            Orwith::Neither => Orwith::Neither,
            Orwith::With(a, _) => Orwith::With(a, v),
            Orwith::Or(_) => Orwith::Or(v),
        }
    }

    /// What [`Orwith::to_pair`] takes a value apart into. A lone value
    /// stands first.
    pub open spec fn spec_to_pair(self) -> (Option<T>, Option<T>) {
        match self {
            Orwith::Neither => (None, None),
            Orwith::With(a, b) => (Some(a), Some(b)),
            Orwith::Or(v) => (Some(v), None),
        }
    }

    /// Takes two options and decides the variant by which of them hold a
    /// value. Where only one does, that value is kept, whether it was `x` or
    /// `y`.
    #[verifier::when_used_as_spec(spec_orwith)]
    pub fn orwith(x: Option<T>, y: Option<T>) -> (r: Self)
        ensures
            r == Self::spec_orwith(x, y),
            r is With <==> x is Some && y is Some,
            r is Or <==> (x is Some) != (y is Some),
            r is Neither <==> x is None && y is None,
            r@ == held(x) + held(y),
    {
        match (x, y) {
            (Some(vx), Some(vy)) => Self::With(vx, vy),
            (Some(v), _) | (_, Some(v)) => Self::Or(v),
            _ => Self::Neither,
        }
    }

    /// Returns a mutable reference to the first item. What is written
    /// through it takes the first item's place; the shape and the other slot
    /// stay as they were.
    pub fn first_mut(&mut self) -> (r: Option<&mut T>)
        ensures
            r is None <==> *old(self) is Neither,
            r is None ==> *final(self) == *old(self),
            r matches Some(slot) ==> old(self).spec_first() == Some(*slot) && *final(self)
                == old(self).set_first(*final(slot)),
    {
        match self {
            Self::Neither => None,
            Self::With(v, _) => Some(v),
            Self::Or(v) => Some(v),
        }
    }

    /// Returns a mutable reference to the last item. What is written
    /// through it takes the last item's place; the shape and the other slot
    /// stay as they were.
    pub fn last_mut(&mut self) -> (r: Option<&mut T>)
        ensures
            r is None <==> *old(self) is Neither,
            r is None ==> *final(self) == *old(self),
            r matches Some(slot) ==> old(self).spec_last() == Some(*slot) && *final(self)
                == old(self).set_last(*final(slot)),
    {
        match self {
            Self::With(_, v) => Some(v),
            _ => self.first_mut(),
        }
    }

    /// Consumes the value and returns the first component of
    /// [`Orwith::to_pair`], which is the first item.
    pub fn to_first(self) -> (r: Option<T>)
        ensures
            r == self.spec_to_pair().0,
            r == self.spec_first(),
    {
        self.to_pair().0
    }

    /// Consumes the value and returns the second component of
    /// [`Orwith::to_pair`]. A lone value does not come out here, though it is
    /// the last item.
    pub fn to_last(self) -> (r: Option<T>)
        ensures
            r == self.spec_to_pair().1,
            r is Some <==> self is With,
    {
        self.to_pair().1
    }

    /// Consumes the value and returns what it held, slot by slot. A lone
    /// value comes first, wherever it once came from.
    #[verifier::when_used_as_spec(spec_to_pair)]
    pub fn to_pair(self) -> (p: (Option<T>, Option<T>))
        ensures
            p == self.spec_to_pair(),
    {
        match self {
            Self::With(x, y) => (Some(x), Some(y)),
            Self::Or(v) => (Some(v), None),
            _ => (None, None),
        }
    }

    /// Returns a reference to the first item. There is none only where
    /// nothing is held.
    pub fn first(&self) -> (r: Option<&T>)
        ensures
            r is None <==> *self is Neither,
            r matches Some(v) ==> self.spec_first() == Some(*v),
    {
        match self {
            Self::Neither => None,
            Self::With(v, _) => Some(&v),
            Self::Or(v) => Some(&v),
        }
    }

    /// Returns a reference to the last item: the second of two values, or
    /// else whatever [`Orwith::first`] gives.
    pub fn last(&self) -> (r: Option<&T>)
        ensures
            r is None <==> *self is Neither,
            r matches Some(v) ==> self.spec_last() == Some(*v),
    {
        match self {
            Self::With(_, v) => Some(v),
            _ => self.first(),
        }
    }
}

} // verus!
