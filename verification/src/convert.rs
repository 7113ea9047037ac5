//! The conversions between [`Orwith`] and a pair of optional values, and the
//! default value.
use vstd::prelude::*;
use crate::Orwith;

verus! {

impl<T> Default for Orwith<T> {
    /// Nothing is held: what two absent values make.
    fn default() -> (r: Self)
        ensures
            r == Self::spec_default(),
            r == Self::orwith(None, None),
    {
        Self::Neither
    }
}

impl<T> From<(Option<T>, Option<T>)> for Orwith<T> {
    /// [`Orwith::orwith`] of the pair's two components.
    fn from(v: (Option<T>, Option<T>)) -> (r: Self)
        ensures
            r == Orwith::orwith(v.0, v.1),
    {
        Self::orwith(v.0, v.1)
    }
}

impl<T> vstd::std_specs::convert::FromSpecImpl<(Option<T>, Option<T>)> for Orwith<T> {
    open spec fn obeys_from_spec() -> bool {
        true
    }

    open spec fn from_spec(v: (Option<T>, Option<T>)) -> Self {
        Orwith::orwith(v.0, v.1)
    }
}

impl<T> Into<(Option<T>, Option<T>)> for Orwith<T> {
    /// [`Orwith::to_pair`] of the value.
    fn into(self) -> (Option<T>, Option<T>)
        returns
            self.to_pair(),
    {
        self.to_pair()
    }
}

impl<T> vstd::std_specs::convert::IntoSpecImpl<(Option<T>, Option<T>)> for Orwith<T> {
    open spec fn obeys_into_spec() -> bool {
        true
    }

    open spec fn into_spec(self) -> (Option<T>, Option<T>) {
        self.to_pair()
    }
}

} // verus!
