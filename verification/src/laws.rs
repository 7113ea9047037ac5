//! What holds between the operations of [`Orwith`], for all values.
use vstd::prelude::*;
use crate::Orwith;

verus! {

/// Two absent values make the default value, which holds nothing.
pub proof fn lemma_orwith_of_none_is_default<T>()
    ensures
        Orwith::<T>::orwith(None, None) == Orwith::<T>::spec_default(),
        Orwith::<T>::spec_default() is Neither,
        Orwith::<T>::spec_default()@ == Seq::<T>::empty(),
{
}

/// A value has no first item exactly when it is `Neither`, and then it has no
/// last item either.
pub proof fn lemma_first_absent_iff_neither<T>(v: Orwith<T>)
    ensures
        v.spec_first() is None <==> v is Neither,
        v.spec_last() is None <==> v is Neither,
{
}

/// Of two values held together, the first item is the first slot and the last
/// item is the second. Putting a new value into one slot leaves the other as
/// it was.
pub proof fn lemma_with_slots_independent<T>(a: T, b: T, v: T)
    ensures
        Orwith::With(a, b).spec_first() == Some(a),
        Orwith::With(a, b).spec_last() == Some(b),
        Orwith::With(a, b).set_first(v) == Orwith::With(v, b),
        Orwith::With(a, b).set_last(v) == Orwith::With(a, v),
        Orwith::With(a, b).set_first(v).spec_last() == Some(b),
        Orwith::With(a, b).set_last(v).spec_first() == Some(a),
{
}

/// A lone value is both the first item and the last, so a new value put in
/// place of either takes the place of both.
pub proof fn lemma_or_first_is_last<T>(v: T, w: T)
    ensures
        Orwith::Or(v).spec_first() == Some(v),
        Orwith::Or(v).spec_last() == Some(v),
        Orwith::Or(v).spec_first() == Orwith::Or(v).spec_last(),
        Orwith::Or(v).set_first(w) == Orwith::Or(w),
        Orwith::Or(v).set_last(w) == Orwith::Or(w),
{
}

/// Two present values come back from `to_pair` as they went into `orwith`.
pub proof fn lemma_round_trip_of_two<T>(a: T, b: T)
    ensures
        Orwith::orwith(Some(a), Some(b)).to_pair() == (Some(a), Some(b)),
{
}

/// A value that went into `orwith` second and alone comes back from `to_pair`
/// first: the slot it came from is not kept.
pub proof fn lemma_round_trip_of_second_alone<T>(b: T)
    ensures
        Orwith::orwith(None, Some(b)).to_pair() == (Some(b), None::<T>),
        Orwith::orwith(None, Some(b)).to_pair() != (None::<T>, Some(b)),
        Orwith::orwith(None, Some(b)) == Orwith::orwith(Some(b), None),
{
}

/// `to_pair` after `orwith` gives the two values back, but for a lone second
/// value, which moves to the front.
pub proof fn lemma_round_trip<T>(x: Option<T>, y: Option<T>)
    ensures
        Orwith::orwith(x, y).to_pair() == if x is None {
            (y, None::<T>)
        } else {
            (x, y)
        },
{
}

/// `orwith` after `to_pair` gives the value back.
pub proof fn lemma_orwith_of_to_pair<T>(v: Orwith<T>)
    ensures
        Orwith::orwith(v.to_pair().0, v.to_pair().1) == v,
{
}

/// A value holds at most two values, and how many tells its shape.
pub proof fn lemma_view_len<T>(v: Orwith<T>)
    ensures
        v@.len() <= 2,
        v is Neither <==> v@.len() == 0,
        v is Or <==> v@.len() == 1,
        v is With <==> v@.len() == 2,
{
}

/// The first item is the first value held, the last item the last, and
/// `to_pair` lists the values held by their place.
pub proof fn lemma_items_by_view<T>(v: Orwith<T>)
    ensures
        v.spec_first() == if v@.len() > 0 { Some(v@.first()) } else { None },
        v.spec_last() == if v@.len() > 0 { Some(v@.last()) } else { None },
        v.to_pair().0 == if v@.len() > 0 { Some(v@[0]) } else { None },
        v.to_pair().1 == if v@.len() > 1 { Some(v@[1]) } else { None },
{
}

/// Two values that hold the same values in the same order are equal.
pub proof fn lemma_view_injective<T>(v: Orwith<T>, w: Orwith<T>)
    requires
        v@ == w@,
    ensures
        v == w,
{
    lemma_items_by_view(v);
    lemma_items_by_view(w);
    lemma_orwith_of_to_pair(v);
    lemma_orwith_of_to_pair(w);
}

/// Putting a value into the first or the last place changes the values held
/// at that place alone.
pub proof fn lemma_set_by_view<T>(v: Orwith<T>, x: T)
    ensures
        v@.len() > 0 ==> v.set_first(x)@ == v@.update(0, x),
        v@.len() > 0 ==> v.set_last(x)@ == v@.update(v@.len() - 1, x),
        v@.len() == 0 ==> v.set_first(x) == v && v.set_last(x) == v,
{
}

} // verus!
