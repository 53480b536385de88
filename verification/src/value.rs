//! Values that are copied and compared by what they hold.
//!
//! A `String` or a `Vec` is known to the verifier only through its view, so
//! two values count as the same when their deep views are equal. The trait
//! here gives every stored type a copy and a comparison stated that way.

use vstd::prelude::*;

verus! {

/// A type whose values can be copied and compared field by field, with both
/// operations stated over the deep view.
pub trait ViewEq: DeepView + Sized {
    /// A copy that holds exactly what `self` holds.
    fn duplicate(&self) -> (r: Self)
        ensures
            r.deep_view() == self.deep_view(),
    ;

    /// Whether `self` and `other` hold the same contents.
    fn same(&self, other: &Self) -> (b: bool)
        ensures
            b == (self.deep_view() == other.deep_view()),
    ;
}

impl ViewEq for String {
    fn duplicate(&self) -> (r: Self) {
        self.clone()
    }

    fn same(&self, other: &Self) -> (b: bool) {
        *self == *other
    }
}

/// Copies a vector element by element.
pub fn duplicate_all<T: ViewEq>(items: &Vec<T>) -> (r: Vec<T>)
    ensures
        r.deep_view() == items.deep_view(),
{
    let mut out: Vec<T> = Vec::new();
    let mut i: usize = 0;
    while i < items.len()
        invariant
            i <= items@.len(),
            out@.len() == i,
            forall|k: int| 0 <= k < i ==> out@[k].deep_view() == items@[k].deep_view(),
        decreases items@.len() - i,
    {
        out.push(items[i].duplicate());
        i = i + 1;
    }
    assert(out.deep_view() =~= items.deep_view());
    out
}

/// Compares two vectors element by element.
pub fn same_all<T: ViewEq>(a: &Vec<T>, b: &Vec<T>) -> (r: bool)
    ensures
        r == (a.deep_view() == b.deep_view()),
{
    if a.len() != b.len() {
        assert(a.deep_view().len() != b.deep_view().len());
        return false;
    }
    let mut i: usize = 0;
    while i < a.len()
        invariant
            i <= a@.len(),
            a@.len() == b@.len(),
            forall|k: int| 0 <= k < i ==> a@[k].deep_view() == b@[k].deep_view(),
        decreases a@.len() - i,
    {
        if !a[i].same(&b[i]) {
            assert(a.deep_view()[i as int] != b.deep_view()[i as int]);
            return false;
        }
        i = i + 1;
    }
    assert(a.deep_view() =~= b.deep_view());
    true
}

/// The deep view of an optional value.
pub open spec fn option_view<T: DeepView>(value: Option<T>) -> Option<T::V> {
    match value {
        Some(inner) => Some(inner.deep_view()),
        None => None,
    }
}

/// Copies an optional value.
pub fn duplicate_option<T: ViewEq>(value: &Option<T>) -> (r: Option<T>)
    ensures
        option_view(r) == option_view(*value),
{
    match value {
        Some(inner) => Some(inner.duplicate()),
        None => None,
    }
}

/// Compares two optional values.
pub fn same_option<T: ViewEq>(a: &Option<T>, b: &Option<T>) -> (r: bool)
    ensures
        r == (option_view(*a) == option_view(*b)),
{
    match (a, b) {
        (Some(x), Some(y)) => x.same(y),
        (None, None) => true,
        _ => false,
    }
}

} // verus!
