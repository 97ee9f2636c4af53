//! A small declarative predicate used to scope listings and purges.
use vstd::prelude::*;
use vstd::std_specs::cmp::PartialEqSpec;

verus! {

/// Declarative representation of a limited filter function.
#[derive(Debug, Clone)]
pub enum Filter<T> {
    /// Everything.
    All,
    /// Only the specified values.
    Allow(Vec<T>),
    /// Everything except the specified values.
    Deny(Vec<T>),
}

/// Some value of `values` equals `t`.
pub open spec fn listed<T: PartialEq>(values: Seq<T>, t: &T) -> bool {
    exists|i: int| 0 <= i < values.len() && #[trigger] values[i].eq_spec(t)
}

/// Whether `values` holds a value equal to `t`.
pub fn list_contains<T: PartialEq>(values: &Vec<T>, t: &T) -> (r: bool)
    ensures
        T::obeys_eq_spec() ==> r == listed(values@, t),
{
    let mut i: usize = 0;
    while i < values.len()
        invariant
            i <= values.len(),
            T::obeys_eq_spec() ==> forall|j: int| 0 <= j < i ==> !(#[trigger] values@[j].eq_spec(t)),
        decreases values.len() - i,
    {
        if values[i] == *t {
            return true;
        }
        i = i + 1;
    }
    false
}

impl<T: PartialEq> Filter<T> {
    /// What the filter lets through.
    pub open spec fn admits(&self, t: &T) -> bool {
        match self {
            Filter::All => true,
            Filter::Allow(values) => listed(values@, t),
            Filter::Deny(values) => !listed(values@, t),
        }
    }

    /// Whether the filter lets `t` through: `All` lets everything through, `Allow` only the
    /// listed values, `Deny` all but the listed values.
    pub fn contains(&self, t: &T) -> (r: bool)
        ensures
            T::obeys_eq_spec() ==> r == self.admits(t),
    {
        match self {
            Filter::All => true,
            Filter::Allow(values) => list_contains(values, t),
            Filter::Deny(values) => !list_contains(values, t),
        }
    }
}

} // verus!
