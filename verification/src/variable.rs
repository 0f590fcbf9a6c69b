//! A reference to a declared name of the source program.

use std::marker::PhantomData;
use vstd::prelude::*;

verus! {

/// A declared name, tied to the field type `F` of the compilation it belongs
/// to. The marker has no runtime representation and is never read; it only
/// keeps a variable of one field type from being used with a store of
/// another.
#[derive(Debug)]
pub struct Variable<F> {
    pub name: String,
    pub _field: PhantomData<F>,
}

impl<F> View for Variable<F> {
    type V = Seq<char>;

    /// A variable is its name.
    open spec fn view(&self) -> Seq<char> {
        self.name@
    }
}

impl<F> Variable<F> {
    /// The variable called `name`.
    pub fn new(name: String) -> (variable: Self)
        ensures
            variable@ == name@,
    {
        Variable { name, _field: PhantomData }
    }
}

impl<F> Clone for Variable<F> {
    fn clone(&self) -> (copy: Self)
        ensures
            copy@ == self@,
    {
        Variable { name: self.name.clone(), _field: PhantomData }
    }
}

impl<F> PartialEq for Variable<F> {
    fn eq(&self, other: &Self) -> (equal: bool) {
        self.name == other.name
    }
}

impl<F> Eq for Variable<F> {

}

impl<F> vstd::std_specs::cmp::PartialEqSpecImpl for Variable<F> {
    open spec fn obeys_eq_spec() -> bool {
        true
    }

    /// Two variables are equal when they name the same thing.
    open spec fn eq_spec(&self, other: &Self) -> bool {
        self@ == other@
    }
}

} // verus!
