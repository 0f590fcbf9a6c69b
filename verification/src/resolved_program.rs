//! The store of resolved names: which name is bound to which value during one
//! compilation pass.
//!
//! The store is a flat table. Scopes are kept apart by the names themselves
//! (see [`crate::scope`]), so nothing is ever removed: the bindings of a
//! finished scope stay where they are and are simply never asked for again.

use crate::variable::Variable;
use std::marker::PhantomData;
use vstd::hash_map::StringHashMap;
use vstd::prelude::*;

verus! {

/// What `bindings` holds under `name`, if anything.
pub open spec fn lookup<R>(bindings: Map<Seq<char>, R>, name: Seq<char>) -> Option<R> {
    if bindings.contains_key(name) {
        Some(bindings[name])
    } else {
        None
    }
}

/// The bindings of a store that started empty and was given the pairs of
/// `history`, each a name and a value, one after the other.
pub open spec fn stored_all<R>(history: Seq<(Seq<char>, R)>) -> Map<Seq<char>, R>
    decreases history.len(),
{
    if history.len() == 0 {
        Map::empty()
    } else {
        stored_all(history.drop_last()).insert(history.last().0, history.last().1)
    }
}

/// The names bound to resolved values of type `R`, for a compilation over the
/// field `F` that targets the constraint system `CS`.
///
/// The store does not look inside a value; it keeps it until the name is bound
/// again or the store is dropped. Its view is the map from each bound name to
/// its value.
///
/// Values sit in a table and a hash map sends each name to its place there,
/// so that a binding can be handed out for writing without touching the map.
pub struct ResolvedProgram<F, CS, R> {
    slots: StringHashMap<usize>,
    values: Vec<R>,
    _field: PhantomData<F>,
    _cs: PhantomData<CS>,
}

impl<F, CS, R> View for ResolvedProgram<F, CS, R> {
    type V = Map<Seq<char>, R>;

    closed spec fn view(&self) -> Map<Seq<char>, R> {
        Map::new(
            |name: Seq<char>| self.slots@.contains_key(name),
            |name: Seq<char>| self.values@[self.slots@[name] as int],
        )
    }
}

impl<F, CS, R> ResolvedProgram<F, CS, R> {
    /// Every name points into the table, and no two names share a place.
    #[verifier::type_invariant]
    spec fn well_formed(&self) -> bool {
        &&& forall|name: Seq<char>| #[trigger]
            self.slots@.contains_key(name) ==> self.slots@[name] < self.values.len()
        &&& forall|a: Seq<char>, b: Seq<char>|
            self.slots@.contains_key(a) && self.slots@.contains_key(b) && self.slots@[a]
                == self.slots@[b] ==> a == b
    }

    /// A store with no bindings.
    pub fn new() -> (program: Self)
        ensures
            program@ == Map::<Seq<char>, R>::empty(),
    {
        let program = ResolvedProgram {
            slots: StringHashMap::new(),
            values: Vec::new(),
            _field: PhantomData,
            _cs: PhantomData,
        };
        assert(program@ =~= Map::<Seq<char>, R>::empty());
        program
    }

    /// Binds `name` to `value`. An earlier binding of `name` is replaced; every
    /// other binding stays as it was.
    pub fn store(&mut self, name: String, value: R)
        ensures
            final(self)@ == old(self)@.insert(name@, value),
    {
        proof {
            use_type_invariant(&*self);
        }
        match self.slots.get(name.as_str()) {
            Some(slot) => {
                let place: usize = *slot;
                self.values[place] = value;
            },
            None => {
                // The table and the map grow together; both are taken out
                // for the step, so that the store is whole at every point.
                let mut slots = StringHashMap::new();
                let mut values = Vec::new();
                std::mem::swap(&mut self.slots, &mut slots);
                std::mem::swap(&mut self.values, &mut values);
                let place: usize = values.len();
                values.push(value);
                slots.insert(name, place);
                std::mem::swap(&mut self.values, &mut values);
                std::mem::swap(&mut self.slots, &mut slots);
            },
        }
        assert(self@ =~= old(self)@.insert(name@, value));
    }

    /// Binds the name of `variable` to `value`, as [`Self::store`] does.
    pub fn store_variable(&mut self, variable: Variable<F>, value: R)
        ensures
            final(self)@ == old(self)@.insert(variable@, value),
    {
        self.store(variable.name, value);
    }

    /// Whether `name` is bound.
    pub fn contains_name(&self, name: &String) -> (present: bool)
        ensures
            present == self@.contains_key(name@),
    {
        self.slots.contains_key(name.as_str())
    }

    /// Whether the name of `variable` is bound.
    pub fn contains_variable(&self, variable: &Variable<F>) -> (present: bool)
        ensures
            present == self@.contains_key(variable@),
    {
        self.contains_name(&variable.name)
    }

    /// The value bound to `name`, or `None` where `name` is not bound.
    pub fn get(&self, name: &String) -> (value: Option<&R>)
        ensures
            match value {
                Some(bound) => lookup(self@, name@) == Some(*bound),
                None => lookup(self@, name@) is None,
            },
    {
        proof {
            use_type_invariant(self);
        }
        match self.slots.get(name.as_str()) {
            Some(slot) => Some(&self.values[*slot]),
            None => None,
        }
    }

    /// The value bound to `name`, for writing, or `None` where `name` is not
    /// bound. Whatever the caller leaves in it is what `name` is bound to
    /// afterwards; no other binding changes, and none appears.
    pub fn get_mut(&mut self, name: &String) -> (value: Option<&mut R>)
        ensures
            match value {
                Some(bound) => lookup(old(self)@, name@) == Some(*bound) && final(self)@ == old(
                    self,
                )@.insert(name@, *final(bound)),
                None => lookup(old(self)@, name@) is None && final(self)@ == old(self)@,
            },
            final(self)@.dom() == old(self)@.dom(),
    {
        proof {
            use_type_invariant(&*self);
        }
        match self.slots.get(name.as_str()) {
            Some(slot) => {
                let place: usize = *slot;
                Some(&mut self.values[place])
            },
            None => None,
        }
    }

    /// The value bound to the name of `variable`, for writing, as
    /// [`Self::get_mut`] gives it.
    pub fn get_mut_variable(&mut self, variable: &Variable<F>) -> (value: Option<&mut R>)
        ensures
            match value {
                Some(bound) => lookup(old(self)@, variable@) == Some(*bound) && final(self)@
                    == old(self)@.insert(variable@, *final(bound)),
                None => lookup(old(self)@, variable@) is None && final(self)@ == old(self)@,
            },
            final(self)@.dom() == old(self)@.dom(),
    {
        self.get_mut(&variable.name)
    }
}

/// A value that was just stored is the value that a lookup of its name finds.
pub proof fn lemma_lookup_after_store<R>(bindings: Map<Seq<char>, R>, name: Seq<char>, value: R)
    ensures
        bindings.insert(name, value).contains_key(name),
        lookup(bindings.insert(name, value), name) == Some(value),
{
}

/// Of two values stored under one name the second is the one that stays: the
/// store is as if the first had never been stored.
pub proof fn lemma_store_overwrites<R>(
    bindings: Map<Seq<char>, R>,
    name: Seq<char>,
    first: R,
    second: R,
)
    ensures
        lookup(bindings.insert(name, first).insert(name, second), name) == Some(second),
        bindings.insert(name, first).insert(name, second) == bindings.insert(name, second),
{
    assert(bindings.insert(name, first).insert(name, second) =~= bindings.insert(name, second));
}

/// Storing under one name leaves every other name as it was, bound or not.
pub proof fn lemma_store_keeps_other_names<R>(
    bindings: Map<Seq<char>, R>,
    name: Seq<char>,
    value: R,
    other: Seq<char>,
)
    requires
        other != name,
    ensures
        lookup(bindings.insert(name, value), other) == lookup(bindings, other),
{
}

/// A name that was never stored is not bound: a store that started empty and
/// was only ever given other names holds nothing under it.
pub proof fn lemma_never_stored_is_absent<R>(history: Seq<(Seq<char>, R)>, name: Seq<char>)
    requires
        forall|i: int| 0 <= i < history.len() ==> (#[trigger] history[i]).0 != name,
    ensures
        !stored_all(history).contains_key(name),
        lookup(stored_all(history), name) is None,
    decreases history.len(),
{
    if history.len() > 0 {
        lemma_never_stored_is_absent(history.drop_last(), name);
    }
}

/// To store, look up or test by a variable is to do so by its name.
pub proof fn lemma_variable_is_its_name<F, R>(
    bindings: Map<Seq<char>, R>,
    variable: Variable<F>,
    value: R,
)
    ensures
        bindings.insert(variable@, value) == bindings.insert(variable.name@, value),
        lookup(bindings.insert(variable@, value), variable.name@) == Some(value),
        bindings.contains_key(variable@) == bindings.contains_key(variable.name@),
        lookup(bindings, variable@) == lookup(bindings, variable.name@),
{
}

} // verus!
