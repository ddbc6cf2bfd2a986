//! A non-empty [`Vec`] wrapper, used wherever C syntax forbids empty lists
//! (enumerator lists, member groups, declarator lists).
use vstd::prelude::*;

verus! {

/// The one construction error: the supplied list was empty.
#[derive(Debug)]
pub enum Error {
    Empty,
}

/// A vector with at least one element. [`NonEmptyVec::new`] is the only
/// constructor and rejects empty input, so every value of this type holds at
/// least one element.
pub struct NonEmptyVec<T>(Vec<T>);

impl<T> View for NonEmptyVec<T> {
    type V = Seq<T>;

    closed spec fn view(&self) -> Seq<T> {
        self.0@
    }
}

impl<T> NonEmptyVec<T> {
    /// The invariant every value of this type carries: it is non-empty.
    #[verifier::type_invariant]
    pub closed spec fn non_empty(self) -> bool {
        self.0@.len() > 0
    }

    /// Wraps `value`, rejecting an empty vector; succeeds if and only if
    /// `value` has at least one element, and keeps it unchanged.
    pub fn new(value: Vec<T>) -> (r: Result<NonEmptyVec<T>, Error>)
        ensures
            match r {
                Ok(v) => v@ == value@ && v@.len() > 0,
                Err(_) => value@.len() == 0,
            },
    {
        if value.len() == 0 {
            return Err(Error::Empty);
        }
        Ok(NonEmptyVec(value))
    }

    /// The number of elements; always at least one.
    pub fn len(&self) -> (n: usize)
        ensures
            n == self@.len(),
            n > 0,
    {
        proof {
            use_type_invariant(self);
        }
        self.0.len()
    }

    /// The element at `i`.
    pub fn get(&self, i: usize) -> (r: &T)
        requires
            i < self@.len(),
        ensures
            *r == self@[i as int],
    {
        &self.0[i]
    }

    /// The elements as a plain vector slice, for iteration.
    pub fn as_vec(&self) -> (r: &Vec<T>)
        ensures
            r@ == self@,
    {
        &self.0
    }
}

/// The view of a non-empty vector stands below the vector itself in the
/// well-founded order that recursive definitions descend along.
pub broadcast proof fn lemma_non_empty_vec_view_decreases<T>(v: NonEmptyVec<T>)
    ensures
        #[trigger] (decreases_to!(v => v@)),
{
    broadcast use vstd::std_specs::vec::axiom_vec_decreases_to_view;

    assert(decreases_to!(v => v.0));
    assert(decreases_to!(v.0 => v.0@));
}

} // verus!
