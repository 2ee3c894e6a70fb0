//! Cloning helpers
//!
//! The client facade hands out owned copies of its cached resource APIs, so
//! the resource types implement `Clone` with contracts that pin the copy to
//! the original.  These helpers copy the field shapes that recur across the
//! resource models.

use vstd::prelude::*;

verus! {

/// Copies a vector whose element type clones exactly (the clone of an
/// element equals the element, as `String` does).
pub fn clone_vec_exact<T: Clone>(v: &Vec<T>) -> (r: Vec<T>)
    requires
        forall|x: &T, y: T| call_ensures(T::clone, (x,), y) ==> y == *x,
    ensures
        r@ == v@,
{
    let mut r: Vec<T> = Vec::new();
    let mut i: usize = 0;
    while i < v.len()
        invariant
            i <= v@.len(),
            r@ =~= v@.take(i as int),
            forall|x: &T, y: T| call_ensures(T::clone, (x,), y) ==> y == *x,
        decreases v@.len() - i,
    {
        r.push(v[i].clone());
        i = i + 1;
        proof {
            assert(r@ =~= v@.take(i as int));
        }
    }
    proof {
        assert(v@.take(i as int) =~= v@);
    }
    r
}

/// Copies an optional string.
pub fn clone_opt_string(o: &Option<String>) -> (r: Option<String>)
    ensures
        r == *o,
{
    match o {
        Some(s) => Some(s.clone()),
        None => None,
    }
}

/// Copies an optional vector of strings.
pub fn clone_opt_string_vec(o: &Option<Vec<String>>) -> (r: Option<Vec<String>>)
    ensures
        r is Some <==> *o is Some,
        r is Some ==> r->0@ == (*o)->0@,
{
    match o {
        Some(v) => Some(clone_vec_exact(v)),
        None => None,
    }
}

} // verus!
