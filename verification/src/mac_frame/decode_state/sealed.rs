//! Keeps the set of decode states closed.
use vstd::prelude::*;

verus! {

pub trait Sealed {

}

} // verus!
