//! A message shown to the operator as a toast.
use vstd::prelude::*;

verus! {

#[derive(Clone, Debug)]
pub struct ErrorToast {
    pub msg: String,
}

} // verus!
