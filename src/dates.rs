use crate::promise::{is_instance_by_name, is_instance_of_by_name};
use vstd::prelude::*;

verus! {

/// Whether an object whose prototype chain holds the constructors named in
/// `prototype_chain` is a `Date`.
pub fn is_date(prototype_chain: &Vec<String>) -> (r: bool)
    ensures
        r == is_instance_by_name(prototype_chain@, "Date"@),
{
    proof {
        reveal_strlit("Date");
    }
    is_instance_of_by_name(prototype_chain, "Date")
}

} // verus!
