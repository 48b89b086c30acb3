use vstd::prelude::*;

verus! {

/// The name under which a module imported as `module_name` from the module
/// `module_base_name` is loaded: the name as it was written.
pub fn normalize_module_name(module_base_name: &str, module_name: &str) -> (r: String)
    ensures
        r@ == module_name@,
{
    module_name.to_string()
}

} // verus!
