use vstd::prelude::*;

verus! {

broadcast use vstd::string::group_string_axioms;

/// Default parent/root path: `"."` (the root node of the scene).
pub fn default_root() -> (r: String)
    ensures
        r@ == seq!['.'],
{
    proof {
        reveal_strlit(".");
    }
    String::from_str(".")
}

/// Default boolean true — used for optional flags that default to enabled.
pub fn default_true() -> (b: bool)
    ensures
        b,
{
    true
}

} // verus!
