//! Types that introduce themselves.
use vstd::prelude::*;

verus! {

/// A type that can say hello with its own name.
pub trait HelloMacro {
    /// The greeting.
    spec fn spec_greeting() -> Seq<char>;

    /// The greeting.
    fn hello_macro() -> (r: String)
        ensures
            r@ == Self::spec_greeting(),
    ;
}

/// A stack of pancakes.
pub struct Pancakes;

impl HelloMacro for Pancakes {
    open spec fn spec_greeting() -> Seq<char> {
        "Hello, Macro! My name is Pancakes!"@
    }

    fn hello_macro() -> (r: String) {
        String::from_str("Hello, Macro! My name is Pancakes!")
    }
}

} // verus!
