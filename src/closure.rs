//! Functions that take closures.
use vstd::prelude::*;

verus! {

/// The value inside `input`, or what `f` makes where there is none.
pub fn unwrap_or_else<T, F: FnOnce() -> T>(input: Option<T>, f: F) -> (r: T)
    requires
        input is None ==> f.requires(()),
    ensures
        input matches Some(x) ==> r == x,
        input is None ==> f.ensures((), r),
{
    match input {
        Some(x) => x,
        None => f(),
    }
}

/// Calls `f` on `p`.
pub fn test2<T, F: FnOnce(u32) -> T>(f: F, p: u32) -> (r: T)
    requires
        f.requires((p,)),
    ensures
        f.ensures((p,), r),
{
    f(p)
}

/// Calls `f` on `input`, once.
pub fn exec<'a, F: FnMut(&'a str)>(input: &'a str, mut f: F)
    requires
        f.requires((input,)),
    ensures
        f.ensures((input,), ()),
{
    f(input)
}

/// Calls `f` on `input`, once.
pub fn exec2<F: FnMut(&str)>(input: &str, mut f: F)
    requires
        f.requires((input,)),
    ensures
        f.ensures((input,), ()),
{
    f(input)
}

} // verus!
