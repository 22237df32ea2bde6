//! Functions as values, associated functions, and a newtype over a list.
use vstd::prelude::*;

verus! {

/// A kind of animal that names its young.
pub trait Animal {
    /// What the young are called.
    spec fn spec_baby_name() -> Seq<char>;

    /// What the young are called.
    fn baby_name() -> (r: String)
        ensures
            r@ == Self::spec_baby_name(),
    ;
}

/// A dog.
pub struct Dog;

impl Dog {
    /// The name this dog gives its own pup.
    pub fn baby_name() -> (r: String)
        ensures
            r@ == "Spot"@,
    {
        String::from_str("Spot")
    }
}

impl Animal for Dog {
    open spec fn spec_baby_name() -> Seq<char> {
        "puppy"@
    }

    fn baby_name() -> (r: String) {
        String::from_str("puppy")
    }
}

/// Adds one.
pub fn add_one(x: i32) -> (r: i32)
    requires
        x < i32::MAX,
    ensures
        r == x + 1,
{
    x + 1
}

/// Calls `f` on `arg` twice and adds the two results.
pub fn do_twice<F: Fn(i32) -> i32>(f: F, arg: i32) -> (r: i32)
    requires
        f.requires((arg,)),
        forall|a: i32, b: i32|
            f.ensures((arg,), a) && f.ensures((arg,), b) ==> i32::MIN <= a + b <= i32::MAX,
    ensures
        exists|a: i32, b: i32| f.ensures((arg,), a) && f.ensures((arg,), b) && r == a + b,
{
    let a = f(arg);
    let b = f(arg);
    a + b
}

/// A list of strings that prints as `[a, b, c]`.
pub struct Wrapper(pub Vec<String>);

/// The items of `items` joined by `", "`.
pub open spec fn joined(items: Seq<Seq<char>>) -> Seq<char>
    decreases items.len(),
{
    if items.len() == 0 {
        Seq::empty()
    } else if items.len() == 1 {
        items[0]
    } else {
        joined(items.drop_last()) + ", "@ + items.last()
    }
}

impl Wrapper {
    /// The items of the list, as text.
    pub open spec fn items(&self) -> Seq<Seq<char>> {
        self.0@.map_values(|s: String| s@)
    }

    /// The list as text: its items joined by `", "` inside brackets.
    pub fn to_string(&self) -> (r: String)
        ensures
            r@ == "["@ + joined(self.items()) + "]"@,
    {
        let mut out = String::from_str("[");
        let mut i: usize = 0;
        while i < self.0.len()
            invariant
                i <= self.0@.len(),
                out@ == "["@ + joined(self.items().subrange(0, i as int)),
            decreases self.0@.len() - i,
        {
            if i > 0 {
                out.append(", ");
            }
            out.append(self.0[i].as_str());
            proof {
                let s = self.items().subrange(0, i + 1);
                assert(s.drop_last() == self.items().subrange(0, i as int));
                assert(s.last() == self.0@[i as int]@);
                if i == 0 {
                    assert(self.items().subrange(0, 0) =~= Seq::<Seq<char>>::empty());
                }
            }
            i = i + 1;
        }
        assert(self.items().subrange(0, self.0@.len() as int) == self.items());
        out.append("]");
        out
    }
}

/// The `n`th Fibonacci number, from `fib(0) == 0` and `fib(1) == 1`.
pub open spec fn spec_fib(n: nat) -> nat
    decreases n,
{
    if n <= 1 {
        n
    } else {
        spec_fib((n - 1) as nat) + spec_fib((n - 2) as nat)
    }
}

proof fn lemma_fib_monotonic(m: nat, n: nat)
    requires
        m <= n,
    ensures
        spec_fib(m) <= spec_fib(n),
    decreases n,
{
    if m < n {
        lemma_fib_monotonic(m, (n - 1) as nat);
    }
}

/// The `n`th Fibonacci number, computed by plain recursion.
pub fn fib(n: i32) -> (r: i32)
    requires
        n >= 0,
        spec_fib(n as nat) <= i32::MAX,
    ensures
        r == spec_fib(n as nat),
    decreases n,
{
    if n == 0 || n == 1 {
        n
    } else {
        proof {
            lemma_fib_monotonic((n - 1) as nat, n as nat);
            lemma_fib_monotonic((n - 2) as nat, n as nat);
        }
        fib(n - 1) + fib(n - 2)
    }
}

} // verus!
