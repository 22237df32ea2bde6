//! Converting between an enum and integers.
use vstd::prelude::*;

verus! {

/// One of three letters.
#[derive(Clone, Copy, Debug, PartialEq, Eq, Structural)]
pub enum TestEnum {
    A,
    B,
    C,
}

/// The number of `e`: its position in the declaration, from 0.
pub open spec fn number_of(e: TestEnum) -> i32 {
    match e {
        TestEnum::A => 0,
        TestEnum::B => 1,
        TestEnum::C => 2,
    }
}

impl TestEnum {
    /// The number of this letter: its position in the declaration, from 0.
    pub fn as_i32(&self) -> (r: i32)
        ensures
            r == number_of(*self),
    {
        match self {
            TestEnum::A => 0,
            TestEnum::B => 1,
            TestEnum::C => 2,
        }
    }

    /// The letter whose number is `value`; an error where there is none.
    pub fn try_from(value: i32) -> (r: Result<TestEnum, ()>)
        ensures
            r matches Ok(e) ==> number_of(e) == value,
            r is Err <==> !(0 <= value <= 2),
    {
        match value {
            0 => Ok(TestEnum::A),
            1 => Ok(TestEnum::B),
            2 => Ok(TestEnum::C),
            _ => Err(()),
        }
    }

    /// The letter as text: `TestEnum-A`, `TestEnum-B` or `TestEnum-C`.
    pub fn to_string(&self) -> (r: String)
        ensures
            r@ == match *self {
                TestEnum::A => "TestEnum-A"@,
                TestEnum::B => "TestEnum-B"@,
                TestEnum::C => "TestEnum-C"@,
            },
    {
        match self {
            TestEnum::A => String::from_str("TestEnum-A"),
            TestEnum::B => String::from_str("TestEnum-B"),
            TestEnum::C => String::from_str("TestEnum-C"),
        }
    }
}

} // verus!
