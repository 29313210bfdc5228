use vstd::prelude::*;

verus! {

/// A small actor type: a single number that its constructors set.
#[derive(Debug, Default)]
pub struct Bar {
    pub number: u64,
}

impl Bar {
    fn blah() {
    }

    pub fn new() -> (r: Self)
        ensures
            r.number == 123,
    {
        Self { number: 123 }
    }

    pub fn new_2(a: u64, b: u64) -> (r: Self)
        requires
            a * b <= u64::MAX,
        ensures
            r.number == a * b,
    {
        Self { number: a * b }
    }

    pub fn new_4(a: u64) -> (r: Self)
        ensures
            r.number == a,
    {
        Self { number: a }
    }

    pub fn do_a() -> (r: u64)
        ensures
            r == 42,
    {
        42
    }

    pub fn do_b(a: u64) -> (r: u64)
        ensures
            r == a,
    {
        a
    }

    pub fn do_c(a: u64, b: u64) -> (r: u64)
        requires
            a + b <= u64::MAX,
        ensures
            r == a + b,
    {
        a + b
    }
}

} // verus!
