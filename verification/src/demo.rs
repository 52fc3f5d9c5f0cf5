//! Small plain value types with structural equality and defaults.

use vstd::prelude::*;
use vstd::std_specs::cmp::PartialEqSpec;
use vstd::string::StringSliceAdditionalSpecFns;

verus! {

/// A three-valued flag: plainly true, plainly false, or a tagged raw
/// boolean.
#[derive(PartialEq, Eq, Structural, Clone, Copy, Debug)]
pub enum Bool {
    True,
    False,
    Blah(bool),
}

impl Bool {
    /// Collapses the flag to a plain boolean: true only for the plainly
    /// true flag; a tagged value counts as false whatever its tag.
    pub fn boolify(self) -> (r: bool)
        ensures
            r == (self == Bool::True),
    {
        match self {
            Bool::True => true,
            Bool::False => false,
            Bool::Blah(_) => false,
        }
    }
}

/// Byte-for-byte equality of two string slices.
fn str_eq(a: &str, b: &str) -> (r: bool)
    ensures
        r == (a.spec_bytes() == b.spec_bytes()),
{
    let ab = a.as_bytes();
    let bb = b.as_bytes();
    let n = ab.len();
    if n != bb.len() {
        return false;
    }
    let mut i: usize = 0;
    while i < n
        invariant
            n == ab@.len(),
            n == bb@.len(),
            ab@ == a.spec_bytes(),
            bb@ == b.spec_bytes(),
            i <= n,
            forall|j: int| 0 <= j < i ==> ab@[j] == bb@[j],
        decreases n - i,
    {
        if ab[i] != bb[i] {
            return false;
        }
        i += 1;
    }
    proof {
        assert(a.spec_bytes() =~= b.spec_bytes());
    }
    true
}

/// A labelled flag: a static name together with a `Bool`.
#[derive(Clone, Copy, Debug)]
pub struct Bar {
    pub bar: &'static str,
    pub foo: Bool,
}

impl PartialEq for Bar {
    fn eq(&self, other: &Bar) -> (r: bool) {
        str_eq(self.bar, other.bar) && self.foo == other.foo
    }
}

impl Eq for Bar {

}

impl vstd::std_specs::cmp::PartialEqSpecImpl for Bar {
    open spec fn obeys_eq_spec() -> bool {
        true
    }

    open spec fn eq_spec(&self, other: &Bar) -> bool {
        self.bar.spec_bytes() == other.bar.spec_bytes() && self.foo == other.foo
    }
}

impl Bar {
    /// Builds a `Bar` when a flag is given; without one there is nothing
    /// to label, and the result is `None`.
    pub fn new(bar: &'static str, foo: Option<Bool>) -> (r: Option<Bar>)
        ensures
            match foo {
                Some(f) => r matches Some(b) && b.bar == bar && b.foo == f,
                None => r is None,
            },
    {
        if let Some(foo) = foo {
            Some(Bar { bar, foo })
        } else {
            None
        }
    }
}

impl Default for Bar {
    /// The label `default bar` and a tagged `true`.
    fn default() -> (r: Bar)
        ensures
            r.bar@ == "default bar"@,
            r.foo == Bool::Blah(true),
    {
        Bar { bar: "default bar", foo: Bool::Blah(true) }
    }
}

/// A number together with a labelled flag.
pub struct Foo {
    /// The plain number; freely accessible.
    pub foo: i16,
    /// The labelled flag.
    pub bar: Bar,
}

impl Foo {
    /// Pairs a number with a labelled flag.
    pub fn new(foo: i16, temp: Bar) -> (r: Foo)
        ensures
            r.foo == foo,
            r.bar == temp,
    {
        Foo { foo, bar: temp }
    }

    /// The labelled flag.
    pub fn get_bar(&self) -> (r: &Bar)
        ensures
            *r == self.bar,
    {
        &self.bar
    }

    /// Replaces the labelled flag; the number is untouched.
    pub fn set_bar(&mut self, bar: &Bar)
        ensures
            final(self).bar == *bar,
            final(self).foo == old(self).foo,
    {
        self.bar = bar.clone();
    }

    /// True iff the two hold equal flags, by `Bar`'s own equality.
    pub fn same_bar(a: &Foo, b: Foo) -> (r: bool)
        ensures
            r == a.bar.eq_spec(&b.bar),
    {
        a.bar == b.bar
    }
}

} // verus!
