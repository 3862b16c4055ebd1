use vstd::prelude::*;

verus! {

/// A type whose methods take each form of receiver.
#[derive(Clone, Copy, Debug, PartialEq, Eq, Structural)]
pub struct Foo;

/// A type that dereferences to a `Foo`, and so offers its `&self` methods.
#[derive(Clone, Copy, Debug, PartialEq, Eq, Structural)]
pub struct Bar;

impl Foo {
    pub fn by_ref(&self) {
    }

    pub fn by_explicit_ref(self: &Foo) {
    }

    pub fn by_mut_ref(&mut self)
        ensures
            *final(self) == *old(self),
    {
    }

    pub fn by_explicit_mut_ref(self: &mut Foo)
        ensures
            *final(self) == *old(self),
    {
    }

    pub fn by_explicit_box(self: Box<Foo>) {
    }

    pub fn by_explicit_self_box(self: Box<Self>) {
    }

    pub fn static_foo() {
    }
}

impl core::ops::Deref for Bar {
    type Target = Foo;

    fn deref(&self) -> (r: &Foo)
        ensures
            *r == Foo,
    {
        &Foo
    }
}

} // verus!
