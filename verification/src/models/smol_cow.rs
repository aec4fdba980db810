//! A borrowed-or-owned value whose owned form is a small string.

use crate::options::cdelim::{smol_as_str, smol_new, smol_text};
use smol_str::SmolStr;
use vstd::prelude::*;

verus! {

/// A borrowed type that has an owned, small counterpart.
pub trait ToSmol {
    type Owned: Sized;

    /// `owned` holds what `self` holds.
    spec fn kept_by(&self, owned: Self::Owned) -> bool;

    /// Makes the owned counterpart.
    fn to_smol(&self) -> (r: Self::Owned)
        ensures
            self.kept_by(r),
    ;
}

impl ToSmol for str {
    type Owned = SmolStr;

    open spec fn kept_by(&self, owned: SmolStr) -> bool {
        smol_text(owned) == self@
    }

    fn to_smol(&self) -> (r: SmolStr) {
        smol_new(self)
    }
}

/// Either a borrowed value or its owned counterpart. The owned form is
/// made only when a caller needs to own or change the value.
pub enum SmolCow<'a, B> where B: 'a + ToSmol + ?Sized {
    Borrowed(&'a B),
    Owned(<B as ToSmol>::Owned),
}

impl<'a, B> SmolCow<'a, B> where B: ToSmol + ?Sized {
    /// `owned` is the owned form of `self`: the value itself where it is
    /// owned already, and a counterpart of the borrowed value otherwise.
    pub open spec fn owned_as(self, owned: <B as ToSmol>::Owned) -> bool {
        match self {
            SmolCow::Borrowed(b) => b.kept_by(owned),
            SmolCow::Owned(o) => o == owned,
        }
    }

    /// The owned form.
    pub fn to_smol(self) -> (r: <B as ToSmol>::Owned)
        ensures
            self.owned_as(r),
    {
        match self {
            SmolCow::Borrowed(b) => b.to_smol(),
            SmolCow::Owned(o) => o,
        }
    }

    /// The owned form, in place: a borrowed value is replaced by its owned
    /// counterpart first.
    pub fn as_mut(&mut self) -> (r: &mut <B as ToSmol>::Owned)
        ensures
            old(self).owned_as(*r),
            *final(self) == SmolCow::<'a, B>::Owned(*final(r)),
    {
        if let SmolCow::Borrowed(b) = self {
            let owned = b.to_smol();
            *self = SmolCow::Owned(owned);
        }
        match self {
            SmolCow::Owned(o) => o,
            SmolCow::Borrowed(_) => vstd::pervasive::unreached(),
        }
    }

    /// Whether the value is owned.
    pub fn is_owned(&self) -> (r: bool)
        ensures
            r == (*self is Owned),
    {
        !self.is_borrowed()
    }

    /// Whether the value is borrowed.
    pub fn is_borrowed(&self) -> (r: bool)
        ensures
            r == (*self is Borrowed),
    {
        match self {
            SmolCow::Borrowed(_) => true,
            SmolCow::Owned(_) => false,
        }
    }
}

impl<'a> SmolCow<'a, str> {
    /// The text that the value holds.
    pub open spec fn text(self) -> Seq<char> {
        match self {
            SmolCow::Borrowed(b) => b@,
            SmolCow::Owned(o) => smol_text(o),
        }
    }

    /// The text that the value holds.
    pub fn as_str(&self) -> (r: &str)
        ensures
            r@ == self.text(),
    {
        match self {
            SmolCow::Borrowed(b) => b,
            SmolCow::Owned(o) => smol_as_str(o),
        }
    }

    /// A borrowed text.
    pub fn from_str(s: &'a str) -> (r: Self)
        ensures
            r == SmolCow::<'a, str>::Borrowed(s),
    {
        SmolCow::Borrowed(s)
    }

    /// An owned text.
    pub fn from_smol(s: SmolStr) -> (r: Self)
        ensures
            r == SmolCow::<'a, str>::Owned(s),
    {
        SmolCow::Owned(s)
    }
}

} // verus!
