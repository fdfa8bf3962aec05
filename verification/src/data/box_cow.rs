//! A value that is either borrowed or owned in a box, cloned into a box on demand.

use vstd::prelude::*;

verus! {

/// Either a borrowed value or one owned in a box.
#[derive(Clone, Debug)]
pub enum BoxCow<'l, B: Clone> {
    Borrowed(&'l B),
    Owned(Box<B>),
}

impl<'l, B: Clone> BoxCow<'l, B> {
    /// The value held, wherever it lives.
    pub open spec fn inner(&self) -> B {
        match self {
            BoxCow::Borrowed(b) => **b,
            BoxCow::Owned(o) => **o,
        }
    }

    /// The value held.
    pub fn get(&self) -> (r: &B)
        ensures
            *r == self.inner(),
    {
        match self {
            BoxCow::Borrowed(b) => b,
            BoxCow::Owned(o) => o,
        }
    }

    /// The value, owned: a borrowed value is first cloned into a box, which then
    /// replaces it.
    pub fn to_mut(&mut self) -> (r: &mut B)
        ensures
            match *old(self) {
                BoxCow::Borrowed(b) => cloned::<B>(*b, *r),
                BoxCow::Owned(o) => *r == *o,
            },
            *final(self) == BoxCow::<'l, B>::Owned(Box::new(*final(r))),
    {
        let owned = match self {
            BoxCow::Borrowed(b) => Some(Box::new(b.clone())),
            BoxCow::Owned(_) => None,
        };
        if let Some(o) = owned {
            *self = BoxCow::Owned(o);
        }
        match self {
            BoxCow::Owned(o) => &mut **o,
            BoxCow::Borrowed(_) => {
                proof {
                    assert(false);
                }
                loop
                    invariant
                        false,
                    decreases 0nat,
                {
                }
            },
        }
    }

    /// The value in a box: the box itself where it is owned, a clone where borrowed.
    pub fn into_owned(self) -> (r: Box<B>)
        ensures
            match self {
                BoxCow::Borrowed(b) => cloned::<B>(*b, *r),
                BoxCow::Owned(o) => r == o,
            },
    {
        match self {
            BoxCow::Borrowed(b) => Box::new(b.clone()),
            BoxCow::Owned(o) => o,
        }
    }
}

} // verus!
