//! Integers that are multiples of 16.

use vstd::prelude::*;

verus! {

/// The integer types that a `Multiple16` can hold.
pub trait Multiple16ablePrimitive: Copy {
    /// The value as a mathematical integer.
    spec fn as_int(self) -> int;
}

/// An integer that is a multiple of 16.
pub struct Multiple16<T: Multiple16ablePrimitive>(T);

impl<T: Multiple16ablePrimitive> Multiple16<T> {
    #[verifier::type_invariant]
    spec fn inv(self) -> bool {
        self.0.as_int() % 16 == 0
    }

    /// The number held.
    pub closed spec fn value(self) -> T {
        self.0
    }
}

impl<T: Multiple16ablePrimitive> Clone for Multiple16<T> {
    fn clone(&self) -> (r: Self)
        ensures
            r == *self,
    {
        proof {
            use_type_invariant(self);
        }
        Multiple16(self.0)
    }
}

impl<T: Multiple16ablePrimitive> Copy for Multiple16<T> {}

impl Multiple16ablePrimitive for u8 {
    open spec fn as_int(self) -> int {
        self as int
    }
}

pub type Multiple16U8 = Multiple16<u8>;

impl Multiple16<u8> {
    /// `n`, if it is a multiple of 16.
    pub fn new(n: u8) -> (r: Option<Self>)
        ensures
            r is Some <==> n as int % 16 == 0,
            r matches Option::Some(m) ==> m.value() == n,
    {
        if n % 16 == 0 {
            Some(Multiple16(n))
        } else {
            None
        }
    }

    /// `n`, which must be a multiple of 16.
    pub fn new_unchecked(n: u8) -> (m: Self)
        requires
            n as int % 16 == 0,
        ensures
            m.value() == n,
    {
        Multiple16(n)
    }

    /// The number held, a multiple of 16.
    pub fn get(self) -> (n: u8)
        ensures
            n == self.value(),
            n as int % 16 == 0,
    {
        proof {
            use_type_invariant(&self);
        }
        self.0
    }
}

impl Multiple16ablePrimitive for i8 {
    open spec fn as_int(self) -> int {
        self as int
    }
}

pub type Multiple16I8 = Multiple16<i8>;

impl Multiple16<i8> {
    /// `n`, if it is a multiple of 16.
    pub fn new(n: i8) -> (r: Option<Self>)
        ensures
            r is Some <==> n as int % 16 == 0,
            r matches Option::Some(m) ==> m.value() == n,
    {
        if n % 16 == 0 {
            Some(Multiple16(n))
        } else {
            None
        }
    }

    /// `n`, which must be a multiple of 16.
    pub fn new_unchecked(n: i8) -> (m: Self)
        requires
            n as int % 16 == 0,
        ensures
            m.value() == n,
    {
        Multiple16(n)
    }

    /// The number held, a multiple of 16.
    pub fn get(self) -> (n: i8)
        ensures
            n == self.value(),
            n as int % 16 == 0,
    {
        proof {
            use_type_invariant(&self);
        }
        self.0
    }
}

impl Multiple16ablePrimitive for u16 {
    open spec fn as_int(self) -> int {
        self as int
    }
}

pub type Multiple16U16 = Multiple16<u16>;

impl Multiple16<u16> {
    /// `n`, if it is a multiple of 16.
    pub fn new(n: u16) -> (r: Option<Self>)
        ensures
            r is Some <==> n as int % 16 == 0,
            r matches Option::Some(m) ==> m.value() == n,
    {
        if n % 16 == 0 {
            Some(Multiple16(n))
        } else {
            None
        }
    }

    /// `n`, which must be a multiple of 16.
    pub fn new_unchecked(n: u16) -> (m: Self)
        requires
            n as int % 16 == 0,
        ensures
            m.value() == n,
    {
        Multiple16(n)
    }

    /// The number held, a multiple of 16.
    pub fn get(self) -> (n: u16)
        ensures
            n == self.value(),
            n as int % 16 == 0,
    {
        proof {
            use_type_invariant(&self);
        }
        self.0
    }
}

impl Multiple16ablePrimitive for i16 {
    open spec fn as_int(self) -> int {
        self as int
    }
}

pub type Multiple16I16 = Multiple16<i16>;

impl Multiple16<i16> {
    /// `n`, if it is a multiple of 16.
    pub fn new(n: i16) -> (r: Option<Self>)
        ensures
            r is Some <==> n as int % 16 == 0,
            r matches Option::Some(m) ==> m.value() == n,
    {
        if n % 16 == 0 {
            Some(Multiple16(n))
        } else {
            None
        }
    }

    /// `n`, which must be a multiple of 16.
    pub fn new_unchecked(n: i16) -> (m: Self)
        requires
            n as int % 16 == 0,
        ensures
            m.value() == n,
    {
        Multiple16(n)
    }

    /// The number held, a multiple of 16.
    pub fn get(self) -> (n: i16)
        ensures
            n == self.value(),
            n as int % 16 == 0,
    {
        proof {
            use_type_invariant(&self);
        }
        self.0
    }
}

impl Multiple16ablePrimitive for u32 {
    open spec fn as_int(self) -> int {
        self as int
    }
}

pub type Multiple16U32 = Multiple16<u32>;

impl Multiple16<u32> {
    /// `n`, if it is a multiple of 16.
    pub fn new(n: u32) -> (r: Option<Self>)
        ensures
            r is Some <==> n as int % 16 == 0,
            r matches Option::Some(m) ==> m.value() == n,
    {
        if n % 16 == 0 {
            Some(Multiple16(n))
        } else {
            None
        }
    }

    /// `n`, which must be a multiple of 16.
    pub fn new_unchecked(n: u32) -> (m: Self)
        requires
            n as int % 16 == 0,
        ensures
            m.value() == n,
    {
        Multiple16(n)
    }

    /// The number held, a multiple of 16.
    pub fn get(self) -> (n: u32)
        ensures
            n == self.value(),
            n as int % 16 == 0,
    {
        proof {
            use_type_invariant(&self);
        }
        self.0
    }
}

impl Multiple16ablePrimitive for i32 {
    open spec fn as_int(self) -> int {
        self as int
    }
}

pub type Multiple16I32 = Multiple16<i32>;

impl Multiple16<i32> {
    /// `n`, if it is a multiple of 16.
    pub fn new(n: i32) -> (r: Option<Self>)
        ensures
            r is Some <==> n as int % 16 == 0,
            r matches Option::Some(m) ==> m.value() == n,
    {
        if n % 16 == 0 {
            Some(Multiple16(n))
        } else {
            None
        }
    }

    /// `n`, which must be a multiple of 16.
    pub fn new_unchecked(n: i32) -> (m: Self)
        requires
            n as int % 16 == 0,
        ensures
            m.value() == n,
    {
        Multiple16(n)
    }

    /// The number held, a multiple of 16.
    pub fn get(self) -> (n: i32)
        ensures
            n == self.value(),
            n as int % 16 == 0,
    {
        proof {
            use_type_invariant(&self);
        }
        self.0
    }
}

impl Multiple16ablePrimitive for u64 {
    open spec fn as_int(self) -> int {
        self as int
    }
}

pub type Multiple16U64 = Multiple16<u64>;

impl Multiple16<u64> {
    /// `n`, if it is a multiple of 16.
    pub fn new(n: u64) -> (r: Option<Self>)
        ensures
            r is Some <==> n as int % 16 == 0,
            r matches Option::Some(m) ==> m.value() == n,
    {
        if n % 16 == 0 {
            Some(Multiple16(n))
        } else {
            None
        }
    }

    /// `n`, which must be a multiple of 16.
    pub fn new_unchecked(n: u64) -> (m: Self)
        requires
            n as int % 16 == 0,
        ensures
            m.value() == n,
    {
        Multiple16(n)
    }

    /// The number held, a multiple of 16.
    pub fn get(self) -> (n: u64)
        ensures
            n == self.value(),
            n as int % 16 == 0,
    {
        proof {
            use_type_invariant(&self);
        }
        self.0
    }
}

impl Multiple16ablePrimitive for i64 {
    open spec fn as_int(self) -> int {
        self as int
    }
}

pub type Multiple16I64 = Multiple16<i64>;

impl Multiple16<i64> {
    /// `n`, if it is a multiple of 16.
    pub fn new(n: i64) -> (r: Option<Self>)
        ensures
            r is Some <==> n as int % 16 == 0,
            r matches Option::Some(m) ==> m.value() == n,
    {
        if n % 16 == 0 {
            Some(Multiple16(n))
        } else {
            None
        }
    }

    /// `n`, which must be a multiple of 16.
    pub fn new_unchecked(n: i64) -> (m: Self)
        requires
            n as int % 16 == 0,
        ensures
            m.value() == n,
    {
        Multiple16(n)
    }

    /// The number held, a multiple of 16.
    pub fn get(self) -> (n: i64)
        ensures
            n == self.value(),
            n as int % 16 == 0,
    {
        proof {
            use_type_invariant(&self);
        }
        self.0
    }
}

impl Multiple16ablePrimitive for u128 {
    open spec fn as_int(self) -> int {
        self as int
    }
}

pub type Multiple16U128 = Multiple16<u128>;

impl Multiple16<u128> {
    /// `n`, if it is a multiple of 16.
    pub fn new(n: u128) -> (r: Option<Self>)
        ensures
            r is Some <==> n as int % 16 == 0,
            r matches Option::Some(m) ==> m.value() == n,
    {
        if n % 16 == 0 {
            Some(Multiple16(n))
        } else {
            None
        }
    }

    /// `n`, which must be a multiple of 16.
    pub fn new_unchecked(n: u128) -> (m: Self)
        requires
            n as int % 16 == 0,
        ensures
            m.value() == n,
    {
        Multiple16(n)
    }

    /// The number held, a multiple of 16.
    pub fn get(self) -> (n: u128)
        ensures
            n == self.value(),
            n as int % 16 == 0,
    {
        proof {
            use_type_invariant(&self);
        }
        self.0
    }
}

impl Multiple16ablePrimitive for i128 {
    open spec fn as_int(self) -> int {
        self as int
    }
}

pub type Multiple16I128 = Multiple16<i128>;

impl Multiple16<i128> {
    /// `n`, if it is a multiple of 16.
    pub fn new(n: i128) -> (r: Option<Self>)
        ensures
            r is Some <==> n as int % 16 == 0,
            r matches Option::Some(m) ==> m.value() == n,
    {
        if n % 16 == 0 {
            Some(Multiple16(n))
        } else {
            None
        }
    }

    /// `n`, which must be a multiple of 16.
    pub fn new_unchecked(n: i128) -> (m: Self)
        requires
            n as int % 16 == 0,
        ensures
            m.value() == n,
    {
        Multiple16(n)
    }

    /// The number held, a multiple of 16.
    pub fn get(self) -> (n: i128)
        ensures
            n == self.value(),
            n as int % 16 == 0,
    {
        proof {
            use_type_invariant(&self);
        }
        self.0
    }
}

} // verus!
