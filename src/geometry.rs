use vstd::prelude::*;

verus! {

/// A pair of unsigned pixel quantities.
#[derive(Clone, Copy, Debug, PartialEq, Eq, Structural)]
pub struct UVec2 {
    pub x: u32,
    pub y: u32,
}

impl UVec2 {
    pub fn new(x: u32, y: u32) -> (r: UVec2)
        ensures
            r == (UVec2 { x, y }),
    {
        UVec2 { x, y }
    }
}

/// A positive rational scale factor `num / den` (for example 3/2 for a 150% display).
#[derive(Clone, Copy, Debug, PartialEq, Eq, Structural)]
pub struct ScaleFactor {
    num: u32,
    den: u32,
}

impl ScaleFactor {
    #[verifier::type_invariant]
    spec fn positive(self) -> bool {
        self.num > 0 && self.den > 0
    }

    pub closed spec fn numer(self) -> nat {
        self.num as nat
    }

    pub closed spec fn denom(self) -> nat {
        self.den as nat
    }

    /// Builds `num / den`; none when either part is zero.
    pub fn new(num: u32, den: u32) -> (r: Option<ScaleFactor>)
        ensures
            r is Some <==> (num > 0 && den > 0),
            r matches Some(s) ==> s.numer() == num && s.denom() == den,
    {
        if num > 0 && den > 0 {
            Some(ScaleFactor { num, den })
        } else {
            None
        }
    }

    pub closed spec fn unit_spec() -> ScaleFactor {
        ScaleFactor { num: 1, den: 1 }
    }

    pub fn one() -> (r: ScaleFactor)
        ensures
            r == ScaleFactor::unit_spec(),
            r.numer() == 1 && r.denom() == 1,
    {
        ScaleFactor { num: 1, den: 1 }
    }

    pub fn num(&self) -> (r: u32)
        ensures
            r == self.numer(),
            r > 0,
    {
        proof {
            use_type_invariant(self);
        }
        self.num
    }

    pub fn den(&self) -> (r: u32)
        ensures
            r == self.denom(),
            r > 0,
    {
        proof {
            use_type_invariant(self);
        }
        self.den
    }
}

} // verus!
