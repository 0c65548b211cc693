use vstd::prelude::*;

verus! {

/// A distance in feet.
#[derive(Debug, Clone, Copy, PartialEq, Eq, Structural, Hash, PartialOrd, Ord)]
pub struct Feet(pub i32);

/// A distance in grid squares (five feet each).
#[derive(Debug, Clone, Copy, PartialEq, Eq, Structural, Hash, PartialOrd, Ord)]
pub struct Square(pub i32);

impl core::ops::Add<Square> for Square {
    type Output = Square;

    fn add(self, other: Square) -> (r: Square) {
        Square(self.0 + other.0)
    }
}

impl vstd::std_specs::ops::AddSpecImpl<Square> for Square {
    open spec fn obeys_add_spec() -> bool {
        true
    }

    open spec fn add_req(self, rhs: Square) -> bool {
        i32::MIN <= self.0 + rhs.0 <= i32::MAX
    }

    open spec fn add_spec(self, rhs: Square) -> Square {
        Square((self.0 + rhs.0) as i32)
    }
}

impl core::ops::Add<Square> for Feet {
    type Output = Feet;

    fn add(self, other: Square) -> (r: Feet) {
        Feet(self.0 + (other.0 * 5))
    }
}

impl vstd::std_specs::ops::AddSpecImpl<Square> for Feet {
    open spec fn obeys_add_spec() -> bool {
        true
    }

    open spec fn add_req(self, rhs: Square) -> bool {
        &&& i32::MIN <= rhs.0 * 5 <= i32::MAX
        &&& i32::MIN <= self.0 + rhs.0 * 5 <= i32::MAX
    }

    open spec fn add_spec(self, rhs: Square) -> Feet {
        Feet((self.0 + rhs.0 * 5) as i32)
    }
}

impl core::ops::Add<Feet> for Feet {
    type Output = Feet;

    fn add(self, other: Feet) -> (r: Feet) {
        Feet(self.0 + other.0)
    }
}

impl vstd::std_specs::ops::AddSpecImpl<Feet> for Feet {
    open spec fn obeys_add_spec() -> bool {
        true
    }

    open spec fn add_req(self, rhs: Feet) -> bool {
        i32::MIN <= self.0 + rhs.0 <= i32::MAX
    }

    open spec fn add_spec(self, rhs: Feet) -> Feet {
        Feet((self.0 + rhs.0) as i32)
    }
}

impl Feet {
    /// The distance of a number of squares, five feet each.
    pub fn from_square(value: Square) -> (r: Feet)
        requires
            i32::MIN <= value.0 * 5 <= i32::MAX,
        ensures
            r.0 == value.0 * 5,
    {
        Feet(value.0 * 5)
    }
}

} // verus!
