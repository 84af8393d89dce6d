use vstd::prelude::*;

verus! {

/// A horizontal direction.
#[derive(Debug, Clone, Copy, PartialEq, Eq, Structural)]
pub enum Side {
    Right,
    Left,
}

/// A vertical direction.
#[derive(Debug, Clone, Copy, PartialEq, Eq, Structural)]
pub enum YSide {
    Up,
    Down,
}

impl Side {
    /// +1 for `Right`, -1 for `Left`.
    pub open spec fn spec_sign(self) -> int {
        match self {
            Side::Right => 1,
            Side::Left => -1,
        }
    }

    /// The other side.
    pub open spec fn spec_opposite(self) -> Side {
        match self {
            Side::Right => Side::Left,
            Side::Left => Side::Right,
        }
    }

    /// The other side.
    pub fn opposite(self) -> (r: Side)
        ensures
            r == self.spec_opposite(),
    {
        match self {
            Side::Right => Side::Left,
            Side::Left => Side::Right,
        }
    }

    /// +1 for `Right`, -1 for `Left`.
    pub fn sign(self) -> (r: i64)
        ensures
            r == self.spec_sign(),
    {
        match self {
            Side::Right => 1,
            Side::Left => -1,
        }
    }
}

impl YSide {
    /// The other side.
    pub fn opposite(self) -> (r: YSide)
        ensures
            r == match self {
                YSide::Up => YSide::Down,
                YSide::Down => YSide::Up,
            },
    {
        match self {
            YSide::Up => YSide::Down,
            YSide::Down => YSide::Up,
        }
    }

    /// +1 for `Up`, -1 for `Down`.
    pub fn sign(self) -> (r: i64)
        ensures
            r == match self {
                YSide::Up => 1int,
                YSide::Down => -1int,
            },
    {
        match self {
            YSide::Up => 1,
            YSide::Down => -1,
        }
    }
}

/// Exactly one value for each horizontal side.
#[derive(Debug, Clone, Copy, PartialEq, Eq)]
pub struct SideMap<A> {
    pub right: A,
    pub left: A,
}

impl<A> SideMap<A> {
    /// The value for `side`.
    pub open spec fn spec_get(&self, side: Side) -> A {
        match side {
            Side::Right => self.right,
            Side::Left => self.left,
        }
    }

    /// The value for `side`.
    pub fn get(&self, side: Side) -> (r: &A)
        ensures
            *r == self.spec_get(side),
    {
        match side {
            Side::Right => &self.right,
            Side::Left => &self.left,
        }
    }

    /// Replace the value for `side`, keeping the other.
    pub fn set(&mut self, side: Side, value: A)
        ensures
            final(self).spec_get(side) == value,
            final(self).spec_get(side.spec_opposite()) == old(self).spec_get(side.spec_opposite()),
    {
        match side {
            Side::Right => self.right = value,
            Side::Left => self.left = value,
        }
    }
}

/// Exactly one value for each vertical side.
#[derive(Debug, Clone, Copy, PartialEq, Eq)]
pub struct YSideMap<A> {
    pub up: A,
    pub down: A,
}

impl<A> YSideMap<A> {
    /// The value for `side`.
    pub open spec fn spec_get(&self, side: YSide) -> A {
        match side {
            YSide::Up => self.up,
            YSide::Down => self.down,
        }
    }

    /// The value for `side`.
    pub fn get(&self, side: YSide) -> (r: &A)
        ensures
            *r == self.spec_get(side),
    {
        match side {
            YSide::Up => &self.up,
            YSide::Down => &self.down,
        }
    }

    /// Replace the value for `side`, keeping the other.
    pub fn set(&mut self, side: YSide, value: A)
        ensures
            final(self).spec_get(side) == value,
            final(self).up == (if side == YSide::Up { value } else { old(self).up }),
            final(self).down == (if side == YSide::Down { value } else { old(self).down }),
    {
        match side {
            YSide::Up => self.up = value,
            YSide::Down => self.down = value,
        }
    }
}

} // verus!
