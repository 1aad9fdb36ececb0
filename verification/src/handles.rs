use vstd::prelude::*;

verus! {

/// The eight resize handles around a selected block in the level editor.
#[derive(Clone, Copy, Debug, PartialEq, Eq, Structural)]
pub enum HandlePosition {
    TopLeft,
    TopCenter,
    TopRight,
    MiddleLeft,
    MiddleRight,
    BottomLeft,
    BottomCenter,
    BottomRight,
}

/// The eight handles, row by row from the top left.
pub open spec fn handle_list() -> Seq<HandlePosition> {
    seq![
        HandlePosition::TopLeft,
        HandlePosition::TopCenter,
        HandlePosition::TopRight,
        HandlePosition::MiddleLeft,
        HandlePosition::MiddleRight,
        HandlePosition::BottomLeft,
        HandlePosition::BottomCenter,
        HandlePosition::BottomRight,
    ]
}

impl HandlePosition {
    /// The horizontal and vertical sign (-1, 0 or 1) of the handle's offset from the block
    /// centre: left/bottom are -1, centre is 0, right/top are 1.
    pub open spec fn signs(self) -> (int, int) {
        match self {
            HandlePosition::TopLeft => (-1, 1),
            HandlePosition::TopCenter => (0, 1),
            HandlePosition::TopRight => (1, 1),
            HandlePosition::MiddleLeft => (-1, 0),
            HandlePosition::MiddleRight => (1, 0),
            HandlePosition::BottomLeft => (-1, -1),
            HandlePosition::BottomCenter => (0, -1),
            HandlePosition::BottomRight => (1, -1),
        }
    }

    /// The handle diagonally or directly across the block.
    pub open spec fn spec_opposite(self) -> HandlePosition {
        match self {
            HandlePosition::TopLeft => HandlePosition::BottomRight,
            HandlePosition::TopCenter => HandlePosition::BottomCenter,
            HandlePosition::TopRight => HandlePosition::BottomLeft,
            HandlePosition::MiddleLeft => HandlePosition::MiddleRight,
            HandlePosition::MiddleRight => HandlePosition::MiddleLeft,
            HandlePosition::BottomLeft => HandlePosition::TopRight,
            HandlePosition::BottomCenter => HandlePosition::TopCenter,
            HandlePosition::BottomRight => HandlePosition::TopLeft,
        }
    }

    /// Returns (x_sign, y_sign) for the offset from the block centre.
    pub fn offset_signs(&self) -> (res: (i32, i32))
        ensures
            res.0 as int == self.signs().0,
            res.1 as int == self.signs().1,
    {
        match self {
            HandlePosition::TopLeft => (-1, 1),
            HandlePosition::TopCenter => (0, 1),
            HandlePosition::TopRight => (1, 1),
            HandlePosition::MiddleLeft => (-1, 0),
            HandlePosition::MiddleRight => (1, 0),
            HandlePosition::BottomLeft => (-1, -1),
            HandlePosition::BottomCenter => (0, -1),
            HandlePosition::BottomRight => (1, -1),
        }
    }

    /// Returns the handle on the opposite side (the anchor during a resize).
    pub fn opposite(&self) -> (res: HandlePosition)
        ensures
            res == self.spec_opposite(),
    {
        match self {
            HandlePosition::TopLeft => HandlePosition::BottomRight,
            HandlePosition::TopCenter => HandlePosition::BottomCenter,
            HandlePosition::TopRight => HandlePosition::BottomLeft,
            HandlePosition::MiddleLeft => HandlePosition::MiddleRight,
            HandlePosition::MiddleRight => HandlePosition::MiddleLeft,
            HandlePosition::BottomLeft => HandlePosition::TopRight,
            HandlePosition::BottomCenter => HandlePosition::TopCenter,
            HandlePosition::BottomRight => HandlePosition::TopLeft,
        }
    }

    /// Returns true if this handle controls the X axis (width / horizontal position): every
    /// handle but the top and bottom centre ones.
    pub fn controls_x(&self) -> (res: bool)
        ensures
            res == !(*self == HandlePosition::TopCenter || *self == HandlePosition::BottomCenter),
    {
        !matches!(self, HandlePosition::TopCenter | HandlePosition::BottomCenter)
    }

    /// Returns true if this handle controls the Y axis (height / vertical position): every
    /// handle but the middle left and right ones.
    pub fn controls_y(&self) -> (res: bool)
        ensures
            res == !(*self == HandlePosition::MiddleLeft || *self == HandlePosition::MiddleRight),
    {
        !matches!(self, HandlePosition::MiddleLeft | HandlePosition::MiddleRight)
    }

    /// All eight handles, row by row from the top left.
    pub fn all() -> (res: [HandlePosition; 8])
        ensures
            res@ == handle_list(),
    {
        let res = [
            HandlePosition::TopLeft,
            HandlePosition::TopCenter,
            HandlePosition::TopRight,
            HandlePosition::MiddleLeft,
            HandlePosition::MiddleRight,
            HandlePosition::BottomLeft,
            HandlePosition::BottomCenter,
            HandlePosition::BottomRight,
        ];
        assert(res@ =~= handle_list());
        res
    }
}

/// The opposite of the opposite handle is the handle itself.
pub proof fn law_opposite_involution(h: HandlePosition)
    ensures
        h.spec_opposite().spec_opposite() == h,
{
}

/// The opposite handle sits at the mirrored offset: both signs are negated.
pub proof fn law_opposite_mirrors_offset(h: HandlePosition)
    ensures
        h.spec_opposite().signs().0 == -h.signs().0,
        h.spec_opposite().signs().1 == -h.signs().1,
{
}

/// A handle moves the X (Y) edge exactly when its horizontal (vertical) sign is not zero, and
/// every handle moves at least one edge.
pub proof fn law_controls_match_offset(h: HandlePosition)
    ensures
        !(h == HandlePosition::TopCenter || h == HandlePosition::BottomCenter) <==> h.signs().0 != 0,
        !(h == HandlePosition::MiddleLeft || h == HandlePosition::MiddleRight) <==> h.signs().1 != 0,
        h.signs() != (0int, 0int),
{
}

/// `all` lists every handle exactly once.
pub proof fn law_all_handles_listed(h: HandlePosition)
    ensures
        handle_list().contains(h),
        forall|i: int, j: int| 0 <= i < j < handle_list().len() ==> handle_list()[i] != handle_list()[j],
{
    let s = handle_list();
    match h {
        HandlePosition::TopLeft => assert(s[0] == h),
        HandlePosition::TopCenter => assert(s[1] == h),
        HandlePosition::TopRight => assert(s[2] == h),
        HandlePosition::MiddleLeft => assert(s[3] == h),
        HandlePosition::MiddleRight => assert(s[4] == h),
        HandlePosition::BottomLeft => assert(s[5] == h),
        HandlePosition::BottomCenter => assert(s[6] == h),
        HandlePosition::BottomRight => assert(s[7] == h),
    }
}

} // verus!
