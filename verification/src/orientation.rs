use vstd::prelude::*;

verus! {

/// One of the four screen transforms the daemon can apply.
#[derive(Clone, Copy, Debug, PartialEq, Eq, Structural)]
pub enum OrientationState {
    Normal,
    Rotated180,
    Rotated90,
    Rotated270,
}

impl OrientationState {
    /// The transform's name as the compositor spells it.
    pub open spec fn spec_name(self) -> Seq<char> {
        match self {
            OrientationState::Normal => "normal"@,
            OrientationState::Rotated180 => "180"@,
            OrientationState::Rotated90 => "90"@,
            OrientationState::Rotated270 => "270"@,
        }
    }

    /// The transform's name as the compositor spells it.
    pub fn name(&self) -> (text: &'static str)
        ensures
            text@ == self.spec_name(),
    {
        match self {
            OrientationState::Normal => "normal",
            OrientationState::Rotated180 => "180",
            OrientationState::Rotated90 => "90",
            OrientationState::Rotated270 => "270",
        }
    }
}

/// A reference direction of gravity paired with the transform it stands for.
#[derive(Clone, Copy, Debug, PartialEq, Eq, Structural)]
pub struct Orientation {
    /// The direction's component along the sensor's x axis, in whole units.
    pub x: i32,
    /// The direction's component along the sensor's y axis, in whole units.
    pub y: i32,
    /// The transform to apply when the device points this way.
    pub sway_state: OrientationState,
}

impl Orientation {
    /// The fixed catalog of reference orientations, in the order they are tried.
    pub open spec fn references() -> Seq<Orientation> {
        seq![
            Orientation { x: 0, y: -1i32, sway_state: OrientationState::Normal },
            Orientation { x: 0, y: 1, sway_state: OrientationState::Rotated180 },
            Orientation { x: -1i32, y: 0, sway_state: OrientationState::Rotated90 },
            Orientation { x: 1, y: 0, sway_state: OrientationState::Rotated270 },
        ]
    }

    /// The squared distance between the directions of two orientations.
    pub open spec fn squared_distance(self, other: Orientation) -> int {
        (self.x - other.x) * (self.x - other.x) + (self.y - other.y) * (self.y - other.y)
    }

    /// Whether the test of the `i`-th reference holds.
    pub open spec fn near_to(near: Seq<bool>, i: int) -> bool {
        0 <= i < near.len() && near[i]
    }

    /// The orientation picked for the given tests, where `near[i]` belongs to
    /// the `i`-th reference: the first reference whose test holds, and the
    /// first reference of the catalog when none holds.
    pub open spec fn chosen(near: Seq<bool>) -> Orientation {
        let refs = Self::references();
        if Self::near_to(near, 0) {
            refs[0]
        } else if Self::near_to(near, 1) {
            refs[1]
        } else if Self::near_to(near, 2) {
            refs[2]
        } else if Self::near_to(near, 3) {
            refs[3]
        } else {
            refs[0]
        }
    }

    /// The fixed catalog of reference orientations, in the order they are tried.
    pub fn catalog() -> (refs: [Orientation; 4])
        ensures
            refs@ == Orientation::references(),
    {
        let refs = [
            Orientation { x: 0, y: -1i32, sway_state: OrientationState::Normal },
            Orientation { x: 0, y: 1, sway_state: OrientationState::Rotated180 },
            Orientation { x: -1i32, y: 0, sway_state: OrientationState::Rotated90 },
            Orientation { x: 1, y: 0, sway_state: OrientationState::Rotated270 },
        ];
        refs
    }

    /// Picks the orientation of the device. `near[i]` tells whether the
    /// reading lies within the threshold of the `i`-th reference of the
    /// catalog. The first reference whose test holds wins; when none holds the
    /// result falls back to the first reference.
    pub fn search(near: &[bool; 4]) -> (found: Orientation)
        ensures
            found == Orientation::chosen(near@),
    {
        let refs = Orientation::catalog();
        let mut i: usize = 0;
        while i < 4
            invariant
                i <= 4,
                refs@ == Orientation::references(),
                forall|j: int| 0 <= j < i ==> !near@[j],
            decreases 4 - i,
        {
            if near[i] {
                return refs[i];
            }
            i += 1;
        }
        refs[0]
    }

    /// The first reference whose test holds is the one picked, whatever the
    /// tests of the references behind it say.
    pub proof fn law_first_near_is_chosen(near: Seq<bool>, k: int)
        requires
            0 <= k < near.len(),
            k < Self::references().len(),
            near[k],
            forall|j: int| 0 <= j < k ==> !near[j],
        ensures
            Self::chosen(near) == Self::references()[k],
    {
    }

    /// When no test holds, the first reference of the catalog is picked, and
    /// with it the normal orientation.
    pub proof fn law_none_near_falls_back(near: Seq<bool>)
        requires
            forall|j: int| 0 <= j < near.len() ==> !near[j],
        ensures
            Self::chosen(near) == Self::references()[0],
            Self::chosen(near).sway_state == OrientationState::Normal,
    {
    }

    /// The references of the catalog stand for four different transforms,
    /// and any two of them lie at a squared distance of at least 2.
    pub proof fn law_references_are_apart(i: int, j: int)
        requires
            0 <= i < Self::references().len(),
            0 <= j < Self::references().len(),
            i != j,
        ensures
            Self::references()[i].sway_state != Self::references()[j].sway_state,
            Self::references()[i].squared_distance(Self::references()[j]) >= 2,
    {
        let dx = Self::references()[i].x - Self::references()[j].x;
        let dy = Self::references()[i].y - Self::references()[j].y;
        assert(dx * dx >= 0 && (dx != 0 ==> dx * dx >= 1) && (dx == 2 || dx == -2 ==> dx * dx
            == 4)) by (nonlinear_arith);
        assert(dy * dy >= 0 && (dy != 0 ==> dy * dy >= 1) && (dy == 2 || dy == -2 ==> dy * dy
            == 4)) by (nonlinear_arith);
    }

    /// The orientation picked depends on the tests alone: the same tests give
    /// the same orientation.
    pub proof fn law_same_tests_same_choice(first: Seq<bool>, second: Seq<bool>)
        requires
            first.len() == second.len(),
            forall|j: int| 0 <= j < first.len() ==> first[j] == second[j],
        ensures
            Self::chosen(first) == Self::chosen(second),
    {
    }
}

} // verus!
