//! The quality grades of the provider's measurements and their order.

use core::cmp::Ordering;
use vstd::prelude::*;

verus! {

/// Grade that the provider's quality control gave a measurement. The grades
/// are listed from the least to the most trusted, and are ordered so.
#[derive(Debug, Clone, Copy, PartialEq, Eq, Ord, Hash, Structural)]
pub enum QualityControl {
    /// Rejected or erroneous, failed level 1.
    X,
    /// Subjective bad.
    B,
    /// Virtual temperature could not be calculated.
    T,
    /// Questioned, passed level 1, failed 2 or 3.
    Q,
    /// Preliminary, no quality control.
    Z,
    /// Coarse pass, passed level 1.
    C,
    /// Screened, passed levels 1 and 2.
    S,
    /// Subjective good.
    G,
    /// Verified, passed levels 1, 2, and 3.
    V,
}

impl QualityControl {
    /// The rank of each grade: the higher, the more the measurement is to be
    /// trusted.
    pub open spec fn rank(self) -> nat {
        match self {
            QualityControl::V => 9,
            QualityControl::G => 8,
            QualityControl::S => 7,
            QualityControl::C => 6,
            QualityControl::Z => 5,
            QualityControl::Q => 4,
            QualityControl::T => 3,
            QualityControl::B => 2,
            QualityControl::X => 1,
        }
    }

    /// The grade's rank.
    pub fn level(&self) -> (res: usize)
        ensures
            res == self.rank(),
    {
        match self {
            QualityControl::V => 9,
            QualityControl::G => 8,
            QualityControl::S => 7,
            QualityControl::C => 6,
            QualityControl::Z => 5,
            QualityControl::Q => 4,
            QualityControl::T => 3,
            QualityControl::B => 2,
            QualityControl::X => 1,
        }
    }
}

impl PartialOrd for QualityControl {
    /// Orders the grades by rank.
    fn partial_cmp(&self, other: &Self) -> (res: Option<Ordering>) {
        let mine = self.level();
        let theirs = other.level();
        if mine < theirs {
            Some(Ordering::Less)
        } else if mine > theirs {
            Some(Ordering::Greater)
        } else {
            Some(Ordering::Equal)
        }
    }
}

impl vstd::std_specs::cmp::PartialOrdSpecImpl for QualityControl {
    open spec fn obeys_partial_cmp_spec() -> bool {
        true
    }

    open spec fn partial_cmp_spec(&self, other: &Self) -> Option<Ordering> {
        if self.rank() < other.rank() {
            Some(Ordering::Less)
        } else if self.rank() > other.rank() {
            Some(Ordering::Greater)
        } else {
            Some(Ordering::Equal)
        }
    }
}

/// The grades are totally ordered by rank: no two grades share a rank, and
/// every rank lies between 1 and 9.
pub proof fn law_rank_orders_grades(a: QualityControl, b: QualityControl)
    ensures
        1 <= a.rank() <= 9,
        a.rank() == b.rank() <==> a == b,
{
}

/// True when `a` is a better grade than `b`.
pub fn outranks(a: QualityControl, b: QualityControl) -> (res: bool)
    ensures
        res == (a.rank() > b.rank()),
{
    a > b
}

} // verus!
