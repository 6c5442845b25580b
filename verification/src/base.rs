//! What makes three vectors a direct orthonormal base, and in which order
//! the conditions are examined.
//!
//! The nine conditions are always examined in the same order, and a failed
//! examination names the first condition that does not hold. The order and
//! the naming do not depend on how a condition is decided: exactly, on
//! lattice vectors, or within a tolerance, by a caller that hands in the nine
//! outcomes as [`BaseChecks`].

use vstd::prelude::*;
use crate::algebra::{lemma_cross_exchanged, lemma_dot_exchanged, lemma_double_cross};
use crate::vector::{Vec3, Vector};

verus! {

/// The condition that three vectors `i`, `j`, `k` fail to meet as a base.
#[derive(Clone, Copy, Debug, PartialEq, Eq, Structural)]
pub enum BaseError {
    /// `i` does not have length one.
    INotUnit,
    /// `j` does not have length one.
    JNotUnit,
    /// `k` does not have length one.
    KNotUnit,
    /// `i` and `j` are not at a right angle.
    INotNormalToJ,
    /// `j` and `k` are not at a right angle.
    JNotNormalToK,
    /// `k` and `i` are not at a right angle.
    KNotNormalToI,
    /// `i` is not the cross product of `j` and `k`.
    INotJCrossK,
    /// `j` is not the cross product of `k` and `i`.
    JNotKCrossI,
    /// `k` is not the cross product of `i` and `j`.
    KNotICrossJ,
}

impl BaseError {
    /// Position of the condition in the order of examination, from 0.
    pub open spec fn rank(self) -> int {
        match self {
            BaseError::INotUnit => 0,
            BaseError::JNotUnit => 1,
            BaseError::KNotUnit => 2,
            BaseError::INotNormalToJ => 3,
            BaseError::JNotNormalToK => 4,
            BaseError::KNotNormalToI => 5,
            BaseError::INotJCrossK => 6,
            BaseError::JNotKCrossI => 7,
            BaseError::KNotICrossJ => 8,
        }
    }

    /// The diagnosis in words.
    pub open spec fn text(self) -> Seq<char> {
        match self {
            BaseError::INotUnit => "i is not unit vector"@,
            BaseError::JNotUnit => "j is not unit vector"@,
            BaseError::KNotUnit => "k is not unit vector"@,
            BaseError::INotNormalToJ => "i is not normal to j"@,
            BaseError::JNotNormalToK => "j is not normal to k"@,
            BaseError::KNotNormalToI => "k is not normal to i"@,
            BaseError::INotJCrossK => "i != j ^ k"@,
            BaseError::JNotKCrossI => "j != k ^ i"@,
            BaseError::KNotICrossJ => "k != i ^ j"@,
        }
    }

    /// The diagnosis in words.
    pub fn message(&self) -> (s: &'static str)
        ensures
            s@ == self.text(),
    {
        match self {
            BaseError::INotUnit => "i is not unit vector",
            BaseError::JNotUnit => "j is not unit vector",
            BaseError::KNotUnit => "k is not unit vector",
            BaseError::INotNormalToJ => "i is not normal to j",
            BaseError::JNotNormalToK => "j is not normal to k",
            BaseError::KNotNormalToI => "k is not normal to i",
            BaseError::INotJCrossK => "i != j ^ k",
            BaseError::JNotKCrossI => "j != k ^ i",
            BaseError::KNotICrossJ => "k != i ^ j",
        }
    }
}

/// The outcome of each of the nine examinations of a candidate base.
/// A field is `true` where the condition holds.
#[derive(Clone, Copy, Debug, PartialEq, Eq, Structural)]
pub struct BaseChecks {
    pub i_unit: bool,
    pub j_unit: bool,
    pub k_unit: bool,
    pub i_normal_to_j: bool,
    pub j_normal_to_k: bool,
    pub k_normal_to_i: bool,
    pub i_is_j_cross_k: bool,
    pub j_is_k_cross_i: bool,
    pub k_is_i_cross_j: bool,
}

impl BaseChecks {
    /// Whether the condition that `e` names holds.
    pub open spec fn holds(self, e: BaseError) -> bool {
        match e {
            BaseError::INotUnit => self.i_unit,
            BaseError::JNotUnit => self.j_unit,
            BaseError::KNotUnit => self.k_unit,
            BaseError::INotNormalToJ => self.i_normal_to_j,
            BaseError::JNotNormalToK => self.j_normal_to_k,
            BaseError::KNotNormalToI => self.k_normal_to_i,
            BaseError::INotJCrossK => self.i_is_j_cross_k,
            BaseError::JNotKCrossI => self.j_is_k_cross_i,
            BaseError::KNotICrossJ => self.k_is_i_cross_j,
        }
    }

    /// Whether all nine conditions hold.
    pub open spec fn all_hold(self) -> bool {
        &&& self.i_unit
        &&& self.j_unit
        &&& self.k_unit
        &&& self.i_normal_to_j
        &&& self.j_normal_to_k
        &&& self.k_normal_to_i
        &&& self.i_is_j_cross_k
        &&& self.j_is_k_cross_i
        &&& self.k_is_i_cross_j
    }

    /// Whether `e` names the first condition, in the order of examination,
    /// that does not hold.
    pub open spec fn first_failure_is(self, e: BaseError) -> bool {
        &&& !self.holds(e)
        &&& forall|f: BaseError| f.rank() < e.rank() ==> self.holds(f)
    }

    /// The first condition, in the order of examination, that does not
    /// hold, if there is one.
    pub open spec fn first_failure(self) -> Option<BaseError> {
        if !self.i_unit {
            Some(BaseError::INotUnit)
        } else if !self.j_unit {
            Some(BaseError::JNotUnit)
        } else if !self.k_unit {
            Some(BaseError::KNotUnit)
        } else if !self.i_normal_to_j {
            Some(BaseError::INotNormalToJ)
        } else if !self.j_normal_to_k {
            Some(BaseError::JNotNormalToK)
        } else if !self.k_normal_to_i {
            Some(BaseError::KNotNormalToI)
        } else if !self.i_is_j_cross_k {
            Some(BaseError::INotJCrossK)
        } else if !self.j_is_k_cross_i {
            Some(BaseError::JNotKCrossI)
        } else if !self.k_is_i_cross_j {
            Some(BaseError::KNotICrossJ)
        } else {
            None
        }
    }

    /// The verdict on the nine outcomes: success when all conditions hold,
    /// and otherwise the first one that does not.
    pub open spec fn judged(self) -> Result<(), BaseError> {
        match self.first_failure() {
            None => Ok(()),
            Some(e) => Err(e),
        }
    }

    /// The outcomes for the model vectors `i`, `j`, `k`, each condition
    /// decided exactly.
    pub open spec fn exact(i: Vec3, j: Vec3, k: Vec3) -> BaseChecks {
        BaseChecks {
            i_unit: i.is_unit(),
            j_unit: j.is_unit(),
            k_unit: k.is_unit(),
            i_normal_to_j: i.is_normal_to(j),
            j_normal_to_k: j.is_normal_to(k),
            k_normal_to_i: k.is_normal_to(i),
            i_is_j_cross_k: i == j.cross(k),
            j_is_k_cross_i: j == k.cross(i),
            k_is_i_cross_j: k == i.cross(j),
        }
    }

    /// Examines the nine outcomes in order. Succeeds when all conditions
    /// hold, and otherwise names the first one that does not.
    pub fn verdict(&self) -> (r: Result<(), BaseError>)
        ensures
            r == self.judged(),
            r is Ok <==> self.all_hold(),
            r matches Err(e) ==> self.first_failure_is(e),
    {
        if !self.i_unit {
            Err(BaseError::INotUnit)
        } else if !self.j_unit {
            Err(BaseError::JNotUnit)
        } else if !self.k_unit {
            Err(BaseError::KNotUnit)
        } else if !self.i_normal_to_j {
            Err(BaseError::INotNormalToJ)
        } else if !self.j_normal_to_k {
            Err(BaseError::JNotNormalToK)
        } else if !self.k_normal_to_i {
            Err(BaseError::KNotNormalToI)
        } else if !self.i_is_j_cross_k {
            Err(BaseError::INotJCrossK)
        } else if !self.j_is_k_cross_i {
            Err(BaseError::JNotKCrossI)
        } else if !self.k_is_i_cross_j {
            Err(BaseError::KNotICrossJ)
        } else {
            Ok(())
        }
    }
}

/// Whether `i`, `j`, `k` are unit vectors, pairwise at right angles, that
/// follow the right-hand rule.
pub open spec fn is_direct_orthonormal(i: Vec3, j: Vec3, k: Vec3) -> bool {
    BaseChecks::exact(i, j, k).all_hold()
}

/// Decides each of the nine conditions exactly for the lattice vectors `i`,
/// `j`, `k`.
pub fn examine(i: &Vector, j: &Vector, k: &Vector) -> (c: BaseChecks)
    ensures
        c == BaseChecks::exact(i@, j@, k@),
{
    BaseChecks {
        i_unit: i.is_normalized(),
        j_unit: j.is_normalized(),
        k_unit: k.is_normalized(),
        i_normal_to_j: i.is_normal_to(j),
        j_normal_to_k: j.is_normal_to(k),
        k_normal_to_i: k.is_normal_to(i),
        i_is_j_cross_k: i.is_cross_of(j, k),
        j_is_k_cross_i: j.is_cross_of(k, i),
        k_is_i_cross_j: k.is_cross_of(i, j),
    }
}

/// Checks that the lattice vectors `i`, `j`, `k` form a direct orthonormal
/// base. A failure names the first condition, in the order of examination,
/// that they do not meet.
pub fn check_base(i: &Vector, j: &Vector, k: &Vector) -> (r: Result<(), BaseError>)
    ensures
        r == BaseChecks::exact(i@, j@, k@).judged(),
        r is Ok <==> is_direct_orthonormal(i@, j@, k@),
        r matches Err(e) ==> BaseChecks::exact(i@, j@, k@).first_failure_is(e),
{
    examine(i, j, k).verdict()
}

/// Where the conditions are decided exactly, the right-hand rule has to be
/// examined only once: unit vectors `j` and `k` at a right angle, with `i`
/// their cross product, make the other two cross products come out right.
/// An exact examination therefore never ends on one of the last two
/// conditions.
pub proof fn lemma_right_hand_rule_once(i: Vec3, j: Vec3, k: Vec3)
    requires
        j.is_unit(),
        k.is_unit(),
        j.is_normal_to(k),
        i == j.cross(k),
    ensures
        j == k.cross(i),
        k == i.cross(j),
        BaseChecks::exact(i, j, k).judged() != Err::<(), BaseError>(BaseError::JNotKCrossI),
        BaseChecks::exact(i, j, k).judged() != Err::<(), BaseError>(BaseError::KNotICrossJ),
{
    lemma_dot_exchanged(j, k);
    // k x (j x k) = (k.k) j - (k.j) k
    lemma_double_cross(k, j, k);
    // (j x k) x j = -(j x (j x k)) = -((j.k) j - (j.j) k)
    lemma_cross_exchanged(j, i);
    lemma_double_cross(j, j, k);
    let (jx, jy, jz) = (j.x, j.y, j.z);
    let (kx, ky, kz) = (k.x, k.y, k.z);
    assert(1 * jx == jx && 1 * jy == jy && 1 * jz == jz && 0 * jx == 0 && 0 * jy == 0 && 0 * jz
        == 0 && 1 * kx == kx && 1 * ky == ky && 1 * kz == kz && 0 * kx == 0 && 0 * ky == 0 && 0
        * kz == 0) by (nonlinear_arith);
}

/// The verdict names the first condition that does not hold, and only that
/// one; it is a success exactly when all conditions hold.
pub proof fn lemma_judged(c: BaseChecks, e: BaseError)
    ensures
        c.judged() is Ok <==> c.all_hold(),
        c.judged() == Err::<(), BaseError>(e) <==> c.first_failure_is(e),
{
    if c.first_failure_is(e) {
        match c.first_failure() {
            Some(f) => {
                lemma_first_failure_unique(c, e, f);
            },
            None => {},
        }
    }
}

/// At most one condition is the first that does not hold, so a verdict is
/// determined by the nine outcomes.
pub proof fn lemma_first_failure_unique(c: BaseChecks, e: BaseError, f: BaseError)
    requires
        c.first_failure_is(e),
        c.first_failure_is(f),
    ensures
        e == f,
{
    if e.rank() < f.rank() {
        assert(c.holds(e));
    } else if f.rank() < e.rank() {
        assert(c.holds(f));
    }
}

} // verus!
