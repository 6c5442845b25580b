use raycore::base::{check_base, examine, BaseChecks, BaseError};
use raycore::cs::{CompletionCase, Cs};
use raycore::point::Point;
use raycore::vector::Vector;

#[test]
fn check_cs_1() {
    let mut cs = Cs::new();
    assert!(cs.o.x == 0);
    assert!(cs.o.y == 0);
    assert!(cs.o.z == 0);
    assert!(cs.o.w() == 1);
    assert!(cs.i.x == 1);
    assert!(cs.i.y == 0);
    assert!(cs.i.z == 0);
    assert!(cs.i.w() == 0);
    assert!(cs.j.x == 0);
    assert!(cs.j.y == 1);
    assert!(cs.j.z == 0);
    assert!(cs.j.w() == 0);
    assert!(cs.k.x == 0);
    assert!(cs.k.y == 0);
    assert!(cs.k.z == 1);
    assert!(cs.k.w() == 0);

    cs.o.x = 3;
    assert!(cs.o.x == 3);
}

#[test]
fn check_cs_2() {
    let mut cs = Cs::default();
    assert!(cs.o.x == 0);
    assert!(cs.o.y == 0);
    assert!(cs.o.z == 0);
    assert!(cs.o.w() == 1);
    assert!(cs.i.x == 1);
    assert!(cs.i.y == 0);
    assert!(cs.i.z == 0);
    assert!(cs.i.w() == 0);
    assert!(cs.j.x == 0);
    assert!(cs.j.y == 1);
    assert!(cs.j.z == 0);
    assert!(cs.j.w() == 0);
    assert!(cs.k.x == 0);
    assert!(cs.k.y == 0);
    assert!(cs.k.z == 1);
    assert!(cs.k.w() == 0);

    cs.o.x = 3;

    let mut cs2 = Cs::default();
    assert!(cs2.o.x == 0);
    assert!(cs2.o.y == 0);
    assert!(cs2.o.z == 0);
    assert!(cs2.o.w() == 1);
    assert!(cs2.i.x == 1);
    assert!(cs2.i.y == 0);
    assert!(cs2.i.z == 0);
    assert!(cs2.i.w() == 0);
    assert!(cs2.j.x == 0);
    assert!(cs2.j.y == 1);
    assert!(cs2.j.z == 0);
    assert!(cs2.j.w() == 0);
    assert!(cs2.k.x == 0);
    assert!(cs2.k.y == 0);
    assert!(cs2.k.z == 1);
    assert!(cs2.k.w() == 0);

    cs2.o.x = 4;
    assert!(cs.o.x == 3);
    assert!(cs2.o.x == 4);
}

fn all_hold() -> BaseChecks {
    BaseChecks {
        i_unit: true,
        j_unit: true,
        k_unit: true,
        i_normal_to_j: true,
        j_normal_to_k: true,
        k_normal_to_i: true,
        i_is_j_cross_k: true,
        j_is_k_cross_i: true,
        k_is_i_cross_j: true,
    }
}

#[test]
fn verdict_accepts_when_all_conditions_hold() {
    assert_eq!(all_hold().verdict(), Ok(()));
}

#[test]
fn verdict_names_each_condition_that_fails_alone() {
    let mut c = all_hold();
    c.i_unit = false;
    assert_eq!(c.verdict(), Err(BaseError::INotUnit));
    let mut c = all_hold();
    c.j_unit = false;
    assert_eq!(c.verdict(), Err(BaseError::JNotUnit));
    let mut c = all_hold();
    c.k_unit = false;
    assert_eq!(c.verdict(), Err(BaseError::KNotUnit));
    let mut c = all_hold();
    c.i_normal_to_j = false;
    assert_eq!(c.verdict(), Err(BaseError::INotNormalToJ));
    let mut c = all_hold();
    c.j_normal_to_k = false;
    assert_eq!(c.verdict(), Err(BaseError::JNotNormalToK));
    let mut c = all_hold();
    c.k_normal_to_i = false;
    assert_eq!(c.verdict(), Err(BaseError::KNotNormalToI));
    let mut c = all_hold();
    c.i_is_j_cross_k = false;
    assert_eq!(c.verdict(), Err(BaseError::INotJCrossK));
    let mut c = all_hold();
    c.j_is_k_cross_i = false;
    assert_eq!(c.verdict(), Err(BaseError::JNotKCrossI));
    let mut c = all_hold();
    c.k_is_i_cross_j = false;
    assert_eq!(c.verdict(), Err(BaseError::KNotICrossJ));
}

#[test]
fn verdict_names_the_first_of_several_failures() {
    let mut c = all_hold();
    c.k_is_i_cross_j = false;
    c.j_normal_to_k = false;
    c.k_unit = false;
    assert_eq!(c.verdict(), Err(BaseError::KNotUnit));
    c.k_unit = true;
    assert_eq!(c.verdict(), Err(BaseError::JNotNormalToK));
    c.j_normal_to_k = true;
    assert_eq!(c.verdict(), Err(BaseError::KNotICrossJ));
}

#[test]
fn messages_are_distinct_and_worded() {
    assert_eq!(BaseError::INotUnit.message(), "i is not unit vector");
    assert_eq!(BaseError::JNotUnit.message(), "j is not unit vector");
    assert_eq!(BaseError::KNotUnit.message(), "k is not unit vector");
    assert_eq!(BaseError::INotNormalToJ.message(), "i is not normal to j");
    assert_eq!(BaseError::JNotNormalToK.message(), "j is not normal to k");
    assert_eq!(BaseError::KNotNormalToI.message(), "k is not normal to i");
    assert_eq!(BaseError::INotJCrossK.message(), "i != j ^ k");
    assert_eq!(BaseError::JNotKCrossI.message(), "j != k ^ i");
    assert_eq!(BaseError::KNotICrossJ.message(), "k != i ^ j");
}

#[test]
fn build_rejects_a_non_unit_i() {
    let r = Cs::build(
        Point::origin(),
        Vector::new(2, 0, 0),
        Vector::unit_j(),
        Vector::unit_k(),
    );
    assert_eq!(r, Err(BaseError::INotUnit));
}

#[test]
fn build_rejects_a_non_unit_j_and_k() {
    let o = Point::origin();
    let r = Cs::build(o, Vector::unit_i(), Vector::new(0, 1, 1), Vector::unit_k());
    assert_eq!(r, Err(BaseError::JNotUnit));
    let r = Cs::build(o, Vector::unit_i(), Vector::unit_j(), Vector::zero());
    assert_eq!(r, Err(BaseError::KNotUnit));
}

#[test]
fn build_rejects_axes_that_are_not_at_right_angles() {
    let o = Point::origin();
    let r = Cs::build(o, Vector::unit_i(), Vector::unit_i(), Vector::unit_k());
    assert_eq!(r, Err(BaseError::INotNormalToJ));
    let r = Cs::build(o, Vector::unit_i(), Vector::unit_j(), Vector::unit_j());
    assert_eq!(r, Err(BaseError::JNotNormalToK));
    let r = Cs::build(o, Vector::unit_i(), Vector::unit_j(), Vector::unit_i());
    assert_eq!(r, Err(BaseError::KNotNormalToI));
}

#[test]
fn build_rejects_a_left_handed_triple() {
    let i = Vector::unit_k().cross(&Vector::unit_j());
    let r = Cs::build(Point::origin(), i, Vector::unit_j(), Vector::unit_k());
    assert_eq!(r, Err(BaseError::INotJCrossK));
    assert_eq!(
        check_base(&Vector::unit_i(), &Vector::unit_j(), &Vector::unit_k().neg()),
        Err(BaseError::INotJCrossK)
    );
}

#[test]
fn build_keeps_origin_and_axes_of_a_direct_base() {
    let o = Point::new(1, 2, 3);
    let i = Vector::new(0, 0, -1);
    let j = Vector::new(0, 1, 0);
    let k = Vector::new(1, 0, 0);
    let cs = Cs::build(o, i, j, k).unwrap();
    assert_eq!(cs, Cs { o, i, j, k });
}

#[test]
fn examine_decides_each_condition() {
    let c = examine(&Vector::unit_i(), &Vector::unit_j(), &Vector::unit_k());
    assert_eq!(c, all_hold());
    let c = examine(&Vector::unit_j(), &Vector::unit_i(), &Vector::unit_k());
    assert!(c.i_unit && c.j_unit && c.k_unit);
    assert!(c.i_normal_to_j && c.j_normal_to_k && c.k_normal_to_i);
    assert!(!c.i_is_j_cross_k && !c.j_is_k_cross_i && !c.k_is_i_cross_j);
}

#[test]
fn complete_cs_from_each_lattice_direction_is_direct() {
    let o = Point::new(1, 2, 3);
    let directions = [
        Vector::new(1, 0, 0),
        Vector::new(-1, 0, 0),
        Vector::new(0, 1, 0),
        Vector::new(0, -1, 0),
        Vector::new(0, 0, 1),
        Vector::new(0, 0, -1),
    ];
    for k in directions.iter() {
        let mut cs = Cs::new();
        cs.complete_cs(&o, k);
        assert_eq!(cs.o, o);
        assert_eq!(cs.k, *k);
        assert_eq!(check_base(&cs.i, &cs.j, &cs.k), Ok(()));
    }
}

#[test]
fn complete_cs_looking_up_and_down_uses_the_chosen_axes() {
    let o = Point::origin();
    let mut cs = Cs::new();
    cs.complete_cs(&o, &Vector::unit_j());
    assert_eq!(cs.i, Vector::new(-1, 0, 0));
    assert_eq!(cs.j, Vector::new(0, 0, 1));
    cs.complete_cs(&o, &Vector::new(0, -1, 0));
    assert_eq!(cs.i, Vector::new(0, 0, -1));
    assert_eq!(cs.j, Vector::new(1, 0, 0));
}

#[test]
fn complete_cs_in_the_general_case_keeps_up_as_second_axis() {
    let o = Point::origin();
    let mut cs = Cs::new();
    cs.complete_cs(&o, &Vector::unit_k());
    assert_eq!(cs, Cs::new());
    cs.complete_cs(&o, &Vector::unit_i());
    assert_eq!(cs.j, Vector::unit_j());
    assert_eq!(cs.i, Vector::new(0, 0, -1));
}

#[test]
fn classify_tells_the_three_cases_apart() {
    assert_eq!(CompletionCase::classify(&Vector::unit_j()), CompletionCase::ParallelToUp);
    assert_eq!(
        CompletionCase::classify(&Vector::new(0, -1, 0)),
        CompletionCase::AntiparallelToUp
    );
    assert_eq!(CompletionCase::classify(&Vector::unit_k()), CompletionCase::General);
    assert_eq!(CompletionCase::classify(&Vector::new(0, 2, 0)), CompletionCase::General);
    assert_eq!(CompletionCase::General.fallback_axes(), None);
    assert_eq!(
        CompletionCase::ParallelToUp.fallback_axes(),
        Some((Vector::new(-1, 0, 0), Vector::new(0, 0, 1)))
    );
    assert_eq!(
        CompletionCase::AntiparallelToUp.fallback_axes(),
        Some((Vector::new(0, 0, -1), Vector::new(1, 0, 0)))
    );
}

#[test]
fn exact_examination_never_ends_on_the_last_two_conditions() {
    let values = [-1, 0, 1];
    let mut vectors: Vec<Vector> = Vec::new();
    for x in values {
        for y in values {
            for z in values {
                vectors.push(Vector::new(x, y, z));
            }
        }
    }
    let mut accepted: u32 = 0;
    for i in vectors.iter() {
        for j in vectors.iter() {
            for k in vectors.iter() {
                match check_base(i, j, k) {
                    Ok(()) => accepted += 1,
                    Err(e) => {
                        assert_ne!(e, BaseError::JNotKCrossI);
                        assert_ne!(e, BaseError::KNotICrossJ);
                    }
                }
            }
        }
    }
    assert_eq!(accepted, 24);
}
