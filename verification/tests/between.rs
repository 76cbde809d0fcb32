use validiter::Between;
use validiter::Ensure;
use validiter::Unvalidatable;
use validiter::ValidErr;

#[test]
fn between_test_between() {
    let v: Vec<f64> = vec![-1.3, -0.3, 0.7, 1.7, f64::NEG_INFINITY, f64::INFINITY, f64::NAN];
    let bt = Between::new(-0.5, 1.5);
    let validated = bt.run(v.validate().run());
    assert_eq!(
        validated[0..validated.len() - 1],
        [
            Err(ValidErr::OutOfBounds(-1.3)),
            Ok(-0.3),
            Ok(0.7),
            Err(ValidErr::OutOfBounds(1.7)),
            Err(ValidErr::OutOfBounds(f64::NEG_INFINITY)),
            Err(ValidErr::OutOfBounds(f64::INFINITY))
        ]
    );
    let nan_out_of_bounds = &validated[validated.len() - 1];
    match nan_out_of_bounds {
        Ok(_) => panic!("non ordered item validated as in bounds"),
        Err(ValidErr::OutOfBounds(oob)) => assert!(oob.is_nan()),
        _ => panic!("unexpected value in at least"),
    }
}

#[test]
fn test_between() {
    let v: Vec<f64> = vec![-1.3, -0.3, 0.7, 1.7, f64::NEG_INFINITY, f64::INFINITY, f64::NAN];
    let bt = Between::new(-0.5, 1.5);
    let validated = bt.run(v.validate().run());
    assert_eq!(
        validated[0..validated.len() - 1],
        [
            Err(ValidErr::OutOfBounds(-1.3)),
            Ok(-0.3),
            Ok(0.7),
            Err(ValidErr::OutOfBounds(1.7)),
            Err(ValidErr::OutOfBounds(f64::NEG_INFINITY)),
            Err(ValidErr::OutOfBounds(f64::INFINITY))
        ]
    );
    match &validated[validated.len() - 1] {
        Ok(_) => panic!("non ordered item validated as in bounds"),
        Err(ValidErr::OutOfBounds(oob)) => assert!(oob.is_nan()),
        _ => panic!("unexpected value in at least"),
    }
}

#[test]
fn between_test_between_is_range_inclusive() {
    let v: Vec<i32> = (0..=4).collect();
    let bt = Between::new(1, 3);
    let results = bt.run(v.validate().run());
    assert_eq!(
        results,
        [
            Err(ValidErr::OutOfBounds(0)),
            Ok(1),
            Ok(2),
            Ok(3),
            Err(ValidErr::OutOfBounds(4))
        ]
    )
}

#[test]
fn test_between_is_range_inclusive() {
    let v: Vec<i32> = (0..=4).collect();
    let bt = Between::new(1, 3);
    let results = bt.run(v.validate().run());
    assert_eq!(
        results,
        [
            Err(ValidErr::OutOfBounds(0)),
            Ok(1),
            Ok(2),
            Ok(3),
            Err(ValidErr::OutOfBounds(4))
        ]
    )
}

#[test]
fn between_test_between_is_capable_of_allowing_single_value() {
    let v: Vec<i32> = (0..=2).collect();
    let bt = Between::new(1, 1);
    let results = bt.run(v.validate().run());
    assert_eq!(
        results,
        [Err(ValidErr::OutOfBounds(0)), Ok(1), Err(ValidErr::OutOfBounds(2))]
    )
}

#[test]
fn test_between_is_capable_of_allowing_single_value() {
    let v: Vec<i32> = (0..=2).collect();
    let bt = Between::new(1, 1);
    let results = bt.run(v.validate().run());
    assert_eq!(
        results,
        [Err(ValidErr::OutOfBounds(0)), Ok(1), Err(ValidErr::OutOfBounds(2))]
    )
}

#[test]
fn test_between_igonres_errors() {
    let v: Vec<i32> = (1..=1).collect();
    let en = Ensure::new(|i: &i32| *i == 0);
    let bt = Between::new(0, 0);
    let results = bt.run(en.run(v.validate().run()));
    assert_eq!(results, vec![Err(ValidErr::Invalid(1))])
}
