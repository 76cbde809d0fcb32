use validiter::AtLeast;
use validiter::Ensure;
use validiter::Unvalidatable;
use validiter::ValidErr;

fn ok_range(lo: i32, hi: i32) -> Vec<Result<i32, ValidErr<i32>>> {
    let v: Vec<i32> = (lo..hi).collect();
    v.validate().run()
}

#[test]
fn at_least_test_at_least_on_failure() {
    let mut al = AtLeast::new(100);
    let outs = al.run_to_end(ok_range(0, 10));
    assert_eq!(outs.len(), 11);
    for (i, res_i) in outs.iter().enumerate() {
        match res_i {
            Ok(_) if i < 10 => {}
            Err(ValidErr::TooFew) if i == 10 => {}
            _ => panic!("unexpected value in at least adapter"),
        }
    }
}

#[test]
fn test_at_least_on_failure() {
    let mut al = AtLeast::new(100);
    let outs = al.run_to_end(ok_range(0, 10));
    assert_eq!(outs.len(), 11);
    outs.into_iter().enumerate().for_each(|(i, res_i)| match res_i {
        Ok(_) if i < 10 => {}
        Err(ValidErr::TooFew) if i == 10 => {}
        _ => panic!("unexpected value in at least adapter"),
    })
}

#[test]
fn at_least_test_at_least_on_success() {
    let mut al = AtLeast::new(5);
    let outs = al.run_to_end(ok_range(0, 10));
    assert_eq!(outs.len(), 10);
    for res_i in outs {
        match res_i {
            Ok(_) => {}
            _ => panic!("unexpected error in at least adapter"),
        }
    }
}

#[test]
fn test_at_least_on_success() {
    let mut al = AtLeast::new(5);
    let outs = al.run_to_end(ok_range(0, 10));
    assert_eq!(outs.len(), 10);
    outs.into_iter().for_each(|res_i| match res_i {
        Ok(_) => {}
        _ => panic!("unexpected error in at least adapter"),
    })
}

#[test]
fn at_least_test_at_least_successful_bounds() {
    let mut al = AtLeast::new(10);
    let tightly_bound_success: Result<Vec<i32>, _> =
        al.run_to_end(ok_range(0, 10)).into_iter().collect();
    assert!(matches!(tightly_bound_success, Ok(_)));

    let mut al0 = AtLeast::new(0);
    let empty_success: Result<Vec<i32>, _> = al0.run_to_end(ok_range(0, 0)).into_iter().collect();
    assert!(matches!(empty_success, Ok(_)));
}

#[test]
fn test_at_least_successful_bounds() {
    let mut al = AtLeast::new(10);
    let tightly_bound_success: Result<Vec<i32>, _> =
        al.run_to_end(ok_range(0, 10)).into_iter().collect();
    assert!(matches!(tightly_bound_success, Ok(_)));

    let mut al0 = AtLeast::new(0);
    let empty_success: Result<Vec<i32>, _> = al0.run_to_end(ok_range(0, 0)).into_iter().collect();
    assert!(matches!(empty_success, Ok(_)));
}

#[test]
fn at_least_test_at_least_unsuccessful_bounds() {
    let mut al = AtLeast::new(11);
    let tightly_bound_failure: Result<Vec<i32>, _> =
        al.run_to_end(ok_range(0, 10)).into_iter().collect();
    match tightly_bound_failure {
        Ok(_) => panic!("collection should fail"),
        Err(ValidErr::TooFew) => {}
        _ => panic!("bad variant"),
    }

    let mut al1 = AtLeast::new(1);
    let empty_failure: Result<Vec<i32>, _> = al1.run_to_end(ok_range(0, 0)).into_iter().collect();
    match empty_failure {
        Ok(_) => panic!("collection should fail"),
        Err(ValidErr::TooFew) => {}
        _ => panic!("bad variant"),
    }
}

#[test]
fn test_at_least_unsuccessful_bounds() {
    let mut al = AtLeast::new(11);
    let tightly_bound_failure: Result<Vec<i32>, _> =
        al.run_to_end(ok_range(0, 10)).into_iter().collect();
    match tightly_bound_failure {
        Ok(_) => panic!("collection should fail"),
        Err(ValidErr::TooFew) => {}
        _ => panic!("bad variant"),
    }

    let mut al1 = AtLeast::new(1);
    let empty_failure: Result<Vec<i32>, _> = al1.run_to_end(ok_range(0, 0)).into_iter().collect();
    match empty_failure {
        Ok(_) => panic!("collection should fail"),
        Err(ValidErr::TooFew) => {}
        _ => panic!("bad variant"),
    }
}

#[test]
fn at_least_test_at_least_all_elements_are_present_and_in_order_on_failure() {
    let mut al = AtLeast::new(11);
    al.run_to_end(ok_range(0, 10)).into_iter().enumerate().for_each(|(i, res_i)| match res_i {
        Ok(int) if int == i as i32 && i < 10 => {}
        Err(ValidErr::TooFew) if i == 10 => {}
        _ => panic!("bad iteration after at least adapter failure"),
    })
}

#[test]
fn test_at_least_all_elements_are_present_and_in_order_on_failure() {
    let mut al = AtLeast::new(11);
    al.run_to_end(ok_range(0, 10)).into_iter().enumerate().for_each(|(i, res_i)| match res_i {
        Ok(int) if int == i as i32 && i < 10 => {}
        Err(ValidErr::TooFew) if i == 10 => {}
        _ => panic!("bad iteration after at least adapter failure"),
    })
}

#[test]
fn at_least_test_at_least_all_elements_are_present_and_in_order_on_success() {
    let mut al = AtLeast::new(10);
    al.run_to_end(ok_range(0, 10)).into_iter().enumerate().for_each(|(i, res_i)| match res_i {
        Ok(int) if int == i as i32 && i < 10 => {}
        _ => panic!("bad iteration after at least adapter success"),
    })
}

#[test]
fn test_at_least_all_elements_are_present_and_in_order_on_success() {
    let mut al = AtLeast::new(10);
    al.run_to_end(ok_range(0, 10)).into_iter().enumerate().for_each(|(i, res_i)| match res_i {
        Ok(int) if int == i as i32 && i < 10 => {}
        _ => panic!("bad iteration after at least adapter success"),
    })
}

#[test]
fn at_least_test_at_least_does_not_validate_on_short_circuiting_before_last_element() {
    // the consumer stops after the ten source outcomes, so the source never
    // ends naturally and the trailing rejection is never produced
    let mut al = AtLeast::new(100);
    al.run(ok_range(0, 10)).into_iter().for_each(|res_i| match res_i {
        Ok(_) => {}
        _ => panic!("failed the iteration when last error element was truncated"),
    })
}

#[test]
fn test_at_least_does_not_validate_on_short_circuiting_before_last_element() {
    let mut al = AtLeast::new(100);
    al.run(ok_range(0, 10)).into_iter().for_each(|res_i| match res_i {
        Ok(_) => {}
        _ => panic!("failed the iteration when last error element was truncated"),
    })
}

#[test]
fn at_least_test_at_least_validates_on_short_circuiting_after_last_element() {
    // the consumer pulls one outcome past the source's end, so it sees the
    // trailing rejection as the 11th outcome
    let mut al = AtLeast::new(100);
    let outs = al.run_to_end(ok_range(0, 10));
    outs.into_iter().take(11).enumerate().for_each(|(i, res_i)| match res_i {
        Ok(_) if i < 10 => {}
        Err(ValidErr::TooFew) if i == 10 => {}
        _ => panic!("did not fail the iteration in short circuit when last error element was not truncated"),
    })
}

#[test]
fn test_at_least_validates_on_short_circuiting_after_last_element() {
    let mut al = AtLeast::new(100);
    let outs = al.run_to_end(ok_range(0, 10));
    outs.into_iter().take(11).enumerate().for_each(|(i, res_i)| match res_i {
        Ok(_) if i < 10 => {}
        Err(ValidErr::TooFew) if i == 10 => {}
        _ => panic!("did not fail the iteration in short circuit when last error element was not truncated"),
    })
}

#[test]
fn at_least_test_at_least_counting_iterator_correctly_skips_errors() {
    let en = Ensure::new(|i: &i32| i % 2 == 1);
    let mut al = AtLeast::new(1);
    let results = al.run_to_end(en.run(ok_range(0, 1)));
    assert_eq!(results, vec![Err(ValidErr::Invalid(0)), Err(ValidErr::TooFew)])
}

#[test]
fn test_at_least_counting_iterator_correctly_skips_errors() {
    let en = Ensure::new(|i: &i32| i % 2 == 1);
    let mut al = AtLeast::new(1);
    let results = al.run_to_end(en.run(ok_range(0, 1)));
    assert_eq!(results, vec![Err(ValidErr::Invalid(0)), Err(ValidErr::TooFew)])
}
