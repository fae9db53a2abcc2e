use scalar_surreal::plan::{Plan, Run, Step};

fn plan() -> Plan {
    Plan { steps: vec![Step::Begin, Step::Check, Step::Take(2)] }
}

#[test]
fn steps_come_in_order() {
    let mut run = Run::new(plan());
    assert_eq!(run.current(), Some(&Step::Begin));
    assert!(!run.finished());
    assert_eq!(run.advance::<u8>(Ok(())), Ok(()));
    assert_eq!(run.current(), Some(&Step::Check));
    assert_eq!(run.advance::<u8>(Ok(())), Ok(()));
    assert_eq!(run.current(), Some(&Step::Take(2)));
    assert_eq!(run.advance::<u8>(Ok(())), Ok(()));
    assert_eq!(run.current(), None);
    assert!(run.finished());
}

#[test]
fn failure_ends_the_operation() {
    let mut run = Run::new(plan());
    assert_eq!(run.advance::<u8>(Ok(())), Ok(()));
    assert_eq!(run.position(), 1);
    assert_eq!(run.advance(Err("lost")), Err("lost"));
    assert_eq!(run.position(), 1);
    assert_eq!(run.current(), None);
    assert!(!run.finished());
}

#[test]
fn nothing_to_do_is_done() {
    let run = Run::new(Plan { steps: vec![] });
    assert_eq!(run.current(), None);
    assert!(run.finished());
}
