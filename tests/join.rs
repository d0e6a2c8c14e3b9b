use surreal_function::dispatch::ControlFlow;
use surreal_function::error::CallError;
use surreal_function::join::ArgJoin;
use surreal_function::value::Value;

fn failure() -> ControlFlow {
    ControlFlow::Fail(CallError::InvalidScript { message: "a failed".to_string() })
}

#[test]
fn first_failure_decides_without_waiting() {
    let mut j = ArgJoin::new(2);
    assert!(!j.is_decided());
    j.offer(0, Err(failure()));
    assert!(j.is_decided());
    j.offer(1, Ok(Value::Number(1)));
    assert_eq!(j.finish(), Err(failure()));
}

#[test]
fn values_join_in_position_order() {
    let mut j = ArgJoin::new(3);
    j.offer(2, Ok(Value::Number(3)));
    j.offer(0, Ok(Value::Number(1)));
    assert!(!j.is_decided());
    j.offer(1, Ok(Value::Number(2)));
    assert!(j.is_decided());
    j.offer(0, Err(failure()));
    assert_eq!(j.finish(), Ok(vec![Value::Number(1), Value::Number(2), Value::Number(3)]));
}

#[test]
fn no_arguments_is_decided_at_once() {
    let j = ArgJoin::new(0);
    assert!(j.is_decided());
    assert_eq!(j.finish(), Ok(vec![]));
}

#[test]
fn return_signal_short_circuits() {
    let mut j = ArgJoin::new(2);
    j.offer(1, Ok(Value::Null));
    j.offer(0, Err(ControlFlow::Return(Value::Number(9))));
    assert_eq!(j.finish(), Err(ControlFlow::Return(Value::Number(9))));
}
