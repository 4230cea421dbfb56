use granita::error::Error;
use granita::scenario::{run_after, run_start, RunStep, ScenarioList};

fn succeed() -> Result<(), Error> {
    Ok(())
}

fn fail() -> Result<(), Error> {
    Err(Error::Configuration("scenario C failed".into()))
}

type Body = fn() -> Result<(), Error>;

fn drive(list: &ScenarioList<Body>, invoked: &mut Vec<String>) -> Result<(), Error> {
    let mut step = run_start(list.len());
    loop {
        match step {
            RunStep::Invoke(i) => {
                invoked.push(list.name(i).clone());
                let outcome = (list.func(i))();
                step = run_after(list.len(), i, outcome);
            }
            RunStep::Finished(result) => return result,
        }
    }
}

#[test]
fn scenario_adds_scenario() {
    let list = ScenarioList::<Body>::new().with_scenario("test".to_string(), succeed);
    assert_eq!(list.len(), 1);
    assert_eq!(list.name(0), "test");
}

#[test]
fn scenario_adds_multiple_scenarios() {
    let list = ScenarioList::<Body>::new()
        .with_scenario("test1".to_string(), succeed)
        .with_scenario("test2".to_string(), succeed);
    assert_eq!(list.len(), 2);
    assert_eq!(list.name(0), "test1");
    assert_eq!(list.name(1), "test2");
}

#[test]
fn duplicate_names_are_both_kept() {
    let list = ScenarioList::<Body>::new()
        .with_scenario("same".to_string(), succeed)
        .with_scenario("same".to_string(), fail);
    assert_eq!(list.len(), 2);
    assert!(list.func(0)().is_ok());
    assert!(list.func(1)().is_err());
}

#[test]
fn run_stops_at_first_failure() {
    let list = ScenarioList::<Body>::new()
        .with_scenario("A".to_string(), succeed)
        .with_scenario("B".to_string(), succeed)
        .with_scenario("C".to_string(), fail)
        .with_scenario("sentinel".to_string(), succeed);
    let mut invoked = Vec::new();
    let result = drive(&list, &mut invoked);
    assert_eq!(invoked, vec!["A", "B", "C"]);
    match result {
        Err(Error::Configuration(m)) => assert_eq!(&*m, "scenario C failed"),
        _ => panic!("expected C's error"),
    }
}

#[test]
fn run_invokes_all_when_all_succeed() {
    let list = ScenarioList::<Body>::new()
        .with_scenario("A".to_string(), succeed)
        .with_scenario("B".to_string(), succeed);
    let mut invoked = Vec::new();
    assert!(drive(&list, &mut invoked).is_ok());
    assert_eq!(invoked, vec!["A", "B"]);
}

#[test]
fn run_of_no_scenarios_succeeds() {
    assert!(matches!(run_start(0), RunStep::Finished(Ok(()))));
    let list = ScenarioList::<Body>::new();
    let mut invoked = Vec::new();
    assert!(drive(&list, &mut invoked).is_ok());
    assert!(invoked.is_empty());
}

#[test]
fn run_steps_are_exact() {
    assert!(matches!(run_start(3), RunStep::Invoke(0)));
    assert!(matches!(run_after(3, 0, Ok(())), RunStep::Invoke(1)));
    assert!(matches!(run_after(3, 2, Ok(())), RunStep::Finished(Ok(()))));
    assert!(matches!(
        run_after(3, 1, Err(Error::FailedRequestExecution)),
        RunStep::Finished(Err(Error::FailedRequestExecution))
    ));
}
