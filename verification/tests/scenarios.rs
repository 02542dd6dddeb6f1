use ocpp_rs::scenarios::{Scenario, ScenarioAction, ScenarioExecutor, ScenarioStep, StepPause};
use std::time::Duration;

#[test]
fn test_scenario_executor_creation() {
    let executor = ScenarioExecutor::new();
    assert!(!executor.list_scenarios().is_empty());
    assert!(executor.get_scenario("basic_charging").is_some());
}

#[test]
fn test_scenario_addition() {
    let mut executor = ScenarioExecutor::new();
    let initial_count = executor.list_scenarios().len();

    let custom_scenario = Scenario {
        name: "custom_test".to_string(),
        description: "Custom test scenario".to_string(),
        steps: vec![],
        parameters: Vec::new(),
    };

    executor.add_scenario(custom_scenario);
    assert_eq!(executor.list_scenarios().len(), initial_count + 1);
    assert!(executor.get_scenario("custom_test").is_some());
}

#[test]
fn test_basic_scenario_execution() {
    let executor = ScenarioExecutor::new();
    assert!(executor.get_scenario("basic_charging").is_some());
}

#[test]
fn default_scenarios_are_as_listed() {
    let executor = ScenarioExecutor::default();
    let mut names: Vec<&str> = executor.list_scenarios();
    names.sort();
    assert_eq!(names, vec!["basic_charging", "emergency_unplug", "fault_during_charging"]);
    let basic = executor.get_scenario("basic_charging").unwrap();
    let step_names: Vec<&str> = basic.steps.iter().map(|s| s.name.as_str()).collect();
    assert_eq!(
        step_names,
        vec!["Connect", "Boot Notification", "Plug In", "Start Transaction", "Charging Duration", "Stop Transaction", "Plug Out"]
    );
    assert_eq!(executor.get_scenario("fault_during_charging").unwrap().steps.len(), 8);
    assert_eq!(executor.get_scenario("emergency_unplug").unwrap().steps.len(), 3);
    assert!(executor.get_scenario("nope").is_none());
}

#[test]
fn adding_a_scenario_of_a_known_name_replaces_it() {
    let mut executor = ScenarioExecutor::new();
    executor.add_scenario(Scenario {
        name: "basic_charging".to_string(),
        description: "short".to_string(),
        steps: vec![],
        parameters: Vec::new(),
    });
    assert_eq!(executor.list_scenarios().len(), 3);
    assert_eq!(executor.get_scenario("basic_charging").unwrap().description, "short");
}

#[test]
fn a_run_stops_at_the_first_failed_step() {
    let executor = ScenarioExecutor::new();
    assert_eq!(executor.start_run("missing").err().unwrap(), "Scenario 'missing' not found");

    let mut run = executor.start_run("basic_charging").unwrap();
    assert_eq!(run.next_step(), Some(0));
    run.record_step(Ok(()), Duration::from_millis(500));
    assert_eq!(run.next_step(), Some(1));
    run.record_step(Err("boom".to_string()), Duration::from_millis(10));
    assert_eq!(run.next_step(), None);
    let result = run.finish(Duration::from_secs(1));
    assert!(!result.success);
    assert_eq!(result.step_results.len(), 2);
    assert_eq!(result.step_results[1].name, "Boot Notification");
    assert_eq!(result.step_results[1].error, Some("boom".to_string()));
    assert_eq!(result.error, Some("One or more steps failed".to_string()));

    let mut run = executor.start_run("emergency_unplug").unwrap();
    while let Some(i) = run.next_step() {
        let pause = run.step(i).action.pause();
        assert!(matches!(pause, StepPause::Millis(_) | StepPause::Seconds(_)));
        run.record_step(Ok(()), Duration::from_millis(1));
    }
    let result = run.finish(Duration::from_secs(4));
    assert!(result.success);
    assert_eq!(result.step_results.len(), 3);
    assert!(result.error.is_none());
    assert_eq!(result.name, "emergency_unplug");
}

#[test]
fn actions_take_their_simulated_time() {
    assert_eq!(ScenarioAction::Connect.pause(), StepPause::Millis(500));
    assert_eq!(ScenarioAction::Wait { duration_seconds: 10 }.pause(), StepPause::Seconds(10));
    assert_eq!(
        ScenarioAction::StartTransaction { connector_id: 1, id_tag: "U".to_string() }.pause(),
        StepPause::Millis(1000)
    );
    assert_eq!(ScenarioAction::MeterValues { connector_id: 2 }.pause(), StepPause::Millis(150));
    let step = ScenarioStep { name: "w".to_string(), action: ScenarioAction::Heartbeat, delay_seconds: 0, parameters: Vec::new() };
    assert_eq!(step.action.pause(), StepPause::Millis(100));
}

#[test]
fn default_scenarios_hold_their_steps_in_order() {
    let executor = ScenarioExecutor::new();
    let basic = executor.get_scenario("basic_charging").unwrap();
    assert_eq!(basic.name, "basic_charging");
    let names: Vec<&str> = basic.steps.iter().map(|s| s.name.as_str()).collect();
    assert_eq!(
        names,
        vec!["Connect", "Boot Notification", "Plug In", "Start Transaction", "Charging Duration", "Stop Transaction", "Plug Out"]
    );
    assert!(matches!(basic.steps[5].action, ScenarioAction::StopTransaction { connector_id: 1 }));
    assert!(matches!(basic.steps[6].action, ScenarioAction::PlugOut { connector_id: 1 }));
    assert_eq!(basic.steps[6].delay_seconds, 2);
    let unplug = executor.get_scenario("emergency_unplug").unwrap();
    assert!(matches!(unplug.steps[0].action, ScenarioAction::StartTransaction { connector_id: 1, ref id_tag } if id_tag == "USER003"));
}
