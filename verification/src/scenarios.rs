//! Test scenarios of the CLI simulator: their definitions, the default set,
//! and the bookkeeping of a run, which stops at the first failed step.

use vstd::prelude::*;
use crate::json::JsonValue;
use crate::text::{concat3, str_eq};

verus! {

/// Available scenario actions.
#[derive(Debug, Clone)]
pub enum ScenarioAction {
    /// Connect to central system
    Connect,
    /// Disconnect from central system
    Disconnect,
    /// Send boot notification
    BootNotification,
    /// Send heartbeat
    Heartbeat,
    /// Plug in connector
    PlugIn { connector_id: u32 },
    /// Plug out connector
    PlugOut { connector_id: u32 },
    /// Start transaction
    StartTransaction { connector_id: u32, id_tag: String },
    /// Stop transaction
    StopTransaction { connector_id: u32 },
    /// Send status notification
    StatusNotification { connector_id: u32, status: String },
    /// Inject fault
    InjectFault { connector_id: u32, error_code: String },
    /// Clear fault
    ClearFault { connector_id: u32 },
    /// Wait for specified duration
    Wait { duration_seconds: u64 },
    /// Send meter values
    MeterValues { connector_id: u32 },
}

/// An action, with its texts as character sequences.
pub enum ActionView {
    Connect,
    Disconnect,
    BootNotification,
    Heartbeat,
    PlugIn { connector_id: u32 },
    PlugOut { connector_id: u32 },
    StartTransaction { connector_id: u32, id_tag: Seq<char> },
    StopTransaction { connector_id: u32 },
    StatusNotification { connector_id: u32, status: Seq<char> },
    InjectFault { connector_id: u32, error_code: Seq<char> },
    ClearFault { connector_id: u32 },
    Wait { duration_seconds: u64 },
    MeterValues { connector_id: u32 },
}

impl View for ScenarioAction {
    type V = ActionView;

    open spec fn view(&self) -> ActionView {
        match self {
            ScenarioAction::Connect => ActionView::Connect,
            ScenarioAction::Disconnect => ActionView::Disconnect,
            ScenarioAction::BootNotification => ActionView::BootNotification,
            ScenarioAction::Heartbeat => ActionView::Heartbeat,
            ScenarioAction::PlugIn { connector_id } => ActionView::PlugIn { connector_id: *connector_id },
            ScenarioAction::PlugOut { connector_id } => ActionView::PlugOut { connector_id: *connector_id },
            ScenarioAction::StartTransaction { connector_id, id_tag } => ActionView::StartTransaction {
                connector_id: *connector_id,
                id_tag: id_tag@,
            },
            ScenarioAction::StopTransaction { connector_id } => ActionView::StopTransaction { connector_id: *connector_id },
            ScenarioAction::StatusNotification { connector_id, status } => ActionView::StatusNotification {
                connector_id: *connector_id,
                status: status@,
            },
            ScenarioAction::InjectFault { connector_id, error_code } => ActionView::InjectFault {
                connector_id: *connector_id,
                error_code: error_code@,
            },
            ScenarioAction::ClearFault { connector_id } => ActionView::ClearFault { connector_id: *connector_id },
            ScenarioAction::Wait { duration_seconds } => ActionView::Wait { duration_seconds: *duration_seconds },
            ScenarioAction::MeterValues { connector_id } => ActionView::MeterValues { connector_id: *connector_id },
        }
    }
}

/// How long performing an action takes in the simulation.
#[derive(Debug, Clone, Copy, PartialEq, Eq, Structural)]
pub enum StepPause {
    Millis(u64),
    Seconds(u64),
}

/// The time the simulation spends on each action.
pub open spec fn action_pause_spec(action: ScenarioAction) -> StepPause {
    match action {
        ScenarioAction::Connect => StepPause::Millis(500),
        ScenarioAction::Disconnect => StepPause::Millis(200),
        ScenarioAction::BootNotification => StepPause::Millis(300),
        ScenarioAction::Heartbeat => StepPause::Millis(100),
        ScenarioAction::PlugIn { .. } => StepPause::Millis(800),
        ScenarioAction::PlugOut { .. } => StepPause::Millis(600),
        ScenarioAction::StartTransaction { .. } => StepPause::Millis(1000),
        ScenarioAction::StopTransaction { .. } => StepPause::Millis(800),
        ScenarioAction::StatusNotification { .. } => StepPause::Millis(200),
        ScenarioAction::InjectFault { .. } => StepPause::Millis(400),
        ScenarioAction::ClearFault { .. } => StepPause::Millis(300),
        ScenarioAction::Wait { duration_seconds } => StepPause::Seconds(duration_seconds),
        ScenarioAction::MeterValues { .. } => StepPause::Millis(150),
    }
}

impl ScenarioAction {
    /// The time the simulation spends on this action.
    pub fn pause(&self) -> (r: StepPause)
        ensures
            r == action_pause_spec(*self),
    {
        match self {
            ScenarioAction::Connect => StepPause::Millis(500),
            ScenarioAction::Disconnect => StepPause::Millis(200),
            ScenarioAction::BootNotification => StepPause::Millis(300),
            ScenarioAction::Heartbeat => StepPause::Millis(100),
            ScenarioAction::PlugIn { .. } => StepPause::Millis(800),
            ScenarioAction::PlugOut { .. } => StepPause::Millis(600),
            ScenarioAction::StartTransaction { .. } => StepPause::Millis(1000),
            ScenarioAction::StopTransaction { .. } => StepPause::Millis(800),
            ScenarioAction::StatusNotification { .. } => StepPause::Millis(200),
            ScenarioAction::InjectFault { .. } => StepPause::Millis(400),
            ScenarioAction::ClearFault { .. } => StepPause::Millis(300),
            ScenarioAction::Wait { duration_seconds } => StepPause::Seconds(*duration_seconds),
            ScenarioAction::MeterValues { .. } => StepPause::Millis(150),
        }
    }
}

/// Individual scenario step.
#[derive(Debug, Clone)]
pub struct ScenarioStep {
    /// Step name
    pub name: String,
    /// Action to perform
    pub action: ScenarioAction,
    /// Delay before executing this step
    pub delay_seconds: u64,
    /// Step parameters, by name
    pub parameters: Vec<(String, JsonValue)>,
}

/// Scenario definition.
#[derive(Debug, Clone)]
pub struct Scenario {
    /// Scenario name
    pub name: String,
    /// Scenario description
    pub description: String,
    /// List of steps to execute
    pub steps: Vec<ScenarioStep>,
    /// Scenario parameters, by name
    pub parameters: Vec<(String, JsonValue)>,
}

/// Step execution result.
#[derive(Debug, Clone)]
pub struct StepResult {
    /// Step name
    pub name: String,
    /// Success flag
    pub success: bool,
    /// Execution duration
    pub duration: core::time::Duration,
    /// Error message if failed
    pub error: Option<String>,
}

/// Scenario execution result.
#[derive(Debug, Clone)]
pub struct ScenarioResult {
    /// Scenario name
    pub name: String,
    /// Success flag
    pub success: bool,
    /// Execution duration
    pub duration: core::time::Duration,
    /// Step results
    pub step_results: Vec<StepResult>,
    /// Error message if failed
    pub error: Option<String>,
}

/// Scenarios by name; a later scenario of a name replaces an earlier one.
pub open spec fn scenario_map(e: Seq<Scenario>) -> Map<Seq<char>, Scenario>
    decreases e.len(),
{
    if e.len() == 0 {
        Map::empty()
    } else {
        scenario_map(e.drop_last()).insert(e.last().name@, e.last())
    }
}

/// No two scenarios share a name.
pub open spec fn names_distinct(e: Seq<Scenario>) -> bool {
    forall|i: int, j: int| 0 <= i < j < e.len() ==> e[i].name@ != e[j].name@
}

proof fn lemma_scenario_at(e: Seq<Scenario>, i: int)
    requires
        names_distinct(e),
        0 <= i < e.len(),
    ensures
        scenario_map(e).contains_key(e[i].name@),
        scenario_map(e)[e[i].name@] == e[i],
    decreases e.len(),
{
    if i < e.len() - 1 {
        lemma_scenario_at(e.drop_last(), i);
    }
}

proof fn lemma_scenario_absent(e: Seq<Scenario>, k: Seq<char>)
    requires
        forall|i: int| 0 <= i < e.len() ==> #[trigger] e[i].name@ != k,
    ensures
        !scenario_map(e).contains_key(k),
    decreases e.len(),
{
    if e.len() > 0 {
        let d = e.drop_last();
        assert forall|i: int| 0 <= i < d.len() implies #[trigger] d[i].name@ != k by {
            assert(d[i] == e[i]);
        }
        lemma_scenario_absent(d, k);
    }
}

proof fn lemma_scenario_keys(e: Seq<Scenario>, k: Seq<char>)
    ensures
        scenario_map(e).contains_key(k) <==> exists|i: int| 0 <= i < e.len() && e[i].name@ == k,
    decreases e.len(),
{
    if e.len() > 0 {
        lemma_scenario_keys(e.drop_last(), k);
        if exists|i: int| 0 <= i < e.len() - 1 && e.drop_last()[i].name@ == k {
            let i = choose|i: int| 0 <= i < e.len() - 1 && e.drop_last()[i].name@ == k;
            assert(e[i].name@ == k);
        }
        if exists|i: int| 0 <= i < e.len() && e[i].name@ == k {
            let i = choose|i: int| 0 <= i < e.len() && e[i].name@ == k;
            if i < e.len() - 1 {
                assert(e.drop_last()[i].name@ == k);
            }
        }
    }
}

proof fn lemma_scenario_replace(e: Seq<Scenario>, i: int, s: Scenario)
    requires
        names_distinct(e),
        0 <= i < e.len(),
        s.name@ == e[i].name@,
    ensures
        scenario_map(e.update(i, s)) =~= scenario_map(e).insert(s.name@, s),
        names_distinct(e.update(i, s)),
    decreases e.len(),
{
    let u = e.update(i, s);
    if i == e.len() - 1 {
        assert(u.drop_last() =~= e.drop_last());
        lemma_scenario_absent(e.drop_last(), s.name@);
    } else {
        assert(u.drop_last() =~= e.drop_last().update(i, s));
        lemma_scenario_replace(e.drop_last(), i, s);
    }
}

/// `s` is the step `name`, performing `action` after `delay` seconds, with
/// no parameters.
pub open spec fn is_step(s: ScenarioStep, name: Seq<char>, action: ActionView, delay: u64) -> bool {
    &&& s.name@ == name
    &&& s.action@ == action
    &&& s.delay_seconds == delay
    &&& s.parameters@.len() == 0
}

/// The default scenario `basic_charging`: a complete charging cycle.
pub open spec fn is_basic_charging(sc: Scenario) -> bool {
    &&& sc.name@ == "basic_charging"@
    &&& sc.description@ == "Complete basic charging cycle"@
    &&& sc.parameters@.len() == 0
    &&& sc.steps@.len() == 7
    &&& is_step(sc.steps@[0], "Connect"@, ActionView::Connect, 0)
    &&& is_step(sc.steps@[1], "Boot Notification"@, ActionView::BootNotification, 1)
    &&& is_step(sc.steps@[2], "Plug In"@, ActionView::PlugIn { connector_id: 1 }, 2)
    &&& is_step(sc.steps@[3], "Start Transaction"@, ActionView::StartTransaction { connector_id: 1, id_tag: "USER001"@ }, 2)
    &&& is_step(sc.steps@[4], "Charging Duration"@, ActionView::Wait { duration_seconds: 10 }, 0)
    &&& is_step(sc.steps@[5], "Stop Transaction"@, ActionView::StopTransaction { connector_id: 1 }, 0)
    &&& is_step(sc.steps@[6], "Plug Out"@, ActionView::PlugOut { connector_id: 1 }, 2)
}

/// The default scenario `fault_during_charging`: a fault injected and
/// cleared during a charging session.
pub open spec fn is_fault_during_charging(sc: Scenario) -> bool {
    &&& sc.name@ == "fault_during_charging"@
    &&& sc.description@ == "Fault injection during charging session"@
    &&& sc.parameters@.len() == 0
    &&& sc.steps@.len() == 8
    &&& is_step(sc.steps@[0], "Connect"@, ActionView::Connect, 0)
    &&& is_step(sc.steps@[1], "Plug In"@, ActionView::PlugIn { connector_id: 1 }, 1)
    &&& is_step(sc.steps@[2], "Start Transaction"@, ActionView::StartTransaction { connector_id: 1, id_tag: "USER002"@ }, 2)
    &&& is_step(sc.steps@[3], "Normal Charging"@, ActionView::Wait { duration_seconds: 5 }, 0)
    &&& is_step(
        sc.steps@[4],
        "Inject Fault"@,
        ActionView::InjectFault { connector_id: 1, error_code: "OverCurrentFailure"@ },
        0,
    )
    &&& is_step(sc.steps@[5], "Fault Duration"@, ActionView::Wait { duration_seconds: 3 }, 0)
    &&& is_step(sc.steps@[6], "Clear Fault"@, ActionView::ClearFault { connector_id: 1 }, 0)
    &&& is_step(sc.steps@[7], "Plug Out"@, ActionView::PlugOut { connector_id: 1 }, 2)
}

/// The default scenario `emergency_unplug`: the cable pulled while charging.
pub open spec fn is_emergency_unplug(sc: Scenario) -> bool {
    &&& sc.name@ == "emergency_unplug"@
    &&& sc.description@ == "Emergency cable disconnection during charging"@
    &&& sc.parameters@.len() == 0
    &&& sc.steps@.len() == 3
    &&& is_step(sc.steps@[0], "Start Charging"@, ActionView::StartTransaction { connector_id: 1, id_tag: "USER003"@ }, 1)
    &&& is_step(sc.steps@[1], "Charging"@, ActionView::Wait { duration_seconds: 3 }, 0)
    &&& is_step(sc.steps@[2], "Emergency Unplug"@, ActionView::PlugOut { connector_id: 1 }, 0)
}

/// Scenario executor: the scenarios it knows, by name.
pub struct ScenarioExecutor {
    scenarios: Vec<Scenario>,
}

impl View for ScenarioExecutor {
    type V = Map<Seq<char>, Scenario>;

    closed spec fn view(&self) -> Map<Seq<char>, Scenario> {
        scenario_map(self.scenarios@)
    }
}

impl ScenarioExecutor {
    #[verifier::type_invariant]
    spec fn distinct(&self) -> bool {
        names_distinct(self.scenarios@)
    }

    /// An executor that knows the three default scenarios, each under its
    /// own name.
    pub fn new() -> (r: Self)
        ensures
            r@.dom() =~= set!["basic_charging"@, "fault_during_charging"@, "emergency_unplug"@],
            forall|k: Seq<char>| #[trigger] r@.contains_key(k) ==> r@[k].name@ == k,
            is_basic_charging(r@["basic_charging"@]),
            is_fault_during_charging(r@["fault_during_charging"@]),
            is_emergency_unplug(r@["emergency_unplug"@]),
    {
        let mut executor = ScenarioExecutor { scenarios: Vec::new() };
        proof {
            assert(executor@ =~= Map::empty());
        }
        let basic = basic_charging();
        let fault = fault_during_charging();
        let unplug = emergency_unplug();
        proof {
            reveal_strlit("basic_charging");
            reveal_strlit("fault_during_charging");
            reveal_strlit("emergency_unplug");
            assert("basic_charging"@.len() != "fault_during_charging"@.len());
            assert("basic_charging"@.len() != "emergency_unplug"@.len());
            assert("fault_during_charging"@.len() != "emergency_unplug"@.len());
        }
        executor.add_scenario(basic);
        executor.add_scenario(fault);
        executor.add_scenario(unplug);
        executor
    }

    /// Adds a scenario, replacing one of the same name.
    pub fn add_scenario(&mut self, scenario: Scenario)
        ensures
            final(self)@ == old(self)@.insert(scenario.name@, scenario),
    {
        proof {
            use_type_invariant(&*self);
        }
        let n = self.scenarios.len();
        let mut i: usize = 0;
        while i < n
            invariant
                n == self.scenarios@.len(),
                0 <= i <= n,
                names_distinct(self.scenarios@),
                self.scenarios@ == old(self).scenarios@,
                forall|j: int| 0 <= j < i ==> #[trigger] self.scenarios@[j].name@ != scenario.name@,
            decreases n - i,
        {
            if str_eq(self.scenarios[i].name.as_str(), scenario.name.as_str()) {
                proof {
                    lemma_scenario_replace(self.scenarios@, i as int, scenario);
                }
                let mut all: Vec<Scenario> = Vec::new();
                std::mem::swap(&mut all, &mut self.scenarios);
                all.set(i, scenario);
                self.scenarios = all;
                return;
            }
            i = i + 1;
        }
        proof {
            lemma_scenario_absent(self.scenarios@, scenario.name@);
            let e = self.scenarios@.push(scenario);
            assert(e.drop_last() =~= self.scenarios@);
            assert forall|a: int, b: int| 0 <= a < b < e.len() implies e[a].name@ != e[b].name@ by {
                if b == e.len() - 1 {
                    assert(e[a] == self.scenarios@[a]);
                }
            }
        }
        let mut all: Vec<Scenario> = Vec::new();
        std::mem::swap(&mut all, &mut self.scenarios);
        all.push(scenario);
        self.scenarios = all;
    }

    /// The scenario of a name.
    pub fn get_scenario(&self, name: &str) -> (r: Option<&Scenario>)
        ensures
            match r {
                Some(s) => self@.contains_key(name@) && *s == self@[name@] && s.name@ == name@,
                None => !self@.contains_key(name@),
            },
    {
        proof {
            use_type_invariant(self);
        }
        let n = self.scenarios.len();
        let mut i: usize = 0;
        while i < n
            invariant
                n == self.scenarios@.len(),
                0 <= i <= n,
                names_distinct(self.scenarios@),
                forall|j: int| 0 <= j < i ==> #[trigger] self.scenarios@[j].name@ != name@,
            decreases n - i,
        {
            if str_eq(self.scenarios[i].name.as_str(), name) {
                proof {
                    lemma_scenario_at(self.scenarios@, i as int);
                }
                return Some(&self.scenarios[i]);
            }
            i = i + 1;
        }
        proof {
            lemma_scenario_absent(self.scenarios@, name@);
        }
        None
    }

    /// The names of the known scenarios, each once.
    pub fn list_scenarios(&self) -> (r: Vec<&str>)
        ensures
            forall|i: int| 0 <= i < r@.len() ==> self@.contains_key(#[trigger] r@[i]@),
            forall|k: Seq<char>| #[trigger] self@.contains_key(k) ==> exists|i: int| 0 <= i < r@.len() && r@[i]@ == k,
            forall|i: int, j: int| 0 <= i < j < r@.len() ==> r@[i]@ != r@[j]@,
    {
        proof {
            use_type_invariant(self);
        }
        let n = self.scenarios.len();
        let mut r: Vec<&str> = Vec::new();
        let mut i: usize = 0;
        while i < n
            invariant
                n == self.scenarios@.len(),
                0 <= i <= n,
                names_distinct(self.scenarios@),
                r@.len() == i,
                forall|j: int| 0 <= j < i ==> (#[trigger] r@[j])@ == self.scenarios@[j].name@,
            decreases n - i,
        {
            r.push(self.scenarios[i].name.as_str());
            i = i + 1;
        }
        proof {
            assert forall|j: int| 0 <= j < r@.len() implies self@.contains_key(#[trigger] r@[j]@) by {
                lemma_scenario_at(self.scenarios@, j);
            }
            assert forall|k: Seq<char>| #[trigger] self@.contains_key(k) implies exists|j: int|
                0 <= j < r@.len() && r@[j]@ == k by {
                lemma_scenario_keys(self.scenarios@, k);
                let j = choose|j: int| 0 <= j < n && self.scenarios@[j].name@ == k;
                assert(r@[j]@ == k);
            }
        }
        r
    }
}

impl Default for ScenarioExecutor {
    fn default() -> (r: Self)
        ensures
            r@.dom() =~= set!["basic_charging"@, "fault_during_charging"@, "emergency_unplug"@],
            forall|k: Seq<char>| #[trigger] r@.contains_key(k) ==> r@[k].name@ == k,
            is_basic_charging(r@["basic_charging"@]),
            is_fault_during_charging(r@["fault_during_charging"@]),
            is_emergency_unplug(r@["emergency_unplug"@]),
    {
        Self::new()
    }
}

fn step(name: &str, action: ScenarioAction, delay_seconds: u64) -> (r: ScenarioStep)
    ensures
        r.name@ == name@,
        r.action == action,
        r.action@ == action@,
        r.delay_seconds == delay_seconds,
        r.parameters@.len() == 0,
{
    ScenarioStep { name: String::from_str(name), action, delay_seconds, parameters: Vec::new() }
}

fn basic_charging() -> (r: Scenario)
    ensures
        is_basic_charging(r),
{
    let steps = vec![
        step("Connect", ScenarioAction::Connect, 0),
        step("Boot Notification", ScenarioAction::BootNotification, 1),
        step("Plug In", ScenarioAction::PlugIn { connector_id: 1 }, 2),
        step(
            "Start Transaction",
            ScenarioAction::StartTransaction { connector_id: 1, id_tag: String::from_str("USER001") },
            2,
        ),
        step("Charging Duration", ScenarioAction::Wait { duration_seconds: 10 }, 0),
        step("Stop Transaction", ScenarioAction::StopTransaction { connector_id: 1 }, 0),
        step("Plug Out", ScenarioAction::PlugOut { connector_id: 1 }, 2),
    ];
    Scenario {
        name: String::from_str("basic_charging"),
        description: String::from_str("Complete basic charging cycle"),
        steps,
        parameters: Vec::new(),
    }
}

fn fault_during_charging() -> (r: Scenario)
    ensures
        is_fault_during_charging(r),
{
    let steps = vec![
        step("Connect", ScenarioAction::Connect, 0),
        step("Plug In", ScenarioAction::PlugIn { connector_id: 1 }, 1),
        step(
            "Start Transaction",
            ScenarioAction::StartTransaction { connector_id: 1, id_tag: String::from_str("USER002") },
            2,
        ),
        step("Normal Charging", ScenarioAction::Wait { duration_seconds: 5 }, 0),
        step(
            "Inject Fault",
            ScenarioAction::InjectFault { connector_id: 1, error_code: String::from_str("OverCurrentFailure") },
            0,
        ),
        step("Fault Duration", ScenarioAction::Wait { duration_seconds: 3 }, 0),
        step("Clear Fault", ScenarioAction::ClearFault { connector_id: 1 }, 0),
        step("Plug Out", ScenarioAction::PlugOut { connector_id: 1 }, 2),
    ];
    Scenario {
        name: String::from_str("fault_during_charging"),
        description: String::from_str("Fault injection during charging session"),
        steps,
        parameters: Vec::new(),
    }
}

fn emergency_unplug() -> (r: Scenario)
    ensures
        is_emergency_unplug(r),
{
    let steps = vec![
        step(
            "Start Charging",
            ScenarioAction::StartTransaction { connector_id: 1, id_tag: String::from_str("USER003") },
            1,
        ),
        step("Charging", ScenarioAction::Wait { duration_seconds: 3 }, 0),
        step("Emergency Unplug", ScenarioAction::PlugOut { connector_id: 1 }, 0),
    ];
    Scenario {
        name: String::from_str("emergency_unplug"),
        description: String::from_str("Emergency cable disconnection during charging"),
        steps,
        parameters: Vec::new(),
    }
}

/// What a run has recorded so far is consistent with its scenario: one
/// result per executed step, in order, and every step but the last succeeded.
pub open spec fn run_consistent(steps: Seq<ScenarioStep>, results: Seq<StepResult>) -> bool {
    &&& results.len() <= steps.len()
    &&& forall|i: int| 0 <= i < results.len() ==> (#[trigger] results[i]).name@ == steps[i].name@
    &&& forall|i: int| 0 <= i < results.len() - 1 ==> (#[trigger] results[i]).success
    &&& forall|i: int| 0 <= i < results.len() ==> ((#[trigger] results[i]).success <==> results[i].error is None)
}

/// A run is over once a step failed or every step ran.
pub open spec fn run_over(steps: Seq<ScenarioStep>, results: Seq<StepResult>) -> bool {
    results.len() == steps.len() || (results.len() > 0 && !results.last().success)
}

/// Every recorded step succeeded.
pub open spec fn all_succeeded(results: Seq<StepResult>) -> bool {
    forall|i: int| 0 <= i < results.len() ==> (#[trigger] results[i]).success
}

/// A run of a scenario: the results of the steps executed so far.
pub struct ScenarioRun<'a> {
    scenario: &'a Scenario,
    results: Vec<StepResult>,
}

impl<'a> ScenarioRun<'a> {
    #[verifier::type_invariant]
    spec fn consistent(&self) -> bool {
        run_consistent(self.scenario.steps@, self.results@)
    }

    /// The scenario being run.
    pub closed spec fn scenario_spec(&self) -> Scenario {
        *self.scenario
    }

    /// The results of the steps executed so far.
    pub closed spec fn results_spec(&self) -> Seq<StepResult> {
        self.results@
    }

    /// The index of the step to execute next, or `None` when the run is over.
    pub fn next_step(&self) -> (r: Option<usize>)
        ensures
            run_consistent(self.scenario_spec().steps@, self.results_spec()),
            match r {
                Some(i) => !run_over(self.scenario_spec().steps@, self.results_spec()) && i == self.results_spec().len(),
                None => run_over(self.scenario_spec().steps@, self.results_spec()),
            },
    {
        proof {
            use_type_invariant(self);
        }
        let n = self.results.len();
        if n == self.scenario.steps.len() || (n > 0 && !self.results[n - 1].success) {
            None
        } else {
            Some(n)
        }
    }

    /// A step of the scenario.
    pub fn step(&self, index: usize) -> (r: &ScenarioStep)
        requires
            index < self.scenario_spec().steps@.len(),
        ensures
            *r == self.scenario_spec().steps@[index as int],
    {
        &self.scenario.steps[index]
    }

    /// Records the outcome of the next step and how long it took.
    pub fn record_step(&mut self, outcome: Result<(), String>, duration: core::time::Duration)
        requires
            !run_over(old(self).scenario_spec().steps@, old(self).results_spec()),
        ensures
            final(self).scenario_spec() == old(self).scenario_spec(),
            final(self).results_spec().len() == old(self).results_spec().len() + 1,
            final(self).results_spec().drop_last() == old(self).results_spec(),
            ({
                let last = final(self).results_spec().last();
                &&& last.name == old(self).scenario_spec().steps@[old(self).results_spec().len() as int].name
                &&& last.success == outcome is Ok
                &&& last.duration == duration
                &&& last.error == match outcome {
                    Ok(()) => None,
                    Err(e) => Some(e),
                }
            }),
    {
        proof {
            use_type_invariant(&*self);
        }
        let i = self.results.len();
        let name = self.scenario.steps[i].name.clone();
        let result = match outcome {
            Ok(()) => StepResult { name, success: true, duration, error: None },
            Err(e) => StepResult { name, success: false, duration, error: Some(e) },
        };
        let mut results: Vec<StepResult> = Vec::new();
        std::mem::swap(&mut results, &mut self.results);
        results.push(result);
        proof {
            assert(results@.drop_last() =~= old(self).results@);
        }
        self.results = results;
    }

    /// The result of a run that is over, given its total duration.
    pub fn finish(self, duration: core::time::Duration) -> (r: ScenarioResult)
        requires
            run_over(self.scenario_spec().steps@, self.results_spec()),
        ensures
            r.name == self.scenario_spec().name,
            r.step_results@ == self.results_spec(),
            r.success == all_succeeded(self.results_spec()),
            r.duration == duration,
            match r.error {
                None => r.success,
                Some(e) => !r.success && e@ == "One or more steps failed"@,
            },
    {
        proof {
            use_type_invariant(&self);
        }
        let n = self.results.len();
        let mut success = true;
        let mut i: usize = 0;
        while i < n
            invariant
                n == self.results@.len(),
                0 <= i <= n,
                success == forall|j: int| 0 <= j < i ==> (#[trigger] self.results@[j]).success,
            decreases n - i,
        {
            success = success && self.results[i].success;
            i = i + 1;
        }
        let name = self.scenario.name.clone();
        ScenarioResult {
            name,
            success,
            duration,
            step_results: self.results,
            error: if success { None } else { Some(String::from_str("One or more steps failed")) },
        }
    }
}

impl ScenarioExecutor {
    /// Starts a run of the scenario of a name; an error when there is none.
    pub fn start_run(&self, name: &str) -> (r: Result<ScenarioRun<'_>, String>)
        ensures
            match r {
                Ok(run) => self@.contains_key(name@) && run.scenario_spec() == self@[name@]
                    && run.results_spec().len() == 0,
                Err(e) => !self@.contains_key(name@) && e@ == "Scenario '"@ + name@ + "' not found"@,
            },
    {
        match self.get_scenario(name) {
            Some(scenario) => Ok(ScenarioRun { scenario, results: Vec::new() }),
            None => Err(concat3("Scenario '", name, "' not found")),
        }
    }
}

/// A run stops at the first failed step: a run that is over succeeded
/// exactly when it executed every step, and otherwise its last step is the
/// only one that failed.
pub proof fn lemma_stop_on_first_failure(steps: Seq<ScenarioStep>, results: Seq<StepResult>)
    requires
        run_consistent(steps, results),
        run_over(steps, results),
    ensures
        all_succeeded(results) ==> results.len() == steps.len(),
        !all_succeeded(results) ==> results.len() > 0 && !results.last().success
            && forall|i: int| 0 <= i < results.len() - 1 ==> (#[trigger] results[i]).success,
{
    if all_succeeded(results) && results.len() > 0 {
        assert(results[results.len() - 1].success);
    }
}

} // verus!
