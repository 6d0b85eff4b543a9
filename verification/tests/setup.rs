use script_runner::engine::{
    CallResult, DeployResult, EngineReply, EngineRequest, EngineTypes, ExecutionFailure,
};
use script_runner::primitives::{Address, U256};
use script_runner::result::{Progress, ScriptError, ScriptResult, TraceKind};
use script_runner::runner::{EngineIdentities, ScriptRunner};
use script_runner::setup::SetupTask;

struct Mock;

impl EngineTypes for Mock {
    type Log = &'static str;
    type Trace = String;
    type DebugData = u32;
    type Label = (u8, &'static str);
    type Transaction = u32;
    type Breakpoint = char;
    type VmTransaction = u32;
}

type Step = Progress<SetupTask<Mock>, EngineRequest<Mock>, (Address, ScriptResult<Mock>)>;

const SENDER: u8 = 0x5e;
const CALLER: u8 = 0xca;
const DEFAULT_SENDER: u8 = 0xde;
const DEPLOYED: u8 = 0xc0;

fn account(byte: u8) -> Address {
    Address { bytes: [byte; 20] }
}

fn amount(limb: u64) -> U256 {
    U256 { limbs: [limb, 0, 0, 0] }
}

fn runner(sender: u8) -> ScriptRunner {
    ScriptRunner::new(
        EngineIdentities { caller: account(CALLER), default_sender: account(DEFAULT_SENDER) },
        amount(5),
        account(sender),
    )
}

fn name(address: Address) -> String {
    if address == account(SENDER) {
        "sender".to_string()
    } else if address == account(CALLER) {
        "caller".to_string()
    } else if address == account(DEFAULT_SENDER) {
        "default".to_string()
    } else if address == account(DEPLOYED) {
        "deployed".to_string()
    } else if address == account(CALLER).create(11) {
        "predicted".to_string()
    } else {
        format!("{:?}", address.bytes)
    }
}

fn describe(request: &EngineRequest<Mock>) -> String {
    match request {
        EngineRequest::SetBalance { address, amount } => {
            if *amount == U256::max() {
                format!("balance {}=max", name(*address))
            } else {
                format!("balance {}={:?}", name(*address), amount.limbs)
            }
        }
        EngineRequest::SetNonce { address, nonce } => format!("nonce {}={}", name(*address), nonce),
        EngineRequest::Nonce { address } => format!("nonce {}?", name(*address)),
        EngineRequest::DeployCreate2Deployer => "create2".to_string(),
        EngineRequest::Deploy { from, code, value } => {
            format!("deploy {:?} from {} with {:?}", code, name(*from), value.limbs)
        }
        EngineRequest::SetTestContract { address } => format!("test contract {}", name(*address)),
        EngineRequest::SetUp { sender, contract } => {
            format!("setup {} by {}", name(*contract), name(*sender))
        }
        EngineRequest::CorrectedNonce => "corrected?".to_string(),
        EngineRequest::ClearCorrectedNonce => "clear corrected".to_string(),
        _ => panic!("a preparation asks for nothing else"),
    }
}

/// What the engine says of the setup call.
enum SetUp {
    Returns { reverted: bool },
    Fails { reverted: bool },
    Fatal,
}

/// An engine that goes along with everything, but for what its fields say.
struct Engine {
    seen: Vec<String>,
    deployments: usize,
    /// The deployment with this number, counted from 0, fails.
    failing_deployment: Option<usize>,
    /// That failure is one that the engine cannot describe.
    fatal_deployment: bool,
    /// The deployment with this number records no trace and no debug data.
    silent_deployment: Option<usize>,
    set_up: SetUp,
    set_up_debug: Option<u32>,
    corrected_nonce: Option<bool>,
}

impl Engine {
    fn new() -> Engine {
        Engine {
            seen: Vec::new(),
            deployments: 0,
            failing_deployment: None,
            fatal_deployment: false,
            silent_deployment: None,
            set_up: SetUp::Returns { reverted: false },
            set_up_debug: Some(77),
            corrected_nonce: Some(false),
        }
    }

    fn call_result(&self, reverted: bool) -> CallResult<Mock> {
        CallResult {
            reverted,
            gas_used: 4_321,
            logs: vec!["setup log 1", "setup log 2"],
            traces: Some("setup trace".to_string()),
            debug: self.set_up_debug,
            labels: vec![(1, "one"), (2, "two")],
            transactions: Some(vec![10, 20]),
        }
    }

    fn perform(&mut self, request: EngineRequest<Mock>) -> EngineReply<Mock> {
        self.seen.push(describe(&request));
        match request {
            EngineRequest::Nonce { .. } => EngineReply::Nonce(11),
            EngineRequest::Deploy { .. } => {
                let number = self.deployments;
                self.deployments += 1;
                if self.failing_deployment == Some(number) {
                    if self.fatal_deployment {
                        return EngineReply::Fatal("database error".to_string());
                    }
                    return EngineReply::Failed(ExecutionFailure {
                        reason: "constructor reverted".to_string(),
                        result: self.call_result(true),
                    });
                }
                let silent = self.silent_deployment == Some(number);
                EngineReply::Deployed(DeployResult {
                    address: account(DEPLOYED),
                    gas_used: 1_000 + number as u64,
                    logs: vec!["deploy log"],
                    traces: if silent { None } else { Some(format!("deployment {number}")) },
                    debug: if silent { None } else { Some(number as u32) },
                })
            }
            EngineRequest::SetUp { .. } => match self.set_up {
                SetUp::Returns { reverted } => EngineReply::Called(self.call_result(reverted)),
                SetUp::Fails { reverted } => EngineReply::Failed(ExecutionFailure {
                    reason: "setup failed".to_string(),
                    result: self.call_result(reverted),
                }),
                SetUp::Fatal => EngineReply::Fatal("backend gone".to_string()),
            },
            EngineRequest::CorrectedNonce => EngineReply::CorrectedNonce(self.corrected_nonce),
            _ => EngineReply::Done,
        }
    }
}

fn drive(
    engine: &mut Engine,
    mut step: Step,
) -> Result<(Address, ScriptResult<Mock>), ScriptError> {
    loop {
        match step {
            Progress::Finished(outcome) => return outcome,
            Progress::Perform(task, request) => {
                let reply = engine.perform(request);
                assert!(task.admits(&reply));
                step = task.resume(reply);
            }
        }
    }
}

fn libraries(count: u8) -> Vec<Vec<u8>> {
    (0..count).map(|i| vec![0x11, i]).collect()
}

fn deployment(number: usize) -> (TraceKind, String) {
    (TraceKind::Deployment, format!("deployment {number}"))
}

#[test]
fn two_libraries_and_no_setup() {
    let mut engine = Engine::new();
    let step = runner(SENDER).setup::<Mock>(libraries(2), vec![0xc0, 0xde], false, 7, false, false);
    let (address, result) = drive(&mut engine, step).unwrap();
    assert_eq!(
        engine.seen,
        vec![
            "nonce sender=7",
            "balance caller=max",
            "deploy [17, 0] from sender with [0, 0, 0, 0]",
            "deploy [17, 1] from sender with [0, 0, 0, 0]",
            "nonce caller?",
            "balance predicted=[5, 0, 0, 0]",
            "deploy [192, 222] from caller with [0, 0, 0, 0]",
            "test contract deployed",
        ]
    );
    assert_eq!(address, account(DEPLOYED));
    assert!(result.success);
    assert_eq!(result.gas_used, 0);
    assert_eq!(result.traces, vec![deployment(0), deployment(1), deployment(2)]);
    assert_eq!(result.logs, vec!["deploy log"]);
    assert_eq!(result.debug, Some(vec![2]));
    assert!(result.labeled_addresses.is_empty());
    assert_eq!(result.transactions, None);
    assert!(result.returned.is_empty());
    assert_eq!(result.address, None);
    assert!(result.breakpoints.is_empty());
}

#[test]
fn setup_that_reverts() {
    let mut engine = Engine::new();
    engine.set_up = SetUp::Returns { reverted: true };
    let step = runner(SENDER).setup::<Mock>(libraries(1), vec![0xc0], true, 7, false, false);
    let (address, result) = drive(&mut engine, step).unwrap();
    assert_eq!(address, account(DEPLOYED));
    assert!(!result.success);
    assert_eq!(result.gas_used, 4_321);
    assert_eq!(
        result.traces,
        vec![deployment(0), deployment(1), (TraceKind::Setup, "setup trace".to_string())]
    );
    let setups = result.traces.iter().filter(|(kind, _)| *kind == TraceKind::Setup).count();
    assert_eq!(setups, 1);
    assert_eq!(result.logs, vec!["deploy log", "setup log 1", "setup log 2"]);
    assert_eq!(result.debug, Some(vec![1, 77]));
    assert_eq!(result.labeled_addresses, vec![(1, "one"), (2, "two")]);
    assert_eq!(result.transactions, Some(vec![10, 20]));
    assert!(result.returned.is_empty());
    assert_eq!(result.address, None);
}

#[test]
fn setup_that_succeeds_corrects_the_nonce() {
    let mut engine = Engine::new();
    let step = runner(SENDER).setup::<Mock>(libraries(3), vec![0xc0], true, 7, true, true);
    let (_, result) = drive(&mut engine, step).unwrap();
    assert!(result.success);
    assert_eq!(
        engine.seen,
        vec![
            "nonce sender=7",
            "balance caller=max",
            "deploy [17, 0] from sender with [0, 0, 0, 0]",
            "deploy [17, 1] from sender with [0, 0, 0, 0]",
            "deploy [17, 2] from sender with [0, 0, 0, 0]",
            "nonce caller?",
            "balance predicted=[5, 0, 0, 0]",
            "deploy [192] from caller with [0, 0, 0, 0]",
            "setup deployed by sender",
            "corrected?",
            "nonce sender=10",
            "clear corrected",
        ]
    );
}

#[test]
fn nonce_correction_does_not_add_up() {
    for _ in 0..2 {
        let mut engine = Engine::new();
        let step = runner(SENDER).setup::<Mock>(libraries(2), vec![0xc0], true, 40, false, false);
        drive(&mut engine, step).unwrap();
        let corrections: Vec<&String> =
            engine.seen.iter().filter(|line| line.starts_with("nonce sender=")).collect();
        assert_eq!(corrections, vec!["nonce sender=40", "nonce sender=42"]);
    }
}

#[test]
fn nonce_that_the_cheatcodes_corrected_is_left() {
    let mut engine = Engine::new();
    engine.corrected_nonce = Some(true);
    let step = runner(SENDER).setup::<Mock>(libraries(2), vec![0xc0], true, 40, false, false);
    drive(&mut engine, step).unwrap();
    let tail: Vec<&String> = engine.seen.iter().rev().take(3).rev().collect();
    assert_eq!(tail, vec!["setup deployed by sender", "corrected?", "clear corrected"]);
}

#[test]
fn engine_without_cheatcodes_corrects_nothing() {
    let mut engine = Engine::new();
    engine.corrected_nonce = None;
    let step = runner(SENDER).setup::<Mock>(libraries(2), vec![0xc0], true, 40, false, false);
    let (_, result) = drive(&mut engine, step).unwrap();
    assert!(result.success);
    let tail: Vec<&String> = engine.seen.iter().rev().take(2).rev().collect();
    assert_eq!(tail, vec!["setup deployed by sender", "corrected?"]);
}

#[test]
fn default_sender_is_funded_outside_a_broadcast() {
    let mut engine = Engine::new();
    let step =
        runner(DEFAULT_SENDER).setup::<Mock>(libraries(0), vec![0xc0], false, 0, false, true);
    drive(&mut engine, step).unwrap();
    assert_eq!(
        engine.seen,
        vec![
            "balance default=max",
            "create2",
            "nonce default=0",
            "balance caller=max",
            "nonce caller?",
            "balance predicted=[5, 0, 0, 0]",
            "deploy [192] from caller with [0, 0, 0, 0]",
            "test contract deployed",
        ]
    );
}

#[test]
fn broadcast_provisions_nothing_for_the_sender() {
    let mut engine = Engine::new();
    let step = runner(DEFAULT_SENDER).setup::<Mock>(libraries(0), vec![0xc0], false, 3, true, true);
    drive(&mut engine, step).unwrap();
    assert_eq!(engine.seen[0], "nonce default=3");
    assert_eq!(engine.seen[1], "balance caller=max");
    assert!(!engine.seen.contains(&"create2".to_string()));
}

#[test]
fn other_sender_gets_the_deployer_alone() {
    let mut engine = Engine::new();
    let step = runner(SENDER).setup::<Mock>(libraries(0), vec![0xc0], false, 3, false, true);
    drive(&mut engine, step).unwrap();
    assert_eq!(engine.seen[0], "create2");
    assert_eq!(engine.seen[1], "nonce sender=3");
}

#[test]
fn contract_is_funded_at_the_address_of_the_callers_nonce() {
    let mut engine = Engine::new();
    let step = runner(SENDER).setup::<Mock>(libraries(0), vec![0xc0], false, 3, true, false);
    drive(&mut engine, step).unwrap();
    let expected = alloy_primitives::Address::new([CALLER; 20]).create(11).into_array();
    assert_eq!(account(CALLER).create(11).bytes, expected);
    assert_eq!(engine.seen[3], "balance predicted=[5, 0, 0, 0]");
    assert_eq!(engine.seen[4], "deploy [192] from caller with [0, 0, 0, 0]");
}

#[test]
fn predicted_address_is_funded_as_given() {
    let mut engine = Engine::new();
    let mut step = runner(SENDER).setup::<Mock>(libraries(0), vec![0xc0], false, 3, true, false);
    loop {
        match step {
            Progress::Perform(task, EngineRequest::Nonce { .. }) => {
                match task.predict(account(0x99)) {
                    Progress::Perform(_, EngineRequest::SetBalance { address, amount }) => {
                        assert_eq!(address, account(0x99));
                        assert_eq!(amount, U256 { limbs: [5, 0, 0, 0] });
                        return;
                    }
                    _ => panic!("the predicted address is funded next"),
                }
            }
            Progress::Perform(task, request) => step = task.resume(engine.perform(request)),
            Progress::Finished(_) => panic!("the preparation reads the caller's nonce"),
        }
    }
}

#[test]
fn prediction_at_another_stage_is_refused() {
    let step = runner(SENDER).setup::<Mock>(libraries(0), vec![0xc0], false, 3, true, false);
    let Progress::Perform(task, _) = step else { panic!() };
    match task.predict(account(0x99)) {
        Progress::Finished(Err(error)) => assert_eq!(error, ScriptError::UnexpectedReply),
        _ => panic!("the preparation does not wait for a nonce yet"),
    }
}

#[test]
fn library_that_fails_ends_the_preparation() {
    let mut engine = Engine::new();
    engine.failing_deployment = Some(1);
    let step = runner(SENDER).setup::<Mock>(libraries(3), vec![0xc0], true, 7, false, false);
    let error = drive(&mut engine, step).err().unwrap();
    assert_eq!(
        error,
        ScriptError::LibraryDeploy { index: 1, detail: "constructor reverted".to_string() }
    );
    assert_eq!(engine.deployments, 2);

    let mut engine = Engine::new();
    engine.failing_deployment = Some(0);
    engine.fatal_deployment = true;
    let step = runner(SENDER).setup::<Mock>(libraries(3), vec![0xc0], true, 7, false, false);
    let error = drive(&mut engine, step).err().unwrap();
    assert_eq!(
        error,
        ScriptError::LibraryDeploy { index: 0, detail: "database error".to_string() }
    );
}

#[test]
fn contract_that_fails_ends_the_preparation() {
    let mut engine = Engine::new();
    engine.failing_deployment = Some(2);
    let step = runner(SENDER).setup::<Mock>(libraries(2), vec![0xc0], true, 7, false, false);
    let error = drive(&mut engine, step).err().unwrap();
    assert_eq!(error, ScriptError::ScriptDeploy("constructor reverted".to_string()));
    assert_eq!(engine.seen.last().unwrap(), "deploy [192] from caller with [0, 0, 0, 0]");

    let mut engine = Engine::new();
    engine.failing_deployment = Some(0);
    engine.fatal_deployment = true;
    let step = runner(SENDER).setup::<Mock>(libraries(0), vec![0xc0], true, 7, false, false);
    let error = drive(&mut engine, step).err().unwrap();
    assert_eq!(error, ScriptError::ScriptDeploy("database error".to_string()));
}

#[test]
fn failure_that_the_engine_describes_counts_as_a_call() {
    for reverted in [true, false] {
        let mut clean = Engine::new();
        clean.set_up = SetUp::Returns { reverted };
        let step = runner(SENDER).setup::<Mock>(libraries(1), vec![0xc0], true, 7, false, false);
        let (clean_address, clean_result) = drive(&mut clean, step).unwrap();

        let mut failed = Engine::new();
        failed.set_up = SetUp::Fails { reverted };
        let step = runner(SENDER).setup::<Mock>(libraries(1), vec![0xc0], true, 7, false, false);
        let (failed_address, failed_result) = drive(&mut failed, step).unwrap();

        assert_eq!(clean.seen, failed.seen);
        assert_eq!(clean_address, failed_address);
        assert_eq!(clean_result.success, !reverted);
        assert_eq!(clean_result.success, failed_result.success);
        assert_eq!(clean_result.gas_used, failed_result.gas_used);
        assert_eq!(clean_result.logs, failed_result.logs);
        assert_eq!(clean_result.traces, failed_result.traces);
        assert_eq!(clean_result.debug, failed_result.debug);
        assert_eq!(clean_result.labeled_addresses, failed_result.labeled_addresses);
        assert_eq!(clean_result.transactions, failed_result.transactions);
    }
}

#[test]
fn setup_that_the_engine_gives_up_on_is_an_error() {
    let mut engine = Engine::new();
    engine.set_up = SetUp::Fatal;
    let step = runner(SENDER).setup::<Mock>(libraries(1), vec![0xc0], true, 7, false, false);
    let error = drive(&mut engine, step).err().unwrap();
    assert_eq!(error, ScriptError::Engine("backend gone".to_string()));
    assert_eq!(engine.seen.last().unwrap(), "setup deployed by sender");
}

#[test]
fn debug_record_is_whole_or_absent() {
    let mut engine = Engine::new();
    engine.set_up_debug = None;
    let step = runner(SENDER).setup::<Mock>(libraries(0), vec![0xc0], true, 7, false, false);
    let (_, result) = drive(&mut engine, step).unwrap();
    assert_eq!(result.debug, None);

    let mut engine = Engine::new();
    engine.silent_deployment = Some(0);
    let step = runner(SENDER).setup::<Mock>(libraries(0), vec![0xc0], true, 7, false, false);
    let (_, result) = drive(&mut engine, step).unwrap();
    assert_eq!(result.debug, None);
    assert_eq!(result.traces, vec![(TraceKind::Setup, "setup trace".to_string())]);

    let mut engine = Engine::new();
    engine.silent_deployment = Some(0);
    let step = runner(SENDER).setup::<Mock>(libraries(0), vec![0xc0], false, 7, false, false);
    let (_, result) = drive(&mut engine, step).unwrap();
    assert_eq!(result.debug, None);
    assert!(result.traces.is_empty());
}

#[test]
fn library_without_a_trace_leaves_none() {
    let mut engine = Engine::new();
    engine.silent_deployment = Some(1);
    let step = runner(SENDER).setup::<Mock>(libraries(2), vec![0xc0], false, 7, false, false);
    let (_, result) = drive(&mut engine, step).unwrap();
    assert_eq!(result.traces, vec![deployment(0), deployment(2)]);
}

#[test]
fn reply_of_another_kind_ends_the_preparation() {
    let step = runner(SENDER).setup::<Mock>(libraries(0), vec![0xc0], false, 3, true, false);
    let Progress::Perform(task, _) = step else { panic!() };
    match task.resume(EngineReply::Nonce(1)) {
        Progress::Finished(Err(error)) => assert_eq!(error, ScriptError::UnexpectedReply),
        _ => panic!("a reply of another kind ends the preparation"),
    }
    let step = runner(SENDER).setup::<Mock>(libraries(0), vec![0xc0], false, 3, true, false);
    let Progress::Perform(task, _) = step else { panic!() };
    match task.resume(EngineReply::Fatal("no such account".to_string())) {
        Progress::Finished(Err(error)) => {
            assert_eq!(error, ScriptError::Engine("no such account".to_string()))
        }
        _ => panic!("a fatal reply ends the preparation"),
    }
}

#[test]
fn corrected_nonce_beyond_the_range_is_not_admitted() {
    let mut engine = Engine::new();
    let mut step =
        runner(SENDER).setup::<Mock>(libraries(2), vec![0xc0], true, u64::MAX - 1, true, false);
    loop {
        match step {
            Progress::Perform(task, EngineRequest::CorrectedNonce) => {
                assert!(!task.admits(&EngineReply::CorrectedNonce(Some(false))));
                assert!(task.admits(&EngineReply::CorrectedNonce(Some(true))));
                assert!(task.admits(&EngineReply::CorrectedNonce(None)));
                return;
            }
            Progress::Perform(task, request) => {
                let reply = engine.perform(request);
                assert!(task.admits(&reply));
                step = task.resume(reply);
            }
            Progress::Finished(_) => panic!("the preparation reads the cheatcodes' record"),
        }
    }
}
