use script_runner::engine::{EngineReply, EngineTypes, ExitReason, RawCallResult};
use script_runner::primitives::Address;
use script_runner::result::{
    gather_one, gather_two, push_trace, refusal, ScriptError, ScriptResult, TraceKind,
};

struct Mock;

impl EngineTypes for Mock {
    type Log = &'static str;
    type Trace = &'static str;
    type DebugData = u32;
    type Label = (u8, &'static str);
    type Transaction = u32;
    type Breakpoint = char;
    type VmTransaction = u32;
}

#[test]
fn trace_is_added_under_its_kind() {
    let mut traces = vec![(TraceKind::Deployment, "first")];
    push_trace(&mut traces, TraceKind::Setup, Some("second"));
    push_trace(&mut traces, TraceKind::Execution, None);
    push_trace(&mut traces, TraceKind::Execution, Some("third"));
    assert_eq!(
        traces,
        vec![
            (TraceKind::Deployment, "first"),
            (TraceKind::Setup, "second"),
            (TraceKind::Execution, "third"),
        ]
    );
}

#[test]
fn debug_records_are_gathered_whole_or_not_at_all() {
    assert_eq!(gather_one(Some(1)), Some(vec![1]));
    assert_eq!(gather_one::<u32>(None), None);
    assert_eq!(gather_two(Some(1), Some(2)), Some(vec![1, 2]));
    assert_eq!(gather_two(Some(1), None), None);
    assert_eq!(gather_two(None, Some(2)), None);
    assert_eq!(gather_two::<u32>(None, None), None);
}

#[test]
fn exit_reasons_are_told_apart() {
    assert!(ExitReason::Success.is_ok());
    let failures =
        [ExitReason::Revert, ExitReason::OutOfGas, ExitReason::OutOfFund, ExitReason::Halt];
    for reason in failures {
        assert!(!reason.is_ok());
    }
    for reason in [ExitReason::Revert, ExitReason::OutOfGas, ExitReason::OutOfFund] {
        assert!(reason.is_starved());
    }
    assert!(!ExitReason::Success.is_starved());
    assert!(!ExitReason::Halt.is_starved());
}

#[test]
fn refusal_hands_on_the_engines_cause() {
    assert_eq!(
        refusal(EngineReply::<Mock>::Fatal("gone".to_string())),
        ScriptError::Engine("gone".to_string())
    );
    assert_eq!(refusal(EngineReply::<Mock>::Done), ScriptError::UnexpectedReply);
    assert_eq!(refusal(EngineReply::<Mock>::Nonce(1)), ScriptError::UnexpectedReply);
    assert_eq!(refusal(EngineReply::<Mock>::GasLimit(1)), ScriptError::UnexpectedReply);
    assert_eq!(refusal(EngineReply::<Mock>::CorrectedNonce(None)), ScriptError::UnexpectedReply);
}

#[test]
fn result_of_a_call_carries_the_given_gas() {
    let raw: RawCallResult<Mock> = RawCallResult {
        exit_reason: ExitReason::Success,
        reverted: false,
        result: vec![7],
        gas_used: 100,
        logs: vec!["a", "b"],
        traces: Some("t"),
        debug: Some(5),
        labels: vec![(1, "one")],
        transactions: Some(vec![3]),
        breakpoints: None,
    };
    let result = ScriptResult::of_call(raw, 250);
    assert!(result.success);
    assert_eq!(result.gas_used, 250);
    assert_eq!(result.returned, vec![7]);
    assert_eq!(result.logs, vec!["a", "b"]);
    assert_eq!(result.traces, vec![(TraceKind::Execution, "t")]);
    assert_eq!(result.debug, Some(vec![5]));
    assert_eq!(result.labeled_addresses, vec![(1, "one")]);
    assert_eq!(result.transactions, Some(vec![3]));
    assert_eq!(result.address, None);
    assert!(result.breakpoints.is_empty());
}

#[test]
fn result_of_a_creation_succeeds_away_from_zero() {
    let mut bytes = [0u8; 20];
    bytes[19] = 1;
    let result = ScriptResult::<Mock>::of_creation(Address { bytes }, 9, vec!["l"], None, None);
    assert!(result.success);
    assert_eq!(result.address, Some(Address { bytes }));
    assert_eq!(result.gas_used, 9);
    assert_eq!(result.logs, vec!["l"]);
    assert!(result.traces.is_empty());
    assert_eq!(result.debug, None);
    assert!(result.returned.is_empty());
    assert_eq!(result.transactions, None);

    let result = ScriptResult::<Mock>::of_creation(Address::zero(), 9, vec![], Some("t"), Some(1));
    assert!(!result.success);
    assert_eq!(result.address, Some(Address::zero()));
    assert_eq!(result.traces, vec![(TraceKind::Execution, "t")]);
    assert_eq!(result.debug, Some(vec![1]));
}
