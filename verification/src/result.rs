//! What a task reports when it ends, and how the reports of the engine are
//! gathered into it.

use crate::engine::{EngineReply, EngineTypes, RawCallResult};
use crate::primitives::Address;
use vstd::prelude::*;

verus! {

/// The phase of a script that produced a trace.
#[derive(Clone, Copy, Debug, PartialEq, Eq, Structural)]
pub enum TraceKind {
    Deployment,
    Setup,
    Execution,
}

/// Why a task ended without a result.
#[derive(Debug, PartialEq, Eq)]
pub enum ScriptError {
    /// The engine gave up; the words are its cause, handed on as they came.
    Engine(String),
    /// The library at `index` could not be deployed.
    LibraryDeploy { index: usize, detail: String },
    /// The script's own contract could not be deployed.
    ScriptDeploy(String),
    /// The contract of a creating transaction could not be deployed, and the
    /// engine could not describe the failure.
    ContractDeploy(String),
    /// The transaction neither calls an address nor carries code to deploy.
    Unsupported,
    /// The driver answered a request with a reply of another kind.
    UnexpectedReply,
}

/// The error that `reply` stands for where it answers a request that
/// expects a reply of another kind: the engine's own where the engine gave
/// up, and a breach of the order of requests and replies otherwise.
pub open spec fn spec_refusal<P: EngineTypes>(reply: EngineReply<P>) -> ScriptError {
    match reply {
        EngineReply::Fatal(cause) => ScriptError::Engine(cause),
        _ => ScriptError::UnexpectedReply,
    }
}

/// The error that `reply` stands for where it answers a request that
/// expects a reply of another kind.
#[verifier::when_used_as_spec(spec_refusal)]
pub fn refusal<P: EngineTypes>(reply: EngineReply<P>) -> (error: ScriptError)
    ensures
        error == spec_refusal(reply),
{
    match reply {
        EngineReply::Fatal(cause) => ScriptError::Engine(cause),
        _ => ScriptError::UnexpectedReply,
    }
}

/// The outcome of one deployment, one setup or one call.
pub struct ScriptResult<P: EngineTypes> {
    pub success: bool,
    pub logs: Vec<P::Log>,
    pub traces: Vec<(TraceKind, P::Trace)>,
    pub debug: Option<Vec<P::DebugData>>,
    pub gas_used: u64,
    pub labeled_addresses: Vec<P::Label>,
    pub transactions: Option<Vec<P::Transaction>>,
    pub returned: Vec<u8>,
    pub address: Option<Address>,
    pub breakpoints: Vec<P::Breakpoint>,
}

/// The mathematical content of a [`ScriptResult`].
pub struct ScriptResultView<P: EngineTypes> {
    pub success: bool,
    pub logs: Seq<P::Log>,
    pub traces: Seq<(TraceKind, P::Trace)>,
    pub debug: Option<Seq<P::DebugData>>,
    pub gas_used: u64,
    pub labeled_addresses: Seq<P::Label>,
    pub transactions: Option<Seq<P::Transaction>>,
    pub returned: Seq<u8>,
    pub address: Option<Address>,
    pub breakpoints: Seq<P::Breakpoint>,
}

/// The content of a list that may be absent.
pub open spec fn items<T>(list: Option<Vec<T>>) -> Option<Seq<T>> {
    match list {
        Some(list) => Some(list@),
        None => None,
    }
}

/// The content of a list, an absent list counting as empty.
pub open spec fn items_or_empty<T>(list: Option<Vec<T>>) -> Seq<T> {
    match list {
        Some(list) => list@,
        None => Seq::empty(),
    }
}

/// The trace of one execution under its kind, or nothing where the engine
/// recorded no trace.
pub open spec fn tagged<T>(kind: TraceKind, trace: Option<T>) -> Seq<(TraceKind, T)> {
    match trace {
        Some(trace) => seq![(kind, trace)],
        None => Seq::empty(),
    }
}

/// The debug records of several executions as one list: all of them in
/// order, or nothing as soon as one execution has none.
pub open spec fn gathered<D>(records: Seq<Option<D>>) -> Option<Seq<D>> {
    if forall|i: int| 0 <= i < records.len() ==> records[i] is Some {
        Some(Seq::new(records.len(), |i: int| records[i]->0))
    } else {
        None
    }
}

impl<P: EngineTypes> View for ScriptResult<P> {
    type V = ScriptResultView<P>;

    open spec fn view(&self) -> ScriptResultView<P> {
        ScriptResultView {
            success: self.success,
            logs: self.logs@,
            traces: self.traces@,
            debug: items(self.debug),
            gas_used: self.gas_used,
            labeled_addresses: self.labeled_addresses@,
            transactions: items(self.transactions),
            returned: self.returned@,
            address: self.address,
            breakpoints: self.breakpoints@,
        }
    }
}

impl<P: EngineTypes> ScriptResultView<P> {
    /// The result of a raw call, with `gas_used` in place of the gas that
    /// the call consumed.
    pub open spec fn of_call(raw: RawCallResult<P>, gas_used: u64) -> ScriptResultView<P> {
        ScriptResultView {
            success: !raw.reverted,
            logs: raw.logs@,
            traces: tagged(TraceKind::Execution, raw.traces),
            debug: gathered(seq![raw.debug]),
            gas_used,
            labeled_addresses: raw.labels@,
            transactions: items(raw.transactions),
            returned: raw.result@,
            address: None,
            breakpoints: items_or_empty(raw.breakpoints),
        }
    }

    /// The result of a creating transaction that left a contract at
    /// `address`, or none where `address` is zero.
    pub open spec fn of_creation(
        address: Address,
        gas_used: u64,
        logs: Seq<P::Log>,
        traces: Option<P::Trace>,
        debug: Option<P::DebugData>,
    ) -> ScriptResultView<P> {
        ScriptResultView {
            success: address != Address::zero(),
            logs,
            traces: tagged(TraceKind::Execution, traces),
            debug: gathered(seq![debug]),
            gas_used,
            labeled_addresses: Seq::empty(),
            transactions: None,
            returned: Seq::empty(),
            address: Some(address),
            breakpoints: Seq::empty(),
        }
    }
}

/// Adds the trace of one execution, where there is one, under its kind.
pub fn push_trace<T>(traces: &mut Vec<(TraceKind, T)>, kind: TraceKind, trace: Option<T>)
    ensures
        final(traces)@ == old(traces)@ + tagged(kind, trace),
{
    match trace {
        Some(trace) => {
            traces.push((kind, trace));
        },
        None => {},
    }
}

/// The debug record of a single execution as a list.
pub fn gather_one<D>(record: Option<D>) -> (list: Option<Vec<D>>)
    ensures
        items(list) == gathered(seq![record]),
{
    match record {
        Some(record) => {
            let mut list: Vec<D> = Vec::new();
            list.push(record);
            assert(list@ =~= Seq::new(1, |i: int| seq![Some(record)][i]->0));
            Some(list)
        },
        None => {
            assert(!(seq![record][0] is Some));
            None
        },
    }
}

/// The debug records of two successive executions as a list.
pub fn gather_two<D>(first: Option<D>, second: Option<D>) -> (list: Option<Vec<D>>)
    ensures
        items(list) == gathered(seq![first, second]),
{
    match (first, second) {
        (Some(earlier), Some(later)) => {
            let mut list: Vec<D> = Vec::new();
            list.push(earlier);
            list.push(later);
            assert(list@ =~= Seq::new(2, |i: int| seq![first, second][i]->0));
            Some(list)
        },
        (first, second) => {
            proof {
                if first is None {
                    assert(!(seq![first, second][0] is Some));
                } else {
                    assert(!(seq![first, second][1] is Some));
                }
            }
            None
        },
    }
}

impl<P: EngineTypes> ScriptResult<P> {
    /// Turns what the engine reported of a raw call into a result, with
    /// `gas_used` in place of the gas that the call consumed.
    pub fn of_call(raw: RawCallResult<P>, gas_used: u64) -> (result: ScriptResult<P>)
        ensures
            result@ == ScriptResultView::<P>::of_call(raw, gas_used),
    {
        let RawCallResult {
            exit_reason: _,
            reverted,
            result: returned,
            gas_used: _,
            logs,
            traces,
            debug,
            labels,
            transactions,
            breakpoints,
        } = raw;
        let mut tagged_traces: Vec<(TraceKind, P::Trace)> = Vec::new();
        push_trace(&mut tagged_traces, TraceKind::Execution, traces);
        let breakpoints = match breakpoints {
            Some(breakpoints) => breakpoints,
            None => Vec::new(),
        };
        ScriptResult {
            success: !reverted,
            logs,
            traces: tagged_traces,
            debug: gather_one(debug),
            gas_used,
            labeled_addresses: labels,
            transactions,
            returned,
            address: None,
            breakpoints,
        }
    }

    /// The result of a creating transaction: a success exactly if `address`
    /// is not the zero address.
    pub fn of_creation(
        address: Address,
        gas_used: u64,
        logs: Vec<P::Log>,
        traces: Option<P::Trace>,
        debug: Option<P::DebugData>,
    ) -> (result: ScriptResult<P>)
        ensures
            result@ == ScriptResultView::<P>::of_creation(address, gas_used, logs@, traces, debug),
    {
        let mut tagged_traces: Vec<(TraceKind, P::Trace)> = Vec::new();
        push_trace(&mut tagged_traces, TraceKind::Execution, traces);
        ScriptResult {
            success: address != Address::zero(),
            logs,
            traces: tagged_traces,
            debug: gather_one(debug),
            gas_used,
            labeled_addresses: Vec::new(),
            transactions: None,
            returned: Vec::new(),
            address: Some(address),
            breakpoints: Vec::new(),
        }
    }
}

/// What a task does next.
pub enum Progress<T, Q, R> {
    /// The driver is to perform the request on the engine and to resume the
    /// task with the reply.
    Perform(T, Q),
    /// The task has ended.
    Finished(Result<R, ScriptError>),
}

impl<T: View, Q: View, R: View> View for Progress<T, Q, R> {
    type V = Progress<T::V, Q::V, R::V>;

    open spec fn view(&self) -> Progress<T::V, Q::V, R::V> {
        match *self {
            Progress::Perform(task, request) => Progress::Perform(task@, request@),
            Progress::Finished(Ok(result)) => Progress::Finished(Ok(result@)),
            Progress::Finished(Err(error)) => Progress::Finished(Err(error)),
        }
    }
}

} // verus!
