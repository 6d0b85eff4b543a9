//! The vocabulary shared by a script task and the driver that owns the
//! execution engine: what a task may ask of the engine, and what the driver
//! hands back.

use crate::primitives::{Address, U256};
use vstd::prelude::*;

verus! {

/// The engine's own data, which a task carries from one place to another and
/// never looks into.
pub trait EngineTypes {
    /// One emitted log.
    type Log;

    /// The call trace of one execution.
    type Trace;

    /// The step-by-step debug record of one execution.
    type DebugData;

    /// One address with its human-readable label.
    type Label;

    /// One transaction recorded for a later broadcast.
    type Transaction;

    /// One debugger breakpoint.
    type Breakpoint;

    /// What the engine needs to know to run a transaction on its alternative
    /// virtual machine.
    type VmTransaction;
}

/// How an execution came to its end, as far as a task cares.
#[derive(Clone, Copy, Debug, PartialEq, Eq, Structural)]
pub enum ExitReason {
    /// One of the engine's successful terminal codes.
    Success,
    Revert,
    OutOfGas,
    OutOfFund,
    /// Any other end.
    Halt,
}

impl ExitReason {
    pub open spec fn spec_is_ok(self) -> bool {
        self is Success
    }

    /// Whether the execution ended with a successful terminal code.
    #[verifier::when_used_as_spec(spec_is_ok)]
    pub fn is_ok(self) -> (ok: bool)
        ensures
            ok == self.spec_is_ok(),
    {
        match self {
            ExitReason::Success => true,
            _ => false,
        }
    }

    pub open spec fn spec_is_starved(self) -> bool {
        self is Revert || self is OutOfGas || self is OutOfFund
    }

    /// Whether the execution ended for want of resources: a gas limit under
    /// which this happens is too low.
    #[verifier::when_used_as_spec(spec_is_starved)]
    pub fn is_starved(self) -> (starved: bool)
        ensures
            starved == self.spec_is_starved(),
    {
        match self {
            ExitReason::Revert | ExitReason::OutOfGas | ExitReason::OutOfFund => true,
            _ => false,
        }
    }
}

/// What the engine reports of a deployment that went through.
pub struct DeployResult<P: EngineTypes> {
    pub address: Address,
    pub gas_used: u64,
    pub logs: Vec<P::Log>,
    pub traces: Option<P::Trace>,
    pub debug: Option<P::DebugData>,
}

/// What the engine reports of a call that ran to an end, reverted or not.
pub struct CallResult<P: EngineTypes> {
    pub reverted: bool,
    pub gas_used: u64,
    pub logs: Vec<P::Log>,
    pub traces: Option<P::Trace>,
    pub debug: Option<P::DebugData>,
    pub labels: Vec<P::Label>,
    pub transactions: Option<Vec<P::Transaction>>,
}

/// A failure that the engine could still describe: the fields of a call
/// result, and the reason in words.
pub struct ExecutionFailure<P: EngineTypes> {
    pub reason: String,
    pub result: CallResult<P>,
}

/// What the engine reports of a raw call.
pub struct RawCallResult<P: EngineTypes> {
    pub exit_reason: ExitReason,
    pub reverted: bool,
    pub result: Vec<u8>,
    pub gas_used: u64,
    pub logs: Vec<P::Log>,
    pub traces: Option<P::Trace>,
    pub debug: Option<P::DebugData>,
    pub labels: Vec<P::Label>,
    pub transactions: Option<Vec<P::Transaction>>,
    /// The breakpoints of the call's cheatcode context, where it has one.
    pub breakpoints: Option<Vec<P::Breakpoint>>,
}

/// One operation that a task asks the driver to perform.
pub enum EngineRequest<P: EngineTypes> {
    /// Set the balance of `address`.
    SetBalance { address: Address, amount: U256 },
    /// Set the nonce of `address`.
    SetNonce { address: Address, nonce: u64 },
    /// Read the nonce of `address`.
    Nonce { address: Address },
    /// Put the canonical CREATE2 deployer in place.
    DeployCreate2Deployer,
    /// Deploy `code` from `from`.
    Deploy { from: Address, code: Vec<u8>, value: U256 },
    /// Mark `address` as the test contract.
    SetTestContract { address: Address },
    /// Invoke the conventional setup entry point of `contract`.
    SetUp { sender: Address, contract: Address },
    /// Read the cheatcodes' record of whether they corrected the sender's
    /// nonce.
    CorrectedNonce,
    /// Reset that record.
    ClearCorrectedNonce,
    /// Read the configured gas limit.
    GasLimit,
    /// Configure the gas limit.
    SetGasLimit { gas_limit: u64 },
    /// Call `to` from `from`; with `commit`, keep the changes to the state.
    Call { from: Address, to: Address, calldata: Vec<u8>, value: U256, commit: bool },
    /// Choose the virtual machine for what follows.
    ConfigureVm { use_zk: bool, transaction: Option<P::VmTransaction> },
    /// Tell the user why a deployment failed.
    ReportFailure { reason: String },
}

/// The mathematical content of a request.
pub enum EngineRequestView<P: EngineTypes> {
    SetBalance { address: Address, amount: U256 },
    SetNonce { address: Address, nonce: u64 },
    Nonce { address: Address },
    DeployCreate2Deployer,
    Deploy { from: Address, code: Seq<u8>, value: U256 },
    SetTestContract { address: Address },
    SetUp { sender: Address, contract: Address },
    CorrectedNonce,
    ClearCorrectedNonce,
    GasLimit,
    SetGasLimit { gas_limit: u64 },
    Call { from: Address, to: Address, calldata: Seq<u8>, value: U256, commit: bool },
    ConfigureVm { use_zk: bool, transaction: Option<P::VmTransaction> },
    ReportFailure { reason: Seq<char> },
}

impl<P: EngineTypes> View for EngineRequest<P> {
    type V = EngineRequestView<P>;

    open spec fn view(&self) -> EngineRequestView<P> {
        match *self {
            EngineRequest::SetBalance { address, amount } => EngineRequestView::SetBalance {
                address,
                amount,
            },
            EngineRequest::SetNonce { address, nonce } => EngineRequestView::SetNonce {
                address,
                nonce,
            },
            EngineRequest::Nonce { address } => EngineRequestView::Nonce { address },
            EngineRequest::DeployCreate2Deployer => EngineRequestView::DeployCreate2Deployer,
            EngineRequest::Deploy { from, code, value } => EngineRequestView::Deploy {
                from,
                code: code@,
                value,
            },
            EngineRequest::SetTestContract { address } => EngineRequestView::SetTestContract {
                address,
            },
            EngineRequest::SetUp { sender, contract } => EngineRequestView::SetUp {
                sender,
                contract,
            },
            EngineRequest::CorrectedNonce => EngineRequestView::CorrectedNonce,
            EngineRequest::ClearCorrectedNonce => EngineRequestView::ClearCorrectedNonce,
            EngineRequest::GasLimit => EngineRequestView::GasLimit,
            EngineRequest::SetGasLimit { gas_limit } => EngineRequestView::SetGasLimit {
                gas_limit,
            },
            EngineRequest::Call { from, to, calldata, value, commit } => EngineRequestView::Call {
                from,
                to,
                calldata: calldata@,
                value,
                commit,
            },
            EngineRequest::ConfigureVm { use_zk, transaction } => EngineRequestView::ConfigureVm {
                use_zk,
                transaction,
            },
            EngineRequest::ReportFailure { reason } => EngineRequestView::ReportFailure {
                reason: reason@,
            },
        }
    }
}

impl<P: EngineTypes> EngineRequestView<P> {
    /// Whether performing the request changes what the engine keeps between
    /// calls: its accounts, its storage or its configuration.
    pub open spec fn mutates(self) -> bool {
        match self {
            EngineRequestView::Nonce { .. } => false,
            EngineRequestView::CorrectedNonce => false,
            EngineRequestView::GasLimit => false,
            EngineRequestView::Call { commit, .. } => commit,
            EngineRequestView::ReportFailure { .. } => false,
            _ => true,
        }
    }
}

/// What the driver hands back after performing a request.
pub enum EngineReply<P: EngineTypes> {
    /// The operation went through and has nothing to report.
    Done,
    /// The nonce that was read.
    Nonce(u64),
    /// The gas limit that was read.
    GasLimit(u64),
    /// The cheatcodes' record, or `None` where the engine has no cheatcodes.
    CorrectedNonce(Option<bool>),
    /// The deployment went through.
    Deployed(DeployResult<P>),
    /// The setup call ran to an end.
    Called(CallResult<P>),
    /// The raw call returned.
    Raw(RawCallResult<P>),
    /// The execution failed, and the engine could describe the failure.
    Failed(ExecutionFailure<P>),
    /// The engine gave up; the words are the cause.
    Fatal(String),
}

} // verus!
