//! The replay of one recorded transaction: a call that is committed, or the
//! creation of a contract.

use crate::call::{CallStageView, CallTask, CallView};
use crate::engine::{
    DeployResult, EngineReply, EngineRequest, EngineRequestView, EngineTypes, ExecutionFailure,
};
use crate::primitives::{Address, U256};
use crate::result::{items, refusal, Progress, ScriptError, ScriptResult, ScriptResultView};
use vstd::prelude::*;

verus! {

/// What a transaction does, in mathematical form.
pub enum TargetView {
    /// It calls `to` with `calldata`.
    Call { to: Address, calldata: Seq<u8> },
    /// It creates a contract from `code`.
    Create { code: Seq<u8> },
}

/// What the transaction with the given fields does, if anything: without an
/// address it creates a contract from its data, and without either it does
/// nothing that can be replayed.
pub open spec fn target_of(to: Option<Address>, calldata: Option<Seq<u8>>) -> Option<TargetView> {
    match (to, calldata) {
        (Some(to), Some(calldata)) => Some(TargetView::Call { to, calldata }),
        (Some(to), None) => Some(TargetView::Call { to, calldata: Seq::empty() }),
        (None, Some(code)) => Some(TargetView::Create { code }),
        (None, None) => None,
    }
}

/// The value of a transaction that may name none.
pub open spec fn value_of(value: Option<U256>) -> U256 {
    match value {
        Some(value) => value,
        None => U256::zero(),
    }
}

/// A replay in progress, in mathematical form. Each stage is named after the
/// request whose reply the replay waits for.
pub enum SimulateView<P: EngineTypes> {
    /// Choosing the virtual machine.
    Configure { from: Address, target: TargetView, value: U256 },
    /// A request of the call.
    Call(CallView),
    /// The deployment of the contract.
    Create,
    /// Telling the user of the failed deployment, with the result to report
    /// afterwards.
    Report(ScriptResultView<P>),
}

impl<P: EngineTypes> SimulateView<P> {
    /// What holds of every replay in progress: its call is one that commits.
    pub open spec fn wf(self) -> bool {
        self matches SimulateView::Call(call) ==> call.wf() && call.commit
    }

    /// The replay of the transaction with the given fields, on the virtual
    /// machine that `vm` chooses.
    pub open spec fn start(
        from: Address,
        to: Option<Address>,
        calldata: Option<Seq<u8>>,
        value: Option<U256>,
        vm: (bool, Option<P::VmTransaction>),
    ) -> Progress<SimulateView<P>, EngineRequestView<P>, ScriptResultView<P>> {
        match target_of(to, calldata) {
            Some(target) => Progress::Perform(
                SimulateView::Configure { from, target, value: value_of(value) },
                EngineRequestView::ConfigureVm { use_zk: vm.0, transaction: vm.1 },
            ),
            None => Progress::Finished(Err(ScriptError::Unsupported)),
        }
    }

    /// Whether the arithmetic that `reply` asks for stays within the machine's
    /// integers.
    pub open spec fn admits(self, reply: EngineReply<P>) -> bool {
        self matches SimulateView::Call(call) ==> call.admits(reply)
    }

    /// The replay that is as far as its call.
    pub open spec fn calling(
        progress: Progress<CallView, EngineRequestView<P>, ScriptResultView<P>>,
    ) -> Progress<SimulateView<P>, EngineRequestView<P>, ScriptResultView<P>> {
        match progress {
            Progress::Perform(call, request) => Progress::Perform(
                SimulateView::Call(call),
                request,
            ),
            Progress::Finished(outcome) => Progress::Finished(outcome),
        }
    }

    /// What the replay does once the driver has answered its request with
    /// `reply`.
    pub open spec fn advance(self, reply: EngineReply<P>) -> Progress<
        SimulateView<P>,
        EngineRequestView<P>,
        ScriptResultView<P>,
    > {
        match self {
            SimulateView::Configure { from, target, value } => match reply {
                EngineReply::Done => match target {
                    TargetView::Call { to, calldata } => SimulateView::calling(
                        CallView::start(from, to, calldata, value, true).perform(
                            CallStageView::Baseline,
                        ),
                    ),
                    TargetView::Create { code } => Progress::Perform(
                        SimulateView::Create,
                        EngineRequestView::Deploy { from, code, value },
                    ),
                },
                _ => Progress::Finished(Err(refusal(reply))),
            },
            SimulateView::Call(call) => SimulateView::calling(call.advance(reply)),
            SimulateView::Create => match reply {
                EngineReply::Deployed(deployed) => Progress::Finished(
                    Ok(
                        ScriptResultView::of_creation(
                            deployed.address,
                            deployed.gas_used,
                            deployed.logs@,
                            deployed.traces,
                            deployed.debug,
                        ),
                    ),
                ),
                EngineReply::Failed(failure) => Progress::Perform(
                    SimulateView::Report(
                        ScriptResultView::of_creation(
                            Address::zero(),
                            failure.result.gas_used,
                            failure.result.logs@,
                            failure.result.traces,
                            failure.result.debug,
                        ),
                    ),
                    EngineRequestView::ReportFailure { reason: failure.reason@ },
                ),
                EngineReply::Fatal(cause) => Progress::Finished(
                    Err(ScriptError::ContractDeploy(cause)),
                ),
                _ => Progress::Finished(Err(ScriptError::UnexpectedReply)),
            },
            SimulateView::Report(result) => match reply {
                EngineReply::Done => Progress::Finished(Ok(result)),
                _ => Progress::Finished(Err(refusal(reply))),
            },
        }
    }
}

impl<P: EngineTypes> SimulateView<P> {
    /// A replay in progress stays well-formed.
    pub proof fn lemma_advance_wf(self, reply: EngineReply<P>)
        requires
            self.wf(),
            self.admits(reply),
        ensures
            self.advance(reply) matches Progress::Perform(next, _) ==> next.wf(),
    {
        if let SimulateView::Call(call) = self {
            call.lemma_advance_wf(reply);
        }
    }

    /// A transaction to an address is a call that is committed: once the
    /// virtual machine is chosen, the replay is that call.
    pub proof fn lemma_call_commits(from: Address, to: Address, calldata: Seq<u8>, value: U256)
        ensures
            (SimulateView::<P>::Configure {
                from,
                target: TargetView::Call { to, calldata },
                value,
            }).advance(EngineReply::Done) == SimulateView::<P>::calling(
                CallView::start(from, to, calldata, value, true).perform(CallStageView::Baseline),
            ),
    {
    }

    /// A creation that fails in a way that the engine can describe is no
    /// error: the user is told the reason, and the replay ends with a result
    /// that is no success and names the zero address.
    pub proof fn lemma_failed_creation_reported(failure: ExecutionFailure<P>)
        ensures
            SimulateView::<P>::Create.advance(
                EngineReply::Failed(failure),
            ) matches Progress::Perform(next, request) && {
                &&& request == EngineRequestView::<P>::ReportFailure { reason: failure.reason@ }
                &&& next.advance(EngineReply::Done) matches Progress::Finished(Ok(result)) && {
                    &&& !result.success
                    &&& result.address == Some(Address::zero())
                    &&& result.gas_used == failure.result.gas_used
                    &&& result.logs == failure.result.logs@
                }
            },
    {
    }

    /// The result of a creation is a success exactly if the contract lies at
    /// another address than zero.
    pub proof fn lemma_creation_succeeds(deployed: DeployResult<P>)
        ensures
            SimulateView::<P>::Create.advance(
                EngineReply::Deployed(deployed),
            ) matches Progress::Finished(Ok(result)) && {
                &&& result.success == (deployed.address != Address::zero())
                &&& result.address == Some(deployed.address)
            },
    {
    }
}

enum Target {
    Call { to: Address, calldata: Vec<u8> },
    Create { code: Vec<u8> },
}

impl View for Target {
    type V = TargetView;

    closed spec fn view(&self) -> TargetView {
        match *self {
            Target::Call { to, calldata } => TargetView::Call { to, calldata: calldata@ },
            Target::Create { code } => TargetView::Create { code: code@ },
        }
    }
}

enum SimulateStage<P: EngineTypes> {
    Configure { from: Address, target: Target, value: U256 },
    Call(CallTask),
    Create,
    Report(ScriptResult<P>),
}

/// A replay in progress.
pub struct SimulateTask<P: EngineTypes> {
    stage: SimulateStage<P>,
}

impl<P: EngineTypes> View for SimulateTask<P> {
    type V = SimulateView<P>;

    closed spec fn view(&self) -> SimulateView<P> {
        match self.stage {
            SimulateStage::Configure { from, target, value } => SimulateView::Configure {
                from,
                target: target@,
                value,
            },
            SimulateStage::Call(call) => SimulateView::Call(call@),
            SimulateStage::Create => SimulateView::Create,
            SimulateStage::Report(result) => SimulateView::Report(result@),
        }
    }
}

impl<P: EngineTypes> SimulateTask<P> {
    #[verifier::type_invariant]
    spec fn inv(self) -> bool {
        self@.wf()
    }

    /// Begins the replay of the transaction with the given fields, and asks
    /// for the virtual machine that `vm` chooses. A transaction without an
    /// address and without data is refused.
    pub fn start(
        from: Address,
        to: Option<Address>,
        calldata: Option<Vec<u8>>,
        value: Option<U256>,
        vm: (bool, Option<P::VmTransaction>),
    ) -> (progress: Progress<SimulateTask<P>, EngineRequest<P>, ScriptResult<P>>)
        ensures
            progress@ == SimulateView::<P>::start(from, to, items(calldata), value, vm),
    {
        let value = match value {
            Some(value) => value,
            None => U256::zero(),
        };
        let target = match (to, calldata) {
            (Some(to), Some(calldata)) => Target::Call { to, calldata },
            (Some(to), None) => Target::Call { to, calldata: Vec::new() },
            (None, Some(code)) => Target::Create { code },
            (None, None) => {
                return Progress::Finished(Err(ScriptError::Unsupported));
            },
        };
        let (use_zk, transaction) = vm;
        Progress::Perform(
            SimulateTask { stage: SimulateStage::Configure { from, target, value } },
            EngineRequest::ConfigureVm { use_zk, transaction },
        )
    }

    fn calling(progress: Progress<CallTask, EngineRequest<P>, ScriptResult<P>>) -> (lifted:
        Progress<SimulateTask<P>, EngineRequest<P>, ScriptResult<P>>)
        requires
            progress@ matches Progress::Perform(call, _) ==> call.wf() && call.commit,
        ensures
            lifted@ == SimulateView::<P>::calling(progress@),
    {
        match progress {
            Progress::Perform(call, request) => Progress::Perform(
                SimulateTask { stage: SimulateStage::Call(call) },
                request,
            ),
            Progress::Finished(outcome) => Progress::Finished(outcome),
        }
    }

    /// Whether the arithmetic that `reply` asks for stays within the machine's
    /// integers.
    pub fn admits(&self, reply: &EngineReply<P>) -> (admitted: bool)
        ensures
            admitted == self@.admits(*reply),
    {
        match &self.stage {
            SimulateStage::Call(call) => call.admits(reply),
            _ => true,
        }
    }

    /// Resumes the replay with the reply to its request.
    pub fn resume(self, reply: EngineReply<P>) -> (progress: Progress<
        SimulateTask<P>,
        EngineRequest<P>,
        ScriptResult<P>,
    >)
        requires
            self@.admits(reply),
        ensures
            progress@ == self@.advance(reply),
    {
        proof {
            use_type_invariant(&self);
        }
        match self.stage {
            SimulateStage::Configure { from, target, value } => match reply {
                EngineReply::Done => match target {
                    Target::Call { to, calldata } => SimulateTask::calling(
                        CallTask::start(from, to, calldata, value, true),
                    ),
                    Target::Create { code } => Progress::Perform(
                        SimulateTask { stage: SimulateStage::Create },
                        EngineRequest::Deploy { from, code, value },
                    ),
                },
                reply => Progress::Finished(Err(refusal(reply))),
            },
            SimulateStage::Call(call) => {
                proof {
                    call@.lemma_advance_wf(reply);
                }
                SimulateTask::calling(call.resume(reply))
            },
            SimulateStage::Create => match reply {
                EngineReply::Deployed(deployed) => Progress::Finished(
                    Ok(
                        ScriptResult::of_creation(
                            deployed.address,
                            deployed.gas_used,
                            deployed.logs,
                            deployed.traces,
                            deployed.debug,
                        ),
                    ),
                ),
                EngineReply::Failed(failure) => {
                    let result = ScriptResult::of_creation(
                        Address::zero(),
                        failure.result.gas_used,
                        failure.result.logs,
                        failure.result.traces,
                        failure.result.debug,
                    );
                    Progress::Perform(
                        SimulateTask { stage: SimulateStage::Report(result) },
                        EngineRequest::ReportFailure { reason: failure.reason },
                    )
                },
                EngineReply::Fatal(cause) => Progress::Finished(
                    Err(ScriptError::ContractDeploy(cause)),
                ),
                _ => Progress::Finished(Err(ScriptError::UnexpectedReply)),
            },
            SimulateStage::Report(result) => match reply {
                EngineReply::Done => Progress::Finished(Ok(result)),
                reply => Progress::Finished(Err(refusal(reply))),
            },
        }
    }
}

} // verus!
