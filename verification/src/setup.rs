//! The preparation of a script: the accounts are provisioned, the libraries
//! and the script's contract are deployed, and the contract's setup entry
//! point is called where that is asked for.

use crate::engine::{
    CallResult, DeployResult, EngineReply, EngineRequest, EngineRequestView, EngineTypes,
    ExecutionFailure,
};
use crate::primitives::{Address, U256};
use crate::result::{
    gather_one, gather_two, gathered, items, push_trace, refusal, tagged, Progress, ScriptError,
    ScriptResult, ScriptResultView, TraceKind,
};
use vstd::prelude::*;

verus! {

/// Where a preparation stands. Each stage is named after the request whose
/// reply the preparation waits for.
#[derive(Clone, Copy, Debug, PartialEq, Eq, Structural)]
pub enum SetupStage {
    /// Crediting the sender with the largest balance.
    FundSender,
    /// Putting the CREATE2 deployer in place.
    Create2Deployer,
    /// Setting the sender's nonce to the one that was supplied.
    SenderNonce,
    /// Crediting the caller identity with the largest balance.
    FundCaller,
    /// Deploying the library at `index`.
    Library { index: usize },
    /// Reading the caller identity's nonce.
    CallerNonce,
    /// Crediting the address that the contract will get with the initial
    /// balance.
    FundContract,
    /// Deploying the contract.
    Contract,
    /// Marking the contract as the test contract.
    TestContract,
    /// Calling the contract's setup entry point.
    SetUp,
    /// Reading whether the cheatcodes corrected the sender's nonce.
    CorrectedNonce,
    /// Correcting the sender's nonce.
    CorrectNonce,
    /// Resetting the cheatcodes' record.
    ClearCorrectedNonce,
}

/// What a preparation was asked to do, in mathematical form.
pub struct SetupPlanView {
    pub sender: Address,
    pub caller: Address,
    pub default_sender: Address,
    pub initial_balance: U256,
    pub libraries: Seq<Seq<u8>>,
    pub code: Seq<u8>,
    pub call_setup: bool,
    pub sender_nonce: u64,
    pub is_broadcast: bool,
    pub need_create2_deployer: bool,
}

impl SetupPlanView {
    /// The first stage: outside a broadcast, the default sender is credited.
    pub open spec fn first_stage(self) -> SetupStage {
        if !self.is_broadcast && self.sender == self.default_sender {
            SetupStage::FundSender
        } else {
            self.after_sender()
        }
    }

    /// The stage after the sender is seen to: outside a broadcast, the
    /// CREATE2 deployer is put in place where it is needed.
    pub open spec fn after_sender(self) -> SetupStage {
        if !self.is_broadcast && self.need_create2_deployer {
            SetupStage::Create2Deployer
        } else {
            SetupStage::SenderNonce
        }
    }

    /// The stage once the libraries before `index` are deployed.
    pub open spec fn library_from(self, index: int) -> SetupStage {
        if 0 <= index < self.libraries.len() && index <= usize::MAX {
            SetupStage::Library { index: index as usize }
        } else {
            SetupStage::CallerNonce
        }
    }

    /// The stage once the contract is deployed.
    pub open spec fn after_contract(self) -> SetupStage {
        if self.call_setup {
            SetupStage::SetUp
        } else {
            SetupStage::TestContract
        }
    }

    /// The nonce that the sender has after the libraries are deployed.
    pub open spec fn corrected_nonce(self) -> int {
        self.sender_nonce + self.libraries.len()
    }
}

/// A preparation in progress, in mathematical form.
pub struct SetupView<P: EngineTypes> {
    pub plan: SetupPlanView,
    pub stage: SetupStage,
    /// The address that the contract will get, once the caller identity's
    /// nonce is known; the address at which it lies, once it is deployed.
    pub contract: Address,
    /// The debug record of the contract's deployment.
    pub constructor_debug: Option<P::DebugData>,
    /// What the engine has reported so far.
    pub result: ScriptResultView<P>,
}

impl<P: EngineTypes> SetupView<P> {
    /// The number of deployments that have gone through before this stage.
    pub open spec fn deployed(self) -> int {
        match self.stage {
            SetupStage::FundSender => 0,
            SetupStage::Create2Deployer => 0,
            SetupStage::SenderNonce => 0,
            SetupStage::FundCaller => 0,
            SetupStage::Library { index } => index as int,
            SetupStage::CallerNonce => self.plan.libraries.len() as int,
            SetupStage::FundContract => self.plan.libraries.len() as int,
            SetupStage::Contract => self.plan.libraries.len() as int,
            _ => self.plan.libraries.len() + 1int,
        }
    }

    /// Whether the setup call has been made.
    pub open spec fn called(self) -> bool {
        self.stage is CorrectedNonce || self.stage is CorrectNonce
            || self.stage is ClearCorrectedNonce
    }

    /// What holds of every preparation in progress. Until the setup call
    /// is made, the engine has reported nothing but deployments.
    pub open spec fn wf(self) -> bool {
        &&& self.plan.libraries.len() <= usize::MAX
        &&& self.stage matches SetupStage::Library { index } ==> index < self.plan.libraries.len()
        &&& self.stage is CorrectNonce ==> self.plan.corrected_nonce() <= u64::MAX
        &&& self.result.returned.len() == 0
        &&& self.result.address is None
        &&& self.result.breakpoints.len() == 0
        &&& !self.called() ==> {
            &&& self.result.success
            &&& self.result.gas_used == 0
            &&& self.result.labeled_addresses.len() == 0
            &&& self.result.transactions is None
            &&& self.result.debug is None
            &&& self.result.traces.len() <= self.deployed()
            &&& forall|i: int|
                0 <= i < self.result.traces.len() ==> (#[trigger] self.result.traces[i]).0
                    == TraceKind::Deployment
        }
    }

    /// The preparation before its first request.
    pub open spec fn start(plan: SetupPlanView) -> SetupView<P> {
        SetupView {
            plan,
            stage: plan.first_stage(),
            contract: Address::zero(),
            constructor_debug: None,
            result: ScriptResultView {
                success: true,
                logs: Seq::empty(),
                traces: Seq::empty(),
                debug: None,
                gas_used: 0,
                labeled_addresses: Seq::empty(),
                transactions: None,
                returned: Seq::empty(),
                address: None,
                breakpoints: Seq::empty(),
            },
        }
    }

    /// The preparation at another stage.
    pub open spec fn at(self, stage: SetupStage) -> SetupView<P> {
        SetupView { stage, ..self }
    }

    /// The request whose reply the preparation waits for.
    pub open spec fn request(self) -> EngineRequestView<P> {
        match self.stage {
            SetupStage::FundSender => EngineRequestView::SetBalance {
                address: self.plan.sender,
                amount: U256::max(),
            },
            SetupStage::Create2Deployer => EngineRequestView::DeployCreate2Deployer,
            SetupStage::SenderNonce => EngineRequestView::SetNonce {
                address: self.plan.sender,
                nonce: self.plan.sender_nonce,
            },
            SetupStage::FundCaller => EngineRequestView::SetBalance {
                address: self.plan.caller,
                amount: U256::max(),
            },
            SetupStage::Library { index } => EngineRequestView::Deploy {
                from: self.plan.sender,
                code: self.plan.libraries[index as int],
                value: U256::zero(),
            },
            SetupStage::CallerNonce => EngineRequestView::Nonce { address: self.plan.caller },
            SetupStage::FundContract => EngineRequestView::SetBalance {
                address: self.contract,
                amount: self.plan.initial_balance,
            },
            SetupStage::Contract => EngineRequestView::Deploy {
                from: self.plan.caller,
                code: self.plan.code,
                value: U256::zero(),
            },
            SetupStage::TestContract => EngineRequestView::SetTestContract {
                address: self.contract,
            },
            SetupStage::SetUp => EngineRequestView::SetUp {
                sender: self.plan.sender,
                contract: self.contract,
            },
            SetupStage::CorrectedNonce => EngineRequestView::CorrectedNonce,
            SetupStage::CorrectNonce => EngineRequestView::SetNonce {
                address: self.plan.sender,
                nonce: self.plan.corrected_nonce() as u64,
            },
            SetupStage::ClearCorrectedNonce => EngineRequestView::ClearCorrectedNonce,
        }
    }

    /// Whether the arithmetic that `reply` asks for stays within the machine's
    /// integers: the corrected nonce is the supplied one and the number of
    /// libraries together.
    pub open spec fn admits(self, reply: EngineReply<P>) -> bool {
        self.stage is CorrectedNonce && reply == EngineReply::<P>::CorrectedNonce(Some(false))
            ==> self.plan.corrected_nonce() <= u64::MAX
    }

    /// The preparation at the stage `stage`, asking for the request of that
    /// stage.
    pub open spec fn perform(self, stage: SetupStage) -> Progress<
        SetupView<P>,
        EngineRequestView<P>,
        (Address, ScriptResultView<P>),
    > {
        Progress::Perform(self.at(stage), self.at(stage).request())
    }

    /// The preparation at its end.
    pub open spec fn finished(self) -> Progress<
        SetupView<P>,
        EngineRequestView<P>,
        (Address, ScriptResultView<P>),
    > {
        Progress::Finished(Ok((self.contract, self.result)))
    }

    /// The preparation after a request without a result, if it went through.
    pub open spec fn proceed(self, reply: EngineReply<P>, stage: SetupStage) -> Progress<
        SetupView<P>,
        EngineRequestView<P>,
        (Address, ScriptResultView<P>),
    > {
        match reply {
            EngineReply::Done => self.perform(stage),
            _ => Progress::Finished(Err(refusal(reply))),
        }
    }

    /// The preparation with the trace of one more deployment.
    pub open spec fn with_deployment(self, traces: Option<P::Trace>) -> SetupView<P> {
        SetupView {
            result: ScriptResultView {
                traces: self.result.traces + tagged(TraceKind::Deployment, traces),
                ..self.result
            },
            ..self
        }
    }

    /// The preparation with the address that the contract will get.
    pub open spec fn with_contract(self, contract: Address) -> SetupView<P> {
        SetupView { contract, ..self }
    }

    /// The preparation once the contract lies at `address`.
    pub open spec fn with_constructor(
        self,
        address: Address,
        logs: Seq<P::Log>,
        traces: Option<P::Trace>,
        debug: Option<P::DebugData>,
    ) -> SetupView<P> {
        SetupView {
            contract: address,
            constructor_debug: debug,
            result: ScriptResultView {
                logs,
                traces: self.result.traces + tagged(TraceKind::Deployment, traces),
                ..self.result
            },
            ..self
        }
    }

    /// The preparation without a setup call: the debug record is that of the
    /// contract's deployment.
    pub open spec fn with_setup_skipped(self) -> SetupView<P> {
        SetupView {
            constructor_debug: None,
            result: ScriptResultView {
                debug: gathered(seq![self.constructor_debug]),
                ..self.result
            },
            ..self
        }
    }

    /// The preparation after the setup call, whether the engine reported it
    /// as a call that ran to its end or as a failure: the call's logs and
    /// trace follow those of the deployments, and the debug records of the
    /// contract's deployment and of the call make up the debug record.
    pub open spec fn with_setup(self, call: CallResult<P>) -> SetupView<P> {
        SetupView {
            constructor_debug: None,
            result: ScriptResultView {
                success: !call.reverted,
                logs: self.result.logs + call.logs@,
                traces: self.result.traces + tagged(TraceKind::Setup, call.traces),
                debug: gathered(seq![self.constructor_debug, call.debug]),
                gas_used: call.gas_used,
                labeled_addresses: call.labels@,
                transactions: items(call.transactions),
                ..self.result
            },
            ..self
        }
    }

    /// What the preparation does once the driver has answered its request
    /// with `reply`.
    pub open spec fn advance(self, reply: EngineReply<P>) -> Progress<
        SetupView<P>,
        EngineRequestView<P>,
        (Address, ScriptResultView<P>),
    > {
        match self.stage {
            SetupStage::FundSender => self.proceed(reply, self.plan.after_sender()),
            SetupStage::Create2Deployer => self.proceed(reply, SetupStage::SenderNonce),
            SetupStage::SenderNonce => self.proceed(reply, SetupStage::FundCaller),
            SetupStage::FundCaller => self.proceed(reply, self.plan.library_from(0)),
            SetupStage::Library { index } => match reply {
                EngineReply::Deployed(deployed) => self.with_deployment(deployed.traces).perform(
                    self.plan.library_from(index + 1),
                ),
                EngineReply::Failed(failure) => Progress::Finished(
                    Err(ScriptError::LibraryDeploy { index, detail: failure.reason }),
                ),
                EngineReply::Fatal(cause) => Progress::Finished(
                    Err(ScriptError::LibraryDeploy { index, detail: cause }),
                ),
                _ => Progress::Finished(Err(ScriptError::UnexpectedReply)),
            },
            SetupStage::CallerNonce => match reply {
                EngineReply::Nonce(nonce) => self.with_contract(
                    self.plan.caller.create(nonce),
                ).perform(SetupStage::FundContract),
                _ => Progress::Finished(Err(refusal(reply))),
            },
            SetupStage::FundContract => self.proceed(reply, SetupStage::Contract),
            SetupStage::Contract => match reply {
                EngineReply::Deployed(deployed) => self.with_constructor(
                    deployed.address,
                    deployed.logs@,
                    deployed.traces,
                    deployed.debug,
                ).perform(self.plan.after_contract()),
                EngineReply::Failed(failure) => Progress::Finished(
                    Err(ScriptError::ScriptDeploy(failure.reason)),
                ),
                EngineReply::Fatal(cause) => Progress::Finished(
                    Err(ScriptError::ScriptDeploy(cause)),
                ),
                _ => Progress::Finished(Err(ScriptError::UnexpectedReply)),
            },
            SetupStage::TestContract => match reply {
                EngineReply::Done => self.with_setup_skipped().finished(),
                _ => Progress::Finished(Err(refusal(reply))),
            },
            SetupStage::SetUp => match reply {
                EngineReply::Called(call) => self.with_setup(call).perform(
                    SetupStage::CorrectedNonce,
                ),
                EngineReply::Failed(failure) => self.with_setup(failure.result).perform(
                    SetupStage::CorrectedNonce,
                ),
                _ => Progress::Finished(Err(refusal(reply))),
            },
            SetupStage::CorrectedNonce => match reply {
                EngineReply::CorrectedNonce(None) => self.finished(),
                EngineReply::CorrectedNonce(Some(corrected)) => if corrected {
                    self.perform(SetupStage::ClearCorrectedNonce)
                } else {
                    self.perform(SetupStage::CorrectNonce)
                },
                _ => Progress::Finished(Err(refusal(reply))),
            },
            SetupStage::CorrectNonce => self.proceed(reply, SetupStage::ClearCorrectedNonce),
            SetupStage::ClearCorrectedNonce => match reply {
                EngineReply::Done => self.finished(),
                _ => Progress::Finished(Err(refusal(reply))),
            },
        }
    }
}

impl<P: EngineTypes> SetupView<P> {
    /// A preparation in progress stays well-formed and keeps its plan; every
    /// request that it makes is the one of its stage.
    pub proof fn lemma_advance_wf(self, reply: EngineReply<P>)
        requires
            self.wf(),
            self.admits(reply),
        ensures
            self.advance(reply) matches Progress::Perform(next, request) ==> {
                &&& next.wf()
                &&& next.plan == self.plan
                &&& request == next.request()
            },
    {
        match self.advance(reply) {
            Progress::Perform(next, _) => {
                if self.stage matches SetupStage::Library { index } {
                    let traces = reply->Deployed_0.traces;
                    assert(next.result.traces == self.result.traces + tagged(
                        TraceKind::Deployment,
                        traces,
                    ));
                }
                if self.stage is Contract {
                    let traces = reply->Deployed_0.traces;
                    assert(next.result.traces == self.result.traces + tagged(
                        TraceKind::Deployment,
                        traces,
                    ));
                }
            },
            Progress::Finished(_) => {},
        }
    }

    /// The requests that the preparation makes while the driver answers
    /// with `replies`, one after another: the one that it waits for first,
    /// and the one that follows the last reply last, if the preparation has
    /// not ended by then.
    pub open spec fn requests(self, replies: Seq<EngineReply<P>>) -> Seq<EngineRequestView<P>>
        decreases replies.len(),
    {
        if replies.len() == 0 {
            seq![self.request()]
        } else {
            match self.advance(replies[0]) {
                Progress::Perform(next, _) => seq![self.request()] + next.requests(
                    replies.drop_first(),
                ),
                Progress::Finished(_) => seq![self.request()],
            }
        }
    }

    /// What a preparation asks for before it deploys anything. Outside a
    /// broadcast the sender is credited with the largest balance if it is
    /// the default sender, and the CREATE2 deployer is put in place if it is
    /// needed; in any case the sender's nonce is set to the supplied one and
    /// the caller identity is credited with the largest balance.
    pub open spec fn provisioning(plan: SetupPlanView) -> Seq<EngineRequestView<P>> {
        let fund_sender = if !plan.is_broadcast && plan.sender == plan.default_sender {
            seq![EngineRequestView::<P>::SetBalance { address: plan.sender, amount: U256::max() }]
        } else {
            seq![]
        };
        let deployer = if !plan.is_broadcast && plan.need_create2_deployer {
            seq![EngineRequestView::<P>::DeployCreate2Deployer]
        } else {
            seq![]
        };
        fund_sender + deployer + seq![
            EngineRequestView::<P>::SetNonce { address: plan.sender, nonce: plan.sender_nonce },
            EngineRequestView::<P>::SetBalance { address: plan.caller, amount: U256::max() },
        ]
    }

    /// A preparation begins with its provisioning, in order, and goes on to
    /// the first library, or to the contract where there is no library.
    pub proof fn lemma_provisioned(plan: SetupPlanView)
        ensures
            ({
                let start = SetupView::<P>::start(plan).at(plan.first_stage());
                let provisioning = SetupView::<P>::provisioning(plan);
                let replies = Seq::new(provisioning.len(), |i: int| EngineReply::<P>::Done);
                start.requests(replies) == provisioning.push(
                    start.at(plan.library_from(0)).request(),
                )
            }),
    {
        reveal_with_fuel(SetupView::requests, 5);
        let start = SetupView::<P>::start(plan).at(plan.first_stage());
        let provisioning = SetupView::<P>::provisioning(plan);
        let replies = Seq::new(provisioning.len(), |i: int| EngineReply::<P>::Done);
        let fewer = replies.drop_first();
        let few = fewer.drop_first();
        let fewest = few.drop_first();
        assert(fewer.len() == replies.len() - 1);
        assert(few.len() == replies.len() - 2);
        if few.len() > 0 {
            assert(fewest.len() == replies.len() - 3);
            if fewest.len() > 0 {
                assert(fewest.drop_first().len() == 0);
            }
        }
        assert(start.requests(replies) =~= provisioning.push(
            start.at(plan.library_from(0)).request(),
        ));
    }

    /// The libraries are deployed one after another, in the order given,
    /// from the sender and without value; after the last, the caller
    /// identity's nonce is read.
    pub proof fn lemma_libraries_in_order(self, deployed: DeployResult<P>)
        requires
            self.wf(),
            self.stage is Library,
        ensures
            ({
                let index = self.stage->index;
                &&& self.request() == EngineRequestView::<P>::Deploy {
                    from: self.plan.sender,
                    code: self.plan.libraries[index as int],
                    value: U256::zero(),
                }
                &&& self.advance(EngineReply::Deployed(deployed)) matches Progress::Perform(
                    next,
                    _,
                ) && {
                    &&& next.result.traces == self.result.traces + tagged(
                        TraceKind::Deployment,
                        deployed.traces,
                    )
                    &&& next.stage == if index + 1 < self.plan.libraries.len() {
                        SetupStage::Library { index: (index + 1) as usize }
                    } else {
                        SetupStage::CallerNonce
                    }
                }
            }),
    {
    }

    /// Whatever a preparation reports, it reports the address of the
    /// contract beside the result, and neither return data nor an address
    /// nor breakpoints in it.
    pub proof fn lemma_reported(self, reply: EngineReply<P>)
        requires
            self.wf(),
        ensures
            self.advance(reply) matches Progress::Finished(Ok(reported)) ==> {
                &&& reported.0 == self.contract
                &&& reported.1.returned.len() == 0
                &&& reported.1.address is None
                &&& reported.1.breakpoints.len() == 0
            },
    {
    }

    /// The address that is credited with the initial balance, before the
    /// contract is deployed, is the one that the caller identity creates a
    /// contract at with the nonce that it has just before; the deployment
    /// from the caller identity follows at once.
    pub proof fn lemma_contract_funded(self, nonce: u64)
        requires
            self.stage is CallerNonce,
        ensures
            self.advance(EngineReply::Nonce(nonce)) matches Progress::Perform(funding, request) && {
                &&& request == EngineRequestView::<P>::SetBalance {
                    address: self.plan.caller.create(nonce),
                    amount: self.plan.initial_balance,
                }
                &&& funding.advance(EngineReply::Done) matches Progress::Perform(_, deployment)
                    && deployment == EngineRequestView::<P>::Deploy {
                    from: self.plan.caller,
                    code: self.plan.code,
                    value: U256::zero(),
                }
            },
    {
    }

    /// Where the cheatcodes did not correct the sender's nonce, the nonce is
    /// set to the supplied one and the number of libraries together, the
    /// cheatcodes' record is reset, and the preparation ends.
    pub proof fn lemma_nonce_corrected(self)
        requires
            self.stage is CorrectedNonce,
        ensures
            self.advance(EngineReply::CorrectedNonce(Some(false))) matches Progress::Perform(
                correcting,
                request,
            ) && {
                &&& request == EngineRequestView::<P>::SetNonce {
                    address: self.plan.sender,
                    nonce: (self.plan.sender_nonce + self.plan.libraries.len()) as u64,
                }
                &&& correcting.advance(EngineReply::Done) matches Progress::Perform(
                    clearing,
                    request,
                ) && {
                    &&& request == EngineRequestView::<P>::ClearCorrectedNonce
                    &&& clearing.advance(EngineReply::Done) == self.finished()
                }
            },
    {
    }

    /// The nonce that a preparation corrects to depends on the sender, the
    /// supplied nonce and the number of libraries alone: a second preparation
    /// with the same three corrects to the same nonce, whatever the first
    /// one did.
    pub proof fn lemma_nonce_correction_repeats(self, again: SetupView<P>)
        requires
            self.stage is CorrectedNonce,
            again.stage is CorrectedNonce,
            again.plan.sender == self.plan.sender,
            again.plan.sender_nonce == self.plan.sender_nonce,
            again.plan.libraries.len() == self.plan.libraries.len(),
        ensures
            self.advance(EngineReply::CorrectedNonce(Some(false))) matches Progress::Perform(
                _,
                first,
            ) && again.advance(EngineReply::CorrectedNonce(Some(false))) matches Progress::Perform(
                _,
                second,
            ) && first == second,
    {
    }

    /// Where the cheatcodes corrected the nonce themselves, their record is
    /// reset and nothing else; where the engine has no cheatcodes, nothing
    /// is done at all.
    pub proof fn lemma_nonce_left(self)
        requires
            self.stage is CorrectedNonce,
        ensures
            self.advance(EngineReply::CorrectedNonce(Some(true))) matches Progress::Perform(
                clearing,
                request,
            ) && {
                &&& request == EngineRequestView::<P>::ClearCorrectedNonce
                &&& clearing.advance(EngineReply::Done) == self.finished()
            },
            self.advance(EngineReply::CorrectedNonce(None)) == self.finished(),
    {
    }

    /// Without a setup call the preparation reports a success that used no
    /// gas, with no transactions and no labels, and with the traces of
    /// deployments alone: at most one for each library and one for the
    /// contract.
    pub proof fn lemma_setup_skipped(self)
        requires
            self.wf(),
            self.stage is TestContract,
        ensures
            self.advance(EngineReply::Done) matches Progress::Finished(Ok(reported)) && {
                &&& reported.0 == self.contract
                &&& reported.1.success
                &&& reported.1.gas_used == 0
                &&& reported.1.transactions is None
                &&& reported.1.labeled_addresses.len() == 0
                &&& reported.1.returned.len() == 0
                &&& reported.1.address is None
                &&& reported.1.debug == gathered(seq![self.constructor_debug])
                &&& reported.1.traces.len() <= self.plan.libraries.len() + 1
                &&& forall|i: int|
                    0 <= i < reported.1.traces.len() ==> (#[trigger] reported.1.traces[i]).0
                        == TraceKind::Deployment
            },
    {
    }

    /// The setup call counts the same whether the engine reports it as a
    /// call that ran to its end or as a failure that it can describe: the
    /// preparation is a success exactly if the call did not revert, and the
    /// call's trace, if there is one, is the only one of its kind and the
    /// last.
    pub proof fn lemma_setup_normalized(self, call: CallResult<P>, reason: String)
        requires
            self.wf(),
            self.stage is SetUp,
        ensures
            self.advance(EngineReply::Called(call)) == self.advance(
                EngineReply::Failed(ExecutionFailure { reason, result: call }),
            ),
            self.advance(EngineReply::Called(call)) matches Progress::Perform(next, request) && {
                &&& request == EngineRequestView::<P>::CorrectedNonce
                &&& next.contract == self.contract
                &&& next.result.success == !call.reverted
                &&& next.result.gas_used == call.gas_used
                &&& next.result.logs == self.result.logs + call.logs@
                &&& next.result.traces == self.result.traces + tagged(TraceKind::Setup, call.traces)
                &&& forall|i: int|
                    0 <= i < next.result.traces.len() && (#[trigger] next.result.traces[i]).0
                        == TraceKind::Setup ==> call.traces is Some && i == self.result.traces.len()
            },
    {
    }

    /// A library that cannot be deployed ends the preparation, and so does
    /// the contract.
    pub proof fn lemma_deployment_fatal(self, reply: EngineReply<P>)
        requires
            self.stage is Library || self.stage is Contract,
            !(reply is Deployed),
        ensures
            self.advance(reply) matches Progress::Finished(Err(_)),
    {
    }
}

/// What a preparation is asked to do.
pub struct SetupPlan {
    /// The account that the script acts for.
    pub sender: Address,
    /// The identity under which the engine itself deploys and calls.
    pub caller: Address,
    /// The sender that stands in where the user named none.
    pub default_sender: Address,
    /// The balance that the contract has when its constructor runs.
    pub initial_balance: U256,
    /// The code of the libraries, in the order of their deployment.
    pub libraries: Vec<Vec<u8>>,
    /// The code of the contract.
    pub code: Vec<u8>,
    /// Whether the contract's setup entry point is to be called.
    pub call_setup: bool,
    /// The nonce that the sender has before the libraries are deployed.
    pub sender_nonce: u64,
    /// Whether the script's transactions are to be broadcast.
    pub is_broadcast: bool,
    /// Whether the script needs the CREATE2 deployer.
    pub need_create2_deployer: bool,
}

impl View for SetupPlan {
    type V = SetupPlanView;

    open spec fn view(&self) -> SetupPlanView {
        SetupPlanView {
            sender: self.sender,
            caller: self.caller,
            default_sender: self.default_sender,
            initial_balance: self.initial_balance,
            libraries: self.libraries@.map_values(|code: Vec<u8>| code@),
            code: self.code@,
            call_setup: self.call_setup,
            sender_nonce: self.sender_nonce,
            is_broadcast: self.is_broadcast,
            need_create2_deployer: self.need_create2_deployer,
        }
    }
}

impl SetupPlan {
    fn after_sender(&self) -> (stage: SetupStage)
        ensures
            stage == self@.after_sender(),
    {
        if !self.is_broadcast && self.need_create2_deployer {
            SetupStage::Create2Deployer
        } else {
            SetupStage::SenderNonce
        }
    }

    fn first_stage(&self) -> (stage: SetupStage)
        ensures
            stage == self@.first_stage(),
    {
        if !self.is_broadcast && self.sender == self.default_sender {
            SetupStage::FundSender
        } else {
            self.after_sender()
        }
    }

    fn library_from(&self, index: usize) -> (stage: SetupStage)
        ensures
            stage == self@.library_from(index as int),
    {
        if index < self.libraries.len() {
            SetupStage::Library { index }
        } else {
            SetupStage::CallerNonce
        }
    }

    fn after_contract(&self) -> (stage: SetupStage)
        ensures
            stage == self@.after_contract(),
    {
        if self.call_setup {
            SetupStage::SetUp
        } else {
            SetupStage::TestContract
        }
    }
}

/// What a preparation carries from stage to stage.
struct Gathered<P: EngineTypes> {
    plan: SetupPlan,
    contract: Address,
    constructor_debug: Option<P::DebugData>,
    result: ScriptResult<P>,
}

impl<P: EngineTypes> Gathered<P> {
    /// The preparation that carries this at the stage `stage`.
    closed spec fn at(self, stage: SetupStage) -> SetupView<P> {
        SetupView {
            plan: self.plan@,
            stage,
            contract: self.contract,
            constructor_debug: self.constructor_debug,
            result: self.result@,
        }
    }

    fn with_deployment(self, traces: Option<P::Trace>) -> (gathered: Gathered<P>)
        ensures
            forall|stage: SetupStage| #[trigger]
                gathered.at(stage) == self.at(stage).with_deployment(traces),
    {
        let mut gathered = self;
        push_trace(&mut gathered.result.traces, TraceKind::Deployment, traces);
        gathered
    }

    fn with_constructor(
        self,
        address: Address,
        logs: Vec<P::Log>,
        traces: Option<P::Trace>,
        debug: Option<P::DebugData>,
    ) -> (gathered: Gathered<P>)
        ensures
            forall|stage: SetupStage| #[trigger]
                gathered.at(stage) == self.at(stage).with_constructor(
                    address,
                    logs@,
                    traces,
                    debug,
                ),
    {
        let mut gathered = self;
        push_trace(&mut gathered.result.traces, TraceKind::Deployment, traces);
        gathered.result.logs = logs;
        gathered.contract = address;
        gathered.constructor_debug = debug;
        gathered
    }

    fn with_setup_skipped(self) -> (gathered: Gathered<P>)
        ensures
            forall|stage: SetupStage| #[trigger]
                gathered.at(stage) == self.at(stage).with_setup_skipped(),
    {
        let Gathered { plan, contract, constructor_debug, result } = self;
        let mut result = result;
        result.debug = gather_one(constructor_debug);
        Gathered { plan, contract, constructor_debug: None, result }
    }

    fn with_setup(self, call: CallResult<P>) -> (gathered: Gathered<P>)
        ensures
            forall|stage: SetupStage| #[trigger]
                gathered.at(stage) == self.at(stage).with_setup(call),
    {
        let Gathered { plan, contract, constructor_debug, result } = self;
        let CallResult { reverted, gas_used, logs, traces, debug, labels, transactions } = call;
        let mut result = result;
        let mut logs = logs;
        result.logs.append(&mut logs);
        push_trace(&mut result.traces, TraceKind::Setup, traces);
        result.success = !reverted;
        result.gas_used = gas_used;
        result.labeled_addresses = labels;
        result.transactions = transactions;
        result.debug = gather_two(constructor_debug, debug);
        Gathered { plan, contract, constructor_debug: None, result }
    }
}

/// A preparation in progress.
pub struct SetupTask<P: EngineTypes> {
    gathered: Gathered<P>,
    stage: SetupStage,
}

impl<P: EngineTypes> View for SetupTask<P> {
    type V = SetupView<P>;

    closed spec fn view(&self) -> SetupView<P> {
        self.gathered.at(self.stage)
    }
}

impl<P: EngineTypes> SetupTask<P> {
    #[verifier::type_invariant]
    spec fn inv(self) -> bool {
        self@.wf()
    }

    /// Begins the preparation that `plan` describes, and asks for its first
    /// step.
    pub fn start(plan: SetupPlan) -> (progress: Progress<
        SetupTask<P>,
        EngineRequest<P>,
        (Address, ScriptResult<P>),
    >)
        ensures
            progress@ == SetupView::<P>::start(plan@).perform(plan@.first_stage()),
    {
        let stage = plan.first_stage();
        assert(plan@.libraries.len() == plan.libraries.len());
        let gathered = Gathered {
            plan,
            contract: Address::zero(),
            constructor_debug: None,
            result: ScriptResult {
                success: true,
                logs: Vec::new(),
                traces: Vec::new(),
                debug: None,
                gas_used: 0,
                labeled_addresses: Vec::new(),
                transactions: None,
                returned: Vec::new(),
                address: None,
                breakpoints: Vec::new(),
            },
        };
        SetupTask::perform(gathered, stage)
    }

    fn perform(gathered: Gathered<P>, stage: SetupStage) -> (progress: Progress<
        SetupTask<P>,
        EngineRequest<P>,
        (Address, ScriptResult<P>),
    >)
        requires
            gathered.at(stage).wf(),
        ensures
            progress@ == gathered.at(stage).perform(stage),
    {
        let plan = &gathered.plan;
        let request = match stage {
            SetupStage::FundSender => EngineRequest::SetBalance {
                address: plan.sender,
                amount: U256::max(),
            },
            SetupStage::Create2Deployer => EngineRequest::DeployCreate2Deployer,
            SetupStage::SenderNonce => EngineRequest::SetNonce {
                address: plan.sender,
                nonce: plan.sender_nonce,
            },
            SetupStage::FundCaller => EngineRequest::SetBalance {
                address: plan.caller,
                amount: U256::max(),
            },
            SetupStage::Library { index } => EngineRequest::Deploy {
                from: plan.sender,
                code: plan.libraries[index].clone(),
                value: U256::zero(),
            },
            SetupStage::CallerNonce => EngineRequest::Nonce { address: plan.caller },
            SetupStage::FundContract => EngineRequest::SetBalance {
                address: gathered.contract,
                amount: plan.initial_balance,
            },
            SetupStage::Contract => EngineRequest::Deploy {
                from: plan.caller,
                code: plan.code.clone(),
                value: U256::zero(),
            },
            SetupStage::TestContract => EngineRequest::SetTestContract {
                address: gathered.contract,
            },
            SetupStage::SetUp => EngineRequest::SetUp {
                sender: plan.sender,
                contract: gathered.contract,
            },
            SetupStage::CorrectedNonce => EngineRequest::CorrectedNonce,
            SetupStage::CorrectNonce => EngineRequest::SetNonce {
                address: plan.sender,
                nonce: plan.sender_nonce + plan.libraries.len() as u64,
            },
            SetupStage::ClearCorrectedNonce => EngineRequest::ClearCorrectedNonce,
        };
        Progress::Perform(SetupTask { gathered, stage }, request)
    }

    fn proceed(gathered: Gathered<P>, reply: EngineReply<P>, stage: SetupStage) -> (progress:
        Progress<SetupTask<P>, EngineRequest<P>, (Address, ScriptResult<P>)>)
        requires
            gathered.at(stage).wf(),
        ensures
            progress@ == gathered.at(stage).proceed(reply, stage),
    {
        match reply {
            EngineReply::Done => SetupTask::perform(gathered, stage),
            reply => Progress::Finished(Err(refusal(reply))),
        }
    }

    fn finished(gathered: Gathered<P>, stage: SetupStage) -> (progress: Progress<
        SetupTask<P>,
        EngineRequest<P>,
        (Address, ScriptResult<P>),
    >)
        ensures
            progress@ == gathered.at(stage).finished(),
    {
        Progress::Finished(Ok((gathered.contract, gathered.result)))
    }

    /// Sees to the sender's nonce after the setup call, which the sender
    /// made without the cheatcodes taking note. If the cheatcodes did not
    /// correct the nonce, it is set to what the deployment of the libraries
    /// left it at; their record is reset in either case. Without cheatcodes
    /// there is nothing to do.
    fn maybe_correct_nonce(gathered: Gathered<P>, corrected: Option<bool>) -> (progress: Progress<
        SetupTask<P>,
        EngineRequest<P>,
        (Address, ScriptResult<P>),
    >)
        requires
            gathered.at(SetupStage::CorrectedNonce).wf(),
            corrected == Some(false) ==> gathered.plan@.corrected_nonce() <= u64::MAX,
        ensures
            progress@ == match corrected {
                None => gathered.at(SetupStage::CorrectedNonce).finished(),
                Some(true) => gathered.at(SetupStage::CorrectedNonce).perform(
                    SetupStage::ClearCorrectedNonce,
                ),
                Some(false) => gathered.at(SetupStage::CorrectedNonce).perform(
                    SetupStage::CorrectNonce,
                ),
            },
    {
        match corrected {
            None => SetupTask::finished(gathered, SetupStage::CorrectedNonce),
            Some(true) => SetupTask::perform(gathered, SetupStage::ClearCorrectedNonce),
            Some(false) => SetupTask::perform(gathered, SetupStage::CorrectNonce),
        }
    }

    /// Whether the arithmetic that `reply` asks for stays within the machine's
    /// integers.
    pub fn admits(&self, reply: &EngineReply<P>) -> (admitted: bool)
        ensures
            admitted == self@.admits(*reply),
    {
        match (self.stage, reply) {
            (SetupStage::CorrectedNonce, EngineReply::CorrectedNonce(Some(false))) => {
                let libraries: usize = self.gathered.plan.libraries.len();
                libraries as u64 <= u64::MAX - self.gathered.plan.sender_nonce
            },
            _ => true,
        }
    }

    /// Resumes a preparation that waits for the caller identity's nonce with
    /// the address that the nonce gives: the address is credited with the
    /// initial balance before the contract is deployed to it.
    pub fn predict(self, contract: Address) -> (progress: Progress<
        SetupTask<P>,
        EngineRequest<P>,
        (Address, ScriptResult<P>),
    >)
        ensures
            progress@ == if self@.stage is CallerNonce {
                self@.with_contract(contract).perform(SetupStage::FundContract)
            } else {
                Progress::Finished(Err(ScriptError::UnexpectedReply))
            },
    {
        proof {
            use_type_invariant(&self);
        }
        let SetupTask { gathered, stage } = self;
        match stage {
            SetupStage::CallerNonce => {
                let mut gathered = gathered;
                gathered.contract = contract;
                SetupTask::perform(gathered, SetupStage::FundContract)
            },
            _ => Progress::Finished(Err(ScriptError::UnexpectedReply)),
        }
    }

    /// Resumes the preparation with the reply to its request.
    pub fn resume(self, reply: EngineReply<P>) -> (progress: Progress<
        SetupTask<P>,
        EngineRequest<P>,
        (Address, ScriptResult<P>),
    >)
        requires
            self@.admits(reply),
        ensures
            progress@ == self@.advance(reply),
    {
        proof {
            use_type_invariant(&self);
        }
        let SetupTask { gathered, stage } = self;
        match stage {
            SetupStage::FundSender => {
                let next = gathered.plan.after_sender();
                SetupTask::proceed(gathered, reply, next)
            },
            SetupStage::Create2Deployer => SetupTask::proceed(
                gathered,
                reply,
                SetupStage::SenderNonce,
            ),
            SetupStage::SenderNonce => SetupTask::proceed(gathered, reply, SetupStage::FundCaller),
            SetupStage::FundCaller => {
                let next = gathered.plan.library_from(0);
                SetupTask::proceed(gathered, reply, next)
            },
            SetupStage::Library { index } => match reply {
                EngineReply::Deployed(deployed) => {
                    let libraries: usize = gathered.plan.libraries.len();
                    assert(index < libraries);
                    let next = gathered.plan.library_from(index + 1);
                    SetupTask::perform(gathered.with_deployment(deployed.traces), next)
                },
                EngineReply::Failed(failure) => Progress::Finished(
                    Err(ScriptError::LibraryDeploy { index, detail: failure.reason }),
                ),
                EngineReply::Fatal(cause) => Progress::Finished(
                    Err(ScriptError::LibraryDeploy { index, detail: cause }),
                ),
                _ => Progress::Finished(Err(ScriptError::UnexpectedReply)),
            },
            SetupStage::CallerNonce => match reply {
                EngineReply::Nonce(nonce) => {
                    let contract = gathered.plan.caller.create(nonce);
                    SetupTask { gathered, stage }.predict(contract)
                },
                reply => Progress::Finished(Err(refusal(reply))),
            },
            SetupStage::FundContract => SetupTask::proceed(gathered, reply, SetupStage::Contract),
            SetupStage::Contract => match reply {
                EngineReply::Deployed(deployed) => {
                    let next = gathered.plan.after_contract();
                    SetupTask::perform(
                        gathered.with_constructor(
                            deployed.address,
                            deployed.logs,
                            deployed.traces,
                            deployed.debug,
                        ),
                        next,
                    )
                },
                EngineReply::Failed(failure) => Progress::Finished(
                    Err(ScriptError::ScriptDeploy(failure.reason)),
                ),
                EngineReply::Fatal(cause) => Progress::Finished(
                    Err(ScriptError::ScriptDeploy(cause)),
                ),
                _ => Progress::Finished(Err(ScriptError::UnexpectedReply)),
            },
            SetupStage::TestContract => match reply {
                EngineReply::Done => SetupTask::finished(gathered.with_setup_skipped(), stage),
                reply => Progress::Finished(Err(refusal(reply))),
            },
            SetupStage::SetUp => match reply {
                EngineReply::Called(call) => SetupTask::perform(
                    gathered.with_setup(call),
                    SetupStage::CorrectedNonce,
                ),
                EngineReply::Failed(failure) => SetupTask::perform(
                    gathered.with_setup(failure.result),
                    SetupStage::CorrectedNonce,
                ),
                reply => Progress::Finished(Err(refusal(reply))),
            },
            SetupStage::CorrectedNonce => match reply {
                EngineReply::CorrectedNonce(corrected) => SetupTask::maybe_correct_nonce(
                    gathered,
                    corrected,
                ),
                reply => Progress::Finished(Err(refusal(reply))),
            },
            SetupStage::CorrectNonce => SetupTask::proceed(
                gathered,
                reply,
                SetupStage::ClearCorrectedNonce,
            ),
            SetupStage::ClearCorrectedNonce => match reply {
                EngineReply::Done => SetupTask::finished(gathered, stage),
                reply => Progress::Finished(Err(refusal(reply))),
            },
        }
    }
}

} // verus!
