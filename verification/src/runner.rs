//! The entry points of a script session.
//!
//! A session prepares the script's contract, runs the script to collect the
//! transactions that it would broadcast, and replays those transactions one
//! by one. The runner decides what is asked of the engine and in what order,
//! and gathers what the engine reports. It does not hold the engine: each
//! entry point hands out a task with its first request, and whoever holds
//! the engine performs the requests one by one and resumes the task with
//! each reply.

use crate::call::{CallStageView, CallTask, CallView};
use crate::engine::{EngineRequest, EngineTypes};
use crate::primitives::{Address, U256};
use crate::result::{items, Progress, ScriptResult};
use crate::setup::{SetupPlan, SetupPlanView, SetupTask, SetupView};
use crate::simulate::{SimulateTask, SimulateView};
use vstd::prelude::*;

verus! {

/// The part of a session that a simulation belongs to: the local run of the
/// script, or the replay of its transactions as they go on chain.
#[derive(Clone, Copy, Debug, PartialEq, Eq, Structural)]
pub enum SimulationStage {
    Local,
    OnChain,
}

/// The accounts that the engine itself gives a meaning to.
#[derive(Clone, Copy, Debug)]
pub struct EngineIdentities {
    /// The identity under which the engine deploys and calls.
    pub caller: Address,
    /// The sender that stands in where the user named none.
    pub default_sender: Address,
}

/// What a session knows from its start: the engine's identities, the
/// balance that the script's contract begins with, and the account that the
/// script acts for.
#[derive(Clone, Copy, Debug)]
pub struct ScriptRunner {
    pub engine: EngineIdentities,
    pub initial_balance: U256,
    pub sender: Address,
}

impl ScriptRunner {
    /// A session for `sender` on an engine with the identities `engine`.
    pub fn new(engine: EngineIdentities, initial_balance: U256, sender: Address) -> (runner: Self)
        ensures
            runner.engine == engine,
            runner.initial_balance == initial_balance,
            runner.sender == sender,
    {
        Self { engine, initial_balance, sender }
    }

    /// What a preparation with the given arguments is asked to do.
    pub open spec fn plan(
        self,
        libraries: Seq<Seq<u8>>,
        code: Seq<u8>,
        setup: bool,
        sender_nonce: u64,
        is_broadcast: bool,
        need_create2_deployer: bool,
    ) -> SetupPlanView {
        SetupPlanView {
            sender: self.sender,
            caller: self.engine.caller,
            default_sender: self.engine.default_sender,
            initial_balance: self.initial_balance,
            libraries,
            code,
            call_setup: setup,
            sender_nonce,
            is_broadcast,
            need_create2_deployer,
        }
    }

    /// Begins the preparation of the script: the accounts are provisioned,
    /// the libraries are deployed from the sender and the contract from the
    /// engine's caller identity, and with `setup` the contract's setup entry
    /// point is called.
    pub fn setup<P: EngineTypes>(
        &self,
        libraries: Vec<Vec<u8>>,
        code: Vec<u8>,
        setup: bool,
        sender_nonce: u64,
        is_broadcast: bool,
        need_create2_deployer: bool,
    ) -> (progress: Progress<SetupTask<P>, EngineRequest<P>, (Address, ScriptResult<P>)>)
        ensures
            ({
                let plan = self.plan(
                    libraries@.map_values(|code: Vec<u8>| code@),
                    code@,
                    setup,
                    sender_nonce,
                    is_broadcast,
                    need_create2_deployer,
                );
                progress@ == SetupView::<P>::start(plan).perform(plan.first_stage())
            }),
    {
        SetupTask::start(
            SetupPlan {
                sender: self.sender,
                caller: self.engine.caller,
                default_sender: self.engine.default_sender,
                initial_balance: self.initial_balance,
                libraries,
                code,
                call_setup: setup,
                sender_nonce,
                is_broadcast,
                need_create2_deployer,
            },
        )
    }

    /// Begins the run of the script itself: a call of `address` from the
    /// sender, without value, that is simulated and not committed.
    pub fn script<P: EngineTypes>(&self, address: Address, calldata: Vec<u8>) -> (progress:
        Progress<CallTask, EngineRequest<P>, ScriptResult<P>>)
        ensures
            progress@ == CallView::start(
                self.sender,
                address,
                calldata@,
                U256::zero(),
                false,
            ).perform::<P>(CallStageView::Baseline),
    {
        self.call(self.sender, address, calldata, U256::zero(), false)
    }

    /// Begins the replay of one transaction that the script recorded: a call
    /// that is committed where `to` names an address, the creation of a
    /// contract from `calldata` where it names none.
    pub fn simulate<P: EngineTypes>(
        &self,
        from: Address,
        to: Option<Address>,
        calldata: Option<Vec<u8>>,
        value: Option<U256>,
        vm: (bool, Option<P::VmTransaction>),
    ) -> (progress: Progress<SimulateTask<P>, EngineRequest<P>, ScriptResult<P>>)
        ensures
            progress@ == SimulateView::<P>::start(from, to, items(calldata), value, vm),
    {
        SimulateTask::start(from, to, calldata, value, vm)
    }

    /// Begins a call. With `commit` the call is sized by the gas search and
    /// then executed for good, and its result carries the estimate in place
    /// of the gas that the call consumed, so that it can be declared as the
    /// transaction's gas limit; without, the call is simulated once.
    pub fn call<P: EngineTypes>(
        &self,
        from: Address,
        to: Address,
        calldata: Vec<u8>,
        value: U256,
        commit: bool,
    ) -> (progress: Progress<CallTask, EngineRequest<P>, ScriptResult<P>>)
        ensures
            progress@ == CallView::start(from, to, calldata@, value, commit).perform::<P>(
                CallStageView::Baseline,
            ),
    {
        CallTask::start(from, to, calldata, value, commit)
    }
}

} // verus!
