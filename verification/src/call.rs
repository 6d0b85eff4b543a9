//! One call: simulated once, and where it is to be committed, sized by the
//! gas search and then executed for good.

use crate::engine::{EngineReply, EngineRequest, EngineRequestView, EngineTypes, ExitReason};
use crate::gas::{estimate, probes, settle, GasBounds, GasSearch, Search};
use crate::primitives::{Address, U256};
use crate::result::{refusal, Progress, ScriptError, ScriptResult, ScriptResultView};
use vstd::prelude::*;

verus! {

/// Where a call stands, in mathematical form. Each stage is named after the
/// request whose reply the call waits for.
pub enum CallStageView {
    /// The first, simulated call.
    Baseline,
    /// Reading the configured gas limit, before the search for a call that
    /// consumed `baseline`.
    ReadLimit { baseline: u64 },
    /// Configuring the limit of the next probe.
    Override { bounds: GasBounds, initial_limit: u64 },
    /// The simulated call under the limit of the probe.
    Probe { bounds: GasBounds, initial_limit: u64 },
    /// Configuring the gas limit as it was before the search. `outcome` is
    /// the estimate, or the error that ended the search.
    Restore { initial_limit: u64, outcome: Result<u64, ScriptError> },
    /// The committing call, to be reported with the gas `gas_used`.
    Commit { gas_used: u64 },
}

/// A call in progress, in mathematical form.
pub struct CallView {
    pub from: Address,
    pub to: Address,
    pub calldata: Seq<u8>,
    pub value: U256,
    pub commit: bool,
    pub stage: CallStageView,
}

impl CallView {
    /// What holds of every call in progress.
    pub open spec fn wf(self) -> bool {
        match self.stage {
            CallStageView::Baseline => true,
            CallStageView::ReadLimit { baseline } => self.commit && 3 * baseline <= u64::MAX,
            CallStageView::Override { bounds, .. } => self.commit && bounds.wf(),
            CallStageView::Probe { bounds, .. } => self.commit && bounds.wf(),
            CallStageView::Restore { .. } => self.commit,
            CallStageView::Commit { .. } => self.commit,
        }
    }

    /// The call at its beginning.
    pub open spec fn start(
        from: Address,
        to: Address,
        calldata: Seq<u8>,
        value: U256,
        commit: bool,
    ) -> CallView {
        CallView { from, to, calldata, value, commit, stage: CallStageView::Baseline }
    }

    /// The call at another stage.
    pub open spec fn at(self, stage: CallStageView) -> CallView {
        CallView { stage, ..self }
    }

    /// The call itself as a request.
    pub open spec fn call<P: EngineTypes>(self, commit: bool) -> EngineRequestView<P> {
        EngineRequestView::Call {
            from: self.from,
            to: self.to,
            calldata: self.calldata,
            value: self.value,
            commit,
        }
    }

    /// The request whose reply the call waits for.
    pub open spec fn request<P: EngineTypes>(self) -> EngineRequestView<P> {
        match self.stage {
            CallStageView::Baseline => self.call(false),
            CallStageView::ReadLimit { .. } => EngineRequestView::GasLimit,
            CallStageView::Override { bounds, .. } => EngineRequestView::SetGasLimit {
                gas_limit: bounds.limit(),
            },
            CallStageView::Probe { .. } => self.call(false),
            CallStageView::Restore { initial_limit, .. } => EngineRequestView::SetGasLimit {
                gas_limit: initial_limit,
            },
            CallStageView::Commit { .. } => self.call(true),
        }
    }

    /// Whether the engine's gas limit is, at this stage, another than before
    /// the search; if so, the limit that it was.
    pub open spec fn overridden(self) -> Option<u64> {
        match self.stage {
            CallStageView::Override { initial_limit, .. } => Some(initial_limit),
            CallStageView::Probe { initial_limit, .. } => Some(initial_limit),
            _ => None,
        }
    }

    /// Whether the arithmetic that `reply` asks for stays within the machine's
    /// integers: the search begins at three times the gas of the baseline.
    pub open spec fn admits<P: EngineTypes>(self, reply: EngineReply<P>) -> bool {
        self.stage is Baseline && self.commit && reply is Raw && reply->Raw_0.exit_reason.is_ok()
            ==> 3 * reply->Raw_0.gas_used <= u64::MAX
    }

    /// The call at the stage `stage`, asking for the request of that stage.
    pub open spec fn perform<P: EngineTypes>(self, stage: CallStageView) -> Progress<
        CallView,
        EngineRequestView<P>,
        ScriptResultView<P>,
    > {
        Progress::Perform(self.at(stage), self.at(stage).request())
    }

    /// The call after a search has come as far as `search`, with the gas
    /// limit `initial_limit` to return to.
    pub open spec fn searching<P: EngineTypes>(
        self,
        search: Search<GasBounds>,
        initial_limit: u64,
    ) -> Progress<CallView, EngineRequestView<P>, ScriptResultView<P>> {
        match search {
            Search::Probing(bounds) => self.perform(
                CallStageView::Override { bounds, initial_limit },
            ),
            Search::Settled(gas_used) => self.perform(
                CallStageView::Restore { initial_limit, outcome: Ok(gas_used) },
            ),
        }
    }

    /// What the call does once the driver has answered its request with
    /// `reply`.
    pub open spec fn advance<P: EngineTypes>(self, reply: EngineReply<P>) -> Progress<
        CallView,
        EngineRequestView<P>,
        ScriptResultView<P>,
    > {
        match self.stage {
            CallStageView::Baseline => match reply {
                EngineReply::Raw(raw) => if !self.commit {
                    Progress::Finished(Ok(ScriptResultView::of_call(raw, raw.gas_used)))
                } else if raw.exit_reason.is_ok() {
                    self.perform(CallStageView::ReadLimit { baseline: raw.gas_used })
                } else {
                    self.perform(CallStageView::Commit { gas_used: raw.gas_used })
                },
                _ => Progress::Finished(Err(refusal(reply))),
            },
            CallStageView::ReadLimit { baseline } => match reply {
                EngineReply::GasLimit(initial_limit) => self.searching(
                    GasBounds::start(baseline),
                    initial_limit,
                ),
                _ => Progress::Finished(Err(refusal(reply))),
            },
            CallStageView::Override { bounds, initial_limit } => match reply {
                EngineReply::Done => self.perform(CallStageView::Probe { bounds, initial_limit }),
                _ => self.perform(
                    CallStageView::Restore {
                        initial_limit,
                        outcome: Err(refusal(reply)),
                    },
                ),
            },
            CallStageView::Probe { bounds, initial_limit } => match reply {
                EngineReply::Raw(raw) => self.searching(
                    bounds.record(!raw.exit_reason.is_starved()),
                    initial_limit,
                ),
                _ => self.perform(
                    CallStageView::Restore {
                        initial_limit,
                        outcome: Err(refusal(reply)),
                    },
                ),
            },
            CallStageView::Restore { outcome, .. } => match outcome {
                Err(error) => Progress::Finished(Err(error)),
                Ok(gas_used) => match reply {
                    EngineReply::Done => self.perform(CallStageView::Commit { gas_used }),
                    _ => Progress::Finished(Err(refusal(reply))),
                },
            },
            CallStageView::Commit { gas_used } => match reply {
                EngineReply::Raw(raw) => Progress::Finished(
                    Ok(ScriptResultView::of_call(raw, gas_used)),
                ),
                _ => Progress::Finished(Err(refusal(reply))),
            },
        }
    }
}

impl CallView {
    /// The estimate that the call is going to report, from the stage at
    /// which its baseline is known, against an engine under which the call
    /// gets through exactly under the limits that `enough` accepts.
    pub open spec fn pending(self, enough: spec_fn(u64) -> bool) -> Option<u64> {
        match self.stage {
            CallStageView::Baseline => None,
            CallStageView::ReadLimit { baseline } => Some(estimate(baseline, enough)),
            CallStageView::Override { bounds, .. } => Some(
                settle(Search::Probing(bounds), enough),
            ),
            CallStageView::Probe { bounds, .. } => Some(settle(Search::Probing(bounds), enough)),
            CallStageView::Restore { outcome, .. } => match outcome {
                Ok(gas_used) => Some(gas_used),
                Err(_) => None,
            },
            CallStageView::Commit { gas_used } => Some(gas_used),
        }
    }

    /// The number of probes that the call is going to make yet, against the
    /// same engine.
    pub open spec fn remaining(self, enough: spec_fn(u64) -> bool) -> nat {
        match self.stage {
            CallStageView::ReadLimit { baseline } => probes(GasBounds::start(baseline), enough),
            CallStageView::Override { bounds, .. } => probes(Search::Probing(bounds), enough),
            CallStageView::Probe { bounds, .. } => probes(Search::Probing(bounds), enough),
            _ => 0,
        }
    }

    /// Whether `reply` is of the kind that the stage expects, and, where it
    /// answers a probe, tells what `enough` tells of the probe's limit.
    pub open spec fn answered<P: EngineTypes>(
        self,
        reply: EngineReply<P>,
        enough: spec_fn(u64) -> bool,
    ) -> bool {
        match self.stage {
            CallStageView::Baseline => reply is Raw,
            CallStageView::ReadLimit { .. } => reply is GasLimit,
            CallStageView::Override { .. } => reply is Done,
            CallStageView::Probe { bounds, .. } => reply is Raw && enough(bounds.limit())
                == !reply->Raw_0.exit_reason.is_starved(),
            CallStageView::Restore { .. } => reply is Done,
            CallStageView::Commit { .. } => reply is Raw,
        }
    }

    /// A call in progress stays what it was, but for its stage; every
    /// request that it makes is the one of its stage.
    pub proof fn lemma_advance_wf<P: EngineTypes>(self, reply: EngineReply<P>)
        requires
            self.wf(),
            self.admits(reply),
        ensures
            self.advance(reply) matches Progress::Perform(next, request) ==> {
                &&& next.wf()
                &&& next == self.at(next.stage)
                &&& request == next.request::<P>()
            },
    {
    }

    /// A call that is not to be committed changes nothing that the engine
    /// keeps between calls: it asks once, for a simulation, and ends with
    /// the reply, whatever it is.
    pub proof fn lemma_simulation_reads_only<P: EngineTypes>(self, reply: EngineReply<P>)
        requires
            self.wf(),
            !self.commit,
        ensures
            self.stage is Baseline,
            !self.request::<P>().mutates(),
            self.request::<P>() == self.call::<P>(false),
            self.advance(reply) is Finished,
            reply matches EngineReply::Raw(raw) ==> self.advance(reply) == Progress::<
                CallView,
                EngineRequestView<P>,
                ScriptResultView<P>,
            >::Finished(Ok(ScriptResultView::of_call(raw, raw.gas_used))),
    {
    }

    /// While the engine's gas limit is another than before the search, the
    /// call does not end, whatever the reply: it goes on with the search, or
    /// asks for the limit that was configured before.
    pub proof fn lemma_limit_restored<P: EngineTypes>(self, reply: EngineReply<P>)
        requires
            self.wf(),
            self.overridden() is Some,
        ensures
            self.advance(reply) matches Progress::Perform(next, request) && (next.overridden()
                == self.overridden() || (next.stage is Restore && request
                == EngineRequestView::<P>::SetGasLimit { gas_limit: self.overridden()->0 })),
    {
    }

    /// The gas limit is changed after it was read, and not before: the limit
    /// that the call returns to is the one that the engine reported.
    pub proof fn lemma_limit_read<P: EngineTypes>(self, limit: u64)
        requires
            self.wf(),
            self.stage is ReadLimit,
        ensures
            self.advance(EngineReply::<P>::GasLimit(limit)) matches Progress::Perform(next, request)
                && (next.overridden() == Some(limit) || (next.stage is Restore && request
                == EngineRequestView::<P>::SetGasLimit { gas_limit: limit })),
    {
    }

    /// The search begins with the baseline of a call that got through: from
    /// then on the call is going to report the estimate for that baseline. A
    /// call that did not get through is committed and reported with the gas
    /// that it consumed.
    pub proof fn lemma_estimate_begun<P: EngineTypes>(
        self,
        reply: EngineReply<P>,
        enough: spec_fn(u64) -> bool,
    )
        requires
            self.wf(),
            self.commit,
            self.stage is Baseline,
            reply is Raw,
        ensures
            self.advance(reply) matches Progress::Perform(next, _) && next.pending(enough) == Some(
                if reply->Raw_0.exit_reason.is_ok() {
                    estimate(reply->Raw_0.gas_used, enough)
                } else {
                    reply->Raw_0.gas_used
                },
            ),
    {
    }

    /// Once the baseline is known, every step leaves the estimate that the
    /// call is going to report as it is, and every probe is one probe less
    /// to make; the result of the committing call carries that estimate as
    /// the gas used.
    pub proof fn lemma_estimate_kept<P: EngineTypes>(
        self,
        reply: EngineReply<P>,
        enough: spec_fn(u64) -> bool,
    )
        requires
            self.wf(),
            self.pending(enough) is Some,
            self.answered(reply, enough),
        ensures
            match self.advance(reply) {
                Progress::Perform(next, _) => {
                    &&& next.pending(enough) == self.pending(enough)
                    &&& next.remaining(enough) + (if self.stage is Probe {
                        1nat
                    } else {
                        0nat
                    }) == self.remaining(enough)
                },
                Progress::Finished(Ok(result)) => {
                    &&& self.stage is Commit
                    &&& Some(result.gas_used) == self.pending(enough)
                },
                Progress::Finished(Err(_)) => false,
            },
    {
        reveal_with_fuel(settle, 2);
        reveal_with_fuel(probes, 2);
    }
}

enum CallStage {
    Baseline,
    ReadLimit { baseline: u64 },
    Override { search: GasSearch, initial_limit: u64 },
    Probe { search: GasSearch, initial_limit: u64 },
    Restore { initial_limit: u64, outcome: Result<u64, ScriptError> },
    Commit { gas_used: u64 },
}

impl View for CallStage {
    type V = CallStageView;

    closed spec fn view(&self) -> CallStageView {
        match *self {
            CallStage::Baseline => CallStageView::Baseline,
            CallStage::ReadLimit { baseline } => CallStageView::ReadLimit { baseline },
            CallStage::Override { search, initial_limit } => CallStageView::Override {
                bounds: search@,
                initial_limit,
            },
            CallStage::Probe { search, initial_limit } => CallStageView::Probe {
                bounds: search@,
                initial_limit,
            },
            CallStage::Restore { initial_limit, outcome } => CallStageView::Restore {
                initial_limit,
                outcome,
            },
            CallStage::Commit { gas_used } => CallStageView::Commit { gas_used },
        }
    }
}

/// What is called, and how.
struct CallSite {
    from: Address,
    to: Address,
    calldata: Vec<u8>,
    value: U256,
    commit: bool,
}

impl CallSite {
    /// The call of this site at the stage `stage`.
    closed spec fn at(self, stage: CallStageView) -> CallView {
        CallView {
            from: self.from,
            to: self.to,
            calldata: self.calldata@,
            value: self.value,
            commit: self.commit,
            stage,
        }
    }

    fn call<P: EngineTypes>(&self, commit: bool) -> (request: EngineRequest<P>)
        ensures
            request@ == self.at(CallStageView::Baseline).call::<P>(commit),
    {
        EngineRequest::Call {
            from: self.from,
            to: self.to,
            calldata: self.calldata.clone(),
            value: self.value,
            commit,
        }
    }
}

/// A call in progress.
pub struct CallTask {
    site: CallSite,
    stage: CallStage,
}

impl View for CallTask {
    type V = CallView;

    closed spec fn view(&self) -> CallView {
        self.site.at(self.stage@)
    }
}

impl CallTask {
    #[verifier::type_invariant]
    spec fn inv(self) -> bool {
        self@.wf()
    }

    /// Begins a call, and asks for its simulation.
    pub fn start<P: EngineTypes>(
        from: Address,
        to: Address,
        calldata: Vec<u8>,
        value: U256,
        commit: bool,
    ) -> (progress: Progress<CallTask, EngineRequest<P>, ScriptResult<P>>)
        ensures
            progress@ == CallView::start(from, to, calldata@, value, commit).perform::<P>(
                CallStageView::Baseline,
            ),
    {
        let site = CallSite { from, to, calldata, value, commit };
        CallTask::perform(site, CallStage::Baseline)
    }

    fn perform<P: EngineTypes>(site: CallSite, stage: CallStage) -> (progress: Progress<
        CallTask,
        EngineRequest<P>,
        ScriptResult<P>,
    >)
        requires
            site.at(stage@).wf(),
        ensures
            progress@ == site.at(stage@).perform::<P>(stage@),
    {
        let request = match &stage {
            CallStage::Baseline => site.call(false),
            CallStage::ReadLimit { .. } => EngineRequest::GasLimit,
            CallStage::Override { search, .. } => EngineRequest::SetGasLimit {
                gas_limit: search.limit(),
            },
            CallStage::Probe { .. } => site.call(false),
            CallStage::Restore { initial_limit, .. } => EngineRequest::SetGasLimit {
                gas_limit: *initial_limit,
            },
            CallStage::Commit { .. } => site.call(true),
        };
        Progress::Perform(CallTask { site, stage }, request)
    }

    fn searching<P: EngineTypes>(
        site: CallSite,
        search: Search<GasSearch>,
        initial_limit: u64,
    ) -> (progress: Progress<CallTask, EngineRequest<P>, ScriptResult<P>>)
        requires
            site.commit,
            search@ matches Search::Probing(bounds) ==> bounds.wf(),
        ensures
            progress@ == site.at(CallStageView::Baseline).searching::<P>(search@, initial_limit),
    {
        match search {
            Search::Probing(search) => CallTask::perform(
                site,
                CallStage::Override { search, initial_limit },
            ),
            Search::Settled(gas_used) => CallTask::perform(
                site,
                CallStage::Restore { initial_limit, outcome: Ok(gas_used) },
            ),
        }
    }

    /// Sizes a call that is to be committed and that consumed `gas_used` in
    /// its simulation. The gas limit that suffices is searched for if the
    /// simulation ended well, and the engine's limit is read first, to be
    /// returned to after the search; a call that did not end well is
    /// committed as it is.
    fn search_optimal_gas_usage<P: EngineTypes>(
        site: CallSite,
        exit_reason: ExitReason,
        gas_used: u64,
    ) -> (progress: Progress<CallTask, EngineRequest<P>, ScriptResult<P>>)
        requires
            site.commit,
            exit_reason.is_ok() ==> 3 * gas_used <= u64::MAX,
        ensures
            progress@ == site.at(CallStageView::Baseline).perform::<P>(
                if exit_reason.is_ok() {
                    CallStageView::ReadLimit { baseline: gas_used }
                } else {
                    CallStageView::Commit { gas_used }
                },
            ),
    {
        if exit_reason.is_ok() {
            CallTask::perform(site, CallStage::ReadLimit { baseline: gas_used })
        } else {
            CallTask::perform(site, CallStage::Commit { gas_used })
        }
    }

    /// Whether the arithmetic that `reply` asks for stays within the machine's
    /// integers.
    pub fn admits<P: EngineTypes>(&self, reply: &EngineReply<P>) -> (admitted: bool)
        ensures
            admitted == self@.admits(*reply),
    {
        match (&self.stage, reply) {
            (CallStage::Baseline, EngineReply::Raw(raw)) => !(self.site.commit
                && raw.exit_reason.is_ok()) || raw.gas_used <= u64::MAX / 3,
            _ => true,
        }
    }

    /// Resumes the call with the reply to its request.
    pub fn resume<P: EngineTypes>(self, reply: EngineReply<P>) -> (progress: Progress<
        CallTask,
        EngineRequest<P>,
        ScriptResult<P>,
    >)
        requires
            self@.admits(reply),
        ensures
            progress@ == self@.advance(reply),
    {
        proof {
            use_type_invariant(&self);
        }
        let CallTask { site, stage } = self;
        match stage {
            CallStage::Baseline => match reply {
                EngineReply::Raw(raw) => {
                    let gas_used = raw.gas_used;
                    if site.commit {
                        CallTask::search_optimal_gas_usage(site, raw.exit_reason, gas_used)
                    } else {
                        Progress::Finished(Ok(ScriptResult::of_call(raw, gas_used)))
                    }
                },
                reply => Progress::Finished(Err(refusal(reply))),
            },
            CallStage::ReadLimit { baseline } => match reply {
                EngineReply::GasLimit(initial_limit) => {
                    let search = GasSearch::start(baseline);
                    CallTask::searching(site, search, initial_limit)
                },
                reply => Progress::Finished(Err(refusal(reply))),
            },
            CallStage::Override { search, initial_limit } => match reply {
                EngineReply::Done => CallTask::perform(
                    site,
                    CallStage::Probe { search, initial_limit },
                ),
                reply => {
                    let outcome = Err(refusal(reply));
                    CallTask::perform(site, CallStage::Restore { initial_limit, outcome })
                },
            },
            CallStage::Probe { search, initial_limit } => match reply {
                EngineReply::Raw(raw) => {
                    let search = search.record(!raw.exit_reason.is_starved());
                    CallTask::searching(site, search, initial_limit)
                },
                reply => {
                    let outcome = Err(refusal(reply));
                    CallTask::perform(site, CallStage::Restore { initial_limit, outcome })
                },
            },
            CallStage::Restore { initial_limit, outcome } => match outcome {
                Err(error) => Progress::Finished(Err(error)),
                Ok(gas_used) => match reply {
                    EngineReply::Done => CallTask::perform(site, CallStage::Commit { gas_used }),
                    reply => Progress::Finished(Err(refusal(reply))),
                },
            },
            CallStage::Commit { gas_used } => match reply {
                EngineReply::Raw(raw) => Progress::Finished(
                    Ok(ScriptResult::of_call(raw, gas_used)),
                ),
                reply => Progress::Finished(Err(refusal(reply))),
            },
        }
    }
}

} // verus!
