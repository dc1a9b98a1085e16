//! The deployment coordinator. It resolves a reference, submits a build,
//! polls it through two periodic jobs until it is terminal, and promotes it
//! or reports why not. It performs no I/O itself: each call hands it the
//! result of the last action it asked for and returns the next action.

use crate::lifecycle::{
    after_fetch,
    fetch_view,
    initial_shared,
    is_terminal,
    terminal,
    BuildRecord,
    BuildRecordView,
    BuildStatus,
    SharedDeploymentState,
    SharedStateView,
};
use crate::scheduler::{
    after_tick,
    due_among,
    JobView,
    Scheduler,
    SchedulerView,
    TICK_MILLIS,
};
use crate::text::{
    archive_url,
    build_failed_response,
    build_failed_text,
    build_response,
    build_started_text,
    commit_info_url,
    commit_url,
    final_status_unknown_response,
    final_status_unknown_text,
    pending_response,
    promotion_failed_response,
    promotion_failed_text,
    released_response,
    released_text,
    resolution_failed_response,
    resolution_failed_text,
    source_url,
    still_pending_text,
    submission_failed_response,
    submission_failed_text,
};
use vstd::prelude::*;

verus! {

/// The context a periodic job is registered with: what it does when it fires.
#[derive(PartialEq, Eq, Structural, Clone, Copy, Debug)]
pub enum JobKind {
    StatusRefresh,
    ProgressReport,
}

/// What the coordinator is waiting for.
#[derive(PartialEq, Eq, Structural, Clone, Copy, Debug)]
pub enum Phase {
    Resolving,
    Submitting,
    Announcing,
    Waiting,
    Refreshing,
    Reporting,
    Finalizing,
    Promoting,
    Finished,
}

/// How a deployment ended.
#[derive(Debug)]
pub enum DeploymentOutcome {
    Deployed { sha: String },
    ResolutionError { reason: String },
    SubmissionError { reason: String },
    FinalStatusError { build_id: String, reason: String },
    BuildFailed { build_id: String, status: BuildStatus },
    PromotionError { build_id: String, reason: String },
}

pub enum OutcomeView {
    Deployed { sha: Seq<char> },
    ResolutionError { reason: Seq<char> },
    SubmissionError { reason: Seq<char> },
    FinalStatusError { build_id: Seq<char>, reason: Seq<char> },
    BuildFailed { build_id: Seq<char>, status: BuildStatus },
    PromotionError { build_id: Seq<char>, reason: Seq<char> },
}

impl View for DeploymentOutcome {
    type V = OutcomeView;

    open spec fn view(&self) -> OutcomeView {
        match self {
            DeploymentOutcome::Deployed { sha } => OutcomeView::Deployed { sha: sha@ },
            DeploymentOutcome::ResolutionError { reason } => OutcomeView::ResolutionError {
                reason: reason@,
            },
            DeploymentOutcome::SubmissionError { reason } => OutcomeView::SubmissionError {
                reason: reason@,
            },
            DeploymentOutcome::FinalStatusError { build_id, reason } =>
                OutcomeView::FinalStatusError { build_id: build_id@, reason: reason@ },
            DeploymentOutcome::BuildFailed { build_id, status } => OutcomeView::BuildFailed {
                build_id: build_id@,
                status: *status,
            },
            DeploymentOutcome::PromotionError { build_id, reason } =>
                OutcomeView::PromotionError { build_id: build_id@, reason: reason@ },
        }
    }
}

/// The notice that reports an outcome to the operator.
pub open spec fn outcome_text(app: Seq<char>, git_ref: Seq<char>, o: OutcomeView) -> Seq<char> {
    match o {
        OutcomeView::Deployed { sha } => released_text(app, sha),
        OutcomeView::ResolutionError { reason } => resolution_failed_text(app, git_ref, reason),
        OutcomeView::SubmissionError { reason } => submission_failed_text(app, reason),
        OutcomeView::FinalStatusError { build_id, reason } => final_status_unknown_text(
            app,
            build_id,
            reason,
        ),
        OutcomeView::BuildFailed { build_id, status } => build_failed_text(app, build_id),
        OutcomeView::PromotionError { build_id, reason } => promotion_failed_text(
            app,
            build_id,
            reason,
        ),
    }
}

impl DeploymentOutcome {
    pub fn is_deployed(&self) -> (r: bool)
        ensures
            r == (self@ is Deployed),
    {
        matches!(self, DeploymentOutcome::Deployed { .. })
    }

    pub fn duplicate(&self) -> (r: DeploymentOutcome)
        ensures
            r@ == self@,
    {
        match self {
            DeploymentOutcome::Deployed { sha } => DeploymentOutcome::Deployed { sha: sha.clone() },
            DeploymentOutcome::ResolutionError { reason } => DeploymentOutcome::ResolutionError {
                reason: reason.clone(),
            },
            DeploymentOutcome::SubmissionError { reason } => DeploymentOutcome::SubmissionError {
                reason: reason.clone(),
            },
            DeploymentOutcome::FinalStatusError { build_id, reason } =>
                DeploymentOutcome::FinalStatusError {
                build_id: build_id.clone(),
                reason: reason.clone(),
            },
            DeploymentOutcome::BuildFailed { build_id, status } => DeploymentOutcome::BuildFailed {
                build_id: build_id.clone(),
                status: *status,
            },
            DeploymentOutcome::PromotionError { build_id, reason } =>
                DeploymentOutcome::PromotionError {
                build_id: build_id.clone(),
                reason: reason.clone(),
            },
        }
    }

    /// The notice for this outcome of deploying `git_ref` to `app_name`.
    pub fn message(&self, app_name: &str, git_ref: &str) -> (r: String)
        ensures
            r@ == outcome_text(app_name@, git_ref@, self@),
    {
        match self {
            DeploymentOutcome::Deployed { sha } => released_response(app_name, sha.as_str()),
            DeploymentOutcome::ResolutionError { reason } => resolution_failed_response(
                app_name,
                git_ref,
                reason.as_str(),
            ),
            DeploymentOutcome::SubmissionError { reason } => submission_failed_response(
                app_name,
                reason.as_str(),
            ),
            DeploymentOutcome::FinalStatusError { build_id, reason } =>
                final_status_unknown_response(app_name, build_id.as_str(), reason.as_str()),
            DeploymentOutcome::BuildFailed { build_id, status } => build_failed_response(
                app_name,
                build_id.as_str(),
            ),
            DeploymentOutcome::PromotionError { build_id, reason } => promotion_failed_response(
                app_name,
                build_id.as_str(),
                reason.as_str(),
            ),
        }
    }
}

/// The result of the action the coordinator last asked for.
pub enum Event {
    /// The commit lookup gave a commit id, or failed.
    CommitResolved(Result<String, String>),
    /// The build submission gave the new build, or failed.
    BuildSubmitted(Result<BuildRecord, String>),
    /// A notice was handed to the chat platform (delivered or not).
    Notified,
    /// One drive interval has passed.
    Slept,
    /// The status job's fetch gave the build, or failed.
    BuildFetched(Result<BuildRecord, String>),
    /// The fetch after polling gave the build, or failed.
    FinalBuildFetched(Result<BuildRecord, String>),
    /// The release was created, or not.
    ReleaseCreated(Result<(), String>),
}

pub enum EventView {
    CommitResolved(Result<Seq<char>, Seq<char>>),
    BuildSubmitted(Result<BuildRecordView, Seq<char>>),
    Notified,
    Slept,
    BuildFetched(Result<BuildRecordView, Seq<char>>),
    FinalBuildFetched(Result<BuildRecordView, Seq<char>>),
    ReleaseCreated(Result<(), Seq<char>>),
}

impl View for Event {
    type V = EventView;

    open spec fn view(&self) -> EventView {
        match self {
            Event::CommitResolved(r) => EventView::CommitResolved(
                match r {
                    Ok(sha) => Ok(sha@),
                    Err(e) => Err(e@),
                },
            ),
            Event::BuildSubmitted(r) => EventView::BuildSubmitted(fetch_view(*r)),
            Event::Notified => EventView::Notified,
            Event::Slept => EventView::Slept,
            Event::BuildFetched(r) => EventView::BuildFetched(fetch_view(*r)),
            Event::FinalBuildFetched(r) => EventView::FinalBuildFetched(fetch_view(*r)),
            Event::ReleaseCreated(r) => EventView::ReleaseCreated(
                match r {
                    Ok(u) => Ok(()),
                    Err(e) => Err(e@),
                },
            ),
        }
    }
}

/// What the coordinator asks its driver to do next.
#[derive(Debug)]
pub enum Action {
    /// Look up the commit that the reference names, at this address.
    LookupCommit { url: String },
    /// Submit a build of this source archive.
    SubmitBuild { app_id: String, source_url: String, version: String },
    /// Send this notice to the operator; a failed delivery is only logged.
    Notify { message: String },
    /// Wait this long, then report `Slept`.
    Sleep { millis: u64 },
    /// Fetch the build's current record for the status job.
    FetchBuild { app_id: String, build_id: String },
    /// Fetch the build's record once polling is over.
    FetchFinalBuild { app_id: String, build_id: String },
    /// Make this slug the live release of the app.
    CreateRelease { app_id: String, slug_id: String, description: String },
    /// The deployment is over; report this notice.
    Finish { outcome: DeploymentOutcome, message: String },
}

pub enum ActionView {
    LookupCommit { url: Seq<char> },
    SubmitBuild { app_id: Seq<char>, source_url: Seq<char>, version: Seq<char> },
    Notify { message: Seq<char> },
    Sleep { millis: u64 },
    FetchBuild { app_id: Seq<char>, build_id: Seq<char> },
    FetchFinalBuild { app_id: Seq<char>, build_id: Seq<char> },
    CreateRelease { app_id: Seq<char>, slug_id: Seq<char>, description: Seq<char> },
    Finish { outcome: OutcomeView, message: Seq<char> },
}

impl View for Action {
    type V = ActionView;

    open spec fn view(&self) -> ActionView {
        match self {
            Action::LookupCommit { url } => ActionView::LookupCommit { url: url@ },
            Action::SubmitBuild { app_id, source_url, version } => ActionView::SubmitBuild {
                app_id: app_id@,
                source_url: source_url@,
                version: version@,
            },
            Action::Notify { message } => ActionView::Notify { message: message@ },
            Action::Sleep { millis } => ActionView::Sleep { millis: *millis },
            Action::FetchBuild { app_id, build_id } => ActionView::FetchBuild {
                app_id: app_id@,
                build_id: build_id@,
            },
            Action::FetchFinalBuild { app_id, build_id } => ActionView::FetchFinalBuild {
                app_id: app_id@,
                build_id: build_id@,
            },
            Action::CreateRelease { app_id, slug_id, description } => ActionView::CreateRelease {
                app_id: app_id@,
                slug_id: slug_id@,
                description: description@,
            },
            Action::Finish { outcome, message } => ActionView::Finish {
                outcome: outcome@,
                message: message@,
            },
        }
    }
}

#[verifier::ext_equal]
pub struct CoordinatorView {
    pub phase: Phase,
    pub app_id: Seq<char>,
    pub org: Seq<char>,
    pub repo: Seq<char>,
    pub git_ref: Seq<char>,
    pub check_interval: nat,
    pub display_interval: nat,
    /// The resolved commit id, once there is one.
    pub sha: Seq<char>,
    pub shared: SharedStateView,
    pub scheduler: SchedulerView,
    /// What the job in each scheduler slot does.
    pub kinds: Seq<JobKind>,
    /// The slots due at the current tick that have not run yet.
    pub pending: Seq<usize>,
    /// Set once the status job has seen a terminal status.
    pub stop: bool,
    pub slug_id: Seq<char>,
    pub outcome: Option<OutcomeView>,
}

pub open spec fn finish(s: CoordinatorView, o: OutcomeView) -> CoordinatorView {
    CoordinatorView { phase: Phase::Finished, outcome: Some(o), ..s }
}

/// The two jobs of a deployment, registered on a fresh scheduler.
pub open spec fn deployment_jobs(check_interval: nat, display_interval: nat) -> SchedulerView {
    SchedulerView {
        jobs: seq![
            JobView { name: "build status"@, interval: check_interval, registered_at: 0, fired: 0 },
            JobView {
                name: "build progress"@,
                interval: display_interval,
                registered_at: 0,
                fired: 0,
            },
        ],
        ticks: 0,
    }
}

/// The state once a build has been submitted: polling is set up and the
/// build id is about to be announced.
pub open spec fn start_polling(s: CoordinatorView, record: BuildRecordView) -> CoordinatorView {
    CoordinatorView {
        phase: Phase::Announcing,
        shared: initial_shared(record),
        scheduler: deployment_jobs(s.check_interval, s.display_interval),
        kinds: seq![JobKind::StatusRefresh, JobKind::ProgressReport],
        pending: Seq::empty(),
        stop: false,
        ..s
    }
}

/// Runs the due jobs in order until one needs outside work: the status job
/// always does, the progress job only while the build is pending. With no
/// job left, polling ends if the stop signal is set, else the driver waits.
pub open spec fn run_due(s: CoordinatorView) -> CoordinatorView
    decreases s.pending.len(),
{
    if s.pending.len() == 0 {
        CoordinatorView { phase: if s.stop { Phase::Finalizing } else { Phase::Waiting }, ..s }
    } else {
        let rest = CoordinatorView { pending: s.pending.drop_first(), ..s };
        if s.kinds[s.pending[0] as int] == JobKind::StatusRefresh {
            CoordinatorView { phase: Phase::Refreshing, ..rest }
        } else if s.shared.status == BuildStatus::Pending {
            CoordinatorView { phase: Phase::Reporting, ..rest }
        } else {
            run_due(rest)
        }
    }
}

/// One tick of the scheduler, then its due jobs.
pub open spec fn after_sleep(s: CoordinatorView) -> CoordinatorView {
    if s.scheduler.ticks < u64::MAX {
        let next = after_tick(s.scheduler);
        run_due(
            CoordinatorView {
                scheduler: next,
                pending: due_among(next.jobs, next.ticks, next.jobs.len()),
                ..s
            },
        )
    } else {
        run_due(CoordinatorView { pending: Seq::empty(), ..s })
    }
}

/// The status job's fetch is applied; a terminal status sets the stop signal.
pub open spec fn after_status_fetch(s: CoordinatorView, r: Result<BuildRecordView, Seq<char>>) -> CoordinatorView {
    let shared = after_fetch(s.shared, r);
    run_due(CoordinatorView { shared: shared, stop: s.stop || terminal(shared.status), ..s })
}

/// Promotion goes ahead only for a build whose final record says it
/// succeeded and names its slug.
pub open spec fn after_final_fetch(s: CoordinatorView, r: Result<BuildRecordView, Seq<char>>) -> CoordinatorView {
    match r {
        Err(reason) => finish(
            s,
            OutcomeView::FinalStatusError { build_id: s.shared.build_id, reason: reason },
        ),
        Ok(record) => if record.status != BuildStatus::Succeeded {
            finish(s, OutcomeView::BuildFailed { build_id: s.shared.build_id, status: record.status })
        } else {
            match record.slug_id {
                Some(slug) => CoordinatorView { phase: Phase::Promoting, slug_id: slug, ..s },
                None => finish(
                    s,
                    OutcomeView::PromotionError {
                        build_id: s.shared.build_id,
                        reason: "the build has no slug"@,
                    },
                ),
            }
        },
    }
}

/// The coordinator's transition on an event. An event that does not answer
/// the pending action leaves the state as it is.
pub open spec fn step(s: CoordinatorView, e: EventView) -> CoordinatorView {
    match e {
        EventView::CommitResolved(r) => if s.phase == Phase::Resolving {
            match r {
                Ok(sha) => CoordinatorView { phase: Phase::Submitting, sha: sha, ..s },
                Err(reason) => finish(s, OutcomeView::ResolutionError { reason: reason }),
            }
        } else {
            s
        },
        EventView::BuildSubmitted(r) => if s.phase == Phase::Submitting {
            match r {
                Ok(record) => start_polling(s, record),
                Err(reason) => finish(s, OutcomeView::SubmissionError { reason: reason }),
            }
        } else {
            s
        },
        EventView::Notified => if s.phase == Phase::Announcing {
            CoordinatorView { phase: Phase::Waiting, ..s }
        } else if s.phase == Phase::Reporting {
            run_due(s)
        } else {
            s
        },
        EventView::Slept => if s.phase == Phase::Waiting {
            after_sleep(s)
        } else {
            s
        },
        EventView::BuildFetched(r) => if s.phase == Phase::Refreshing {
            after_status_fetch(s, r)
        } else {
            s
        },
        EventView::FinalBuildFetched(r) => if s.phase == Phase::Finalizing {
            after_final_fetch(s, r)
        } else {
            s
        },
        EventView::ReleaseCreated(r) => if s.phase == Phase::Promoting {
            match r {
                Ok(u) => finish(s, OutcomeView::Deployed { sha: s.sha }),
                Err(reason) => finish(
                    s,
                    OutcomeView::PromotionError { build_id: s.shared.build_id, reason: reason },
                ),
            }
        } else {
            s
        },
    }
}

/// The action that the state is waiting on.
pub open spec fn expected_action(s: CoordinatorView) -> ActionView {
    match s.phase {
        Phase::Resolving => ActionView::LookupCommit { url: commit_url(s.org, s.repo, s.git_ref) },
        Phase::Submitting => ActionView::SubmitBuild {
            app_id: s.app_id,
            source_url: archive_url(s.org, s.repo, s.sha),
            version: s.sha,
        },
        Phase::Announcing => ActionView::Notify {
            message: build_started_text(s.app_id, s.shared.build_id),
        },
        Phase::Waiting => ActionView::Sleep { millis: TICK_MILLIS },
        Phase::Refreshing => ActionView::FetchBuild { app_id: s.app_id, build_id: s.shared.build_id },
        Phase::Reporting => ActionView::Notify { message: still_pending_text(s.shared.build_id) },
        Phase::Finalizing => ActionView::FetchFinalBuild {
            app_id: s.app_id,
            build_id: s.shared.build_id,
        },
        Phase::Promoting => ActionView::CreateRelease {
            app_id: s.app_id,
            slug_id: s.slug_id,
            description: s.sha,
        },
        Phase::Finished => ActionView::Finish {
            outcome: s.outcome->0,
            message: outcome_text(s.app_id, s.git_ref, s.outcome->0),
        },
    }
}

/// The state of one deployment.
pub struct Coordinator {
    phase: Phase,
    app_id: String,
    org: String,
    repo: String,
    git_ref: String,
    check_interval: u64,
    display_interval: u64,
    sha: String,
    shared: SharedDeploymentState,
    scheduler: Scheduler,
    kinds: Vec<JobKind>,
    due: Vec<usize>,
    next_due: usize,
    stop: bool,
    slug_id: String,
    outcome: Option<DeploymentOutcome>,
}

impl View for Coordinator {
    type V = CoordinatorView;

    closed spec fn view(&self) -> CoordinatorView {
        CoordinatorView {
            phase: self.phase,
            app_id: self.app_id@,
            org: self.org@,
            repo: self.repo@,
            git_ref: self.git_ref@,
            check_interval: self.check_interval as nat,
            display_interval: self.display_interval as nat,
            sha: self.sha@,
            shared: self.shared@,
            scheduler: self.scheduler@,
            kinds: self.kinds@,
            pending: self.due@.subrange(self.next_due as int, self.due@.len() as int),
            stop: self.stop,
            slug_id: self.slug_id@,
            outcome: match self.outcome {
                Some(o) => Some(o@),
                None => None,
            },
        }
    }
}

/// A coordinator state that the coordinator's own transitions can reach.
pub open spec fn consistent(s: CoordinatorView) -> bool {
    &&& s.check_interval >= 1
    &&& s.display_interval >= 1
    &&& s.kinds.len() == s.scheduler.jobs.len()
    &&& forall|k: int| 0 <= k < s.pending.len() ==> (#[trigger] s.pending[k] as int) < s.kinds.len()
    &&& (s.phase == Phase::Finished <==> s.outcome is Some)
}

impl Coordinator {
    closed spec fn inv(&self) -> bool {
        &&& self.scheduler.well_formed()
        &&& self.next_due <= self.due@.len()
        &&& consistent(self@)
    }

    pub closed spec fn well_formed(&self) -> bool {
        self.inv()
    }

    /// A well-formed coordinator is in a consistent state.
    pub proof fn lemma_well_formed_is_consistent(&self)
        requires
            self.well_formed(),
        ensures
            consistent(self@),
    {
    }

    /// A deployment of `git_ref` from `org/repo` to `app_id`, with the status
    /// job run every `check_interval` seconds and the progress job every
    /// `display_interval` seconds. It starts by resolving the reference.
    pub fn new(
        app_id: String,
        git_ref: String,
        org: String,
        repo: String,
        check_interval: u64,
        display_interval: u64,
    ) -> (r: Coordinator)
        requires
            check_interval >= 1,
            display_interval >= 1,
        ensures
            r.well_formed(),
            r@.phase == Phase::Resolving,
            r@.app_id == app_id@,
            r@.git_ref == git_ref@,
            r@.org == org@,
            r@.repo == repo@,
            r@.check_interval == check_interval,
            r@.display_interval == display_interval,
            r@.outcome is None,
    {
        let r = Coordinator {
            phase: Phase::Resolving,
            app_id,
            org,
            repo,
            git_ref,
            check_interval,
            display_interval,
            sha: String::new(),
            shared: SharedDeploymentState {
                status: BuildStatus::Pending,
                build_id: String::new(),
                last_poll_error: None,
            },
            scheduler: Scheduler::new(),
            kinds: Vec::new(),
            due: Vec::new(),
            next_due: 0,
            stop: false,
            slug_id: String::new(),
            outcome: None,
        };
        r
    }

    /// The action this deployment is waiting on.
    pub fn pending_action(&self) -> (action: Action)
        requires
            self.well_formed(),
        ensures
            action@ == expected_action(self@),
    {
        match self.phase {
            Phase::Resolving => Action::LookupCommit {
                url: commit_info_url(self.org.as_str(), self.repo.as_str(), self.git_ref.as_str()),
            },
            Phase::Submitting => Action::SubmitBuild {
                app_id: self.app_id.clone(),
                source_url: source_url(self.org.as_str(), self.repo.as_str(), self.sha.as_str()),
                version: self.sha.clone(),
            },
            Phase::Announcing => Action::Notify {
                message: build_response(self.app_id.as_str(), self.shared.build_id.as_str()),
            },
            Phase::Waiting => Action::Sleep { millis: TICK_MILLIS },
            Phase::Refreshing => Action::FetchBuild {
                app_id: self.app_id.clone(),
                build_id: self.shared.build_id.clone(),
            },
            Phase::Reporting => Action::Notify {
                message: pending_response(self.shared.build_id.as_str()),
            },
            Phase::Finalizing => Action::FetchFinalBuild {
                app_id: self.app_id.clone(),
                build_id: self.shared.build_id.clone(),
            },
            Phase::Promoting => Action::CreateRelease {
                app_id: self.app_id.clone(),
                slug_id: self.slug_id.clone(),
                description: self.sha.clone(),
            },
            Phase::Finished => {
                let outcome = self.outcome.as_ref().unwrap();
                Action::Finish {
                    outcome: outcome.duplicate(),
                    message: outcome.message(self.app_id.as_str(), self.git_ref.as_str()),
                }
            },
        }
    }

    /// How the deployment ended, once it has.
    pub fn outcome(&self) -> (r: Option<&DeploymentOutcome>)
        ensures
            r is Some <==> self@.outcome is Some,
            r is Some ==> r->0@ == self@.outcome->0,
    {
        self.outcome.as_ref()
    }

    /// The shared view of the build in flight.
    pub fn shared_state(&self) -> (r: &SharedDeploymentState)
        ensures
            r@ == self@.shared,
    {
        &self.shared
    }

    fn run_due(&mut self)
        requires
            old(self).inv(),
            old(self)@.outcome is None,
        ensures
            final(self).inv(),
            final(self)@ == run_due(old(self)@),
    {
        let ghost start = self@;
        while self.next_due < self.due.len()
            invariant
                self.inv(),
                run_due(self@) == run_due(start),
                start == old(self)@,
                self@.outcome is None,
            decreases self.due@.len() - self.next_due,
        {
            let ghost before = self@;
            let slot = self.due[self.next_due];
            assert(before.pending[0] == slot);
            self.next_due = self.next_due + 1;
            assert(self@.pending =~= before.pending.drop_first());
            match self.kinds[slot] {
                JobKind::StatusRefresh => {
                    self.phase = Phase::Refreshing;
                    return ;
                },
                JobKind::ProgressReport => {
                    if matches!(self.shared.status, BuildStatus::Pending) {
                        self.phase = Phase::Reporting;
                            return ;
                    }
                },
            }
        }
        assert(self@.pending.len() == 0);
        self.phase = if self.stop {
            Phase::Finalizing
        } else {
            Phase::Waiting
        };
    }

    fn finish_with(&mut self, outcome: DeploymentOutcome)
        requires
            old(self).inv(),
        ensures
            final(self).inv(),
            final(self)@ == finish(old(self)@, outcome@),
    {
        self.outcome = Some(outcome);
        self.phase = Phase::Finished;
    }

    fn start_polling(&mut self, record: BuildRecord)
        requires
            old(self).inv(),
            old(self)@.outcome is None,
        ensures
            final(self).inv(),
            final(self)@ == start_polling(old(self)@, record@),
    {
        let mut scheduler = Scheduler::new();
        scheduler.register(String::from_str("build status"), self.check_interval);
        scheduler.register(String::from_str("build progress"), self.display_interval);
        let mut kinds: Vec<JobKind> = Vec::new();
        kinds.push(JobKind::StatusRefresh);
        kinds.push(JobKind::ProgressReport);
        self.shared = SharedDeploymentState::from_record(&record);
        self.scheduler = scheduler;
        self.kinds = kinds;
        self.due = Vec::new();
        self.next_due = 0;
        self.stop = false;
        self.phase = Phase::Announcing;
        assert(self@.scheduler.jobs =~= deployment_jobs(self@.check_interval, self@.display_interval).jobs);
        assert(self@.kinds =~= seq![JobKind::StatusRefresh, JobKind::ProgressReport]);
        assert(self@.pending =~= Seq::<usize>::empty());
    }

    fn tick_and_run(&mut self)
        requires
            old(self).inv(),
            old(self)@.outcome is None,
        ensures
            final(self).inv(),
            final(self)@ == after_sleep(old(self)@),
    {
        let due = self.scheduler.tick();
        self.due = due;
        self.next_due = 0;
        assert(self@.pending =~= self.due@);
        self.run_due();
    }

    fn apply_status_fetch(&mut self, result: Result<BuildRecord, String>)
        requires
            old(self).inv(),
            old(self)@.outcome is None,
        ensures
            final(self).inv(),
            final(self)@ == after_status_fetch(old(self)@, fetch_view(result)),
    {
        self.shared.apply_fetch(result);
        if is_terminal(self.shared.status) {
            self.stop = true;
        }
        self.run_due();
    }

    fn apply_final_fetch(&mut self, result: Result<BuildRecord, String>)
        requires
            old(self).inv(),
            old(self)@.outcome is None,
        ensures
            final(self).inv(),
            final(self)@ == after_final_fetch(old(self)@, fetch_view(result)),
    {
        match result {
            Err(reason) => {
                let build_id = self.shared.build_id.clone();
                self.finish_with(DeploymentOutcome::FinalStatusError { build_id, reason });
            },
            Ok(record) => {
                if !matches!(record.status, BuildStatus::Succeeded) {
                    let build_id = self.shared.build_id.clone();
                    self.finish_with(
                        DeploymentOutcome::BuildFailed { build_id, status: record.status },
                    );
                } else {
                    match record.slug_id {
                        Some(slug) => {
                            self.slug_id = slug;
                            self.phase = Phase::Promoting;
                        },
                        None => {
                            let build_id = self.shared.build_id.clone();
                            let reason = String::from_str("the build has no slug");
                            self.finish_with(DeploymentOutcome::PromotionError { build_id, reason });
                        },
                    }
                }
            },
        }
    }

    /// Takes the result of the pending action and returns the next action.
    pub fn handle(&mut self, event: Event) -> (action: Action)
        requires
            old(self).well_formed(),
        ensures
            final(self).well_formed(),
            final(self)@ == step(old(self)@, event@),
            action@ == expected_action(final(self)@),
    {
        match event {
            Event::CommitResolved(r) => {
                if matches!(self.phase, Phase::Resolving) {
                    match r {
                        Ok(sha) => {
                            self.sha = sha;
                            self.phase = Phase::Submitting;
                        },
                        Err(reason) => {
                            self.finish_with(DeploymentOutcome::ResolutionError { reason });
                        },
                    }
                }
            },
            Event::BuildSubmitted(r) => {
                if matches!(self.phase, Phase::Submitting) {
                    match r {
                        Ok(record) => {
                            self.start_polling(record);
                        },
                        Err(reason) => {
                            self.finish_with(DeploymentOutcome::SubmissionError { reason });
                        },
                    }
                }
            },
            Event::Notified => {
                if matches!(self.phase, Phase::Announcing) {
                    self.phase = Phase::Waiting;
                } else if matches!(self.phase, Phase::Reporting) {
                    self.run_due();
                }
            },
            Event::Slept => {
                if matches!(self.phase, Phase::Waiting) {
                    self.tick_and_run();
                }
            },
            Event::BuildFetched(r) => {
                if matches!(self.phase, Phase::Refreshing) {
                    self.apply_status_fetch(r);
                }
            },
            Event::FinalBuildFetched(r) => {
                if matches!(self.phase, Phase::Finalizing) {
                    self.apply_final_fetch(r);
                }
            },
            Event::ReleaseCreated(r) => {
                if matches!(self.phase, Phase::Promoting) {
                    match r {
                        Ok(_) => {
                            let sha = self.sha.clone();
                            self.finish_with(DeploymentOutcome::Deployed { sha });
                        },
                        Err(reason) => {
                            let build_id = self.shared.build_id.clone();
                            self.finish_with(DeploymentOutcome::PromotionError { build_id, reason });
                        },
                    }
                }
            },
        }
        self.pending_action()
    }
}


/// Running due jobs touches neither the shared state nor the outcome nor the
/// stop signal, and ends waiting on outside work or polling's end; once the
/// stop signal is set it never ends waiting for another tick.
broadcast proof fn lemma_run_due_frame(s: CoordinatorView)
    ensures
        (#[trigger] run_due(s)).shared == s.shared,
        run_due(s).outcome == s.outcome,
        run_due(s).sha == s.sha,
        run_due(s).stop == s.stop,
        run_due(s).phase == Phase::Refreshing || run_due(s).phase == Phase::Reporting
            || run_due(s).phase == Phase::Waiting || run_due(s).phase == Phase::Finalizing,
        s.stop ==> run_due(s).phase != Phase::Waiting,
        !s.stop ==> run_due(s).phase != Phase::Finalizing,
    decreases s.pending.len(),
{
    if s.pending.len() > 0 {
        lemma_run_due_frame(CoordinatorView { pending: s.pending.drop_first(), ..s });
    }
}

/// Once the build in flight has a terminal status, no event changes it: no
/// job can set it back to pending.
pub proof fn lemma_terminal_status_kept(s: CoordinatorView, e: EventView)
    requires
        s.phase != Phase::Submitting,
        terminal(s.shared.status),
    ensures
        step(s, e).shared.status == s.shared.status,
{
    broadcast use lemma_run_due_frame;
}

/// A failed status fetch is recorded as the last poll error and nothing
/// else changes in the shared state; the deployment goes on.
pub proof fn lemma_failed_poll_is_not_fatal(s: CoordinatorView, reason: Seq<char>)
    requires
        s.phase == Phase::Refreshing,
        s.outcome is None,
    ensures
        step(s, EventView::BuildFetched(Err(reason))).shared == (SharedStateView {
            last_poll_error: Some(reason),
            ..s.shared
        }),
        step(s, EventView::BuildFetched(Err(reason))).phase != Phase::Finished,
        step(s, EventView::BuildFetched(Err(reason))).outcome is None,
{
    broadcast use lemma_run_due_frame;
}

/// The build-started notice is asked for only right after a submission that
/// gave a build, and it names that build.
pub proof fn lemma_announced_once_after_submission(s: CoordinatorView, e: EventView)
    requires
        s.phase != Phase::Announcing,
        step(s, e).phase == Phase::Announcing,
    ensures
        s.phase == Phase::Submitting,
        e matches EventView::BuildSubmitted(Ok(record)) && step(s, e).shared.build_id == record.id,
{
    broadcast use lemma_run_due_frame;
}

/// A release is asked for only right after a final build record that says
/// the build succeeded, and only for that record's slug.
pub proof fn lemma_release_only_after_success(s: CoordinatorView, e: EventView)
    requires
        s.phase != Phase::Promoting,
        step(s, e).phase == Phase::Promoting,
    ensures
        s.phase == Phase::Finalizing,
        e matches EventView::FinalBuildFetched(Ok(record)) && record.status == BuildStatus::Succeeded
            && record.slug_id == Some(step(s, e).slug_id),
{
    broadcast use lemma_run_due_frame;
}

/// The state after a run of events, each handled in turn.
pub open spec fn run_events(s: CoordinatorView, events: Seq<EventView>) -> CoordinatorView
    decreases events.len(),
{
    if events.len() == 0 {
        s
    } else {
        run_events(step(s, events[0]), events.drop_first())
    }
}

/// Polling is over: the status job has seen a terminal status and set the
/// stop signal, and the coordinator waits on no further tick.
pub open spec fn polling_over(s: CoordinatorView) -> bool {
    &&& s.stop
    &&& terminal(s.shared.status)
    &&& (s.phase == Phase::Refreshing || s.phase == Phase::Reporting || s.phase
        == Phase::Finalizing || s.phase == Phase::Promoting || s.phase == Phase::Finished)
}

/// When the status job first sees a terminal status, polling is over: the
/// jobs still due in this tick may run, but the driver is asked for no
/// further sleep or tick.
pub proof fn lemma_terminal_fetch_ends_polling(s: CoordinatorView, r: Result<BuildRecordView, Seq<char>>)
    requires
        s.phase == Phase::Refreshing,
        terminal(after_fetch(s.shared, r).status),
    ensures
        polling_over(step(s, EventView::BuildFetched(r))),
        step(s, EventView::BuildFetched(r)).shared.status == after_fetch(s.shared, r).status,
{
    broadcast use lemma_run_due_frame;
}

/// Once polling is over it stays over, whatever events follow: the terminal
/// status never changes, and the driver never sleeps or ticks again.
pub proof fn lemma_polling_stays_over(s: CoordinatorView, events: Seq<EventView>)
    requires
        polling_over(s),
    ensures
        polling_over(run_events(s, events)),
        run_events(s, events).shared.status == s.shared.status,
        expected_action(run_events(s, events)) !is Sleep,
    decreases events.len(),
{
    broadcast use lemma_run_due_frame;

    if events.len() > 0 {
        lemma_polling_stays_over(step(s, events[0]), events.drop_first());
    }
}

/// Events that only report time passing, notices sent and failed status
/// fetches.
pub open spec fn waiting_events(events: Seq<EventView>) -> bool {
    forall|k: int|
        0 <= k < events.len() ==> {
            let e = #[trigger] events[k];
            e is Slept || e is Notified || e matches EventView::BuildFetched(Err(reason))
        }
}

/// A build still pending and polled with the stop signal clear.
pub open spec fn polling_pending(s: CoordinatorView) -> bool {
    &&& !s.stop
    &&& s.outcome is None
    &&& s.shared.status == BuildStatus::Pending
    &&& (s.phase == Phase::Waiting || s.phase == Phase::Refreshing || s.phase == Phase::Reporting)
}

/// However many status fetches fail, the deployment neither aborts nor
/// stops polling: the build stays pending under the same id.
pub proof fn lemma_failed_polls_keep_polling(s: CoordinatorView, events: Seq<EventView>)
    requires
        polling_pending(s),
        waiting_events(events),
    ensures
        polling_pending(run_events(s, events)),
        run_events(s, events).shared.build_id == s.shared.build_id,
    decreases events.len(),
{
    broadcast use lemma_run_due_frame;

    if events.len() > 0 {
        let rest = events.drop_first();
        assert(waiting_events(rest)) by {
            assert forall|k: int| 0 <= k < rest.len() implies {
                let e = #[trigger] rest[k];
                e is Slept || e is Notified || e matches EventView::BuildFetched(Err(reason))
            } by {
                assert(rest[k] == events[k + 1]);
            }
        }
        let e0 = events[0];
        assert(e0 is Slept || e0 is Notified || e0 matches EventView::BuildFetched(Err(reason)));
        lemma_failed_polls_keep_polling(step(s, e0), rest);
    }
}

/// A final record that says the build succeeded and names its slug leads
/// to the release of that slug, with the resolved commit id as description;
/// a created release ends the deployment as deployed.
pub proof fn lemma_success_leads_to_release(
    f: CoordinatorView,
    record: BuildRecordView,
    slug: Seq<char>,
)
    requires
        f.phase == Phase::Finalizing,
        record.status == BuildStatus::Succeeded,
        record.slug_id == Some(slug),
    ensures
        ({
            let p = step(f, EventView::FinalBuildFetched(Ok(record)));
            &&& expected_action(p) == (ActionView::CreateRelease {
                app_id: f.app_id,
                slug_id: slug,
                description: f.sha,
            })
            &&& step(p, EventView::ReleaseCreated(Ok(()))).outcome == Some(
                OutcomeView::Deployed { sha: f.sha },
            )
        }),
{
}

} // verus!
