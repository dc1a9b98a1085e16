//! The lifecycle of one build on the deployment platform, and the shared
//! state that the periodic status job keeps up to date.

use vstd::prelude::*;

verus! {

/// Where a build stands on the deployment platform.
#[derive(PartialEq, Eq, Structural, Clone, Copy, Debug)]
pub enum BuildStatus {
    Pending,
    Succeeded,
    Failed,
    Unknown,
}

/// The status a platform status text stands for: any text other than the
/// three known words is `Unknown`.
pub open spec fn status_of_text(text: Seq<char>) -> BuildStatus {
    if text == "pending"@ {
        BuildStatus::Pending
    } else if text == "succeeded"@ {
        BuildStatus::Succeeded
    } else if text == "failed"@ {
        BuildStatus::Failed
    } else {
        BuildStatus::Unknown
    }
}

/// A terminal status is one from which a build never moves again.
pub open spec fn terminal(status: BuildStatus) -> bool {
    status != BuildStatus::Pending
}

impl BuildStatus {
    /// Reads the status text that the platform reports for a build.
    pub fn from_platform(text: &str) -> (r: BuildStatus)
        ensures
            r == status_of_text(text@),
    {
        let t = String::from_str(text);
        if t == String::from_str("pending") {
            BuildStatus::Pending
        } else if t == String::from_str("succeeded") {
            BuildStatus::Succeeded
        } else if t == String::from_str("failed") {
            BuildStatus::Failed
        } else {
            BuildStatus::Unknown
        }
    }
}

/// True for `Succeeded`, `Failed` and `Unknown`.
pub fn is_terminal(status: BuildStatus) -> (r: bool)
    ensures
        r == terminal(status),
{
    !matches!(status, BuildStatus::Pending)
}


/// A build as the platform reports it.
pub struct BuildRecord {
    pub id: String,
    pub app_id: String,
    pub status: BuildStatus,
    /// Present only once the build has succeeded: the artifact a release needs.
    pub slug_id: Option<String>,
}

pub struct BuildRecordView {
    pub id: Seq<char>,
    pub app_id: Seq<char>,
    pub status: BuildStatus,
    pub slug_id: Option<Seq<char>>,
}

impl View for BuildRecord {
    type V = BuildRecordView;

    open spec fn view(&self) -> BuildRecordView {
        BuildRecordView {
            id: self.id@,
            app_id: self.app_id@,
            status: self.status,
            slug_id: self.slug_id.deep_view(),
        }
    }
}

/// A slug belongs to a record only when its build succeeded.
pub open spec fn slug_when_succeeded(status: BuildStatus, slug: Option<Seq<char>>) -> Option<
    Seq<char>,
> {
    if status == BuildStatus::Succeeded {
        slug
    } else {
        None
    }
}

impl BuildRecordView {
    pub open spec fn wf(self) -> bool {
        self.slug_id is Some ==> self.status == BuildStatus::Succeeded
    }
}

impl BuildRecord {
    /// Builds a record from what the platform reported: the status is read
    /// from its text, and a slug is kept only for a succeeded build.
    pub fn from_platform(id: String, app_id: String, status_text: &str, slug_id: Option<String>) -> (r:
        BuildRecord)
        ensures
            r@ == (BuildRecordView {
                id: id@,
                app_id: app_id@,
                status: status_of_text(status_text@),
                slug_id: slug_when_succeeded(status_of_text(status_text@), slug_id.deep_view()),
            }),
            r@.wf(),
    {
        let status = BuildStatus::from_platform(status_text);
        let slug_id = match status {
            BuildStatus::Succeeded => slug_id,
            _ => None,
        };
        BuildRecord { id, app_id, status, slug_id }
    }
}

/// What the status job and the coordinator's wait loop share about the build
/// in flight.
pub struct SharedDeploymentState {
    pub status: BuildStatus,
    pub build_id: String,
    pub last_poll_error: Option<String>,
}

pub struct SharedStateView {
    pub status: BuildStatus,
    pub build_id: Seq<char>,
    pub last_poll_error: Option<Seq<char>>,
}

impl View for SharedDeploymentState {
    type V = SharedStateView;

    open spec fn view(&self) -> SharedStateView {
        SharedStateView {
            status: self.status,
            build_id: self.build_id@,
            last_poll_error: self.last_poll_error.deep_view(),
        }
    }
}

/// The result of one status fetch, as values.
pub open spec fn fetch_view(result: Result<BuildRecord, String>) -> Result<BuildRecordView, Seq<char>> {
    match result {
        Ok(record) => Ok(record@),
        Err(e) => Err(e@),
    }
}

/// The shared state at the start of polling: the submitted build's status,
/// no poll error yet.
pub open spec fn initial_shared(record: BuildRecordView) -> SharedStateView {
    SharedStateView { status: record.status, build_id: record.id, last_poll_error: None }
}

/// One status fetch applied to the shared state. A fetched status replaces a
/// pending one; a terminal status is never replaced. A failed fetch is only
/// recorded.
pub open spec fn after_fetch(s: SharedStateView, result: Result<BuildRecordView, Seq<char>>) -> SharedStateView {
    match result {
        Ok(record) => if terminal(s.status) {
            s
        } else {
            SharedStateView { status: record.status, ..s }
        },
        Err(e) => SharedStateView { last_poll_error: Some(e), ..s },
    }
}

/// A run of status fetches applied in order.
pub open spec fn after_fetches(s: SharedStateView, results: Seq<Result<BuildRecordView, Seq<char>>>) -> SharedStateView
    decreases results.len(),
{
    if results.len() == 0 {
        s
    } else {
        after_fetch(after_fetches(s, results.drop_last()), results.last())
    }
}

impl SharedDeploymentState {
    pub fn from_record(record: &BuildRecord) -> (r: SharedDeploymentState)
        ensures
            r@ == initial_shared(record@),
    {
        SharedDeploymentState { status: record.status, build_id: record.id.clone(), last_poll_error: None }
    }

    /// Applies the result of one status fetch.
    pub fn apply_fetch(&mut self, result: Result<BuildRecord, String>)
        ensures
            final(self)@ == after_fetch(old(self)@, fetch_view(result)),
    {
        match result {
            Ok(record) => {
                if !is_terminal(self.status) {
                    self.status = record.status;
                }
            },
            Err(e) => {
                self.last_poll_error = Some(e);
            },
        }
    }
}

/// Once the shared status is terminal, no run of status fetches changes it.
pub proof fn lemma_terminal_status_is_sticky(
    s: SharedStateView,
    results: Seq<Result<BuildRecordView, Seq<char>>>,
)
    requires
        terminal(s.status),
    ensures
        after_fetches(s, results).status == s.status,
        terminal(after_fetches(s, results).status),
    decreases results.len(),
{
    if results.len() > 0 {
        lemma_terminal_status_is_sticky(s, results.drop_last());
    }
}

/// Along any run of status fetches the status never goes back: a status that
/// is terminal after a prefix of the run stays as it is to the end, so a later
/// status is pending only if every earlier one was.
pub proof fn lemma_status_never_regresses(
    s: SharedStateView,
    results: Seq<Result<BuildRecordView, Seq<char>>>,
    i: int,
)
    requires
        0 <= i <= results.len(),
        terminal(after_fetches(s, results.subrange(0, i)).status),
    ensures
        after_fetches(s, results).status == after_fetches(s, results.subrange(0, i)).status,
    decreases results.len() - i,
{
    if i < results.len() {
        let longer = results.subrange(0, i + 1);
        assert(longer.drop_last() =~= results.subrange(0, i));
        lemma_status_never_regresses(s, results, i + 1);
    } else {
        assert(results.subrange(0, i) =~= results);
    }
}

/// A run of failed fetches records its last error and changes nothing else.
pub proof fn lemma_failed_fetches_touch_only_the_error(
    s: SharedStateView,
    results: Seq<Result<BuildRecordView, Seq<char>>>,
)
    requires
        forall|k: int| 0 <= k < results.len() ==> (#[trigger] results[k]) is Err,
    ensures
        after_fetches(s, results).status == s.status,
        after_fetches(s, results).build_id == s.build_id,
        results.len() == 0 ==> after_fetches(s, results) == s,
        results.len() > 0 ==> after_fetches(s, results).last_poll_error == Some(
            results.last()->Err_0,
        ),
    decreases results.len(),
{
    if results.len() > 0 {
        let rest = results.drop_last();
        assert forall|k: int| 0 <= k < rest.len() implies (#[trigger] rest[k]) is Err by {
            assert(rest[k] == results[k]);
        }
        lemma_failed_fetches_touch_only_the_error(s, rest);
    }
}

/// Applying the same fetch result twice leaves the state as applying it once.
pub proof fn lemma_fetch_is_idempotent(s: SharedStateView, result: Result<BuildRecordView, Seq<char>>)
    ensures
        after_fetch(after_fetch(s, result), result) == after_fetch(s, result),
{
}

} // verus!
