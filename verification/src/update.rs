//! The update pipeline: check, download and install, restart.
//!
//! An [`UpdateSession`] is the state machine of one run through the
//! pipeline. It does no network or file I/O itself. It says what is to be
//! done next as an [`UpdateRequest`]; whoever drives it carries the request
//! out, for as long as that takes, and hands back what happened as an
//! [`UpdateEvent`]. A session lives for one command and is not kept.
//! Sessions do not exclude one another: two commands that overlap each run a
//! session of their own. No timeout is imposed here; a caller that wants one
//! imposes it on the requests.
//!
//! ```text
//! Idle -> Checking -> UpToDate
//!                  -> UpdateAvailable -> Downloading -> Installed -> Restarting
//! ```
//!
//! A failure of the updater, the check or the installation takes the session
//! back to `Idle`. Restarting is the end: once the restart is carried out,
//! control does not come back.

use crate::text::join2;
use vstd::prelude::*;

verus! {

/// Where a session stands.
#[derive(Clone, Copy, Debug, PartialEq, Eq, Structural)]
pub enum UpdatePhase {
    /// Nothing is under way.
    Idle,
    /// The update source is being asked.
    Checking,
    /// The check found nothing newer.
    UpToDate,
    /// The check found an update.
    UpdateAvailable,
    /// The update is being downloaded and applied.
    Downloading,
    /// The update has been applied.
    Installed,
    /// The restart has been asked for.
    Restarting,
}

/// What a session is for.
#[derive(Clone, Copy, Debug, PartialEq, Eq, Structural)]
pub enum UpdateGoal {
    /// Find out whether an update is available.
    Check,
    /// Check afresh, and install the update if there is one.
    Install,
}

/// What is to be done next on behalf of a session.
#[derive(Clone, Copy, Debug, PartialEq, Eq, Structural)]
pub enum UpdateRequest {
    /// Set up the updater and ask the update source. Answer with
    /// `UpdaterUnavailable`, `CheckFailed`, `UpToDate` or `UpdateFound`.
    Check,
    /// Download the update that the check found and apply it. Answer with
    /// `InstallFailed` or `Installed`.
    DownloadAndInstall,
    /// Restart the process. There is no answer.
    Restart,
}

/// What happened while a request was carried out.
#[derive(Debug, PartialEq, Eq)]
pub enum UpdateEvent {
    /// The updater could not be set up; the text is its error.
    UpdaterUnavailable(String),
    /// The check failed; the text is the updater's error.
    CheckFailed(String),
    /// The check found nothing newer.
    UpToDate,
    /// The check found an update.
    UpdateFound,
    /// The download or the installation failed; the text is the updater's
    /// error.
    InstallFailed(String),
    /// The update was downloaded and applied.
    Installed,
}

/// An [`UpdateEvent`] as a mathematical value.
pub enum UpdateEventView {
    UpdaterUnavailable(Seq<char>),
    CheckFailed(Seq<char>),
    UpToDate,
    UpdateFound,
    InstallFailed(Seq<char>),
    Installed,
}

impl View for UpdateEvent {
    type V = UpdateEventView;

    open spec fn view(&self) -> UpdateEventView {
        match self {
            UpdateEvent::UpdaterUnavailable(error) => UpdateEventView::UpdaterUnavailable(error@),
            UpdateEvent::CheckFailed(error) => UpdateEventView::CheckFailed(error@),
            UpdateEvent::UpToDate => UpdateEventView::UpToDate,
            UpdateEvent::UpdateFound => UpdateEventView::UpdateFound,
            UpdateEvent::InstallFailed(error) => UpdateEventView::InstallFailed(error@),
            UpdateEvent::Installed => UpdateEventView::Installed,
        }
    }
}

/// Why a check gave no answer.
#[derive(Debug, PartialEq, Eq)]
pub enum CheckError {
    /// The updater could not be set up.
    UpdaterUnavailable(String),
    /// The update source could not be reached or understood.
    Failed(String),
}

/// A [`CheckError`] as a mathematical value.
pub enum CheckErrorView {
    UpdaterUnavailable(Seq<char>),
    Failed(Seq<char>),
}

impl View for CheckError {
    type V = CheckErrorView;

    open spec fn view(&self) -> CheckErrorView {
        match self {
            CheckError::UpdaterUnavailable(error) => CheckErrorView::UpdaterUnavailable(error@),
            CheckError::Failed(error) => CheckErrorView::Failed(error@),
        }
    }
}

impl CheckErrorView {
    /// The text that reports this error.
    pub open spec fn message_text(self) -> Seq<char> {
        match self {
            CheckErrorView::UpdaterUnavailable(error) => "Failed to initialize updater: "@ + error,
            CheckErrorView::Failed(error) => "Failed to check for updates: "@ + error,
        }
    }
}

impl CheckError {
    /// The text that reports this error.
    pub fn message(&self) -> (text: String)
        ensures
            text@ == self@.message_text(),
    {
        match self {
            CheckError::UpdaterUnavailable(error) => join2(
                "Failed to initialize updater: ",
                error.as_str(),
            ),
            CheckError::Failed(error) => join2("Failed to check for updates: ", error.as_str()),
        }
    }
}

/// Why an installation did not happen.
#[derive(Debug, PartialEq, Eq)]
pub enum InstallError {
    /// The check that precedes the installation gave no answer.
    Check(CheckError),
    /// The check found nothing to install.
    NoUpdateAvailable,
    /// The download or the installation failed.
    Failed(String),
}

/// An [`InstallError`] as a mathematical value.
pub enum InstallErrorView {
    Check(CheckErrorView),
    NoUpdateAvailable,
    Failed(Seq<char>),
}

impl View for InstallError {
    type V = InstallErrorView;

    open spec fn view(&self) -> InstallErrorView {
        match self {
            InstallError::Check(error) => InstallErrorView::Check(error@),
            InstallError::NoUpdateAvailable => InstallErrorView::NoUpdateAvailable,
            InstallError::Failed(error) => InstallErrorView::Failed(error@),
        }
    }
}

impl InstallErrorView {
    /// The text that reports this error.
    pub open spec fn message_text(self) -> Seq<char> {
        match self {
            InstallErrorView::Check(error) => error.message_text(),
            InstallErrorView::NoUpdateAvailable => "No update available"@,
            InstallErrorView::Failed(error) => "Failed to install update: "@ + error,
        }
    }
}

impl InstallError {
    /// The text that reports this error.
    pub fn message(&self) -> (text: String)
        ensures
            text@ == self@.message_text(),
    {
        match self {
            InstallError::Check(error) => error.message(),
            InstallError::NoUpdateAvailable => "No update available".to_owned(),
            InstallError::Failed(error) => join2("Failed to install update: ", error.as_str()),
        }
    }
}

/// What a session answers to an event.
#[derive(Debug, PartialEq, Eq)]
pub enum UpdateStep {
    /// The session goes on: carry this out and hand back what happened.
    Perform(UpdateRequest),
    /// A session that checks is over: an update is available (`true`), none
    /// is (`false`), or the check gave no answer.
    Checked(Result<bool, CheckError>),
    /// A session that installs is over without an installation.
    NotInstalled(InstallError),
}

/// An [`UpdateStep`] as a mathematical value.
pub enum UpdateStepView {
    Perform(UpdateRequest),
    Checked(Result<bool, CheckErrorView>),
    NotInstalled(InstallErrorView),
}

impl View for UpdateStep {
    type V = UpdateStepView;

    open spec fn view(&self) -> UpdateStepView {
        match self {
            UpdateStep::Perform(request) => UpdateStepView::Perform(*request),
            UpdateStep::Checked(Ok(available)) => UpdateStepView::Checked(Ok(*available)),
            UpdateStep::Checked(Err(error)) => UpdateStepView::Checked(Err(error@)),
            UpdateStep::NotInstalled(error) => UpdateStepView::NotInstalled(error@),
        }
    }
}

/// A session as a mathematical value: what it is for and where it stands.
pub struct SessionView {
    pub goal: UpdateGoal,
    pub phase: UpdatePhase,
}

impl SessionView {
    /// A session that only checks never gets as far as downloading.
    pub open spec fn consistent(self) -> bool {
        self.goal == UpdateGoal::Check ==> {
            ||| self.phase == UpdatePhase::Idle
            ||| self.phase == UpdatePhase::Checking
            ||| self.phase == UpdatePhase::UpToDate
            ||| self.phase == UpdatePhase::UpdateAvailable
        }
    }

    /// The session rests: it takes no event.
    pub open spec fn at_rest(self) -> bool {
        self.phase != UpdatePhase::Checking && self.phase != UpdatePhase::Downloading
    }
}

/// The phase to which `event` takes a session that stands in `phase`; `None`
/// where the session is not waiting for this event.
pub open spec fn after_event(phase: UpdatePhase, event: UpdateEventView) -> Option<UpdatePhase> {
    match (phase, event) {
        (UpdatePhase::Checking, UpdateEventView::UpdaterUnavailable(_)) => Some(UpdatePhase::Idle),
        (UpdatePhase::Checking, UpdateEventView::CheckFailed(_)) => Some(UpdatePhase::Idle),
        (UpdatePhase::Checking, UpdateEventView::UpToDate) => Some(UpdatePhase::UpToDate),
        (UpdatePhase::Checking, UpdateEventView::UpdateFound) => Some(UpdatePhase::UpdateAvailable),
        (UpdatePhase::Downloading, UpdateEventView::InstallFailed(_)) => Some(UpdatePhase::Idle),
        (UpdatePhase::Downloading, UpdateEventView::Installed) => Some(UpdatePhase::Installed),
        _ => None,
    }
}

/// The step that a session takes by itself from `phase`, if any: the phase
/// it enters and what it asks for. A session that installs goes on from a
/// found update to the download; an installed update is always followed by
/// the restart.
pub open spec fn onward(goal: UpdateGoal, phase: UpdatePhase) -> Option<(UpdatePhase, UpdateRequest)> {
    match (goal, phase) {
        (UpdateGoal::Install, UpdatePhase::UpdateAvailable) => Some(
            (UpdatePhase::Downloading, UpdateRequest::DownloadAndInstall),
        ),
        (_, UpdatePhase::Installed) => Some((UpdatePhase::Restarting, UpdateRequest::Restart)),
        _ => None,
    }
}

/// The answer to a failed check, by what the session is for.
pub open spec fn check_failure(goal: UpdateGoal, error: CheckErrorView) -> UpdateStepView {
    match goal {
        UpdateGoal::Check => UpdateStepView::Checked(Err(error)),
        UpdateGoal::Install => UpdateStepView::NotInstalled(InstallErrorView::Check(error)),
    }
}

/// The answer of a session with the goal `goal` to `event`: the reply with
/// which the session ends, or, where the session goes on by itself, the
/// request of that step.
pub open spec fn answer(goal: UpdateGoal, event: UpdateEventView) -> UpdateStepView {
    match event {
        UpdateEventView::UpdaterUnavailable(error) => check_failure(
            goal,
            CheckErrorView::UpdaterUnavailable(error),
        ),
        UpdateEventView::CheckFailed(error) => check_failure(goal, CheckErrorView::Failed(error)),
        UpdateEventView::UpToDate => match goal {
            UpdateGoal::Check => UpdateStepView::Checked(Ok(false)),
            UpdateGoal::Install => UpdateStepView::NotInstalled(InstallErrorView::NoUpdateAvailable),
        },
        UpdateEventView::UpdateFound => match goal {
            UpdateGoal::Check => UpdateStepView::Checked(Ok(true)),
            UpdateGoal::Install => UpdateStepView::Perform(UpdateRequest::DownloadAndInstall),
        },
        UpdateEventView::InstallFailed(error) => UpdateStepView::NotInstalled(
            InstallErrorView::Failed(error),
        ),
        UpdateEventView::Installed => UpdateStepView::Perform(UpdateRequest::Restart),
    }
}

/// The phase in which a session comes to a halt once it has entered `phase`:
/// the phase itself, or the one that its own next step leads to.
pub open spec fn settled(goal: UpdateGoal, phase: UpdatePhase) -> UpdatePhase {
    match onward(goal, phase) {
        Some((next, _)) => next,
        None => phase,
    }
}

/// What `event` does to `session`: the session afterwards and its answer, or
/// `None` where the session is not waiting for this event.
pub open spec fn advanced(session: SessionView, event: UpdateEventView) -> Option<
    (SessionView, UpdateStepView),
> {
    match after_event(session.phase, event) {
        Some(reached) => Some(
            (
                SessionView { goal: session.goal, phase: settled(session.goal, reached) },
                answer(session.goal, event),
            ),
        ),
        None => None,
    }
}

/// What beginning does to `session`: an idle session starts to check, any
/// other is not to be begun.
pub open spec fn begun(session: SessionView) -> Option<SessionView> {
    if session.phase == UpdatePhase::Idle {
        Some(SessionView { goal: session.goal, phase: UpdatePhase::Checking })
    } else {
        None
    }
}

/// One run through the update pipeline.
pub struct UpdateSession {
    goal: UpdateGoal,
    phase: UpdatePhase,
}

impl View for UpdateSession {
    type V = SessionView;

    closed spec fn view(&self) -> SessionView {
        SessionView { goal: self.goal, phase: self.phase }
    }
}

impl UpdateSession {
    #[verifier::type_invariant]
    spec fn consistent(self) -> bool {
        self@.consistent()
    }

    /// A session for `goal`, idle.
    pub fn new(goal: UpdateGoal) -> (session: Self)
        ensures
            session@ == (SessionView { goal, phase: UpdatePhase::Idle }),
    {
        UpdateSession { goal, phase: UpdatePhase::Idle }
    }

    /// What the session is for.
    pub fn goal(&self) -> (goal: UpdateGoal)
        ensures
            goal == self@.goal,
    {
        self.goal
    }

    /// Where the session stands.
    pub fn phase(&self) -> (phase: UpdatePhase)
        ensures
            phase == self@.phase,
            self@.consistent(),
    {
        proof {
            use_type_invariant(self);
        }
        self.phase
    }

    /// Begins the session. An idle session starts to check and asks for the
    /// check. Any other session is left as it is, and `None` is returned.
    ///
    /// Every session begins with a check of its own: an installation does not
    /// go by what an earlier check found.
    pub fn begin(&mut self) -> (request: Option<UpdateRequest>)
        ensures
            match begun(old(self)@) {
                Some(session) => final(self)@ == session && request == Some(UpdateRequest::Check),
                None => final(self)@ == old(self)@ && request is None,
            },
    {
        match self.phase {
            UpdatePhase::Idle => {
                self.phase = UpdatePhase::Checking;
                Some(UpdateRequest::Check)
            },
            _ => None,
        }
    }

    /// Takes what happened while the last request was carried out, and
    /// answers with what is next.
    ///
    /// The session moves on as `advanced` says. An event that the session is
    /// not waiting for is dropped: the session is left as it is, and `None`
    /// is returned.
    pub fn advance(&mut self, event: UpdateEvent) -> (step: Option<UpdateStep>)
        ensures
            match advanced(old(self)@, event@) {
                Some((session, answer)) => final(self)@ == session && step is Some && step->0@
                    == answer,
                None => final(self)@ == old(self)@ && step is None,
            },
    {
        proof {
            use_type_invariant(&*self);
        }
        if !self.take(&event) {
            return None;
        }
        match self.go_on() {
            Some(request) => Some(UpdateStep::Perform(request)),
            None => Some(close(self.goal, event)),
        }
    }

    /// Enters the phase to which `event` leads, if the session is waiting
    /// for it, and says whether it was.
    fn take(&mut self, event: &UpdateEvent) -> (taken: bool)
        ensures
            final(self)@.goal == old(self)@.goal,
            match after_event(old(self)@.phase, event@) {
                Some(reached) => taken && final(self)@.phase == reached,
                None => !taken && final(self)@ == old(self)@,
            },
    {
        proof {
            use_type_invariant(&*self);
        }
        match (self.phase, event) {
            (UpdatePhase::Checking, UpdateEvent::UpdaterUnavailable(_)) => {
                self.phase = UpdatePhase::Idle;
                true
            },
            (UpdatePhase::Checking, UpdateEvent::CheckFailed(_)) => {
                self.phase = UpdatePhase::Idle;
                true
            },
            (UpdatePhase::Checking, UpdateEvent::UpToDate) => {
                self.phase = UpdatePhase::UpToDate;
                true
            },
            (UpdatePhase::Checking, UpdateEvent::UpdateFound) => {
                self.phase = UpdatePhase::UpdateAvailable;
                true
            },
            (UpdatePhase::Downloading, UpdateEvent::InstallFailed(_)) => {
                self.phase = UpdatePhase::Idle;
                true
            },
            (UpdatePhase::Downloading, UpdateEvent::Installed) => {
                self.phase = UpdatePhase::Installed;
                true
            },
            _ => false,
        }
    }

    /// Takes the step that the session takes by itself, if there is one, and
    /// gives what it asks for.
    fn go_on(&mut self) -> (request: Option<UpdateRequest>)
        ensures
            final(self)@.goal == old(self)@.goal,
            final(self)@.phase == settled(old(self)@.goal, old(self)@.phase),
            match onward(old(self)@.goal, old(self)@.phase) {
                Some((_, asked)) => request == Some(asked),
                None => request is None,
            },
    {
        proof {
            use_type_invariant(&*self);
        }
        match (self.goal, self.phase) {
            (UpdateGoal::Install, UpdatePhase::UpdateAvailable) => {
                self.phase = UpdatePhase::Downloading;
                Some(UpdateRequest::DownloadAndInstall)
            },
            (_, UpdatePhase::Installed) => {
                self.phase = UpdatePhase::Restarting;
                Some(UpdateRequest::Restart)
            },
            _ => None,
        }
    }
}

/// The answer with which a session for `goal` ends on `event`.
fn close(goal: UpdateGoal, event: UpdateEvent) -> (step: UpdateStep)
    requires
        !(event@ is Installed),
        !(goal == UpdateGoal::Install && event@ is UpdateFound),
    ensures
        step@ == answer(goal, event@),
{
    match event {
        UpdateEvent::UpdaterUnavailable(error) => check_failed(
            goal,
            CheckError::UpdaterUnavailable(error),
        ),
        UpdateEvent::CheckFailed(error) => check_failed(goal, CheckError::Failed(error)),
        UpdateEvent::UpToDate => match goal {
            UpdateGoal::Check => UpdateStep::Checked(Ok(false)),
            UpdateGoal::Install => UpdateStep::NotInstalled(InstallError::NoUpdateAvailable),
        },
        UpdateEvent::UpdateFound => UpdateStep::Checked(Ok(true)),
        UpdateEvent::InstallFailed(error) => UpdateStep::NotInstalled(InstallError::Failed(error)),
        UpdateEvent::Installed => UpdateStep::Perform(UpdateRequest::Restart),
    }
}

/// The answer to a failed check, by what the session is for.
fn check_failed(goal: UpdateGoal, error: CheckError) -> (step: UpdateStep)
    ensures
        step@ == check_failure(goal, error@),
{
    match goal {
        UpdateGoal::Check => UpdateStep::Checked(Err(error)),
        UpdateGoal::Install => UpdateStep::NotInstalled(InstallError::Check(error)),
    }
}

/// The requests that a session makes while `events` are handed to it one
/// after the other. An event that the session is not waiting for is dropped.
pub open spec fn requests_made(session: SessionView, events: Seq<UpdateEventView>) -> Seq<
    UpdateRequest,
>
    decreases events.len(),
{
    if events.len() == 0 {
        Seq::empty()
    } else {
        match advanced(session, events[0]) {
            Some((next, UpdateStepView::Perform(request))) => seq![request] + requests_made(
                next,
                events.drop_first(),
            ),
            Some((next, _)) => requests_made(next, events.drop_first()),
            None => requests_made(session, events.drop_first()),
        }
    }
}

/// A session that takes an event stays consistent, and what it asks for is
/// what the phase that it enters stands for: the download exactly when it
/// enters `Downloading`, the restart exactly when it enters `Restarting`, and
/// otherwise nothing.
pub proof fn lemma_request_matches_phase(session: SessionView, event: UpdateEventView)
    requires
        session.consistent(),
        advanced(session, event) is Some,
    ensures
        ({
            let (next, step) = advanced(session, event).unwrap();
            &&& next.consistent()
            &&& step == UpdateStepView::Perform(UpdateRequest::DownloadAndInstall) <==> next.phase
                == UpdatePhase::Downloading
            &&& step == UpdateStepView::Perform(UpdateRequest::Restart) <==> next.phase
                == UpdatePhase::Restarting
            &&& step is Perform <==> next.phase == UpdatePhase::Downloading || next.phase
                == UpdatePhase::Restarting
        }),
{
}

/// A session at rest takes no event, so it asks for nothing whatever is
/// handed to it.
pub proof fn lemma_resting_session_asks_nothing(session: SessionView, events: Seq<UpdateEventView>)
    requires
        session.at_rest(),
    ensures
        requests_made(session, events) == Seq::<UpdateRequest>::empty(),
    decreases events.len(),
{
    if events.len() > 0 {
        lemma_resting_session_asks_nothing(session, events.drop_first());
    }
}

/// An installation with no update available ends with the error that says so
/// and has no side effect: whatever is handed to the session afterwards, it
/// asks neither for a download nor for a restart.
pub proof fn lemma_no_update_installs_nothing(later: Seq<UpdateEventView>)
    ensures
        ({
            let checking = SessionView { goal: UpdateGoal::Install, phase: UpdatePhase::Checking };
            let up_to_date = SessionView { goal: UpdateGoal::Install, phase: UpdatePhase::UpToDate };
            &&& advanced(checking, UpdateEventView::UpToDate) == Some(
                (up_to_date, UpdateStepView::NotInstalled(InstallErrorView::NoUpdateAvailable)),
            )
            &&& requests_made(checking, seq![UpdateEventView::UpToDate] + later) == Seq::<
                UpdateRequest,
            >::empty()
        }),
{
    let up_to_date = SessionView { goal: UpdateGoal::Install, phase: UpdatePhase::UpToDate };
    let events = seq![UpdateEventView::UpToDate] + later;
    assert(events.drop_first() =~= later);
    lemma_resting_session_asks_nothing(up_to_date, later);
}

/// Whatever is handed to a session that has begun, its requests come in
/// order: it downloads at most once and only if it is to install, and it
/// restarts at most once and only after the download.
pub proof fn lemma_requests_come_in_order(goal: UpdateGoal, events: Seq<UpdateEventView>)
    ensures
        ({
            let made = requests_made(SessionView { goal, phase: UpdatePhase::Checking }, events);
            &&& goal == UpdateGoal::Check ==> made == Seq::<UpdateRequest>::empty()
            &&& goal == UpdateGoal::Install ==> {
                ||| made == Seq::<UpdateRequest>::empty()
                ||| made == seq![UpdateRequest::DownloadAndInstall]
                ||| made == seq![UpdateRequest::DownloadAndInstall, UpdateRequest::Restart]
            }
        }),
    decreases events.len(),
{
    let checking = SessionView { goal, phase: UpdatePhase::Checking };
    if events.len() > 0 {
        let rest = events.drop_first();
        match advanced(checking, events[0]) {
            Some((next, UpdateStepView::Perform(_))) => {
                lemma_download_ends_in_restart(next, rest);
            },
            Some((next, _)) => {
                lemma_resting_session_asks_nothing(next, rest);
            },
            None => {
                lemma_requests_come_in_order(goal, rest);
            },
        }
    }
}

/// While a download is under way, the only request that can follow is the
/// restart, once.
proof fn lemma_download_ends_in_restart(session: SessionView, events: Seq<UpdateEventView>)
    requires
        session.phase == UpdatePhase::Downloading,
    ensures
        ({
            let made = requests_made(session, events);
            made == Seq::<UpdateRequest>::empty() || made == seq![UpdateRequest::Restart]
        }),
    decreases events.len(),
{
    if events.len() > 0 {
        let rest = events.drop_first();
        match advanced(session, events[0]) {
            Some((next, UpdateStepView::Perform(_))) => {
                lemma_resting_session_asks_nothing(next, rest);
            },
            Some((next, _)) => {
                lemma_resting_session_asks_nothing(next, rest);
            },
            None => {
                lemma_download_ends_in_restart(session, rest);
            },
        }
    }
}

} // verus!
