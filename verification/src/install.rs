//! The install state machine. It drives an add-on through download, verify,
//! stage and install, or diverts to cancel, postpone and resume.
//!
//! The machine decides; it does no outside work. An operation that needs
//! outside work hands back an [`Action`]; the caller carries it out and reports
//! the outcome with [`Install::handle`], which hands back the next action. A
//! step that succeeds starts the step chained to it in the same call.

use vstd::prelude::*;
use hyper::Url;
use crate::addon::Addon;
use crate::addon::artifact_in;
use crate::addon::artifact_path;
use crate::location::download_directory_of;
use crate::location::staging_directory_of;
use crate::outside::clone_url;
use crate::state::InstallState;
use crate::state::Operation;
use crate::state::TransitionError;

verus! {

/// Outside work that the state machine asks its caller to carry out.
#[derive(Debug, PartialEq, Eq)]
pub enum Action {
    /// Retrieve the bytes of the artifact from `url`.
    Fetch { url: Url },
    /// Create `directory` with its parents where absent, then write `bytes`
    /// to the file `path`.
    Persist { directory: String, path: String, bytes: Vec<u8> },
    /// Check the integrity of the artifact at `path`.
    Verify { path: String },
    /// Create `directory` with its parents where absent, then copy the file
    /// `from` to `to`.
    Copy { directory: String, from: String, to: String },
    /// Register the add-on with its host.
    Commit,
}

/// An [`Action`] as mathematics.
pub enum ActionView {
    Fetch { url: Url },
    Persist { directory: Seq<char>, path: Seq<char>, bytes: Seq<u8> },
    Verify { path: Seq<char> },
    Copy { directory: Seq<char>, from: Seq<char>, to: Seq<char> },
    Commit,
}

impl View for Action {
    type V = ActionView;

    open spec fn view(&self) -> ActionView {
        match *self {
            Action::Fetch { url } => ActionView::Fetch { url },
            Action::Persist { directory, path, bytes } => ActionView::Persist {
                directory: directory@,
                path: path@,
                bytes: bytes@,
            },
            Action::Verify { path } => ActionView::Verify { path: path@ },
            Action::Copy { directory, from, to } => ActionView::Copy {
                directory: directory@,
                from: from@,
                to: to@,
            },
            Action::Commit => ActionView::Commit,
        }
    }
}

/// The outcome of an [`Action`], as the caller reports it.
#[derive(Clone, Debug, PartialEq, Eq)]
pub enum Event {
    /// The transport delivered these bytes.
    Fetched(Vec<u8>),
    /// The transport failed.
    FetchFailed,
    /// The fetched bytes are in the download area.
    Persisted,
    /// The download directory or the file could not be made or written.
    PersistFailed,
    /// The artifact is intact.
    VerificationPassed,
    /// The artifact is not what it should be.
    VerificationFailed,
    /// The artifact is in the staging area.
    Copied,
    /// The staging directory could not be made, or the copy failed.
    CopyFailed,
    /// The host has registered the add-on.
    Committed,
    /// The host refused the add-on.
    CommitFailed,
}

/// An [`Event`] as mathematics.
pub enum EventView {
    Fetched(Seq<u8>),
    FetchFailed,
    Persisted,
    PersistFailed,
    VerificationPassed,
    VerificationFailed,
    Copied,
    CopyFailed,
    Committed,
    CommitFailed,
}

impl View for Event {
    type V = EventView;

    open spec fn view(&self) -> EventView {
        match *self {
            Event::Fetched(bytes) => EventView::Fetched(bytes@),
            Event::FetchFailed => EventView::FetchFailed,
            Event::Persisted => EventView::Persisted,
            Event::PersistFailed => EventView::PersistFailed,
            Event::VerificationPassed => EventView::VerificationPassed,
            Event::VerificationFailed => EventView::VerificationFailed,
            Event::Copied => EventView::Copied,
            Event::CopyFailed => EventView::CopyFailed,
            Event::Committed => EventView::Committed,
            Event::CommitFailed => EventView::CommitFailed,
        }
    }
}

impl EventView {
    /// The operation whose work this event reports on.
    pub open spec fn operation(self) -> Operation {
        match self {
            EventView::Fetched(_) | EventView::FetchFailed | EventView::Persisted
            | EventView::PersistFailed => Operation::Download,
            EventView::VerificationPassed | EventView::VerificationFailed => Operation::Verify,
            EventView::Copied | EventView::CopyFailed => Operation::Stage,
            EventView::Committed | EventView::CommitFailed => Operation::Install,
        }
    }

    /// The event reports a failure.
    pub open spec fn is_failure(self) -> bool {
        self is FetchFailed || self is PersistFailed || self is VerificationFailed
            || self is CopyFailed || self is CommitFailed
    }
}

/// What has to be undone when an install is cancelled. Which it is depends on
/// how far the install had come.
#[derive(Clone, Debug, PartialEq, Eq)]
pub enum Cleanup {
    /// Abort the fetch in flight and delete the downloaded artifact at
    /// `path`, whole or partial.
    Download { path: String },
    /// Discard the result of the verification. Nothing on the filesystem
    /// changes: the downloaded artifact stays.
    Verification,
    /// Delete the record of the postponed install.
    Postponement,
    /// Abort the resume, and uninstall what was installed in part.
    Resumption,
    /// Delete the staged artifact at `path`.
    Staging { path: String },
    /// Uninstall the add-on and remove its installed artifact at `path`.
    Installation { path: String },
}

/// A [`Cleanup`] as mathematics.
pub enum CleanupView {
    Download { path: Seq<char> },
    Verification,
    Postponement,
    Resumption,
    Staging { path: Seq<char> },
    Installation { path: Seq<char> },
}

impl View for Cleanup {
    type V = CleanupView;

    open spec fn view(&self) -> CleanupView {
        match *self {
            Cleanup::Download { path } => CleanupView::Download { path: path@ },
            Cleanup::Verification => CleanupView::Verification,
            Cleanup::Postponement => CleanupView::Postponement,
            Cleanup::Resumption => CleanupView::Resumption,
            Cleanup::Staging { path } => CleanupView::Staging { path: path@ },
            Cleanup::Installation { path } => CleanupView::Installation { path: path@ },
        }
    }
}

/// Install downloads, verifies, and installs an add-on.
#[derive(Debug, PartialEq, Eq)]
pub struct Install {
    pub state: InstallState,
    pub addon: Addon,
}

/// What the state machine reads and writes of an [`Install`], as mathematics.
pub struct InstallView {
    pub state: InstallState,
    pub id: Seq<char>,
    pub base_directory: Seq<char>,
    pub install_url: Url,
    pub source_uri: Seq<char>,
}

impl View for Install {
    type V = InstallView;

    open spec fn view(&self) -> InstallView {
        InstallView {
            state: self.state,
            id: self.addon.id@,
            base_directory: self.addon.install_location.base_directory@,
            install_url: self.addon.install_url,
            source_uri: self.addon.source_uri@,
        }
    }
}

impl InstallView {
    /// Where the downloaded artifact lies: `<base>/download/<id>.xpi`.
    pub open spec fn download_path(self) -> Seq<char> {
        artifact_in(download_directory_of(self.base_directory), self.id)
    }

    /// Where the staged artifact lies: `<base>/staging/<id>.xpi`.
    pub open spec fn staged_path(self) -> Seq<char> {
        artifact_in(staging_directory_of(self.base_directory), self.id)
    }

    /// The same install in another state.
    pub open spec fn in_state(self, state: InstallState) -> InstallView {
        InstallView { state, ..self }
    }

    /// The same install with its artifact at another path.
    pub open spec fn with_source(self, source_uri: Seq<char>) -> InstallView {
        InstallView { source_uri, ..self }
    }

    /// The outside work that `operation` starts with. Postponing, resuming and
    /// cancelling start no work.
    pub open spec fn work(self, operation: Operation) -> Option<ActionView> {
        match operation {
            Operation::Download => Some(ActionView::Fetch { url: self.install_url }),
            Operation::Verify => Some(ActionView::Verify { path: self.source_uri }),
            Operation::Stage => Some(
                ActionView::Copy {
                    directory: staging_directory_of(self.base_directory),
                    from: self.source_uri,
                    to: self.staged_path(),
                },
            ),
            Operation::Install => Some(ActionView::Commit),
            _ => None,
        }
    }

    /// The install after `operation` was asked for. Where the state does not
    /// permit the operation, nothing changes. An operation with outside work
    /// is then under way; postponing, resuming and cancelling are complete.
    pub open spec fn asked(self, operation: Operation) -> InstallView {
        if !operation.permitted_from(self.state) {
            self
        } else if self.work(operation) is Some {
            self.in_state(operation.entered())
        } else {
            self.in_state(operation.completed())
        }
    }

    /// The install accepts `event`: the operation that the event reports on
    /// is under way.
    pub open spec fn accepts(self, event: EventView) -> bool {
        self.state == event.operation().entered()
    }

    /// Where the artifact lies once `operation` has succeeded: downloading
    /// and staging each produce one, the others leave it where it is.
    pub open spec fn produced(self, operation: Operation) -> Seq<char> {
        match operation {
            Operation::Download => self.download_path(),
            Operation::Stage => self.staged_path(),
            _ => self.source_uri,
        }
    }

    /// The install at the moment `operation` has succeeded, before the
    /// operation chained to it starts.
    pub open spec fn succeeded(self, operation: Operation) -> InstallView {
        self.with_source(self.produced(operation)).in_state(operation.completed())
    }

    /// The install after `event` was handled. An event that is not accepted
    /// changes nothing. A failure leaves the failed state of its operation.
    /// Fetched bytes leave the download under way. A completion records
    /// where the artifact now lies and starts the chained operation, if
    /// there is one.
    pub open spec fn after(self, event: EventView) -> InstallView {
        let operation = event.operation();
        if !self.accepts(event) {
            self
        } else if event.is_failure() {
            self.in_state(operation.failed())
        } else if event is Fetched {
            self
        } else {
            let done = self.succeeded(operation);
            match operation.chained() {
                Some(next) => done.asked(next),
                None => done,
            }
        }
    }

    /// The outside work that handling `event` asks for: to persist what was
    /// fetched, the work of the chained operation after a completion, and
    /// nothing after a failure, after the last step, or for an event that
    /// is not accepted.
    pub open spec fn reply(self, event: EventView) -> Option<ActionView> {
        let operation = event.operation();
        if !self.accepts(event) || event.is_failure() {
            None
        } else if let EventView::Fetched(bytes) = event {
            Some(
                ActionView::Persist {
                    directory: download_directory_of(self.base_directory),
                    path: self.download_path(),
                    bytes,
                },
            )
        } else {
            match operation.chained() {
                Some(next) => self.succeeded(operation).work(next),
                None => None,
            }
        }
    }

    /// What cancelling has to undo in this state.
    pub open spec fn cleanup(self) -> CleanupView {
        match self.state {
            InstallState::Downloading | InstallState::Downloaded => CleanupView::Download {
                path: self.download_path(),
            },
            InstallState::Postponing | InstallState::Postponed => CleanupView::Postponement,
            InstallState::Resuming | InstallState::Resumed => CleanupView::Resumption,
            InstallState::Staging | InstallState::Staged => CleanupView::Staging {
                path: self.staged_path(),
            },
            InstallState::Installing | InstallState::Installed => CleanupView::Installation {
                path: self.source_uri,
            },
            _ => CleanupView::Verification,
        }
    }
}

/// The views of the actions in `next`.
pub open spec fn view_of(next: Option<Action>) -> Option<ActionView> {
    match next {
        Some(action) => Some(action@),
        None => None,
    }
}

impl Install {
    /// A fresh install of `addon`: nothing has happened yet.
    pub fn new(addon: Addon) -> (install: Self)
        ensures
            install.state is Available,
            install.addon == addon,
    {
        Install { state: InstallState::Available, addon: addon }
    }

    /// Starts the download. Permitted only where the install is available:
    /// the download is then under way and the artifact is to be fetched from
    /// the add-on's URL. Anywhere else the call is refused and nothing
    /// changes.
    pub fn download(&mut self) -> (begun: Result<Action, TransitionError>)
        ensures
            begun is Ok <==> old(self).state is Available,
            begun matches Ok(action) ==> Some(action@) == old(self)@.work(Operation::Download),
            begun matches Err(error) ==> error == (TransitionError {
                state: old(self).state,
                operation: Operation::Download,
            }) && *final(self) == *old(self),
            final(self)@ == old(self)@.asked(Operation::Download),
            final(self).addon == old(self).addon,
    {
        match self.state.begin(Operation::Download) {
            Ok(state) => {
                self.state = state;
                Ok(Action::Fetch { url: clone_url(&self.addon.install_url) })
            },
            Err(error) => Err(error),
        }
    }

    /// Starts the verification. Permitted only where the artifact is
    /// downloaded: the verification is then under way and the artifact at
    /// the add-on's path is to be checked. Anywhere else the call is refused
    /// and nothing changes.
    pub fn verify(&mut self) -> (begun: Result<Action, TransitionError>)
        ensures
            begun is Ok <==> old(self).state is Downloaded,
            begun matches Ok(action) ==> Some(action@) == old(self)@.work(Operation::Verify),
            begun matches Err(error) ==> error == (TransitionError {
                state: old(self).state,
                operation: Operation::Verify,
            }) && *final(self) == *old(self),
            final(self)@ == old(self)@.asked(Operation::Verify),
            final(self).addon == old(self).addon,
    {
        match self.state.begin(Operation::Verify) {
            Ok(state) => {
                self.state = state;
                Ok(Action::Verify { path: self.addon.source_uri.clone() })
            },
            Err(error) => Err(error),
        }
    }

    /// Starts the staging. Permitted only where the artifact is verified:
    /// the staging is then under way and the artifact is to be copied from
    /// the add-on's path to `<base>/staging/<id>.xpi`. Anywhere else the
    /// call is refused and nothing changes.
    pub fn stage(&mut self) -> (begun: Result<Action, TransitionError>)
        ensures
            begun is Ok <==> old(self).state is Verified,
            begun matches Ok(action) ==> Some(action@) == old(self)@.work(Operation::Stage),
            begun matches Err(error) ==> error == (TransitionError {
                state: old(self).state,
                operation: Operation::Stage,
            }) && *final(self) == *old(self),
            final(self)@ == old(self)@.asked(Operation::Stage),
            final(self).addon == old(self).addon,
    {
        match self.state.begin(Operation::Stage) {
            Ok(state) => {
                self.state = state;
                let directory = self.addon.install_location.get_staging_directory();
                let to = artifact_path(directory.clone(), self.addon.id.as_str());
                Ok(Action::Copy { directory, from: self.addon.source_uri.clone(), to })
            },
            Err(error) => Err(error),
        }
    }

    /// Starts the registration with the host. Permitted only where the
    /// artifact is staged: the installation is then under way. Anywhere else
    /// the call is refused and nothing changes.
    pub fn install(&mut self) -> (begun: Result<Action, TransitionError>)
        ensures
            begun is Ok <==> old(self).state is Staged,
            begun matches Ok(action) ==> Some(action@) == old(self)@.work(Operation::Install),
            begun matches Err(error) ==> error == (TransitionError {
                state: old(self).state,
                operation: Operation::Install,
            }) && *final(self) == *old(self),
            final(self)@ == old(self)@.asked(Operation::Install),
            final(self).addon == old(self).addon,
    {
        match self.state.begin(Operation::Install) {
            Ok(state) => {
                self.state = state;
                Ok(Action::Commit)
            },
            Err(error) => Err(error),
        }
    }

    /// Takes the outcome of the action that was handed out last and says
    /// what is to be done next, if anything.
    ///
    /// An event is accepted only while the operation that it reports on is
    /// under way; any other is refused and nothing changes. A failure leaves
    /// the failed state of that operation and asks for nothing more. Fetched
    /// bytes are to be persisted at `<base>/download/<id>.xpi`. A completion
    /// records the artifact's new path where there is one, and starts the
    /// chained operation: verification after the download, staging after
    /// the verification, installation after the staging.
    pub fn handle(&mut self, event: Event) -> (next: Result<Option<Action>, TransitionError>)
        ensures
            next is Ok <==> old(self)@.accepts(event@),
            next matches Ok(action) ==> view_of(action) == old(self)@.reply(event@),
            next matches Err(error) ==> error == (TransitionError {
                state: old(self).state,
                operation: event@.operation(),
            }) && *final(self) == *old(self),
            final(self)@ == old(self)@.after(event@),
            final(self).addon.same_identity(&old(self).addon),
    {
        match event {
            Event::Fetched(bytes) => match self.state {
                InstallState::Downloading => {
                    let directory = self.addon.install_location.get_download_directory();
                    let path = artifact_path(directory.clone(), self.addon.id.as_str());
                    Ok(Some(Action::Persist { directory, path, bytes }))
                },
                _ => Err(TransitionError { state: self.state, operation: Operation::Download }),
            },
            Event::Persisted => match self.state {
                InstallState::Downloading => {
                    let directory = self.addon.install_location.get_download_directory();
                    self.addon.source_uri = artifact_path(directory, self.addon.id.as_str());
                    self.state = InstallState::Downloaded;
                    match self.verify() {
                        Ok(action) => Ok(Some(action)),
                        Err(error) => Err(error),
                    }
                },
                _ => Err(TransitionError { state: self.state, operation: Operation::Download }),
            },
            Event::FetchFailed | Event::PersistFailed => match self.state {
                InstallState::Downloading => {
                    self.state = InstallState::DownloadFailed;
                    Ok(None)
                },
                _ => Err(TransitionError { state: self.state, operation: Operation::Download }),
            },
            Event::VerificationPassed => match self.state {
                InstallState::Verifying => {
                    self.state = InstallState::Verified;
                    match self.stage() {
                        Ok(action) => Ok(Some(action)),
                        Err(error) => Err(error),
                    }
                },
                _ => Err(TransitionError { state: self.state, operation: Operation::Verify }),
            },
            Event::VerificationFailed => match self.state {
                InstallState::Verifying => {
                    self.state = InstallState::VerifyFailed;
                    Ok(None)
                },
                _ => Err(TransitionError { state: self.state, operation: Operation::Verify }),
            },
            Event::Copied => match self.state {
                InstallState::Staging => {
                    let directory = self.addon.install_location.get_staging_directory();
                    self.addon.source_uri = artifact_path(directory, self.addon.id.as_str());
                    self.state = InstallState::Staged;
                    match self.install() {
                        Ok(action) => Ok(Some(action)),
                        Err(error) => Err(error),
                    }
                },
                _ => Err(TransitionError { state: self.state, operation: Operation::Stage }),
            },
            Event::CopyFailed => match self.state {
                InstallState::Staging => {
                    self.state = InstallState::StagingFailed;
                    Ok(None)
                },
                _ => Err(TransitionError { state: self.state, operation: Operation::Stage }),
            },
            Event::Committed => match self.state {
                InstallState::Installing => {
                    self.state = InstallState::Installed;
                    Ok(None)
                },
                _ => Err(TransitionError { state: self.state, operation: Operation::Install }),
            },
            Event::CommitFailed => match self.state {
                InstallState::Installing => {
                    self.state = InstallState::InstallFailed;
                    Ok(None)
                },
                _ => Err(TransitionError { state: self.state, operation: Operation::Install }),
            },
        }
    }

    /// Cancels the install. Permitted in every state from the start of the
    /// download to the installed add-on, but not before, not after a failure
    /// and not twice: there the call is refused and nothing changes. Where
    /// it is permitted the install is cancelled, and the result says what
    /// the caller has to undo.
    pub fn cancel(&mut self) -> (cancelled: Result<Cleanup, TransitionError>)
        ensures
            cancelled is Ok <==> old(self).state.is_cancellable(),
            cancelled matches Ok(cleanup) ==> cleanup@ == old(self)@.cleanup(),
            cancelled matches Err(error) ==> error == (TransitionError {
                state: old(self).state,
                operation: Operation::Cancel,
            }) && *final(self) == *old(self),
            final(self)@ == old(self)@.asked(Operation::Cancel),
            final(self).addon == old(self).addon,
    {
        let cleanup = match self.state {
            InstallState::Downloading | InstallState::Downloaded => {
                let directory = self.addon.install_location.get_download_directory();
                Cleanup::Download { path: artifact_path(directory, self.addon.id.as_str()) }
            },
            InstallState::Verifying | InstallState::Verified => Cleanup::Verification,
            InstallState::Postponing | InstallState::Postponed => Cleanup::Postponement,
            InstallState::Resuming | InstallState::Resumed => Cleanup::Resumption,
            InstallState::Staging | InstallState::Staged => {
                let directory = self.addon.install_location.get_staging_directory();
                Cleanup::Staging { path: artifact_path(directory, self.addon.id.as_str()) }
            },
            InstallState::Installing | InstallState::Installed => Cleanup::Installation {
                path: self.addon.source_uri.clone(),
            },
            _ => {
                return Err(TransitionError { state: self.state, operation: Operation::Cancel });
            },
        };
        self.state = InstallState::Cancelled;
        Ok(cleanup)
    }

    /// Postpones staging and installation. Permitted only where the
    /// artifact is verified: the install is then postponed, and the
    /// downloaded artifact stays where it is. Anywhere else the call is
    /// refused and nothing changes.
    pub fn postpone(&mut self) -> (postponed: Result<(), TransitionError>)
        ensures
            postponed is Ok <==> old(self).state is Verified,
            postponed matches Err(error) ==> error == (TransitionError {
                state: old(self).state,
                operation: Operation::Postpone,
            }) && *final(self) == *old(self),
            final(self)@ == old(self)@.asked(Operation::Postpone),
            final(self).addon == old(self).addon,
    {
        match self.state.begin(Operation::Postpone) {
            Ok(state) => {
                self.state = state;
                self.state = InstallState::Postponed;
                Ok(())
            },
            Err(error) => Err(error),
        }
    }

    /// Resumes a postponed install. Permitted only where the install is
    /// postponed: it is then resumed, and stays so until the caller asks for
    /// more. Anywhere else the call is refused and nothing changes.
    pub fn resume(&mut self) -> (resumed: Result<(), TransitionError>)
        ensures
            resumed is Ok <==> old(self).state is Postponed,
            resumed matches Err(error) ==> error == (TransitionError {
                state: old(self).state,
                operation: Operation::Resume,
            }) && *final(self) == *old(self),
            final(self)@ == old(self)@.asked(Operation::Resume),
            final(self).addon == old(self).addon,
    {
        match self.state.begin(Operation::Resume) {
            Ok(state) => {
                self.state = state;
                self.state = InstallState::Resumed;
                Ok(())
            },
            Err(error) => Err(error),
        }
    }
}

} // verus!
