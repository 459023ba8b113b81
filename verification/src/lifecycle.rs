//! Laws of the install lifecycle, proved of the model that the operations of
//! [`Install`](crate::install::Install) are specified by.

use vstd::prelude::*;
use crate::install::ActionView;
use crate::install::CleanupView;
use crate::install::EventView;
use crate::install::InstallView;
use crate::location::download_directory_of;
use crate::location::staging_directory_of;
use crate::state::InstallState;
use crate::state::Operation;

verus! {

impl InstallView {
    /// The artifact's path fits the state: there is none before the download
    /// is complete, it is the downloaded one from then until the staging is
    /// complete, and the staged one from then on. A cancelled install keeps
    /// the path it had.
    pub open spec fn coherent(self) -> bool {
        match self.state {
            InstallState::Available | InstallState::Downloading | InstallState::DownloadFailed => {
                self.source_uri == Seq::<char>::empty()
            },
            InstallState::Downloaded | InstallState::Verifying | InstallState::Verified
            | InstallState::VerifyFailed | InstallState::Postponing | InstallState::Postponed
            | InstallState::PostponedFailed | InstallState::Resuming | InstallState::Resumed
            | InstallState::ResumeFailed | InstallState::Staging | InstallState::StagingFailed => {
                self.source_uri == self.download_path()
            },
            InstallState::Staged | InstallState::Installing | InstallState::Installed
            | InstallState::InstallFailed => self.source_uri == self.staged_path(),
            _ => true,
        }
    }
}

/// An operation asked for in a state that does not permit it is refused, and
/// the install stays exactly as it was.
pub proof fn lemma_refused_operation_changes_nothing(install: InstallView, operation: Operation)
    requires
        !operation.permitted_from(install.state),
    ensures
        install.state.begun(operation) is Err,
        install.asked(operation) == install,
{
}

/// An event that reports on an operation that is not under way is not
/// accepted: the install stays exactly as it was, and no work is asked for.
pub proof fn lemma_refused_event_changes_nothing(install: InstallView, event: EventView)
    requires
        !install.accepts(event),
    ensures
        install.after(event) == install,
        install.reply(event) is None,
{
}

/// Neither an operation nor an event changes which add-on is installed, from
/// where, or into which place: only the state and the artifact's path move.
pub proof fn lemma_identity_is_kept(install: InstallView, operation: Operation, event: EventView)
    ensures
        install.asked(operation).id == install.id,
        install.asked(operation).base_directory == install.base_directory,
        install.asked(operation).install_url == install.install_url,
        install.asked(operation).source_uri == install.source_uri,
        install.after(event).id == install.id,
        install.after(event).base_directory == install.base_directory,
        install.after(event).install_url == install.install_url,
{
}

/// A download that is started on an available install and succeeds at every
/// step ends with the add-on installed and the artifact's path at the staged
/// artifact. On the way the bytes that were fetched are the ones persisted,
/// what was persisted is what is verified, and what was verified is what is
/// copied into the staging area.
pub proof fn lemma_successful_run_installs(install: InstallView, bytes: Seq<u8>)
    requires
        install.state is Available,
    ensures
        ({
            let downloading = install.asked(Operation::Download);
            let persisting = downloading.after(EventView::Fetched(bytes));
            let verifying = persisting.after(EventView::Persisted);
            let staging = verifying.after(EventView::VerificationPassed);
            let installing = staging.after(EventView::Copied);
            let installed = installing.after(EventView::Committed);
            &&& install.work(Operation::Download) == Some(
                ActionView::Fetch { url: install.install_url },
            )
            &&& downloading.state is Downloading
            &&& downloading.reply(EventView::Fetched(bytes)) == Some(
                ActionView::Persist {
                    directory: download_directory_of(install.base_directory),
                    path: install.download_path(),
                    bytes,
                },
            )
            &&& persisting.state is Downloading
            &&& persisting.reply(EventView::Persisted) == Some(
                ActionView::Verify { path: install.download_path() },
            )
            &&& verifying.state is Verifying
            &&& verifying.source_uri == install.download_path()
            &&& verifying.reply(EventView::VerificationPassed) == Some(
                ActionView::Copy {
                    directory: staging_directory_of(install.base_directory),
                    from: install.download_path(),
                    to: install.staged_path(),
                },
            )
            &&& staging.state is Staging
            &&& staging.reply(EventView::Copied) == Some(ActionView::Commit)
            &&& installing.state is Installing
            &&& installing.reply(EventView::Committed) is None
            &&& installed.state is Installed
            &&& installed.source_uri == install.staged_path()
        }),
{
}

/// A failure that is accepted leaves the failed state of the step in which it
/// occurred and asks for no further work. In that state no operation is
/// permitted and no event is accepted, so nothing is retried and no later
/// step is ever started. The artifact's path stays as it was.
pub proof fn lemma_failure_ends_the_run(install: InstallView, failure: EventView)
    requires
        install.accepts(failure),
        failure.is_failure(),
    ensures
        install.after(failure).state == failure.operation().failed(),
        install.after(failure).state.is_failure(),
        install.after(failure).source_uri == install.source_uri,
        install.reply(failure) is None,
        forall|operation: Operation| !operation.permitted_from(install.after(failure).state),
        forall|event: EventView| !install.after(failure).accepts(event),
{
}

/// Where the fetch fails in a download that was started on an available
/// install, the download has failed: nothing is persisted, and neither
/// verification, staging nor installation is ever started.
pub proof fn lemma_fetch_failure_stops_the_download(install: InstallView)
    requires
        install.state is Available,
    ensures
        ({
            let downloading = install.asked(Operation::Download);
            let failed = downloading.after(EventView::FetchFailed);
            &&& downloading.reply(EventView::FetchFailed) is None
            &&& failed.state is DownloadFailed
            &&& failed.source_uri == install.source_uri
            &&& forall|operation: Operation| failed.asked(operation) == failed
            &&& forall|event: EventView| failed.after(event) == failed
            &&& forall|event: EventView| failed.reply(event) is None
        }),
{
    let failed = install.asked(Operation::Download).after(EventView::FetchFailed);
    lemma_failure_ends_the_run(install.asked(Operation::Download), EventView::FetchFailed);
    assert forall|operation: Operation| failed.asked(operation) == failed by {
        lemma_refused_operation_changes_nothing(failed, operation);
    }
    assert forall|event: EventView| failed.after(event) == failed && failed.reply(event) is None by {
        lemma_refused_event_changes_nothing(failed, event);
    }
}

/// Postponing is permitted in the verified state and in no other, and no
/// other operation and no event leads to the postponed state.
pub proof fn lemma_postponed_only_from_verified(
    install: InstallView,
    operation: Operation,
    event: EventView,
)
    ensures
        Operation::Postpone.permitted_from(install.state) <==> install.state is Verified,
        install.state is Verified ==> install.asked(Operation::Postpone).state is Postponed,
        install.asked(operation).state is Postponed && !(install.state is Postponed) ==> operation
            is Postpone && install.state is Verified,
        install.after(event).state is Postponed ==> install.state is Postponed,
{
}

/// Resuming a postponed install leaves it resumed, with its artifact where
/// it was. No work is asked for, and in the resumed state no event is
/// accepted: the install goes no further until the caller asks for an
/// operation.
pub proof fn lemma_resume_waits_for_the_caller(install: InstallView, event: EventView)
    requires
        install.state is Postponed,
    ensures
        install.asked(Operation::Resume).state is Resumed,
        install.asked(Operation::Resume).source_uri == install.source_uri,
        install.work(Operation::Resume) is None,
        install.asked(Operation::Resume).after(event) == install.asked(Operation::Resume),
        install.asked(Operation::Resume).reply(event) is None,
{
}

/// Cancelling, where it is permitted, leaves the install cancelled whatever
/// the state was. Cancelling again is refused and changes nothing, and so is
/// every other operation and every event.
pub proof fn lemma_cancel_converges(install: InstallView, operation: Operation, event: EventView)
    requires
        install.state.is_cancellable(),
    ensures
        install.asked(Operation::Cancel).state is Cancelled,
        !Operation::Cancel.permitted_from(install.asked(Operation::Cancel).state),
        install.asked(Operation::Cancel).asked(operation) == install.asked(Operation::Cancel),
        install.asked(Operation::Cancel).after(event) == install.asked(Operation::Cancel),
{
}

/// Cancelling a staged install leaves it cancelled and asks for the staged
/// artifact to be deleted.
pub proof fn lemma_cancel_of_staged_removes_the_artifact(install: InstallView)
    requires
        install.state is Staged,
    ensures
        install.asked(Operation::Cancel).state is Cancelled,
        install.cleanup() == (CleanupView::Staging { path: install.staged_path() }),
{
}

/// An available install for which no artifact was produced yet is coherent.
pub proof fn lemma_fresh_install_is_coherent(install: InstallView)
    requires
        install.state is Available,
        install.source_uri == Seq::<char>::empty(),
    ensures
        install.coherent(),
{
}

/// Operations and events keep the artifact's path fitting the state.
pub proof fn lemma_coherence_is_kept(install: InstallView, operation: Operation, event: EventView)
    requires
        install.coherent(),
    ensures
        install.asked(operation).coherent(),
        install.after(event).coherent(),
{
}

/// In a coherent install, what cancelling asks to be removed is the artifact
/// that the state speaks of: the downloaded one while downloading, the staged
/// one from staging on.
pub proof fn lemma_cleanup_names_the_artifact(install: InstallView)
    requires
        install.coherent(),
    ensures
        install.cleanup() matches CleanupView::Download { path } ==> path
            == install.download_path(),
        install.cleanup() matches CleanupView::Staging { path } ==> path == install.staged_path(),
        install.cleanup() matches CleanupView::Installation { path } ==> path
            == install.staged_path(),
{
}

} // verus!
