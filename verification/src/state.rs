//! The install states, the operations that move between them, and the table
//! that says which operation is permitted in which state.

use vstd::prelude::*;

verus! {

/// Possible install states.
#[derive(Clone, Copy, Debug, PartialEq, Eq, Structural)]
pub enum InstallState {
    Available,
    Downloading,
    Downloaded,
    DownloadFailed,
    Verifying,
    Verified,
    VerifyFailed,
    Postponing,
    Postponed,
    PostponedFailed,
    Resuming,
    Resumed,
    ResumeFailed,
    Staging,
    Staged,
    StagingFailed,
    Installing,
    Installed,
    InstallFailed,
    Cancelling,
    Cancelled,
    CancelFailed,
    Uninstalling,
    Uninstalled,
    UninstallFailed,
}

/// The operations that a caller can ask of an install.
#[derive(Clone, Copy, Debug, PartialEq, Eq, Structural)]
pub enum Operation {
    Download,
    Verify,
    Stage,
    Install,
    Postpone,
    Resume,
    Cancel,
}

/// An operation was asked for in a state that does not permit it. Nothing was
/// changed.
#[derive(Clone, Copy, Debug, PartialEq, Eq, Structural)]
pub struct TransitionError {
    /// The state the install was in, and still is.
    pub state: InstallState,
    /// The operation that was refused.
    pub operation: Operation,
}

impl TransitionError {
    /// The text of the refusal, the same for every state and operation.
    pub fn message(&self) -> (text: String)
        ensures
            text@ == "Invalid state transition"@,
    {
        String::from_str("Invalid state transition")
    }
}

impl InstallState {
    /// One of the states that a failed step leaves behind.
    pub open spec fn is_failure(self) -> bool {
        self is DownloadFailed || self is VerifyFailed || self is PostponedFailed
            || self is ResumeFailed || self is StagingFailed || self is InstallFailed
            || self is CancelFailed || self is UninstallFailed
    }

    /// A state in which the lifecycle has ended: nothing goes on by itself.
    pub open spec fn is_terminal(self) -> bool {
        self is Installed || self is Cancelled || self.is_failure()
    }

    /// The states from which an install can be cancelled.
    pub open spec fn is_cancellable(self) -> bool {
        self is Downloading || self is Downloaded || self is Verifying || self is Verified
            || self is Postponing || self is Postponed || self is Resuming || self is Resumed
            || self is Staging || self is Staged || self is Installing || self is Installed
    }

    /// What asking for `operation` in this state gives: the state that the
    /// operation enters, or the refusal.
    pub open spec fn begun(self, operation: Operation) -> Result<InstallState, TransitionError> {
        if operation.permitted_from(self) {
            Ok(operation.entered())
        } else {
            Err(TransitionError { state: self, operation })
        }
    }

    /// Looks `operation` up in the transition table: the state that it enters
    /// where this state permits it, and the refusal where it does not.
    pub fn begin(self, operation: Operation) -> (next: Result<InstallState, TransitionError>)
        ensures
            next == self.begun(operation),
    {
        let permitted = match operation {
            Operation::Download => matches!(self, InstallState::Available),
            Operation::Verify => matches!(self, InstallState::Downloaded),
            Operation::Stage => matches!(self, InstallState::Verified),
            Operation::Install => matches!(self, InstallState::Staged),
            Operation::Postpone => matches!(self, InstallState::Verified),
            Operation::Resume => matches!(self, InstallState::Postponed),
            Operation::Cancel => matches!(
                self,
                InstallState::Downloading | InstallState::Downloaded | InstallState::Verifying
                    | InstallState::Verified | InstallState::Postponing | InstallState::Postponed
                    | InstallState::Resuming | InstallState::Resumed | InstallState::Staging
                    | InstallState::Staged | InstallState::Installing | InstallState::Installed
            ),
        };
        if permitted {
            Ok(
                match operation {
                    Operation::Download => InstallState::Downloading,
                    Operation::Verify => InstallState::Verifying,
                    Operation::Stage => InstallState::Staging,
                    Operation::Install => InstallState::Installing,
                    Operation::Postpone => InstallState::Postponing,
                    Operation::Resume => InstallState::Resuming,
                    Operation::Cancel => InstallState::Cancelling,
                },
            )
        } else {
            Err(TransitionError { state: self, operation })
        }
    }
}

impl Operation {
    /// The transition table: the states in which this operation may be asked
    /// for.
    pub open spec fn permitted_from(self, state: InstallState) -> bool {
        match self {
            Operation::Download => state is Available,
            Operation::Verify => state is Downloaded,
            Operation::Stage => state is Verified,
            Operation::Install => state is Staged,
            Operation::Postpone => state is Verified,
            Operation::Resume => state is Postponed,
            Operation::Cancel => state.is_cancellable(),
        }
    }

    /// The state in which this operation is under way.
    pub open spec fn entered(self) -> InstallState {
        match self {
            Operation::Download => InstallState::Downloading,
            Operation::Verify => InstallState::Verifying,
            Operation::Stage => InstallState::Staging,
            Operation::Install => InstallState::Installing,
            Operation::Postpone => InstallState::Postponing,
            Operation::Resume => InstallState::Resuming,
            Operation::Cancel => InstallState::Cancelling,
        }
    }

    /// The state that this operation leaves where it succeeds.
    pub open spec fn completed(self) -> InstallState {
        match self {
            Operation::Download => InstallState::Downloaded,
            Operation::Verify => InstallState::Verified,
            Operation::Stage => InstallState::Staged,
            Operation::Install => InstallState::Installed,
            Operation::Postpone => InstallState::Postponed,
            Operation::Resume => InstallState::Resumed,
            Operation::Cancel => InstallState::Cancelled,
        }
    }

    /// The state that this operation leaves where it fails.
    pub open spec fn failed(self) -> InstallState {
        match self {
            Operation::Download => InstallState::DownloadFailed,
            Operation::Verify => InstallState::VerifyFailed,
            Operation::Stage => InstallState::StagingFailed,
            Operation::Install => InstallState::InstallFailed,
            Operation::Postpone => InstallState::PostponedFailed,
            Operation::Resume => InstallState::ResumeFailed,
            Operation::Cancel => InstallState::CancelFailed,
        }
    }

    /// The operation that starts by itself once this one has succeeded.
    pub open spec fn chained(self) -> Option<Operation> {
        match self {
            Operation::Download => Some(Operation::Verify),
            Operation::Verify => Some(Operation::Stage),
            Operation::Stage => Some(Operation::Install),
            _ => None,
        }
    }
}

/// No operation is permitted in a failed state or once an install is
/// cancelled, and an installed add-on can only be cancelled: no failure is
/// retried by itself.
pub proof fn lemma_terminal_states_permit_only_cancel(state: InstallState, operation: Operation)
    requires
        state.is_terminal(),
    ensures
        operation.permitted_from(state) <==> (state is Installed && operation is Cancel),
{
}

/// What an operation leaves behind where it succeeds permits the operation
/// chained to it.
pub proof fn lemma_chain_is_permitted(operation: Operation)
    requires
        operation.chained() is Some,
    ensures
        operation.chained().unwrap().permitted_from(operation.completed()),
{
}

} // verus!
