//! Lifecycle management for installing an add-on from a remote source into a
//! local install location.
//!
//! The crate holds the decisions of the install pipeline: which operations are
//! permitted in which state, which state follows, which paths the artifact
//! takes, and what outside work has to happen next. Fetching, touching the
//! filesystem and registering with the host are carried out by the caller, who
//! reports each outcome back as an [`Event`].

pub mod outside;
pub mod state;
pub mod location;
pub mod manifest;
pub mod addon;
pub mod install;
pub mod lifecycle;

pub use location::InstallLocation;
pub use location::InstallLocationName;
pub use state::InstallState;
pub use state::Operation;
pub use state::TransitionError;
pub use manifest::AddonType;
pub use manifest::Manifest;
pub use manifest::ManifestError;
pub use addon::Addon;
pub use install::Action;
pub use install::Cleanup;
pub use install::Event;
pub use install::Install;
