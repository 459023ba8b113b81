//! Manifests: the description of an add-on that can be installed.

use vstd::prelude::*;
use hyper::Url;
use semver::Version;

verus! {

/// Possible types of add-ons.
#[derive(Clone, Copy, Debug, PartialEq, Eq, Structural)]
pub enum AddonType {
    NativeExtension,
    WebExtension,
    Theme,
    Plugin,
    Service,
}

/// Why a manifest could not be made.
#[derive(Clone, Copy, Debug, PartialEq, Eq, Structural)]
pub enum ManifestError {
    /// The id is empty.
    EmptyId,
}

/// A manifest describes an available add-on. The version and the URL are
/// parsed values, so they are well formed by their types; the id is checked
/// when the manifest is made.
#[derive(Debug, PartialEq, Eq)]
pub struct Manifest {
    pub id: String,
    pub name: String,
    pub version: Version,
    pub addon_type: AddonType,
    pub url: Url,
}

impl Manifest {
    /// What holds of every manifest that `new` has made: the id is not empty.
    pub open spec fn well_formed(&self) -> bool {
        self.id@.len() > 0
    }

    /// Makes a manifest of the given fields. An empty id is refused; every
    /// other input gives a manifest that holds the fields as they came.
    pub fn new(id: String, name: String, version: Version, addon_type: AddonType, url: Url) -> (made:
        Result<Self, ManifestError>)
        ensures
            id@.len() == 0 ==> made == Err::<Self, ManifestError>(ManifestError::EmptyId),
            id@.len() > 0 ==> made == Ok::<Self, ManifestError>(
                (Manifest { id, name, version, addon_type, url }),
            ),
            made is Ok ==> made.unwrap().well_formed(),
    {
        if id.as_str().is_empty() {
            Err(ManifestError::EmptyId)
        } else {
            Ok(Manifest { id, name, version, addon_type, url })
        }
    }
}

} // verus!
