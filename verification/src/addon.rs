//! Add-ons: an identity, the place to install into, and where the artifact
//! currently lies.

use vstd::prelude::*;
use hyper::Url;
use semver::Version;
use crate::location::InstallLocation;
use crate::location::join;
use crate::manifest::Manifest;

verus! {

/// The extension of an artifact's file name.
pub open spec fn artifact_extension() -> Seq<char> {
    seq!['.', 'x', 'p', 'i']
}

/// The file name of the artifact of the add-on `id`: the id, then `.xpi`.
/// Each add-on has a file of its own in a directory that several share.
pub open spec fn artifact_name(id: Seq<char>) -> Seq<char> {
    id + artifact_extension()
}

/// The path of the artifact of the add-on `id` inside `directory`.
pub open spec fn artifact_in(directory: Seq<char>, id: Seq<char>) -> Seq<char> {
    join(directory, artifact_name(id))
}

/// The path of the artifact of the add-on `id` inside `directory`: the
/// directory, a slash, the id and `.xpi`.
pub fn artifact_path(directory: String, id: &str) -> (path: String)
    ensures
        path@ == artifact_in(directory@, id@),
{
    proof {
        reveal_strlit("/");
        reveal_strlit(".xpi");
    }
    let path = directory.concat("/").concat(id).concat(".xpi");
    assert(path@ =~= artifact_in(directory@, id@));
    path
}

/// An add-on represents an individual add-on.
#[derive(Debug, PartialEq, Eq)]
pub struct Addon {
    pub id: String,
    pub name: String,
    pub version: Version,
    pub install_url: Url,
    pub install_location: InstallLocation,
    /// The path of the artifact that was produced last; empty until the
    /// download is complete.
    pub source_uri: String,
}

impl Addon {
    /// Everything but the artifact's path is the same in `self` and `other`.
    pub open spec fn same_identity(&self, other: &Addon) -> bool {
        &&& self.id == other.id
        &&& self.name == other.name
        &&& self.version == other.version
        &&& self.install_url == other.install_url
        &&& self.install_location == other.install_location
    }

    /// Makes the add-on that `manifest` describes, to be installed into
    /// `install_location`. No artifact exists yet.
    pub fn new(manifest: Manifest, install_location: InstallLocation) -> (addon: Self)
        ensures
            addon.id == manifest.id,
            addon.name == manifest.name,
            addon.version == manifest.version,
            addon.install_url == manifest.url,
            addon.install_location == install_location,
            addon.source_uri@ == Seq::<char>::empty(),
    {
        Addon {
            id: manifest.id,
            name: manifest.name,
            version: manifest.version,
            install_url: manifest.url,
            install_location: install_location,
            source_uri: String::new(),
        }
    }
}

} // verus!
