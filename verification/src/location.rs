//! Install locations: where on the filesystem add-ons are kept, and the
//! download and staging areas below that place.

use vstd::prelude::*;

verus! {

/// Possible names for install locations.
#[derive(Clone, Debug, PartialEq, Eq)]
pub enum InstallLocationName {
    Profile,
    Application,
    System,
    /// A free-form label.
    Custom(String),
}

/// The leaf name of the download area.
pub open spec fn download_leaf() -> Seq<char> {
    seq!['d', 'o', 'w', 'n', 'l', 'o', 'a', 'd']
}

/// The leaf name of the staging area.
pub open spec fn staging_leaf() -> Seq<char> {
    seq!['s', 't', 'a', 'g', 'i', 'n', 'g']
}

/// `parent`, a slash, then `child`.
pub open spec fn join(parent: Seq<char>, child: Seq<char>) -> Seq<char> {
    parent + seq!['/'] + child
}

/// The download directory below `base`.
pub open spec fn download_directory_of(base: Seq<char>) -> Seq<char> {
    join(base, download_leaf())
}

/// The staging directory below `base`.
pub open spec fn staging_directory_of(base: Seq<char>) -> Seq<char> {
    join(base, staging_leaf())
}

/// An install location points to the area on the filesystem to store installed
/// add-ons, and controls access to the staging and download areas.
#[derive(Clone, Debug, PartialEq, Eq)]
pub struct InstallLocation {
    pub name: InstallLocationName,
    pub base_directory: String,
}

impl InstallLocation {
    /// The download directory of this location.
    pub open spec fn download_directory(&self) -> Seq<char> {
        download_directory_of(self.base_directory@)
    }

    /// The staging directory of this location.
    pub open spec fn staging_directory(&self) -> Seq<char> {
        staging_directory_of(self.base_directory@)
    }

    /// The location called `name` whose add-ons are kept below
    /// `base_directory`.
    pub fn new(name: InstallLocationName, base_directory: String) -> (location: Self)
        ensures
            location.name == name,
            location.base_directory == base_directory,
    {
        InstallLocation { name, base_directory }
    }

    /// The download directory of this location: the base directory, a slash
    /// and `download`. The location is left as it was, and the path it would
    /// hand out next is the one it handed out now: asking again gives the
    /// same path.
    pub fn get_download_directory(&mut self) -> (path: String)
        ensures
            path@ == old(self).download_directory(),
            *final(self) == *old(self),
            final(self).download_directory() == path@,
    {
        proof {
            reveal_strlit("/");
            reveal_strlit("download");
        }
        let path = self.base_directory.clone().concat("/").concat("download");
        assert(path@ =~= old(self).download_directory());
        path
    }

    /// The staging directory of this location: the base directory, a slash
    /// and `staging`. The location is left as it was, and the path it would
    /// hand out next is the one it handed out now: asking again gives the
    /// same path.
    pub fn get_staging_directory(&mut self) -> (path: String)
        ensures
            path@ == old(self).staging_directory(),
            *final(self) == *old(self),
            final(self).staging_directory() == path@,
    {
        proof {
            reveal_strlit("/");
            reveal_strlit("staging");
        }
        let path = self.base_directory.clone().concat("/").concat("staging");
        assert(path@ =~= old(self).staging_directory());
        path
    }
}

} // verus!
