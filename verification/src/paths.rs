//! The path resolver: pure path computation for the per-user install
//! directory of a version, and for the intermediate archive file written
//! beside it.
//!
//! The resolver composes the user's home directory, the fixed hidden
//! namespace `.nom`, and the version tag.  Discovering the home directory and
//! creating the directory on disk are I/O and belong to the driver; the
//! contracts here pin down the paths the driver is told to use.

use vstd::prelude::*;
use vstd::string::StringExecFns;

verus! {

/// The install directory for a version: `<home>/.nom/<version>`.
pub open spec fn install_dir_of(home: Seq<char>, version: Seq<char>) -> Seq<char> {
    home + "/.nom/"@ + version
}

/// The intermediate archive file for an install directory: a sibling file
/// `<dir>.tar`, deliberately outside the directory it is unpacked into.
pub open spec fn archive_file_of(dir: Seq<char>) -> Seq<char> {
    dir + ".tar"@
}

/// Computes the install directory for `version` under `home`.
pub fn install_dir(home: &str, version: &str) -> (dir: String)
    ensures
        dir@ == install_dir_of(home@, version@),
{
    let mut dir = String::new();
    dir.append(home);
    dir.append("/.nom/");
    dir.append(version);
    proof {
        assert(dir@ =~= install_dir_of(home@, version@));
    }
    dir
}

/// Computes the path of the intermediate archive file for `dir`.
pub fn archive_file(dir: &str) -> (file: String)
    ensures
        file@ == archive_file_of(dir@),
{
    let mut file = String::new();
    file.append(dir);
    file.append(".tar");
    proof {
        assert(file@ =~= archive_file_of(dir@));
    }
    file
}

/// Resolving the install directory is a pure function of home and version:
/// two resolutions of the same inputs agree, so a second resolution returns
/// the same path as the first.
pub proof fn lemma_install_dir_deterministic(
    home: Seq<char>,
    version: Seq<char>,
    dir1: Seq<char>,
    dir2: Seq<char>,
)
    requires
        version.len() > 0,
        dir1 == install_dir_of(home, version),
        dir2 == install_dir_of(home, version),
    ensures
        dir1 == dir2,
{
}

/// The intermediate archive file is distinct from the install directory it
/// sits beside, and does not lie anywhere under that directory.
pub proof fn lemma_archive_file_distinct(dir: Seq<char>)
    ensures
        archive_file_of(dir) != dir,
        forall|rest: Seq<char>| archive_file_of(dir) != dir + "/"@ + rest,
{
    reveal_strlit(".tar");
    reveal_strlit("/");
    assert(archive_file_of(dir).len() == dir.len() + 4);
    assert forall|rest: Seq<char>| archive_file_of(dir) != dir + "/"@ + rest by {
        let under = dir + "/"@ + rest;
        if archive_file_of(dir) == under {
            assert(archive_file_of(dir)[dir.len() as int] == '.');
            assert(under[dir.len() as int] == '/');
        }
    }
}

} // verus!
