//! The reasons for which a package record is refused.

use vstd::prelude::*;

verus! {

/// Why the fields gathered for a package do not make a valid record.
#[derive(Clone, Copy, Debug, PartialEq, Eq, Structural)]
pub enum PackageParsingError {
    /// No project name seed was given.
    MissingProjectNameSeed,
    /// The project name seed is the empty string.
    EmptyProjectNameSeed,
    /// No display name was given.
    MissingVisibleName,
    /// The display name is the empty string.
    EmptyVisibleName,
    /// No version was given.
    MissingVersion,
    /// The version is the empty string.
    EmptyVersion,
    /// Neither a source name nor any binary name was given.
    MissingPackageNames,
    /// The source name is the empty string.
    EmptySrcName,
    /// The single binary name is the empty string.
    EmptyBinName,
    /// A name in the list of binary names is the empty string.
    EmptyBinNamesEntry,
}

} // verus!
