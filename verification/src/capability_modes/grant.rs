//! A mode set granted on one path.

use vstd::prelude::*;
use vstd::string::StringExecFns;
use crate::capability::CapabilitySource;
use crate::path;
use crate::path::PathBytes;
use crate::text;
use crate::text::push_signed;
use super::mode_set;
use super::mode_set::FsModeSet;
use super::FsMode;

verus! {

/// A mode set granted on one path.
#[derive(Debug, PartialEq, Eq)]
pub struct FsModeCapability {
    /// The path as the caller wrote it.
    pub original: PathBytes,
    /// The canonical absolute path.
    pub resolved: PathBytes,
    /// The modes granted on it.
    pub modes: FsModeSet,
    /// True for a single file, false for a directory and what is below it.
    pub is_file: bool,
    /// Where this grant came from.
    pub source: CapabilitySource,
}

/// What a grant says.
pub struct GrantView {
    /// The path as the caller wrote it.
    pub original: Seq<u8>,
    /// The canonical absolute path.
    pub resolved: Seq<u8>,
    /// The modes granted on it.
    pub modes: Set<FsMode>,
    /// Whether it is on a single file.
    pub is_file: bool,
    /// Where it came from.
    pub source: CapabilitySource,
}

impl View for FsModeCapability {
    type V = GrantView;

    open spec fn view(&self) -> GrantView {
        GrantView {
            original: self.original@,
            resolved: self.resolved@,
            modes: self.modes@,
            is_file: self.is_file,
            source: self.source,
        }
    }
}

impl Clone for FsModeCapability {
    fn clone(&self) -> (copy: Self)
        ensures
            copy@ == self@,
    {
        FsModeCapability {
            original: self.original.clone(),
            resolved: self.resolved.clone(),
            modes: self.modes,
            is_file: self.is_file,
            source: self.source,
        }
    }
}

/// What resolving a path found: where it leads, and whether that is a directory.
#[derive(Debug, PartialEq, Eq)]
pub struct Found {
    /// The canonical absolute path.
    pub resolved: PathBytes,
    /// Whether a directory stands there.
    pub is_dir: bool,
}

/// Why a path cannot be granted.
#[derive(Debug, PartialEq, Eq)]
pub enum GrantError {
    /// The path leads nowhere that could be resolved.
    Unresolved {
        /// The path as the caller wrote it.
        path: PathBytes,
        /// Platform error number from resolving it.
        errno: i32,
    },
    /// A directory was asked for, and the path leads to something else.
    NotADirectory {
        /// The path as the caller wrote it.
        path: PathBytes,
    },
    /// A single file was asked for, and the path leads to a directory.
    NotAFile {
        /// The path as the caller wrote it.
        path: PathBytes,
    },
}

impl GrantError {
    /// The text of an error.
    pub open spec fn text(self) -> Seq<char> {
        match self {
            GrantError::Unresolved { path, errno } => "path "@ + path::lossy_utf8(path@)
                + " could not be resolved: errno "@ + text::signed_decimal(errno as int),
            GrantError::NotADirectory { path } => "path "@ + path::lossy_utf8(path@)
                + " is not a directory"@,
            GrantError::NotAFile { path } => "path "@ + path::lossy_utf8(path@)
                + " is not a single file"@,
        }
    }

    /// The error as a sentence.
    pub fn to_text(&self) -> (text: String)
        ensures
            text@ == self.text(),
    {
        let mut text = "path ".to_string();
        match self {
            GrantError::Unresolved { path, errno } => {
                text.append(path.to_text().as_str());
                text.append(" could not be resolved: errno ");
                push_signed(&mut text, *errno as i64);
            },
            GrantError::NotADirectory { path } => {
                text.append(path.to_text().as_str());
                text.append(" is not a directory");
            },
            GrantError::NotAFile { path } => {
                text.append(path.to_text().as_str());
                text.append(" is not a single file");
            },
        }
        text
    }
}

impl FsModeCapability {
    /// Grant `modes` on a directory, recursively. `found` is what resolving the
    /// path answered: the kind is judged on where it leads, so that nothing lies
    /// between "it is there" and "it is a directory".
    pub fn new_dir(path: PathBytes, found: Result<Found, i32>, modes: FsModeSet) -> (grant: Result<
        Self,
        GrantError,
    >)
        ensures
            grant == (match found {
                Err(errno) => Err::<Self, GrantError>(GrantError::Unresolved { path, errno }),
                Ok(found) => if found.is_dir {
                    Ok::<Self, GrantError>(
                        FsModeCapability {
                            original: path,
                            resolved: found.resolved,
                            modes,
                            is_file: false,
                            source: CapabilitySource::User,
                        },
                    )
                } else {
                    Err::<Self, GrantError>(GrantError::NotADirectory { path })
                },
            }),
    {
        match found {
            Err(errno) => Err(GrantError::Unresolved { path, errno }),
            Ok(found) => if found.is_dir {
                Ok(
                    FsModeCapability {
                        original: path,
                        resolved: found.resolved,
                        modes,
                        is_file: false,
                        source: CapabilitySource::User,
                    },
                )
            } else {
                Err(GrantError::NotADirectory { path })
            },
        }
    }

    /// Grant `modes` on a single file.
    pub fn new_file(path: PathBytes, found: Result<Found, i32>, modes: FsModeSet) -> (grant: Result<
        Self,
        GrantError,
    >)
        ensures
            grant == (match found {
                Err(errno) => Err::<Self, GrantError>(GrantError::Unresolved { path, errno }),
                Ok(found) => if found.is_dir {
                    Err::<Self, GrantError>(GrantError::NotAFile { path })
                } else {
                    Ok::<Self, GrantError>(
                        FsModeCapability {
                            original: path,
                            resolved: found.resolved,
                            modes,
                            is_file: true,
                            source: CapabilitySource::User,
                        },
                    )
                },
            }),
    {
        match found {
            Err(errno) => Err(GrantError::Unresolved { path, errno }),
            Ok(found) => if found.is_dir {
                Err(GrantError::NotAFile { path })
            } else {
                Ok(
                    FsModeCapability {
                        original: path,
                        resolved: found.resolved,
                        modes,
                        is_file: true,
                        source: CapabilitySource::User,
                    },
                )
            },
        }
    }

    /// The grant as text: the resolved path and the modes.
    pub fn to_text(&self) -> (text: String)
        ensures
            text@ == grant_text(self@),
    {
        let mut text = self.resolved.to_text();
        text.append(" ");
        text.append(self.modes.to_text().as_str());
        proof {
            reveal_strlit(" ");
            reveal_strlit("{");
            reveal_strlit(" {");
        }
        assert(text@ =~= grant_text(self@));
        text
    }
}

/// The text of a grant.
pub open spec fn grant_text(grant: GrantView) -> Seq<char> {
    path::lossy_utf8(grant.resolved) + " {"@ + mode_set::joined_names(super::in_order(grant.modes))
        + "}"@
}

} // verus!
