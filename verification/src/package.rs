//! Packages: where they come from, why they were installed, how they were
//! validated, their files and backups, and the operations a transaction
//! performs on them.

use vstd::prelude::*;

verus! {

/// Where a package came from.
#[derive(Debug, Copy, Clone, PartialEq, Eq, Structural)]
pub enum PackageFrom {
    File,
    LocalDb,
    SyncDb,
}

impl PackageFrom {
    /// The native code for this origin.
    pub fn to_u32(self) -> (r: u32)
        ensures
            r == self.spec_to_u32(),
    {
        match self {
            PackageFrom::File => 1,
            PackageFrom::LocalDb => 2,
            PackageFrom::SyncDb => 3,
        }
    }

    pub open spec fn spec_to_u32(self) -> u32 {
        match self {
            PackageFrom::File => 1,
            PackageFrom::LocalDb => 2,
            PackageFrom::SyncDb => 3,
        }
    }

    /// Decodes the native origin code; `None` for a code the library does
    /// not define.
    pub fn from_u32(x: u32) -> (r: Option<PackageFrom>)
        ensures
            x == 1 ==> r == Some(PackageFrom::File),
            x == 2 ==> r == Some(PackageFrom::LocalDb),
            x == 3 ==> r == Some(PackageFrom::SyncDb),
            x == 0 || x > 3 ==> r is None,
    {
        match x {
            1 => Some(PackageFrom::File),
            2 => Some(PackageFrom::LocalDb),
            3 => Some(PackageFrom::SyncDb),
            _ => None,
        }
    }
}

/// Why a package was installed: explicitly requested, or pulled in as a
/// dependency of another package.
#[derive(Debug, Copy, Clone, PartialEq, Eq, Structural)]
pub enum Reason {
    /// Package was explicitly installed by the user.
    Explicit,
    /// Package was installed because it was a dependency of another package.
    Depend,
}

impl Reason {
    /// The native code for this reason.
    pub fn to_u32(self) -> (r: u32)
        ensures
            self == Reason::Explicit ==> r == 0,
            self == Reason::Depend ==> r == 1,
    {
        match self {
            Reason::Explicit => 0,
            Reason::Depend => 1,
        }
    }

    /// Decodes the native reason code; `None` for a code the library does
    /// not define.
    pub fn from_u32(x: u32) -> (r: Option<Reason>)
        ensures
            x == 0 ==> r == Some(Reason::Explicit),
            x == 1 ==> r == Some(Reason::Depend),
            x > 1 ==> r is None,
    {
        match x {
            0 => Some(Reason::Explicit),
            1 => Some(Reason::Depend),
            _ => None,
        }
    }
}

/// The methods used to validate a package when it was downloaded.
#[derive(Debug, PartialEq, Eq, Copy, Clone, Structural)]
pub struct ValidationMethod {
    /// Package was validated using md5.
    pub md5sum: bool,
    /// Package was validated using sha256.
    pub sha256sum: bool,
    /// Package was validated using a gpg signature.
    pub signature: bool,
}

impl Default for ValidationMethod {
    fn default() -> (r: ValidationMethod)
        ensures
            r == (ValidationMethod { md5sum: false, sha256sum: false, signature: false }),
    {
        ValidationMethod { md5sum: false, sha256sum: false, signature: false }
    }
}

/// Whether validation was performed on a package.
#[derive(Debug, Copy, Clone, PartialEq, Eq, Structural)]
pub enum Validation {
    /// It is not known whether validation was performed.
    Unknown,
    /// No validation was performed.
    NotValidated,
    /// One or more validation methods were performed.
    Validated(ValidationMethod),
}

impl Validation {
    /// For when the validation method is not known.
    pub fn unknown() -> (r: Validation)
        ensures
            r == Validation::Unknown,
    {
        Validation::Unknown
    }

    /// For when no validation was performed.
    pub fn none() -> (r: Validation)
        ensures
            r == Validation::NotValidated,
    {
        Validation::NotValidated
    }

    /// For when md5sum validation was performed.
    pub fn md5sum() -> (r: Validation)
        ensures
            r == Validation::Validated(
                ValidationMethod { md5sum: true, sha256sum: false, signature: false },
            ),
    {
        Validation::Validated(ValidationMethod { md5sum: true, sha256sum: false, signature: false })
    }

    /// For when sha256sum validation was performed.
    pub fn sha256sum() -> (r: Validation)
        ensures
            r == Validation::Validated(
                ValidationMethod { md5sum: false, sha256sum: true, signature: false },
            ),
    {
        Validation::Validated(ValidationMethod { md5sum: false, sha256sum: true, signature: false })
    }

    /// For when gpg signature validation was performed.
    pub fn signature() -> (r: Validation)
        ensures
            r == Validation::Validated(
                ValidationMethod { md5sum: false, sha256sum: false, signature: true },
            ),
    {
        Validation::Validated(ValidationMethod { md5sum: false, sha256sum: false, signature: true })
    }

    /// The native bit mask: 0 for unknown, 1 for none, else one bit per
    /// method performed.
    pub open spec fn spec_to_u32(self) -> u32 {
        match self {
            Validation::Unknown => 0,
            Validation::NotValidated => 1,
            Validation::Validated(m) => (if m.md5sum {
                2u32
            } else {
                0u32
            }) | (if m.sha256sum {
                4u32
            } else {
                0u32
            }) | (if m.signature {
                8u32
            } else {
                0u32
            }),
        }
    }

    /// Encodes this validation as the native bit mask.
    pub fn to_u32(self) -> (r: u32)
        ensures
            r == self.spec_to_u32(),
    {
        match self {
            Validation::Unknown => 0,
            Validation::NotValidated => 1,
            Validation::Validated(m) => (if m.md5sum {
                2u32
            } else {
                0u32
            }) | (if m.sha256sum {
                4u32
            } else {
                0u32
            }) | (if m.signature {
                8u32
            } else {
                0u32
            }),
        }
    }

    /// The validation encoded by a native bit mask.
    pub open spec fn spec_from_u32(x: u32) -> Validation {
        if x == 0 {
            Validation::Unknown
        } else if x == 1 {
            Validation::NotValidated
        } else {
            Validation::Validated(
                ValidationMethod {
                    md5sum: x & 2 != 0,
                    sha256sum: x & 4 != 0,
                    signature: x & 8 != 0,
                },
            )
        }
    }

    /// Decodes a native bit mask.
    pub fn from_u32(x: u32) -> (r: Validation)
        ensures
            r == Validation::spec_from_u32(x),
    {
        if x == 0 {
            Validation::Unknown
        } else if x == 1 {
            Validation::NotValidated
        } else {
            Validation::Validated(
                ValidationMethod {
                    md5sum: x & 2 != 0,
                    sha256sum: x & 4 != 0,
                    signature: x & 8 != 0,
                },
            )
        }
    }
}

/// Types of version constraint on a package's dependency.
#[derive(Debug, Copy, Clone, PartialEq, Eq, Structural)]
pub enum VersionConstraintType {
    Any,
    Equal,
    GreaterOrEqual,
    LessOrEqual,
    Greater,
    Less,
}

impl VersionConstraintType {
    /// Decodes the native constraint code; `None` for a code the library
    /// does not define.
    pub fn from_u32(x: u32) -> (r: Option<VersionConstraintType>)
        ensures
            x == 1 ==> r == Some(VersionConstraintType::Any),
            x == 2 ==> r == Some(VersionConstraintType::Equal),
            x == 3 ==> r == Some(VersionConstraintType::GreaterOrEqual),
            x == 4 ==> r == Some(VersionConstraintType::LessOrEqual),
            x == 5 ==> r == Some(VersionConstraintType::Greater),
            x == 6 ==> r == Some(VersionConstraintType::Less),
            x == 0 || x > 6 ==> r is None,
    {
        match x {
            1 => Some(VersionConstraintType::Any),
            2 => Some(VersionConstraintType::Equal),
            3 => Some(VersionConstraintType::GreaterOrEqual),
            4 => Some(VersionConstraintType::LessOrEqual),
            5 => Some(VersionConstraintType::Greater),
            6 => Some(VersionConstraintType::Less),
            _ => None,
        }
    }
}

/// A file in a package.
#[derive(Debug, PartialEq, Eq, Clone)]
pub struct File {
    /// The filename.
    pub name: String,
    /// The size of the file in bytes.
    pub size: u64,
    /// The file mode, e.g. 0644.
    pub mode: u32,
}

/// A backup entry of a package: a filename and the hash it was installed
/// with.
#[derive(Debug, PartialEq, Eq, Clone)]
pub struct Backup {
    pub name: String,
    pub hash: String,
}

/// A group of related packages in a database, carried by name.
#[derive(Debug, PartialEq, Eq, Clone)]
pub struct Group {
    pub name: String,
    pub packages: Vec<String>,
}

/// An operation a transaction performs on a package, carried by package
/// name.
#[derive(Debug, PartialEq, Eq, Clone)]
pub enum PackageOperation {
    /// Package (to be) installed (no old package).
    Install { new_pkg: String },
    /// Package (to be) upgraded.
    Upgrade { old_pkg: String, new_pkg: String },
    /// Package (to be) re-installed.
    Reinstall { old_pkg: String, new_pkg: String },
    /// Package (to be) downgraded.
    Downgrade { old_pkg: String, new_pkg: String },
    /// Package (to be) removed (no new package).
    Remove { old_pkg: String },
}

} // verus!
