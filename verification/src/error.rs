//! The ubiquitous error type of the wrapper, mirroring the native error
//! codes one for one.

use vstd::prelude::*;

verus! {

pub const ALPM_ERR_MEMORY: u32 = 1;
pub const ALPM_ERR_SYSTEM: u32 = 2;
pub const ALPM_ERR_BADPERMS: u32 = 3;
pub const ALPM_ERR_NOT_A_FILE: u32 = 4;
pub const ALPM_ERR_NOT_A_DIR: u32 = 5;
pub const ALPM_ERR_WRONG_ARGS: u32 = 6;
pub const ALPM_ERR_DISK_SPACE: u32 = 7;
pub const ALPM_ERR_HANDLE_NULL: u32 = 8;
pub const ALPM_ERR_HANDLE_NOT_NULL: u32 = 9;
pub const ALPM_ERR_HANDLE_LOCK: u32 = 10;
pub const ALPM_ERR_DB_OPEN: u32 = 11;
pub const ALPM_ERR_DB_CREATE: u32 = 12;
pub const ALPM_ERR_DB_NULL: u32 = 13;
pub const ALPM_ERR_DB_NOT_NULL: u32 = 14;
pub const ALPM_ERR_DB_NOT_FOUND: u32 = 15;
pub const ALPM_ERR_DB_INVALID: u32 = 16;
pub const ALPM_ERR_DB_INVALID_SIG: u32 = 17;
pub const ALPM_ERR_DB_VERSION: u32 = 18;
pub const ALPM_ERR_DB_WRITE: u32 = 19;
pub const ALPM_ERR_DB_REMOVE: u32 = 20;
pub const ALPM_ERR_SERVER_BAD_URL: u32 = 21;
pub const ALPM_ERR_SERVER_NONE: u32 = 22;
pub const ALPM_ERR_TRANS_NOT_NULL: u32 = 23;
pub const ALPM_ERR_TRANS_NULL: u32 = 24;
pub const ALPM_ERR_TRANS_DUP_TARGET: u32 = 25;
pub const ALPM_ERR_TRANS_NOT_INITIALIZED: u32 = 26;
pub const ALPM_ERR_TRANS_NOT_PREPARED: u32 = 27;
pub const ALPM_ERR_TRANS_ABORT: u32 = 28;
pub const ALPM_ERR_TRANS_TYPE: u32 = 29;
pub const ALPM_ERR_TRANS_NOT_LOCKED: u32 = 30;
pub const ALPM_ERR_TRANS_HOOK_FAILED: u32 = 31;
pub const ALPM_ERR_PKG_NOT_FOUND: u32 = 32;
pub const ALPM_ERR_PKG_IGNORED: u32 = 33;
pub const ALPM_ERR_PKG_INVALID: u32 = 34;
pub const ALPM_ERR_PKG_INVALID_CHECKSUM: u32 = 35;
pub const ALPM_ERR_PKG_INVALID_SIG: u32 = 36;
pub const ALPM_ERR_PKG_MISSING_SIG: u32 = 37;
pub const ALPM_ERR_PKG_OPEN: u32 = 38;
pub const ALPM_ERR_PKG_CANT_REMOVE: u32 = 39;
pub const ALPM_ERR_PKG_INVALID_NAME: u32 = 40;
pub const ALPM_ERR_PKG_INVALID_ARCH: u32 = 41;
pub const ALPM_ERR_PKG_REPO_NOT_FOUND: u32 = 42;
pub const ALPM_ERR_SIG_MISSING: u32 = 43;
pub const ALPM_ERR_SIG_INVALID: u32 = 44;
pub const ALPM_ERR_DLT_INVALID: u32 = 45;
pub const ALPM_ERR_DLT_PATCHFAILED: u32 = 46;
pub const ALPM_ERR_UNSATISFIED_DEPS: u32 = 47;
pub const ALPM_ERR_CONFLICTING_DEPS: u32 = 48;
pub const ALPM_ERR_FILE_CONFLICTS: u32 = 49;
pub const ALPM_ERR_RETRIEVE: u32 = 50;
pub const ALPM_ERR_INVALID_REGEX: u32 = 51;
pub const ALPM_ERR_LIBARCHIVE: u32 = 52;
pub const ALPM_ERR_LIBCURL: u32 = 53;
pub const ALPM_ERR_EXTERNAL_DOWNLOAD: u32 = 54;
pub const ALPM_ERR_GPGME: u32 = 55;

/// An error of the native library, or of marshalling data to and from it.
#[derive(Debug, Copy, Clone, PartialEq, Eq, Structural)]
pub enum Error {
    /// out of memory!
    Memory,
    /// unexpected system error
    System,
    /// permission denied
    BadPerms,
    /// could not find or read file
    NotAFile,
    /// could not find or read directory
    NotADir,
    /// wrong or NULL argument passed
    WrongArgs,
    /// not enough free disk space
    DiskSpace,
    /// library not initialized
    HandleNull,
    /// library already initialized
    HandleNotNull,
    /// unable to lock database
    HandleLock,
    /// could not open database
    DbOpen,
    /// could not create database
    DbCreate,
    /// database not initialized
    DbNull,
    /// database already registered
    DbNotNull,
    /// could not find database
    DbNotFound,
    /// invalid or corrupted database
    DbInvalid,
    /// invalid or corrupted database (PGP signature)
    DbInvalidSig,
    /// database is incorrect version
    DbVersion,
    /// could not update database
    DbWrite,
    /// could not remove database entry
    DbRemove,
    /// invalid url for server
    ServerBadUrl,
    /// no servers configured for repository
    ServerNone,
    /// transaction already initialized
    TransNotNull,
    /// transaction not initialized
    TransNull,
    /// duplicate target
    TransDupTarget,
    /// transaction not initialized
    TransNotInitialized,
    /// transaction not prepared
    TransNotPrepared,
    /// transaction aborted
    TransAbort,
    /// operation not compatible with the transaction type
    TransType,
    /// transaction commit attempt when database is not locked
    TransNotLocked,
    /// failed to run transaction hooks
    TransHookFailed,
    /// could not find or read package
    PkgNotFound,
    /// operation cancelled due to ignorepkg
    PkgIgnored,
    /// invalid or corrupted package
    PkgInvalid,
    /// invalid or corrupted package (checksum)
    PkgInvalidChecksum,
    /// invalid or corrupted package (PGP signature)
    PkgInvalidSig,
    /// package missing required signature
    PkgMissingSig,
    /// cannot open package file
    PkgOpen,
    /// cannot remove all files for package
    PkgCantRemove,
    /// package filename is not valid
    PkgInvalidName,
    /// package architecture is not valid
    PkgInvalidArch,
    /// could not find repository for target
    PkgRepoNotFound,
    /// missing PGP signature
    SigMissing,
    /// invalid PGP signature
    SigInvalid,
    /// invalid or corrupted delta
    DltInvalid,
    /// delta patch failed
    DltPatchFailed,
    /// could not satisfy dependencies
    UnsatisfiedDeps,
    /// conflicting dependencies
    ConflictingDeps,
    /// conflicting files
    FileConflicts,
    /// failed to retrieve some files
    Retrieve,
    /// invalid regular expression
    InvalidRegex,
    /// libarchive error
    Libarchive,
    /// download library error
    Libcurl,
    /// error invoking external downloader
    ExternalDownload,
    /// gpgme error
    Gpgme,
    /// io error
    IO,
    /// null string error
    StrNull,
    /// utf8 decode error
    Utf8Error,
    /// unknown error
    __Unknown,
}

impl Error {
    /// The error encoded by a native error code; codes the library does
    /// not define decode to `__Unknown`.
    pub open spec fn spec_from_u32(x: u32) -> Error {
        if x == 0 {
            Error::__Unknown
        } else if x == 1 {
            Error::Memory
        } else if x == 2 {
            Error::System
        } else if x == 3 {
            Error::BadPerms
        } else if x == 4 {
            Error::NotAFile
        } else if x == 5 {
            Error::NotADir
        } else if x == 6 {
            Error::WrongArgs
        } else if x == 7 {
            Error::DiskSpace
        } else if x == 8 {
            Error::HandleNull
        } else if x == 9 {
            Error::HandleNotNull
        } else if x == 10 {
            Error::HandleLock
        } else if x == 11 {
            Error::DbOpen
        } else if x == 12 {
            Error::DbCreate
        } else if x == 13 {
            Error::DbNull
        } else if x == 14 {
            Error::DbNotNull
        } else if x == 15 {
            Error::DbNotFound
        } else if x == 16 {
            Error::DbInvalid
        } else if x == 17 {
            Error::DbInvalidSig
        } else if x == 18 {
            Error::DbVersion
        } else if x == 19 {
            Error::DbWrite
        } else if x == 20 {
            Error::DbRemove
        } else if x == 21 {
            Error::ServerBadUrl
        } else if x == 22 {
            Error::ServerNone
        } else if x == 23 {
            Error::TransNotNull
        } else if x == 24 {
            Error::TransNull
        } else if x == 25 {
            Error::TransDupTarget
        } else if x == 26 {
            Error::TransNotInitialized
        } else if x == 27 {
            Error::TransNotPrepared
        } else if x == 28 {
            Error::TransAbort
        } else if x == 29 {
            Error::TransType
        } else if x == 30 {
            Error::TransNotLocked
        } else if x == 31 {
            Error::TransHookFailed
        } else if x == 32 {
            Error::PkgNotFound
        } else if x == 33 {
            Error::PkgIgnored
        } else if x == 34 {
            Error::PkgInvalid
        } else if x == 35 {
            Error::PkgInvalidChecksum
        } else if x == 36 {
            Error::PkgInvalidSig
        } else if x == 37 {
            Error::PkgMissingSig
        } else if x == 38 {
            Error::PkgOpen
        } else if x == 39 {
            Error::PkgCantRemove
        } else if x == 40 {
            Error::PkgInvalidName
        } else if x == 41 {
            Error::PkgInvalidArch
        } else if x == 42 {
            Error::PkgRepoNotFound
        } else if x == 43 {
            Error::SigMissing
        } else if x == 44 {
            Error::SigInvalid
        } else if x == 45 {
            Error::DltInvalid
        } else if x == 46 {
            Error::DltPatchFailed
        } else if x == 47 {
            Error::UnsatisfiedDeps
        } else if x == 48 {
            Error::ConflictingDeps
        } else if x == 49 {
            Error::FileConflicts
        } else if x == 50 {
            Error::Retrieve
        } else if x == 51 {
            Error::InvalidRegex
        } else if x == 52 {
            Error::Libarchive
        } else if x == 53 {
            Error::Libcurl
        } else if x == 54 {
            Error::ExternalDownload
        } else if x == 55 {
            Error::Gpgme
        } else {
            Error::__Unknown
        }
    }

    /// Decodes a native error code.
    pub fn from_u32(x: u32) -> (r: Error)
        ensures
            r == Error::spec_from_u32(x),
    {
        match x {
            1 => Error::Memory,
            2 => Error::System,
            3 => Error::BadPerms,
            4 => Error::NotAFile,
            5 => Error::NotADir,
            6 => Error::WrongArgs,
            7 => Error::DiskSpace,
            8 => Error::HandleNull,
            9 => Error::HandleNotNull,
            10 => Error::HandleLock,
            11 => Error::DbOpen,
            12 => Error::DbCreate,
            13 => Error::DbNull,
            14 => Error::DbNotNull,
            15 => Error::DbNotFound,
            16 => Error::DbInvalid,
            17 => Error::DbInvalidSig,
            18 => Error::DbVersion,
            19 => Error::DbWrite,
            20 => Error::DbRemove,
            21 => Error::ServerBadUrl,
            22 => Error::ServerNone,
            23 => Error::TransNotNull,
            24 => Error::TransNull,
            25 => Error::TransDupTarget,
            26 => Error::TransNotInitialized,
            27 => Error::TransNotPrepared,
            28 => Error::TransAbort,
            29 => Error::TransType,
            30 => Error::TransNotLocked,
            31 => Error::TransHookFailed,
            32 => Error::PkgNotFound,
            33 => Error::PkgIgnored,
            34 => Error::PkgInvalid,
            35 => Error::PkgInvalidChecksum,
            36 => Error::PkgInvalidSig,
            37 => Error::PkgMissingSig,
            38 => Error::PkgOpen,
            39 => Error::PkgCantRemove,
            40 => Error::PkgInvalidName,
            41 => Error::PkgInvalidArch,
            42 => Error::PkgRepoNotFound,
            43 => Error::SigMissing,
            44 => Error::SigInvalid,
            45 => Error::DltInvalid,
            46 => Error::DltPatchFailed,
            47 => Error::UnsatisfiedDeps,
            48 => Error::ConflictingDeps,
            49 => Error::FileConflicts,
            50 => Error::Retrieve,
            51 => Error::InvalidRegex,
            52 => Error::Libarchive,
            53 => Error::Libcurl,
            54 => Error::ExternalDownload,
            55 => Error::Gpgme,
            _ => Error::__Unknown,
        }
    }

    /// A short description of the error, as the native library words it.
    pub open spec fn spec_description(self) -> Seq<char> {
        match self {
            Error::Memory => "out of memory!"@,
            Error::System => "unexpected system error"@,
            Error::BadPerms => "permission denied"@,
            Error::NotAFile => "could not find or read file"@,
            Error::NotADir => "could not find or read directory"@,
            Error::WrongArgs => "wrong or NULL argument passed"@,
            Error::DiskSpace => "not enough free disk space"@,
            Error::HandleNull => "library not initialized"@,
            Error::HandleNotNull => "library already initialized"@,
            Error::HandleLock => "unable to lock database"@,
            Error::DbOpen => "could not open database"@,
            Error::DbCreate => "could not create database"@,
            Error::DbNull => "database not initialized"@,
            Error::DbNotNull => "database already registered"@,
            Error::DbNotFound => "could not find database"@,
            Error::DbInvalid => "invalid or corrupted database"@,
            Error::DbInvalidSig => "invalid or corrupted database (PGP signature)"@,
            Error::DbVersion => "database is incorrect version"@,
            Error::DbWrite => "could not update database"@,
            Error::DbRemove => "could not remove database entry"@,
            Error::ServerBadUrl => "invalid url for server"@,
            Error::ServerNone => "no servers configured for repository"@,
            Error::TransNotNull => "transaction already initialized"@,
            Error::TransNull => "transaction not initialized"@,
            Error::TransDupTarget => "duplicate target"@,
            Error::TransNotInitialized => "transaction not initialized"@,
            Error::TransNotPrepared => "transaction not prepared"@,
            Error::TransAbort => "transaction aborted"@,
            Error::TransType => "operation not compatible with the transaction type"@,
            Error::TransNotLocked => "transaction commit attempt when database is not locked"@,
            Error::TransHookFailed => "failed to run transaction hooks"@,
            Error::PkgNotFound => "could not find or read package"@,
            Error::PkgIgnored => "operation cancelled due to ignorepkg"@,
            Error::PkgInvalid => "invalid or corrupted package"@,
            Error::PkgInvalidChecksum => "invalid or corrupted package (checksum)"@,
            Error::PkgInvalidSig => "invalid or corrupted package (PGP signature)"@,
            Error::PkgMissingSig => "package missing required signature"@,
            Error::PkgOpen => "cannot open package file"@,
            Error::PkgCantRemove => "cannot remove all files for package"@,
            Error::PkgInvalidName => "package filename is not valid"@,
            Error::PkgInvalidArch => "package architecture is not valid"@,
            Error::PkgRepoNotFound => "could not find repository for target"@,
            Error::SigMissing => "missing PGP signature"@,
            Error::SigInvalid => "invalid PGP signature"@,
            Error::DltInvalid => "invalid or corrupted delta"@,
            Error::DltPatchFailed => "delta patch failed"@,
            Error::UnsatisfiedDeps => "could not satisfy dependencies"@,
            Error::ConflictingDeps => "conflicting dependencies"@,
            Error::FileConflicts => "conflicting files"@,
            Error::Retrieve => "failed to retrieve some files"@,
            Error::InvalidRegex => "invalid regular expression"@,
            Error::Libarchive => "libarchive error"@,
            Error::Libcurl => "download library error"@,
            Error::ExternalDownload => "error invoking external downloader"@,
            Error::Gpgme => "gpgme error"@,
            Error::IO => "io error"@,
            Error::StrNull => "null string error"@,
            Error::Utf8Error => "utf8 decode error"@,
            Error::__Unknown => "unknown error"@,
        }
    }

    /// A short description of the error, as the native library words it.
    pub fn description(self) -> (r: &'static str)
        ensures
            r@ == self.spec_description(),
    {
        match self {
            Error::Memory => "out of memory!",
            Error::System => "unexpected system error",
            Error::BadPerms => "permission denied",
            Error::NotAFile => "could not find or read file",
            Error::NotADir => "could not find or read directory",
            Error::WrongArgs => "wrong or NULL argument passed",
            Error::DiskSpace => "not enough free disk space",
            Error::HandleNull => "library not initialized",
            Error::HandleNotNull => "library already initialized",
            Error::HandleLock => "unable to lock database",
            Error::DbOpen => "could not open database",
            Error::DbCreate => "could not create database",
            Error::DbNull => "database not initialized",
            Error::DbNotNull => "database already registered",
            Error::DbNotFound => "could not find database",
            Error::DbInvalid => "invalid or corrupted database",
            Error::DbInvalidSig => "invalid or corrupted database (PGP signature)",
            Error::DbVersion => "database is incorrect version",
            Error::DbWrite => "could not update database",
            Error::DbRemove => "could not remove database entry",
            Error::ServerBadUrl => "invalid url for server",
            Error::ServerNone => "no servers configured for repository",
            Error::TransNotNull => "transaction already initialized",
            Error::TransNull => "transaction not initialized",
            Error::TransDupTarget => "duplicate target",
            Error::TransNotInitialized => "transaction not initialized",
            Error::TransNotPrepared => "transaction not prepared",
            Error::TransAbort => "transaction aborted",
            Error::TransType => "operation not compatible with the transaction type",
            Error::TransNotLocked => "transaction commit attempt when database is not locked",
            Error::TransHookFailed => "failed to run transaction hooks",
            Error::PkgNotFound => "could not find or read package",
            Error::PkgIgnored => "operation cancelled due to ignorepkg",
            Error::PkgInvalid => "invalid or corrupted package",
            Error::PkgInvalidChecksum => "invalid or corrupted package (checksum)",
            Error::PkgInvalidSig => "invalid or corrupted package (PGP signature)",
            Error::PkgMissingSig => "package missing required signature",
            Error::PkgOpen => "cannot open package file",
            Error::PkgCantRemove => "cannot remove all files for package",
            Error::PkgInvalidName => "package filename is not valid",
            Error::PkgInvalidArch => "package architecture is not valid",
            Error::PkgRepoNotFound => "could not find repository for target",
            Error::SigMissing => "missing PGP signature",
            Error::SigInvalid => "invalid PGP signature",
            Error::DltInvalid => "invalid or corrupted delta",
            Error::DltPatchFailed => "delta patch failed",
            Error::UnsatisfiedDeps => "could not satisfy dependencies",
            Error::ConflictingDeps => "conflicting dependencies",
            Error::FileConflicts => "conflicting files",
            Error::Retrieve => "failed to retrieve some files",
            Error::InvalidRegex => "invalid regular expression",
            Error::Libarchive => "libarchive error",
            Error::Libcurl => "download library error",
            Error::ExternalDownload => "error invoking external downloader",
            Error::Gpgme => "gpgme error",
            Error::IO => "io error",
            Error::StrNull => "null string error",
            Error::Utf8Error => "utf8 decode error",
            Error::__Unknown => "unknown error",
        }
    }
}

/// The ubiquitous crate result type.
pub type AlpmResult<T> = Result<T, Error>;

} // verus!
