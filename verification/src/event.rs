//! Events emitted from the native library while a transaction runs.

use vstd::prelude::*;

use crate::package::PackageOperation;

verus! {

/// An event emitted from the native library. The two package-operation
/// events carry the operation; every other event is a plain marker.
#[derive(Debug, PartialEq, Eq, Clone)]
pub enum Event {
    /// Dependencies will be computed for a package.
    CheckDepsStart,
    /// Dependencies were computed for a package.
    CheckDepsDone,
    /// File conflicts will be computed for a package.
    FileConflictsStart,
    /// File conflicts were computed for a package.
    FileConflictsDone,
    /// Dependencies will be resolved for a target package.
    ResolveDepsStart,
    /// Dependencies were resolved for a target package.
    ResolveDepsDone,
    /// Inter-conflicts will be checked for a target package.
    InterConflictsStart,
    /// Inter-conflicts were checked for a target package.
    InterConflictsDone,
    /// Processing the package transaction is starting.
    TransactionStart,
    /// Processing the package transaction is finished.
    TransactionDone,
    /// Target package's integrity will be checked.
    IntegrityStart,
    /// Target package's integrity was checked.
    IntegrityDone,
    /// Target package will be loaded.
    LoadStart,
    /// Target package is finished loading.
    LoadDone,
    /// Target delta's integrity will be checked.
    DeltaIntegrityStart,
    /// Target delta's integrity was checked.
    DeltaIntegrityDone,
    /// Deltas will be applied to packages.
    DeltaPatchesStart,
    /// Deltas were applied to packages.
    DeltaPatchesDone,
    /// A delta patch will be applied to a target package.
    DeltaPatchStart,
    /// A delta patch was applied to a target package.
    DeltaPatchDone,
    /// A delta patch failed to apply to a target package.
    DeltaPatchFailed,
    /// A scriptlet has printed information.
    ScriptletInfo,
    /// Files will be downloaded from a repository.
    RetrieveStart,
    /// Files were downloaded from a repository.
    RetrieveDone,
    /// Not all files were successfully downloaded from a repository.
    RetrieveFailed,
    /// A file will be downloaded from a repository.
    PkgDownloadStart,
    /// A file was downloaded from a repository.
    PkgDownloadDone,
    /// A file failed to be downloaded from a repository.
    PkgDownloadFailed,
    /// Disk space usage will be computed for a package.
    DiskspaceStart,
    /// Disk space usage was computed for a package.
    DiskspaceDone,
    /// An optdepend for another package is being removed.
    OptDepRemoval,
    /// A configured repository database is missing.
    DatabaseMissing,
    /// Checking keys used to create signatures are in the keyring.
    KeyringStart,
    /// Keyring checking is finished.
    KeyringDone,
    /// Downloading missing keys into the keyring.
    KeyDownloadStart,
    /// Key downloading is finished.
    KeyDownloadDone,
    /// A .pacnew file was created.
    PacnewCreated,
    /// A .pacsave file was created.
    PacsaveCreated,
    /// Processing hooks will be started.
    HookStart,
    /// Processing hooks is finished.
    HookDone,
    /// A hook is starting.
    HookRunStart,
    /// A hook has finished running.
    HookRunDone,
    /// A package will be installed/upgraded/downgraded/re-installed/removed.
    PackageOperationStart(PackageOperation),
    /// A package was installed/upgraded/downgraded/re-installed/removed.
    PackageOperationDone(PackageOperation),
    /// An event code the library does not define.
    __Unknown,
}

impl Event {
    /// The event encoded by a native event-type code. The two
    /// package-operation codes carry data beyond the code and cannot be
    /// built from it; they decode to `__Unknown` here, and the embedder
    /// builds them with their operation instead.
    pub open spec fn spec_from_code(code: u32) -> Event {
        if code == 0 {
            Event::__Unknown
        } else if code == 1 {
            Event::CheckDepsStart
        } else if code == 2 {
            Event::CheckDepsDone
        } else if code == 3 {
            Event::FileConflictsStart
        } else if code == 4 {
            Event::FileConflictsDone
        } else if code == 5 {
            Event::ResolveDepsStart
        } else if code == 6 {
            Event::ResolveDepsDone
        } else if code == 7 {
            Event::InterConflictsStart
        } else if code == 8 {
            Event::InterConflictsDone
        } else if code == 9 {
            Event::TransactionStart
        } else if code == 10 {
            Event::TransactionDone
        } else if code == 13 {
            Event::IntegrityStart
        } else if code == 14 {
            Event::IntegrityDone
        } else if code == 15 {
            Event::LoadStart
        } else if code == 16 {
            Event::LoadDone
        } else if code == 17 {
            Event::DeltaIntegrityStart
        } else if code == 18 {
            Event::DeltaIntegrityDone
        } else if code == 19 {
            Event::DeltaPatchesStart
        } else if code == 20 {
            Event::DeltaPatchesDone
        } else if code == 21 {
            Event::DeltaPatchStart
        } else if code == 22 {
            Event::DeltaPatchDone
        } else if code == 23 {
            Event::DeltaPatchFailed
        } else if code == 24 {
            Event::ScriptletInfo
        } else if code == 25 {
            Event::RetrieveStart
        } else if code == 26 {
            Event::RetrieveDone
        } else if code == 27 {
            Event::RetrieveFailed
        } else if code == 28 {
            Event::PkgDownloadStart
        } else if code == 29 {
            Event::PkgDownloadDone
        } else if code == 30 {
            Event::PkgDownloadFailed
        } else if code == 31 {
            Event::DiskspaceStart
        } else if code == 32 {
            Event::DiskspaceDone
        } else if code == 33 {
            Event::OptDepRemoval
        } else if code == 34 {
            Event::DatabaseMissing
        } else if code == 35 {
            Event::KeyringStart
        } else if code == 36 {
            Event::KeyringDone
        } else if code == 37 {
            Event::KeyDownloadStart
        } else if code == 38 {
            Event::KeyDownloadDone
        } else if code == 39 {
            Event::PacnewCreated
        } else if code == 40 {
            Event::PacsaveCreated
        } else if code == 41 {
            Event::HookStart
        } else if code == 42 {
            Event::HookDone
        } else if code == 43 {
            Event::HookRunStart
        } else if code == 44 {
            Event::HookRunDone
        } else {
            Event::__Unknown
        }
    }

    /// Decodes a native event-type code.
    pub fn from_code(code: u32) -> (r: Event)
        ensures
            r == Event::spec_from_code(code),
    {
        match code {
            1 => Event::CheckDepsStart,
            2 => Event::CheckDepsDone,
            3 => Event::FileConflictsStart,
            4 => Event::FileConflictsDone,
            5 => Event::ResolveDepsStart,
            6 => Event::ResolveDepsDone,
            7 => Event::InterConflictsStart,
            8 => Event::InterConflictsDone,
            9 => Event::TransactionStart,
            10 => Event::TransactionDone,
            13 => Event::IntegrityStart,
            14 => Event::IntegrityDone,
            15 => Event::LoadStart,
            16 => Event::LoadDone,
            17 => Event::DeltaIntegrityStart,
            18 => Event::DeltaIntegrityDone,
            19 => Event::DeltaPatchesStart,
            20 => Event::DeltaPatchesDone,
            21 => Event::DeltaPatchStart,
            22 => Event::DeltaPatchDone,
            23 => Event::DeltaPatchFailed,
            24 => Event::ScriptletInfo,
            25 => Event::RetrieveStart,
            26 => Event::RetrieveDone,
            27 => Event::RetrieveFailed,
            28 => Event::PkgDownloadStart,
            29 => Event::PkgDownloadDone,
            30 => Event::PkgDownloadFailed,
            31 => Event::DiskspaceStart,
            32 => Event::DiskspaceDone,
            33 => Event::OptDepRemoval,
            34 => Event::DatabaseMissing,
            35 => Event::KeyringStart,
            36 => Event::KeyringDone,
            37 => Event::KeyDownloadStart,
            38 => Event::KeyDownloadDone,
            39 => Event::PacnewCreated,
            40 => Event::PacsaveCreated,
            41 => Event::HookStart,
            42 => Event::HookDone,
            43 => Event::HookRunStart,
            44 => Event::HookRunDone,
            _ => Event::__Unknown,
        }
    }
}

} // verus!
