use libalpm::db::{Db, Usage};
use libalpm::error::{Error, ALPM_ERR_MEMORY, ALPM_ERR_GPGME};
use libalpm::event::Event;
use libalpm::log::{LogLevel, LogLevels};
use libalpm::options::RepoConfig;
use libalpm::package::{PackageFrom, Reason, Validation, ValidationMethod, VersionConstraintType};
use libalpm::pgp::SigLevel;
use libalpm::trans::TransactionFlags;
use libalpm::types::{Caps, DownloadResult};
use libalpm::Alpm;

#[test]
fn test_transaction_flags() {
    let t: TransactionFlags = Default::default();
    // (my) sanity check that deriving bool = false
    assert!(!t.no_lock);
}

#[test]
fn transaction_flags_bits() {
    let mut t: TransactionFlags = Default::default();
    t.no_deps = true;
    t.no_lock = true;
    assert_eq!(t.to_u32(), 1 | 131072);
    let back = TransactionFlags::from_u32(1 | 131072);
    assert_eq!(back, t);
    assert_eq!(TransactionFlags::from_u32(512).download_only, true);
    assert_eq!(TransactionFlags::from_u32(512).force, false);
}

#[test]
fn usage_constructors_and_bits() {
    assert_eq!(Usage::all().to_u32(), 15);
    assert_eq!(Usage::sync().to_u32(), 1);
    assert_eq!(Usage::search().to_u32(), 2);
    assert_eq!(Usage::install().to_u32(), 4);
    assert_eq!(Usage::upgrade().to_u32(), 8);
    assert_eq!(Usage::from_u32(5), Usage { sync: true, search: false, install: true, upgrade: false });
    assert_eq!(Usage::from_u32(Usage::all().to_u32()), Usage::all());
}

#[test]
fn siglevel_default_and_bits() {
    let s: SigLevel = Default::default();
    assert!(s.use_default);
    assert!(!s.package);
    assert_eq!(s.to_u32(), 2147483648);
    let t = SigLevel::from_u32(1 | 1024);
    assert!(t.package && t.database && !t.use_default);
    assert_eq!(SigLevel::from_u32(t.to_u32()), t);
}

#[test]
fn caps_bits() {
    let c = Caps::from_u32(7);
    assert!(c.nls && c.downloader && c.signatures);
    let c2 = Caps::from_u32(2);
    assert!(!c2.nls && c2.downloader && !c2.signatures);
}

#[test]
fn download_result_codes() {
    assert_eq!(DownloadResult::Success.code(), 0);
    assert_eq!(DownloadResult::NotNeeded.code(), 1);
    assert_eq!(DownloadResult::Failed.code(), -1);
}

#[test]
fn from_u32() {
    let err = ALPM_ERR_MEMORY;
    assert_eq!(Error::Memory, Error::from_u32(err));
}

#[test]
fn error_codes_decode() {
    assert_eq!(Error::from_u32(ALPM_ERR_GPGME), Error::Gpgme);
    assert_eq!(Error::from_u32(0), Error::__Unknown);
    assert_eq!(Error::from_u32(9999), Error::__Unknown);
    assert_eq!(Error::Memory.description(), "out of memory!");
    assert_eq!(Error::DiskSpace.description(), "not enough free disk space");
}

#[test]
fn event_codes_decode() {
    assert_eq!(Event::from_code(1), Event::CheckDepsStart);
    assert_eq!(Event::from_code(44), Event::HookRunDone);
    // the package-operation codes carry data and cannot be built from the
    // code alone
    assert_eq!(Event::from_code(11), Event::__Unknown);
    assert_eq!(Event::from_code(999), Event::__Unknown);
}

#[test]
fn log_levels_order() {
    assert!(LogLevel::Error > LogLevel::Warning);
    assert!(LogLevel::Warning > LogLevel::Debug);
    assert!(LogLevel::Debug > LogLevel::Function);
    assert!(LogLevel::Function > LogLevel::Off);
    assert!(LogLevel::Off < LogLevel::Error);
    assert!(LogLevel::Error >= LogLevel::Error);
    assert!(!(LogLevel::Error < LogLevel::Error));
}

#[test]
fn log_levels_flags() {
    assert_eq!(LogLevels::error().to_u32(), 1);
    assert_eq!(LogLevels::warning().to_u32(), 2);
    assert_eq!(LogLevels::debug().to_u32(), 4);
    assert_eq!(LogLevels::function().to_u32(), 8);
    let both = LogLevels::from_u32(1 | 4);
    assert!(both.error && both.debug && !both.warning && !both.function);
    assert_eq!(both.to_level(), LogLevel::Error);
    assert_eq!(LogLevels::from_u32(8).to_level(), LogLevel::Function);
    assert_eq!(LogLevels::default().to_level(), LogLevel::Off);
    assert_eq!(LogLevel::Error.name(), "ERROR");
}

#[test]
fn validation_constructors() {
    assert_eq!(Validation::unknown(), Validation::Unknown);
    assert_eq!(Validation::none(), Validation::NotValidated);
    assert_eq!(
        Validation::md5sum(),
        Validation::Validated(ValidationMethod { md5sum: true, sha256sum: false, signature: false })
    );
    assert_eq!(
        Validation::sha256sum(),
        Validation::Validated(ValidationMethod { md5sum: false, sha256sum: true, signature: false })
    );
    assert_eq!(
        Validation::signature(),
        Validation::Validated(ValidationMethod { md5sum: false, sha256sum: false, signature: true })
    );
}

#[test]
fn validation_bits() {
    assert_eq!(Validation::unknown().to_u32(), 0);
    assert_eq!(Validation::none().to_u32(), 1);
    assert_eq!(Validation::md5sum().to_u32(), 2);
    assert_eq!(Validation::sha256sum().to_u32(), 4);
    assert_eq!(Validation::signature().to_u32(), 8);
    assert_eq!(Validation::from_u32(0), Validation::Unknown);
    assert_eq!(Validation::from_u32(1), Validation::NotValidated);
    assert_eq!(
        Validation::from_u32(6),
        Validation::Validated(ValidationMethod { md5sum: true, sha256sum: true, signature: false })
    );
}

#[test]
fn package_codes() {
    assert_eq!(PackageFrom::from_u32(1), Some(PackageFrom::File));
    assert_eq!(PackageFrom::from_u32(3), Some(PackageFrom::SyncDb));
    assert_eq!(PackageFrom::from_u32(9), None);
    assert_eq!(PackageFrom::LocalDb.to_u32(), 2);
    assert_eq!(Reason::from_u32(0), Some(Reason::Explicit));
    assert_eq!(Reason::from_u32(1), Some(Reason::Depend));
    assert_eq!(Reason::from_u32(2), None);
    assert_eq!(Reason::Depend.to_u32(), 1);
    assert_eq!(VersionConstraintType::from_u32(2), Some(VersionConstraintType::Equal));
    assert_eq!(VersionConstraintType::from_u32(6), Some(VersionConstraintType::Less));
    assert_eq!(VersionConstraintType::from_u32(7), None);
}

#[test]
fn db_and_repo_config() {
    let db = Db::new(String::from("core"));
    assert_eq!(db.name, "core");
    assert!(db.servers.is_empty());
    assert_eq!(db.usage, Usage::all());
    let rc = RepoConfig::new(vec![String::from("https://mirror.test/core")]);
    assert_eq!(rc.servers.len(), 1);
    let d: RepoConfig = Default::default();
    assert!(d.servers.is_empty());
}

#[test]
fn alpm_option_lists() {
    let mut a: Alpm = Default::default();
    assert!(a.cache_dirs().is_empty());
    a.add_cache_dir(String::from("/var/cache/pacman/pkg/"));
    a.add_cache_dir(String::from("/tmp/cache/"));
    assert_eq!(a.cache_dirs().len(), 2);
    a.remove_cache_dir(&String::from("/var/cache/pacman/pkg/"));
    assert_eq!(a.cache_dirs(), &vec![String::from("/tmp/cache/")]);
    a.set_hook_dirs(vec![String::from("/etc/pacman.d/hooks/")]);
    assert_eq!(a.hook_dirs().len(), 1);
    a.add_no_upgrade(String::from("linux"));
    a.add_ignore_pkg(String::from("vim"));
    a.add_ignore_group(String::from("base"));
    a.add_assume_installed(String::from("glibc"));
    assert_eq!(a.no_upgrades(), &vec![String::from("linux")]);
    assert_eq!(a.ignore_pkgs(), &vec![String::from("vim")]);
    assert_eq!(a.ignore_groups(), &vec![String::from("base")]);
    assert_eq!(a.assume_installed(), &vec![String::from("glibc")]);
    a.remove_no_upgrade(&String::from("linux"));
    assert!(a.no_upgrades().is_empty());
}

#[test]
fn alpm_remove_takes_first_occurrence_only() {
    let mut a: Alpm = Default::default();
    a.add_ignore_pkg(String::from("x"));
    a.add_ignore_pkg(String::from("y"));
    a.add_ignore_pkg(String::from("x"));
    a.remove_ignore_pkg(&String::from("x"));
    assert_eq!(a.ignore_pkgs(), &vec![String::from("y"), String::from("x")]);
    // removing something absent changes nothing
    a.remove_ignore_pkg(&String::from("z"));
    assert_eq!(a.ignore_pkgs(), &vec![String::from("y"), String::from("x")]);
}

#[test]
fn alpm_paths_and_switches() {
    let mut a: Alpm = Default::default();
    assert_eq!(a.log_file(), "");
    a.set_log_file(String::from("/var/log/pacman.log"));
    assert_eq!(a.log_file(), "/var/log/pacman.log");
    a.set_gpg_dir(String::from("/etc/pacman.d/gnupg/"));
    assert_eq!(a.gpg_dir(), "/etc/pacman.d/gnupg/");
    assert!(!a.use_syslog());
    a.set_use_syslog(true);
    assert!(a.use_syslog());
    a.set_cache_dirs(vec![String::from("/a/"), String::from("/b/")]);
    assert_eq!(a.cache_dirs().len(), 2);
    a.set_no_upgrades(vec![String::from("p")]);
    a.set_ignore_pkgs(vec![]);
    a.set_ignore_groups(vec![String::from("g")]);
    a.set_assume_installed(vec![]);
    assert_eq!(a.no_upgrades().len(), 1);
    assert_eq!(a.ignore_groups().len(), 1);
}
