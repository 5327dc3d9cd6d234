//! The typed configuration: the storage target, logging, and the list of sync
//! profiles, with the rules a configuration has to meet.

use crate::lists::lemma_filter_step;
use vstd::prelude::*;

verus! {

/// The whole configuration.
#[derive(Debug, Clone)]
pub struct Config {
    pub nas: NasConfig,
    pub logging: LoggingConfig,
    pub sync_profiles: Vec<SyncProfile>,
}

/// How to reach the storage target.
#[derive(Debug, Clone)]
pub struct NasConfig {
    pub host: String,
    pub port: u16,
    pub username: String,
    pub password: Option<String>,
    pub key_path: Option<String>,
    pub smb: Option<SmbConfig>,
}

/// A network share to mount before a sync.
#[derive(Debug, Clone)]
pub struct SmbConfig {
    pub enabled: bool,
    pub share_path: String,
    pub mount_point: String,
    pub domain: String,
    pub username: String,
    pub password: String,
    pub mount_options: String,
    pub auto_unmount: bool,
    pub mount_timeout: u64,
}

/// Whether a share is unmounted again where the configuration does not say.
pub fn default_auto_unmount() -> (r: bool)
    ensures
        r,
{
    true
}

/// The seconds a mount may take where the configuration does not say.
pub fn default_mount_timeout() -> (r: u64)
    ensures
        r == 30,
{
    30
}

/// Where and how much to log.
#[derive(Debug, Clone)]
pub struct LoggingConfig {
    pub enabled: bool,
    pub log_file: String,
    pub log_level: String,
    pub console_output: bool,
    pub file_output: bool,
    pub rotate_enabled: bool,
    pub max_file_size_mb: u64,
    pub max_files: usize,
    pub compress_rotated: bool,
}

/// One pair of trees to keep in step, and how.
#[derive(Debug, Clone)]
pub struct SyncProfile {
    pub name: String,
    pub local_path: String,
    pub remote_path: String,
    pub sync_type: SyncType,
    pub enabled: bool,
    pub exclude: Vec<String>,
    pub watch_mode: bool,
    pub debounce_seconds: u64,
    pub conflict_resolution: Option<ConflictResolution>,
    pub use_smb_mount: bool,
}

/// The quiet period of a watched profile where the configuration does not say.
pub fn default_debounce_seconds() -> (r: u64)
    ensures
        r == 5,
{
    5
}

/// The direction and bookkeeping of a transfer.
#[derive(Debug, Clone, Copy, PartialEq, Eq, Structural)]
pub enum SyncType {
    Mirror,
    OneWay,
    TwoWay,
    Incremental,
    Backup,
}

/// Which replica wins when both have changed.
#[derive(Debug, Clone, Copy, PartialEq, Eq, Structural)]
pub enum ConflictResolution {
    /// Neither: the file is left as it is.
    Skip,
    /// The local file.
    Overwrite,
    /// The local file, and the remote one is kept under another name.
    Keep,
    /// The one modified last; the local one if both were modified at once.
    Newest,
    /// The one with more bytes; the local one if both have as many.
    Largest,
}

impl Default for ConflictResolution {
    fn default() -> (r: Self)
        ensures
            r == ConflictResolution::Skip,
    {
        ConflictResolution::Skip
    }
}

/// Why a configuration is refused.
#[derive(Debug, Clone, Copy, PartialEq, Eq, Structural)]
pub enum ConfigError {
    /// The target has neither a password nor a key.
    MissingCredentials,
    /// No sync profile is defined.
    NoProfiles,
}

impl ConfigError {
    /// The error in words.
    pub fn message(&self) -> (m: String)
        ensures
            *self == ConfigError::MissingCredentials ==> m@
                == "Either password or key_path must be specified in NAS config"@,
            *self == ConfigError::NoProfiles ==> m@ == "At least one sync profile must be defined"@,
    {
        match self {
            ConfigError::MissingCredentials => {
                "Either password or key_path must be specified in NAS config".to_owned()
            },
            ConfigError::NoProfiles => "At least one sync profile must be defined".to_owned(),
        }
    }
}

/// A profile that is switched on.
pub open spec fn is_enabled(p: SyncProfile) -> bool {
    p.enabled
}

/// A profile that is switched on and asks to be watched.
pub open spec fn is_watched(p: SyncProfile) -> bool {
    p.enabled && p.watch_mode
}

/// A two-way profile that names no conflict policy, and so runs with `Skip`.
pub open spec fn lacks_policy(p: SyncProfile) -> bool {
    p.sync_type == SyncType::TwoWay && p.conflict_resolution is None
}

/// The conflict policy a profile runs with: its own, or `Skip`.
pub open spec fn effective_policy(p: SyncProfile) -> ConflictResolution {
    match p.conflict_resolution {
        Some(c) => c,
        None => ConflictResolution::Skip,
    }
}

/// The values behind a list of references.
pub open spec fn targets(refs: Seq<&SyncProfile>) -> Seq<SyncProfile> {
    refs.map_values(|p: &SyncProfile| *p)
}

impl SyncProfile {
    /// The conflict policy this profile runs with.
    pub fn policy(&self) -> (c: ConflictResolution)
        ensures
            c == effective_policy(*self),
    {
        match self.conflict_resolution {
            Some(c) => c,
            None => ConflictResolution::Skip,
        }
    }
}

impl Config {
    /// What `validate` decides.
    pub open spec fn validation(&self) -> Result<(), ConfigError> {
        if self.nas.password is None && self.nas.key_path is None {
            Err(ConfigError::MissingCredentials)
        } else if self.sync_profiles@.len() == 0 {
            Err(ConfigError::NoProfiles)
        } else {
            Ok(())
        }
    }

    /// Accepts a configuration whose target has a password or a key and that
    /// defines a profile.
    pub fn validate(&self) -> (r: Result<(), ConfigError>)
        ensures
            r == self.validation(),
    {
        if self.nas.password.is_none() && self.nas.key_path.is_none() {
            return Err(ConfigError::MissingCredentials);
        }
        if self.sync_profiles.len() == 0 {
            return Err(ConfigError::NoProfiles);
        }
        Ok(())
    }

    /// The profiles that are switched on, in the order of the configuration.
    pub fn get_enabled_profiles(&self) -> (out: Vec<&SyncProfile>)
        ensures
            targets(out@) == self.sync_profiles@.filter(|p: SyncProfile| is_enabled(p)),
    {
        let ghost keep = |p: SyncProfile| is_enabled(p);
        let mut out: Vec<&SyncProfile> = Vec::new();
        let mut i: usize = 0;
        assert(self.sync_profiles@.subrange(0, 0).filter(keep) == Seq::<SyncProfile>::empty());
        assert(targets(out@) == Seq::<SyncProfile>::empty());
        while i < self.sync_profiles.len()
            invariant
                i <= self.sync_profiles.len(),
                keep == |p: SyncProfile| is_enabled(p),
                targets(out@) == self.sync_profiles@.subrange(0, i as int).filter(keep),
            decreases self.sync_profiles.len() - i,
        {
            let p = &self.sync_profiles[i];
            proof {
                lemma_filter_step(self.sync_profiles@, i as int, keep);
            }
            if p.enabled {
                let ghost before = out@;
                out.push(p);
                assert(targets(out@) == targets(before).push(*p));
            }
            i += 1;
        }
        assert(self.sync_profiles@.subrange(0, i as int) == self.sync_profiles@);
        out
    }

    /// The profiles that are switched on and ask to be watched, in the order
    /// of the configuration.
    pub fn get_watch_profiles(&self) -> (out: Vec<&SyncProfile>)
        ensures
            targets(out@) == self.sync_profiles@.filter(|p: SyncProfile| is_watched(p)),
    {
        let ghost keep = |p: SyncProfile| is_watched(p);
        let mut out: Vec<&SyncProfile> = Vec::new();
        let mut i: usize = 0;
        assert(self.sync_profiles@.subrange(0, 0).filter(keep) == Seq::<SyncProfile>::empty());
        assert(targets(out@) == Seq::<SyncProfile>::empty());
        while i < self.sync_profiles.len()
            invariant
                i <= self.sync_profiles.len(),
                keep == |p: SyncProfile| is_watched(p),
                targets(out@) == self.sync_profiles@.subrange(0, i as int).filter(keep),
            decreases self.sync_profiles.len() - i,
        {
            let p = &self.sync_profiles[i];
            proof {
                lemma_filter_step(self.sync_profiles@, i as int, keep);
            }
            if p.enabled && p.watch_mode {
                let ghost before = out@;
                out.push(p);
                assert(targets(out@) == targets(before).push(*p));
            }
            i += 1;
        }
        assert(self.sync_profiles@.subrange(0, i as int) == self.sync_profiles@);
        out
    }

    /// The two-way profiles that name no conflict policy: they run with
    /// `Skip`, which a caller may want to tell the user.
    pub fn profiles_defaulting_to_skip(&self) -> (out: Vec<&SyncProfile>)
        ensures
            targets(out@) == self.sync_profiles@.filter(|p: SyncProfile| lacks_policy(p)),
    {
        let ghost keep = |p: SyncProfile| lacks_policy(p);
        let mut out: Vec<&SyncProfile> = Vec::new();
        let mut i: usize = 0;
        assert(self.sync_profiles@.subrange(0, 0).filter(keep) == Seq::<SyncProfile>::empty());
        assert(targets(out@) == Seq::<SyncProfile>::empty());
        while i < self.sync_profiles.len()
            invariant
                i <= self.sync_profiles.len(),
                keep == |p: SyncProfile| lacks_policy(p),
                targets(out@) == self.sync_profiles@.subrange(0, i as int).filter(keep),
            decreases self.sync_profiles.len() - i,
        {
            let p = &self.sync_profiles[i];
            proof {
                lemma_filter_step(self.sync_profiles@, i as int, keep);
            }
            if p.sync_type == SyncType::TwoWay && p.conflict_resolution.is_none() {
                let ghost before = out@;
                out.push(p);
                assert(targets(out@) == targets(before).push(*p));
            }
            i += 1;
        }
        assert(self.sync_profiles@.subrange(0, i as int) == self.sync_profiles@);
        out
    }
}

} // verus!
