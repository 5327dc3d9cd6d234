//! Mounting a network share for the time of a sync.
//!
//! The share is mounted by the system's `mount` command, which reads the
//! account from a credentials file. This module decides what is run and
//! written, and keeps track of whether the share is mounted and of whether a
//! credentials file is still around; the caller runs the commands and writes
//! and removes the file.

use crate::config::SmbConfig;
use crate::lists::texts_of;
use crate::text::{contains, decimal, is_substring, push_decimal};
use vstd::prelude::*;

verus! {

/// Why a share could not be mounted, as far as the words of `mount` tell.
#[derive(Debug, Clone, PartialEq, Eq)]
pub enum MountError {
    /// The system refused: more rights are needed.
    PermissionDenied { stderr: String },
    /// The host of the share cannot be reached.
    NetworkUnreachable { share_path: String, stderr: String },
    /// The account was refused.
    AuthenticationFailed { stderr: String },
    /// Anything else.
    Failed { stderr: String },
}

/// A `MountError` with its texts as character sequences.
pub enum MountErrorView {
    PermissionDenied { stderr: Seq<char> },
    NetworkUnreachable { share_path: Seq<char>, stderr: Seq<char> },
    AuthenticationFailed { stderr: Seq<char> },
    Failed { stderr: Seq<char> },
}

impl View for MountError {
    type V = MountErrorView;

    open spec fn view(&self) -> MountErrorView {
        match *self {
            MountError::PermissionDenied { stderr } => MountErrorView::PermissionDenied {
                stderr: stderr@,
            },
            MountError::NetworkUnreachable { share_path, stderr } => {
                MountErrorView::NetworkUnreachable { share_path: share_path@, stderr: stderr@ }
            },
            MountError::AuthenticationFailed { stderr } => MountErrorView::AuthenticationFailed {
                stderr: stderr@,
            },
            MountError::Failed { stderr } => MountErrorView::Failed { stderr: stderr@ },
        }
    }
}

/// What a `MountError` says in words.
pub open spec fn mount_error_text(e: MountErrorView) -> Seq<char> {
    match e {
        MountErrorView::PermissionDenied { stderr } => "Permission denied. Try running with sudo or adding user to required groups.\nError: "@
            + stderr,
        MountErrorView::NetworkUnreachable { share_path, stderr } => "Network unreachable: "@
            + share_path + "\nError: "@ + stderr,
        MountErrorView::AuthenticationFailed { stderr } => "Invalid credentials or authentication failed.\nError: "@
            + stderr,
        MountErrorView::Failed { stderr } => "Mount failed: "@ + stderr,
    }
}

impl MountError {
    /// The error in words.
    pub fn message(&self) -> (m: String)
        ensures
            m@ == mount_error_text(self@),
    {
        match self {
            MountError::PermissionDenied { stderr } => {
                let mut m = "Permission denied. Try running with sudo or adding user to required groups.\nError: ".to_owned();
                m.append(stderr.as_str());
                m
            },
            MountError::NetworkUnreachable { share_path, stderr } => {
                let mut m = "Network unreachable: ".to_owned();
                m.append(share_path.as_str());
                m.append("\nError: ");
                m.append(stderr.as_str());
                m
            },
            MountError::AuthenticationFailed { stderr } => {
                let mut m = "Invalid credentials or authentication failed.\nError: ".to_owned();
                m.append(stderr.as_str());
                m
            },
            MountError::Failed { stderr } => {
                let mut m = "Mount failed: ".to_owned();
                m.append(stderr.as_str());
                m
            },
        }
    }
}

/// The failure that the words `stderr` of `mount` stand for. The first of
/// these decides: a denied permission, an unreachable host, a refused
/// account (error 13 of `mount`).
pub open spec fn mount_failure(share_path: Seq<char>, stderr: Seq<char>) -> MountErrorView {
    if is_substring("Permission denied"@, stderr) || is_substring("permission denied"@, stderr) {
        MountErrorView::PermissionDenied { stderr }
    } else if is_substring("Host is down"@, stderr) || is_substring(
        "Network is unreachable"@,
        stderr,
    ) {
        MountErrorView::NetworkUnreachable { share_path, stderr }
    } else if is_substring("mount error(13)"@, stderr) {
        MountErrorView::AuthenticationFailed { stderr }
    } else {
        MountErrorView::Failed { stderr }
    }
}

/// The lines of the credentials file: the user, the password, and the domain
/// where there is one.
pub open spec fn credentials_text(config: SmbConfig) -> Seq<char> {
    "username="@ + config.username@ + "\n"@ + "password="@ + config.password@ + "\n"@ + (
    if config.domain@.len() > 0 {
        "domain="@ + config.domain@ + "\n"@
    } else {
        Seq::empty()
    })
}

/// The name of the credentials file of the process `pid`.
pub open spec fn credentials_name(pid: u32) -> Seq<char> {
    "smb_creds_"@ + decimal(pid as nat) + ".tmp"@
}

/// The credentials file of the process `pid` of a user whose home directory
/// is `home`.
pub open spec fn credentials_path(home: Seq<char>, pid: u32) -> Seq<char> {
    home + "/.ugnassync/smb_credentials/"@ + credentials_name(pid)
}

/// The permission bits of the credentials file: its owner may read and
/// write it, nobody else may do anything.
pub const CREDENTIALS_MODE: u32 = 0o600;

/// The command that tells whether the mount point is in use.
pub open spec fn probe_command_of(config: SmbConfig) -> Seq<Seq<char>> {
    seq!["mountpoint"@, "-q"@, config.mount_point@]
}

/// The command that mounts the share with the account in `credentials_file`.
pub open spec fn mount_command_of(config: SmbConfig, credentials_file: Seq<char>) -> Seq<
    Seq<char>,
> {
    seq![
        "mount"@,
        "-t"@,
        "cifs"@,
        config.share_path@,
        config.mount_point@,
        "-o"@,
        "credentials="@ + credentials_file,
    ] + (if config.mount_options@.len() > 0 {
        seq!["-o"@, config.mount_options@]
    } else {
        Seq::empty()
    })
}

/// The command that unmounts the share: at once, or `lazy`, when the share
/// is no longer busy.
pub open spec fn unmount_command_of(config: SmbConfig, lazy: bool) -> Seq<Seq<char>> {
    if lazy {
        seq!["umount"@, "-l"@, config.mount_point@]
    } else {
        seq!["umount"@, config.mount_point@]
    }
}

/// What became of an attempt to mount.
#[derive(Debug, Clone, PartialEq, Eq)]
pub enum MountReport {
    /// The mount point was in use already; nothing was run.
    AlreadyActive,
    /// `mount` was run with the account in `credentials_file`, and ended
    /// well.
    Succeeded { credentials_file: String },
    /// `mount` was run with the account in `credentials_file`, and ended
    /// with an error and the words `stderr`.
    Failed { credentials_file: String, stderr: String },
}

/// What the caller is to do after an attempt to mount.
#[derive(Debug)]
pub struct MountOutcome {
    /// Whether the share is mounted now, or why it is not.
    pub result: Result<(), MountError>,
    /// The credentials file to remove now, if there is one.
    pub remove: Option<String>,
}

/// What the caller is to do to unmount.
#[derive(Debug)]
pub struct UnmountPlan {
    /// The commands to try in order until one ends well. None where the
    /// share is not mounted.
    pub commands: Vec<Vec<String>>,
    /// The credentials file to remove afterwards, if there is one.
    pub remove: Option<String>,
}

/// Appends the name of the credentials file of the process `pid`.
fn push_credentials_name(out: &mut String, pid: u32)
    ensures
        final(out)@ == old(out)@ + credentials_name(pid),
{
    out.append("smb_creds_");
    push_decimal(out, pid as u64);
    out.append(".tmp");
    assert(out@ =~= old(out)@ + credentials_name(pid));
}

/// One network share and what is known of it.
pub struct SmbMount {
    config: SmbConfig,
    credentials_file: Option<String>,
    is_mounted: bool,
}

impl SmbMount {
    /// The configuration of the share.
    pub closed spec fn settings(&self) -> SmbConfig {
        self.config
    }

    /// Whether the share counts as mounted.
    pub closed spec fn mounted(&self) -> bool {
        self.is_mounted
    }

    /// The credentials file that is still around, if one is.
    pub closed spec fn kept_credentials(&self) -> Option<Seq<char>> {
        match self.credentials_file {
            Some(path) => Some(path@),
            None => None,
        }
    }

    /// A share that is not mounted and has no credentials file.
    pub fn new(config: SmbConfig) -> (mount: SmbMount)
        ensures
            mount.settings() == config,
            !mount.mounted(),
            mount.kept_credentials() is None,
    {
        SmbMount { config, credentials_file: None, is_mounted: false }
    }

    /// The directory at which the share is mounted.
    pub fn mount_point(&self) -> (p: &str)
        ensures
            p@ == self.settings().mount_point@,
    {
        self.config.mount_point.as_str()
    }

    /// Whether the share is to be unmounted when the sync is over.
    pub fn should_auto_unmount(&self) -> (r: bool)
        ensures
            r == self.settings().auto_unmount,
    {
        self.config.auto_unmount
    }

    /// Whether the share counts as mounted.
    pub fn is_mounted(&self) -> (r: bool)
        ensures
            r == self.mounted(),
    {
        self.is_mounted
    }

    /// The name of the credentials file of the process `pid`.
    pub fn credentials_file_name(pid: u32) -> (name: String)
        ensures
            name@ == credentials_name(pid),
    {
        let mut name = String::new();
        push_credentials_name(&mut name, pid);
        name
    }

    /// The credentials file of the process `pid` of a user whose home
    /// directory is `home`.
    pub fn credentials_file_path(home: &str, pid: u32) -> (path: String)
        ensures
            path@ == credentials_path(home@, pid),
    {
        let mut path = home.to_owned();
        path.append("/.ugnassync/smb_credentials/");
        push_credentials_name(&mut path, pid);
        path
    }

    /// What to write into the credentials file.
    pub fn credentials_content(&self) -> (content: String)
        ensures
            content@ == credentials_text(self.settings()),
    {
        let mut content = "username=".to_owned();
        content.append(self.config.username.as_str());
        content.append("\n");
        content.append("password=");
        content.append(self.config.password.as_str());
        content.append("\n");
        if self.config.domain.as_str().unicode_len() > 0 {
            content.append("domain=");
            content.append(self.config.domain.as_str());
            content.append("\n");
        }
        assert(content@ =~= credentials_text(self.config));
        content
    }

    /// The command that tells whether the mount point is in use.
    pub fn probe_command(&self) -> (command: Vec<String>)
        ensures
            texts_of(command@) == probe_command_of(self.settings()),
    {
        let mut command: Vec<String> = Vec::new();
        command.push("mountpoint".to_owned());
        command.push("-q".to_owned());
        command.push(self.config.mount_point.clone());
        assert(texts_of(command@) =~= probe_command_of(self.config));
        command
    }

    /// The command that mounts the share with the account in
    /// `credentials_file`.
    pub fn mount_command(&self, credentials_file: &str) -> (command: Vec<String>)
        ensures
            texts_of(command@) == mount_command_of(self.settings(), credentials_file@),
    {
        let mut command: Vec<String> = Vec::new();
        command.push("mount".to_owned());
        command.push("-t".to_owned());
        command.push("cifs".to_owned());
        command.push(self.config.share_path.clone());
        command.push(self.config.mount_point.clone());
        command.push("-o".to_owned());
        let mut option = "credentials=".to_owned();
        option.append(credentials_file);
        command.push(option);
        if self.config.mount_options.as_str().unicode_len() > 0 {
            command.push("-o".to_owned());
            command.push(self.config.mount_options.clone());
        }
        assert(texts_of(command@) =~= mount_command_of(self.config, credentials_file@));
        command
    }

    /// The command that unmounts the share.
    pub fn unmount_command(&self, lazy: bool) -> (command: Vec<String>)
        ensures
            texts_of(command@) == unmount_command_of(self.settings(), lazy),
    {
        let mut command: Vec<String> = Vec::new();
        command.push("umount".to_owned());
        if lazy {
            command.push("-l".to_owned());
        }
        command.push(self.config.mount_point.clone());
        assert(texts_of(command@) =~= unmount_command_of(self.config, lazy));
        command
    }

    /// The failure that the words `stderr` of `mount` stand for.
    pub fn classify_failure(&self, stderr: &str) -> (e: MountError)
        ensures
            e@ == mount_failure(self.settings().share_path@, stderr@),
    {
        if contains(stderr, "Permission denied") || contains(stderr, "permission denied") {
            MountError::PermissionDenied { stderr: stderr.to_owned() }
        } else if contains(stderr, "Host is down") || contains(stderr, "Network is unreachable") {
            MountError::NetworkUnreachable {
                share_path: self.config.share_path.clone(),
                stderr: stderr.to_owned(),
            }
        } else if contains(stderr, "mount error(13)") {
            MountError::AuthenticationFailed { stderr: stderr.to_owned() }
        } else {
            MountError::Failed { stderr: stderr.to_owned() }
        }
    }

    /// Takes note of what became of an attempt to mount.
    ///
    /// A mount point that was in use, or a `mount` that ended well, leaves
    /// the share mounted. The credentials file is removed at once, but for a
    /// share that is to stay mounted: there it stays until `unmount`. A
    /// `mount` that failed leaves the share as it was; its credentials file is
    /// removed, and the error tells why it failed.
    pub fn mount(&mut self, report: &MountReport) -> (outcome: MountOutcome)
        ensures
            final(self).settings() == old(self).settings(),
            match *report {
                MountReport::AlreadyActive => {
                    &&& outcome.result is Ok
                    &&& outcome.remove is None
                    &&& final(self).mounted()
                    &&& final(self).kept_credentials() == old(self).kept_credentials()
                },
                MountReport::Succeeded { credentials_file } => {
                    &&& outcome.result is Ok
                    &&& final(self).mounted()
                    &&& if old(self).settings().auto_unmount {
                        &&& outcome.remove matches Some(path)
                        &&& path@ == credentials_file@
                        &&& final(self).kept_credentials() is None
                    } else {
                        &&& outcome.remove is None
                        &&& final(self).kept_credentials() == Some(credentials_file@)
                    }
                },
                MountReport::Failed { credentials_file, stderr } => {
                    &&& outcome.result matches Err(e)
                    &&& e@ == mount_failure(old(self).settings().share_path@, stderr@)
                    &&& outcome.remove matches Some(path)
                    &&& path@ == credentials_file@
                    &&& final(self).mounted() == old(self).mounted()
                    &&& final(self).kept_credentials() is None
                },
            },
    {
        match report {
            MountReport::AlreadyActive => {
                self.is_mounted = true;
                MountOutcome { result: Ok(()), remove: None }
            },
            MountReport::Succeeded { credentials_file } => {
                self.is_mounted = true;
                if self.config.auto_unmount {
                    self.credentials_file = None;
                    MountOutcome { result: Ok(()), remove: Some(credentials_file.clone()) }
                } else {
                    self.credentials_file = Some(credentials_file.clone());
                    MountOutcome { result: Ok(()), remove: None }
                }
            },
            MountReport::Failed { credentials_file, stderr } => {
                let e = self.classify_failure(stderr.as_str());
                self.credentials_file = None;
                MountOutcome { result: Err(e), remove: Some(credentials_file.clone()) }
            },
        }
    }

    /// Gives up the share. Where it is mounted, it counts as unmounted from
    /// now on, whatever becomes of the commands: first the plain one, then,
    /// if that fails, the lazy one; and the credentials file that is still
    /// around is to be removed. Where it is not mounted, nothing is to be
    /// done and nothing changes.
    pub fn unmount(&mut self) -> (plan: UnmountPlan)
        ensures
            final(self).settings() == old(self).settings(),
            !final(self).mounted(),
            old(self).mounted() ==> {
                &&& plan.commands@.len() == 2
                &&& texts_of(plan.commands@[0]@) == unmount_command_of(old(self).settings(), false)
                &&& texts_of(plan.commands@[1]@) == unmount_command_of(old(self).settings(), true)
                &&& final(self).kept_credentials() is None
                &&& match plan.remove {
                    Some(path) => old(self).kept_credentials() == Some(path@),
                    None => old(self).kept_credentials() is None,
                }
            },
            !old(self).mounted() ==> {
                &&& plan.commands@.len() == 0
                &&& plan.remove is None
                &&& final(self).kept_credentials() == old(self).kept_credentials()
            },
    {
        let mut commands: Vec<Vec<String>> = Vec::new();
        if !self.is_mounted {
            return UnmountPlan { commands, remove: None };
        }
        commands.push(self.unmount_command(false));
        commands.push(self.unmount_command(true));
        let mut remove: Option<String> = None;
        std::mem::swap(&mut remove, &mut self.credentials_file);
        self.is_mounted = false;
        UnmountPlan { commands, remove }
    }

    /// Lets go of the credentials file that is still around: answers with
    /// the file to remove, if there is one, and forgets it.
    pub fn cleanup_credentials_file(&mut self) -> (remove: Option<String>)
        ensures
            final(self).settings() == old(self).settings(),
            final(self).mounted() == old(self).mounted(),
            final(self).kept_credentials() is None,
            match remove {
                Some(path) => old(self).kept_credentials() == Some(path@),
                None => old(self).kept_credentials() is None,
            },
    {
        let mut remove: Option<String> = None;
        std::mem::swap(&mut remove, &mut self.credentials_file);
        remove
    }
}

} // verus!
