use ugnassync::config::SmbConfig;
use ugnassync::smb::{MountError, MountReport, SmbMount, CREDENTIALS_MODE};

fn config(domain: &str, mount_options: &str, auto_unmount: bool) -> SmbConfig {
    SmbConfig {
        enabled: true,
        share_path: "//192.168.1.100/backups".to_string(),
        mount_point: "/mnt/nas".to_string(),
        domain: domain.to_string(),
        username: "admin".to_string(),
        password: "password".to_string(),
        mount_options: mount_options.to_string(),
        auto_unmount,
        mount_timeout: 30,
    }
}

const CREDS: &str = "/home/user/.ugnassync/smb_credentials/smb_creds_4242.tmp";

#[test]
fn test_smb_mount_creation() {
    let config = SmbConfig {
        enabled: true,
        share_path: "//192.168.1.100/backups".to_string(),
        mount_point: "/mnt/nas".to_string(),
        domain: "".to_string(),
        username: "admin".to_string(),
        password: "password".to_string(),
        mount_options: "".to_string(),
        auto_unmount: true,
        mount_timeout: 30,
    };

    let mount = SmbMount::new(config);
    assert!(!mount.is_mounted());
    assert_eq!(mount.mount_point(), "/mnt/nas");
}

#[test]
fn auto_unmount_follows_the_configuration() {
    assert!(SmbMount::new(config("", "", true)).should_auto_unmount());
    assert!(!SmbMount::new(config("", "", false)).should_auto_unmount());
}

#[test]
fn credentials_file_name_carries_the_process_id() {
    assert_eq!(SmbMount::credentials_file_name(4242), "smb_creds_4242.tmp");
    assert_eq!(SmbMount::credentials_file_name(0), "smb_creds_0.tmp");
    assert_eq!(SmbMount::credentials_file_name(u32::MAX), "smb_creds_4294967295.tmp");
}

#[test]
fn credentials_file_lies_below_the_home_directory() {
    assert_eq!(SmbMount::credentials_file_path("/home/user", 4242), CREDS);
    assert_eq!(
        SmbMount::credentials_file_path("", 7),
        "/.ugnassync/smb_credentials/smb_creds_7.tmp"
    );
}

#[test]
fn credentials_are_for_the_owner_only() {
    assert_eq!(CREDENTIALS_MODE, 0o600);
}

#[test]
fn credentials_without_domain() {
    let mount = SmbMount::new(config("", "", true));
    assert_eq!(mount.credentials_content(), "username=admin\npassword=password\n");
}

#[test]
fn credentials_with_domain() {
    let mount = SmbMount::new(config("WORKGROUP", "", true));
    assert_eq!(
        mount.credentials_content(),
        "username=admin\npassword=password\ndomain=WORKGROUP\n"
    );
}

#[test]
fn commands_name_share_and_mount_point() {
    let mount = SmbMount::new(config("", "", true));
    assert_eq!(mount.probe_command(), vec!["mountpoint", "-q", "/mnt/nas"]);
    assert_eq!(
        mount.mount_command(CREDS),
        vec![
            "mount",
            "-t",
            "cifs",
            "//192.168.1.100/backups",
            "/mnt/nas",
            "-o",
            "credentials=/home/user/.ugnassync/smb_credentials/smb_creds_4242.tmp",
        ]
    );
    assert_eq!(mount.unmount_command(false), vec!["umount", "/mnt/nas"]);
    assert_eq!(mount.unmount_command(true), vec!["umount", "-l", "/mnt/nas"]);
}

#[test]
fn mount_options_are_passed_on() {
    let mount = SmbMount::new(config("", "vers=3.0,uid=1000", true));
    let command = mount.mount_command(CREDS);
    assert_eq!(command.len(), 9);
    assert_eq!(command[7], "-o");
    assert_eq!(command[8], "vers=3.0,uid=1000");
}

#[test]
fn failures_are_told_apart_by_their_words() {
    let mount = SmbMount::new(config("", "", true));
    assert!(matches!(
        mount.classify_failure("mount: Permission denied"),
        MountError::PermissionDenied { .. }
    ));
    assert!(matches!(
        mount.classify_failure("mount error: permission denied (13)"),
        MountError::PermissionDenied { .. }
    ));
    assert_eq!(
        mount.classify_failure("mount error(112): Host is down"),
        MountError::NetworkUnreachable {
            share_path: "//192.168.1.100/backups".to_string(),
            stderr: "mount error(112): Host is down".to_string()
        }
    );
    assert!(matches!(
        mount.classify_failure("connect: Network is unreachable"),
        MountError::NetworkUnreachable { .. }
    ));
    assert!(matches!(
        mount.classify_failure("mount error(13): access refused"),
        MountError::AuthenticationFailed { .. }
    ));
    assert_eq!(
        mount.classify_failure("mount error(2): No such file or directory"),
        MountError::Failed { stderr: "mount error(2): No such file or directory".to_string() }
    );
    assert!(matches!(
        mount.classify_failure("mount error(13): Permission denied"),
        MountError::PermissionDenied { .. }
    ));
}

#[test]
fn mount_errors_in_words() {
    assert_eq!(
        MountError::PermissionDenied { stderr: "x".to_string() }.message(),
        "Permission denied. Try running with sudo or adding user to required groups.\nError: x"
    );
    assert_eq!(
        MountError::NetworkUnreachable { share_path: "//h/s".to_string(), stderr: "x".to_string() }
            .message(),
        "Network unreachable: //h/s\nError: x"
    );
    assert_eq!(
        MountError::AuthenticationFailed { stderr: "x".to_string() }.message(),
        "Invalid credentials or authentication failed.\nError: x"
    );
    assert_eq!(MountError::Failed { stderr: "x".to_string() }.message(), "Mount failed: x");
}

#[test]
fn an_active_mount_point_counts_as_mounted() {
    let mut mount = SmbMount::new(config("", "", true));
    let outcome = mount.mount(&MountReport::AlreadyActive);
    assert_eq!(outcome.result, Ok(()));
    assert_eq!(outcome.remove, None);
    assert!(mount.is_mounted());
}

#[test]
fn a_temporary_mount_drops_its_credentials_at_once() {
    let mut mount = SmbMount::new(config("", "", true));
    let outcome = mount.mount(&MountReport::Succeeded { credentials_file: CREDS.to_string() });
    assert_eq!(outcome.result, Ok(()));
    assert_eq!(outcome.remove, Some(CREDS.to_string()));
    assert!(mount.is_mounted());
    let plan = mount.unmount();
    assert_eq!(plan.remove, None);
}

#[test]
fn a_lasting_mount_keeps_its_credentials_until_unmount() {
    let mut mount = SmbMount::new(config("", "", false));
    let outcome = mount.mount(&MountReport::Succeeded { credentials_file: CREDS.to_string() });
    assert_eq!(outcome.result, Ok(()));
    assert_eq!(outcome.remove, None);
    let plan = mount.unmount();
    assert_eq!(
        plan.commands,
        vec![
            vec!["umount".to_string(), "/mnt/nas".to_string()],
            vec!["umount".to_string(), "-l".to_string(), "/mnt/nas".to_string()],
        ]
    );
    assert_eq!(plan.remove, Some(CREDS.to_string()));
    assert!(!mount.is_mounted());
    assert_eq!(mount.cleanup_credentials_file(), None);
}

#[test]
fn a_failed_mount_drops_its_credentials_and_stays_unmounted() {
    let mut mount = SmbMount::new(config("", "", false));
    let outcome = mount.mount(&MountReport::Failed {
        credentials_file: CREDS.to_string(),
        stderr: "mount error(13): access refused".to_string(),
    });
    assert_eq!(
        outcome.result,
        Err(MountError::AuthenticationFailed {
            stderr: "mount error(13): access refused".to_string()
        })
    );
    assert_eq!(outcome.remove, Some(CREDS.to_string()));
    assert!(!mount.is_mounted());
    assert_eq!(mount.cleanup_credentials_file(), None);
}

#[test]
fn unmounting_what_is_not_mounted_does_nothing() {
    let mut mount = SmbMount::new(config("", "", true));
    let plan = mount.unmount();
    assert!(plan.commands.is_empty());
    assert_eq!(plan.remove, None);
    assert!(!mount.is_mounted());
}

#[test]
fn cleanup_hands_out_the_kept_file_once() {
    let mut mount = SmbMount::new(config("", "", false));
    mount.mount(&MountReport::Succeeded { credentials_file: CREDS.to_string() });
    assert_eq!(mount.cleanup_credentials_file(), Some(CREDS.to_string()));
    assert_eq!(mount.cleanup_credentials_file(), None);
    assert!(mount.is_mounted());
}
