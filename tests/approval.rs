use copilot_auth::approval::{
    parse_sandbox_permission, ApprovalModeCliArg, AskForApproval, PermissionError, SandboxPermission,
    SandboxPermissionOption,
};

#[test]
fn approval_modes_convert() {
    assert_eq!(AskForApproval::from(ApprovalModeCliArg::OnFailure), AskForApproval::OnFailure);
    assert_eq!(AskForApproval::from(ApprovalModeCliArg::UnlessAllowListed), AskForApproval::UnlessAllowListed);
    assert_eq!(AskForApproval::from(ApprovalModeCliArg::Never), AskForApproval::Never);
}

#[test]
fn fixed_permissions_parse() {
    assert!(matches!(parse_sandbox_permission("disk-full-read-access", "/w"), Ok(SandboxPermission::DiskFullReadAccess)));
    assert!(matches!(parse_sandbox_permission("disk-write-cwd", "/w"), Ok(SandboxPermission::DiskWriteCwd)));
    assert!(matches!(parse_sandbox_permission("network-full-access", "/w"), Ok(SandboxPermission::NetworkFullAccess)));
    assert!(matches!(
        parse_sandbox_permission("disk-write-platform-global-temp-folder", "/w"),
        Ok(SandboxPermission::DiskWritePlatformGlobalTempFolder)
    ));
}

#[test]
fn folder_permission_is_resolved() {
    match parse_sandbox_permission("disk-write-folder=sub/dir", "/work") {
        Ok(SandboxPermission::DiskWriteFolder(p)) => assert_eq!(p, "/work/sub/dir"),
        other => panic!("unexpected {other:?}"),
    }
    match parse_sandbox_permission("disk-write-folder=/abs", "/work") {
        Ok(SandboxPermission::DiskWriteFolder(p)) => assert_eq!(p, "/abs"),
        other => panic!("unexpected {other:?}"),
    }
}

#[test]
fn empty_folder_is_refused() {
    let e = parse_sandbox_permission("disk-write-folder=", "/work").unwrap_err();
    assert!(matches!(e, PermissionError::EmptyFolderPath));
    assert_eq!(e.message(), "--sandbox-permission disk-write-folder=<PATH> requires a non-empty PATH");
}

#[test]
fn unknown_permission_is_refused() {
    let e = parse_sandbox_permission("disk-read", "/work").unwrap_err();
    assert_eq!(e.message(), "Unknown sandbox permission: disk-read");
}

#[test]
fn permission_option_holds_list() {
    let o = SandboxPermissionOption { permissions: Some(vec![SandboxPermission::DiskWriteCwd]) };
    assert_eq!(o.permissions.map(|v| v.len()), Some(1));
}
