use vstd::prelude::*;
use vstd::string::StrSliceExecFns;
use vstd::string::StringExecFns;

use crate::paths::{join_path, joined_path};
use crate::text::{chars_equal, substring};

verus! {

/// The approval modes that can be chosen on the command line.
#[derive(Debug, Clone, Copy, PartialEq, Eq, Structural)]
pub enum ApprovalModeCliArg {
    /// Run all commands without asking; escalate only when one fails.
    OnFailure,
    /// Run only known-safe commands without asking.
    UnlessAllowListed,
    /// Never ask; failures go back to the model.
    Never,
}

/// The policy for asking before a command runs.
#[derive(Debug, Clone, Copy, PartialEq, Eq, Structural)]
pub enum AskForApproval {
    UnlessAllowListed,
    OnFailure,
    Never,
}

pub open spec fn approval_of(v: ApprovalModeCliArg) -> AskForApproval {
    match v {
        ApprovalModeCliArg::UnlessAllowListed => AskForApproval::UnlessAllowListed,
        ApprovalModeCliArg::OnFailure => AskForApproval::OnFailure,
        ApprovalModeCliArg::Never => AskForApproval::Never,
    }
}

impl From<ApprovalModeCliArg> for AskForApproval {
    fn from(value: ApprovalModeCliArg) -> (r: AskForApproval)
        ensures
            r == approval_of(value),
    {
        match value {
            ApprovalModeCliArg::UnlessAllowListed => AskForApproval::UnlessAllowListed,
            ApprovalModeCliArg::OnFailure => AskForApproval::OnFailure,
            ApprovalModeCliArg::Never => AskForApproval::Never,
        }
    }
}

impl vstd::std_specs::convert::FromSpecImpl<ApprovalModeCliArg> for AskForApproval {
    open spec fn obeys_from_spec() -> bool {
        true
    }

    open spec fn from_spec(v: ApprovalModeCliArg) -> AskForApproval {
        approval_of(v)
    }
}

/// A permission granted to the sandbox.
#[derive(Debug, Clone)]
pub enum SandboxPermission {
    DiskFullReadAccess,
    DiskWritePlatformUserTempFolder,
    DiskWritePlatformGlobalTempFolder,
    DiskWriteCwd,
    /// Writing to this folder, an absolute path.
    DiskWriteFolder(String),
    DiskFullWriteAccess,
    NetworkFullAccess,
}

/// The permissions given with `--sandbox-permission`, in order.
#[derive(Debug, Clone)]
pub struct SandboxPermissionOption {
    pub permissions: Option<Vec<SandboxPermission>>,
}

/// Why a permission flag was refused.
#[derive(Debug, Clone)]
pub enum PermissionError {
    /// `disk-write-folder=` with nothing after it.
    EmptyFolderPath,
    /// A name that is no permission.
    Unknown(String),
}

impl PermissionError {
    pub fn message(&self) -> (r: String)
        ensures
            self is EmptyFolderPath ==> r@
                == "--sandbox-permission disk-write-folder=<PATH> requires a non-empty PATH"@,
            self matches PermissionError::Unknown(raw) ==> r@ == "Unknown sandbox permission: "@
                + raw@,
    {
        match self {
            PermissionError::EmptyFolderPath => String::from_str(
                "--sandbox-permission disk-write-folder=<PATH> requires a non-empty PATH",
            ),
            PermissionError::Unknown(raw) => {
                let mut m = String::from_str("Unknown sandbox permission: ");
                m.append(raw.as_str());
                m
            },
        }
    }
}

/// The permissions that are named by a fixed word.
pub open spec fn simple_permission_of(raw: Seq<char>) -> Option<SandboxPermission> {
    if raw == "disk-full-read-access"@ {
        Some(SandboxPermission::DiskFullReadAccess)
    } else if raw == "disk-write-platform-user-temp-folder"@ {
        Some(SandboxPermission::DiskWritePlatformUserTempFolder)
    } else if raw == "disk-write-platform-global-temp-folder"@ {
        Some(SandboxPermission::DiskWritePlatformGlobalTempFolder)
    } else if raw == "disk-write-cwd"@ {
        Some(SandboxPermission::DiskWriteCwd)
    } else if raw == "disk-full-write-access"@ {
        Some(SandboxPermission::DiskFullWriteAccess)
    } else if raw == "network-full-access"@ {
        Some(SandboxPermission::NetworkFullAccess)
    } else {
        None
    }
}

pub open spec fn folder_prefix() -> Seq<char> {
    "disk-write-folder="@
}

fn word_is(raw: &str, word: &str) -> (r: bool)
    ensures
        r == (raw@ == word@),
{
    let n = raw.unicode_len();
    assert(raw@.subrange(0, n as int) =~= raw@);
    chars_equal(raw, 0, n, word)
}

/// Reads one `--sandbox-permission` value. A relative folder is taken
/// relative to `base_path`, the working directory.
pub fn parse_sandbox_permission(raw: &str, base_path: &str) -> (r: Result<
    SandboxPermission,
    PermissionError,
>)
    ensures
        folder_prefix().is_prefix_of(raw@) && raw@.len() == folder_prefix().len() ==> (r matches Err(
            PermissionError::EmptyFolderPath,
        )),
        folder_prefix().is_prefix_of(raw@) && raw@.len() > folder_prefix().len() ==> (r matches Ok(
            SandboxPermission::DiskWriteFolder(p),
        ) && p@ == joined_path(base_path@, raw@.skip(folder_prefix().len() as int))),
        !folder_prefix().is_prefix_of(raw@) ==> match simple_permission_of(raw@) {
            Some(p) => r == Ok::<SandboxPermission, PermissionError>(p),
            None => r matches Err(PermissionError::Unknown(s)) && s@ == raw@,
        },
{
    let prefix = "disk-write-folder=";
    let m = prefix.unicode_len();
    let n = raw.unicode_len();
    if n >= m && chars_equal(raw, 0, m, prefix) {
        assert(folder_prefix().is_prefix_of(raw@));
        if n == m {
            return Err(PermissionError::EmptyFolderPath);
        }
        let path = substring(raw, m, n);
        assert(path@ =~= raw@.skip(m as int));
        return Ok(SandboxPermission::DiskWriteFolder(join_path(base_path, path.as_str())));
    }
    proof {
        if folder_prefix().is_prefix_of(raw@) {
            assert(raw@.subrange(0, m as int) =~= prefix@);
        }
    }
    if word_is(raw, "disk-full-read-access") {
        Ok(SandboxPermission::DiskFullReadAccess)
    } else if word_is(raw, "disk-write-platform-user-temp-folder") {
        Ok(SandboxPermission::DiskWritePlatformUserTempFolder)
    } else if word_is(raw, "disk-write-platform-global-temp-folder") {
        Ok(SandboxPermission::DiskWritePlatformGlobalTempFolder)
    } else if word_is(raw, "disk-write-cwd") {
        Ok(SandboxPermission::DiskWriteCwd)
    } else if word_is(raw, "disk-full-write-access") {
        Ok(SandboxPermission::DiskFullWriteAccess)
    } else if word_is(raw, "network-full-access") {
        Ok(SandboxPermission::NetworkFullAccess)
    } else {
        Err(PermissionError::Unknown(String::from_str(raw)))
    }
}

} // verus!
