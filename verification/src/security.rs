//! Security errors and the choices around privileges and accounts.
use crate::registry::{before_nul, from_wide_null, utf16_chars};
use crate::restart_manager::{decode_utf16_lossy, utf16_chars_lossy};
use crate::text::{cat2, cat3, dec, decimal, owned};
use vstd::prelude::*;

verus! {

pub const SE_TAKE_OWNERSHIP_NAME: &'static str = "SeTakeOwnershipPrivilege";

pub const SE_RESTORE_NAME: &'static str = "SeRestorePrivilege";

pub const SE_BACKUP_NAME: &'static str = "SeBackupPrivilege";

pub const SE_DEBUG_NAME: &'static str = "SeDebugPrivilege";

pub const SE_IMPERSONATE_NAME: &'static str = "SeImpersonatePrivilege";

#[derive(Debug)]
pub enum SecurityError {
    Win32Error(u32),
    PrivilegeNotAssigned(String),
    SidResolutionError(String),
    ReparsePointEncountered(String),
    InvalidPath,
}

impl SecurityError {
    /// The text that describes the error.
    pub open spec fn text(self) -> Seq<char> {
        match self {
            SecurityError::Win32Error(code) => "Security operation failed with Win32 error code: "@
                + decimal(code as nat),
            SecurityError::PrivilegeNotAssigned(name) => "Privilege '"@ + name@
                + "' could not be adjusted or assigned"@,
            SecurityError::SidResolutionError(sid) => "Failed to resolve SID: "@ + sid@,
            SecurityError::ReparsePointEncountered(path) =>
                "Path is a reparse point or junction: "@ + path@,
            SecurityError::InvalidPath => "Invalid path"@,
        }
    }

    pub fn message(&self) -> (r: String)
        ensures
            r@ == self.text(),
    {
        match self {
            SecurityError::Win32Error(code) => {
                let digits = dec(*code as u64);
                cat2("Security operation failed with Win32 error code: ", digits.as_str())
            },
            SecurityError::PrivilegeNotAssigned(name) => cat3(
                "Privilege '",
                name.as_str(),
                "' could not be adjusted or assigned",
            ),
            SecurityError::SidResolutionError(sid) => cat2("Failed to resolve SID: ", sid.as_str()),
            SecurityError::ReparsePointEncountered(path) => cat2(
                "Path is a reparse point or junction: ",
                path.as_str(),
            ),
            SecurityError::InvalidPath => owned("Invalid path"),
        }
    }
}

/// Attribute bit of a reparse point.
pub const FILE_ATTRIBUTE_REPARSE_POINT: u32 = 0x400;

/// Attribute bit of a directory.
pub const FILE_ATTRIBUTE_DIRECTORY: u32 = 0x10;

/// What the attribute query returns for a path it cannot read.
pub const INVALID_FILE_ATTRIBUTES: u32 = 0xffff_ffff;

/// Whether attributes are those of a reparse point; attributes that could not be
/// read are not.
pub fn is_reparse_point(attributes: u32) -> (r: bool)
    ensures
        r == (attributes != INVALID_FILE_ATTRIBUTES && attributes & FILE_ATTRIBUTE_REPARSE_POINT
            != 0),
{
    if attributes == INVALID_FILE_ATTRIBUTES {
        return false;
    }
    (attributes & FILE_ATTRIBUTE_REPARSE_POINT) != 0
}

/// Win32 code that reports a buffer as too small.
pub const ERROR_INSUFFICIENT_BUFFER: u32 = 122;

/// What came back of the lookup of an account, call by call.
pub struct AccountReply {
    /// Whether the text was converted to a SID.
    pub converted: bool,
    /// The code behind the query for the sizes.
    pub size_code: u32,
    /// Name and domain in UTF-16 units, or the code of the failed lookup.
    pub lookup: Result<(Vec<u16>, Vec<u16>), u32>,
}

/// The outcome of the lookup of an account.
pub open spec fn account_outcome(
    sid: Seq<char>,
    reply: AccountReply,
    r: Result<(String, String), SecurityError>,
) -> bool {
    if !reply.converted {
        r matches Err(SecurityError::SidResolutionError(reason)) && reason@ == sid
    } else if reply.size_code != ERROR_INSUFFICIENT_BUFFER && reply.size_code != 0 {
        r matches Err(SecurityError::SidResolutionError(reason)) && reason@
            == "LookupAccountSidW error: "@ + decimal(reply.size_code as nat)
    } else {
        match reply.lookup {
            Err(code) => r matches Err(SecurityError::SidResolutionError(reason)) && reason@
                == "LookupAccountSidW failed: "@ + decimal(code as nat),
            Ok((name, domain)) => r matches Ok((d, n)) && d@ == utf16_chars_lossy(domain@) && n@
                == utf16_chars_lossy(name@),
        }
    }
}

/// Domain and user name of a SID. The query for the sizes must have asked for room or
/// succeeded.
pub fn lookup_account_by_sid_string(sid: &str, reply: AccountReply) -> (r: Result<
    (String, String),
    SecurityError,
>)
    ensures
        account_outcome(sid@, reply, r),
{
    if !reply.converted {
        return Err(SecurityError::SidResolutionError(owned(sid)));
    }
    if reply.size_code != ERROR_INSUFFICIENT_BUFFER && reply.size_code != 0 {
        let digits = dec(reply.size_code as u64);
        return Err(
            SecurityError::SidResolutionError(cat2("LookupAccountSidW error: ", digits.as_str())),
        );
    }
    match reply.lookup {
        Err(code) => {
            let digits = dec(code as u64);
            Err(
                SecurityError::SidResolutionError(
                    cat2("LookupAccountSidW failed: ", digits.as_str()),
                ),
            )
        },
        Ok((name, domain)) => Ok(
            (decode_utf16_lossy(domain.as_slice()), decode_utf16_lossy(name.as_slice())),
        ),
    }
}

/// The text of a SID: nothing where there is no SID, else the units of its text or the
/// code of the failed conversion.
pub fn sid_to_string(converted: Option<Result<Vec<u16>, u32>>) -> (r: Result<String, SecurityError>)
    ensures
        match converted {
            None => r matches Err(SecurityError::SidResolutionError(reason)) && reason@
                == "PSID is null"@,
            Some(Err(code)) => r == Result::<String, SecurityError>::Err(
                SecurityError::Win32Error(code),
            ),
            Some(Ok(units)) => match utf16_chars(before_nul(units@)) {
                Some(chars) => r matches Ok(text) && text@ == chars,
                None => r matches Err(SecurityError::SidResolutionError(reason)) && reason@
                    == "Invalid UTF-16"@,
            },
        },
{
    match converted {
        None => Err(SecurityError::SidResolutionError(owned("PSID is null"))),
        Some(Err(code)) => Err(SecurityError::Win32Error(code)),
        Some(Ok(units)) => match from_wide_null(units.as_slice()) {
            Ok(text) => Ok(text),
            Err(_) => Err(SecurityError::SidResolutionError(owned("Invalid UTF-16"))),
        },
    }
}

/// What came back of raising one privilege.
pub struct PrivilegeReply {
    pub name: String,
    /// Whether the system knows the privilege.
    pub known: bool,
    /// The length of the previous state that the adjustment gave.
    pub previous_length: u32,
}

/// Privileges that are raised until the guard is given up.
#[derive(Debug)]
pub struct PrivilegeGuard {
    /// Whether there is a previous state to put back.
    pub has_previous: bool,
}

/// Whether the first privilege that the system does not know stands at a place.
pub open spec fn first_unknown(replies: Seq<PrivilegeReply>, at: int) -> bool {
    0 <= at < replies.len() && !replies[at].known && forall|i: int|
        0 <= i < at ==> (#[trigger] replies[i]).known
}

impl PrivilegeGuard {
    /// The guard of raised privileges. A privilege that is known but was not assigned
    /// does not fail it.
    pub fn new(token: Result<(), u32>, replies: &Vec<PrivilegeReply>) -> (r: Result<
        PrivilegeGuard,
        SecurityError,
    >)
        ensures
            match token {
                Err(code) => r == Result::<PrivilegeGuard, SecurityError>::Err(
                    SecurityError::Win32Error(code),
                ),
                Ok(_) => match r {
                    Ok(guard) => (forall|i: int|
                        0 <= i < replies@.len() ==> (#[trigger] replies@[i]).known)
                        && guard.has_previous == (replies@.len() > 0
                        && replies@.last().previous_length > 0),
                    Err(e) => exists|at: int| #[trigger]
                        first_unknown(replies@, at) && (e matches
                            SecurityError::PrivilegeNotAssigned(name) && name@
                            == replies@[at].name@),
                },
            },
    {
        match token {
            Err(code) => {
                return Err(SecurityError::Win32Error(code));
            },
            Ok(()) => {},
        }
        let mut length: u32 = 0;
        let mut i: usize = 0;
        while i < replies.len()
            invariant
                token is Ok,
                i <= replies@.len(),
                forall|k: int| 0 <= k < i ==> (#[trigger] replies@[k]).known,
                i == 0 ==> length == 0,
                i > 0 ==> length == replies@[i - 1].previous_length,
            decreases replies.len() - i,
        {
            if !replies[i].known {
                assert(first_unknown(replies@, i as int));
                return Err(SecurityError::PrivilegeNotAssigned(owned(replies[i].name.as_str())));
            }
            length = replies[i].previous_length;
            i += 1;
        }
        Ok(PrivilegeGuard { has_previous: length > 0 })
    }
}

/// What to do with the tree whose owner and access rights are to be reset.
#[derive(Debug)]
pub enum TreeResetStep {
    SetOwner,
    ResetTree,
    Done,
}

/// The outcome so far of a tree reset, step by step: the root must not be a reparse
/// point, then the owner is set, then the rights are propagated. Nothing in this library
/// asks for such a reset.
pub fn reset_tree_security_safe(
    root_path: &str,
    owner_sid: &str,
    root_is_reparse: bool,
    sid_converted: bool,
    owner_status: Option<u32>,
    tree_status: Option<u32>,
) -> (r: Result<TreeResetStep, SecurityError>)
    ensures
        root_is_reparse ==> (r matches Err(SecurityError::ReparsePointEncountered(p)) && p@
            == root_path@),
        !root_is_reparse && !sid_converted ==> (r matches Err(SecurityError::SidResolutionError(s))
            && s@ == owner_sid@),
        !root_is_reparse && sid_converted ==> r == (match owner_status {
            None => Result::<TreeResetStep, SecurityError>::Ok(TreeResetStep::SetOwner),
            Some(code) => if code != 0 {
                Result::<TreeResetStep, SecurityError>::Err(SecurityError::Win32Error(code))
            } else {
                match tree_status {
                    None => Result::<TreeResetStep, SecurityError>::Ok(TreeResetStep::ResetTree),
                    Some(tree) => if tree == 0 {
                        Result::<TreeResetStep, SecurityError>::Ok(TreeResetStep::Done)
                    } else {
                        Result::<TreeResetStep, SecurityError>::Err(SecurityError::Win32Error(tree))
                    },
                }
            },
        }),
{
    if root_is_reparse {
        return Err(SecurityError::ReparsePointEncountered(owned(root_path)));
    }
    if !sid_converted {
        return Err(SecurityError::SidResolutionError(owned(owner_sid)));
    }
    match owner_status {
        None => Ok(TreeResetStep::SetOwner),
        Some(code) => {
            if code != 0 {
                return Err(SecurityError::Win32Error(code));
            }
            match tree_status {
                None => Ok(TreeResetStep::ResetTree),
                Some(tree) => {
                    if tree == 0 {
                        Ok(TreeResetStep::Done)
                    } else {
                        Err(SecurityError::Win32Error(tree))
                    }
                },
            }
        },
    }
}

/// An account is told only where the system knew it, with its domain before its name.
pub proof fn an_account_is_told_as_the_system_knows_it(
    sid: Seq<char>,
    reply: AccountReply,
    r: Result<(String, String), SecurityError>,
)
    requires
        account_outcome(sid, reply, r),
    ensures
        r is Ok <==> reply.converted && (reply.size_code == 0 || reply.size_code == 122)
            && reply.lookup is Ok,
        r matches Ok((domain, name)) ==> name@ == utf16_chars_lossy(reply.lookup->Ok_0.0@) && domain@
            == utf16_chars_lossy(reply.lookup->Ok_0.1@),
        r matches Err(e) ==> e is SidResolutionError,
{
}

} // verus!
