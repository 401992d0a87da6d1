//! Registry names, state bits and well-known relative paths.
use vstd::prelude::*;

verus! {

/// Key below `HKEY_LOCAL_MACHINE` that lists the profiles.
pub const REG_KEY_PROFILE_LIST: &'static str = r"SOFTWARE\Microsoft\Windows NT\CurrentVersion\ProfileList";

pub const VAL_PROFILE_IMAGE_PATH: &'static str = "ProfileImagePath";

pub const VAL_STATE: &'static str = "State";

pub const VAL_REF_COUNT: &'static str = "RefCount";

pub const VAL_GUID: &'static str = "Guid";

pub const VAL_FLAGS: &'static str = "Flags";

pub const STATE_MANDATORY: u32 = 0x0001;

pub const STATE_READONLY: u32 = 0x0002;

pub const STATE_LOCAL_ONLY: u32 = 0x0004;

pub const STATE_DELETE_ROAMING: u32 = 0x0008;

pub const STATE_TEMP_PROFILE: u32 = 0x0080;

pub const STATE_GUEST_USER: u32 = 0x0800;

/// Suffix that Windows gives to a profile key it has set aside.
pub const BAK_EXTENSION: &'static str = ".bak";

pub const NTUSER_DAT: &'static str = "NTUSER.DAT";

pub const USRCLASS_DAT_REL_PATH: &'static str = r"AppData\Local\Microsoft\Windows\UsrClass.dat";

pub const APPDATA_ROAMING_REL_PATH: &'static str = r"AppData\Roaming";

pub const APPDATA_LOCAL_REL_PATH: &'static str = r"AppData\Local";

/// LocalSystem.
pub const LOCAL_SYSTEM_SID: &'static str = "S-1-5-18";

/// LocalService.
pub const LOCAL_SERVICE_SID: &'static str = "S-1-5-19";

/// NetworkService.
pub const NETWORK_SERVICE_SID: &'static str = "S-1-5-20";

/// Win32 code for a registry key or file that does not exist.
pub const ERROR_FILE_NOT_FOUND: u32 = 2;

} // verus!
