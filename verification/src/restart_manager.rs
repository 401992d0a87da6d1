//! Interpretation of Restart Manager replies.
use crate::registry::{
    before_nul, is_lead_surrogate, is_trail_surrogate, pair_char, unit_char, units_before_nul,
    utf16_chars, ERROR_SUCCESS,
};
use crate::text::{cat2, dec, decimal, string_from};
use vstd::prelude::*;

verus! {

pub const RM_NORMAL_SHUTDOWN: u32 = 0;

pub const RM_FORCE_SHUTDOWN: u32 = 1;

/// Win32 code that asks for a larger buffer.
pub const ERROR_MORE_DATA: u32 = 234;

#[derive(Debug)]
pub enum RestartManagerError {
    Win32Error(u32),
    InvalidPath(String),
}

impl RestartManagerError {
    /// The text that describes the error.
    pub open spec fn text(self) -> Seq<char> {
        match self {
            RestartManagerError::Win32Error(code) => "Restart Manager failed with error code: "@
                + decimal(code as nat),
            RestartManagerError::InvalidPath(path) => "Failed to register resource path: "@
                + path@,
        }
    }

    pub fn message(&self) -> (r: String)
        ensures
            r@ == self.text(),
    {
        match self {
            RestartManagerError::Win32Error(code) => {
                let digits = dec(*code as u64);
                cat2("Restart Manager failed with error code: ", digits.as_str())
            },
            RestartManagerError::InvalidPath(path) => cat2(
                "Failed to register resource path: ",
                path.as_str(),
            ),
        }
    }
}

/// A process that holds a lock on a file.
#[derive(Debug, Clone)]
pub struct LockingProcessInfo {
    pub process_id: u32,
    pub app_name: String,
    pub service_short_name: String,
    pub app_type: u32,
    pub restartable: bool,
}

/// A process record as the system hands it out: zero-terminated names.
pub struct ProcessRecord {
    pub process_id: u32,
    pub app_name: Vec<u16>,
    pub service_short_name: Vec<u16>,
    pub app_type: u32,
    pub restartable: i32,
}

/// The characters of UTF-16 units, with U+FFFD for each surrogate without its
/// partner.
pub open spec fn utf16_chars_lossy(units: Seq<u16>) -> Seq<char>
    decreases units.len(),
{
    if units.len() == 0 {
        Seq::empty()
    } else if is_lead_surrogate(units[0]) && units.len() >= 2 && is_trail_surrogate(units[1]) {
        seq![(0x10000 + (units[0] - 0xd800) * 0x400 + (units[1] - 0xdc00)) as char]
            + utf16_chars_lossy(units.skip(2))
    } else if is_lead_surrogate(units[0]) || is_trail_surrogate(units[0]) {
        seq!['\u{fffd}'] + utf16_chars_lossy(units.skip(1))
    } else {
        seq![units[0] as char] + utf16_chars_lossy(units.skip(1))
    }
}

/// Decodes UTF-16 with U+FFFD in the place of each surrogate without its partner.
pub fn decode_utf16_lossy(units: &[u16]) -> (r: String)
    ensures
        r@ == utf16_chars_lossy(units@),
{
    let mut out: Vec<char> = Vec::new();
    let mut i: usize = 0;
    assert(units@.skip(0) =~= units@);
    assert(out@ + utf16_chars_lossy(units@) =~= utf16_chars_lossy(units@));
    while i < units.len()
        invariant
            i <= units@.len(),
            utf16_chars_lossy(units@) == out@ + utf16_chars_lossy(units@.skip(i as int)),
        decreases units.len() - i,
    {
        let unit: u16 = units[i];
        let ghost before = out@;
        let ghost tail = units@.skip(i as int);
        let lead: bool = 0xd800 <= unit && unit <= 0xdbff;
        let trail: bool = 0xdc00 <= unit && unit <= 0xdfff;
        if lead && units.len() - i >= 2 && 0xdc00 <= units[i + 1] && units[i + 1] <= 0xdfff {
            out.push(pair_char(unit, units[i + 1]));
            i += 2;
            assert(tail.skip(2) =~= units@.skip(i as int));
        } else {
            if lead || trail {
                out.push('\u{fffd}');
            } else {
                out.push(unit_char(unit));
            }
            i += 1;
            assert(tail.skip(1) =~= units@.skip(i as int));
        }
        assert(before + (seq![out@.last()] + utf16_chars_lossy(units@.skip(i as int))) =~= out@
            + utf16_chars_lossy(units@.skip(i as int)));
    }
    assert(out@ + utf16_chars_lossy(units@.skip(i as int)) =~= out@);
    string_from(out)
}

/// A session with the Restart Manager.
pub struct RestartManagerSession {
    pub session_handle: u32,
}

/// What is known after the size query of a process list.
#[derive(Debug)]
pub enum ListRequest {
    /// No process holds the resource.
    Empty,
    /// Ask again with room for this many records.
    Query(u32),
}

impl RestartManagerSession {
    /// The session that a start reply stands for.
    pub fn new(status: u32, session_handle: u32) -> (r: Result<
        RestartManagerSession,
        RestartManagerError,
    >)
        ensures
            r == (if status == ERROR_SUCCESS {
                Result::<RestartManagerSession, RestartManagerError>::Ok(
                    RestartManagerSession { session_handle: session_handle },
                )
            } else {
                Result::<RestartManagerSession, RestartManagerError>::Err(
                    RestartManagerError::Win32Error(status),
                )
            }),
    {
        if status == ERROR_SUCCESS {
            Ok(RestartManagerSession { session_handle: session_handle })
        } else {
            Err(RestartManagerError::Win32Error(status))
        }
    }

    /// What the reply to the size query of the process list asks for.
    pub fn list_request(status: u32, needed: u32) -> (r: Result<ListRequest, RestartManagerError>)
        ensures
            status != ERROR_SUCCESS && status != ERROR_MORE_DATA ==> r == Result::<
                ListRequest,
                RestartManagerError,
            >::Err(RestartManagerError::Win32Error(status)),
            status == ERROR_SUCCESS || status == ERROR_MORE_DATA ==> r == Result::<
                ListRequest,
                RestartManagerError,
            >::Ok(
                if needed == 0 {
                    ListRequest::Empty
                } else {
                    ListRequest::Query(needed)
                },
            ),
    {
        if status != ERROR_SUCCESS && status != ERROR_MORE_DATA {
            return Err(RestartManagerError::Win32Error(status));
        }
        if needed == 0 {
            return Ok(ListRequest::Empty);
        }
        Ok(ListRequest::Query(needed))
    }

    /// The processes that the reply to the list query names.
    pub fn get_locking_processes(status: u32, records: &Vec<ProcessRecord>) -> (r: Result<
        Vec<LockingProcessInfo>,
        RestartManagerError,
    >)
        ensures
            status != ERROR_SUCCESS ==> r == Result::<
                Vec<LockingProcessInfo>,
                RestartManagerError,
            >::Err(RestartManagerError::Win32Error(status)),
            status == ERROR_SUCCESS ==> (r matches Ok(list) && list@.len() == records@.len()
                && forall|i: int|
                0 <= i < list@.len() ==> describes(#[trigger] list@[i], records@[i])),
    {
        if status != ERROR_SUCCESS {
            return Err(RestartManagerError::Win32Error(status));
        }
        let mut out: Vec<LockingProcessInfo> = Vec::new();
        let mut i: usize = 0;
        while i < records.len()
            invariant
                i <= records@.len(),
                out@.len() == i,
                forall|k: int| 0 <= k < i ==> describes(#[trigger] out@[k], records@[k]),
            decreases records.len() - i,
        {
            let record = &records[i];
            let app = units_before_nul(record.app_name.as_slice());
            let service = units_before_nul(record.service_short_name.as_slice());
            out.push(
                LockingProcessInfo {
                    process_id: record.process_id,
                    app_name: decode_utf16_lossy(app.as_slice()),
                    service_short_name: decode_utf16_lossy(service.as_slice()),
                    app_type: record.app_type,
                    restartable: record.restartable != 0,
                },
            );
            i += 1;
        }
        Ok(out)
    }

    /// The outcome of naming a file to the session.
    pub fn register_file(&self, status: u32) -> (r: Result<(), RestartManagerError>)
        ensures
            r == session_outcome(status),
    {
        if status == ERROR_SUCCESS {
            Ok(())
        } else {
            Err(RestartManagerError::Win32Error(status))
        }
    }

    /// The outcome of asking the processes of the session to end. Nothing in this library
    /// asks for that: a session lists the processes, and the operator closes them.
    pub fn shutdown_locking_processes(&self, status: u32) -> (r: Result<(), RestartManagerError>)
        ensures
            r == session_outcome(status),
    {
        if status == ERROR_SUCCESS {
            Ok(())
        } else {
            Err(RestartManagerError::Win32Error(status))
        }
    }

    /// The flags of a shutdown request.
    pub fn shutdown_flags(force: bool) -> (r: u32)
        ensures
            r == (if force {
                RM_FORCE_SHUTDOWN
            } else {
                RM_NORMAL_SHUTDOWN
            }),
    {
        if force {
            RM_FORCE_SHUTDOWN
        } else {
            RM_NORMAL_SHUTDOWN
        }
    }
}

/// The outcome of a call that reports only a status.
pub open spec fn session_outcome(status: u32) -> Result<(), RestartManagerError> {
    if status == ERROR_SUCCESS {
        Ok(())
    } else {
        Err(RestartManagerError::Win32Error(status))
    }
}

/// Whether process information says what a record holds.
pub open spec fn describes(info: LockingProcessInfo, record: ProcessRecord) -> bool {
    &&& info.process_id == record.process_id
    &&& info.app_name@ == utf16_chars_lossy(before_nul(record.app_name@))
    &&& info.service_short_name@ == utf16_chars_lossy(before_nul(record.service_short_name@))
    &&& info.app_type == record.app_type
    &&& info.restartable == (record.restartable != 0)
}

/// What is well-formed decodes to the same text whether or not faults are passed over.
pub proof fn well_formed_text_loses_nothing(units: Seq<u16>)
    requires
        utf16_chars(units) is Some,
    ensures
        utf16_chars_lossy(units) == utf16_chars(units)->0,
    decreases units.len(),
{
    if units.len() > 0 {
        if is_lead_surrogate(units[0]) && units.len() >= 2 && is_trail_surrogate(units[1]) {
            well_formed_text_loses_nothing(units.skip(2));
        } else {
            well_formed_text_loses_nothing(units.skip(1));
        }
    }
}

/// A call of the service succeeded exactly where it says so, and else its number is told.
pub proof fn a_failed_call_is_told_by_its_number(status: u32)
    ensures
        session_outcome(status) is Ok <==> status == 0,
        status != 0 ==> session_outcome(status) == Result::<(), RestartManagerError>::Err(
            RestartManagerError::Win32Error(status),
        ),
{
}

} // verus!
