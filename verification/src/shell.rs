//! The shell: raw handles, opening a target, and the folder picker.
use crate::registry::{encode_utf16, utf16_units};
use crate::text::{cat2, contains_char, owned, signed_dec, signed_decimal};
use vstd::prelude::*;

verus! {

// ---------------------------------------------------------------------------
// Handles
// ---------------------------------------------------------------------------

/// The value of a handle that stands for none.
pub const INVALID_HANDLE_VALUE: isize = -1;

/// A kernel handle, where the value stands for one.
pub fn handle_from_raw(raw: isize) -> (r: Option<isize>)
    ensures
        r == (if raw == 0 || raw == INVALID_HANDLE_VALUE {
            None::<isize>
        } else {
            Some(raw)
        }),
{
    if raw == 0 || raw == INVALID_HANDLE_VALUE {
        None
    } else {
        Some(raw)
    }
}

/// A service handle or the address of an environment block, where the value stands for
/// one.
pub fn pointer_from_raw(raw: isize) -> (r: Option<isize>)
    ensures
        r == (if raw == 0 {
            None::<isize>
        } else {
            Some(raw)
        }),
{
    if raw == 0 {
        None
    } else {
        Some(raw)
    }
}

// ---------------------------------------------------------------------------
// Opening a target
// ---------------------------------------------------------------------------

/// Results of the shell up to this one are errors.
pub const LAST_SHELL_ERROR: isize = 32;

#[derive(Debug)]
pub enum BrowserError {
    InvalidInput,
    Rejected(isize),
    Unsupported,
}

impl BrowserError {
    /// The text that describes the error.
    pub open spec fn text(self) -> Seq<char> {
        match self {
            BrowserError::InvalidInput => "browser target contains a NUL character"@,
            BrowserError::Rejected(code) =>
                "Windows shell rejected the browser target with code "@ + signed_decimal(
                    code as int,
                ),
            BrowserError::Unsupported => "browser launching is only supported on Windows"@,
        }
    }

    pub fn message(&self) -> (r: String)
        ensures
            r@ == self.text(),
    {
        match self {
            BrowserError::InvalidInput => owned("browser target contains a NUL character"),
            BrowserError::Rejected(code) => {
                let digits = signed_dec(*code as i128);
                cat2("Windows shell rejected the browser target with code ", digits.as_str())
            },
            BrowserError::Unsupported => owned("browser launching is only supported on Windows"),
        }
    }
}

/// What the shell is asked to do, in UTF-16 with a zero at the end of each text.
#[derive(Debug)]
pub struct ShellRequest {
    pub operation: Vec<u16>,
    pub target: Vec<u16>,
}

/// What to ask the shell for, so that it opens a URL or a file. A target with a zero
/// in it is refused, and so is every target where there is no shell.
pub fn open(target: &str, on_windows: bool) -> (r: Result<ShellRequest, BrowserError>)
    ensures
        !on_windows ==> r == Result::<ShellRequest, BrowserError>::Err(BrowserError::Unsupported),
        on_windows && target@.contains('\0') ==> r == Result::<ShellRequest, BrowserError>::Err(
            BrowserError::InvalidInput,
        ),
        on_windows && !target@.contains('\0') ==> (r matches Ok(request) && request.operation@
            == utf16_units("open"@).push(0) && request.target@ == utf16_units(target@).push(0)),
{
    if !on_windows {
        return Err(BrowserError::Unsupported);
    }
    if contains_char(target, '\0') {
        return Err(BrowserError::InvalidInput);
    }
    let mut operation = encode_utf16("open");
    operation.push(0);
    let mut units = encode_utf16(target);
    units.push(0);
    Ok(ShellRequest { operation: operation, target: units })
}

/// The outcome of asking the shell.
pub fn open_outcome(code: isize) -> (r: Result<(), BrowserError>)
    ensures
        code <= LAST_SHELL_ERROR ==> r == Result::<(), BrowserError>::Err(
            BrowserError::Rejected(code),
        ),
        code > LAST_SHELL_ERROR ==> r is Ok,
{
    if code <= LAST_SHELL_ERROR {
        Err(BrowserError::Rejected(code))
    } else {
        Ok(())
    }
}

// ---------------------------------------------------------------------------
// Picking a folder
// ---------------------------------------------------------------------------

/// The dialog was dismissed.
pub const CANCELLED_HRESULT: i32 = -2147023673;

/// The thread is in another COM apartment.
pub const RPC_E_CHANGED_MODE: i32 = -2147417850;

/// Folders only, of the file system, that exist; the working directory stays and
/// nothing is remembered.
pub const PICKER_OPTIONS: u32 = 0x0200_0868;

/// The error of a call, and its text.
#[derive(Debug)]
pub struct NativeFailure {
    pub code: i32,
    pub reason: String,
}

#[derive(Debug)]
pub enum FolderDialogError {
    OwnerUnavailable,
    UnsupportedOwner,
    ComInitialization(String),
    ApartmentMismatch,
    Native(String),
    InvalidPath(String),
}

impl FolderDialogError {
    /// The text that describes the error.
    pub open spec fn text(self) -> Seq<char> {
        match self {
            FolderDialogError::OwnerUnavailable => "The application window handle is unavailable"@,
            FolderDialogError::UnsupportedOwner =>
                "The application window did not expose a Win32 window handle"@,
            FolderDialogError::ComInitialization(reason) =>
                "Folder picker COM initialization failed: "@ + reason@,
            FolderDialogError::ApartmentMismatch =>
                "Folder picker requires an STA UI thread, but this thread uses another COM apartment"@,
            FolderDialogError::Native(reason) => "Folder picker failed: "@ + reason@,
            FolderDialogError::InvalidPath(reason) =>
                "Folder picker returned an invalid filesystem path: "@ + reason@,
        }
    }

    pub fn message(&self) -> (r: String)
        ensures
            r@ == self.text(),
    {
        match self {
            FolderDialogError::OwnerUnavailable => owned(
                "The application window handle is unavailable",
            ),
            FolderDialogError::UnsupportedOwner => owned(
                "The application window did not expose a Win32 window handle",
            ),
            FolderDialogError::ComInitialization(reason) => cat2(
                "Folder picker COM initialization failed: ",
                reason.as_str(),
            ),
            FolderDialogError::ApartmentMismatch => owned(
                "Folder picker requires an STA UI thread, but this thread uses another COM apartment",
            ),
            FolderDialogError::Native(reason) => cat2("Folder picker failed: ", reason.as_str()),
            FolderDialogError::InvalidPath(reason) => cat2(
                "Folder picker returned an invalid filesystem path: ",
                reason.as_str(),
            ),
        }
    }
}

/// The window that a dialog belongs to.
#[derive(Debug, Clone, Copy, PartialEq, Eq, Structural)]
pub struct FolderDialogOwner(pub isize);

impl FolderDialogOwner {
    pub fn hwnd(self) -> (r: isize)
        ensures
            r == self.0,
    {
        self.0
    }
}

/// What a window says of its handle.
#[derive(Debug, Clone, Copy, PartialEq, Eq, Structural)]
pub enum WindowHandle {
    Win32(isize),
    Foreign,
}

/// The owner that a window gives.
pub fn folder_dialog_owner(handle: Option<WindowHandle>) -> (r: Result<
    FolderDialogOwner,
    FolderDialogError,
>)
    ensures
        r == (match handle {
            None => Result::<FolderDialogOwner, FolderDialogError>::Err(
                FolderDialogError::OwnerUnavailable,
            ),
            Some(WindowHandle::Win32(hwnd)) => Result::<FolderDialogOwner, FolderDialogError>::Ok(
                FolderDialogOwner(hwnd),
            ),
            Some(WindowHandle::Foreign) => Result::<FolderDialogOwner, FolderDialogError>::Err(
                FolderDialogError::UnsupportedOwner,
            ),
        }),
{
    match handle {
        None => Err(FolderDialogError::OwnerUnavailable),
        Some(WindowHandle::Win32(hwnd)) => Ok(FolderDialogOwner(hwnd)),
        Some(WindowHandle::Foreign) => Err(FolderDialogError::UnsupportedOwner),
    }
}

/// What the picker is waiting for.
#[derive(Debug, Clone, Copy, PartialEq, Eq, Structural)]
pub enum PickStage {
    Initialize,
    CreateDialog,
    GetOptions,
    SetOptions,
    SetTitle,
    SetLabel,
    Show,
    GetResult,
    GetName,
    Finished,
}

#[derive(Debug)]
pub enum PickEvent {
    Initialized(Result<(), NativeFailure>),
    Called(Result<(), NativeFailure>),
    Options(Result<u32, NativeFailure>),
    /// The name that came back, or why it is no text.
    Named(Result<Result<String, String>, NativeFailure>),
}

#[derive(Debug)]
pub enum PickAction {
    Initialize,
    CreateDialog,
    GetOptions,
    SetOptions { options: u32 },
    SetTitle { title: String },
    /// Names the button that takes the folder.
    SetLabel { label: String },
    Show { hwnd: isize },
    GetResult,
    GetName,
    Finish(Result<Option<String>, FolderDialogError>),
}

/// One use of the folder picker.
#[derive(Debug)]
pub struct FolderPick {
    pub owner: FolderDialogOwner,
    pub title: String,
    pub accept_label: String,
    pub stage: PickStage,
}

impl PickStage {
    pub open spec fn expects(self, event: PickEvent) -> bool {
        match self {
            PickStage::Initialize => event is Initialized,
            PickStage::GetOptions => event is Options,
            PickStage::GetName => event is Named,
            PickStage::Finished => false,
            _ => event is Called,
        }
    }
}

pub open spec fn pick_ends(
    n: FolderPick,
    action: PickAction,
    r: Result<Option<String>, FolderDialogError>,
) -> bool {
    n.stage is Finished && action == PickAction::Finish(r)
}

/// What follows an event in the use of the picker.
pub open spec fn pick_follows(
    m: FolderPick,
    event: PickEvent,
    n: FolderPick,
    action: PickAction,
) -> bool {
    match event {
        PickEvent::Initialized(outcome) => match outcome {
            Ok(_) => n.stage is CreateDialog && action is CreateDialog,
            Err(failure) => if failure.code == RPC_E_CHANGED_MODE {
                pick_ends(n, action, Err(FolderDialogError::ApartmentMismatch))
            } else {
                pick_ends(n, action, Err(FolderDialogError::ComInitialization(failure.reason)))
            },
        },
        PickEvent::Called(outcome) => match outcome {
            Ok(_) => match m.stage {
                PickStage::CreateDialog => n.stage is GetOptions && action is GetOptions,
                PickStage::SetOptions => n.stage is SetTitle && (
                action matches PickAction::SetTitle { title } && title@ == m.title@),
                PickStage::SetTitle => n.stage is SetLabel && (
                action matches PickAction::SetLabel { label } && label@ == m.accept_label@),
                PickStage::SetLabel => n.stage is Show && action == (PickAction::Show {
                    hwnd: m.owner.0,
                }),
                PickStage::Show => n.stage is GetResult && action is GetResult,
                _ => n.stage is GetName && action is GetName,
            },
            Err(failure) => if m.stage is Show && failure.code == CANCELLED_HRESULT {
                pick_ends(n, action, Ok(None))
            } else {
                pick_ends(n, action, Err(FolderDialogError::Native(failure.reason)))
            },
        },
        PickEvent::Options(outcome) => match outcome {
            Ok(options) => n.stage is SetOptions && action == (PickAction::SetOptions {
                options: options | PICKER_OPTIONS,
            }),
            Err(failure) => pick_ends(n, action, Err(FolderDialogError::Native(failure.reason))),
        },
        PickEvent::Named(outcome) => match outcome {
            Ok(Ok(path)) => pick_ends(n, action, Ok(Some(path))),
            Ok(Err(reason)) => pick_ends(n, action, Err(FolderDialogError::InvalidPath(reason))),
            Err(failure) => pick_ends(n, action, Err(FolderDialogError::Native(failure.reason))),
        },
    }
}

impl FolderPick {
    /// Starts the picker for a window, with the title it bears and the name of the button
    /// that takes the folder.
    pub fn pick_existing_folder(owner: FolderDialogOwner, title: &str, accept_label: &str) -> (r: (
        FolderPick,
        PickAction,
    ))
        ensures
            r.0.owner == owner,
            r.0.title@ == title@,
            r.0.accept_label@ == accept_label@,
            r.0.stage is Initialize,
            r.1 is Initialize,
    {
        (
            FolderPick {
                owner: owner,
                title: owned(title),
                accept_label: owned(accept_label),
                stage: PickStage::Initialize,
            },
            PickAction::Initialize,
        )
    }

    fn finish(&mut self, result: Result<Option<String>, FolderDialogError>) -> (r: PickAction)
        ensures
            final(self).owner == old(self).owner,
            final(self).title == old(self).title,
            final(self).accept_label == old(self).accept_label,
            pick_ends(*final(self), r, result),
    {
        self.stage = PickStage::Finished;
        PickAction::Finish(result)
    }

    /// Goes on after an event.
    pub fn step(&mut self, event: PickEvent) -> (r: PickAction)
        requires
            old(self).stage.expects(event),
        ensures
            final(self).owner == old(self).owner,
            final(self).title == old(self).title,
            final(self).accept_label == old(self).accept_label,
            pick_follows(*old(self), event, *final(self), r),
    {
        match event {
            PickEvent::Initialized(outcome) => match outcome {
                Ok(()) => {
                    self.stage = PickStage::CreateDialog;
                    PickAction::CreateDialog
                },
                Err(failure) => {
                    if failure.code == RPC_E_CHANGED_MODE {
                        self.finish(Err(FolderDialogError::ApartmentMismatch))
                    } else {
                        self.finish(Err(FolderDialogError::ComInitialization(failure.reason)))
                    }
                },
            },
            PickEvent::Called(outcome) => match outcome {
                Ok(()) => match self.stage {
                    PickStage::CreateDialog => {
                        self.stage = PickStage::GetOptions;
                        PickAction::GetOptions
                    },
                    PickStage::SetOptions => {
                        self.stage = PickStage::SetTitle;
                        PickAction::SetTitle { title: owned(self.title.as_str()) }
                    },
                    PickStage::SetTitle => {
                        self.stage = PickStage::SetLabel;
                        PickAction::SetLabel { label: owned(self.accept_label.as_str()) }
                    },
                    PickStage::SetLabel => {
                        self.stage = PickStage::Show;
                        PickAction::Show { hwnd: self.owner.0 }
                    },
                    PickStage::Show => {
                        self.stage = PickStage::GetResult;
                        PickAction::GetResult
                    },
                    _ => {
                        self.stage = PickStage::GetName;
                        PickAction::GetName
                    },
                },
                Err(failure) => {
                    if self.stage == PickStage::Show && failure.code == CANCELLED_HRESULT {
                        self.finish(Ok(None))
                    } else {
                        self.finish(Err(FolderDialogError::Native(failure.reason)))
                    }
                },
            },
            PickEvent::Options(outcome) => match outcome {
                Ok(options) => {
                    self.stage = PickStage::SetOptions;
                    PickAction::SetOptions { options: options | PICKER_OPTIONS }
                },
                Err(failure) => self.finish(Err(FolderDialogError::Native(failure.reason))),
            },
            PickEvent::Named(outcome) => match outcome {
                Ok(Ok(path)) => self.finish(Ok(Some(path))),
                Ok(Err(reason)) => self.finish(Err(FolderDialogError::InvalidPath(reason))),
                Err(failure) => self.finish(Err(FolderDialogError::Native(failure.reason))),
            },
        }
    }
}

/// A folder is handed on only where the dialog named it; that nothing was chosen is told only
/// where the user closed the dialog, and every other failure is told as one.
pub proof fn a_folder_is_picked_by_the_user_alone(
    m: FolderPick,
    event: PickEvent,
    n: FolderPick,
    action: PickAction,
)
    requires
        m.stage.expects(event),
        pick_follows(m, event, n, action),
    ensures
        action matches PickAction::Finish(Ok(Some(path))) ==> event == PickEvent::Named(
            Ok(Ok(path)),
        ),
        action == PickAction::Finish(Ok(None)) ==> m.stage is Show && (event matches
            PickEvent::Called(Err(failure)) && failure.code == -2147023673),
        (event matches PickEvent::Called(Err(failure)) && (failure.code != -2147023673 || !(
        m.stage is Show))) ==> (action matches PickAction::Finish(Err(_))),
        (event matches PickEvent::Named(Ok(Err(_)))) || (event matches PickEvent::Named(Err(_)))
            ==> (action matches PickAction::Finish(Err(_))),
        action matches PickAction::Show { hwnd } ==> m.stage is SetLabel && hwnd == m.owner.0,
        action is GetResult ==> m.stage is Show && (event matches PickEvent::Called(Ok(_))),
{
}

/// The options of a dialog are added to, never taken away from, and ask for a folder of the
/// file system.
pub proof fn a_dialog_keeps_its_options(
    m: FolderPick,
    given: u32,
    n: FolderPick,
    action: PickAction,
)
    requires
        pick_follows(m, PickEvent::Options(Ok(given)), n, action),
    ensures
        action matches PickAction::SetOptions { options } && options & given == given && options
            & 0x20 == 0x20 && options & 0x40 == 0x40 && options & 0x800 == 0x800,
{
    let wanted = PICKER_OPTIONS;
    let options = given | wanted;
    assert(options & given == given) by (bit_vector)
        requires
            options == given | wanted,
    ;
    assert(options & 0x20 == 0x20 && options & 0x40 == 0x40 && options & 0x800 == 0x800)
        by (bit_vector)
        requires
            options == given | wanted,
            wanted == 0x0200_0868u32,
    ;
}

} // verus!
