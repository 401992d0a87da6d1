//! Opening paths and listing directories by handle, one native call at a time.
use crate::paths::path_join;
use crate::registry::{encode_utf16, utf16_units};
use crate::secure_fs::{
    entry_models, first_failure, is_native_error, is_single_component, is_ordered_listing, listing,
    child_display_path, descends, identities_overlap, is_inside, listing_error, nt_error,
    open_absolute_failure, overlaps, names_below, parse_directory_buffer,
    root_text, sort_entries, split_absolute, validate_component, FileIdentity, SecureDirEntry,
    SecureFsError,
};
use crate::security::FILE_ATTRIBUTE_REPARSE_POINT;
use crate::text::{owned, texts};
use vstd::prelude::*;

verus! {

// ---------------------------------------------------------------------------
// One native call
// ---------------------------------------------------------------------------

/// The bytes of a name as UTF-16.
pub open spec fn native_length(name: Seq<char>) -> nat {
    2 * utf16_units(name).len()
}

/// The length of a component as a native name, which has 16 bits.
pub fn native_name_length(name: &str, display_path: &str) -> (r: Result<u16, SecureFsError>)
    ensures
        match r {
            Ok(length) => is_single_component(name@) && length == native_length(name@),
            Err(e) => !(is_single_component(name@) && native_length(name@) <= u16::MAX) && (
            e matches SecureFsError::InvalidPath(p) && p@ == display_path@),
        },
{
    match validate_component(name, display_path) {
        Ok(()) => {},
        Err(e) => {
            return Err(e);
        },
    }
    let units: usize = encode_utf16(name).len();
    if units > 32767 {
        return Err(SecureFsError::InvalidPath(owned(display_path)));
    }
    Ok((units * 2) as u16)
}

/// The outcome of opening an object relative to a directory handle.
pub fn nt_open_relative(status: i32, has_handle: bool, display_path: &str) -> (r: Result<
    (),
    SecureFsError,
>)
    ensures
        match r {
            Ok(_) => status >= 0 && has_handle,
            Err(e) => if status < 0 {
                is_native_error("open relative to directory handle"@, display_path@, status, e)
            } else {
                !has_handle && (e matches SecureFsError::Native { operation, path, status: s }
                    && operation@ == "open relative to directory handle"@ && path@
                    == display_path@ && s == status)
            },
        },
{
    if status < 0 {
        return Err(nt_error("open relative to directory handle", display_path, status));
    }
    if !has_handle {
        return Err(
            SecureFsError::Native {
                operation: "open relative to directory handle",
                path: owned(display_path),
                status: status,
            },
        );
    }
    Ok(())
}

/// Refuses an opened object that is a reparse point, given its attributes or why they
/// could not be read.
pub fn reject_reparse_handle(attributes: Result<u32, String>, path: &str) -> (r: Result<
    (),
    SecureFsError,
>)
    ensures
        match attributes {
            Err(why) => r matches Err(SecureFsError::Io { operation, path: p, source }) && operation@
                == "inspect opened object attributes"@ && p@ == path@ && source@ == why@,
            Ok(bits) => if bits & FILE_ATTRIBUTE_REPARSE_POINT != 0 {
                r matches Err(SecureFsError::ReparsePoint(p)) && p@ == path@
            } else {
                r is Ok
            },
        },
{
    match attributes {
        Err(source) => Err(
            SecureFsError::Io {
                operation: "inspect opened object attributes",
                path: owned(path),
                source: source,
            },
        ),
        Ok(bits) => {
            if bits & FILE_ATTRIBUTE_REPARSE_POINT != 0 {
                Err(SecureFsError::ReparsePoint(owned(path)))
            } else {
                Ok(())
            }
        },
    }
}

// ---------------------------------------------------------------------------
// Listing a directory
// ---------------------------------------------------------------------------

/// The code with which an enumeration says that there are no more files.
pub const ERROR_NO_MORE_FILES: u32 = 18;

/// Why a query for entries gave no buffer.
#[derive(Debug)]
pub struct QueryFailure {
    pub code: u32,
    pub source: String,
}

#[derive(Debug)]
pub enum ListingAction {
    /// Ask for the next buffer, or for the first one again.
    Query { restart: bool },
    Finish(Result<Vec<SecureDirEntry>, SecureFsError>),
}

/// The listing of a directory, buffer by buffer.
#[derive(Debug)]
pub struct ListingRun {
    pub directory: String,
    pub found: Vec<SecureDirEntry>,
}

impl ListingRun {
    /// Starts the listing of a directory.
    fn new(directory: String) -> (r: (ListingRun, ListingAction))
        ensures
            r.0.directory == directory,
            r.0.found@.len() == 0,
            r.1 == (ListingAction::Query { restart: true }),
    {
        (
            ListingRun { directory: directory, found: Vec::new() },
            ListingAction::Query { restart: true },
        )
    }

    /// Takes in the reply to a query. At the end the entries are ordered; one entry that
    /// cannot be accepted stops the listing.
    pub fn step(&mut self, reply: Result<Vec<u8>, QueryFailure>) -> (r: ListingAction)
        ensures
            final(self).directory == old(self).directory,
            match reply {
                Ok(buffer) => match listing(buffer@, 0) {
                    Ok(more) => r == (ListingAction::Query { restart: false }) && entry_models(
                        final(self).found@,
                    ) == entry_models(old(self).found@) + more,
                    Err(fault) => r matches ListingAction::Finish(Err(e)) && listing_error(
                        old(self).directory@,
                        fault,
                        e,
                    ),
                },
                Err(failure) => if failure.code == ERROR_NO_MORE_FILES {
                    r matches ListingAction::Finish(Ok(list)) && is_ordered_listing(
                        entry_models(old(self).found@),
                        entry_models(list@),
                    )
                } else {
                    r matches ListingAction::Finish(
                        Err(SecureFsError::Io { operation, path, source }),
                    ) && operation@ == "enumerate directory by handle"@ && path@
                        == old(self).directory@ && source@ == failure.source@
                },
            },
    {
        match reply {
            Ok(buffer) => {
                match parse_directory_buffer(
                    buffer.as_slice(),
                    self.directory.as_str(),
                    &mut self.found,
                ) {
                    Ok(()) => ListingAction::Query { restart: false },
                    Err(e) => ListingAction::Finish(Err(e)),
                }
            },
            Err(failure) => {
                if failure.code == ERROR_NO_MORE_FILES {
                    ListingAction::Finish(Ok(sort_entries(&self.found)))
                } else {
                    ListingAction::Finish(
                        Err(
                            SecureFsError::Io {
                                operation: "enumerate directory by handle",
                                path: owned(self.directory.as_str()),
                                source: failure.source,
                            },
                        ),
                    )
                }
            },
        }
    }
}

// ---------------------------------------------------------------------------
// An open directory
// ---------------------------------------------------------------------------

/// A directory that is open by handle: where it is shown to stand, and the identities
/// from the root of its volume down to it.
#[derive(Debug)]
pub struct SecureDirectory {
    pub display_path: String,
    pub ancestry: Vec<FileIdentity>,
}

/// Whether a directory is the one of a name below another.
pub open spec fn is_child(child: SecureDirectory, of: SecureDirectory, name: Seq<char>, id: FileIdentity) -> bool {
    &&& child.display_path@ == path_join(of.display_path@, name)
    &&& child.ancestry@ == of.ancestry@.push(id)
}

impl SecureDirectory {
    /// The root of a volume or share.
    pub fn root(path: String, identity: FileIdentity) -> (r: SecureDirectory)
        ensures
            r.display_path == path,
            r.ancestry@ == seq![identity],
    {
        let mut ancestry: Vec<FileIdentity> = Vec::new();
        ancestry.push(identity);
        assert(ancestry@ =~= seq![identity]);
        SecureDirectory { display_path: path, ancestry: ancestry }
    }

    /// The directory of a name in this one, given the identity of what was opened.
    pub fn open_directory(&self, name: &str, opened: Result<FileIdentity, SecureFsError>) -> (r:
        Result<SecureDirectory, SecureFsError>)
        ensures
            match r {
                Ok(child) => is_single_component(name@) && opened is Ok && is_child(
                    child,
                    *self,
                    name@,
                    opened->Ok_0,
                ),
                Err(e) => if is_single_component(name@) {
                    opened == Result::<FileIdentity, SecureFsError>::Err(e)
                } else {
                    e matches SecureFsError::InvalidPath(p) && p@ == path_join(
                        self.display_path@,
                        name@,
                    )
                },
            },
    {
        let path = match child_display_path(self.display_path.as_str(), name) {
            Ok(path) => path,
            Err(e) => {
                return Err(e);
            },
        };
        match opened {
            Ok(identity) => {
                let mut ancestry = copy_identities(&self.ancestry);
                ancestry.push(identity);
                Ok(SecureDirectory { display_path: path, ancestry: ancestry })
            },
            Err(e) => Err(e),
        }
    }

    /// Where the file of a name in this directory is shown to stand, given the outcome
    /// of opening it.
    pub fn open_file(&self, name: &str, opened: Result<(), SecureFsError>) -> (r: Result<
        String,
        SecureFsError,
    >)
        ensures
            match r {
                Ok(path) => is_single_component(name@) && opened is Ok && path@ == path_join(
                    self.display_path@,
                    name@,
                ),
                Err(e) => if is_single_component(name@) {
                    opened == Result::<(), SecureFsError>::Err(e)
                } else {
                    e matches SecureFsError::InvalidPath(p) && p@ == path_join(
                        self.display_path@,
                        name@,
                    )
                },
            },
    {
        match child_display_path(self.display_path.as_str(), name) {
            Ok(path) => match opened {
                Ok(()) => Ok(path),
                Err(e) => Err(e),
            },
            Err(e) => Err(e),
        }
    }

    /// Starts the listing of this directory.
    pub fn entries(&self) -> (r: (ListingRun, ListingAction))
        ensures
            r.0.directory@ == self.display_path@,
            r.0.found@.len() == 0,
            r.1 == (ListingAction::Query { restart: true }),
    {
        ListingRun::new(owned(self.display_path.as_str()))
    }

    /// Whether one of two directories is the other or lies inside it.
    pub fn overlaps(&self, other: &SecureDirectory) -> (r: bool)
        ensures
            r == identities_overlap(self.ancestry@, other.ancestry@),
    {
        overlaps(&self.ancestry, &other.ancestry)
    }
}

fn copy_identities(list: &Vec<FileIdentity>) -> (r: Vec<FileIdentity>)
    ensures
        r@ == list@,
{
    let mut out: Vec<FileIdentity> = Vec::new();
    let mut i: usize = 0;
    while i < list.len()
        invariant
            i <= list@.len(),
            out@ =~= list@.take(i as int),
        decreases list.len() - i,
    {
        out.push(list[i]);
        i += 1;
    }
    out
}

/// What lies inside a directory stays inside it however deep one goes, and so every
/// directory overlaps all that is below it.
pub proof fn what_is_below_stays_inside(
    child: SecureDirectory,
    of: SecureDirectory,
    outer: SecureDirectory,
    name: Seq<char>,
    id: FileIdentity,
)
    requires
        is_child(child, of, name, id),
        is_inside(of.ancestry@, outer.ancestry@),
    ensures
        is_inside(child.ancestry@, outer.ancestry@),
        identities_overlap(child.ancestry@, outer.ancestry@),
{
    let at = choose|i: int|
        0 <= i < of.ancestry@.len() && of.ancestry@[i] == outer.ancestry@.last();
    assert(child.ancestry@[at] == outer.ancestry@.last());
}

// ---------------------------------------------------------------------------
// Opening an absolute path
// ---------------------------------------------------------------------------

/// What the opening of a path is waiting for.
#[derive(Debug, Clone, Copy, PartialEq, Eq, Structural)]
pub enum AbsoluteStage {
    Root,
    Component,
    /// Removing what was created on the way.
    Removing,
    Finished,
}

#[derive(Debug)]
pub enum AbsoluteEvent {
    /// Whether the directory was created, or why it could not be opened.
    Opened(Result<bool, SecureFsError>),
    Removed(Result<(), SecureFsError>),
}

#[derive(Debug)]
pub enum AbsoluteAction {
    OpenRoot { path: String },
    /// Open the directory of this name in the current one, and make it the current one.
    OpenComponent { name: String, create: bool },
    /// Remove the created directory at a place in the order of creation.
    RemoveCreated { index: usize },
    /// The path is open, with this many directories created; or the error.
    Finish(Result<usize, SecureFsError>),
}

/// The opening of an absolute path, component by component.
#[derive(Debug)]
pub struct AbsoluteOpen {
    pub stage: AbsoluteStage,
    pub names: Vec<String>,
    pub create_missing: bool,
    /// How many components are open.
    pub opened: usize,
    pub created: usize,
    pub failure: Option<SecureFsError>,
    pub removals: Vec<Result<(), SecureFsError>>,
}

#[verifier::ext_equal]
pub struct AbsoluteModel {
    pub stage: AbsoluteStage,
    pub opened: nat,
    pub created: nat,
    pub failure: Option<SecureFsError>,
    pub removals: Seq<Result<(), SecureFsError>>,
}

impl View for AbsoluteOpen {
    type V = AbsoluteModel;

    open spec fn view(&self) -> AbsoluteModel {
        AbsoluteModel {
            stage: self.stage,
            opened: self.opened as nat,
            created: self.created as nat,
            failure: self.failure,
            removals: self.removals@,
        }
    }
}

impl AbsoluteStage {
    pub open spec fn expects(self, event: AbsoluteEvent) -> bool {
        match self {
            AbsoluteStage::Root | AbsoluteStage::Component => event is Opened,
            AbsoluteStage::Removing => event is Removed,
            AbsoluteStage::Finished => false,
        }
    }
}

/// Opens the next component, or ends where all are open.
pub open spec fn opens_next(
    names: Seq<Seq<char>>,
    create_missing: bool,
    m: AbsoluteModel,
    n: AbsoluteModel,
    action: AbsoluteAction,
) -> bool {
    if m.opened < names.len() {
        n == (AbsoluteModel { stage: AbsoluteStage::Component, ..m }) && (
        action matches AbsoluteAction::OpenComponent { name, create } && name@
            == names[m.opened as int] && create == create_missing)
    } else {
        n == (AbsoluteModel { stage: AbsoluteStage::Finished, ..m }) && (
        action matches AbsoluteAction::Finish(Ok(created)) && created == m.created)
    }
}

/// The error of a path that could not be opened, once all that was created on the way
/// was tried to be removed.
pub open spec fn rollback_outcome(
    failure: SecureFsError,
    removals: Seq<Result<(), SecureFsError>>,
    e: SecureFsError,
) -> bool {
    match first_failure(removals) {
        None => e == failure,
        Some(first) => e matches SecureFsError::Rollback { operation_error, rollback_error }
            && operation_error@ == failure.text() && rollback_error@ == first.text(),
    }
}

/// What follows an event in the opening of a path.
pub open spec fn absolute_follows(
    names: Seq<Seq<char>>,
    create_missing: bool,
    m: AbsoluteModel,
    event: AbsoluteEvent,
    n: AbsoluteModel,
    action: AbsoluteAction,
) -> bool {
    match event {
        AbsoluteEvent::Opened(Ok(is_new)) => if m.stage is Root {
            opens_next(names, create_missing, m, n, action)
        } else {
            let on = AbsoluteModel {
                opened: m.opened + 1,
                created: if is_new {
                    m.created + 1
                } else {
                    m.created
                },
                ..m
            };
            opens_next(names, create_missing, on, n, action)
        },
        AbsoluteEvent::Opened(Err(e)) => if m.created == 0 {
            n == (AbsoluteModel { stage: AbsoluteStage::Finished, ..m }) && action
                == AbsoluteAction::Finish(Err(e))
        } else {
            n == (AbsoluteModel { stage: AbsoluteStage::Removing, failure: Some(e), ..m })
                && action == (AbsoluteAction::RemoveCreated { index: (m.created - 1) as usize })
        },
        AbsoluteEvent::Removed(outcome) => {
            let tried = m.removals.push(outcome);
            if tried.len() < m.created {
                n == (AbsoluteModel { removals: tried, ..m }) && action == (
                AbsoluteAction::RemoveCreated { index: (m.created - tried.len() - 1) as usize })
            } else {
                &&& n.stage is Finished
                &&& n.created == m.created
                &&& n.removals == tried
                &&& action matches AbsoluteAction::Finish(Err(e)) && rollback_outcome(
                    m.failure->0,
                    tried,
                    e,
                )
            }
        },
    }
}

/// How the opening of a path starts: at its root, with the names below it.
pub open spec fn starts_open(
    path: Seq<char>,
    create_missing: bool,
    r: Result<(AbsoluteOpen, AbsoluteAction), SecureFsError>,
) -> bool {
    match r {
        Ok((run, action)) => {
            &&& run.inv()
            &&& descends(path)
            &&& texts(run.names@) == names_below(path)
            &&& run.create_missing == create_missing
            &&& run.stage is Root
            &&& run.created == 0
            &&& action matches AbsoluteAction::OpenRoot { path: root } && root@ == root_text(path)
        },
        Err(e) => !descends(path) && (e matches SecureFsError::InvalidPath(p) && p@ == path),
    }
}

impl AbsoluteOpen {
    /// What holds between steps.
    pub open spec fn inv(self) -> bool {
        &&& self.opened <= self.names@.len()
        &&& self.created <= self.opened
        &&& self.stage is Root ==> self.opened == 0
        &&& self.stage is Root || self.stage is Component ==> self.removals@.len() == 0
        &&& self.stage is Component ==> self.opened < self.names@.len()
        &&& self.stage is Removing ==> self.failure is Some && self.removals@.len() < self.created
    }

    fn open_absolute(path: &str, create_missing: bool) -> (r: Result<
        (AbsoluteOpen, AbsoluteAction),
        SecureFsError,
    >)
        ensures
            starts_open(path@, create_missing, r),
    {
        match split_absolute(path) {
            Ok((root, names)) => Ok(
                (
                    AbsoluteOpen {
                        stage: AbsoluteStage::Root,
                        names: names,
                        create_missing: create_missing,
                        opened: 0,
                        created: 0,
                        failure: None,
                        removals: Vec::new(),
                    },
                    AbsoluteAction::OpenRoot { path: root },
                ),
            ),
            Err(e) => Err(e),
        }
    }

    /// Starts the opening of a path that is there.
    pub fn open_absolute_existing(path: &str) -> (r: Result<
        (AbsoluteOpen, AbsoluteAction),
        SecureFsError,
    >)
        ensures
            starts_open(path@, false, r),
    {
        AbsoluteOpen::open_absolute(path, false)
    }

    /// Starts the opening of a path of which components may have to be created.
    pub fn open_or_create_absolute(path: &str) -> (r: Result<
        (AbsoluteOpen, AbsoluteAction),
        SecureFsError,
    >)
        ensures
            starts_open(path@, true, r),
    {
        AbsoluteOpen::open_absolute(path, true)
    }

    fn open_next(&mut self) -> (r: AbsoluteAction)
        requires
            old(self).opened <= old(self).names@.len(),
            old(self).created <= old(self).opened,
            old(self).removals@.len() == 0,
        ensures
            final(self).inv(),
            final(self).names == old(self).names,
            final(self).create_missing == old(self).create_missing,
            opens_next(texts(old(self).names@), old(self).create_missing, old(self)@, final(self)@, r),
    {
        if self.opened < self.names.len() {
            self.stage = AbsoluteStage::Component;
            AbsoluteAction::OpenComponent {
                name: owned(self.names[self.opened].as_str()),
                create: self.create_missing,
            }
        } else {
            self.stage = AbsoluteStage::Finished;
            AbsoluteAction::Finish(Ok(self.created))
        }
    }

    /// Goes on after an event. Where a component cannot be opened, everything that was
    /// created is tried to be removed, the last first, before the error is given.
    pub fn step(&mut self, event: AbsoluteEvent) -> (r: AbsoluteAction)
        requires
            old(self).inv(),
            old(self).stage.expects(event),
        ensures
            final(self).inv(),
            final(self).names == old(self).names,
            final(self).create_missing == old(self).create_missing,
            absolute_follows(
                texts(old(self).names@),
                old(self).create_missing,
                old(self)@,
                event,
                final(self)@,
                r,
            ),
            r matches AbsoluteAction::Finish(Err(_)) ==> final(self).removals@.len()
                == final(self).created,
    {
        match event {
            AbsoluteEvent::Opened(outcome) => match outcome {
                Ok(is_new) => {
                    if self.stage == AbsoluteStage::Component {
                        assert(self.names.len() <= usize::MAX);
                        self.opened += 1;
                        if is_new {
                            self.created += 1;
                        }
                    }
                    self.open_next()
                },
                Err(e) => {
                    if self.created == 0 {
                        self.stage = AbsoluteStage::Finished;
                        AbsoluteAction::Finish(Err(e))
                    } else {
                        self.failure = Some(e);
                        self.stage = AbsoluteStage::Removing;
                        AbsoluteAction::RemoveCreated { index: self.created - 1 }
                    }
                },
            },
            AbsoluteEvent::Removed(outcome) => {
                self.removals.push(outcome);
                let tried: usize = self.removals.len();
                if tried < self.created {
                    AbsoluteAction::RemoveCreated { index: self.created - tried - 1 }
                } else {
                    self.stage = AbsoluteStage::Finished;
                    let failure = self.failure.take().unwrap();
                    AbsoluteAction::Finish(Err(open_absolute_failure(failure, &self.removals)))
                }
            },
        }
    }
}

/// A path is opened one component after the other, and only where each was opened; whoever
/// fails on the way removes each directory that was created, the last one first, and tells
/// the failure.
pub proof fn a_failed_descent_leaves_nothing_it_created(
    names: Seq<Seq<char>>,
    create_missing: bool,
    m: AbsoluteModel,
    event: AbsoluteEvent,
    n: AbsoluteModel,
    action: AbsoluteAction,
)
    requires
        m.stage.expects(event),
        m.stage is Root ==> m.opened == 0 && m.created == 0,
        m.created <= m.opened <= names.len() <= usize::MAX,
        m.stage is Component ==> m.opened < names.len(),
        m.stage is Removing ==> m.failure is Some && m.removals.len() < m.created,
        absolute_follows(names, create_missing, m, event, n, action),
    ensures
        (action matches AbsoluteAction::Finish(Ok(_))) ==> (event matches AbsoluteEvent::Opened(
            Ok(_),
        )) && (if m.stage is Root {
            names.len() == 0
        } else {
            m.opened + 1 == names.len()
        }),
        action matches AbsoluteAction::OpenComponent { name, create } ==> name@
            == names[n.opened as int] && create == create_missing && n.opened == (if m.stage is Root {
            0
        } else {
            m.opened + 1
        }),
        (action matches AbsoluteAction::Finish(Err(_))) ==> (if event is Removed {
            m.removals.len() + 1 == m.created
        } else {
            m.created == 0
        }),
        m.created > 0 && (event matches AbsoluteEvent::Opened(Err(_))) ==> (
        action matches AbsoluteAction::RemoveCreated { index } && index == m.created - 1),
        event is Removed && m.removals.len() + 1 < m.created ==> (
        action matches AbsoluteAction::RemoveCreated { index } && index == m.created
            - m.removals.len() - 2),
        m.stage is Component && event == AbsoluteEvent::Opened(Ok(true)) && action is OpenComponent
            ==> n.created == m.created + 1,
        m.stage is Component && event == AbsoluteEvent::Opened(Ok(false)) && action is OpenComponent
            ==> n.created == m.created,
{
}

} // verus!
