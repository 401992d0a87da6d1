//! The start: from the inspected storage to a ready application.
use crate::i18n::{shown, t, I18nError, I18nManager, ENGLISH_LOCALE, FRENCH_LOCALE};
use crate::journal::AuditStatus;
use crate::legacy::LegacyStorageError;
use crate::legacy_run::{LegacyStorageRecovery, PendingProductionStorage, ProductionStorageState};
use crate::locale::{are_shown, set_locale_and_app_strings, StartupPresentation};
use crate::snapshot::SnapshotError;
use crate::text::{cat2, owned};
use crate::window::MainWindow;
use vstd::prelude::*;

verus! {

/// How many audit entries are remembered.
pub const REMEMBERED_ENTRIES: usize = 500;

#[derive(Debug)]
pub enum StartupError {
    Legacy(LegacyStorageError),
    Audit(String),
    Snapshot(SnapshotError),
}

impl StartupError {
    /// The text that describes the error.
    pub open spec fn text(self) -> Seq<char> {
        match self {
            StartupError::Legacy(error) => "legacy storage recovery failed: "@ + error.text(),
            StartupError::Audit(reason) => "audit service initialization failed: "@ + reason@,
            StartupError::Snapshot(error) => "snapshot service initialization failed: "@
                + error.text(),
        }
    }

    pub fn message(&self) -> (r: String)
        ensures
            r@ == self.text(),
    {
        match self {
            StartupError::Legacy(error) => {
                let reason = error.message();
                cat2("legacy storage recovery failed: ", reason.as_str())
            },
            StartupError::Audit(reason) => cat2(
                "audit service initialization failed: ",
                reason.as_str(),
            ),
            StartupError::Snapshot(error) => {
                let reason = error.message();
                cat2("snapshot service initialization failed: ", reason.as_str())
            },
        }
    }
}

/// Whether the operator has to agree first: only where nothing was begun.
pub fn requires_fresh_consent(is_resume: bool) -> (r: bool)
    ensures
        r == !is_resume,
{
    !is_resume
}

/// What the start leads to.
#[derive(Debug)]
pub enum StartupDecision {
    Ready,
    Recovery(LegacyStorageRecovery),
}

// ---------------------------------------------------------------------------
// The services
// ---------------------------------------------------------------------------

/// What the start of the services is waiting for.
#[derive(Debug, Clone, Copy, PartialEq, Eq, Structural)]
pub enum ServicesStage {
    OpenJournal,
    OpenSnapshots,
    AuditDetachment,
    Complete,
    Finished,
}

#[derive(Debug)]
pub enum ServicesEvent {
    JournalOpened(Result<(), String>),
    SnapshotsOpened(Result<(), SnapshotError>),
    Audited(Result<(), String>),
    /// The last state of the detachment was written.
    Completed(Result<(), LegacyStorageError>),
}

#[derive(Debug)]
pub enum ServicesAction {
    OpenJournal { remember: usize },
    OpenSnapshots,
    Audit {
        operation: &'static str,
        actor: &'static str,
        target: String,
        status: AuditStatus,
        details: String,
    },
    Complete,
    Finish(Result<StartupDecision, StartupError>),
}

/// The start of the journal and the snapshots, behind a detachment or not.
#[derive(Debug)]
pub struct ServicesRun {
    pub stage: ServicesStage,
    pub pending: Option<PendingProductionStorage>,
}

impl ServicesStage {
    pub open spec fn expects(self, event: ServicesEvent) -> bool {
        match self {
            ServicesStage::OpenJournal => event is JournalOpened,
            ServicesStage::OpenSnapshots => event is SnapshotsOpened,
            ServicesStage::AuditDetachment => event is Audited,
            ServicesStage::Complete => event is Completed,
            ServicesStage::Finished => false,
        }
    }
}

pub open spec fn services_end(
    n: ServicesRun,
    action: ServicesAction,
    r: Result<StartupDecision, StartupError>,
) -> bool {
    n.stage is Finished && action == ServicesAction::Finish(r)
}

/// Whether an action writes the audit entry of a detachment.
pub open spec fn audits_detachment(action: ServicesAction, pending: PendingProductionStorage) -> bool {
    action matches ServicesAction::Audit { operation, actor, target, status, details }
        && operation@ == "LegacyStorageDetached"@ && actor@ == "WinProfile-Admin"@ && target@
        == pending.state.legacy_name@ && status is Warning && details@ == "migration_id="@
        + pending.state.migration_id@ + "; legacy_object="@ + pending.state.legacy_name@
        + "; contents are untrusted, opaque, not imported, and retain their previous permissions"@
}

/// What follows an event in the start of the services.
pub open spec fn services_follow(
    m: ServicesRun,
    event: ServicesEvent,
    n: ServicesRun,
    action: ServicesAction,
) -> bool {
    match event {
        ServicesEvent::JournalOpened(opened) => match opened {
            Ok(_) => n.stage is OpenSnapshots && n.pending == m.pending && action is OpenSnapshots,
            Err(reason) => services_end(n, action, Err(StartupError::Audit(reason))),
        },
        ServicesEvent::SnapshotsOpened(opened) => match opened {
            Err(e) => services_end(n, action, Err(StartupError::Snapshot(e))),
            Ok(_) => match m.pending {
                None => services_end(n, action, Ok(StartupDecision::Ready)),
                Some(pending) => n.stage is AuditDetachment && n.pending == m.pending
                    && audits_detachment(action, pending),
            },
        },
        ServicesEvent::Audited(audited) => match audited {
            Ok(_) => n.stage is Complete && n.pending == m.pending && action is Complete,
            Err(reason) => services_end(n, action, Err(StartupError::Audit(reason))),
        },
        ServicesEvent::Completed(completed) => match completed {
            Ok(_) => services_end(n, action, Ok(StartupDecision::Ready)),
            Err(e) => services_end(n, action, Err(StartupError::Legacy(e))),
        },
    }
}

impl ServicesRun {
    /// Starts the services on storage that is ready.
    pub fn build_controller() -> (r: (ServicesRun, ServicesAction))
        ensures
            r.0.stage is OpenJournal,
            r.0.pending is None,
            r.1 == (ServicesAction::OpenJournal { remember: REMEMBERED_ENTRIES }),
    {
        (
            ServicesRun { stage: ServicesStage::OpenJournal, pending: None },
            ServicesAction::OpenJournal { remember: REMEMBERED_ENTRIES },
        )
    }

    /// Starts the services behind a detachment.
    pub fn complete_recovery(pending: PendingProductionStorage) -> (r: (ServicesRun, ServicesAction))
        ensures
            r.0.stage is OpenJournal,
            r.0.pending == Some(pending),
            r.1 == (ServicesAction::OpenJournal { remember: REMEMBERED_ENTRIES }),
    {
        (
            ServicesRun { stage: ServicesStage::OpenJournal, pending: Some(pending) },
            ServicesAction::OpenJournal { remember: REMEMBERED_ENTRIES },
        )
    }

    fn finish(&mut self, result: Result<StartupDecision, StartupError>) -> (r: ServicesAction)
        ensures
            services_end(*final(self), r, result),
    {
        self.stage = ServicesStage::Finished;
        ServicesAction::Finish(result)
    }

    /// Goes on after an event. A detachment is completed only once it is in the journal:
    /// where the entry could not be written it stays pending.
    pub fn step(&mut self, event: ServicesEvent) -> (r: ServicesAction)
        requires
            old(self).stage.expects(event),
        ensures
            services_follow(*old(self), event, *final(self), r),
            r is Complete ==> (event matches ServicesEvent::Audited(Ok(_))),
    {
        match event {
            ServicesEvent::JournalOpened(opened) => match opened {
                Ok(()) => {
                    self.stage = ServicesStage::OpenSnapshots;
                    ServicesAction::OpenSnapshots
                },
                Err(reason) => self.finish(Err(StartupError::Audit(reason))),
            },
            ServicesEvent::SnapshotsOpened(opened) => match opened {
                Err(e) => self.finish(Err(StartupError::Snapshot(e))),
                Ok(()) => match &self.pending {
                    None => self.finish(Ok(StartupDecision::Ready)),
                    Some(pending) => {
                        let action = ServicesAction::Audit {
                            operation: pending.audit_operation(),
                            actor: pending.audit_actor(),
                            target: owned(pending.legacy_name()),
                            status: AuditStatus::Warning,
                            details: pending.audit_details(),
                        };
                        self.stage = ServicesStage::AuditDetachment;
                        action
                    },
                },
            },
            ServicesEvent::Audited(audited) => match audited {
                Ok(()) => {
                    self.stage = ServicesStage::Complete;
                    ServicesAction::Complete
                },
                Err(reason) => self.finish(Err(StartupError::Audit(reason))),
            },
            ServicesEvent::Completed(completed) => match completed {
                Ok(()) => self.finish(Ok(StartupDecision::Ready)),
                Err(e) => self.finish(Err(StartupError::Legacy(e))),
            },
        }
    }
}

// ---------------------------------------------------------------------------
// The screen at start
// ---------------------------------------------------------------------------

/// What follows the inspection of the storage.
#[derive(Debug)]
pub enum InspectionStep {
    /// Start the services.
    Build,
    Decide(StartupDecision),
    Fail(StartupError),
}

pub fn inspect(state: Result<ProductionStorageState, LegacyStorageError>) -> (r: InspectionStep)
    ensures
        r == (match state {
            Ok(ProductionStorageState::Ready) => InspectionStep::Build,
            Ok(ProductionStorageState::NeedsConsent(recovery)) => InspectionStep::Decide(
                StartupDecision::Recovery(recovery),
            ),
            Ok(ProductionStorageState::NeedsResume(recovery)) => InspectionStep::Decide(
                StartupDecision::Recovery(recovery),
            ),
            Err(e) => InspectionStep::Fail(StartupError::Legacy(e)),
        }),
{
    match state {
        Ok(ProductionStorageState::Ready) => InspectionStep::Build,
        Ok(ProductionStorageState::NeedsConsent(recovery)) => InspectionStep::Decide(
            StartupDecision::Recovery(recovery),
        ),
        Ok(ProductionStorageState::NeedsResume(recovery)) => InspectionStep::Decide(
            StartupDecision::Recovery(recovery),
        ),
        Err(e) => InspectionStep::Fail(StartupError::Legacy(e)),
    }
}

/// What a request to close the window is answered.
#[derive(Debug, Clone, Copy, PartialEq, Eq, Structural)]
pub enum CloseRequestResponse {
    HideWindow,
    KeepWindowShown,
}

/// What a confirmed question stands for.
#[derive(Debug, Clone, Copy, PartialEq, Eq, Structural)]
pub enum ConfirmedAction {
    Repair,
    LaunchConsole,
    Nothing,
}

/// The kind of a question about a repair.
pub const CONFIRM_REPAIR: i32 = 0;

/// The kind of a question about a console.
pub const CONFIRM_TRUSTED_INSTALLER: i32 = 1;

/// What to do once a question of some kind was confirmed.
pub fn confirmed_action(kind: i32) -> (r: ConfirmedAction)
    ensures
        r == (if kind == CONFIRM_REPAIR {
            ConfirmedAction::Repair
        } else if kind == CONFIRM_TRUSTED_INSTALLER {
            ConfirmedAction::LaunchConsole
        } else {
            ConfirmedAction::Nothing
        }),
{
    if kind == CONFIRM_REPAIR {
        ConfirmedAction::Repair
    } else if kind == CONFIRM_TRUSTED_INSTALLER {
        ConfirmedAction::LaunchConsole
    } else {
        ConfirmedAction::Nothing
    }
}

/// The application while it starts.
#[derive(Debug)]
pub struct StartupRuntime {
    /// Whether the services run.
    pub ready: bool,
    pub recovery: Option<LegacyStorageRecovery>,
    pub presentation: StartupPresentation,
    pub startup_busy: bool,
}

/// Whether the texts at start are those of a presentation.
pub open spec fn presents(
    ui: MainWindow,
    presentation: StartupPresentation,
    bundles: Result<I18nManager, I18nError>,
) -> bool {
    &&& ui.startup.title@ == shown(bundles, presentation.title_key())
    &&& ui.startup.message@ == shown(bundles, presentation.message_key())
    &&& ui.startup.details@ == presentation.details(bundles)
    &&& ui.startup.action_text@ == shown(bundles, presentation.action_key())
}

/// What holds of the screen and the runtime while something is shown at start.
pub open spec fn shows_startup(
    runtime: StartupRuntime,
    ui: MainWindow,
    busy: bool,
    consent_required: bool,
) -> bool {
    &&& ui.startup.visible
    &&& ui.startup.busy == busy
    &&& runtime.startup_busy == busy
    &&& ui.startup.consent_required == consent_required
    &&& ui.startup.consent_granted == !consent_required
}

impl StartupRuntime {
    pub fn new() -> (r: StartupRuntime)
        ensures
            !r.ready,
            r.recovery is None,
            r.presentation is Checking,
            r.startup_busy,
    {
        StartupRuntime {
            ready: false,
            recovery: None,
            presentation: StartupPresentation::Checking,
            startup_busy: true,
        }
    }

    /// Shows something at start and remembers it for another locale.
    pub fn present_startup(
        &mut self,
        ui: &mut MainWindow,
        bundles: &Result<I18nManager, I18nError>,
        presentation: StartupPresentation,
    )
        ensures
            presents(*final(ui), presentation, *bundles),
            *final(self) == (StartupRuntime { presentation: presentation, ..*old(self) }),
            final(ui).startup.visible == old(ui).startup.visible,
            final(ui).startup.busy == old(ui).startup.busy,
            final(ui).startup.consent_required == old(ui).startup.consent_required,
            final(ui).startup.consent_granted == old(ui).startup.consent_granted,
            *final(ui) == (MainWindow { startup: final(ui).startup, ..*old(ui) }),
    {
        presentation.apply(ui, bundles);
        self.presentation = presentation;
    }

    /// The operator goes on or tries again. Without the consent that is required, or
    /// while something is under way, nothing happens; else the recovery that is to be
    /// carried out is handed over, or nothing where the storage is inspected anew.
    pub fn start_or_retry(
        &mut self,
        ui: &mut MainWindow,
        bundles: &Result<I18nManager, I18nError>,
    ) -> (r: Option<Option<LegacyStorageRecovery>>)
        ensures
            if (old(ui).startup.consent_required && !old(ui).startup.consent_granted)
                || old(self).startup_busy {
                r is None && *final(self) == *old(self) && *final(ui) == *old(ui)
            } else {
                &&& r == Some(old(self).recovery)
                &&& *final(self) == (StartupRuntime {
                    recovery: None,
                    presentation: StartupPresentation::Working,
                    startup_busy: true,
                    ..*old(self)
                })
                &&& final(ui).startup.busy
                &&& presents(*final(ui), StartupPresentation::Working, *bundles)
                &&& final(ui).startup.visible == old(ui).startup.visible
                &&& final(ui).startup.consent_required == old(ui).startup.consent_required
                &&& final(ui).startup.consent_granted == old(ui).startup.consent_granted
                &&& *final(ui) == (MainWindow { startup: final(ui).startup, ..*old(ui) })
            },
    {
        if ui.startup.consent_required && !ui.startup.consent_granted {
            return None;
        }
        if self.startup_busy {
            return None;
        }
        self.startup_busy = true;
        ui.startup.busy = true;
        self.present_startup(ui, bundles, StartupPresentation::Working);
        Some(self.recovery.take())
    }

    /// Shows what the start led to. A fresh recovery waits for consent, a resumed one
    /// does not.
    pub fn present_startup_decision(
        &mut self,
        ui: &mut MainWindow,
        bundles: &Result<I18nManager, I18nError>,
        decision: StartupDecision,
    )
        ensures
            match decision {
                StartupDecision::Ready => {
                    &&& *final(self) == (StartupRuntime {
                        ready: true,
                        startup_busy: false,
                        ..*old(self)
                    })
                    &&& !final(ui).startup.visible
                    &&& !final(ui).startup.busy
                    &&& !final(ui).startup.consent_required
                    &&& final(ui).startup.consent_granted
                    &&& final(ui).status.message@ == shown(*bundles, "status.ready"@)
                    &&& final(ui).status.details == old(ui).status.details
                    &&& *final(ui) == (MainWindow {
                        startup: final(ui).startup,
                        status: final(ui).status,
                        ..*old(ui)
                    })
                },
                StartupDecision::Recovery(recovery) => {
                    &&& final(self).recovery == Some(recovery)
                    &&& final(self).ready == old(self).ready
                    &&& shows_startup(*final(self), *final(ui), false, !recovery.resume)
                    &&& presents(*final(ui), final(self).presentation, *bundles)
                    &&& recovery.resume ==> (
                    final(self).presentation matches StartupPresentation::ResumeRecovery { reason }
                        && reason@ == recovery.reason@)
                    &&& !recovery.resume ==> (
                    final(self).presentation matches StartupPresentation::FreshRecovery { reason }
                        && reason@ == recovery.reason@)
                    &&& *final(ui) == (MainWindow { startup: final(ui).startup, ..*old(ui) })
                },
            },
    {
        match decision {
            StartupDecision::Ready => {
                self.ready = true;
                self.startup_busy = false;
                ui.startup.busy = false;
                ui.startup.consent_required = false;
                ui.startup.consent_granted = true;
                ui.startup.visible = false;
                ui.status.message = t(bundles, "status.ready");
            },
            StartupDecision::Recovery(recovery) => {
                let resume = recovery.is_resume();
                let reason = owned(recovery.reason());
                self.recovery = Some(recovery);
                self.startup_busy = false;
                ui.startup.visible = true;
                ui.startup.busy = false;
                let consent_required = requires_fresh_consent(resume);
                ui.startup.consent_required = consent_required;
                ui.startup.consent_granted = !consent_required;
                let presentation = if resume {
                    StartupPresentation::ResumeRecovery { reason: reason }
                } else {
                    StartupPresentation::FreshRecovery { reason: reason }
                };
                self.present_startup(ui, bundles, presentation);
            },
        }
    }

    /// Shows why the start failed; it can be tried again without consent.
    pub fn present_startup_error(
        &mut self,
        ui: &mut MainWindow,
        bundles: &Result<I18nManager, I18nError>,
        error: &str,
    )
        ensures
            final(self).recovery is None,
            final(self).ready == old(self).ready,
            shows_startup(*final(self), *final(ui), false, false),
            final(self).presentation matches StartupPresentation::Error { details } && details@
                == error@,
            presents(*final(ui), final(self).presentation, *bundles),
            *final(ui) == (MainWindow { startup: final(ui).startup, ..*old(ui) }),
    {
        self.recovery = None;
        self.startup_busy = false;
        ui.startup.visible = true;
        ui.startup.busy = false;
        ui.startup.consent_required = false;
        ui.startup.consent_granted = true;
        self.present_startup(ui, bundles, StartupPresentation::Error { details: owned(error) });
    }

    /// Puts another locale in use while the screen at start is shown: the same is said in
    /// other words.
    pub fn change_locale(
        &self,
        ui: &mut MainWindow,
        bundles: &mut Result<I18nManager, I18nError>,
        locale: &str,
    ) -> (r: Result<(), I18nError>)
        ensures
            r is Err ==> *final(ui) == *old(ui),
            r is Ok ==> {
                &&& are_shown(final(ui).strings, *final(bundles))
                &&& final(ui).current_locale@ == locale@
                &&& presents(*final(ui), self.presentation, *final(bundles))
                &&& final(ui).startup.visible == old(ui).startup.visible
                &&& final(ui).startup.busy == old(ui).startup.busy
                &&& final(ui).startup.consent_required == old(ui).startup.consent_required
                &&& final(ui).startup.consent_granted == old(ui).startup.consent_granted
                &&& *final(ui) == (MainWindow {
                    strings: final(ui).strings,
                    current_locale: final(ui).current_locale,
                    startup: final(ui).startup,
                    ..*old(ui)
                })
            },
            match *old(bundles) {
                Err(e) => *final(bundles) == *old(bundles) && (r matches Err(x) && x.text()
                    == e.text()),
                Ok(before) => {
                    &&& r is Ok <==> locale@ == ENGLISH_LOCALE@ || locale@ == FRENCH_LOCALE@
                    &&& r matches Err(e) ==> (e matches I18nError::UnsupportedLocale(v) && v@
                        == locale@)
                    &&& *final(bundles) matches Ok(after)
                    &&& after.english_map() == before.english_map()
                    &&& after.french_map() == before.french_map()
                    &&& after.is_french() == (if r is Ok {
                        locale@ == FRENCH_LOCALE@
                    } else {
                        before.is_french()
                    })
                },
            },
    {
        match set_locale_and_app_strings(ui, bundles, locale) {
            Ok(()) => {},
            Err(e) => {
                return Err(e);
            },
        }
        self.presentation.apply(ui, &*bundles);
        Ok(())
    }

    /// Whether the operator may leave the screen at start.
    pub fn may_quit(&self) -> (r: bool)
        ensures
            r == !self.startup_busy,
    {
        !self.startup_busy
    }

    /// Answers a request to close the window at start; `None` leaves the answer to the
    /// running application.
    pub fn close_requested(&self, ui: &mut MainWindow, bundles: &Result<I18nManager, I18nError>) -> (r:
        Option<CloseRequestResponse>)
        ensures
            self.startup_busy ==> r == Some(CloseRequestResponse::KeepWindowShown)
                && final(ui).status.message@ == shown(*bundles, "startup.close_blocked"@)
                && final(ui).status.details == old(ui).status.details && *final(ui) == (MainWindow {
                status: final(ui).status,
                ..*old(ui)
            }),
            !self.startup_busy ==> *final(ui) == *old(ui) && r == (if self.ready {
                None::<CloseRequestResponse>
            } else {
                Some(CloseRequestResponse::HideWindow)
            }),
    {
        if self.startup_busy {
            ui.status.message = t(bundles, "startup.close_blocked");
            return Some(CloseRequestResponse::KeepWindowShown);
        }
        if self.ready {
            None
        } else {
            Some(CloseRequestResponse::HideWindow)
        }
    }
}

/// The application is ready only with its journal and its snapshots open; and behind a
/// detachment only with the detachment in the journal and its last state written.
pub proof fn the_services_start_in_order(
    m: ServicesRun,
    event: ServicesEvent,
    n: ServicesRun,
    action: ServicesAction,
)
    requires
        m.stage.expects(event),
        services_follow(m, event, n, action),
    ensures
        action matches ServicesAction::Finish(Ok(_)) ==> if m.pending is None {
            (event matches ServicesEvent::SnapshotsOpened(Ok(_))) || (event matches
                ServicesEvent::Completed(Ok(_)))
        } else {
            event matches ServicesEvent::Completed(Ok(_))
        },
        action is OpenSnapshots <==> (event matches ServicesEvent::JournalOpened(Ok(_))),
        action is Complete <==> (event matches ServicesEvent::Audited(Ok(_))),
        action is Audit <==> m.pending is Some && (event matches ServicesEvent::SnapshotsOpened(
            Ok(_),
        )),
        (event matches ServicesEvent::JournalOpened(Err(_))) || (event matches
            ServicesEvent::SnapshotsOpened(Err(_))) || (event matches ServicesEvent::Audited(
            Err(_),
        )) || (event matches ServicesEvent::Completed(Err(_))) ==> (action matches
            ServicesAction::Finish(Err(_))),
        action matches ServicesAction::Audit { operation, actor, target, status, details } ==> target@
            == m.pending->0.state.legacy_name@ && status is Warning,
{
}

/// Where consent is required it is not taken for granted, and what runs is shown to run.
pub proof fn consent_is_never_taken_for_granted(
    runtime: StartupRuntime,
    ui: MainWindow,
    busy: bool,
    consent_required: bool,
)
    requires
        shows_startup(runtime, ui, busy, consent_required),
    ensures
        ui.startup.visible,
        consent_required ==> ui.startup.consent_required && !ui.startup.consent_granted,
        ui.startup.busy == busy && runtime.startup_busy == busy,
{
}

} // verus!
