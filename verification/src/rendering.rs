//! Reports, entries, progress and status put into the window.
use crate::copying::MigrationProgress;
use crate::i18n::{arg_views, shown, shown_with, t, t_args, I18nError, I18nManager};
use crate::journal::AuditEntry;
use crate::migration_view::{migration_phase_key, phase_key};
use crate::models::{DiagnosticReport, MigrationPlan, UserProfile};
use crate::status::{OperatorStatus, StatusModel};
use crate::text::{dec, decimal, owned, str_eq, texts};
use crate::view_model::{
    audit_entry_to_slint, audit_row_of, row_models, row_of, user_profile_to_slint, AuditLogEntry,
    AuditRowModel, ProfileEntry, RowModel,
};
use crate::window::{
    audit_rows, DraftModel, Inventory, MainWindow, MigrationDraft, Selection, SelectionModel,
    StatusPane,
};
use vstd::prelude::*;

verus! {

// ---------------------------------------------------------------------------
// The status
// ---------------------------------------------------------------------------

/// Whether the window shows a status.
pub open spec fn shows_status(
    pane: StatusPane,
    status: StatusModel,
    bundles: Result<I18nManager, I18nError>,
) -> bool {
    pane.message@ == status.summary(bundles) && pane.details@ == status.details(bundles)
}

pub fn apply_operator_status(
    ui: &mut MainWindow,
    status: &OperatorStatus,
    bundles: &Result<I18nManager, I18nError>,
)
    ensures
        shows_status(final(ui).status, status@, *bundles),
        *final(ui) == (MainWindow { status: final(ui).status, ..*old(ui) }),
{
    ui.status = StatusPane {
        message: status.render_summary(bundles),
        details: status.render_details(bundles),
    };
}

// ---------------------------------------------------------------------------
// The inventory
// ---------------------------------------------------------------------------

/// The rows of profiles.
pub open spec fn rows_of(
    profiles: Seq<UserProfile>,
    bundles: Result<I18nManager, I18nError>,
) -> Seq<RowModel> {
    profiles.map_values(|profile: UserProfile| row_of(profile@, bundles))
}

/// Whether the inventory shows a report.
pub open spec fn shows_report(
    inventory: Inventory,
    report: DiagnosticReport,
    bundles: Result<I18nManager, I18nError>,
) -> bool {
    &&& row_models(inventory.profiles@) == rows_of(report.profiles@, bundles)
    &&& inventory.total == report.total_count as i32
    &&& inventory.healthy == report.healthy_count as i32
    &&& inventory.warning == report.warning_count as i32
    &&& inventory.corrupted == report.corrupted_count as i32
    &&& inventory.temporary == report.temporary_count as i32
}

/// Whether the row at the selected place is still that of the selected profile.
pub open spec fn is_still_selected(selection: SelectionModel, rows: Seq<RowModel>) -> bool {
    &&& 0 <= selection.index < rows.len()
    &&& rows[selection.index as int].sid == selection.sid
    &&& rows[selection.index as int].profile_path == selection.path
}

/// The selection over rows that were rendered anew: the same profile in the new texts,
/// and what it was where another profile has taken its place.
pub open spec fn reselected(selection: SelectionModel, rows: Seq<RowModel>) -> SelectionModel {
    if is_still_selected(selection, rows) {
        SelectionModel::of(rows[selection.index as int], selection.index)
    } else {
        selection
    }
}

fn render_rows(profiles: &Vec<UserProfile>, bundles: &Result<I18nManager, I18nError>) -> (r: Vec<
    ProfileEntry,
>)
    ensures
        row_models(r@) == rows_of(profiles@, *bundles),
{
    let mut out: Vec<ProfileEntry> = Vec::new();
    let mut i: usize = 0;
    while i < profiles.len()
        invariant
            i <= profiles@.len(),
            out@.len() == i,
            forall|k: int| 0 <= k < i ==> (#[trigger] out@[k])@ == row_of(profiles@[k]@, *bundles),
        decreases profiles.len() - i,
    {
        out.push(user_profile_to_slint(&profiles[i], bundles));
        i += 1;
    }
    assert(row_models(out@) =~= rows_of(profiles@, *bundles));
    out
}

/// The number that a count is shown as.
fn count(value: usize) -> (r: i32)
    ensures
        r == value as i32,
{
    #[verifier::truncate]
    (value as i32)
}

/// The selection over new rows.
fn reselect(selection: &Selection, rows: &Vec<ProfileEntry>) -> (r: Option<Selection>)
    ensures
        match r {
            Some(s) => s@ == reselected(selection@, row_models(rows@)),
            None => reselected(selection@, row_models(rows@)) == selection@,
        },
{
    if selection.index < 0 {
        return None;
    }
    let place: usize = selection.index as usize;
    if place >= rows.len() {
        return None;
    }
    assert(row_models(rows@)[place as int] == rows@[place as int]@);
    if str_eq(rows[place].sid.as_str(), selection.sid.as_str()) && str_eq(
        rows[place].profile_path.as_str(),
        selection.path.as_str(),
    ) {
        Some(Selection::of(&rows[place], selection.index))
    } else {
        None
    }
}

/// Shows a report. A new one starts without a selection and with a blank draft; the same
/// one in other texts keeps both.
pub fn render_report(
    ui: &mut MainWindow,
    report: &DiagnosticReport,
    bundles: &Result<I18nManager, I18nError>,
    reset_selection: bool,
)
    ensures
        shows_report(final(ui).inventory, *report, *bundles),
        if reset_selection {
            &&& final(ui).selection@ == SelectionModel::nothing()
            &&& final(ui).draft@ == DraftModel::blank(old(ui).draft.running)
            &&& *final(ui) == (MainWindow {
                inventory: final(ui).inventory,
                selection: final(ui).selection,
                repair_fix_bak: false,
                repair_reset_state: false,
                draft: final(ui).draft,
                ..*old(ui)
            })
        } else {
            &&& final(ui).selection@ == reselected(
                old(ui).selection@,
                rows_of(report.profiles@, *bundles),
            )
            &&& *final(ui) == (MainWindow {
                inventory: final(ui).inventory,
                selection: final(ui).selection,
                ..*old(ui)
            })
        },
{
    let rows = render_rows(&report.profiles, bundles);
    if reset_selection {
        ui.selection = Selection::nothing();
        ui.repair_fix_bak = false;
        ui.repair_reset_state = false;
        ui.draft = MigrationDraft::blank(ui.draft.running);
    } else {
        match reselect(&ui.selection, &rows) {
            Some(selection) => {
                ui.selection = selection;
            },
            None => {},
        }
    }
    ui.inventory = Inventory {
        profiles: rows,
        total: count(report.total_count),
        healthy: count(report.healthy_count),
        warning: count(report.warning_count),
        corrupted: count(report.corrupted_count),
        temporary: count(report.temporary_count),
    };
}

// ---------------------------------------------------------------------------
// The journal
// ---------------------------------------------------------------------------

/// The rows of audit entries.
pub open spec fn audit_rows_of(
    entries: Seq<AuditEntry>,
    bundles: Result<I18nManager, I18nError>,
) -> Seq<AuditRowModel> {
    entries.map_values(|entry: AuditEntry| audit_row_of(entry, bundles))
}

pub fn render_audit_entries(
    ui: &mut MainWindow,
    entries: &Vec<AuditEntry>,
    bundles: &Result<I18nManager, I18nError>,
)
    ensures
        audit_rows(final(ui).audit_entries@) == audit_rows_of(entries@, *bundles),
        *final(ui) == (MainWindow { audit_entries: final(ui).audit_entries, ..*old(ui) }),
{
    let mut out: Vec<AuditLogEntry> = Vec::new();
    let mut i: usize = 0;
    while i < entries.len()
        invariant
            i <= entries@.len(),
            out@.len() == i,
            forall|k: int|
                0 <= k < i ==> (#[trigger] out@[k])@ == audit_row_of(entries@[k], *bundles),
        decreases entries.len() - i,
    {
        out.push(audit_entry_to_slint(&entries[i], bundles));
        i += 1;
    }
    assert(audit_rows(out@) =~= audit_rows_of(entries@, *bundles));
    ui.audit_entries = out;
}

// ---------------------------------------------------------------------------
// A migration
// ---------------------------------------------------------------------------

/// Whether a plan is the one that was entered.
pub open spec fn is_entered_plan(plan: MigrationPlan, ui: MainWindow) -> bool {
    &&& plan.source_sid@ == ui.selection.sid@
    &&& plan.source_path@ == ui.selection.path@
    &&& plan.target_path@ == ui.draft.target_path@
    &&& plan.include_roaming_appdata == ui.draft.include_roaming
    &&& plan.include_personal_folders == ui.draft.include_docs
}

pub fn migration_plan_from_ui(ui: &MainWindow) -> (r: MigrationPlan)
    ensures
        is_entered_plan(r, *ui),
{
    MigrationPlan {
        source_sid: owned(ui.selection.sid.as_str()),
        source_path: owned(ui.selection.path.as_str()),
        target_path: owned(ui.draft.target_path.as_str()),
        include_roaming_appdata: ui.draft.include_roaming,
        include_personal_folders: ui.draft.include_docs,
    }
}

/// The draft while some progress is shown.
pub open spec fn with_progress(
    draft: DraftModel,
    progress: MigrationProgress,
    bundles: Result<I18nManager, I18nError>,
) -> DraftModel {
    let phase = shown(bundles, phase_key(progress.phase));
    let path = match progress.relative_path {
        Some(path) => path@,
        None => shown(bundles, "migration.progress.no_file"@),
    };
    let bytes = decimal(progress.copied_bytes as nat);
    DraftModel {
        phase: phase,
        relative_path: path,
        completed_files: if progress.completed_files <= i32::MAX {
            progress.completed_files as i32
        } else {
            i32::MAX
        },
        copied_bytes: bytes,
        status: shown_with(
            bundles,
            "migration.progress.detail"@,
            seq![
                ("phase"@, phase),
                ("path"@, path),
                ("files"@, decimal(progress.completed_files as nat)),
                ("bytes"@, bytes),
            ],
        ),
        ..draft
    }
}

/// Shows how far a migration is.
pub fn apply_migration_progress(
    ui: &mut MainWindow,
    progress: &MigrationProgress,
    bundles: &Result<I18nManager, I18nError>,
)
    ensures
        final(ui).draft@ == with_progress(old(ui).draft@, *progress, *bundles),
        *final(ui) == (MainWindow { draft: final(ui).draft, ..*old(ui) }),
{
    let phase = t(bundles, migration_phase_key(progress.phase));
    let path = match &progress.relative_path {
        Some(path) => owned(path.as_str()),
        None => t(bundles, "migration.progress.no_file"),
    };
    let files = dec(progress.completed_files as u64);
    let bytes = dec(progress.copied_bytes);
    let arguments = [
        ("phase", phase.as_str()),
        ("path", path.as_str()),
        ("files", files.as_str()),
        ("bytes", bytes.as_str()),
    ];
    assert(arg_views(arguments@) =~= seq![
        ("phase"@, phase@),
        ("path"@, path@),
        ("files"@, files@),
        ("bytes"@, bytes@),
    ]);
    ui.draft.status = t_args(bundles, "migration.progress.detail", &arguments);
    ui.draft.completed_files = if progress.completed_files <= i32::MAX as usize {
        progress.completed_files as i32
    } else {
        i32::MAX
    };
    ui.draft.phase = phase;
    ui.draft.relative_path = path;
    ui.draft.copied_bytes = bytes;
}

/// The repairs that are chosen, in words.
pub open spec fn chosen_repairs(
    fix_bak: bool,
    reset_state: bool,
    bundles: Result<I18nManager, I18nError>,
) -> Seq<Seq<char>> {
    let first = if fix_bak {
        seq![shown(bundles, "repair.confirm.fix_bak"@)]
    } else {
        Seq::empty()
    };
    if reset_state {
        first.push(shown(bundles, "repair.confirm.reset_state"@))
    } else {
        first
    }
}

pub fn selected_repair_actions(ui: &MainWindow, bundles: &Result<I18nManager, I18nError>) -> (r: Vec<
    String,
>)
    ensures
        texts(r@) == chosen_repairs(ui.repair_fix_bak, ui.repair_reset_state, *bundles),
{
    let mut actions: Vec<String> = Vec::new();
    if ui.repair_fix_bak {
        actions.push(t(bundles, "repair.confirm.fix_bak"));
    }
    if ui.repair_reset_state {
        actions.push(t(bundles, "repair.confirm.reset_state"));
    }
    assert(texts(actions@) =~= chosen_repairs(
        ui.repair_fix_bak,
        ui.repair_reset_state,
        *bundles,
    ));
    actions
}

/// An inventory shows every profile of its report, in order and as it is, and the counts of
/// the report as far as they can be shown.
pub proof fn an_inventory_shows_every_profile(
    inventory: Inventory,
    report: DiagnosticReport,
    bundles: Result<I18nManager, I18nError>,
    i: int,
)
    requires
        shows_report(inventory, report, bundles),
        0 <= i < report.profiles@.len(),
    ensures
        inventory.profiles@.len() == report.profiles@.len(),
        inventory.profiles@[i].sid@ == report.profiles@[i].sid@,
        inventory.profiles@[i].canonical_sid@ == report.profiles@[i].canonical_sid@,
        inventory.profiles@[i].username@ == report.profiles@[i].username@,
        inventory.profiles@[i].profile_path@ == report.profiles@[i].profile_path@,
        inventory.profiles@[i].loaded == report.profiles@[i].loaded,
        inventory.profiles@[i].is_bak == report.profiles@[i].is_bak,
        inventory.profiles@[i].health_type == 0 <==> report.profiles@[i].health is Healthy,
        inventory.profiles@[i].health_type == 2 <==> report.profiles@[i].health is Corrupted,
        report.total_count <= i32::MAX ==> inventory.total == report.total_count,
        report.healthy_count <= i32::MAX ==> inventory.healthy == report.healthy_count,
        report.warning_count <= i32::MAX ==> inventory.warning == report.warning_count,
        report.corrupted_count <= i32::MAX ==> inventory.corrupted == report.corrupted_count,
        report.temporary_count <= i32::MAX ==> inventory.temporary == report.temporary_count,
{
    assert(row_models(inventory.profiles@).len() == inventory.profiles@.len());
    assert(rows_of(report.profiles@, bundles).len() == report.profiles@.len());
    assert(row_models(inventory.profiles@)[i] == inventory.profiles@[i]@);
    assert(rows_of(report.profiles@, bundles)[i] == row_of(report.profiles@[i]@, bundles));
    crate::view_model::a_row_tells_the_profile(report.profiles@[i]@, bundles);
}

/// A journal is shown entry for entry, in order, each as it ended.
pub proof fn a_journal_is_shown_entry_for_entry(
    rows: Seq<AuditLogEntry>,
    entries: Seq<AuditEntry>,
    bundles: Result<I18nManager, I18nError>,
    i: int,
)
    requires
        audit_rows(rows) == audit_rows_of(entries, bundles),
        0 <= i < entries.len(),
    ensures
        rows.len() == entries.len(),
        rows[i].operation@ == entries[i].operation@,
        rows[i].target@ == entries[i].target@,
        rows[i].details@ == entries[i].details@,
        rows[i].status_type == 0 <==> entries[i].status is Success,
        rows[i].status_type == 1 <==> entries[i].status is Warning,
        rows[i].status_type == 2 <==> entries[i].status is Failed,
        rows[i].status_type == 3 <==> entries[i].status is RolledBack,
{
    assert(audit_rows(rows).len() == rows.len());
    assert(audit_rows_of(entries, bundles).len() == entries.len());
    assert(audit_rows(rows)[i] == rows[i]@);
    assert(audit_rows_of(entries, bundles)[i] == audit_row_of(entries[i], bundles));
    crate::view_model::an_entry_is_shown_as_it_ended(entries[i], entries[i], bundles);
}

/// A selection survives a new rendering exactly as the same profile: what is selected is
/// never another profile than before.
pub proof fn a_selection_stays_on_its_profile(selection: SelectionModel, rows: Seq<RowModel>)
    ensures
        reselected(selection, rows).sid == selection.sid,
        reselected(selection, rows).path == selection.path,
        reselected(selection, rows).index == selection.index,
        0 <= selection.index < rows.len() && rows[selection.index as int].sid == selection.sid
            && rows[selection.index as int].profile_path == selection.path ==> reselected(
            selection,
            rows,
        ).loaded == rows[selection.index as int].loaded && reselected(
            selection,
            rows,
        ).repair_blocked_by_lock_inspection
            == rows[selection.index as int].repair_blocked_by_lock_inspection,
{
}

/// The question before a repair names each repair that is chosen, and no other.
pub proof fn the_question_names_what_is_chosen(
    fix_bak: bool,
    reset_state: bool,
    bundles: Result<I18nManager, I18nError>,
)
    ensures
        chosen_repairs(fix_bak, reset_state, bundles).len() == (if fix_bak {
            1nat
        } else {
            0nat
        }) + (if reset_state {
            1nat
        } else {
            0nat
        }),
        fix_bak ==> chosen_repairs(fix_bak, reset_state, bundles).contains(
            shown(bundles, "repair.confirm.fix_bak"@),
        ),
        reset_state ==> chosen_repairs(fix_bak, reset_state, bundles).contains(
            shown(bundles, "repair.confirm.reset_state"@),
        ),
{
    let list = chosen_repairs(fix_bak, reset_state, bundles);
    if fix_bak {
        assert(list[0] == shown(bundles, "repair.confirm.fix_bak"@));
    }
    if reset_state {
        assert(list[list.len() - 1] == shown(bundles, "repair.confirm.reset_state"@));
    }
}

/// Progress is shown as it is: the phase, the file in hand, the files that are done as far
/// as they can be shown, and the bytes.
pub proof fn progress_is_shown_as_it_is(
    draft: DraftModel,
    progress: MigrationProgress,
    bundles: Result<I18nManager, I18nError>,
)
    ensures
        progress.completed_files <= i32::MAX ==> with_progress(
            draft,
            progress,
            bundles,
        ).completed_files == progress.completed_files,
        with_progress(draft, progress, bundles).copied_bytes == decimal(
            progress.copied_bytes as nat,
        ),
        progress.relative_path matches Some(path) ==> with_progress(
            draft,
            progress,
            bundles,
        ).relative_path == path@,
        with_progress(draft, progress, bundles).phase == shown(bundles, phase_key(progress.phase)),
        with_progress(draft, progress, bundles).target_path == draft.target_path,
        with_progress(draft, progress, bundles).running == draft.running,
        with_progress(draft, progress, bundles).preflight_valid == draft.preflight_valid,
{
}

} // verus!
