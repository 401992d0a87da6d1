//! A migration as the operator sees it: its draft, its preflight and how it ended.
use crate::copying::{MigrationPhase, MigrationProgress};
use crate::i18n::{arg_views, shown, shown_with, t, t_args, I18nError, I18nManager};
use crate::migration::{
    is_device_name, is_forbidden_char, is_valid_component, is_well_spelled,
    validate_windows_component, MigrationError, MigrationPreflight,
};
use crate::models::MigrationPlan;
use crate::paths::{is_same_path, same_path};
use crate::text::{
    cat2, chars_of, copy_range, dec, decimal, owned, split, str_eq, trim, trim_end_where,
    trim_start_where, trimmed,
};
use vstd::prelude::*;

verus! {

pub const MIGRATION_SOURCE_LOADED_ERROR: &'static str = "error.migration_source_loaded";

/// A profile that is loaded is no source.
pub fn validate_migration_source(loaded: bool) -> (r: Result<(), &'static str>)
    ensures
        loaded ==> (r matches Err(key) && key@ == MIGRATION_SOURCE_LOADED_ERROR@),
        !loaded ==> r is Ok,
{
    if loaded {
        Err(MIGRATION_SOURCE_LOADED_ERROR)
    } else {
        Ok(())
    }
}

/// The key of the summary of a plan that was refused.
pub open spec fn summary_key(error: MigrationError) -> Seq<char> {
    match error {
        MigrationError::DestinationExists(_) => "error.migration_target_exists"@,
        MigrationError::SourceLoaded(_) => "error.migration_source_loaded"@,
        _ => "error.migration_validation"@,
    }
}

pub fn migration_validation_summary_key(error: &MigrationError) -> (r: &'static str)
    ensures
        r@ == summary_key(*error),
{
    match error {
        MigrationError::DestinationExists(_) => "error.migration_target_exists",
        MigrationError::SourceLoaded(_) => MIGRATION_SOURCE_LOADED_ERROR,
        _ => "error.migration_validation",
    }
}

/// The key of the name of a phase.
pub open spec fn phase_key(phase: MigrationPhase) -> Seq<char> {
    match phase {
        MigrationPhase::Enumerating => "migration.phase.enumerating"@,
        MigrationPhase::Copying => "migration.phase.copying"@,
        MigrationPhase::Verifying => "migration.phase.verifying"@,
        MigrationPhase::Finalizing => "migration.phase.finalizing"@,
        MigrationPhase::RollingBack => "migration.phase.rolling_back"@,
    }
}

pub fn migration_phase_key(phase: MigrationPhase) -> (r: &'static str)
    ensures
        r@ == phase_key(phase),
{
    match phase {
        MigrationPhase::Enumerating => "migration.phase.enumerating",
        MigrationPhase::Copying => "migration.phase.copying",
        MigrationPhase::Verifying => "migration.phase.verifying",
        MigrationPhase::Finalizing => "migration.phase.finalizing",
        MigrationPhase::RollingBack => "migration.phase.rolling_back",
    }
}

// ---------------------------------------------------------------------------
// The name of the target
// ---------------------------------------------------------------------------

/// Whether a name can be that of the target.
pub fn valid_target_leaf(candidate: &str) -> (r: bool)
    ensures
        r == is_valid_component(candidate@),
{
    match validate_windows_component(candidate, "") {
        Ok(()) => true,
        Err(_) => false,
    }
}

/// A text with each run of characters that no name may hold turned into one hyphen;
/// the flag says whether such a run stands before it.
pub open spec fn hyphenated(s: Seq<char>, in_run: bool) -> Seq<char>
    decreases s.len(),
{
    if s.len() == 0 {
        Seq::empty()
    } else if is_forbidden_char(s[0]) {
        (if in_run {
            Seq::<char>::empty()
        } else {
            seq!['-']
        }) + hyphenated(s.skip(1), true)
    } else {
        seq![s[0]] + hyphenated(s.skip(1), false)
    }
}

/// The characters that a derived name neither starts nor ends with.
pub open spec fn is_edge(c: char) -> bool {
    c == '.' || c == ' ' || c == '-'
}

pub open spec fn without_edges(s: Seq<char>) -> Seq<char> {
    trim_end_where(trim_start_where(s, |c: char| is_edge(c)), |c: char| is_edge(c))
}

/// The name of the target that a user name gives.
pub open spec fn derived_leaf(username: Seq<char>) -> Seq<char> {
    let base = without_edges(hyphenated(trimmed(username), false));
    (if base.len() == 0 {
        "profile"@
    } else {
        base
    }) + "-migrated"@
}

fn edge(c: char) -> (r: bool)
    ensures
        r == is_edge(c),
{
    c == '.' || c == ' ' || c == '-'
}

fn forbidden(c: char) -> (r: bool)
    ensures
        r == is_forbidden_char(c),
{
    c <= '\u{1f}' || c == '<' || c == '>' || c == ':' || c == '"' || c == '/' || c == '\\' || c
        == '|' || c == '?' || c == '*'
}

fn hyphenate(s: &str) -> (r: Vec<char>)
    ensures
        r@ == hyphenated(s@, false),
{
    let chars = chars_of(s);
    let mut out: Vec<char> = Vec::new();
    let mut in_run = false;
    let mut i: usize = 0;
    assert(s@.skip(0) =~= s@);
    assert(out@ + hyphenated(s@, false) =~= hyphenated(s@, false));
    while i < chars.len()
        invariant
            i <= chars@.len(),
            chars@ == s@,
            out@ + hyphenated(s@.skip(i as int), in_run) == hyphenated(s@, false),
        decreases chars.len() - i,
    {
        let c = chars[i];
        let ghost rest = s@.skip(i as int);
        let ghost before = out@;
        let ghost run = in_run;
        assert(rest[0] == c);
        assert(rest.skip(1) =~= s@.skip(i + 1));
        if forbidden(c) {
            if !in_run {
                out.push('-');
            }
            in_run = true;
        } else {
            out.push(c);
            in_run = false;
        }
        assert(before + hyphenated(rest, run) =~= out@ + hyphenated(rest.skip(1), in_run));
        i += 1;
    }
    assert(s@.skip(i as int) =~= Seq::<char>::empty());
    assert(out@ =~= out@ + hyphenated(s@.skip(i as int), in_run));
    out
}

fn trim_edges(chars: &Vec<char>) -> (r: String)
    ensures
        r@ == without_edges(chars@),
{
    let ghost p = |c: char| is_edge(c);
    let ghost s = chars@;
    let mut start: usize = 0;
    assert(s.skip(0) =~= s);
    while start < chars.len() && edge(chars[start])
        invariant
            start <= chars@.len(),
            s == chars@,
            p == (|c: char| is_edge(c)),
            trim_start_where(s, p) == trim_start_where(s.skip(start as int), p),
        decreases chars.len() - start,
    {
        assert(s.skip(start as int).drop_first() =~= s.skip(start + 1));
        start += 1;
    }
    let ghost body = s.skip(start as int);
    let mut end: usize = chars.len();
    assert(s.subrange(start as int, end as int) =~= body);
    while end > start && edge(chars[end - 1])
        invariant
            start <= end <= chars@.len(),
            s == chars@,
            p == (|c: char| is_edge(c)),
            trim_end_where(body, p) == trim_end_where(s.subrange(start as int, end as int), p),
        decreases end,
    {
        assert(s.subrange(start as int, end as int).drop_last() =~= s.subrange(
            start as int,
            end - 1,
        ));
        end -= 1;
    }
    copy_range(chars, start, end)
}

/// The name of the target that a user name gives.
pub fn default_target_leaf(username: &str) -> (r: String)
    ensures
        r@ == derived_leaf(username@),
{
    let name = trim(username);
    let spelled = hyphenate(name.as_str());
    let base = trim_edges(&spelled);
    if base.as_str().is_empty() {
        cat2("profile", "-migrated")
    } else {
        cat2(base.as_str(), "-migrated")
    }
}

proof fn lemma_hyphenated_is_spelled(s: Seq<char>, in_run: bool)
    ensures
        forall|i: int|
            0 <= i < hyphenated(s, in_run).len() ==> !is_forbidden_char(
                #[trigger] hyphenated(s, in_run)[i],
            ),
    decreases s.len(),
{
    if s.len() > 0 {
        lemma_hyphenated_is_spelled(s.skip(1), true);
        lemma_hyphenated_is_spelled(s.skip(1), false);
        let all = hyphenated(s, in_run);
        assert forall|i: int| 0 <= i < all.len() implies !is_forbidden_char(#[trigger] all[i]) by {
            if is_forbidden_char(s[0]) {
                let rest = hyphenated(s.skip(1), true);
                if in_run {
                    assert(all =~= rest);
                } else if i > 0 {
                    assert(all[i] == rest[i - 1]);
                }
            } else if i > 0 {
                assert(all[i] == hyphenated(s.skip(1), false)[i - 1]);
            }
        }
    }
}

proof fn lemma_trimmed_part(s: Seq<char>, p: spec_fn(char) -> bool, c: char)
    ensures
        trim_end_where(s, p).contains(c) ==> s.contains(c),
        trim_start_where(s, p).contains(c) ==> s.contains(c),
    decreases s.len(),
{
    if s.len() > 0 {
        lemma_trimmed_part(s.drop_last(), p, c);
        lemma_trimmed_part(s.drop_first(), p, c);
        if s.drop_last().contains(c) {
            let i = choose|i: int| 0 <= i < s.drop_last().len() && s.drop_last()[i] == c;
            assert(s[i] == c);
        }
        if s.drop_first().contains(c) {
            let i = choose|i: int| 0 <= i < s.drop_first().len() && s.drop_first()[i] == c;
            assert(s[i + 1] == c);
        }
    }
}

/// The name that is derived from a user name is always one that Windows can spell, and
/// a valid one unless what stands before its first dot is the name of a device.
pub proof fn derived_leaf_is_spelled(username: Seq<char>)
    ensures
        is_well_spelled(derived_leaf(username)),
        !is_device_name(split(derived_leaf(username), '.')[0]) ==> is_valid_component(
            derived_leaf(username),
        ),
{
    let spelled = hyphenated(trimmed(username), false);
    let p = |c: char| is_edge(c);
    let start = trim_start_where(spelled, p);
    let base = without_edges(spelled);
    lemma_hyphenated_is_spelled(trimmed(username), false);
    reveal_strlit("profile");
    reveal_strlit("-migrated");
    let leaf = derived_leaf(username);
    let head = if base.len() == 0 {
        "profile"@
    } else {
        base
    };
    assert(leaf =~= head + "-migrated"@);
    assert(leaf.last() == 'd');
    assert forall|i: int| 0 <= i < leaf.len() implies !is_forbidden_char(#[trigger] leaf[i]) by {
        if i < head.len() && base.len() > 0 {
            lemma_trimmed_part(start, p, base[i]);
            lemma_trimmed_part(spelled, p, base[i]);
            assert(base.contains(base[i]));
            let k = choose|k: int| 0 <= k < spelled.len() && spelled[k] == base[i];
            assert(!is_forbidden_char(spelled[k]));
        }
    }
}

// ---------------------------------------------------------------------------
// The preflight
// ---------------------------------------------------------------------------

/// A preflight, and the plan that it was made for.
#[derive(Debug)]
pub struct MigrationPreflightToken {
    pub source_sid: String,
    pub source_path: String,
    pub target_path: String,
    pub include_roaming_appdata: bool,
    pub include_personal_folders: bool,
    pub validated: MigrationPreflight,
}

/// Whether a preflight stands for a plan: it was made for these words, and what it found
/// sound are the paths that the plan names.
pub open spec fn token_matches(token: MigrationPreflightToken, plan: MigrationPlan) -> bool {
    &&& token.source_sid@ == plan.source_sid@
    &&& token.source_path@ == plan.source_path@
    &&& token.target_path@ == plan.target_path@
    &&& token.include_roaming_appdata == plan.include_roaming_appdata
    &&& token.include_personal_folders == plan.include_personal_folders
    &&& same_path(token.validated.source_path@, plan.source_path@)
    &&& same_path(token.validated.target_path@, plan.target_path@)
}

impl MigrationPreflightToken {
    pub fn new(plan: &MigrationPlan, validated: MigrationPreflight) -> (r: MigrationPreflightToken)
        ensures
            r.validated == validated,
            token_matches(r, *plan) == (same_path(validated.source_path@, plan.source_path@)
                && same_path(validated.target_path@, plan.target_path@)),
            r.source_sid@ == plan.source_sid@,
            r.source_path@ == plan.source_path@,
            r.target_path@ == plan.target_path@,
            r.include_roaming_appdata == plan.include_roaming_appdata,
            r.include_personal_folders == plan.include_personal_folders,
    {
        MigrationPreflightToken {
            source_sid: owned(plan.source_sid.as_str()),
            source_path: owned(plan.source_path.as_str()),
            target_path: owned(plan.target_path.as_str()),
            include_roaming_appdata: plan.include_roaming_appdata,
            include_personal_folders: plan.include_personal_folders,
            validated: validated,
        }
    }

    pub fn matches(&self, plan: &MigrationPlan) -> (r: bool)
        ensures
            r == token_matches(*self, *plan),
    {
        str_eq(self.source_sid.as_str(), plan.source_sid.as_str()) && str_eq(
            self.source_path.as_str(),
            plan.source_path.as_str(),
        ) && str_eq(self.target_path.as_str(), plan.target_path.as_str())
            && self.include_roaming_appdata == plan.include_roaming_appdata
            && self.include_personal_folders == plan.include_personal_folders && is_same_path(
            self.validated.source_path.as_str(),
            plan.source_path.as_str(),
        ) && is_same_path(self.validated.target_path.as_str(), plan.target_path.as_str())
    }
}

/// What is said of the preflight. It is kept untranslated.
#[derive(Debug)]
pub enum MigrationPreflightPresentation {
    Silent,
    Ready { target: String },
    Changed,
    ValidationError { summary_key: &'static str },
    RawFailure { details: String },
}

impl MigrationPreflightPresentation {
    /// What is shown; nothing where there is nothing to say.
    pub open spec fn shown(self, bundles: Result<I18nManager, I18nError>) -> Option<Seq<char>> {
        match self {
            MigrationPreflightPresentation::Silent => None,
            MigrationPreflightPresentation::Ready { target } => Some(
                shown_with(bundles, "migration.validation.ready"@, seq![("target"@, target@)]),
            ),
            MigrationPreflightPresentation::Changed => Some(
                shown(bundles, "migration.validation.changed"@),
            ),
            MigrationPreflightPresentation::ValidationError { summary_key } => Some(
                shown(bundles, summary_key@),
            ),
            MigrationPreflightPresentation::RawFailure { details } => Some(details@),
        }
    }

    pub fn render(&self, bundles: &Result<I18nManager, I18nError>) -> (r: Option<String>)
        ensures
            match r {
                Some(text) => self.shown(*bundles) == Some(text@),
                None => self.shown(*bundles) is None,
            },
    {
        match self {
            MigrationPreflightPresentation::Silent => None,
            MigrationPreflightPresentation::Ready { target } => {
                let arguments = [("target", target.as_str())];
                assert(arg_views(arguments@) =~= seq![("target"@, target@)]);
                Some(t_args(bundles, "migration.validation.ready", &arguments))
            },
            MigrationPreflightPresentation::Changed => Some(
                t(bundles, "migration.validation.changed"),
            ),
            MigrationPreflightPresentation::ValidationError { summary_key } => Some(
                t(bundles, summary_key),
            ),
            MigrationPreflightPresentation::RawFailure { details } => Some(
                owned(details.as_str()),
            ),
        }
    }
}

// ---------------------------------------------------------------------------
// Progress and end
// ---------------------------------------------------------------------------

/// Progress that waits to be shown: only the latest counts.
#[derive(Debug)]
pub struct MigrationProgressQueue {
    pub pending: Option<MigrationProgress>,
    pub scheduled: bool,
}

impl MigrationProgressQueue {
    pub fn new() -> (r: MigrationProgressQueue)
        ensures
            r.pending is None,
            !r.scheduled,
    {
        MigrationProgressQueue { pending: None, scheduled: false }
    }

    /// Takes new progress and says whether showing it has to be scheduled.
    pub fn offer(&mut self, progress: MigrationProgress) -> (r: bool)
        ensures
            r == !old(self).scheduled,
            final(self).scheduled,
            final(self).pending == Some(progress),
    {
        self.pending = Some(progress);
        if self.scheduled {
            false
        } else {
            self.scheduled = true;
            true
        }
    }

    /// Hands out what is to be shown.
    pub fn take(&mut self) -> (r: Option<MigrationProgress>)
        ensures
            r == old(self).pending,
            final(self).pending is None,
            !final(self).scheduled,
    {
        self.scheduled = false;
        self.pending.take()
    }

    /// Gives up what could not be scheduled.
    pub fn abandon(&mut self)
        ensures
            final(self).pending is None,
            !final(self).scheduled,
    {
        self.scheduled = false;
        self.pending = None;
    }
}

/// How a migration ended. It is kept untranslated.
#[derive(Debug)]
pub enum MigrationTerminalPresentation {
    Success { files: usize, bytes: u64, manifest_hash: String },
    Cancelled,
    Error { details: String },
}

/// What is told of a success.
pub open spec fn success_arguments(files: nat, bytes: nat, hash: Seq<char>) -> Seq<
    (Seq<char>, Seq<char>),
> {
    seq![("files"@, decimal(files)), ("bytes"@, decimal(bytes)), ("hash"@, hash)]
}

impl MigrationTerminalPresentation {
    /// What is shown; a technical reason is shown as it is.
    pub open spec fn shown(self, bundles: Result<I18nManager, I18nError>) -> Seq<char> {
        match self {
            MigrationTerminalPresentation::Success { files, bytes, manifest_hash } => shown_with(
                bundles,
                "migration.success"@,
                success_arguments(files as nat, bytes as nat, manifest_hash@),
            ),
            MigrationTerminalPresentation::Cancelled => shown(bundles, "status.cancelled"@),
            MigrationTerminalPresentation::Error { details } => details@,
        }
    }

    pub fn render(&self, bundles: &Result<I18nManager, I18nError>) -> (r: String)
        ensures
            r@ == self.shown(*bundles),
    {
        match self {
            MigrationTerminalPresentation::Success { files, bytes, manifest_hash } => {
                let files = dec(*files as u64);
                let bytes = dec(*bytes);
                let arguments = [
                    ("files", files.as_str()),
                    ("bytes", bytes.as_str()),
                    ("hash", manifest_hash.as_str()),
                ];
                assert(arg_views(arguments@) =~= seq![
                    ("files"@, files@),
                    ("bytes"@, bytes@),
                    ("hash"@, manifest_hash@),
                ]);
                t_args(bundles, "migration.success", &arguments)
            },
            MigrationTerminalPresentation::Cancelled => t(bundles, "status.cancelled"),
            MigrationTerminalPresentation::Error { details } => owned(details.as_str()),
        }
    }
}

/// Phases are told apart by the keys of their names.
pub proof fn phases_are_told_apart(a: MigrationPhase, b: MigrationPhase)
    ensures
        phase_key(a) == phase_key(b) <==> a == b,
        a is Enumerating <==> phase_key(a) == "migration.phase.enumerating"@,
        a is Copying <==> phase_key(a) == "migration.phase.copying"@,
        a is Verifying <==> phase_key(a) == "migration.phase.verifying"@,
        a is Finalizing <==> phase_key(a) == "migration.phase.finalizing"@,
        a is RollingBack <==> phase_key(a) == "migration.phase.rolling_back"@,
{
    reveal_strlit("migration.phase.enumerating");
    reveal_strlit("migration.phase.copying");
    reveal_strlit("migration.phase.verifying");
    reveal_strlit("migration.phase.finalizing");
    reveal_strlit("migration.phase.rolling_back");
    assert("migration.phase.enumerating"@[16] == 'e');
    assert("migration.phase.copying"@[16] == 'c');
    assert("migration.phase.verifying"@[16] == 'v');
    assert("migration.phase.finalizing"@[16] == 'f');
    assert("migration.phase.rolling_back"@[16] == 'r');
}

/// A plan that is refused is told under a key of its own where its source is in use or its
/// target is there already.
pub proof fn refusals_are_told_apart(error: MigrationError)
    ensures
        summary_key(error) == "error.migration_source_loaded"@ <==> error is SourceLoaded,
        summary_key(error) == "error.migration_target_exists"@ <==> error is DestinationExists,
        summary_key(error) == "error.migration_validation"@ <==> !(error is SourceLoaded) && !(
        error is DestinationExists),
{
    reveal_strlit("error.migration_source_loaded");
    reveal_strlit("error.migration_target_exists");
    reveal_strlit("error.migration_validation");
    assert("error.migration_source_loaded"@[16] == 's');
    assert("error.migration_target_exists"@[16] == 't');
    assert("error.migration_validation"@[16] == 'v');
}

/// A check serves only the plan that was checked: any other source, target or selection
/// needs another.
pub proof fn a_check_serves_its_plan_alone(
    token: MigrationPreflightToken,
    plan: MigrationPlan,
    other: MigrationPlan,
)
    requires
        token_matches(token, plan),
    ensures
        token_matches(token, other) ==> {
            &&& other.source_sid@ == plan.source_sid@
            &&& other.source_path@ == plan.source_path@
            &&& other.target_path@ == plan.target_path@
            &&& other.include_roaming_appdata == plan.include_roaming_appdata
            &&& other.include_personal_folders == plan.include_personal_folders
        },
{
}

} // verus!
