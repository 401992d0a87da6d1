//! Two translation bundles, English and French, with the same keys.
use crate::text::{cat2, cat3, cat4, char_is_alphabetic, char_is_digit, chars_of, debug_str};
use crate::text::{clone_texts, join, owned, replace_all, split_chars, str_eq, to_ascii_lower};
use crate::text::{
    lemma_split_nonempty,
    ascii_lower, debug_quoted, is_ascii_alphabetic, is_ascii_alphanumeric, joined, split, text_before,
    texts, with_replaced,
};
use crate::text_laws::{a_text_is_replaced_where_it_stands, a_text_without_it_stays};
use vstd::prelude::*;

verus! {

pub const ENGLISH_LOCALE: &'static str = "en";

pub const FRENCH_LOCALE: &'static str = "fr";

#[derive(Debug, Clone)]
pub enum I18nError {
    InvalidBundle { locale: String, reason: String },
    KeyParity { only_en: Vec<String>, only_fr: Vec<String> },
    UnsupportedLocale(String),
}

/// The entries of a bundle in ascending key order.
pub type Entries = Vec<(String, String)>;

/// The mapping that a list of entries stands for.
pub open spec fn bundle_map(entries: Seq<(String, String)>) -> Map<Seq<char>, Seq<char>>
    decreases entries.len(),
{
    if entries.len() == 0 {
        Map::empty()
    } else {
        bundle_map(entries.drop_last()).insert(entries.last().0@, entries.last().1@)
    }
}

/// Whether texts stand in strictly ascending order.
pub open spec fn ascending(keys: Seq<Seq<char>>) -> bool {
    forall|i: int, j: int|
        #![trigger keys[i], keys[j]]
        0 <= i < j < keys.len() ==> text_before(keys[i], keys[j])
}

/// The keys of a list of entries.
pub open spec fn keys_of(entries: Seq<(String, String)>) -> Seq<Seq<char>> {
    entries.map_values(|e: (String, String)| e.0@)
}

/// What a JSON text holds as a flat object of strings, or why it does not.
pub uninterp spec fn parsed_bundle(json: Seq<char>) -> Result<
    Map<Seq<char>, Seq<char>>,
    Seq<char>,
>;

/// Reads a JSON object of strings with `serde_json::from_str` into a
/// `BTreeMap<String, String>`, whose walk gives each key once and in ascending
/// order. What the text holds, and the text of the error, are named by
/// [`parsed_bundle`]; the JSON grammar is not stated.
#[verifier::external_body]
fn parse_entries(json: &str) -> (r: Result<Entries, String>)
    ensures
        match r {
            Ok(entries) => parsed_bundle(json@) == Result::<
                Map<Seq<char>, Seq<char>>,
                Seq<char>,
            >::Ok(bundle_map(entries@)) && ascending(keys_of(entries@)),
            Err(reason) => parsed_bundle(json@) == Result::<
                Map<Seq<char>, Seq<char>>,
                Seq<char>,
            >::Err(reason@),
        },
{
    serde_json::from_str::<std::collections::BTreeMap<String, String>>(json)
        .map(|bundle| bundle.into_iter().collect())
        .map_err(|error| error.to_string())
}

/// The quoted forms of texts as a bracketed list.
pub open spec fn debug_list(items: Seq<Seq<char>>) -> Seq<char> {
    seq!['['] + joined(items.map_values(|s: Seq<char>| debug_quoted(s)), seq![',', ' ']) + seq![']']
}

pub fn debug_strings(items: &Vec<String>) -> (r: String)
    ensures
        r@ == debug_list(texts(items@)),
{
    let mut quoted: Vec<String> = Vec::new();
    let mut i: usize = 0;
    while i < items.len()
        invariant
            i <= items.len(),
            quoted@.len() == i,
            forall|k: int| 0 <= k < i ==> (#[trigger] quoted@[k])@ == debug_quoted(items@[k]@),
        decreases items.len() - i,
    {
        quoted.push(debug_str(items[i].as_str()));
        i += 1;
    }
    proof {
        reveal_strlit("[");
        reveal_strlit("]");
        reveal_strlit(", ");
        assert(texts(quoted@) =~= texts(items@).map_values(|s: Seq<char>| debug_quoted(s)));
        assert(", "@ =~= seq![',', ' ']);
        assert("["@ =~= seq!['[']);
        assert("]"@ =~= seq![']']);
    }
    let body = join(&quoted, ", ");
    cat3("[", body.as_str(), "]")
}

impl I18nError {
    pub fn copy(&self) -> (r: I18nError)
        ensures
            r.text() == self.text(),
    {
        match self {
            I18nError::InvalidBundle { locale, reason } => I18nError::InvalidBundle {
                locale: owned(locale.as_str()),
                reason: owned(reason.as_str()),
            },
            I18nError::KeyParity { only_en, only_fr } => I18nError::KeyParity {
                only_en: clone_texts(only_en),
                only_fr: clone_texts(only_fr),
            },
            I18nError::UnsupportedLocale(value) => I18nError::UnsupportedLocale(
                owned(value.as_str()),
            ),
        }
    }

    /// The text that describes the error.
    pub open spec fn text(self) -> Seq<char> {
        match self {
            I18nError::InvalidBundle { locale, reason } => "Invalid "@ + locale@
                + " translation bundle: "@ + reason@,
            I18nError::KeyParity { only_en, only_fr } => "Translation key parity mismatch: only_en="@
                + debug_list(texts(only_en@)) + ", only_fr="@ + debug_list(texts(only_fr@)),
            I18nError::UnsupportedLocale(value) => "Unsupported locale: "@ + value@,
        }
    }

    pub fn message(&self) -> (r: String)
        ensures
            r@ == self.text(),
    {
        match self {
            I18nError::InvalidBundle { locale, reason } => cat4(
                "Invalid ",
                locale.as_str(),
                " translation bundle: ",
                reason.as_str(),
            ),
            I18nError::KeyParity { only_en, only_fr } => {
                let en = debug_strings(only_en);
                let fr = debug_strings(only_fr);
                cat4(
                    "Translation key parity mismatch: only_en=",
                    en.as_str(),
                    ", only_fr=",
                    fr.as_str(),
                )
            },
            I18nError::UnsupportedLocale(value) => cat2("Unsupported locale: ", value.as_str()),
        }
    }
}

/// Finds the last entry with the given key.
fn find(entries: &Entries, key: &str) -> (r: Option<usize>)
    ensures
        match r {
            Some(i) => i < entries@.len() && entries@[i as int].0@ == key@ && bundle_map(
                entries@,
            ).dom().contains(key@) && bundle_map(entries@)[key@] == entries@[i as int].1@,
            None => !bundle_map(entries@).dom().contains(key@),
        },
{
    let mut i: usize = entries.len();
    assert(entries@.take(i as int) =~= entries@);
    while i > 0
        invariant
            i <= entries@.len(),
            bundle_map(entries@).dom().contains(key@) == bundle_map(
                entries@.take(i as int),
            ).dom().contains(key@),
            bundle_map(entries@.take(i as int)).dom().contains(key@) ==> bundle_map(entries@)[key@]
                == bundle_map(entries@.take(i as int))[key@],
        decreases i,
    {
        let ghost part = entries@.take(i as int);
        assert(part.drop_last() =~= entries@.take(i - 1));
        if str_eq(entries[i - 1].0.as_str(), key) {
            return Some(i - 1);
        }
        i -= 1;
    }
    assert(entries@.take(0).len() == 0);
    None
}

proof fn lemma_keys_are_domain(entries: Seq<(String, String)>)
    ensures
        forall|k: Seq<char>|
            bundle_map(entries).dom().contains(k) <==> (#[trigger] keys_of(entries).contains(k)),
    decreases entries.len(),
{
    if entries.len() > 0 {
        let front = entries.drop_last();
        lemma_keys_are_domain(front);
        assert forall|k: Seq<char>| bundle_map(entries).dom().contains(k) <==> (#[trigger] keys_of(
            entries,
        ).contains(k)) by {
            assert(keys_of(entries).drop_last() =~= keys_of(front));
            if keys_of(front).contains(k) {
                let i = choose|i: int| 0 <= i < front.len() && keys_of(front)[i] == k;
                assert(keys_of(entries)[i] == k);
            }
            if keys_of(entries).contains(k) {
                let i = choose|i: int| 0 <= i < entries.len() && keys_of(entries)[i] == k;
                if i < front.len() {
                    assert(keys_of(front)[i] == k);
                }
            }
            if k == entries.last().0@ {
                assert(keys_of(entries)[entries.len() - 1] == k);
            }
        }
    }
}

/// The keys of `mine` that `other` lacks, in the order of `mine`.
fn missing_keys(mine: &Entries, other: &Entries) -> (r: Vec<String>)
    requires
        ascending(keys_of(mine@)),
    ensures
        ascending(texts(r@)),
        forall|k: Seq<char>| #[trigger]
            texts(r@).contains(k) <==> bundle_map(mine@).dom().contains(k) && !bundle_map(
                other@,
            ).dom().contains(k),
{
    let mut out: Vec<String> = Vec::new();
    let ghost mut from: Seq<int> = Seq::empty();
    let mut i: usize = 0;
    while i < mine.len()
        invariant
            i <= mine@.len(),
            ascending(keys_of(mine@)),
            from.len() == out@.len(),
            forall|k: int|
                0 <= k < out@.len() ==> 0 <= #[trigger] from[k] < i && out@[k]@
                    == mine@[from[k]].0@ && !bundle_map(other@).dom().contains(out@[k]@),
            forall|k: int, l: int|
                #![trigger from[k], from[l]]
                0 <= k < l < from.len() ==> from[k] < from[l],
            forall|j: int|
                0 <= j < i && !bundle_map(other@).dom().contains(#[trigger] keys_of(mine@)[j])
                    ==> exists|k: int| 0 <= k < out@.len() && #[trigger] from[k] == j,
        decreases mine.len() - i,
    {
        let found = find(other, mine[i].0.as_str());
        let ghost before = from;
        if found.is_none() {
            out.push(mine[i].0.clone());
            proof {
                from = from.push(i as int);
                assert forall|j: int|
                    0 <= j < i + 1 && !bundle_map(other@).dom().contains(
                        #[trigger] keys_of(mine@)[j],
                    ) implies exists|k: int| 0 <= k < out@.len() && #[trigger] from[k] == j by {
                    if j < i {
                        let k = choose|k: int| 0 <= k < before.len() && #[trigger] before[k] == j;
                        assert(from[k] == j);
                    } else {
                        assert(from[before.len() as int] == j);
                    }
                }
            }
        }
        i += 1;
    }
    proof {
        lemma_keys_are_domain(mine@);
        let keys = keys_of(mine@);
        assert forall|a: int, b: int| 0 <= a < b < texts(out@).len() implies text_before(
            #[trigger] texts(out@)[a],
            #[trigger] texts(out@)[b],
        ) by {
            assert(from[a] < from[b]);
            assert(keys[from[a]] == texts(out@)[a]);
            assert(keys[from[b]] == texts(out@)[b]);
        }
        assert forall|k: Seq<char>| #[trigger]
            texts(out@).contains(k) <==> bundle_map(mine@).dom().contains(k) && !bundle_map(
                other@,
            ).dom().contains(k) by {
            if texts(out@).contains(k) {
                let a = choose|a: int| 0 <= a < out@.len() && texts(out@)[a] == k;
                assert(keys[from[a]] == k);
                assert(keys.contains(k));
            }
            if bundle_map(mine@).dom().contains(k) && !bundle_map(other@).dom().contains(k) {
                assert(keys.contains(k));
                let j = choose|j: int| 0 <= j < mine@.len() && keys[j] == k;
                assert(!bundle_map(other@).dom().contains(keys[j]));
                let a = choose|a: int| 0 <= a < out@.len() && #[trigger] from[a] == j;
                assert(texts(out@)[a] == k);
            }
        }
    }
    out
}

/// Both bundles and the locale that is in use.
pub struct I18nManager {
    english: Entries,
    french: Entries,
    use_french: bool,
}

/// The text shown for a key that no bundle holds.
pub open spec fn missing_text(key: Seq<char>) -> Seq<char> {
    "[missing:"@ + key + "]"@
}

/// `template` with each `{parameter}` replaced by its value, in the given order.
pub open spec fn interpolated(
    template: Seq<char>,
    args: Seq<(Seq<char>, Seq<char>)>,
) -> Seq<char>
    decreases args.len(),
{
    if args.len() == 0 {
        template
    } else {
        with_replaced(
            interpolated(template, args.drop_last()),
            "{"@ + args.last().0 + "}"@,
            args.last().1,
        )
    }
}

/// The views of borrowed argument pairs.
pub open spec fn arg_views(args: Seq<(&str, &str)>) -> Seq<(Seq<char>, Seq<char>)> {
    args.map_values(|a: (&str, &str)| (a.0@, a.1@))
}

impl I18nManager {
    /// The English bundle.
    pub closed spec fn english_map(self) -> Map<Seq<char>, Seq<char>> {
        bundle_map(self.english@)
    }

    /// The French bundle.
    pub closed spec fn french_map(self) -> Map<Seq<char>, Seq<char>> {
        bundle_map(self.french@)
    }

    /// Whether French is in use.
    pub closed spec fn is_french(self) -> bool {
        self.use_french
    }

    #[verifier::type_invariant]
    spec fn key_parity(self) -> bool {
        &&& ascending(keys_of(self.english@))
        &&& bundle_map(self.english@).dom() =~= bundle_map(self.french@).dom()
    }

    /// What the locale in use, else English, holds under a key.
    pub open spec fn translation(self, key: Seq<char>) -> Seq<char> {
        if self.is_french() && self.french_map().dom().contains(key) {
            self.french_map()[key]
        } else if self.english_map().dom().contains(key) {
            self.english_map()[key]
        } else {
            missing_text(key)
        }
    }

    /// The bundles parsed from two JSON texts, with English in use.
    pub fn global(en_json: &str, fr_json: &str) -> (r: Result<I18nManager, I18nError>)
        ensures
            build_outcome(parsed_bundle(en_json@), parsed_bundle(fr_json@), r),
    {
        let en = parse_entries(en_json);
        let fr = parse_entries(fr_json);
        build(en, fr)
    }

    /// Whether two JSON texts make valid bundles.
    pub fn validate(en_json: &str, fr_json: &str) -> (r: Result<(), I18nError>)
        ensures
            match r {
                Ok(_) => bundles_agree(parsed_bundle(en_json@), parsed_bundle(fr_json@)),
                Err(error) => build_error(
                    parsed_bundle(en_json@),
                    parsed_bundle(fr_json@),
                    error,
                ),
            },
    {
        match I18nManager::global(en_json, fr_json) {
            Ok(_) => Ok(()),
            Err(error) => Err(error),
        }
    }

    /// Puts a locale in use.
    pub fn set_locale(&mut self, locale: &str) -> (r: Result<(), I18nError>)
        ensures
            r is Ok <==> locale@ == ENGLISH_LOCALE@ || locale@ == FRENCH_LOCALE@,
            r is Ok ==> final(self).is_french() == (locale@ == FRENCH_LOCALE@),
            r is Err ==> final(self).is_french() == old(self).is_french(),
            r matches Err(error) ==> (error matches I18nError::UnsupportedLocale(v) && v@
                == locale@),
            final(self).english_map() == old(self).english_map(),
            final(self).french_map() == old(self).french_map(),
    {
        proof {
            use_type_invariant(&*self);
            reveal_strlit("en");
            reveal_strlit("fr");
            assert("en"@[0] != "fr"@[0]);
        }
        if str_eq(locale, ENGLISH_LOCALE) {
            self.use_french = false;
            Ok(())
        } else if str_eq(locale, FRENCH_LOCALE) {
            self.use_french = true;
            Ok(())
        } else {
            Err(I18nError::UnsupportedLocale(owned(locale)))
        }
    }

    /// The locale in use.
    pub fn get_locale(&self) -> (r: &'static str)
        ensures
            r@ == (if self.is_french() {
                FRENCH_LOCALE@
            } else {
                ENGLISH_LOCALE@
            }),
    {
        if self.use_french {
            FRENCH_LOCALE
        } else {
            ENGLISH_LOCALE
        }
    }

    pub fn translate(&self, key: &str) -> (r: String)
        ensures
            r@ == self.translation(key@),
    {
        if self.use_french {
            match find(&self.french, key) {
                Some(i) => {
                    return self.french[i].1.clone();
                },
                None => {},
            }
        }
        match find(&self.english, key) {
            Some(i) => self.english[i].1.clone(),
            None => cat3("[missing:", key, "]"),
        }
    }

    pub fn translate_args(&self, key: &str, args: &[(&str, &str)]) -> (r: String)
        ensures
            r@ == interpolated(self.translation(key@), arg_views(args@)),
    {
        let mut template = self.translate(key);
        let ghost all = arg_views(args@);
        let mut i: usize = 0;
        assert(all.take(0) =~= Seq::<(Seq<char>, Seq<char>)>::empty());
        while i < args.len()
            invariant
                i <= args@.len(),
                all == arg_views(args@),
                template@ == interpolated(self.translation(key@), all.take(i as int)),
            decreases args.len() - i,
        {
            let (parameter, value) = args[i];
            let slot = cat3("{", parameter, "}");
            proof {
                reveal_strlit("{");
                assert(slot@.len() > 0);
                assert(all.take(i + 1).drop_last() =~= all.take(i as int));
                assert(all.take(i + 1).last() == (parameter@, value@));
            }
            template = replace_all(template.as_str(), slot.as_str(), value);
            i += 1;
        }
        assert(all.take(i as int) =~= all);
        template
    }

    /// Every key, in ascending order.
    pub fn keys(&self) -> (r: Vec<String>)
        ensures
            ascending(texts(r@)),
            forall|k: Seq<char>| #[trigger]
                texts(r@).contains(k) <==> self.english_map().dom().contains(k),
    {
        proof {
            use_type_invariant(self);
            lemma_keys_are_domain(self.english@);
        }
        let mut out: Vec<String> = Vec::new();
        let mut i: usize = 0;
        while i < self.english.len()
            invariant
                i <= self.english@.len(),
                out@.len() == i,
                forall|k: int| 0 <= k < i ==> (#[trigger] out@[k])@ == self.english@[k].0@,
            decreases self.english.len() - i,
        {
            out.push(self.english[i].0.clone());
            i += 1;
        }
        assert(texts(out@) =~= keys_of(self.english@));
        out
    }
}

/// Whether both bundles were read and hold the same keys.
pub open spec fn bundles_agree(
    en: Result<Map<Seq<char>, Seq<char>>, Seq<char>>,
    fr: Result<Map<Seq<char>, Seq<char>>, Seq<char>>,
) -> bool {
    en is Ok && fr is Ok && en->Ok_0.dom() =~= fr->Ok_0.dom()
}

/// The error that two outcomes of reading give: the English one is reported first,
/// and a difference of keys only where both were read.
pub open spec fn build_error(
    en: Result<Map<Seq<char>, Seq<char>>, Seq<char>>,
    fr: Result<Map<Seq<char>, Seq<char>>, Seq<char>>,
    error: I18nError,
) -> bool {
    if en is Err {
        error matches I18nError::InvalidBundle { locale, reason } && locale@ == ENGLISH_LOCALE@
            && reason@ == en->Err_0
    } else if fr is Err {
        error matches I18nError::InvalidBundle { locale, reason } && locale@ == FRENCH_LOCALE@
            && reason@ == fr->Err_0
    } else {
        &&& !(en->Ok_0.dom() =~= fr->Ok_0.dom())
        &&& error matches I18nError::KeyParity { only_en, only_fr }
        &&& ascending(texts(only_en@))
        &&& ascending(texts(only_fr@))
        &&& forall|k: Seq<char>| #[trigger]
            texts(only_en@).contains(k) <==> en->Ok_0.dom().contains(k)
                && !fr->Ok_0.dom().contains(k)
        &&& forall|k: Seq<char>| #[trigger]
            texts(only_fr@).contains(k) <==> fr->Ok_0.dom().contains(k)
                && !en->Ok_0.dom().contains(k)
    }
}

/// What building the manager from two outcomes of reading gives.
pub open spec fn build_outcome(
    en: Result<Map<Seq<char>, Seq<char>>, Seq<char>>,
    fr: Result<Map<Seq<char>, Seq<char>>, Seq<char>>,
    r: Result<I18nManager, I18nError>,
) -> bool {
    match r {
        Ok(manager) => bundles_agree(en, fr) && manager.english_map() == en->Ok_0
            && manager.french_map() == fr->Ok_0 && !manager.is_french(),
        Err(error) => build_error(en, fr, error),
    }
}

/// The mapping, or the error text, of an outcome of reading.
pub open spec fn outcome_view(r: Result<Entries, String>) -> Result<
    Map<Seq<char>, Seq<char>>,
    Seq<char>,
> {
    match r {
        Ok(entries) => Ok(bundle_map(entries@)),
        Err(reason) => Err(reason@),
    }
}

/// Puts two bundles together where they were read and hold the same keys.
pub fn build(en: Result<Entries, String>, fr: Result<Entries, String>) -> (r: Result<
    I18nManager,
    I18nError,
>)
    requires
        en matches Ok(entries) ==> ascending(keys_of(entries@)),
        fr matches Ok(entries) ==> ascending(keys_of(entries@)),
    ensures
        build_outcome(outcome_view(en), outcome_view(fr), r),
{
    let en = match en {
        Ok(entries) => entries,
        Err(reason) => {
            return Err(
                I18nError::InvalidBundle { locale: owned(ENGLISH_LOCALE), reason: reason },
            );
        },
    };
    let fr = match fr {
        Ok(entries) => entries,
        Err(reason) => {
            return Err(I18nError::InvalidBundle { locale: owned(FRENCH_LOCALE), reason: reason });
        },
    };
    let only_en = missing_keys(&en, &fr);
    let only_fr = missing_keys(&fr, &en);
    if only_en.len() > 0 || only_fr.len() > 0 {
        proof {
            if only_en@.len() > 0 {
                assert(texts(only_en@).contains(texts(only_en@)[0]));
            } else {
                assert(texts(only_fr@).contains(texts(only_fr@)[0]));
            }
        }
        return Err(I18nError::KeyParity { only_en: only_en, only_fr: only_fr });
    }
    proof {
        assert forall|k: Seq<char>|
            bundle_map(en@).dom().contains(k) == bundle_map(fr@).dom().contains(k) by {
            assert(!texts(only_en@).contains(k));
            assert(!texts(only_fr@).contains(k));
        }
        assert(bundle_map(en@).dom() =~= bundle_map(fr@).dom());
    }
    Ok(I18nManager { english: en, french: fr, use_french: false })
}

// ---------------------------------------------------------------------------
// Choosing a locale
// ---------------------------------------------------------------------------

/// A language tag: a primary subtag of two to eight letters, then subtags of one
/// to eight letters or digits.
pub open spec fn well_formed_tag(tag: Seq<char>) -> bool {
    let parts = split(tag, '-');
    &&& 2 <= parts[0].len() <= 8
    &&& forall|k: int| 0 <= k < parts[0].len() ==> is_ascii_alphabetic(#[trigger] parts[0][k])
    &&& forall|i: int| 1 <= i < parts.len() ==> #[trigger] well_formed_subtag(parts[i])
}

pub open spec fn well_formed_subtag(part: Seq<char>) -> bool {
    &&& 1 <= part.len() <= 8
    &&& forall|k: int| 0 <= k < part.len() ==> is_ascii_alphanumeric(#[trigger] part[k])
}

/// Whether the first tag whose primary subtag is French or English is French.
pub open spec fn prefers_french(tags: Seq<Seq<char>>) -> bool
    decreases tags.len(),
{
    if tags.len() == 0 {
        false
    } else {
        let primary = ascii_lower(split(tags[0], '-')[0]);
        if primary == FRENCH_LOCALE@ {
            true
        } else if primary == ENGLISH_LOCALE@ {
            false
        } else {
            prefers_french(tags.drop_first())
        }
    }
}

/// The texts of borrowed strings.
pub open spec fn str_texts(v: Seq<&str>) -> Seq<Seq<char>> {
    v.map_values(|s: &str| s@)
}

pub fn is_well_formed_language_tag(tag: &str) -> (r: bool)
    ensures
        r == well_formed_tag(tag@),
{
    let parts = split_chars(tag, '-');
    let ghost pieces = split(tag@, '-');
    assert(texts(parts@)[0] == parts@[0]@);
    let primary = chars_of(parts[0].as_str());
    if primary.len() < 2 || primary.len() > 8 {
        return false;
    }
    let mut k: usize = 0;
    while k < primary.len()
        invariant
            k <= primary@.len(),
            primary@ == pieces[0],
            pieces == split(tag@, '-'),
            forall|j: int| 0 <= j < k ==> is_ascii_alphabetic(#[trigger] pieces[0][j]),
        decreases primary.len() - k,
    {
        if !char_is_alphabetic(primary[k]) {
            assert(!is_ascii_alphabetic(pieces[0][k as int]));
            return false;
        }
        k += 1;
    }
    let mut i: usize = 1;
    while i < parts.len()
        invariant
            1 <= i <= parts@.len(),
            texts(parts@) == pieces,
            pieces == split(tag@, '-'),
            forall|j: int| 1 <= j < i ==> #[trigger] well_formed_subtag(pieces[j]),
        decreases parts.len() - i,
    {
        assert(texts(parts@)[i as int] == parts@[i as int]@);
        if !is_well_formed_subtag(parts[i].as_str()) {
            assert(!well_formed_subtag(pieces[i as int]));
            return false;
        }
        i += 1;
    }
    true
}

fn is_well_formed_subtag(part: &str) -> (r: bool)
    ensures
        r == well_formed_subtag(part@),
{
    let chars = chars_of(part);
    if chars.len() < 1 || chars.len() > 8 {
        return false;
    }
    let mut k: usize = 0;
    while k < chars.len()
        invariant
            k <= chars@.len(),
            chars@ == part@,
            forall|j: int| 0 <= j < k ==> is_ascii_alphanumeric(#[trigger] part@[j]),
        decreases chars.len() - k,
    {
        if !(char_is_alphabetic(chars[k]) || char_is_digit(chars[k])) {
            assert(!is_ascii_alphanumeric(part@[k as int]));
            return false;
        }
        k += 1;
    }
    true
}

/// The locale for a list of language tags in preference order. A malformed tag
/// anywhere, or no tag that is supported, gives English.
pub fn resolve_supported_locale(tags: &[&str]) -> (r: &'static str)
    ensures
        r@ == (if (forall|i: int| 0 <= i < tags@.len() ==> well_formed_tag(#[trigger] tags@[i]@))
            && prefers_french(str_texts(tags@)) {
            FRENCH_LOCALE@
        } else {
            ENGLISH_LOCALE@
        }),
{
    let mut i: usize = 0;
    while i < tags.len()
        invariant
            i <= tags@.len(),
            forall|j: int| 0 <= j < i ==> well_formed_tag(#[trigger] tags@[j]@),
        decreases tags.len() - i,
    {
        if !is_well_formed_language_tag(tags[i]) {
            assert(!well_formed_tag(tags@[i as int]@));
            return ENGLISH_LOCALE;
        }
        i += 1;
    }
    let ghost all = str_texts(tags@);
    let mut i: usize = 0;
    assert(all.skip(0) =~= all);
    proof {
        reveal_strlit("en");
        reveal_strlit("fr");
        assert("en"@[0] != "fr"@[0]);
    }
    while i < tags.len()
        invariant
            i <= tags@.len(),
            all == str_texts(tags@),
            forall|j: int| 0 <= j < tags@.len() ==> well_formed_tag(#[trigger] tags@[j]@),
            prefers_french(all) == prefers_french(all.skip(i as int)),
            FRENCH_LOCALE@ != ENGLISH_LOCALE@,
        decreases tags.len() - i,
    {
        let parts = split_chars(tags[i], '-');
        assert(texts(parts@)[0] == parts@[0]@);
        let primary = to_ascii_lower(parts[0].as_str());
        assert(all.skip(i as int)[0] == tags@[i as int]@);
        assert(all.skip(i as int).drop_first() =~= all.skip(i + 1));
        if str_eq(primary.as_str(), FRENCH_LOCALE) {
            return FRENCH_LOCALE;
        }
        if str_eq(primary.as_str(), ENGLISH_LOCALE) {
            return ENGLISH_LOCALE;
        }
        i += 1;
    }
    ENGLISH_LOCALE
}

// ---------------------------------------------------------------------------
// Lookups that also show why no bundle is there
// ---------------------------------------------------------------------------

/// What is shown for a key: its translation, or the reason why there is none.
pub open spec fn shown(bundles: Result<I18nManager, I18nError>, key: Seq<char>) -> Seq<char> {
    match bundles {
        Ok(manager) => manager.translation(key),
        Err(error) => "[i18n:"@ + error.text() + "]"@,
    }
}

pub fn t(bundles: &Result<I18nManager, I18nError>, key: &str) -> (r: String)
    ensures
        r@ == shown(*bundles, key@),
{
    match bundles {
        Ok(manager) => manager.translate(key),
        Err(error) => {
            let reason = error.message();
            cat3("[i18n:", reason.as_str(), "]")
        },
    }
}

/// What is shown for a key with arguments.
pub open spec fn shown_with(
    bundles: Result<I18nManager, I18nError>,
    key: Seq<char>,
    args: Seq<(Seq<char>, Seq<char>)>,
) -> Seq<char> {
    match bundles {
        Ok(manager) => interpolated(manager.translation(key), args),
        Err(error) => "[i18n:"@ + error.text() + "]"@,
    }
}

pub fn t_args(
    bundles: &Result<I18nManager, I18nError>,
    key: &str,
    args: &[(&str, &str)],
) -> (r: String)
    ensures
        r@ == shown_with(*bundles, key@, arg_views(args@)),
{
    match bundles {
        Ok(manager) => manager.translate_args(key, args),
        Err(error) => {
            let reason = error.message();
            cat3("[i18n:", reason.as_str(), "]")
        },
    }
}

/// A key is shown in the locale in use where that locale holds it, else in English; a key that
/// neither holds shows itself.
pub proof fn a_text_is_shown_in_the_locale_in_use(manager: I18nManager, key: Seq<char>)
    ensures
        manager.is_french() && manager.french_map().dom().contains(key) ==> manager.translation(key)
            == manager.french_map()[key],
        !manager.is_french() && manager.english_map().dom().contains(key) ==> manager.translation(
            key,
        ) == manager.english_map()[key],
        manager.english_map().dom().contains(key) && !manager.french_map().dom().contains(key)
            ==> manager.translation(key) == manager.english_map()[key],
        !manager.english_map().dom().contains(key) && !(manager.is_french()
            && manager.french_map().dom().contains(key)) ==> manager.translation(key)
            == "[missing:"@ + key + "]"@,
{
}

/// Bundles are accepted exactly where both could be read and hold the same keys; where they
/// do not, each key that one of them lacks is named on the side that holds it.
pub proof fn bundles_that_are_accepted_hold_the_same_keys(
    en: Result<Map<Seq<char>, Seq<char>>, Seq<char>>,
    fr: Result<Map<Seq<char>, Seq<char>>, Seq<char>>,
    r: Result<I18nManager, I18nError>,
    key: Seq<char>,
)
    requires
        build_outcome(en, fr, r),
    ensures
        r matches Ok(manager) ==> en == Result::<Map<Seq<char>, Seq<char>>, Seq<char>>::Ok(
            manager.english_map(),
        ) && fr == Result::<Map<Seq<char>, Seq<char>>, Seq<char>>::Ok(manager.french_map())
            && !manager.is_french() && (manager.english_map().dom().contains(key)
            <==> manager.french_map().dom().contains(key)),
        en is Ok && fr is Ok && en->Ok_0.dom().contains(key) && !fr->Ok_0.dom().contains(key) ==> (
        r matches Err(I18nError::KeyParity { only_en, only_fr }) && texts(only_en@).contains(key)
            && !texts(only_fr@).contains(key)),
        en is Ok && fr is Ok && fr->Ok_0.dom().contains(key) && !en->Ok_0.dom().contains(key) ==> (
        r matches Err(I18nError::KeyParity { only_en, only_fr }) && texts(only_fr@).contains(key)
            && !texts(only_en@).contains(key)),
        en is Err || fr is Err ==> (r matches Err(I18nError::InvalidBundle { locale, .. })
            && (locale@ == "en"@ <==> en is Err)),
{
    reveal_strlit("en");
    reveal_strlit("fr");
    assert("en"@[0] == 'e' && "fr"@[0] == 'f');
}

/// The language that a tag is of, whatever its case.
pub open spec fn is_of(tag: Seq<char>, language: Seq<char>) -> bool {
    ascii_lower(split(tag, '-')[0]) == language
}

/// French is preferred exactly where a tag is French and none before it is French or English.
pub proof fn the_first_known_language_is_preferred(tags: Seq<Seq<char>>)
    ensures
        prefers_french(tags) <==> exists|i: int|
            0 <= i < tags.len() && is_of(#[trigger] tags[i], "fr"@) && forall|j: int|
                0 <= j < i ==> !is_of(#[trigger] tags[j], "en"@),
    decreases tags.len(),
{
    reveal_strlit("en");
    reveal_strlit("fr");
    assert("en"@[0] == 'e' && "fr"@[0] == 'f');
    if tags.len() > 0 {
        let rest = tags.drop_first();
        the_first_known_language_is_preferred(rest);
        if is_of(tags[0], "fr"@) {
            assert(forall|j: int| 0 <= j < 0 ==> !is_of(#[trigger] tags[j], "en"@));
        } else if !is_of(tags[0], "en"@) {
            if prefers_french(rest) {
                let i = choose|i: int|
                    0 <= i < rest.len() && is_of(#[trigger] rest[i], "fr"@) && forall|j: int|
                        0 <= j < i ==> !is_of(#[trigger] rest[j], "en"@);
                assert(tags[i + 1] == rest[i]);
                assert forall|j: int| 0 <= j < i + 1 implies !is_of(#[trigger] tags[j], "en"@) by {
                    if j > 0 {
                        assert(rest[j - 1] == tags[j]);
                    }
                }
            }
            if exists|i: int|
                0 <= i < tags.len() && is_of(#[trigger] tags[i], "fr"@) && forall|j: int|
                    0 <= j < i ==> !is_of(#[trigger] tags[j], "en"@) {
                let i = choose|i: int|
                    0 <= i < tags.len() && is_of(#[trigger] tags[i], "fr"@) && forall|j: int|
                        0 <= j < i ==> !is_of(#[trigger] tags[j], "en"@);
                assert(rest[i - 1] == tags[i]);
                assert forall|j: int| 0 <= j < i - 1 implies !is_of(#[trigger] rest[j], "en"@) by {
                    assert(tags[j + 1] == rest[j]);
                }
            }
        }
    }
}

/// A parameter is put where the template names it, and the rest of the template stays.
pub proof fn a_parameter_is_put_in_its_place(
    head: Seq<char>,
    name: Seq<char>,
    rest: Seq<char>,
    value: Seq<char>,
)
    requires
        !head.contains('{'),
        !rest.contains('{'),
    ensures
        interpolated(head + ("{"@ + name + "}"@) + rest, seq![(name, value)]) == head + value + rest,
        interpolated(head + rest, seq![(name, value)]) == head + rest,
        interpolated(head, Seq::<(Seq<char>, Seq<char>)>::empty()) == head,
{
    reveal_strlit("{");
    let slot = "{"@ + name + "}"@;
    let args = seq![(name, value)];
    let template = head + slot + rest;
    assert(slot[0] == '{');
    assert(args.drop_last() =~= Seq::empty());
    a_text_is_replaced_where_it_stands(head, slot, rest, value);
    a_text_without_it_stays(rest, slot, value);
    assert forall|i: int| 0 <= i < (head + rest).len() implies (head + rest)[i] != '{' by {
        if i < head.len() {
            assert(head.contains(head[i]));
        } else {
            assert(rest.contains(rest[i - head.len()]));
        }
    }
    a_text_without_it_stays(head + rest, slot, value);
    assert(interpolated(template, args.drop_last()) == template);
    assert(interpolated(head + rest, args.drop_last()) == head + rest);
}

proof fn lemma_each_character_is_in_a_piece(s: Seq<char>, sep: char, i: int)
    requires
        0 <= i < s.len(),
        s[i] != sep,
    ensures
        exists|k: int|
            0 <= k < split(s, sep).len() && (#[trigger] split(s, sep)[k]).contains(s[i]),
    decreases s.len(),
{
    let front = s.drop_last();
    let before = split(front, sep);
    let after = split(s, sep);
    lemma_split_nonempty(front, sep);
    if i < front.len() {
        lemma_each_character_is_in_a_piece(front, sep, i);
        let k = choose|k: int| 0 <= k < before.len() && (#[trigger] before[k]).contains(front[i]);
        let at = choose|at: int| 0 <= at < before[k].len() && before[k][at] == front[i];
        if s.last() == sep || k < before.len() - 1 {
            assert(after[k] == before[k]);
        } else {
            assert(after[k][at] == s[i]);
        }
    } else {
        let last = after.len() - 1;
        assert(after[last] == before.last().push(s.last()));
        assert(after[last][before.last().len() as int] == s[i]);
    }
}

/// A language tag that is accepted is letters, digits and hyphens, none of it too long, and
/// begins with a language of at least two letters.
pub proof fn a_tag_that_is_accepted_is_plain(tag: Seq<char>)
    requires
        well_formed_tag(tag),
    ensures
        2 <= split(tag, '-')[0].len() <= 8,
        forall|k: int|
            0 <= k < split(tag, '-')[0].len() ==> is_ascii_alphabetic(
                #[trigger] split(tag, '-')[0][k],
            ),
        forall|i: int|
            0 <= i < split(tag, '-').len() ==> 1 <= (#[trigger] split(tag, '-')[i]).len() <= 8,
        forall|i: int|
            0 <= i < tag.len() ==> #[trigger] tag[i] == '-' || is_ascii_alphanumeric(tag[i]),
{
    let parts = split(tag, '-');
    lemma_split_nonempty(tag, '-');
    assert forall|i: int| 0 <= i < parts.len() implies 1 <= (#[trigger] parts[i]).len() <= 8 by {
        if i > 0 {
            assert(well_formed_subtag(parts[i]));
        }
    }
    assert forall|i: int| 0 <= i < tag.len() implies #[trigger] tag[i] == '-'
        || is_ascii_alphanumeric(tag[i]) by {
        if tag[i] != '-' {
            lemma_each_character_is_in_a_piece(tag, '-', i);
            let k = choose|k: int| 0 <= k < parts.len() && (#[trigger] parts[k]).contains(tag[i]);
            let at = choose|at: int| 0 <= at < parts[k].len() && parts[k][at] == tag[i];
            if k > 0 {
                assert(well_formed_subtag(parts[k]));
            }
            assert(parts[k][at] == tag[i]);
        }
    }
}

} // verus!
