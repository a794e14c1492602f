//! Address hints: labels chosen by the user, each standing for an address.
//!
//! A hints document is a JSON object whose keys are the labels. Searching it
//! keeps the entries whose lower-cased label contains the pattern, in the
//! order in which the JSON reader yields the object's entries (ascending by
//! key with the reader's default map).

use vstd::prelude::*;
use vstd::string::*;
use crate::style::{colored_style, plain_style, LabelStyle};
use crate::text::{contains, lowercase, occurs_in, to_lowercase};

verus! {

/// An entry of a hints document: its key, and its value where that is a
/// JSON string.
#[derive(Clone, Debug, PartialEq, Eq)]
pub struct Entry {
    pub label: String,
    pub value: Option<String>,
}

/// A label with the address it stands for.
#[derive(Clone, Debug, PartialEq, Eq)]
pub struct Hint {
    pub label: String,
    pub address: String,
}

impl View for Entry {
    type V = (Seq<char>, Option<Seq<char>>);

    open spec fn view(&self) -> Self::V {
        (
            self.label@,
            match self.value {
                Some(text) => Some(text@),
                None => None,
            },
        )
    }
}

impl View for Hint {
    type V = (Seq<char>, Seq<char>);

    open spec fn view(&self) -> Self::V {
        (self.label@, self.address@)
    }
}

/// Why a hints document could not be searched.
#[derive(Clone, Debug, PartialEq, Eq)]
pub enum HintsError {
    /// The text is no JSON document; the reader's account of it is attached.
    Malformed(String),
    /// The text is a JSON document, but no object.
    NotAnObject,
}

/// What to look for, and how to write out what was found.
#[derive(Clone, Debug, PartialEq, Eq)]
pub struct SearchHintsConfig {
    pub pattern: String,
    pub clean: bool,
}

/// `serde_json::Error`, handed on unopened.
#[verifier::external_type_specification]
#[verifier::external_body]
pub struct ExJsonError(serde_json::Error);

/// What the JSON reader makes of a text: `None` where the text is no JSON
/// document, `Some(None)` where it is one but no object, and otherwise the
/// object's entries in the order in which the reader yields them, each with
/// its key and, where its value is a string, that string.
pub uninterp spec fn json_reading(text: Seq<char>) -> Option<
    Option<Seq<(Seq<char>, Option<Seq<char>>)>>,
>;

/// The entries of a list, each by its view.
pub open spec fn entry_views(entries: Seq<Entry>) -> Seq<(Seq<char>, Option<Seq<char>>)> {
    entries.map_values(|entry: Entry| entry@)
}

/// The hints of a list, each by its view.
pub open spec fn hint_views(hints: Seq<Hint>) -> Seq<(Seq<char>, Seq<char>)> {
    hints.map_values(|hint: Hint| hint@)
}

/// Whether no label stands twice among the entries.
pub open spec fn distinct_labels(entries: Seq<(Seq<char>, Option<Seq<char>>)>) -> bool {
    forall|i: int, j: int|
        0 <= i < j < entries.len() ==> (#[trigger] entries[i]).0 != (#[trigger] entries[j]).0
}

/// Whether no label stands twice among the hints.
pub open spec fn distinct_hint_labels(hints: Seq<(Seq<char>, Seq<char>)>) -> bool {
    forall|i: int, j: int|
        0 <= i < j < hints.len() ==> (#[trigger] hints[i]).0 != (#[trigger] hints[j]).0
}

/// Whether a label is found by a pattern: the label is lower-cased, the
/// pattern is taken as given.
pub open spec fn label_matches(label: Seq<char>, pattern: Seq<char>) -> bool {
    occurs_in(pattern, lowercase(label))
}

/// The address an entry stands for: its value, or the empty text where the
/// value is no string.
pub open spec fn address_of(value: Option<Seq<char>>) -> Seq<char> {
    match value {
        Some(text) => text,
        None => Seq::empty(),
    }
}

/// The hint that an entry gives.
pub open spec fn hint_of(entry: (Seq<char>, Option<Seq<char>>)) -> (Seq<char>, Seq<char>) {
    (entry.0, address_of(entry.1))
}

/// The test that a pattern puts to an entry.
pub open spec fn found_by(pattern: Seq<char>) -> spec_fn((Seq<char>, Option<Seq<char>>)) -> bool {
    |entry: (Seq<char>, Option<Seq<char>>)| label_matches(entry.0, pattern)
}

/// `hint_of` as a mapping.
pub open spec fn as_hint() -> spec_fn((Seq<char>, Option<Seq<char>>)) -> (Seq<char>, Seq<char>) {
    |entry: (Seq<char>, Option<Seq<char>>)| hint_of(entry)
}

/// The hints found by a pattern: the entries whose label matches, in their
/// order, each with its address.
pub open spec fn matching_hints(
    entries: Seq<(Seq<char>, Option<Seq<char>>)>,
    pattern: Seq<char>,
) -> Seq<(Seq<char>, Seq<char>)> {
    entries.filter(found_by(pattern)).map_values(as_hint())
}

/// What is written for one hint. Clean: the address on a line of its own.
/// Otherwise the label, set off by the style and followed by a colon, on one
/// line, and the address on the next.
pub open spec fn hint_text(
    hint: (Seq<char>, Seq<char>),
    clean: bool,
    style: (Seq<char>, Seq<char>, Seq<char>),
) -> Seq<char> {
    if clean {
        hint.1 + "\n"@
    } else {
        style.0 + style.1 + hint.0 + ":\n"@ + style.2 + hint.1 + "\n"@
    }
}

/// `hint_text` as a mapping.
pub open spec fn as_text(clean: bool, style: (Seq<char>, Seq<char>, Seq<char>)) -> spec_fn(
    (Seq<char>, Seq<char>),
) -> Seq<char> {
    |hint: (Seq<char>, Seq<char>)| hint_text(hint, clean, style)
}

/// What is written for a list of hints: the text of each, one after another.
pub open spec fn hints_text(
    hints: Seq<(Seq<char>, Seq<char>)>,
    clean: bool,
    style: (Seq<char>, Seq<char>, Seq<char>),
) -> Seq<char> {
    hints.map_values(as_text(clean, style)).flatten()
}

impl Entry {
    /// Whether this entry's label is found by `pattern`.
    pub fn matches(&self, pattern: &str) -> (found: bool)
        ensures
            found == label_matches(self@.0, pattern@),
    {
        let lowered = to_lowercase(self.label.as_str());
        contains(lowered.as_str(), pattern)
    }

    /// The hint that this entry gives.
    pub fn to_hint(&self) -> (hint: Hint)
        ensures
            hint@ == hint_of(self@),
    {
        let address = match &self.value {
            Some(text) => text.clone(),
            None => String::new(),
        };
        Hint { label: self.label.clone(), address }
    }
}

impl Hint {
    /// Writes this hint out.
    pub fn render(&self, clean: bool, style: &LabelStyle) -> (text: String)
        ensures
            text@ == hint_text(self@, clean, style@),
    {
        let mut text = String::new();
        if clean {
            text.append(self.address.as_str());
            text.append("\n");
            proof {
                assert(text@ =~= self@.1 + "\n"@);
            }
        } else {
            text.append(style.bold.as_str());
            text.append(style.color.as_str());
            text.append(self.label.as_str());
            text.append(":\n");
            text.append(style.reset.as_str());
            text.append(self.address.as_str());
            text.append("\n");
            proof {
                assert(text@ =~= style@.0 + style@.1 + self@.0 + ":\n"@ + style@.2 + self@.1
                    + "\n"@);
            }
        }
        text
    }
}

/// Writes a list of hints out, in its order.
pub fn render_hints(hints: &Vec<Hint>, clean: bool, style: &LabelStyle) -> (text: String)
    ensures
        text@ == hints_text(hint_views(hints@), clean, style@),
{
    let mut text = String::new();
    let mut at: usize = 0;
    proof {
        assert(hint_views(hints@.take(0)) =~= Seq::empty());
        assert(hint_views(hints@.take(0)).map_values(as_text(clean, style@)) =~= Seq::empty());
    }
    while at < hints.len()
        invariant
            at <= hints.len(),
            text@ == hints_text(hint_views(hints@.take(at as int)), clean, style@),
        decreases hints.len() - at,
    {
        let hint = &hints[at];
        let piece = hint.render(clean, style);
        proof {
            let done = hint_views(hints@.take(at as int));
            assert(hint_views(hints@.take(at + 1)) =~= done.push(hint@));
            done.lemma_push_map_commute(as_text(clean, style@), hint@);
            done.map_values(as_text(clean, style@)).lemma_flatten_push(piece@);
        }
        text.append(piece.as_str());
        at += 1;
    }
    proof {
        assert(hints@.take(at as int) =~= hints@);
    }
    text
}

/// `serde_json::from_str` to a `serde_json::Value`, read through
/// `Value::as_object`, `Map::iter` and `Value::as_str`. The outcome depends on
/// the text alone and is named `json_reading`: an error where the reader
/// rejects the text, `None` where the document is no object, else one entry
/// for each entry of the object. The object is a map, so no key comes twice.
#[verifier::external_body]
fn read_object(text: &str) -> (reading: Result<Option<Vec<Entry>>, serde_json::Error>)
    ensures
        match reading {
            Ok(Some(entries)) => json_reading(text@) == Some(Some(entry_views(entries@)))
                && distinct_labels(entry_views(entries@)),
            Ok(None) => json_reading(text@) == Some(None::<Seq<(Seq<char>, Option<Seq<char>>)>>),
            Err(_) => json_reading(text@) is None,
        },
{
    let document = serde_json::from_str::<serde_json::Value>(text)?;
    Ok(document.as_object().map(|object| {
        object.iter().map(|(key, value)| Entry {
            label: key.clone(),
            value: value.as_str().map(String::from),
        }).collect()
    }))
}

/// The `Debug` form of a `serde_json::Error`, for a diagnostic. Nothing is
/// claimed of the text.
#[verifier::external_body]
fn describe(error: &serde_json::Error) -> (account: String) {
    format!("{:?}", error)
}

/// Reads a hints document. Succeeds exactly on a JSON object, and then no
/// label stands twice among the entries.
pub fn parse_hints(text: &str) -> (parsed: Result<Vec<Entry>, HintsError>)
    ensures
        match parsed {
            Ok(entries) => json_reading(text@) == Some(Some(entry_views(entries@)))
                && distinct_labels(entry_views(entries@)),
            Err(HintsError::NotAnObject) => json_reading(text@) == Some(
                None::<Seq<(Seq<char>, Option<Seq<char>>)>>,
            ),
            Err(HintsError::Malformed(_)) => json_reading(text@) is None,
        },
{
    match read_object(text) {
        Ok(Some(entries)) => Ok(entries),
        Ok(None) => Err(HintsError::NotAnObject),
        Err(error) => Err(HintsError::Malformed(describe(&error))),
    }
}

/// Selects the hints that `pattern` finds among `entries`.
pub fn select_hints(entries: &Vec<Entry>, pattern: &str) -> (found: Vec<Hint>)
    ensures
        hint_views(found@) == matching_hints(entry_views(entries@), pattern@),
{
    let mut found: Vec<Hint> = Vec::new();
    let mut at: usize = 0;
    proof {
        assert(entry_views(entries@.take(0)) =~= Seq::empty());
        assert(hint_views(found@) =~= Seq::empty());
        assert(Seq::<(Seq<char>, Option<Seq<char>>)>::empty().filter(found_by(pattern@))
            =~= Seq::empty()) by {
            reveal(Seq::filter);
        }
        assert(matching_hints(Seq::empty(), pattern@) =~= Seq::empty());
    }
    while at < entries.len()
        invariant
            at <= entries.len(),
            hint_views(found@) == matching_hints(entry_views(entries@.take(at as int)), pattern@),
        decreases entries.len() - at,
    {
        let entry = &entries[at];
        let ghost keep = found_by(pattern@);
        let ghost seen = entry_views(entries@.take(at as int));
        let ghost before = hint_views(found@);
        proof {
            assert(entry_views(entries@.take(at + 1)) =~= seen.push(entry@));
            seen.lemma_filter_push(entry@, keep);
        }
        if entry.matches(pattern) {
            let hint = entry.to_hint();
            found.push(hint);
            proof {
                assert(hint_views(found@) =~= before.push(hint@));
                seen.filter(keep).lemma_push_map_commute(as_hint(), entry@);
            }
        }
        at += 1;
    }
    proof {
        assert(entries@.take(at as int) =~= entries@);
    }
    found
}

/// Searches entries already read: what is written for the hints that the
/// pattern finds, in the entries' order.
pub fn search_entries(entries: &Vec<Entry>, config: &SearchHintsConfig, style: &LabelStyle) -> (text:
    String)
    ensures
        text@ == hints_text(
            matching_hints(entry_views(entries@), config.pattern@),
            config.clean,
            style@,
        ),
{
    let found = select_hints(entries, config.pattern.as_str());
    render_hints(&found, config.clean, style)
}

/// What a search of a hints document writes, for a given style.
pub open spec fn search_text(
    document: Seq<char>,
    pattern: Seq<char>,
    clean: bool,
    style: (Seq<char>, Seq<char>, Seq<char>),
) -> Seq<char>
    recommends
        json_reading(document) matches Some(Some(_)),
{
    hints_text(matching_hints(json_reading(document).unwrap().unwrap(), pattern), clean, style)
}

/// Searches a hints document for the terminal the process writes to. Fails
/// exactly where the document is no JSON object; otherwise gives what a
/// search writes in the terminal's style, which is the colored or the plain
/// one.
pub fn search_hints(document: &str, config: &SearchHintsConfig) -> (written: Result<
    String,
    HintsError,
>)
    ensures
        match written {
            Ok(text) => json_reading(document@) matches Some(Some(_)) && (text@ == search_text(
                document@,
                config.pattern@,
                config.clean,
                colored_style(),
            ) || text@ == search_text(document@, config.pattern@, config.clean, plain_style())),
            Err(HintsError::NotAnObject) => json_reading(document@) == Some(
                None::<Seq<(Seq<char>, Option<Seq<char>>)>>,
            ),
            Err(HintsError::Malformed(_)) => json_reading(document@) is None,
        },
{
    match parse_hints(document) {
        Ok(entries) => {
            let style = LabelStyle::terminal();
            Ok(search_entries(&entries, config, &style))
        },
        Err(error) => Err(error),
    }
}

/// A search finds nothing among entries of which no label matches, and then
/// writes nothing, in either mode.
pub proof fn lemma_no_match_writes_nothing(
    entries: Seq<(Seq<char>, Option<Seq<char>>)>,
    pattern: Seq<char>,
    clean: bool,
    style: (Seq<char>, Seq<char>, Seq<char>),
)
    requires
        forall|i: int| 0 <= i < entries.len() ==> !label_matches((#[trigger] entries[i]).0, pattern),
    ensures
        matching_hints(entries, pattern) == Seq::<(Seq<char>, Seq<char>)>::empty(),
        hints_text(matching_hints(entries, pattern), clean, style) == Seq::<char>::empty(),
    decreases entries.len(),
{
    let keep = found_by(pattern);
    if entries.len() == 0 {
        assert(entries.filter(keep) =~= Seq::empty()) by {
            reveal(Seq::filter);
        }
    } else {
        let rest = entries.drop_last();
        assert forall|i: int| 0 <= i < rest.len() implies !label_matches(
            (#[trigger] rest[i]).0,
            pattern,
        ) by {
            assert(rest[i] == entries[i]);
        }
        lemma_no_match_writes_nothing(rest, pattern, clean, style);
        assert(rest.filter(keep).map_values(as_hint()).len() == 0);
        assert(rest.push(entries.last()) =~= entries);
        rest.lemma_filter_push(entries.last(), keep);
        assert(entries.filter(keep) =~= Seq::empty());
    }
    assert(matching_hints(entries, pattern) =~= Seq::empty());
    assert(Seq::<(Seq<char>, Seq<char>)>::empty().map_values(as_text(clean, style)) =~= Seq::<
        Seq<char>,
    >::empty());
}

/// A hint is found exactly when some entry whose label matches gives it.
pub proof fn lemma_found_iff_matching_entry(
    entries: Seq<(Seq<char>, Option<Seq<char>>)>,
    pattern: Seq<char>,
    hint: (Seq<char>, Seq<char>),
)
    ensures
        matching_hints(entries, pattern).contains(hint) <==> exists|i: int|
            0 <= i < entries.len() && label_matches((#[trigger] entries[i]).0, pattern) && hint_of(
                entries[i],
            ) == hint,
{
    let keep = found_by(pattern);
    let kept = entries.filter(keep);
    let found = matching_hints(entries, pattern);
    if found.contains(hint) {
        let at = choose|at: int| 0 <= at < found.len() && found[at] == hint;
        entries.lemma_filter_pred(keep, at);
        assert(kept.contains(kept[at]));
        entries.lemma_filter_contains_rev(keep, kept[at]);
        let i = choose|i: int| 0 <= i < entries.len() && entries[i] == kept[at];
        assert(label_matches(entries[i].0, pattern) && hint_of(entries[i]) == hint);
    }
    if exists|i: int|
        0 <= i < entries.len() && label_matches((#[trigger] entries[i]).0, pattern) && hint_of(
            entries[i],
        ) == hint {
        let i = choose|i: int|
            0 <= i < entries.len() && label_matches((#[trigger] entries[i]).0, pattern) && hint_of(
                entries[i],
            ) == hint;
        entries.lemma_filter_contains(keep, i);
        let at = choose|at: int| 0 <= at < kept.len() && kept[at] == entries[i];
        assert(found[at] == hint);
    }
}

/// In clean mode only the addresses are written: lists of hints with the
/// same addresses give the same text, whatever their labels and the style.
pub proof fn lemma_clean_text_holds_addresses_only(
    left: Seq<(Seq<char>, Seq<char>)>,
    right: Seq<(Seq<char>, Seq<char>)>,
    left_style: (Seq<char>, Seq<char>, Seq<char>),
    right_style: (Seq<char>, Seq<char>, Seq<char>),
)
    requires
        left.len() == right.len(),
        forall|i: int| 0 <= i < left.len() ==> (#[trigger] left[i]).1 == right[i].1,
    ensures
        hints_text(left, true, left_style) == hints_text(right, true, right_style),
{
    assert(left.map_values(as_text(true, left_style)) =~= right.map_values(
        as_text(true, right_style),
    ));
}

/// Among entries with distinct labels, no label is found twice.
pub proof fn lemma_found_labels_distinct(
    entries: Seq<(Seq<char>, Option<Seq<char>>)>,
    pattern: Seq<char>,
)
    requires
        distinct_labels(entries),
    ensures
        distinct_hint_labels(matching_hints(entries, pattern)),
    decreases entries.len(),
{
    let keep = found_by(pattern);
    if entries.len() == 0 {
        assert(entries.filter(keep) =~= Seq::empty()) by {
            reveal(Seq::filter);
        }
    } else {
        let rest = entries.drop_last();
        let last = entries.last();
        assert(distinct_labels(rest)) by {
            assert forall|i: int, j: int| 0 <= i < j < rest.len() implies (#[trigger] rest[i]).0
                != (#[trigger] rest[j]).0 by {
                assert(rest[i] == entries[i] && rest[j] == entries[j]);
            }
        }
        lemma_found_labels_distinct(rest, pattern);
        assert(rest.push(last) =~= entries);
        rest.lemma_filter_push(last, keep);
        if keep(last) {
            let before = matching_hints(rest, pattern);
            rest.filter(keep).lemma_push_map_commute(as_hint(), last);
            assert(matching_hints(entries, pattern) =~= before.push(hint_of(last)));
            assert forall|i: int| 0 <= i < before.len() implies (#[trigger] before[i]).0
                != last.0 by {
                assert(before.contains(before[i]));
                lemma_found_iff_matching_entry(rest, pattern, before[i]);
                let k = choose|k: int|
                    0 <= k < rest.len() && label_matches((#[trigger] rest[k]).0, pattern)
                        && hint_of(rest[k]) == before[i];
                assert(rest[k] == entries[k]);
                assert(entries[k].0 != entries[entries.len() - 1].0);
            }
        }
    }
}

} // verus!
