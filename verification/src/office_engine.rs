//! What the document service reads of the engine's JSON replies, and the batch commands it
//! sends: the replies are checked here once the caller has decoded their fields, and the
//! whitelisted edit operations are translated here into engine commands.
use vstd::prelude::*;

use crate::domain::office::{operation_format, OfficeDocumentFormat, OfficeDocumentOperation};
use crate::office_service::{OfficeRuntimeError, OfficeRuntimeErrorKind};
use crate::plugin_validation::{semver_accepts, spec_semver_accepts};
use crate::task_id::{append_padded_decimal, padded_decimal};
use crate::text::{chars_of, is_whitespace, is_whitespace_char, str_eq};
use vstd::string::*;

verus! {

/// The largest batch argument the engine's command line accepts, in UTF-16 code units.
pub const MAX_BATCH_ARGUMENT_UTF16: usize = 24_000;

/// The marker the engine prints when it started a resident session of its own.
pub const RESIDENT_STARTED_MARKER: &'static str = "(resident started)";

/// The kind of a JSON value, or its absence.
#[derive(Debug, Clone, Copy, PartialEq, Eq, Structural)]
pub enum JsonKind {
    Missing,
    Null,
    Bool,
    Number,
    Text,
    Array,
    Object,
}

/// A reply's `success` flag decides it: `true` succeeds, `false` is a failed command, and a
/// missing or non-boolean flag is invalid data.
pub fn validate_success_envelope(success: Option<bool>) -> (r: Result<(), OfficeRuntimeError>)
    ensures
        match success {
            Some(true) => r is Ok,
            Some(false) => r matches Err(e) && e.spec_kind() == OfficeRuntimeErrorKind::NonZeroExit,
            None => r matches Err(e) && e.spec_kind() == OfficeRuntimeErrorKind::InvalidJson,
        },
{
    match success {
        Some(true) => Ok(()),
        Some(false) => Err(OfficeRuntimeError::new(OfficeRuntimeErrorKind::NonZeroExit)),
        None => Err(OfficeRuntimeError::new(OfficeRuntimeErrorKind::InvalidJson)),
    }
}

/// A successful reply's `data` is usable only as an object or an array.
pub fn check_success_data(success: Option<bool>, data: JsonKind) -> (r: Result<
    (),
    OfficeRuntimeError,
>)
    ensures
        success != Some(true) ==> r is Err,
        success == Some(true) ==> (r is Ok <==> (data == JsonKind::Object || data
            == JsonKind::Array)),
        success == Some(true) && r is Err ==> r->Err_0.spec_kind() == OfficeRuntimeErrorKind::InvalidJson,
{
    validate_success_envelope(success)?;
    match data {
        JsonKind::Object | JsonKind::Array => Ok(()),
        _ => Err(OfficeRuntimeError::new(OfficeRuntimeErrorKind::InvalidJson)),
    }
}

/// One entry of a batch reply's `results`, with the fields the check reads (absent when
/// missing or of another type).
#[derive(Debug, Clone, Copy, PartialEq, Eq, Structural)]
pub struct BatchResultEntry {
    pub index: Option<u64>,
    pub success: Option<bool>,
}

/// A batch reply's `summary` counts (absent when missing or not unsigned integers).
#[derive(Debug, Clone, Copy, PartialEq, Eq, Structural)]
pub struct BatchSummary {
    pub total: Option<u64>,
    pub executed: Option<u64>,
    pub succeeded: Option<u64>,
    pub failed: Option<u64>,
    pub skipped: Option<u64>,
}

/// What the check reads of a batch reply: its `success` flag, whether `data` is an object,
/// and `data.results` (when an array) and `data.summary` (when an object).
#[derive(Debug)]
pub struct BatchEnvelope {
    pub success: Option<bool>,
    pub data_is_object: bool,
    pub results: Option<Vec<BatchResultEntry>>,
    pub summary: Option<BatchSummary>,
}

/// Every one of `count` operations ran and succeeded, in order, and the summary agrees.
pub open spec fn batch_fully_succeeded(envelope: BatchEnvelope, count: nat) -> bool {
    &&& envelope.data_is_object
    &&& envelope.results matches Some(results) && {
        &&& results@.len() == count
        &&& forall|i: int|
            0 <= i < results@.len() ==> (#[trigger] results@[i]).index == Some(i as u64)
                && results@[i].success == Some(true)
    }
    &&& envelope.summary matches Some(summary) && {
        &&& summary.total == Some(count as u64)
        &&& summary.executed == Some(count as u64)
        &&& summary.succeeded == Some(count as u64)
        &&& summary.failed == Some(0u64)
        &&& summary.skipped == Some(0u64)
    }
}

/// A batch succeeded only when the reply says so for every operation, in order.
pub fn validate_batch_envelope(envelope: &BatchEnvelope, expected_count: usize) -> (r: Result<
    (),
    OfficeRuntimeError,
>)
    ensures
        envelope.success != Some(true) ==> r is Err,
        envelope.success == Some(true) ==> (r is Ok <==> batch_fully_succeeded(
            *envelope,
            expected_count as nat,
        )),
        envelope.success == Some(true) && r is Err ==> r->Err_0.spec_kind()
            == OfficeRuntimeErrorKind::InvalidJson,
{
    validate_success_envelope(envelope.success)?;
    let invalid = OfficeRuntimeError::new(OfficeRuntimeErrorKind::InvalidJson);
    if !envelope.data_is_object {
        return Err(invalid);
    }
    let results = match &envelope.results {
        Some(results) => results,
        None => {
            return Err(invalid);
        },
    };
    let summary = match envelope.summary {
        Some(summary) => summary,
        None => {
            return Err(invalid);
        },
    };
    let count = expected_count as u64;
    let summary_matches = summary.total == Some(count) && summary.executed == Some(count)
        && summary.succeeded == Some(count) && summary.failed == Some(0u64) && summary.skipped
        == Some(0u64);
    if !summary_matches || results.len() != expected_count {
        return Err(invalid);
    }
    let mut i: usize = 0;
    while i < results.len()
        invariant
            0 <= i <= results@.len(),
            results@.len() == expected_count,
            envelope.results == Some(*results),
            forall|k: int|
                0 <= k < i ==> (#[trigger] results@[k]).index == Some(k as u64) && results@[k].success
                    == Some(true),
        decreases results@.len() - i,
    {
        let entry = results[i];
        if entry.index != Some(i as u64) || entry.success != Some(true) {
            assert(results@[i as int] == entry);
            return Err(OfficeRuntimeError::new(OfficeRuntimeErrorKind::InvalidJson));
        }
        i = i + 1;
    }
    Ok(())
}

/// An escaped batch argument longer than the command line allows is refused before the engine
/// starts.
pub fn check_batch_argument(utf16_units: usize) -> (r: Result<(), OfficeRuntimeError>)
    ensures
        r is Ok <==> utf16_units <= MAX_BATCH_ARGUMENT_UTF16,
        r matches Err(e) ==> e.spec_kind() == OfficeRuntimeErrorKind::OutputLimit,
{
    if utf16_units > MAX_BATCH_ARGUMENT_UTF16 {
        return Err(OfficeRuntimeError::new(OfficeRuntimeErrorKind::OutputLimit));
    }
    Ok(())
}

/// A failed engine process either exited with a code or was stopped by a signal.
pub fn exit_failure_kind(has_exit_code: bool) -> (r: OfficeRuntimeErrorKind)
    ensures
        r == if has_exit_code {
            OfficeRuntimeErrorKind::NonZeroExit
        } else {
            OfficeRuntimeErrorKind::Crashed
        },
{
    if has_exit_code {
        OfficeRuntimeErrorKind::NonZeroExit
    } else {
        OfficeRuntimeErrorKind::Crashed
    }
}

/// The element an inspection starts from, for each format.
pub open spec fn inspect_root_of(format: OfficeDocumentFormat) -> Seq<char> {
    match format {
        OfficeDocumentFormat::Word => "/body"@,
        OfficeDocumentFormat::Spreadsheet => "/Sheet1"@,
        OfficeDocumentFormat::Presentation => "/"@,
    }
}

pub fn inspect_root(format: OfficeDocumentFormat) -> (r: &'static str)
    ensures
        r@ == inspect_root_of(format),
{
    match format {
        OfficeDocumentFormat::Word => "/body",
        OfficeDocumentFormat::Spreadsheet => "/Sheet1",
        OfficeDocumentFormat::Presentation => "/",
    }
}

/// Whether `needle` occurs in `haystack`.
pub open spec fn occurs_in(haystack: Seq<char>, needle: Seq<char>) -> bool {
    exists|i: int|
        0 <= i && i + needle.len() <= haystack.len() && #[trigger] haystack.subrange(
            i,
            i + needle.len(),
        ) == needle
}

fn matches_at(haystack: &Vec<char>, needle: &Vec<char>, at: usize) -> (r: bool)
    requires
        at + needle@.len() <= haystack@.len(),
    ensures
        r == (haystack@.subrange(at as int, at + needle@.len()) == needle@),
{
    let haystack_len = haystack.len();
    let mut k: usize = 0;
    while k < needle.len()
        invariant
            haystack_len == haystack@.len(),
            at + needle@.len() <= haystack@.len(),
            0 <= k <= needle@.len(),
            forall|j: int| 0 <= j < k ==> haystack@[at + j] == needle@[j],
        decreases needle@.len() - k,
    {
        if haystack[at + k] != needle[k] {
            proof {
                let window = haystack@.subrange(at as int, at + needle@.len());
                assert(window[k as int] == haystack@[at + k]);
            }
            return false;
        }
        k = k + 1;
    }
    assert(haystack@.subrange(at as int, at + needle@.len()) =~= needle@);
    true
}

/// Whether the engine's reply text says it started a resident session, which the service
/// then owns and must close.
pub fn reports_resident_started(reply: &str) -> (r: bool)
    ensures
        r == occurs_in(reply@, RESIDENT_STARTED_MARKER@),
{
    proof {
        reveal_strlit("(resident started)");
    }
    let haystack = chars_of(reply);
    let needle = chars_of(RESIDENT_STARTED_MARKER);
    let n = needle.len();
    let total = haystack.len();
    if n > total {
        proof {
            assert forall|j: int| 0 <= j && j + n <= reply@.len() implies #[trigger] reply@.subrange(
                j,
                j + n,
            ) != needle@ by {}
        }
        return false;
    }
    let last = total - n;
    let mut i: usize = 0;
    while i <= last
        invariant
            haystack@ == reply@,
            needle@ == RESIDENT_STARTED_MARKER@,
            n == needle@.len(),
            n > 0,
            total == haystack@.len(),
            last == total - n,
            0 <= i <= last + 1,
            forall|j: int|
                0 <= j < i ==> #[trigger] haystack@.subrange(j, j + n) != needle@,
        decreases last + 1 - i,
    {
        if matches_at(&haystack, &needle, i) {
            return true;
        }
        i = i + 1;
    }
    false
}

/// One property of a batch command: a name and its text value.
#[derive(Debug, PartialEq, Eq)]
pub struct CommandProp {
    pub name: String,
    pub value: String,
}

/// An engine batch command: `add` under a parent element, or `set` at a path.
#[derive(Debug, PartialEq, Eq)]
pub enum BatchCommand {
    Add { parent: String, element: String, props: Vec<CommandProp> },
    SetValue { path: String, props: Vec<CommandProp> },
}

/// The properties as name and value texts.
pub open spec fn props_view(props: Seq<CommandProp>) -> Seq<(Seq<char>, Seq<char>)> {
    props.map_values(|prop: CommandProp| (prop.name@, prop.value@))
}

/// The engine command each whitelisted operation becomes, as texts: the command, its parent
/// or path, the element type (empty for `set`) and the properties.
pub open spec fn command_for(operation: OfficeDocumentOperation) -> (
    Seq<char>,
    Seq<char>,
    Seq<char>,
    Seq<(Seq<char>, Seq<char>)>,
) {
    match operation {
        OfficeDocumentOperation::AddWordParagraph { text } => (
            "add"@,
            "/body"@,
            "paragraph"@,
            seq![("text"@, text@)],
        ),
        OfficeDocumentOperation::SetSpreadsheetCell { cell, value } => (
            "set"@,
            "/Sheet1/"@ + cell@,
            Seq::empty(),
            seq![("value"@, value@)],
        ),
        OfficeDocumentOperation::AddPresentationSlide { title } => (
            "add"@,
            "/"@,
            "slide"@,
            seq![("title"@, title@)],
        ),
        OfficeDocumentOperation::AddPresentationText { slide, text } => (
            "add"@,
            "/slide["@ + padded_decimal(slide as nat, 1) + "]"@,
            "shape"@,
            seq![
                ("text"@, text@),
                ("x"@, "2cm"@),
                ("y"@, "4cm"@),
                ("width"@, "20cm"@),
                ("height"@, "2cm"@),
            ],
        ),
    }
}

/// A command as texts, in the shape of `command_for`.
pub open spec fn command_view(command: BatchCommand) -> (
    Seq<char>,
    Seq<char>,
    Seq<char>,
    Seq<(Seq<char>, Seq<char>)>,
) {
    match command {
        BatchCommand::Add { parent, element, props } => (
            "add"@,
            parent@,
            element@,
            props_view(props@),
        ),
        BatchCommand::SetValue { path, props } => ("set"@, path@, Seq::empty(), props_view(props@)),
    }
}

fn prop(name: &str, value: &str) -> (r: CommandProp)
    ensures
        r.name@ == name@,
        r.value@ == value@,
{
    CommandProp { name: name.to_owned(), value: value.to_owned() }
}

/// The engine command of one whitelisted operation.
pub fn batch_command(operation: &OfficeDocumentOperation) -> (r: BatchCommand)
    ensures
        command_view(r) == command_for(*operation),
{
    match operation {
        OfficeDocumentOperation::AddWordParagraph { text } => {
            let props = vec![prop("text", text.as_str())];
            let r = BatchCommand::Add {
                parent: "/body".to_owned(),
                element: "paragraph".to_owned(),
                props,
            };
            assert(props_view(props@) =~= seq![("text"@, text@)]);
            r
        },
        OfficeDocumentOperation::SetSpreadsheetCell { cell, value } => {
            let mut path = String::from_str("/Sheet1/");
            path.append(cell.as_str());
            let props = vec![prop("value", value.as_str())];
            assert(props_view(props@) =~= seq![("value"@, value@)]);
            BatchCommand::SetValue { path, props }
        },
        OfficeDocumentOperation::AddPresentationSlide { title } => {
            let props = vec![prop("title", title.as_str())];
            assert(props_view(props@) =~= seq![("title"@, title@)]);
            BatchCommand::Add { parent: "/".to_owned(), element: "slide".to_owned(), props }
        },
        OfficeDocumentOperation::AddPresentationText { slide, text } => {
            let mut parent = String::from_str("/slide[");
            append_padded_decimal(&mut parent, *slide as u64, 1);
            parent.append("]");
            let props = vec![
                prop("text", text.as_str()),
                prop("x", "2cm"),
                prop("y", "4cm"),
                prop("width", "20cm"),
                prop("height", "2cm"),
            ];
            assert(props_view(props@) =~= seq![
                ("text"@, text@),
                ("x"@, "2cm"@),
                ("y"@, "4cm"@),
                ("width"@, "20cm"@),
                ("height"@, "2cm"@),
            ]);
            BatchCommand::Add { parent, element: "shape".to_owned(), props }
        },
    }
}

/// The engine commands of a batch, one per operation, in order.
pub fn batch_commands(operations: &[OfficeDocumentOperation]) -> (r: Vec<BatchCommand>)
    ensures
        r@.len() == operations@.len(),
        forall|i: int|
            0 <= i < operations@.len() ==> command_view(#[trigger] r@[i]) == command_for(
                operations@[i],
            ),
{
    let mut commands: Vec<BatchCommand> = Vec::new();
    let mut i: usize = 0;
    while i < operations.len()
        invariant
            0 <= i <= operations@.len(),
            commands@.len() == i,
            forall|k: int|
                0 <= k < i ==> command_view(#[trigger] commands@[k]) == command_for(operations@[k]),
        decreases operations@.len() - i,
    {
        commands.push(batch_command(&operations[i]));
        i = i + 1;
    }
    commands
}

/// The user's text reaches the engine unchanged: a paragraph is added under `/body` with a
/// single `text` property holding the paragraph's text; a cell is set at `/Sheet1/` followed by
/// the cell's name, with a single `value` property holding the value; a slide is added under
/// `/` with a single `title` property holding the title; and a text shape's first property is
/// `text`, holding the text.
pub proof fn lemma_command_carries_operation_text(
    operation: OfficeDocumentOperation,
    command: BatchCommand,
)
    requires
        command_view(command) == command_for(operation),
    ensures
        (match operation {
            OfficeDocumentOperation::AddWordParagraph { text } => match command {
                BatchCommand::Add { parent, element, props } => parent@ == "/body"@
                    && element@ == "paragraph"@ && props@.len() == 1 && props@[0].name@
                    == "text"@ && props@[0].value@ == text@,
                BatchCommand::SetValue { .. } => false,
            },
            OfficeDocumentOperation::SetSpreadsheetCell { cell, value } => match command {
                BatchCommand::SetValue { path, props } => path@ == "/Sheet1/"@ + cell@
                    && props@.len() == 1 && props@[0].name@ == "value"@ && props@[0].value@
                    == value@,
                BatchCommand::Add { .. } => false,
            },
            OfficeDocumentOperation::AddPresentationSlide { title } => match command {
                BatchCommand::Add { parent, element, props } => parent@ == "/"@ && element@
                    == "slide"@ && props@.len() == 1 && props@[0].name@ == "title"@
                    && props@[0].value@ == title@,
                BatchCommand::SetValue { .. } => false,
            },
            OfficeDocumentOperation::AddPresentationText { text, .. } => match command {
                BatchCommand::Add { element, props, .. } => element@ == "shape"@
                    && props@.len() >= 1 && props@[0].name@ == "text"@ && props@[0].value@
                    == text@,
                BatchCommand::SetValue { .. } => false,
            },
        }),
{
    reveal_strlit("add");
    reveal_strlit("set");
    assert("add"@[0] != "set"@[0]);
    let wanted = command_for(operation).3;
    match command {
        BatchCommand::Add { props, .. } => {
            assert(props_view(props@) == wanted);
            assert(props_view(props@).len() == props@.len());
            if props@.len() > 0 {
                assert(props_view(props@)[0] == (props@[0].name@, props@[0].value@));
                assert(wanted[0] == (props@[0].name@, props@[0].value@));
            }
        },
        BatchCommand::SetValue { props, .. } => {
            assert(props_view(props@) == wanted);
            assert(props_view(props@).len() == props@.len());
            if props@.len() > 0 {
                assert(props_view(props@)[0] == (props@[0].name@, props@[0].value@));
                assert(wanted[0] == (props@[0].name@, props@[0].value@));
            }
        },
    }
}

/// Inspection starts at `/body` in a Word document, at `/Sheet1` in a spreadsheet and at `/` in
/// a presentation.
pub proof fn lemma_inspect_root_names(format: OfficeDocumentFormat, root: Seq<char>)
    requires
        root == inspect_root_of(format),
    ensures
        format is Word ==> root == "/body"@,
        format is Spreadsheet ==> root == "/Sheet1"@,
        format is Presentation ==> root == "/"@,
{
}

/// Paragraphs and slides are added under the element that an inspection of their document
/// starts from.
pub proof fn lemma_content_added_under_inspect_root(operation: OfficeDocumentOperation)
    requires
        operation is AddWordParagraph || operation is AddPresentationSlide,
    ensures
        command_for(operation).1 == inspect_root_of(operation_format(operation)),
{
}

// ---- the engine's version ----

/// The index just after the run of non-whitespace characters of `s` that starts at `i`.
pub open spec fn word_end(s: Seq<char>, i: int) -> int
    decreases s.len() - i,
{
    if 0 <= i < s.len() && !is_whitespace_char(s[i]) {
        word_end(s, i + 1)
    } else {
        i
    }
}

/// A word ends between its start and the end of the text, past its first character.
pub proof fn lemma_word_end_bounds(s: Seq<char>, i: int)
    requires
        0 <= i <= s.len(),
    ensures
        i <= word_end(s, i) <= s.len(),
        i < s.len() && !is_whitespace_char(s[i]) ==> word_end(s, i) > i,
    decreases s.len() - i,
{
    if i < s.len() && !is_whitespace_char(s[i]) {
        lemma_word_end_bounds(s, i + 1);
    }
}

/// `t` without its leading `v` characters.
pub open spec fn without_leading_v(t: Seq<char>) -> Seq<char>
    decreases t.len(),
{
    if t.len() > 0 && t[0] == 'v' {
        without_leading_v(t.drop_first())
    } else {
        t
    }
}

/// The first whitespace-separated word of `s`, from index `i` on, that semver accepts once
/// its leading `v`s are dropped; the word is returned without them.
pub open spec fn first_version_from(s: Seq<char>, i: int) -> Option<Seq<char>>
    decreases s.len() - i,
{
    if i < 0 || i >= s.len() {
        None
    } else if is_whitespace_char(s[i]) {
        first_version_from(s, i + 1)
    } else {
        proof {
            lemma_word_end_bounds(s, i);
        }
        let word = without_leading_v(s.subrange(i, word_end(s, i)));
        if spec_semver_accepts(word) {
            Some(word)
        } else {
            first_version_from(s, word_end(s, i))
        }
    }
}

/// The version an engine's `--version` output reports.
pub open spec fn reported_version(output: Seq<char>) -> Option<Seq<char>> {
    first_version_from(output, 0)
}

fn find_word_end(chars: &Vec<char>, start: usize) -> (r: usize)
    requires
        start <= chars@.len(),
    ensures
        r as int == word_end(chars@, start as int),
        start <= r <= chars@.len(),
{
    let mut j = start;
    while j < chars.len() && !is_whitespace(chars[j])
        invariant
            start <= j <= chars@.len(),
            word_end(chars@, j as int) == word_end(chars@, start as int),
        decreases chars@.len() - j,
    {
        j = j + 1;
    }
    proof {
        lemma_word_end_bounds(chars@, start as int);
    }
    j
}

fn leading_v_count(chars: &Vec<char>, start: usize, end: usize) -> (r: usize)
    requires
        start <= end <= chars@.len(),
    ensures
        start <= r <= end,
        without_leading_v(chars@.subrange(start as int, end as int)) == chars@.subrange(
            r as int,
            end as int,
        ),
{
    let mut k = start;
    while k < end && chars[k] == 'v'
        invariant
            start <= k <= end <= chars@.len(),
            without_leading_v(chars@.subrange(start as int, end as int)) == without_leading_v(
                chars@.subrange(k as int, end as int),
            ),
        decreases end - k,
    {
        assert(chars@.subrange(k as int, end as int).drop_first() =~= chars@.subrange(
            k + 1,
            end as int,
        ));
        k = k + 1;
    }
    k
}

/// The version that the engine's `--version` output reports: its first whitespace-separated
/// word that semver accepts without its leading `v`s.
pub fn find_reported_version(output: &str) -> (r: Option<String>)
    ensures
        match r {
            Some(version) => reported_version(output@) == Some(version@),
            None => reported_version(output@) is None,
        },
{
    let chars = chars_of(output);
    let mut i: usize = 0;
    while i < chars.len()
        invariant
            chars@ == output@,
            0 <= i <= chars@.len(),
            first_version_from(output@, 0) == first_version_from(output@, i as int),
        decreases chars@.len() - i,
    {
        if is_whitespace(chars[i]) {
            i = i + 1;
        } else {
            let end = find_word_end(&chars, i);
            let first = leading_v_count(&chars, i, end);
            let word = output.substring_char(first, end);
            proof {
                lemma_word_end_bounds(output@, i as int);
            }
            if semver_accepts(word) {
                return Some(word.to_owned());
            }
            i = end;
        }
    }
    None
}

/// Whether the engine's `--version` output reports exactly the expected version. Semver texts
/// that parse are equal as versions exactly when they are equal as texts: numeric parts
/// refuse leading zeros and the other parts compare as text.
pub fn engine_version_matches(output: &str, expected: &str) -> (r: bool)
    ensures
        r == (reported_version(output@) == Some(expected@)),
{
    match find_reported_version(output) {
        Some(version) => str_eq(version.as_str(), expected),
        None => false,
    }
}

} // verus!
