//! The rules of the security audit: what is counted in the output of the
//! linter, of the advisory scanner and in source text, and how the counts
//! become a score.

use vstd::prelude::*;
use vstd::slice::slice_subrange;
use vstd::string::StringSliceAdditionalSpecFns;
use vstd::utf8::encode_utf8;

verus! {

/// `serde_json::Value`, a parsed JSON document, carried through without
/// looking inside.
#[verifier::external_type_specification]
#[verifier::external_body]
pub struct ExValue(serde_json::Value);

/// `serde_json::Map`, the members of a JSON object, carried through
/// without looking inside.
#[verifier::external_type_specification]
#[verifier::external_body]
#[verifier::reject_recursive_types(K)]
#[verifier::reject_recursive_types(V)]
pub struct ExMap<K, V>(serde_json::Map<K, V>);

/// A JSON document as a mathematical value. Numbers are not told apart.
pub enum Json {
    Null,
    Bool(bool),
    Number,
    Text(Seq<char>),
    Array(Seq<Json>),
    Object(Map<Seq<char>, Json>),
}

/// The document that a `serde_json::Value` holds.
pub uninterp spec fn json_of(value: serde_json::Value) -> Json;

/// The members that a `serde_json::Map` holds, by their keys.
pub uninterp spec fn entries_of(
    object: serde_json::Map<String, serde_json::Value>,
) -> Map<Seq<char>, Json>;

/// The document that `serde_json::from_slice` reads from `text`; none
/// where it reports an error.
pub uninterp spec fn json_document(text: Seq<u8>) -> Option<Json>;

/// `serde_json::from_slice` at the type `serde_json::Value`: reads `text`
/// as one JSON document, and answers none where it reports an error. What
/// it answers depends on the bytes alone.
#[verifier::external_body]
fn read_document(text: &[u8]) -> (r: Option<serde_json::Value>)
    ensures
        match r {
            Some(value) => json_document(text@) == Some(json_of(value)),
            None => json_document(text@).is_none(),
        },
{
    serde_json::from_slice::<serde_json::Value>(text).ok()
}

/// `serde_json::Value::get` with a string index: the member of an object
/// under `key`; none where the value is no object or has no such member.
#[verifier::external_body]
fn member<'a>(value: &'a serde_json::Value, key: &str) -> (r: Option<&'a serde_json::Value>)
    ensures
        match r {
            Some(found) => lookup(json_of(*value), key@) == Some(json_of(*found)),
            None => lookup(json_of(*value), key@).is_none(),
        },
{
    value.get(key)
}

/// `serde_json::Value::as_str`: the text of a string; none where the value
/// is no string.
#[verifier::external_body]
fn as_text<'a>(value: &'a serde_json::Value) -> (r: Option<&'a str>)
    ensures
        match r {
            Some(text) => json_of(*value) == Json::Text(text@),
            None => !(json_of(*value) is Text),
        },
{
    value.as_str()
}

/// `serde_json::Value::as_array`: the elements of an array, in order; none
/// where the value is no array.
#[verifier::external_body]
fn as_elements<'a>(value: &'a serde_json::Value) -> (r: Option<&'a Vec<serde_json::Value>>)
    ensures
        match r {
            Some(elements) => json_of(*value) is Array && json_of(*value)->Array_0.len()
                == elements@.len(),
            None => !(json_of(*value) is Array),
        },
{
    value.as_array()
}

/// `serde_json::Value::as_object`: the members of an object; none where
/// the value is no object.
#[verifier::external_body]
fn as_members<'a>(value: &'a serde_json::Value) -> (r: Option<
    &'a serde_json::Map<String, serde_json::Value>,
>)
    ensures
        match r {
            Some(members) => json_of(*value) == Json::Object(entries_of(*members)),
            None => !(json_of(*value) is Object),
        },
{
    value.as_object()
}

/// `serde_json::Map::len`: how many members an object has.
#[verifier::external_body]
fn member_count(members: &serde_json::Map<String, serde_json::Value>) -> (r: usize)
    ensures
        r == entries_of(*members).len(),
{
    members.len()
}

/// The member of an object under `key`; none where the document is no
/// object or has no such member.
pub open spec fn lookup(doc: Json, key: Seq<char>) -> Option<Json> {
    match doc {
        Json::Object(members) => if members.contains_key(key) {
            Some(members[key])
        } else {
            None
        },
        _ => None,
    }
}

/// The member under `key` of the document, if there is a document and it
/// has one.
pub open spec fn lookup_in(doc: Option<Json>, key: Seq<char>) -> Option<Json> {
    match doc {
        Some(doc) => lookup(doc, key),
        None => None,
    }
}

// ---- text ------------------------------------------------------------------

/// Whether `pattern` stands in `text` at position `at`.
pub open spec fn occurs_at(text: Seq<u8>, pattern: Seq<u8>, at: int) -> bool {
    0 <= at && at + pattern.len() <= text.len() && text.subrange(at, at + pattern.len())
        == pattern
}

/// Whether `pattern` stands somewhere in `text`.
pub open spec fn contains_bytes(text: Seq<u8>, pattern: Seq<u8>) -> bool {
    exists|at: int| occurs_at(text, pattern, at)
}

/// How often `pattern` stands in `text` from position `from` on, counting
/// from left to right and letting no two occurrences overlap. An empty
/// pattern is counted nowhere.
pub open spec fn occurrences(text: Seq<u8>, pattern: Seq<u8>, from: int) -> nat
    decreases text.len() - from,
{
    if pattern.len() == 0 || from < 0 || from + pattern.len() > text.len() {
        0
    } else if occurs_at(text, pattern, from) {
        1 + occurrences(text, pattern, from + pattern.len())
    } else {
        occurrences(text, pattern, from + 1)
    }
}

/// Whether `pattern` stands in `text` at position `at`.
pub fn matches_at(text: &[u8], pattern: &[u8], at: usize) -> (r: bool)
    requires
        at + pattern@.len() <= text@.len(),
    ensures
        r == occurs_at(text@, pattern@, at as int),
{
    let length = text.len();
    let mut k: usize = 0;
    while k < pattern.len()
        invariant
            k <= pattern.len(),
            length == text@.len(),
            at + pattern@.len() <= text@.len(),
            forall|j: int| 0 <= j < k ==> text@[at + j] == pattern@[j],
        decreases pattern.len() - k,
    {
        if text[at + k] != pattern[k] {
            assert(text@.subrange(at as int, at + pattern@.len())[k as int] != pattern@[k as int]);
            return false;
        }
        k += 1;
    }
    assert(text@.subrange(at as int, at + pattern@.len()) =~= pattern@);
    true
}

/// Whether `pattern` stands somewhere in `text`.
pub fn contains(text: &[u8], pattern: &[u8]) -> (r: bool)
    ensures
        r == contains_bytes(text@, pattern@),
{
    if pattern.len() > text.len() {
        return false;
    }
    if pattern.len() == 0 {
        assert(text@.subrange(0, 0) =~= pattern@);
        assert(occurs_at(text@, pattern@, 0));
        return true;
    }
    let limit: usize = text.len() - pattern.len() + 1;
    let mut at: usize = 0;
    while at < limit
        invariant
            limit == text@.len() - pattern@.len() + 1,
            at <= limit,
            forall|j: int| 0 <= j < at ==> !occurs_at(text@, pattern@, j),
        decreases limit - at,
    {
        if matches_at(text, pattern, at) {
            return true;
        }
        at += 1;
    }
    false
}

/// How often `pattern` stands in `text`, letting no two occurrences
/// overlap. The occurrences take up no more room than the text has.
pub fn count_occurrences(text: &[u8], pattern: &[u8]) -> (r: usize)
    ensures
        r == occurrences(text@, pattern@, 0),
        r * pattern@.len() <= text@.len(),
{
    if pattern.len() == 0 || pattern.len() > text.len() {
        return 0;
    }
    let length: usize = text.len();
    let width: usize = pattern.len();
    let mut count: usize = 0;
    let mut at: usize = 0;
    while length - at >= width
        invariant
            width == pattern@.len(),
            width > 0,
            length == text@.len(),
            at <= length,
            count * width <= at,
            occurrences(text@, pattern@, 0) == count + occurrences(text@, pattern@, at as int),
        decreases length - at,
    {
        if matches_at(text, pattern, at) {
            assert((count + 1) * width == count * width + width) by (nonlinear_arith);
            assert(count <= count * width) by (nonlinear_arith)
                requires
                    width > 0,
            ;
            count = count + 1;
            at = at + width;
        } else {
            at = at + 1;
        }
    }
    count
}

// ---- source text -------------------------------------------------------------

/// What the scan of one source file finds.
#[derive(Clone, Copy, Debug, PartialEq, Eq)]
pub struct SourceFindings {
    /// How often an unsafe block is opened.
    pub unsafe_blocks: usize,
    /// How many notes of work left to do the text holds.
    pub todos_found: usize,
}

/// What the scan of `content` finds: the occurrences of `unsafe {`, and
/// those of `TODO` and of `FIXME` together.
pub open spec fn source_findings(content: Seq<u8>) -> SourceFindings {
    SourceFindings {
        unsafe_blocks: occurrences(content, "unsafe {".spec_bytes(), 0) as usize,
        todos_found: (occurrences(content, "TODO".spec_bytes(), 0) + occurrences(
            content,
            "FIXME".spec_bytes(),
            0,
        )) as usize,
    }
}

/// Scans the text of one source file.
pub fn scan_source(content: &[u8]) -> (r: SourceFindings)
    ensures
        r == source_findings(content@),
{
    let todo = "TODO".as_bytes();
    let fixme = "FIXME".as_bytes();
    proof {
        reveal_strlit("TODO");
        reveal_strlit("FIXME");
        lemma_ascii_length("TODO");
        lemma_ascii_length("FIXME");
    }
    let length = content.len();
    let todos = count_occurrences(content, todo);
    let fixmes = count_occurrences(content, fixme);
    assert(todos + fixmes <= length) by (nonlinear_arith)
        requires
            todos * 4 <= length,
            fixmes * 5 <= length,
    ;
    SourceFindings {
        unsafe_blocks: count_occurrences(content, "unsafe {".as_bytes()),
        todos_found: todos + fixmes,
    }
}

/// A text of ASCII characters has as many bytes as characters.
proof fn lemma_ascii_length(text: &str)
    requires
        vstd::string::is_ascii(text),
    ensures
        text.spec_bytes().len() == text@.len(),
{
    vstd::string::is_ascii_spec_bytes(text);
}

// ---- the linter --------------------------------------------------------------

/// What one line of the linter's output reports.
#[derive(Clone, Copy, Debug, PartialEq, Eq, Structural)]
pub enum Diagnostic {
    /// A warning; `complexity` tells whether its code names complexity.
    Warning { complexity: bool },
    Error,
    /// Anything else, a line that is no JSON document included.
    Other,
}

/// The text under `key`, as bytes; none where the document has no text
/// there.
pub open spec fn text_at(doc: Option<Json>, key: Seq<char>) -> Option<Seq<u8>> {
    match lookup_in(doc, key) {
        Some(Json::Text(text)) => Some(encode_utf8(text)),
        _ => None,
    }
}

/// The code of a diagnostic: the text under `code` of the object under
/// `code` of the object under `message`.
pub open spec fn diagnostic_code(doc: Option<Json>) -> Option<Seq<u8>> {
    text_at(lookup_in(lookup_in(doc, "message"@), "code"@), "code"@)
}

/// What a line reports, given the document read from it: by its `level`
/// a warning or an error, anything else if the level is another or
/// missing. A warning is one of complexity if its code holds the word.
pub open spec fn diagnose(doc: Option<Json>) -> Diagnostic {
    match text_at(doc, "level"@) {
        Some(level) => if level == "warning".spec_bytes() {
            Diagnostic::Warning {
                complexity: match diagnostic_code(doc) {
                    Some(code) => contains_bytes(code, "complexity".spec_bytes()),
                    None => false,
                },
            }
        } else if level == "error".spec_bytes() {
            Diagnostic::Error
        } else {
            Diagnostic::Other
        },
        None => Diagnostic::Other,
    }
}

/// Whether two byte strings are the same.
fn same_bytes(a: &[u8], b: &[u8]) -> (r: bool)
    ensures
        r == (a@ == b@),
{
    if a.len() != b.len() {
        return false;
    }
    let r = matches_at(a, b, 0);
    assert(a@.subrange(0, b@.len() as int) =~= a@);
    r
}

/// The text of the member under `key`, if the value has one.
fn text_member<'a>(value: &'a serde_json::Value, key: &str) -> (r: Option<&'a str>)
    ensures
        match r {
            Some(text) => text_at(Some(json_of(*value)), key@) == Some(text.spec_bytes()),
            None => text_at(Some(json_of(*value)), key@).is_none(),
        },
{
    match member(value, key) {
        Some(found) => as_text(found),
        None => None,
    }
}

/// What a line of the linter's output reports, given the document read
/// from it.
pub fn diagnose_value(value: &serde_json::Value) -> (r: Diagnostic)
    ensures
        r == diagnose(Some(json_of(*value))),
{
    let level = match text_member(value, "level") {
        Some(level) => level,
        None => {
            return Diagnostic::Other;
        },
    };
    if same_bytes(level.as_bytes(), "warning".as_bytes()) {
        let code = match member(value, "message") {
            Some(message) => match member(message, "code") {
                Some(code) => text_member(code, "code"),
                None => None,
            },
            None => None,
        };
        let complexity = match code {
            Some(code) => contains(code.as_bytes(), "complexity".as_bytes()),
            None => false,
        };
        Diagnostic::Warning { complexity }
    } else if same_bytes(level.as_bytes(), "error".as_bytes()) {
        Diagnostic::Error
    } else {
        Diagnostic::Other
    }
}

/// What the linter's output amounts to.
#[derive(Clone, Copy, Debug, PartialEq, Eq)]
pub struct ClippyTally {
    pub warnings: usize,
    pub errors: usize,
    pub complexity_warnings: usize,
}

impl ClippyTally {
    /// The tally with one more diagnostic counted.
    pub open spec fn with(self, diagnostic: Diagnostic) -> ClippyTally {
        match diagnostic {
            Diagnostic::Warning { complexity } => ClippyTally {
                warnings: (self.warnings + 1) as usize,
                complexity_warnings: if complexity {
                    (self.complexity_warnings + 1) as usize
                } else {
                    self.complexity_warnings
                },
                ..self
            },
            Diagnostic::Error => ClippyTally { errors: (self.errors + 1) as usize, ..self },
            Diagnostic::Other => self,
        }
    }
}

/// The byte that ends a line.
pub const LINE_FEED: u8 = 10;

/// Where the line that starts at `from` ends: at the first line feed from
/// there on, or at the end of the text.
pub open spec fn line_end(text: Seq<u8>, from: int) -> int
    decreases text.len() - from,
{
    if from < 0 || from >= text.len() {
        text.len() as int
    } else if text[from] == LINE_FEED {
        from
    } else {
        line_end(text, from + 1)
    }
}

/// The tally of the lines of `text` from position `from` on, added to
/// `tally`. Each line, without its line feed, is read as one JSON
/// document.
pub open spec fn tallied(text: Seq<u8>, from: int, tally: ClippyTally) -> ClippyTally
    decreases text.len() - from,
{
    if from < 0 || from >= text.len() {
        tally
    } else {
        let end = line_end(text, from);
        if end < from || end > text.len() {
            tally
        } else {
            let counted = tally.with(diagnose(json_document(text.subrange(from, end))));
            if end == text.len() {
                counted
            } else {
                tallied(text, end + 1, counted)
            }
        }
    }
}

/// The line that starts at `from` ends at or after `from`, within the
/// text, at a line feed or at the end of the text, and holds no line feed.
pub proof fn law_line_end(text: Seq<u8>, from: int)
    requires
        0 <= from <= text.len(),
    ensures
        from <= line_end(text, from) <= text.len(),
        line_end(text, from) < text.len() ==> text[line_end(text, from)] == LINE_FEED,
        forall|i: int| from <= i < line_end(text, from) ==> text[i] != LINE_FEED,
    decreases text.len() - from,
{
    if from < text.len() && text[from] != LINE_FEED {
        law_line_end(text, from + 1);
    }
}

/// Counts the warnings, the errors and the warnings of complexity that
/// the linter's output reports, one JSON document to the line. Lines that
/// are no JSON document are passed over.
pub fn tally_clippy(output: &[u8]) -> (r: ClippyTally)
    ensures
        r == tallied(
            output@,
            0,
            (ClippyTally { warnings: 0, errors: 0, complexity_warnings: 0 }),
        ),
{
    let ghost zero = ClippyTally { warnings: 0, errors: 0, complexity_warnings: 0 };
    let length: usize = output.len();
    let mut tally = ClippyTally { warnings: 0, errors: 0, complexity_warnings: 0 };
    let mut from: usize = 0;
    while from < length
        invariant
            length == output@.len(),
            from <= length,
            from < length ==> tally.warnings + tally.errors <= from,
            tally.warnings + tally.errors <= length,
            tally.complexity_warnings <= tally.warnings,
            tallied(output@, 0, zero) == tallied(output@, from as int, tally),
        decreases length - from,
    {
        let mut end: usize = from;
        while end < length && output[end] != LINE_FEED
            invariant
                length == output@.len(),
                from <= end <= length,
                line_end(output@, from as int) == line_end(output@, end as int),
            decreases length - end,
        {
            end += 1;
        }
        proof {
            law_line_end(output@, from as int);
        }
        let diagnostic = match read_document(slice_subrange(output, from, end)) {
            Some(value) => diagnose_value(&value),
            None => Diagnostic::Other,
        };
        match diagnostic {
            Diagnostic::Warning { complexity } => {
                tally.warnings = tally.warnings + 1;
                if complexity {
                    tally.complexity_warnings = tally.complexity_warnings + 1;
                }
            },
            Diagnostic::Error => {
                tally.errors = tally.errors + 1;
            },
            Diagnostic::Other => {},
        }
        if end < length {
            from = end + 1;
        } else {
            from = length;
        }
    }
    tally
}

// ---- the advisory scanner ----------------------------------------------------

/// What the scan of the dependencies found.
#[derive(Clone, Copy, Debug, PartialEq, Eq)]
pub struct DependencyScanResults {
    pub vulnerabilities: usize,
    pub warnings: usize,
}

/// What the advisory scanner's report amounts to: as many vulnerabilities
/// as the array under `list` of the object under `vulnerabilities` has
/// elements, and as many warnings as the object under `warnings` has
/// members; none of either where the report has no such array or object.
pub open spec fn advisories(doc: Option<Json>) -> DependencyScanResults {
    DependencyScanResults {
        vulnerabilities: match lookup_in(lookup_in(doc, "vulnerabilities"@), "list"@) {
            Some(Json::Array(list)) => list.len() as usize,
            _ => 0,
        },
        warnings: match lookup_in(doc, "warnings"@) {
            Some(Json::Object(members)) => members.len() as usize,
            _ => 0,
        },
    }
}

/// What the advisory scanner's report amounts to, given the document read
/// from it.
pub fn count_advisories(report: &serde_json::Value) -> (r: DependencyScanResults)
    ensures
        r == advisories(Some(json_of(*report))),
{
    let vulnerabilities = match member(report, "vulnerabilities") {
        Some(found) => match member(found, "list") {
            Some(list) => match as_elements(list) {
                Some(elements) => elements.len(),
                None => 0,
            },
            None => 0,
        },
        None => 0,
    };
    let warnings = match member(report, "warnings") {
        Some(found) => match as_members(found) {
            Some(members) => member_count(members),
            None => 0,
        },
        None => 0,
    };
    DependencyScanResults { vulnerabilities, warnings }
}

/// Reads the advisory scanner's report, one JSON document, and counts
/// what it found; nothing where the report is no JSON document.
pub fn scan_advisories(output: &[u8]) -> (r: DependencyScanResults)
    ensures
        r == advisories(json_document(output@)),
{
    match read_document(output) {
        Some(report) => count_advisories(&report),
        None => DependencyScanResults { vulnerabilities: 0, warnings: 0 },
    }
}

// ---- the score -----------------------------------------------------------------

/// What the static analysis found.
#[derive(Clone, Copy, Debug, PartialEq, Eq)]
pub struct StaticAnalysisResults {
    pub clippy_warnings: usize,
    pub clippy_errors: usize,
    pub complexity_warnings: usize,
    pub unsafe_blocks: usize,
    pub todos_found: usize,
}

/// What is known of the quality of the code.
#[derive(Clone, Copy, Debug, PartialEq, Eq)]
pub struct CodeQualityResults {
    pub complexity_score: u32,
    pub files_scanned: usize,
}

/// What a finding costs: its count times its weight, of which the lowest
/// 32 bits are taken.
pub open spec fn penalty(count: usize, weight: usize) -> u32 {
    ((count * weight) as usize) as u32
}

/// `score` less `cost`, and zero where the cost exceeds the score.
pub open spec fn less(score: u32, cost: u32) -> u32 {
    if score >= cost {
        (score - cost) as u32
    } else {
        0
    }
}

/// Whether the cost of every finding can be computed: each count times
/// its weight must be representable.
pub open spec fn score_fits(analysis: StaticAnalysisResults, scan: DependencyScanResults) -> bool {
    &&& analysis.clippy_errors * 10 <= usize::MAX
    &&& analysis.clippy_warnings * 2 <= usize::MAX
    &&& analysis.complexity_warnings * 5 <= usize::MAX
    &&& analysis.unsafe_blocks * 5 <= usize::MAX
    &&& scan.vulnerabilities * 20 <= usize::MAX
}

/// The security score: 100, less 10 for each error of the linter, 2 for
/// each warning, 5 for each warning of complexity, 5 for each unsafe
/// block and 20 for each vulnerability, never below zero.
pub open spec fn security_score(
    analysis: StaticAnalysisResults,
    scan: DependencyScanResults,
) -> u32 {
    less(
        less(
            less(
                less(
                    less(100, penalty(analysis.clippy_errors, 10)),
                    penalty(analysis.clippy_warnings, 2),
                ),
                penalty(analysis.complexity_warnings, 5),
            ),
            penalty(analysis.unsafe_blocks, 5),
        ),
        penalty(scan.vulnerabilities, 20),
    )
}

fn cost(count: usize, weight: usize) -> (r: u32)
    requires
        count * weight <= usize::MAX,
    ensures
        r == penalty(count, weight),
{
    #[verifier::truncate]
    ((count * weight) as u32)
}

fn reduce(score: u32, cost: u32) -> (r: u32)
    ensures
        r == less(score, cost),
{
    if score >= cost {
        score - cost
    } else {
        0
    }
}

/// Whether the cost of every finding can be computed.
pub fn score_is_computable(analysis: &StaticAnalysisResults, scan: &DependencyScanResults) -> (r:
    bool)
    ensures
        r == score_fits(*analysis, *scan),
{
    analysis.clippy_errors <= usize::MAX / 10 && analysis.clippy_warnings <= usize::MAX / 2
        && analysis.complexity_warnings <= usize::MAX / 5 && analysis.unsafe_blocks <= usize::MAX
        / 5 && scan.vulnerabilities <= usize::MAX / 20
}

/// Computes the security score.
pub fn calculate_score(analysis: &StaticAnalysisResults, scan: &DependencyScanResults) -> (r: u32)
    requires
        score_fits(*analysis, *scan),
    ensures
        r == security_score(*analysis, *scan),
        r <= 100,
{
    let mut score: u32 = 100;
    score = reduce(score, cost(analysis.clippy_errors, 10));
    score = reduce(score, cost(analysis.clippy_warnings, 2));
    score = reduce(score, cost(analysis.complexity_warnings, 5));
    score = reduce(score, cost(analysis.unsafe_blocks, 5));
    score = reduce(score, cost(scan.vulnerabilities, 20));
    score
}

} // verus!
