//! Append-only JSONL sink for channel-switch perf traces.
//!
//! One JSON line per settled switch goes to a log file, so that builds can be
//! compared offline. Every line is stamped with the build's revision and, where
//! one is set, with the label of the run.

use vstd::prelude::*;
use vstd::utf8::*;

use crate::text::text_of;

verus! {

/// The name of the log file.
pub const PERF_LOG_FILENAME: &'static str = "switch-perf.jsonl";

/// What is put behind the name of the log file for its retained generation.
pub const RETAINED_SUFFIX: &'static str = ".1";

/// Defensive cap: one record is a small trace object; anything larger is a
/// caller bug and must not grow the log unbounded. Enforced on the input record
/// and again on the final line, so folded-in metadata can never defeat it.
pub const MAX_RECORD_BYTES: usize = 4 * 1024;

/// Upper bound on the run label, which an operator supplies. Truncating keeps a
/// mistyped label from dropping every trace of the whole run.
pub const MAX_LABEL_BYTES: usize = 128;

/// Rotation threshold. The sink is always on, so without a cap the log grows for
/// the life of the install; one retained generation preserves enough history.
pub const MAX_LOG_BYTES: u64 = 10 * 1024 * 1024;

/// How many bytes a text takes.
pub open spec fn byte_len(text: Seq<char>) -> nat {
    encode_utf8(text).len()
}

/// The longest beginning of the text that takes at most so many bytes.
pub open spec fn truncation(text: Seq<char>, max_bytes: nat) -> Seq<char>
    decreases text.len(),
{
    if byte_len(text) <= max_bytes || text.len() == 0 {
        text
    } else {
        truncation(text.drop_last(), max_bytes)
    }
}

/// The bytes of two texts in a row are those of the one, then those of the other.
proof fn lemma_encode_concat(a: Seq<char>, b: Seq<char>)
    ensures
        encode_utf8(a + b) == encode_utf8(a) + encode_utf8(b),
    decreases a.len(),
{
    if a.len() == 0 {
        assert(a + b =~= b);
        assert(encode_utf8(a) + encode_utf8(b) =~= encode_utf8(b));
    } else {
        assert((a + b).drop_first() =~= a.drop_first() + b);
        lemma_encode_concat(a.drop_first(), b);
        assert(encode_utf8(a + b) =~= encode_utf8(a) + encode_utf8(b));
    }
}

/// Every beginning of a text ends at a character boundary of its bytes.
proof fn lemma_prefix_ends_at_boundary(text: Seq<char>, n: int)
    requires
        0 <= n <= text.len(),
    ensures
        is_char_boundary(encode_utf8(text), byte_len(text.take(n)) as int),
    decreases n,
{
    let bytes = encode_utf8(text);
    encode_utf8_valid_utf8(text);
    if n == 0 {
        assert(text.take(0) =~= Seq::empty());
        is_char_boundary_start_end_of_seq(bytes);
    } else {
        let rest = text.drop_first();
        encode_utf8_first_scalar(text);
        assert(pop_first_scalar(bytes) =~= encode_utf8(rest));
        assert(text.take(n).drop_first() =~= rest.take(n - 1));
        assert(text.take(n)[0] == text[0]);
        lemma_prefix_ends_at_boundary(rest, n - 1);
        lemma_encode_concat(text.take(n), text.skip(n));
        assert(text.take(n) + text.skip(n) =~= text);
    }
}

/// A longer beginning of a text takes more bytes.
proof fn lemma_prefix_bytes_grow(text: Seq<char>, n: int, m: int)
    requires
        0 <= n < m <= text.len(),
    ensures
        byte_len(text.take(n)) < byte_len(text.take(m)),
{
    let more = text.subrange(n, m);
    assert(text.take(m) =~= text.take(n) + more);
    lemma_encode_concat(text.take(n), more);
    encode_utf8_first_scalar(more);
}

/// A beginning that fits, and that is the longest which does, is the truncation.
proof fn lemma_longest_prefix_is_truncation(text: Seq<char>, n: int, max_bytes: nat)
    requires
        0 <= n <= text.len(),
        byte_len(text.take(n)) <= max_bytes,
        forall|m: int| n < m <= text.len() ==> byte_len(#[trigger] text.take(m)) > max_bytes,
    ensures
        truncation(text, max_bytes) == text.take(n),
    decreases text.len(),
{
    assert(text.take(text.len() as int) =~= text);
    if n < text.len() {
        let shorter = text.drop_last();
        assert(byte_len(text) > max_bytes);
        assert(shorter.take(n) =~= text.take(n));
        assert forall|m: int| n < m <= shorter.len() implies byte_len(#[trigger] shorter.take(m))
            > max_bytes by {
            assert(shorter.take(m) =~= text.take(m));
        }
        lemma_longest_prefix_is_truncation(shorter, n, max_bytes);
    }
}

/// The text up to the last character boundary at or below so many bytes.
pub fn truncate_at_char_boundary(text: &str, max_bytes: usize) -> (cut: &str)
    ensures
        cut@ == truncation(text@, max_bytes as nat),
{
    if text.as_bytes().len() <= max_bytes {
        return text;
    }
    let ghost bytes = encode_utf8(text@);
    proof {
        encode_utf8_valid_utf8(text@);
        is_char_boundary_start_end_of_seq(bytes);
    }
    let mut end: usize = max_bytes;
    while !text.is_char_boundary(end)
        invariant
            bytes == encode_utf8(text@),
            is_char_boundary(bytes, 0),
            end <= max_bytes,
            forall|k: int| end < k <= max_bytes ==> !is_char_boundary(bytes, k),
        decreases end,
    {
        end -= 1;
    }
    let (cut, rest) = text.split_at(end);
    proof {
        let n = cut@.len() as int;
        encode_utf8_decode_utf8(text@);
        encode_utf8_decode_utf8(cut@);
        encode_utf8_decode_utf8(rest@);
        decode_utf8_split(bytes, end as int);
        assert(text@ =~= cut@ + rest@);
        assert(text@.take(n) =~= cut@);
        assert forall|m: int| n < m <= text@.len() implies byte_len(#[trigger] text@.take(m))
            > max_bytes by {
            lemma_prefix_bytes_grow(text@, n, m);
            lemma_prefix_ends_at_boundary(text@, m);
        }
        lemma_longest_prefix_is_truncation(text@, n, max_bytes as nat);
    }
    cut
}

/// A truncation is a beginning of the text that fits, it is the text itself
/// exactly where that fits, and no longer beginning fits.
pub proof fn law_truncation_is_the_longest_that_fits(text: Seq<char>, max_bytes: nat)
    ensures
        truncation(text, max_bytes).is_prefix_of(text),
        byte_len(truncation(text, max_bytes)) <= max_bytes,
        truncation(text, max_bytes) == text <==> byte_len(text) <= max_bytes,
        forall|m: int|
            truncation(text, max_bytes).len() < m <= text.len() ==> byte_len(
                #[trigger] text.take(m),
            ) > max_bytes,
    decreases text.len(),
{
    let cut = truncation(text, max_bytes);
    if byte_len(text) > max_bytes && text.len() > 0 {
        let shorter = text.drop_last();
        law_truncation_is_the_longest_that_fits(shorter, max_bytes);
        assert(cut.is_prefix_of(text)) by {
            assert(text.take(cut.len() as int) =~= shorter.take(cut.len() as int));
        }
        assert forall|m: int| cut.len() < m <= text.len() implies byte_len(#[trigger] text.take(m))
            > max_bytes by {
            if m == text.len() {
                assert(text.take(m) =~= text);
            } else {
                assert(text.take(m) =~= shorter.take(m));
            }
        }
    } else {
        assert(text.take(text.len() as int) =~= text);
    }
}

/// A JSON object, as `serde_json` holds it.
#[verifier::external_type_specification]
#[verifier::external_body]
#[verifier::reject_recursive_types(K)]
#[verifier::reject_recursive_types(V)]
pub struct ExJsonMap<K, V>(serde_json::Map<K, V>);

/// A JSON value, as `serde_json` holds it.
#[verifier::external_type_specification]
#[verifier::external_body]
pub struct ExJsonValue(serde_json::Value);

/// A member of a JSON object.
pub enum JsonField {
    Null,
    Bool(bool),
    /// A number that is held as an integer.
    Int(int),
    /// Any other number, by the text that it is written as.
    Fraction(Seq<char>),
    Text(Seq<char>),
    List(Seq<JsonField>),
    Object(Map<Seq<char>, JsonField>),
}

/// What a text is as a JSON document.
pub enum JsonDocument {
    /// None: the text says what is wrong with it.
    Invalid(Seq<char>),
    /// A document that is no object.
    NotObject,
    /// An object with these members.
    Object(Map<Seq<char>, JsonField>),
}

/// The members that a `serde_json` object holds.
pub uninterp spec fn json_fields(
    object: serde_json::Map<String, serde_json::Value>,
) -> Map<Seq<char>, JsonField>;

/// What `serde_json::from_str` makes of a text.
pub uninterp spec fn json_document(text: Seq<char>) -> JsonDocument;

/// The text that `serde_json::to_string` makes of an object with these members.
pub uninterp spec fn json_line(fields: Map<Seq<char>, JsonField>) -> Seq<char>;

/// The name by which `serde_json` marks raw text; an object that has it as its
/// first member is not read as an object.
pub const RAW_TEXT_MARK: &'static str = "$serde_json::private::RawValue";

/// How deep `serde_json` reads lists and objects in one another.
pub const MAX_NESTING: usize = 127;

/// A value that comes back from its text as it was: there is no fraction in it, no
/// object in it has a member of the name that marks raw text, and lists and
/// objects are nested in one another at most `depth` deep.
pub open spec fn restored(value: JsonField, depth: nat) -> bool
    decreases depth,
{
    match value {
        JsonField::Fraction(_) => false,
        JsonField::List(items) => {
            &&& depth > 0
            &&& forall|i: int|
                0 <= i < items.len() ==> restored(#[trigger] items[i], (depth - 1) as nat)
        },
        JsonField::Object(fields) => {
            &&& depth > 0
            &&& !fields.dom().contains(RAW_TEXT_MARK@)
            &&& forall|name: Seq<char>| #[trigger]
                fields.dom().contains(name) ==> restored(fields[name], (depth - 1) as nat)
        },
        _ => true,
    }
}

/// Members that come back from their text as they were.
pub open spec fn reads_back(fields: Map<Seq<char>, JsonField>) -> bool {
    restored(JsonField::Object(fields), MAX_NESTING as nat)
}

/// What a parsed record is as a JSON document.
pub open spec fn document_of(
    parsed: Result<Option<serde_json::Map<String, serde_json::Value>>, String>,
) -> JsonDocument {
    match parsed {
        Ok(Some(object)) => JsonDocument::Object(json_fields(object)),
        Ok(None) => JsonDocument::NotObject,
        Err(error) => JsonDocument::Invalid(error@),
    }
}

/// `serde_json::from_str`: the value that the text denotes, or the text of the
/// error. The result is a function of the text; of a value that is no object only
/// that is kept.
#[verifier::external_body]
fn parse_record(text: &str) -> (parsed: Result<
    Option<serde_json::Map<String, serde_json::Value>>,
    String,
>)
    ensures
        document_of(parsed) == json_document(text@),
{
    match serde_json::from_str::<serde_json::Value>(text) {
        Ok(serde_json::Value::Object(object)) => Ok(Some(object)),
        Ok(_) => Ok(None),
        Err(error) => Err(error.to_string()),
    }
}

/// `serde_json::Map::insert`: the object gets a member of this name, in place of
/// one that it had; a text becomes a JSON string, none becomes null.
#[verifier::external_body]
fn insert_member(
    object: &mut serde_json::Map<String, serde_json::Value>,
    name: &str,
    text: Option<&str>,
)
    ensures
        json_fields(*final(object)) == json_fields(*old(object)).insert(name@, text_field(text_of(text))),
{
    object.insert(name.to_string(), serde_json::Value::from(text));
}

/// A text as a member, or null where there is none.
pub open spec fn text_field(text: Option<Seq<char>>) -> JsonField {
    match text {
        Some(text) => JsonField::Text(text),
        None => JsonField::Null,
    }
}

/// `serde_json::to_string` of an object: its compact text, which depends on the
/// members alone and holds no line feed, since control characters are escaped in
/// strings. For members that read back, lists and objects among them,
/// `serde_json::from_str` makes the same object of that text; nothing is said of
/// it where there is a fraction. An object's names are strings, so it never fails.
#[verifier::external_body]
fn write_object(object: serde_json::Map<String, serde_json::Value>) -> (written: Result<
    String,
    String,
>)
    ensures
        written is Ok,
        written->Ok_0@ == json_line(json_fields(object)),
        !written->Ok_0@.contains('\n'),
        reads_back(json_fields(object)) ==> json_document(written->Ok_0@) == JsonDocument::Object(
            json_fields(object),
        ),
{
    serde_json::to_string(&serde_json::Value::Object(object)).map_err(|error| error.to_string())
}

/// The members of a record with the build's revision and the label of the run.
pub open spec fn with_metadata(
    fields: Map<Seq<char>, JsonField>,
    git_sha: Option<Seq<char>>,
    label: Option<Seq<char>>,
) -> Map<Seq<char>, JsonField> {
    let stamped = fields.insert("gitSha"@, text_field(git_sha));
    match label {
        Some(label) => stamped.insert(
            "label"@,
            JsonField::Text(truncation(label, MAX_LABEL_BYTES as nat)),
        ),
        None => stamped,
    }
}

/// A record that reads back still does with the metadata folded in.
pub proof fn law_metadata_keeps_reading_back(
    fields: Map<Seq<char>, JsonField>,
    git_sha: Option<Seq<char>>,
    label: Option<Seq<char>>,
)
    requires
        reads_back(fields),
    ensures
        reads_back(with_metadata(fields, git_sha, label)),
{
    reveal_strlit("gitSha");
    reveal_strlit("label");
    reveal_strlit("$serde_json::private::RawValue");
    let stamped = with_metadata(fields, git_sha, label);
    let depth = (MAX_NESTING - 1) as nat;
    assert("gitSha"@[0] == 'g' && "label"@[0] == 'l' && RAW_TEXT_MARK@[0] == '$');
    assert forall|name: Seq<char>| #[trigger] stamped.dom().contains(name) implies restored(
        stamped[name],
        depth,
    ) by {
        if name != "gitSha"@ && name != "label"@ {
            assert(fields.dom().contains(name));
        }
    }
}

/// Every line is stamped: the revision is the build's whatever the record said,
/// the label is the run's where the run has one, and every other member is the
/// record's.
pub proof fn law_metadata_is_folded_in(
    fields: Map<Seq<char>, JsonField>,
    git_sha: Option<Seq<char>>,
    label: Option<Seq<char>>,
)
    ensures
        with_metadata(fields, git_sha, label).dom().contains("gitSha"@),
        with_metadata(fields, git_sha, label)["gitSha"@] == text_field(git_sha),
        label matches Some(text) ==> {
            &&& with_metadata(fields, git_sha, label).dom().contains("label"@)
            &&& with_metadata(fields, git_sha, label)["label"@] == JsonField::Text(
                truncation(text, MAX_LABEL_BYTES as nat),
            )
        },
        forall|name: Seq<char>|
            name != "gitSha"@ && (label is None || name != "label"@) ==> (#[trigger] with_metadata(
                fields,
                git_sha,
                label,
            ).dom().contains(name) <==> fields.dom().contains(name)),
        forall|name: Seq<char>|
            name != "gitSha"@ && (label is None || name != "label"@) && fields.dom().contains(name)
                ==> #[trigger] with_metadata(fields, git_sha, label)[name] == fields[name],
{
    reveal_strlit("gitSha");
    reveal_strlit("label");
    assert("gitSha"@.len() != "label"@.len());
}

/// The line, where it fits under the cap together with its line feed.
pub open spec fn capped(line: Seq<char>) -> Result<Seq<char>, Seq<char>> {
    if byte_len(line) + 1 > MAX_RECORD_BYTES {
        Err("perf log line too large"@)
    } else {
        Ok(line)
    }
}

/// The line of a record that was read as this document, or why there is none.
pub open spec fn shaped_document(
    document: JsonDocument,
    git_sha: Option<Seq<char>>,
    label: Option<Seq<char>>,
) -> Result<Seq<char>, Seq<char>> {
    match document {
        JsonDocument::Invalid(error) => Err("invalid perf log record: "@ + error),
        JsonDocument::NotObject => Err("perf log record must be a JSON object"@),
        JsonDocument::Object(fields) => capped(json_line(with_metadata(fields, git_sha, label))),
    }
}

/// The line of a record, or why there is none.
pub open spec fn shaped_line(
    record: Seq<char>,
    git_sha: Option<Seq<char>>,
    label: Option<Seq<char>>,
) -> Result<Seq<char>, Seq<char>> {
    if byte_len(record) > MAX_RECORD_BYTES {
        Err("perf log record too large"@)
    } else {
        shaped_document(json_document(record), git_sha, label)
    }
}

/// What the result of shaping says.
pub open spec fn line_in(shaped: Result<String, String>) -> Result<Seq<char>, Seq<char>> {
    match shaped {
        Ok(line) => Ok(line@),
        Err(error) => Err(error@),
    }
}

/// The line, where it fits under the cap. The cap must hold for what reaches the
/// disk: the metadata is folded in after the record was measured, and a line feed
/// ends the line.
pub fn capped_line(line: String) -> (kept: Result<String, String>)
    ensures
        line_in(kept) == capped(line@),
{
    let bytes: usize = line.as_str().as_bytes().len();
    if bytes >= MAX_RECORD_BYTES {
        return Err("perf log line too large".to_owned());
    }
    Ok(line)
}

/// Shapes the line of a record that was parsed: a JSON object, into which the
/// build's revision and the label of the run are folded. The line holds no line
/// feed, it fits under the cap together with one, and what reads back is read
/// back from it.
pub fn shape_parsed_record(
    parsed: Result<Option<serde_json::Map<String, serde_json::Value>>, String>,
    git_sha: Option<&str>,
    label: Option<&str>,
) -> (shaped: Result<String, String>)
    ensures
        line_in(shaped) == shaped_document(document_of(parsed), text_of(git_sha), text_of(label)),
        shaped matches Ok(line) ==> {
            &&& !line@.contains('\n')
            &&& byte_len(line@) + 1 <= MAX_RECORD_BYTES
            &&& document_of(parsed) matches JsonDocument::Object(fields)
            &&& reads_back(with_metadata(fields, text_of(git_sha), text_of(label))) ==> json_document(
                line@,
            ) == JsonDocument::Object(with_metadata(fields, text_of(git_sha), text_of(label)))
        },
{
    let mut object: serde_json::Map<String, serde_json::Value> = match parsed {
        Ok(Some(object)) => object,
        Ok(None) => {
            return Err("perf log record must be a JSON object".to_owned());
        },
        Err(error) => {
            return Err("invalid perf log record: ".to_owned().concat(error.as_str()));
        },
    };
    insert_member(&mut object, "gitSha", git_sha);
    if let Some(label) = label {
        let cut: &str = truncate_at_char_boundary(label, MAX_LABEL_BYTES);
        insert_member(&mut object, "label", Some(cut));
    }
    match write_object(object) {
        Ok(line) => capped_line(line),
        Err(error) => Err(error),
    }
}

/// Validates and shapes one JSONL line: the record must be a JSON object, into
/// which the build's revision and the label of the run are folded. The line holds
/// no line feed, it fits under the cap together with one, and what reads back is
/// read back from it.
pub fn shape_perf_log_line(
    record_json: &str,
    git_sha: Option<&str>,
    label: Option<&str>,
) -> (shaped: Result<String, String>)
    ensures
        line_in(shaped) == shaped_line(record_json@, text_of(git_sha), text_of(label)),
        shaped matches Ok(line) ==> {
            &&& !line@.contains('\n')
            &&& byte_len(line@) + 1 <= MAX_RECORD_BYTES
            &&& json_document(record_json@) matches JsonDocument::Object(fields)
            &&& reads_back(with_metadata(fields, text_of(git_sha), text_of(label))) ==> json_document(
                line@,
            ) == JsonDocument::Object(with_metadata(fields, text_of(git_sha), text_of(label)))
        },
{
    if record_json.as_bytes().len() > MAX_RECORD_BYTES {
        return Err("perf log record too large".to_owned());
    }
    shape_parsed_record(parse_record(record_json), git_sha, label)
}

/// How far an append has come.
#[derive(Clone, Copy, Debug, PartialEq, Eq, Structural)]
pub enum AppendStage {
    /// The size of the log decides on rotation.
    Measure,
    /// A retained generation has to go first.
    CheckRetained,
    RemoveRetained,
    /// The log becomes the retained generation.
    Rotate,
    /// The line goes to the end of the log.
    Append,
}

/// A line on its way to the log.
#[derive(Debug)]
pub struct PendingAppend {
    pub line: String,
    pub max_bytes: u64,
    pub stage: AppendStage,
}

/// What is to be done to the files.
#[derive(Debug)]
pub enum LogAction {
    /// Tell the size of the log.
    Measure,
    /// Tell whether there is a retained generation.
    CheckRetained,
    /// Remove the retained generation. On some platforms a rename does not
    /// replace its destination.
    RemoveRetained,
    /// Rename the log to the retained generation.
    Rotate,
    /// Create the log where there is none, and write this text to its end at once,
    /// so that lines stay whole beside another process.
    Append { text: String },
}

/// What came of it.
#[derive(Debug)]
pub enum LogReply {
    /// The size of the log, where it could be told.
    Measured(Option<u64>),
    /// Whether there is a retained generation.
    Retained(bool),
    /// Whether the retained generation was removed.
    Removed(bool),
    /// Whether the log was renamed.
    Rotated(bool),
    /// The line was written, or why it was not.
    Appended(Result<(), String>),
}

/// What comes of a reply.
#[derive(Debug)]
pub enum AppendStep {
    /// The next thing to do.
    Do(PendingAppend),
    /// The end of the append.
    Done(Result<(), String>),
}

/// The stage that a reply leads to; none where it ends the append.
pub open spec fn next_stage(stage: AppendStage, max_bytes: u64, reply: LogReply) -> Option<
    AppendStage,
> {
    match (stage, reply) {
        (AppendStage::Measure, LogReply::Measured(size)) => match size {
            Some(size) => if size > max_bytes {
                Some(AppendStage::CheckRetained)
            } else {
                Some(AppendStage::Append)
            },
            None => Some(AppendStage::Append),
        },
        (AppendStage::CheckRetained, LogReply::Retained(retained)) => if retained {
            Some(AppendStage::RemoveRetained)
        } else {
            Some(AppendStage::Rotate)
        },
        (AppendStage::RemoveRetained, LogReply::Removed(removed)) => if removed {
            Some(AppendStage::Rotate)
        } else {
            Some(AppendStage::Append)
        },
        (AppendStage::Rotate, LogReply::Rotated(_)) => Some(AppendStage::Append),
        (AppendStage::Append, LogReply::Appended(_)) => None,
        (stage, _) => Some(stage),
    }
}

/// The text that a line is written as.
pub open spec fn line_text(line: Seq<char>) -> Seq<char> {
    line + seq!['\n']
}

/// Begins to append one line, after the log was renamed to its retained
/// generation, in place of the previous one, once it exceeds `max_bytes`.
/// Rotation is best-effort: where it fails, the line goes to the log as it is,
/// and the cap applies again once rotation succeeds on a later line.
pub fn append_line_rotating(line: String, max_bytes: u64) -> (pending: PendingAppend)
    ensures
        pending == (PendingAppend { line, max_bytes, stage: AppendStage::Measure }),
{
    PendingAppend { line, max_bytes, stage: AppendStage::Measure }
}

impl PendingAppend {
    /// What is to be done next.
    pub fn action(&self) -> (action: LogAction)
        ensures
            match self.stage {
                AppendStage::Measure => action is Measure,
                AppendStage::CheckRetained => action is CheckRetained,
                AppendStage::RemoveRetained => action is RemoveRetained,
                AppendStage::Rotate => action is Rotate,
                AppendStage::Append => action matches LogAction::Append { text } && text@
                    == line_text(self.line@),
            },
    {
        match self.stage {
            AppendStage::Measure => LogAction::Measure,
            AppendStage::CheckRetained => LogAction::CheckRetained,
            AppendStage::RemoveRetained => LogAction::RemoveRetained,
            AppendStage::Rotate => LogAction::Rotate,
            AppendStage::Append => {
                proof {
                    reveal_strlit("\n");
                    assert("\n"@ =~= seq!['\n']);
                }
                LogAction::Append { text: self.line.clone().concat("\n") }
            },
        }
    }

    /// What comes of a reply. A reply to something else than what was to be done
    /// changes nothing.
    pub fn step(self, reply: LogReply) -> (step: AppendStep)
        ensures
            match next_stage(self.stage, self.max_bytes, reply) {
                Some(stage) => step == AppendStep::Do(
                    PendingAppend { line: self.line, max_bytes: self.max_bytes, stage },
                ),
                None => reply matches LogReply::Appended(appended) && step == AppendStep::Done(
                    appended,
                ),
            },
    {
        let stage: AppendStage = match (self.stage, reply) {
            (AppendStage::Measure, LogReply::Measured(size)) => match size {
                Some(size) => if size > self.max_bytes {
                    AppendStage::CheckRetained
                } else {
                    AppendStage::Append
                },
                None => AppendStage::Append,
            },
            (AppendStage::CheckRetained, LogReply::Retained(retained)) => if retained {
                AppendStage::RemoveRetained
            } else {
                AppendStage::Rotate
            },
            (AppendStage::RemoveRetained, LogReply::Removed(removed)) => if removed {
                AppendStage::Rotate
            } else {
                AppendStage::Append
            },
            (AppendStage::Rotate, LogReply::Rotated(_)) => AppendStage::Append,
            (AppendStage::Append, LogReply::Appended(appended)) => {
                return AppendStep::Done(appended);
            },
            (stage, _) => stage,
        };
        AppendStep::Do(PendingAppend { line: self.line, max_bytes: self.max_bytes, stage })
    }
}

/// The two generations of a log, where they are there.
pub struct LogFiles {
    pub live: Option<Seq<u8>>,
    pub retained: Option<Seq<u8>>,
}

/// What the file system refuses.
pub struct LogFaults {
    pub remove: bool,
    pub rename: bool,
}

/// What a file holds; nothing where it is not there.
pub open spec fn contents(file: Option<Seq<u8>>) -> Seq<u8> {
    match file {
        Some(bytes) => bytes,
        None => Seq::empty(),
    }
}

/// What the file system replies at this stage. Sizes are told where they can be
/// told in 64 bits.
pub open spec fn log_reply(stage: AppendStage, files: LogFiles, faults: LogFaults) -> LogReply {
    match stage {
        AppendStage::Measure => LogReply::Measured(
            match files.live {
                Some(bytes) => Some(bytes.len() as u64),
                None => None,
            },
        ),
        AppendStage::CheckRetained => LogReply::Retained(files.retained is Some),
        AppendStage::RemoveRetained => LogReply::Removed(!faults.remove),
        AppendStage::Rotate => LogReply::Rotated(!faults.rename),
        AppendStage::Append => LogReply::Appended(Ok(())),
    }
}

/// What the file system makes of the files at this stage.
pub open spec fn log_effect(
    stage: AppendStage,
    line: Seq<char>,
    files: LogFiles,
    faults: LogFaults,
) -> LogFiles {
    match stage {
        AppendStage::RemoveRetained => if faults.remove {
            files
        } else {
            LogFiles { live: files.live, retained: None }
        },
        AppendStage::Rotate => if faults.rename {
            files
        } else {
            LogFiles { live: None, retained: files.live }
        },
        AppendStage::Append => LogFiles {
            live: Some(contents(files.live) + encode_utf8(line_text(line))),
            retained: files.retained,
        },
        _ => files,
    }
}

/// The files after an append from this stage on.
pub open spec fn appended_from(
    stage: AppendStage,
    line: Seq<char>,
    max_bytes: u64,
    files: LogFiles,
    faults: LogFaults,
) -> LogFiles
    decreases stages_left(stage),
{
    let after = log_effect(stage, line, files, faults);
    match next_stage(stage, max_bytes, log_reply(stage, files, faults)) {
        Some(next) => if stages_left(next) < stages_left(stage) {
            appended_from(next, line, max_bytes, after, faults)
        } else {
            after
        },
        None => after,
    }
}

/// How many things are still to be done at most, from this stage on.
pub open spec fn stages_left(stage: AppendStage) -> nat {
    match stage {
        AppendStage::Measure => 5,
        AppendStage::CheckRetained => 4,
        AppendStage::RemoveRetained => 3,
        AppendStage::Rotate => 2,
        AppendStage::Append => 1,
    }
}

/// The files after an append.
pub open spec fn appended(
    line: Seq<char>,
    max_bytes: u64,
    files: LogFiles,
    faults: LogFaults,
) -> LogFiles {
    appended_from(AppendStage::Measure, line, max_bytes, files, faults)
}

/// The log is there and exceeds its cap.
pub open spec fn rotation_due(files: LogFiles, max_bytes: u64) -> bool {
    files.live matches Some(bytes) && bytes.len() > max_bytes
}

/// Nothing keeps the log from being rotated.
pub open spec fn rotation_possible(files: LogFiles, faults: LogFaults) -> bool {
    !(files.retained is Some && faults.remove) && !faults.rename
}

/// Every reply to what was to be done brings an append forward, so that nothing
/// is done twice; any other reply changes nothing.
pub proof fn law_append_makes_progress(stage: AppendStage, max_bytes: u64, reply: LogReply)
    ensures
        next_stage(stage, max_bytes, reply) matches Some(next) ==> next == stage || stages_left(next)
            < stages_left(stage),
        next_stage(stage, max_bytes, reply) is None <==> stage is Append && reply is Appended,
{
}

/// An append writes its line whatever comes of the rotation. The log is rotated
/// exactly where it exceeds its cap and nothing is in the way: the old log is
/// then the retained generation, and the line begins a new one. Else the line
/// goes to the end of the old log, and the retained generation is gone only where
/// it was removed and the log could then not be renamed.
pub proof fn law_append_writes_the_line(
    line: Seq<char>,
    max_bytes: u64,
    files: LogFiles,
    faults: LogFaults,
)
    requires
        contents(files.live).len() <= u64::MAX,
    ensures
        rotation_due(files, max_bytes) && rotation_possible(files, faults) ==> appended(
            line,
            max_bytes,
            files,
            faults,
        ) == (LogFiles {
            live: Some(encode_utf8(line_text(line))),
            retained: files.live,
        }),
        !(rotation_due(files, max_bytes) && rotation_possible(files, faults)) ==> {
            &&& appended(line, max_bytes, files, faults).live == Some(
                contents(files.live) + encode_utf8(line_text(line)),
            )
            &&& !rotation_due(files, max_bytes) || faults.remove ==> appended(
                line,
                max_bytes,
                files,
                faults,
            ).retained == files.retained
            &&& rotation_due(files, max_bytes) && !faults.remove ==> appended(
                line,
                max_bytes,
                files,
                faults,
            ).retained is None
        },
{
    reveal_with_fuel(appended_from, 6);
    assert(Seq::<u8>::empty() + encode_utf8(line_text(line)) =~= encode_utf8(line_text(line)));
}

/// No line is lost at the boundary: after an append that nothing is in the way
/// of, the two generations hold, in order, what the log held and the line, and
/// where it was not rotated also what was retained before.
pub proof fn law_append_loses_no_line(
    line: Seq<char>,
    max_bytes: u64,
    files: LogFiles,
    faults: LogFaults,
)
    requires
        contents(files.live).len() <= u64::MAX,
        !faults.remove,
        !faults.rename,
    ensures
        ({
            let after = appended(line, max_bytes, files, faults);
            let written = encode_utf8(line_text(line));
            contents(after.retained) + contents(after.live) == if rotation_due(files, max_bytes) {
                contents(files.live) + written
            } else {
                contents(files.retained) + contents(files.live) + written
            }
        }),
{
    law_append_writes_the_line(line, max_bytes, files, faults);
    let after = appended(line, max_bytes, files, faults);
    let written = encode_utf8(line_text(line));
    if !rotation_due(files, max_bytes) {
        assert(contents(after.retained) + contents(after.live) =~= contents(files.retained)
            + contents(files.live) + written);
    }
}

/// The files after these lines, one after the other, nothing being in the way.
pub open spec fn appended_all(
    lines: Seq<Seq<char>>,
    max_bytes: u64,
    files: LogFiles,
) -> LogFiles
    decreases lines.len(),
{
    if lines.len() == 0 {
        files
    } else {
        appended(
            lines.last(),
            max_bytes,
            appended_all(lines.drop_last(), max_bytes, files),
            LogFaults { remove: false, rename: false },
        )
    }
}

/// However many lines that passed the cap are written, neither generation grows
/// beyond the rotation threshold and one record, as long as nothing is in the way
/// of rotation.
pub proof fn law_log_stays_bounded(lines: Seq<Seq<char>>, max_bytes: u64, files: LogFiles)
    requires
        forall|k: int| 0 <= k < lines.len() ==> capped(#[trigger] lines[k]) is Ok,
        max_bytes + MAX_RECORD_BYTES <= u64::MAX,
        contents(files.live).len() <= max_bytes + MAX_RECORD_BYTES,
        contents(files.retained).len() <= max_bytes + MAX_RECORD_BYTES,
    ensures
        contents(appended_all(lines, max_bytes, files).live).len() <= max_bytes + MAX_RECORD_BYTES,
        contents(appended_all(lines, max_bytes, files).retained).len() <= max_bytes
            + MAX_RECORD_BYTES,
    decreases lines.len(),
{
    if lines.len() > 0 {
        let earlier = lines.drop_last();
        assert forall|k: int| 0 <= k < earlier.len() implies capped(#[trigger] earlier[k]) is Ok by {
            assert(earlier[k] == lines[k]);
        }
        law_log_stays_bounded(earlier, max_bytes, files);
        let before = appended_all(earlier, max_bytes, files);
        let line = lines.last();
        assert(capped(lines[lines.len() - 1]) is Ok);
        law_cap_counts_the_line_feed(line);
        law_append_writes_the_line(
            line,
            max_bytes,
            before,
            LogFaults { remove: false, rename: false },
        );
    }
}

/// A line with its line feed takes one byte more than the line, so that the cap
/// bounds what reaches the disk.
pub proof fn law_cap_counts_the_line_feed(line: Seq<char>)
    ensures
        byte_len(line_text(line)) == byte_len(line) + 1,
        capped(line) is Ok <==> byte_len(line_text(line)) <= MAX_RECORD_BYTES,
{
    let feed = seq!['\n'];
    lemma_encode_concat(line, feed);
    assert(feed.drop_first() =~= Seq::empty());
    reveal_with_fuel(encode_utf8, 2);
    assert(encode_scalar('\n' as u32).len() == 1);
}

/// What is kept of a text is its longest beginning that fits: it fits, and any
/// longer beginning would not.
pub proof fn law_truncation_keeps_the_longest_beginning(text: Seq<char>, max_bytes: nat)
    ensures
        truncation(text, max_bytes).is_prefix_of(text),
        byte_len(truncation(text, max_bytes)) <= max_bytes,
        forall|n: int|
            truncation(text, max_bytes).len() < n <= text.len() ==> byte_len(#[trigger] text.take(n))
                > max_bytes,
        byte_len(text) <= max_bytes ==> truncation(text, max_bytes) == text,
    decreases text.len(),
{
    if text.len() == 0 {
        reveal_with_fuel(encode_utf8, 1);
        assert(byte_len(text) == 0);
    } else if byte_len(text) > max_bytes {
        let init = text.drop_last();
        law_truncation_keeps_the_longest_beginning(init, max_bytes);
        let kept = truncation(text, max_bytes);
        assert(kept =~= text.subrange(0, kept.len() as int));
        assert forall|n: int| kept.len() < n <= text.len() implies byte_len(#[trigger] text.take(n))
            > max_bytes by {
            if n < text.len() {
                assert(init.take(n) =~= text.take(n));
            } else {
                assert(text.take(n) =~= text);
            }
        }
    }
}

/// A record with the metadata of its build and run: the build's revision, or null;
/// the label, cut to 128 bytes, where the run has one; and every other member as it
/// was.
pub open spec fn stamped_with(
    fields: Map<Seq<char>, JsonField>,
    stamped: Map<Seq<char>, JsonField>,
    git_sha: Option<Seq<char>>,
    label: Option<Seq<char>>,
) -> bool {
    &&& stamped.dom().contains("gitSha"@)
    &&& git_sha matches Some(sha) ==> stamped["gitSha"@] == JsonField::Text(sha)
    &&& git_sha is None ==> stamped["gitSha"@] == JsonField::Null
    &&& label matches Some(text) ==> stamped.dom().contains("label"@) && (stamped["label"@] matches
        JsonField::Text(cut) && cut.is_prefix_of(text) && byte_len(cut) <= 128 && forall|n: int|
        cut.len() < n <= text.len() ==> byte_len(#[trigger] text.take(n)) > 128)
    &&& forall|name: Seq<char>|
        name != "gitSha"@ && !(label is Some && name == "label"@) ==> {
            &&& #[trigger] stamped.dom().contains(name) <==> fields.dom().contains(name)
            &&& fields.dom().contains(name) ==> stamped[name] == fields[name]
        }
}

/// A line is shaped exactly where the record takes at most 4096 bytes and is a JSON
/// object, and the line with its metadata and its line feed takes no more either;
/// it is then the text of the stamped record. Otherwise the failure says which of
/// these does not hold, the size of the record first.
pub proof fn law_lines_are_the_stamped_record(
    record: Seq<char>,
    git_sha: Option<Seq<char>>,
    label: Option<Seq<char>>,
)
    ensures
        byte_len(record) > 4096 ==> shaped_line(record, git_sha, label) == Err::<Seq<char>, _>(
            "perf log record too large"@,
        ),
        byte_len(record) <= 4096 ==> match json_document(record) {
            JsonDocument::Invalid(error) => shaped_line(record, git_sha, label) == Err::<
                Seq<char>,
                _,
            >("invalid perf log record: "@ + error),
            JsonDocument::NotObject => shaped_line(record, git_sha, label) == Err::<Seq<char>, _>(
                "perf log record must be a JSON object"@,
            ),
            JsonDocument::Object(fields) => exists|stamped: Map<Seq<char>, JsonField>|
                {
                    &&& stamped_with(fields, stamped, git_sha, label)
                    &&& byte_len(#[trigger] json_line(stamped)) < 4096 ==> shaped_line(
                        record,
                        git_sha,
                        label,
                    ) == Ok::<_, Seq<char>>(json_line(stamped))
                    &&& byte_len(json_line(stamped)) >= 4096 ==> shaped_line(
                        record,
                        git_sha,
                        label,
                    ) == Err::<Seq<char>, _>("perf log line too large"@)
                },
        },
{
    if let JsonDocument::Object(fields) = json_document(record) {
        law_metadata_is_folded_in(fields, git_sha, label);
        if let Some(text) = label {
            law_truncation_keeps_the_longest_beginning(text, 128);
        }
        let stamped = with_metadata(fields, git_sha, label);
        assert(stamped_with(fields, stamped, git_sha, label));
        assert(byte_len(json_line(stamped)) >= 0);
    }
}

/// What is written of a line is the line and one line feed after it.
pub proof fn law_written_lines_end_in_one_feed(line: Seq<char>)
    ensures
        line_text(line).len() == line.len() + 1,
        line_text(line).last() == '\n',
        line.is_prefix_of(line_text(line)),
        !line.contains('\n') ==> forall|i: int|
            0 <= i < line_text(line).len() && #[trigger] line_text(line)[i] == '\n' ==> i
                == line.len(),
{
    let written = line_text(line);
    assert(written.subrange(0, line.len() as int) =~= line);
    if !line.contains('\n') {
        assert forall|i: int| 0 <= i < written.len() && #[trigger] written[i] == '\n' implies i
            == line.len() by {
            if i < line.len() {
                assert(line[i] == '\n');
                assert(line.contains(line[i]));
            }
        }
    }
}

/// The caps are four KiB for a record, 128 bytes for a label, and ten MiB for a log.
pub proof fn law_caps_are_fixed()
    ensures
        MAX_RECORD_BYTES == 4096,
        MAX_LABEL_BYTES == 128,
        MAX_LOG_BYTES == 10485760,
{
}

} // verus!
