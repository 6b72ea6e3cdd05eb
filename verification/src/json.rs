//! JSON functions in the style of SQLite, on columns of texts.
//!
//! Reading JSON, writing it back and following a path are left to
//! `serde_json` and `serde_json_path`: what they return is named here and
//! believed. What is made of their results is proved.
//!
//! A path is not handed to `serde_json_path` where that is known to end
//! badly. Its parser panics on a path that breaks off inside a `\u` escape
//! and overflows the stack on deep nesting, and its queries multiply what
//! they find with every `,` and `..`. So a path that ends inside an escape,
//! or holds more than `MAX_OPENERS` of `(` and `?`, more than `MAX_UNIONS`
//! of `,`, or more than `MAX_DESCENTS` of `..`, selects nothing here. The
//! limits are wide for paths that people write, and they are part of the
//! contracts: see `is_answerable`.

use vstd::prelude::*;
use vstd::string::StringExecFns;
use crate::columns::{column_outcome, text_cell, text_cells};
use crate::numerals::{is_i64, is_i64_text};

verus! {

/// Why a JSON function failed.
#[derive(Clone, Copy, Debug, PartialEq, Eq, Structural)]
pub enum JsonError {
    /// A text is not well-formed JSON.
    MalformedJson,
    /// A function was given a number of columns that it does not take.
    WrongNumberOfArguments,
    /// A function was given no column at all.
    MissingInput,
}

impl JsonError {
    /// The error in words.
    pub open spec fn spec_message(self) -> Seq<char> {
        match self {
            JsonError::MalformedJson => "Runtime error: malformed JSON"@,
            JsonError::WrongNumberOfArguments =>
                "wrong number of arguments to function json_type()"@,
            JsonError::MissingInput => "First input not set"@,
        }
    }

    /// The error in words, as it is shown to the caller of a query.
    pub fn message(&self) -> (text: String)
        ensures
            text@ == self.spec_message(),
    {
        match self {
            JsonError::MalformedJson => String::from_str("Runtime error: malformed JSON"),
            JsonError::WrongNumberOfArguments => String::from_str(
                "wrong number of arguments to function json_type()",
            ),
            JsonError::MissingInput => String::from_str("First input not set"),
        }
    }
}

/// What the functions of this module read of a JSON value: its kind, and
/// with it the truth value, the number as it is written, or the number of
/// elements.
#[derive(Clone, Debug, PartialEq, Eq)]
pub enum JsonShape {
    Null,
    Boolean(bool),
    Number(String),
    Text,
    Array(usize),
    Object,
}

/// The mathematical value of a `JsonShape`.
pub enum JsonShapeView {
    Null,
    Boolean(bool),
    Number(Seq<char>),
    Text,
    Array(nat),
    Object,
}

impl View for JsonShape {
    type V = JsonShapeView;

    open spec fn view(&self) -> JsonShapeView {
        match *self {
            JsonShape::Null => JsonShapeView::Null,
            JsonShape::Boolean(b) => JsonShapeView::Boolean(b),
            JsonShape::Number(text) => JsonShapeView::Number(text@),
            JsonShape::Text => JsonShapeView::Text,
            JsonShape::Array(len) => JsonShapeView::Array(len as nat),
            JsonShape::Object => JsonShapeView::Object,
        }
    }
}

/// The name of a value's type: `null`, `true`, `false`, `integer`, `real`,
/// `text`, `array` or `object`. A number is an `integer` when its text
/// writes an integer of 64 signed bits, and `real` otherwise.
pub open spec fn kind_name(shape: JsonShapeView) -> Seq<char> {
    match shape {
        JsonShapeView::Null => "null"@,
        JsonShapeView::Boolean(b) => if b {
            "true"@
        } else {
            "false"@
        },
        JsonShapeView::Number(text) => if is_i64_text(text) {
            "integer"@
        } else {
            "real"@
        },
        JsonShapeView::Text => "text"@,
        JsonShapeView::Array(_) => "array"@,
        JsonShapeView::Object => "object"@,
    }
}

/// The number of elements of an array; zero for a value of any other kind.
pub open spec fn array_length(shape: JsonShapeView) -> nat {
    match shape {
        JsonShapeView::Array(len) => len,
        _ => 0,
    }
}

/// The name of the type of a value.
pub fn get_json_type(shape: &JsonShape) -> (name: String)
    ensures
        name@ == kind_name(shape@),
{
    match shape {
        JsonShape::Null => String::from_str("null"),
        JsonShape::Boolean(b) => if *b {
            String::from_str("true")
        } else {
            String::from_str("false")
        },
        JsonShape::Number(text) => if is_i64(text.as_str()) {
            String::from_str("integer")
        } else {
            String::from_str("real")
        },
        JsonShape::Text => String::from_str("text"),
        JsonShape::Array(_) => String::from_str("array"),
        JsonShape::Object => String::from_str("object"),
    }
}

/// The number of elements of an array, and zero for any other value.
pub fn get_array_length(shape: &JsonShape) -> (len: u64)
    ensures
        len == array_length(shape@),
{
    match shape {
        JsonShape::Array(len) => *len as u64,
        _ => 0,
    }
}

/// The error of `serde_json`.
#[verifier::external_type_specification]
#[verifier::external_body]
pub struct ExJsonError(serde_json::Error);

/// What `serde_json` writes back, without white space, for a text that it
/// reads as JSON; nothing for a text that it does not read.
pub uninterp spec fn json_minified(text: Seq<char>) -> Option<Seq<char>>;

/// The shape of the value that `serde_json` reads from a text; nothing for a
/// text that it does not read.
pub uninterp spec fn json_document_shape(text: Seq<char>) -> Option<JsonShapeView>;

/// The shape of the one value that `path` selects in the JSON of `text`;
/// nothing where the text is no JSON, the path is no path, or the path
/// selects no value or more than one.
pub uninterp spec fn json_selected_shape(text: Seq<char>, path: Seq<char>) -> Option<
    JsonShapeView,
>;

/// `path` breaks off inside a `\u` escape: it ends with `\u`, or with `\u`
/// and one `D` or `d`.
///
/// The parser of `serde_json_path` reads four characters of such an escape
/// with a primitive made for input that arrives in pieces: the one after
/// `\u`, the one after `\uD`, and the first two after the `\u` of the second
/// half of a surrogate pair. Where the text ends at one of them, the
/// primitive asks for more input and the parser panics. A path is allowed a
/// `\u` escape only inside a quoted name, which a quote and a bracket must
/// follow, so no well-formed path ends like this.
pub open spec fn ends_in_open_escape(path: Seq<char>) -> bool {
    let n = path.len() as int;
    ||| (n >= 2 && path[n - 2] == '\\' && path[n - 1] == 'u')
    ||| (n >= 3 && path[n - 3] == '\\' && path[n - 2] == 'u' && (path[n - 1] == 'D' || path[n - 1]
        == 'd'))
}

/// How often the character `c` stands in `path`.
pub open spec fn occurrences(path: Seq<char>, c: char) -> nat
    decreases path.len(),
{
    if path.len() == 0 {
        0
    } else {
        occurrences(path.drop_last(), c) + if path.last() == c {
            1nat
        } else {
            0nat
        }
    }
}

/// How often two dots stand side by side in `path`.
pub open spec fn descents(path: Seq<char>) -> nat
    decreases path.len(),
{
    if path.len() < 2 {
        0
    } else {
        descents(path.drop_last()) + if path[path.len() - 2] == '.' && path.last() == '.' {
            1nat
        } else {
            0nat
        }
    }
}

/// The most `(` and `?` that a path may hold. Each level at which the parser
/// of `serde_json_path` calls itself takes one of the two, so this bounds
/// its depth, and with it its stack and its time, which doubles with each
/// filter inside a filter.
pub const MAX_OPENERS: usize = 16;

/// The most `,` that a path may hold. Each one may list a value once more,
/// and the values found multiply from one segment to the next.
pub const MAX_UNIONS: usize = 16;

/// The most `..` that a path may hold. Each one replaces every value found
/// by all that lies below it.
pub const MAX_DESCENTS: usize = 3;

/// `path` stays within the limits on what multiplies the parser's depth and
/// the number of values found.
pub open spec fn within_limits(path: Seq<char>) -> bool {
    &&& occurrences(path, '(') + occurrences(path, '?') <= MAX_OPENERS
    &&& occurrences(path, ',') <= MAX_UNIONS
    &&& descents(path) <= MAX_DESCENTS
}

/// `path` can be handed to `serde_json_path`: it does not break off inside
/// an escape, and it stays within the limits.
pub open spec fn is_answerable(path: Seq<char>) -> bool {
    !ends_in_open_escape(path) && within_limits(path)
}

/// What `path` selects in the JSON of `text`: nothing for a path that cannot
/// be handed on, and otherwise what `serde_json_path` finds.
pub open spec fn selected_shape_of(text: Seq<char>, path: Seq<char>) -> Option<JsonShapeView> {
    if is_answerable(path) {
        json_selected_shape(text, path)
    } else {
        None
    }
}

/// The path `$`, which names the whole document, can be handed on.
pub proof fn lemma_root_is_answerable()
    ensures
        is_answerable(seq!['$']),
{
    let root = seq!['$'];
    assert(root.drop_last() =~= Seq::<char>::empty());
    reveal_with_fuel(occurrences, 2);
    reveal_with_fuel(descents, 2);
}

/// A shape, or none, as a mathematical value.
pub open spec fn shape_view(shape: Option<JsonShape>) -> Option<JsonShapeView> {
    match shape {
        Some(shape) => Some(shape@),
        None => None,
    }
}

/// Calls `serde_json::from_str` and, on the value read, `serde_json::to_string`.
///
/// Believed: the result depends on the text alone.
#[verifier::external_body]
pub(crate) fn minify(text: &str) -> (result: Result<String, serde_json::Error>)
    ensures
        result matches Ok(written) ==> json_minified(text@) == Some(written@),
        result is Err ==> json_minified(text@) is None,
{
    let value: serde_json::Value = serde_json::from_str(text)?;
    serde_json::to_string(&value)
}

/// Calls `serde_json::from_str` and tells the variants of the value apart.
///
/// Believed: the result depends on the text alone.
#[verifier::external_body]
pub(crate) fn document_shape(text: &str) -> (result: Result<JsonShape, serde_json::Error>)
    ensures
        result matches Ok(shape) ==> json_document_shape(text@) == Some(shape@),
        result is Err ==> json_document_shape(text@) is None,
{
    Ok(
        match serde_json::from_str(text)? {
            serde_json::Value::Null => JsonShape::Null,
            serde_json::Value::Bool(b) => JsonShape::Boolean(b),
            serde_json::Value::Number(n) => JsonShape::Number(n.to_string()),
            serde_json::Value::String(_) => JsonShape::Text,
            serde_json::Value::Array(items) => JsonShape::Array(items.len()),
            serde_json::Value::Object(_) => JsonShape::Object,
        },
    )
}

/// Calls `serde_json::from_str`, `serde_json_path::JsonPath::parse`, and
/// `query` with `exactly_one` on the two, and tells the variants of the value
/// found apart.
///
/// `JsonPath::parse` panics on a path that breaks off inside a `\u` escape,
/// and overflows the stack on one that is nested deeply; `query` may fill the
/// memory where a path lists or descends often. `requires` leaves those
/// paths out.
///
/// Believed: the result depends on the two texts alone; and for the path
/// `$`, which selects the root, it is the shape of the whole document.
#[verifier::external_body]
pub(crate) fn selected_shape(text: &str, path: &str) -> (result: Option<JsonShape>)
    requires
        is_answerable(path@),
    ensures
        shape_view(result) == json_selected_shape(text@, path@),
        path@ == seq!['$'] ==> shape_view(result) == json_document_shape(text@),
{
    let value: serde_json::Value = serde_json::from_str(text).ok()?;
    let path = serde_json_path::JsonPath::parse(path).ok()?;
    Some(
        match path.query(&value).exactly_one().ok()? {
            serde_json::Value::Null => JsonShape::Null,
            serde_json::Value::Bool(b) => JsonShape::Boolean(*b),
            serde_json::Value::Number(n) => JsonShape::Number(n.to_string()),
            serde_json::Value::String(_) => JsonShape::Text,
            serde_json::Value::Array(items) => JsonShape::Array(items.len()),
            serde_json::Value::Object(_) => JsonShape::Object,
        },
    )
}

/// What `json` makes of one text: the same JSON without white space, or an
/// error for a text that is no JSON.
pub open spec fn json_row(text: Seq<char>) -> Result<Seq<char>, JsonError> {
    match json_minified(text) {
        Some(written) => Ok(written),
        None => Err(JsonError::MalformedJson),
    }
}

/// What `json_valid` makes of one text: 1 for well-formed JSON, 0 otherwise.
pub open spec fn json_valid_row(text: Seq<char>) -> u8 {
    if json_document_shape(text) is Some {
        1
    } else {
        0
    }
}

/// What `json_type` makes of one text: the type's name of the outermost
/// value, or an error for a text that is no JSON.
pub open spec fn json_type_row(text: Seq<char>) -> Result<Seq<char>, JsonError> {
    match json_document_shape(text) {
        Some(shape) => Ok(kind_name(shape)),
        None => Err(JsonError::MalformedJson),
    }
}

/// What `json_type` makes of a text and a path: the type's name of the value
/// that the path selects, or nothing where it selects none.
pub open spec fn json_type_at_row(text: Seq<char>, path: Seq<char>) -> Option<Seq<char>> {
    match selected_shape_of(text, path) {
        Some(shape) => Some(kind_name(shape)),
        None => None,
    }
}

/// What `json_array_length` makes of a text and a path: the number of
/// elements of the array that the path selects, zero for a value that is no
/// array, or nothing where the path selects no value.
pub open spec fn json_array_length_row(text: Seq<char>, path: Seq<char>) -> Option<u64> {
    match selected_shape_of(text, path) {
        Some(shape) => Some(array_length(shape) as u64),
        None => None,
    }
}

/// What `json_array_length` makes of a text alone: the number of elements of
/// the array that the text is, zero for a value that is no array, or nothing
/// for a text that is no JSON.
pub open spec fn json_array_length_of(text: Seq<char>) -> Option<u64> {
    match json_document_shape(text) {
        Some(shape) => Some(array_length(shape) as u64),
        None => None,
    }
}

/// The rows of `json` over a column.
pub open spec fn json_rows(column: Seq<Option<String>>) -> Seq<
    Option<Result<Seq<char>, JsonError>>,
> {
    Seq::new(
        column.len(),
        |i: int|
            match column[i] {
                Some(text) => Some(json_row(text@)),
                None => None,
            },
    )
}

/// The rows of `json_type` over one column.
pub open spec fn json_type_rows(column: Seq<Option<String>>) -> Seq<
    Option<Result<Seq<char>, JsonError>>,
> {
    Seq::new(
        column.len(),
        |i: int|
            match column[i] {
                Some(text) => Some(json_type_row(text@)),
                None => None,
            },
    )
}

/// The column of `json_valid` over a column.
pub open spec fn json_valid_cells(column: Seq<Option<String>>) -> Seq<Option<u8>> {
    Seq::new(
        column.len(),
        |i: int|
            match column[i] {
                Some(text) => Some(json_valid_row(text@)),
                None => None,
            },
    )
}

/// The number of rows that two columns have in common.
pub open spec fn paired_len(first: Seq<Option<String>>, second: Seq<Option<String>>) -> nat {
    if first.len() <= second.len() {
        first.len()
    } else {
        second.len()
    }
}

/// The column of `json_type` over a column of texts and one of paths: as
/// many rows as both have, and nothing in a row where either is missing.
pub open spec fn json_type_at_cells(
    column: Seq<Option<String>>,
    paths: Seq<Option<String>>,
) -> Seq<Option<Seq<char>>> {
    Seq::new(
        paired_len(column, paths),
        |i: int|
            match (column[i], paths[i]) {
                (Some(text), Some(path)) => json_type_at_row(text@, path@),
                _ => None,
            },
    )
}

/// The column of `json_array_length` over a column of texts, each taken
/// whole.
pub open spec fn json_array_length_cells(column: Seq<Option<String>>) -> Seq<Option<u64>> {
    Seq::new(
        column.len(),
        |i: int|
            match column[i] {
                Some(text) => json_array_length_of(text@),
                None => None,
            },
    )
}

/// The column of `json_array_length` over a column of texts and one of
/// paths: as many rows as both have, and nothing in a row where either is
/// missing.
pub open spec fn json_array_length_at_cells(
    column: Seq<Option<String>>,
    paths: Seq<Option<String>>,
) -> Seq<Option<u64>> {
    Seq::new(
        paired_len(column, paths),
        |i: int|
            match (column[i], paths[i]) {
                (Some(text), Some(path)) => json_array_length_row(text@, path@),
                _ => None,
            },
    )
}

/// The outcome of a function that returns a text column, as a mathematical
/// value.
pub open spec fn json_column_outcome(result: Result<Vec<Option<String>>, JsonError>) -> Result<
    Seq<Option<Seq<char>>>,
    JsonError,
> {
    match result {
        Ok(column) => Ok(text_cells(column@)),
        Err(e) => Err(e),
    }
}

/// The type's name of the outermost value of the JSON in `text`.
pub fn get_json_string_type(text: &str) -> (result: Result<String, JsonError>)
    ensures
        result matches Ok(name) ==> json_type_row(text@) == Ok::<Seq<char>, JsonError>(name@),
        result matches Err(e) ==> json_type_row(text@) == Err::<Seq<char>, JsonError>(e),
{
    match document_shape(text) {
        Ok(shape) => Ok(get_json_type(&shape)),
        Err(_) => Err(JsonError::MalformedJson),
    }
}

/// Whether `path` breaks off inside a `\u` escape.
pub fn has_open_escape(path: &str) -> (open: bool)
    ensures
        open == ends_in_open_escape(path@),
{
    let len: usize = path.unicode_len();
    if len >= 2 && path.get_char(len - 2) == '\\' && path.get_char(len - 1) == 'u' {
        return true;
    }
    if len >= 3 && path.get_char(len - 3) == '\\' && path.get_char(len - 2) == 'u' {
        let last: char = path.get_char(len - 1);
        return last == 'D' || last == 'd';
    }
    false
}

/// Whether `path` stays within the limits on `(` and `?`, on `,` and on `..`.
pub fn is_within_limits(path: &str) -> (within: bool)
    ensures
        within == within_limits(path@),
{
    let len: usize = path.unicode_len();
    let mut openers: usize = 0;
    let mut unions: usize = 0;
    let mut descended: usize = 0;
    let mut after_dot: bool = false;
    let mut i: usize = 0;
    while i < len
        invariant
            i <= len,
            len == path@.len(),
            openers == occurrences(path@.take(i as int), '(') + occurrences(
                path@.take(i as int),
                '?',
            ),
            unions == occurrences(path@.take(i as int), ','),
            descended == descents(path@.take(i as int)),
            openers <= i,
            unions <= i,
            descended <= i,
            after_dot == (i > 0 && path@[i - 1] == '.'),
        decreases len - i,
    {
        let c: char = path.get_char(i);
        proof {
            assert(path@.take(i + 1).drop_last() =~= path@.take(i as int));
            assert(path@.take(i + 1).last() == c);
        }
        if c == '(' || c == '?' {
            openers += 1;
        }
        if c == ',' {
            unions += 1;
        }
        if c == '.' && after_dot {
            descended += 1;
        }
        after_dot = c == '.';
        i += 1;
    }
    proof {
        assert(path@.take(len as int) =~= path@);
    }
    openers <= MAX_OPENERS && unions <= MAX_UNIONS && descended <= MAX_DESCENTS
}

/// The shape of the one value that `path` selects in the JSON of `text`.
///
/// A path that breaks off inside a `\u` escape, or that goes beyond the
/// limits, selects nothing and is not handed on. The path `$` selects the
/// whole document.
pub fn get_shape_at(text: &str, path: &str) -> (result: Option<JsonShape>)
    ensures
        shape_view(result) == selected_shape_of(text@, path@),
        path@ == seq!['$'] ==> shape_view(result) == json_document_shape(text@),
{
    proof {
        lemma_root_is_answerable();
    }
    if has_open_escape(path) || !is_within_limits(path) {
        None
    } else {
        selected_shape(text, path)
    }
}

/// The type's name of the value that `path` selects in the JSON of `text`.
pub fn get_json_type_at(text: &str, path: &str) -> (result: Option<String>)
    ensures
        result matches Some(name) ==> json_type_at_row(text@, path@) == Some(name@),
        result is None ==> json_type_at_row(text@, path@) is None,
{
    match get_shape_at(text, path) {
        Some(shape) => Some(get_json_type(&shape)),
        None => None,
    }
}

/// The length of the array that `path` selects in the JSON of `text`.
pub fn get_array_length_at(text: &str, path: &str) -> (result: Option<u64>)
    ensures
        result == json_array_length_row(text@, path@),
{
    match get_shape_at(text, path) {
        Some(shape) => Some(get_array_length(&shape)),
        None => None,
    }
}

/// The length of the array that the JSON of `text` is.
pub fn get_array_length_of_document(text: &str) -> (result: Option<u64>)
    ensures
        result == json_array_length_of(text@),
{
    proof {
        reveal_strlit("$");
    }
    assert("$"@ =~= seq!['$']);
    match get_shape_at(text, "$") {
        Some(shape) => Some(get_array_length(&shape)),
        None => None,
    }
}

/// Checks each text of `column` and writes it back without white space.
///
/// Fails with `MalformedJson` at the first text that is no JSON.
pub fn json(column: &Vec<Option<String>>) -> (result: Result<Vec<Option<String>>, JsonError>)
    ensures
        column_outcome(json_rows(column@), json_column_outcome(result)),
{
    let ghost rows = json_rows(column@);
    let mut out: Vec<Option<String>> = Vec::new();
    let mut i: usize = 0;
    while i < column.len()
        invariant
            i <= column.len(),
            out@.len() == i,
            rows == json_rows(column@),
            forall|j: int|
                0 <= j < i ==> match #[trigger] rows[j] {
                    None => text_cells(out@)[j] is None,
                    Some(row) => row is Ok && text_cells(out@)[j] == Some(row->Ok_0),
                },
        decreases column.len() - i,
    {
        match &column[i] {
            Some(text) => {
                match minify(text.as_str()) {
                    Ok(written) => {
                        out.push(Some(written));
                    },
                    Err(_) => {
                        assert(rows[i as int] == Some(
                            Err::<Seq<char>, JsonError>(JsonError::MalformedJson),
                        ));
                        return Err(JsonError::MalformedJson);
                    },
                }
            },
            None => {
                out.push(None);
            },
        }
        i += 1;
    }
    Ok(out)
}

/// For each text of `column`: 1 if it is well-formed JSON, 0 if not.
pub fn json_valid(column: &Vec<Option<String>>) -> (flags: Vec<Option<u8>>)
    ensures
        flags@ == json_valid_cells(column@),
{
    let mut flags: Vec<Option<u8>> = Vec::new();
    let mut i: usize = 0;
    while i < column.len()
        invariant
            i <= column.len(),
            flags@.len() == i,
            forall|j: int| 0 <= j < i ==> flags@[j] == json_valid_cells(column@)[j],
        decreases column.len() - i,
    {
        match &column[i] {
            Some(text) => {
                let valid: u8 = match document_shape(text.as_str()) {
                    Ok(_) => 1,
                    Err(_) => 0,
                };
                flags.push(Some(valid));
            },
            None => {
                flags.push(None);
            },
        }
        i += 1;
    }
    flags
}

/// The type's name of the outermost value of each text.
fn json_type_of_documents(column: &Vec<Option<String>>) -> (result: Result<
    Vec<Option<String>>,
    JsonError,
>)
    ensures
        column_outcome(json_type_rows(column@), json_column_outcome(result)),
{
    let ghost rows = json_type_rows(column@);
    let mut out: Vec<Option<String>> = Vec::new();
    let mut i: usize = 0;
    while i < column.len()
        invariant
            i <= column.len(),
            out@.len() == i,
            rows == json_type_rows(column@),
            forall|j: int|
                0 <= j < i ==> match #[trigger] rows[j] {
                    None => text_cells(out@)[j] is None,
                    Some(row) => row is Ok && text_cells(out@)[j] == Some(row->Ok_0),
                },
        decreases column.len() - i,
    {
        match &column[i] {
            Some(text) => {
                match get_json_string_type(text.as_str()) {
                    Ok(name) => {
                        out.push(Some(name));
                    },
                    Err(e) => {
                        assert(rows[i as int] == Some(Err::<Seq<char>, JsonError>(e)));
                        return Err(e);
                    },
                }
            },
            None => {
                out.push(None);
            },
        }
        i += 1;
    }
    Ok(out)
}

/// The type's name of the value that each path selects in its text.
fn json_type_at_paths(column: &Vec<Option<String>>, paths: &Vec<Option<String>>) -> (out: Vec<
    Option<String>,
>)
    ensures
        text_cells(out@) == json_type_at_cells(column@, paths@),
{
    let rows: usize = if column.len() <= paths.len() {
        column.len()
    } else {
        paths.len()
    };
    let mut out: Vec<Option<String>> = Vec::new();
    let mut i: usize = 0;
    while i < rows
        invariant
            i <= rows,
            rows == paired_len(column@, paths@),
            out@.len() == i,
            forall|j: int|
                0 <= j < i ==> text_cells(out@)[j] == json_type_at_cells(column@, paths@)[j],
        decreases rows - i,
    {
        let ghost before = out@;
        let cell: Option<String> = match (&column[i], &paths[i]) {
            (Some(text), Some(path)) => get_json_type_at(text.as_str(), path.as_str()),
            _ => None,
        };
        out.push(cell);
        proof {
            assert forall|j: int| 0 <= j <= i implies #[trigger] text_cells(out@)[j]
                == json_type_at_cells(column@, paths@)[j] by {
                if j < i {
                    assert(text_cells(out@)[j] == text_cells(before)[j]);
                }
            }
        }
        i += 1;
    }
    out
}

/// The type's name of a value in each text: of the outermost value where
/// `args` is one column of texts, of the value that a path selects where it
/// is a column of texts and a column of paths.
///
/// Fails with `WrongNumberOfArguments` for no column or more than two, and
/// with `MalformedJson` at the first text of a single column that is no
/// JSON. With paths nothing fails: a row whose path selects no single value,
/// or cannot be handed on (`is_answerable`), is missing in the result.
pub fn json_type(args: &Vec<Vec<Option<String>>>) -> (result: Result<
    Vec<Option<String>>,
    JsonError,
>)
    ensures
        (args@.len() == 0 || args@.len() > 2) ==> result == Err::<Vec<Option<String>>, JsonError>(
            JsonError::WrongNumberOfArguments,
        ),
        args@.len() == 1 ==> column_outcome(
            json_type_rows(args@[0]@),
            json_column_outcome(result),
        ),
        args@.len() == 2 ==> json_column_outcome(result) == Ok::<
            Seq<Option<Seq<char>>>,
            JsonError,
        >(json_type_at_cells(args@[0]@, args@[1]@)),
{
    if args.len() == 0 || args.len() > 2 {
        Err(JsonError::WrongNumberOfArguments)
    } else if args.len() == 1 {
        json_type_of_documents(&args[0])
    } else {
        Ok(json_type_at_paths(&args[0], &args[1]))
    }
}

/// The length of the array that is each text of `column`.
fn array_length_of_documents(column: &Vec<Option<String>>) -> (out: Vec<Option<u64>>)
    ensures
        out@ == json_array_length_cells(column@),
{
    let mut out: Vec<Option<u64>> = Vec::new();
    let mut i: usize = 0;
    while i < column.len()
        invariant
            i <= column.len(),
            out@.len() == i,
            forall|j: int| 0 <= j < i ==> out@[j] == json_array_length_cells(column@)[j],
        decreases column.len() - i,
    {
        match &column[i] {
            Some(text) => {
                out.push(get_array_length_of_document(text.as_str()));
            },
            None => {
                out.push(None);
            },
        }
        i += 1;
    }
    out
}

/// The length of the array that each path selects in its text.
fn array_length_at_paths(column: &Vec<Option<String>>, paths: &Vec<Option<String>>) -> (out: Vec<
    Option<u64>,
>)
    ensures
        out@ == json_array_length_at_cells(column@, paths@),
{
    let rows: usize = if column.len() <= paths.len() {
        column.len()
    } else {
        paths.len()
    };
    let mut out: Vec<Option<u64>> = Vec::new();
    let mut i: usize = 0;
    while i < rows
        invariant
            i <= rows,
            rows == paired_len(column@, paths@),
            out@.len() == i,
            forall|j: int| 0 <= j < i ==> out@[j] == json_array_length_at_cells(column@, paths@)[j],
        decreases rows - i,
    {
        match (&column[i], &paths[i]) {
            (Some(text), Some(path)) => {
                out.push(get_array_length_at(text.as_str(), path.as_str()));
            },
            _ => {
                out.push(None);
            },
        }
        i += 1;
    }
    out
}

/// The number of elements of an array in each text: of the text itself
/// where `args` is one column, of the value that a path selects where a
/// second column gives paths. Columns after the second are not read.
///
/// A value that is no array counts zero elements. A row is missing in the
/// result where the text is no JSON, or the path selects no single value or
/// cannot be handed on (`is_answerable`).
/// Fails with `MissingInput` where `args` is empty.
pub fn json_array_length(args: &Vec<Vec<Option<String>>>) -> (result: Result<
    Vec<Option<u64>>,
    JsonError,
>)
    ensures
        args@.len() == 0 ==> result == Err::<Vec<Option<u64>>, JsonError>(
            JsonError::MissingInput,
        ),
        args@.len() == 1 ==> (result matches Ok(out) && out@ == json_array_length_cells(
            args@[0]@,
        )),
        args@.len() >= 2 ==> (result matches Ok(out) && out@ == json_array_length_at_cells(
            args@[0]@,
            args@[1]@,
        )),
{
    if args.len() == 0 {
        Err(JsonError::MissingInput)
    } else if args.len() == 1 {
        Ok(array_length_of_documents(&args[0]))
    } else {
        Ok(array_length_at_paths(&args[0], &args[1]))
    }
}

} // verus!
