//! Classification of raw JSON into a batch input.
//!
//! The raw text is parsed by serde_json behind a trusted boundary; the
//! resulting tree is mirrored into [`JsonValue`], and the verified logic
//! here decides which of the three batch shapes it matches, trying them in
//! a fixed priority order: a version map (an object whose values are all
//! strings), then a name list (an object with a "crates" array of
//! strings), then an operation list (an object with an "operations" array
//! of operation objects).

use vstd::prelude::*;
use vstd::string::*;
use crate::error::CrateCheckerError;
use crate::types::{
    BatchInput, BatchInputView, BatchOperation, BatchOperationView, BatchTarget, BatchTargetView,
};

verus! {

/// A JSON document, with object members in the order serde_json reports
/// them. Numbers are never read by the batch shapes, so their value is not
/// carried.
#[derive(Debug, PartialEq)]
pub enum JsonValue {
    Null,
    Bool(bool),
    Number,
    Str(String),
    Arr(Vec<JsonValue>),
    Obj(Vec<(String, JsonValue)>),
}

#[verifier::external_type_specification]
#[verifier::external_body]
pub struct ExValue(serde_json::Value);

/// Relies on serde_json::Value's variants: mirrors a parsed tree into
/// [`JsonValue`], one arm per variant, dropping only numeric payloads.
#[verifier::external_body]
fn of_value(v: serde_json::Value) -> JsonValue {
    match v {
        serde_json::Value::Null => JsonValue::Null,
        serde_json::Value::Bool(b) => JsonValue::Bool(b),
        serde_json::Value::Number(_) => JsonValue::Number,
        serde_json::Value::String(s) => JsonValue::Str(s),
        serde_json::Value::Array(a) => JsonValue::Arr(a.into_iter().map(of_value).collect()),
        serde_json::Value::Object(o) => JsonValue::Obj(
            o.into_iter().map(|(k, w)| (k, of_value(w))).collect(),
        ),
    }
}

/// What serde_json makes of a text: the parsed document, or the parser's
/// error message. Parsing depends on the text alone.
pub uninterp spec fn json_of(s: Seq<char>) -> Result<JsonValue, Seq<char>>;

/// Relies on serde_json::from_str::<serde_json::Value>: parses the text
/// into a JSON tree, or reports a parse error.
#[verifier::external_body]
fn parse_json_text(s: &str) -> (r: Result<JsonValue, String>)
    ensures
        match r {
            Ok(v) => json_of(s@) matches Ok(w) && w == v,
            Err(m) => json_of(s@) matches Err(em) && em == m@,
        },
{
    match serde_json::from_str::<serde_json::Value>(s) {
        Ok(v) => Ok(of_value(v)),
        Err(e) => Err(e.to_string()),
    }
}

/// The value under the first member with this key, if any.
pub open spec fn spec_obj_lookup(fields: Seq<(String, JsonValue)>, key: Seq<char>) -> Option<
    JsonValue,
>
    decreases fields.len(),
{
    if fields.len() == 0 {
        None
    } else if fields.first().0@ == key {
        Some(fields.first().1)
    } else {
        spec_obj_lookup(fields.drop_first(), key)
    }
}

proof fn lemma_obj_lookup_found(fields: Seq<(String, JsonValue)>, key: Seq<char>, i: int)
    requires
        0 <= i < fields.len(),
        fields[i].0@ == key,
        forall|j: int| 0 <= j < i ==> (#[trigger] fields[j]).0@ != key,
    ensures
        spec_obj_lookup(fields, key) == Some(fields[i].1),
    decreases fields.len(),
{
    if i > 0 {
        lemma_obj_lookup_found(fields.drop_first(), key, i - 1);
    }
}

proof fn lemma_obj_lookup_missing(fields: Seq<(String, JsonValue)>, key: Seq<char>)
    requires
        forall|j: int| 0 <= j < fields.len() ==> (#[trigger] fields[j]).0@ != key,
    ensures
        spec_obj_lookup(fields, key) is None,
    decreases fields.len(),
{
    if fields.len() > 0 {
        lemma_obj_lookup_missing(fields.drop_first(), key);
    }
}

/// Find the first member with this key.
fn obj_lookup<'a>(fields: &'a Vec<(String, JsonValue)>, key: &str) -> (r: Option<&'a JsonValue>)
    ensures
        match r {
            Some(v) => spec_obj_lookup(fields@, key@) == Some(*v),
            None => spec_obj_lookup(fields@, key@) is None,
        },
{
    let mut i: usize = 0;
    while i < fields.len()
        invariant
            0 <= i <= fields@.len(),
            forall|j: int| 0 <= j < i ==> (#[trigger] fields@[j]).0@ != key@,
        decreases fields@.len() - i,
    {
        if crate::text::str_eq(fields[i].0.as_str(), key) {
            proof {
                lemma_obj_lookup_found(fields@, key@, i as int);
            }
            return Some(&fields[i].1);
        }
        i = i + 1;
    }
    proof {
        lemma_obj_lookup_missing(fields@, key@);
    }
    None
}

/// Whether every member value of an object is a string.
pub open spec fn spec_all_string_values(fields: Seq<(String, JsonValue)>) -> bool {
    forall|i: int| 0 <= i < fields.len() ==> (#[trigger] fields[i]).1 is Str
}

/// The members of an all-string object as name/version pairs, in order.
pub open spec fn spec_string_pairs(fields: Seq<(String, JsonValue)>) -> Seq<(Seq<char>, Seq<char>)>
    decreases fields.len(),
{
    if fields.len() == 0 {
        Seq::empty()
    } else {
        spec_string_pairs(fields.drop_last()) + seq![
            (fields.last().0@, fields.last().1->Str_0@),
        ]
    }
}

/// Whether every element of an array is a string.
pub open spec fn spec_all_strings(arr: Seq<JsonValue>) -> bool {
    forall|i: int| 0 <= i < arr.len() ==> (#[trigger] arr[i]) is Str
}

/// The elements of an all-string array, in order.
pub open spec fn spec_strings_of(arr: Seq<JsonValue>) -> Seq<Seq<char>>
    decreases arr.len(),
{
    if arr.len() == 0 {
        Seq::empty()
    } else {
        spec_strings_of(arr.drop_last()) + seq![arr.last()->Str_0@]
    }
}

fn all_string_values(fields: &Vec<(String, JsonValue)>) -> (b: bool)
    ensures
        b == spec_all_string_values(fields@),
{
    let mut i: usize = 0;
    while i < fields.len()
        invariant
            0 <= i <= fields@.len(),
            forall|j: int| 0 <= j < i ==> (#[trigger] fields@[j]).1 is Str,
        decreases fields@.len() - i,
    {
        match &fields[i].1 {
            JsonValue::Str(_) => {},
            _ => {
                return false;
            },
        }
        i = i + 1;
    }
    true
}

fn string_pairs(fields: &Vec<(String, JsonValue)>) -> (r: Vec<(String, String)>)
    requires
        spec_all_string_values(fields@),
    ensures
        r.deep_view() == spec_string_pairs(fields@),
{
    let mut r: Vec<(String, String)> = Vec::new();
    let mut i: usize = 0;
    while i < fields.len()
        invariant
            spec_all_string_values(fields@),
            0 <= i <= fields@.len(),
            r.deep_view() =~= spec_string_pairs(fields@.subrange(0, i as int)),
        decreases fields@.len() - i,
    {
        proof {
            assert(fields@.subrange(0, i + 1).drop_last() =~= fields@.subrange(0, i as int));
            assert(fields@.subrange(0, i + 1).last() == fields@[i as int]);
        }
        let name = fields[i].0.clone();
        match &fields[i].1 {
            JsonValue::Str(s) => {
                r.push((name, s.clone()));
            },
            _ => {
                proof {
                    assert(false);
                }
            },
        }
        proof {
            assert(r.deep_view() =~= spec_string_pairs(fields@.subrange(0, i + 1)));
        }
        i = i + 1;
    }
    proof {
        assert(fields@.subrange(0, fields@.len() as int) =~= fields@);
    }
    r
}

fn all_strings(arr: &Vec<JsonValue>) -> (b: bool)
    ensures
        b == spec_all_strings(arr@),
{
    let mut i: usize = 0;
    while i < arr.len()
        invariant
            0 <= i <= arr@.len(),
            forall|j: int| 0 <= j < i ==> (#[trigger] arr@[j]) is Str,
        decreases arr@.len() - i,
    {
        match &arr[i] {
            JsonValue::Str(_) => {},
            _ => {
                return false;
            },
        }
        i = i + 1;
    }
    true
}

fn strings_of(arr: &Vec<JsonValue>) -> (r: Vec<String>)
    requires
        spec_all_strings(arr@),
    ensures
        r.deep_view() == spec_strings_of(arr@),
{
    let mut r: Vec<String> = Vec::new();
    let mut i: usize = 0;
    while i < arr.len()
        invariant
            spec_all_strings(arr@),
            0 <= i <= arr@.len(),
            r.deep_view() =~= spec_strings_of(arr@.subrange(0, i as int)),
        decreases arr@.len() - i,
    {
        proof {
            assert(arr@.subrange(0, i + 1).drop_last() =~= arr@.subrange(0, i as int));
            assert(arr@.subrange(0, i + 1).last() == arr@[i as int]);
        }
        match &arr[i] {
            JsonValue::Str(s) => {
                r.push(s.clone());
            },
            _ => {
                proof {
                    assert(false);
                }
            },
        }
        proof {
            assert(r.deep_view() =~= spec_strings_of(arr@.subrange(0, i + 1)));
        }
        i = i + 1;
    }
    proof {
        assert(arr@.subrange(0, arr@.len() as int) =~= arr@);
    }
    r
}

/// What an operation object classifies as: its label must be a string; a
/// string "crate" member (with at most a string "version") makes a single
/// target, else a "crates" array of strings makes a multiple target.
pub open spec fn spec_multi_target_of(
    fields: Seq<(String, JsonValue)>,
    op: Seq<char>,
) -> Option<BatchOperationView> {
    match spec_obj_lookup(fields, "crates"@) {
        Some(JsonValue::Arr(crates)) => if spec_all_strings(crates@) {
            Some(
                BatchOperationView {
                    target: BatchTargetView::Multiple { crates: spec_strings_of(crates@) },
                    operation: op,
                },
            )
        } else {
            None
        },
        _ => None,
    }
}

pub open spec fn spec_op_of(v: JsonValue) -> Option<BatchOperationView> {
    match v {
        JsonValue::Obj(fields) => match spec_obj_lookup(fields@, "operation"@) {
            Some(JsonValue::Str(op)) => {
                let version = spec_obj_lookup(fields@, "version"@);
                let version_ok = version is None || (version matches Some(JsonValue::Str(_)));
                match spec_obj_lookup(fields@, "crate"@) {
                    Some(JsonValue::Str(name)) => if version_ok {
                        Some(
                            BatchOperationView {
                                target: BatchTargetView::Single {
                                    crate_name: name@,
                                    version: match version {
                                        Some(JsonValue::Str(ver)) => Some(ver@),
                                        _ => None,
                                    },
                                },
                                operation: op@,
                            },
                        )
                    } else {
                        spec_multi_target_of(fields@, op@)
                    },
                    _ => spec_multi_target_of(fields@, op@),
                }
            },
            _ => None,
        },
        _ => None,
    }
}

fn op_of(v: &JsonValue) -> (r: Option<BatchOperation>)
    ensures
        (r is Some) == (spec_op_of(*v) is Some),
        r matches Some(op) ==> Some(op@) == spec_op_of(*v),
{
    let fields = match v {
        JsonValue::Obj(fields) => fields,
        _ => {
            return None;
        },
    };
    let op_label = match obj_lookup(fields, "operation") {
        Some(JsonValue::Str(op)) => op.clone(),
        _ => {
            return None;
        },
    };
    let version_field = obj_lookup(fields, "version");
    let version_ok = match version_field {
        None => true,
        Some(JsonValue::Str(_)) => true,
        Some(_) => false,
    };
    match obj_lookup(fields, "crate") {
        Some(JsonValue::Str(name)) if version_ok => {
            let version: Option<String> = match version_field {
                Some(JsonValue::Str(ver)) => Some(ver.clone()),
                _ => None,
            };
            return Some(
                BatchOperation {
                    target: BatchTarget::Single { crate_name: name.clone(), version },
                    operation: op_label,
                },
            );
        },
        _ => {},
    }
    match obj_lookup(fields, "crates") {
        Some(JsonValue::Arr(crates)) => {
            if all_strings(crates) {
                Some(
                    BatchOperation {
                        target: BatchTarget::Multiple { crates: strings_of(crates) },
                        operation: op_label,
                    },
                )
            } else {
                None
            }
        },
        _ => None,
    }
}

/// What an "operations" array classifies as: every element must be an
/// operation object.
pub open spec fn spec_ops_of(arr: Seq<JsonValue>) -> Option<Seq<BatchOperationView>>
    decreases arr.len(),
{
    if arr.len() == 0 {
        Some(Seq::empty())
    } else {
        match (spec_ops_of(arr.drop_last()), spec_op_of(arr.last())) {
            (Some(init), Some(op)) => Some(init + seq![op]),
            _ => None,
        }
    }
}

fn ops_of(arr: &Vec<JsonValue>) -> (r: Option<Vec<BatchOperation>>)
    ensures
        (r is Some) == (spec_ops_of(arr@) is Some),
        r matches Some(ops) ==> Some(
            Seq::new(ops@.len(), |i: int| ops@[i]@),
        ) == spec_ops_of(arr@),
{
    let mut out: Vec<BatchOperation> = Vec::new();
    let mut i: usize = 0;
    while i < arr.len()
        invariant
            0 <= i <= arr@.len(),
            spec_ops_of(arr@.subrange(0, i as int)) matches Some(s) && s =~= Seq::new(
                out@.len(),
                |k: int| out@[k]@,
            ),
        decreases arr@.len() - i,
    {
        proof {
            assert(arr@.subrange(0, i + 1).drop_last() =~= arr@.subrange(0, i as int));
            assert(arr@.subrange(0, i + 1).last() == arr@[i as int]);
        }
        match op_of(&arr[i]) {
            Some(op) => {
                out.push(op);
                proof {
                    assert(spec_ops_of(arr@.subrange(0, i + 1)) matches Some(s) && s =~= Seq::new(
                        out@.len(),
                        |k: int| out@[k]@,
                    ));
                }
            },
            None => {
                proof {
                    lemma_ops_of_bad(arr@, i as int);
                }
                return None;
            },
        }
        i = i + 1;
    }
    proof {
        assert(arr@.subrange(0, arr@.len() as int) =~= arr@);
    }
    Some(out)
}

proof fn lemma_ops_of_bad(arr: Seq<JsonValue>, i: int)
    requires
        0 <= i < arr.len(),
        spec_op_of(arr[i]) is None,
    ensures
        spec_ops_of(arr) is None,
    decreases arr.len(),
{
    if i < arr.len() - 1 {
        lemma_ops_of_bad(arr.drop_last(), i);
    }
}

/// What a JSON document classifies as, trying the three shapes in priority
/// order: a version map when the document is an object whose values are
/// all strings; else a name list when it holds a "crates" array of
/// strings; else an operation list when it holds an "operations" array of
/// operation objects; else nothing.
pub open spec fn spec_name_list_of(fields: Seq<(String, JsonValue)>) -> Option<BatchInputView> {
    match spec_obj_lookup(fields, "crates"@) {
        Some(JsonValue::Arr(arr)) => if spec_all_strings(arr@) {
            Some(BatchInputView::CrateList(spec_strings_of(arr@)))
        } else {
            None
        },
        _ => None,
    }
}

pub open spec fn spec_op_list_of(fields: Seq<(String, JsonValue)>) -> Option<BatchInputView> {
    match spec_obj_lookup(fields, "operations"@) {
        Some(JsonValue::Arr(arr)) => match spec_ops_of(arr@) {
            Some(ops) => Some(BatchInputView::Operations(ops)),
            None => None,
        },
        _ => None,
    }
}

pub open spec fn spec_batch_input_of(v: JsonValue) -> Option<BatchInputView> {
    match v {
        JsonValue::Obj(fields) => {
            if spec_all_string_values(fields@) {
                Some(BatchInputView::CrateVersionMap(spec_string_pairs(fields@)))
            } else if spec_name_list_of(fields@) is Some {
                spec_name_list_of(fields@)
            } else {
                spec_op_list_of(fields@)
            }
        },
        _ => None,
    }
}

/// Classify a JSON document into a batch input, trying the three shapes in
/// priority order.
pub fn batch_input_from_json(v: &JsonValue) -> (r: Option<BatchInput>)
    ensures
        (r is Some) == (spec_batch_input_of(*v) is Some),
        r matches Some(b) ==> Some(b@) == spec_batch_input_of(*v),
{
    let fields = match v {
        JsonValue::Obj(fields) => fields,
        _ => {
            return None;
        },
    };
    if all_string_values(fields) {
        return Some(BatchInput::CrateVersionMap(string_pairs(fields)));
    }
    match obj_lookup(fields, "crates") {
        Some(JsonValue::Arr(arr)) => {
            if all_strings(arr) {
                return Some(BatchInput::CrateList { crates: strings_of(arr) });
            }
        },
        _ => {},
    }
    match obj_lookup(fields, "operations") {
        Some(JsonValue::Arr(arr)) => {
            match ops_of(arr) {
                Some(operations) => {
                    let r = BatchInput::Operations { operations };
                    proof {
                        assert(r@ matches BatchInputView::Operations(ops) && Some(ops)
                            == spec_ops_of(arr@));
                    }
                    Some(r)
                },
                None => None,
            }
        },
        _ => None,
    }
}

/// Whether an object has a member with this key.
pub open spec fn spec_has_key(fields: Seq<(String, JsonValue)>, key: Seq<char>) -> bool {
    spec_obj_lookup(fields, key) is Some
}

/// The hint given when a JSON document matches none of the batch shapes,
/// chosen from its structure.
pub open spec fn spec_shape_hint(v: JsonValue) -> Seq<char> {
    match v {
        JsonValue::Obj(fields) => {
            if spec_has_key(fields@, "operations"@) {
                "Invalid operations format. Expected array of operation objects."@
            } else if spec_has_key(fields@, "crates"@) {
                "Invalid crates list format. Expected array of strings."@
            } else {
                "Looks like a crate-version map, but some values may be invalid."@
            }
        },
        _ => "Expected JSON object for batch input."@,
    }
}

fn shape_hint(v: &JsonValue) -> (r: &'static str)
    ensures
        r@ == spec_shape_hint(*v),
{
    match v {
        JsonValue::Obj(fields) => {
            if obj_lookup(fields, "operations").is_some() {
                "Invalid operations format. Expected array of operation objects."
            } else if obj_lookup(fields, "crates").is_some() {
                "Invalid crates list format. Expected array of strings."
            } else {
                "Looks like a crate-version map, but some values may be invalid."
            }
        },
        _ => "Expected JSON object for batch input.",
    }
}

/// Parse JSON text into a batch input: the text must parse as JSON and
/// match one of the three batch shapes, in priority order; otherwise the
/// input is rejected with a message describing what went wrong.
pub fn parse_json_input(json: &str) -> (r: Result<BatchInput, CrateCheckerError>)
    ensures
        json_of(json@) matches Err(em) ==> (r matches Err(e)
            && e matches CrateCheckerError::InvalidBatchInput(m) && m@ == "Invalid JSON: "@ + em),
        json_of(json@) matches Ok(v) ==> match spec_batch_input_of(v) {
            Some(b) => r matches Ok(input) && input@ == b,
            None => r matches Err(e) && e matches CrateCheckerError::InvalidBatchInput(m) && m@
                == spec_shape_hint(v),
        },
{
    match parse_json_text(json) {
        Ok(value) => {
            match batch_input_from_json(&value) {
                Some(input) => Ok(input),
                None => Err(
                    CrateCheckerError::InvalidBatchInput(shape_hint(&value).to_owned()),
                ),
            }
        },
        Err(parse_error) => {
            let mut m = "Invalid JSON: ".to_owned();
            m.append(parse_error.as_str());
            Err(CrateCheckerError::InvalidBatchInput(m))
        },
    }
}

} // verus!
