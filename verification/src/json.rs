//! A plain model of the JSON values the portal returns, and the envelope
//! normalization over it.
//!
//! List endpoints wrap their payload in one of three envelope shapes: a
//! `resultList` field, an `object` field holding either the array itself or
//! a further `aaData` / `resultsList` wrapper, or a bare array of nullable
//! elements.  [`unwrap_envelope`] reduces the first two uniformly to the
//! flat payload list; [`decode_nullable_string_list`] handles the third.

use vstd::prelude::*;
use vstd::string::StringExecFns;
use crate::errors::Error;
use crate::strutil;

verus! {

/// A JSON value as the portal's endpoints deliver it: scalars, arrays and
/// objects with ordered fields.  Non-integral numbers do not occur in the
/// fields this crate reads; a caller that meets one hands it over as its
/// textual form.
#[derive(Debug)]
pub enum JsonValue {
    Null,
    Bool(bool),
    Int(i64),
    Str(String),
    Arr(Vec<JsonValue>),
    Obj(Vec<(String, JsonValue)>),
}

/// The mathematical shape of a [`JsonValue`], used in contracts.
pub ghost enum JVal {
    Null,
    Bool(bool),
    Int(int),
    Str(Seq<char>),
    Arr(Seq<JVal>),
    Obj(Seq<(Seq<char>, JVal)>),
}

/// The abstraction of a JSON value.
pub open spec fn jval(v: JsonValue) -> JVal
    decreases v, 1int,
{
    match v {
        JsonValue::Null => JVal::Null,
        JsonValue::Bool(b) => JVal::Bool(b),
        JsonValue::Int(i) => JVal::Int(i as int),
        JsonValue::Str(s) => JVal::Str(s@),
        JsonValue::Arr(items) => JVal::Arr(jval_seq(items@)),
        JsonValue::Obj(fields) => JVal::Obj(jval_fields(fields@)),
    }
}

/// The abstraction of a sequence of JSON values, element by element.
pub open spec fn jval_seq(items: Seq<JsonValue>) -> Seq<JVal>
    decreases items, 0int,
{
    if items.len() == 0 {
        Seq::empty()
    } else {
        seq![jval(items[0])] + jval_seq(items.subrange(1, items.len() as int))
    }
}

/// The abstraction of the field list of a JSON object, in field order.
pub open spec fn jval_fields(fields: Seq<(String, JsonValue)>) -> Seq<(Seq<char>, JVal)>
    decreases fields, 0int,
{
    if fields.len() == 0 {
        Seq::empty()
    } else {
        seq![(fields[0].0@, jval(fields[0].1))] + jval_fields(
            fields.subrange(1, fields.len() as int),
        )
    }
}

/// `jval_seq` maps the sequence element by element.
pub proof fn lemma_jval_seq_index(items: Seq<JsonValue>)
    ensures
        jval_seq(items).len() == items.len(),
        forall|i: int| 0 <= i < items.len() ==> jval_seq(items)[i] == jval(items[i]),
    decreases items.len(),
{
    if items.len() > 0 {
        lemma_jval_seq_index(items.subrange(1, items.len() as int));
    }
}

/// `jval_fields` maps the field list entry by entry.
pub proof fn lemma_jval_fields_index(fields: Seq<(String, JsonValue)>)
    ensures
        jval_fields(fields).len() == fields.len(),
        forall|i: int|
            0 <= i < fields.len() ==> jval_fields(fields)[i] == (fields[i].0@, jval(fields[i].1)),
    decreases fields.len(),
{
    if fields.len() > 0 {
        lemma_jval_fields_index(fields.subrange(1, fields.len() as int));
    }
}

/// The value under the first occurrence of `key` in a field list.
pub open spec fn jlookup(fields: Seq<(Seq<char>, JVal)>, key: Seq<char>) -> Option<JVal>
    decreases fields.len(),
{
    if fields.len() == 0 {
        None
    } else if fields[0].0 == key {
        Some(fields[0].1)
    } else {
        jlookup(fields.subrange(1, fields.len() as int), key)
    }
}

/// The value under `key` when `v` is an object that carries it.
pub open spec fn jget(v: JVal, key: Seq<char>) -> Option<JVal> {
    match v {
        JVal::Obj(fields) => jlookup(fields, key),
        _ => None,
    }
}

/// Skipping a prefix of fields whose keys all differ from `key` does not
/// change the lookup.
proof fn lemma_jlookup_skip(fields: Seq<(Seq<char>, JVal)>, key: Seq<char>, i: int)
    requires
        0 <= i <= fields.len(),
        forall|j: int| 0 <= j < i ==> fields[j].0 != key,
    ensures
        jlookup(fields, key) == jlookup(fields.subrange(i, fields.len() as int), key),
    decreases i,
{
    if i == 0 {
        assert(fields.subrange(0, fields.len() as int) =~= fields);
    } else {
        let rest = fields.subrange(1, fields.len() as int);
        lemma_jlookup_skip(rest, key, i - 1);
        assert(rest.subrange(i - 1, rest.len() as int) =~= fields.subrange(
            i,
            fields.len() as int,
        ));
    }
}

/// A reference to the value under the first occurrence of `key` in `v`,
/// when `v` is an object that carries it.
pub fn obj_get<'a>(v: &'a JsonValue, key: &str) -> (r: Option<&'a JsonValue>)
    ensures
        match r {
            Some(x) => jget(jval(*v), key@) == Some(jval(*x)),
            None => jget(jval(*v), key@) is None,
        },
{
    match v {
        JsonValue::Obj(fields) => {
            let ghost gfields = jval_fields(fields@);
            proof {
                lemma_jval_fields_index(fields@);
            }
            let n = fields.len();
            let mut i: usize = 0;
            while i < n
                invariant
                    jval(*v) == JVal::Obj(gfields),
                    0 <= i <= n,
                    n == fields@.len(),
                    gfields == jval_fields(fields@),
                    gfields.len() == n,
                    forall|j: int|
                        0 <= j < n ==> #[trigger] gfields[j] == (fields@[j].0@, jval(fields@[j].1)),
                    forall|j: int| 0 <= j < i ==> #[trigger] gfields[j].0 != key@,
                decreases n - i,
            {
                if strutil::str_eq(fields[i].0.as_str(), key) {
                    proof {
                        lemma_jlookup_skip(gfields, key@, i as int);
                        assert(gfields.subrange(i as int, n as int)[0] == gfields[i as int]);
                    }
                    return Some(&fields[i].1);
                }
                i += 1;
            }
            proof {
                lemma_jlookup_skip(gfields, key@, n as int);
            }
            None
        },
        _ => None,
    }
}

/// Take the value under the first occurrence of `key` out of a field list.
/// Where the key is absent the fields are left as they were.
#[verifier::loop_isolation(false)]
fn obj_take(fields: &mut Vec<(String, JsonValue)>, key: &str) -> (r: Option<JsonValue>)
    ensures
        match r {
            Some(x) => jlookup(jval_fields(old(fields)@), key@) == Some(jval(x)),
            None => jlookup(jval_fields(old(fields)@), key@) is None && final(fields)@ == old(
                fields,
            )@,
        },
{
    let ghost gfields = jval_fields(fields@);
    let ghost fields0 = fields@;
    proof {
        lemma_jval_fields_index(fields@);
    }
    let n = fields.len();
    let mut i: usize = 0;
    while i < n
        invariant
            fields@ == fields0,
            0 <= i <= n,
            n == fields@.len(),
            gfields == jval_fields(fields@),
            gfields.len() == n,
            forall|j: int|
                0 <= j < n ==> #[trigger] gfields[j] == (fields@[j].0@, jval(fields@[j].1)),
            forall|j: int| 0 <= j < i ==> #[trigger] gfields[j].0 != key@,
        decreases n - i,
    {
        if strutil::str_eq(fields[i].0.as_str(), key) {
            proof {
                lemma_jlookup_skip(gfields, key@, i as int);
                assert(gfields.subrange(i as int, n as int)[0] == gfields[i as int]);
            }
            let pair = fields.remove(i);
            return Some(pair.1);
        }
        i += 1;
    }
    proof {
        lemma_jlookup_skip(gfields, key@, n as int);
    }
    None
}

/// What the envelope normalization yields: the flat payload list of any of
/// the known wrapper shapes.
pub open spec fn spec_unwrap_envelope(v: JVal) -> Option<Seq<JVal>> {
    match v {
        JVal::Obj(fields) => match jlookup(fields, "resultList"@) {
            Some(JVal::Arr(items)) => Some(items),
            _ => match jlookup(fields, "object"@) {
                Some(JVal::Arr(items)) => Some(items),
                Some(JVal::Obj(inner)) => match jlookup(inner, "aaData"@) {
                    Some(JVal::Arr(items)) => Some(items),
                    _ => match jlookup(inner, "resultsList"@) {
                        Some(JVal::Arr(items)) => Some(items),
                        _ => None,
                    },
                },
                _ => None,
            },
        },
        _ => None,
    }
}

/// Whether the value under `key` is an array, an object, or something else,
/// reported without taking the value out.
enum FieldShape {
    MissingOrOther,
    IsArr,
    IsObj,
}

/// The shape of the value under `key` in a field list.
fn field_shape(fields: &Vec<(String, JsonValue)>, key: &str) -> (r: FieldShape)
    ensures
        ({
            let looked = jlookup(jval_fields(fields@), key@);
            match r {
                FieldShape::IsArr => looked matches Some(JVal::Arr(_)),
                FieldShape::IsObj => looked matches Some(JVal::Obj(_)),
                FieldShape::MissingOrOther => match looked {
                    Some(JVal::Arr(_)) => false,
                    Some(JVal::Obj(_)) => false,
                    _ => true,
                },
            }
        }),
{
    let ghost gfields = jval_fields(fields@);
    let ghost fields0 = fields@;
    proof {
        lemma_jval_fields_index(fields@);
    }
    let n = fields.len();
    let mut i: usize = 0;
    while i < n
        invariant
            fields@ == fields0,
            0 <= i <= n,
            n == fields@.len(),
            gfields == jval_fields(fields@),
            gfields.len() == n,
            forall|j: int|
                0 <= j < n ==> #[trigger] gfields[j] == (fields@[j].0@, jval(fields@[j].1)),
            forall|j: int| 0 <= j < i ==> #[trigger] gfields[j].0 != key@,
        decreases n - i,
    {
        if strutil::str_eq(fields[i].0.as_str(), key) {
            proof {
                lemma_jlookup_skip(gfields, key@, i as int);
                assert(gfields.subrange(i as int, n as int)[0] == gfields[i as int]);
            }
            return match &fields[i].1 {
                JsonValue::Arr(_) => FieldShape::IsArr,
                JsonValue::Obj(_) => FieldShape::IsObj,
                _ => FieldShape::MissingOrOther,
            };
        }
        i += 1;
    }
    proof {
        lemma_jlookup_skip(gfields, key@, n as int);
    }
    FieldShape::MissingOrOther
}

/// Unwrap a JSON envelope into its flat payload list.
///
/// The shapes `{resultList: [...]}`, `{object: [...]}`,
/// `{object: {aaData: [...]}}` and `{object: {resultsList: [...]}}` all
/// yield the inner list; anything else is a decode failure on the envelope.
pub fn unwrap_envelope(v: JsonValue) -> (r: Result<Vec<JsonValue>, Error>)
    ensures
        match r {
            Ok(items) => spec_unwrap_envelope(jval(v)) == Some(jval_seq(items@)),
            Err(e) => {
                &&& spec_unwrap_envelope(jval(v)) is None
                &&& (e matches Error::Decode { field, raw } && field@ == "envelope"@ && raw@
                    == raw_text(jval(v)))
            },
        },
{
    let ghost gv = jval(v);
    let raw = render_raw(&v);
    let envelope_err = Error::Decode { field: String::from_str("envelope"), raw };
    match v {
        JsonValue::Obj(mut fields) => {
            match field_shape(&fields, "resultList") {
                FieldShape::IsArr => {
                    let taken = obj_take(&mut fields, "resultList");
                    match taken {
                        Some(JsonValue::Arr(items)) => Ok(items),
                        _ => {
                            proof {
                                assert(false);
                            }
                            Err(envelope_err)
                        },
                    }
                },
                _ => {
                    match field_shape(&fields, "object") {
                        FieldShape::IsArr => {
                            let taken = obj_take(&mut fields, "object");
                            match taken {
                                Some(JsonValue::Arr(items)) => Ok(items),
                                _ => {
                                    proof {
                                        assert(false);
                                    }
                                    Err(envelope_err)
                                },
                            }
                        },
                        FieldShape::IsObj => {
                            let taken = obj_take(&mut fields, "object");
                            match taken {
                                Some(JsonValue::Obj(mut inner)) => {
                                    match field_shape(&inner, "aaData") {
                                        FieldShape::IsArr => {
                                            let taken2 = obj_take(&mut inner, "aaData");
                                            match taken2 {
                                                Some(JsonValue::Arr(items)) => Ok(items),
                                                _ => {
                                                    proof {
                                                        assert(false);
                                                    }
                                                    Err(envelope_err)
                                                },
                                            }
                                        },
                                        _ => {
                                            match field_shape(&inner, "resultsList") {
                                                FieldShape::IsArr => {
                                                    let taken2 = obj_take(&mut inner, "resultsList");
                                                    match taken2 {
                                                        Some(JsonValue::Arr(items)) => Ok(items),
                                                        _ => {
                                                            proof {
                                                                assert(false);
                                                            }
                                                            Err(envelope_err)
                                                        },
                                                    }
                                                },
                                                _ => Err(envelope_err),
                                            }
                                        },
                                    }
                                },
                                _ => {
                                    proof {
                                        assert(false);
                                    }
                                    Err(envelope_err)
                                },
                            }
                        },
                        FieldShape::MissingOrOther => Err(envelope_err),
                    }
                },
            }
        },
        _ => Err(envelope_err),
    }
}

/// A digit as its character.
pub open spec fn digit_char(d: int) -> char {
    if d == 0 {
        '0'
    } else if d == 1 {
        '1'
    } else if d == 2 {
        '2'
    } else if d == 3 {
        '3'
    } else if d == 4 {
        '4'
    } else if d == 5 {
        '5'
    } else if d == 6 {
        '6'
    } else if d == 7 {
        '7'
    } else if d == 8 {
        '8'
    } else {
        '9'
    }
}

/// The decimal spelling of a non-negative number.
pub open spec fn dec_str_nat(n: int) -> Seq<char>
    decreases n,
{
    if n < 10 {
        seq![digit_char(n)]
    } else {
        dec_str_nat(n / 10) + seq![digit_char(n % 10)]
    }
}

/// The decimal spelling of a number, with a leading minus where negative.
pub open spec fn dec_str_int(i: int) -> Seq<char> {
    if i < 0 {
        seq!['-'] + dec_str_nat(-i)
    } else {
        dec_str_nat(i)
    }
}

/// The digit `d` as a one-character piece of text.
fn digit_str(d: u64) -> (r: &'static str)
    requires
        d < 10,
    ensures
        r@ == seq![digit_char(d as int)],
{
    let r: &'static str = if d == 0 {
        "0"
    } else if d == 1 {
        "1"
    } else if d == 2 {
        "2"
    } else if d == 3 {
        "3"
    } else if d == 4 {
        "4"
    } else if d == 5 {
        "5"
    } else if d == 6 {
        "6"
    } else if d == 7 {
        "7"
    } else if d == 8 {
        "8"
    } else {
        "9"
    };
    proof {
        reveal_strlit("0");
        reveal_strlit("1");
        reveal_strlit("2");
        reveal_strlit("3");
        reveal_strlit("4");
        reveal_strlit("5");
        reveal_strlit("6");
        reveal_strlit("7");
        reveal_strlit("8");
        reveal_strlit("9");
        assert(r@ =~= seq![digit_char(d as int)]);
    }
    r
}

/// The decimal spelling of `m`.
fn dec_str_u64(m: u64) -> (r: String)
    ensures
        r@ == dec_str_nat(m as int),
    decreases m,
{
    if m < 10 {
        let s = digit_str(m);
        s.to_owned()
    } else {
        let mut s = dec_str_u64(m / 10);
        s.append(digit_str(m % 10));
        s
    }
}

/// The decimal spelling of `i`.
pub fn dec_str_i64(i: i64) -> (r: String)
    ensures
        r@ == dec_str_int(i as int),
{
    if i >= 0 {
        dec_str_u64(i as u64)
    } else {
        let j: i64 = -(i + 1);
        let m: u64 = (j as u64) + 1;
        let mut s = String::from_str("-");
        proof {
            reveal_strlit("-");
            assert(s@ =~= seq!['-']);
        }
        s.append(dec_str_u64(m).as_str());
        proof {
            assert(m as int == -(i as int));
        }
        s
    }
}

/// The short rendering of a raw JSON value carried inside decode errors:
/// scalars spell themselves, composites only say what they are.
pub open spec fn raw_text(v: JVal) -> Seq<char> {
    match v {
        JVal::Null => "null"@,
        JVal::Bool(b) => if b {
            "true"@
        } else {
            "false"@
        },
        JVal::Int(i) => dec_str_int(i),
        JVal::Str(s) => s,
        JVal::Arr(_) => "<array>"@,
        JVal::Obj(_) => "<object>"@,
    }
}

/// Render a raw JSON value for a decode error report.
pub fn render_raw(v: &JsonValue) -> (r: String)
    ensures
        r@ == raw_text(jval(*v)),
{
    match v {
        JsonValue::Null => String::from_str("null"),
        JsonValue::Bool(b) => {
            if *b {
                String::from_str("true")
            } else {
                String::from_str("false")
            }
        },
        JsonValue::Int(i) => dec_str_i64(*i),
        JsonValue::Str(s) => s.clone(),
        JsonValue::Arr(_) => String::from_str("<array>"),
        JsonValue::Obj(_) => String::from_str("<object>"),
    }
}

/// What decoding the bare nullable-element list yields: the non-null
/// entries in order, each of which must be a piece of text.
pub open spec fn spec_nullable_strings(items: Seq<JVal>) -> Option<Seq<Seq<char>>>
    decreases items.len(),
{
    if items.len() == 0 {
        Some(Seq::empty())
    } else {
        match spec_nullable_strings(items.subrange(1, items.len() as int)) {
            None => None,
            Some(rest) => match items[0] {
                JVal::Null => Some(rest),
                JVal::Str(s) => Some(seq![s] + rest),
                _ => None,
            },
        }
    }
}

/// Decode the bare array shape used by the semester-id list: a JSON array
/// of nullable text entries whose null entries are dropped rather than
/// erring.
pub fn decode_nullable_string_list(v: JsonValue) -> (r: Result<Vec<String>, Error>)
    ensures
        ({
            let gv = jval(v);
            match r {
                Ok(ids) => gv matches JVal::Arr(items) && spec_nullable_strings(items) == Some(
                    Seq::new(ids@.len(), |i: int| ids@[i]@),
                ),
                Err(e) => {
                    &&& (match gv {
                        JVal::Arr(items) => spec_nullable_strings(items) is None,
                        _ => true,
                    })
                    &&& (e matches Error::Decode { field, raw } && field@ == "semester list"@)
                },
            }
        }),
{
    let ghost gv = jval(v);
    match v {
        JsonValue::Arr(items) => {
            let ghost gitems = jval_seq(items@);
            proof {
                lemma_jval_seq_index(items@);
            }
            let n = items.len();
            let mut rev = crate::try_join::reversed(items);
            let mut out: Vec<String> = Vec::new();
            let mut i: usize = 0;
            proof {
                assert(gitems.subrange(0, n as int) =~= gitems);
                if spec_nullable_strings(gitems) is Some {
                    assert(Seq::<Seq<char>>::empty() + spec_nullable_strings(gitems)->Some_0
                        =~= spec_nullable_strings(gitems)->Some_0);
                }
            }
            while i < n
                invariant
                    gv == jval(v),
                    gv == JVal::Arr(gitems),
                    0 <= i <= n,
                    n == gitems.len(),
                    rev@.len() == n - i,
                    forall|k: int| 0 <= k < rev@.len() ==> jval(#[trigger] rev@[k]) == gitems[n - 1
                        - k],
                    ({
                        let done = Seq::new(out@.len(), |j: int| out@[j]@);
                        match spec_nullable_strings(gitems.subrange(i as int, n as int)) {
                            Some(rest) => spec_nullable_strings(gitems) == Some(done + rest),
                            None => spec_nullable_strings(gitems) is None,
                        }
                    }),
                decreases n - i,
            {
                let ghost done_before = Seq::new(out@.len(), |j: int| out@[j]@);
                let x = rev.pop().unwrap();
                proof {
                    assert(jval(x) == gitems[i as int]);
                    assert(gitems.subrange(i as int, n as int).len() > 0);
                    assert(gitems.subrange(i as int, n as int)[0] == gitems[i as int]);
                    assert(gitems.subrange(i as int, n as int).subrange(
                        1,
                        gitems.subrange(i as int, n as int).len() as int,
                    ) =~= gitems.subrange(i + 1, n as int));
                }
                match x {
                    JsonValue::Null => {},
                    JsonValue::Str(s) => {
                        out.push(s);
                        proof {
                            let done = Seq::new(out@.len(), |j: int| out@[j]@);
                            assert(done =~= done_before + seq![s@]);
                            if spec_nullable_strings(gitems.subrange(i + 1, n as int)) is Some {
                                let rest = spec_nullable_strings(
                                    gitems.subrange(i + 1, n as int),
                                )->Some_0;
                                assert(done_before + (seq![s@] + rest) =~= done + rest);
                            }
                        }
                    },
                    other => {
                        let raw = render_raw(&other);
                        return Err(
                            Error::Decode { field: String::from_str("semester list"), raw },
                        );
                    },
                }
                i += 1;
            }
            proof {
                assert(gitems.subrange(n as int, n as int).len() == 0);
                let done = Seq::new(out@.len(), |j: int| out@[j]@);
                assert(done + Seq::<Seq<char>>::empty() =~= done);
            }
            Ok(out)
        },
        other => {
            let raw = render_raw(&other);
            return Err(Error::Decode { field: String::from_str("semester list"), raw });
        },
    }
}


/// Round trip for the `{resultList: [...]}` envelope shape: wrapping a
/// payload list and unwrapping it again yields the same flat list.
pub proof fn lemma_envelope_result_list(items: Seq<JVal>)
    ensures
        spec_unwrap_envelope(JVal::Obj(seq![("resultList"@, JVal::Arr(items))])) == Some(items),
{
    let fields = seq![("resultList"@, JVal::Arr(items))];
    assert(fields[0].0 == "resultList"@);
    assert(jlookup(fields, "resultList"@) == Some(JVal::Arr(items)));
}

/// Round trip for the `{object: [...]}` envelope shape.
pub proof fn lemma_envelope_object_array(items: Seq<JVal>)
    ensures
        spec_unwrap_envelope(JVal::Obj(seq![("object"@, JVal::Arr(items))])) == Some(items),
{
    let fields = seq![("object"@, JVal::Arr(items))];
    reveal_strlit("resultList");
    reveal_strlit("object");
    assert("object"@.len() != "resultList"@.len());
    assert(fields[0].0 != "resultList"@);
    assert(fields.subrange(1, 1) =~= Seq::<(Seq<char>, JVal)>::empty());
    assert(jlookup(Seq::<(Seq<char>, JVal)>::empty(), "resultList"@) is None);
    assert(jlookup(fields, "resultList"@) is None);
    assert(jlookup(fields, "object"@) == Some(JVal::Arr(items)));
}

/// Round trip for the `{object: {aaData: [...]}}` envelope shape.
pub proof fn lemma_envelope_aa_data(items: Seq<JVal>)
    ensures
        spec_unwrap_envelope(
            JVal::Obj(seq![("object"@, JVal::Obj(seq![("aaData"@, JVal::Arr(items))]))]),
        ) == Some(items),
{
    let inner = seq![("aaData"@, JVal::Arr(items))];
    let fields = seq![("object"@, JVal::Obj(inner))];
    reveal_strlit("resultList");
    reveal_strlit("object");
    reveal_strlit("aaData");
    assert("object"@.len() != "resultList"@.len());
    assert(fields[0].0 != "resultList"@);
    assert(fields.subrange(1, 1) =~= Seq::<(Seq<char>, JVal)>::empty());
    assert(jlookup(Seq::<(Seq<char>, JVal)>::empty(), "resultList"@) is None);
    assert(jlookup(fields, "resultList"@) is None);
    assert(jlookup(fields, "object"@) == Some(JVal::Obj(inner)));
    assert(inner[0].0 == "aaData"@);
    assert(jlookup(inner, "aaData"@) == Some(JVal::Arr(items)));
}

/// Round trip for the `{object: {resultsList: [...]}}` envelope shape.
pub proof fn lemma_envelope_results_list(items: Seq<JVal>)
    ensures
        spec_unwrap_envelope(
            JVal::Obj(seq![("object"@, JVal::Obj(seq![("resultsList"@, JVal::Arr(items))]))]),
        ) == Some(items),
{
    let inner = seq![("resultsList"@, JVal::Arr(items))];
    let fields = seq![("object"@, JVal::Obj(inner))];
    reveal_strlit("resultList");
    reveal_strlit("object");
    reveal_strlit("aaData");
    reveal_strlit("resultsList");
    assert("object"@.len() != "resultList"@.len());
    assert(fields[0].0 != "resultList"@);
    assert(fields.subrange(1, 1) =~= Seq::<(Seq<char>, JVal)>::empty());
    assert(jlookup(Seq::<(Seq<char>, JVal)>::empty(), "resultList"@) is None);
    assert(jlookup(fields, "resultList"@) is None);
    assert(jlookup(fields, "object"@) == Some(JVal::Obj(inner)));
    assert("aaData"@.len() != "resultsList"@.len());
    assert(inner[0].0 != "aaData"@);
    assert(inner.subrange(1, 1) =~= Seq::<(Seq<char>, JVal)>::empty());
    assert(jlookup(Seq::<(Seq<char>, JVal)>::empty(), "aaData"@) is None);
    assert(jlookup(inner, "aaData"@) is None);
    assert(jlookup(inner, "resultsList"@) == Some(JVal::Arr(items)));
}

/// The bare nullable-array shape keeps every non-null entry, in order: a
/// list of present entries decodes to exactly itself.
pub proof fn lemma_nullable_round_trip(texts: Seq<Seq<char>>)
    ensures
        spec_nullable_strings(Seq::new(texts.len(), |i: int| JVal::Str(texts[i]))) == Some(texts),
    decreases texts.len(),
{
    let items = Seq::new(texts.len(), |i: int| JVal::Str(texts[i]));
    if texts.len() == 0 {
        assert(items.len() == 0);
        assert(spec_nullable_strings(items) == Some(Seq::<Seq<char>>::empty()));
        assert(Seq::<Seq<char>>::empty() =~= texts);
    } else {
        let tail_texts = texts.subrange(1, texts.len() as int);
        lemma_nullable_round_trip(tail_texts);
        let tail_items = Seq::new(tail_texts.len(), |i: int| JVal::Str(tail_texts[i]));
        assert(items.subrange(1, items.len() as int) =~= tail_items);
        assert(items[0] == JVal::Str(texts[0]));
        assert(seq![texts[0]] + tail_texts =~= texts);
    }
}

} // verus!
