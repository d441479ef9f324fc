//! The JSON texts this API speaks: a verified renderer for request bodies
//! and a verified parser for response bodies.
//!
//! The grammar covers what the MKS wire format uses: `null`, booleans,
//! non-negative integers, strings (with the standard escapes, including
//! `\uXXXX` and surrogate pairs), arrays, and objects.  Fractions,
//! exponents, and negative numbers do not occur in the API's schemas and
//! are rejected, which surfaces as a deserialization failure.

use vstd::prelude::*;
use vstd::string::StrSliceExecFns;

use crate::text::{dec_str, push_char};

verus! {

broadcast use {vstd::group_vstd_default, vstd::std_specs::vec::group_vec_axioms};

/// A parsed JSON value.
pub enum Json {
    Null,
    Bool(bool),
    UInt(u64),
    Str(String),
    Arr(Vec<Json>),
    Obj(Vec<(String, Json)>),
}

/// The mathematical model of a [`Json`] value.
pub enum JsonModel {
    Null,
    Bool(bool),
    UInt(u64),
    Str(Seq<char>),
    Arr(Seq<JsonModel>),
    Obj(Seq<(Seq<char>, JsonModel)>),
}

impl View for Json {
    type V = JsonModel;

    open spec fn view(&self) -> JsonModel
        decreases self,
    {
        match self {
            Json::Null => JsonModel::Null,
            Json::Bool(b) => JsonModel::Bool(*b),
            Json::UInt(n) => JsonModel::UInt(*n),
            Json::Str(s) => JsonModel::Str(s@),
            Json::Arr(items) => JsonModel::Arr(items_model(items@)),
            Json::Obj(fields) => JsonModel::Obj(fields_model(fields@)),
        }
    }
}

/// The models of a sequence of values.
pub open spec fn items_model(items: Seq<Json>) -> Seq<JsonModel>
    decreases items,
{
    if items.len() == 0 {
        Seq::empty()
    } else {
        items_model(items.drop_last()).push(items.last()@)
    }
}

/// The models of a sequence of fields.
pub open spec fn fields_model(fields: Seq<(String, Json)>) -> Seq<(Seq<char>, JsonModel)>
    decreases fields,
{
    if fields.len() == 0 {
        Seq::empty()
    } else {
        fields_model(fields.drop_last()).push((fields.last().0@, fields.last().1@))
    }
}

/// The model of a value sequence has one entry per value, in order.
pub proof fn lemma_items_model(items: Seq<Json>)
    ensures
        items_model(items).len() == items.len(),
        forall|i: int| 0 <= i < items.len() ==> items_model(items)[i] == items[i]@,
    decreases items.len(),
{
    if items.len() > 0 {
        lemma_items_model(items.drop_last());
        let tail = items_model(items.drop_last());
        let full = tail.push(items.last()@);
        assert(items_model(items) == full);
        assert(full.len() == tail.len() + 1);
        assert forall|i: int| 0 <= i < items.len() implies items_model(items)[i] == items[i]@ by {
            if i < items.len() - 1 {
                assert(full[i] == tail[i]);
                assert(items.drop_last()[i] == items[i]);
            } else {
                assert(full[i] == items.last()@);
                assert(items.last() == items[i]);
            }
        }
    }
}

/// The model of a field sequence has one entry per field, in order.
pub proof fn lemma_fields_model(fields: Seq<(String, Json)>)
    ensures
        fields_model(fields).len() == fields.len(),
        forall|i: int|
            0 <= i < fields.len() ==> fields_model(fields)[i] == (
                fields[i].0@,
                fields[i].1@,
            ),
    decreases fields.len(),
{
    if fields.len() > 0 {
        lemma_fields_model(fields.drop_last());
        let tail = fields_model(fields.drop_last());
        let full = tail.push((fields.last().0@, fields.last().1@));
        assert(fields_model(fields) == full);
        assert(full.len() == tail.len() + 1);
        assert forall|i: int|
            0 <= i < fields.len() implies fields_model(fields)[i] == (
                fields[i].0@,
                fields[i].1@,
            ) by {
            if i < fields.len() - 1 {
                assert(full[i] == tail[i]);
                assert(fields.drop_last()[i] == fields[i]);
            } else {
                assert(full[i] == (fields.last().0@, fields.last().1@));
                assert(fields.last() == fields[i]);
            }
        }
    }
}

/// The value of the first field named `key`, if any.
pub open spec fn obj_lookup(fields: Seq<(Seq<char>, JsonModel)>, key: Seq<char>) -> Option<
    JsonModel,
>
    decreases fields.len(),
{
    if fields.len() == 0 {
        None
    } else if fields[0].0 == key {
        Some(fields[0].1)
    } else {
        obj_lookup(fields.drop_first(), key)
    }
}

/// Find the value of the first field named `key` in an object's field list.
pub fn lookup<'a>(fields: &'a Vec<(String, Json)>, key: &str) -> (r: Option<&'a Json>)
    ensures
        match r {
            Some(v) => obj_lookup(fields_model(fields@), key@) == Some(v@),
            None => obj_lookup(fields_model(fields@), key@) is None,
        },
{
    let ghost all = fields_model(fields@);
    proof {
        lemma_fields_model(fields@);
        assert(all.skip(0) =~= all);
    }
    let mut i: usize = 0;
    while i < fields.len()
        invariant
            i <= fields@.len(),
            all == fields_model(fields@),
            all.len() == fields@.len(),
            forall|k: int| 0 <= k < all.len() ==> all[k] == (fields@[k].0@, fields@[k].1@),
            obj_lookup(all, key@) == obj_lookup(all.skip(i as int), key@),
        decreases fields@.len() - i,
    {
        if crate::text::str_eq(fields[i].0.as_str(), key) {
            proof {
                assert(all.skip(i as int)[0] == all[i as int]);
            }
            return Some(&fields[i].1);
        }
        proof {
            assert(all.skip(i as int)[0] == all[i as int]);
            assert(all.skip(i as int).drop_first() =~= all.skip(i as int + 1));
        }
        i += 1;
    }
    proof {
        assert(all.skip(i as int).len() == 0);
    }
    None
}

// ---------------------------------------------------------------------------
// The grammar, as spec functions over a sequence of characters.  Each
// function takes the position it starts at and yields the parsed piece
// together with the position just past it, or `None` when the text is not
// well-formed.  The executable parser below is proved to return exactly
// these values.
// ---------------------------------------------------------------------------

/// JSON insignificant whitespace.
pub open spec fn json_ws(c: char) -> bool {
    c == ' ' || c == '\t' || c == '\n' || c == '\r'
}

/// A decimal digit.
pub open spec fn json_digit(c: char) -> bool {
    48 <= c as u32 && c as u32 <= 57
}

/// The value of a hexadecimal digit.
pub open spec fn hex_val(c: char) -> Option<u32> {
    if 48 <= c as u32 && c as u32 <= 57 {
        Some((c as u32 - 48) as u32)
    } else if 97 <= c as u32 && c as u32 <= 102 {
        Some((c as u32 - 87) as u32)
    } else if 65 <= c as u32 && c as u32 <= 70 {
        Some((c as u32 - 55) as u32)
    } else {
        None
    }
}

/// The value of the four hexadecimal digits at `i`.
pub open spec fn hex4(s: Seq<char>, i: int) -> Option<u32> {
    if i + 4 <= s.len() && hex_val(s[i]) is Some && hex_val(s[i + 1]) is Some && hex_val(
        s[i + 2],
    ) is Some && hex_val(s[i + 3]) is Some {
        Some(
            (hex_val(s[i]).unwrap() * 4096 + hex_val(s[i + 1]).unwrap() * 256 + hex_val(
                s[i + 2],
            ).unwrap() * 16 + hex_val(s[i + 3]).unwrap()) as u32,
        )
    } else {
        None
    }
}

/// The position after any run of whitespace starting at `i`.
pub open spec fn spec_skip_ws(s: Seq<char>, i: int) -> int
    decreases s.len() - i,
{
    if i < s.len() && json_ws(s[i]) {
        spec_skip_ws(s, i + 1)
    } else {
        i
    }
}

/// A run of decimal digits folded onto `acc`, refusing values above
/// `u64::MAX`.
pub open spec fn spec_digits(s: Seq<char>, i: int, acc: u64) -> Option<(u64, int)>
    decreases s.len() - i,
{
    if i < s.len() && json_digit(s[i]) {
        let d = s[i] as u32 - 48;
        if acc <= (u64::MAX - d) / 10 {
            spec_digits(s, i + 1, (acc * 10 + d) as u64)
        } else {
            None
        }
    } else {
        Some((acc, i))
    }
}

/// A JSON number: a non-negative integer without leading zeros.
pub open spec fn spec_number(s: Seq<char>, i: int) -> Option<(u64, int)> {
    if i < s.len() && s[i] == '0' {
        if i + 1 < s.len() && json_digit(s[i + 1]) {
            None
        } else {
            Some((0, i + 1))
        }
    } else if i < s.len() && json_digit(s[i]) {
        spec_digits(s, i, 0)
    } else {
        None
    }
}

/// One escape sequence, entered just after the backslash.
pub open spec fn spec_escape(s: Seq<char>, i: int) -> Option<(char, int)> {
    if i < s.len() {
        let c = s[i];
        if c == '"' {
            Some(('"', i + 1))
        } else if c == '\\' {
            Some(('\\', i + 1))
        } else if c == '/' {
            Some(('/', i + 1))
        } else if c == 'b' {
            Some(('\u{8}', i + 1))
        } else if c == 'f' {
            Some(('\u{c}', i + 1))
        } else if c == 'n' {
            Some(('\n', i + 1))
        } else if c == 'r' {
            Some(('\r', i + 1))
        } else if c == 't' {
            Some(('\t', i + 1))
        } else if c == 'u' {
            match hex4(s, i + 1) {
                Some(hi) => if hi < 0xD800 || 0xE000 <= hi {
                    Some((hi as char, i + 5))
                } else if hi < 0xDC00 {
                    if i + 7 <= s.len() && s[i + 5] == '\\' && s[i + 6] == 'u' {
                        match hex4(s, i + 7) {
                            Some(lo) => if 0xDC00 <= lo && lo <= 0xDFFF {
                                Some(
                                    (
                                        (0x10000 + (hi - 0xD800) * 1024 + (lo - 0xDC00)) as char,
                                        i + 11,
                                    ),
                                )
                            } else {
                                None
                            },
                            None => None,
                        }
                    } else {
                        None
                    }
                } else {
                    None
                },
                None => None,
            }
        } else {
            None
        }
    } else {
        None
    }
}

/// The rest of a string, entered just after the opening quote: its decoded
/// characters and the position past the closing quote.
pub open spec fn spec_string_rest(s: Seq<char>, i: int) -> Option<(Seq<char>, int)>
    decreases s.len() - i,
{
    if i >= s.len() {
        None
    } else if s[i] == '"' {
        Some((Seq::empty(), i + 1))
    } else if s[i] == '\\' {
        match spec_escape(s, i + 1) {
            Some((c, j)) => if j > i && j <= s.len() {
                match spec_string_rest(s, j) {
                    Some((rest, k)) => Some((seq![c] + rest, k)),
                    None => None,
                }
            } else {
                None
            },
            None => None,
        }
    } else if (s[i] as u32) < 32 {
        None
    } else {
        match spec_string_rest(s, i + 1) {
            Some((rest, k)) => Some((seq![s[i]] + rest, k)),
            None => None,
        }
    }
}

/// After an element: optional whitespace, then a comma (`(false, _)`) or
/// the closing delimiter (`(true, _)`), with the position past it.
pub open spec fn spec_list_sep(s: Seq<char>, i: int, close: char) -> Option<(bool, int)>
    decreases s.len() - i,
{
    if i < s.len() && json_ws(s[i]) {
        spec_list_sep(s, i + 1, close)
    } else if i < s.len() && s[i] == ',' {
        Some((false, i + 1))
    } else if i < s.len() && s[i] == close {
        Some((true, i + 1))
    } else {
        None
    }
}

/// Optional whitespace, then a colon, with the position past it.
pub open spec fn spec_colon(s: Seq<char>, i: int) -> Option<int>
    decreases s.len() - i,
{
    if i < s.len() && json_ws(s[i]) {
        spec_colon(s, i + 1)
    } else if i < s.len() && s[i] == ':' {
        Some(i + 1)
    } else {
        None
    }
}

/// One JSON value starting exactly at `i` (no leading whitespace).
pub open spec fn spec_value(s: Seq<char>, i: int) -> Option<(JsonModel, int)>
    decreases s.len() - i, 0int,
{
    if i >= s.len() {
        None
    } else {
        let c = s[i];
        if c == 'n' {
            if i + 4 <= s.len() && s[i + 1] == 'u' && s[i + 2] == 'l' && s[i + 3] == 'l' {
                Some((JsonModel::Null, i + 4))
            } else {
                None
            }
        } else if c == 't' {
            if i + 4 <= s.len() && s[i + 1] == 'r' && s[i + 2] == 'u' && s[i + 3] == 'e' {
                Some((JsonModel::Bool(true), i + 4))
            } else {
                None
            }
        } else if c == 'f' {
            if i + 5 <= s.len() && s[i + 1] == 'a' && s[i + 2] == 'l' && s[i + 3] == 's' && s[i + 4]
                == 'e' {
                Some((JsonModel::Bool(false), i + 5))
            } else {
                None
            }
        } else if c == '"' {
            match spec_string_rest(s, i + 1) {
                Some((txt, j)) => Some((JsonModel::Str(txt), j)),
                None => None,
            }
        } else if c == '[' {
            let j = spec_skip_ws(s, i + 1);
            if j < s.len() && s[j] == ']' {
                Some((JsonModel::Arr(Seq::empty()), j + 1))
            } else {
                match spec_elements(s, i + 1) {
                    Some((items, k)) => Some((JsonModel::Arr(items), k)),
                    None => None,
                }
            }
        } else if c == '{' {
            let j = spec_skip_ws(s, i + 1);
            if j < s.len() && s[j] == '}' {
                Some((JsonModel::Obj(Seq::empty()), j + 1))
            } else {
                match spec_members(s, i + 1) {
                    Some((fields, k)) => Some((JsonModel::Obj(fields), k)),
                    None => None,
                }
            }
        } else if json_digit(c) {
            match spec_number(s, i) {
                Some((n, j)) => Some((JsonModel::UInt(n), j)),
                None => None,
            }
        } else {
            None
        }
    }
}

/// One or more array elements and the closing bracket.
pub open spec fn spec_elements(s: Seq<char>, i: int) -> Option<(Seq<JsonModel>, int)>
    decreases s.len() - i, 1int,
{
    if i < s.len() && json_ws(s[i]) {
        spec_elements(s, i + 1)
    } else if i > s.len() {
        None
    } else {
        match spec_value(s, i) {
            Some((v, j)) => if j > i {
                match spec_list_sep(s, j, ']') {
                    Some((closed, k)) => if k > i && k <= s.len() {
                        if closed {
                            Some((seq![v], k))
                        } else {
                            match spec_elements(s, k) {
                                Some((rest, m)) => Some((seq![v] + rest, m)),
                                None => None,
                            }
                        }
                    } else {
                        None
                    },
                    None => None,
                }
            } else {
                None
            },
            None => None,
        }
    }
}

/// One or more object members and the closing brace.
pub open spec fn spec_members(s: Seq<char>, i: int) -> Option<
    (Seq<(Seq<char>, JsonModel)>, int),
>
    decreases s.len() - i, 1int,
{
    if i < s.len() && json_ws(s[i]) {
        spec_members(s, i + 1)
    } else if i < s.len() && s[i] == '"' {
        match spec_string_rest(s, i + 1) {
            Some((key, j)) => if j > i {
                match spec_colon(s, j) {
                    Some(k) => if k > i && k <= s.len() && spec_skip_ws(s, k) > i && spec_skip_ws(
                        s,
                        k,
                    ) <= s.len() {
                        match spec_value(s, spec_skip_ws(s, k)) {
                            Some((v, m)) => if m > i {
                                match spec_list_sep(s, m, '}') {
                                    Some((closed, p)) => if p > i && p <= s.len() {
                                        if closed {
                                            Some((seq![(key, v)], p))
                                        } else {
                                            match spec_members(s, p) {
                                                Some((rest, q)) => Some(
                                                    (seq![(key, v)] + rest, q),
                                                ),
                                                None => None,
                                            }
                                        }
                                    } else {
                                        None
                                    },
                                    None => None,
                                }
                            } else {
                                None
                            },
                            None => None,
                        }
                    } else {
                        None
                    },
                    None => None,
                }
            } else {
                None
            },
            None => None,
        }
    } else {
        None
    }
}

/// A whole JSON document: one value, possibly surrounded by whitespace.
pub open spec fn spec_json(s: Seq<char>) -> Option<JsonModel> {
    match spec_value(s, spec_skip_ws(s, 0)) {
        Some((v, j)) => if spec_skip_ws(s, j) == s.len() {
            Some(v)
        } else {
            None
        },
        None => None,
    }
}

// ---------------------------------------------------------------------------
// The executable parser, proved equal to the grammar above.
// ---------------------------------------------------------------------------

/// Relies on `char::from_u32`: `Some` exactly for code points that are not
/// surrogates and not above 0x10FFFF, and then the character with that code
/// point.
#[verifier::external_body]
fn char_of_code(code: u32) -> (r: Option<char>)
    ensures
        r is Some <==> (code < 0xD800 || (0xE000 <= code && code <= 0x10FFFF)),
        r is Some ==> r.unwrap() as u32 == code,
{
    char::from_u32(code)
}

/// The characters of a string, in order.
pub fn chars_of(s: &str) -> (r: Vec<char>)
    ensures
        r@ == s@,
{
    let n = s.unicode_len();
    let mut out: Vec<char> = Vec::new();
    let mut i: usize = 0;
    while i < n
        invariant
            n == s@.len(),
            i <= n,
            out@ =~= s@.subrange(0, i as int),
        decreases n - i,
    {
        out.push(s.get_char(i));
        i += 1;
    }
    proof {
        assert(out@ =~= s@);
    }
    out
}

fn is_ws(c: char) -> (r: bool)
    ensures
        r == json_ws(c),
{
    c == ' ' || c == '\t' || c == '\n' || c == '\r'
}

fn skip_ws(s: &Vec<char>, i: usize) -> (r: usize)
    requires
        i <= s@.len(),
    ensures
        r as int == spec_skip_ws(s@, i as int),
        i <= r <= s@.len(),
    decreases s@.len() - i,
{
    if i < s.len() && is_ws(s[i]) {
        skip_ws(s, i + 1)
    } else {
        i
    }
}

fn take_digits(s: &Vec<char>, i: usize, acc: u64) -> (r: Option<(u64, usize)>)
    requires
        i <= s@.len(),
    ensures
        match r {
            Some((n, j)) => spec_digits(s@, i as int, acc) == Some((n, j as int)) && i <= j
                <= s@.len() && ((i as int) < s@.len() && json_digit(s@[i as int]) ==> i < j),
            None => spec_digits(s@, i as int, acc) is None,
        },
    decreases s@.len() - i,
{
    if i < s.len() {
        let u = s[i] as u32;
        if 48 <= u && u <= 57 {
            let d = (u - 48) as u64;
            if acc <= (u64::MAX - d) / 10 {
                return take_digits(s, i + 1, acc * 10 + d);
            } else {
                return None;
            }
        }
    }
    Some((acc, i))
}

fn take_number(s: &Vec<char>, i: usize) -> (r: Option<(u64, usize)>)
    requires
        i <= s@.len(),
    ensures
        match r {
            Some((n, j)) => spec_number(s@, i as int) == Some((n, j as int)) && i < j <= s@.len(),
            None => spec_number(s@, i as int) is None,
        },
{
    if i < s.len() && s[i] == '0' {
        if i + 1 < s.len() && {
            let u = s[i + 1] as u32;
            48 <= u && u <= 57
        } {
            None
        } else {
            Some((0, i + 1))
        }
    } else if i < s.len() && {
        let u = s[i] as u32;
        48 <= u && u <= 57
    } {
        take_digits(s, i, 0)
    } else {
        None
    }
}

fn hex_digit_val(c: char) -> (r: Option<u32>)
    ensures
        r == hex_val(c),
        r is Some ==> r.unwrap() < 16,
{
    let u = c as u32;
    if 48 <= u && u <= 57 {
        Some(u - 48)
    } else if 97 <= u && u <= 102 {
        Some(u - 87)
    } else if 65 <= u && u <= 70 {
        Some(u - 55)
    } else {
        None
    }
}

fn take_hex4(s: &Vec<char>, i: usize) -> (r: Option<u32>)
    requires
        i <= s@.len(),
    ensures
        r == hex4(s@, i as int),
        r is Some ==> r.unwrap() <= 0xFFFF,
{
    if s.len() - i >= 4 {
        let d0 = match hex_digit_val(s[i]) {
            Some(d) => d,
            None => {
                return None;
            },
        };
        let d1 = match hex_digit_val(s[i + 1]) {
            Some(d) => d,
            None => {
                return None;
            },
        };
        let d2 = match hex_digit_val(s[i + 2]) {
            Some(d) => d,
            None => {
                return None;
            },
        };
        let d3 = match hex_digit_val(s[i + 3]) {
            Some(d) => d,
            None => {
                return None;
            },
        };
        Some(d0 * 4096 + d1 * 256 + d2 * 16 + d3)
    } else {
        None
    }
}

fn take_escape(s: &Vec<char>, i: usize) -> (r: Option<(char, usize)>)
    requires
        i <= s@.len(),
    ensures
        match r {
            Some((c, j)) => spec_escape(s@, i as int) == Some((c, j as int)) && i < j <= s@.len(),
            None => spec_escape(s@, i as int) is None,
        },
{
    if i >= s.len() {
        return None;
    }
    let c = s[i];
    if c == '"' {
        Some(('"', i + 1))
    } else if c == '\\' {
        Some(('\\', i + 1))
    } else if c == '/' {
        Some(('/', i + 1))
    } else if c == 'b' {
        Some(('\u{8}', i + 1))
    } else if c == 'f' {
        Some(('\u{c}', i + 1))
    } else if c == 'n' {
        Some(('\n', i + 1))
    } else if c == 'r' {
        Some(('\r', i + 1))
    } else if c == 't' {
        Some(('\t', i + 1))
    } else if c == 'u' {
        match take_hex4(s, i + 1) {
            Some(hi) => {
                if hi < 0xD800 || 0xE000 <= hi {
                    let decoded = char_of_code(hi);
                    match decoded {
                        Some(ch) => {
                            proof {
                                vstd::utf8::char_u32_cast(ch, hi);
                            }
                            Some((ch, i + 5))
                        },
                        None => {
                            proof {
                                assert(false);
                            }
                            None
                        },
                    }
                } else if hi < 0xDC00 {
                    if s.len() - i >= 7 && s[i + 5] == '\\' && s[i + 6] == 'u' {
                        match take_hex4(s, i + 7) {
                            Some(lo) => {
                                if 0xDC00 <= lo && lo <= 0xDFFF {
                                    let code = 0x10000 + (hi - 0xD800) * 1024 + (lo - 0xDC00);
                                    let decoded = char_of_code(code);
                                    match decoded {
                                        Some(ch) => {
                                            proof {
                                                vstd::utf8::char_u32_cast(ch, code);
                                            }
                                            Some((ch, i + 11))
                                        },
                                        None => {
                                            proof {
                                                assert(false);
                                            }
                                            None
                                        },
                                    }
                                } else {
                                    None
                                }
                            },
                            None => None,
                        }
                    } else {
                        None
                    }
                } else {
                    None
                }
            },
            None => None,
        }
    } else {
        None
    }
}

fn take_string_rest(s: &Vec<char>, i: usize) -> (r: Option<(String, usize)>)
    requires
        i <= s@.len(),
    ensures
        match r {
            Some((txt, j)) => spec_string_rest(s@, i as int) == Some((txt@, j as int)) && i < j
                <= s@.len(),
            None => spec_string_rest(s@, i as int) is None,
        },
    decreases s@.len() - i,
{
    if i >= s.len() {
        return None;
    }
    let c = s[i];
    if c == '"' {
        let txt = String::new();
        proof {
            assert(txt@ =~= Seq::<char>::empty());
        }
        Some((txt, i + 1))
    } else if c == '\\' {
        match take_escape(s, i + 1) {
            Some((decoded, j)) => {
                match take_string_rest(s, j) {
                    Some((rest, k)) => {
                        let mut txt = String::new();
                        push_char(&mut txt, decoded);
                        txt.append(rest.as_str());
                        proof {
                            assert(txt@ =~= seq![decoded] + rest@);
                        }
                        Some((txt, k))
                    },
                    None => None,
                }
            },
            None => None,
        }
    } else if (c as u32) < 32 {
        None
    } else {
        match take_string_rest(s, i + 1) {
            Some((rest, k)) => {
                let mut txt = String::new();
                push_char(&mut txt, c);
                txt.append(rest.as_str());
                proof {
                    assert(txt@ =~= seq![c] + rest@);
                }
                Some((txt, k))
            },
            None => None,
        }
    }
}

fn take_list_sep(s: &Vec<char>, i: usize, close: char) -> (r: Option<(bool, usize)>)
    requires
        i <= s@.len(),
    ensures
        match r {
            Some((closed, j)) => spec_list_sep(s@, i as int, close) == Some((closed, j as int))
                && i < j <= s@.len(),
            None => spec_list_sep(s@, i as int, close) is None,
        },
    decreases s@.len() - i,
{
    if i < s.len() && is_ws(s[i]) {
        take_list_sep(s, i + 1, close)
    } else if i < s.len() && s[i] == ',' {
        Some((false, i + 1))
    } else if i < s.len() && s[i] == close {
        Some((true, i + 1))
    } else {
        None
    }
}

fn take_colon(s: &Vec<char>, i: usize) -> (r: Option<usize>)
    requires
        i <= s@.len(),
    ensures
        match r {
            Some(j) => spec_colon(s@, i as int) == Some(j as int) && i < j <= s@.len(),
            None => spec_colon(s@, i as int) is None,
        },
    decreases s@.len() - i,
{
    if i < s.len() && is_ws(s[i]) {
        take_colon(s, i + 1)
    } else if i < s.len() && s[i] == ':' {
        Some(i + 1)
    } else {
        None
    }
}

fn take_value(s: &Vec<char>, i: usize) -> (r: Option<(Json, usize)>)
    requires
        i <= s@.len(),
    ensures
        match r {
            Some((v, j)) => spec_value(s@, i as int) == Some((v@, j as int)) && i < j <= s@.len(),
            None => spec_value(s@, i as int) is None,
        },
    decreases s@.len() - i, 0int,
{
    if i >= s.len() {
        return None;
    }
    let c = s[i];
    if c == 'n' {
        if s.len() - i >= 4 && s[i + 1] == 'u' && s[i + 2] == 'l' && s[i + 3] == 'l' {
            Some((Json::Null, i + 4))
        } else {
            None
        }
    } else if c == 't' {
        if s.len() - i >= 4 && s[i + 1] == 'r' && s[i + 2] == 'u' && s[i + 3] == 'e' {
            Some((Json::Bool(true), i + 4))
        } else {
            None
        }
    } else if c == 'f' {
        if s.len() - i >= 5 && s[i + 1] == 'a' && s[i + 2] == 'l' && s[i + 3] == 's' && s[i + 4]
            == 'e' {
            Some((Json::Bool(false), i + 5))
        } else {
            None
        }
    } else if c == '"' {
        match take_string_rest(s, i + 1) {
            Some((txt, j)) => Some((Json::Str(txt), j)),
            None => None,
        }
    } else if c == '[' {
        let j = skip_ws(s, i + 1);
        if j < s.len() && s[j] == ']' {
            let items: Vec<Json> = Vec::new();
            let out = Json::Arr(items);
            proof {
                assert(out@ =~~= JsonModel::Arr(Seq::<JsonModel>::empty()));
            }
            Some((out, j + 1))
        } else {
            match take_elements(s, i + 1) {
                Some((items, k)) => Some((Json::Arr(items), k)),
                None => None,
            }
        }
    } else if c == '{' {
        let j = skip_ws(s, i + 1);
        if j < s.len() && s[j] == '}' {
            let fields: Vec<(String, Json)> = Vec::new();
            let out = Json::Obj(fields);
            proof {
                assert(out@ =~~= JsonModel::Obj(Seq::<(Seq<char>, JsonModel)>::empty()));
            }
            Some((out, j + 1))
        } else {
            match take_members(s, i + 1) {
                Some((fields, k)) => Some((Json::Obj(fields), k)),
                None => None,
            }
        }
    } else if {
        let u = c as u32;
        48 <= u && u <= 57
    } {
        match take_number(s, i) {
            Some((n, j)) => Some((Json::UInt(n), j)),
            None => None,
        }
    } else {
        None
    }
}

fn take_elements(s: &Vec<char>, i: usize) -> (r: Option<(Vec<Json>, usize)>)
    requires
        i <= s@.len(),
    ensures
        match r {
            Some((items, j)) => spec_elements(s@, i as int) == Some(
                (items_model(items@), j as int),
            ) && i < j <= s@.len(),
            None => spec_elements(s@, i as int) is None,
        },
    decreases s@.len() - i, 1int,
{
    if i < s.len() && is_ws(s[i]) {
        return take_elements(s, i + 1);
    }
    match take_value(s, i) {
        Some((v, j)) => {
            match take_list_sep(s, j, ']') {
                Some((closed, k)) => {
                    if closed {
                        let ghost value_model = v@;
                        let mut items: Vec<Json> = Vec::new();
                        items.push(v);
                        proof {
                            lemma_items_model(items@);
                            assert(items_model(items@) =~~= seq![value_model]);
                        }
                        Some((items, k))
                    } else {
                        match take_elements(s, k) {
                            Some((mut rest, m)) => {
                                let ghost rest_seq = rest@;
                                let ghost rest_model = items_model(rest_seq);
                                let ghost value_model = v@;
                                let mut items: Vec<Json> = Vec::new();
                                items.push(v);
                                items.append(&mut rest);
                                proof {
                                    lemma_items_model(items@);
                                    lemma_items_model(rest_seq);
                                    assert(items@ =~= seq![items@[0]] + rest_seq);
                                    assert(items_model(items@) =~~= seq![value_model]
                                        + rest_model);
                                }
                                Some((items, m))
                            },
                            None => None,
                        }
                    }
                },
                None => None,
            }
        },
        None => None,
    }
}

fn take_members(s: &Vec<char>, i: usize) -> (r: Option<(Vec<(String, Json)>, usize)>)
    requires
        i <= s@.len(),
    ensures
        match r {
            Some((fields, j)) => spec_members(s@, i as int) == Some(
                (fields_model(fields@), j as int),
            ) && i < j <= s@.len(),
            None => spec_members(s@, i as int) is None,
        },
    decreases s@.len() - i, 1int,
{
    if i < s.len() && is_ws(s[i]) {
        return take_members(s, i + 1);
    }
    if !(i < s.len() && s[i] == '"') {
        return None;
    }
    match take_string_rest(s, i + 1) {
        Some((key, j)) => {
            match take_colon(s, j) {
                Some(k) => {
                    let k2 = skip_ws(s, k);
                    match take_value(s, k2) {
                        Some((v, m)) => {
                            match take_list_sep(s, m, '}') {
                                Some((closed, p)) => {
                                    if closed {
                                        let mut fields: Vec<(String, Json)> = Vec::new();
                                        let ghost key_model = key@;
                                        let ghost value_model = v@;
                                        fields.push((key, v));
                                        proof {
                                            lemma_fields_model(fields@);
                                            assert(fields_model(fields@) =~~= seq![
                                                (key_model, value_model),
                                            ]);
                                        }
                                        Some((fields, p))
                                    } else {
                                        match take_members(s, p) {
                                            Some((mut rest, q)) => {
                                                let ghost rest_seq = rest@;
                                                let ghost rest_model = fields_model(rest_seq);
                                                let ghost key_model = key@;
                                                let ghost value_model = v@;
                                                let mut fields: Vec<(String, Json)> = Vec::new();
                                                fields.push((key, v));
                                                fields.append(&mut rest);
                                                proof {
                                                    lemma_fields_model(fields@);
                                                    lemma_fields_model(rest_seq);
                                                    assert(fields@ =~= seq![fields@[0]]
                                                        + rest_seq);
                                                    assert(fields_model(fields@) =~~= seq![
                                                        (key_model, value_model),
                                                    ] + rest_model);
                                                }
                                                Some((fields, q))
                                            },
                                            None => None,
                                        }
                                    }
                                },
                                None => None,
                            }
                        },
                        None => None,
                    }
                },
                None => None,
            }
        },
        None => None,
    }
}

/// Parse a whole JSON document: `Some` exactly when the text is
/// well-formed, and then the value the grammar gives it.
pub fn parse_json_text(text: &str) -> (r: Option<Json>)
    ensures
        match r {
            Some(v) => spec_json(text@) == Some(v@),
            None => spec_json(text@) is None,
        },
{
    let chars = chars_of(text);
    let start = skip_ws(&chars, 0);
    match take_value(&chars, start) {
        Some((v, j)) => {
            let k = skip_ws(&chars, j);
            if k == chars.len() {
                Some(v)
            } else {
                None
            }
        },
        None => None,
    }
}

/// The description a deserialization failure carries: either the text was
/// not well-formed JSON, or it was JSON of an unexpected shape.
pub open spec fn decode_failure_text(b: Seq<char>) -> Seq<char> {
    if spec_json(b) is None {
        "malformed JSON text"@
    } else {
        "unexpected document structure"@
    }
}

// ---------------------------------------------------------------------------
// Rendering helpers for request bodies.
// ---------------------------------------------------------------------------

/// The hexadecimal digit character for `d`, which must be in `0..=15`.
pub open spec fn hex_char(d: int) -> char {
    if d < 10 {
        (48 + d) as char
    } else {
        (87 + d) as char
    }
}

/// How one character is written inside a JSON string literal: quotes and
/// backslashes are escaped, control characters take the `\u00XX` form, and
/// everything else stands as itself.
pub open spec fn escape_char(c: char) -> Seq<char> {
    if c == '"' {
        seq!['\\', '"']
    } else if c == '\\' {
        seq!['\\', '\\']
    } else if (c as u32) < 32 {
        seq!['\\', 'u', '0', '0', hex_char((c as u32 / 16) as int), hex_char((c as u32 % 16) as int)]
    } else {
        seq![c]
    }
}

/// A text with each character escaped for a JSON string literal.
pub open spec fn escaped(s: Seq<char>) -> Seq<char>
    decreases s.len(),
{
    if s.len() == 0 {
        Seq::empty()
    } else {
        escaped(s.drop_last()) + escape_char(s.last())
    }
}

/// A JSON string literal: the escaped text in quotes.
pub open spec fn quoted(s: Seq<char>) -> Seq<char> {
    seq!['"'] + escaped(s) + seq!['"']
}

/// Append the JSON string literal for `s` to `out`.
pub fn append_quoted(out: &mut String, s: &str)
    ensures
        final(out)@ == old(out)@ + quoted(s@),
{
    let ghost prefix = out@;
    push_char(out, '"');
    let n = s.unicode_len();
    let mut i: usize = 0;
    while i < n
        invariant
            n == s@.len(),
            i <= n,
            out@ == prefix + seq!['"'] + escaped(s@.subrange(0, i as int)),
        decreases n - i,
    {
        let c = s.get_char(i);
        let ghost done = s@.subrange(0, i as int);
        if c == '"' {
            push_char(out, '\\');
            push_char(out, '"');
        } else if c == '\\' {
            push_char(out, '\\');
            push_char(out, '\\');
        } else if (c as u32) < 32 {
            push_char(out, '\\');
            push_char(out, 'u');
            push_char(out, '0');
            push_char(out, '0');
            let hi = (c as u32) / 16;
            let lo = (c as u32) % 16;
            let hi_c = (if hi < 10 {
                48 + hi as u8
            } else {
                87 + hi as u8
            }) as char;
            let lo_c = (if lo < 10 {
                48 + lo as u8
            } else {
                87 + lo as u8
            }) as char;
            push_char(out, hi_c);
            push_char(out, lo_c);
        } else {
            push_char(out, c);
        }
        proof {
            assert(s@.subrange(0, i + 1 as int).drop_last() =~= done);
            assert(s@.subrange(0, i + 1 as int).last() == s@[i as int]);
            assert(escaped(s@.subrange(0, i + 1 as int)) == escaped(done) + escape_char(
                s@[i as int],
            ));
            assert(out@ =~= prefix + seq!['"'] + escaped(s@.subrange(0, i + 1 as int)));
        }
        i += 1;
    }
    push_char(out, '"');
    proof {
        assert(s@.subrange(0, n as int) =~= s@);
        assert(out@ =~= prefix + quoted(s@));
    }
}


/// The view of a list of text pairs.
pub open spec fn pairs_model(h: Seq<(String, String)>) -> Seq<(Seq<char>, Seq<char>)> {
    Seq::new(h.len(), |i: int| (h[i].0@, h[i].1@))
}

/// The optional text a JSON value denotes: `null` or a string.
pub open spec fn opt_string_of_json(j: JsonModel) -> Option<Option<Seq<char>>> {
    match j {
        JsonModel::Null => Some(None),
        JsonModel::Str(s) => Some(Some(s)),
        _ => None,
    }
}

/// Decode an optional text: `null` or a string.
pub fn opt_string_from_json(j: &Json) -> (r: Option<Option<String>>)
    ensures
        match r {
            Some(None) => opt_string_of_json(j@) == Some(None::<Seq<char>>),
            Some(Some(s)) => opt_string_of_json(j@) == Some(Some(s@)),
            None => opt_string_of_json(j@) is None,
        },
{
    match j {
        Json::Null => Some(None),
        Json::Str(s) => Some(Some(s.clone())),
        _ => None,
    }
}

/// The text map a JSON object's fields denote, when every value is a
/// string.
pub open spec fn text_map_of_fields(fields: Seq<(Seq<char>, JsonModel)>) -> Option<
    Seq<(Seq<char>, Seq<char>)>,
>
    decreases fields.len(),
{
    if fields.len() == 0 {
        Some(Seq::empty())
    } else {
        match (text_map_of_fields(fields.drop_last()), fields.last().1) {
            (Some(done), JsonModel::Str(value)) => Some(done.push((fields.last().0, value))),
            _ => None,
        }
    }
}

/// A field list denotes a text map iff every value is a string, and then
/// entry-wise.
pub proof fn lemma_text_map_of_fields(fields: Seq<(Seq<char>, JsonModel)>)
    ensures
        text_map_of_fields(fields) is Some <==> (forall|i: int|
            0 <= i < fields.len() ==> (#[trigger] fields[i].1) is Str),
        text_map_of_fields(fields) is Some ==> {
            let r = text_map_of_fields(fields).unwrap();
            &&& r.len() == fields.len()
            &&& forall|i: int|
                0 <= i < fields.len() ==> r[i] == (fields[i].0, (#[trigger] fields[i].1)->Str_0)
        },
    decreases fields.len(),
{
    if fields.len() > 0 {
        lemma_text_map_of_fields(fields.drop_last());
        assert(forall|i: int| 0 <= i < fields.len() - 1 ==> fields.drop_last()[i] == fields[i]);
        assert(fields.last() == fields[fields.len() - 1]);
        if text_map_of_fields(fields) is Some {
            let done = text_map_of_fields(fields.drop_last()).unwrap();
            let full = done.push((fields.last().0, fields.last().1->Str_0));
            assert(text_map_of_fields(fields) == Some(full));
            assert(full.len() == done.len() + 1);
            assert forall|i: int|
                0 <= i < fields.len() implies text_map_of_fields(fields).unwrap()[i] == (
                fields[i].0,
                (#[trigger] fields[i].1)->Str_0,
            ) by {
                if i < fields.len() - 1 {
                    assert(full[i] == done[i]);
                } else {
                    assert(full[i] == (fields.last().0, fields.last().1->Str_0));
                }
            }
        }
    }
}

/// Decode the fields of a JSON object as a text map.
pub fn text_map_from_fields(fields: &Vec<(String, Json)>) -> (r: Option<Vec<(String, String)>>)
    ensures
        match r {
            Some(pairs) => text_map_of_fields(fields_model(fields@)) == Some(pairs_model(pairs@)),
            None => text_map_of_fields(fields_model(fields@)) is None,
        },
{
    let ghost models = fields_model(fields@);
    proof {
        lemma_fields_model(fields@);
        lemma_text_map_of_fields(models);
    }
    let mut out: Vec<(String, String)> = Vec::new();
    let mut idx: usize = 0;
    while idx < fields.len()
        invariant
            idx <= fields@.len(),
            models == fields_model(fields@),
            models.len() == fields@.len(),
            forall|k: int| 0 <= k < fields@.len() ==> models[k] == (fields@[k].0@, fields@[k].1@),
            text_map_of_fields(models) is Some <==> (forall|i: int|
                0 <= i < models.len() ==> (#[trigger] models[i].1) is Str),
            text_map_of_fields(models) is Some ==> {
                let r = text_map_of_fields(models).unwrap();
                &&& r.len() == models.len()
                &&& forall|i: int|
                    0 <= i < models.len() ==> r[i] == (
                        models[i].0,
                        (#[trigger] models[i].1)->Str_0,
                    )
            },
            out@.len() == idx,
            forall|k: int|
                0 <= k < idx ==> (#[trigger] models[k].1) is Str && out@[k].0@ == models[k].0
                    && out@[k].1@ == models[k].1->Str_0,
        decreases fields@.len() - idx,
    {
        match &fields[idx].1 {
            Json::Str(value) => {
                out.push((fields[idx].0.clone(), value.clone()));
            },
            _ => {
                proof {
                    assert(!(models[idx as int].1 is Str));
                }
                return None;
            },
        }
        idx += 1;
    }
    proof {
        assert(text_map_of_fields(models) is Some);
        assert(text_map_of_fields(models).unwrap().len() == models.len());
        assert forall|i: int|
            0 <= i < models.len() implies text_map_of_fields(models).unwrap()[i] == pairs_model(
            out@,
        )[i] by {
            assert(text_map_of_fields(models).unwrap()[i] == (models[i].0, models[i].1->Str_0));
        }
        assert(text_map_of_fields(models).unwrap() =~= pairs_model(out@));
    }
    Some(out)
}

/// How a boolean is written in JSON.
pub open spec fn bool_json(b: bool) -> Seq<char> {
    if b {
        "true"@
    } else {
        "false"@
    }
}

/// How an optional text is written: `null`, or a string literal.
pub open spec fn opt_string_json(o: Option<Seq<char>>) -> Seq<char> {
    match o {
        None => "null"@,
        Some(s) => quoted(s),
    }
}

/// How an optional count is written: `null`, or the decimal number.
pub open spec fn opt_u32_json(o: Option<u32>) -> Seq<char> {
    match o {
        None => "null"@,
        Some(n) => crate::text::dec_str(n as int),
    }
}

/// How an optional flag is written: `null`, `true` or `false`.
pub open spec fn opt_bool_json(o: Option<bool>) -> Seq<char> {
    match o {
        None => "null"@,
        Some(b) => bool_json(b),
    }
}

/// How one text-map entry is written.
pub open spec fn pair_json(p: (Seq<char>, Seq<char>)) -> Seq<char> {
    quoted(p.0) + seq![':'] + quoted(p.1)
}

/// How the entries of a text map are written, comma-separated.
pub open spec fn pair_list_json(l: Seq<(Seq<char>, Seq<char>)>) -> Seq<char>
    decreases l.len(),
{
    if l.len() == 0 {
        Seq::empty()
    } else if l.len() == 1 {
        pair_json(l[0])
    } else {
        pair_list_json(l.drop_last()) + seq![','] + pair_json(l.last())
    }
}

/// How a text map is written: a JSON object of string values.
pub open spec fn text_map_json(l: Seq<(Seq<char>, Seq<char>)>) -> Seq<char> {
    seq!['{'] + pair_list_json(l) + seq!['}']
}

/// Append `true` or `false`.
pub fn append_bool(out: &mut String, b: bool)
    ensures
        final(out)@ == old(out)@ + bool_json(b),
{
    if b {
        out.append("true");
    } else {
        out.append("false");
    }
}

/// Append `null`, or the string literal for the text.
pub fn append_opt_string(out: &mut String, o: &Option<String>)
    ensures
        final(out)@ == old(out)@ + opt_string_json(crate::opt_text(*o)),
{
    match o {
        None => out.append("null"),
        Some(s) => append_quoted(out, s.as_str()),
    }
}

/// Append `null`, or the decimal number.
pub fn append_opt_u32(out: &mut String, o: &Option<u32>)
    ensures
        final(out)@ == old(out)@ + opt_u32_json(*o),
{
    match o {
        None => out.append("null"),
        Some(n) => crate::text::append_dec(out, *n as u64),
    }
}

/// Append `null`, `true` or `false`.
pub fn append_opt_bool(out: &mut String, o: &Option<bool>)
    ensures
        final(out)@ == old(out)@ + opt_bool_json(*o),
{
    match o {
        None => out.append("null"),
        Some(b) => append_bool(out, *b),
    }
}

/// Append a text map as a JSON object of string values.
pub fn append_text_map(out: &mut String, pairs: &Vec<(String, String)>)
    ensures
        final(out)@ == old(out)@ + text_map_json(pairs_model(pairs@)),
{
    let ghost prefix = out@;
    let ghost models = pairs_model(pairs@);
    push_char(out, '{');
    let mut i: usize = 0;
    while i < pairs.len()
        invariant
            models == pairs_model(pairs@),
            models.len() == pairs@.len(),
            forall|k: int| 0 <= k < models.len() ==> models[k] == (pairs@[k].0@, pairs@[k].1@),
            i <= pairs@.len(),
            out@ == prefix + seq!['{'] + pair_list_json(models.take(i as int)),
        decreases pairs@.len() - i,
    {
        let ghost done = models.take(i as int);
        if i > 0 {
            push_char(out, ',');
        }
        append_quoted(out, pairs[i].0.as_str());
        push_char(out, ':');
        append_quoted(out, pairs[i].1.as_str());
        proof {
            let step = models.take(i + 1 as int);
            assert(step.drop_last() =~= done);
            assert(step.last() == models[i as int]);
            if i == 0 {
                assert(step =~= seq![models[0]]);
                assert(pair_list_json(step) == pair_json(step[0]));
                assert(out@ =~= prefix + seq!['{'] + pair_list_json(step));
            } else {
                assert(pair_list_json(step) == pair_list_json(done) + seq![','] + pair_json(
                    models[i as int],
                ));
                assert(out@ =~= prefix + seq!['{'] + pair_list_json(step));
            }
        }
        i += 1;
    }
    push_char(out, '}');
    proof {
        assert(models.take(models.len() as int) =~= models);
        assert(out@ =~= prefix + text_map_json(models));
    }
}

/// How an optional text map is written: `null`, or the object of string
/// values.
pub open spec fn opt_text_map_json(o: Option<Seq<(Seq<char>, Seq<char>)>>) -> Seq<char> {
    match o {
        None => "null"@,
        Some(l) => text_map_json(l),
    }
}

/// Append `null`, or a text map as a JSON object of string values.
pub fn append_opt_text_map(out: &mut String, o: &Option<Vec<(String, String)>>)
    ensures
        final(out)@ == old(out)@ + opt_text_map_json(
            match *o {
                Some(l) => Some(pairs_model(l@)),
                None => None,
            },
        ),
{
    match o {
        None => out.append("null"),
        Some(l) => append_text_map(out, l),
    }
}

/// Splitting an escaped text at its first character.
proof fn lemma_escaped_left(s: Seq<char>)
    requires
        s.len() > 0,
    ensures
        escaped(s) =~= escape_char(s.first()) + escaped(s.drop_first()),
    decreases s.len(),
{
    if s.len() == 1 {
        assert(s.drop_last().len() == 0);
        assert(s.drop_first().len() == 0);
        assert(escaped(s) == escaped(s.drop_last()) + escape_char(s.last()));
        assert(escaped(s.drop_last()) == Seq::<char>::empty());
        assert(escaped(s.drop_first()) == Seq::<char>::empty());
        assert(s.last() == s.first());
    } else {
        lemma_escaped_left(s.drop_last());
        assert(s.drop_last().first() == s.first());
        assert(s.drop_last().drop_first() =~= s.drop_first().drop_last());
        assert(s.drop_first().last() == s.last());
        assert(s.drop_first().len() > 0);
        assert(escaped(s) == escaped(s.drop_last()) + escape_char(s.last()));
        assert(escaped(s.drop_first()) == escaped(s.drop_first().drop_last()) + escape_char(
            s.drop_first().last(),
        ));
        assert(escaped(s) =~= escape_char(s.first()) + escaped(s.drop_first()));
    }
}

/// Reading back the hexadecimal digit character of a value gives the
/// value.
proof fn lemma_hex_of_hex_char(d: int)
    requires
        0 <= d < 16,
    ensures
        hex_val(hex_char(d)) == Some(d as u32),
{
}

/// The rest of a string standing at `i` — an escaped text and the closing
/// quote — parses back to exactly that text.
pub(crate) proof fn lemma_string_rest_of_escaped(text: Seq<char>, i: int, s: Seq<char>)
    requires
        0 <= i,
        i + escaped(s).len() + 1 <= text.len(),
        text.subrange(i, i + escaped(s).len() + 1) =~= escaped(s) + seq!['"'],
    ensures
        spec_string_rest(text, i) == Some((s, i + escaped(s).len() + 1)),
    decreases s.len(),
{
    let region = escaped(s) + seq!['"'];
    assert forall|k: int| 0 <= k < region.len() implies text[i + k] == region[k] by {
        assert(text.subrange(i, i + escaped(s).len() + 1)[k] == text[i + k]);
    }
    if s.len() == 0 {
        assert(escaped(s) == Seq::<char>::empty());
        assert(region[0] == '"');
        assert(text[i] == '"');
    } else {
        let c = s.first();
        let s2 = s.drop_first();
        let e = escape_char(c);
        lemma_escaped_left(s);
        assert(escaped(s).len() == e.len() + escaped(s2).len());
        assert forall|k: int| 0 <= k < e.len() implies text[i + k] == e[k] by {
            assert(region[k] == (escape_char(s.first()) + escaped(s.drop_first()))[k]);
        }
        let j = i + e.len();
        assert forall|k: int|
            0 <= k < escaped(s2).len() + 1 implies #[trigger] text.subrange(
            j,
            j + escaped(s2).len() + 1,
        )[k] == (escaped(s2) + seq!['"'])[k] by {
            assert(text.subrange(j, j + escaped(s2).len() + 1)[k] == text[j + k]);
            assert(text[j + k] == region[e.len() + k]);
            if e.len() + k < escaped(s).len() {
                assert(region[e.len() + k] == escaped(s)[e.len() + k]);
                assert(escaped(s)[e.len() + k] == (escape_char(s.first()) + escaped(
                    s.drop_first(),
                ))[e.len() + k]);
            } else {
                assert(region[e.len() + k] == '"');
            }
        }
        assert(text.subrange(j, j + escaped(s2).len() + 1) =~= escaped(s2) + seq!['"']);
        lemma_string_rest_of_escaped(text, j, s2);
        assert(seq![c] + s2 =~= s);
        if c == '"' {
            assert(e =~= seq!['\\', '"']);
            assert(text[i] == '\\');
            assert(text[i + 1] == '"');
            assert(spec_escape(text, i + 1) == Some(('"', i + 2)));
        } else if c == '\\' {
            assert(e =~= seq!['\\', '\\']);
            assert(text[i] == '\\');
            assert(text[i + 1] == '\\');
            assert(spec_escape(text, i + 1) == Some(('\\', i + 2)));
        } else if (c as u32) < 32 {
            let hi = c as u32 / 16;
            let lo = c as u32 % 16;
            assert(e =~= seq!['\\', 'u', '0', '0', hex_char(hi as int), hex_char(lo as int)]);
            assert(text[i] == '\\');
            assert(text[i + 1] == 'u');
            assert(text[i + 2] == '0');
            assert(text[i + 3] == '0');
            assert(text[i + 4] == hex_char(hi as int));
            assert(text[i + 5] == hex_char(lo as int));
            lemma_hex_of_hex_char(hi as int);
            lemma_hex_of_hex_char(lo as int);
            assert(hex_val('0') == Some(0u32));
            assert(i + 2 + 4 <= text.len());
            assert(hex4(text, i + 2) == Some((hi * 16 + lo) as u32));
            assert(hi * 16 + lo == c as u32);
            assert(((c as u32) as char) == c) by {
                vstd::utf8::char_u32_cast(c, c as u32);
            }
            assert(spec_escape(text, i + 1) == Some((c, i + 6)));
        } else {
            assert(e =~= seq![c]);
            assert(text[i] == c);
            assert(text[i] != '"' && text[i] != '\\' && !((text[i] as u32) < 32));
        }
    }
}

/// Escaping a text without quotes, backslashes or control characters
/// leaves it unchanged.
pub(crate) proof fn lemma_escaped_plain(s: Seq<char>)
    requires
        forall|k: int|
            0 <= k < s.len() ==> (#[trigger] s[k]) != '"' && s[k] != '\\' && s[k] as u32 >= 32,
    ensures
        escaped(s) =~= s,
    decreases s.len(),
{
    if s.len() > 0 {
        assert(s.last() == s[s.len() - 1]);
        assert(forall|k: int|
            0 <= k < s.drop_last().len() ==> #[trigger] s.drop_last()[k] == s[k]);
        lemma_escaped_plain(s.drop_last());
        assert(escape_char(s.last()) =~= seq![s.last()]);
        assert(escaped(s) == escaped(s.drop_last()) + escape_char(s.last()));
    }
}

/// A rendered string literal parses back to the same text: the JSON
/// renderer and the JSON parser agree on every string value.
pub proof fn lemma_quoted_round_trip(s: Seq<char>)
    ensures
        spec_json(quoted(s)) == Some(JsonModel::Str(s)),
{
    let text = quoted(s);
    assert(text[0] == '"');
    assert(!json_ws('"'));
    assert(spec_skip_ws(text, 0) == 0);
    assert forall|k: int|
        0 <= k < escaped(s).len() + 1 implies #[trigger] text.subrange(
        1,
        escaped(s).len() as int + 2,
    )[k] == (escaped(s) + seq!['"'])[k] by {
        assert(text.subrange(1, escaped(s).len() as int + 2)[k] == text[1 + k]);
    }
    assert(text.subrange(1, escaped(s).len() as int + 2) =~= escaped(s) + seq!['"']);
    lemma_string_rest_of_escaped(text, 1, s);
    assert(spec_value(text, 0) == Some((JsonModel::Str(s), text.len() as int)));
    assert(spec_skip_ws(text, text.len() as int) == text.len());
}

/// A rendered boolean parses back to the same value.
pub proof fn lemma_bool_round_trip(b: bool)
    ensures
        spec_json(bool_json(b)) == Some(JsonModel::Bool(b)),
{
    broadcast use vstd::string::group_string_axioms;

    reveal_strlit("true");
    reveal_strlit("false");
    if b {
        let text = "true"@;
        assert(text.len() == 4);
        assert(spec_skip_ws(text, 0) == 0);
        assert(spec_value(text, 0) == Some((JsonModel::Bool(true), 4int)));
        assert(spec_skip_ws(text, 4) == 4);
    } else {
        let text = "false"@;
        assert(text.len() == 5);
        assert(spec_skip_ws(text, 0) == 0);
        assert(spec_value(text, 0) == Some((JsonModel::Bool(false), 5int)));
        assert(spec_skip_ws(text, 5) == 5);
    }
}

/// A rendered `null` parses back to `null`.
pub proof fn lemma_null_round_trip()
    ensures
        spec_json("null"@) == Some(JsonModel::Null),
{
    broadcast use vstd::string::group_string_axioms;

    reveal_strlit("null");
    let text = "null"@;
    assert(text.len() == 4);
    assert(spec_skip_ws(text, 0) == 0);
    assert(spec_value(text, 0) == Some((JsonModel::Null, 4int)));
    assert(spec_skip_ws(text, 4) == 4);
}

/// The left fold a digit run contributes on top of an accumulator.
pub(crate) open spec fn digits_fold(acc: int, t: Seq<char>) -> int
    decreases t.len(),
{
    if t.len() == 0 {
        acc
    } else {
        digits_fold(acc * 10 + (t.first() as u32 - 48), t.drop_first())
    }
}

/// The scale a digit run applies to what stands before it.
pub(crate) open spec fn dec_scale(n: int) -> int
    decreases n,
{
    if n < 10 {
        10
    } else {
        dec_scale(n / 10) * 10
    }
}

/// Folding digits never shrinks a non-negative accumulator.
proof fn lemma_digits_fold_grows(acc: int, t: Seq<char>)
    requires
        acc >= 0,
        forall|k: int| 0 <= k < t.len() ==> json_digit(#[trigger] t[k]),
    ensures
        digits_fold(acc, t) >= acc,
    decreases t.len(),
{
    if t.len() > 0 {
        assert(t.first() == t[0]);
        assert(json_digit(t[0]));
        let d = t.first() as u32 - 48;
        assert(d >= 0);
        assert forall|k: int|
            0 <= k < t.drop_first().len() implies json_digit(#[trigger] t.drop_first()[k]) by {
            assert(t.drop_first()[k] == t[k + 1]);
        }
        lemma_digits_fold_grows(acc * 10 + d, t.drop_first());
        assert(digits_fold(acc, t) == digits_fold(acc * 10 + d, t.drop_first()));
    }
}

/// Folding distributes over splitting a digit run.
proof fn lemma_digits_fold_concat(acc: int, t1: Seq<char>, t2: Seq<char>)
    ensures
        digits_fold(acc, t1 + t2) == digits_fold(digits_fold(acc, t1), t2),
    decreases t1.len(),
{
    if t1.len() == 0 {
        assert(t1 + t2 =~= t2);
    } else {
        assert((t1 + t2).len() > 0);
        assert((t1 + t2).first() == t1.first());
        assert((t1 + t2).drop_first() =~= t1.drop_first() + t2);
        lemma_digits_fold_concat(acc * 10 + (t1.first() as u32 - 48), t1.drop_first(), t2);
    }
}

/// Every character of a rendered decimal is a digit.
pub(crate) proof fn lemma_dec_str_digits(n: int)
    requires
        n >= 0,
    ensures
        forall|k: int| 0 <= k < dec_str(n).len() ==> json_digit(#[trigger] dec_str(n)[k]),
        dec_str(n).len() > 0,
    decreases n,
{
    if n < 10 {
        assert(dec_str(n) =~= seq![crate::text::digit_char(n)]);
        assert(json_digit(crate::text::digit_char(n)));
    } else {
        lemma_dec_str_digits(n / 10);
        assert(dec_str(n) == dec_str(n / 10) + seq![crate::text::digit_char(n % 10)]);
        assert(json_digit(crate::text::digit_char(n % 10)));
        assert forall|k: int| 0 <= k < dec_str(n).len() implies json_digit(
            #[trigger] dec_str(n)[k],
        ) by {
            if k < dec_str(n / 10).len() {
                assert(dec_str(n)[k] == dec_str(n / 10)[k]);
            } else {
                assert(dec_str(n)[k] == crate::text::digit_char(n % 10));
            }
        }
    }
}

/// A positive number is rendered without a leading zero.
proof fn lemma_dec_str_lead(n: int)
    requires
        n > 0,
    ensures
        dec_str(n).first() != '0',
    decreases n,
{
    if n < 10 {
        assert(dec_str(n) =~= seq![crate::text::digit_char(n)]);
        assert(crate::text::digit_char(n) as u32 == 48 + n);
    } else {
        lemma_dec_str_lead(n / 10);
        assert(dec_str(n) == dec_str(n / 10) + seq![crate::text::digit_char(n % 10)]);
        lemma_dec_str_digits(n / 10);
        assert(dec_str(n).first() == dec_str(n / 10).first());
    }
}

/// Folding the rendered decimal of `n` onto `acc` scales `acc` and adds
/// `n`.
proof fn lemma_digits_fold_of_dec(acc: int, n: int)
    requires
        acc >= 0,
        n >= 0,
    ensures
        digits_fold(acc, dec_str(n)) == acc * dec_scale(n) + n,
    decreases n,
{
    if n < 10 {
        assert(dec_str(n) =~= seq![crate::text::digit_char(n)]);
        assert(crate::text::digit_char(n) as u32 == 48 + n);
        assert(digits_fold(acc, dec_str(n)) == digits_fold(acc * 10 + n, dec_str(n).drop_first()));
        assert(dec_str(n).drop_first().len() == 0);
    } else {
        lemma_digits_fold_of_dec(acc, n / 10);
        assert(dec_str(n) == dec_str(n / 10) + seq![crate::text::digit_char(n % 10)]);
        lemma_digits_fold_concat(acc, dec_str(n / 10), seq![crate::text::digit_char(n % 10)]);
        let mid = digits_fold(acc, dec_str(n / 10));
        assert(mid == acc * dec_scale(n / 10) + n / 10);
        let tail = seq![crate::text::digit_char(n % 10)];
        assert(digits_fold(mid, tail) == digits_fold(
            mid * 10 + (tail.first() as u32 - 48),
            tail.drop_first(),
        ));
        assert(tail.drop_first().len() == 0);
        assert(tail.first() as u32 - 48 == n % 10);
        assert(digits_fold(acc, dec_str(n)) == mid * 10 + n % 10);
        assert(mid * 10 == acc * (dec_scale(n / 10) * 10) + (n / 10) * 10) by (nonlinear_arith)
            requires
                mid == acc * dec_scale(n / 10) + n / 10,
        ;
        assert((n / 10) * 10 + n % 10 == n);
        assert(dec_scale(n) == dec_scale(n / 10) * 10);
    }
}

/// A digit run from `i` to `j` parses to its fold, provided the fold
/// fits in `u64` and no digit follows `j`.
pub(crate) proof fn lemma_digits_parse(text: Seq<char>, i: int, j: int, acc: u64)
    requires
        0 <= i <= j <= text.len(),
        forall|k: int| i <= k < j ==> json_digit(#[trigger] text[k]),
        j == text.len() || !json_digit(text[j]),
        digits_fold(acc as int, text.subrange(i, j)) <= u64::MAX,
    ensures
        spec_digits(text, i, acc) == Some(
            (digits_fold(acc as int, text.subrange(i, j)) as u64, j),
        ),
    decreases j - i,
{
    if i == j {
        assert(text.subrange(i, j).len() == 0);
    } else {
        assert(json_digit(text[i]));
        let d = text[i] as u32 - 48;
        assert(d >= 0 && d <= 9);
        let run = text.subrange(i, j);
        assert(run.len() > 0);
        assert(run.first() == run[0]);
        assert(run[0] == text[i]);
        assert(run.drop_first() =~= text.subrange(i + 1, j));
        assert(digits_fold(acc as int, run) == digits_fold(
            acc as int * 10 + d,
            text.subrange(i + 1, j),
        ));
        assert forall|k: int|
            0 <= k < text.subrange(i + 1, j).len() implies json_digit(
            #[trigger] text.subrange(i + 1, j)[k],
        ) by {
            assert(text.subrange(i + 1, j)[k] == text[i + 1 + k]);
            assert(json_digit(text[i + 1 + k]));
        }
        lemma_digits_fold_grows(acc as int * 10 + d, text.subrange(i + 1, j));
        assert(digits_fold(acc as int * 10 + d, text.subrange(i + 1, j)) >= acc as int * 10 + d);
        assert(acc as int * 10 + d <= u64::MAX);
        let du = (text[i] as u32 - 48) as u64;
        assert(du as int == d);
        assert(acc as int * 10 <= u64::MAX - d);
        assert(acc <= (u64::MAX - du) / 10);
        let acc2 = (acc * 10 + du) as u64;
        assert(acc2 as int == acc as int * 10 + d);
        lemma_digits_parse(text, i + 1, j, acc2);
        assert(spec_digits(text, i, acc) == spec_digits(text, i + 1, acc2));
    }
}

/// A rendered decimal standing at `i`, followed by a non-digit or the end
/// of the text, parses back to the same number.
pub(crate) proof fn lemma_number_at(text: Seq<char>, i: int, n: u64)
    requires
        0 <= i,
        i + dec_str(n as int).len() <= text.len(),
        text.subrange(i, i + dec_str(n as int).len() as int) =~= dec_str(n as int),
        i + dec_str(n as int).len() == text.len() || !json_digit(
            text[i + dec_str(n as int).len()],
        ),
    ensures
        spec_number(text, i) == Some((n, i + dec_str(n as int).len() as int)),
{
    let rendered = dec_str(n as int);
    let j = i + rendered.len() as int;
    lemma_dec_str_digits(n as int);
    assert forall|k: int| i <= k < j implies json_digit(#[trigger] text[k]) by {
        assert(text.subrange(i, j)[k - i] == text[k]);
        assert(rendered[k - i] == text.subrange(i, j)[k - i]);
        assert(json_digit(rendered[k - i]));
    }
    assert(text[i] == rendered[0]) by {
        assert(text.subrange(i, j)[0] == text[i]);
    }
    if n == 0 {
        assert(rendered =~= seq![crate::text::digit_char(0)]);
        assert(text[i] == '0');
        assert(j == i + 1);
        if i + 1 < text.len() {
            assert(!json_digit(text[i + 1]));
        }
        assert(spec_number(text, i) == Some((0u64, i + 1)));
    } else {
        lemma_dec_str_lead(n as int);
        assert(rendered.first() == rendered[0]);
        assert(text[i] != '0');
        assert(json_digit(text[i]));
        lemma_digits_fold_of_dec(0, n as int);
        assert(digits_fold(0, rendered) == n);
        assert(digits_fold(0, text.subrange(i, j)) == n);
        lemma_digits_parse(text, i, j, 0);
        assert(spec_number(text, i) == Some((n, j)));
    }
}

/// A rendered decimal parses back to the same number: the JSON renderer
/// and the JSON parser agree on every integer value.
pub proof fn lemma_number_round_trip(n: u64)
    ensures
        spec_json(dec_str(n as int)) == Some(JsonModel::UInt(n)),
{
    let text = dec_str(n as int);
    lemma_dec_str_digits(n as int);
    assert(json_digit(text[0]));
    assert(!json_ws(text[0]));
    assert(spec_skip_ws(text, 0) == 0);
    assert(text.subrange(0, text.len() as int) =~= text);
    lemma_number_at(text, 0, n);
    assert(spec_number(text, 0) == Some((n, text.len() as int)));
    assert(text[0] != 'n' && text[0] != 't' && text[0] != 'f' && text[0] != '"' && text[0] != '['
        && text[0] != '{');
    assert(spec_value(text, 0) == Some((JsonModel::UInt(n), text.len() as int)));
    assert(spec_skip_ws(text, text.len() as int) == text.len());
}

} // verus!
