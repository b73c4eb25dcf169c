use vstd::prelude::*;

use crate::errors::DelegationError;
use crate::text::{chars_to_string, string_to_chars};

verus! {

/// The mathematical model of a JSON document as this library uses it:
/// strings, arrays and objects. Numbers, booleans and null do not occur
/// in the credential wire formats (timestamps travel as strings).
pub enum JsonRep {
    Str(Seq<char>),
    Arr(Seq<JsonRep>),
    Obj(Seq<(Seq<char>, JsonRep)>),
}

/// A JSON document: the executable counterpart of `JsonRep`.
/// An object keeps its members in order; duplicate keys are not rejected,
/// and lookups return the first match.
pub enum JsonValue {
    JString(String),
    JArray(Vec<JsonValue>),
    JObject(Vec<(String, JsonValue)>),
}

pub open spec fn rep_of_seq(a: Seq<JsonValue>) -> Seq<JsonRep>
    decreases a, 0int,
{
    if a.len() == 0 {
        Seq::<JsonRep>::empty()
    } else {
        rep_of_seq(a.drop_last()).push(rep(a.last()))
    }
}

pub open spec fn rep_of_members(m: Seq<(String, JsonValue)>) -> Seq<(Seq<char>, JsonRep)>
    decreases m, 0int,
{
    if m.len() == 0 {
        Seq::<(Seq<char>, JsonRep)>::empty()
    } else {
        rep_of_members(m.drop_last()).push((m.last().0@, rep(m.last().1)))
    }
}

/// The model of a value list indexes pointwise into the list.
pub proof fn lemma_rep_of_seq(a: Seq<JsonValue>)
    ensures
        rep_of_seq(a).len() == a.len(),
        forall|i: int| 0 <= i < a.len() ==> rep_of_seq(a)[i] == rep(a[i]),
    decreases a.len(),
{
    if a.len() > 0 {
        lemma_rep_of_seq(a.drop_last());
    }
}

/// The model of a member list indexes pointwise into the list.
pub proof fn lemma_rep_of_members(m: Seq<(String, JsonValue)>)
    ensures
        rep_of_members(m).len() == m.len(),
        forall|i: int|
            0 <= i < m.len() ==> rep_of_members(m)[i] == (m[i].0@, rep(m[i].1)),
    decreases m.len(),
{
    if m.len() > 0 {
        lemma_rep_of_members(m.drop_last());
    }
}

/// The model of a JSON document.
pub open spec fn rep(v: JsonValue) -> JsonRep
    decreases v, 1int,
{
    match v {
        JsonValue::JString(s) => JsonRep::Str(s@),
        JsonValue::JArray(a) => JsonRep::Arr(rep_of_seq(a@)),
        JsonValue::JObject(m) => JsonRep::Obj(rep_of_members(m@)),
    }
}

impl View for JsonValue {
    type V = JsonRep;

    open spec fn view(&self) -> JsonRep {
        rep(*self)
    }
}

/// The lower-case hexadecimal digit for a value in 0..16.
pub open spec fn hex_digit(v: int) -> char {
    if v < 10 {
        ((48 + v) as u8) as char
    } else {
        ((87 + v) as u8) as char
    }
}

/// How one character appears inside a JSON string literal: quotes and
/// backslashes are escaped, control characters take the \u00XX form,
/// everything else stands as itself.
pub open spec fn spec_escape_char(c: char) -> Seq<char> {
    if c == '"' {
        seq!['\\', '"']
    } else if c == '\\' {
        seq!['\\', '\\']
    } else if (c as u32) < 32 {
        seq!['\\', 'u', '0', '0', hex_digit(c as u32 as int / 16), hex_digit(c as u32 as int % 16)]
    } else {
        seq![c]
    }
}

pub open spec fn spec_escape(s: Seq<char>) -> Seq<char>
    decreases s.len(),
{
    if s.len() == 0 {
        Seq::<char>::empty()
    } else {
        spec_escape_char(s[0]) + spec_escape(s.drop_first())
    }
}

/// A quoted and escaped JSON string literal.
pub open spec fn spec_json_string(s: Seq<char>) -> Seq<char> {
    seq!['"'] + spec_escape(s) + seq!['"']
}

/// The canonical text of a JSON document: no whitespace, members in
/// the order they are stored.
pub open spec fn spec_encode(r: JsonRep) -> Seq<char>
    decreases r, 0int, 0int,
{
    match r {
        JsonRep::Str(s) => spec_json_string(s),
        JsonRep::Arr(a) => seq!['['] + spec_encode_items(a, a.len() as int) + seq![']'],
        JsonRep::Obj(m) => seq!['{'] + spec_encode_members(m, m.len() as int) + seq!['}'],
    }
}

/// The comma-separated encoding of the first `i` items of `a`.
pub open spec fn spec_encode_items(a: Seq<JsonRep>, i: int) -> Seq<char>
    decreases a, 1int, i,
    when 0 <= i <= a.len()
{
    if i <= 0 {
        Seq::<char>::empty()
    } else if i == 1 {
        spec_encode(a[0])
    } else {
        spec_encode_items(a, i - 1) + seq![','] + spec_encode(a[i - 1])
    }
}

/// The comma-separated encoding of the first `i` members of `m`.
pub open spec fn spec_encode_members(m: Seq<(Seq<char>, JsonRep)>, i: int) -> Seq<char>
    decreases m, 1int, i,
    when 0 <= i <= m.len()
{
    if i <= 0 {
        Seq::<char>::empty()
    } else if i == 1 {
        spec_json_string(m[0].0) + seq![':'] + spec_encode(m[0].1)
    } else {
        spec_encode_members(m, i - 1) + seq![','] + spec_json_string(m[i - 1].0) + seq![':']
            + spec_encode(m[i - 1].1)
    }
}

/// Append the escaped form of `s` (without the surrounding quotes) to `out`.
fn escape_into(s: &String, out: &mut Vec<char>)
    ensures
        final(out)@ == old(out)@ + spec_escape(s@),
{
    let chars = string_to_chars(s.as_str());
    let mut i: usize = 0;
    let ghost all = s@;
    while i < chars.len()
        invariant
            0 <= i <= chars@.len(),
            chars@ == all,
            out@ == old(out)@ + spec_escape(all.take(i as int)),
        decreases chars@.len() - i,
    {
        let ghost before = out@;
        let c = chars[i];
        let u = c as u32;
        if c == '"' {
            out.push('\\');
            out.push('"');
        } else if c == '\\' {
            out.push('\\');
            out.push('\\');
        } else if u < 32 {
            out.push('\\');
            out.push('u');
            out.push('0');
            out.push('0');
            let hi = u / 16;
            let lo = u % 16;
            out.push(((48 + hi) as u8) as char);
            out.push(if lo < 10 {
                ((48 + lo) as u8) as char
            } else {
                ((87 + lo) as u8) as char
            });
        } else {
            out.push(c);
        }
        proof {
            assert(out@ =~= before + spec_escape_char(all[i as int]));
            lemma_escape_snoc(all, i as int);
        }
        i = i + 1;
    }
    proof {
        assert(all.take(all.len() as int) =~= all);
    }
}

/// Escaping distributes over extending the input by one character.
proof fn lemma_escape_snoc(s: Seq<char>, i: int)
    requires
        0 <= i < s.len(),
    ensures
        spec_escape(s.take(i + 1)) == spec_escape(s.take(i)) + spec_escape_char(s[i]),
    decreases i,
{
    if i == 0 {
        assert(s.take(1).drop_first() =~= Seq::<char>::empty());
        assert(s.take(0) =~= Seq::<char>::empty());
        assert(s.take(1)[0] == s[0]);
        assert(s.take(1).len() == 1);
        assert(spec_escape(s.take(1)) == spec_escape_char(s.take(1)[0]) + spec_escape(
            s.take(1).drop_first(),
        ));
        assert(spec_escape(Seq::<char>::empty()) == Seq::<char>::empty());
        assert(spec_escape_char(s[0]) + Seq::<char>::empty() =~= spec_escape_char(s[0]));
        assert(spec_escape(s.take(0)) + spec_escape_char(s[0]) =~= spec_escape_char(s[0]));
    } else {
        lemma_escape_snoc(s.drop_first(), i - 1);
        assert(s.take(i + 1).drop_first() =~= s.drop_first().take(i));
        assert(s.take(i).drop_first() =~= s.drop_first().take(i - 1));
        assert(s.drop_first()[i - 1] == s[i]);
        assert(spec_escape(s.take(i + 1)) == spec_escape_char(s[0]) + spec_escape(
            s.drop_first().take(i),
        ));
        assert(spec_escape(s.take(i)) == spec_escape_char(s[0]) + spec_escape(
            s.drop_first().take(i - 1),
        ));
        assert(spec_escape_char(s[0]) + (spec_escape(s.drop_first().take(i - 1))
            + spec_escape_char(s[i])) =~= (spec_escape_char(s[0]) + spec_escape(
            s.drop_first().take(i - 1),
        )) + spec_escape_char(s[i]));
    }
}

/// Append the canonical text of `v` to `out`.
#[verifier::loop_isolation(false)]
#[verifier::rlimit(60)]
fn encode_into(v: &JsonValue, out: &mut Vec<char>)
    ensures
        final(out)@ == old(out)@ + spec_encode(v@),
    decreases *v,
{
    match v {
        JsonValue::JString(s) => {
            out.push('"');
            escape_into(s, out);
            out.push('"');
            proof {
                assert(out@ =~= old(out)@ + spec_json_string(s@));
            }
        },
        JsonValue::JArray(a) => {
            let ghost arep = rep_of_seq(a@);
            proof {
                lemma_rep_of_seq(a@);
            }
            out.push('[');
            let ghost start = out@;
            let mut i: usize = 0;
            while i < a.len()
                invariant
                    0 <= i <= a@.len(),
                    arep == rep_of_seq(a@),
                    start == old(out)@ + seq!['['],
                    out@ == start + spec_encode_items(arep, i as int),
                decreases a@.len() - i,
            {
                let ghost before = out@;
                if i > 0 {
                    out.push(',');
                }
                proof {
                    assert(decreases_to!(*v => a@[i as int]));
                }
                encode_into(&a[i], out);
                proof {
                    lemma_rep_of_seq(a@);
                    assert(arep[i as int] == rep(a@[i as int]));
                    if i == 0 {
                        assert(out@ =~= start + spec_encode_items(arep, i + 1));
                    } else {
                        assert(out@ =~= start + spec_encode_items(arep, i + 1));
                    }
                }
                i = i + 1;
            }
            out.push(']');
            proof {
                assert(out@ =~= old(out)@ + spec_encode(v@));
            }
        },
        JsonValue::JObject(m) => {
            let ghost mrep = rep_of_members(m@);
            proof {
                lemma_rep_of_members(m@);
            }
            out.push('{');
            let ghost start = out@;
            let mut i: usize = 0;
            while i < m.len()
                invariant
                    0 <= i <= m@.len(),
                    mrep == rep_of_members(m@),
                    start == old(out)@ + seq!['{'],
                    out@ == start + spec_encode_members(mrep, i as int),
                decreases m@.len() - i,
            {
                let ghost before = out@;
                if i > 0 {
                    out.push(',');
                }
                out.push('"');
                escape_into(&m[i].0, out);
                out.push('"');
                out.push(':');
                encode_into(&m[i].1, out);
                proof {
                    lemma_rep_of_members(m@);
                    assert(mrep[i as int] == (m@[i as int].0@, rep(m@[i as int].1)));
                    if i == 0 {
                        assert(out@ =~= start + spec_encode_members(mrep, i + 1));
                    } else {
                        assert(out@ =~= start + spec_encode_members(mrep, i + 1));
                    }
                }
                i = i + 1;
            }
            out.push('}');
            proof {
                assert(out@ =~= old(out)@ + spec_encode(v@));
            }
        },
    }
}

/// Render a JSON document as its canonical text.
pub fn encode_json(v: &JsonValue) -> (r: String)
    ensures
        r@ == spec_encode(v@),
{
    let mut out: Vec<char> = Vec::new();
    encode_into(v, &mut out);
    chars_to_string(&out)
}

/// Whether a character is JSON whitespace.
pub open spec fn is_ws(c: char) -> bool {
    c == ' ' || c == '\t' || c == '\n' || c == '\r'
}

/// Advance past whitespace.
fn skip_ws(s: &Vec<char>, i: usize) -> (j: usize)
    requires
        i <= s@.len(),
    ensures
        i <= j <= s@.len(),
{
    let mut j = i;
    while j < s.len()
        invariant
            i <= j <= s@.len(),
        decreases s@.len() - j,
    {
        let c = s[j];
        if c == ' ' || c == '\t' || c == '\n' || c == '\r' {
            j = j + 1;
        } else {
            return j;
        }
    }
    j
}

/// The value of a hexadecimal digit character, if it is one.
fn hex_val(c: char) -> (r: Option<u32>)
    ensures
        r matches Some(v) ==> v < 16,
{
    let u = c as u32;
    if 48 <= u && u <= 57 {
        Some(u - 48)
    } else if 97 <= u && u <= 102 {
        Some(u - 87)
    } else if 65 <= u && u <= 70 {
        Some(u - 55)
    } else {
        None
    }
}

/// Parse a JSON string literal starting at the opening quote at `i`.
/// All escapes are accepted, including surrogate pairs; a lone surrogate
/// is rejected.
#[verifier::loop_isolation(false)]
fn parse_string_at(s: &Vec<char>, i: usize) -> (r: Result<(String, usize), DelegationError>)
    requires
        i <= s@.len(),
    ensures
        r matches Ok(p) ==> i < p.1 <= s@.len(),
{
    if i >= s.len() || s[i] != '"' {
        return Err(DelegationError::Deserialize);
    }
    let mut buf: Vec<char> = Vec::new();
    let mut j = i + 1;
    while j < s.len()
        invariant
            i < j <= s@.len(),
        decreases s@.len() - j,
    {
        let c = s[j];
        if c == '"' {
            return Ok((chars_to_string(&buf), j + 1));
        } else if c == '\\' {
            if j + 1 >= s.len() {
                return Err(DelegationError::Deserialize);
            }
            let e = s[j + 1];
            if e == '"' {
                buf.push('"');
                j = j + 2;
            } else if e == '\\' {
                buf.push('\\');
                j = j + 2;
            } else if e == '/' {
                buf.push('/');
                j = j + 2;
            } else if e == 'b' {
                buf.push(8u8 as char);
                j = j + 2;
            } else if e == 'f' {
                buf.push(12u8 as char);
                j = j + 2;
            } else if e == 'n' {
                buf.push('\n');
                j = j + 2;
            } else if e == 'r' {
                buf.push('\r');
                j = j + 2;
            } else if e == 't' {
                buf.push('\t');
                j = j + 2;
            } else if e == 'u' {
                if s.len() - j <= 5 {
                    return Err(DelegationError::Deserialize);
                }
                let h0 = hex_val(s[j + 2]);
                let h1 = hex_val(s[j + 3]);
                let h2 = hex_val(s[j + 4]);
                let h3 = hex_val(s[j + 5]);
                match (h0, h1, h2, h3) {
                    (Some(a), Some(b), Some(c2), Some(d)) => {
                        let code = a * 4096 + b * 256 + c2 * 16 + d;
                        if 0xD800 <= code && code <= 0xDBFF {
                            // A high surrogate must be followed by an
                            // escaped low surrogate; together they name one
                            // supplementary code point.
                            if s.len() - j <= 11 || s[j + 6] != '\\' || s[j + 7] != 'u' {
                                return Err(DelegationError::Deserialize);
                            }
                            let l0 = hex_val(s[j + 8]);
                            let l1 = hex_val(s[j + 9]);
                            let l2 = hex_val(s[j + 10]);
                            let l3 = hex_val(s[j + 11]);
                            match (l0, l1, l2, l3) {
                                (Some(la), Some(lb), Some(lc), Some(ld)) => {
                                    let low = la * 4096 + lb * 256 + lc * 16 + ld;
                                    if !(0xDC00 <= low && low <= 0xDFFF) {
                                        return Err(DelegationError::Deserialize);
                                    }
                                    let point = 0x10000 + (code - 0xD800) * 0x400 + (low
                                        - 0xDC00);
                                    match crate::text::char_from_u32(point) {
                                        Some(ch) => {
                                            buf.push(ch);
                                        },
                                        None => {
                                            return Err(DelegationError::Deserialize);
                                        },
                                    }
                                    j = j + 12;
                                },
                                _ => {
                                    return Err(DelegationError::Deserialize);
                                },
                            }
                        } else {
                            match crate::text::char_from_u32(code) {
                                Some(ch) => {
                                    buf.push(ch);
                                },
                                None => {
                                    return Err(DelegationError::Deserialize);
                                },
                            }
                            j = j + 6;
                        }
                    },
                    _ => {
                        return Err(DelegationError::Deserialize);
                    },
                }
            } else {
                return Err(DelegationError::Deserialize);
            }
        } else if (c as u32) < 32 {
            return Err(DelegationError::Deserialize);
        } else {
            buf.push(c);
            j = j + 1;
        }
    }
    Err(DelegationError::Deserialize)
}

/// Parse one JSON value starting at `i`, skipping leading whitespace.
/// Only strings, arrays and objects are accepted; the credential wire
/// formats contain nothing else.
#[verifier::loop_isolation(false)]
pub fn parse_value_at(s: &Vec<char>, i: usize) -> (r: Result<
    (JsonValue, usize),
    DelegationError,
>)
    requires
        i <= s@.len(),
    ensures
        r matches Ok(p) ==> i < p.1 <= s@.len(),
    decreases s@.len() - i,
{
    let j = skip_ws(s, i);
    if j >= s.len() {
        return Err(DelegationError::Deserialize);
    }
    let c = s[j];
    if c == '"' {
        let (text, j2) = parse_string_at(s, j)?;
        Ok((JsonValue::JString(text), j2))
    } else if c == '[' {
        let mut items: Vec<JsonValue> = Vec::new();
        let mut k = skip_ws(s, j + 1);
        if k < s.len() && s[k] == ']' {
            return Ok((JsonValue::JArray(items), k + 1));
        }
        loop
            invariant
                j < k <= s@.len(),
                j < s@.len(),
            decreases s@.len() - k,
        {
            let (item, k2) = parse_value_at(s, k)?;
            items.push(item);
            let k3 = skip_ws(s, k2);
            if k3 >= s.len() {
                return Err(DelegationError::Deserialize);
            }
            if s[k3] == ',' {
                k = k3 + 1;
            } else if s[k3] == ']' {
                return Ok((JsonValue::JArray(items), k3 + 1));
            } else {
                return Err(DelegationError::Deserialize);
            }
        }
    } else if c == '{' {
        let mut members: Vec<(String, JsonValue)> = Vec::new();
        let mut k = skip_ws(s, j + 1);
        if k < s.len() && s[k] == '}' {
            return Ok((JsonValue::JObject(members), k + 1));
        }
        loop
            invariant
                j < k <= s@.len(),
                j < s@.len(),
            decreases s@.len() - k,
        {
            let k1 = skip_ws(s, k);
            let (key, k2) = parse_string_at(s, k1)?;
            let k3 = skip_ws(s, k2);
            if k3 >= s.len() || s[k3] != ':' {
                return Err(DelegationError::Deserialize);
            }
            let (val, k4) = parse_value_at(s, k3 + 1)?;
            members.push((key, val));
            let k5 = skip_ws(s, k4);
            if k5 >= s.len() {
                return Err(DelegationError::Deserialize);
            }
            if s[k5] == ',' {
                k = k5 + 1;
            } else if s[k5] == '}' {
                return Ok((JsonValue::JObject(members), k5 + 1));
            } else {
                return Err(DelegationError::Deserialize);
            }
        }
    } else {
        Err(DelegationError::Deserialize)
    }
}

/// Parse a complete JSON document; trailing whitespace is allowed,
/// trailing content is not.
pub fn parse_json(text: &String) -> (r: Result<JsonValue, DelegationError>) {
    let chars = string_to_chars(text.as_str());
    let (v, j) = parse_value_at(&chars, 0)?;
    let j2 = skip_ws(&chars, j);
    if j2 != chars.len() {
        return Err(DelegationError::Deserialize);
    }
    Ok(v)
}

/// The first member of `m` whose key is `key`, if any.
pub open spec fn spec_obj_get(m: Seq<(Seq<char>, JsonRep)>, key: Seq<char>) -> Option<JsonRep>
    decreases m.len(),
{
    if m.len() == 0 {
        None
    } else if m[0].0 == key {
        Some(m[0].1)
    } else {
        spec_obj_get(m.drop_first(), key)
    }
}

/// Look up a member of a JSON object by key; the first match wins.
#[verifier::loop_isolation(false)]
pub fn obj_get<'a>(members: &'a Vec<(String, JsonValue)>, key: &String) -> (r: Option<
    &'a JsonValue,
>)
    ensures
        match r {
            Some(v) => spec_obj_get(rep_of_members(members@), key@) == Some(v@),
            None => spec_obj_get(rep_of_members(members@), key@) is None,
        },
{
    proof {
        lemma_rep_of_members(members@);
        assert(rep_of_members(members@).skip(0) =~= rep_of_members(members@));
    }
    let mut i: usize = 0;
    while i < members.len()
        invariant
            0 <= i <= members@.len(),
            spec_obj_get(rep_of_members(members@), key@) == spec_obj_get(
                rep_of_members(members@).skip(i as int),
                key@,
            ),
        decreases members@.len() - i,
    {
        let ghost mrep = rep_of_members(members@);
        proof {
            lemma_rep_of_members(members@);
            assert(mrep.skip(i as int)[0] == mrep[i as int]);
        }
        if members[i].0 == *key {
            return Some(&members[i].1);
        }
        proof {
            assert(mrep.skip(i as int).drop_first() =~= mrep.skip(i + 1));
        }
        i = i + 1;
    }
    proof {
        assert(rep_of_members(members@).skip(members@.len() as int) =~= Seq::<(
            Seq<char>,
            JsonRep,
        )>::empty());
    }
    None
}

/// A list of strings as JSON string nodes.
pub open spec fn str_reps(a: Seq<Seq<char>>) -> Seq<JsonRep> {
    a.map_values(|s: Seq<char>| JsonRep::Str(s))
}

/// The strings of a JSON array, if every item is a string.
pub open spec fn strings_of(a: Seq<JsonRep>) -> Option<Seq<Seq<char>>>
    decreases a.len(),
{
    if a.len() == 0 {
        Some(Seq::<Seq<char>>::empty())
    } else {
        match a[0] {
            JsonRep::Str(s) => match strings_of(a.drop_first()) {
                Some(r) => Some(seq![s] + r),
                None => None,
            },
            _ => None,
        }
    }
}

/// Reading back a list of string nodes yields those same strings.
pub proof fn lemma_strings_of_str_reps(a: Seq<Seq<char>>)
    ensures
        strings_of(str_reps(a)) == Some(a),
    decreases a.len(),
{
    if a.len() == 0 {
        assert(str_reps(a).len() == 0);
        assert(strings_of(str_reps(a)) == Some(Seq::<Seq<char>>::empty()));
        assert(a =~= Seq::<Seq<char>>::empty());
    } else {
        lemma_strings_of_str_reps(a.drop_first());
        assert(str_reps(a).drop_first() =~= str_reps(a.drop_first()));
        assert(str_reps(a)[0] == JsonRep::Str(a[0]));
        assert(seq![a[0]] + a.drop_first() =~= a);
    }
}

/// The string under `key` in an object, if the member exists and is a string.
pub open spec fn spec_str_member(m: Seq<(Seq<char>, JsonRep)>, key: Seq<char>) -> Option<
    Seq<char>,
> {
    match spec_obj_get(m, key) {
        Some(JsonRep::Str(s)) => Some(s),
        _ => None,
    }
}

/// The strings under `key` in an object, if the member exists and is an
/// array of strings.
pub open spec fn spec_str_array_member(m: Seq<(Seq<char>, JsonRep)>, key: Seq<char>) -> Option<
    Seq<Seq<char>>,
> {
    match spec_obj_get(m, key) {
        Some(JsonRep::Arr(a)) => strings_of(a),
        _ => None,
    }
}

/// Fetch a string member of a JSON object.
pub fn get_string_member(m: &Vec<(String, JsonValue)>, key: &String) -> (r: Result<
    String,
    DelegationError,
>)
    ensures
        match r {
            Ok(s) => spec_str_member(rep_of_members(m@), key@) == Some(s@),
            Err(e) => e == DelegationError::Deserialize && spec_str_member(
                rep_of_members(m@),
                key@,
            ) is None,
        },
{
    match obj_get(m, key) {
        Some(v) => match v {
            JsonValue::JString(s) => Ok(s.clone()),
            _ => Err(DelegationError::Deserialize),
        },
        None => Err(DelegationError::Deserialize),
    }
}

/// Fetch a string-array member of a JSON object.
#[verifier::loop_isolation(false)]
pub fn get_string_array_member(m: &Vec<(String, JsonValue)>, key: &String) -> (r: Result<
    Vec<String>,
    DelegationError,
>)
    ensures
        match r {
            Ok(v) => spec_str_array_member(rep_of_members(m@), key@) == Some(
                crate::text::strs(v@),
            ),
            Err(e) => e == DelegationError::Deserialize && spec_str_array_member(
                rep_of_members(m@),
                key@,
            ) is None,
        },
{
    let arr = match obj_get(m, key) {
        Some(v) => match v {
            JsonValue::JArray(a) => a,
            _ => {
                return Err(DelegationError::Deserialize);
            },
        },
        None => {
            return Err(DelegationError::Deserialize);
        },
    };
    let ghost arep = rep_of_seq(arr@);
    proof {
        lemma_rep_of_seq(arr@);
    }
    let mut out: Vec<String> = Vec::new();
    let mut i: usize = 0;
    while i < arr.len()
        invariant
            0 <= i <= arr@.len(),
            strings_of(arep.take(i as int)) == Some(crate::text::strs(out@)),
        decreases arr@.len() - i,
    {
        match &arr[i] {
            JsonValue::JString(s) => {
                let ghost old_out = out@;
                out.push(s.clone());
                proof {
                    assert(arep.take(i + 1).drop_last() =~= arep.take(i as int));
                    lemma_strings_of_snoc(arep, i as int);
                    assert(crate::text::strs(out@) =~= crate::text::strs(old_out).push(s@));
                }
            },
            _ => {
                proof {
                    lemma_strings_of_non_string(arep, i as int);
                }
                return Err(DelegationError::Deserialize);
            },
        }
        i = i + 1;
    }
    proof {
        assert(arep.take(arep.len() as int) =~= arep);
    }
    Ok(out)
}

/// Extending a string-array prefix by one string node extends its strings.
pub proof fn lemma_strings_of_snoc(a: Seq<JsonRep>, i: int)
    requires
        0 <= i < a.len(),
        a[i] is Str,
        strings_of(a.take(i)) is Some,
    ensures
        strings_of(a.take(i + 1)) == Some(strings_of(a.take(i))->Some_0.push(a[i]->Str_0)),
    decreases i,
{
    if i == 0 {
        assert(a.take(1)[0] == a[0]);
        assert(a.take(1).drop_first() =~= Seq::<JsonRep>::empty());
        assert(strings_of(a.take(1)) == Some(seq![a[0]->Str_0] + Seq::<Seq<char>>::empty()));
        assert(seq![a[0]->Str_0] + Seq::<Seq<char>>::empty() =~= Seq::<Seq<
            char,
        >>::empty().push(a[0]->Str_0));
        assert(strings_of(a.take(0)) == Some(Seq::<Seq<char>>::empty()));
    } else {
        assert(a.take(i + 1)[0] == a[0]);
        assert(a.take(i)[0] == a[0]);
        assert(a.take(i + 1).drop_first() =~= a.drop_first().take(i));
        assert(a.take(i).drop_first() =~= a.drop_first().take(i - 1));
        if a[0] is Str {
            lemma_strings_of_snoc(a.drop_first(), i - 1);
            assert(a.drop_first()[i - 1] == a[i]);
            let pre = strings_of(a.drop_first().take(i - 1))->Some_0;
            assert(strings_of(a.take(i)) == Some(seq![a[0]->Str_0] + pre));
            assert(strings_of(a.take(i + 1)) == Some(
                seq![a[0]->Str_0] + pre.push(a[i]->Str_0),
            ));
            assert(seq![a[0]->Str_0] + pre.push(a[i]->Str_0) =~= (seq![a[0]->Str_0]
                + pre).push(a[i]->Str_0));
        }
    }
}

/// A non-string item anywhere in the array makes the whole read fail.
pub proof fn lemma_strings_of_non_string(a: Seq<JsonRep>, i: int)
    requires
        0 <= i < a.len(),
        !(a[i] is Str),
    ensures
        strings_of(a) is None,
    decreases i,
{
    if i == 0 {
    } else {
        lemma_strings_of_non_string(a.drop_first(), i - 1);
        assert(a.drop_first()[i - 1] == a[i]);
    }
}

/// Build a JSON array node out of a list of strings.
#[verifier::loop_isolation(false)]
pub fn strings_to_json(v: &Vec<String>) -> (r: JsonValue)
    ensures
        r@ == JsonRep::Arr(str_reps(crate::text::strs(v@))),
{
    let mut items: Vec<JsonValue> = Vec::new();
    let mut i: usize = 0;
    while i < v.len()
        invariant
            0 <= i <= v@.len(),
            rep_of_seq(items@) == str_reps(crate::text::strs(v@.take(i as int))),
        decreases v@.len() - i,
    {
        let ghost before = items@;
        items.push(JsonValue::JString(v[i].clone()));
        proof {
            assert(items@.drop_last() =~= before);
            assert(rep_of_seq(items@) == rep_of_seq(before).push(rep(items@.last())));
            assert(str_reps(crate::text::strs(v@.take(i + 1))) =~= str_reps(
                crate::text::strs(v@.take(i as int)),
            ).push(JsonRep::Str(v@[i as int]@)));
        }
        i = i + 1;
    }
    proof {
        assert(v@.take(v@.len() as int) =~= v@);
    }
    JsonValue::JArray(items)
}

} // verus!
