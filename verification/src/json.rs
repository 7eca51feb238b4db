//! A plain-value model of JSON documents.
//!
//! Wire payloads are parsed by serde_json behind a trusted boundary; the
//! parsed document is re-stated as [`JsonValue`], which holds as plain values
//! everything the decoders read: strings, object entries, array elements, and
//! each number's decimal rendering. All logic over documents is verified.

use vstd::prelude::*;

verus! {

use crate::text::str_eq;

/// One JSON value, over plain data only. A number keeps its decimal token
/// (serde_json's canonical rendering) rather than a binary form, so the model
/// is exact for integers and floats alike.
#[derive(Debug)]
pub enum JsonValue {
    /// The JSON null value.
    Null,
    /// A JSON boolean.
    Bool(bool),
    /// A JSON number, as its decimal token.
    Num(String),
    /// A JSON string.
    Str(String),
    /// A JSON array.
    Arr(Vec<JsonValue>),
    /// A JSON object, entries in parse order (serde_json orders keys).
    Obj(Vec<(String, JsonValue)>),
}

/// What serde_json makes of a byte payload: `None` when the bytes are not
/// accepted as JSON, otherwise the parsed document re-stated over plain
/// values. The outcome depends on the bytes alone.
pub uninterp spec fn json_doc(bytes: Seq<u8>) -> Option<JsonValue>;

#[verifier::external_type_specification]
#[verifier::external_body]
pub struct ExSerdeValue(serde_json::Value);

/// Relies on serde_json::from_slice::<serde_json::Value>: acceptance and the
/// parsed document are a function of the input bytes alone (object entries
/// come back in serde_json's key order).
#[verifier::external_body]
pub fn parse_json(bytes: &Vec<u8>) -> (r: Option<JsonValue>)
    ensures
        r == json_doc(bytes@),
{
    serde_json::from_slice::<serde_json::Value>(bytes).ok().map(|v| reflect(&v))
}

/// Relies on serde_json::Value and serde_json::Number: re-states one parsed
/// document over the library's model, one arm per variant, keeping every
/// field; a number becomes its Display rendering (integers exactly, floats in
/// serde_json's shortest form).
#[verifier::external_body]
fn reflect(v: &serde_json::Value) -> JsonValue {
    match v {
        serde_json::Value::Null => JsonValue::Null,
        serde_json::Value::Bool(b) => JsonValue::Bool(*b),
        serde_json::Value::Number(n) => JsonValue::Num(n.to_string()),
        serde_json::Value::String(s) => JsonValue::Str(s.clone()),
        serde_json::Value::Array(a) => JsonValue::Arr(a.iter().map(reflect).collect()),
        serde_json::Value::Object(m) => JsonValue::Obj(
            m.iter().map(|(k, x)| (k.clone(), reflect(x))).collect(),
        ),
    }
}

/// A decimal digit.
pub open spec fn is_dec_digit(c: char) -> bool {
    48 <= (c as u32) <= 57
}

/// Every character of the sequence is a decimal digit.
pub open spec fn all_digits(s: Seq<char>) -> bool {
    forall|i: int| 0 <= i < s.len() ==> is_dec_digit(s[i])
}

/// The integer a digit sequence denotes, most significant digit first.
pub open spec fn dec_val(s: Seq<char>) -> int
    decreases s.len(),
{
    if s.len() == 0 {
        0
    } else {
        dec_val(s.drop_last()) * 10 + (s.last() as u32 - 48)
    }
}

/// Ten to the given power.
pub open spec fn pow10(n: nat) -> int
    decreases n,
{
    if n == 0 {
        1
    } else {
        10 * pow10((n - 1) as nat)
    }
}

/// The value a number token denotes as a `u64`: defined for one to nineteen
/// decimal digits (every such token fits in a `u64`), `None` otherwise, in
/// particular for negative and fractional tokens.
pub open spec fn dec_token_value(s: Seq<char>) -> Option<u64> {
    if 1 <= s.len() <= 19 && all_digits(s) {
        Some(dec_val(s) as u64)
    } else {
        None
    }
}

proof fn lemma_dec_val_bound(s: Seq<char>)
    requires
        all_digits(s),
    ensures
        0 <= dec_val(s) < pow10(s.len()),
    decreases s.len(),
{
    if s.len() > 0 {
        assert(all_digits(s.drop_last())) by {
            assert(forall|i: int|
                0 <= i < s.drop_last().len() ==> s.drop_last()[i] == s[i]);
        }
        lemma_dec_val_bound(s.drop_last());
    }
}

proof fn lemma_pow10_mono(i: nat, j: nat)
    requires
        i <= j,
    ensures
        pow10(i) <= pow10(j),
    decreases j,
{
    if i < j {
        lemma_pow10_mono(i, (j - 1) as nat);
        assert(pow10((j - 1) as nat) >= 1) by {
            lemma_pow10_pos((j - 1) as nat);
        }
    }
}

proof fn lemma_pow10_pos(n: nat)
    ensures
        pow10(n) >= 1,
    decreases n,
{
    if n > 0 {
        lemma_pow10_pos((n - 1) as nat);
    }
}

/// Reads a `u64` from a token of one to nineteen decimal digits.
pub fn parse_dec_u64(s: &str) -> (r: Option<u64>)
    ensures
        r == dec_token_value(s@),
{
    let n = s.unicode_len();
    if n == 0 || n > 19 {
        return None;
    }
    let mut val: u64 = 0;
    let mut i: usize = 0;
    while i < n
        invariant
            0 <= i <= n,
            n == s@.len(),
            1 <= n <= 19,
            all_digits(s@.subrange(0, i as int)),
            val == dec_val(s@.subrange(0, i as int)),
        decreases n - i,
    {
        let c = s.get_char(i);
        let code = c as u32;
        if code < 48 || code > 57 {
            proof {
                assert(!all_digits(s@));
            }
            return None;
        }
        proof {
            lemma_dec_val_bound(s@.subrange(0, i as int));
            lemma_pow10_mono(i as nat, 18);
            lemma_pow10_19_value();
            assert(s@.subrange(0, i as int + 1).drop_last() =~= s@.subrange(0, i as int));
        }
        val = val * 10 + ((code - 48) as u64);
        i += 1;
    }
    proof {
        assert(s@.subrange(0, n as int) =~= s@);
        lemma_dec_val_bound(s@);
        lemma_pow10_mono(n as nat, 19);
        lemma_pow10_19_value();
    }
    Some(val)
}

proof fn lemma_pow10_19_value()
    ensures
        pow10(18) == 1000000000000000000,
        pow10(19) == 10000000000000000000,
{
    reveal_with_fuel(pow10, 21);
}

/// The hexadecimal digit for a value below sixteen.
pub open spec fn hex_nibble(n: int) -> char {
    if n == 0 {
        '0'
    } else if n == 1 {
        '1'
    } else if n == 2 {
        '2'
    } else if n == 3 {
        '3'
    } else if n == 4 {
        '4'
    } else if n == 5 {
        '5'
    } else if n == 6 {
        '6'
    } else if n == 7 {
        '7'
    } else if n == 8 {
        '8'
    } else if n == 9 {
        '9'
    } else if n == 10 {
        'a'
    } else if n == 11 {
        'b'
    } else if n == 12 {
        'c'
    } else if n == 13 {
        'd'
    } else if n == 14 {
        'e'
    } else {
        'f'
    }
}

/// How one character is written inside a JSON string literal: quote and
/// backslash escaped, the named control escapes, other control characters in
/// `\u00..` form, anything else verbatim (serde_json's own scheme).
pub open spec fn escape_char(c: char) -> Seq<char> {
    if c == '"' {
        seq!['\\', '"']
    } else if c == '\\' {
        seq!['\\', '\\']
    } else if c == '\u{08}' {
        seq!['\\', 'b']
    } else if c == '\u{0c}' {
        seq!['\\', 'f']
    } else if c == '\n' {
        seq!['\\', 'n']
    } else if c == '\r' {
        seq!['\\', 'r']
    } else if c == '\t' {
        seq!['\\', 't']
    } else if (c as u32) < 32 {
        seq!['\\', 'u', '0', '0', hex_nibble(c as u32 as int / 16), hex_nibble(
            c as u32 as int % 16,
        )]
    } else {
        seq![c]
    }
}

/// A string's characters as written inside a JSON string literal.
pub open spec fn spec_escape(s: Seq<char>) -> Seq<char>
    decreases s.len(),
{
    if s.len() == 0 {
        Seq::empty()
    } else {
        escape_char(s[0]) + spec_escape(s.drop_first())
    }
}

/// The canonical compact text of a JSON value: no whitespace, object entries
/// in stored order, numbers as their kept tokens, strings escaped as serde
/// would write them. `None` when the value nests deeper than the fuel.
pub open spec fn spec_emit(v: JsonValue, fuel: nat) -> Option<Seq<char>>
    decreases fuel, 0int,
{
    if fuel == 0 {
        None
    } else {
        match v {
            JsonValue::Null => Some("null"@),
            JsonValue::Bool(b) => if b {
                Some("true"@)
            } else {
                Some("false"@)
            },
            JsonValue::Num(tok) => Some(tok@),
            JsonValue::Str(s) => Some("\""@ + spec_escape(s@) + "\""@),
            JsonValue::Arr(items) => match spec_emit_items(items@, (fuel - 1) as nat) {
                Some(c) => Some("["@ + c + "]"@),
                None => None,
            },
            JsonValue::Obj(entries) => match spec_emit_entries(entries@, (fuel - 1) as nat) {
                Some(c) => Some("{"@ + c + "}"@),
                None => None,
            },
        }
    }
}

/// Array elements joined with commas.
pub open spec fn spec_emit_items(items: Seq<JsonValue>, fuel: nat) -> Option<Seq<char>>
    decreases fuel, items.len() + 1,
{
    if items.len() == 0 {
        Some(Seq::empty())
    } else if items.len() == 1 {
        spec_emit(items[0], fuel)
    } else {
        match (spec_emit(items[0], fuel), spec_emit_items(items.drop_first(), fuel)) {
            (Some(h), Some(t)) => Some(h + ","@ + t),
            _ => None,
        }
    }
}

/// Object entries, `"key":value`, joined with commas.
pub open spec fn spec_emit_entries(entries: Seq<(String, JsonValue)>, fuel: nat) -> Option<
    Seq<char>,
>
    decreases fuel, entries.len() + 1,
{
    if entries.len() == 0 {
        Some(Seq::empty())
    } else {
        let head = match spec_emit(entries[0].1, fuel) {
            Some(ev) => Some("\""@ + spec_escape(entries[0].0@) + "\":"@ + ev),
            None => None,
        };
        if entries.len() == 1 {
            head
        } else {
            match (head, spec_emit_entries(entries.drop_first(), fuel)) {
                (Some(h), Some(t)) => Some(h + ","@ + t),
                _ => None,
            }
        }
    }
}

/// Looks a key up among object entries, first match wins.
pub open spec fn obj_lookup(entries: Seq<(String, JsonValue)>, key: Seq<char>) -> Option<JsonValue>
    decreases entries.len(),
{
    if entries.len() == 0 {
        None
    } else if entries[0].0@ == key {
        Some(entries[0].1)
    } else {
        obj_lookup(entries.drop_first(), key)
    }
}

/// The member of an object under the given key; `None` for any other value.
pub open spec fn spec_get(v: JsonValue, key: Seq<char>) -> Option<JsonValue> {
    match v {
        JsonValue::Obj(entries) => obj_lookup(entries@, key),
        _ => None,
    }
}

/// The string member under the given key, as the stored string value.
pub open spec fn member_string(v: JsonValue, key: Seq<char>) -> Option<String> {
    match spec_get(v, key) {
        Some(JsonValue::Str(s)) => Some(s),
        _ => None,
    }
}

/// The `u64` a numeric member under the given key denotes.
pub open spec fn spec_get_u64(v: JsonValue, key: Seq<char>) -> Option<u64> {
    match spec_get(v, key) {
        Some(JsonValue::Num(tok)) => dec_token_value(tok@),
        _ => None,
    }
}

impl JsonValue {
    /// The object member under `key`, if this value is an object that has it.
    #[verifier::loop_isolation(false)]
    pub fn get<'a>(&'a self, key: &str) -> (r: Option<&'a JsonValue>)
        ensures
            match r {
                Some(x) => spec_get(*self, key@) == Some(*x),
                None => spec_get(*self, key@) is None,
            },
    {
        match self {
            JsonValue::Obj(entries) => {
                let mut i: usize = 0;
                proof {
                    assert(entries@.skip(0) =~= entries@);
                }
                while i < entries.len()
                    invariant
                        0 <= i <= entries@.len(),
                        obj_lookup(entries@, key@) == obj_lookup(
                            entries@.skip(i as int),
                            key@,
                        ),
                    decreases entries@.len() - i,
                {
                    if str_eq(entries[i].0.as_str(), key) {
                        proof {
                            assert(entries@.skip(i as int)[0] == entries@[i as int]);
                            assert(entries@.skip(i as int).len() > 0);
                            assert(obj_lookup(entries@.skip(i as int), key@) == Some(
                                entries@[i as int].1,
                            ));
                        }
                        return Some(&entries[i].1);
                    }
                    proof {
                        assert(entries@.skip(i as int).drop_first() =~= entries@.skip(
                            i as int + 1,
                        ));
                    }
                    i += 1;
                }
                proof {
                    assert(entries@.skip(i as int).len() == 0);
                }
                None
            },
            _ => None,
        }
    }

    /// This value's characters, if it is a string.
    pub fn as_str<'a>(&'a self) -> (r: Option<&'a String>)
        ensures
            r is Some <==> self is Str,
            r matches Some(s) ==> *s == self->Str_0,
    {
        match self {
            JsonValue::Str(s) => Some(s),
            _ => None,
        }
    }

    /// The `u64` this value denotes, if it is a number whose token is plain
    /// decimal digits.
    pub fn as_u64(&self) -> (r: Option<u64>)
        ensures
            r == (match *self {
                JsonValue::Num(tok) => dec_token_value(tok@),
                _ => None::<u64>,
            }),
    {
        match self {
            JsonValue::Num(tok) => parse_dec_u64(tok.as_str()),
            _ => None,
        }
    }

    /// The string member under `key`, if present.
    pub fn get_str<'a>(&'a self, key: &str) -> (r: Option<&'a String>)
        ensures
            r is Some <==> member_string(*self, key@) is Some,
            r matches Some(s) ==> member_string(*self, key@) == Some(*s),
    {
        match self.get(key) {
            Some(v) => v.as_str(),
            None => None,
        }
    }

    /// The `u64` member under `key`, if present and in range.
    pub fn get_u64(&self, key: &str) -> (r: Option<u64>)
        ensures
            r == spec_get_u64(*self, key@),
    {
        match self.get(key) {
            Some(v) => v.as_u64(),
            None => None,
        }
    }
}

fn hex_nibble_char(n: u32) -> (c: char)
    requires
        n < 16,
    ensures
        c == hex_nibble(n as int),
{
    match n {
        0 => '0',
        1 => '1',
        2 => '2',
        3 => '3',
        4 => '4',
        5 => '5',
        6 => '6',
        7 => '7',
        8 => '8',
        9 => '9',
        10 => 'a',
        11 => 'b',
        12 => 'c',
        13 => 'd',
        14 => 'e',
        _ => 'f',
    }
}

proof fn lemma_escape_snoc(p: Seq<char>, c: char)
    ensures
        spec_escape(p.push(c)) == spec_escape(p) + escape_char(c),
    decreases p.len(),
{
    if p.len() == 0 {
        assert(p.push(c).drop_first() =~= Seq::<char>::empty());
        assert(spec_escape(p) + escape_char(c) =~= escape_char(c) + spec_escape(
            p.push(c).drop_first(),
        ));
    } else {
        assert(p.push(c).drop_first() =~= p.drop_first().push(c));
        lemma_escape_snoc(p.drop_first(), c);
        assert(spec_escape(p.push(c)) == escape_char(p[0]) + (spec_escape(p.drop_first())
            + escape_char(c)));
        assert(escape_char(p[0]) + (spec_escape(p.drop_first()) + escape_char(c)) =~= (
        escape_char(p[0]) + spec_escape(p.drop_first())) + escape_char(c));
    }
}

/// Appends one string's characters, escaped for a JSON string literal.
fn push_escaped(out: &mut String, s: &str)
    ensures
        final(out)@ == old(out)@ + spec_escape(s@),
{
    let n = s.unicode_len();
    let mut i: usize = 0;
    proof {
        assert(s@.subrange(0, 0) =~= Seq::<char>::empty());
        assert(out@ =~= out@ + spec_escape(s@.subrange(0, 0)));
    }
    while i < n
        invariant
            0 <= i <= n,
            n == s@.len(),
            out@ == old(out)@ + spec_escape(s@.subrange(0, i as int)),
        decreases n - i,
    {
        let c = s.get_char(i);
        let ghost pre = out@;
        if c == '"' {
            out.append("\\\"");
        } else if c == '\\' {
            out.append("\\\\");
        } else if c == '\u{08}' {
            out.append("\\b");
        } else if c == '\u{0c}' {
            out.append("\\f");
        } else if c == '\n' {
            out.append("\\n");
        } else if c == '\r' {
            out.append("\\r");
        } else if c == '\t' {
            out.append("\\t");
        } else if (c as u32) < 32 {
            out.append("\\u00");
            let code = c as u32;
            crate::text::push_char(out, hex_nibble_char(code / 16));
            crate::text::push_char(out, hex_nibble_char(code % 16));
        } else {
            crate::text::push_char(out, c);
        }
        proof {
            reveal_strlit("\\\"");
            reveal_strlit("\\\\");
            reveal_strlit("\\b");
            reveal_strlit("\\f");
            reveal_strlit("\\n");
            reveal_strlit("\\r");
            reveal_strlit("\\t");
            reveal_strlit("\\u00");
            assert(out@ =~= pre + escape_char(s@[i as int]));
            lemma_escape_snoc(s@.subrange(0, i as int), s@[i as int]);
            assert(s@.subrange(0, i as int).push(s@[i as int]) =~= s@.subrange(0, i as int + 1));
            assert(out@ =~= old(out)@ + spec_escape(s@.subrange(0, i as int + 1)));
        }
        i += 1;
    }
    proof {
        assert(s@.subrange(0, n as int) =~= s@);
    }
}

/// Renders a value as canonical compact JSON text — no whitespace, entries
/// in stored order — or nothing when it nests deeper than `fuel` levels.
pub fn emit_json(v: &JsonValue, fuel: u32) -> (r: Option<String>)
    ensures
        r is Some <==> spec_emit(*v, fuel as nat) is Some,
        r matches Some(s) ==> spec_emit(*v, fuel as nat) == Some(s@),
    decreases fuel, 0int,
{
    if fuel == 0 {
        return None;
    }
    match v {
        JsonValue::Null => Some("null".to_owned()),
        JsonValue::Bool(b) => if *b {
            Some("true".to_owned())
        } else {
            Some("false".to_owned())
        },
        JsonValue::Num(tok) => Some(tok.clone()),
        JsonValue::Str(s) => {
            let mut out = "\"".to_owned();
            push_escaped(&mut out, s.as_str());
            out.append("\"");
            Some(out)
        },
        JsonValue::Arr(items) => {
            proof {
                assert(items@.skip(0) =~= items@);
            }
            match emit_items(items, 0, fuel - 1) {
                Some(c) => {
                    let mut out = "[".to_owned();
                    out.append(c.as_str());
                    out.append("]");
                    Some(out)
                },
                None => None,
            }
        },
        JsonValue::Obj(entries) => {
            proof {
                assert(entries@.skip(0) =~= entries@);
            }
            match emit_entries(entries, 0, fuel - 1) {
                Some(c) => {
                    let mut out = "{".to_owned();
                    out.append(c.as_str());
                    out.append("}");
                    Some(out)
                },
                None => None,
            }
        },
    }
}

fn emit_items(items: &Vec<JsonValue>, from: usize, fuel: u32) -> (r: Option<String>)
    requires
        from <= items@.len(),
    ensures
        r is Some <==> spec_emit_items(items@.skip(from as int), fuel as nat) is Some,
        r matches Some(s) ==> spec_emit_items(items@.skip(from as int), fuel as nat) == Some(s@),
    decreases fuel, items@.len() - from + 1,
{
    let n = items.len();
    if from == n {
        proof {
            assert(items@.skip(from as int).len() == 0);
        }
        Some(String::new())
    } else if from + 1 == n {
        proof {
            assert(items@.skip(from as int)[0] == items@[from as int]);
        }
        emit_json(&items[from], fuel)
    } else {
        proof {
            assert(items@.skip(from as int)[0] == items@[from as int]);
            assert(items@.skip(from as int).drop_first() =~= items@.skip(from as int + 1));
        }
        let h = emit_json(&items[from], fuel);
        let t = emit_items(items, from + 1, fuel);
        match (h, t) {
            (Some(hs), Some(ts)) => {
                let mut out = hs;
                out.append(",");
                out.append(ts.as_str());
                Some(out)
            },
            _ => None,
        }
    }
}

fn emit_entries(entries: &Vec<(String, JsonValue)>, from: usize, fuel: u32) -> (r: Option<String>)
    requires
        from <= entries@.len(),
    ensures
        r is Some <==> spec_emit_entries(entries@.skip(from as int), fuel as nat) is Some,
        r matches Some(s) ==> spec_emit_entries(entries@.skip(from as int), fuel as nat) == Some(
            s@,
        ),
    decreases fuel, entries@.len() - from + 1,
{
    let n = entries.len();
    if from == n {
        proof {
            assert(entries@.skip(from as int).len() == 0);
        }
        return Some(String::new());
    }
    proof {
        assert(entries@.skip(from as int)[0] == entries@[from as int]);
    }
    let head = match emit_json(&entries[from].1, fuel) {
        Some(ev) => {
            let mut out = "\"".to_owned();
            push_escaped(&mut out, entries[from].0.as_str());
            out.append("\":");
            out.append(ev.as_str());
            Some(out)
        },
        None => None,
    };
    if from + 1 == n {
        head
    } else {
        proof {
            assert(entries@.skip(from as int).drop_first() =~= entries@.skip(from as int + 1));
        }
        let t = emit_entries(entries, from + 1, fuel);
        match (head, t) {
            (Some(hs), Some(ts)) => {
                let mut out = hs;
                out.append(",");
                out.append(ts.as_str());
                Some(out)
            },
            _ => None,
        }
    }
}

} // verus!
