//! A JSON document as the library reads it, and turning bytes into one:
//! serde_json parses, and the library reads the value it gives back.

use vstd::prelude::*;

use serde_json::Value;

use crate::text::{
    all_digits, chars_eq, chars_of, digit_value, digits_value, is_digit, split_char, split_on,
    views, lemma_split_on_nonempty,
};
use crate::ytdlp::{all_digits_exec, digits_saturating, min_u64};

verus! {

/// A JSON number, in the two forms the logic reads: exactly, when it is a
/// non-negative integer that fits `u64` (`serde_json::Number::as_u64`), and
/// as serde_json writes it (`Display`): an optional `-`, digits, an optional
/// fraction and an optional exponent.
#[derive(Debug)]
pub struct JsonNumber {
    pub as_u64: Option<u64>,
    pub text: String,
}

/// A JSON value. Object entries keep the order the parser gave them, keys
/// distinct.
#[derive(Debug)]
pub enum JsonValue {
    Null,
    Bool(bool),
    Number(JsonNumber),
    Str(String),
    Array(Vec<JsonValue>),
    Object(Vec<(String, JsonValue)>),
}

/// The value of the first entry named `key`.
pub open spec fn find_entry(entries: Seq<(String, JsonValue)>, key: Seq<char>) -> Option<JsonValue>
    decreases entries.len(),
{
    if entries.len() == 0 {
        None
    } else if entries[0].0@ == key {
        Some(entries[0].1)
    } else {
        find_entry(entries.drop_first(), key)
    }
}

/// `value.get(key)`: the member named `key` of an object, `None` for a
/// missing key or a value that is not an object.
pub open spec fn json_get(v: JsonValue, key: Seq<char>) -> Option<JsonValue> {
    match v {
        JsonValue::Object(entries) => find_entry(entries@, key),
        _ => None,
    }
}

/// `Value::as_str`.
pub open spec fn json_as_str(v: JsonValue) -> Option<Seq<char>> {
    match v {
        JsonValue::Str(s) => Some(s@),
        _ => None,
    }
}

/// `Value::as_u64`.
pub open spec fn json_as_u64(v: JsonValue) -> Option<u64> {
    match v {
        JsonValue::Number(n) => n.as_u64,
        _ => None,
    }
}

/// `Value::as_f64` rounded to a whole number and cast to `u64`: see
/// `spec_round_number`.
pub open spec fn json_as_rounded(v: JsonValue) -> Option<u64> {
    match v {
        JsonValue::Number(n) => spec_round_number(n.text@),
        _ => None,
    }
}

/// `Value::as_array`.
pub open spec fn json_as_array(v: JsonValue) -> Option<Seq<JsonValue>> {
    match v {
        JsonValue::Array(items) => Some(items@),
        _ => None,
    }
}

/// `Option<&Value>` chained through `and_then(as_str)`.
pub open spec fn opt_str(v: Option<JsonValue>) -> Option<Seq<char>> {
    match v {
        Some(x) => json_as_str(x),
        None => None,
    }
}

/// `Option<&Value>` chained through `and_then(as_u64)`.
pub open spec fn opt_u64(v: Option<JsonValue>) -> Option<u64> {
    match v {
        Some(x) => json_as_u64(x),
        None => None,
    }
}

/// `Option<&Value>` chained through `and_then(as_f64)` and rounding.
pub open spec fn opt_rounded(v: Option<JsonValue>) -> Option<u64> {
    match v {
        Some(x) => json_as_rounded(x),
        None => None,
    }
}

impl JsonValue {
    /// `value.get(key)`.
    pub fn get(&self, key: &str) -> (r: Option<&JsonValue>)
        ensures
            match r {
                Some(x) => json_get(*self, key@) == Some(*x),
                None => json_get(*self, key@) is None,
            },
    {
        match self {
            JsonValue::Object(entries) => {
                let k = chars_of(key);
                let mut i: usize = 0;
                assert(entries@.skip(0) =~= entries@);
                assert(json_get(*self, key@) == find_entry(entries@, key@));
                while i < entries.len()
                    invariant
                        i <= entries@.len(),
                        k@ == key@,
                        json_get(*self, key@) == find_entry(entries@, key@),
                        find_entry(entries@, key@) == find_entry(entries@.skip(i as int), key@),
                    decreases entries@.len() - i,
                {
                    let ghost rest = entries@.skip(i as int);
                    assert(rest.len() > 0);
                    assert(rest[0] == entries@[i as int]);
                    assert(rest.drop_first() =~= entries@.skip(i + 1));
                    let name = chars_of(entries[i].0.as_str());
                    if chars_eq(name.as_slice(), k.as_slice()) {
                        assert(find_entry(rest, key@) == Some(rest[0].1));
                        return Some(&entries[i].1);
                    }
                    i = i + 1;
                }
                assert(entries@.skip(i as int) =~= Seq::<(String, JsonValue)>::empty());
                None
            },
            _ => None,
        }
    }

    /// `Value::as_str`.
    pub fn as_str(&self) -> (r: Option<&String>)
        ensures
            match r {
                Some(s) => json_as_str(*self) == Some(s@),
                None => json_as_str(*self) is None,
            },
    {
        match self {
            JsonValue::Str(s) => Some(s),
            _ => None,
        }
    }

    /// `Value::as_u64`.
    pub fn as_u64(&self) -> (r: Option<u64>)
        ensures
            r == json_as_u64(*self),
    {
        match self {
            JsonValue::Number(n) => n.as_u64,
            _ => None,
        }
    }

    /// `Value::as_f64`, rounded to a whole `u64`.
    pub fn as_rounded(&self) -> (r: Option<u64>)
        ensures
            r == json_as_rounded(*self),
    {
        match self {
            JsonValue::Number(n) => {
                let t = chars_of(n.text.as_str());
                round_number(t.as_slice())
            },
            _ => None,
        }
    }

    /// `Value::as_array`.
    pub fn as_array(&self) -> (r: Option<&Vec<JsonValue>>)
        ensures
            match r {
                Some(a) => json_as_array(*self) == Some(a@),
                None => json_as_array(*self) is None,
            },
    {
        match self {
            JsonValue::Array(items) => Some(items),
            _ => None,
        }
    }

    /// `Value::is_null`.
    pub fn is_null(&self) -> (b: bool)
        ensures
            b == (*self is Null),
    {
        match self {
            JsonValue::Null => true,
            _ => false,
        }
    }
}

/// The string member `key`, if present and a string.
pub fn get_str<'a>(v: &'a JsonValue, key: &str) -> (r: Option<&'a String>)
    ensures
        match r {
            Some(s) => opt_str(json_get(*v, key@)) == Some(s@),
            None => opt_str(json_get(*v, key@)) is None,
        },
{
    match v.get(key) {
        Some(x) => x.as_str(),
        None => None,
    }
}

// ---------------------------------------------------------------------------
// Rounding a number's text
// ---------------------------------------------------------------------------

/// Ten to the power `k`.
pub open spec fn pow10(k: nat) -> nat
    decreases k,
{
    if k == 0 {
        1
    } else {
        10 * pow10((k - 1) as nat)
    }
}

/// The text after a leading `+` or `-`.
pub open spec fn unsigned_part(s: Seq<char>) -> Seq<char> {
    if s.len() > 0 && (s[0] == '+' || s[0] == '-') {
        s.drop_first()
    } else {
        s
    }
}

/// An exponent: an optional sign, then at least one digit.
pub open spec fn spec_exponent(e: Seq<char>) -> Option<int> {
    let body = unsigned_part(e);
    if body.len() >= 1 && all_digits(body) {
        Some(if e[0] == '-' { -(digits_value(body) as int) } else { digits_value(body) as int })
    } else {
        None
    }
}

/// The whole part of the number written by the digits `d` with the decimal
/// point placed after the first `p` of them (before the start when `p` is
/// not positive, zeros appended when it is past the end).
pub open spec fn shifted_value(d: Seq<char>, p: int) -> nat {
    if p <= 0 {
        0
    } else if p >= d.len() {
        digits_value(d) * pow10((p - d.len()) as nat)
    } else {
        digits_value(d.take(p))
    }
}

/// 1 when the first digit after that decimal point is 5 or more, so that
/// the fraction is at least a half.
pub open spec fn round_up(d: Seq<char>, p: int) -> nat {
    if 0 <= p < d.len() && d[p] >= '5' {
        1
    } else {
        0
    }
}

/// The text of a JSON number -- an optional sign, digits with at most one
/// `.` (digits on at least one side), then optionally `e` and an exponent --
/// rounded to the nearest whole number with halves away from zero, then
/// cast to `u64`: negatives become 0 and anything beyond `u64::MAX` becomes
/// `u64::MAX` (`f64::round` and `as u64`). `None` for any other text.
pub open spec fn spec_round_number(s: Seq<char>) -> Option<u64> {
    let parts = split_on(s, 'e');
    let m = parts[0];
    let exp = if parts.len() == 2 { spec_exponent(parts[1]) } else { Some(0int) };
    let mp = split_on(unsigned_part(m), '.');
    let int_part = mp[0];
    let frac = if mp.len() == 2 { mp[1] } else { Seq::<char>::empty() };
    if parts.len() <= 2 && exp is Some && mp.len() <= 2 && all_digits(int_part) && all_digits(frac)
        && int_part.len() + frac.len() >= 1 {
        if m.len() > 0 && m[0] == '-' {
            Some(0)
        } else {
            let d = int_part + frac;
            let p = int_part.len() + exp->0;
            Some(min_u64(shifted_value(d, p) + round_up(d, p)) as u64)
        }
    } else {
        None
    }
}

/// Past the cap on exponents that `digits_capped` reads exactly.
pub open spec fn exponent_cap() -> nat {
    0x1_0000_0000_0000_0000_0000_0000
}

proof fn lemma_pow10_grows(i: nat, k: nat)
    requires
        i <= k,
    ensures
        1 <= pow10(i) <= pow10(k),
    decreases k,
{
    if i < k {
        lemma_pow10_grows(i, (k - 1) as nat);
    } else if k > 0 {
        lemma_pow10_grows(0, (k - 1) as nat);
    }
}

proof fn lemma_scaled_grows(v: nat, i: nat, k: nat)
    requires
        i <= k,
    ensures
        v <= v * pow10(i) <= v * pow10(k),
{
    lemma_pow10_grows(i, k);
    lemma_pow10_grows(0, i);
    let a = pow10(i);
    let b = pow10(k);
    assert(v <= v * a <= v * b) by (nonlinear_arith)
        requires
            1 <= a <= b,
    ;
}

/// Twenty or more places to the left of a nonzero digit already exceed
/// `u64::MAX`.
proof fn lemma_far_shift(v: nat, k: nat)
    requires
        v >= 1,
        k >= 20,
    ensures
        v * pow10(k) > u64::MAX,
{
    reveal_with_fuel(pow10, 21);
    assert(pow10(20) == 100000000000000000000nat);
    lemma_scaled_grows(v, 20, k);
    let a = pow10(20);
    assert(v * a >= a) by (nonlinear_arith)
        requires
            v >= 1,
            a >= 0,
    ;
}

/// The value of the digits `s`, or `exponent_cap()` if it is larger.
fn digits_capped(s: &[char]) -> (r: u128)
    requires
        all_digits(s@),
    ensures
        r as nat == (if digits_value(s@) >= exponent_cap() { exponent_cap() } else { digits_value(
            s@,
        ) }),
{
    let cap: u128 = 0x1_0000_0000_0000_0000_0000_0000;
    let mut acc: u128 = 0;
    let mut i: usize = 0;
    assert(s@.take(0) =~= Seq::<char>::empty());
    while i < s.len()
        invariant
            i <= s@.len(),
            all_digits(s@),
            cap == exponent_cap(),
            acc == (if digits_value(s@.take(i as int)) >= cap { cap as nat } else { digits_value(
                s@.take(i as int),
            ) }),
        decreases s@.len() - i,
    {
        let c = s[i];
        assert(is_digit(s@[i as int]));
        let d = (c as u32 - '0' as u32) as u128;
        assert(s@.take(i + 1).drop_last() =~= s@.take(i as int));
        assert(digits_value(s@.take(i + 1)) == digits_value(s@.take(i as int)) * 10 + digit_value(c));
        if acc < cap {
            let next = acc * 10 + d;
            acc = if next >= cap { cap } else { next };
        }
        i = i + 1;
    }
    assert(s@.take(s@.len() as int) =~= s@);
    acc
}

/// `s` without a leading `+` or `-`.
fn unsigned_chars(s: &[char]) -> (r: Vec<char>)
    ensures
        r@ == unsigned_part(s@),
{
    let start: usize = if s.len() > 0 && (s[0] == '+' || s[0] == '-') { 1 } else { 0 };
    let mut r: Vec<char> = Vec::new();
    let mut i: usize = start;
    while i < s.len()
        invariant
            start <= i <= s@.len(),
            r@ == s@.subrange(start as int, i as int),
        decreases s@.len() - i,
    {
        r.push(s[i]);
        i = i + 1;
        assert(r@ =~= s@.subrange(start as int, i as int));
    }
    assert(r@ =~= unsigned_part(s@));
    r
}

/// The first `n` characters of `s`.
fn first_chars(s: &[char], n: usize) -> (r: Vec<char>)
    requires
        n <= s@.len(),
    ensures
        r@ == s@.take(n as int),
{
    let mut r: Vec<char> = Vec::new();
    let mut i: usize = 0;
    while i < n
        invariant
            i <= n <= s@.len(),
            r@ == s@.take(i as int),
        decreases n - i,
    {
        r.push(s[i]);
        i = i + 1;
        assert(r@ =~= s@.take(i as int));
    }
    r
}

/// `shifted_value` plus `round_up`, capped at `u64::MAX`.
fn shift_round(d: &[char], p: i128) -> (r: u64)
    requires
        all_digits(d@),
    ensures
        r as nat == min_u64(shifted_value(d@, p as int) + round_up(d@, p as int)),
{
    let dlen = d.len() as i128;
    if p <= 0 {
        if p == 0 && d.len() > 0 && d[0] >= '5' {
            1
        } else {
            0
        }
    } else if p < dlen {
        let pu = p as usize;
        let head = first_chars(d, pu);
        assert(all_digits(head@)) by {
            assert forall|j: int| 0 <= j < head@.len() implies #[trigger] is_digit(head@[j]) by {
                assert(head@[j] == d@[j]);
            }
        }
        let v = digits_saturating(head.as_slice());
        let up: u64 = if d[pu] >= '5' { 1 } else { 0 };
        if v == u64::MAX {
            u64::MAX
        } else {
            v + up
        }
    } else {
        let ghost dv = digits_value(d@);
        let ghost k = (p - dlen) as nat;
        let v = digits_saturating(d);
        if v == 0 {
            assert(dv * pow10(k) == 0) by (nonlinear_arith)
                requires
                    dv == 0,
            ;
            return 0;
        }
        if v == u64::MAX {
            proof {
                lemma_scaled_grows(dv, 0, k);
            }
            return u64::MAX;
        }
        let cap: u128 = 0x1_0000_0000_0000_0000;
        let kk: u128 = (p - dlen) as u128;
        let mut acc: u128 = v as u128;
        let mut i: u128 = 0;
        assert(pow10(0) == 1);
        while i < kk && acc < cap
            invariant
                i <= kk,
                kk == k,
                cap == 0x1_0000_0000_0000_0000u128,
                dv == digits_value(d@),
                acc == (if dv * pow10(i as nat) >= cap { cap as nat } else { dv * pow10(i as nat) }),
            decreases kk - i,
        {
            let ghost a = dv * pow10(i as nat);
            assert(pow10((i + 1) as nat) == 10 * pow10(i as nat));
            assert(dv * pow10((i + 1) as nat) == 10 * a) by (nonlinear_arith)
                requires
                    pow10((i + 1) as nat) == 10 * pow10(i as nat),
                    a == dv * pow10(i as nat),
            ;
            let next = acc * 10;
            acc = if next >= cap { cap } else { next };
            i = i + 1;
        }
        if acc >= cap {
            proof {
                lemma_scaled_grows(dv, i as nat, k);
            }
            u64::MAX
        } else {
            acc as u64
        }
    }
}

/// Rounds the text of a JSON number: see `spec_round_number`.
pub fn round_number(s: &[char]) -> (r: Option<u64>)
    ensures
        r == spec_round_number(s@),
{
    let parts = split_char(s, 'e');
    proof {
        lemma_split_on_nonempty(s@, 'e');
    }
    if parts.len() > 2 {
        return None;
    }
    let m = chars_of(parts[0].as_str());
    assert(views(parts@)[0] == parts@[0]@);
    let mut exp_neg = false;
    let mut exp_mag: u128 = 0;
    let ghost exact: nat = 0;
    if parts.len() == 2 {
        assert(views(parts@)[1] == parts@[1]@);
        let e = chars_of(parts[1].as_str());
        let eb = unsigned_chars(e.as_slice());
        if eb.len() == 0 || !all_digits_exec(eb.as_slice()) {
            return None;
        }
        exp_neg = e[0] == '-';
        exp_mag = digits_capped(eb.as_slice());
        proof {
            exact = digits_value(eb@);
        }
    }
    let mb = unsigned_chars(m.as_slice());
    let mp = split_char(mb.as_slice(), '.');
    proof {
        lemma_split_on_nonempty(mb@, '.');
    }
    if mp.len() > 2 {
        return None;
    }
    let int_part = chars_of(mp[0].as_str());
    let frac = if mp.len() == 2 { chars_of(mp[1].as_str()) } else { Vec::new() };
    assert(views(mp@)[0] == mp@[0]@);
    assert(mp@.len() == 2 ==> views(mp@)[1] == mp@[1]@);
    if !all_digits_exec(int_part.as_slice()) || !all_digits_exec(frac.as_slice()) || (
    int_part.len() == 0 && frac.len() == 0) {
        return None;
    }
    if m.len() > 0 && m[0] == '-' {
        return Some(0);
    }
    let mut d = int_part.clone();
    let mut j: usize = 0;
    while j < frac.len()
        invariant
            j <= frac@.len(),
            d@ == int_part@ + frac@.take(j as int),
        decreases frac@.len() - j,
    {
        d.push(frac[j]);
        j = j + 1;
        assert(d@ =~= int_part@ + frac@.take(j as int));
    }
    assert(frac@.take(frac@.len() as int) =~= frac@);
    let ghost dd = int_part@ + frac@;
    assert(all_digits(dd)) by {
        assert forall|i: int| 0 <= i < dd.len() implies #[trigger] is_digit(dd[i]) by {
            if i < int_part@.len() {
                assert(dd[i] == int_part@[i]);
            } else {
                assert(dd[i] == frac@[i - int_part@.len()]);
            }
        }
    }
    let ilen = int_part.len() as i128;
    let p: i128 = if exp_neg { ilen - exp_mag as i128 } else { ilen + exp_mag as i128 };
    let r = shift_round(d.as_slice(), p);
    proof {
        let e_exact: int = if exp_neg { -(exact as int) } else { exact as int };
        let ps = int_part@.len() + e_exact;
        assert(d@ == dd);
        if exact < exponent_cap() {
            assert(exp_mag == exact);
            assert(p == ps);
        } else if exp_neg {
            assert(ps < 0 && p < 0);
            assert(shifted_value(dd, ps) == 0 && round_up(dd, ps) == 0);
            assert(shifted_value(dd, p as int) == 0 && round_up(dd, p as int) == 0);
        } else {
            assert(exp_mag == exponent_cap());
            assert(ps >= dd.len() + 20 && p >= dd.len() + 20);
            assert(round_up(dd, ps) == 0 && round_up(dd, p as int) == 0);
            if digits_value(dd) >= 1 {
                lemma_far_shift(digits_value(dd), (ps - dd.len()) as nat);
                lemma_far_shift(digits_value(dd), (p - dd.len()) as nat);
            } else {
                let a = pow10((ps - dd.len()) as nat);
                let b = pow10((p - dd.len()) as nat);
                assert(digits_value(dd) * a == 0 && digits_value(dd) * b == 0) by (nonlinear_arith)
                    requires
                        digits_value(dd) == 0,
                ;
            }
        }
        assert(min_u64(shifted_value(dd, ps) + round_up(dd, ps)) == min_u64(
            shifted_value(dd, p as int) + round_up(dd, p as int),
        ));
    }
    Some(r)
}

// ---------------------------------------------------------------------------
// Parsing
// ---------------------------------------------------------------------------

/// What serde_json makes of `bytes`: the document it parses, or the text of
/// its error.
pub uninterp spec fn json_of(bytes: Seq<u8>) -> Result<JsonValue, Seq<char>>;

/// A `serde_json::Value`, carried through `json_from_serde`.
#[verifier::external_type_specification]
#[verifier::external_body]
pub struct ExJsonDocument(serde_json::Value);

/// Copies a `serde_json::Value` into a `JsonValue`, one node for one node:
/// numbers keep `Number::as_u64` and their `Display` text, objects their
/// entries in serde_json's order.
#[verifier::external_body]
fn json_from_serde(v: &Value) -> JsonValue {
    match v {
        Value::Null => JsonValue::Null,
        Value::Bool(b) => JsonValue::Bool(*b),
        Value::Number(n) => JsonValue::Number(JsonNumber { as_u64: n.as_u64(), text: n.to_string() }),
        Value::String(t) => JsonValue::Str(t.clone()),
        Value::Array(a) => JsonValue::Array(a.iter().map(json_from_serde).collect()),
        Value::Object(o) => JsonValue::Object(o.iter().map(|(k, x)| (k.clone(), json_from_serde(x))).collect()),
    }
}

/// `serde_json::from_slice::<Value>(bytes)`, the value copied into a
/// `JsonValue` and the error turned into its text. The contract only names
/// the result (`json_of`): JSON's grammar and serde_json's error texts are
/// not stated.
#[verifier::external_body]
pub fn parse_json(bytes: &[u8]) -> (r: Result<JsonValue, String>)
    ensures
        match r {
            Ok(v) => json_of(bytes@) == Ok::<JsonValue, Seq<char>>(v),
            Err(e) => json_of(bytes@) == Err::<JsonValue, Seq<char>>(e@),
        },
{
    match serde_json::from_slice::<Value>(bytes) {
        Ok(v) => Ok(json_from_serde(&v)),
        Err(e) => Err(e.to_string()),
    }
}

} // verus!
