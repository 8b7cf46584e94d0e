//! JSON text helpers backed by serde_json, and decimal formatting.
use vstd::prelude::*;

verus! {

/// The JSON string literal that serde_json writes for `s` (quotes and escapes).
pub uninterp spec fn json_quoted(s: Seq<char>) -> Seq<char>;

/// The string held by member `key` of the JSON object written in `text`, when
/// `text` is a JSON object and that member is a string.
pub uninterp spec fn json_str_member(text: Seq<char>, key: Seq<char>) -> Option<Seq<char>>;

/// The unsigned integer held by member `key` of the JSON object written in
/// `text`, when `text` is a JSON object and that member is such a number.
pub uninterp spec fn json_u64_member(text: Seq<char>, key: Seq<char>) -> Option<u64>;

/// The compact JSON text of member `key` of the JSON object written in `text`.
pub uninterp spec fn json_member_text(text: Seq<char>, key: Seq<char>) -> Option<Seq<char>>;

/// The decimal digits of `n`, most significant first, without leading zeros.
pub open spec fn decimal_of(n: nat) -> Seq<char>
    decreases n,
{
    if n < 10 {
        seq![digit_char(n)]
    } else {
        decimal_of(n / 10).push(digit_char(n % 10))
    }
}

pub open spec fn digit_char(d: nat) -> char {
    if d == 0 { '0' }
    else if d == 1 { '1' }
    else if d == 2 { '2' }
    else if d == 3 { '3' }
    else if d == 4 { '4' }
    else if d == 5 { '5' }
    else if d == 6 { '6' }
    else if d == 7 { '7' }
    else if d == 8 { '8' }
    else { '9' }
}

/// Relies on serde_json::to_string on a `str`: it writes the string as a JSON
/// string literal; serialising a `str` into memory cannot fail.
#[verifier::external_body]
pub(crate) fn quote(s: &str) -> (r: String)
    ensures
        r@ == json_quoted(s@),
{
    match serde_json::to_string(s) {
        Ok(t) => t,
        Err(_) => String::new(),
    }
}

/// Relies on serde_json::from_str into a `serde_json::Value`, then `Value::get`
/// with a string key and `Value::as_str`.
#[verifier::external_body]
pub(crate) fn str_member(text: &str, key: &str) -> (r: Option<String>)
    ensures
        r matches Some(s) ==> json_str_member(text@, key@) == Some(s@),
        r is None ==> json_str_member(text@, key@) is None,
{
    match serde_json::from_str::<serde_json::Value>(text) {
        Ok(v) => match v.get(key) {
            Some(m) => m.as_str().map(str::to_owned),
            None => None,
        },
        Err(_) => None,
    }
}

/// Relies on serde_json::from_str into a `serde_json::Value`, then `Value::get`
/// with a string key and `Value::as_u64`.
#[verifier::external_body]
pub(crate) fn u64_member(text: &str, key: &str) -> (r: Option<u64>)
    ensures
        r == json_u64_member(text@, key@),
{
    match serde_json::from_str::<serde_json::Value>(text) {
        Ok(v) => match v.get(key) {
            Some(m) => m.as_u64(),
            None => None,
        },
        Err(_) => None,
    }
}

/// Relies on serde_json::from_str into a `serde_json::Value`, then `Value::get`
/// with a string key, and the `Display` of `Value`, which writes compact JSON.
#[verifier::external_body]
pub(crate) fn member_text(text: &str, key: &str) -> (r: Option<String>)
    ensures
        r matches Some(s) ==> json_member_text(text@, key@) == Some(s@),
        r is None ==> json_member_text(text@, key@) is None,
{
    match serde_json::from_str::<serde_json::Value>(text) {
        Ok(v) => match v.get(key) {
            Some(m) => Some(m.to_string()),
            None => None,
        },
        Err(_) => None,
    }
}

/// Relies on `ToString` for `u64` from std: its `Display` writes the number in
/// decimal.
#[verifier::external_body]
pub(crate) fn decimal(n: u64) -> (r: String)
    ensures
        r@ == decimal_of(n as nat),
{
    n.to_string()
}

/// The member `"key":"value"` of a JSON object whose values are strings.
pub open spec fn member_text_of(key: Seq<char>, value: Seq<char>) -> Seq<char> {
    json_quoted(key) + ":"@ + json_quoted(value)
}

/// The members of a JSON object whose values are strings, comma-separated.
pub open spec fn members_text(pairs: Seq<(Seq<char>, Seq<char>)>) -> Seq<char>
    decreases pairs.len(),
{
    if pairs.len() == 0 {
        Seq::empty()
    } else if pairs.len() == 1 {
        member_text_of(pairs[0].0, pairs[0].1)
    } else {
        members_text(pairs.drop_last()) + ","@ + member_text_of(pairs.last().0, pairs.last().1)
    }
}

/// A JSON object with these string members, in this order.
pub open spec fn object_text(pairs: Seq<(Seq<char>, Seq<char>)>) -> Seq<char> {
    "{"@ + members_text(pairs) + "}"@
}

pub open spec fn pairs_view(pairs: Seq<(&'static str, String)>) -> Seq<(Seq<char>, Seq<char>)> {
    pairs.map_values(|p: (&'static str, String)| (p.0@, p.1@))
}

/// The JSON object with these string members, in this order.
pub fn object_json(pairs: &Vec<(&'static str, String)>) -> (r: String)
    ensures
        r@ == object_text(pairs_view(pairs@)),
{
    let ghost pv = pairs_view(pairs@);
    let mut items = String::new();
    let n = pairs.len();
    let mut i: usize = 0;
    while i < n
        invariant
            n == pairs@.len(),
            pv == pairs_view(pairs@),
            i <= n,
            items@ == members_text(pv.subrange(0, i as int)),
        decreases n - i,
    {
        let k = quote(pairs[i].0);
        let v = quote(pairs[i].1.as_str());
        if i > 0 {
            items.append(",");
        }
        items.append(k.as_str());
        items.append(":");
        items.append(v.as_str());
        proof {
            let next = pv.subrange(0, i + 1);
            assert(next.drop_last() =~= pv.subrange(0, i as int));
            assert(next.last() == pv[i as int]);
            assert(pv[i as int] == (pairs@[i as int].0@, pairs@[i as int].1@));
            if i == 0 {
                assert(next.len() == 1);
                assert(next[0] == pv[0]);
                assert(items@ =~= members_text(next));
            } else {
                assert(items@ =~= members_text(next));
            }
        }
        i = i + 1;
    }
    assert(pv.subrange(0, n as int) =~= pv);
    let mut s = String::from_str("{");
    s.append(items.as_str());
    s.append("}");
    s
}

} // verus!
