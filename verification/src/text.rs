//! The wire text of JSON trees. `text_of` is the canonical serialization;
//! `json_of_text` is the language the parser accepts (canonical text plus
//! whitespace between tokens and the usual character escapes). The central
//! theorem, `lemma_text_round_trip`, shows that parsing the canonical text of
//! any well-formed tree gives that tree back.
use crate::json::JsonV;
use crate::numbers::{all_digits, dec_digits, dec_int, digits_val, is_digit};
use vstd::prelude::*;

verus! {

// ---------------------------------------------------------------------------
// Serialization
// ---------------------------------------------------------------------------
/// The characters a string character contributes: quote and backslash are
/// escaped, everything else stands for itself.
pub open spec fn esc_char(c: char) -> Seq<char> {
    if c == '"' {
        seq!['\\', '"']
    } else if c == '\\' {
        seq!['\\', '\\']
    } else {
        seq![c]
    }
}

/// The escaped body of a string token.
pub open spec fn esc_str(s: Seq<char>) -> Seq<char>
    decreases s.len(),
{
    if s.len() == 0 {
        Seq::empty()
    } else {
        esc_char(s[0]) + esc_str(s.drop_first())
    }
}

/// The canonical text of a tree: no whitespace, members in order, all fields
/// present.
pub open spec fn text_of(v: JsonV) -> Seq<char>
    decreases v, 1int,
{
    match v {
        JsonV::Null => seq!['n', 'u', 'l', 'l'],
        JsonV::Bool(b) => if b {
            seq!['t', 'r', 'u', 'e']
        } else {
            seq!['f', 'a', 'l', 's', 'e']
        },
        JsonV::Int(n) => dec_int(n),
        JsonV::Str(s) => seq!['"'] + esc_str(s) + seq!['"'],
        JsonV::Arr(items) => seq!['['] + elems_text(items) + seq![']'],
        JsonV::Obj(fields) => seq!['{'] + members_text(fields) + seq!['}'],
    }
}

/// The comma-separated texts of array elements.
pub open spec fn elems_text(items: Seq<JsonV>) -> Seq<char>
    decreases items, 0int,
{
    if items.len() == 0 {
        Seq::empty()
    } else if items.len() == 1 {
        text_of(items[0])
    } else {
        text_of(items[0]) + seq![','] + elems_text(items.drop_first())
    }
}

/// The comma-separated texts of object members.
pub open spec fn members_text(fields: Seq<(Seq<char>, JsonV)>) -> Seq<char>
    decreases fields, 0int,
{
    if fields.len() == 0 {
        Seq::empty()
    } else {
        let head = seq!['"'] + esc_str(fields[0].0) + seq!['"', ':'] + text_of(fields[0].1);
        if fields.len() == 1 {
            head
        } else {
            head + seq![','] + members_text(fields.drop_first())
        }
    }
}

// ---------------------------------------------------------------------------
// Parsing
// ---------------------------------------------------------------------------
/// JSON inter-token whitespace.
pub open spec fn is_ws(c: char) -> bool {
    c == ' ' || c == '\t' || c == '\n' || c == '\r'
}

/// `s` without its leading whitespace.
pub open spec fn skip_ws(s: Seq<char>) -> Seq<char>
    decreases s.len(),
{
    if s.len() > 0 && is_ws(s[0]) {
        skip_ws(s.drop_first())
    } else {
        s
    }
}

/// The character an escape letter denotes, if it is a legal escape.
pub open spec fn unescape(c: char) -> Option<char> {
    if c == '"' {
        Some('"')
    } else if c == '\\' {
        Some('\\')
    } else if c == '/' {
        Some('/')
    } else if c == 'n' {
        Some('\n')
    } else if c == 't' {
        Some('\t')
    } else if c == 'r' {
        Some('\r')
    } else if c == 'b' {
        Some('\u{0008}')
    } else if c == 'f' {
        Some('\u{000C}')
    } else {
        None
    }
}

/// Parses a string body after the opening quote: the decoded characters and
/// the remainder after the closing quote.
pub open spec fn p_string_body(s: Seq<char>) -> Option<(Seq<char>, Seq<char>)>
    decreases s.len(),
{
    if s.len() == 0 {
        None
    } else if s[0] == '"' {
        Some((Seq::empty(), s.drop_first()))
    } else if s[0] == '\\' {
        if s.len() >= 2 {
            match unescape(s[1]) {
                Some(c) => match p_string_body(s.skip(2)) {
                    Some((body, rest)) => Some((seq![c] + body, rest)),
                    None => None,
                },
                None => None,
            }
        } else {
            None
        }
    } else {
        match p_string_body(s.drop_first()) {
            Some((body, rest)) => Some((seq![s[0]] + body, rest)),
            None => None,
        }
    }
}

/// The length of the leading run of digits.
pub open spec fn digit_run(s: Seq<char>) -> int
    decreases s.len(),
{
    if s.len() > 0 && is_digit(s[0]) {
        1 + digit_run(s.drop_first())
    } else {
        0
    }
}

/// Parses a number token: an optional minus sign, then a maximal digit run,
/// accepted only when the value fits in an `i64`.
pub open spec fn p_number(s: Seq<char>) -> Option<(JsonV, Seq<char>)> {
    let neg = s.len() > 0 && s[0] == '-';
    let body = if neg {
        s.drop_first()
    } else {
        s
    };
    let k = digit_run(body);
    if k == 0 {
        None
    } else {
        let m = digits_val(body.subrange(0, k));
        let value = if neg {
            -m
        } else {
            m
        };
        if i64::MIN <= value <= i64::MAX {
            Some((JsonV::Int(value), body.skip(k)))
        } else {
            None
        }
    }
}

/// Parses one value; the input must not start with whitespace. The guards
/// comparing lengths only serve termination checking: parsing always
/// consumes at least one character, so they never fail on reachable inputs.
pub open spec fn p_value(s: Seq<char>) -> Option<(JsonV, Seq<char>)>
    decreases s.len(), 0int,
{
    if s.len() == 0 {
        None
    } else if s[0] == 'n' {
        if s.len() >= 4 && s.subrange(0, 4) == seq!['n', 'u', 'l', 'l'] {
            Some((JsonV::Null, s.skip(4)))
        } else {
            None
        }
    } else if s[0] == 't' {
        if s.len() >= 4 && s.subrange(0, 4) == seq!['t', 'r', 'u', 'e'] {
            Some((JsonV::Bool(true), s.skip(4)))
        } else {
            None
        }
    } else if s[0] == 'f' {
        if s.len() >= 5 && s.subrange(0, 5) == seq!['f', 'a', 'l', 's', 'e'] {
            Some((JsonV::Bool(false), s.skip(5)))
        } else {
            None
        }
    } else if s[0] == '"' {
        match p_string_body(s.drop_first()) {
            Some((body, rest)) => Some((JsonV::Str(body), rest)),
            None => None,
        }
    } else if s[0] == '-' || is_digit(s[0]) {
        p_number(s)
    } else if s[0] == '[' {
        match p_arr_tail(s.drop_first()) {
            Some((items, rest)) => Some((JsonV::Arr(items), rest)),
            None => None,
        }
    } else if s[0] == '{' {
        match p_obj_tail(s.drop_first()) {
            Some((fields, rest)) => Some((JsonV::Obj(fields), rest)),
            None => None,
        }
    } else {
        None
    }
}

/// Parses what follows an opening bracket: a closing bracket, or elements.
pub open spec fn p_arr_tail(s: Seq<char>) -> Option<(Seq<JsonV>, Seq<char>)>
    decreases s.len(), 2int,
{
    let t = skip_ws(s);
    if t.len() == 0 {
        None
    } else if t[0] == ']' {
        Some((Seq::empty(), t.drop_first()))
    } else if t.len() <= s.len() {
        p_elems(t)
    } else {
        None
    }
}

/// Parses one or more comma-separated elements and the closing bracket.
pub open spec fn p_elems(s: Seq<char>) -> Option<(Seq<JsonV>, Seq<char>)>
    decreases s.len(), 1int,
{
    match p_value(s) {
        None => None,
        Some((v, rest)) => {
            let t = skip_ws(rest);
            if t.len() == 0 {
                None
            } else if t[0] == ']' {
                Some((seq![v], t.drop_first()))
            } else if t[0] == ',' {
                let u = skip_ws(t.drop_first());
                if u.len() < s.len() {
                    match p_elems(u) {
                        Some((vs, r)) => Some((seq![v] + vs, r)),
                        None => None,
                    }
                } else {
                    None
                }
            } else {
                None
            }
        },
    }
}

/// Parses what follows an opening brace: a closing brace, or members.
pub open spec fn p_obj_tail(s: Seq<char>) -> Option<(Seq<(Seq<char>, JsonV)>, Seq<char>)>
    decreases s.len(), 2int,
{
    let t = skip_ws(s);
    if t.len() == 0 {
        None
    } else if t[0] == '}' {
        Some((Seq::empty(), t.drop_first()))
    } else if t.len() <= s.len() {
        p_members(t)
    } else {
        None
    }
}

/// Parses one or more `"key":value` members and the closing brace.
pub open spec fn p_members(s: Seq<char>) -> Option<(Seq<(Seq<char>, JsonV)>, Seq<char>)>
    decreases s.len(), 1int,
{
    if s.len() == 0 || s[0] != '"' {
        None
    } else {
        match p_string_body(s.drop_first()) {
            None => None,
            Some((key, r1)) => {
                let t = skip_ws(r1);
                if t.len() == 0 || t[0] != ':' {
                    None
                } else {
                    let u = skip_ws(t.drop_first());
                    if u.len() < s.len() {
                        match p_value(u) {
                            None => None,
                            Some((v, rest)) => {
                                let w = skip_ws(rest);
                                if w.len() == 0 {
                                    None
                                } else if w[0] == '}' {
                                    Some((seq![(key, v)], w.drop_first()))
                                } else if w[0] == ',' {
                                    let x = skip_ws(w.drop_first());
                                    if x.len() < s.len() {
                                        match p_members(x) {
                                            Some((fs, r)) => Some((seq![(key, v)] + fs, r)),
                                            None => None,
                                        }
                                    } else {
                                        None
                                    }
                                } else {
                                    None
                                }
                            },
                        }
                    } else {
                        None
                    }
                }
            },
        }
    }
}

/// The tree a complete text denotes: one value, possibly surrounded by
/// whitespace, with nothing after it.
pub open spec fn json_of_text(s: Seq<char>) -> Option<JsonV> {
    match p_value(skip_ws(s)) {
        Some((v, rest)) => if skip_ws(rest).len() == 0 {
            Some(v)
        } else {
            None
        },
        None => None,
    }
}


// ---------------------------------------------------------------------------
// Round trip: parsing the canonical text of a well-formed tree yields the
// tree unchanged.
// ---------------------------------------------------------------------------
/// Skipping whitespace leaves a text alone when it does not start with any.
proof fn lemma_skip_ws_noop(s: Seq<char>)
    requires
        s.len() == 0 || !is_ws(s[0]),
    ensures
        skip_ws(s) == s,
{
}

/// Canonical texts are nonempty and start with a character that no
/// whitespace skip touches and no delimiter check mistakes.
proof fn lemma_text_head(v: JsonV)
    ensures
        text_of(v).len() >= 1,
        !is_ws(text_of(v)[0]),
        text_of(v)[0] != ']',
        text_of(v)[0] != '}',
        text_of(v)[0] != ',',
        text_of(v)[0] != ':',
{
    match v {
        JsonV::Null => {},
        JsonV::Bool(_) => {},
        JsonV::Int(n) => {
            if n < 0 {
                assert(text_of(v)[0] == '-');
            } else {
                crate::numbers::lemma_dec_digits_are_digits(n as nat);
                assert(text_of(v)[0] == dec_int(n)[0]);
                assert(is_digit(dec_int(n)[0]));
            }
        },
        JsonV::Str(s) => {
            assert(text_of(v)[0] == '"');
        },
        JsonV::Arr(items) => {
            assert(text_of(v)[0] == '[');
        },
        JsonV::Obj(fields) => {
            assert(text_of(v)[0] == '{');
        },
    }
}

/// A maximal digit run stops exactly at the first non-digit.
proof fn lemma_digit_run_exact(digs: Seq<char>, rest: Seq<char>)
    requires
        all_digits(digs),
        rest.len() == 0 || !is_digit(rest[0]),
    ensures
        digit_run(digs + rest) == digs.len(),
    decreases digs.len(),
{
    if digs.len() == 0 {
        assert(digs + rest =~= rest);
    } else {
        let s = digs + rest;
        assert(s[0] == digs[0]);
        assert(is_digit(s[0]));
        assert(s.drop_first() =~= digs.drop_first() + rest);
        assert(all_digits(digs.drop_first()));
        lemma_digit_run_exact(digs.drop_first(), rest);
    }
}

/// Parsing an escaped string body recovers the characters exactly.
proof fn lemma_string_body(cs: Seq<char>, rest: Seq<char>)
    ensures
        p_string_body(esc_str(cs) + seq!['"'] + rest) == Some((cs, rest)),
    decreases cs.len(),
{
    let s = esc_str(cs) + seq!['"'] + rest;
    if cs.len() == 0 {
        assert(esc_str(cs) =~= Seq::<char>::empty());
        assert(s =~= seq!['"'] + rest);
        assert(s[0] == '"');
        assert(s.drop_first() =~= rest);
    } else {
        let c = cs[0];
        let tail = cs.drop_first();
        assert(esc_str(cs) =~= esc_char(c) + esc_str(tail));
        lemma_string_body(tail, rest);
        if c == '"' {
            assert(s =~= seq!['\\', '"'] + (esc_str(tail) + seq!['"'] + rest));
            assert(s[0] == '\\');
            assert(s[1] == '"');
            assert(s.len() >= 2);
            assert(unescape(s[1]) == Some('"'));
            assert(s.skip(2) =~= esc_str(tail) + seq!['"'] + rest);
            assert(seq!['"'] + tail =~= cs);
        } else if c == '\\' {
            assert(s =~= seq!['\\', '\\'] + (esc_str(tail) + seq!['"'] + rest));
            assert(s[0] == '\\');
            assert(s[1] == '\\');
            assert(s.len() >= 2);
            assert(unescape(s[1]) == Some('\\'));
            assert(s.skip(2) =~= esc_str(tail) + seq!['"'] + rest);
            assert(seq!['\\'] + tail =~= cs);
        } else {
            assert(s =~= seq![c] + (esc_str(tail) + seq!['"'] + rest));
            assert(s[0] == c);
            assert(s.drop_first() =~= esc_str(tail) + seq!['"'] + rest);
            assert(seq![c] + tail =~= cs);
        }
    }
}

/// The first characters of nonempty element and member lists.
proof fn lemma_elems_text_head(items: Seq<JsonV>)
    requires
        items.len() >= 1,
    ensures
        elems_text(items).len() >= 1,
        elems_text(items)[0] == text_of(items[0])[0],
{
    lemma_text_head(items[0]);
}

proof fn lemma_members_text_head(fields: Seq<(Seq<char>, JsonV)>)
    requires
        fields.len() >= 1,
    ensures
        members_text(fields).len() >= 1,
        members_text(fields)[0] == '"',
{
    let head = seq!['"'] + esc_str(fields[0].0) + seq!['"', ':'] + text_of(fields[0].1);
    assert(head[0] == '"');
    if fields.len() == 1 {
        assert(members_text(fields)[0] == head[0]);
    } else {
        assert(members_text(fields)[0] == head[0]);
    }
}

/// Parsing the canonical text of a well-formed value, followed by anything
/// that does not extend a number token, yields the value and the remainder.
proof fn lemma_text_value(v: JsonV, rest: Seq<char>)
    requires
        crate::json::wf_json(v),
        rest.len() == 0 || !is_digit(rest[0]),
    ensures
        p_value(text_of(v) + rest) == Some((v, rest)),
    decreases v, 1int,
{
    match v {
        JsonV::Null => lemma_tv_null(v, rest),
        JsonV::Bool(_) => lemma_tv_bool(v, rest),
        JsonV::Int(_) => lemma_tv_int(v, rest),
        JsonV::Str(_) => lemma_tv_str(v, rest),
        JsonV::Arr(_) => lemma_tv_arr(v, rest),
        JsonV::Obj(_) => lemma_tv_obj(v, rest),
    }
    let r = p_value(text_of(v) + rest);
    assert(r is Some);
    assert(r->Some_0.0 =~~= v);
    assert(r->Some_0.1 =~~= rest);
}

proof fn lemma_tv_null(v: JsonV, rest: Seq<char>)
    requires
        v is Null,
    ensures
        p_value(text_of(v) + rest) matches Some(p) && p.0 =~~= v && p.1 =~~= rest,
{
    let s = text_of(v) + rest;
    assert(s[0] == 'n');
    assert(s.len() >= 4);
    assert(s.subrange(0, 4) =~= seq!['n', 'u', 'l', 'l']);
    assert(s.skip(4) =~= rest);
}

proof fn lemma_tv_bool(v: JsonV, rest: Seq<char>)
    requires
        v is Bool,
    ensures
        p_value(text_of(v) + rest) matches Some(p) && p.0 =~~= v && p.1 =~~= rest,
{
    let s = text_of(v) + rest;
    if v->Bool_0 {
        assert(s[0] == 't');
        assert(s.len() >= 4);
        assert(s.subrange(0, 4) =~= seq!['t', 'r', 'u', 'e']);
        assert(s.skip(4) =~= rest);
    } else {
        assert(s[0] == 'f');
        assert(s.len() >= 5);
        assert(s.subrange(0, 5) =~= seq!['f', 'a', 'l', 's', 'e']);
        assert(s.skip(5) =~= rest);
    }
}

#[verifier::rlimit(100)]
proof fn lemma_tv_int(v: JsonV, rest: Seq<char>)
    requires
        v is Int,
        crate::json::wf_json(v),
        rest.len() == 0 || !is_digit(rest[0]),
    ensures
        p_value(text_of(v) + rest) matches Some(p) && p.0 =~~= v && p.1 =~~= rest,
{
    let n = v->Int_0;
    let s = text_of(v) + rest;
    crate::numbers::lemma_dec_digits_are_digits(if n < 0 {
        (-n) as nat
    } else {
        n as nat
    });
    if n < 0 {
        assert(dec_int(n) =~= seq!['-'] + dec_digits_of(n));
        assert(s[0] == '-');
        assert(s[0] != 'n' && s[0] != 't' && s[0] != 'f' && s[0] != '"');
        let body = s.drop_first();
        assert(body =~= dec_digits_of(n) + rest);
        lemma_digit_run_exact(dec_digits_of(n), rest);
        let k = digit_run(body);
        assert(k == dec_digits_of(n).len());
        assert(body.subrange(0, k) =~= dec_digits_of(n));
        crate::numbers::lemma_digits_val_of_dec((-n) as nat);
        assert(digits_val(body.subrange(0, k)) == -n);
        assert(body.skip(k) =~= rest);
    } else {
        assert(s[0] == dec_int(n)[0]);
        assert(is_digit(s[0]));
        assert(s[0] != 'n' && s[0] != 't' && s[0] != 'f' && s[0] != '"' && s[0] != '-');
        let body = s;
        assert(body =~= dec_digits_of(n) + rest);
        lemma_digit_run_exact(dec_digits_of(n), rest);
        let k = digit_run(body);
        assert(k == dec_digits_of(n).len());
        assert(body.subrange(0, k) =~= dec_digits_of(n));
        crate::numbers::lemma_digits_val_of_dec(n as nat);
        assert(digits_val(body.subrange(0, k)) == n);
        assert(body.skip(k) =~= rest);
    }
}

proof fn lemma_tv_str(v: JsonV, rest: Seq<char>)
    requires
        v is Str,
    ensures
        p_value(text_of(v) + rest) matches Some(p) && p.0 =~~= v && p.1 =~~= rest,
{
    let cs = v->Str_0;
    let s = text_of(v) + rest;
    assert(s[0] == '"');
    assert(s.drop_first() =~= esc_str(cs) + seq!['"'] + rest);
    lemma_string_body(cs, rest);
}

proof fn lemma_tv_arr(v: JsonV, rest: Seq<char>)
    requires
        v is Arr,
        crate::json::wf_json(v),
        rest.len() == 0 || !is_digit(rest[0]),
    ensures
        p_value(text_of(v) + rest) matches Some(p) && p.0 =~~= v && p.1 =~~= rest,
    decreases v, 0int,
{
    let items = v->Arr_0;
    let s = text_of(v) + rest;
    assert(s[0] == '[');
    let inner = s.drop_first();
    assert(inner =~= elems_text(items) + seq![']'] + rest);
    if items.len() == 0 {
        assert(elems_text(items) =~= Seq::<char>::empty());
        assert(inner =~= seq![']'] + rest);
        assert(inner[0] == ']');
        lemma_skip_ws_noop(inner);
        assert(inner.drop_first() =~= rest);
        assert(p_arr_tail(inner) == Some((Seq::<JsonV>::empty(), rest)));
        assert(items =~= Seq::<JsonV>::empty());
    } else {
        lemma_elems_text_head(items);
        assert(inner[0] == text_of(items[0])[0]);
        lemma_text_head(items[0]);
        lemma_skip_ws_noop(inner);
        lemma_text_elems(items, rest);
        assert(p_arr_tail(inner) == Some((items, rest)));
    }
}

proof fn lemma_tv_obj(v: JsonV, rest: Seq<char>)
    requires
        v is Obj,
        crate::json::wf_json(v),
        rest.len() == 0 || !is_digit(rest[0]),
    ensures
        p_value(text_of(v) + rest) matches Some(p) && p.0 =~~= v && p.1 =~~= rest,
    decreases v, 0int,
{
    let fields = v->Obj_0;
    let s = text_of(v) + rest;
    assert(s[0] == '{');
    let inner = s.drop_first();
    assert(inner =~= members_text(fields) + seq!['}'] + rest);
    if fields.len() == 0 {
        assert(members_text(fields) =~= Seq::<char>::empty());
        assert(inner =~= seq!['}'] + rest);
        assert(inner[0] == '}');
        lemma_skip_ws_noop(inner);
        assert(inner.drop_first() =~= rest);
        assert(p_obj_tail(inner) == Some((Seq::<(Seq<char>, JsonV)>::empty(), rest)));
        assert(fields =~= Seq::<(Seq<char>, JsonV)>::empty());
    } else {
        lemma_members_text_head(fields);
        assert(inner[0] == '"');
        lemma_skip_ws_noop(inner);
        lemma_text_members(fields, rest);
        assert(p_obj_tail(inner) == Some((fields, rest)));
    }
}

/// The magnitude digits of an integer.
spec fn dec_digits_of(n: int) -> Seq<char> {
    if n < 0 {
        dec_digits((-n) as nat)
    } else {
        dec_digits(n as nat)
    }
}

/// Parsing the canonical text of one or more elements, the closing bracket
/// and a remainder yields the elements and the remainder.
proof fn lemma_text_elems(items: Seq<JsonV>, rest: Seq<char>)
    requires
        items.len() >= 1,
        forall|i: int| 0 <= i < items.len() ==> crate::json::wf_json(#[trigger] items[i]),
    ensures
        p_elems(elems_text(items) + seq![']'] + rest) == Some((items, rest)),
    decreases items, 0int,
{
    let s = elems_text(items) + seq![']'] + rest;
    let v0 = items[0];
    if items.len() == 1 {
        assert(s =~= text_of(v0) + (seq![']'] + rest));
        lemma_text_value(v0, seq![']'] + rest);
        let after = seq![']'] + rest;
        lemma_skip_ws_noop(after);
        assert(after[0] == ']');
        assert(after.drop_first() =~= rest);
        assert(seq![v0] =~= items);
    } else {
        let tail_items = items.drop_first();
        assert(elems_text(items) =~= text_of(v0) + seq![','] + elems_text(tail_items));
        let after = seq![','] + (elems_text(tail_items) + seq![']'] + rest);
        assert(s =~= text_of(v0) + after);
        lemma_text_value(v0, after);
        lemma_skip_ws_noop(after);
        assert(after[0] == ',');
        let u0 = after.drop_first();
        assert(u0 =~= elems_text(tail_items) + seq![']'] + rest);
        lemma_elems_text_head(tail_items);
        lemma_text_head(tail_items[0]);
        lemma_skip_ws_noop(u0);
        lemma_text_head(v0);
        assert(u0.len() < s.len());
        assert(forall|i: int|
            0 <= i < tail_items.len() ==> crate::json::wf_json(#[trigger] tail_items[i]));
        lemma_text_elems(tail_items, rest);
        assert(seq![v0] + tail_items =~= items);
    }
}

/// Parsing the canonical text of one or more members, the closing brace and
/// a remainder yields the members and the remainder.
proof fn lemma_text_members(fields: Seq<(Seq<char>, JsonV)>, rest: Seq<char>)
    requires
        fields.len() >= 1,
        forall|i: int| 0 <= i < fields.len() ==> crate::json::wf_json(#[trigger] fields[i].1),
    ensures
        p_members(members_text(fields) + seq!['}'] + rest) == Some((fields, rest)),
    decreases fields, 0int,
{
    let s = members_text(fields) + seq!['}'] + rest;
    let key = fields[0].0;
    let v0 = fields[0].1;
    let head = seq!['"'] + esc_str(key) + seq!['"', ':'] + text_of(v0);
    let after_head = if fields.len() == 1 {
        seq!['}'] + rest
    } else {
        seq![','] + (members_text(fields.drop_first()) + seq!['}'] + rest)
    };
    assert(s =~= head + after_head);
    assert(s[0] == '"');
    assert(s.drop_first() =~= esc_str(key) + seq!['"'] + (seq![':'] + text_of(v0) + after_head));
    lemma_string_body(key, seq![':'] + text_of(v0) + after_head);
    let r1 = seq![':'] + text_of(v0) + after_head;
    lemma_skip_ws_noop(r1);
    assert(r1[0] == ':');
    let u = r1.drop_first();
    assert(u =~= text_of(v0) + after_head);
    lemma_text_head(v0);
    lemma_skip_ws_noop(u);
    assert(u.len() < s.len());
    assert(after_head.len() >= 1 && (after_head[0] == '}' || after_head[0] == ','));
    assert(after_head.len() == 0 || !is_digit(after_head[0]));
    lemma_text_value(v0, after_head);
    lemma_skip_ws_noop(after_head);
    if fields.len() == 1 {
        assert(after_head[0] == '}');
        assert(after_head.drop_first() =~= rest);
        assert(seq![(key, v0)] =~= fields);
    } else {
        assert(after_head[0] == ',');
        let tail_fields = fields.drop_first();
        let x = after_head.drop_first();
        assert(x =~= members_text(tail_fields) + seq!['}'] + rest);
        lemma_members_text_head(tail_fields);
        lemma_skip_ws_noop(x);
        assert(x.len() < s.len());
        assert(forall|i: int|
            0 <= i < tail_fields.len() ==> crate::json::wf_json(#[trigger] tail_fields[i].1));
        lemma_text_members(tail_fields, rest);
        assert(seq![(key, v0)] + tail_fields =~= fields);
    }
}

/// Round trip: the canonical text of any well-formed tree parses back to
/// exactly that tree.
pub proof fn lemma_text_round_trip(v: JsonV)
    requires
        crate::json::wf_json(v),
    ensures
        json_of_text(text_of(v)) == Some(v),
{
    lemma_text_head(v);
    lemma_skip_ws_noop(text_of(v));
    assert(text_of(v) + Seq::<char>::empty() =~= text_of(v));
    lemma_text_value(v, Seq::empty());
    assert(skip_ws(Seq::<char>::empty()).len() == 0);
}

} // verus!
