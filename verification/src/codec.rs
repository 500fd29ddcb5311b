//! Executable JSON writer and reader, proved against the text grammar in
//! `text`: the writer emits exactly `text_of` of the tree, and the reader
//! accepts exactly the texts `json_of_text` describes.
use crate::json::{Json, JsonV};
use crate::numbers::{digits_val, is_digit};
use crate::strutil::{chars_to_string, str_chars};
use crate::text::{
    digit_run, esc_char, esc_str, elems_text, is_ws, json_of_text, members_text, p_elems,
    p_members, p_number, p_string_body, p_value, skip_ws, text_of, unescape,
};
use vstd::prelude::*;

verus! {

// ---------------------------------------------------------------------------
// Writing
// ---------------------------------------------------------------------------
/// Escaping distributes over extending a string by one character.
proof fn lemma_esc_str_snoc(a: Seq<char>, c: char)
    ensures
        esc_str(a.push(c)) == esc_str(a) + esc_char(c),
    decreases a.len(),
{
    if a.len() == 0 {
        assert(a.push(c)[0] == c);
        assert(a.push(c).drop_first() =~= Seq::<char>::empty());
        assert(esc_str(Seq::<char>::empty()) =~= Seq::<char>::empty());
        assert(esc_str(a.push(c)) == esc_char(c) + esc_str(Seq::<char>::empty()));
        assert(esc_str(a.push(c)) =~= esc_char(c));
        assert(esc_str(a) + esc_char(c) =~= esc_char(c));
    } else {
        assert(a.push(c)[0] == a[0]);
        assert(a.push(c).drop_first() =~= a.drop_first().push(c));
        lemma_esc_str_snoc(a.drop_first(), c);
        assert(esc_char(a[0]) + (esc_str(a.drop_first()) + esc_char(c)) =~= (esc_char(a[0])
            + esc_str(a.drop_first())) + esc_char(c));
    }
}

/// The element list text grows by a comma and one element text.
proof fn lemma_elems_text_snoc(a: Seq<JsonV>, v: JsonV)
    ensures
        a.len() == 0 ==> elems_text(a.push(v)) == text_of(v),
        a.len() > 0 ==> elems_text(a.push(v)) == elems_text(a) + seq![','] + text_of(v),
    decreases a.len(),
{
    let b = a.push(v);
    if a.len() == 0 {
        assert(b.len() == 1);
        assert(b[0] == v);
        assert(elems_text(b) == text_of(v));
    } else {
        assert(b[0] == a[0]);
        assert(b.drop_first() =~= a.drop_first().push(v));
        lemma_elems_text_snoc(a.drop_first(), v);
        if a.len() == 1 {
            assert(elems_text(b) == text_of(b[0]) + seq![','] + elems_text(b.drop_first()));
            assert(elems_text(b.drop_first()) == text_of(v));
            assert(elems_text(a) == text_of(a[0]));
        } else {
            assert(elems_text(b) == text_of(b[0]) + seq![','] + elems_text(b.drop_first()));
            assert(elems_text(b.drop_first()) == elems_text(a.drop_first()) + seq![',']
                + text_of(v));
            assert(elems_text(a) == text_of(a[0]) + seq![','] + elems_text(a.drop_first()));
            assert(text_of(a[0]) + seq![','] + (elems_text(a.drop_first()) + seq![','] + text_of(
                v,
            )) =~= (text_of(a[0]) + seq![','] + elems_text(a.drop_first())) + seq![','] + text_of(
                v,
            ));
        }
    }
}

/// The member text of one key/value pair.
pub open spec fn member_text(f: (Seq<char>, JsonV)) -> Seq<char> {
    seq!['"'] + esc_str(f.0) + seq!['"', ':'] + text_of(f.1)
}

/// The member list text grows by a comma and one member text.
proof fn lemma_members_text_snoc(a: Seq<(Seq<char>, JsonV)>, f: (Seq<char>, JsonV))
    ensures
        a.len() == 0 ==> members_text(a.push(f)) == member_text(f),
        a.len() > 0 ==> members_text(a.push(f)) == members_text(a) + seq![','] + member_text(f),
    decreases a.len(),
{
    let b = a.push(f);
    if a.len() == 0 {
        assert(b.len() == 1);
        assert(b[0] == f);
        assert(members_text(b) == member_text(f));
    } else {
        assert(b[0] == a[0]);
        assert(b.drop_first() =~= a.drop_first().push(f));
        lemma_members_text_snoc(a.drop_first(), f);
        let h = member_text(a[0]);
        if a.len() == 1 {
            assert(members_text(b) == h + seq![','] + members_text(b.drop_first()));
            assert(members_text(b.drop_first()) == member_text(f));
            assert(members_text(a) == h);
        } else {
            assert(members_text(b) == h + seq![','] + members_text(b.drop_first()));
            assert(members_text(b.drop_first()) == members_text(a.drop_first()) + seq![',']
                + member_text(f));
            assert(members_text(a) == h + seq![','] + members_text(a.drop_first()));
            assert(h + seq![','] + (members_text(a.drop_first()) + seq![','] + member_text(f)) =~= (
            h + seq![','] + members_text(a.drop_first())) + seq![','] + member_text(f));
        }
    }
}

/// Writes the escaped body of a string token.
fn write_escaped(out: &mut Vec<char>, s: &str)
    ensures
        final(out)@ == old(out)@ + esc_str(s@),
{
    let chars = str_chars(s);
    let ghost base = out@;
    let mut i: usize = 0;
    proof {
        assert(chars@.subrange(0, 0) =~= Seq::<char>::empty());
        assert(esc_str(Seq::<char>::empty()) =~= Seq::<char>::empty());
        assert(out@ =~= base + esc_str(chars@.subrange(0, 0)));
    }
    while i < chars.len()
        invariant
            i <= chars.len(),
            chars@ == s@,
            out@ == base + esc_str(chars@.subrange(0, i as int)),
        decreases chars.len() - i,
    {
        let c = chars[i];
        if c == '"' {
            out.push('\\');
            out.push('"');
        } else if c == '\\' {
            out.push('\\');
            out.push('\\');
        } else {
            out.push(c);
        }
        proof {
            lemma_esc_str_snoc(chars@.subrange(0, i as int), c);
            assert(chars@.subrange(0, i + 1) =~= chars@.subrange(0, i as int).push(c));
            assert(out@ =~= base + esc_str(chars@.subrange(0, i + 1)));
        }
        i = i + 1;
    }
    proof {
        assert(chars@.subrange(0, chars@.len() as int) =~= chars@);
    }
}

impl Json {
    /// The canonical text of this tree, as characters.
    #[verifier::loop_isolation(false)]
    pub fn to_text_chars(&self) -> (r: Vec<char>)
        ensures
            r@ == text_of(self@),
        decreases self,
    {
        match self {
            Json::Null => {
                let mut out: Vec<char> = Vec::new();
                out.push('n');
                out.push('u');
                out.push('l');
                out.push('l');
                proof {
                    assert(out@ =~= text_of(self@));
                }
                out
            },
            Json::Bool(b) => {
                let mut out: Vec<char> = Vec::new();
                if *b {
                    out.push('t');
                    out.push('r');
                    out.push('u');
                    out.push('e');
                } else {
                    out.push('f');
                    out.push('a');
                    out.push('l');
                    out.push('s');
                    out.push('e');
                }
                proof {
                    assert(out@ =~= text_of(self@));
                }
                out
            },
            Json::Int(n) => crate::numbers::i64_chars(*n),
            Json::Str(s) => {
                let mut out: Vec<char> = Vec::new();
                out.push('"');
                write_escaped(&mut out, s.as_str());
                out.push('"');
                proof {
                    assert(out@ =~= text_of(self@));
                }
                out
            },
            Json::Arr(items) => {
                let ghost iv = self@->Arr_0;
                let mut out: Vec<char> = Vec::new();
                out.push('[');
                let mut i: usize = 0;
                proof {
                    assert(elems_text(iv.subrange(0, 0)) =~= Seq::<char>::empty());
                    assert(out@ =~= seq!['['] + elems_text(iv.subrange(0, 0)));
                }
                while i < items.len()
                    invariant
                        i <= items.len(),
                        out@ == seq!['['] + elems_text(iv.subrange(0, i as int)),
                    decreases items.len() - i,
                {
                    if i > 0 {
                        out.push(',');
                    }
                    let mut part = items[i].to_text_chars();
                    out.append(&mut part);
                    proof {
                        assert(iv[i as int] == items@[i as int]@);
                        lemma_elems_text_snoc(iv.subrange(0, i as int), iv[i as int]);
                        assert(iv.subrange(0, i + 1) =~= iv.subrange(0, i as int).push(
                            iv[i as int],
                        ));
                        if i == 0 {
                            assert(out@ =~= seq!['['] + elems_text(iv.subrange(0, i + 1)));
                        } else {
                            assert(out@ =~= seq!['['] + elems_text(iv.subrange(0, i + 1)));
                        }
                    }
                    i = i + 1;
                }
                out.push(']');
                proof {
                    assert(iv.subrange(0, iv.len() as int) =~= iv);
                    assert(out@ =~= text_of(self@));
                }
                out
            },
            Json::Obj(fields) => {
                let ghost fv = self@->Obj_0;
                let mut out: Vec<char> = Vec::new();
                out.push('{');
                let mut i: usize = 0;
                proof {
                    assert(members_text(fv.subrange(0, 0)) =~= Seq::<char>::empty());
                    assert(out@ =~= seq!['{'] + members_text(fv.subrange(0, 0)));
                }
                while i < fields.len()
                    invariant
                        i <= fields.len(),
                        out@ == seq!['{'] + members_text(fv.subrange(0, i as int)),
                    decreases fields.len() - i,
                {
                    if i > 0 {
                        out.push(',');
                    }
                    let (name, value) = &fields[i];
                    out.push('"');
                    write_escaped(&mut out, name.as_str());
                    out.push('"');
                    out.push(':');
                    let mut part = value.to_text_chars();
                    out.append(&mut part);
                    proof {
                        assert(fv[i as int] == (fields@[i as int].0@, fields@[i as int].1@));
                        lemma_members_text_snoc(fv.subrange(0, i as int), fv[i as int]);
                        assert(fv.subrange(0, i + 1) =~= fv.subrange(0, i as int).push(
                            fv[i as int],
                        ));
                        assert(out@ =~= seq!['{'] + members_text(fv.subrange(0, i + 1)));
                    }
                    i = i + 1;
                }
                out.push('}');
                proof {
                    assert(fv.subrange(0, fv.len() as int) =~= fv);
                    assert(out@ =~= text_of(self@));
                }
                out
            },
        }
    }

    /// The canonical text of this tree.
    pub fn to_text(&self) -> (r: String)
        ensures
            r@ == text_of(self@),
    {
        let v = self.to_text_chars();
        chars_to_string(&v)
    }
}


// ---------------------------------------------------------------------------
// Reading
// ---------------------------------------------------------------------------
fn is_ws_char(c: char) -> (r: bool)
    ensures
        r == is_ws(c),
{
    c == ' ' || c == '\t' || c == '\n' || c == '\r'
}

fn is_digit_char(c: char) -> (r: bool)
    ensures
        r == is_digit(c),
{
    '0' <= c && c <= '9'
}

/// Advances past whitespace: afterwards the suffix at the returned index is
/// the whitespace-skipped suffix at the given one.
fn ws_to(s: &Vec<char>, i: usize) -> (j: usize)
    requires
        i <= s@.len(),
    ensures
        i <= j <= s@.len(),
        s@.skip(j as int) == skip_ws(s@.skip(i as int)),
{
    let mut j = i;
    while j < s.len()
        invariant
            i <= j <= s@.len(),
            skip_ws(s@.skip(i as int)) == skip_ws(s@.skip(j as int)),
        decreases s@.len() - j,
    {
        if !is_ws_char(s[j]) {
            proof {
                assert(s@.skip(j as int)[0] == s@[j as int]);
            }
            return j;
        }
        proof {
            assert(s@.skip(j as int)[0] == s@[j as int]);
            assert(s@.skip(j as int).drop_first() =~= s@.skip(j + 1));
        }
        j = j + 1;
    }
    proof {
        assert(s@.skip(j as int).len() == 0);
    }
    j
}

fn unescape_char(c: char) -> (r: Option<char>)
    ensures
        r == unescape(c),
{
    if c == '"' {
        Some('"')
    } else if c == '\\' {
        Some('\\')
    } else if c == '/' {
        Some('/')
    } else if c == 'n' {
        Some('\n')
    } else if c == 't' {
        Some('\t')
    } else if c == 'r' {
        Some('\r')
    } else if c == 'b' {
        Some('\u{0008}')
    } else if c == 'f' {
        Some('\u{000C}')
    } else {
        None
    }
}

/// Reads a string body starting after the opening quote.
fn read_string_body(s: &Vec<char>, i: usize) -> (r: Option<(String, usize)>)
    requires
        i <= s@.len(),
    ensures
        match r {
            Some(p) => i < p.1 <= s@.len() && p_string_body(s@.skip(i as int)) == Some(
                (p.0@, s@.skip(p.1 as int)),
            ),
            None => p_string_body(s@.skip(i as int)) is None,
        },
{
    let mut acc: Vec<char> = Vec::new();
    let mut cur: usize = i;
    while cur < s.len()
        invariant
            i <= cur <= s@.len(),
            p_string_body(s@.skip(i as int)) == (match p_string_body(s@.skip(cur as int)) {
                Some((body, rest)) => Some((acc@ + body, rest)),
                None => None::<(Seq<char>, Seq<char>)>,
            }),
        decreases s@.len() - cur,
    {
        let c = s[cur];
        proof {
            assert(s@.skip(cur as int)[0] == c);
        }
        if c == '"' {
            proof {
                assert(s@.skip(cur as int).drop_first() =~= s@.skip(cur + 1));
                assert(acc@ + Seq::<char>::empty() =~= acc@);
            }
            let out = chars_to_string(&acc);
            return Some((out, cur + 1));
        } else if c == '\\' {
            if cur + 1 == s.len() {
                proof {
                    assert(s@.skip(cur as int).len() < 2);
                }
                return None;
            }
            let e = s[cur + 1];
            proof {
                assert(s@.skip(cur as int)[1] == e);
                assert(s@.skip(cur as int).len() >= 2);
            }
            match unescape_char(e) {
                Some(c2) => {
                    proof {
                        assert(s@.skip(cur as int).skip(2) =~= s@.skip(cur + 2));
                    }
                    acc.push(c2);
                    proof {
                        match p_string_body(s@.skip(cur + 2)) {
                            Some((body, rest)) => {
                                assert(acc@ + body =~= acc@.drop_last() + (seq![c2] + body));
                            },
                            None => {},
                        }
                    }
                    cur = cur + 2;
                },
                None => {
                    return None;
                },
            }
        } else {
            acc.push(c);
            proof {
                assert(s@.skip(cur as int).drop_first() =~= s@.skip(cur + 1));
                match p_string_body(s@.skip(cur + 1)) {
                    Some((body, rest)) => {
                        assert(acc@ + body =~= acc@.drop_last() + (seq![c] + body));
                    },
                    None => {},
                }
            }
            cur = cur + 1;
        }
    }
    proof {
        assert(s@.skip(cur as int).len() == 0);
    }
    None
}

/// Reads a number token.
fn read_number(s: &Vec<char>, i: usize) -> (r: Option<(Json, usize)>)
    requires
        i <= s@.len(),
    ensures
        match r {
            Some(p) => i < p.1 <= s@.len() && p_number(s@.skip(i as int)) == Some(
                (p.0@, s@.skip(p.1 as int)),
            ),
            None => p_number(s@.skip(i as int)) is None,
        },
{
    let ghost whole = s@.skip(i as int);
    let neg: bool = i < s.len() && s[i] == '-';
    let start: usize = if neg {
        i + 1
    } else {
        i
    };
    let ghost body = s@.skip(start as int);
    proof {
        if i < s@.len() {
            assert(whole[0] == s@[i as int]);
        }
        if neg {
            assert(whole.drop_first() =~= body);
        }
    }
    // measure the digit run
    let mut e: usize = start;
    while e < s.len() && is_digit_char(s[e])
        invariant
            start <= e <= s@.len(),
            body == s@.skip(start as int),
            digit_run(body) == e - start + digit_run(s@.skip(e as int)),
            forall|k: int| start <= k < e ==> is_digit(#[trigger] s@[k]),
        decreases s@.len() - e,
    {
        proof {
            assert(s@.skip(e as int)[0] == s@[e as int]);
            assert(s@.skip(e as int).drop_first() =~= s@.skip(e + 1));
        }
        e = e + 1;
    }
    proof {
        if e < s@.len() {
            assert(s@.skip(e as int)[0] == s@[e as int]);
        }
        assert(digit_run(s@.skip(e as int)) == 0);
        assert(digit_run(body) == e - start);
    }
    if e == start {
        return None;
    }
    let ghost digs = body.subrange(0, (e - start) as int);
    proof {
        assert(digs =~= s@.subrange(start as int, e as int));
        assert(crate::numbers::all_digits(s@.subrange(start as int, e as int)));
    }
    let m_neg = match crate::numbers::parse_digits_neg(s, start, e) {
        Some(v) => v,
        None => {
            proof {
                let m = digits_val(digs);
                assert(m > -(i64::MIN as int));
                if neg {
                    assert(!(i64::MIN <= -m <= i64::MAX));
                } else {
                    assert(!(i64::MIN <= m <= i64::MAX));
                }
            }
            return None;
        },
    };
    proof {
        assert(m_neg == -digits_val(digs));
        assert(body.skip((e - start) as int) =~= s@.skip(e as int));
    }
    if neg {
        Some((Json::Int(m_neg), e))
    } else {
        if m_neg == i64::MIN {
            proof {
                assert(digits_val(digs) == -(i64::MIN as int));
                assert(!(i64::MIN <= digits_val(digs) <= i64::MAX));
            }
            return None;
        }
        Some((Json::Int(-m_neg), e))
    }
}

/// Reads one value; the input must not start with whitespace.
fn read_value(s: &Vec<char>, i: usize) -> (r: Option<(Json, usize)>)
    requires
        i <= s@.len(),
    ensures
        match r {
            Some(p) => i < p.1 <= s@.len() && p_value(s@.skip(i as int)) == Some(
                (p.0@, s@.skip(p.1 as int)),
            ),
            None => p_value(s@.skip(i as int)) is None,
        },
    decreases s@.len() - i, 0int,
{
    let ghost whole = s@.skip(i as int);
    if i == s.len() {
        return None;
    }
    let c = s[i];
    proof {
        assert(whole[0] == c);
    }
    if c == 'n' {
        if s.len() - i >= 4 && s[i + 1] == 'u' && s[i + 2] == 'l' && s[i + 3] == 'l' {
            proof {
                assert(whole.subrange(0, 4) =~= seq!['n', 'u', 'l', 'l']);
                assert(whole.skip(4) =~= s@.skip(i + 4));
            }
            Some((Json::Null, i + 4))
        } else {
            proof {
                if whole.len() >= 4 {
                    assert(whole[1] == s@[i + 1] && whole[2] == s@[i + 2] && whole[3] == s@[i
                        + 3]);
                    assert(whole.subrange(0, 4)[1] == whole[1]);
                    assert(whole.subrange(0, 4)[2] == whole[2]);
                    assert(whole.subrange(0, 4)[3] == whole[3]);
                }
            }
            None
        }
    } else if c == 't' {
        if s.len() - i >= 4 && s[i + 1] == 'r' && s[i + 2] == 'u' && s[i + 3] == 'e' {
            proof {
                assert(whole.subrange(0, 4) =~= seq!['t', 'r', 'u', 'e']);
                assert(whole.skip(4) =~= s@.skip(i + 4));
            }
            Some((Json::Bool(true), i + 4))
        } else {
            proof {
                if whole.len() >= 4 {
                    assert(whole.subrange(0, 4)[1] == s@[i + 1]);
                    assert(whole.subrange(0, 4)[2] == s@[i + 2]);
                    assert(whole.subrange(0, 4)[3] == s@[i + 3]);
                }
            }
            None
        }
    } else if c == 'f' {
        if s.len() - i >= 5 && s[i + 1] == 'a' && s[i + 2] == 'l' && s[i + 3] == 's' && s[i + 4]
            == 'e' {
            proof {
                assert(whole.subrange(0, 5) =~= seq!['f', 'a', 'l', 's', 'e']);
                assert(whole.skip(5) =~= s@.skip(i + 5));
            }
            Some((Json::Bool(false), i + 5))
        } else {
            proof {
                if whole.len() >= 5 {
                    assert(whole.subrange(0, 5)[1] == s@[i + 1]);
                    assert(whole.subrange(0, 5)[2] == s@[i + 2]);
                    assert(whole.subrange(0, 5)[3] == s@[i + 3]);
                    assert(whole.subrange(0, 5)[4] == s@[i + 4]);
                }
            }
            None
        }
    } else if c == '"' {
        proof {
            assert(whole.drop_first() =~= s@.skip(i + 1));
        }
        match read_string_body(s, i + 1) {
            Some((body, j)) => Some((Json::Str(body), j)),
            None => None,
        }
    } else if c == '-' || is_digit_char(c) {
        read_number(s, i)
    } else if c == '[' {
        proof {
            assert(whole.drop_first() =~= s@.skip(i + 1));
        }
        let j = ws_to(s, i + 1);
        if j == s.len() {
            proof {
                assert(skip_ws(s@.skip(i + 1)).len() == 0);
            }
            None
        } else if s[j] == ']' {
            proof {
                assert(s@.skip(j as int)[0] == ']');
                assert(s@.skip(j as int).drop_first() =~= s@.skip(j + 1));
            }
            let out = Json::Arr(Vec::new());
            proof {
                assert(out@->Arr_0 =~= Seq::<JsonV>::empty());
            }
            Some((out, j + 1))
        } else {
            proof {
                assert(s@.skip(j as int)[0] == s@[j as int]);
                assert(s@.skip(j as int).len() <= s@.skip(i + 1).len());
            }
            match read_elems(s, j) {
                Some((items, j2)) => {
                    let out = Json::Arr(items);
                    Some((out, j2))
                },
                None => None,
            }
        }
    } else if c == '{' {
        proof {
            assert(whole.drop_first() =~= s@.skip(i + 1));
        }
        let j = ws_to(s, i + 1);
        if j == s.len() {
            proof {
                assert(skip_ws(s@.skip(i + 1)).len() == 0);
            }
            None
        } else if s[j] == '}' {
            proof {
                assert(s@.skip(j as int)[0] == '}');
                assert(s@.skip(j as int).drop_first() =~= s@.skip(j + 1));
            }
            let out = Json::Obj(Vec::new());
            proof {
                assert(out@->Obj_0 =~= Seq::<(Seq<char>, JsonV)>::empty());
            }
            Some((out, j + 1))
        } else {
            proof {
                assert(s@.skip(j as int)[0] == s@[j as int]);
                assert(s@.skip(j as int).len() <= s@.skip(i + 1).len());
            }
            match read_members(s, j) {
                Some((fields, j2)) => {
                    let out = Json::Obj(fields);
                    Some((out, j2))
                },
                None => None,
            }
        }
    } else {
        None
    }
}

/// Reads one or more comma-separated elements and the closing bracket.
fn read_elems(s: &Vec<char>, i: usize) -> (r: Option<(Vec<Json>, usize)>)
    requires
        i <= s@.len(),
    ensures
        match r {
            Some(p) => i < p.1 <= s@.len() && p_elems(s@.skip(i as int)) == Some(
                (Json::Arr(p.0)@->Arr_0, s@.skip(p.1 as int)),
            ),
            None => p_elems(s@.skip(i as int)) is None,
        },
    decreases s@.len() - i, 1int,
{
    let first = match read_value(s, i) {
        Some(p) => p,
        None => {
            return None;
        },
    };
    let (v, j1) = first;
    let j2 = ws_to(s, j1);
    if j2 == s.len() {
        proof {
            assert(skip_ws(s@.skip(j1 as int)).len() == 0);
        }
        return None;
    }
    let c = s[j2];
    proof {
        assert(s@.skip(j2 as int)[0] == c);
    }
    if c == ']' {
        proof {
            assert(s@.skip(j2 as int).drop_first() =~= s@.skip(j2 + 1));
        }
        let mut items: Vec<Json> = Vec::new();
        items.push(v);
        proof {
            assert(Json::Arr(items)@->Arr_0 =~= seq![items@[0]@]);
        }
        Some((items, j2 + 1))
    } else if c == ',' {
        proof {
            assert(s@.skip(j2 as int).drop_first() =~= s@.skip(j2 + 1));
        }
        let j3 = ws_to(s, j2 + 1);
        proof {
            assert(s@.skip(j3 as int).len() < s@.skip(i as int).len());
        }
        match read_elems(s, j3) {
            Some((mut items, j4)) => {
                let ghost tail_views = Json::Arr(items)@->Arr_0;
                items.insert(0, v);
                proof {
                    assert(Json::Arr(items)@->Arr_0 =~= seq![items@[0]@] + tail_views);
                }
                Some((items, j4))
            },
            None => None,
        }
    } else {
        None
    }
}

/// Reads one or more `"key":value` members and the closing brace.
fn read_members(s: &Vec<char>, i: usize) -> (r: Option<(Vec<(String, Json)>, usize)>)
    requires
        i <= s@.len(),
    ensures
        match r {
            Some(p) => i < p.1 <= s@.len() && p_members(s@.skip(i as int)) == Some(
                (Json::Obj(p.0)@->Obj_0, s@.skip(p.1 as int)),
            ),
            None => p_members(s@.skip(i as int)) is None,
        },
    decreases s@.len() - i, 1int,
{
    let ghost whole = s@.skip(i as int);
    if i == s.len() {
        return None;
    }
    if s[i] != '"' {
        proof {
            assert(whole[0] == s@[i as int]);
        }
        return None;
    }
    proof {
        assert(whole[0] == '"');
        assert(whole.drop_first() =~= s@.skip(i + 1));
    }
    let key = match read_string_body(s, i + 1) {
        Some(p) => p,
        None => {
            return None;
        },
    };
    let (key_str, j1) = key;
    let j2 = ws_to(s, j1);
    if j2 == s.len() {
        proof {
            assert(skip_ws(s@.skip(j1 as int)).len() == 0);
        }
        return None;
    }
    if s[j2] != ':' {
        proof {
            assert(s@.skip(j2 as int)[0] == s@[j2 as int]);
        }
        return None;
    }
    proof {
        assert(s@.skip(j2 as int)[0] == ':');
        assert(s@.skip(j2 as int).drop_first() =~= s@.skip(j2 + 1));
    }
    let j3 = ws_to(s, j2 + 1);
    proof {
        assert(s@.skip(j3 as int).len() < s@.skip(i as int).len());
    }
    let val = match read_value(s, j3) {
        Some(p) => p,
        None => {
            return None;
        },
    };
    let (v, j4) = val;
    let j5 = ws_to(s, j4);
    if j5 == s.len() {
        proof {
            assert(skip_ws(s@.skip(j4 as int)).len() == 0);
        }
        return None;
    }
    let c = s[j5];
    proof {
        assert(s@.skip(j5 as int)[0] == c);
    }
    if c == '}' {
        proof {
            assert(s@.skip(j5 as int).drop_first() =~= s@.skip(j5 + 1));
        }
        let mut fields: Vec<(String, Json)> = Vec::new();
        fields.push((key_str, v));
        proof {
            assert(Json::Obj(fields)@->Obj_0 =~= seq![(fields@[0].0@, fields@[0].1@)]);
        }
        Some((fields, j5 + 1))
    } else if c == ',' {
        proof {
            assert(s@.skip(j5 as int).drop_first() =~= s@.skip(j5 + 1));
        }
        let j6 = ws_to(s, j5 + 1);
        proof {
            assert(s@.skip(j6 as int).len() < s@.skip(i as int).len());
        }
        match read_members(s, j6) {
            Some((mut fields, j7)) => {
                let ghost tail_views = Json::Obj(fields)@->Obj_0;
                fields.insert(0, (key_str, v));
                proof {
                    assert(Json::Obj(fields)@->Obj_0 =~= seq![(fields@[0].0@, fields@[0].1@)]
                        + tail_views);
                }
                Some((fields, j7))
            },
            None => None,
        }
    } else {
        None
    }
}

impl Json {
    /// Reads a complete text: one value, possibly surrounded by whitespace.
    pub fn parse_text(s: &str) -> (r: Option<Json>)
        ensures
            match r {
                Some(j) => json_of_text(s@) == Some(j@),
                None => json_of_text(s@) is None,
            },
    {
        let chars = str_chars(s);
        proof {
            assert(chars@.skip(0) =~= chars@);
        }
        let i = ws_to(&chars, 0);
        match read_value(&chars, i) {
            None => None,
            Some((v, j)) => {
                let k = ws_to(&chars, j);
                if k == chars.len() {
                    proof {
                        assert(skip_ws(chars@.skip(j as int)).len() == 0);
                    }
                    Some(v)
                } else {
                    proof {
                        assert(skip_ws(chars@.skip(j as int)).len() > 0);
                    }
                    None
                }
            },
        }
    }
}

} // verus!
