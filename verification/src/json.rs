//! Untyped JSON documents and a parser for them. The grammar the parser
//! accepts is written down as a specification ([`json_text_spec`]) and the
//! parser is proved to return exactly what it says, on every input. The
//! subset covers what the response schema needs: objects, arrays, strings
//! with the single-character escapes, integer numbers, `true`, `false` and
//! `null`. Unicode escapes (`\uXXXX`) and non-integer numbers are outside
//! the subset and make the document an invalid response.

use vstd::prelude::*;
use crate::digits::{digit_value, digits_val, is_digit, parse_digits};

verus! {

/// An untyped JSON document, as delivered by the transport layer before
/// schema validation. Object fields keep their textual order.
#[derive(Debug, PartialEq, Eq)]
pub enum JsonValue {
    Null,
    Bool(bool),
    Int(i64),
    Str(String),
    Arr(Vec<JsonValue>),
    Obj(Vec<(String, JsonValue)>),
}

/// Mathematical model of a [`JsonValue`]: strings as character sequences,
/// numbers as unbounded integers.
#[verifier::ext_equal]
pub enum JsonModel {
    Null,
    Bool(bool),
    Int(int),
    Str(Seq<char>),
    Arr(Seq<JsonModel>),
    Obj(Seq<(Seq<char>, JsonModel)>),
}

/// The models of a sequence of array elements.
pub open spec fn elems_view(vs: Seq<JsonValue>) -> Seq<JsonModel>
    decreases vs,
{
    Seq::new(
        vs.len(),
        |k: int|
            if 0 <= k < vs.len() {
                json_view(vs[k])
            } else {
                JsonModel::Null
            },
    )
}

/// The models of a sequence of object fields.
pub open spec fn fields_view(fs: Seq<(String, JsonValue)>) -> Seq<(Seq<char>, JsonModel)>
    decreases fs,
{
    Seq::new(
        fs.len(),
        |k: int|
            if 0 <= k < fs.len() {
                (fs[k].0@, json_view(fs[k].1))
            } else {
                (Seq::empty(), JsonModel::Null)
            },
    )
}

/// The model a document denotes.
pub open spec fn json_view(v: JsonValue) -> JsonModel
    decreases v,
{
    match v {
        JsonValue::Null => JsonModel::Null,
        JsonValue::Bool(b) => JsonModel::Bool(b),
        JsonValue::Int(n) => JsonModel::Int(n as int),
        JsonValue::Str(s) => JsonModel::Str(s@),
        JsonValue::Arr(a) => JsonModel::Arr(elems_view(a@)),
        JsonValue::Obj(fs) => JsonModel::Obj(fields_view(fs@)),
    }
}

impl View for JsonValue {
    type V = JsonModel;

    open spec fn view(&self) -> JsonModel {
        json_view(*self)
    }
}

/// JSON whitespace.
pub open spec fn is_ws(c: char) -> bool {
    c == ' ' || c == '\t' || c == '\n' || c == '\r'
}

/// The first position at or after `i` that does not hold whitespace.
pub open spec fn ws_end(s: Seq<char>, i: int) -> int
    decreases s.len() - i,
{
    if i < 0 || i >= s.len() {
        i
    } else if is_ws(s[i]) {
        ws_end(s, i + 1)
    } else {
        i
    }
}

/// What a single-character escape denotes; `None` for anything the subset
/// leaves out, unicode escapes included.
pub open spec fn unescape(c: char) -> Option<char> {
    if c == '"' {
        Option::Some('"')
    } else if c == '\\' {
        Option::Some('\\')
    } else if c == '/' {
        Option::Some('/')
    } else if c == 'n' {
        Option::Some('\n')
    } else if c == 't' {
        Option::Some('\t')
    } else if c == 'r' {
        Option::Some('\r')
    } else if c == 'b' {
        Option::Some('\u{0008}')
    } else if c == 'f' {
        Option::Some('\u{000C}')
    } else {
        Option::None
    }
}

/// The decoded content of a string literal read from position `j` (inside
/// the quotes), with the position just past the closing quote.
pub open spec fn str_content(s: Seq<char>, j: int) -> Option<(Seq<char>, int)>
    decreases s.len() - j,
{
    if j < 0 || j >= s.len() {
        Option::None
    } else if s[j] == '"' {
        Option::Some((Seq::empty(), j + 1))
    } else if s[j] == '\\' {
        if j + 1 < s.len() {
            match unescape(s[j + 1]) {
                Option::Some(c) => match str_content(s, j + 2) {
                    Option::Some((rest, e)) => Option::Some((seq![c] + rest, e)),
                    Option::None => Option::None,
                },
                Option::None => Option::None,
            }
        } else {
            Option::None
        }
    } else {
        match str_content(s, j + 1) {
            Option::Some((rest, e)) => Option::Some((seq![s[j]] + rest, e)),
            Option::None => Option::None,
        }
    }
}

/// The end of the digit run starting at `j`.
pub open spec fn digits_end(s: Seq<char>, j: int) -> int
    decreases s.len() - j,
{
    if j < 0 || j >= s.len() {
        j
    } else if is_digit(s[j]) {
        digits_end(s, j + 1)
    } else {
        j
    }
}

/// The integer number read at `i`: an optional minus sign and a digit run
/// without a superfluous leading zero, whose magnitude is at most
/// `i64::MAX`.
pub open spec fn int_spec(s: Seq<char>, i: int) -> Option<(int, int)> {
    let d0 = if 0 <= i < s.len() && s[i] == '-' {
        i + 1
    } else {
        i
    };
    let e = digits_end(s, d0);
    if e == d0 {
        Option::None
    } else if e - d0 > 1 && s[d0] == '0' {
        Option::None
    } else {
        let v = digits_val(s.subrange(d0, e)) as int;
        if v > i64::MAX {
            Option::None
        } else {
            Option::Some(((if d0 != i { -v } else { v }), e))
        }
    }
}

/// The value read at `i` (no leading whitespace), with the position just
/// past it. `fuel` only bounds the recursion; the parser supplies one more
/// than the remaining length, which the proofs show is never exhausted.
pub open spec fn value_spec(s: Seq<char>, i: int, fuel: nat) -> Option<(JsonModel, int)>
    decreases fuel, 0int,
{
    if fuel == 0 || !(0 <= i < s.len()) {
        Option::None
    } else {
        let c = s[i];
        if c == '{' {
            let j = ws_end(s, i + 1);
            if j < s.len() && s[j] == '}' {
                Option::Some((JsonModel::Obj(Seq::empty()), j + 1))
            } else {
                match members_spec(s, j, (fuel - 1) as nat) {
                    Option::Some((fs, e)) => Option::Some((JsonModel::Obj(fs), e)),
                    Option::None => Option::None,
                }
            }
        } else if c == '[' {
            let j = ws_end(s, i + 1);
            if j < s.len() && s[j] == ']' {
                Option::Some((JsonModel::Arr(Seq::empty()), j + 1))
            } else {
                match elems_spec(s, j, (fuel - 1) as nat) {
                    Option::Some((vs, e)) => Option::Some((JsonModel::Arr(vs), e)),
                    Option::None => Option::None,
                }
            }
        } else if c == '"' {
            match str_content(s, i + 1) {
                Option::Some((cs, e)) => Option::Some((JsonModel::Str(cs), e)),
                Option::None => Option::None,
            }
        } else if c == 't' {
            if i + 4 <= s.len() && s[i + 1] == 'r' && s[i + 2] == 'u' && s[i + 3] == 'e' {
                Option::Some((JsonModel::Bool(true), i + 4))
            } else {
                Option::None
            }
        } else if c == 'f' {
            if i + 5 <= s.len() && s[i + 1] == 'a' && s[i + 2] == 'l' && s[i + 3] == 's' && s[i
                + 4] == 'e' {
                Option::Some((JsonModel::Bool(false), i + 5))
            } else {
                Option::None
            }
        } else if c == 'n' {
            if i + 4 <= s.len() && s[i + 1] == 'u' && s[i + 2] == 'l' && s[i + 3] == 'l' {
                Option::Some((JsonModel::Null, i + 4))
            } else {
                Option::None
            }
        } else if c == '-' || is_digit(c) {
            match int_spec(s, i) {
                Option::Some((v, e)) => Option::Some((JsonModel::Int(v), e)),
                Option::None => Option::None,
            }
        } else {
            Option::None
        }
    }
}

/// The members of an object read from the first key at `i` (no leading
/// whitespace, not the empty object), with the position just past the
/// closing brace.
pub open spec fn members_spec(s: Seq<char>, i: int, fuel: nat) -> Option<
    (Seq<(Seq<char>, JsonModel)>, int),
>
    decreases fuel, 1int,
{
    if fuel == 0 || !(0 <= i < s.len() && s[i] == '"') {
        Option::None
    } else {
        match str_content(s, i + 1) {
            Option::None => Option::None,
            Option::Some((key, j2)) => {
                let j3 = ws_end(s, j2);
                if !(j3 < s.len() && s[j3] == ':') {
                    Option::None
                } else {
                    let j4 = ws_end(s, j3 + 1);
                    match value_spec(s, j4, fuel) {
                        Option::None => Option::None,
                        Option::Some((v, j5)) => {
                            let j6 = ws_end(s, j5);
                            if j6 < s.len() && s[j6] == ',' {
                                let j7 = ws_end(s, j6 + 1);
                                match members_spec(s, j7, (fuel - 1) as nat) {
                                    Option::Some((rest, e)) => Option::Some(
                                        (seq![(key, v)] + rest, e),
                                    ),
                                    Option::None => Option::None,
                                }
                            } else if j6 < s.len() && s[j6] == '}' {
                                Option::Some((seq![(key, v)], j6 + 1))
                            } else {
                                Option::None
                            }
                        },
                    }
                }
            },
        }
    }
}

/// The elements of an array read from the first element at `i` (no leading
/// whitespace, not the empty array), with the position just past the
/// closing bracket.
pub open spec fn elems_spec(s: Seq<char>, i: int, fuel: nat) -> Option<(Seq<JsonModel>, int)>
    decreases fuel, 1int,
{
    if fuel == 0 {
        Option::None
    } else {
        match value_spec(s, i, fuel) {
            Option::None => Option::None,
            Option::Some((v, j2)) => {
                let j3 = ws_end(s, j2);
                if j3 < s.len() && s[j3] == ',' {
                    let j4 = ws_end(s, j3 + 1);
                    match elems_spec(s, j4, (fuel - 1) as nat) {
                        Option::Some((rest, e)) => Option::Some((seq![v] + rest, e)),
                        Option::None => Option::None,
                    }
                } else if j3 < s.len() && s[j3] == ']' {
                    Option::Some((seq![v], j3 + 1))
                } else {
                    Option::None
                }
            },
        }
    }
}

/// What [`parse_json`] returns on every body: one value, optionally
/// surrounded by whitespace, with nothing after it.
pub open spec fn json_text_spec(text: Seq<char>) -> Option<JsonModel> {
    let start = ws_end(text, 0);
    match value_spec(text, start, (text.len() - start + 1) as nat) {
        Option::None => Option::None,
        Option::Some((m, j)) => if ws_end(text, j) == text.len() {
            Option::Some(m)
        } else {
            Option::None
        },
    }
}

/// Advances past whitespace.
fn skip_ws(text: &str, i: usize, n: usize) -> (j: usize)
    requires
        n == text@.len(),
        i <= n,
    ensures
        i <= j <= n,
        j == ws_end(text@, i as int),
{
    let mut j = i;
    while j < n
        invariant
            n == text@.len(),
            i <= j <= n,
            ws_end(text@, i as int) == ws_end(text@, j as int),
        decreases n - j,
    {
        let c = text.get_char(j);
        if c == ' ' || c == '\t' || c == '\n' || c == '\r' {
            j = j + 1;
        } else {
            return j;
        }
    }
    j
}

/// One decoded escape as a string slice.
fn escape_str(e: char) -> (r: Option<&'static str>)
    ensures
        r matches Some(t) ==> unescape(e) matches Option::Some(c) && t@ == seq![c],
        r is None ==> unescape(e) is None,
{
    if e == '"' {
        proof {
            reveal_strlit("\"");
            assert("\""@ =~= seq!['"']);
        }
        Some("\"")
    } else if e == '\\' {
        proof {
            reveal_strlit("\\");
            assert("\\"@ =~= seq!['\\']);
        }
        Some("\\")
    } else if e == '/' {
        proof {
            reveal_strlit("/");
            assert("/"@ =~= seq!['/']);
        }
        Some("/")
    } else if e == 'n' {
        proof {
            reveal_strlit("\n");
            assert("\n"@ =~= seq!['\n']);
        }
        Some("\n")
    } else if e == 't' {
        proof {
            reveal_strlit("\t");
            assert("\t"@ =~= seq!['\t']);
        }
        Some("\t")
    } else if e == 'r' {
        proof {
            reveal_strlit("\r");
            assert("\r"@ =~= seq!['\r']);
        }
        Some("\r")
    } else if e == 'b' {
        proof {
            reveal_strlit("\u{0008}");
            assert("\u{0008}"@ =~= seq!['\u{0008}']);
        }
        Some("\u{0008}")
    } else if e == 'f' {
        proof {
            reveal_strlit("\u{000C}");
            assert("\u{000C}"@ =~= seq!['\u{000C}']);
        }
        Some("\u{000C}")
    } else {
        None
    }
}

/// Reads a string literal starting at the opening quote at `i`, decoding
/// the single-character escapes.
fn parse_string(text: &str, i: usize, n: usize) -> (r: Option<(String, usize)>)
    requires
        n == text@.len(),
        i < n,
        text@[i as int] == '"',
    ensures
        r matches Some((out, j)) ==> i + 2 <= j <= n && str_content(text@, i + 1)
            == Option::Some((out@, j as int)),
        r is None ==> str_content(text@, i + 1) is None,
{
    let mut acc = String::new();
    let mut j = i + 1;
    while j < n
        invariant
            n == text@.len(),
            i + 1 <= j <= n,
            match str_content(text@, j as int) {
                Option::Some((rest, e)) => str_content(text@, i + 1) == Option::Some(
                    (acc@ + rest, e),
                ),
                Option::None => str_content(text@, i + 1) is None,
            },
        decreases n - j,
    {
        let c = text.get_char(j);
        if c == '"' {
            proof {
                assert(acc@ + Seq::<char>::empty() =~= acc@);
            }
            return Some((acc, j + 1));
        }
        if c == '\\' {
            if j + 1 >= n {
                return None;
            }
            let e = text.get_char(j + 1);
            let esc = match escape_str(e) {
                Some(t) => t,
                None => {
                    return None;
                },
            };
            proof {
                let c2 = unescape(e)->Some_0;
                match str_content(text@, j + 2) {
                    Option::Some((rest, _)) => {
                        assert((acc@ + seq![c2]) + rest =~= acc@ + (seq![c2] + rest));
                    },
                    Option::None => {},
                }
            }
            acc.append(esc);
            j = j + 2;
        } else {
            let plain = text.substring_char(j, j + 1);
            proof {
                assert(plain@ =~= seq![text@[j as int]]);
                match str_content(text@, j + 1) {
                    Option::Some((rest, _)) => {
                        assert((acc@ + seq![text@[j as int]]) + rest =~= acc@ + (seq![
                            text@[j as int],
                        ] + rest));
                    },
                    Option::None => {},
                }
            }
            acc.append(plain);
            j = j + 1;
        }
    }
    None
}

/// Reads an integer number starting at `i`.
fn parse_int(text: &str, i: usize, n: usize) -> (r: Option<(i64, usize)>)
    requires
        n == text@.len(),
        i < n,
    ensures
        r matches Some((v, j)) ==> i < j <= n && int_spec(text@, i as int) == Option::Some(
            (v as int, j as int),
        ),
        r is None ==> int_spec(text@, i as int) is None,
{
    let neg = text.get_char(i) == '-';
    let start = if neg {
        i + 1
    } else {
        i
    };
    let mut k = start;
    let mut stop = false;
    while !stop && k < n
        invariant
            n == text@.len(),
            start <= k <= n,
            forall|t: int| start <= t < k ==> is_digit(text@[t]),
            digits_end(text@, start as int) == digits_end(text@, k as int),
            stop ==> k < n && !is_digit(text@[k as int]),
        decreases n - k + (if stop { 0int } else { 1 }),
    {
        let c = text.get_char(k);
        match digit_value(c) {
            Some(_) => {
                k = k + 1;
            },
            None => {
                stop = true;
            },
        }
    }
    proof {
        assert(digits_end(text@, k as int) == k);
    }
    if k == start {
        return None;
    }
    if k - start > 1 && text.get_char(start) == '0' {
        return None;
    }
    let sub = text.substring_char(start, k);
    let v = match parse_digits(sub) {
        Some(v) => v,
        None => {
            return None;
        },
    };
    if v > i64::MAX as u64 {
        return None;
    }
    let sv = v as i64;
    if neg {
        Some((-sv, k))
    } else {
        Some((sv, k))
    }
}

/// Reads one value starting at `i` (no leading whitespace), returning
/// exactly what [`value_spec`] says for the fuel it was handed.
fn parse_value(text: &str, i: usize, n: usize, fuel: Ghost<nat>) -> (r: Option<
    (JsonValue, usize),
>)
    requires
        n == text@.len(),
        i <= n,
        fuel@ > n - i,
    ensures
        r matches Some((v, j)) ==> i < j <= n && value_spec(text@, i as int, fuel@)
            == Option::Some((v@, j as int)),
        r is None ==> value_spec(text@, i as int, fuel@) is None,
    decreases n - i,
{
    if i >= n {
        return None;
    }
    let c = text.get_char(i);
    if c == '{' {
        let mut fields: Vec<(String, JsonValue)> = Vec::new();
        let mut j = skip_ws(text, i + 1, n);
        if j < n && text.get_char(j) == '}' {
            proof {
                assert(fields_view(fields@) =~= Seq::<(Seq<char>, JsonModel)>::empty());
            }
            return Some((JsonValue::Obj(fields), j + 1));
        }
        let ghost j0 = j as int;
        let ghost f0 = (fuel@ - 1) as nat;
        let ghost mut mf = f0;
        proof {
            match members_spec(text@, j0, f0) {
                Option::Some((rest, _)) => {
                    assert(fields_view(fields@) + rest =~= rest);
                },
                Option::None => {},
            }
        }
        let mut done = false;
        while !done
            invariant
                n == text@.len(),
                i < n,
                text@[i as int] == '{',
                fuel@ > n - i,
                f0 == (fuel@ - 1) as nat,
                j0 == ws_end(text@, i as int + 1),
                !(j0 < n && text@[j0] == '}'),
                i < j <= n,
                mf > n - j,
                !done ==> match members_spec(text@, j as int, mf) {
                    Option::Some((rest, e)) => members_spec(text@, j0, f0) == Option::Some(
                        (fields_view(fields@) + rest, e),
                    ),
                    Option::None => members_spec(text@, j0, f0) is None,
                },
                done ==> members_spec(text@, j0, f0) == Option::Some(
                    (fields_view(fields@), j as int),
                ),
            decreases n - j + (if done { 0int } else { 1 }),
        {
            if j >= n {
                return None;
            }
            if text.get_char(j) != '"' {
                return None;
            }
            let (key, j2) = match parse_string(text, j, n) {
                Some(p) => p,
                None => {
                    return None;
                },
            };
            let j3 = skip_ws(text, j2, n);
            if j3 >= n || text.get_char(j3) != ':' {
                return None;
            }
            let j4 = skip_ws(text, j3 + 1, n);
            let (val, j5) = match parse_value(text, j4, n, Ghost(mf)) {
                Some(p) => p,
                None => {
                    return None;
                },
            };
            let j6 = skip_ws(text, j5, n);
            if j6 >= n {
                return None;
            }
            proof {
                assert(fields_view(fields@.push((key, val))) =~= fields_view(fields@) + seq![
                    (key@, val@),
                ]);
            }
            let c3 = text.get_char(j6);
            if c3 == ',' {
                proof {
                    match members_spec(text@, ws_end(text@, j6 + 1), (mf - 1) as nat) {
                        Option::Some((rest, _)) => {
                            assert((fields_view(fields@) + seq![(key@, val@)]) + rest =~= fields_view(
                                fields@,
                            ) + (seq![(key@, val@)] + rest));
                        },
                        Option::None => {},
                    }
                }
                fields.push((key, val));
                j = skip_ws(text, j6 + 1, n);
                proof {
                    mf = (mf - 1) as nat;
                }
            } else if c3 == '}' {
                proof {
                    assert((fields_view(fields@) + seq![(key@, val@)]) =~= fields_view(
                        fields@.push((key, val)),
                    ));
                }
                fields.push((key, val));
                j = j6 + 1;
                done = true;
            } else {
                return None;
            }
        }
        return Some((JsonValue::Obj(fields), j));
    }
    if c == '[' {
        let mut elems: Vec<JsonValue> = Vec::new();
        let mut j = skip_ws(text, i + 1, n);
        if j < n && text.get_char(j) == ']' {
            proof {
                assert(elems_view(elems@) =~= Seq::<JsonModel>::empty());
            }
            return Some((JsonValue::Arr(elems), j + 1));
        }
        let ghost j0 = j as int;
        let ghost f0 = (fuel@ - 1) as nat;
        let ghost mut mf = f0;
        proof {
            match elems_spec(text@, j0, f0) {
                Option::Some((rest, _)) => {
                    assert(elems_view(elems@) + rest =~= rest);
                },
                Option::None => {},
            }
        }
        let mut done = false;
        while !done
            invariant
                n == text@.len(),
                i < n,
                text@[i as int] == '[',
                fuel@ > n - i,
                f0 == (fuel@ - 1) as nat,
                j0 == ws_end(text@, i as int + 1),
                !(j0 < n && text@[j0] == ']'),
                i < j <= n,
                mf > n - j,
                !done ==> match elems_spec(text@, j as int, mf) {
                    Option::Some((rest, e)) => elems_spec(text@, j0, f0) == Option::Some(
                        (elems_view(elems@) + rest, e),
                    ),
                    Option::None => elems_spec(text@, j0, f0) is None,
                },
                done ==> elems_spec(text@, j0, f0) == Option::Some(
                    (elems_view(elems@), j as int),
                ),
            decreases n - j + (if done { 0int } else { 1 }),
        {
            let (val, j2) = match parse_value(text, j, n, Ghost(mf)) {
                Some(p) => p,
                None => {
                    return None;
                },
            };
            let j3 = skip_ws(text, j2, n);
            if j3 >= n {
                return None;
            }
            proof {
                assert(elems_view(elems@.push(val)) =~= elems_view(elems@) + seq![val@]);
            }
            let c2 = text.get_char(j3);
            if c2 == ',' {
                proof {
                    match elems_spec(text@, ws_end(text@, j3 + 1), (mf - 1) as nat) {
                        Option::Some((rest, _)) => {
                            assert((elems_view(elems@) + seq![val@]) + rest =~= elems_view(elems@)
                                + (seq![val@] + rest));
                        },
                        Option::None => {},
                    }
                }
                elems.push(val);
                j = skip_ws(text, j3 + 1, n);
                proof {
                    mf = (mf - 1) as nat;
                }
            } else if c2 == ']' {
                proof {
                    assert((elems_view(elems@) + seq![val@]) =~= elems_view(elems@.push(val)));
                }
                elems.push(val);
                j = j3 + 1;
                done = true;
            } else {
                return None;
            }
        }
        return Some((JsonValue::Arr(elems), j));
    }
    if c == '"' {
        return match parse_string(text, i, n) {
            Some((s, j)) => Some((JsonValue::Str(s), j)),
            None => None,
        };
    }
    if c == 't' {
        if n - i >= 4 && text.get_char(i + 1) == 'r' && text.get_char(i + 2) == 'u'
            && text.get_char(i + 3) == 'e' {
            return Some((JsonValue::Bool(true), i + 4));
        }
        return None;
    }
    if c == 'f' {
        if n - i >= 5 && text.get_char(i + 1) == 'a' && text.get_char(i + 2) == 'l'
            && text.get_char(i + 3) == 's' && text.get_char(i + 4) == 'e' {
            return Some((JsonValue::Bool(false), i + 5));
        }
        return None;
    }
    if c == 'n' {
        if n - i >= 4 && text.get_char(i + 1) == 'u' && text.get_char(i + 2) == 'l'
            && text.get_char(i + 3) == 'l' {
            return Some((JsonValue::Null, i + 4));
        }
        return None;
    }
    if c == '-' {
        return match parse_int(text, i, n) {
            Some((v, j)) => Some((JsonValue::Int(v), j)),
            None => None,
        };
    }
    match digit_value(c) {
        Some(_) => match parse_int(text, i, n) {
            Some((v, j)) => Some((JsonValue::Int(v), j)),
            None => None,
        },
        None => None,
    }
}

/// Parses a whole response body. Returns exactly what [`json_text_spec`]
/// says: the document's model when the text is in the accepted grammar,
/// and `None` otherwise.
pub fn parse_json(text: &str) -> (r: Option<JsonValue>)
    ensures
        r matches Some(v) ==> json_text_spec(text@) == Option::Some(v@),
        r is None ==> json_text_spec(text@) is None,
{
    let n = text.unicode_len();
    let start = skip_ws(text, 0, n);
    let ghost fuel = (n - start + 1) as nat;
    match parse_value(text, start, n, Ghost(fuel)) {
        None => None,
        Some((v, j)) => {
            let end = skip_ws(text, j, n);
            if end == n {
                Some(v)
            } else {
                None
            }
        },
    }
}

} // verus!
