//! The oracle's result record and its JSON codec.
//!
//! The record is serialized once, as a two-field JSON object, and a
//! parser for exactly that shape is provided so that consumers can read
//! the record back. Serializing and then parsing returns the record
//! unchanged, for every record; `lemma_oracle_result_roundtrip` states
//! and proves that law.

use vstd::prelude::*;
use crate::text::{
    append_escaped, esc_char, escape_str, hex_digit, hex_val, hex_val_of, lemma_hex_val_digit,
    push_char,
};

verus! {

/// Result returned by the oracle: where the provenance metadata lives,
/// and which feature it describes.
#[derive(Debug, Clone, PartialEq, Eq)]
pub struct OracleResult {
    pub metadata_uri: String,
    pub feature_id: String,
}

/// The object head up to and including the opening quote of the
/// `metadata_uri` value.
pub open spec fn key_prefix() -> Seq<char> {
    "{\"metadata_uri\":\""@
}

/// The separator between the two values, after the closing quote of the
/// first: the `feature_id` key up to and including its opening quote.
pub open spec fn mid_sep() -> Seq<char> {
    ",\"feature_id\":\""@
}

/// A double quote.
pub open spec fn quote() -> Seq<char> {
    seq!['"']
}

/// The closing brace of the object.
pub open spec fn close_brace() -> Seq<char> {
    seq!['}']
}

/// The serialized form of a result record: a JSON object with the
/// `metadata_uri` and the `feature_id` as escaped quoted strings.
pub open spec fn oracle_result_json(uri: Seq<char>, fid: Seq<char>) -> Seq<char> {
    key_prefix() + escape_str(uri) + quote() + mid_sep() + escape_str(fid) + quote()
        + close_brace()
}

/// Serializes a result record as JSON.
pub fn serialize_oracle_result(r: &OracleResult) -> (s: String)
    ensures
        s@ == oracle_result_json(r.metadata_uri@, r.feature_id@),
{
    let mut out = String::from_str("{\"metadata_uri\":\"");
    append_escaped(&mut out, r.metadata_uri.as_str());
    let sep = "\",\"feature_id\":\"";
    proof {
        reveal_strlit("\",\"feature_id\":\"");
        reveal_strlit(",\"feature_id\":\"");
        assert(sep@ =~= quote() + mid_sep());
    }
    out.append(sep);
    append_escaped(&mut out, r.feature_id.as_str());
    let suf = "\"}";
    proof {
        reveal_strlit("\"}");
        assert(suf@ =~= quote() + close_brace());
    }
    out.append(suf);
    proof {
        assert(out@ =~= oracle_result_json(r.metadata_uri@, r.feature_id@));
    }
    out
}

/// Reads a quoted-string remainder: the decoded characters up to an
/// unescaped closing quote, together with how many characters were
/// consumed, the quote included. `\u00` and two hexadecimal digits below
/// `20` decode a control character; any other backslash takes the next
/// character literally; an unterminated or malformed string is refused.
pub open spec fn unescape_prefix(s: Seq<char>) -> Option<(Seq<char>, int)>
    decreases s.len(),
{
    if s.len() == 0 {
        None
    } else if s[0] == '"' {
        Some((Seq::<char>::empty(), 1int))
    } else if s[0] == '\\' {
        if s.len() < 2 {
            None
        } else if s[1] == 'u' {
            if s.len() >= 6 && s[2] == '0' && s[3] == '0' && (hex_val(s[4]) matches Some(h1)
                && h1 < 2) && hex_val(s[5]) is Some {
                let v = hex_val(s[4])->Some_0 * 16 + hex_val(s[5])->Some_0;
                match unescape_prefix(s.skip(6)) {
                    Some(t) => Some((seq![((v as u32) as char)] + t.0, t.1 + 6)),
                    None => None,
                }
            } else {
                None
            }
        } else {
            match unescape_prefix(s.skip(2)) {
                Some(t) => Some((seq![s[1]] + t.0, t.1 + 2)),
                None => None,
            }
        }
    } else {
        match unescape_prefix(s.skip(1)) {
            Some(t) => Some((seq![s[0]] + t.0, t.1 + 1)),
            None => None,
        }
    }
}

/// A successful quoted-string read consumes at least the closing quote
/// and at most the whole remainder.
pub proof fn lemma_unescape_bounds(s: Seq<char>)
    ensures
        unescape_prefix(s) matches Some(t) ==> 1 <= t.1 <= s.len(),
    decreases s.len(),
{
    if s.len() == 0 {
    } else if s[0] == '"' {
    } else if s[0] == '\\' {
        if s.len() >= 2 && s[1] == 'u' {
            if s.len() >= 6 {
                lemma_unescape_bounds(s.skip(6));
            }
        } else if s.len() >= 2 {
            lemma_unescape_bounds(s.skip(2));
        }
    } else {
        lemma_unescape_bounds(s.skip(1));
    }
}

/// Reading a quoted string back out of its escaped form, closing quote
/// appended, returns exactly the original characters and consumes
/// exactly the escaped form and the quote, whatever follows.
pub proof fn lemma_unescape_escape(u: Seq<char>, rest: Seq<char>)
    ensures
        unescape_prefix(escape_str(u) + quote() + rest) == Some(
            (u, escape_str(u).len() + 1 as int),
        ),
    decreases u.len(),
{
    let s = escape_str(u) + quote() + rest;
    if u.len() == 0 {
        assert(escape_str(u) == Seq::<char>::empty());
        assert(s[0] == '"');
        assert(unescape_prefix(s) == Some((Seq::<char>::empty(), 1int)));
        assert(u =~= Seq::<char>::empty());
    } else {
        let c = u[0];
        let u1 = u.skip(1);
        assert(escape_str(u) == esc_char(c) + escape_str(u1));
        lemma_unescape_escape(u1, rest);
        let s1 = escape_str(u1) + quote() + rest;
        if c == '"' || c == '\\' {
            assert(esc_char(c) == seq!['\\', c]);
            assert(s.len() >= 2);
            assert(s[0] == '\\');
            assert(s[1] == c);
            assert(s.skip(2) =~= s1);
            assert(seq![c] + u1 =~= u);
            assert(escape_str(u).len() == 2 + escape_str(u1).len());
            assert(unescape_prefix(s) == Some((u, escape_str(u).len() + 1 as int)));
        } else if (c as u32) < 32 {
            let v = (c as u32) as int;
            assert(esc_char(c) == seq!['\\', 'u', '0', '0', hex_digit(v / 16), hex_digit(v % 16)]);
            assert(s.len() >= 7);
            assert(s[0] == '\\');
            assert(s[1] == 'u');
            assert(s[2] == '0');
            assert(s[3] == '0');
            assert(s[4] == hex_digit(v / 16));
            assert(s[5] == hex_digit(v % 16));
            lemma_hex_val_digit(v / 16);
            lemma_hex_val_digit(v % 16);
            assert(v / 16 < 2);
            assert(v / 16 * 16 + v % 16 == v) by {
                vstd::arithmetic::div_mod::lemma_fundamental_div_mod(v, 16);
            }
            assert(((v as u32) as char) == c) by {
                vstd::utf8::char_u32_cast(c, c as u32);
            }
            assert(s.skip(6) =~= s1);
            assert(seq![c] + u1 =~= u);
            assert(escape_str(u).len() == 6 + escape_str(u1).len());
            assert(unescape_prefix(s) == Some((u, escape_str(u).len() + 1 as int)));
        } else {
            assert(esc_char(c) == seq![c]);
            assert(s[0] == c);
            assert(s.skip(1) =~= s1);
            assert(seq![c] + u1 =~= u);
            assert(escape_str(u).len() == 1 + escape_str(u1).len());
            assert(unescape_prefix(s) == Some((u, escape_str(u).len() + 1 as int)));
        }
    }
}

/// What parsing a serialized result record yields: the `metadata_uri`
/// and `feature_id` character sequences, or nothing if the input is not
/// exactly an object of the serialized shape.
pub open spec fn parse_oracle_result_spec(s: Seq<char>) -> Option<(Seq<char>, Seq<char>)> {
    let pre = key_prefix();
    if s.len() < pre.len() || s.take(pre.len() as int) != pre {
        None
    } else {
        match unescape_prefix(s.skip(pre.len() as int)) {
            None => None,
            Some(t1) => {
                let rest = s.skip(pre.len() + t1.1);
                let mid = mid_sep();
                if rest.len() < mid.len() || rest.take(mid.len() as int) != mid {
                    None
                } else {
                    match unescape_prefix(rest.skip(mid.len() as int)) {
                        None => None,
                        Some(t2) => {
                            if rest.skip(mid.len() + t2.1) == close_brace() {
                                Some((t1.0, t2.0))
                            } else {
                                None
                            }
                        },
                    }
                }
            },
        }
    }
}

/// A result record serialized and then parsed yields the same
/// `(metadata_uri, feature_id)` pair, for every record.
pub proof fn lemma_oracle_result_roundtrip(uri: Seq<char>, fid: Seq<char>)
    ensures
        parse_oracle_result_spec(oracle_result_json(uri, fid)) == Some((uri, fid)),
{
    reveal_strlit("{\"metadata_uri\":\"");
    reveal_strlit(",\"feature_id\":\"");
    let s = oracle_result_json(uri, fid);
    let pre = key_prefix();
    let mid = mid_sep();
    let e1 = escape_str(uri);
    let e2 = escape_str(fid);
    assert(pre.len() == 17);
    assert(mid.len() == 15);
    assert(s.len() >= 17);
    assert(s.take(17) =~= pre);
    let tail1 = mid + e2 + quote() + close_brace();
    assert(s.skip(17) =~= e1 + quote() + tail1);
    lemma_unescape_escape(uri, tail1);
    assert(unescape_prefix(s.skip(17)) == Some((uri, e1.len() + 1 as int)));
    let rest = s.skip(17 + e1.len() as int + 1);
    assert(rest =~= tail1);
    assert(rest.len() >= 15);
    assert(rest.take(15) =~= mid);
    assert(rest.skip(15) =~= e2 + quote() + close_brace());
    lemma_unescape_escape(fid, close_brace());
    assert(unescape_prefix(rest.skip(15)) == Some((fid, e2.len() + 1 as int)));
    assert(rest.skip(15 + e2.len() as int + 1) =~= close_brace());
}

/// Tests whether `lit` occurs in `s` at character position `i`.
fn match_lit(s: &str, i: usize, lit: &str) -> (b: bool)
    requires
        i <= s@.len(),
    ensures
        b <==> (i + lit@.len() <= s@.len() && s@.subrange(i as int, i + lit@.len()) == lit@),
{
    let n = lit.unicode_len();
    let sn = s.unicode_len();
    if n > sn - i {
        return false;
    }
    let mut j: usize = 0;
    while j < n
        invariant
            n == lit@.len(),
            sn == s@.len(),
            i + n <= s@.len(),
            0 <= j <= n,
            forall|k: int| 0 <= k < j ==> s@[i + k] == lit@[k],
        decreases n - j,
    {
        if s.get_char(i + j) != lit.get_char(j) {
            proof {
                assert(s@.subrange(i as int, i + n)[j as int] != lit@[j as int]);
            }
            return false;
        }
        j = j + 1;
    }
    proof {
        assert(s@.subrange(i as int, i + n) =~= lit@);
    }
    true
}

/// Reads a quoted-string remainder of `s` starting at character `i`,
/// returning the decoded string and the position just past the closing
/// quote.
fn unescape_from(s: &str, i: usize) -> (r: Option<(String, usize)>)
    requires
        i <= s@.len(),
        s@.len() <= usize::MAX - 6,
    ensures
        ({
            let p = unescape_prefix(s@.skip(i as int));
            match r {
                Some(x) => p matches Some(t) && x.0@ == t.0 && x.1 == i + t.1 && x.1
                    <= s@.len(),
                None => p is None,
            }
        }),
    decreases s@.len() - i,
{
    let ghost ss = s@.skip(i as int);
    let len = s.unicode_len();
    if i >= len {
        return None;
    }
    let c = s.get_char(i);
    proof {
        assert(ss[0] == s@[i as int]);
    }
    if c == '"' {
        Some((String::new(), i + 1))
    } else if c == '\\' {
        if i + 1 < len {
            let c1 = s.get_char(i + 1);
            proof {
                assert(ss[1] == s@[i + 1]);
            }
            if c1 == 'u' {
                if i + 5 < len {
                    let d2 = s.get_char(i + 2);
                    let d3 = s.get_char(i + 3);
                    let h1c = s.get_char(i + 4);
                    let h0c = s.get_char(i + 5);
                    proof {
                        assert(ss[2] == s@[i + 2]);
                        assert(ss[3] == s@[i + 3]);
                        assert(ss[4] == s@[i + 4]);
                        assert(ss[5] == s@[i + 5]);
                    }
                    if d2 == '0' && d3 == '0' {
                        match (hex_val_of(h1c), hex_val_of(h0c)) {
                            (Some(v1), Some(v0)) => {
                                if v1 < 2 {
                                    proof {
                                        assert(v0 < 16);
                                        assert(ss.skip(6) =~= s@.skip(i + 6));
                                    }
                                    match unescape_from(s, i + 6) {
                                        Some((t, j)) => {
                                            let decoded: char = (v1 * 16 + v0) as char;
                                            let mut out = String::new();
                                            push_char(&mut out, decoded);
                                            out.append(t.as_str());
                                            proof {
                                                assert(out@ =~= seq![decoded] + t@);
                                            }
                                            Some((out, j))
                                        },
                                        None => None,
                                    }
                                } else {
                                    None
                                }
                            },
                            _ => None,
                        }
                    } else {
                        None
                    }
                } else {
                    proof {
                        assert(ss.len() < 6);
                    }
                    None
                }
            } else {
                proof {
                    assert(ss.skip(2) =~= s@.skip(i + 2));
                }
                match unescape_from(s, i + 2) {
                    Some((t, j)) => {
                        let mut out = String::from_str(s.substring_char(i + 1, i + 2));
                        out.append(t.as_str());
                        proof {
                            assert(out@ =~= seq![s@[i + 1]] + t@);
                        }
                        Some((out, j))
                    },
                    None => None,
                }
            }
        } else {
            proof {
                assert(ss.len() == 1);
            }
            None
        }
    } else {
        proof {
            assert(ss.skip(1) =~= s@.skip(i + 1));
        }
        match unescape_from(s, i + 1) {
            Some((t, j)) => {
                let mut out = String::from_str(s.substring_char(i, i + 1));
                out.append(t.as_str());
                proof {
                    assert(out@ =~= seq![s@[i as int]] + t@);
                }
                Some((out, j))
            },
            None => None,
        }
    }
}

/// Parses a serialized result record. It succeeds exactly where
/// `parse_oracle_result_spec` does, with the same fields.
pub fn parse_oracle_result(s: &str) -> (r: Option<OracleResult>)
    requires
        s@.len() <= usize::MAX - 6,
    ensures
        ({
            let p = parse_oracle_result_spec(s@);
            match r {
                Some(or) => p matches Some(q) && or.metadata_uri@ == q.0 && or.feature_id@
                    == q.1,
                None => p is None,
            }
        }),
{
    let pre = "{\"metadata_uri\":\"";
    let mid = ",\"feature_id\":\"";
    proof {
        reveal_strlit("{\"metadata_uri\":\"");
        reveal_strlit(",\"feature_id\":\"");
    }
    let pre_len = pre.unicode_len();
    let pre_ok = match_lit(s, 0, pre);
    proof {
        if pre@.len() <= s@.len() {
            assert(s@.take(pre@.len() as int) == s@.subrange(0, pre@.len() as int));
        }
    }
    if !pre_ok {
        return None;
    }
    let (uri, j) = match unescape_from(s, pre_len) {
        Some(x) => x,
        None => {
            return None;
        },
    };
    let ghost rest_spec = s@.skip(j as int);
    proof {
        assert(rest_spec == s@.skip(
            key_prefix().len() + unescape_prefix(s@.skip(pre_len as int))->Some_0.1,
        ));
    }
    let mid_ok = match_lit(s, j, mid);
    proof {
        if j + mid@.len() <= s@.len() {
            assert(rest_spec.take(mid@.len() as int) =~= s@.subrange(j as int, j + mid@.len()));
        } else {
            assert(rest_spec.len() < mid@.len());
        }
    }
    if !mid_ok {
        return None;
    }
    let mid_len = mid.unicode_len();
    proof {
        assert(rest_spec.skip(mid@.len() as int) =~= s@.skip(j + mid_len));
    }
    let (fid, k) = match unescape_from(s, j + mid_len) {
        Some(x) => x,
        None => {
            return None;
        },
    };
    let ghost t2 = unescape_prefix(rest_spec.skip(mid@.len() as int))->Some_0;
    proof {
        lemma_unescape_bounds(s@.skip(j + mid_len));
        assert(k == j + mid_len + t2.1);
        assert(1 <= t2.1);
        assert(rest_spec.skip(mid@.len() + t2.1) =~= s@.skip(k as int));
    }
    let len = s.unicode_len();
    if k < len && k + 1 == len && s.get_char(k) == '}' {
        proof {
            assert(s@.skip(k as int) =~= close_brace());
        }
        Some(OracleResult { metadata_uri: uri, feature_id: fid })
    } else {
        proof {
            if s@.skip(k as int) == close_brace() {
                assert(s@.skip(k as int).len() == 1);
                assert(s@.skip(k as int)[0] == '}');
                assert(s@[k as int] == '}');
                assert(false);
            }
        }
        None
    }
}

} // verus!
