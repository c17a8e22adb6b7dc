//! Verified text building: decimal rendering of integers, fixed-point
//! rendering of micro-unit values, and escaping for quoted JSON strings.

use vstd::prelude::*;

verus! {

/// The character of one decimal digit.
pub open spec fn dec_digit(d: int) -> char
    recommends
        0 <= d < 10,
{
    if d == 0 {
        '0'
    } else if d == 1 {
        '1'
    } else if d == 2 {
        '2'
    } else if d == 3 {
        '3'
    } else if d == 4 {
        '4'
    } else if d == 5 {
        '5'
    } else if d == 6 {
        '6'
    } else if d == 7 {
        '7'
    } else if d == 8 {
        '8'
    } else {
        '9'
    }
}

/// The decimal rendering of a non-negative integer, without leading
/// zeroes.
pub open spec fn dec_str(n: int) -> Seq<char>
    recommends
        0 <= n,
    decreases n,
{
    if n < 10 {
        seq![dec_digit(n)]
    } else {
        dec_str(n / 10).push(dec_digit(n % 10))
    }
}

/// The string of one decimal digit.
fn digit_str(d: u8) -> (r: &'static str)
    requires
        d < 10,
    ensures
        r@ == seq![dec_digit(d as int)],
{
    proof {
        reveal_strlit("0");
        reveal_strlit("1");
        reveal_strlit("2");
        reveal_strlit("3");
        reveal_strlit("4");
        reveal_strlit("5");
        reveal_strlit("6");
        reveal_strlit("7");
        reveal_strlit("8");
        reveal_strlit("9");
    }
    let r: &'static str = match d {
        0 => "0",
        1 => "1",
        2 => "2",
        3 => "3",
        4 => "4",
        5 => "5",
        6 => "6",
        7 => "7",
        8 => "8",
        _ => "9",
    };
    proof {
        assert(r@ =~= seq![dec_digit(d as int)]);
    }
    r
}

/// Renders a non-negative machine integer in decimal.
pub fn u64_to_string(n: u64) -> (r: String)
    ensures
        r@ == dec_str(n as int),
    decreases n,
{
    if n < 10 {
        let r = String::from_str(digit_str(n as u8));
        r
    } else {
        let mut r = u64_to_string(n / 10);
        r.append(digit_str((n % 10) as u8));
        proof {
            assert(r@ =~= dec_str(n as int));
        }
        r
    }
}

/// A decimal rendering of a value in `[1_000_000, 10_000_000)` has
/// exactly seven digits.
proof fn lemma_dec_str_len_7(n: int)
    requires
        1_000_000 <= n < 10_000_000,
    ensures
        dec_str(n).len() == 7,
{
    let n1 = n / 10;
    let n2 = n1 / 10;
    let n3 = n2 / 10;
    let n4 = n3 / 10;
    let n5 = n4 / 10;
    let n6 = n5 / 10;
    assert(100_000 <= n1 < 1_000_000);
    assert(10_000 <= n2 < 100_000);
    assert(1_000 <= n3 < 10_000);
    assert(100 <= n4 < 1_000);
    assert(10 <= n5 < 100);
    assert(1 <= n6 < 10);
    assert(dec_str(n6).len() == 1);
    assert(dec_str(n5).len() == 2);
    assert(dec_str(n4).len() == 3);
    assert(dec_str(n3).len() == 4);
    assert(dec_str(n2).len() == 5);
    assert(dec_str(n1).len() == 6);
    assert(dec_str(n).len() == 7);
}

/// The fixed-point rendering of a micro-unit value: an optional minus
/// sign, the integer part, a point, and exactly six fraction digits.
pub open spec fn micro_str(v: int) -> Seq<char> {
    let sign: Seq<char> = if v < 0 {
        seq!['-']
    } else {
        Seq::<char>::empty()
    };
    let m = if v < 0 {
        -v
    } else {
        v
    };
    sign + dec_str(m / 1_000_000) + seq!['.'] + dec_str(m % 1_000_000 + 1_000_000).skip(1)
}

/// Renders a micro-unit value as a fixed-point decimal with six fraction
/// digits.
pub fn micro_to_string(v: i64) -> (r: String)
    requires
        i64::MIN < v,
    ensures
        r@ == micro_str(v as int),
{
    let m: u64 = if v < 0 {
        (-v) as u64
    } else {
        v as u64
    };
    let mut out = if v < 0 {
        let s = String::from_str("-");
        proof {
            reveal_strlit("-");
            assert(s@ =~= seq!['-']);
        }
        s
    } else {
        String::new()
    };
    let int_part = u64_to_string(m / 1_000_000);
    out.append(int_part.as_str());
    let dot = ".";
    proof {
        reveal_strlit(".");
        assert(dot@ =~= seq!['.']);
    }
    out.append(dot);
    let frac = u64_to_string(m % 1_000_000 + 1_000_000);
    proof {
        lemma_dec_str_len_7(m as int % 1_000_000 + 1_000_000);
    }
    let frac_digits = frac.as_str().substring_char(1, 7);
    out.append(frac_digits);
    proof {
        assert(frac@.subrange(1, 7) =~= frac@.skip(1));
        assert(out@ =~= micro_str(v as int));
    }
    out
}

/// The character of one lowercase hexadecimal digit.
pub open spec fn hex_digit(d: int) -> char
    recommends
        0 <= d < 16,
{
    if d < 10 {
        dec_digit(d)
    } else if d == 10 {
        'a'
    } else if d == 11 {
        'b'
    } else if d == 12 {
        'c'
    } else if d == 13 {
        'd'
    } else if d == 14 {
        'e'
    } else {
        'f'
    }
}

/// The value of one lowercase hexadecimal digit.
pub open spec fn hex_val(c: char) -> Option<int> {
    if c == '0' {
        Some(0int)
    } else if c == '1' {
        Some(1int)
    } else if c == '2' {
        Some(2int)
    } else if c == '3' {
        Some(3int)
    } else if c == '4' {
        Some(4int)
    } else if c == '5' {
        Some(5int)
    } else if c == '6' {
        Some(6int)
    } else if c == '7' {
        Some(7int)
    } else if c == '8' {
        Some(8int)
    } else if c == '9' {
        Some(9int)
    } else if c == 'a' {
        Some(10int)
    } else if c == 'b' {
        Some(11int)
    } else if c == 'c' {
        Some(12int)
    } else if c == 'd' {
        Some(13int)
    } else if c == 'e' {
        Some(14int)
    } else if c == 'f' {
        Some(15int)
    } else {
        None
    }
}

/// Reading a rendered hexadecimal digit back gives its value.
pub proof fn lemma_hex_val_digit(d: int)
    requires
        0 <= d < 16,
    ensures
        hex_val(hex_digit(d)) == Some(d),
{
}

/// The string of one lowercase hexadecimal digit.
fn hex_digit_str(d: u8) -> (r: &'static str)
    requires
        d < 16,
    ensures
        r@ == seq![hex_digit(d as int)],
{
    if d < 10 {
        digit_str(d)
    } else {
        proof {
            reveal_strlit("a");
            reveal_strlit("b");
            reveal_strlit("c");
            reveal_strlit("d");
            reveal_strlit("e");
            reveal_strlit("f");
        }
        let r: &'static str = match d {
            10 => "a",
            11 => "b",
            12 => "c",
            13 => "d",
            14 => "e",
            _ => "f",
        };
        proof {
            assert(r@ =~= seq![hex_digit(d as int)]);
        }
        r
    }
}

/// The value of one lowercase hexadecimal digit character.
pub fn hex_val_of(c: char) -> (r: Option<u8>)
    ensures
        match r {
            Some(v) => hex_val(c) == Some(v as int),
            None => hex_val(c) is None,
        },
{
    match c {
        '0' => Some(0),
        '1' => Some(1),
        '2' => Some(2),
        '3' => Some(3),
        '4' => Some(4),
        '5' => Some(5),
        '6' => Some(6),
        '7' => Some(7),
        '8' => Some(8),
        '9' => Some(9),
        'a' => Some(10),
        'b' => Some(11),
        'c' => Some(12),
        'd' => Some(13),
        'e' => Some(14),
        'f' => Some(15),
        _ => None,
    }
}

/// How one character appears inside a quoted JSON string: quotes and
/// backslashes take a leading backslash, control characters become a
/// four-digit unicode escape, any other character stands as it is.
pub open spec fn esc_char(c: char) -> Seq<char> {
    if c == '"' || c == '\\' {
        seq!['\\', c]
    } else if (c as u32) < 32 {
        seq![
            '\\',
            'u',
            '0',
            '0',
            hex_digit((c as u32) as int / 16),
            hex_digit((c as u32) as int % 16),
        ]
    } else {
        seq![c]
    }
}

/// Relies on `String::push`: appends exactly the given character.
#[verifier::external_body]
pub(crate) fn push_char(out: &mut String, c: char)
    ensures
        final(out)@ == old(out)@ + seq![c],
{
    out.push(c);
}

/// The escaped form of a whole string.
pub open spec fn escape_str(s: Seq<char>) -> Seq<char>
    decreases s.len(),
{
    if s.len() == 0 {
        Seq::<char>::empty()
    } else {
        esc_char(s[0]) + escape_str(s.skip(1))
    }
}

/// Escaping one more character extends the escaped form at its end.
pub proof fn lemma_escape_push(s: Seq<char>, c: char)
    ensures
        escape_str(s.push(c)) == escape_str(s) + esc_char(c),
    decreases s.len(),
{
    if s.len() == 0 {
        assert(s.push(c).skip(1) =~= Seq::<char>::empty());
        assert(s.push(c)[0] == c);
        assert(escape_str(s.push(c)) == esc_char(c) + escape_str(Seq::<char>::empty()));
        assert(escape_str(s.push(c)) =~= escape_str(s) + esc_char(c));
    } else {
        assert(s.push(c).skip(1) =~= s.skip(1).push(c));
        lemma_escape_push(s.skip(1), c);
        assert(s.push(c)[0] == s[0]);
        assert(escape_str(s.push(c)) == esc_char(s[0]) + escape_str(s.skip(1).push(c)));
        assert(escape_str(s.push(c)) == esc_char(s[0]) + (escape_str(s.skip(1)) + esc_char(c)));
        assert(esc_char(s[0]) + (escape_str(s.skip(1)) + esc_char(c)) =~= (esc_char(s[0])
            + escape_str(s.skip(1))) + esc_char(c));
        assert(escape_str(s.push(c)) =~= escape_str(s) + esc_char(c));
    }
}

/// Appends the escaped form of `s` to `out`.
pub fn append_escaped(out: &mut String, s: &str)
    ensures
        final(out)@ == old(out)@ + escape_str(s@),
{
    let len = s.unicode_len();
    let mut i: usize = 0;
    while i < len
        invariant
            len == s@.len(),
            0 <= i <= len,
            out@ == old(out)@ + escape_str(s@.take(i as int)),
        decreases len - i,
    {
        let c = s.get_char(i);
        if c == '"' || c == '\\' {
            let bs = "\\";
            proof {
                reveal_strlit("\\");
                assert(bs@ =~= seq!['\\']);
            }
            out.append(bs);
            let piece = s.substring_char(i, i + 1);
            out.append(piece);
            proof {
                assert(piece@ =~= seq![c]);
                assert(out@ =~= old(out)@ + escape_str(s@.take(i as int)) + esc_char(c));
            }
        } else if (c as u32) < 32 {
            let v = c as u32;
            let pre = "\\u00";
            proof {
                reveal_strlit("\\u00");
                assert(pre@ =~= seq!['\\', 'u', '0', '0']);
            }
            out.append(pre);
            out.append(hex_digit_str((v / 16) as u8));
            out.append(hex_digit_str((v % 16) as u8));
            proof {
                assert(out@ =~= old(out)@ + escape_str(s@.take(i as int)) + esc_char(c));
            }
        } else {
            let piece = s.substring_char(i, i + 1);
            out.append(piece);
            proof {
                assert(piece@ =~= seq![c]);
                assert(out@ =~= old(out)@ + escape_str(s@.take(i as int)) + esc_char(c));
            }
        }
        proof {
            assert(s@.take(i + 1) =~= s@.take(i as int).push(c));
            lemma_escape_push(s@.take(i as int), c);
            assert(out@ =~= old(out)@ + escape_str(s@.take(i + 1)));
        }
        i = i + 1;
    }
    proof {
        assert(s@.take(len as int) =~= s@);
    }
}

} // verus!
