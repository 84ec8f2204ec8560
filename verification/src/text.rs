//! Character-level utilities shared by the annotation grammar: extracting
//! the characters of a string, rebuilding strings from character ranges,
//! and parsing decimal numerals.

use vstd::prelude::*;

verus! {

/// The characters of `s`, in order.
pub fn str_to_chars(s: &str) -> (r: Vec<char>)
    ensures
        r@ == s@,
{
    let mut r: Vec<char> = Vec::new();
    for c in it: s.chars()
        invariant
            it.seq() == s@,
            r@ == it.seq().take(it.index() as int),
    {
        r.push(c);
    }
    proof {
        assert(r@ =~= s@);
    }
    r
}

/// Relies on `String::push` of std: appends the given character to the end
/// of the string.
#[verifier::external_body]
pub fn push_char(s: &mut String, c: char)
    ensures
        final(s)@ == old(s)@.push(c),
{
    s.push(c);
}

/// The string holding `v[from..to]`.
pub fn string_from_range(v: &Vec<char>, from: usize, to: usize) -> (r: String)
    requires
        from <= to <= v@.len(),
    ensures
        r@ == v@.subrange(from as int, to as int),
{
    let mut r = String::new();
    let mut i: usize = from;
    while i < to
        invariant
            from <= i <= to <= v@.len(),
            r@ == v@.subrange(from as int, i as int),
        decreases to - i,
    {
        push_char(&mut r, v[i]);
        i = i + 1;
        proof {
            assert(r@ =~= v@.subrange(from as int, i as int));
        }
    }
    r
}

/// Whether `c` is a decimal digit.
pub open spec fn spec_is_digit(c: char) -> bool {
    48 <= c as int && c as int <= 57
}

/// The numeric value of the digit `c`.
pub open spec fn digit_val(c: char) -> int {
    c as int - 48
}

/// Whether every character of `s` is a decimal digit.
pub open spec fn all_digits(s: Seq<char>) -> bool {
    forall|i: int| 0 <= i < s.len() ==> spec_is_digit(#[trigger] s[i])
}

/// The value of `s` read as a decimal numeral.
pub open spec fn dec_val(s: Seq<char>) -> int
    decreases s.len(),
{
    if s.len() == 0 {
        0
    } else {
        dec_val(s.drop_last()) * 10 + digit_val(s.last())
    }
}

/// A numeral of digits only is non-negative.
pub proof fn lemma_dec_val_nonneg(s: Seq<char>)
    requires
        all_digits(s),
    ensures
        dec_val(s) >= 0,
    decreases s.len(),
{
    if s.len() > 0 {
        assert(all_digits(s.drop_last()));
        lemma_dec_val_nonneg(s.drop_last());
    }
}

/// The result of reading `s` as an unsigned 16-bit decimal numeral, as
/// std's string-to-integer conversion does: an optional leading `+`, then
/// one or more decimal digits, with the value at most `u16::MAX`.
pub open spec fn spec_parse_u16(s: Seq<char>) -> Option<u16> {
    let body = if s.len() > 0 && s[0] == '+' {
        s.drop_first()
    } else {
        s
    };
    if body.len() > 0 && all_digits(body) && dec_val(body) <= 65535 {
        Some(dec_val(body) as u16)
    } else {
        None
    }
}

/// Reads `s` as an unsigned 16-bit decimal numeral.
pub fn parse_u16(s: &Vec<char>) -> (r: Option<u16>)
    ensures
        r == spec_parse_u16(s@),
{
    let ghost body: Seq<char> = if s@.len() > 0 && s@[0] == '+' {
        s@.drop_first()
    } else {
        s@
    };
    let start: usize = if s.len() > 0 && s[0] == '+' {
        1
    } else {
        0
    };
    proof {
        assert(body =~= s@.subrange(start as int, s@.len() as int));
    }
    if s.len() == start {
        return None;
    }
    // acc tracks the numeral's value exactly while it fits in a status-sized
    // range, and saturates once the value can no longer be a u16.
    let mut acc: u32 = 0;
    let mut i: usize = start;
    while i < s.len()
        invariant
            start <= i <= s@.len(),
            body == s@.subrange(start as int, s@.len() as int),
            body == (if s@.len() > 0 && s@[0] == '+' {
                s@.drop_first()
            } else {
                s@
            }),
            all_digits(s@.subrange(start as int, i as int)),
            acc <= 655359,
            dec_val(s@.subrange(start as int, i as int)) <= 65535 ==> acc == dec_val(
                s@.subrange(start as int, i as int),
            ),
            dec_val(s@.subrange(start as int, i as int)) > 65535 ==> acc > 65535,
        decreases s@.len() - i,
    {
        let c = s[i];
        if !('0' <= c && c <= '9') {
            proof {
                assert(body[i - start] == s@[i as int]);
                assert(!spec_is_digit(body[i - start]));
                assert(!all_digits(body));
            }
            return None;
        }
        let u = c as u32;
        proof {
            assert(u == c as int);
        }
        let ghost pre = s@.subrange(start as int, i as int);
        let ghost post = s@.subrange(start as int, i + 1 as int);
        proof {
            assert(post.drop_last() =~= pre);
            assert(post.last() == s@[i as int]);
            assert forall|k: int| 0 <= k < post.len() implies spec_is_digit(#[trigger] post[k]) by {
                if k < pre.len() {
                    assert(post[k] == pre[k]);
                } else {
                    assert(post[k] == s@[i as int]);
                }
            }
            lemma_dec_val_nonneg(pre);
        }
        if acc <= 65535 {
            acc = acc * 10 + (u - 48);
        }
        i = i + 1;
    }
    proof {
        assert(s@.subrange(start as int, i as int) =~= body);
    }
    if acc <= 65535 {
        Some(acc as u16)
    } else {
        None
    }
}

/// The value of `c` as a hexadecimal digit, if it is one.
pub open spec fn spec_hex_val(c: char) -> Option<int> {
    if 48 <= c as int && c as int <= 57 {
        Some(c as int - 48)
    } else if 97 <= c as int && c as int <= 102 {
        Some(c as int - 87)
    } else if 65 <= c as int && c as int <= 70 {
        Some(c as int - 55)
    } else {
        None
    }
}

/// Whether `v` is a Unicode scalar value, and so names a character.
pub open spec fn spec_valid_scalar(v: int) -> bool {
    0 <= v <= 0x10FFFF && !(0xD800 <= v <= 0xDFFF)
}

/// Reads the rest of a braced escape `\u{...}` from index `i`, where
/// `acc` and `count` are the value and the number of the digits read so
/// far: up to six hexadecimal digits, at least one, then the closing
/// brace.  Yields the value and the index just past the brace.
pub open spec fn spec_braced_hex(s: Seq<char>, i: int, acc: int, count: int) -> Option<(int, int)>
    decreases s.len() - i,
{
    if i < s.len() && s[i] == '}' {
        if count >= 1 {
            Some((acc, i + 1))
        } else {
            None
        }
    } else if i < s.len() && count < 6 {
        match spec_hex_val(s[i]) {
            Some(d) => spec_braced_hex(s, i + 1, acc * 16 + d, count + 1),
            None => None,
        }
    } else {
        None
    }
}

/// A braced escape that reads ends past where it began and within bounds.
pub proof fn lemma_braced_hex_bounds(s: Seq<char>, i: int, acc: int, count: int)
    ensures
        spec_braced_hex(s, i, acc, count) matches Some((v, j)) ==> i < j <= s.len(),
    decreases s.len() - i,
{
    if i < s.len() && s[i] == '}' {
    } else if i < s.len() && count < 6 {
        match spec_hex_val(s[i]) {
            Some(d) => lemma_braced_hex_bounds(s, i + 1, acc * 16 + d, count + 1),
            None => {},
        }
    }
}

/// The character a simple escape stands for: `\n`, `\r`, `\t` and `\0`
/// name control characters; `\\`, `\"` and `\'` name themselves.
pub open spec fn spec_simple_escape(e: char) -> char {
    if e == 'n' {
        '\n'
    } else if e == 'r' {
        '\r'
    } else if e == 't' {
        '\t'
    } else if e == '0' {
        '\0'
    } else {
        e
    }
}

/// The characters that the body of an ordinary string literal stands
/// for, from index `i` on: a character other than a backslash stands for
/// itself, and an escape sequence — `\n`, `\r`, `\t`, `\\`, `\"`, `\'`,
/// `\0`, `\xNN` up to 0x7F, or `\u{...}` naming a scalar value — stands
/// for its character.  A body with a malformed escape, including a
/// backslash before a line break, stands for nothing.
pub open spec fn spec_unescape_from(s: Seq<char>, i: int) -> Option<Seq<char>>
    decreases s.len() - i,
{
    if !(0 <= i < s.len()) {
        Some(Seq::empty())
    } else if s[i] != '\\' {
        match spec_unescape_from(s, i + 1) {
            Some(t) => Some(seq![s[i]] + t),
            None => None,
        }
    } else if i + 1 < s.len() {
        let e = s[i + 1];
        if e == 'n' || e == 'r' || e == 't' || e == '\\' || e == '"' || e == '\'' || e == '0' {
            match spec_unescape_from(s, i + 2) {
                Some(t) => Some(seq![spec_simple_escape(e)] + t),
                None => None,
            }
        } else if e == 'x' {
            if i + 3 < s.len() {
                match (spec_hex_val(s[i + 2]), spec_hex_val(s[i + 3])) {
                    (Some(d1), Some(d2)) => if d1 * 16 + d2 <= 0x7F {
                        match spec_unescape_from(s, i + 4) {
                            Some(t) => Some(seq![((d1 * 16 + d2) as char)] + t),
                            None => None,
                        }
                    } else {
                        None
                    },
                    _ => None,
                }
            } else {
                None
            }
        } else if e == 'u' {
            if i + 2 < s.len() && s[i + 2] == '{' {
                match spec_braced_hex(s, i + 3, 0, 0) {
                    Some((v, j)) => if spec_valid_scalar(v) {
                        proof {
                            lemma_braced_hex_bounds(s, i + 3, 0, 0);
                        }
                        match spec_unescape_from(s, j) {
                            Some(t) => Some(seq![(v as char)] + t),
                            None => None,
                        }
                    } else {
                        None
                    },
                    None => None,
                }
            } else {
                None
            }
        } else {
            None
        }
    } else {
        None
    }
}

/// The number of consecutive `#` characters at or after `i`.
pub open spec fn spec_hash_run(s: Seq<char>, i: int) -> int
    decreases s.len() - i,
{
    if 0 <= i < s.len() && s[i] == '#' {
        1 + spec_hash_run(s, i + 1)
    } else {
        0
    }
}

/// A scan that saw `k` hashes from `i` and then something else has found
/// the whole run.
pub proof fn lemma_hash_run_char(s: Seq<char>, i: int, k: int)
    requires
        0 <= i,
        i + k <= s.len(),
        0 <= k,
        forall|j: int| i <= j < i + k ==> #[trigger] s[j] == '#',
        i + k < s.len() ==> s[i + k] != '#',
    ensures
        spec_hash_run(s, i) == k,
    decreases k,
{
    if k > 0 {
        lemma_hash_run_char(s, i + 1, k - 1);
    }
}

/// What a string-literal token's text stands for: the unescaped body of
/// an ordinary `"..."` literal, or the verbatim body of a raw `r"..."`
/// literal with any number of matching `#` guards.  Text of any other
/// shape is not a string literal and stands for nothing.
pub open spec fn spec_string_lit_content(s: Seq<char>) -> Option<Seq<char>> {
    if s.len() >= 2 && s[0] == '"' && s[s.len() - 1] == '"' {
        spec_unescape_from(s.subrange(1, s.len() - 1), 0)
    } else if s.len() >= 3 && s[0] == 'r' {
        let k = spec_hash_run(s, 1);
        if 1 + k < s.len() && s[1 + k] == '"' && s.len() >= 2 * k + 3 && s[s.len() - 1 - k] == '"'
            && (forall|j: int| s.len() - k <= j < s.len() ==> #[trigger] s[j] == '#') {
            Some(s.subrange(k + 2, s.len() - 1 - k))
        } else {
            None
        }
    } else {
        None
    }
}

/// Relies on `char::from_u32` of std: the character with scalar value
/// `v` when `v` is a Unicode scalar value, and nothing otherwise.
#[verifier::external_body]
pub fn char_from_u32(v: u32) -> (r: Option<char>)
    ensures
        r is Some <==> spec_valid_scalar(v as int),
        r matches Some(c) ==> c as int == v as int,
{
    char::from_u32(v)
}

/// The value of `c` as a hexadecimal digit.
fn hex_val(c: char) -> (r: Option<u32>)
    ensures
        match r {
            Some(d) => spec_hex_val(c) == Some(d as int) && d <= 15,
            None => spec_hex_val(c) is None,
        },
{
    if '0' <= c && c <= '9' {
        Some(c as u32 - 48)
    } else if 'a' <= c && c <= 'f' {
        Some(c as u32 - 87)
    } else if 'A' <= c && c <= 'F' {
        Some(c as u32 - 55)
    } else {
        None
    }
}

/// The characters `v[from..to]`.
fn chars_range(v: &Vec<char>, from: usize, to: usize) -> (r: Vec<char>)
    requires
        from <= to <= v@.len(),
    ensures
        r@ == v@.subrange(from as int, to as int),
{
    let mut r: Vec<char> = Vec::new();
    let mut i: usize = from;
    while i < to
        invariant
            from <= i <= to <= v@.len(),
            r@ == v@.subrange(from as int, i as int),
        decreases to - i,
    {
        r.push(v[i]);
        i = i + 1;
        proof {
            assert(r@ =~= v@.subrange(from as int, i as int));
        }
    }
    r
}

/// Unescapes the body of an ordinary string literal.
fn unescape_chars(s: &Vec<char>) -> (r: Option<String>)
    ensures
        match r {
            Some(c) => spec_unescape_from(s@, 0) == Some(c@),
            None => spec_unescape_from(s@, 0) is None,
        },
{
    let mut out = String::new();
    let mut i: usize = 0;
    loop
        invariant
            i <= s@.len(),
            (match spec_unescape_from(s@, i as int) {
                Some(t) => spec_unescape_from(s@, 0) == Some(out@ + t),
                None => spec_unescape_from(s@, 0) is None,
            }),
        decreases s@.len() - i,
    {
        if i >= s.len() {
            proof {
                assert(out@ + Seq::<char>::empty() =~= out@);
            }
            return Some(out);
        }
        let c = s[i];
        if c != '\\' {
            let ghost pre = out@;
            push_char(&mut out, c);
            i = i + 1;
            proof {
                match spec_unescape_from(s@, i as int) {
                    Some(t) => {
                        assert(out@ + t =~= pre + (seq![c] + t));
                    },
                    None => {},
                }
            }
            continue ;
        }
        if !(s.len() - i > 1) {
            return None;
        }
        let e = s[i + 1];
        if e == 'n' || e == 'r' || e == 't' || e == '\\' || e == '"' || e == '\'' || e == '0' {
            let c2 = if e == 'n' {
                '\n'
            } else if e == 'r' {
                '\r'
            } else if e == 't' {
                '\t'
            } else if e == '0' {
                '\0'
            } else {
                e
            };
            let ghost pre = out@;
            push_char(&mut out, c2);
            i = i + 2;
            proof {
                assert(c2 == spec_simple_escape(e));
                match spec_unescape_from(s@, i as int) {
                    Some(t) => {
                        assert(out@ + t =~= pre + (seq![c2] + t));
                    },
                    None => {},
                }
            }
        } else if e == 'x' {
            if !(s.len() - i > 3) {
                return None;
            }
            let d1 = hex_val(s[i + 2]);
            let d2 = hex_val(s[i + 3]);
            match (d1, d2) {
                (Some(a), Some(b)) => {
                    let v: u32 = a * 16 + b;
                    if v > 0x7F {
                        return None;
                    }
                    let c2 = (v as u8) as char;
                    let ghost pre = out@;
                    push_char(&mut out, c2);
                    i = i + 4;
                    proof {
                        assert(c2 as int == v as int);
                        assert(c2 == ((v as int) as char));
                        match spec_unescape_from(s@, i as int) {
                            Some(t) => {
                                assert(out@ + t =~= pre + (seq![c2] + t));
                            },
                            None => {},
                        }
                    }
                },
                _ => {
                    return None;
                },
            }
        } else if e == 'u' {
            if !(s.len() - i > 2 && s[i + 2] == '{') {
                return None;
            }
            let mut j: usize = i + 3;
            let mut acc: u32 = 0;
            let mut count: usize = 0;
            loop
                invariant_except_break
                    i + 3 <= j <= s@.len(),
                    count <= 6,
                    (count == 0 ==> acc == 0),
                    (count == 1 ==> acc < 0x10),
                    (count == 2 ==> acc < 0x100),
                    (count == 3 ==> acc < 0x1000),
                    (count == 4 ==> acc < 0x10000),
                    (count == 5 ==> acc < 0x100000),
                    (count == 6 ==> acc < 0x1000000),
                    s@[i as int] == '\\',
                    s@[i + 1] == 'u',
                    s@[i + 2] == '{',
                    (match spec_unescape_from(s@, i as int) {
                        Some(t) => spec_unescape_from(s@, 0) == Some(out@ + t),
                        None => spec_unescape_from(s@, 0) is None,
                    }),
                    spec_braced_hex(s@, i + 3, 0, 0) == spec_braced_hex(
                        s@,
                        j as int,
                        acc as int,
                        count as int,
                    ),
                ensures
                    i + 3 <= j <= s@.len(),
                    spec_braced_hex(s@, i + 3, 0, 0) == Some((acc as int, j as int)),
                decreases s@.len() - j,
            {
                if j >= s.len() {
                    return None;
                }
                let ch = s[j];
                if ch == '}' {
                    if count == 0 {
                        return None;
                    }
                    j = j + 1;
                    break ;
                }
                if count >= 6 {
                    return None;
                }
                match hex_val(ch) {
                    Some(d) => {
                        acc = acc * 16 + d;
                        count = count + 1;
                        j = j + 1;
                    },
                    None => {
                        return None;
                    },
                }
            }
            if acc > 0x10FFFF || (0xD800 <= acc && acc <= 0xDFFF) {
                return None;
            }
            let c2 = match char_from_u32(acc) {
                Some(x) => x,
                None => {
                    proof {
                        assert(false);
                    }
                    ' '
                },
            };
            let ghost pre = out@;
            push_char(&mut out, c2);
            i = j;
            proof {
                assert(c2 == ((acc as int) as char));
                match spec_unescape_from(s@, i as int) {
                    Some(t) => {
                        assert(out@ + t =~= pre + (seq![c2] + t));
                    },
                    None => {},
                }
            }
        } else {
            return None;
        }
    }
}

/// What the literal text `s` stands for as a string literal, if it is
/// one.
pub fn string_lit_content(text: &String) -> (r: Option<String>)
    ensures
        match r {
            Some(c) => spec_string_lit_content(text@) == Some(c@),
            None => spec_string_lit_content(text@) is None,
        },
{
    let chars = str_to_chars(text.as_str());
    let n = chars.len();
    if n >= 2 && chars[0] == '"' && chars[n - 1] == '"' {
        let body = chars_range(&chars, 1, n - 1);
        return unescape_chars(&body);
    }
    if !(n >= 3 && chars[0] == 'r') {
        return None;
    }
    // the run of `#` guards after `r`
    let mut k: usize = 1;
    while k < n && chars[k] == '#'
        invariant
            1 <= k <= n,
            n == chars@.len(),
            forall|j: int| 1 <= j < k ==> #[trigger] chars@[j] == '#',
        decreases n - k,
    {
        k = k + 1;
    }
    let k = k - 1;
    proof {
        lemma_hash_run_char(chars@, 1, k as int);
    }
    if !(1 + k < n && chars[1 + k] == '"' && n - k >= 3 && n - k - 3 >= k && chars[n - 1 - k]
        == '"') {
        return None;
    }
    // the closing guards must match the opening ones
    let mut j: usize = n - k;
    while j < n && chars[j] == '#'
        invariant
            n - k <= j <= n,
            n == chars@.len(),
            forall|m: int| n - k <= m < j ==> #[trigger] chars@[m] == '#',
        decreases n - j,
    {
        j = j + 1;
    }
    if j < n {
        return None;
    }
    Some(string_from_range(&chars, k + 2, n - 1 - k))
}

/// Whether `s` and the word `w` hold the same characters.
pub fn is_word(s: &String, w: &str) -> (r: bool)
    ensures
        r == (s@ == w@),
{
    *s == w.to_owned()
}

} // verus!
