//! Verified text helpers: whitespace trimming, ASCII case mapping, decimal
//! rendering of counters, and the short-field sanitizer used for status
//! lines.
//!
//! Strings are modeled as their character sequences, so lengths and
//! truncation counts are in characters.

use vstd::prelude::*;

verus! {

/// The characters with the Unicode white-space property.
pub open spec fn is_space(c: char) -> bool {
    let u = c as u32;
    (9 <= u && u <= 13) || u == 32 || u == 0x85 || u == 0xA0 || u == 0x1680 || (0x2000 <= u && u
        <= 0x200A) || u == 0x2028 || u == 0x2029 || u == 0x202F || u == 0x205F || u == 0x3000
}

/// Whether one character is white space.
pub fn char_is_space(c: char) -> (b: bool)
    ensures
        b == is_space(c),
{
    let u = c as u32;
    (9 <= u && u <= 13) || u == 32 || u == 0x85 || u == 0xA0 || u == 0x1680 || (0x2000 <= u && u
        <= 0x200A) || u == 0x2028 || u == 0x2029 || u == 0x202F || u == 0x205F || u == 0x3000
}

/// The sequence with its leading white space removed.
pub open spec fn trim_front(s: Seq<char>) -> Seq<char>
    decreases s.len(),
{
    if s.len() > 0 && is_space(s[0]) {
        trim_front(s.drop_first())
    } else {
        s
    }
}

/// The sequence with its trailing white space removed.
pub open spec fn trim_back(s: Seq<char>) -> Seq<char>
    decreases s.len(),
{
    if s.len() > 0 && is_space(s.last()) {
        trim_back(s.drop_last())
    } else {
        s
    }
}

/// The sequence with leading and trailing white space removed.
pub open spec fn trimmed(s: Seq<char>) -> Seq<char> {
    trim_back(trim_front(s))
}

/// Dropping an all-space prefix does not change the front-trimmed sequence.
proof fn lemma_trim_front_skip(s: Seq<char>, i: int)
    requires
        0 <= i <= s.len(),
        forall|j: int| 0 <= j < i ==> is_space(s[j]),
    ensures
        trim_front(s) == trim_front(s.skip(i)),
    decreases i,
{
    if i > 0 {
        assert(s.drop_first() =~= s.skip(1));
        lemma_trim_front_skip(s.skip(1), i - 1);
        assert(s.skip(1).skip(i - 1) =~= s.skip(i));
    } else {
        assert(s.skip(0) =~= s);
    }
}

/// Dropping an all-space suffix does not change the back-trimmed sequence.
proof fn lemma_trim_back_take(s: Seq<char>, k: int)
    requires
        0 <= k <= s.len(),
        forall|j: int| k <= j < s.len() ==> is_space(s[j]),
    ensures
        trim_back(s) == trim_back(s.take(k)),
    decreases s.len() - k,
{
    if k < s.len() {
        assert(is_space(s.last()));
        assert(s.drop_last() =~= s.take(s.len() - 1));
        lemma_trim_back_take(s.take(s.len() - 1), k);
        assert(s.take(s.len() - 1).take(k) =~= s.take(k));
    } else {
        assert(s.take(s.len() as int) =~= s);
    }
}

/// The slice with leading and trailing white space removed.
pub fn trim_str<'a>(s: &'a str) -> (t: &'a str)
    ensures
        t@ == trimmed(s@),
{
    let n = s.unicode_len();
    let mut start: usize = 0;
    while start < n && char_is_space(s.get_char(start))
        invariant
            n == s@.len(),
            start <= n,
            forall|j: int| 0 <= j < start ==> is_space(s@[j]),
        decreases n - start,
    {
        start = start + 1;
    }
    if start == n {
        proof {
            lemma_trim_front_skip(s@, n as int);
            assert(s@.skip(n as int) =~= Seq::<char>::empty());
            reveal_strlit("");
            assert(""@ =~= Seq::<char>::empty());
        }
        ""
    } else {
        let mut end: usize = n;
        while char_is_space(s.get_char(end - 1))
            invariant
                n == s@.len(),
                start < end <= n,
                !is_space(s@[start as int]),
                forall|j: int| end <= j < n ==> is_space(s@[j]),
            decreases end,
        {
            end = end - 1;
        }
        let t = s.substring_char(start, end);
        proof {
            lemma_trim_front_skip(s@, start as int);
            let u = s@.skip(start as int);
            assert(trim_front(u) == u);
            lemma_trim_back_take(u, end - start);
            assert(u.take(end - start) =~= s@.subrange(start as int, end as int));
            let v = s@.subrange(start as int, end as int);
            assert(!is_space(v.last()));
            assert(trim_back(v) == v);
        }
        t
    }
}

/// The upper-case form of an ASCII lower-case letter; anything else is kept.
pub open spec fn upper_char(c: char) -> char {
    let u = c as u32;
    if 97 <= u && u <= 122 {
        ((u - 32) as u8) as char
    } else {
        c
    }
}

/// The lower-case form of an ASCII upper-case letter; anything else is kept.
pub open spec fn lower_char(c: char) -> char {
    let u = c as u32;
    if 65 <= u && u <= 90 {
        ((u + 32) as u8) as char
    } else {
        c
    }
}

/// The sequence with its ASCII letters upper-cased.
pub open spec fn to_upper(s: Seq<char>) -> Seq<char> {
    s.map_values(|c: char| upper_char(c))
}

/// The sequence with its ASCII letters lower-cased.
pub open spec fn to_lower(s: Seq<char>) -> Seq<char> {
    s.map_values(|c: char| lower_char(c))
}

/// The upper-case letter matching an ASCII lower-case letter, as a slice.
fn upper_char_str(c: char) -> (r: &'static str)
    requires
        97 <= c as u32 && c as u32 <= 122,
    ensures
        r@ == seq![upper_char(c)],
{
    proof {
        reveal_strlit("A");
        reveal_strlit("B");
        reveal_strlit("C");
        reveal_strlit("D");
        reveal_strlit("E");
        reveal_strlit("F");
        reveal_strlit("G");
        reveal_strlit("H");
        reveal_strlit("I");
        reveal_strlit("J");
        reveal_strlit("K");
        reveal_strlit("L");
        reveal_strlit("M");
        reveal_strlit("N");
        reveal_strlit("O");
        reveal_strlit("P");
        reveal_strlit("Q");
        reveal_strlit("R");
        reveal_strlit("S");
        reveal_strlit("T");
        reveal_strlit("U");
        reveal_strlit("V");
        reveal_strlit("W");
        reveal_strlit("X");
        reveal_strlit("Y");
        reveal_strlit("Z");
    }
    match c {
        'a' => "A",
        'b' => "B",
        'c' => "C",
        'd' => "D",
        'e' => "E",
        'f' => "F",
        'g' => "G",
        'h' => "H",
        'i' => "I",
        'j' => "J",
        'k' => "K",
        'l' => "L",
        'm' => "M",
        'n' => "N",
        'o' => "O",
        'p' => "P",
        'q' => "Q",
        'r' => "R",
        's' => "S",
        't' => "T",
        'u' => "U",
        'v' => "V",
        'w' => "W",
        'x' => "X",
        'y' => "Y",
        _ => "Z",
    }
}

/// The lower-case letter matching an ASCII upper-case letter, as a slice.
fn lower_char_str(c: char) -> (r: &'static str)
    requires
        65 <= c as u32 && c as u32 <= 90,
    ensures
        r@ == seq![lower_char(c)],
{
    proof {
        reveal_strlit("a");
        reveal_strlit("b");
        reveal_strlit("c");
        reveal_strlit("d");
        reveal_strlit("e");
        reveal_strlit("f");
        reveal_strlit("g");
        reveal_strlit("h");
        reveal_strlit("i");
        reveal_strlit("j");
        reveal_strlit("k");
        reveal_strlit("l");
        reveal_strlit("m");
        reveal_strlit("n");
        reveal_strlit("o");
        reveal_strlit("p");
        reveal_strlit("q");
        reveal_strlit("r");
        reveal_strlit("s");
        reveal_strlit("t");
        reveal_strlit("u");
        reveal_strlit("v");
        reveal_strlit("w");
        reveal_strlit("x");
        reveal_strlit("y");
        reveal_strlit("z");
    }
    match c {
        'A' => "a",
        'B' => "b",
        'C' => "c",
        'D' => "d",
        'E' => "e",
        'F' => "f",
        'G' => "g",
        'H' => "h",
        'I' => "i",
        'J' => "j",
        'K' => "k",
        'L' => "l",
        'M' => "m",
        'N' => "n",
        'O' => "o",
        'P' => "p",
        'Q' => "q",
        'R' => "r",
        'S' => "s",
        'T' => "t",
        'U' => "u",
        'V' => "v",
        'W' => "w",
        'X' => "x",
        'Y' => "y",
        _ => "z",
    }
}

/// The string with its ASCII letters upper-cased; other characters are kept.
pub fn ascii_uppercase(s: &str) -> (r: String)
    ensures
        r@ == to_upper(s@),
{
    let n = s.unicode_len();
    let mut r = String::new();
    let mut i: usize = 0;
    while i < n
        invariant
            n == s@.len(),
            i <= n,
            r@ == to_upper(s@.take(i as int)),
        decreases n - i,
    {
        let c = s.get_char(i);
        let u = c as u32;
        if 97 <= u && u <= 122 {
            r.append(upper_char_str(c));
        } else {
            let piece = s.substring_char(i, i + 1);
            proof {
                assert(piece@ =~= seq![s@[i as int]]);
            }
            r.append(piece);
        }
        proof {
            assert(to_upper(s@.take(i + 1 as int)) =~= to_upper(s@.take(i as int)) + seq![
                upper_char(s@[i as int]),
            ]);
        }
        i = i + 1;
    }
    proof {
        assert(s@.take(n as int) =~= s@);
    }
    r
}

/// The string with its ASCII letters lower-cased; other characters are kept.
pub fn ascii_lowercase(s: &str) -> (r: String)
    ensures
        r@ == to_lower(s@),
{
    let n = s.unicode_len();
    let mut r = String::new();
    let mut i: usize = 0;
    while i < n
        invariant
            n == s@.len(),
            i <= n,
            r@ == to_lower(s@.take(i as int)),
        decreases n - i,
    {
        let c = s.get_char(i);
        let u = c as u32;
        if 65 <= u && u <= 90 {
            r.append(lower_char_str(c));
        } else {
            let piece = s.substring_char(i, i + 1);
            proof {
                assert(piece@ =~= seq![s@[i as int]]);
            }
            r.append(piece);
        }
        proof {
            assert(to_lower(s@.take(i + 1 as int)) =~= to_lower(s@.take(i as int)) + seq![
                lower_char(s@[i as int]),
            ]);
        }
        i = i + 1;
    }
    proof {
        assert(s@.take(n as int) =~= s@);
    }
    r
}

/// The decimal digit character for a value below ten.
pub open spec fn dec_digit(d: int) -> char {
    if d == 0 {
        '0'
    } else if d == 1 {
        '1'
    } else if d == 2 {
        '2'
    } else if d == 3 {
        '3'
    } else if d == 4 {
        '4'
    } else if d == 5 {
        '5'
    } else if d == 6 {
        '6'
    } else if d == 7 {
        '7'
    } else if d == 8 {
        '8'
    } else {
        '9'
    }
}

/// The decimal rendering of a number, most significant digit first, with no
/// leading zero except on zero itself.
pub open spec fn dec_rep(n: nat) -> Seq<char>
    decreases n,
{
    if n < 10 {
        seq![dec_digit(n as int)]
    } else {
        dec_rep(n / 10) + seq![dec_digit((n % 10) as int)]
    }
}

/// The digit character for a value below ten, as a slice.
fn digit_str(d: u64) -> (r: &'static str)
    requires
        d < 10,
    ensures
        r@ == seq![dec_digit(d as int)],
{
    proof {
        reveal_strlit("0");
        reveal_strlit("1");
        reveal_strlit("2");
        reveal_strlit("3");
        reveal_strlit("4");
        reveal_strlit("5");
        reveal_strlit("6");
        reveal_strlit("7");
        reveal_strlit("8");
        reveal_strlit("9");
    }
    match d {
        0 => "0",
        1 => "1",
        2 => "2",
        3 => "3",
        4 => "4",
        5 => "5",
        6 => "6",
        7 => "7",
        8 => "8",
        _ => "9",
    }
}

/// Render a counter in decimal.
pub fn u64_to_dec(n: u64) -> (s: String)
    ensures
        s@ == dec_rep(n as nat),
    decreases n,
{
    if n < 10 {
        String::from_str(digit_str(n))
    } else {
        let front = u64_to_dec(n / 10);
        front.concat(digit_str(n % 10))
    }
}

/// What a short status field sanitizes to: the value (or, when absent, the
/// fallback) is trimmed; an all-space or empty value yields the fallback
/// unshortened, anything else is clipped to the length limit.
pub open spec fn sanitize_spec(value: Option<Seq<char>>, fallback: Seq<char>, max_len: nat) -> Seq<
    char,
> {
    let base = match value {
        Some(v) => v,
        None => fallback,
    };
    let t = trimmed(base);
    if t.len() == 0 {
        fallback
    } else if t.len() > max_len {
        t.take(max_len as int)
    } else {
        t
    }
}

/// Sanitize a short status field: trim it, fall back when it is empty, and
/// clip it to at most `max_len` characters.
pub fn sanitize_short(value: Option<String>, fallback: &str, max_len: usize) -> (r: String)
    ensures
        r@ == sanitize_spec(
            match value {
                Some(v) => Some(v@),
                None => None,
            },
            fallback@,
            max_len as nat,
        ),
{
    let base: &str = match &value {
        Some(v) => v.as_str(),
        None => fallback,
    };
    let t = trim_str(base);
    let tn = t.unicode_len();
    if tn == 0 {
        String::from_str(fallback)
    } else if tn > max_len {
        let clipped = t.substring_char(0, max_len);
        proof {
            assert(clipped@ =~= t@.take(max_len as int));
        }
        String::from_str(clipped)
    } else {
        String::from_str(t)
    }
}

} // verus!
