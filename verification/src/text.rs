use vstd::prelude::*;

verus! {

// ---------------------------------------------------------------------------
// White space and trimming
// ---------------------------------------------------------------------------

/// The Unicode `White_Space` property, the set of characters that
/// `char::is_whitespace` and `str::trim` treat as blank.
pub open spec fn is_white_space(c: char) -> bool {
    let u = c as u32;
    ||| 0x09 <= u && u <= 0x0D
    ||| u == 0x20
    ||| u == 0x85
    ||| u == 0xA0
    ||| u == 0x1680
    ||| 0x2000 <= u && u <= 0x200A
    ||| u == 0x2028
    ||| u == 0x2029
    ||| u == 0x202F
    ||| u == 0x205F
    ||| u == 0x3000
}

/// `s` without its leading white space.
pub open spec fn trim_start_spec(s: Seq<char>) -> Seq<char>
    decreases s.len(),
{
    if s.len() > 0 && is_white_space(s[0]) {
        trim_start_spec(s.drop_first())
    } else {
        s
    }
}

/// `s` without its trailing white space.
pub open spec fn trim_end_spec(s: Seq<char>) -> Seq<char>
    decreases s.len(),
{
    if s.len() > 0 && is_white_space(s.last()) {
        trim_end_spec(s.drop_last())
    } else {
        s
    }
}

/// `s` without leading and trailing white space, as `str::trim` gives it.
pub open spec fn trim_spec(s: Seq<char>) -> Seq<char> {
    trim_end_spec(trim_start_spec(s))
}

/// Whether `c` is a Unicode white-space character.
pub fn is_whitespace(c: char) -> (r: bool)
    ensures
        r == is_white_space(c),
{
    let u = c as u32;
    (0x09 <= u && u <= 0x0D) || u == 0x20 || u == 0x85 || u == 0xA0 || u == 0x1680 || (0x2000
        <= u && u <= 0x200A) || u == 0x2028 || u == 0x2029 || u == 0x202F || u == 0x205F || u
        == 0x3000
}

/// The slice of `s` between its leading and its trailing white space.
pub fn trim(s: &str) -> (r: &str)
    ensures
        r@ == trim_spec(s@),
{
    let n = s.unicode_len();
    let mut i: usize = 0;
    assert(s@.subrange(0, n as int) =~= s@);
    loop
        invariant
            n == s@.len(),
            i <= n,
            trim_start_spec(s@) == trim_start_spec(s@.subrange(i as int, n as int)),
        ensures
            i <= n,
            trim_start_spec(s@) == s@.subrange(i as int, n as int),
        decreases n - i,
    {
        if i == n {
            assert(s@.subrange(i as int, n as int).len() == 0);
            break;
        }
        let c = s.get_char(i);
        if !is_whitespace(c) {
            break;
        }
        assert(s@.subrange(i as int, n as int).drop_first() =~= s@.subrange(i + 1, n as int));
        i = i + 1;
    }
    let mut j: usize = n;
    loop
        invariant
            n == s@.len(),
            i <= j <= n,
            trim_end_spec(s@.subrange(i as int, n as int)) == trim_end_spec(
                s@.subrange(i as int, j as int),
            ),
        ensures
            i <= j <= n,
            trim_end_spec(s@.subrange(i as int, n as int)) == s@.subrange(i as int, j as int),
        decreases j,
    {
        if j == i {
            assert(s@.subrange(i as int, j as int).len() == 0);
            break;
        }
        let c = s.get_char(j - 1);
        if !is_whitespace(c) {
            break;
        }
        assert(s@.subrange(i as int, j as int).drop_last() =~= s@.subrange(i as int, j - 1));
        j = j - 1;
    }
    s.substring_char(i, j)
}

/// After `trim_end_spec`, what is left is a prefix of the input.
pub proof fn lemma_trim_end_prefix(s: Seq<char>)
    ensures
        trim_end_spec(s).len() <= s.len(),
        trim_end_spec(s) == s.subrange(0, trim_end_spec(s).len() as int),
    decreases s.len(),
{
    if s.len() > 0 && is_white_space(s.last()) {
        lemma_trim_end_prefix(s.drop_last());
        assert(s.drop_last().subrange(0, trim_end_spec(s).len() as int) =~= s.subrange(
            0,
            trim_end_spec(s).len() as int,
        ));
    } else {
        assert(s =~= s.subrange(0, s.len() as int));
    }
}

/// What `trim_end_spec` leaves does not end in white space.
pub proof fn lemma_trim_end_last(s: Seq<char>)
    ensures
        trim_end_spec(s).len() == 0 || !is_white_space(trim_end_spec(s).last()),
    decreases s.len(),
{
    if s.len() > 0 && is_white_space(s.last()) {
        lemma_trim_end_last(s.drop_last());
    }
}

/// What `trim_start_spec` leaves does not start with white space.
pub proof fn lemma_trim_start_first(s: Seq<char>)
    ensures
        trim_start_spec(s).len() == 0 || !is_white_space(trim_start_spec(s)[0]),
    decreases s.len(),
{
    if s.len() > 0 && is_white_space(s[0]) {
        lemma_trim_start_first(s.drop_first());
    }
}

/// A trimmed text neither starts nor ends with white space.
pub proof fn lemma_trim_has_no_outer_space(s: Seq<char>)
    ensures
        trim_spec(s).len() == 0 || (!is_white_space(trim_spec(s)[0]) && !is_white_space(
            trim_spec(s).last(),
        )),
{
    let t = trim_start_spec(s);
    lemma_trim_start_first(s);
    lemma_trim_end_prefix(t);
    lemma_trim_end_last(t);
    if trim_spec(s).len() > 0 {
        assert(trim_spec(s)[0] == t[0]);
    }
}

/// Trimming twice gives what trimming once gives.
pub proof fn lemma_trim_idempotent(s: Seq<char>)
    ensures
        trim_spec(trim_spec(s)) == trim_spec(s),
{
    let u = trim_spec(s);
    lemma_trim_has_no_outer_space(s);
    assert(trim_start_spec(u) == u);
    assert(trim_end_spec(u) == u);
}

// ---------------------------------------------------------------------------
// ASCII case-insensitive comparison
// ---------------------------------------------------------------------------

/// The code of `c` after ASCII lower-casing: `A`..`Z` become `a`..`z`,
/// every other character is left as it is.
pub open spec fn ascii_lower_code(c: char) -> u32 {
    let u = c as u32;
    if 0x41 <= u && u <= 0x5A {
        (u + 0x20) as u32
    } else {
        u
    }
}

/// Two texts match when they have the same length and agree character by
/// character after ASCII lower-casing (`str::eq_ignore_ascii_case`).
pub open spec fn eq_ignore_ascii_case_spec(a: Seq<char>, b: Seq<char>) -> bool {
    &&& a.len() == b.len()
    &&& forall|i: int| 0 <= i < a.len() ==> ascii_lower_code(#[trigger] a[i]) == ascii_lower_code(b[i])
}

/// ASCII case-insensitive equality of two texts.
pub fn eq_ignore_ascii_case(a: &str, b: &str) -> (r: bool)
    ensures
        r == eq_ignore_ascii_case_spec(a@, b@),
{
    let n = a.unicode_len();
    let m = b.unicode_len();
    if n != m {
        return false;
    }
    let mut i: usize = 0;
    while i < n
        invariant
            n == a@.len(),
            n == b@.len(),
            i <= n,
            forall|k: int| 0 <= k < i ==> ascii_lower_code(#[trigger] a@[k]) == ascii_lower_code(b@[k]),
        decreases n - i,
    {
        let x = a.get_char(i) as u32;
        let y = b.get_char(i) as u32;
        let lx: u32 = if 0x41 <= x && x <= 0x5A { x + 0x20 } else { x };
        let ly: u32 = if 0x41 <= y && y <= 0x5A { y + 0x20 } else { y };
        if lx != ly {
            assert(ascii_lower_code(a@[i as int]) != ascii_lower_code(b@[i as int]));
            return false;
        }
        i = i + 1;
    }
    true
}

/// ASCII case-insensitive equality is symmetric.
pub proof fn lemma_eq_ignore_ascii_case_symmetric(a: Seq<char>, b: Seq<char>)
    ensures
        eq_ignore_ascii_case_spec(a, b) == eq_ignore_ascii_case_spec(b, a),
{
}

/// Every text matches itself, ignoring ASCII case.
pub proof fn lemma_eq_ignore_ascii_case_reflexive(a: Seq<char>)
    ensures
        eq_ignore_ascii_case_spec(a, a),
{
}

// ---------------------------------------------------------------------------
// String building
// ---------------------------------------------------------------------------

/// `String::push`: the string afterwards is the old one with `c` appended.
#[verifier::external_body]
pub(crate) fn push_char(s: &mut String, c: char)
    ensures
        final(s)@ == old(s)@.push(c),
{
    s.push(c);
}

// ---------------------------------------------------------------------------
// JSON string escaping
// ---------------------------------------------------------------------------

/// The lower-case hexadecimal digit for `d` (taken modulo sixteen).
pub open spec fn hex_digit_char(d: nat) -> char {
    let d = d % 16;
    if d < 10 {
        digit_char(d)
    } else if d == 10 {
        'a'
    } else if d == 11 {
        'b'
    } else if d == 12 {
        'c'
    } else if d == 13 {
        'd'
    } else if d == 14 {
        'e'
    } else {
        'f'
    }
}

/// The decimal digit for `d` (taken modulo ten).
pub open spec fn digit_char(d: nat) -> char {
    let d = d % 10;
    if d == 0 {
        '0'
    } else if d == 1 {
        '1'
    } else if d == 2 {
        '2'
    } else if d == 3 {
        '3'
    } else if d == 4 {
        '4'
    } else if d == 5 {
        '5'
    } else if d == 6 {
        '6'
    } else if d == 7 {
        '7'
    } else if d == 8 {
        '8'
    } else {
        '9'
    }
}

/// The decimal digit character for `d`.
pub fn digit(d: u64) -> (c: char)
    requires
        d < 10,
    ensures
        c == digit_char(d as nat),
{
    if d == 0 {
        '0'
    } else if d == 1 {
        '1'
    } else if d == 2 {
        '2'
    } else if d == 3 {
        '3'
    } else if d == 4 {
        '4'
    } else if d == 5 {
        '5'
    } else if d == 6 {
        '6'
    } else if d == 7 {
        '7'
    } else if d == 8 {
        '8'
    } else {
        '9'
    }
}

/// The value of a hexadecimal digit (either case); zero for anything else.
pub open spec fn hex_value(c: char) -> nat {
    let u = c as u32;
    if 0x30 <= u && u <= 0x39 {
        (u - 0x30) as nat
    } else if 0x61 <= u && u <= 0x66 {
        (u - 0x61 + 10) as nat
    } else if 0x41 <= u && u <= 0x46 {
        (u - 0x41 + 10) as nat
    } else {
        0
    }
}

/// Whether `c` is a control character, which JSON does not allow raw
/// inside a string literal (U+0000 to U+001F).
pub open spec fn is_json_control(c: char) -> bool {
    (c as u32) < 0x20
}

/// How one character of a value is written inside a JSON string literal:
/// a backslash and a double quote get a backslash in front, line feed,
/// carriage return and tab become `\n`, `\r`, `\t`, any other control
/// character becomes `\u00XX`, and every other character stands as it is.
pub open spec fn escape_char_spec(c: char) -> Seq<char> {
    if c == '\\' {
        seq!['\\', '\\']
    } else if c == '"' {
        seq!['\\', '"']
    } else if c == '\n' {
        seq!['\\', 'n']
    } else if c == '\r' {
        seq!['\\', 'r']
    } else if c == '\t' {
        seq!['\\', 't']
    } else if is_json_control(c) {
        seq![
            '\\',
            'u',
            '0',
            '0',
            hex_digit_char(((c as u32) / 16) as nat),
            hex_digit_char(((c as u32) % 16) as nat),
        ]
    } else {
        seq![c]
    }
}

/// Each character of `s` escaped in turn.
pub open spec fn escape_spec(s: Seq<char>) -> Seq<char>
    decreases s.len(),
{
    if s.len() == 0 {
        Seq::empty()
    } else {
        escape_char_spec(s[0]) + escape_spec(s.drop_first())
    }
}

/// Reading the inside of a JSON string literal back: `\n`, `\r`, `\t` and
/// `\uXXXX` stand for the characters they name, and a backslash before any
/// other character stands for that character.
pub open spec fn unescape_spec(s: Seq<char>) -> Seq<char>
    decreases s.len(),
{
    if s.len() == 0 {
        Seq::empty()
    } else if s[0] == '\\' && s.len() >= 2 {
        if s[1] == 'n' {
            seq!['\n'] + unescape_spec(s.subrange(2, s.len() as int))
        } else if s[1] == 'r' {
            seq!['\r'] + unescape_spec(s.subrange(2, s.len() as int))
        } else if s[1] == 't' {
            seq!['\t'] + unescape_spec(s.subrange(2, s.len() as int))
        } else if s[1] == 'u' && s.len() >= 6 {
            seq![
                ((hex_value(s[2]) * 4096 + hex_value(s[3]) * 256 + hex_value(s[4]) * 16
                    + hex_value(s[5])) as u32) as char,
            ] + unescape_spec(s.subrange(6, s.len() as int))
        } else {
            seq![s[1]] + unescape_spec(s.subrange(2, s.len() as int))
        }
    } else {
        seq![s[0]] + unescape_spec(s.drop_first())
    }
}

/// Escaping distributes over concatenation.
pub proof fn lemma_escape_append(a: Seq<char>, b: Seq<char>)
    ensures
        escape_spec(a + b) == escape_spec(a) + escape_spec(b),
    decreases a.len(),
{
    if a.len() == 0 {
        assert(a + b =~= b);
    } else {
        lemma_escape_append(a.drop_first(), b);
        assert((a + b).drop_first() =~= a.drop_first() + b);
        assert((a + b)[0] == a[0]);
    }
}

/// Escaping a single character.
pub proof fn lemma_escape_single(c: char)
    ensures
        escape_spec(seq![c]) == escape_char_spec(c),
{
    assert(seq![c].drop_first() =~= Seq::<char>::empty());
    assert(escape_spec(seq![c].drop_first()) == Seq::<char>::empty());
    assert(escape_char_spec(c) + Seq::<char>::empty() =~= escape_char_spec(c));
}

/// A hexadecimal digit reads back as its value.
proof fn lemma_hex_digit_value(d: nat)
    requires
        d < 16,
    ensures
        hex_value(hex_digit_char(d)) == d,
{
}

/// A control character written as `\u00XX` reads back as itself.
proof fn lemma_control_reads_back(c: char)
    requires
        is_json_control(c),
    ensures
        ((hex_value('0') * 4096 + hex_value('0') * 256 + hex_value(
            hex_digit_char(((c as u32) / 16) as nat),
        ) * 16 + hex_value(hex_digit_char(((c as u32) % 16) as nat))) as u32) as char == c,
{
    let u = c as u32;
    lemma_hex_digit_value((u / 16) as nat);
    lemma_hex_digit_value((u % 16) as nat);
    assert((u / 16) * 16 + u % 16 == u);
    vstd::utf8::char_u32_cast(c, u);
}

/// Reading back an escaped text gives the original text.
pub proof fn lemma_unescape_escape(s: Seq<char>)
    ensures
        unescape_spec(escape_spec(s)) == s,
    decreases s.len(),
{
    if s.len() > 0 {
        let c = s[0];
        let rest = escape_spec(s.drop_first());
        lemma_unescape_escape(s.drop_first());
        let e = escape_spec(s);
        let k = escape_char_spec(c).len();
        assert(e == escape_char_spec(c) + rest);
        assert(e.subrange(k as int, e.len() as int) =~= rest);
        if c == '\\' || c == '"' || c == '\n' || c == '\r' || c == '\t' {
        } else if is_json_control(c) {
            lemma_control_reads_back(c);
        } else {
            assert(e.drop_first() =~= rest);
        }
        assert(s =~= seq![s[0]] + s.drop_first());
    }
}

/// Whether `c` is a hexadecimal digit.
pub open spec fn is_hex_digit(c: char) -> bool {
    let u = c as u32;
    (0x30 <= u && u <= 0x39) || (0x61 <= u && u <= 0x66) || (0x41 <= u && u <= 0x46)
}

/// Whether `s` may stand between the quotes of a JSON string literal: no
/// raw double quote or control character, and every backslash starts one
/// of JSON's escapes (`\"`, `\\`, `\/`, `\b`, `\f`, `\n`, `\r`, `\t`, or
/// `\u` and four hexadecimal digits).
pub open spec fn is_json_string_body(s: Seq<char>) -> bool
    decreases s.len(),
{
    if s.len() == 0 {
        true
    } else if s[0] == '\\' {
        if s.len() < 2 {
            false
        } else if s[1] == 'u' {
            s.len() >= 6 && is_hex_digit(s[2]) && is_hex_digit(s[3]) && is_hex_digit(s[4])
                && is_hex_digit(s[5]) && is_json_string_body(s.subrange(6, s.len() as int))
        } else {
            (s[1] == '"' || s[1] == '\\' || s[1] == '/' || s[1] == 'b' || s[1] == 'f' || s[1]
                == 'n' || s[1] == 'r' || s[1] == 't') && is_json_string_body(
                s.subrange(2, s.len() as int),
            )
        }
    } else {
        s[0] != '"' && !is_json_control(s[0]) && is_json_string_body(s.drop_first())
    }
}

/// An escaped text is a valid JSON string body: every double quote in it
/// is escaped, and so is every control character.
pub proof fn lemma_escape_is_json_string_body(s: Seq<char>)
    ensures
        is_json_string_body(escape_spec(s)),
    decreases s.len(),
{
    if s.len() > 0 {
        lemma_escape_is_json_string_body(s.drop_first());
        let c = s[0];
        let head = escape_char_spec(c);
        let rest = escape_spec(s.drop_first());
        let e = escape_spec(s);
        assert(e == head + rest);
        assert(e.subrange(head.len() as int, e.len() as int) =~= rest);
        if c == '\\' || c == '"' || c == '\n' || c == '\r' || c == '\t' {
        } else if is_json_control(c) {
            let u = c as u32;
            assert(is_hex_digit(hex_digit_char((u / 16) as nat)));
            assert(is_hex_digit(hex_digit_char((u % 16) as nat)));
        } else {
            assert(e.drop_first() =~= rest);
        }
    }
}

/// An escaped text holds no control character, so it never breaks a line.
pub proof fn lemma_escape_no_control(s: Seq<char>)
    ensures
        forall|i: int| 0 <= i < escape_spec(s).len() ==> !is_json_control(#[trigger] escape_spec(s)[i]),
    decreases s.len(),
{
    if s.len() > 0 {
        lemma_escape_no_control(s.drop_first());
        let c = s[0];
        let head = escape_char_spec(c);
        let rest = escape_spec(s.drop_first());
        assert(escape_spec(s) == head + rest);
        assert forall|i: int| 0 <= i < escape_spec(s).len() implies !is_json_control(
            #[trigger] escape_spec(s)[i],
        ) by {
            if i >= head.len() {
                assert(escape_spec(s)[i] == rest[i - head.len()]);
            } else if is_json_control(c) && !(c == '\n' || c == '\r' || c == '\t') && i >= 4 {
                let d = if i == 4 { (c as u32) / 16 } else { (c as u32) % 16 };
                assert(hex_digit_char(d as nat) as u32 >= 0x30);
            }
        }
    }
}

fn hex_char(d: u32) -> (c: char)
    requires
        d < 16,
    ensures
        c == hex_digit_char(d as nat),
{
    if d < 10 {
        digit(d as u64)
    } else if d == 10 {
        'a'
    } else if d == 11 {
        'b'
    } else if d == 12 {
        'c'
    } else if d == 13 {
        'd'
    } else if d == 14 {
        'e'
    } else {
        'f'
    }
}

/// `s` written for the inside of a JSON string literal: backslash and
/// double quote escaped, line feed, carriage return and tab as `\n`, `\r`,
/// `\t`, other control characters as `\u00XX`.
pub fn escape_json(s: &str) -> (r: String)
    ensures
        r@ == escape_spec(s@),
{
    let n = s.unicode_len();
    let mut out = String::new();
    let mut i: usize = 0;
    while i < n
        invariant
            n == s@.len(),
            i <= n,
            out@ == escape_spec(s@.take(i as int)),
        decreases n - i,
    {
        let c = s.get_char(i);
        proof {
            assert(s@.take(i + 1) =~= s@.take(i as int) + seq![c]);
            lemma_escape_append(s@.take(i as int), seq![c]);
            lemma_escape_single(c);
        }
        let u = c as u32;
        if c == '\\' {
            push_char(&mut out, '\\');
            push_char(&mut out, '\\');
        } else if c == '"' {
            push_char(&mut out, '\\');
            push_char(&mut out, '"');
        } else if c == '\n' {
            push_char(&mut out, '\\');
            push_char(&mut out, 'n');
        } else if c == '\r' {
            push_char(&mut out, '\\');
            push_char(&mut out, 'r');
        } else if c == '\t' {
            push_char(&mut out, '\\');
            push_char(&mut out, 't');
        } else if u < 0x20 {
            push_char(&mut out, '\\');
            push_char(&mut out, 'u');
            push_char(&mut out, '0');
            push_char(&mut out, '0');
            push_char(&mut out, hex_char(u / 16));
            push_char(&mut out, hex_char(u % 16));
        } else {
            push_char(&mut out, c);
        }
        assert(out@ =~= escape_spec(s@.take(i + 1)));
        i = i + 1;
    }
    assert(s@.take(n as int) =~= s@);
    out
}


// ---------------------------------------------------------------------------
// Equality and prefixes
// ---------------------------------------------------------------------------

/// Whether two texts hold the same characters.
pub fn str_equal(a: &str, b: &str) -> (r: bool)
    ensures
        r == (a@ == b@),
{
    let n = a.unicode_len();
    if n != b.unicode_len() {
        return false;
    }
    let mut i: usize = 0;
    while i < n
        invariant
            n == a@.len(),
            n == b@.len(),
            i <= n,
            forall|k: int| 0 <= k < i ==> a@[k] == b@[k],
        decreases n - i,
    {
        if a.get_char(i) != b.get_char(i) {
            return false;
        }
        i = i + 1;
    }
    assert(a@ =~= b@);
    true
}

/// `s` without the prefix `p`, where `s` starts with `p`
/// (`str::strip_prefix`).
pub open spec fn strip_prefix_spec(s: Seq<char>, p: Seq<char>) -> Option<Seq<char>> {
    if p.len() <= s.len() && s.subrange(0, p.len() as int) == p {
        Some(s.subrange(p.len() as int, s.len() as int))
    } else {
        None
    }
}

/// The rest of `s` after the prefix `p`, or `None` where `s` does not start
/// with `p`.
pub fn strip_prefix<'a>(s: &'a str, p: &str) -> (r: Option<&'a str>)
    ensures
        match r {
            Some(t) => strip_prefix_spec(s@, p@) == Some(t@),
            None => strip_prefix_spec(s@, p@) is None,
        },
{
    let n = s.unicode_len();
    let m = p.unicode_len();
    if m > n {
        return None;
    }
    let mut i: usize = 0;
    while i < m
        invariant
            n == s@.len(),
            m == p@.len(),
            m <= n,
            i <= m,
            forall|k: int| 0 <= k < i ==> s@[k] == p@[k],
        decreases m - i,
    {
        if s.get_char(i) != p.get_char(i) {
            assert(s@.subrange(0, m as int)[i as int] != p@[i as int]);
            return None;
        }
        i = i + 1;
    }
    assert(s@.subrange(0, m as int) =~= p@);
    Some(s.substring_char(m, n))
}

// ---------------------------------------------------------------------------
// Unsigned integers
// ---------------------------------------------------------------------------

/// Whether `c` is one of `0`..`9`.
pub open spec fn is_ascii_digit(c: char) -> bool {
    0x30 <= (c as u32) && (c as u32) <= 0x39
}

/// The number that a run of decimal digits stands for.
pub open spec fn digits_value(s: Seq<char>) -> nat
    decreases s.len(),
{
    if s.len() == 0 {
        0
    } else {
        digits_value(s.drop_last()) * 10 + ((s.last() as u32) - 0x30) as nat
    }
}

/// The digits of an unsigned number: the text without one leading `+`.
pub open spec fn unsigned_digits(s: Seq<char>) -> Seq<char> {
    if s.len() > 0 && s[0] == '+' {
        s.drop_first()
    } else {
        s
    }
}

/// What `str::parse::<u64>` gives: an optional `+`, then one or more
/// decimal digits whose value fits in 64 bits; anything else fails.
pub open spec fn parse_u64_spec(s: Seq<char>) -> Option<u64> {
    let d = unsigned_digits(s);
    if d.len() > 0 && (forall|i: int| 0 <= i < d.len() ==> is_ascii_digit(#[trigger] d[i]))
        && digits_value(d) <= u64::MAX {
        Some(digits_value(d) as u64)
    } else {
        None
    }
}

/// A prefix of a run of digits stands for no larger a number.
pub proof fn lemma_digits_value_prefix(s: Seq<char>, i: int)
    requires
        0 <= i <= s.len(),
        forall|k: int| 0 <= k < s.len() ==> is_ascii_digit(#[trigger] s[k]),
    ensures
        digits_value(s.take(i)) <= digits_value(s),
    decreases s.len() - i,
{
    if i < s.len() {
        lemma_digits_value_prefix(s, i + 1);
        assert(s.take(i + 1).drop_last() =~= s.take(i));
    } else {
        assert(s.take(i) =~= s);
    }
}

/// Reads an unsigned 64-bit number in decimal, as `str::parse::<u64>` does.
pub fn parse_u64(s: &str) -> (r: Option<u64>)
    ensures
        r == parse_u64_spec(s@),
{
    let n = s.unicode_len();
    let start: usize = if n > 0 && s.get_char(0) == '+' {
        1
    } else {
        0
    };
    let ghost d = unsigned_digits(s@);
    assert(d =~= s@.subrange(start as int, n as int));
    if start == n {
        assert(d.len() == 0);
        return None;
    }
    let mut i: usize = start;
    while i < n
        invariant
            n == s@.len(),
            start <= i <= n,
            d == s@.subrange(start as int, n as int),
            d == unsigned_digits(s@),
            forall|k: int| 0 <= k < i - start ==> is_ascii_digit(#[trigger] d[k]),
        decreases n - i,
    {
        let c = s.get_char(i);
        let u = c as u32;
        if u < 0x30 || u > 0x39 {
            assert(!is_ascii_digit(d[i - start]));
            return None;
        }
        i = i + 1;
    }
    let mut acc: u64 = 0;
    i = start;
    while i < n
        invariant
            n == s@.len(),
            start <= i <= n,
            d == s@.subrange(start as int, n as int),
            d == unsigned_digits(s@),
            forall|k: int| 0 <= k < d.len() ==> is_ascii_digit(#[trigger] d[k]),
            acc == digits_value(d.take(i - start)),
        decreases n - i,
    {
        let c = s.get_char(i);
        assert(d[i - start] == c);
        assert(is_ascii_digit(d[i - start]));
        let dg: u64 = (c as u32 - 0x30) as u64;
        assert(d.take(i - start + 1).drop_last() =~= d.take(i - start));
        assert(d.take(i - start + 1).last() == c);
        assert(digits_value(d.take(i - start + 1)) == acc * 10 + dg);
        match acc.checked_mul(10) {
            Some(t) => match t.checked_add(dg) {
                Some(v) => {
                    acc = v;
                },
                None => {
                    proof {
                        lemma_digits_value_prefix(d, i - start + 1);
                    }
                    return None;
                },
            },
            None => {
                proof {
                    lemma_digits_value_prefix(d, i - start + 1);
                }
                return None;
            },
        }
        i = i + 1;
    }
    assert(d.take(n - start) =~= d);
    Some(acc)
}


// ---------------------------------------------------------------------------
// Initials
// ---------------------------------------------------------------------------

/// The first character of the upper-case form of `c`, as
/// `char::to_uppercase` gives it by the Unicode case tables.
pub uninterp spec fn upper_first(c: char) -> char;

/// `char::to_uppercase`, first character: the result is `upper_first(c)`.
/// Of the Unicode tables only the ASCII rows are stated: `a`..`z` become
/// `A`..`Z` and other ASCII characters stay as they are.
#[verifier::external_body]
fn to_upper_first(c: char) -> (r: char)
    ensures
        r == upper_first(c),
        0x61 <= (c as u32) <= 0x7A ==> r as u32 == (c as u32) - 0x20,
        (c as u32) < 0x80 && !(0x61 <= (c as u32) <= 0x7A) ==> r == c,
{
    match c.to_uppercase().next() {
        Some(u) => u,
        None => c,
    }
}

/// The letter shown in a person's avatar: the first character of the
/// trimmed name, upper-cased, or `?` for a blank name.
pub open spec fn avatar_initial_spec(name: Seq<char>) -> char {
    let t = trim_spec(name);
    if t.len() == 0 {
        '?'
    } else {
        upper_first(t[0])
    }
}

/// The letter shown in the avatar of `name`.
pub fn avatar_initial(name: &str) -> (c: char)
    ensures
        c == avatar_initial_spec(name@),
{
    let t = trim(name);
    if t.unicode_len() == 0 {
        '?'
    } else {
        to_upper_first(t.get_char(0))
    }
}

} // verus!
