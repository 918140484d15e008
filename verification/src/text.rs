//! Pure text transformations: whitespace collapsing for chart descriptions
//! that are not valid JSON, JSON string quoting, query percent-encoding,
//! decimal formatting, and quote stripping.

use vstd::prelude::*;

verus! {

/// Appends one character to a string.
///
/// Relies on `String::push`, which the standard library documents as
/// appending the given `char` to the end of the string.
#[verifier::external_body]
pub(crate) fn push_char(s: &mut String, c: char)
    ensures
        final(s)@ == old(s)@ + seq![c],
{
    s.push(c);
}

/// The whitespace characters that the compaction fallback collapses: the
/// Unicode white-space set, exactly the characters `char::is_whitespace`
/// holds of (newlines and carriage returns included).
pub open spec fn is_ws_char(c: char) -> bool {
    let u = c as u32;
    u == 0x09 || u == 0x0A || u == 0x0B || u == 0x0C || u == 0x0D || u == 0x20 || u == 0x85 || u
        == 0xA0 || u == 0x1680 || (0x2000 <= u && u <= 0x200A) || u == 0x2028 || u == 0x2029 || u
        == 0x202F || u == 0x205F || u == 0x3000
}

fn is_ws(c: char) -> (r: bool)
    ensures
        r == is_ws_char(c),
{
    let u = c as u32;
    u == 0x09 || u == 0x0A || u == 0x0B || u == 0x0C || u == 0x0D || u == 0x20 || u == 0x85 || u
        == 0xA0 || u == 0x1680 || (0x2000 <= u && u <= 0x200A) || u == 0x2028 || u == 0x2029 || u
        == 0x202F || u == 0x205F || u == 0x3000
}

/// One left-to-right pass over `s`: every run of whitespace becomes a single
/// space. `after_break` records whether the previous character was whitespace
/// (or the start of the text), in which case further whitespace is dropped
/// rather than emitting another space.
pub open spec fn collapse_ws(s: Seq<char>, after_break: bool) -> Seq<char>
    decreases s.len(),
{
    if s.len() == 0 {
        Seq::empty()
    } else if is_ws_char(s[0]) {
        if after_break {
            collapse_ws(s.drop_first(), true)
        } else {
            seq![' '] + collapse_ws(s.drop_first(), true)
        }
    } else {
        seq![s[0]] + collapse_ws(s.drop_first(), false)
    }
}

/// Whitespace-collapsed and trimmed form of `s`: runs of whitespace become a
/// single space, and leading and trailing whitespace disappears entirely.
pub open spec fn spec_collapse(s: Seq<char>) -> Seq<char> {
    let t = collapse_ws(s, true);
    if t.len() > 0 && t.last() == ' ' {
        t.drop_last()
    } else {
        t
    }
}

/// Text with its whitespace collapsed: any whitespace character in it is a
/// plain space, and no two spaces stand side by side.
pub open spec fn space_collapsed(t: Seq<char>) -> bool {
    (forall|i: int| 0 <= i < t.len() ==> (is_ws_char(#[trigger] t[i]) ==> t[i] == ' '))
        && (forall|i: int, j: int|
        #![trigger t[i], t[j]]
        0 <= i && j == i + 1 && j < t.len() ==> !(t[i] == ' ' && t[j] == ' '))
}

proof fn lemma_collapse_ws_props(s: Seq<char>, after_break: bool)
    ensures
        collapse_ws(s, after_break).len() <= s.len(),
        space_collapsed(collapse_ws(s, after_break)),
        after_break && collapse_ws(s, after_break).len() > 0 ==> collapse_ws(s, after_break)[0]
            != ' ',
    decreases s.len(),
{
    if s.len() == 0 {
    } else {
        let rest = s.drop_first();
        let r = collapse_ws(s, after_break);
        if is_ws_char(s[0]) {
            lemma_collapse_ws_props(rest, true);
            let t = collapse_ws(rest, true);
            if after_break {
                assert(r == t);
            } else {
                assert(r == seq![' '] + t);
                assert forall|i: int| 0 <= i < r.len() && is_ws_char(r[i]) implies r[i]
                    == ' ' by {
                    if i > 0 {
                        assert(r[i] == t[i - 1]);
                    }
                }
                assert forall|i: int, j: int|
                    0 <= i && j == i + 1 && j < r.len() implies !(r[i] == ' ' && r[j] == ' ') by {
                    if i == 0 {
                        assert(r[j] == t[0]);
                        assert(t[0] != ' ');
                    } else {
                        assert(r[i] == t[i - 1]);
                        assert(r[j] == t[j - 1]);
                    }
                }
            }
        } else {
            lemma_collapse_ws_props(rest, false);
            let t = collapse_ws(rest, false);
            assert(r == seq![s[0]] + t);
            assert(!is_ws_char(s[0]));
            assert(r[0] != ' ');
            assert forall|i: int| 0 <= i < r.len() && is_ws_char(r[i]) implies r[i] == ' ' by {
                if i > 0 {
                    assert(r[i] == t[i - 1]);
                }
            }
            assert forall|i: int, j: int|
                0 <= i && j == i + 1 && j < r.len() implies !(r[i] == ' ' && r[j] == ' ') by {
                if i > 0 {
                    assert(r[i] == t[i - 1]);
                    assert(r[j] == t[j - 1]);
                }
            }
        }
    }
}

/// Collapsing leaves text that is no longer than the input, whose only
/// whitespace is single plain spaces with no two side by side.
pub proof fn lemma_spec_collapse_props(s: Seq<char>)
    ensures
        spec_collapse(s).len() <= s.len(),
        space_collapsed(spec_collapse(s)),
{
    lemma_collapse_ws_props(s, true);
    let t = collapse_ws(s, true);
    let r = spec_collapse(s);
    if t.len() > 0 && t.last() == ' ' {
        assert(r == t.drop_last());
        assert forall|i: int| 0 <= i < r.len() && is_ws_char(r[i]) implies r[i] == ' ' by {
            assert(r[i] == t[i]);
        }
        assert forall|i: int, j: int|
            0 <= i && j == i + 1 && j < r.len() implies !(r[i] == ' ' && r[j] == ' ') by {
            assert(r[i] == t[i]);
            assert(r[j] == t[j]);
        }
    }
}

/// Collapses every run of whitespace in `s` to a single ASCII space and trims
/// leading and trailing whitespace, leaving all other characters unchanged.
pub fn collapse_whitespace(s: &str) -> (r: String)
    ensures
        r@ == spec_collapse(s@),
{
    let n = s.unicode_len();
    let mut out = String::new();
    let mut pending = false;
    let mut started = false;
    let mut i: usize = 0;
    proof {
        assert(s@.skip(0) =~= s@);
        assert(out@ + Seq::<char>::empty() + collapse_ws(s@, true) =~= collapse_ws(s@, true));
    }
    while i < n
        invariant
            i <= n,
            n == s@.len(),
            pending ==> started,
            started <==> out@.len() > 0,
            out@.len() > 0 ==> !is_ws_char(out@.last()),
            collapse_ws(s@, true) == out@ + (if pending {
                seq![' ']
            } else {
                Seq::<char>::empty()
            }) + collapse_ws(s@.skip(i as int), pending || !started),
        decreases n - i,
    {
        let c = s.get_char(i);
        proof {
            let rest = s@.skip(i as int);
            assert(rest[0] == s@[i as int]);
            assert(rest.drop_first() =~= s@.skip(i as int + 1));
        }
        if is_ws(c) {
            if started {
                pending = true;
            }
        } else {
            if pending {
                push_char(&mut out, ' ');
                pending = false;
            }
            push_char(&mut out, c);
            started = true;
        }
        i = i + 1;
        proof {
            assert(out@ + (if pending {
                seq![' ']
            } else {
                Seq::<char>::empty()
            }) + collapse_ws(s@.skip(i as int), pending || !started) =~= collapse_ws(s@, true));
        }
    }
    proof {
        assert(s@.skip(n as int) =~= Seq::<char>::empty());
        if pending {
            assert(collapse_ws(s@, true) =~= out@ + seq![' ']);
            assert(collapse_ws(s@, true).drop_last() =~= out@);
        } else {
            assert(collapse_ws(s@, true) =~= out@);
        }
    }
    out
}

/// Lower-case hexadecimal digit for `d` (used inside JSON `\u00..` escapes).
pub open spec fn hex_lower(d: u8) -> char
    recommends
        d < 16,
{
    if d < 10 {
        (((48 + d) as u8) as char)
    } else {
        (((87 + d) as u8) as char)
    }
}

/// Upper-case hexadecimal digit for `d` (used in `%XX` percent escapes).
pub open spec fn hex_upper(d: u8) -> char
    recommends
        d < 16,
{
    if d < 10 {
        (((48 + d) as u8) as char)
    } else {
        (((55 + d) as u8) as char)
    }
}

/// How one character appears inside a JSON string literal: quote and
/// backslash gain a backslash, control characters become their short escape
/// or a `\u00..` escape, and every other character stands as itself.
pub open spec fn escape_char(c: char) -> Seq<char> {
    if c == '"' {
        seq!['\\', '"']
    } else if c == '\\' {
        seq!['\\', '\\']
    } else if c == '\u{8}' {
        seq!['\\', 'b']
    } else if c == '\t' {
        seq!['\\', 't']
    } else if c == '\n' {
        seq!['\\', 'n']
    } else if c == '\u{c}' {
        seq!['\\', 'f']
    } else if c == '\r' {
        seq!['\\', 'r']
    } else if (c as u32) < 0x20 {
        seq!['\\', 'u', '0', '0', hex_lower((c as u32 / 16) as u8), hex_lower((c as u32 % 16) as u8)]
    } else {
        seq![c]
    }
}

pub open spec fn escape_all(s: Seq<char>) -> Seq<char>
    decreases s.len(),
{
    if s.len() == 0 {
        Seq::empty()
    } else {
        escape_all(s.drop_last()) + escape_char(s.last())
    }
}

/// `s` as a JSON string literal: surrounding double quotes, every character
/// escaped as JSON requires.
pub open spec fn spec_json_quote(s: Seq<char>) -> Seq<char> {
    seq!['"'] + escape_all(s) + seq!['"']
}

fn hex_lower_digit(d: u8) -> (r: char)
    requires
        d < 16,
    ensures
        r == hex_lower(d),
{
    if d < 10 {
        (48 + d) as char
    } else {
        (87 + d) as char
    }
}

fn hex_upper_digit(d: u8) -> (r: char)
    requires
        d < 16,
    ensures
        r == hex_upper(d),
{
    if d < 10 {
        (48 + d) as char
    } else {
        (55 + d) as char
    }
}

fn push_escaped(out: &mut String, c: char)
    ensures
        final(out)@ == old(out)@ + escape_char(c),
{
    if c == '"' {
        push_char(out, '\\');
        push_char(out, '"');
    } else if c == '\\' {
        push_char(out, '\\');
        push_char(out, '\\');
    } else if c == '\u{8}' {
        push_char(out, '\\');
        push_char(out, 'b');
    } else if c == '\t' {
        push_char(out, '\\');
        push_char(out, 't');
    } else if c == '\n' {
        push_char(out, '\\');
        push_char(out, 'n');
    } else if c == '\u{c}' {
        push_char(out, '\\');
        push_char(out, 'f');
    } else if c == '\r' {
        push_char(out, '\\');
        push_char(out, 'r');
    } else if (c as u32) < 0x20 {
        let u = c as u32;
        push_char(out, '\\');
        push_char(out, 'u');
        push_char(out, '0');
        push_char(out, '0');
        push_char(out, hex_lower_digit((u / 16) as u8));
        push_char(out, hex_lower_digit((u % 16) as u8));
    } else {
        push_char(out, c);
    }
    proof {
        assert(final(out)@ =~= old(out)@ + escape_char(c));
    }
}

/// Wraps `s` in double quotes and escapes it as a JSON string literal.
pub fn json_quote(s: &str) -> (r: String)
    ensures
        r@ == spec_json_quote(s@),
{
    let n = s.unicode_len();
    let mut out = String::new();
    push_char(&mut out, '"');
    let mut i: usize = 0;
    proof {
        assert(s@.take(0) =~= Seq::<char>::empty());
        assert(out@ =~= seq!['"'] + escape_all(s@.take(0)));
    }
    while i < n
        invariant
            i <= n,
            n == s@.len(),
            out@ == seq!['"'] + escape_all(s@.take(i as int)),
        decreases n - i,
    {
        let c = s.get_char(i);
        push_escaped(&mut out, c);
        i = i + 1;
        proof {
            let t = s@.take(i as int);
            assert(t.drop_last() =~= s@.take(i as int - 1));
            assert(t.last() == s@[i as int - 1]);
            assert(out@ =~= seq!['"'] + escape_all(t));
        }
    }
    push_char(&mut out, '"');
    proof {
        assert(s@.take(n as int) =~= s@);
        assert(out@ =~= spec_json_quote(s@));
    }
    out
}

/// Characters a query value may carry unescaped: ASCII letters, digits,
/// `-`, `.`, `_` and `~`. Everything else is percent-encoded.
pub open spec fn is_url_safe(c: char) -> bool {
    let u = c as u32;
    (48 <= u && u <= 57) || (65 <= u && u <= 90) || (97 <= u && u <= 122) || u == 45 || u == 46
        || u == 95 || u == 126
}

/// The three characters `%XX` that stand for one byte.
pub open spec fn pct_byte(b: u8) -> Seq<char> {
    seq!['%', hex_upper(b / 16), hex_upper(b % 16)]
}

pub open spec fn pct_bytes(bs: Seq<u8>) -> Seq<char>
    decreases bs.len(),
{
    if bs.len() == 0 {
        Seq::empty()
    } else {
        pct_bytes(bs.drop_last()) + pct_byte(bs.last())
    }
}

/// How one character appears in a query value: itself when safe, otherwise
/// each byte of its UTF-8 encoding as a `%XX` escape.
pub open spec fn pct_char(c: char) -> Seq<char> {
    if is_url_safe(c) {
        seq![c]
    } else {
        pct_bytes(vstd::utf8::encode_scalar(c as u32))
    }
}

/// Percent-encoded form of a whole query value.
pub open spec fn pct_all(s: Seq<char>) -> Seq<char>
    decreases s.len(),
{
    if s.len() == 0 {
        Seq::empty()
    } else {
        pct_all(s.drop_last()) + pct_char(s.last())
    }
}

fn push_pct_byte(out: &mut String, b: u8)
    ensures
        final(out)@ == old(out)@ + pct_byte(b),
{
    push_char(out, '%');
    push_char(out, hex_upper_digit(b / 16));
    push_char(out, hex_upper_digit(b % 16));
    proof {
        assert(final(out)@ =~= old(out)@ + pct_byte(b));
    }
}

fn push_pct_char(out: &mut String, c: char)
    ensures
        final(out)@ == old(out)@ + pct_char(c),
{
    let u = c as u32;
    proof {
        vstd::utf8::char_is_scalar(c);
    }
    let safe = (48 <= u && u <= 57) || (65 <= u && u <= 90) || (97 <= u && u <= 122) || u == 45
        || u == 46 || u == 95 || u == 126;
    if safe {
        push_char(out, c);
        proof {
            assert(final(out)@ =~= old(out)@ + pct_char(c));
        }
    } else if u < 0x80 {
        assert((u & 0x7F) < 256) by (bit_vector);
        let b1: u8 = (u & 0x7F) as u8;
        push_pct_byte(out, b1);
        proof {
            reveal_with_fuel(pct_bytes, 5);
            let bs = vstd::utf8::encode_scalar(u);
            assert(bs =~= seq![b1]);
            assert(seq![b1].drop_last() =~= Seq::<u8>::empty());
            assert(pct_bytes(seq![b1]) =~= pct_byte(b1));
            assert(final(out)@ =~= old(out)@ + pct_char(c));
        }
    } else if u < 0x800 {
        assert(((u >> 6) & 0x1F) < 256 && (u & 0x3F) < 256) by (bit_vector);
        let b1: u8 = 0xC0 | ((u >> 6) & 0x1F) as u8;
        let b2: u8 = 0x80 | (u & 0x3F) as u8;
        push_pct_byte(out, b1);
        push_pct_byte(out, b2);
        proof {
            reveal_with_fuel(pct_bytes, 5);
            let bs = vstd::utf8::encode_scalar(u);
            assert(bs =~= seq![b1, b2]);
            assert(seq![b1, b2].drop_last() =~= seq![b1]);
            assert(seq![b1].drop_last() =~= Seq::<u8>::empty());
            assert(pct_bytes(seq![b1]) =~= pct_byte(b1));
            assert(pct_bytes(seq![b1, b2]) =~= pct_byte(b1) + pct_byte(b2));
            assert(final(out)@ =~= old(out)@ + pct_char(c));
        }
    } else if u < 0x10000 {
        assert(((u >> 12) & 0x0F) < 256 && ((u >> 6) & 0x3F) < 256 && (u & 0x3F) < 256)
            by (bit_vector);
        let b1: u8 = 0xE0 | ((u >> 12) & 0x0F) as u8;
        let b2: u8 = 0x80 | ((u >> 6) & 0x3F) as u8;
        let b3: u8 = 0x80 | (u & 0x3F) as u8;
        push_pct_byte(out, b1);
        push_pct_byte(out, b2);
        push_pct_byte(out, b3);
        proof {
            reveal_with_fuel(pct_bytes, 5);
            let bs = vstd::utf8::encode_scalar(u);
            assert(bs =~= seq![b1, b2, b3]);
            assert(bs.drop_last() =~= seq![b1, b2]);
            assert(seq![b1, b2].drop_last() =~= seq![b1]);
            assert(seq![b1].drop_last() =~= Seq::<u8>::empty());
            assert(final(out)@ =~= old(out)@ + pct_char(c));
        }
    } else {
        assert(((u >> 18) & 0x7) < 256 && ((u >> 12) & 0x3F) < 256 && ((u >> 6) & 0x3F) < 256 && (
        u & 0x3F) < 256) by (bit_vector);
        let b1: u8 = 0xF0 | ((u >> 18) & 0x7) as u8;
        let b2: u8 = 0x80 | ((u >> 12) & 0x3F) as u8;
        let b3: u8 = 0x80 | ((u >> 6) & 0x3F) as u8;
        let b4: u8 = 0x80 | (u & 0x3F) as u8;
        push_pct_byte(out, b1);
        push_pct_byte(out, b2);
        push_pct_byte(out, b3);
        push_pct_byte(out, b4);
        proof {
            reveal_with_fuel(pct_bytes, 5);
            let bs = vstd::utf8::encode_scalar(u);
            assert(bs =~= seq![b1, b2, b3, b4]);
            assert(bs.drop_last() =~= seq![b1, b2, b3]);
            assert(seq![b1, b2, b3].drop_last() =~= seq![b1, b2]);
            assert(seq![b1, b2].drop_last() =~= seq![b1]);
            assert(seq![b1].drop_last() =~= Seq::<u8>::empty());
            assert(final(out)@ =~= old(out)@ + pct_char(c));
        }
    }
}

/// Percent-encodes `s` for use as a query-parameter value.
pub fn pct_encode(s: &str) -> (r: String)
    ensures
        r@ == pct_all(s@),
{
    let n = s.unicode_len();
    let mut out = String::new();
    let mut i: usize = 0;
    proof {
        assert(s@.take(0) =~= Seq::<char>::empty());
        assert(out@ =~= pct_all(s@.take(0)));
    }
    while i < n
        invariant
            i <= n,
            n == s@.len(),
            out@ == pct_all(s@.take(i as int)),
        decreases n - i,
    {
        let c = s.get_char(i);
        push_pct_char(&mut out, c);
        i = i + 1;
        proof {
            let t = s@.take(i as int);
            assert(t.drop_last() =~= s@.take(i as int - 1));
            assert(t.last() == s@[i as int - 1]);
            assert(out@ =~= pct_all(t));
        }
    }
    proof {
        assert(s@.take(n as int) =~= s@);
    }
    out
}

/// The decimal digit character for `d`.
pub open spec fn dec_digit(d: nat) -> char
    recommends
        d < 10,
{
    (((48 + d) as u8) as char)
}

/// The decimal numeral of `n`, most significant digit first, no sign and no
/// leading zero (`0` itself is the single digit `0`).
pub open spec fn dec_str(n: nat) -> Seq<char>
    decreases n,
{
    if n < 10 {
        seq![dec_digit(n)]
    } else {
        dec_str(n / 10) + seq![dec_digit(n % 10)]
    }
}

/// Formats `n` in decimal.
pub fn u64_to_dec(n: u64) -> (r: String)
    ensures
        r@ == dec_str(n as nat),
{
    let mut digits: Vec<char> = Vec::new();
    let mut m = n;
    if m == 0 {
        let mut out = String::new();
        push_char(&mut out, '0');
        proof {
            assert(out@ =~= dec_str(0));
        }
        return out;
    }
    while m > 0
        invariant
            m > 0 ==> dec_str(n as nat) == dec_str(m as nat) + digits@.reverse(),
            m == 0 ==> dec_str(n as nat) == digits@.reverse(),
        decreases m,
    {
        let d = (m % 10) as u8;
        let c = (48 + d) as char;
        let ghost olddigits = digits@;
        digits.push(c);
        proof {
            assert(digits@.reverse() =~= seq![c] + olddigits.reverse());
        }
        m = m / 10;
        proof {
            if m > 0 {
                assert(dec_str((m * 10 + d) as nat) == dec_str(m as nat) + seq![dec_digit(
                    d as nat,
                )]);
                assert(dec_str(n as nat) =~= dec_str(m as nat) + digits@.reverse());
            } else {
                assert(dec_str(n as nat) =~= digits@.reverse());
            }
        }
    }
    let mut out = String::new();
    let len = digits.len();
    let mut k: usize = 0;
    while k < len
        invariant
            k <= len,
            len == digits@.len(),
            out@.len() == k,
            forall|j: int| 0 <= j < k ==> out@[j] == digits@[len - 1 - j],
        decreases len - k,
    {
        let c = digits[len - 1 - k];
        push_char(&mut out, c);
        k = k + 1;
    }
    proof {
        assert(out@ =~= digits@.reverse());
    }
    out
}

/// True of the two quote characters the short-URL shim strips.
pub open spec fn is_quote_char(c: char) -> bool {
    c == '"' || c == '\''
}

/// `s` with at most one leading and one trailing quote character (double or
/// single) removed.
pub open spec fn spec_strip_quotes(s: Seq<char>) -> Seq<char> {
    let t = if s.len() > 0 && is_quote_char(s[0]) {
        s.drop_first()
    } else {
        s
    };
    if t.len() > 0 && is_quote_char(t.last()) {
        t.drop_last()
    } else {
        t
    }
}

/// Removes one layer of leading and trailing quote characters, if present.
pub fn strip_quotes(s: &str) -> (r: String)
    ensures
        r@ == spec_strip_quotes(s@),
{
    let n = s.unicode_len();
    let start: usize = if n > 0 {
        let c = s.get_char(0);
        if c == '"' || c == '\'' {
            1
        } else {
            0
        }
    } else {
        0
    };
    let end: usize = if n > start {
        let c = s.get_char(n - 1);
        if c == '"' || c == '\'' {
            n - 1
        } else {
            n
        }
    } else {
        n
    };
    let r = s.substring_char(start, end).to_owned();
    proof {
        assert(r@ =~= spec_strip_quotes(s@));
    }
    r
}

} // verus!
