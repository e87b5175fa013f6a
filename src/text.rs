use vstd::prelude::*;
use vstd::std_specs::iter::IteratorSpec;

use horrorshow::Template;

verus! {

broadcast use vstd::string::group_string_axioms;

/// Whether `c` has Unicode's White_Space property; this is what
/// `char::is_whitespace` answers.
pub uninterp spec fn white_space(c: char) -> bool;

/// Relies on `char::is_whitespace`: it answers by the character alone.
#[verifier::external_body]
fn is_whitespace(c: char) -> (r: bool)
    ensures
        r == white_space(c),
{
    c.is_whitespace()
}

/// Relies on `String::push`: the character is appended at the end.
#[verifier::external_body]
fn push_char(s: &mut String, c: char)
    ensures
        final(s)@ == old(s)@.push(c),
{
    s.push(c)
}

/// The characters of a string, in order.
pub fn chars_of(s: &str) -> (r: Vec<char>)
    ensures
        r@ == s@,
{
    let mut it = s.chars();
    let mut out: Vec<char> = Vec::new();
    loop
        invariant
            it.remaining() == s@.skip(out.len() as int),
            out@ == s@.take(out.len() as int),
            out.len() <= s@.len(),
        decreases s@.len() - out.len(),
    {
        let ghost before = it.remaining();
        match it.next() {
            Some(c) => {
                assert(s@.take(out.len() + 1) =~= s@.take(out.len() as int).push(c));
                assert(s@.skip(out.len() as int).drop_first() =~= s@.skip(out.len() + 1));
                out.push(c);
            },
            None => {
                assert(out@ =~= s@);
                return out;
            },
        }
    }
}

/// How `text` reads once written into markup: `&`, `"`, `<` and `>` become
/// entities.
pub open spec fn escape_char(c: char) -> Seq<char> {
    if c == '&' {
        "&amp;"@
    } else if c == '"' {
        "&quot;"@
    } else if c == '<' {
        "&lt;"@
    } else if c == '>' {
        "&gt;"@
    } else {
        seq![c]
    }
}

/// Each character of `s` escaped in turn.
pub open spec fn escaped(s: Seq<char>) -> Seq<char>
    decreases s.len(),
{
    if s.len() == 0 {
        seq![]
    } else {
        escaped(s.drop_last()) + escape_char(s.last())
    }
}

/// Relies on horrorshow's `Template::into_string` on a `&str`: the text is
/// written with `&`, `"`, `<` and `>` replaced by entities and every other
/// character kept, and writing into a `String` records no error.
#[verifier::external_body]
pub(crate) fn escape_html(s: &str) -> (r: String)
    ensures
        r@ == escaped(s@),
{
    match s.into_string() {
        Ok(r) => r,
        Err(_) => String::new(),
    }
}

/// `s` without its leading whitespace.
pub open spec fn trim_start(s: Seq<char>) -> Seq<char>
    decreases s.len(),
{
    if s.len() > 0 && white_space(s[0]) {
        trim_start(s.drop_first())
    } else {
        s
    }
}

/// `s` without its trailing whitespace.
pub open spec fn trim_end(s: Seq<char>) -> Seq<char>
    decreases s.len(),
{
    if s.len() > 0 && white_space(s.last()) {
        trim_end(s.drop_last())
    } else {
        s
    }
}

/// `s` without leading and trailing whitespace.
pub open spec fn trimmed(s: Seq<char>) -> Seq<char> {
    trim_end(trim_start(s))
}

/// Whether nothing but whitespace is in `s`.
pub open spec fn blank(s: Seq<char>) -> bool {
    trimmed(s).len() == 0
}

proof fn lemma_trim_end_keeps_first(t: Seq<char>)
    requires
        t.len() > 0,
        !white_space(t[0]),
    ensures
        trim_end(t).len() > 0,
    decreases t.len(),
{
    if white_space(t.last()) {
        assert(t.len() > 1);
        lemma_trim_end_keeps_first(t.drop_last());
    }
}

/// Index of the first character of `cs` from `i` on that is not whitespace.
fn skip_white(cs: &Vec<char>, i: usize) -> (r: usize)
    requires
        i <= cs.len(),
    ensures
        i <= r <= cs.len(),
        trim_start(cs@.skip(i as int)) == cs@.skip(r as int),
        r < cs.len() ==> !white_space(cs@[r as int]),
{
    let mut j = i;
    while j < cs.len() && is_whitespace(cs[j])
        invariant
            i <= j <= cs.len(),
            trim_start(cs@.skip(i as int)) == trim_start(cs@.skip(j as int)),
        decreases cs.len() - j,
    {
        assert(cs@.skip(j as int).drop_first() =~= cs@.skip(j + 1));
        j = j + 1;
    }
    j
}

/// Whether the string is empty once leading and trailing whitespace is removed.
pub fn is_blank(s: &str) -> (r: bool)
    ensures
        r == blank(s@),
{
    let cs = chars_of(s);
    let i = skip_white(&cs, 0);
    assert(cs@.skip(0) =~= s@);
    if i < cs.len() {
        proof {
            lemma_trim_end_keeps_first(cs@.skip(i as int));
        }
        false
    } else {
        assert(cs@.skip(i as int) =~= Seq::<char>::empty());
        true
    }
}

/// Whether `p` is a prefix of `s`.
pub open spec fn has_prefix(s: Seq<char>, p: Seq<char>) -> bool {
    p.len() <= s.len() && s.subrange(0, p.len() as int) == p
}

/// Whether `s` starts with `p`.
pub fn starts_with(s: &str, p: &str) -> (r: bool)
    ensures
        r == has_prefix(s@, p@),
{
    let a = chars_of(s);
    let b = chars_of(p);
    if b.len() > a.len() {
        return false;
    }
    let mut i: usize = 0;
    while i < b.len()
        invariant
            b.len() <= a.len(),
            i <= b.len(),
            a@ == s@,
            b@ == p@,
            forall|k: int| 0 <= k < i ==> a@[k] == b@[k],
        decreases b.len() - i,
    {
        if a[i] != b[i] {
            assert(s@.subrange(0, p@.len() as int)[i as int] != p@[i as int]);
            return false;
        }
        i = i + 1;
    }
    assert(s@.subrange(0, p@.len() as int) =~= p@);
    true
}

/// The decimal digit for `d`.
pub open spec fn digit(d: int) -> char {
    ((d + 48) as u8) as char
}

fn digit_char(d: u64) -> (c: char)
    requires
        d < 10,
    ensures
        c == digit(d as int),
{
    ((d as u8) + 48u8) as char
}

/// The decimal notation of `n`, without leading zeros.
pub open spec fn decimal(n: nat) -> Seq<char>
    decreases n,
{
    if n < 10 {
        seq![digit(n as int)]
    } else {
        decimal(n / 10).push(digit((n % 10) as int))
    }
}

/// Writes `n` in decimal.
pub fn to_decimal(n: u64) -> (r: String)
    ensures
        r@ == decimal(n as nat),
    decreases n,
{
    if n < 10 {
        let mut r = String::new();
        push_char(&mut r, digit_char(n));
        assert(r@ =~= seq![digit(n as int)]);
        r
    } else {
        let mut r = to_decimal(n / 10);
        push_char(&mut r, digit_char(n % 10));
        r
    }
}

/// `n` in exactly two digits; `n` is below one hundred.
pub open spec fn two_digits(n: int) -> Seq<char> {
    seq![digit(n / 10), digit(n % 10)]
}

/// `n` in exactly four digits; `n` is below ten thousand.
pub open spec fn four_digits(n: int) -> Seq<char> {
    seq![digit(n / 1000), digit((n / 100) % 10), digit((n / 10) % 10), digit(n % 10)]
}

/// Writes `n`, below one hundred, in two digits.
pub fn write_two_digits(s: &mut String, n: u64)
    requires
        n < 100,
    ensures
        final(s)@ == old(s)@ + two_digits(n as int),
{
    push_char(s, digit_char(n / 10));
    push_char(s, digit_char(n % 10));
    assert(final(s)@ =~= old(s)@ + two_digits(n as int));
}

/// Writes `n`, below ten thousand, in four digits.
pub fn write_four_digits(s: &mut String, n: u64)
    requires
        n < 10000,
    ensures
        final(s)@ == old(s)@ + four_digits(n as int),
{
    push_char(s, digit_char(n / 1000));
    push_char(s, digit_char((n / 100) % 10));
    push_char(s, digit_char((n / 10) % 10));
    push_char(s, digit_char(n % 10));
    assert(final(s)@ =~= old(s)@ + four_digits(n as int));
}

/// What one character adds to a slug built so far.
pub open spec fn slug_step(out: Seq<char>, c: char) -> Seq<char> {
    if c == '_' || c == '-' || ('a' <= c && c <= 'z') || ('0' <= c && c <= '9') {
        out.push(c)
    } else if 'A' <= c && c <= 'Z' {
        out.push(((c as u8) + 32) as char)
    } else if white_space(c) && !(out.len() > 0 && out.last() == '-') {
        out.push('-')
    } else {
        out
    }
}

/// The slug of a sequence of characters, taken in order.
pub open spec fn slug_of(cs: Seq<char>) -> Seq<char>
    decreases cs.len(),
{
    if cs.len() == 0 {
        seq![]
    } else {
        slug_step(slug_of(cs.drop_last()), cs.last())
    }
}

/// The slug of a title: trimmed, ASCII letters lowered, digits, `_` and `-`
/// kept, a run of whitespace one `-`, everything else dropped.
pub open spec fn slug_spec(s: Seq<char>) -> Seq<char> {
    slug_of(trimmed(s))
}

/// Turns a page title into a directory name.
pub fn slugify(s: &str) -> (r: String)
    ensures
        r@ == slug_spec(s@),
{
    let cs = chars_of(s);
    assert(cs@.skip(0) =~= s@);
    let start = skip_white(&cs, 0);
    let mut end = cs.len();
    assert(cs@.skip(start as int) =~= cs@.subrange(start as int, end as int));
    while end > start && is_whitespace(cs[end - 1])
        invariant
            start <= end <= cs.len(),
            trimmed(s@) == trim_end(cs@.subrange(start as int, end as int)),
        decreases end,
    {
        assert(cs@.subrange(start as int, end as int).drop_last() =~= cs@.subrange(
            start as int,
            end - 1,
        ));
        end = end - 1;
    }
    assert(trimmed(s@) == cs@.subrange(start as int, end as int));
    let mut out = String::new();
    let mut k = start;
    assert(cs@.subrange(start as int, start as int) =~= Seq::<char>::empty());
    while k < end
        invariant
            start <= k <= end <= cs.len(),
            out@ == slug_of(cs@.subrange(start as int, k as int)),
        decreases end - k,
    {
        let c = cs[k];
        assert(cs@.subrange(start as int, k + 1).drop_last() =~= cs@.subrange(start as int, k as int));
        if c == '_' || c == '-' || ('a' <= c && c <= 'z') || ('0' <= c && c <= '9') {
            push_char(&mut out, c);
        } else if 'A' <= c && c <= 'Z' {
            push_char(&mut out, ((c as u8) + 32) as char);
        } else if is_whitespace(c) {
            let n = out.as_str().unicode_len();
            let ends_dash = n > 0 && out.as_str().get_char(n - 1) == '-';
            if !ends_dash {
                push_char(&mut out, '-');
            }
        }
        k = k + 1;
    }
    out
}

} // verus!
