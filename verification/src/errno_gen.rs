//! Reading the error codes out of the kernel's header files.
//!
//! A header defines an error code on a line of its own: `#define`, the name,
//! then the number, or the name of another code that this one is an alias of,
//! and a comment with the description. Names of error codes begin with `E`.
//! The headers are plain ASCII: white space is the ASCII white space.
use vstd::prelude::*;
use vstd::slice::slice_subrange;

verus! {

/// One definition of an error code.
#[derive(Debug, PartialEq, Eq)]
pub enum Errno {
    /// Name, number and description of a code.
    Define(Vec<u8>, i32, Option<Vec<u8>>),
    /// Name of an alias, the name that it stands for, and the description.
    Alias(Vec<u8>, Vec<u8>, Option<Vec<u8>>),
}

/// What a definition says.
pub enum Entry {
    Define(Seq<u8>, i32, Option<Seq<u8>>),
    Alias(Seq<u8>, Seq<u8>, Option<Seq<u8>>),
}

/// The bytes of an optional text.
pub open spec fn text_of(text: Option<Vec<u8>>) -> Option<Seq<u8>> {
    match text {
        Some(t) => Some(t@),
        None => None,
    }
}

impl View for Errno {
    type V = Entry;

    open spec fn view(&self) -> Entry {
        match self {
            Errno::Define(name, value, comment) => Entry::Define(name@, *value, text_of(*comment)),
            Errno::Alias(name, target, comment) => Entry::Alias(
                name@,
                target@,
                text_of(*comment),
            ),
        }
    }
}

/// ASCII white space: the space and the characters from tab to carriage
/// return.
pub open spec fn is_space(b: u8) -> bool {
    b == 0x20 || (0x09 <= b && b <= 0x0d)
}

/// ASCII digit.
pub open spec fn is_digit(b: u8) -> bool {
    0x30 <= b && b <= 0x39
}

/// The value of a digit; zero for any other byte.
pub open spec fn digit_value(b: u8) -> nat {
    if is_digit(b) {
        (b - 0x30) as nat
    } else {
        0
    }
}

/// The first place from `i` on that holds no white space, or `hi` if there
/// is none before it.
pub open spec fn skip_spaces(s: Seq<u8>, i: int, hi: int) -> int
    decreases hi - i,
{
    if i < hi && is_space(s[i]) {
        skip_spaces(s, i + 1, hi)
    } else {
        i
    }
}

/// The end of `lo..hi` without the white space at its end.
pub open spec fn drop_spaces(s: Seq<u8>, lo: int, hi: int) -> int
    decreases hi - lo,
{
    if lo < hi && is_space(s[hi - 1]) {
        drop_spaces(s, lo, hi - 1)
    } else {
        hi
    }
}

/// The first place from `i` on that holds white space, or `hi` if there is
/// none before it.
pub open spec fn word_end(s: Seq<u8>, i: int, hi: int) -> int
    decreases hi - i,
{
    if i < hi && !is_space(s[i]) {
        word_end(s, i + 1, hi)
    } else {
        i
    }
}

/// The first place from `i` on that holds no digit, or `hi` if there is none
/// before it.
pub open spec fn digits_end(s: Seq<u8>, i: int, hi: int) -> int
    decreases hi - i,
{
    if i < hi && is_digit(s[i]) {
        digits_end(s, i + 1, hi)
    } else {
        i
    }
}

/// The number that the digits in `i..j` are the decimal form of.
pub open spec fn decimal_value(s: Seq<u8>, i: int, j: int) -> nat
    decreases j - i,
{
    if j <= i {
        0
    } else {
        decimal_value(s, i, j - 1) * 10 + digit_value(s[j - 1])
    }
}

/// Whether `pat` stands at `i`, within `i..hi`.
pub open spec fn starts_with(s: Seq<u8>, i: int, hi: int, pat: Seq<u8>) -> bool {
    0 <= i && i + pat.len() <= hi && hi <= s.len() && s.subrange(i, i + pat.len()) == pat
}

/// Whether `pat` stands at the end of `lo..hi`.
pub open spec fn ends_with(s: Seq<u8>, lo: int, hi: int, pat: Seq<u8>) -> bool {
    0 <= lo && lo + pat.len() <= hi && hi <= s.len() && s.subrange(hi - pat.len(), hi) == pat
}

/// The word `define`.
pub open spec fn define_word() -> Seq<u8> {
    seq![0x64u8, 0x65u8, 0x66u8, 0x69u8, 0x6eu8, 0x65u8]
}

/// The text of the comment that fills `lo..hi` but for white space around
/// it, without the white space inside its marks.
pub open spec fn comment_in(s: Seq<u8>, lo: int, hi: int) -> Option<Seq<u8>> {
    let a = skip_spaces(s, lo, hi);
    let b = drop_spaces(s, a, hi);
    if !starts_with(s, a, b, seq![0x2fu8, 0x2au8]) {
        None
    } else if !ends_with(s, a + 2, b, seq![0x2au8, 0x2fu8]) {
        None
    } else {
        let c = skip_spaces(s, a + 2, b - 2);
        let d = drop_spaces(s, c, b - 2);
        Some(s.subrange(c, d))
    }
}

/// What follows the name of a definition, from `g` on: a number that fits 32
/// bits, or the name of another code.
pub open spec fn definition_in(s: Seq<u8>, name: Seq<u8>, g: int, b: int) -> Option<Entry> {
    let h = digits_end(s, g, b);
    if h > g {
        if decimal_value(s, g, h) <= i32::MAX {
            Some(Entry::Define(name, decimal_value(s, g, h) as i32, comment_in(s, h, b)))
        } else {
            None
        }
    } else if g < b && s[g] == 0x45 {
        let k = word_end(s, g, b);
        if k == b {
            None
        } else {
            Some(Entry::Alias(name, s.subrange(g, k), comment_in(s, k, b)))
        }
    } else {
        None
    }
}

/// The definition on a line, if the line is one.
pub open spec fn parse_line_spec(line: Seq<u8>) -> Option<Entry> {
    let a = skip_spaces(line, 0, line.len() as int);
    let b = drop_spaces(line, a, line.len() as int);
    if !(a < b && line[a] == 0x23) {
        None
    } else {
        let c = skip_spaces(line, a + 1, b);
        if !starts_with(line, c, b, define_word()) {
            None
        } else if !(c + 6 < b && is_space(line[c + 6])) {
            None
        } else {
            let e = skip_spaces(line, c + 6, b);
            let f = word_end(line, e, b);
            if f == b || !(e < f && line[e] == 0x45) {
                None
            } else {
                definition_in(line, line.subrange(e, f), skip_spaces(line, f, b), b)
            }
        }
    }
}

/// The end of the line that begins at `from`: the place of the next line
/// feed, or the end of the text.
pub open spec fn line_end(text: Seq<u8>, from: int) -> int
    decreases text.len() - from,
{
    if from < text.len() && text[from] != 0x0a {
        line_end(text, from + 1)
    } else {
        from
    }
}

/// The definitions on the lines of a text from `from` on, in their order.
pub open spec fn entries_from(text: Seq<u8>, from: int) -> Seq<Entry>
    decreases text.len() - from,
{
    if from < 0 || from >= text.len() {
        Seq::empty()
    } else {
        proof {
            lemma_line_end_bounds(text, from);
        }
        let e = line_end(text, from);
        let rest = if e < text.len() {
            entries_from(text, e + 1)
        } else {
            Seq::empty()
        };
        match parse_line_spec(text.subrange(from, e)) {
            Some(entry) => seq![entry] + rest,
            None => rest,
        }
    }
}

/// The views of the definitions in `v`.
pub open spec fn views(v: Seq<Errno>) -> Seq<Entry> {
    v.map_values(|e: Errno| e@)
}

/// A line ends at or after its beginning, within the text.
pub proof fn lemma_line_end_bounds(s: Seq<u8>, i: int)
    ensures
        i <= line_end(s, i),
        i <= s.len() ==> line_end(s, i) <= s.len(),
    decreases s.len() - i,
{
    if i < s.len() && s[i] != 0x0a {
        lemma_line_end_bounds(s, i + 1);
    }
}

fn is_space_byte(b: u8) -> (r: bool)
    ensures
        r == is_space(b),
{
    b == 0x20 || (0x09 <= b && b <= 0x0d)
}

fn skip_spaces_at(s: &[u8], i: usize, hi: usize) -> (r: usize)
    requires
        i <= hi <= s@.len(),
    ensures
        r == skip_spaces(s@, i as int, hi as int),
        i <= r <= hi,
{
    let mut j: usize = i;
    while j < hi && is_space_byte(s[j])
        invariant
            i <= j <= hi <= s@.len(),
            skip_spaces(s@, i as int, hi as int) == skip_spaces(s@, j as int, hi as int),
        decreases hi - j,
    {
        j += 1;
    }
    j
}

fn drop_spaces_at(s: &[u8], lo: usize, hi: usize) -> (r: usize)
    requires
        lo <= hi <= s@.len(),
    ensures
        r == drop_spaces(s@, lo as int, hi as int),
        lo <= r <= hi,
{
    let mut j: usize = hi;
    while lo < j && is_space_byte(s[j - 1])
        invariant
            lo <= j <= hi <= s@.len(),
            drop_spaces(s@, lo as int, hi as int) == drop_spaces(s@, lo as int, j as int),
        decreases j - lo,
    {
        j -= 1;
    }
    j
}

fn word_end_at(s: &[u8], i: usize, hi: usize) -> (r: usize)
    requires
        i <= hi <= s@.len(),
    ensures
        r == word_end(s@, i as int, hi as int),
        i <= r <= hi,
{
    let mut j: usize = i;
    while j < hi && !is_space_byte(s[j])
        invariant
            i <= j <= hi <= s@.len(),
            word_end(s@, i as int, hi as int) == word_end(s@, j as int, hi as int),
        decreases hi - j,
    {
        j += 1;
    }
    j
}

fn digits_end_at(s: &[u8], i: usize, hi: usize) -> (r: usize)
    requires
        i <= hi <= s@.len(),
    ensures
        r == digits_end(s@, i as int, hi as int),
        i <= r <= hi,
        forall|k: int| i <= k < r ==> is_digit(#[trigger] s@[k]),
{
    let mut j: usize = i;
    while j < hi && 0x30 <= s[j] && s[j] <= 0x39
        invariant
            i <= j <= hi <= s@.len(),
            digits_end(s@, i as int, hi as int) == digits_end(s@, j as int, hi as int),
            forall|k: int| i <= k < j ==> is_digit(#[trigger] s@[k]),
        decreases hi - j,
    {
        j += 1;
    }
    j
}

fn copy_range(s: &[u8], lo: usize, hi: usize) -> (r: Vec<u8>)
    requires
        lo <= hi <= s@.len(),
    ensures
        r@ == s@.subrange(lo as int, hi as int),
{
    let mut out: Vec<u8> = Vec::new();
    let mut j: usize = lo;
    while j < hi
        invariant
            lo <= j <= hi <= s@.len(),
            out@ == s@.subrange(lo as int, j as int),
        decreases hi - j,
    {
        out.push(s[j]);
        assert(out@ =~= s@.subrange(lo as int, j + 1));
        j += 1;
    }
    out
}

/// A number does not shrink when digits are appended to it.
proof fn lemma_value_grows(s: Seq<u8>, i: int, j: int, h: int)
    requires
        i <= j <= h,
    ensures
        decimal_value(s, i, j) <= decimal_value(s, i, h),
    decreases h - j,
{
    if j < h {
        lemma_value_grows(s, i, j, h - 1);
    }
}

/// Whether the number in `g..h` fits 32 bits.
fn fits_i32(s: &[u8], g: usize, h: usize) -> (r: bool)
    requires
        g <= h <= s@.len(),
        forall|k: int| g <= k < h ==> is_digit(#[trigger] s@[k]),
    ensures
        r == (decimal_value(s@, g as int, h as int) <= i32::MAX),
{
    let mut acc: u64 = 0;
    let mut j: usize = g;
    while j < h
        invariant
            g <= j <= h <= s@.len(),
            forall|k: int| g <= k < h ==> is_digit(#[trigger] s@[k]),
            acc == decimal_value(s@, g as int, j as int),
            acc <= i32::MAX,
        decreases h - j,
    {
        let d: u64 = (s[j] - 0x30) as u64;
        assert(is_digit(s@[j as int]));
        acc = acc * 10 + d;
        j += 1;
        assert(acc == decimal_value(s@, g as int, j as int));
        if acc > i32::MAX as u64 {
            proof {
                lemma_value_grows(s@, g as int, j as int, h as int);
            }
            return false;
        }
    }
    true
}

/// The functions on a text read the same within a part of it.
proof fn lemma_within(s: Seq<u8>, g: int, b: int, i: int)
    requires
        0 <= g <= i <= b <= s.len(),
    ensures
        digits_end(s.subrange(g, b), i - g, b - g) == digits_end(s, i, b) - g,
        decimal_value(s.subrange(g, b), 0, i - g) == decimal_value(s, g, i),
    decreases b - i, i - g,
{
    let t = s.subrange(g, b);
    if i < b {
        assert(t[i - g] == s[i]);
        lemma_within(s, g, b, i + 1);
    }
    lemma_value_within(s, g, b, i);
}

proof fn lemma_value_within(s: Seq<u8>, g: int, b: int, i: int)
    requires
        0 <= g <= i <= b <= s.len(),
    ensures
        decimal_value(s.subrange(g, b), 0, i - g) == decimal_value(s, g, i),
    decreases i - g,
{
    if g < i {
        assert(s.subrange(g, b)[i - 1 - g] == s[i - 1]);
        lemma_value_within(s, g, b, i - 1);
    }
}

/// Calls `atoi::FromRadix10::from_radix_10` for `i32`, which reads the
/// digits at the start of `text`: it returns the number that they are the
/// decimal form of, and how many they are. Its source multiplies and adds
/// digit by digit in `i32`, so the number has to fit.
#[verifier::external_body]
fn from_radix_10(text: &[u8]) -> (r: (i32, usize))
    requires
        decimal_value(text@, 0, digits_end(text@, 0, text@.len() as int)) <= i32::MAX,
    ensures
        r.1 == digits_end(text@, 0, text@.len() as int),
        r.0 == decimal_value(text@, 0, r.1 as int),
{
    atoi::FromRadix10::from_radix_10(text)
}

/// The number at the start of `g..b`, and where it ends. `None` where no
/// digit stands there, or where the number does not fit 32 bits.
pub fn number(s: &[u8], g: usize, b: usize) -> (r: Option<(i32, usize)>)
    requires
        g <= b <= s@.len(),
    ensures
        r is Some <==> digits_end(s@, g as int, b as int) > g && decimal_value(
            s@,
            g as int,
            digits_end(s@, g as int, b as int),
        ) <= i32::MAX,
        r matches Some((value, end)) ==> end == digits_end(s@, g as int, b as int) && value
            == decimal_value(s@, g as int, end as int),
{
    let h: usize = digits_end_at(s, g, b);
    if h == g || !fits_i32(s, g, h) {
        return None;
    }
    let text = slice_subrange(s, g, b);
    proof {
        lemma_within(s@, g as int, b as int, g as int);
        lemma_value_within(s@, g as int, b as int, h as int);
    }
    let (value, size) = from_radix_10(text);
    Some((value, g + size))
}

/// The text of the comment that fills `lo..hi`.
pub fn comment(s: &[u8], lo: usize, hi: usize) -> (r: Option<Vec<u8>>)
    requires
        lo <= hi <= s@.len(),
    ensures
        text_of(r) == comment_in(s@, lo as int, hi as int),
{
    let a: usize = skip_spaces_at(s, lo, hi);
    let b: usize = drop_spaces_at(s, a, hi);
    if !(b - a >= 2 && s[a] == 0x2f && s[a + 1] == 0x2a) {
        assert(!starts_with(s@, a as int, b as int, seq![0x2fu8, 0x2au8])) by {
            if starts_with(s@, a as int, b as int, seq![0x2fu8, 0x2au8]) {
                let t = s@.subrange(a as int, a + 2);
                assert(t[0] == 0x2f && t[1] == 0x2a);
            }
        }
        return None;
    }
    assert(s@.subrange(a as int, a + 2) =~= seq![0x2fu8, 0x2au8]);
    if !(b - (a + 2) >= 2 && s[b - 2] == 0x2a && s[b - 1] == 0x2f) {
        assert(!ends_with(s@, a + 2, b as int, seq![0x2au8, 0x2fu8])) by {
            if ends_with(s@, a + 2, b as int, seq![0x2au8, 0x2fu8]) {
                let t = s@.subrange(b - 2, b as int);
                assert(t[0] == 0x2a && t[1] == 0x2f);
            }
        }
        return None;
    }
    assert(s@.subrange(b - 2, b as int) =~= seq![0x2au8, 0x2fu8]);
    let c: usize = skip_spaces_at(s, a + 2, b - 2);
    let d: usize = drop_spaces_at(s, c, b - 2);
    Some(copy_range(s, c, d))
}

fn has_define(s: &[u8], c: usize, b: usize) -> (r: bool)
    requires
        c <= b <= s@.len(),
    ensures
        r == starts_with(s@, c as int, b as int, define_word()),
{
    if b - c >= 6 && s[c] == 0x64 && s[c + 1] == 0x65 && s[c + 2] == 0x66 && s[c + 3] == 0x69 && s[c
        + 4] == 0x6e && s[c + 5] == 0x65 {
        assert(s@.subrange(c as int, c + 6) =~= define_word());
        true
    } else {
        assert(!starts_with(s@, c as int, b as int, define_word())) by {
            if starts_with(s@, c as int, b as int, define_word()) {
                let t = s@.subrange(c as int, c + 6);
                assert(t[0] == 0x64 && t[1] == 0x65 && t[2] == 0x66 && t[3] == 0x69 && t[4] == 0x6e
                    && t[5] == 0x65);
            }
        }
        false
    }
}

/// The definition on a line, if the line is one: `#`, the word `define`, a
/// name that begins with `E`, then either a number or the name of another
/// code, and perhaps a comment. A number that does not fit 32 bits is no error
/// code.
pub fn parse_line(line: &[u8]) -> (r: Option<Errno>)
    ensures
        r is Some <==> parse_line_spec(line@) is Some,
        r matches Some(e) ==> Some(e@) == parse_line_spec(line@),
{
    let n: usize = line.len();
    let a: usize = skip_spaces_at(line, 0, n);
    let b: usize = drop_spaces_at(line, a, n);
    if !(a < b && line[a] == 0x23) {
        return None;
    }
    let c: usize = skip_spaces_at(line, a + 1, b);
    if !has_define(line, c, b) {
        return None;
    }
    if !(c + 6 < b && is_space_byte(line[c + 6])) {
        return None;
    }
    let e: usize = skip_spaces_at(line, c + 6, b);
    let f: usize = word_end_at(line, e, b);
    if f == b || !(e < f && line[e] == 0x45) {
        return None;
    }
    let g: usize = skip_spaces_at(line, f, b);
    let h: usize = digits_end_at(line, g, b);
    if h > g {
        match number(line, g, b) {
            Some((value, end)) => {
                let name = copy_range(line, e, f);
                let text = comment(line, end, b);
                Some(Errno::Define(name, value, text))
            },
            None => None,
        }
    } else if g < b && line[g] == 0x45 {
        let k: usize = word_end_at(line, g, b);
        if k == b {
            return None;
        }
        let name = copy_range(line, e, f);
        let target = copy_range(line, g, k);
        let text = comment(line, k, b);
        Some(Errno::Alias(name, target, text))
    } else {
        None
    }
}

fn line_end_at(text: &[u8], from: usize) -> (r: usize)
    requires
        from <= text@.len(),
    ensures
        r == line_end(text@, from as int),
        from <= r <= text@.len(),
{
    let mut j: usize = from;
    while j < text.len() && text[j] != 0x0a
        invariant
            from <= j <= text@.len(),
            line_end(text@, from as int) == line_end(text@, j as int),
        decreases text@.len() - j,
    {
        j += 1;
    }
    j
}

/// The definitions in a header file, in the order of its lines.
pub fn parse_file(file: &[u8]) -> (r: Vec<Errno>)
    ensures
        views(r@) == entries_from(file@, 0),
{
    let mut out: Vec<Errno> = Vec::new();
    let mut pos: usize = 0;
    let n: usize = file.len();
    assert(views(out@) =~= Seq::<Entry>::empty());
    while pos < n
        invariant
            pos <= n,
            n == file@.len(),
            views(out@) + entries_from(file@, pos as int) == entries_from(file@, 0),
        decreases n - pos,
    {
        let e: usize = line_end_at(file, pos);
        let line = slice_subrange(file, pos, e);
        let ghost before = views(out@);
        let ghost rest = if e < n {
            entries_from(file@, e + 1)
        } else {
            Seq::<Entry>::empty()
        };
        match parse_line(line) {
            Some(entry) => {
                let ghost ev = entry@;
                out.push(entry);
                assert(views(out@) =~= before + seq![ev]);
                assert(before + (seq![ev] + rest) =~= (before + seq![ev]) + rest);
            },
            None => {},
        }
        if e < n {
            pos = e + 1;
        } else {
            assert(rest =~= entries_from(file@, n as int));
            pos = n;
        }
    }
    assert(entries_from(file@, pos as int) =~= Seq::<Entry>::empty());
    assert(views(out@) + Seq::<Entry>::empty() =~= views(out@));
    out
}

} // verus!
