//! Character-level text handling: the line, field and whitespace splitting,
//! decimal numbers and substitution that the configuration logic is built on.
//! Every operation is stated over `Seq<char>`, the view of a `String`.
use vstd::prelude::*;

verus! {

// ---------------------------------------------------------------------------
// Building and reading strings
// ---------------------------------------------------------------------------

/// Pushes one character onto the end of a string (`String::push`).
/// Trusted: the new view is the old view with `c` appended.
#[verifier::external_body]
fn push_char(s: &mut String, c: char)
    ensures
        final(s)@ == old(s)@.push(c),
{
    s.push(c);
}

/// The characters of `s`, in order.
pub fn chars_of(s: &str) -> (v: Vec<char>)
    ensures
        v@ == s@,
{
    let mut v: Vec<char> = Vec::new();
    for c in it: s.chars()
        invariant
            it.seq() == s@,
            v@ == it.seq().take(it.index() as int),
    {
        v.push(c);
    }
    v
}

/// A string holding exactly the characters of `cs`.
pub fn string_of(cs: &[char]) -> (s: String)
    ensures
        s@ == cs@,
{
    let mut s = String::new();
    let mut i: usize = 0;
    while i < cs.len()
        invariant
            i <= cs.len(),
            s@ == cs@.take(i as int),
        decreases cs.len() - i,
    {
        push_char(&mut s, cs[i]);
        i = i + 1;
        assert(s@ == cs@.take(i as int));
    }
    s
}

/// Appends all of `part` to `out`.
pub fn push_all(out: &mut Vec<char>, part: &[char])
    ensures
        final(out)@ == old(out)@ + part@,
{
    let ghost start = out@;
    let mut i: usize = 0;
    while i < part.len()
        invariant
            i <= part.len(),
            out@ == start + part@.take(i as int),
        decreases part.len() - i,
    {
        out.push(part[i]);
        i = i + 1;
        assert(out@ == start + part@.take(i as int));
    }
    assert(part@.take(part@.len() as int) == part@);
}

/// A copy of `cs` as a vector.
pub fn vec_of(cs: &[char]) -> (v: Vec<char>)
    ensures
        v@ == cs@,
{
    let mut v: Vec<char> = Vec::new();
    push_all(&mut v, cs);
    v
}

/// Decides whether two texts are equal.
pub fn same_text(a: &str, b: &str) -> (r: bool)
    ensures
        r == (a@ == b@),
{
    let x = chars_of(a);
    let y = chars_of(b);
    if x.len() != y.len() {
        return false;
    }
    let r = matches_at(x.as_slice(), y.as_slice(), 0);
    assert(x@.subrange(0, x@.len() as int) =~= x@);
    r
}

// ---------------------------------------------------------------------------
// Whitespace (Unicode `White_Space`, as `char::is_whitespace`)
// ---------------------------------------------------------------------------

/// `c` has the Unicode `White_Space` property.
pub open spec fn is_white(c: char) -> bool {
    let n = c as u32;
    ||| 9 <= n <= 13
    ||| n == 32
    ||| n == 0x85
    ||| n == 0xa0
    ||| n == 0x1680
    ||| 0x2000 <= n <= 0x200a
    ||| n == 0x2028
    ||| n == 0x2029
    ||| n == 0x202f
    ||| n == 0x205f
    ||| n == 0x3000
}

/// Decides `is_white`.
pub fn char_is_white(c: char) -> (b: bool)
    ensures
        b == is_white(c),
{
    let n = c as u32;
    (9 <= n && n <= 13) || n == 32 || n == 0x85 || n == 0xa0 || n == 0x1680 || (0x2000 <= n
        && n <= 0x200a) || n == 0x2028 || n == 0x2029 || n == 0x202f || n == 0x205f || n
        == 0x3000
}

/// Every character of `s` is whitespace (so `s.trim()` is empty).
pub open spec fn all_white(s: Seq<char>) -> bool {
    forall|i: int| 0 <= i < s.len() ==> is_white(#[trigger] s[i])
}

/// Decides whether `s` trims to the empty string.
pub fn trims_to_empty(s: &str) -> (b: bool)
    ensures
        b == all_white(s@),
{
    let cs = chars_of(s);
    let mut i: usize = 0;
    while i < cs.len()
        invariant
            cs@ == s@,
            i <= cs.len(),
            forall|k: int| 0 <= k < i ==> is_white(#[trigger] cs@[k]),
        decreases cs.len() - i,
    {
        if !char_is_white(cs[i]) {
            return false;
        }
        i = i + 1;
    }
    true
}

// ---------------------------------------------------------------------------
// Decimal numbers (`u32::from_str` and `u32::to_string`)
// ---------------------------------------------------------------------------

/// `c` is one of `0`..`9`.
pub open spec fn is_digit(c: char) -> bool {
    48 <= (c as u32) <= 57
}

/// The value of the decimal digit `c`.
pub open spec fn digit_value(c: char) -> nat {
    ((c as u32) - 48) as nat
}

/// Every character of `s` is a decimal digit.
pub open spec fn all_digits(s: Seq<char>) -> bool {
    forall|i: int| 0 <= i < s.len() ==> is_digit(#[trigger] s[i])
}

/// The number that the digits `s` spell, most significant first.
pub open spec fn digits_value(s: Seq<char>) -> nat
    decreases s.len(),
{
    if s.len() == 0 {
        0
    } else {
        digits_value(s.drop_last()) * 10 + digit_value(s.last())
    }
}

/// The digits of an unsigned number text: a leading `+` is dropped when
/// something follows it.
pub open spec fn unsigned_digits(s: Seq<char>) -> Seq<char> {
    if s.len() > 1 && s[0] == '+' {
        s.drop_first()
    } else {
        s
    }
}

/// What `str::parse::<u32>` gives back: the value of a non-empty run of
/// decimal digits, optionally preceded by `+`, when it fits in 32 bits.
pub open spec fn parse_u32_spec(s: Seq<char>) -> Option<u32> {
    let d = unsigned_digits(s);
    if d.len() > 0 && all_digits(d) && digits_value(d) <= u32::MAX {
        Some(digits_value(d) as u32)
    } else {
        None
    }
}

/// A longer run of digits is worth at least as much as any of its prefixes.
pub proof fn lemma_digits_value_prefix(s: Seq<char>, j: int)
    requires
        0 <= j <= s.len(),
    ensures
        digits_value(s.take(j)) <= digits_value(s),
    decreases s.len(),
{
    if j < s.len() {
        lemma_digits_value_prefix(s.drop_last(), j);
        assert(s.drop_last().take(j) =~= s.take(j));
    } else {
        assert(s.take(j) =~= s);
    }
}

/// Parses a decimal `u32` the way `str::parse::<u32>` does.
pub fn parse_u32(cs: &[char]) -> (r: Option<u32>)
    ensures
        r == parse_u32_spec(cs@),
{
    let n = cs.len();
    if n == 0 {
        return None;
    }
    let start: usize = if n > 1 && cs[0] == '+' {
        1
    } else {
        0
    };
    let ghost d = unsigned_digits(cs@);
    assert(d =~= cs@.subrange(start as int, n as int));
    let mut v: u64 = 0;
    let mut i: usize = start;
    while i < n
        invariant
            n == cs.len(),
            start <= i <= n,
            start <= 1,
            d == cs@.subrange(start as int, n as int),
            d == unsigned_digits(cs@),
            v as nat == digits_value(cs@.subrange(start as int, i as int)),
            v <= u32::MAX,
            all_digits(cs@.subrange(start as int, i as int)),
        decreases n - i,
    {
        let c = cs[i];
        let code = c as u32;
        if code < 48 || code > 57 {
            assert(d[i - start] == c);
            assert(!is_digit(d[i - start]));
            assert(!all_digits(d));
            assert(unsigned_digits(cs@) == d);
            assert(parse_u32_spec(cs@) is None);
            return None;
        }
        let nv: u64 = v * 10 + (code - 48) as u64;
        assert(cs@.subrange(start as int, i + 1).drop_last() =~= cs@.subrange(
            start as int,
            i as int,
        ));
        assert(digits_value(cs@.subrange(start as int, i + 1)) == nv);
        if nv > 0xffff_ffff {
            proof {
                assert(d.take(i + 1 - start) =~= cs@.subrange(start as int, i + 1));
                lemma_digits_value_prefix(d, i + 1 - start);
            }
            return None;
        }
        v = nv;
        i = i + 1;
    }
    Some(v as u32)
}

/// The character of the decimal digit `d`.
pub open spec fn digit_char(d: nat) -> char {
    ((d + 48) as u32) as char
}

/// The decimal text of `n`, without sign or leading zeros.
pub open spec fn decimal(n: nat) -> Seq<char>
    decreases n,
{
    if n < 10 {
        seq![digit_char(n)]
    } else {
        decimal(n / 10).push(digit_char(n % 10))
    }
}

/// Appends the decimal text of `n`.
pub fn push_decimal(out: &mut Vec<char>, n: u64)
    ensures
        final(out)@ == old(out)@ + decimal(n as nat),
    decreases n,
{
    if n >= 10 {
        push_decimal(out, n / 10);
    }
    let d: u64 = n % 10;
    let c: char = if d == 0 {
        '0'
    } else if d == 1 {
        '1'
    } else if d == 2 {
        '2'
    } else if d == 3 {
        '3'
    } else if d == 4 {
        '4'
    } else if d == 5 {
        '5'
    } else if d == 6 {
        '6'
    } else if d == 7 {
        '7'
    } else if d == 8 {
        '8'
    } else {
        '9'
    };
    assert(c == digit_char(d as nat));
    out.push(c);
}

/// The decimal text of `n`, as `n.to_string()` writes it.
pub fn u32_to_string(n: u32) -> (s: String)
    ensures
        s@ == decimal(n as nat),
{
    let mut v: Vec<char> = Vec::new();
    push_decimal(&mut v, n as u64);
    string_of(v.as_slice())
}

/// The decimal text of `n`, as `n.to_string()` writes it.
pub fn u64_to_string(n: u64) -> (s: String)
    ensures
        s@ == decimal(n as nat),
{
    let mut v: Vec<char> = Vec::new();
    push_decimal(&mut v, n);
    string_of(v.as_slice())
}

/// The decimal text of a number is made of digits, does not begin with `+`,
/// and spells the number.
pub proof fn lemma_decimal_digits(n: nat)
    ensures
        decimal(n).len() > 0,
        all_digits(decimal(n)),
        digits_value(decimal(n)) == n,
    decreases n,
{
    if n < 10 {
        let c = digit_char(n);
        assert(decimal(n).drop_last() =~= Seq::<char>::empty());
        assert(digit_value(c) == n);
        assert(digits_value(Seq::<char>::empty()) == 0);
    } else {
        lemma_decimal_digits(n / 10);
        let s = decimal(n);
        assert(s.drop_last() =~= decimal(n / 10));
        assert forall|i: int| 0 <= i < s.len() implies is_digit(#[trigger] s[i]) by {
            if i < s.len() - 1 {
                assert(s[i] == decimal(n / 10)[i]);
            }
        }
    }
}

/// Reading back the decimal text of a 32-bit number gives the number.
pub proof fn lemma_parse_decimal(n: u32)
    ensures
        parse_u32_spec(decimal(n as nat)) == Some(n),
{
    lemma_decimal_digits(n as nat);
    let s = decimal(n as nat);
    assert(is_digit(s[0]));
    assert(unsigned_digits(s) == s);
}


// ---------------------------------------------------------------------------
// Splitting: lines, fields and whitespace-separated words
// ---------------------------------------------------------------------------

/// The number of leading characters of `s` that differ from `stop`.
pub open spec fn span_len(s: Seq<char>, stop: char) -> nat
    decreases s.len(),
{
    if s.len() == 0 || s[0] == stop {
        0
    } else {
        1 + span_len(s.drop_first(), stop)
    }
}

/// `span_len` never runs past the end, and stops just before a `stop`.
pub proof fn lemma_span_len(s: Seq<char>, stop: char)
    ensures
        span_len(s, stop) <= s.len(),
        forall|i: int| 0 <= i < span_len(s, stop) ==> s[i] != stop,
        span_len(s, stop) < s.len() ==> s[span_len(s, stop) as int] == stop,
    decreases s.len(),
{
    if s.len() > 0 && s[0] != stop {
        lemma_span_len(s.drop_first(), stop);
        assert forall|i: int| 0 <= i < span_len(s, stop) implies s[i] != stop by {
            if i > 0 {
                assert(s[i] == s.drop_first()[i - 1]);
            }
        }
    }
}

/// A span found by scanning is the span.
pub proof fn lemma_span_len_is(s: Seq<char>, stop: char, k: int)
    requires
        0 <= k <= s.len(),
        forall|i: int| 0 <= i < k ==> s[i] != stop,
        k < s.len() ==> s[k] == stop,
    ensures
        span_len(s, stop) == k,
    decreases s.len(),
{
    if k > 0 {
        lemma_span_len_is(s.drop_first(), stop, k - 1);
    }
}

/// The line without a final carriage return.
pub open spec fn strip_cr(line: Seq<char>) -> Seq<char> {
    if line.len() > 0 && line.last() == '\r' {
        line.drop_last()
    } else {
        line
    }
}

/// The lines of `s`, as `str::lines` yields them: split at `\n`, a `\r`
/// before the `\n` removed, and no empty line after a final `\n`.
pub open spec fn lines(s: Seq<char>) -> Seq<Seq<char>>
    decreases s.len(),
{
    if s.len() == 0 {
        seq![]
    } else {
        let k = span_len(s, '\n');
        if k >= s.len() {
            seq![s]
        } else {
            seq![strip_cr(s.take(k as int))] + lines(s.skip((k + 1) as int))
        }
    }
}

/// The fields of `s` between occurrences of `sep`, as `str::split` yields
/// them (the empty text has one empty field).
pub open spec fn fields(s: Seq<char>, sep: char) -> Seq<Seq<char>>
    decreases s.len(),
{
    let k = span_len(s, sep);
    if k >= s.len() {
        seq![s]
    } else {
        seq![s.take(k as int)] + fields(s.skip((k + 1) as int), sep)
    }
}

/// The number of leading characters of `s` that are not whitespace.
pub open spec fn word_len(s: Seq<char>) -> nat
    decreases s.len(),
{
    if s.len() == 0 || is_white(s[0]) {
        0
    } else {
        1 + word_len(s.drop_first())
    }
}

/// `word_len` never runs past the end.
pub proof fn lemma_word_len(s: Seq<char>)
    ensures
        word_len(s) <= s.len(),
        forall|i: int| 0 <= i < word_len(s) ==> !is_white(s[i]),
        word_len(s) < s.len() ==> is_white(s[word_len(s) as int]),
    decreases s.len(),
{
    if s.len() > 0 && !is_white(s[0]) {
        lemma_word_len(s.drop_first());
        assert forall|i: int| 0 <= i < word_len(s) implies !is_white(s[i]) by {
            if i > 0 {
                assert(s[i] == s.drop_first()[i - 1]);
            }
        }
    }
}

/// A word found by scanning is the word.
pub proof fn lemma_word_len_is(s: Seq<char>, k: int)
    requires
        0 <= k <= s.len(),
        forall|i: int| 0 <= i < k ==> !is_white(s[i]),
        k < s.len() ==> is_white(s[k]),
    ensures
        word_len(s) == k,
    decreases s.len(),
{
    if k > 0 {
        lemma_word_len_is(s.drop_first(), k - 1);
    }
}

/// The words of `s`, as `str::split_whitespace` yields them: the maximal
/// runs of characters that are not whitespace.
pub open spec fn words(s: Seq<char>) -> Seq<Seq<char>>
    decreases s.len(),
{
    if s.len() == 0 {
        seq![]
    } else if is_white(s[0]) {
        words(s.drop_first())
    } else {
        let k = word_len(s);
        if k >= s.len() {
            seq![s]
        } else {
            seq![s.take(k as int)] + words(s.skip(k as int))
        }
    }
}

/// Index of the first `stop` at or after `from`, or the end.
fn scan_to(cs: &[char], from: usize, stop: char) -> (k: usize)
    requires
        from <= cs.len(),
    ensures
        from <= k <= cs.len(),
        k - from == span_len(cs@.skip(from as int), stop),
{
    let mut k = from;
    while k < cs.len() && cs[k] != stop
        invariant
            from <= k <= cs.len(),
            forall|i: int| from <= i < k ==> cs@[i] != stop,
        decreases cs.len() - k,
    {
        k = k + 1;
    }
    proof {
        lemma_span_len_is(cs@.skip(from as int), stop, k - from);
    }
    k
}

/// The lines of `cs`.
pub fn lines_of(cs: &[char]) -> (ls: Vec<Vec<char>>)
    ensures
        ls@.map_values(|x: Vec<char>| x@) == lines(cs@),
{
    let mut ls: Vec<Vec<char>> = Vec::new();
    let mut i: usize = 0;
    assert(cs@.skip(0) =~= cs@);
    while i < cs.len()
        invariant
            i <= cs.len(),
            lines(cs@) == ls@.map_values(|x: Vec<char>| x@) + lines(cs@.skip(i as int)),
        decreases cs.len() - i,
    {
        let ghost rest = cs@.skip(i as int);
        let k = scan_to(cs, i, '\n');
        let ghost before = ls@.map_values(|x: Vec<char>| x@);
        if k == cs.len() {
            ls.push(vec_of(&cs[i..k]));
            assert(rest =~= cs@.subrange(i as int, k as int));
            assert(ls@.map_values(|x: Vec<char>| x@) =~= before.push(rest));
            assert(cs@.skip(k as int) =~= Seq::<char>::empty());
            i = k;
        } else {
            let mut j = k;
            if j > i && cs[j - 1] == '\r' {
                j = j - 1;
            }
            ls.push(vec_of(&cs[i..j]));
            assert(rest.take(k - i) =~= cs@.subrange(i as int, k as int));
            assert(strip_cr(rest.take(k - i)) =~= cs@.subrange(i as int, j as int));
            assert(rest.skip(k - i + 1) =~= cs@.skip(k + 1));
            assert(ls@.map_values(|x: Vec<char>| x@) =~= before.push(strip_cr(rest.take(k - i))));
            i = k + 1;
        }
        assert(lines(cs@) == ls@.map_values(|x: Vec<char>| x@) + lines(cs@.skip(i as int)));
    }
    assert(cs@.skip(i as int) =~= Seq::<char>::empty());
    assert(ls@.map_values(|x: Vec<char>| x@) + Seq::<Seq<char>>::empty() =~= ls@.map_values(|x: Vec<char>| x@));
    ls
}

/// The fields of `cs` between occurrences of `sep`.
pub fn fields_of(cs: &[char], sep: char) -> (fs: Vec<Vec<char>>)
    ensures
        fs@.map_values(|x: Vec<char>| x@) == fields(cs@, sep),
{
    let mut fs: Vec<Vec<char>> = Vec::new();
    let mut i: usize = 0;
    assert(cs@.skip(0) =~= cs@);
    loop
        invariant
            i <= cs.len(),
            fields(cs@, sep) == fs@.map_values(|x: Vec<char>| x@) + fields(cs@.skip(i as int), sep),
        decreases cs.len() - i,
    {
        let ghost rest = cs@.skip(i as int);
        let k = scan_to(cs, i, sep);
        let ghost before = fs@.map_values(|x: Vec<char>| x@);
        fs.push(vec_of(&cs[i..k]));
        if k == cs.len() {
            assert(rest =~= cs@.subrange(i as int, k as int));
            assert(fs@.map_values(|x: Vec<char>| x@) =~= before.push(rest));
            assert(fs@.map_values(|x: Vec<char>| x@) + Seq::<Seq<char>>::empty() =~= fs@.map_values(|x: Vec<char>| x@));
            return fs;
        }
        assert(rest.take(k - i) =~= cs@.subrange(i as int, k as int));
        assert(rest.skip(k - i + 1) =~= cs@.skip(k + 1));
        assert(fs@.map_values(|x: Vec<char>| x@) =~= before.push(rest.take(k - i)));
        i = k + 1;
        assert(fields(cs@, sep) == fs@.map_values(|x: Vec<char>| x@) + fields(cs@.skip(i as int), sep));
    }
}

/// The whitespace-separated words of `cs`.
pub fn words_of(cs: &[char]) -> (ws: Vec<Vec<char>>)
    ensures
        ws@.map_values(|x: Vec<char>| x@) == words(cs@),
{
    let mut ws: Vec<Vec<char>> = Vec::new();
    let mut i: usize = 0;
    assert(cs@.skip(0) =~= cs@);
    while i < cs.len()
        invariant
            i <= cs.len(),
            words(cs@) == ws@.map_values(|x: Vec<char>| x@) + words(cs@.skip(i as int)),
        decreases cs.len() - i,
    {
        let ghost rest = cs@.skip(i as int);
        if char_is_white(cs[i]) {
            assert(rest.drop_first() =~= cs@.skip(i + 1));
            i = i + 1;
        } else {
            let mut k = i;
            while k < cs.len() && !char_is_white(cs[k])
                invariant
                    i <= k <= cs.len(),
                    forall|m: int| i <= m < k ==> !is_white(cs@[m]),
                decreases cs.len() - k,
            {
                k = k + 1;
            }
            proof {
                lemma_word_len_is(rest, k - i);
            }
            let ghost before = ws@.map_values(|x: Vec<char>| x@);
            ws.push(vec_of(&cs[i..k]));
            if k == cs.len() {
                assert(rest =~= cs@.subrange(i as int, k as int));
                assert(ws@.map_values(|x: Vec<char>| x@) =~= before.push(rest));
            } else {
                assert(rest.take(k - i) =~= cs@.subrange(i as int, k as int));
                assert(rest.skip(k - i) =~= cs@.skip(k as int));
                assert(ws@.map_values(|x: Vec<char>| x@) =~= before.push(rest.take(k - i)));
            }
            i = k;
        }
        assert(words(cs@) == ws@.map_values(|x: Vec<char>| x@) + words(cs@.skip(i as int)));
    }
    assert(cs@.skip(i as int) =~= Seq::<char>::empty());
    assert(ws@.map_values(|x: Vec<char>| x@) + Seq::<Seq<char>>::empty() =~= ws@.map_values(|x: Vec<char>| x@));
    ws
}


// ---------------------------------------------------------------------------
// Searching and substitution
// ---------------------------------------------------------------------------

/// `pat` occurs in `s` starting at `i`.
pub open spec fn occurs_at(s: Seq<char>, pat: Seq<char>, i: int) -> bool {
    0 <= i && i + pat.len() <= s.len() && s.subrange(i, i + pat.len()) == pat
}

/// `pat` occurs somewhere in `s` (`str::contains`).
pub open spec fn contains_text(s: Seq<char>, pat: Seq<char>) -> bool {
    exists|i: int| occurs_at(s, pat, i)
}

/// Decides `occurs_at`.
pub fn matches_at(cs: &[char], pat: &[char], i: usize) -> (b: bool)
    ensures
        b == occurs_at(cs@, pat@, i as int),
{
    if i > cs.len() || pat.len() > cs.len() - i {
        return false;
    }
    let mut k: usize = 0;
    while k < pat.len()
        invariant
            i + pat.len() <= cs.len(),
            k <= pat.len(),
            forall|m: int| 0 <= m < k ==> cs@[i + m] == pat@[m],
        decreases pat.len() - k,
    {
        if cs[i + k] != pat[k] {
            assert(cs@.subrange(i as int, i + pat.len())[k as int] != pat@[k as int]);
            return false;
        }
        k = k + 1;
    }
    assert(cs@.subrange(i as int, i + pat.len()) =~= pat@);
    true
}

/// Decides `contains_text`.
pub fn contains(cs: &[char], pat: &[char]) -> (b: bool)
    ensures
        b == contains_text(cs@, pat@),
{
    if pat.len() > cs.len() {
        return false;
    }
    if pat.len() == 0 {
        assert(cs@.subrange(0, 0) =~= pat@);
        assert(occurs_at(cs@, pat@, 0));
        return true;
    }
    let last = cs.len() - pat.len();
    let mut i: usize = 0;
    while i <= last
        invariant
            last == cs.len() - pat.len(),
            last < cs.len(),
            i <= last + 1,
            forall|j: int| 0 <= j < i ==> !occurs_at(cs@, pat@, j),
        decreases last + 1 - i,
    {
        if matches_at(cs, pat, i) {
            return true;
        }
        i = i + 1;
    }
    false
}

/// `s` with every occurrence of `pat` replaced by `rep`, scanning from the
/// left and never reusing replaced text (`str::replace` with a non-empty
/// pattern).
pub open spec fn replace_all(s: Seq<char>, pat: Seq<char>, rep: Seq<char>) -> Seq<char>
    decreases s.len(),
{
    if pat.len() == 0 || s.len() < pat.len() {
        s
    } else if s.take(pat.len() as int) == pat {
        rep + replace_all(s.skip(pat.len() as int), pat, rep)
    } else {
        seq![s[0]] + replace_all(s.drop_first(), pat, rep)
    }
}

/// Replaces every occurrence of a non-empty `pat` in `cs` by `rep`.
pub fn replace(cs: &[char], pat: &[char], rep: &[char]) -> (out: Vec<char>)
    requires
        pat.len() > 0,
    ensures
        out@ == replace_all(cs@, pat@, rep@),
{
    let mut out: Vec<char> = Vec::new();
    let mut i: usize = 0;
    let n = cs.len();
    let plen = pat.len();
    assert(cs@.skip(0) =~= cs@);
    while i < n
        invariant
            n == cs.len(),
            plen == pat.len(),
            plen > 0,
            i <= n,
            replace_all(cs@, pat@, rep@) == out@ + replace_all(cs@.skip(i as int), pat@, rep@),
        decreases n - i,
    {
        let ghost rest = cs@.skip(i as int);
        let ghost before = out@;
        if plen > n - i {
            assert(replace_all(rest, pat@, rep@) == rest);
            push_all(&mut out, &cs[i..n]);
            assert(rest =~= cs@.subrange(i as int, n as int));
            assert(cs@.skip(n as int) =~= Seq::<char>::empty());
            assert(replace_all(cs@.skip(n as int), pat@, rep@) == Seq::<char>::empty());
            assert(out@ + Seq::<char>::empty() =~= out@);
            i = n;
        } else if matches_at(cs, pat, i) {
            assert(rest.take(plen as int) =~= cs@.subrange(i as int, i + plen));
            assert(rest.skip(plen as int) =~= cs@.skip(i + plen));
            push_all(&mut out, rep);
            assert(before + (rep@ + replace_all(cs@.skip(i + plen), pat@, rep@)) =~= out@
                + replace_all(cs@.skip(i + plen), pat@, rep@));
            i = i + plen;
        } else {
            assert(rest.take(plen as int) =~= cs@.subrange(i as int, i + plen));
            assert(rest.drop_first() =~= cs@.skip(i + 1));
            out.push(cs[i]);
            assert(before + (seq![cs@[i as int]] + replace_all(cs@.skip(i + 1), pat@, rep@))
                =~= out@ + replace_all(cs@.skip(i + 1), pat@, rep@));
            i = i + 1;
        }
    }
    assert(cs@.skip(n as int) =~= Seq::<char>::empty());
    assert(out@ + Seq::<char>::empty() =~= out@);
    out
}

/// `str::replace` on strings, for a non-empty pattern.
pub fn replace_str(s: &str, pat: &str, rep: &str) -> (out: String)
    requires
        pat@.len() > 0,
    ensures
        out@ == replace_all(s@, pat@, rep@),
{
    let cs = chars_of(s);
    let ps = chars_of(pat);
    let rs = chars_of(rep);
    let v = replace(cs.as_slice(), ps.as_slice(), rs.as_slice());
    string_of(v.as_slice())
}

/// Decides whether `s` ends with `suffix`.
pub fn ends_with(cs: &[char], suffix: &[char]) -> (b: bool)
    ensures
        b == suffix@.is_suffix_of(cs@),
{
    if suffix.len() > cs.len() {
        return false;
    }
    let at = cs.len() - suffix.len();
    let b = matches_at(cs, suffix, at);
    assert(cs@.subrange(at as int, cs@.len() as int) == cs@.subrange(
        cs@.len() - suffix@.len(),
        cs@.len() as int,
    ));
    b
}

/// Decides whether `s` starts with `prefix`.
pub fn starts_with(cs: &[char], prefix: &[char]) -> (b: bool)
    ensures
        b == prefix@.is_prefix_of(cs@),
{
    let b = matches_at(cs, prefix, 0);
    b
}

// ---------------------------------------------------------------------------
// Unix paths
// ---------------------------------------------------------------------------

/// `PathBuf::join` on Unix: an absolute `rel` replaces `base`; otherwise a
/// `/` is put between them unless `base` is empty or already ends in `/`.
pub open spec fn join_path(base: Seq<char>, rel: Seq<char>) -> Seq<char> {
    if rel.len() > 0 && rel[0] == '/' {
        rel
    } else if base.len() > 0 && base.last() != '/' {
        base + seq!['/'] + rel
    } else {
        base + rel
    }
}

/// Joins two paths as `Path::join` does.
pub fn join(base: &str, rel: &str) -> (p: String)
    ensures
        p@ == join_path(base@, rel@),
{
    let b = chars_of(base);
    let r = chars_of(rel);
    if r.len() > 0 && r[0] == '/' {
        return string_of(r.as_slice());
    }
    let mut out = vec_of(b.as_slice());
    if b.len() > 0 && b[b.len() - 1] != '/' {
        out.push('/');
    }
    push_all(&mut out, r.as_slice());
    string_of(out.as_slice())
}

/// A path segment that names a file or directory (not empty, not `.`).
pub open spec fn names_entry(seg: Seq<char>) -> bool {
    seg.len() > 0 && seg != seq!['.']
}

/// The last segment of `segs` that names an entry.
pub open spec fn last_named(segs: Seq<Seq<char>>) -> Option<Seq<char>>
    decreases segs.len(),
{
    if segs.len() == 0 {
        None
    } else if names_entry(segs.last()) {
        Some(segs.last())
    } else {
        last_named(segs.drop_last())
    }
}

/// `Path::file_name` on Unix: the last component, unless the path has none
/// or ends in `..`.
pub open spec fn file_name_spec(p: Seq<char>) -> Option<Seq<char>> {
    match last_named(fields(p, '/')) {
        Some(seg) => if seg == seq!['.', '.'] {
            None
        } else {
            Some(seg)
        },
        None => None,
    }
}

/// The final component of a path, as `Path::file_name` gives it.
pub fn file_name(p: &str) -> (r: Option<String>)
    ensures
        r matches Some(s) ==> file_name_spec(p@) == Some(s@),
        r is None ==> file_name_spec(p@) is None,
{
    let cs = chars_of(p);
    let fs = fields_of(cs.as_slice(), '/');
    let ghost segs = fs@.map_values(|x: Vec<char>| x@);
    let mut j = fs.len();
    assert(segs.take(j as int) =~= segs);
    while j > 0 && !(fs[j - 1].len() > 0 && !(fs[j - 1].len() == 1 && fs[j - 1][0] == '.'))
        invariant
            j <= fs.len(),
            segs == fs@.map_values(|x: Vec<char>| x@),
            last_named(segs) == last_named(segs.take(j as int)),
        decreases j,
    {
        proof {
            let t = segs.take(j as int);
            assert(t.last() == fs@[j - 1]@);
            if fs@[j - 1]@.len() == 1 {
                assert(fs@[j - 1]@ =~= seq!['.']);
            }
            assert(t.drop_last() =~= segs.take(j - 1));
        }
        j = j - 1;
    }
    if j == 0 {
        assert(segs.take(0) =~= Seq::<Seq<char>>::empty());
        return None;
    }
    let seg = &fs[j - 1];
    proof {
        let t = segs.take(j as int);
        assert(t.last() == seg@);
        if seg@ == seq!['.'] {
            assert(seg@[0] == '.');
        }
    }
    if seg.len() == 2 && seg[0] == '.' && seg[1] == '.' {
        assert(seg@ =~= seq!['.', '.']);
        return None;
    }
    assert(seg@ != seq!['.', '.']) by {
        if seg@ == seq!['.', '.'] {
            assert(seg@.len() == 2 && seg@[0] == '.' && seg@[1] == '.');
        }
    }
    Some(string_of(seg.as_slice()))
}

} // verus!
