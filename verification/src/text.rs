//! Text primitives shared by the adapters: the characters of a string,
//! decimal numerals, joining, trimming and splitting at whitespace, and what
//! is taken from `std` for Unicode and UTF-8.

use vstd::prelude::*;
use vstd::string::*;

verus! {

/// Whether `c` has the Unicode `White_Space` property: the controls from
/// tab to carriage return, the space, next line, the no-break space, the
/// Ogham space mark, the spaces from en quad to hair space, the line and
/// paragraph separators, the narrow no-break space, the medium mathematical
/// space and the ideographic space.
pub open spec fn unicode_whitespace(c: char) -> bool {
    let u = c as u32;
    ||| 0x0009 <= u <= 0x000D
    ||| u == 0x0020
    ||| u == 0x0085
    ||| u == 0x00A0
    ||| u == 0x1680
    ||| 0x2000 <= u <= 0x200A
    ||| u == 0x2028
    ||| u == 0x2029
    ||| u == 0x202F
    ||| u == 0x205F
    ||| u == 0x3000
}

/// The upper-case form of a text under the Unicode case mappings.
pub uninterp spec fn unicode_uppercase(s: Seq<char>) -> Seq<char>;

/// The text that a lossy UTF-8 decoding gives for `bytes`.
pub uninterp spec fn utf8_lossy(bytes: Seq<u8>) -> Seq<char>;

/// Whether a character is whitespace.
pub fn is_whitespace(c: char) -> (r: bool)
    ensures
        r == unicode_whitespace(c),
{
    let u: u32 = c as u32;
    (0x0009 <= u && u <= 0x000D) || u == 0x0020 || u == 0x0085 || u == 0x00A0 || u == 0x1680 || (0x2000
        <= u && u <= 0x200A) || u == 0x2028 || u == 0x2029 || u == 0x202F || u == 0x205F || u
        == 0x3000
}

/// `str::to_uppercase`: the result depends on the characters of `s` alone.
#[verifier::external_body]
pub(crate) fn to_uppercase(s: &str) -> (r: String)
    ensures
        r@ == unicode_uppercase(s@),
{
    s.to_uppercase()
}

/// `String::from_utf8_lossy`: the result depends on the bytes alone, and on
/// well-formed UTF-8 it is the decoded text.
#[verifier::external_body]
pub(crate) fn decode_lossy(bytes: &Vec<u8>) -> (r: String)
    ensures
        r@ == utf8_lossy(bytes@),
        vstd::utf8::valid_utf8(bytes@) ==> r@ == vstd::utf8::decode_utf8(bytes@),
{
    String::from_utf8_lossy(bytes).into_owned()
}

/// `std::str::from_utf8`: the text of the bytes where they are well-formed
/// UTF-8, and nothing otherwise.
#[verifier::external_body]
pub(crate) fn decode_strict(bytes: &Vec<u8>) -> (r: Option<String>)
    ensures
        r is Some <==> vstd::utf8::valid_utf8(bytes@),
        r matches Some(s) ==> s@ == vstd::utf8::decode_utf8(bytes@),
{
    match std::str::from_utf8(bytes) {
        Ok(s) => Some(s.to_string()),
        Err(_) => None,
    }
}

/// `String::push`: appends one character.
#[verifier::external_body]
pub(crate) fn push_char(s: &mut String, c: char)
    ensures
        final(s)@ == old(s)@.push(c),
{
    s.push(c)
}

/// The numeral of one decimal digit.
pub open spec fn digit(d: nat) -> char {
    if d == 0 {
        '0'
    } else if d == 1 {
        '1'
    } else if d == 2 {
        '2'
    } else if d == 3 {
        '3'
    } else if d == 4 {
        '4'
    } else if d == 5 {
        '5'
    } else if d == 6 {
        '6'
    } else if d == 7 {
        '7'
    } else if d == 8 {
        '8'
    } else {
        '9'
    }
}

/// The decimal numeral of a natural number, without leading zeros.
pub open spec fn decimal(n: nat) -> Seq<char>
    decreases n,
{
    if n < 10 {
        seq![digit(n)]
    } else {
        decimal(n / 10).push(digit(n % 10))
    }
}

/// The decimal numeral of an integer, with `-` before a negative one.
pub open spec fn signed_decimal(i: int) -> Seq<char> {
    if i < 0 {
        seq!['-'] + decimal((-i) as nat)
    } else {
        decimal(i as nat)
    }
}

fn digit_of(d: u64) -> (c: char)
    requires
        d < 10,
    ensures
        c == digit(d as nat),
{
    if d == 0 {
        '0'
    } else if d == 1 {
        '1'
    } else if d == 2 {
        '2'
    } else if d == 3 {
        '3'
    } else if d == 4 {
        '4'
    } else if d == 5 {
        '5'
    } else if d == 6 {
        '6'
    } else if d == 7 {
        '7'
    } else if d == 8 {
        '8'
    } else {
        '9'
    }
}

/// Appends the decimal numeral of `n` to `out`.
pub fn push_decimal(out: &mut String, n: u64)
    ensures
        final(out)@ == old(out)@ + decimal(n as nat),
    decreases n,
{
    if n >= 10 {
        push_decimal(out, n / 10);
    }
    push_char(out, digit_of(n % 10));
}

/// Appends the decimal numeral of `i` to `out`.
pub fn push_signed_decimal(out: &mut String, i: i64)
    ensures
        final(out)@ == old(out)@ + signed_decimal(i as int),
{
    if i < 0 {
        push_char(out, '-');
        let magnitude: u64 = ((-(i + 1)) as u64) + 1;
        push_decimal(out, magnitude);
    } else {
        push_decimal(out, i as u64);
    }
}

/// The characters of `s`, in order.
pub fn to_chars(s: &str) -> (v: Vec<char>)
    ensures
        v@ == s@,
{
    broadcast use vstd::string::group_string_axioms;

    let mut v: Vec<char> = Vec::new();
    for c in it: s.chars()
        invariant
            it.seq() == s@,
            v@ == s@.take(it.index() as int),
    {
        v.push(c);
    }
    v
}

/// Whether two texts hold the same characters.
pub fn text_eq(a: &str, b: &str) -> (r: bool)
    ensures
        r == (a@ == b@),
{
    broadcast use vstd::utf8::encode_utf8_decode_utf8;

    let x = a.as_bytes();
    let y = b.as_bytes();
    if x.len() != y.len() {
        return false;
    }
    let mut i: usize = 0;
    while i < x.len()
        invariant
            x@ == a.spec_bytes(),
            y@ == b.spec_bytes(),
            x@.len() == y@.len(),
            i <= x@.len(),
            x@.take(i as int) == y@.take(i as int),
        decreases x@.len() - i,
    {
        if x[i] != y[i] {
            return false;
        }
        i += 1;
    }
    assert(x@ == x@.take(i as int));
    assert(y@ == y@.take(i as int));
    assert(vstd::utf8::decode_utf8(vstd::utf8::encode_utf8(a@)) == a@);
    assert(vstd::utf8::decode_utf8(vstd::utf8::encode_utf8(b@)) == b@);
    true
}

/// The text held by the characters `chars[from..to]`.
pub fn text_of(chars: &Vec<char>, from: usize, to: usize) -> (r: String)
    requires
        from <= to <= chars.len(),
    ensures
        r@ == chars@.subrange(from as int, to as int),
{
    let mut out = String::new();
    let mut i: usize = from;
    while i < to
        invariant
            from <= i <= to <= chars.len(),
            out@ == chars@.subrange(from as int, i as int),
        decreases to - i,
    {
        push_char(&mut out, chars[i]);
        i += 1;
    }
    out
}

/// The view of an optional string.
pub open spec fn optional_string(o: Option<String>) -> Option<Seq<char>> {
    match o {
        Some(s) => Some(s@),
        None => None,
    }
}

/// The view of an optional string slice.
pub open spec fn optional_str(o: Option<&str>) -> Option<Seq<char>> {
    match o {
        Some(s) => Some(s@),
        None => None,
    }
}

/// The views of a sequence of strings.
pub open spec fn texts(v: Seq<String>) -> Seq<Seq<char>> {
    v.map_values(|s: String| s@)
}

/// The parts in order, with `sep` between each two neighbours.
pub open spec fn joined(parts: Seq<Seq<char>>, sep: Seq<char>) -> Seq<char>
    decreases parts.len(),
{
    if parts.len() == 0 {
        Seq::empty()
    } else if parts.len() == 1 {
        parts[0]
    } else {
        joined(parts.drop_last(), sep) + sep + parts.last()
    }
}

/// Joins the parts with `sep` between each two neighbours.
pub fn join(parts: &Vec<String>, sep: &str) -> (r: String)
    ensures
        r@ == joined(texts(parts@), sep@),
{
    let mut out = String::new();
    let mut i: usize = 0;
    while i < parts.len()
        invariant
            i <= parts.len(),
            out@ == joined(texts(parts@).take(i as int), sep@),
        decreases parts.len() - i,
    {
        let ghost before = texts(parts@).take(i as int);
        let ghost after = texts(parts@).take(i + 1);
        assert(after.drop_last() == before);
        if i > 0 {
            out.append(sep);
        }
        out.append(parts[i].as_str());
        i += 1;
    }
    assert(texts(parts@).take(i as int) == texts(parts@));
    out
}

/// For each character of a text, whether it is whitespace.
pub open spec fn blanks(s: Seq<char>) -> Seq<bool> {
    s.map_values(|c: char| unicode_whitespace(c))
}

/// Tells for each character whether it is whitespace.
pub fn mark_blanks(chars: &Vec<char>) -> (r: Vec<bool>)
    ensures
        r@ == blanks(chars@),
{
    let mut marks: Vec<bool> = Vec::new();
    let mut i: usize = 0;
    while i < chars.len()
        invariant
            i <= chars.len(),
            marks.len() == i,
            forall|j: int| 0 <= j < i ==> marks@[j] == unicode_whitespace(chars@[j]),
        decreases chars.len() - i,
    {
        marks.push(is_whitespace(chars[i]));
        i += 1;
    }
    marks
}

/// The first place at or after `i` that is not marked, or the end.
pub open spec fn skip_marked(blank: Seq<bool>, i: int) -> int
    decreases blank.len() - i,
{
    if 0 <= i < blank.len() && blank[i] {
        skip_marked(blank, i + 1)
    } else {
        i
    }
}

/// The end of the text before `j` once the marked places before `j` are left
/// off, going back no further than `i`.
pub open spec fn back_marked(blank: Seq<bool>, i: int, j: int) -> int
    decreases j - i,
{
    if i < j <= blank.len() && blank[j - 1] {
        back_marked(blank, i, j - 1)
    } else {
        j
    }
}

/// The text without the marked characters at its two ends.
pub open spec fn trimmed_by(s: Seq<char>, blank: Seq<bool>) -> Seq<char> {
    s.subrange(skip_marked(blank, 0), back_marked(blank, skip_marked(blank, 0), s.len() as int))
}

/// The text without whitespace at either end.
pub open spec fn trimmed(s: Seq<char>) -> Seq<char> {
    trimmed_by(s, blanks(s))
}

/// What is left of a trimmed text begins and ends with an unmarked
/// character, and nothing but marked characters was taken away.
pub proof fn trimmed_has_unmarked_ends(s: Seq<char>, blank: Seq<bool>)
    requires
        blank.len() == s.len(),
    ensures
        ({
            let from = skip_marked(blank, 0);
            let to = back_marked(blank, from, s.len() as int);
            &&& 0 <= from <= to <= s.len()
            &&& forall|k: int| 0 <= k < from ==> blank[k]
            &&& forall|k: int| to <= k < s.len() ==> blank[k]
            &&& from < to ==> !blank[from] && !blank[to - 1]
        }),
{
    skip_marked_bounds(blank, 0);
    let from = skip_marked(blank, 0);
    back_marked_bounds(blank, from, s.len() as int);
}

proof fn skip_marked_bounds(blank: Seq<bool>, i: int)
    requires
        0 <= i <= blank.len(),
    ensures
        i <= skip_marked(blank, i) <= blank.len(),
        forall|k: int| i <= k < skip_marked(blank, i) ==> blank[k],
        skip_marked(blank, i) < blank.len() ==> !blank[skip_marked(blank, i)],
    decreases blank.len() - i,
{
    if i < blank.len() && blank[i] {
        skip_marked_bounds(blank, i + 1);
    }
}

proof fn back_marked_bounds(blank: Seq<bool>, i: int, j: int)
    requires
        0 <= i <= j <= blank.len(),
    ensures
        i <= back_marked(blank, i, j) <= j,
        forall|k: int| back_marked(blank, i, j) <= k < j ==> blank[k],
        i < back_marked(blank, i, j) ==> !blank[back_marked(blank, i, j) - 1],
    decreases j - i,
{
    if i < j && blank[j - 1] {
        back_marked_bounds(blank, i, j - 1);
    }
}

proof fn skip_marked_shifts(before: Seq<bool>, blank: Seq<bool>, i: int)
    requires
        0 <= i <= blank.len(),
    ensures
        skip_marked(before + blank, before.len() + i) == before.len() + skip_marked(blank, i),
    decreases blank.len() - i,
{
    if i < blank.len() && blank[i] {
        skip_marked_shifts(before, blank, i + 1);
    }
}

proof fn skip_marked_passes(before: Seq<bool>, blank: Seq<bool>, i: int)
    requires
        0 <= i <= before.len(),
        forall|k: int| 0 <= k < before.len() ==> before[k],
    ensures
        skip_marked(before + blank, i) == skip_marked(before + blank, before.len() as int),
    decreases before.len() - i,
{
    if i < before.len() {
        skip_marked_passes(before, blank, i + 1);
    }
}

proof fn back_marked_shifts(before: Seq<bool>, blank: Seq<bool>, i: int, j: int)
    requires
        0 <= i <= j <= blank.len(),
    ensures
        back_marked(before + blank, before.len() + i, before.len() + j) == before.len()
            + back_marked(blank, i, j),
    decreases j - i,
{
    if i < j && blank[j - 1] {
        back_marked_shifts(before, blank, i, j - 1);
    }
}

/// Whitespace before a text does not change what trimming leaves of it.
pub proof fn trimmed_ignores_leading_whitespace(space: Seq<char>, s: Seq<char>)
    requires
        forall|k: int| 0 <= k < space.len() ==> unicode_whitespace(space[k]),
    ensures
        trimmed(space + s) == trimmed(s),
{
    let before = blanks(space);
    let blank = blanks(s);
    assert(blanks(space + s) == before + blank);
    skip_marked_passes(before, blank, 0);
    skip_marked_shifts(before, blank, 0);
    skip_marked_bounds(blank, 0);
    let from = skip_marked(blank, 0);
    back_marked_shifts(before, blank, from, s.len() as int);
    back_marked_bounds(blank, from, s.len() as int);
    let to = back_marked(blank, from, s.len() as int);
    assert((space + s).subrange(space.len() + from, space.len() + to) == s.subrange(from, to));
}

/// The characters without the marked ones at the two ends.
pub fn trim_marked(chars: &Vec<char>, blank: &Vec<bool>) -> (r: String)
    requires
        blank.len() == chars.len(),
    ensures
        r@ == trimmed_by(chars@, blank@),
{
    let mut from: usize = 0;
    while from < chars.len() && blank[from]
        invariant
            blank.len() == chars.len(),
            from <= chars.len(),
            skip_marked(blank@, 0) == skip_marked(blank@, from as int),
        decreases chars.len() - from,
    {
        from += 1;
    }
    let mut to: usize = chars.len();
    while to > from && blank[to - 1]
        invariant
            blank.len() == chars.len(),
            from <= to <= chars.len(),
            back_marked(blank@, from as int, chars.len() as int) == back_marked(
                blank@,
                from as int,
                to as int,
            ),
        decreases to - from,
    {
        to -= 1;
    }
    text_of(chars, from, to)
}

/// The text of `s` without whitespace at either end.
pub fn trim(s: &str) -> (r: String)
    ensures
        r@ == trimmed(s@),
{
    let chars = to_chars(s);
    let marks = mark_blanks(&chars);
    trim_marked(&chars, &marks)
}

/// Whether the characters of `prefix` stand at the start of `chars`.
pub fn starts_with(chars: &Vec<char>, prefix: &str) -> (r: bool)
    ensures
        r == prefix@.is_prefix_of(chars@),
{
    let p = to_chars(prefix);
    if p.len() > chars.len() {
        return false;
    }
    let mut i: usize = 0;
    while i < p.len()
        invariant
            p@ == prefix@,
            p.len() <= chars.len(),
            i <= p.len(),
            forall|j: int| 0 <= j < i ==> p@[j] == chars@[j],
        decreases p.len() - i,
    {
        if p[i] != chars[i] {
            return false;
        }
        i += 1;
    }
    true
}

/// Where the run of unmarked places that starts at `i` ends.
pub open spec fn word_end(blank: Seq<bool>, i: int) -> int
    decreases blank.len() - i,
{
    if 0 <= i < blank.len() && !blank[i] {
        word_end(blank, i + 1)
    } else {
        i
    }
}

/// A run ends at or after its start, within the text.
pub proof fn word_end_bounds(blank: Seq<bool>, i: int)
    requires
        0 <= i <= blank.len(),
    ensures
        i <= word_end(blank, i) <= blank.len(),
    decreases blank.len() - i,
{
    if i < blank.len() && !blank[i] {
        word_end_bounds(blank, i + 1);
    }
}

/// The words of `s` from `i` on: the maximal runs of unmarked characters, in
/// order.
pub open spec fn words_from(s: Seq<char>, blank: Seq<bool>, i: int) -> Seq<Seq<char>>
    decreases blank.len() - i,
{
    if i < 0 || i >= blank.len() {
        Seq::empty()
    } else if blank[i] {
        words_from(s, blank, i + 1)
    } else {
        proof {
            word_end_bounds(blank, i + 1);
        }
        seq![s.subrange(i, word_end(blank, i + 1))] + words_from(s, blank, word_end(blank, i + 1))
    }
}

/// Whether `word` is the run of `s` that starts at `a`, holds at least one
/// character and no marked one.
pub open spec fn is_unmarked_run(s: Seq<char>, blank: Seq<bool>, a: int, word: Seq<char>) -> bool {
    &&& 0 <= a
    &&& word.len() > 0
    &&& a + word.len() <= s.len()
    &&& word == s.subrange(a, a + word.len())
    &&& forall|k: int| a <= k < a + word.len() ==> !blank[k]
}

/// Whether `word` is such a run of `s` at or after `i`.
pub open spec fn is_unmarked_run_from(s: Seq<char>, blank: Seq<bool>, i: int, word: Seq<char>) -> bool {
    exists|a: int| i <= a && #[trigger] is_unmarked_run(s, blank, a, word)
}

/// Every word is a run of the text that holds at least one character and no
/// marked one.
pub proof fn words_are_unmarked_runs(s: Seq<char>, blank: Seq<bool>, i: int)
    requires
        blank.len() == s.len(),
        0 <= i,
    ensures
        forall|w: int|
            0 <= w < words_from(s, blank, i).len() ==> is_unmarked_run_from(
                s,
                blank,
                i,
                #[trigger] words_from(s, blank, i)[w],
            ),
    decreases blank.len() - i,
{
    if i >= blank.len() {
    } else if blank[i] {
        words_are_unmarked_runs(s, blank, i + 1);
        assert forall|w: int| 0 <= w < words_from(s, blank, i).len() implies is_unmarked_run_from(
            s,
            blank,
            i,
            #[trigger] words_from(s, blank, i)[w],
        ) by {
            let word = words_from(s, blank, i + 1)[w];
            let a = choose|a: int| i + 1 <= a && #[trigger] is_unmarked_run(s, blank, a, word);
            assert(i <= a && is_unmarked_run(s, blank, a, word));
        }
    } else {
        let end = word_end(blank, i + 1);
        word_end_bounds(blank, i + 1);
        word_end_is_unmarked(blank, i + 1);
        words_are_unmarked_runs(s, blank, end);
        let first = s.subrange(i, end);
        let rest = words_from(s, blank, end);
        assert forall|w: int| 0 <= w < words_from(s, blank, i).len() implies is_unmarked_run_from(
            s,
            blank,
            i,
            #[trigger] words_from(s, blank, i)[w],
        ) by {
            let word = words_from(s, blank, i)[w];
            if w == 0 {
                assert(word == first);
                assert(is_unmarked_run(s, blank, i, word));
            } else {
                assert(word == rest[w - 1]);
                let a = choose|a: int| end <= a && #[trigger] is_unmarked_run(s, blank, a, word);
                assert(i <= a && is_unmarked_run(s, blank, a, word));
            }
        }
    }
}

proof fn word_end_is_unmarked(blank: Seq<bool>, i: int)
    requires
        0 <= i <= blank.len(),
    ensures
        forall|k: int| i <= k < word_end(blank, i) ==> !blank[k],
    decreases blank.len() - i,
{
    if i < blank.len() && !blank[i] {
        word_end_is_unmarked(blank, i + 1);
    }
}

/// The words of a text: what stands between its whitespace.
pub open spec fn words(s: Seq<char>) -> Seq<Seq<char>> {
    words_from(s, blanks(s), 0)
}

/// Splits the characters into words at the marked ones.
pub fn split_marked(chars: &Vec<char>, blank: &Vec<bool>) -> (r: Vec<String>)
    requires
        blank.len() == chars.len(),
    ensures
        texts(r@) == words_from(chars@, blank@, 0),
{
    let mut out: Vec<String> = Vec::new();
    let mut i: usize = 0;
    while i < chars.len()
        invariant
            blank.len() == chars.len(),
            i <= chars.len(),
            words_from(chars@, blank@, 0) == texts(out@) + words_from(chars@, blank@, i as int),
        decreases chars.len() - i,
    {
        if blank[i] {
            i += 1;
        } else {
            let start = i;
            i += 1;
            while i < chars.len() && !blank[i]
                invariant
                    blank.len() == chars.len(),
                    start < i <= chars.len(),
                    word_end(blank@, start + 1) == word_end(blank@, i as int),
                decreases chars.len() - i,
            {
                i += 1;
            }
            let word = text_of(chars, start, i);
            out.push(word);
        }
    }
    out
}

/// Splits a text into its words.
pub fn split_whitespace(s: &str) -> (r: Vec<String>)
    ensures
        texts(r@) == words(s@),
{
    let chars = to_chars(s);
    let marks = mark_blanks(&chars);
    split_marked(&chars, &marks)
}

} // verus!
