//! Characters, words and decimal numbers.

use vstd::prelude::*;
use vstd::string::*;

verus! {

/// Whether `c` is white space in the sense of Unicode's `White_Space` property.
pub open spec fn is_space(c: char) -> bool {
    let u = c as u32;
    ||| 0x09 <= u <= 0x0D
    ||| u == 0x20
    ||| u == 0x85
    ||| u == 0xA0
    ||| u == 0x1680
    ||| 0x2000 <= u <= 0x200A
    ||| u == 0x2028
    ||| u == 0x2029
    ||| u == 0x202F
    ||| u == 0x205F
    ||| u == 0x3000
}

/// Tells white space from everything else.
pub fn char_is_space(c: char) -> (b: bool)
    ensures
        b == is_space(c),
{
    let u: u32 = c as u32;
    (0x09 <= u && u <= 0x0D) || u == 0x20 || u == 0x85 || u == 0xA0 || u == 0x1680 || (0x2000 <= u
        && u <= 0x200A) || u == 0x2028 || u == 0x2029 || u == 0x202F || u == 0x205F || u == 0x3000
}

/// The characters of `s`, in order.
pub fn chars_of(s: &str) -> (v: Vec<char>)
    ensures
        v@ == s@,
{
    let mut v: Vec<char> = Vec::new();
    let chars = s.chars();
    for c in it: chars
        invariant
            it.seq() == s@,
            v@ == it.seq().take(it.index() as int),
    {
        v.push(c);
    }
    v
}

/// The first position at or after `from` that holds no white space; the
/// length of `s` if there is none.
pub open spec fn skip_spaces(s: Seq<char>, from: int) -> int
    decreases s.len() - from,
{
    if 0 <= from < s.len() && is_space(s[from]) {
        skip_spaces(s, from + 1)
    } else {
        from
    }
}

/// The first position at or after `from` that holds white space; the length
/// of `s` if there is none.
pub open spec fn skip_word(s: Seq<char>, from: int) -> int
    decreases s.len() - from,
{
    if 0 <= from < s.len() && !is_space(s[from]) {
        skip_word(s, from + 1)
    } else {
        from
    }
}

/// The words of `s` that begin at or after `from`: the maximal runs of
/// characters that are no white space, in order.
pub open spec fn words_from(s: Seq<char>, from: int) -> Seq<Seq<char>>
    decreases s.len() - from,
{
    let start = skip_spaces(s, from);
    let end = skip_word(s, start);
    if 0 <= from <= start < end <= s.len() {
        seq![s.subrange(start, end)] + words_from(s, end)
    } else {
        Seq::empty()
    }
}

/// The words of `s`, split at white space.
pub open spec fn words(s: Seq<char>) -> Seq<Seq<char>> {
    words_from(s, 0)
}

/// `skip_spaces` stops inside the text, on the first character that is no
/// white space, and passes over white space only.
pub proof fn lemma_skip_spaces(s: Seq<char>, from: int)
    requires
        0 <= from <= s.len(),
    ensures
        from <= skip_spaces(s, from) <= s.len(),
        skip_spaces(s, from) < s.len() ==> !is_space(s[skip_spaces(s, from)]),
        forall|i: int| from <= i < skip_spaces(s, from) ==> is_space(s[i]),
    decreases s.len() - from,
{
    if from < s.len() && is_space(s[from]) {
        lemma_skip_spaces(s, from + 1);
    }
}

/// `skip_word` stops inside the text, on the first white space, and passes
/// over other characters only.
pub proof fn lemma_skip_word(s: Seq<char>, from: int)
    requires
        0 <= from <= s.len(),
    ensures
        from <= skip_word(s, from) <= s.len(),
        skip_word(s, from) < s.len() ==> is_space(s[skip_word(s, from)]),
        forall|i: int| from <= i < skip_word(s, from) ==> !is_space(s[i]),
        from < s.len() && !is_space(s[from]) ==> from < skip_word(s, from),
    decreases s.len() - from,
{
    if from < s.len() && !is_space(s[from]) {
        lemma_skip_word(s, from + 1);
    }
}

/// Whether `s` holds no white space.
pub open spec fn has_no_space(s: Seq<char>) -> bool {
    forall|i: int| 0 <= i < s.len() ==> !is_space(#[trigger] s[i])
}

/// Whether `s` holds white space only.
pub open spec fn is_blank(s: Seq<char>) -> bool {
    forall|i: int| 0 <= i < s.len() ==> is_space(#[trigger] s[i])
}

/// What stands before a position does not count for the words behind it:
/// the words of `s` from `from` on are those of `head + s` from the same
/// place on.
pub proof fn lemma_words_behind(head: Seq<char>, s: Seq<char>, from: int)
    requires
        0 <= from <= s.len(),
    ensures
        skip_spaces(head + s, head.len() + from) == head.len() + skip_spaces(s, from),
        skip_word(head + s, head.len() + from) == head.len() + skip_word(s, from),
        words_from(head + s, head.len() + from) == words_from(s, from),
    decreases s.len() - from, 2nat,
{
    lemma_skips_behind(head, s, from);
    lemma_skip_spaces(s, from);
    let start = skip_spaces(s, from);
    lemma_skips_behind(head, s, start);
    lemma_skip_word(s, start);
    let end = skip_word(s, start);
    if start < end {
        lemma_words_behind(head, s, end);
        assert((head + s).subrange(head.len() + start, head.len() + end) =~= s.subrange(
            start,
            end,
        ));
    }
}

/// What stands before a position does not count for what is passed over
/// from there.
proof fn lemma_skips_behind(head: Seq<char>, s: Seq<char>, from: int)
    requires
        0 <= from <= s.len(),
    ensures
        skip_spaces(head + s, head.len() + from) == head.len() + skip_spaces(s, from),
        skip_word(head + s, head.len() + from) == head.len() + skip_word(s, from),
    decreases s.len() - from, 1nat,
{
    if from < s.len() {
        assert((head + s)[head.len() + from] == s[from]);
        lemma_skips_behind(head, s, from + 1);
    }
}

/// White space before a text adds no word to it.
pub proof fn lemma_words_after_blank(blank: Seq<char>, s: Seq<char>)
    requires
        is_blank(blank),
    ensures
        words(blank + s) == words(s),
    decreases blank.len(),
{
    if blank.len() == 0 {
        assert(blank + s =~= s);
    } else {
        let whole = blank + s;
        let rest = blank.skip(1) + s;
        assert(is_space(blank[0]));
        assert(whole[0] == blank[0]);
        assert(whole =~= seq![blank[0]] + rest);
        assert(is_blank(blank.skip(1))) by {
            assert forall|i: int| 0 <= i < blank.skip(1).len() implies is_space(
                #[trigger] blank.skip(1)[i],
            ) by {
                assert(blank.skip(1)[i] == blank[i + 1]);
            }
        }
        lemma_words_after_blank(blank.skip(1), s);
        lemma_words_behind(seq![blank[0]], rest, 0);
        lemma_skips_behind(seq![blank[0]], rest, 0);
        assert(skip_spaces(whole, 0) == skip_spaces(whole, 1));
        assert(words_from(whole, 0) == words_from(whole, 1)) by {
            lemma_skip_spaces(whole, 1);
        }
    }
}

/// A run of characters that are no white space, followed by nothing or by
/// white space, is the first word of a text, and the words of what follows
/// come behind it.
pub proof fn lemma_words_after_word(word: Seq<char>, s: Seq<char>)
    requires
        word.len() > 0,
        has_no_space(word),
        s.len() > 0 ==> is_space(s[0]),
    ensures
        words(word + s) == seq![word] + words(s),
{
    let whole = word + s;
    assert(!is_space(whole[0])) by {
        assert(whole[0] == word[0]);
    }
    assert(skip_spaces(whole, 0) == 0);
    lemma_word_is_passed(word, s, 0);
    assert(skip_word(whole, 0) == word.len());
    assert(whole.subrange(0, word.len() as int) =~= word);
    lemma_words_behind(word, s, 0);
}

/// A word is passed over as a whole.
proof fn lemma_word_is_passed(word: Seq<char>, s: Seq<char>, from: int)
    requires
        0 <= from <= word.len(),
        has_no_space(word),
        s.len() > 0 ==> is_space(s[0]),
    ensures
        skip_word(word + s, from) == word.len(),
    decreases word.len() - from,
{
    let whole = word + s;
    if from < word.len() {
        assert(whole[from] == word[from]);
        lemma_word_is_passed(word, s, from + 1);
    } else if s.len() > 0 {
        assert(whole[from] == s[0]);
    }
}

/// Every word holds a character at least, and none that is white space.
pub proof fn lemma_words_are_words(s: Seq<char>, from: int, n: int)
    requires
        0 <= from <= s.len(),
        0 <= n < words_from(s, from).len(),
    ensures
        words_from(s, from)[n].len() > 0,
        has_no_space(words_from(s, from)[n]),
    decreases s.len() - from,
{
    lemma_skip_spaces(s, from);
    let start = skip_spaces(s, from);
    lemma_skip_word(s, start);
    let end = skip_word(s, start);
    if n > 0 {
        lemma_words_are_words(s, end, n - 1);
    }
}

/// Runs `skip_spaces` on a vector of characters.
pub fn scan_spaces(s: &Vec<char>, from: usize) -> (to: usize)
    ensures
        to == skip_spaces(s@, from as int),
        from <= to,
        from <= s.len() ==> to <= s.len(),
{
    let mut to: usize = from;
    while to < s.len() && char_is_space(s[to])
        invariant
            from <= to,
            from <= s.len() ==> to <= s.len(),
            skip_spaces(s@, from as int) == skip_spaces(s@, to as int),
        decreases s.len() - to,
    {
        to = to + 1;
    }
    to
}

/// Runs `skip_word` on a vector of characters.
pub fn scan_word(s: &Vec<char>, from: usize) -> (to: usize)
    ensures
        to == skip_word(s@, from as int),
        from <= to,
        from <= s.len() ==> to <= s.len(),
{
    let mut to: usize = from;
    while to < s.len() && !char_is_space(s[to])
        invariant
            from <= to,
            from <= s.len() ==> to <= s.len(),
            skip_word(s@, from as int) == skip_word(s@, to as int),
        decreases s.len() - to,
    {
        to = to + 1;
    }
    to
}

/// Where the word number `n` (from zero) of `s` begins and ends, if `s` has
/// that many words.
pub fn nth_word(s: &Vec<char>, n: usize) -> (r: Option<(usize, usize)>)
    ensures
        r is Some <==> n < words(s@).len(),
        r matches Some((start, end)) ==> start <= end <= s.len() && words(s@)[n as int]
            == s@.subrange(start as int, end as int),
{
    let mut pos: usize = 0;
    let mut k: usize = 0;
    loop
        invariant
            pos <= s.len(),
            k <= n,
            k <= words(s@).len(),
            words(s@).skip(k as int) == words_from(s@, pos as int),
        decreases n - k,
    {
        let start = scan_spaces(s, pos);
        let end = scan_word(s, start);
        proof {
            lemma_skip_spaces(s@, pos as int);
            lemma_skip_word(s@, start as int);
        }
        if start == s.len() {
            return None;
        }
        assert(words_from(s@, pos as int) == seq![s@.subrange(start as int, end as int)]
            + words_from(s@, end as int));
        assert(words(s@)[k as int] == words(s@).skip(k as int)[0]);
        if k == n {
            return Some((start, end));
        }
        assert(words(s@).skip(k as int + 1) == words_from(s@, end as int)) by {
            assert(words(s@).skip(k as int + 1) =~= words(s@).skip(k as int).skip(1));
            assert(words_from(s@, pos as int).skip(1) =~= words_from(s@, end as int));
        }
        pos = end;
        k = k + 1;
    }
}

/// The length of the first line of `s`: the position of its first line feed,
/// or the length of `s` if it has none.
pub open spec fn line_end(s: Seq<char>, from: int) -> int
    decreases s.len() - from,
{
    if 0 <= from < s.len() && s[from] != '\n' {
        line_end(s, from + 1)
    } else {
        from
    }
}

/// The first line of `s`, without its line feed.
pub open spec fn first_line(s: Seq<char>) -> Seq<char> {
    s.take(line_end(s, 0))
}

/// The characters of the first line of `s`.
pub fn first_line_of(s: &str) -> (line: Vec<char>)
    ensures
        line@ == first_line(s@),
{
    let mut line = chars_of(s);
    let mut end: usize = 0;
    while end < line.len() && line[end] != '\n'
        invariant
            end <= line.len(),
            line@ == s@,
            line_end(s@, 0) == line_end(s@, end as int),
        decreases line.len() - end,
    {
        end = end + 1;
    }
    line.truncate(end);
    line
}

/// The character that stands for the digit `d`.
pub open spec fn digit_char(d: nat) -> char
    recommends
        d < 10,
{
    ((48 + d) as u8) as char
}

/// The digit that `c` stands for.
pub open spec fn digit_of(c: char) -> nat
    recommends
        is_digit(c),
{
    (c as u32 - 48) as nat
}

/// Whether `c` is one of the ten decimal digits.
pub open spec fn is_digit(c: char) -> bool {
    '0' <= c <= '9'
}

/// Whether `s` holds decimal digits only.
pub open spec fn all_digits(s: Seq<char>) -> bool {
    forall|i: int| 0 <= i < s.len() ==> is_digit(#[trigger] s[i])
}

/// `n` in decimal notation: most significant digit first, no leading zero,
/// `"0"` for zero.
pub open spec fn decimal(n: nat) -> Seq<char>
    decreases n,
{
    if n < 10 {
        seq![digit_char(n)]
    } else {
        decimal(n / 10).push(digit_char(n % 10))
    }
}

/// `n` in decimal notation, with a minus sign before a negative number.
pub open spec fn signed_decimal(n: int) -> Seq<char> {
    if n < 0 {
        seq!['-'] + decimal((-n) as nat)
    } else {
        decimal(n as nat)
    }
}

/// The number that the digits `s` denote; leading zeros count for nothing.
pub open spec fn number(s: Seq<char>) -> nat
    decreases s.len(),
{
    if s.len() == 0 {
        0
    } else {
        number(s.drop_last()) * 10 + digit_of(s.last())
    }
}

/// `s` without the plus sign that it may begin with.
pub open spec fn unsigned_part(s: Seq<char>) -> Seq<char> {
    if s.len() > 0 && s[0] == '+' {
        s.skip(1)
    } else {
        s
    }
}

/// What `s` denotes as an unsigned 32-bit number: an optional plus sign, then
/// one decimal digit or more, the whole no greater than `u32::MAX`.
pub open spec fn parse_u32(s: Seq<char>) -> Option<u32> {
    let digits = unsigned_part(s);
    if digits.len() > 0 && all_digits(digits) && number(digits) <= u32::MAX {
        Some(number(digits) as u32)
    } else {
        None
    }
}

/// A longer run of digits denotes no smaller a number than its beginning.
pub proof fn lemma_number_grows(s: Seq<char>, k: int)
    requires
        0 <= k <= s.len(),
    ensures
        number(s.take(k)) <= number(s),
    decreases s.len(),
{
    if k < s.len() {
        assert(s.drop_last().take(k) == s.take(k));
        lemma_number_grows(s.drop_last(), k);
    } else {
        assert(s.take(k) == s);
    }
}

/// Reads the characters of `s` from `start` to `end` as an unsigned 32-bit
/// number.
pub fn read_u32(s: &Vec<char>, start: usize, end: usize) -> (r: Option<u32>)
    requires
        start <= end <= s.len(),
    ensures
        r == parse_u32(s@.subrange(start as int, end as int)),
{
    let ghost token = s@.subrange(start as int, end as int);
    let first: usize = if start < end && s[start] == '+' {
        start + 1
    } else {
        start
    };
    let ghost digits = s@.subrange(first as int, end as int);
    assert(digits == unsigned_part(token));
    if first == end {
        return None;
    }
    let mut value: u64 = 0;
    let mut i: usize = first;
    while i < end
        invariant
            first <= i <= end <= s.len(),
            digits == s@.subrange(first as int, end as int),
            digits == unsigned_part(s@.subrange(start as int, end as int)),
            all_digits(digits.take(i - first)),
            value == number(digits.take(i - first)),
            value <= u32::MAX,
        decreases end - i,
    {
        let c = s[i];
        let ghost shorter = digits.take(i - first);
        let ghost longer = digits.take(i - first + 1);
        assert(longer.drop_last() == shorter);
        assert(longer.last() == c);
        if !('0' <= c && c <= '9') {
            assert(!is_digit(digits[i - first]));
            return None;
        }
        value = value * 10 + (c as u64 - 48);
        assert(value == number(longer));
        if value > u32::MAX as u64 {
            proof {
                lemma_number_grows(digits, i - first + 1);
            }
            return None;
        }
        assert forall|j: int| 0 <= j < longer.len() implies is_digit(#[trigger] longer[j]) by {
            if j < shorter.len() {
                assert(longer[j] == shorter[j]);
            }
        }
        i = i + 1;
    }
    assert(digits.take(end - first) == digits);
    Some(value as u32)
}

/// The decimal digit `d` as text.
fn digit_str(d: u32) -> (s: &'static str)
    requires
        d < 10,
    ensures
        s@ == seq![digit_char(d as nat)],
{
    proof {
        reveal_strlit("0");
        reveal_strlit("1");
        reveal_strlit("2");
        reveal_strlit("3");
        reveal_strlit("4");
        reveal_strlit("5");
        reveal_strlit("6");
        reveal_strlit("7");
        reveal_strlit("8");
        reveal_strlit("9");
    }
    let s = match d {
        0 => "0",
        1 => "1",
        2 => "2",
        3 => "3",
        4 => "4",
        5 => "5",
        6 => "6",
        7 => "7",
        8 => "8",
        _ => "9",
    };
    assert(s@ =~= seq![digit_char(d as nat)]);
    s
}

/// Writes `n` in decimal notation.
pub fn u32_to_string(n: u32) -> (s: String)
    ensures
        s@ == decimal(n as nat),
    decreases n,
{
    if n < 10 {
        String::from_str(digit_str(n))
    } else {
        let mut s = u32_to_string(n / 10);
        s.append(digit_str(n % 10));
        s
    }
}

/// Writes `n` in decimal notation, with a minus sign if it is negative.
pub fn i32_to_string(n: i32) -> (s: String)
    ensures
        s@ == signed_decimal(n as int),
{
    if n < 0 {
        let magnitude: i64 = -(n as i64);
        let mut s = String::from_str("-");
        proof {
            reveal_strlit("-");
        }
        let digits = u32_to_string(magnitude as u32);
        s.append(digits.as_str());
        assert(s@ =~= seq!['-'] + decimal((-n) as nat));
        s
    } else {
        u32_to_string(n as u32)
    }
}

/// The decimal notation of a number holds digits only and denotes that
/// number.
pub proof fn lemma_decimal_denotes(n: nat)
    ensures
        decimal(n).len() > 0,
        all_digits(decimal(n)),
        number(decimal(n)) == n,
    decreases n,
{
    if n < 10 {
        assert(decimal(n).drop_last() =~= Seq::<char>::empty());
        assert(number(decimal(n).drop_last()) == 0);
    } else {
        lemma_decimal_denotes(n / 10);
        assert(decimal(n).drop_last() =~= decimal(n / 10));
    }
}

/// Reading back the decimal notation of an unsigned 32-bit number gives the
/// number.
pub proof fn lemma_parse_decimal(n: u32)
    ensures
        parse_u32(decimal(n as nat)) == Some(n),
{
    lemma_decimal_denotes(n as nat);
}

} // verus!
