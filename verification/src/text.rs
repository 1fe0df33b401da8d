//! Lines of text as bytes: splitting into words, joining, and reading
//! decimal numbers.

use vstd::prelude::*;

verus! {

/// The byte that separates the words of a name.
pub const BLANK: u8 = 32;

/// The byte that starts a comment.
pub const HASH: u8 = 35;

/// Whether `byte` is ASCII white space: a blank, or one of the controls from
/// tab to carriage return.
pub open spec fn spec_is_space(byte: u8) -> bool {
    byte == 32 || (9 <= byte && byte <= 13)
}

/// Whether `byte` is a decimal digit.
pub open spec fn spec_is_digit(byte: u8) -> bool {
    48 <= byte && byte <= 57
}

/// The texts that a sequence of byte vectors holds.
pub open spec fn spec_views(texts: Seq<Vec<u8>>) -> Seq<Seq<u8>> {
    Seq::new(texts.len(), |i: int| texts[i]@)
}

/// The words of `line` from position `from` on, where `current` holds the
/// bytes of the word that is being read.
pub open spec fn spec_words_from(line: Seq<u8>, from: int, current: Seq<u8>) -> Seq<Seq<u8>>
    decreases line.len() - from,
{
    let finished = if current.len() > 0 {
        seq![current]
    } else {
        Seq::empty()
    };
    if from < 0 || from >= line.len() {
        finished
    } else if spec_is_space(line[from]) {
        finished + spec_words_from(line, from + 1, Seq::empty())
    } else {
        spec_words_from(line, from + 1, current.push(line[from]))
    }
}

/// The words of `line`: its longest runs of bytes that are not white space,
/// in order.
pub open spec fn spec_split_whitespace(line: Seq<u8>) -> Seq<Seq<u8>> {
    spec_words_from(line, 0, Seq::empty())
}

/// The parts of `text` from position `from` on, where `current` holds the
/// bytes of the part that is being read.
pub open spec fn spec_parts_from(text: Seq<u8>, separator: u8, from: int, current: Seq<u8>) -> Seq<
    Seq<u8>,
>
    decreases text.len() - from,
{
    if from < 0 || from >= text.len() {
        seq![current]
    } else if text[from] == separator {
        seq![current] + spec_parts_from(text, separator, from + 1, Seq::empty())
    } else {
        spec_parts_from(text, separator, from + 1, current.push(text[from]))
    }
}

/// The parts of `text` between its separators, in order. A text with `n`
/// separators has `n + 1` parts, some of which may be empty.
pub open spec fn spec_split(text: Seq<u8>, separator: u8) -> Seq<Seq<u8>> {
    spec_parts_from(text, separator, 0, Seq::empty())
}

/// The texts of `parts`, one after the other, with `separator` between
/// them.
pub open spec fn spec_join(parts: Seq<Seq<u8>>, separator: u8) -> Seq<u8>
    decreases parts.len(),
{
    if parts.len() == 0 {
        Seq::empty()
    } else if parts.len() == 1 {
        parts[0]
    } else {
        spec_join(parts.drop_last(), separator) + seq![separator] + parts.last()
    }
}

/// `text` without the white space at its start.
pub open spec fn spec_trim_start(text: Seq<u8>) -> Seq<u8>
    decreases text.len(),
{
    if text.len() > 0 && spec_is_space(text[0]) {
        spec_trim_start(text.drop_first())
    } else {
        text
    }
}

/// `text` without the white space at its end.
pub open spec fn spec_trim_end(text: Seq<u8>) -> Seq<u8>
    decreases text.len(),
{
    if text.len() > 0 && spec_is_space(text.last()) {
        spec_trim_end(text.drop_last())
    } else {
        text
    }
}

/// `text` without the white space at its start and at its end.
pub open spec fn spec_trim(text: Seq<u8>) -> Seq<u8> {
    spec_trim_end(spec_trim_start(text))
}

/// Whether every byte of `text` is a decimal digit.
pub open spec fn spec_all_digits(text: Seq<u8>) -> bool {
    forall|i: int| 0 <= i < text.len() ==> spec_is_digit(#[trigger] text[i])
}

/// The number that the digits of `text` stand for.
pub open spec fn spec_decimal(text: Seq<u8>) -> nat
    decreases text.len(),
{
    if text.len() == 0 {
        0
    } else {
        (spec_decimal(text.drop_last()) * 10 + (text.last() - 48)) as nat
    }
}

/// `text` without a plus sign at its start.
pub open spec fn spec_unsigned_part(text: Seq<u8>) -> Seq<u8> {
    if text.len() > 0 && text[0] == 43 {
        text.skip(1)
    } else {
        text
    }
}

/// The number that `text` stands for: one or more decimal digits, after an
/// optional plus sign, whose value fits.
pub open spec fn spec_parse_usize(text: Seq<u8>) -> Option<usize> {
    let digits = spec_unsigned_part(text);
    if digits.len() > 0 && spec_all_digits(digits) && spec_decimal(digits) <= usize::MAX {
        Some(spec_decimal(digits) as usize)
    } else {
        None
    }
}

/// The number that `text` stands for: one or more decimal digits, after an
/// optional plus or minus sign, whose value fits.
pub open spec fn spec_parse_i32(text: Seq<u8>) -> Option<i32> {
    let negative = text.len() > 0 && text[0] == 45;
    let digits = if negative {
        text.skip(1)
    } else {
        spec_unsigned_part(text)
    };
    if digits.len() > 0 && spec_all_digits(digits) {
        if negative && spec_decimal(digits) <= 0x8000_0000 {
            Some((-(spec_decimal(digits) as int)) as i32)
        } else if !negative && spec_decimal(digits) <= 0x7fff_ffff {
            Some(spec_decimal(digits) as i32)
        } else {
            None
        }
    } else {
        None
    }
}

/// A number does not get smaller when digits are added to it.
pub proof fn decimal_grows(text: Seq<u8>, length: int)
    requires
        0 <= length <= text.len(),
        spec_all_digits(text),
    ensures
        spec_decimal(text.take(length)) <= spec_decimal(text),
    decreases text.len() - length,
{
    if length < text.len() {
        decimal_grows(text, length + 1);
        let longer = text.take(length + 1);
        assert(longer.drop_last() =~= text.take(length));
        assert(spec_is_digit(text[length]));
        assert(longer.last() == text[length]);
    } else {
        assert(text.take(length) =~= text);
    }
}

/// Whether `word` is not empty and holds no white space.
pub open spec fn spec_is_word(word: Seq<u8>) -> bool {
    word.len() > 0 && forall|k: int| 0 <= k < word.len() ==> !spec_is_space(#[trigger] word[k])
}

/// What splitting at white space gives are words: none is empty and none
/// holds white space.
pub proof fn split_gives_words(line: Seq<u8>, from: int, current: Seq<u8>)
    requires
        0 <= from,
        forall|k: int| 0 <= k < current.len() ==> !spec_is_space(#[trigger] current[k]),
    ensures
        forall|i: int|
            0 <= i < spec_words_from(line, from, current).len() ==> spec_is_word(
                #[trigger] spec_words_from(line, from, current)[i],
            ),
    decreases line.len() - from,
{
    let words = spec_words_from(line, from, current);
    if from < line.len() {
        if spec_is_space(line[from]) {
            split_gives_words(line, from + 1, Seq::empty());
            let rest = spec_words_from(line, from + 1, Seq::empty());
            assert forall|i: int| 0 <= i < words.len() implies spec_is_word(#[trigger] words[i]) by {
                if current.len() > 0 {
                    assert(words == seq![current] + rest);
                    if i == 0 {
                        assert(words[0] == current);
                    } else {
                        assert(words[i] == rest[i - 1]);
                        assert(spec_is_word(rest[i - 1]));
                    }
                } else {
                    assert(words == Seq::<Seq<u8>>::empty() + rest);
                    assert(words[i] == rest[i]);
                    assert(spec_is_word(rest[i]));
                }
            }
        } else {
            let longer = current.push(line[from]);
            assert forall|k: int| 0 <= k < longer.len() implies !spec_is_space(
                #[trigger] longer[k],
            ) by {
                if k < current.len() {
                    assert(longer[k] == current[k]);
                }
            }
            split_gives_words(line, from + 1, longer);
            let rest = spec_words_from(line, from + 1, longer);
            assert(words == rest);
            assert forall|i: int| 0 <= i < words.len() implies spec_is_word(#[trigger] words[i]) by {
                assert(spec_is_word(rest[i]));
            }
        }
    } else {
        assert forall|i: int| 0 <= i < words.len() implies spec_is_word(#[trigger] words[i]) by {
            assert(words[i] == current);
        }
    }
}

/// The bytes of a text of ASCII characters.
pub open spec fn spec_ascii(text: Seq<char>) -> Seq<u8> {
    Seq::new(text.len(), |i: int| text[i] as u8)
}

/// The word that is being read comes first among the words.
pub proof fn current_word_comes_first(line: Seq<u8>, from: int, current: Seq<u8>)
    requires
        0 <= from,
        current.len() > 0,
    ensures
        spec_words_from(line, from, current).len() > 0,
        spec_words_from(line, from, current)[0].len() > 0,
        spec_words_from(line, from, current)[0][0] == current[0],
    decreases line.len() - from,
{
    if from < line.len() && !spec_is_space(line[from]) {
        current_word_comes_first(line, from + 1, current.push(line[from]));
    }
}

/// Trimming the end of a text that starts with something other than white
/// space keeps that start.
pub proof fn trim_end_keeps_first(text: Seq<u8>)
    requires
        text.len() > 0,
        !spec_is_space(text[0]),
    ensures
        spec_trim_end(text).len() > 0,
        spec_trim_end(text)[0] == text[0],
    decreases text.len(),
{
    if spec_is_space(text.last()) {
        trim_end_keeps_first(text.drop_last());
    }
}

/// A text that has words is not empty when trimmed, and its first word
/// starts where the trimmed text starts.
pub proof fn first_word_starts_trimmed(line: Seq<u8>, from: int)
    requires
        0 <= from <= line.len(),
        spec_words_from(line, from, Seq::empty()).len() > 0,
    ensures
        spec_trim(line.skip(from)).len() > 0,
        spec_words_from(line, from, Seq::empty())[0].len() > 0,
        spec_trim(line.skip(from))[0] == spec_words_from(line, from, Seq::empty())[0][0],
    decreases line.len() - from,
{
    let rest = line.skip(from);
    if from < line.len() {
        if spec_is_space(line[from]) {
            first_word_starts_trimmed(line, from + 1);
            assert(rest.drop_first() =~= line.skip(from + 1));
            assert(Seq::<Seq<u8>>::empty() + spec_words_from(line, from + 1, Seq::empty())
                =~= spec_words_from(line, from + 1, Seq::empty()));
        } else {
            let started = Seq::<u8>::empty().push(line[from]);
            current_word_comes_first(line, from + 1, started);
            assert(spec_trim_start(rest) == rest);
            trim_end_keeps_first(rest);
        }
    }
}

/// Whether `byte` is ASCII white space.
pub fn is_space(byte: u8) -> (r: bool)
    ensures
        r == spec_is_space(byte),
{
    byte == 32 || (9 <= byte && byte <= 13)
}

/// The words of `line`.
pub fn split_whitespace(line: &[u8]) -> (r: Vec<Vec<u8>>)
    ensures
        spec_views(r@) == spec_split_whitespace(line@),
{
    let mut words: Vec<Vec<u8>> = Vec::new();
    let mut current: Vec<u8> = Vec::new();
    let mut i: usize = 0;
    assert(spec_views(words@) =~= Seq::<Seq<u8>>::empty());
    while i < line.len()
        invariant
            i <= line@.len(),
            spec_split_whitespace(line@) == spec_views(words@) + spec_words_from(
                line@,
                i as int,
                current@,
            ),
        decreases line@.len() - i,
    {
        let ghost before = spec_views(words@);
        if is_space(line[i]) {
            if current.len() > 0 {
                let ghost word = current@;
                words.push(current);
                current = Vec::new();
                assert(spec_views(words@) =~= before.push(word));
                assert(before + (seq![word] + spec_words_from(line@, i + 1, Seq::empty()))
                    =~= before.push(word) + spec_words_from(line@, i + 1, Seq::empty()));
            } else {
                assert(Seq::<Seq<u8>>::empty() + spec_words_from(line@, i + 1, Seq::empty())
                    =~= spec_words_from(line@, i + 1, Seq::empty()));
                assert(current@ =~= Seq::<u8>::empty());
            }
        } else {
            current.push(line[i]);
        }
        i += 1;
    }
    let ghost before = spec_views(words@);
    if current.len() > 0 {
        let ghost word = current@;
        words.push(current);
        assert(spec_views(words@) =~= before + seq![word]);
    } else {
        assert(before + Seq::<Seq<u8>>::empty() =~= before);
    }
    words
}

/// The parts of `text` between its separators.
pub fn split(text: &[u8], separator: u8) -> (r: Vec<Vec<u8>>)
    ensures
        spec_views(r@) == spec_split(text@, separator),
        r@.len() >= 1,
{
    let mut parts: Vec<Vec<u8>> = Vec::new();
    let mut current: Vec<u8> = Vec::new();
    let mut i: usize = 0;
    assert(spec_views(parts@) =~= Seq::<Seq<u8>>::empty());
    while i < text.len()
        invariant
            i <= text@.len(),
            spec_split(text@, separator) == spec_views(parts@) + spec_parts_from(
                text@,
                separator,
                i as int,
                current@,
            ),
        decreases text@.len() - i,
    {
        let ghost before = spec_views(parts@);
        if text[i] == separator {
            let ghost part = current@;
            parts.push(current);
            current = Vec::new();
            assert(spec_views(parts@) =~= before.push(part));
            assert(before + (seq![part] + spec_parts_from(text@, separator, i + 1, Seq::empty()))
                =~= before.push(part) + spec_parts_from(text@, separator, i + 1, Seq::empty()));
        } else {
            current.push(text[i]);
        }
        i += 1;
    }
    let ghost before = spec_views(parts@);
    let ghost part = current@;
    parts.push(current);
    assert(spec_views(parts@) =~= before + seq![part]);
    parts
}

/// The texts of `parts` from position `from` on, one after the other, with
/// `separator` between them.
pub fn join(parts: &Vec<Vec<u8>>, from: usize, separator: u8) -> (r: Vec<u8>)
    requires
        from <= parts@.len(),
    ensures
        r@ == spec_join(spec_views(parts@).skip(from as int), separator),
{
    let mut text: Vec<u8> = Vec::new();
    let mut i: usize = from;
    let ghost all = spec_views(parts@).skip(from as int);
    assert(all.take(0) =~= Seq::<Seq<u8>>::empty());
    while i < parts.len()
        invariant
            from <= i <= parts@.len(),
            all == spec_views(parts@).skip(from as int),
            text@ == spec_join(all.take(i - from), separator),
        decreases parts@.len() - i,
    {
        let ghost joined = text@;
        if i > from {
            text.push(separator);
        }
        let part = &parts[i];
        let mut k: usize = 0;
        let ghost start = text@;
        while k < part.len()
            invariant
                k <= part@.len(),
                text@ == start + part@.take(k as int),
            decreases part@.len() - k,
        {
            text.push(part[k]);
            k += 1;
            assert(text@ =~= start + part@.take(k as int));
        }
        proof {
            assert(part@.take(part@.len() as int) =~= part@);
            let taken = all.take(i + 1 - from);
            assert(taken.drop_last() =~= all.take(i - from));
            assert(taken.last() == part@);
            if i == from {
                assert(text@ =~= part@);
            } else {
                assert(text@ =~= joined + seq![separator] + part@);
            }
        }
        i += 1;
    }
    assert(all.take(parts@.len() - from) =~= all);
    text
}

/// The bytes of `text` from position `from` on, without the white space at
/// their start and at their end.
pub fn trim(text: &[u8], from: usize) -> (r: Vec<u8>)
    requires
        from <= text@.len(),
    ensures
        r@ == spec_trim(text@.skip(from as int)),
{
    let mut start: usize = from;
    assert(text@.skip(from as int) =~= text@.subrange(start as int, text@.len() as int));
    while start < text.len() && is_space(text[start])
        invariant
            from <= start <= text@.len(),
            spec_trim_start(text@.skip(from as int)) == spec_trim_start(
                text@.subrange(start as int, text@.len() as int),
            ),
        decreases text@.len() - start,
    {
        assert(text@.subrange(start as int, text@.len() as int).drop_first() =~= text@.subrange(
            start + 1,
            text@.len() as int,
        ));
        start += 1;
    }
    let mut end: usize = text.len();
    while end > start && is_space(text[end - 1])
        invariant
            start <= end <= text@.len(),
            spec_trim(text@.skip(from as int)) == spec_trim_end(
                text@.subrange(start as int, end as int),
            ),
        decreases end - start,
    {
        assert(text@.subrange(start as int, end as int).drop_last() =~= text@.subrange(
            start as int,
            end - 1,
        ));
        end -= 1;
    }
    let mut trimmed: Vec<u8> = Vec::new();
    let mut i: usize = start;
    while i < end
        invariant
            start <= i <= end <= text@.len(),
            trimmed@ == text@.subrange(start as int, i as int),
        decreases end - i,
    {
        trimmed.push(text[i]);
        i += 1;
        assert(trimmed@ =~= text@.subrange(start as int, i as int));
    }
    trimmed
}

/// A copy of `text`.
pub fn copy_text(text: &Vec<u8>) -> (r: Vec<u8>)
    ensures
        r@ == text@,
{
    let mut copy: Vec<u8> = Vec::new();
    let mut i: usize = 0;
    while i < text.len()
        invariant
            i <= text@.len(),
            copy@ == text@.take(i as int),
        decreases text@.len() - i,
    {
        copy.push(text[i]);
        i += 1;
        assert(copy@ =~= text@.take(i as int));
    }
    assert(text@.take(text@.len() as int) =~= text@);
    copy
}

/// Whether two texts are the same, byte for byte.
pub fn same_text(a: &[u8], b: &[u8]) -> (r: bool)
    ensures
        r == (a@ == b@),
{
    if a.len() != b.len() {
        return false;
    }
    let mut i: usize = 0;
    while i < a.len()
        invariant
            i <= a@.len(),
            a@.len() == b@.len(),
            forall|k: int| 0 <= k < i ==> a@[k] == b@[k],
        decreases a@.len() - i,
    {
        if a[i] != b[i] {
            return false;
        }
        i += 1;
    }
    assert(a@ =~= b@);
    true
}

/// Whether `word` is the keyword `keyword`, which is made of ASCII
/// characters.
pub fn is_keyword(word: &[u8], keyword: &str) -> (r: bool)
    requires
        vstd::string::is_ascii(keyword),
    ensures
        r == (word@ == spec_ascii(keyword@)),
{
    let bytes = keyword.as_bytes();
    proof {
        vstd::string::is_ascii_spec_bytes(keyword);
        assert(bytes@ =~= spec_ascii(keyword@));
    }
    same_text(word, bytes)
}

/// The number that the digits of `text` from position `from` on stand for,
/// if there is at least one digit, there is nothing but digits, and the
/// value is at most `limit`.
fn parse_digits(text: &[u8], from: usize, limit: u64) -> (r: Option<u64>)
    requires
        from <= text@.len(),
    ensures
        r == if text@.skip(from as int).len() > 0 && spec_all_digits(text@.skip(from as int))
            && spec_decimal(text@.skip(from as int)) <= limit {
            Some(spec_decimal(text@.skip(from as int)) as u64)
        } else {
            None
        },
{
    let ghost digits = text@.skip(from as int);
    if from == text.len() {
        return None;
    }
    let mut value: u64 = 0;
    let mut i: usize = from;
    assert(digits.take(0) =~= Seq::<u8>::empty());
    while i < text.len()
        invariant
            from <= i <= text@.len(),
            digits == text@.skip(from as int),
            spec_all_digits(digits.take(i - from)),
            value == spec_decimal(digits.take(i - from)),
            value <= limit,
        decreases text@.len() - i,
    {
        let byte = text[i];
        assert(byte == digits[i - from]);
        if !(48 <= byte && byte <= 57) {
            assert(!spec_is_digit(digits[i - from]));
            return None;
        }
        let digit: u64 = (byte - 48) as u64;
        proof {
            let longer = digits.take(i + 1 - from);
            assert(longer.drop_last() =~= digits.take(i - from));
            assert(longer.last() == byte);
            assert(spec_decimal(longer) == value * 10 + digit);
            assert forall|k: int| 0 <= k < longer.len() implies spec_is_digit(
                #[trigger] longer[k],
            ) by {
                if k < i - from {
                    assert(longer[k] == digits.take(i - from)[k]);
                }
            }
        }
        if digit > limit || value > (limit - digit) / 10 {
            proof {
                let longer = digits.take(i + 1 - from);
                assert(spec_decimal(longer) > limit);
                if spec_all_digits(digits) {
                    decimal_grows(digits, i + 1 - from);
                }
            }
            return None;
        }
        value = value * 10 + digit;
        i += 1;
    }
    assert(digits.take(digits.len() as int) =~= digits);
    Some(value)
}

/// Reads a number as `usize`: decimal digits, after an optional plus sign.
pub fn parse_usize(text: &[u8]) -> (r: Option<usize>)
    ensures
        r == spec_parse_usize(text@),
{
    let from: usize = if text.len() > 0 && text[0] == 43 {
        1
    } else {
        0
    };
    assert(text@.skip(from as int) =~= spec_unsigned_part(text@));
    match parse_digits(text, from, usize::MAX as u64) {
        Some(value) => Some(value as usize),
        None => None,
    }
}

/// Reads a number as `i32`: decimal digits, after an optional plus or minus
/// sign.
pub fn parse_i32(text: &[u8]) -> (r: Option<i32>)
    ensures
        r == spec_parse_i32(text@),
{
    if text.len() > 0 && text[0] == 45 {
        match parse_digits(text, 1, 0x8000_0000) {
            Some(value) => {
                if value == 0x8000_0000 {
                    Some(i32::MIN)
                } else {
                    Some(-(value as i32))
                }
            },
            None => None,
        }
    } else {
        let from: usize = if text.len() > 0 && text[0] == 43 {
            1
        } else {
            0
        };
        assert(text@.skip(from as int) =~= spec_unsigned_part(text@));
        match parse_digits(text, from, 0x7fff_ffff) {
            Some(value) => Some(value as i32),
            None => None,
        }
    }
}

} // verus!
