use crate::error::Error;
use vstd::prelude::*;

verus! {

/// Whether `c` is white space: one of the characters that Unicode gives the
/// property `White_Space`, among them the blank, the tab, the carriage
/// return and the line feed.
pub open spec fn is_space(c: char) -> bool {
    let code = c as u32;
    ||| 0x09 <= code <= 0x0d
    ||| code == 0x20
    ||| code == 0x85
    ||| code == 0xa0
    ||| code == 0x1680
    ||| 0x2000 <= code <= 0x200a
    ||| code == 0x2028
    ||| code == 0x2029
    ||| code == 0x202f
    ||| code == 0x205f
    ||| code == 0x3000
}

/// Whether every character of `s` is white space.
pub open spec fn all_spaces(s: Seq<char>) -> bool {
    forall|i: int| 0 <= i < s.len() ==> is_space(#[trigger] s[i])
}

/// Whether `c` is one of the decimal digits `0` to `9`.
pub open spec fn is_digit(c: char) -> bool {
    0x30 <= c as u32 <= 0x39
}

/// The number a decimal digit stands for; zero for any other character.
pub open spec fn digit_value(c: char) -> nat {
    if is_digit(c) {
        (c as u32 - 0x30) as nat
    } else {
        0
    }
}

/// Whether every character of `s` is a decimal digit.
pub open spec fn all_digits(s: Seq<char>) -> bool {
    forall|i: int| 0 <= i < s.len() ==> is_digit(#[trigger] s[i])
}

/// The number that a run of decimal digits denotes, most significant first.
pub open spec fn magnitude(s: Seq<char>) -> nat
    decreases s.len(),
{
    if s.len() == 0 {
        0
    } else {
        10 * magnitude(s.drop_last()) + digit_value(s.last())
    }
}

/// `s` without the white space at its start.
pub open spec fn trimmed_start(s: Seq<char>) -> Seq<char>
    decreases s.len(),
{
    if s.len() > 0 && is_space(s.first()) {
        trimmed_start(s.drop_first())
    } else {
        s
    }
}

/// `s` without the white space at its end.
pub open spec fn trimmed_end(s: Seq<char>) -> Seq<char>
    decreases s.len(),
{
    if s.len() > 0 && is_space(s.last()) {
        trimmed_end(s.drop_last())
    } else {
        s
    }
}

/// `s` without the white space at its start and at its end.
pub open spec fn trimmed(s: Seq<char>) -> Seq<char> {
    trimmed_end(trimmed_start(s))
}

/// Whether `s` starts with a plus or a minus sign.
pub open spec fn has_sign(s: Seq<char>) -> bool {
    s.len() > 0 && (s[0] == '-' || s[0] == '+')
}

/// What follows the sign of `s`, or all of `s` if it has none.
pub open spec fn digits_of(s: Seq<char>) -> Seq<char> {
    if has_sign(s) {
        s.drop_first()
    } else {
        s
    }
}

/// Whether `s` is a decimal numeral: an optional sign and at least one digit.
pub open spec fn is_numeral(s: Seq<char>) -> bool {
    digits_of(s).len() > 0 && all_digits(digits_of(s))
}

/// The integer that the numeral `s` denotes.
pub open spec fn numeral_value(s: Seq<char>) -> int {
    if s.len() > 0 && s[0] == '-' {
        -(magnitude(digits_of(s)) as int)
    } else {
        magnitude(digits_of(s)) as int
    }
}

/// The reading that a sensor source holds: its text, without the white space
/// around it, read as a decimal numeral that fits in 32 bits. `None` when
/// the text is no such numeral.
pub open spec fn reading_of(text: Seq<char>) -> Option<i32> {
    let t = trimmed(text);
    if is_numeral(t) && i32::MIN <= numeral_value(t) <= i32::MAX {
        Some(numeral_value(t) as i32)
    } else {
        None
    }
}

/// White space in front of a text is trimmed away with the text's own.
proof fn lemma_trimmed_start_skips(before: Seq<char>, s: Seq<char>)
    requires
        all_spaces(before),
    ensures
        trimmed_start(before + s) == trimmed_start(s),
    decreases before.len(),
{
    if before.len() > 0 {
        assert((before + s).first() == before[0]);
        assert((before + s).drop_first() =~= before.drop_first() + s);
        lemma_trimmed_start_skips(before.drop_first(), s);
    } else {
        assert(before + s =~= s);
    }
}

/// White space behind a text is trimmed away with the text's own.
proof fn lemma_trimmed_end_cuts(s: Seq<char>, after: Seq<char>)
    requires
        all_spaces(after),
    ensures
        trimmed_end(s + after) == trimmed_end(s),
    decreases after.len(),
{
    if after.len() > 0 {
        assert((s + after).last() == after.last());
        assert((s + after).drop_last() =~= s + after.drop_last());
        lemma_trimmed_end_cuts(s, after.drop_last());
    } else {
        assert(s + after =~= s);
    }
}

/// Trimming the start leaves white space at the end where it was, unless
/// the text is nothing but white space.
proof fn lemma_trimmed_start_keeps_end(s: Seq<char>, after: Seq<char>)
    requires
        all_spaces(after),
    ensures
        trimmed_start(s + after) == if all_spaces(s) {
            Seq::<char>::empty()
        } else {
            trimmed_start(s) + after
        },
        all_spaces(s) ==> trimmed_start(s) == Seq::<char>::empty(),
    decreases s.len(),
{
    if s.len() == 0 {
        assert(s + after =~= after + Seq::<char>::empty());
        lemma_trimmed_start_skips(after, Seq::empty());
    } else if is_space(s.first()) {
        assert((s + after).first() == s.first());
        assert((s + after).drop_first() =~= s.drop_first() + after);
        lemma_trimmed_start_keeps_end(s.drop_first(), after);
        if all_spaces(s) {
            assert forall|i: int| 0 <= i < s.drop_first().len() implies is_space(
                #[trigger] s.drop_first()[i],
            ) by {
                assert(s.drop_first()[i] == s[i + 1]);
            }
        } else {
            let i = choose|i: int| 0 <= i < s.len() && !is_space(#[trigger] s[i]);
            assert(s.drop_first()[i - 1] == s[i]);
        }
    } else {
        assert((s + after).first() == s.first());
    }
}

/// White space around a source does not change the reading.
pub proof fn law_surrounding_white_space_is_ignored(
    before: Seq<char>,
    text: Seq<char>,
    after: Seq<char>,
)
    requires
        all_spaces(before),
        all_spaces(after),
    ensures
        reading_of(before + text + after) == reading_of(text),
{
    assert(before + text + after =~= before + (text + after));
    lemma_trimmed_start_skips(before, text + after);
    lemma_trimmed_start_keeps_end(text, after);
    if !all_spaces(text) {
        lemma_trimmed_end_cuts(trimmed_start(text), after);
    }
}

/// A longer run of digits never denotes a smaller number than its prefix.
pub proof fn lemma_magnitude_grows(s: Seq<char>, n: int)
    requires
        0 <= n <= s.len(),
    ensures
        magnitude(s.take(n)) <= magnitude(s),
    decreases s.len() - n,
{
    if n < s.len() {
        assert(s.drop_last().take(n) =~= s.take(n));
        lemma_magnitude_grows(s.drop_last(), n);
    } else {
        assert(s.take(n) =~= s);
    }
}

/// Trimming the start leaves what follows the leading white space.
proof fn lemma_trimmed_start_is_suffix(s: Seq<char>, from: int)
    requires
        0 <= from <= s.len(),
        forall|i: int| 0 <= i < from ==> is_space(#[trigger] s[i]),
        from < s.len() ==> !is_space(s[from]),
    ensures
        trimmed_start(s) == s.skip(from),
    decreases from,
{
    if from > 0 {
        let rest = s.drop_first();
        assert forall|i: int| 0 <= i < from - 1 implies is_space(#[trigger] rest[i]) by {
            assert(rest[i] == s[i + 1]);
        }
        lemma_trimmed_start_is_suffix(rest, from - 1);
        assert(rest.skip(from - 1) =~= s.skip(from));
    } else {
        assert(s.skip(0) =~= s);
    }
}

/// Trimming the end leaves what stands before the trailing white space.
proof fn lemma_trimmed_end_is_prefix(s: Seq<char>, to: int)
    requires
        0 <= to <= s.len(),
        forall|i: int| to <= i < s.len() ==> is_space(#[trigger] s[i]),
        to > 0 ==> !is_space(s[to - 1]),
    ensures
        trimmed_end(s) == s.take(to),
    decreases s.len() - to,
{
    if to < s.len() {
        let rest = s.drop_last();
        assert forall|i: int| to <= i < rest.len() implies is_space(#[trigger] rest[i]) by {
            assert(rest[i] == s[i]);
        }
        lemma_trimmed_end_is_prefix(rest, to);
        assert(rest.take(to) =~= s.take(to));
    } else {
        assert(s.take(to) =~= s);
    }
}

/// Tells whether a character is white space.
pub fn is_white_space(c: char) -> (space: bool)
    ensures
        space == is_space(c),
{
    let code: u32 = c as u32;
    (0x09 <= code && code <= 0x0d) || code == 0x20 || code == 0x85 || code == 0xa0 || code
        == 0x1680 || (0x2000 <= code && code <= 0x200a) || code == 0x2028 || code == 0x2029 || code
        == 0x202f || code == 0x205f || code == 0x3000
}

/// Reads the integer that a sensor source holds. White space around the
/// text is ignored; what is left must be an optional sign followed by
/// decimal digits, and must fit in 32 bits.
pub fn parse_reading(text: &str) -> (reading: Option<i32>)
    ensures
        reading == reading_of(text@),
{
    let mut chars: Vec<char> = Vec::new();
    for c in it: text.chars()
        invariant
            it.seq() == text@,
            chars@ == it.seq().take(it.index() as int),
    {
        chars.push(c);
    }
    assert(chars@ == text@);
    let len = chars.len();
    let mut from: usize = 0;
    while from < len && is_white_space(chars[from])
        invariant
            from <= len,
            len == chars@.len(),
            forall|i: int| 0 <= i < from ==> is_space(#[trigger] chars@[i]),
        decreases len - from,
    {
        from += 1;
    }
    let mut end = len;
    while end > from && is_white_space(chars[end - 1])
        invariant
            from <= end <= len,
            len == chars@.len(),
            forall|i: int| end <= i < len ==> is_space(#[trigger] chars@[i]),
        decreases end,
    {
        end -= 1;
    }
    let ghost t = chars@.subrange(from as int, end as int);
    proof {
        let rest = chars@.skip(from as int);
        lemma_trimmed_start_is_suffix(chars@, from as int);
        lemma_trimmed_end_is_prefix(rest, end - from);
        assert(rest.take(end - from) =~= t);
    }
    let mut start = from;
    let mut negative = false;
    if from < end {
        let first = chars[from];
        if first == '-' {
            negative = true;
            start = from + 1;
        } else if first == '+' {
            start = from + 1;
        }
    }
    let ghost body = digits_of(t);
    assert(body =~= chars@.subrange(start as int, end as int));
    if start == end {
        return None;
    }
    let limit: u64 = 2147483648;
    let mut total: u64 = 0;
    let mut i = start;
    while i < end
        invariant
            start <= i <= end,
            end <= chars@.len(),
            chars@ == text@,
            trimmed(text@) == t,
            body == digits_of(t),
            body == chars@.subrange(start as int, end as int),
            all_digits(body.take(i - start)),
            total == magnitude(body.take(i - start)),
            total <= limit,
            limit == 2147483648,
        decreases end - i,
    {
        let code: u32 = chars[i] as u32;
        let ghost k = i - start;
        if code < 0x30 || code > 0x39 {
            assert(!is_digit(body[k]));
            return None;
        }
        let digit: u64 = (code - 0x30) as u64;
        proof {
            let next = body.take(k + 1);
            assert(next.drop_last() =~= body.take(k));
            assert forall|j: int| 0 <= j < next.len() implies is_digit(#[trigger] next[j]) by {
                if j < k {
                    assert(is_digit(body.take(k)[j]));
                }
            }
        }
        total = total * 10 + digit;
        if total > limit {
            proof {
                lemma_magnitude_grows(body, k + 1);
            }
            return None;
        }
        i += 1;
    }
    assert(body.take(end - start) =~= body);
    if negative {
        let value: i64 = -(total as i64);
        Some(value as i32)
    } else if total == limit {
        None
    } else {
        Some(total as i32)
    }
}

/// One reading of a three-axis accelerometer, in the sensor's raw units.
#[derive(Clone, Copy, Debug, PartialEq, Eq, Structural)]
pub struct Accelerometer {
    pub x: i32,
    pub y: i32,
    pub z: i32,
}

impl Accelerometer {
    /// The number of sensor sources that make up the two readings.
    pub open spec fn source_count() -> int {
        6
    }

    /// The reading behind the source at position `i`: `None` when the source
    /// is missing, be it unreadable or not listed at all, or does not hold an
    /// integer.
    pub open spec fn source_reading(sources: Seq<Option<Seq<char>>>, i: int) -> Option<i32> {
        if 0 <= i < sources.len() {
            match sources[i] {
                Some(text) => reading_of(text),
                None => None,
            }
        } else {
            None
        }
    }

    /// The position of the first source at or after `from` that yields no
    /// reading, or the number of sources if all of them do.
    pub open spec fn first_failure(sources: Seq<Option<Seq<char>>>, from: int) -> int
        decreases Self::source_count() - from,
    {
        if from >= Self::source_count() {
            Self::source_count()
        } else if Self::source_reading(sources, from) is None {
            from
        } else {
            Self::first_failure(sources, from + 1)
        }
    }

    /// The reading whose axes are the three sources starting at `from`.
    pub open spec fn device(sources: Seq<Option<Seq<char>>>, from: int) -> Accelerometer {
        Accelerometer {
            x: Self::source_reading(sources, from)->0,
            y: Self::source_reading(sources, from + 1)->0,
            z: Self::source_reading(sources, from + 2)->0,
        }
    }

    /// What the six sources amount to: the two devices' readings, the first
    /// device on the first three sources and the second on the next three, or
    /// the failure of the first source that yields no reading.
    pub open spec fn built(sources: Seq<Option<Seq<char>>>) -> Result<Seq<Accelerometer>, Error> {
        let failed = Self::first_failure(sources, 0);
        if failed < Self::source_count() {
            Err(Error::SensorReadFailure(failed as usize))
        } else {
            Ok(seq![Self::device(sources, 0), Self::device(sources, 3)])
        }
    }

    /// Builds the readings of both accelerometers from the contents of their
    /// six sources, given in the order x, y, z of the first device and then
    /// x, y, z of the second. A source that could not be read is `None`, and
    /// a list of fewer than six sources misses those at its end. Sources
    /// beyond the sixth are ignored. The first source that is missing or
    /// holds no integer fails the whole read.
    pub fn build(sources: &Vec<Option<String>>) -> (readings: Result<Vec<Accelerometer>, Error>)
        ensures
            match readings {
                Ok(devices) => Self::built(sources.deep_view()) == Ok::<Seq<Accelerometer>, Error>(
                    devices@,
                ),
                Err(error) => Self::built(sources.deep_view()) == Err::<Seq<Accelerometer>, Error>(
                    error,
                ),
            },
    {
        let ghost texts = sources.deep_view();
        let mut values: [i32; 6] = [0, 0, 0, 0, 0, 0];
        let mut i: usize = 0;
        while i < 6
            invariant
                i <= 6,
                texts == sources.deep_view(),
                Self::first_failure(texts, 0) == Self::first_failure(texts, i as int),
                forall|j: int|
                    0 <= j < i ==> Self::source_reading(texts, j) == Some(#[trigger] values@[j]),
            decreases 6 - i,
        {
            let reading = if i < sources.len() {
                match &sources[i] {
                    Some(text) => parse_reading(text.as_str()),
                    None => None,
                }
            } else {
                None
            };
            match reading {
                Some(value) => {
                    values[i] = value;
                },
                None => {
                    return Err(Error::SensorReadFailure(i));
                },
            }
            i += 1;
        }
        let first = Accelerometer { x: values[0], y: values[1], z: values[2] };
        let second = Accelerometer { x: values[3], y: values[4], z: values[5] };
        let devices = vec![first, second];
        Ok(devices)
    }
}

} // verus!
