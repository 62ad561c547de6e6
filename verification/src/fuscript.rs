//! Reading what the scripting tool of a host prints about the file that is
//! shown.
//!
//! The tool prints six lines: the frame rate, the number of frames, the
//! duration as a timecode, the pixel aspect ratio, the resolution, and the
//! path of the file. Anything on its error stream, but for one complaint
//! that is known to be harmless, makes the answer unreadable.

use crate::chars::{from_chars, matches_at, occurs_at, to_chars};
use crate::fixed::{div_round, lemma_round_step, ratio, saturate, signed_saturated, Fixed};
use crate::hosts::CurrentFileInfo;
use crate::scan::{
    all_digits, contains, contains_text, count_of, digit, digits_value, find, first_of, is_digit,
    lemma_digits_nonnegative, lines, lines_of, parse_count, pieces, seqs_of,
    slice_of, split, trim_range, trimmed,
};
use vstd::prelude::*;

verus! {

/// Ten to the power of `e`.
pub open spec fn pow10(e: int) -> int
    decreases e,
{
    if e <= 0 {
        1
    } else {
        10 * pow10(e - 1)
    }
}

/// The millionths that the digits behind a decimal point stand for, to the
/// nearest millionth: the first six digits count, and the seventh rounds.
pub open spec fn micro_digits(frac: Seq<char>) -> int {
    let k = if frac.len() < 6 {
        frac.len() as int
    } else {
        6
    };
    digits_value(frac.subrange(0, k)) * pow10(6 - k) + if frac.len() > 6 && frac[6] >= '5' {
        1int
    } else {
        0int
    }
}

/// The decimal number that `s` spells: an optional sign, digits, and
/// optionally a point and more digits, with a digit on at least one side of
/// the point. The number is read to the nearest millionth and clamped.
pub open spec fn decimal_of(s: Seq<char>) -> Option<Fixed> {
    let negative = s.len() > 0 && s[0] == '-';
    let body = if s.len() > 0 && (s[0] == '-' || s[0] == '+') {
        s.drop_first()
    } else {
        s
    };
    let point = first_of(body, '.', 0);
    let whole = body.subrange(0, point);
    let frac = if point < body.len() {
        body.subrange(point + 1, body.len() as int)
    } else {
        Seq::<char>::empty()
    };
    if whole.len() + frac.len() > 0 && all_digits(whole) && all_digits(frac) {
        let m = digits_value(whole) * 1_000_000 + micro_digits(frac);
        Some(
            Fixed {
                micros: saturate(
                    if negative {
                        -m
                    } else {
                        m
                    },
                ),
            },
        )
    } else {
        None
    }
}

/// Reads the digits `chars[from..to]` as a whole number. A number beyond
/// ten to the thirteenth is reported as that bound.
fn whole_digits(chars: &Vec<char>, from: usize, to: usize) -> (value: Option<u128>)
    requires
        from <= to <= chars@.len(),
    ensures
        value is Some <==> all_digits(chars@.subrange(from as int, to as int)),
        value matches Some(v) ==> (v < 10_000_000_000_000 ==> v == digits_value(
            chars@.subrange(from as int, to as int),
        )) && (v >= 10_000_000_000_000 ==> v == 10_000_000_000_000 && digits_value(
            chars@.subrange(from as int, to as int),
        ) >= 10_000_000_000_000),
{
    let ghost s = chars@.subrange(from as int, to as int);
    let mut value: u128 = 0;
    let mut huge: bool = false;
    let mut i: usize = from;
    while i < to
        invariant
            from <= i <= to <= chars@.len(),
            s == chars@.subrange(from as int, to as int),
            all_digits(s.subrange(0, i - from)),
            !huge ==> value == digits_value(s.subrange(0, i - from)) && value
                < 10_000_000_000_000,
            huge ==> digits_value(s.subrange(0, i - from)) >= 10_000_000_000_000,
        decreases to - i,
    {
        match digit(chars[i]) {
            Some(d) => {
                proof {
                    let longer = s.subrange(0, i + 1 - from);
                    assert(longer.drop_last() =~= s.subrange(0, i - from));
                    assert(longer.last() == chars@[i as int]);
                    assert forall|j: int| 0 <= j < longer.len() implies is_digit(
                        #[trigger] longer[j],
                    ) by {
                        if j < i - from {
                            assert(longer[j] == s.subrange(0, i - from)[j]);
                        }
                    }
                }
                if !huge {
                    let next: u128 = value * 10 + (d as u128);
                    if next >= 10_000_000_000_000 {
                        huge = true;
                    } else {
                        value = next;
                    }
                }
            },
            None => {
                proof {
                    assert(s[i - from] == chars@[i as int]);
                    assert(!all_digits(s));
                }
                return None;
            },
        }
        i = i + 1;
    }
    proof {
        assert(s.subrange(0, to - from) =~= s);
    }
    if huge {
        Some(10_000_000_000_000)
    } else {
        Some(value)
    }
}

/// Reads the digits `chars[from..to]` behind a decimal point as millionths.
fn fraction_digits(chars: &Vec<char>, from: usize, to: usize) -> (value: Option<u32>)
    requires
        from <= to <= chars@.len(),
    ensures
        value is Some <==> all_digits(chars@.subrange(from as int, to as int)),
        value matches Some(v) ==> v == micro_digits(chars@.subrange(from as int, to as int)) && v
            <= 1_000_000,
{
    let ghost s = chars@.subrange(from as int, to as int);
    let n: usize = to - from;
    let k: usize = if n < 6 {
        n
    } else {
        6
    };
    let mut value: u32 = 0;
    let mut i: usize = 0;
    while i < k
        invariant
            from <= to <= chars@.len(),
            n == to - from,
            k <= n,
            k <= 6,
            i <= k,
            s == chars@.subrange(from as int, to as int),
            all_digits(s.subrange(0, i as int)),
            value == digits_value(s.subrange(0, i as int)),
            value < pow10(i as int),
        decreases k - i,
    {
        match digit(chars[from + i]) {
            Some(d) => {
                proof {
                    let longer = s.subrange(0, i + 1);
                    assert(longer.drop_last() =~= s.subrange(0, i as int));
                    assert(longer.last() == chars@[from + i]);
                    assert forall|j: int| 0 <= j < longer.len() implies is_digit(
                        #[trigger] longer[j],
                    ) by {
                        if j < i {
                            assert(longer[j] == s.subrange(0, i as int)[j]);
                        }
                    }
                    lemma_pow10(i as int);
                }
                value = value * 10 + (d as u32);
            },
            None => {
                proof {
                    assert(s[i as int] == chars@[from + i]);
                    assert(!all_digits(s));
                }
                return None;
            },
        }
        i = i + 1;
    }
    proof {
        lemma_pow10(0);
        lemma_pow10(k as int);
        assert(digits_value(s.subrange(0, k as int)) * pow10(0) == digits_value(
            s.subrange(0, k as int),
        ));
        assert forall|x: int| 0 <= x < k implies is_digit(#[trigger] s[x]) by {
            assert(s[x] == s.subrange(0, k as int)[x]);
        }
    }
    let mut e: usize = k;
    while e < 6
        invariant
            k <= e <= 6,
            value == digits_value(s.subrange(0, k as int)) * pow10(e - k),
            value < pow10(e as int),
            forall|x: int| 0 <= x < k ==> is_digit(#[trigger] s[x]),
        decreases 6 - e,
    {
        proof {
            lemma_pow10(e as int);
            lemma_pow10_step(e - k);
            assert(digits_value(s.subrange(0, k as int)) * pow10(e + 1 - k) == (digits_value(
                s.subrange(0, k as int),
            ) * pow10(e - k)) * 10) by (nonlinear_arith)
                requires
                    pow10(e + 1 - k) == 10 * pow10(e - k),
            ;
        }
        value = value * 10;
        e = e + 1;
    }
    proof {
        lemma_pow10(6);
    }
    let mut up: u32 = 0;
    let mut j: usize = k;
    while j < n
        invariant
            from <= to <= chars@.len(),
            n == to - from,
            k <= j <= n,
            s == chars@.subrange(from as int, to as int),
            forall|x: int| 0 <= x < j ==> is_digit(#[trigger] s[x]),
            up == if j > 6 && s[6] >= '5' {
                1int
            } else {
                0int
            },
            k == if n < 6 {
                n
            } else {
                6
            },
        decreases n - j,
    {
        match digit(chars[from + j]) {
            Some(d) => {
                assert(s[j as int] == chars@[from + j]);
                if j == 6 && d >= 5 {
                    up = 1;
                }
            },
            None => {
                proof {
                    assert(s[j as int] == chars@[from + j]);
                    assert(!all_digits(s));
                }
                return None;
            },
        }
        j = j + 1;
    }
    Some(value + up)
}

proof fn lemma_pow10(e: int)
    requires
        0 <= e <= 6,
    ensures
        pow10(e) == if e == 0 {
            1int
        } else if e == 1 {
            10int
        } else if e == 2 {
            100int
        } else if e == 3 {
            1_000int
        } else if e == 4 {
            10_000int
        } else if e == 5 {
            100_000int
        } else {
            1_000_000int
        },
        pow10(e + 1) == 10 * pow10(e),
    decreases e,
{
    if e > 0 {
        lemma_pow10(e - 1);
    }
}

proof fn lemma_pow10_step(e: int)
    requires
        e >= 0,
    ensures
        pow10(e + 1) == 10 * pow10(e),
{
}

/// The decimal number that `chars` spells.
pub fn parse_decimal(chars: &Vec<char>) -> (number: Option<Fixed>)
    ensures
        number == decimal_of(chars@),
{
    let n: usize = chars.len();
    let negative: bool = n > 0 && chars[0] == '-';
    let start: usize = if n > 0 && (chars[0] == '-' || chars[0] == '+') {
        1
    } else {
        0
    };
    let body = slice_of(chars, start, n);
    proof {
        if start == 1 {
            assert(body@ =~= chars@.drop_first());
        } else {
            assert(body@ =~= chars@);
        }
    }
    let m: usize = body.len();
    let point: usize = find(&body, '.', 0);
    let frac_from: usize = if point < m {
        point + 1
    } else {
        m
    };
    proof {
        if point >= m {
            assert(body@.subrange(m as int, m as int) =~= Seq::<char>::empty());
        }
    }
    if point + (m - frac_from) == 0 {
        return None;
    }
    let whole = match whole_digits(&body, 0, point) {
        Some(v) => v,
        None => {
            return None;
        },
    };
    let frac = match fraction_digits(&body, frac_from, m) {
        Some(v) => v,
        None => {
            return None;
        },
    };
    proof {
        lemma_digits_nonnegative(body@.subrange(0, point as int));
    }
    let total: u128 = whole * 1_000_000 + (frac as u128);
    Some(Fixed { micros: signed_saturated(negative, total) })
}

/// The decimal numbers among `list`, in order: what does not spell a number
/// is left out.
pub open spec fn numbers_in(list: Seq<Seq<char>>) -> Seq<Fixed>
    decreases list.len(),
{
    if list.len() == 0 {
        Seq::<Fixed>::empty()
    } else {
        match decimal_of(list.last()) {
            Some(x) => numbers_in(list.drop_last()).push(x),
            None => numbers_in(list.drop_last()),
        }
    }
}

/// The counts among `list`, in order: what does not spell a count is left
/// out.
pub open spec fn counts_in(list: Seq<Seq<char>>) -> Seq<usize>
    decreases list.len(),
{
    if list.len() == 0 {
        Seq::<usize>::empty()
    } else {
        match count_of(list.last()) {
            Some(x) => counts_in(list.drop_last()).push(x),
            None => counts_in(list.drop_last()),
        }
    }
}

/// The decimal numbers among `list`.
pub fn parse_numbers(list: &Vec<Vec<char>>) -> (numbers: Vec<Fixed>)
    ensures
        numbers@ == numbers_in(seqs_of(list@)),
{
    let mut numbers: Vec<Fixed> = Vec::new();
    let mut i: usize = 0;
    while i < list.len()
        invariant
            i <= list@.len(),
            numbers@ == numbers_in(seqs_of(list@).subrange(0, i as int)),
        decreases list@.len() - i,
    {
        proof {
            let longer = seqs_of(list@).subrange(0, i + 1);
            assert(longer.drop_last() =~= seqs_of(list@).subrange(0, i as int));
            assert(longer.last() == list@[i as int]@);
        }
        match parse_decimal(&list[i]) {
            Some(x) => {
                numbers.push(x);
            },
            None => {},
        }
        i = i + 1;
    }
    assert(seqs_of(list@).subrange(0, list@.len() as int) =~= seqs_of(list@));
    numbers
}

/// The counts among `list`.
pub fn parse_counts(list: &Vec<Vec<char>>) -> (counts: Vec<usize>)
    ensures
        counts@ == counts_in(seqs_of(list@)),
{
    let mut counts: Vec<usize> = Vec::new();
    let mut i: usize = 0;
    while i < list.len()
        invariant
            i <= list@.len(),
            counts@ == counts_in(seqs_of(list@).subrange(0, i as int)),
        decreases list@.len() - i,
    {
        proof {
            let longer = seqs_of(list@).subrange(0, i + 1);
            assert(longer.drop_last() =~= seqs_of(list@).subrange(0, i as int));
            assert(longer.last() == list@[i as int]@);
        }
        match parse_count(&list[i]) {
            Some(x) => {
                counts.push(x);
            },
            None => {},
        }
        i = i + 1;
    }
    assert(seqs_of(list@).subrange(0, list@.len() as int) =~= seqs_of(list@));
    counts
}

/// `s` with a colon for every semicolon.
pub open spec fn with_colons(s: Seq<char>) -> Seq<char> {
    Seq::new(
        s.len(),
        |i: int|
            if s[i] == ';' {
                ':'
            } else {
                s[i]
            },
    )
}

/// The frame rate that a duration is counted at: the rate given, but at
/// least one frame per second.
pub open spec fn counting_rate(fps: Fixed) -> int {
    if fps.micros >= 1_000_000 {
        fps.micros as int
    } else {
        1_000_000
    }
}

/// The seconds of the timecode `parts`: hours, minutes, seconds and frames.
pub open spec fn timecode_seconds(parts: Seq<Fixed>, fps: Fixed) -> Fixed {
    Fixed {
        micros: saturate(
            parts[0].micros * 3600 + parts[1].micros * 60 + parts[2].micros + ratio(
                parts[3].micros * 1_000_000,
                counting_rate(fps),
            ),
        ),
    }
}

/// The duration in seconds that the timecode `v` spells at `fps` frames per
/// second. The timecode has four numbers between colons or semicolons:
/// hours, minutes, seconds and frames. Any other text has no duration.
pub open spec fn duration_of(v: Seq<char>, fps: Fixed) -> Fixed {
    let parts = numbers_in(pieces(with_colons(v), ':'));
    if parts.len() == 4 {
        timecode_seconds(parts, fps)
    } else {
        Fixed { micros: 0 }
    }
}

/// The duration in seconds that the timecode `v` spells.
pub fn parse_duration(v: &Vec<char>, fps: Fixed) -> (duration: Fixed)
    ensures
        duration == duration_of(v@, fps),
{
    let mut colons: Vec<char> = Vec::new();
    let mut i: usize = 0;
    while i < v.len()
        invariant
            i <= v@.len(),
            colons@ == with_colons(v@).subrange(0, i as int),
        decreases v@.len() - i,
    {
        let c = if v[i] == ';' {
            ':'
        } else {
            v[i]
        };
        colons.push(c);
        assert(with_colons(v@).subrange(0, i + 1) =~= with_colons(v@).subrange(0, i as int).push(
            c,
        ));
        i = i + 1;
    }
    assert(with_colons(v@).subrange(0, v@.len() as int) =~= with_colons(v@));
    let parts = parse_numbers(&split(&colons, ':'));
    if parts.len() != 4 {
        return Fixed { micros: 0 };
    }
    let rate: u128 = if fps.micros >= 1_000_000 {
        fps.micros as u128
    } else {
        1_000_000
    };
    let frames = parts[3].micros;
    let frames_negative: bool = frames < 0;
    let frames_mag: u128 = if frames_negative {
        (-(frames as i128)) as u128
    } else {
        frames as u128
    };
    let q: u128 = div_round(frames_mag * 1_000_000, rate);
    proof {
        if frames_mag == 0 {
            lemma_round_step(0, rate as int, 0, 0);
        }
        let fi: int = frames as int;
        assert(fi * 1_000_000 == if frames_negative {
            -(frames_mag as int * 1_000_000)
        } else {
            frames_mag as int * 1_000_000
        });
        vstd::arithmetic::div_mod::lemma_div_pos_is_pos(
            2 * (frames_mag as int * 1_000_000) + rate as int,
            2 * rate as int,
        );
        let ni: int = frames_mag as int * 1_000_000;
        let ri: int = rate as int;
        assert(ni < (ni + 1) * ri) by (nonlinear_arith)
            requires
                ni >= 0,
                ri >= 1,
        ;
        crate::geometry::lemma_round_below(ni, ri, ni + 1);
    }
    let part: i128 = if frames_negative {
        -(q as i128)
    } else {
        q as i128
    };
    let total: i128 = (parts[0].micros as i128) * 3600 + (parts[1].micros as i128) * 60 + (
    parts[2].micros as i128) + part;
    if total > 0x7fff_ffff_ffff_ffff {
        Fixed { micros: i64::MAX }
    } else if total < -0x8000_0000_0000_0000 {
        Fixed { micros: i64::MIN }
    } else {
        Fixed { micros: total as i64 }
    }
}

/// Whether a line of the error stream is the harmless complaint of the
/// shell about a missing interpreter.
pub open spec fn is_harmless(line: Seq<char>) -> bool {
    occurs_at(line, "sh:"@, 0) && contains_text(line, "python2:"@)
}

/// Whether a line of the error stream is the harmless complaint.
pub fn harmless(line: &Vec<char>) -> (b: bool)
    ensures
        b == is_harmless(line@),
{
    let prefix = to_chars("sh:");
    let needle = to_chars("python2:");
    matches_at(line, &prefix, 0) && contains(line, &needle)
}

/// Whether every line of `list` is the harmless complaint.
pub open spec fn all_harmless(list: Seq<Seq<char>>) -> bool {
    forall|i: int| 0 <= i < list.len() ==> is_harmless(#[trigger] list[i])
}

/// The lines of `text` without the white space around it.
pub open spec fn trimmed_lines(text: Seq<char>) -> Seq<Seq<char>> {
    lines_of(trimmed(text))
}

/// The lines of `text` without the white space around it.
pub fn text_lines(text: &str) -> (list: Vec<Vec<char>>)
    ensures
        seqs_of(list@) == trimmed_lines(text@),
{
    let chars = to_chars(text);
    let range = trim_range(&chars, 0, chars.len());
    assert(chars@.subrange(0, chars@.len() as int) =~= chars@);
    let inner = slice_of(&chars, range.0, range.1);
    lines(&inner)
}

/// What the `regex` crate makes of `line` when every bracketed range of
/// frame numbers in it, two runs of digits with a hyphen between them, is
/// replaced by its first number.
pub uninterp spec fn frame_range_replaced(line: Seq<char>) -> Seq<char>;

/// `Regex::replace_all` for the pattern of a bracketed range of frame
/// numbers, with the first number as the replacement.
#[verifier::external_body]
pub(crate) fn replace_frame_count(input: &str) -> (path: String)
    ensures
        path@ == frame_range_replaced(input@),
{
    let re = regex::Regex::new(r"\[(\d+)-(\d+)\]").unwrap();
    re.replace_all(input, |caps: &regex::Captures| caps[1].to_string()).to_string()
}

/// What the answer of the scripting tool amounts to.
pub enum FileInfoAnswer {
    /// The file that is shown.
    Found(CurrentFileInfo),
    /// The answer has the right shape but names no usable file.
    Incomplete,
    /// The tool complained, or did not print six lines.
    Unreadable,
}

/// The first count of `counts`, or the second, or zero where there is none.
pub open spec fn count_at(counts: Seq<usize>, i: int) -> usize {
    if 0 <= i < counts.len() {
        counts[i]
    } else {
        0
    }
}

/// Whether `info` is what the six lines `lines` say of a file whose path is
/// `path`.
pub open spec fn says(lines: Seq<Seq<char>>, path: Seq<char>, info: CurrentFileInfo) -> bool {
    let fps = match decimal_of(lines[0]) {
        Some(x) => x,
        None => Fixed { micros: 0 },
    };
    &&& info.fps == fps
    &&& info.frame_count == match count_of(lines[1]) {
        Some(n) => n,
        None => 0,
    }
    &&& info.duration_s == duration_of(lines[2], fps)
    &&& info.pixel_aspect_ratio@ == lines[3]
    &&& info.width == count_at(counts_in(pieces(lines[4], 'x')), 0)
    &&& info.height == count_at(counts_in(pieces(lines[4], 'x')), 1)
    &&& info.file_path@ == path
    &&& info.project_path is None
}

/// Whether six lines and a path name a usable file: the frame rate, the
/// number of frames and the duration are positive, and the path is not
/// empty.
pub open spec fn usable(lines: Seq<Seq<char>>, path: Seq<char>) -> bool {
    let fps = match decimal_of(lines[0]) {
        Some(x) => x,
        None => Fixed { micros: 0 },
    };
    &&& fps.micros > 0
    &&& count_of(lines[1]) matches Some(n) && n > 0
    &&& duration_of(lines[2], fps).micros > 0
    &&& path.len() > 0
}

/// The file that the six lines of an answer name, given the path that its
/// last line stands for.
pub fn file_info_from(lines: &Vec<Vec<char>>, path: String) -> (answer: FileInfoAnswer)
    requires
        lines@.len() == 6,
    ensures
        answer is Found <==> usable(seqs_of(lines@), path@),
        answer is Incomplete <==> !usable(seqs_of(lines@), path@),
        answer matches FileInfoAnswer::Found(info) ==> says(seqs_of(lines@), path@, info),
{
    let fps = match parse_decimal(&lines[0]) {
        Some(x) => x,
        None => Fixed { micros: 0 },
    };
    let frame_count = match parse_count(&lines[1]) {
        Some(n) => n,
        None => 0,
    };
    let duration_s = parse_duration(&lines[2], fps);
    let resolution = parse_counts(&split(&lines[4], 'x'));
    if fps.micros > 0 && frame_count > 0 && duration_s.micros > 0 && !path.as_str().is_empty() {
        let width = if resolution.len() > 0 {
            resolution[0]
        } else {
            0
        };
        let height = if resolution.len() > 1 {
            resolution[1]
        } else {
            0
        };
        FileInfoAnswer::Found(
            CurrentFileInfo {
                file_path: path,
                project_path: None,
                fps,
                duration_s,
                frame_count,
                width,
                height,
                pixel_aspect_ratio: from_chars(&lines[3]),
            },
        )
    } else {
        FileInfoAnswer::Incomplete
    }
}

/// What the scripting tool told: reads the six lines that it printed.
///
/// The answer is unreadable when the error stream holds a line other than
/// the harmless complaint, or when the output does not have six lines.
/// Else it names the file of `file_info_from`, for the path that the last
/// line stands for once a range of frame numbers in it is replaced by its
/// first number.
pub fn parse_file_info(stdout: &str, stderr: &str) -> (answer: FileInfoAnswer)
    ensures
        answer is Unreadable <==> !(all_harmless(trimmed_lines(stderr@)) && trimmed_lines(
            stdout@,
        ).len() == 6),
        !(answer is Unreadable) ==> {
            let lines = trimmed_lines(stdout@);
            let path = frame_range_replaced(lines[5]);
            &&& answer is Found <==> usable(lines, path)
            &&& answer matches FileInfoAnswer::Found(info) ==> says(lines, path, info)
        },
{
    let errors = text_lines(stderr);
    let mut i: usize = 0;
    while i < errors.len()
        invariant
            i <= errors@.len(),
            seqs_of(errors@) == trimmed_lines(stderr@),
            forall|k: int| 0 <= k < i ==> is_harmless(#[trigger] seqs_of(errors@)[k]),
        decreases errors@.len() - i,
    {
        if !harmless(&errors[i]) {
            assert(!is_harmless(seqs_of(errors@)[i as int]));
            return FileInfoAnswer::Unreadable;
        }
        i = i + 1;
    }
    let lines = text_lines(stdout);
    if lines.len() != 6 {
        return FileInfoAnswer::Unreadable;
    }
    let last = from_chars(&lines[5]);
    assert(seqs_of(lines@)[5] == lines@[5]@);
    let path = replace_frame_count(last.as_str());
    file_info_from(&lines, path)
}

} // verus!
