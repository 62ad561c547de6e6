//! Reading numbers and lines out of text.
//!
//! White space is what Unicode calls so. Lines end with a line feed, and a
//! carriage return before the line feed belongs to the line ending. A
//! count is an optional plus sign and decimal digits. A decimal number is
//! an optional sign, digits, and optionally a point and more digits; it is
//! read to the nearest millionth.

use vstd::prelude::*;

verus! {

/// Whether `c` is white space.
pub open spec fn is_space(c: char) -> bool {
    let u = c as u32;
    (0x09 <= u <= 0x0D) || u == 0x20 || u == 0x85 || u == 0xA0 || u == 0x1680 || (0x2000 <= u
        <= 0x200A) || u == 0x2028 || u == 0x2029 || u == 0x202F || u == 0x205F || u == 0x3000
}

/// Whether `c` is a decimal digit.
pub open spec fn is_digit(c: char) -> bool {
    '0' <= c <= '9'
}

/// How many characters at the start of `s` are white space.
pub open spec fn lead(s: Seq<char>) -> int
    decreases s.len(),
{
    if s.len() > 0 && is_space(s[0]) {
        1 + lead(s.drop_first())
    } else {
        0
    }
}

/// How many characters at the end of `s` are white space.
pub open spec fn trail(s: Seq<char>) -> int
    decreases s.len(),
{
    if s.len() > 0 && is_space(s.last()) {
        1 + trail(s.drop_last())
    } else {
        0
    }
}

/// `s` without the white space at its start and at its end.
pub open spec fn trimmed(s: Seq<char>) -> Seq<char> {
    if lead(s) >= s.len() {
        Seq::<char>::empty()
    } else {
        s.subrange(lead(s), s.len() - trail(s))
    }
}

/// The position of the first `c` in `s` at or after `from`, or the length
/// of `s` if there is none.
pub open spec fn first_of(s: Seq<char>, c: char, from: int) -> int
    decreases s.len() - from,
{
    if from >= s.len() {
        s.len() as int
    } else if s[from] == c {
        from
    } else {
        first_of(s, c, from + 1)
    }
}

/// The pieces of `s` from `from` on that lie between the characters `c`.
/// A text without `c` is one piece, and two `c` in a row have an empty
/// piece between them.
pub open spec fn pieces_from(s: Seq<char>, c: char, from: int) -> Seq<Seq<char>>
    decreases s.len() - from,
{
    if from > s.len() || from < 0 || first_of(s, c, from) < from {
        Seq::<Seq<char>>::empty()
    } else if first_of(s, c, from) >= s.len() {
        seq![s.subrange(from, s.len() as int)]
    } else {
        seq![s.subrange(from, first_of(s, c, from))] + pieces_from(s, c, first_of(s, c, from) + 1)
    }
}

/// The pieces of `s` that lie between the characters `c`.
pub open spec fn pieces(s: Seq<char>, c: char) -> Seq<Seq<char>> {
    pieces_from(s, c, 0)
}

/// The line of `s` that starts at `from`, without its line ending.
pub open spec fn line_at(s: Seq<char>, from: int) -> Seq<char> {
    let end = first_of(s, '\n', from);
    if end < s.len() && end > from && s[end - 1] == '\r' {
        s.subrange(from, end - 1)
    } else {
        s.subrange(from, end)
    }
}

/// The lines of `s` from `from` on. A line ending at the very end of the
/// text does not start another line.
pub open spec fn lines_from(s: Seq<char>, from: int) -> Seq<Seq<char>>
    decreases s.len() - from,
{
    if from >= s.len() || from < 0 || first_of(s, '\n', from) < from {
        Seq::<Seq<char>>::empty()
    } else if first_of(s, '\n', from) >= s.len() {
        seq![line_at(s, from)]
    } else {
        seq![line_at(s, from)] + lines_from(s, first_of(s, '\n', from) + 1)
    }
}

/// The lines of `s`.
pub open spec fn lines_of(s: Seq<char>) -> Seq<Seq<char>> {
    lines_from(s, 0)
}

/// The number that the digits of `s` spell.
pub open spec fn digits_value(s: Seq<char>) -> int
    decreases s.len(),
{
    if s.len() == 0 {
        0
    } else {
        digits_value(s.drop_last()) * 10 + (s.last() as int - '0' as int)
    }
}

/// Whether every character of `s` is a decimal digit.
pub open spec fn all_digits(s: Seq<char>) -> bool {
    forall|i: int| 0 <= i < s.len() ==> is_digit(#[trigger] s[i])
}

/// The count that `s` spells: an optional plus sign and at least one
/// digit, with a value that a count can hold.
pub open spec fn count_of(s: Seq<char>) -> Option<usize> {
    let body = if s.len() > 0 && s[0] == '+' {
        s.drop_first()
    } else {
        s
    };
    if body.len() > 0 && all_digits(body) && digits_value(body) <= usize::MAX {
        Some(digits_value(body) as usize)
    } else {
        None
    }
}

/// The texts of a list of character vectors.
pub open spec fn seqs_of(list: Seq<Vec<char>>) -> Seq<Seq<char>> {
    Seq::new(list.len(), |i: int| list[i]@)
}

/// Whether `c` is white space.
pub fn space(c: char) -> (b: bool)
    ensures
        b == is_space(c),
{
    let u: u32 = c as u32;
    (0x09 <= u && u <= 0x0D) || u == 0x20 || u == 0x85 || u == 0xA0 || u == 0x1680 || (0x2000
        <= u && u <= 0x200A) || u == 0x2028 || u == 0x2029 || u == 0x202F || u == 0x205F || u
        == 0x3000
}

/// The value of the digit `c`, if it is one.
pub fn digit(c: char) -> (d: Option<u8>)
    ensures
        d is Some <==> is_digit(c),
        d is Some ==> d->0 == c as int - '0' as int && d->0 <= 9,
{
    let u: u32 = c as u32;
    if 0x30 <= u && u <= 0x39 {
        Some((u - 0x30) as u8)
    } else {
        None
    }
}

proof fn lemma_lead(s: Seq<char>, n: int)
    requires
        0 <= n <= s.len(),
        forall|j: int| 0 <= j < n ==> is_space(s[j]),
        n == s.len() || !is_space(s[n]),
    ensures
        lead(s) == n,
    decreases n,
{
    if n > 0 {
        let rest = s.drop_first();
        assert forall|j: int| 0 <= j < n - 1 implies is_space(rest[j]) by {
            assert(rest[j] == s[j + 1]);
        }
        if n < s.len() {
            assert(rest[n - 1] == s[n]);
        }
        lemma_lead(rest, n - 1);
    }
}

proof fn lemma_trail(s: Seq<char>, n: int)
    requires
        0 <= n <= s.len(),
        forall|j: int| s.len() - n <= j < s.len() ==> is_space(s[j]),
        n == s.len() || !is_space(s[s.len() - n - 1]),
    ensures
        trail(s) == n,
    decreases n,
{
    if n > 0 {
        let rest = s.drop_last();
        assert forall|j: int| rest.len() - (n - 1) <= j < rest.len() implies is_space(rest[j]) by {
            assert(rest[j] == s[j]);
        }
        if n < s.len() {
            assert(rest[rest.len() - (n - 1) - 1] == s[s.len() - n - 1]);
        }
        lemma_trail(rest, n - 1);
    }
}

/// The range of `chars[from..to]` that is left when the white space at its
/// start and at its end is taken away.
pub fn trim_range(chars: &Vec<char>, from: usize, to: usize) -> (range: (usize, usize))
    requires
        from <= to <= chars@.len(),
    ensures
        from <= range.0 <= range.1 <= to,
        chars@.subrange(range.0 as int, range.1 as int) == trimmed(
            chars@.subrange(from as int, to as int),
        ),
{
    let ghost s = chars@.subrange(from as int, to as int);
    let mut a: usize = from;
    while a < to && space(chars[a])
        invariant
            from <= a <= to <= chars@.len(),
            s == chars@.subrange(from as int, to as int),
            forall|j: int| 0 <= j < a - from ==> is_space(s[j]),
        decreases to - a,
    {
        a = a + 1;
    }
    proof {
        lemma_lead(s, a - from);
    }
    if a == to {
        assert(chars@.subrange(a as int, a as int) =~= Seq::<char>::empty());
        return (a, a);
    }
    let mut b: usize = to;
    while b > a && space(chars[b - 1])
        invariant
            from <= a < b <= to <= chars@.len(),
            s == chars@.subrange(from as int, to as int),
            !is_space(chars@[a as int]),
            forall|j: int| b - from <= j < s.len() ==> is_space(s[j]),
        decreases b - a,
    {
        b = b - 1;
    }
    proof {
        assert(s[b - from - 1] == chars@[b - 1]);
        lemma_trail(s, to - b);
        assert(chars@.subrange(a as int, b as int) =~= s.subrange(a - from, s.len() - (to - b)));
    }
    (a, b)
}

/// The position of the first `c` in `chars` at or after `from`, or the
/// length of `chars` if there is none.
pub fn find(chars: &Vec<char>, c: char, from: usize) -> (at: usize)
    requires
        from <= chars@.len(),
    ensures
        at == first_of(chars@, c, from as int),
        from <= at <= chars@.len(),
        at < chars@.len() ==> chars@[at as int] == c,
{
    let n: usize = chars.len();
    let mut i: usize = from;
    while i < n
        invariant
            from <= i <= n,
            n == chars@.len(),
            first_of(chars@, c, from as int) == first_of(chars@, c, i as int),
        decreases n - i,
    {
        if chars[i] == c {
            return i;
        }
        i = i + 1;
    }
    n
}

/// A copy of `chars[from..to]`.
pub fn slice_of(chars: &Vec<char>, from: usize, to: usize) -> (piece: Vec<char>)
    requires
        from <= to <= chars@.len(),
    ensures
        piece@ == chars@.subrange(from as int, to as int),
{
    let mut piece: Vec<char> = Vec::new();
    let mut i: usize = from;
    while i < to
        invariant
            from <= i <= to <= chars@.len(),
            piece@ == chars@.subrange(from as int, i as int),
        decreases to - i,
    {
        piece.push(chars[i]);
        assert(chars@.subrange(from as int, i + 1) =~= chars@.subrange(from as int, i as int).push(
            chars@[i as int],
        ));
        i = i + 1;
    }
    piece
}

/// The pieces of `chars` that lie between the characters `c`.
pub fn split(chars: &Vec<char>, c: char) -> (list: Vec<Vec<char>>)
    ensures
        seqs_of(list@) == pieces(chars@, c),
{
    let n: usize = chars.len();
    let mut list: Vec<Vec<char>> = Vec::new();
    let mut from: usize = 0;
    assert(seqs_of(list@) =~= Seq::<Seq<char>>::empty());
    loop
        invariant_except_break
            n == chars@.len(),
            from <= n,
            seqs_of(list@) + pieces_from(chars@, c, from as int) == pieces(chars@, c),
        ensures
            seqs_of(list@) == pieces(chars@, c),
        decreases n - from,
    {
        let ghost before = seqs_of(list@);
        let end = find(chars, c, from);
        list.push(slice_of(chars, from, end));
        assert(seqs_of(list@) =~= before.push(chars@.subrange(from as int, end as int)));
        if end >= n {
            assert(before + seq![chars@.subrange(from as int, n as int)] =~= seqs_of(list@));
            break;
        }
        assert(before + (seq![chars@.subrange(from as int, end as int)] + pieces_from(
            chars@,
            c,
            end + 1,
        )) =~= seqs_of(list@) + pieces_from(chars@, c, end + 1));
        from = end + 1;
    }
    list
}

/// The lines of `chars`.
pub fn lines(chars: &Vec<char>) -> (list: Vec<Vec<char>>)
    ensures
        seqs_of(list@) == lines_of(chars@),
{
    let n: usize = chars.len();
    let mut list: Vec<Vec<char>> = Vec::new();
    let mut from: usize = 0;
    assert(seqs_of(list@) =~= Seq::<Seq<char>>::empty());
    while from < n
        invariant
            n == chars@.len(),
            from <= n,
            seqs_of(list@) + lines_from(chars@, from as int) == lines_of(chars@),
        decreases n - from,
    {
        let ghost before = seqs_of(list@);
        let end = find(chars, '\n', from);
        let stop: usize = if end < n && end > from && chars[end - 1] == '\r' {
            end - 1
        } else {
            end
        };
        list.push(slice_of(chars, from, stop));
        proof {
            assert(seqs_of(list@) =~= before.push(line_at(chars@, from as int)));
            if end >= n {
                assert(before + seq![line_at(chars@, from as int)] =~= seqs_of(list@)
                    + lines_from(chars@, n as int));
            } else {
                assert(before + (seq![line_at(chars@, from as int)] + lines_from(
                    chars@,
                    end + 1,
                )) =~= seqs_of(list@) + lines_from(chars@, end + 1));
            }
        }
        if end >= n {
            from = n;
        } else {
            from = end + 1;
        }
    }
    assert(seqs_of(list@) + lines_from(chars@, n as int) =~= seqs_of(list@));
    list
}

/// The value of a longer run of digits is at least that of its start.
pub proof fn lemma_digits_grow(s: Seq<char>, k: int)
    requires
        all_digits(s),
        0 <= k <= s.len(),
    ensures
        0 <= digits_value(s.subrange(0, k)) <= digits_value(s),
    decreases s.len() - k,
{
    if k == s.len() {
        assert(s.subrange(0, k) =~= s);
        lemma_digits_nonnegative(s);
    } else {
        lemma_digits_grow(s, k + 1);
        let longer = s.subrange(0, k + 1);
        assert(longer.drop_last() =~= s.subrange(0, k));
        assert(is_digit(s[k]));
        assert(longer.last() == s[k]);
        lemma_digits_nonnegative(s.subrange(0, k));
    }
}

pub proof fn lemma_digits_nonnegative(s: Seq<char>)
    requires
        all_digits(s),
    ensures
        digits_value(s) >= 0,
    decreases s.len(),
{
    if s.len() > 0 {
        assert(is_digit(s.last()));
        assert forall|i: int| 0 <= i < s.drop_last().len() implies is_digit(
            #[trigger] s.drop_last()[i],
        ) by {
            assert(s.drop_last()[i] == s[i]);
        }
        lemma_digits_nonnegative(s.drop_last());
    }
}

/// The count that `chars` spells.
pub fn parse_count(chars: &Vec<char>) -> (count: Option<usize>)
    ensures
        count == count_of(chars@),
{
    let n: usize = chars.len();
    let start: usize = if n > 0 && chars[0] == '+' {
        1
    } else {
        0
    };
    let ghost body = chars@.subrange(start as int, n as int);
    proof {
        if start == 1 {
            assert(body =~= chars@.drop_first());
        } else {
            assert(body =~= chars@);
        }
        assert(count_of(chars@) == if body.len() > 0 && all_digits(body) && digits_value(body)
            <= usize::MAX {
            Some(digits_value(body) as usize)
        } else {
            None
        });
    }
    if start == n {
        return None;
    }
    let mut value: u128 = 0;
    let mut i: usize = start;
    while i < n
        invariant
            start <= i <= n,
            n == chars@.len(),
            body == chars@.subrange(start as int, n as int),
            count_of(chars@) == if body.len() > 0 && all_digits(body) && digits_value(body)
                <= usize::MAX {
                Some(digits_value(body) as usize)
            } else {
                None
            },
            all_digits(body.subrange(0, i - start)),
            value == digits_value(body.subrange(0, i - start)),
            value <= usize::MAX,
        decreases n - i,
    {
        match digit(chars[i]) {
            Some(d) => {
                let next: u128 = value * 10 + (d as u128);
                proof {
                    let longer = body.subrange(0, i + 1 - start);
                    assert(longer.drop_last() =~= body.subrange(0, i - start));
                    assert(longer.last() == chars@[i as int]);
                    assert forall|j: int| 0 <= j < longer.len() implies is_digit(
                        #[trigger] longer[j],
                    ) by {
                        if j < i - start {
                            assert(longer[j] == body.subrange(0, i - start)[j]);
                        }
                    }
                    assert(next == digits_value(longer));
                }
                if next > usize::MAX as u128 {
                    proof {
                        if all_digits(body) {
                            lemma_digits_grow(body, i + 1 - start);
                            assert(digits_value(body) > usize::MAX);
                        }
                    }
                    return None;
                }
                value = next;
            },
            None => {
                proof {
                    assert(body[i - start] == chars@[i as int]);
                    assert(!is_digit(body[i - start]));
                    assert(!all_digits(body));
                }
                return None;
            },
        }
        i = i + 1;
    }
    assert(body.subrange(0, n - start) =~= body);
    Some(value as usize)
}

/// Whether `pattern` stands somewhere in `text`.
pub open spec fn contains_text(text: Seq<char>, pattern: Seq<char>) -> bool {
    exists|at: int| #[trigger] crate::chars::occurs_at(text, pattern, at)
}

/// Whether `pattern` stands somewhere in `text`.
pub fn contains(text: &Vec<char>, pattern: &Vec<char>) -> (found: bool)
    ensures
        found == contains_text(text@, pattern@),
{
    let n: usize = text.len();
    let mut i: usize = 0;
    while i < n
        invariant
            n == text@.len(),
            i <= n,
            forall|at: int| 0 <= at < i ==> !crate::chars::occurs_at(text@, pattern@, at),
        decreases n - i,
    {
        if crate::chars::matches_at(text, pattern, i) {
            return true;
        }
        i = i + 1;
    }
    crate::chars::matches_at(text, pattern, n)
}

} // verus!
