//! Working on texts character by character.

use vstd::prelude::*;
use vstd::string::StrSliceExecFns;

verus! {

/// `String::push`: appends one character.
pub assume_specification[ String::push ](text: &mut String, ch: char)
    ensures
        final(text)@ == old(text)@.push(ch),
;

/// The characters of `text`.
pub fn to_chars(text: &str) -> (chars: Vec<char>)
    ensures
        chars@ == text@,
{
    let n: usize = text.unicode_len();
    let mut chars: Vec<char> = Vec::new();
    let mut i: usize = 0;
    while i < n
        invariant
            n == text@.len(),
            i <= n,
            chars@ == text@.subrange(0, i as int),
        decreases n - i,
    {
        chars.push(text.get_char(i));
        assert(text@.subrange(0, i + 1) =~= text@.subrange(0, i as int).push(text@[i as int]));
        i = i + 1;
    }
    assert(text@.subrange(0, n as int) =~= text@);
    chars
}

/// The text made of the characters `chars[from..to]`.
pub fn text_between(chars: &Vec<char>, from: usize, to: usize) -> (text: String)
    requires
        from <= to <= chars@.len(),
    ensures
        text@ == chars@.subrange(from as int, to as int),
{
    let mut text = String::new();
    let mut i: usize = from;
    while i < to
        invariant
            from <= i <= to <= chars@.len(),
            text@ == chars@.subrange(from as int, i as int),
        decreases to - i,
    {
        text.push(chars[i]);
        assert(chars@.subrange(from as int, i + 1) =~= chars@.subrange(from as int, i as int).push(
            chars@[i as int],
        ));
        i = i + 1;
    }
    text
}

/// The text made of `chars`.
pub fn from_chars(chars: &Vec<char>) -> (text: String)
    ensures
        text@ == chars@,
{
    let text = text_between(chars, 0, chars.len());
    assert(chars@.subrange(0, chars@.len() as int) =~= chars@);
    text
}

/// Whether `pattern` stands in `text` at position `at`.
pub open spec fn occurs_at(text: Seq<char>, pattern: Seq<char>, at: int) -> bool {
    0 <= at && at + pattern.len() <= text.len() && text.subrange(at, at + pattern.len())
        == pattern
}

/// `text` from position `from` on, with every occurrence of `pattern`
/// replaced by `with`. Occurrences are taken from the left and do not
/// overlap. An empty pattern occurs nowhere.
pub open spec fn replaced_from(text: Seq<char>, pattern: Seq<char>, with: Seq<char>, from: int) -> Seq<
    char,
>
    decreases text.len() - from,
{
    if from >= text.len() || from < 0 {
        Seq::<char>::empty()
    } else if pattern.len() > 0 && occurs_at(text, pattern, from) {
        with + replaced_from(text, pattern, with, from + pattern.len())
    } else {
        seq![text[from]] + replaced_from(text, pattern, with, from + 1)
    }
}

/// `text` with every occurrence of `pattern` replaced by `with`.
pub open spec fn replaced(text: Seq<char>, pattern: Seq<char>, with: Seq<char>) -> Seq<char> {
    replaced_from(text, pattern, with, 0)
}

/// Whether `pattern` stands in `text` at position `at`.
pub fn matches_at(text: &Vec<char>, pattern: &Vec<char>, at: usize) -> (found: bool)
    ensures
        found == occurs_at(text@, pattern@, at as int),
{
    let n: usize = text.len();
    let m: usize = pattern.len();
    if at > n || m > n - at {
        return false;
    }
    let mut k: usize = 0;
    while k < m
        invariant
            at + m <= n,
            n == text@.len(),
            m == pattern@.len(),
            k <= m,
            forall|j: int| 0 <= j < k ==> text@[at + j] == pattern@[j],
        decreases m - k,
    {
        if text[at + k] != pattern[k] {
            assert(text@.subrange(at as int, at + m)[k as int] != pattern@[k as int]);
            return false;
        }
        k = k + 1;
    }
    assert(text@.subrange(at as int, at + m) =~= pattern@);
    true
}

/// The rest of a replacement is what is still to come: what was made of the
/// text before `from`, followed by what is made of the text from `from` on,
/// is what is made of the whole text.
proof fn lemma_replaced_step(text: Seq<char>, pattern: Seq<char>, with: Seq<char>, from: int)
    requires
        0 <= from < text.len(),
    ensures
        pattern.len() > 0 && occurs_at(text, pattern, from) ==> replaced_from(
            text,
            pattern,
            with,
            from,
        ) == with + replaced_from(text, pattern, with, from + pattern.len()),
        !(pattern.len() > 0 && occurs_at(text, pattern, from)) ==> replaced_from(
            text,
            pattern,
            with,
            from,
        ) == seq![text[from]] + replaced_from(text, pattern, with, from + 1),
{
}

/// `text` with every occurrence of `pattern` replaced by `with`.
pub fn replace_all(text: &str, pattern: &str, with: &str) -> (result: String)
    ensures
        result@ == replaced(text@, pattern@, with@),
{
    let chars = to_chars(text);
    let pat = to_chars(pattern);
    let put = to_chars(with);
    let n: usize = chars.len();
    let m: usize = pat.len();
    let mut out: Vec<char> = Vec::new();
    let mut i: usize = 0;
    while i < n
        invariant
            n == chars@.len(),
            m == pat@.len(),
            i <= n,
            out@ + replaced_from(chars@, pat@, put@, i as int) == replaced(chars@, pat@, put@),
        decreases n - i,
    {
        proof {
            lemma_replaced_step(chars@, pat@, put@, i as int);
        }
        let ghost before = out@;
        if m > 0 && matches_at(&chars, &pat, i) {
            let mut k: usize = 0;
            while k < put.len()
                invariant
                    k <= put@.len(),
                    out@ == before + put@.subrange(0, k as int),
                decreases put@.len() - k,
            {
                out.push(put[k]);
                assert(put@.subrange(0, k + 1) =~= put@.subrange(0, k as int).push(put@[k as int]));
                assert(out@ =~= before + put@.subrange(0, k + 1));
                k = k + 1;
            }
            assert(put@.subrange(0, put@.len() as int) =~= put@);
            assert((before + put@) + replaced_from(chars@, pat@, put@, i + m) =~= before + (put@
                + replaced_from(chars@, pat@, put@, i + m)));
            i = i + m;
        } else {
            out.push(chars[i]);
            assert((before.push(chars@[i as int])) + replaced_from(chars@, pat@, put@, i + 1)
                =~= before + (seq![chars@[i as int]] + replaced_from(chars@, pat@, put@, i + 1)));
            i = i + 1;
        }
    }
    assert(out@ =~= out@ + replaced_from(chars@, pat@, put@, n as int));
    from_chars(&out)
}

/// How many times `ch` stands at the start of `text`.
pub open spec fn leading(text: Seq<char>, ch: char) -> int
    decreases text.len(),
{
    if text.len() > 0 && text[0] == ch {
        1 + leading(text.drop_first(), ch)
    } else {
        0
    }
}

/// `text` without the characters `ch` at its start.
pub open spec fn without_leading(text: Seq<char>, ch: char) -> Seq<char> {
    text.subrange(leading(text, ch), text.len() as int)
}

/// The run of `ch` at the start of a text ends at the first other
/// character.
proof fn lemma_leading(text: Seq<char>, ch: char, n: int)
    requires
        0 <= n <= text.len(),
        forall|j: int| 0 <= j < n ==> text[j] == ch,
        n == text.len() || text[n] != ch,
    ensures
        leading(text, ch) == n,
    decreases n,
{
    if n > 0 {
        let rest = text.drop_first();
        assert forall|j: int| 0 <= j < n - 1 implies rest[j] == ch by {
            assert(rest[j] == text[j + 1]);
        }
        if n < text.len() {
            assert(rest[n - 1] == text[n]);
        }
        lemma_leading(rest, ch, n - 1);
    }
}

/// `text` without the characters `ch` at its start.
pub fn trim_start_char(text: &str, ch: char) -> (result: String)
    ensures
        result@ == without_leading(text@, ch),
{
    let chars = to_chars(text);
    let n: usize = chars.len();
    let mut i: usize = 0;
    while i < n && chars[i] == ch
        invariant
            n == chars@.len(),
            i <= n,
            forall|j: int| 0 <= j < i ==> chars@[j] == ch,
        decreases n - i,
    {
        i = i + 1;
    }
    proof {
        lemma_leading(chars@, ch, i as int);
    }
    text_between(&chars, i, n)
}

} // verus!
