//! Text that identifies things: decimal instance ids and cache keys.

use crate::chars::{matches_at, to_chars};
use vstd::prelude::*;
use vstd::string::StringExecFns;

verus! {

/// The text of the decimal digit `d`.
pub open spec fn digit_text(d: int) -> Seq<char> {
    if d == 0 {
        "0"@
    } else if d == 1 {
        "1"@
    } else if d == 2 {
        "2"@
    } else if d == 3 {
        "3"@
    } else if d == 4 {
        "4"@
    } else if d == 5 {
        "5"@
    } else if d == 6 {
        "6"@
    } else if d == 7 {
        "7"@
    } else if d == 8 {
        "8"@
    } else {
        "9"@
    }
}

/// The decimal text of `n`, without leading zeros.
pub open spec fn decimal_text(n: nat) -> Seq<char>
    decreases n,
{
    if n < 10 {
        digit_text(n as int)
    } else {
        decimal_text(n / 10) + digit_text((n % 10) as int)
    }
}

/// The text of a truth value: `true` or `false`.
pub open spec fn bool_text(b: bool) -> Seq<char> {
    if b {
        "true"@
    } else {
        "false"@
    }
}

/// The cache key of a project: its path, then whether stretching is
/// disabled, then the id of the instance.
pub open spec fn cache_key_text(path: Seq<char>, disable_stretch: bool, instance_id: Seq<char>) -> Seq<
    char,
> {
    path + bool_text(disable_stretch) + instance_id
}

/// Whether `text` ends with `suffix`.
pub open spec fn is_suffix(text: Seq<char>, suffix: Seq<char>) -> bool {
    suffix.len() <= text.len() && text.subrange(text.len() - suffix.len(), text.len() as int)
        == suffix
}

fn digit(d: u64) -> (text: &'static str)
    requires
        d < 10,
    ensures
        text@ == digit_text(d as int),
{
    if d == 0 {
        "0"
    } else if d == 1 {
        "1"
    } else if d == 2 {
        "2"
    } else if d == 3 {
        "3"
    } else if d == 4 {
        "4"
    } else if d == 5 {
        "5"
    } else if d == 6 {
        "6"
    } else if d == 7 {
        "7"
    } else if d == 8 {
        "8"
    } else {
        "9"
    }
}

/// The decimal text of `n`.
pub fn decimal(n: u64) -> (text: String)
    ensures
        text@ == decimal_text(n as nat),
    decreases n,
{
    if n < 10 {
        String::from_str(digit(n))
    } else {
        decimal(n / 10).concat(digit(n % 10))
    }
}

/// The cache key of a project.
pub fn cache_key(path: &str, disable_stretch: bool, instance_id: &str) -> (key: String)
    ensures
        key@ == cache_key_text(path@, disable_stretch, instance_id@),
{
    let flag: &'static str = if disable_stretch {
        "true"
    } else {
        "false"
    };
    String::from_str(path).concat(flag).concat(instance_id)
}

/// Whether `text` starts with `prefix`.
pub open spec fn is_prefix(text: Seq<char>, prefix: Seq<char>) -> bool {
    prefix.len() <= text.len() && text.subrange(0, prefix.len() as int) == prefix
}

/// Whether `text` starts with `prefix`.
pub fn starts_with(text: &str, prefix: &str) -> (found: bool)
    ensures
        found == is_prefix(text@, prefix@),
{
    let chars = to_chars(text);
    let pattern = to_chars(prefix);
    matches_at(&chars, &pattern, 0)
}

/// Whether `text` ends with `suffix`.
pub fn ends_with(text: &str, suffix: &str) -> (found: bool)
    ensures
        found == is_suffix(text@, suffix@),
{
    let chars = to_chars(text);
    let pattern = to_chars(suffix);
    if pattern.len() > chars.len() {
        false
    } else {
        matches_at(&chars, &pattern, chars.len() - pattern.len())
    }
}

/// `fastrand::u64` over the whole range: a number drawn at random. Nothing
/// is claimed of it.
#[verifier::external_body]
pub(crate) fn random_u64() -> (n: u64) {
    fastrand::u64(..)
}

/// A fresh instance id: the decimal text of a number drawn at random.
pub fn fresh_instance_id() -> (id: String)
    ensures
        exists|n: u64| id@ == decimal_text(n as nat),
{
    let n = random_u64();
    decimal(n)
}

/// The text of a digit is one character, and different digits have
/// different texts.
pub proof fn lemma_digit_texts(a: int, b: int)
    requires
        0 <= a <= 9,
        0 <= b <= 9,
    ensures
        digit_text(a).len() == 1,
        digit_text(a) == digit_text(b) ==> a == b,
{
    reveal_strlit("0");
    reveal_strlit("1");
    reveal_strlit("2");
    reveal_strlit("3");
    reveal_strlit("4");
    reveal_strlit("5");
    reveal_strlit("6");
    reveal_strlit("7");
    reveal_strlit("8");
    reveal_strlit("9");
    if digit_text(a) == digit_text(b) {
        assert(digit_text(a)[0] == digit_text(b)[0]);
    }
}

/// The decimal text of a number below ten is one character long, and that
/// of any other number is longer.
pub proof fn lemma_decimal_length(n: nat)
    ensures
        decimal_text(n).len() >= 1,
        n < 10 <==> decimal_text(n).len() == 1,
    decreases n,
{
    if n < 10 {
        lemma_digit_texts(n as int, 0);
    } else {
        lemma_decimal_length(n / 10);
        lemma_digit_texts((n % 10) as int, 0);
    }
}

/// A new id gives a new cache key: for one path and one stretch switch,
/// the keys of two different instance ids differ. After a fork the object
/// that was cached under the old key is therefore not the one that is
/// found.
pub proof fn law_new_id_new_key(
    path: Seq<char>,
    disable_stretch: bool,
    instance_id: Seq<char>,
    other_id: Seq<char>,
)
    requires
        instance_id != other_id,
    ensures
        cache_key_text(path, disable_stretch, instance_id) != cache_key_text(
            path,
            disable_stretch,
            other_id,
        ),
{
    let head = path + bool_text(disable_stretch);
    let key = cache_key_text(path, disable_stretch, instance_id);
    let other = cache_key_text(path, disable_stretch, other_id);
    assert(key.subrange(head.len() as int, key.len() as int) =~= instance_id);
    assert(other.subrange(head.len() as int, other.len() as int) =~= other_id);
}

/// Different numbers have different decimal texts: two instance ids that
/// were made of different numbers differ.
pub proof fn law_decimal_is_injective(a: nat, b: nat)
    requires
        decimal_text(a) == decimal_text(b),
    ensures
        a == b,
    decreases a,
{
    lemma_decimal_length(a);
    lemma_decimal_length(b);
    if a < 10 {
        lemma_digit_texts(a as int, b as int);
    } else {
        let ta = decimal_text(a / 10);
        let tb = decimal_text(b / 10);
        let da = digit_text((a % 10) as int);
        let db = digit_text((b % 10) as int);
        lemma_digit_texts((a % 10) as int, (b % 10) as int);
        lemma_digit_texts((b % 10) as int, (a % 10) as int);
        assert(decimal_text(a) == ta + da);
        assert(decimal_text(b) == tb + db);
        assert(ta.len() == tb.len());
        assert(ta =~= (ta + da).subrange(0, ta.len() as int));
        assert(tb =~= (tb + db).subrange(0, tb.len() as int));
        assert(da =~= (ta + da).subrange(ta.len() as int, (ta + da).len() as int));
        assert(db =~= (tb + db).subrange(tb.len() as int, (tb + db).len() as int));
        law_decimal_is_injective(a / 10, b / 10);
    }
}

} // verus!
