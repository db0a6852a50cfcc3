//! Character sequences as request targets are made of them: decimal
//! notation, occurrences of a pattern, suffixes, and the parameters of a
//! query.

use vstd::prelude::*;
use vstd::string::*;

verus! {

/// The character that writes the single digit `d` in base ten.
pub open spec fn digit_char(d: nat) -> char
    recommends
        d < 10,
{
    if d == 0 {
        '0'
    } else if d == 1 {
        '1'
    } else if d == 2 {
        '2'
    } else if d == 3 {
        '3'
    } else if d == 4 {
        '4'
    } else if d == 5 {
        '5'
    } else if d == 6 {
        '6'
    } else if d == 7 {
        '7'
    } else if d == 8 {
        '8'
    } else {
        '9'
    }
}

/// The decimal notation of `n`: most significant digit first, no leading
/// zeros, and `"0"` for zero.
pub open spec fn decimal(n: nat) -> Seq<char>
    decreases n,
{
    if n < 10 {
        seq![digit_char(n)]
    } else {
        decimal(n / 10).push(digit_char(n % 10))
    }
}

fn digit_str(d: u32) -> (s: &'static str)
    requires
        d < 10,
    ensures
        s@ == seq![digit_char(d as nat)],
{
    proof {
        reveal_strlit("0");
        reveal_strlit("1");
        reveal_strlit("2");
        reveal_strlit("3");
        reveal_strlit("4");
        reveal_strlit("5");
        reveal_strlit("6");
        reveal_strlit("7");
        reveal_strlit("8");
        reveal_strlit("9");
    }
    let s: &'static str = if d == 0 {
        "0"
    } else if d == 1 {
        "1"
    } else if d == 2 {
        "2"
    } else if d == 3 {
        "3"
    } else if d == 4 {
        "4"
    } else if d == 5 {
        "5"
    } else if d == 6 {
        "6"
    } else if d == 7 {
        "7"
    } else if d == 8 {
        "8"
    } else {
        "9"
    };
    assert(s@ =~= seq![digit_char(d as nat)]);
    s
}

/// Writes `n` in decimal notation.
pub fn decimal_string(n: u32) -> (s: String)
    ensures
        s@ == decimal(n as nat),
    decreases n,
{
    if n < 10 {
        digit_str(n).to_owned()
    } else {
        let mut s = decimal_string(n / 10);
        s.append(digit_str(n % 10));
        assert(s@ =~= decimal((n / 10) as nat).push(digit_char((n % 10) as nat)));
        s
    }
}

/// Whether `pattern` stands in `text` from position `at` on.
pub open spec fn occurs_at(text: Seq<char>, pattern: Seq<char>, at: int) -> bool {
    &&& 0 <= at
    &&& at + pattern.len() <= text.len()
    &&& text.subrange(at, at + pattern.len()) == pattern
}

/// Whether `pattern` stands somewhere in `text`.
pub open spec fn contains(text: Seq<char>, pattern: Seq<char>) -> bool {
    exists|at: int| occurs_at(text, pattern, at)
}

/// Whether `text` ends with `suffix`.
pub open spec fn ends_with(text: Seq<char>, suffix: Seq<char>) -> bool {
    &&& suffix.len() <= text.len()
    &&& text.subrange(text.len() - suffix.len(), text.len() as int) == suffix
}

/// Whether `c` separates the parameters of a query: `?` leads the first
/// parameter and `&` each later one.
pub open spec fn is_separator(c: char) -> bool {
    c == '?' || c == '&'
}

/// The text by which the parameter `name` begins after `separator`.
pub open spec fn parameter_start(separator: char, name: Seq<char>) -> Seq<char> {
    seq![separator] + name + seq!['=']
}

/// Whether `text` holds a query parameter called `name`: the name between
/// a separator and an equals sign.
pub open spec fn has_parameter(text: Seq<char>, name: Seq<char>) -> bool {
    contains(text, parameter_start('?', name)) || contains(text, parameter_start('&', name))
}

/// Whether `pattern` can only begin where a parameter begins: it starts
/// with a separator and holds no other.
pub open spec fn starts_parameter(pattern: Seq<char>) -> bool {
    &&& pattern.len() >= 2
    &&& is_separator(pattern[0])
    &&& forall|j: int| 1 <= j < pattern.len() ==> !is_separator(#[trigger] pattern[j])
}

/// Whether `text` holds no separator.
pub open spec fn separator_free(text: Seq<char>) -> bool {
    forall|i: int| 0 <= i < text.len() ==> !is_separator(#[trigger] text[i])
}

/// A text without separators holds no beginning of a parameter.
pub proof fn lemma_separator_free_text(text: Seq<char>, pattern: Seq<char>)
    requires
        separator_free(text),
        starts_parameter(pattern),
    ensures
        !contains(text, pattern),
{
    assert forall|at: int| !occurs_at(text, pattern, at) by {
        if occurs_at(text, pattern, at) {
            assert(text.subrange(at, at + pattern.len())[0] == text[at]);
        }
    }
}

/// The decimal notation of a number holds no separator.
pub proof fn lemma_decimal_separator_free(n: nat)
    ensures
        separator_free(decimal(n)),
    decreases n,
{
    if n >= 10 {
        lemma_decimal_separator_free(n / 10);
    }
}

/// Appending a parameter adds no occurrence of `pattern`, the beginning of
/// another parameter: where neither `text` nor `value` holds `pattern`, and
/// `name` is a separator followed by text that holds none and that differs
/// from `pattern` in its first character, `text + name + value` holds no
/// `pattern` either.
pub proof fn lemma_parameter_appended(
    text: Seq<char>,
    name: Seq<char>,
    value: Seq<char>,
    pattern: Seq<char>,
)
    requires
        starts_parameter(pattern),
        starts_parameter(name),
        name[1] != pattern[1],
        !contains(text, pattern),
        !contains(value, pattern),
    ensures
        !contains(text + name + value, pattern),
{
    let whole = text + name + value;
    let a = text.len() as int;
    let n = name.len() as int;
    assert forall|at: int| !occurs_at(whole, pattern, at) by {
        if occurs_at(whole, pattern, at) {
            let found = whole.subrange(at, at + pattern.len());
            if at + pattern.len() <= a {
                assert(text.subrange(at, at + pattern.len()) =~= found);
                assert(occurs_at(text, pattern, at));
            } else if at < a {
                assert(found[a - at] == whole[a]);
                assert(whole[a] == name[0]);
                assert(!is_separator(pattern[a - at]));
            } else if at == a {
                assert(found[1] == whole[a + 1]);
                assert(whole[a + 1] == name[1]);
            } else if at < a + n {
                assert(found[0] == whole[at]);
                assert(whole[at] == name[at - a]);
                assert(!is_separator(name[at - a]));
            } else {
                assert(value.subrange(at - a - n, at - a - n + pattern.len()) =~= found);
                assert(occurs_at(value, pattern, at - a - n));
            }
        }
    }
}

/// What stands in a text stands in every text that continues it.
pub proof fn lemma_contains_extended(text: Seq<char>, more: Seq<char>, pattern: Seq<char>)
    requires
        contains(text, pattern),
    ensures
        contains(text + more, pattern),
{
    let at = choose|at: int| occurs_at(text, pattern, at);
    assert((text + more).subrange(at, at + pattern.len()) =~= text.subrange(
        at,
        at + pattern.len(),
    ));
    assert(occurs_at(text + more, pattern, at));
}

} // verus!
