//! The names of fields.
//!
//! A field has a name of words parted by underscores, such as
//! `next_page_token`. In a document the same field stands under a name in
//! which the words are joined and each but the first begins with a capital:
//! `nextPageToken`. One rule turns the one into the other for every field.

use vstd::prelude::*;
use vstd::string::*;

verus! {

/// The capital of a small Latin letter; any other character is kept.
pub open spec fn upper(c: char) -> char {
    if 'a' <= c <= 'z' {
        ((c as int) - 32) as char
    } else {
        c
    }
}

/// The small form of a capital Latin letter; any other character is kept.
pub open spec fn lower(c: char) -> char {
    if 'A' <= c <= 'Z' {
        ((c as int) + 32) as char
    } else {
        c
    }
}

/// The words of `name` from position `from` on, written without the
/// underscores that part them; the first letter of each word but the first
/// is a capital, and that of the first word too where `capitalize` holds.
pub open spec fn joined_words(name: Seq<char>, from: int, capitalize: bool) -> Seq<char>
    decreases name.len() - from,
{
    if from < 0 || from >= name.len() {
        Seq::empty()
    } else if name[from] == '_' {
        joined_words(name, from + 1, true)
    } else {
        seq![
            if capitalize {
                upper(name[from])
            } else {
                name[from]
            },
        ] + joined_words(name, from + 1, false)
    }
}

/// The name under which a field called `name` stands in a document: the
/// words of `name`, which underscores part, are joined; each word but the
/// first begins with a capital, and the first with a small letter.
pub open spec fn camel_case(name: Seq<char>) -> Seq<char> {
    let words = joined_words(name, 0, true);
    if words.len() == 0 {
        words
    } else {
        seq![lower(words[0])] + words.drop_first()
    }
}

fn upper_piece(c: char) -> (piece: &'static str)
    requires
        'a' <= c <= 'z',
    ensures
        piece@ == seq![upper(c)],
{
    proof {
        reveal_strlit("ABCDEFGHIJKLMNOPQRSTUVWXYZ");
    }
    let at: usize = (c as u8 - 97) as usize;
    let piece: &'static str = "ABCDEFGHIJKLMNOPQRSTUVWXYZ".substring_ascii(at, at + 1);
    assert(piece@ =~= seq![upper(c)]);
    piece
}

fn lower_piece(c: char) -> (piece: &'static str)
    requires
        'A' <= c <= 'Z',
    ensures
        piece@ == seq![lower(c)],
{
    proof {
        reveal_strlit("abcdefghijklmnopqrstuvwxyz");
    }
    let at: usize = (c as u8 - 65) as usize;
    let piece: &'static str = "abcdefghijklmnopqrstuvwxyz".substring_ascii(at, at + 1);
    assert(piece@ =~= seq![lower(c)]);
    piece
}

fn join_words(name: &str) -> (words: String)
    ensures
        words@ == joined_words(name@, 0, true),
{
    let n: usize = name.unicode_len();
    let mut words = String::new();
    let mut capitalize = true;
    let mut i: usize = 0;
    while i < n
        invariant
            i <= n,
            n == name@.len(),
            words@ + joined_words(name@, i as int, capitalize) == joined_words(name@, 0, true),
        decreases n - i,
    {
        let c = name.get_char(i);
        let ghost before = words@;
        if c == '_' {
            capitalize = true;
        } else {
            if capitalize && 'a' <= c && c <= 'z' {
                words.append(upper_piece(c));
            } else {
                words.append(name.substring_char(i, i + 1));
                assert(name@.subrange(i as int, i + 1) =~= seq![c]);
            }
            assert(words@ + joined_words(name@, i + 1, false) =~= before + joined_words(
                name@,
                i as int,
                capitalize,
            ));
            capitalize = false;
        }
        i += 1;
    }
    words
}

/// The name under which the field `field` stands in a document. Field names
/// are short: the text is walked once for each of its characters.
pub fn wire_name(field: &str) -> (wire: String)
    ensures
        wire@ == camel_case(field@),
{
    let words = join_words(field);
    let n: usize = words.as_str().unicode_len();
    if n == 0 {
        return words;
    }
    let first = words.as_str().get_char(0);
    if 'A' <= first && first <= 'Z' {
        let mut wire = lower_piece(first).to_owned();
        wire.append(words.as_str().substring_char(1, n));
        assert(words@.subrange(1, n as int) =~= words@.drop_first());
        wire
    } else {
        assert(words@ =~= seq![lower(words@[0])] + words@.drop_first());
        words
    }
}

} // verus!
