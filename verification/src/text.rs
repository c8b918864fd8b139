//! Small operations on text, stated over sequences of characters.

use vstd::prelude::*;

verus! {

/// `String::push` appends one character to the end of the string.
pub assume_specification[ String::push ](text: &mut String, ch: char)
    ensures
        final(text)@ == old(text)@.push(ch),
;

/// Whether `text` ends with `suffix`.
pub open spec fn is_suffix(suffix: Seq<char>, text: Seq<char>) -> bool {
    &&& suffix.len() <= text.len()
    &&& text.subrange(text.len() - suffix.len(), text.len() as int) == suffix
}

/// What an escape letter stands for after a backslash.
pub open spec fn escape_of(letter: char) -> Option<char> {
    if letter == 't' {
        Some('\t')
    } else if letter == 'n' {
        Some('\n')
    } else if letter == 'r' {
        Some('\r')
    } else {
        None
    }
}

/// `raw` with each backslash that is followed by `t`, `n` or `r` replaced,
/// together with that letter, by a tab, a newline or a carriage return.
/// The text is read from left to right, and every other character stays.
pub open spec fn unescaped(raw: Seq<char>) -> Seq<char>
    decreases raw.len(),
{
    if raw.len() == 0 {
        raw
    } else if raw.len() >= 2 && raw[0] == '\\' && escape_of(raw[1]) is Some {
        seq![escape_of(raw[1])->0] + unescaped(raw.skip(2))
    } else {
        seq![raw[0]] + unescaped(raw.skip(1))
    }
}

/// `part` adjoined to the path `base`, with `/` between the two where
/// `base` does not already end in one. A `part` that starts at the root
/// stands alone.
pub open spec fn joined(base: Seq<char>, part: Seq<char>) -> Seq<char> {
    if part.len() > 0 && part[0] == '/' {
        part
    } else if base.len() == 0 || base.last() == '/' {
        base + part
    } else {
        base + seq!['/'] + part
    }
}

/// The characters of a string slice, in order.
pub fn chars_of(text: &str) -> (chars: Vec<char>)
    ensures
        chars@ == text@,
{
    let mut chars: Vec<char> = Vec::new();
    for c in it: text.chars()
        invariant
            it.seq() == text@,
            chars@ == it.seq().subrange(0, it.index()),
    {
        chars.push(c);
    }
    chars
}

/// Tells whether `text` ends with `suffix`.
pub fn ends_with(text: &str, suffix: &str) -> (found: bool)
    ensures
        found == is_suffix(suffix@, text@),
{
    let whole = chars_of(text);
    let tail = chars_of(suffix);
    if tail.len() > whole.len() {
        return false;
    }
    let start: usize = whole.len() - tail.len();
    let mut i: usize = 0;
    while i < tail.len()
        invariant
            whole@ == text@,
            tail@ == suffix@,
            start + tail.len() == whole.len(),
            i <= tail.len(),
            forall|k: int| 0 <= k < i ==> whole@[start + k] == tail@[k],
        decreases tail.len() - i,
    {
        if whole[start + i] != tail[i] {
            return false;
        }
        i += 1;
    }
    assert(whole@.subrange(start as int, whole.len() as int) =~= tail@);
    true
}

/// Expands the escapes `\t`, `\n` and `\r` of a delimiter as it was typed
/// into the characters they stand for.
pub fn unescape(raw: &str) -> (plain: String)
    ensures
        plain@ == unescaped(raw@),
{
    let raw = chars_of(raw);
    let mut plain = String::new();
    let mut i: usize = 0;
    assert(plain@ + unescaped(raw@.skip(0)) =~= unescaped(raw@)) by {
        assert(raw@.skip(0) =~= raw@);
    }
    while i < raw.len()
        invariant
            i <= raw.len(),
            plain@ + unescaped(raw@.skip(i as int)) == unescaped(raw@),
        decreases raw.len() - i,
    {
        let ghost rest = raw@.skip(i as int);
        let expanded = if raw[i] == '\\' && i + 1 < raw.len() {
            escape(raw[i + 1])
        } else {
            None
        };
        match expanded {
            Some(ch) => {
                assert(rest.skip(2) =~= raw@.skip(i + 2));
                plain.push(ch);
                i += 2;
            },
            None => {
                assert(rest.skip(1) =~= raw@.skip(i + 1));
                plain.push(raw[i]);
                i += 1;
            },
        }
    }
    plain
}

/// The character that an escape letter stands for.
fn escape(letter: char) -> (ch: Option<char>)
    ensures
        ch == escape_of(letter),
{
    if letter == 't' {
        Some('\t')
    } else if letter == 'n' {
        Some('\n')
    } else if letter == 'r' {
        Some('\r')
    } else {
        None
    }
}

/// Adjoins `part` to the path `base`.
pub fn join(base: &str, part: &str) -> (path: String)
    ensures
        path@ == joined(base@, part@),
{
    if part.unicode_len() > 0 && part.get_char(0) == '/' {
        return part.to_owned();
    }
    let mut path = base.to_owned();
    let length: usize = base.unicode_len();
    if length > 0 && base.get_char(length - 1) != '/' {
        path.push('/');
    }
    path.append(part);
    path
}

} // verus!
