//! Character-level helpers on which the rest of the library is built: searching a text
//! for a pattern, cutting it into pieces, and joining pieces back together.
//!
//! Every text is modelled by its sequence of characters, `Seq<char>`.

use vstd::prelude::*;

verus! {

/// Whether `pattern` stands in `text` at position `at`.
pub open spec fn occurs_at(text: Seq<char>, pattern: Seq<char>, at: int) -> bool {
    &&& 0 <= at
    &&& at + pattern.len() <= text.len()
    &&& text.subrange(at, at + pattern.len()) == pattern
}

/// Whether `pattern` stands somewhere in `text`.
pub open spec fn contains(text: Seq<char>, pattern: Seq<char>) -> bool {
    exists|at: int| occurs_at(text, pattern, at)
}

/// Whether `at` is the leftmost position at which `pattern` stands in `text`.
pub open spec fn is_first_occurrence(text: Seq<char>, pattern: Seq<char>, at: int) -> bool {
    &&& occurs_at(text, pattern, at)
    &&& forall|earlier: int| 0 <= earlier < at ==> !occurs_at(text, pattern, earlier)
}

/// The leftmost position at or after `from` at which `pattern` stands in `text`.
pub open spec fn index_of(text: Seq<char>, pattern: Seq<char>, from: int) -> Option<int>
    decreases text.len() - from + 1,
{
    if from < 0 || from + pattern.len() > text.len() {
        None
    } else if occurs_at(text, pattern, from) {
        Some(from)
    } else {
        index_of(text, pattern, from + 1)
    }
}

/// Whether `text` ends with `suffix`.
pub open spec fn ends_with(text: Seq<char>, suffix: Seq<char>) -> bool {
    occurs_at(text, suffix, text.len() - suffix.len())
}

/// Whether `text` begins with `prefix`.
pub open spec fn starts_with(text: Seq<char>, prefix: Seq<char>) -> bool {
    occurs_at(text, prefix, 0)
}

/// The pieces joined into one text, with `separator` between neighbours.
pub open spec fn join(pieces: Seq<Seq<char>>, separator: Seq<char>) -> Seq<char>
    decreases pieces.len(),
{
    if pieces.len() == 0 {
        Seq::empty()
    } else if pieces.len() == 1 {
        pieces[0]
    } else {
        join(pieces.drop_last(), separator) + separator + pieces.last()
    }
}

/// The pieces of `text` between its occurrences of the character `separator`.
/// A text without the separator is one piece; the empty text is one empty piece.
pub open spec fn split_on(text: Seq<char>, separator: char) -> Seq<Seq<char>>
    decreases text.len(),
{
    if text.len() == 0 {
        seq![Seq::empty()]
    } else {
        let before = split_on(text.drop_last(), separator);
        if text.last() == separator {
            before.push(Seq::empty())
        } else {
            before.drop_last().push(before.last().push(text.last()))
        }
    }
}

/// Whether `c` is white space as Unicode defines it (`White_Space`): the characters that
/// `char::is_whitespace` accepts.
pub open spec fn is_blank(c: char) -> bool {
    let code = c as u32;
    ||| 0x09 <= code <= 0x0D
    ||| code == 0x20
    ||| code == 0x85
    ||| code == 0xA0
    ||| code == 0x1680
    ||| 0x2000 <= code <= 0x200A
    ||| code == 0x2028
    ||| code == 0x2029
    ||| code == 0x202F
    ||| code == 0x205F
    ||| code == 0x3000
}

/// `text` without the white space at its start.
pub open spec fn trim_start(text: Seq<char>) -> Seq<char>
    decreases text.len(),
{
    if text.len() > 0 && is_blank(text.first()) {
        trim_start(text.drop_first())
    } else {
        text
    }
}

/// `text` without the white space at its end.
pub open spec fn trim_end(text: Seq<char>) -> Seq<char>
    decreases text.len(),
{
    if text.len() > 0 && is_blank(text.last()) {
        trim_end(text.drop_last())
    } else {
        text
    }
}

/// `text` without the white space at its start and at its end.
pub open spec fn trimmed(text: Seq<char>) -> Seq<char> {
    trim_end(trim_start(text))
}

/// The views of a list of strings.
pub open spec fn views(strings: Seq<String>) -> Seq<Seq<char>> {
    strings.map_values(|s: String| s@)
}

/// `index_of` finds exactly the leftmost occurrence at or after `from`.
pub proof fn lemma_index_of(text: Seq<char>, pattern: Seq<char>, from: int)
    requires
        0 <= from,
    ensures
        match index_of(text, pattern, from) {
            Some(at) => {
                &&& from <= at
                &&& occurs_at(text, pattern, at)
                &&& forall|earlier: int| from <= earlier < at ==> !occurs_at(text, pattern, earlier)
            },
            None => forall|at: int| from <= at ==> !occurs_at(text, pattern, at),
        },
    decreases text.len() - from + 1,
{
    if from + pattern.len() > text.len() {
    } else if occurs_at(text, pattern, from) {
    } else {
        lemma_index_of(text, pattern, from + 1);
    }
}

/// Searching from the start finds the first occurrence, and finds one whenever the
/// pattern is contained.
pub proof fn lemma_index_of_first(text: Seq<char>, pattern: Seq<char>)
    ensures
        index_of(text, pattern, 0) is Some <==> contains(text, pattern),
        forall|at: int|
            index_of(text, pattern, 0) == Some(at) <==> is_first_occurrence(text, pattern, at),
{
    lemma_index_of(text, pattern, 0);
    assert forall|at: int| is_first_occurrence(text, pattern, at) implies index_of(
        text,
        pattern,
        0,
    ) == Some(at) by {
        match index_of(text, pattern, 0) {
            Some(found) => {
                if found < at {
                    assert(!occurs_at(text, pattern, found));
                } else if at < found {
                    assert(!occurs_at(text, pattern, at));
                }
            },
            None => {
                assert(!occurs_at(text, pattern, at));
            },
        }
    }
    if contains(text, pattern) {
        let at = choose|at: int| occurs_at(text, pattern, at);
        assert(index_of(text, pattern, 0) is Some);
    }
}

/// Appends one character to a string.
///
/// Trusted: `String::push` of the standard library, which is documented to append the
/// given character to the end of the string.
#[verifier::external_body]
fn push_char(target: &mut String, c: char)
    ensures
        final(target)@ == old(target)@.push(c),
{
    target.push(c);
}

/// The characters of `s`, in order, as a vector that is indexed in constant time.
pub(crate) fn to_chars(s: &str) -> (chars: Vec<char>)
    ensures
        chars@ == s@,
{
    let mut chars: Vec<char> = Vec::new();
    for c in it: s.chars()
        invariant
            chars@ == it.seq().take(it.index() as int),
            it.seq() == s@,
    {
        chars.push(c);
    }
    chars
}

/// The string made of `chars[from..to]`.
pub(crate) fn substring(chars: &Vec<char>, from: usize, to: usize) -> (s: String)
    requires
        from <= to <= chars.len(),
    ensures
        s@ == chars@.subrange(from as int, to as int),
{
    let mut s = String::new();
    let mut i: usize = from;
    while i < to
        invariant
            from <= i <= to <= chars.len(),
            s@ == chars@.subrange(from as int, i as int),
        decreases to - i,
    {
        push_char(&mut s, chars[i]);
        i += 1;
        assert(s@ == chars@.subrange(from as int, i as int));
    }
    s
}

/// Whether `pattern` stands in `text` at position `at`.
pub(crate) fn matches_at(text: &Vec<char>, pattern: &Vec<char>, at: usize) -> (found: bool)
    ensures
        found == occurs_at(text@, pattern@, at as int),
{
    if pattern.len() > text.len() || at > text.len() - pattern.len() {
        return false;
    }
    let mut k: usize = 0;
    while k < pattern.len()
        invariant
            k <= pattern.len(),
            at + pattern.len() <= text.len(),
            forall|j: int| 0 <= j < k ==> text@[at + j] == pattern@[j],
        decreases pattern.len() - k,
    {
        if text[at + k] != pattern[k] {
            assert(text@.subrange(at as int, at + pattern.len())[k as int] != pattern@[k as int]);
            return false;
        }
        k += 1;
    }
    assert(text@.subrange(at as int, at + pattern.len()) =~= pattern@);
    true
}

/// The leftmost position at which `pattern` stands in `text`, if there is one.
pub(crate) fn find(text: &Vec<char>, pattern: &Vec<char>) -> (found: Option<usize>)
    ensures
        found is Some <==> contains(text@, pattern@),
        match found {
            Some(at) => index_of(text@, pattern@, 0) == Some(at as int),
            None => index_of(text@, pattern@, 0) is None,
        },
{
    proof {
        lemma_index_of_first(text@, pattern@);
    }
    if pattern.len() > text.len() {
        return None;
    }
    let last: usize = text.len() - pattern.len();
    let mut at: usize = 0;
    loop
        invariant
            last == text.len() - pattern.len(),
            at <= last,
            index_of(text@, pattern@, 0) == index_of(text@, pattern@, at as int),
            index_of(text@, pattern@, 0) is Some <==> contains(text@, pattern@),
        decreases last - at,
    {
        if matches_at(text, pattern, at) {
            return Some(at);
        }
        if at == last {
            assert(index_of(text@, pattern@, at + 1) is None);
            return None;
        }
        at += 1;
    }
}

/// Splitting loses nothing and cuts at every separator: there is at least one piece, no
/// piece holds the separator, and the pieces joined by it are the text again.
pub proof fn lemma_join_inverts_split(text: Seq<char>, separator: char)
    ensures
        split_on(text, separator).len() >= 1,
        forall|i: int|
            0 <= i < split_on(text, separator).len() ==> !(#[trigger] split_on(
                text,
                separator,
            )[i]).contains(separator),
        join(split_on(text, separator), seq![separator]) == text,
    decreases text.len(),
{
    let pieces = split_on(text, separator);
    if text.len() == 0 {
        assert(join(pieces, seq![separator]) =~= text);
    } else {
        lemma_join_inverts_split(text.drop_last(), separator);
        let before = split_on(text.drop_last(), separator);
        if text.last() == separator {
            assert(pieces.drop_last() =~= before);
            assert(join(pieces, seq![separator]) =~= text);
        } else {
            let grown = before.last().push(text.last());
            assert forall|k: int| 0 <= k < grown.len() implies grown[k] != separator by {
                if k < before.last().len() {
                    assert(before.last().contains(before.last()[k]));
                }
            }
            if before.len() == 1 {
                assert(join(pieces, seq![separator]) =~= text);
            } else {
                assert(pieces.drop_last() =~= before.drop_last());
                assert(join(pieces, seq![separator]) =~= join(before, seq![separator]).push(
                    text.last(),
                ));
                assert(join(pieces, seq![separator]) =~= text);
            }
        }
    }
}

/// Whether `c` is white space.
pub(crate) fn is_whitespace(c: char) -> (blank: bool)
    ensures
        blank == is_blank(c),
{
    let code: u32 = c as u32;
    (0x09 <= code && code <= 0x0D) || code == 0x20 || code == 0x85 || code == 0xA0 || code
        == 0x1680 || (0x2000 <= code && code <= 0x200A) || code == 0x2028 || code == 0x2029
        || code == 0x202F || code == 0x205F || code == 0x3000
}

/// The bounds of `chars` without the white space at its two ends.
pub(crate) fn trim(chars: &Vec<char>) -> (bounds: (usize, usize))
    ensures
        bounds.0 <= bounds.1 <= chars.len(),
        chars@.subrange(bounds.0 as int, bounds.1 as int) == trimmed(chars@),
{
    let mut from: usize = 0;
    assert(chars@.subrange(0, chars.len() as int) =~= chars@);
    while from < chars.len() && is_whitespace(chars[from])
        invariant
            from <= chars.len(),
            trim_start(chars@) == trim_start(chars@.subrange(from as int, chars.len() as int)),
        decreases chars.len() - from,
    {
        assert(chars@.subrange(from as int, chars.len() as int).drop_first() =~= chars@.subrange(
            from + 1,
            chars.len() as int,
        ));
        from += 1;
    }
    assert(trim_start(chars@) == chars@.subrange(from as int, chars.len() as int));
    let mut to: usize = chars.len();
    while to > from && is_whitespace(chars[to - 1])
        invariant
            from <= to <= chars.len(),
            trimmed(chars@) == trim_end(chars@.subrange(from as int, to as int)),
        decreases to - from,
    {
        assert(chars@.subrange(from as int, to as int).drop_last() =~= chars@.subrange(
            from as int,
            to - 1,
        ));
        to -= 1;
    }
    (from, to)
}

/// The pieces of `chars[from..to]` between its occurrences of `separator`.
pub(crate) fn split(chars: &Vec<char>, from: usize, to: usize, separator: char) -> (pieces: Vec<String>)
    requires
        from <= to <= chars.len(),
    ensures
        views(pieces@) == split_on(chars@.subrange(from as int, to as int), separator),
{
    let mut pieces: Vec<String> = Vec::new();
    let mut piece = String::new();
    let mut i: usize = from;
    while i < to
        invariant
            from <= i <= to <= chars.len(),
            views(pieces@).push(piece@) == split_on(
                chars@.subrange(from as int, i as int),
                separator,
            ),
        decreases to - i,
    {
        let ghost before = views(pieces@).push(piece@);
        let ghost now = chars@.subrange(from as int, i + 1);
        assert(now.drop_last() =~= chars@.subrange(from as int, i as int));
        assert(now.last() == chars[i as int]);
        if chars[i] == separator {
            pieces.push(piece);
            piece = String::new();
            assert(views(pieces@).push(piece@) =~= before.push(Seq::empty()));
        } else {
            push_char(&mut piece, chars[i]);
            assert(views(pieces@).push(piece@) =~= before.drop_last().push(
                before.last().push(chars[i as int]),
            ));
        }
        i += 1;
    }
    let ghost all = views(pieces@).push(piece@);
    pieces.push(piece);
    assert(views(pieces@) =~= all);
    pieces
}

} // verus!
