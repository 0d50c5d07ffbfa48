//! Labels: one line of text that names a package together with the manager that offers
//! it, `"{manager} -> {package}"`, and the way back from such a line to the pair.

use crate::text::{
    contains, ends_with, find, index_of, lemma_index_of, lemma_index_of_first, occurs_at, substring,
    to_chars,
};
use vstd::prelude::*;

verus! {

/// The text `" -> "` that stands between manager and package in a label.
pub open spec fn separator() -> Seq<char> {
    seq![' ', '-', '>', ' ']
}

/// The label of `package` as offered by `manager`.
pub open spec fn label(manager: Seq<char>, package: Seq<char>) -> Seq<char> {
    manager + separator() + package
}

/// The pair that a label names: what stands before its first separator, and everything
/// after it. `None` where the text holds no separator.
pub open spec fn split_label(text: Seq<char>) -> Option<(Seq<char>, Seq<char>)> {
    match index_of(text, separator(), 0) {
        Some(at) => Some(
            (text.subrange(0, at), text.subrange(at + separator().len(), text.len() as int)),
        ),
        None => None,
    }
}

/// A manager name after which the separator can be found again: it holds no separator,
/// and it does not end in `" ->"`, which together with the separator's first space
/// would read as a separator three characters too early.
pub open spec fn is_label_safe(manager: Seq<char>) -> bool {
    &&& !contains(manager, separator())
    &&& !ends_with(manager, seq![' ', '-', '>'])
}

/// No separator begins inside a label-safe manager name, even one that would run on
/// into the separator that follows the name.
proof fn lemma_no_separator_inside_manager(manager: Seq<char>, package: Seq<char>, at: int)
    requires
        is_label_safe(manager),
        0 <= at < manager.len(),
    ensures
        !occurs_at(label(manager, package), separator(), at),
{
    let text = label(manager, package);
    let sep = separator();
    let n = manager.len() as int;
    if occurs_at(text, sep, at) {
        let found = text.subrange(at, at + 4);
        assert(found[0] == ' ' && found[1] == '-' && found[2] == '>' && found[3] == ' ');
        if at + 4 <= n {
            assert(manager.subrange(at, at + 4) =~= sep);
            assert(occurs_at(manager, sep, at));
        } else if at + 3 == n {
            assert(manager.subrange(n - 3, n) =~= seq![' ', '-', '>']);
            assert(occurs_at(manager, seq![' ', '-', '>'], n - 3));
        } else if at + 2 == n {
            assert(text[at + 2] == ' ');
        } else {
            assert(text[at + 1] == ' ');
        }
    }
}

/// The first separator of a label stands right behind a label-safe manager name.
pub proof fn lemma_separator_follows_manager(manager: Seq<char>, package: Seq<char>)
    requires
        is_label_safe(manager),
    ensures
        index_of(label(manager, package), separator(), 0) == Some(manager.len() as int),
{
    let text = label(manager, package);
    let n = manager.len() as int;
    assert(occurs_at(text, separator(), n)) by {
        assert(text.subrange(n, n + 4) =~= separator());
    }
    assert forall|at: int| 0 <= at < n implies !occurs_at(text, separator(), at) by {
        lemma_no_separator_inside_manager(manager, package, at);
    }
    lemma_index_of(text, separator(), 0);
}

/// A label gives back the pair it was made of: for every label-safe manager name and
/// every package, splitting the label of the two yields exactly the two.
pub proof fn lemma_split_inverts_label(manager: Seq<char>, package: Seq<char>)
    requires
        is_label_safe(manager),
    ensures
        split_label(label(manager, package)) == Some((manager, package)),
{
    lemma_separator_follows_manager(manager, package);
    let text = label(manager, package);
    let n = manager.len() as int;
    assert(text.subrange(0, n) =~= manager);
    assert(text.subrange(n + 4, text.len() as int) =~= package);
}

/// Splitting loses nothing: the label of the pair that a text splits into is the text.
pub proof fn lemma_label_inverts_split(text: Seq<char>)
    requires
        split_label(text) is Some,
    ensures
        split_label(text) matches Some(pair) && label(pair.0, pair.1) == text,
{
    lemma_index_of(text, separator(), 0);
    let at = index_of(text, separator(), 0)->0;
    assert(text.subrange(0, at) + text.subrange(at, at + 4) + text.subrange(
        at + 4,
        text.len() as int,
    ) =~= text);
}

/// A text splits into a pair exactly when it holds the separator.
pub proof fn lemma_split_iff_separator(text: Seq<char>)
    ensures
        split_label(text) is Some <==> contains(text, separator()),
{
    lemma_index_of_first(text, separator());
}

/// The separator as characters.
fn separator_chars() -> (chars: Vec<char>)
    ensures
        chars@ == separator(),
{
    let mut chars: Vec<char> = Vec::new();
    chars.push(' ');
    chars.push('-');
    chars.push('>');
    chars.push(' ');
    assert(chars@ =~= separator());
    chars
}

/// The pair that `result_item` names, or `None` where it holds no separator.
pub fn parse_search_result(result_item: &str) -> (pair: Option<(String, String)>)
    ensures
        match pair {
            Some(found) => split_label(result_item@) == Some((found.0@, found.1@)),
            None => split_label(result_item@) is None,
        },
{
    let chars = to_chars(result_item);
    let sep = separator_chars();
    match find(&chars, &sep) {
        Some(at) => {
            proof {
                lemma_index_of(chars@, sep@, 0);
            }
            let manager = substring(&chars, 0, at);
            let package = substring(&chars, at + 4, chars.len());
            Some((manager, package))
        },
        None => None,
    }
}

/// The pair that the label `result_item` names: the manager before its first
/// separator, and the package after it.
pub fn break_pair_from_search_result(result_item: &str) -> (pair: (String, String))
    requires
        contains(result_item@, separator()),
    ensures
        split_label(result_item@) == Some((pair.0@, pair.1@)),
{
    proof {
        lemma_split_iff_separator(result_item@);
    }
    match parse_search_result(result_item) {
        Some(pair) => pair,
        None => (String::new(), String::new()),
    }
}

} // verus!
