//! What makes a text an identifier.
//!
//! An identifier starts with `_` or a character of the class `XID_Start`
//! and goes on with characters of the class `XID_Continue`; after `r#` it is
//! a raw identifier. Which characters are in the two classes is looked up,
//! one character at a time; what is made of the answers is decided here.
use crate::path::reads;
use vstd::prelude::*;

verus! {

/// Whether `ch` has the Unicode property `XID_Start`.
pub uninterp spec fn xid_start(ch: char) -> bool;

/// Whether `ch` has the Unicode property `XID_Continue`.
pub uninterp spec fn xid_continue(ch: char) -> bool;

/// Calls `unicode_ident::is_xid_start` on `ch`.
///
/// The function looks the character up in tables that are part of its
/// crate and does nothing else, so that its answer depends on the
/// character alone; the contract says only that.
#[verifier::external_body]
pub(crate) fn is_xid_start(ch: char) -> (start: bool)
    ensures
        start == xid_start(ch),
{
    unicode_ident::is_xid_start(ch)
}

/// Calls `unicode_ident::is_xid_continue` on `ch`.
///
/// The function looks the character up in tables that are part of its
/// crate and does nothing else, so that its answer depends on the
/// character alone; the contract says only that.
#[verifier::external_body]
pub(crate) fn is_xid_continue(ch: char) -> (goes_on: bool)
    ensures
        goes_on == xid_continue(ch),
{
    unicode_ident::is_xid_continue(ch)
}

/// For each character of `text`, whether it is in `XID_Start` and whether
/// it is in `XID_Continue`.
pub open spec fn classes_of(text: Seq<char>) -> Seq<(bool, bool)> {
    Seq::new(text.len(), |i: int| (xid_start(text[i]), xid_continue(text[i])))
}

/// Whether a text whose characters have the classes `classes` is an
/// identifier without `r#`: it is not empty, it starts with `_` or a
/// character that may start one, and goes on with characters that may go
/// on in one.
pub open spec fn plain_by(text: Seq<char>, classes: Seq<(bool, bool)>) -> bool {
    &&& text.len() > 0
    &&& classes.len() == text.len()
    &&& text[0] == '_' || classes[0].0
    &&& forall|i: int| 1 <= i < text.len() ==> (#[trigger] classes[i]).1
}

/// Whether `text` is an identifier without `r#`, keywords among them.
pub open spec fn is_plain(text: Seq<char>) -> bool {
    plain_by(text, classes_of(text))
}

/// Whether `text` is a word that the language keeps for itself, in one
/// edition or another, or `_`.
pub open spec fn is_keyword(text: Seq<char>) -> bool {
    ||| text == "_"@
    ||| text == "abstract"@
    ||| text == "as"@
    ||| text == "async"@
    ||| text == "await"@
    ||| text == "become"@
    ||| text == "box"@
    ||| text == "break"@
    ||| text == "const"@
    ||| text == "continue"@
    ||| text == "crate"@
    ||| text == "do"@
    ||| text == "dyn"@
    ||| text == "else"@
    ||| text == "enum"@
    ||| text == "extern"@
    ||| text == "false"@
    ||| text == "final"@
    ||| text == "fn"@
    ||| text == "for"@
    ||| text == "if"@
    ||| text == "impl"@
    ||| text == "in"@
    ||| text == "let"@
    ||| text == "loop"@
    ||| text == "macro"@
    ||| text == "match"@
    ||| text == "mod"@
    ||| text == "move"@
    ||| text == "mut"@
    ||| text == "override"@
    ||| text == "priv"@
    ||| text == "pub"@
    ||| text == "ref"@
    ||| text == "return"@
    ||| text == "Self"@
    ||| text == "self"@
    ||| text == "static"@
    ||| text == "struct"@
    ||| text == "super"@
    ||| text == "trait"@
    ||| text == "true"@
    ||| text == "try"@
    ||| text == "type"@
    ||| text == "typeof"@
    ||| text == "unsafe"@
    ||| text == "unsized"@
    ||| text == "use"@
    ||| text == "virtual"@
    ||| text == "where"@
    ||| text == "while"@
    ||| text == "yield"@
}

/// Whether `text` is one of the words that stand for a place in the tree of
/// modules or for the own type, and cannot be written raw.
pub open spec fn is_anchor(text: Seq<char>) -> bool {
    ||| text == "super"@
    ||| text == "self"@
    ||| text == "Self"@
    ||| text == "crate"@
}

/// Whether `text` is a raw identifier: `r#` and an identifier that is
/// neither `_` nor a word that cannot be written raw.
pub open spec fn is_raw(text: Seq<char>) -> bool {
    &&& text.len() >= 2
    &&& text[0] == 'r'
    &&& text[1] == '#'
    &&& is_plain(text.skip(2))
    &&& text.skip(2) != "_"@
    &&& !is_anchor(text.skip(2))
}

/// Whether `text` is an identifier that can name something new: an
/// identifier that is no keyword, or a raw identifier.
pub open spec fn is_identifier(text: Seq<char>) -> bool {
    (is_plain(text) && !is_keyword(text)) || is_raw(text)
}

/// Whether `text` is a name as a definition can hold one: an identifier,
/// raw or not, or a word that is a keyword in one edition and an
/// identifier in another.
pub open spec fn is_name(text: Seq<char>) -> bool {
    is_plain(text) || is_raw(text)
}

/// Whether `text` can be a segment of a path: an identifier that is no
/// keyword, raw or not, or one of `super`, `self`, `Self` and `crate`.
pub open spec fn is_segment(text: Seq<char>) -> bool {
    !is_keyword(text) || is_anchor(text)
}

/// Whether a text whose characters have the classes `classes` is an
/// identifier without `r#`.
pub fn plain(text: &str, classes: &Vec<(bool, bool)>) -> (ok: bool)
    ensures
        ok == plain_by(text@, classes@),
{
    let n = text.unicode_len();
    if n == 0 || classes.len() != n {
        return false;
    }
    if text.get_char(0) != '_' && !classes[0].0 {
        return false;
    }
    let mut i: usize = 1;
    while i < n
        invariant
            1 <= i <= n,
            n == classes.len(),
            forall|k: int| 1 <= k < i ==> (#[trigger] classes@[k]).1,
        decreases n - i,
    {
        if !classes[i].1 {
            return false;
        }
        i = i + 1;
    }
    true
}

fn classes(text: &str) -> (found: Vec<(bool, bool)>)
    ensures
        found@ == classes_of(text@),
{
    let n = text.unicode_len();
    let mut found: Vec<(bool, bool)> = Vec::new();
    let mut i: usize = 0;
    while i < n
        invariant
            i <= n,
            n == text@.len(),
            found.len() == i,
            forall|k: int| 0 <= k < i ==> found@[k] == classes_of(text@)[k],
        decreases n - i,
    {
        let ch = text.get_char(i);
        found.push((is_xid_start(ch), is_xid_continue(ch)));
        i = i + 1;
    }
    assert(found@ =~= classes_of(text@));
    found
}

/// Whether `text` is a word that the language keeps for itself, or `_`.
pub fn keyword(text: &str) -> (ok: bool)
    ensures
        ok == is_keyword(text@),
{
    let text = String::from_str(text);
    reads(&text, "_") || reads(&text, "abstract") || reads(&text, "as") || reads(&text, "async")
        || reads(&text, "await") || reads(&text, "become") || reads(&text, "box") || reads(
        &text,
        "break",
    ) || reads(&text, "const") || reads(&text, "continue") || reads(&text, "crate") || reads(
        &text,
        "do",
    ) || reads(&text, "dyn") || reads(&text, "else") || reads(&text, "enum") || reads(
        &text,
        "extern",
    ) || reads(&text, "false") || reads(&text, "final") || reads(&text, "fn") || reads(
        &text,
        "for",
    ) || reads(&text, "if") || reads(&text, "impl") || reads(&text, "in") || reads(&text, "let")
        || reads(&text, "loop") || reads(&text, "macro") || reads(&text, "match") || reads(
        &text,
        "mod",
    ) || reads(&text, "move") || reads(&text, "mut") || reads(&text, "override") || reads(
        &text,
        "priv",
    ) || reads(&text, "pub") || reads(&text, "ref") || reads(&text, "return") || reads(
        &text,
        "Self",
    ) || reads(&text, "self") || reads(&text, "static") || reads(&text, "struct") || reads(
        &text,
        "super",
    ) || reads(&text, "trait") || reads(&text, "true") || reads(&text, "try") || reads(
        &text,
        "type",
    ) || reads(&text, "typeof") || reads(&text, "unsafe") || reads(&text, "unsized") || reads(
        &text,
        "use",
    ) || reads(&text, "virtual") || reads(&text, "where") || reads(&text, "while") || reads(
        &text,
        "yield",
    )
}

/// Whether `text` is one of `super`, `self`, `Self` and `crate`.
pub fn anchor(text: &str) -> (ok: bool)
    ensures
        ok == is_anchor(text@),
{
    let text = String::from_str(text);
    reads(&text, "super") || reads(&text, "self") || reads(&text, "Self") || reads(&text, "crate")
}

/// Whether `text` can be a segment of a path.
pub fn names_segment(text: &str) -> (ok: bool)
    ensures
        ok == is_segment(text@),
{
    !keyword(text) || anchor(text)
}

fn names_plain(text: &str) -> (ok: bool)
    ensures
        ok == is_plain(text@),
{
    let found = classes(text);
    plain(text, &found)
}

fn names_raw(text: &str) -> (ok: bool)
    ensures
        ok == is_raw(text@),
{
    let n = text.unicode_len();
    if n < 2 || text.get_char(0) != 'r' || text.get_char(1) != '#' {
        return false;
    }
    let rest = text.substring_char(2, n);
    assert(rest@ =~= text@.skip(2));
    let underscore = String::from_str(rest);
    names_plain(rest) && !reads(&underscore, "_") && !anchor(rest)
}

/// Whether `text` is an identifier that can name something new.
pub fn names_identifier(text: &str) -> (ok: bool)
    ensures
        ok == is_identifier(text@),
{
    (names_plain(text) && !keyword(text)) || names_raw(text)
}

/// Whether `text` is a name as a definition can hold one.
pub fn reads_as_name(text: &str) -> (ok: bool)
    ensures
        ok == is_name(text@),
{
    names_plain(text) || names_raw(text)
}

} // verus!
