//! Visibility classes: how accessible a member is declared to be, and which
//! classes a filter lets through.
use crate::error::Reason;
use crate::path::{path_of, reads, single, Path, PathView};
use crate::token::{duplicate_range, group_view, word, Delimiter, Token, TokenView};
use vstd::prelude::*;

verus! {

/// The declared accessibility of a member, or one entry of a visibility
/// filter.
///
/// Two restricted classes are the same when their scope paths are written the
/// same; nothing is resolved, and no scope contains another.
#[derive(Debug, PartialEq, Eq)]
pub enum Vis {
    /// No visibility keyword on a member; `priv` in a filter.
    Private,
    /// `pub`
    Public,
    /// `pub(crate)`, `pub(super)`, `pub(self)` or `pub(in some::path)`, by
    /// the path between the parentheses.
    Restricted(Path),
}

/// The mathematical value of a [`Vis`].
pub enum VisView {
    Private,
    Public,
    Restricted(PathView),
}

impl View for Vis {
    type V = VisView;

    open spec fn view(&self) -> VisView {
        match self {
            Vis::Private => VisView::Private,
            Vis::Public => VisView::Public,
            Vis::Restricted(path) => VisView::Restricted(path@),
        }
    }
}

impl DeepView for Vis {
    type V = VisView;

    open spec fn deep_view(&self) -> VisView {
        self@
    }
}

impl Clone for Vis {
    fn clone(&self) -> (copy: Vis)
        ensures
            copy@ == self@,
    {
        self.duplicate()
    }
}

/// The scope that the tokens between the parentheses of `pub(...)` name:
/// `crate`, `self` or `super` alone, or `in` and a path.
pub open spec fn scope_of(inner: Seq<TokenView>) -> Option<PathView> {
    if inner == seq![word("crate"@)] {
        Some(single("crate"@))
    } else if inner == seq![word("self"@)] {
        Some(single("self"@))
    } else if inner == seq![word("super"@)] {
        Some(single("super"@))
    } else if inner.len() >= 1 && inner[0] == word("in"@) {
        path_of(inner.skip(1))
    } else {
        None
    }
}

/// The visibility class that the tokens of one filter entry spell, if they
/// spell one: `priv`, `pub`, or `pub` and a parenthesized scope.
pub open spec fn vis_of(entry: Seq<TokenView>) -> Option<VisView> {
    if entry == seq![word("priv"@)] {
        Some(VisView::Private)
    } else if entry == seq![word("pub"@)] {
        Some(VisView::Public)
    } else if entry.len() == 2 && entry[0] == word("pub"@) && entry[1] is Group
        && entry[1]->Group_0 == Delimiter::Parenthesis {
        match scope_of(entry[1]->Group_1) {
            Some(path) => Some(VisView::Restricted(path)),
            None => None,
        }
    } else {
        None
    }
}

/// Tokens that do not start with `priv` or `pub` spell no visibility
/// class.
pub proof fn unknown_visibility_is_refused(entry: Seq<TokenView>)
    requires
        entry.len() > 0 ==> entry[0] != word("priv"@) && entry[0] != word("pub"@),
    ensures
        vis_of(entry) is None,
{
}

/// Whether `token` is the identifier or keyword `expected`.
pub fn is_word(token: &Token, expected: &str) -> (same: bool)
    ensures
        same == (token@ == word(expected@)),
{
    match token {
        Token::Ident(text) => reads(text, expected),
        _ => false,
    }
}

fn single_path(name: &str) -> (path: Path)
    ensures
        path@ == single(name@),
{
    let mut segments: Vec<String> = Vec::new();
    segments.push(String::from_str(name));
    assert(segments.deep_view() =~= seq![name@]);
    Path { leading_colon: false, segments }
}

fn parse_scope(inner: &Vec<Token>) -> (scope: Option<Path>)
    ensures
        scope.deep_view() == scope_of(inner.deep_view()),
{
    let ghost all = inner.deep_view();
    if inner.len() == 0 {
        return None;
    }
    if inner.len() == 1 {
        assert(forall|token: TokenView| all == seq![token] <==> all[0] == token) by {
            assert(all =~= seq![all[0]]);
        }
        if is_word(&inner[0], "crate") {
            return Some(single_path("crate"));
        }
        if is_word(&inner[0], "self") {
            return Some(single_path("self"));
        }
        if is_word(&inner[0], "super") {
            return Some(single_path("super"));
        }
    }
    if is_word(&inner[0], "in") {
        let rest = duplicate_range(inner, 1, inner.len());
        return Path::parse(&rest);
    }
    None
}

impl Vis {
    /// Whether the two classes are the same.
    pub fn same(&self, other: &Vis) -> (same: bool)
        ensures
            same == (self@ == other@),
    {
        match (self, other) {
            (Vis::Private, Vis::Private) => true,
            (Vis::Public, Vis::Public) => true,
            (Vis::Restricted(mine), Vis::Restricted(theirs)) => mine.same(theirs),
            _ => false,
        }
    }

    /// A copy of this class.
    pub fn duplicate(&self) -> (copy: Vis)
        ensures
            copy@ == self@,
    {
        match self {
            Vis::Private => Vis::Private,
            Vis::Public => Vis::Public,
            Vis::Restricted(path) => Vis::Restricted(path.duplicate()),
        }
    }

    /// Reads one entry of a visibility filter from its tokens.
    ///
    /// `priv` gives `Private`, `pub` alone gives `Public`, and `pub` with a
    /// parenthesized scope gives `Restricted` with the path of that scope.
    /// Anything else is refused as an unknown visibility.
    pub fn parse_value(entry: &Vec<Token>) -> (parsed: Result<Vis, Reason>)
        ensures
            match vis_of(entry.deep_view()) {
                Some(vis) => parsed is Ok && parsed->Ok_0@ == vis,
                None => parsed == Err::<Vis, Reason>(Reason::UnknownVisibility),
            },
    {
        let ghost all = entry.deep_view();
        if entry.len() == 0 || entry.len() > 2 {
            return Err(Reason::UnknownVisibility);
        }
        if entry.len() == 1 {
            assert(forall|token: TokenView| all == seq![token] <==> all[0] == token) by {
                assert(all =~= seq![all[0]]);
            }
            if is_word(&entry[0], "priv") {
                return Ok(Vis::Private);
            }
            if is_word(&entry[0], "pub") {
                return Ok(Vis::Public);
            }
            return Err(Reason::UnknownVisibility);
        }
        if !is_word(&entry[0], "pub") {
            return Err(Reason::UnknownVisibility);
        }
        match &entry[1] {
            Token::Group(Delimiter::Parenthesis, inner) => {
                proof {
                    group_view(Delimiter::Parenthesis, *inner);
                }
                match parse_scope(inner) {
                    Some(path) => Ok(Vis::Restricted(path)),
                    None => Err(Reason::UnknownVisibility),
                }
            },
            _ => Err(Reason::UnknownVisibility),
        }
    }
}

} // verus!
