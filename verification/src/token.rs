//! Token trees: the syntax that the generator reads and writes.
//!
//! A record definition reaches the generator as plain data, and the code it
//! produces leaves it as plain data too. Both are made of [`Token`]s, which
//! mirror the token trees of the compiler's macro interface one for one, so
//! that a macro shell can convert in either direction without deciding
//! anything.
use vstd::prelude::*;

verus! {

/// The brackets around a group of tokens.
#[derive(Clone, Copy, Debug, PartialEq, Eq, Structural)]
pub enum Delimiter {
    /// `( ... )`
    Parenthesis,
    /// `{ ... }`
    Brace,
    /// `[ ... ]`
    Bracket,
    /// No visible brackets: a group that only keeps its tokens together.
    Invisible,
}

/// One token tree.
#[derive(Debug, PartialEq, Eq)]
pub enum Token {
    /// An identifier or keyword, by its text (a raw identifier keeps its `r#`).
    Ident(String),
    /// One punctuation character; the flag says whether the next token
    /// follows it without a space, as the first `:` of `::` does.
    Punct(char, bool),
    /// A string literal, by the value it denotes.
    Str(String),
    /// Any other literal, by its source text.
    Literal(String),
    /// A delimited sequence of token trees.
    Group(Delimiter, Vec<Token>),
}

/// The mathematical value of a [`Token`].
pub enum TokenView {
    Ident(Seq<char>),
    Punct(char, bool),
    Str(Seq<char>),
    Literal(Seq<char>),
    Group(Delimiter, Seq<TokenView>),
}

/// The value of `token`: its own contents, and for a group the values of the
/// tokens inside it.
pub open spec fn value_of(token: Token) -> TokenView
    decreases token,
{
    match token {
        Token::Ident(text) => TokenView::Ident(text@),
        Token::Punct(ch, joint) => TokenView::Punct(ch, joint),
        Token::Str(value) => TokenView::Str(value@),
        Token::Literal(text) => TokenView::Literal(text@),
        Token::Group(delimiter, inner) => TokenView::Group(
            delimiter,
            Seq::new(
                inner.len() as nat,
                |i: int|
                    if 0 <= i < inner.len() {
                        value_of(inner[i])
                    } else {
                        TokenView::Punct(' ', false)
                    },
            ),
        ),
    }
}

impl View for Token {
    type V = TokenView;

    open spec fn view(&self) -> TokenView {
        value_of(*self)
    }
}

impl DeepView for Token {
    type V = TokenView;

    open spec fn deep_view(&self) -> TokenView {
        self@
    }
}

/// The identifier or keyword `text`.
pub open spec fn word(text: Seq<char>) -> TokenView {
    TokenView::Ident(text)
}

/// The punctuation `ch`, followed by a space.
pub open spec fn punct(ch: char) -> TokenView {
    TokenView::Punct(ch, false)
}

/// The punctuation `ch`, joined to the punctuation after it.
pub open spec fn joint(ch: char) -> TokenView {
    TokenView::Punct(ch, true)
}

/// The group `( inner )`.
pub open spec fn parens(inner: Seq<TokenView>) -> TokenView {
    TokenView::Group(Delimiter::Parenthesis, inner)
}

/// The group `{ inner }`.
pub open spec fn braces(inner: Seq<TokenView>) -> TokenView {
    TokenView::Group(Delimiter::Brace, inner)
}

/// The group `[ inner ]`.
pub open spec fn brackets(inner: Seq<TokenView>) -> TokenView {
    TokenView::Group(Delimiter::Bracket, inner)
}

/// The path separator `::`.
pub open spec fn path_sep() -> Seq<TokenView> {
    seq![joint(':'), punct(':')]
}

/// The items of `items` in order, with `separator` between each two.
pub open spec fn separated(items: Seq<Seq<TokenView>>, separator: TokenView) -> Seq<TokenView>
    decreases items.len(),
{
    if items.len() == 0 {
        Seq::empty()
    } else if items.len() == 1 {
        items[0]
    } else {
        separated(items.drop_last(), separator).push(separator) + items.last()
    }
}

/// The items of `items` in order, one after the other.
pub open spec fn concatenated(items: Seq<Seq<TokenView>>) -> Seq<TokenView>
    decreases items.len(),
{
    if items.len() == 0 {
        Seq::empty()
    } else {
        concatenated(items.drop_last()) + items.last()
    }
}

/// The view of a group is the group of its tokens' views.
pub proof fn group_view(delimiter: Delimiter, inner: Vec<Token>)
    ensures
        Token::Group(delimiter, inner)@ == TokenView::Group(delimiter, inner.deep_view()),
{
    let token = Token::Group(delimiter, inner);
    assert(token@->Group_1 =~= inner.deep_view());
}

impl Token {
    /// A copy of this token tree.
    pub fn duplicate(&self) -> (copy: Token)
        ensures
            copy@ == self@,
        decreases self,
    {
        match self {
            Token::Ident(text) => Token::Ident(text.clone()),
            Token::Punct(ch, joint) => Token::Punct(*ch, *joint),
            Token::Str(value) => Token::Str(value.clone()),
            Token::Literal(text) => Token::Literal(text.clone()),
            Token::Group(delimiter, inner) => {
                let mut copies: Vec<Token> = Vec::new();
                let mut i: usize = 0;
                while i < inner.len()
                    invariant
                        self is Group,
                        self->Group_1 == *inner,
                        i <= inner.len(),
                        copies.len() == i,
                        forall|k: int| 0 <= k < i ==> copies[k]@ == inner[k]@,
                    decreases inner.len() - i,
                {
                    copies.push(inner[i].duplicate());
                    i = i + 1;
                }
                proof {
                    assert(copies.deep_view() =~= inner.deep_view());
                    group_view(*delimiter, copies);
                    group_view(*delimiter, *inner);
                }
                Token::Group(*delimiter, copies)
            },
        }
    }
}

impl Clone for Token {
    fn clone(&self) -> (copy: Token)
        ensures
            copy@ == self@,
    {
        self.duplicate()
    }
}

/// A copy of `tokens`.
pub fn duplicate_all(tokens: &Vec<Token>) -> (copy: Vec<Token>)
    ensures
        copy.deep_view() == tokens.deep_view(),
{
    let mut copy: Vec<Token> = Vec::new();
    let mut i: usize = 0;
    while i < tokens.len()
        invariant
            i <= tokens.len(),
            copy.len() == i,
            forall|k: int| 0 <= k < i ==> copy[k]@ == tokens[k]@,
        decreases tokens.len() - i,
    {
        copy.push(tokens[i].duplicate());
        i = i + 1;
    }
    copy
}

/// A copy of the tokens of `tokens` from index `from` up to, not including,
/// index `to`.
pub(crate) fn duplicate_range(tokens: &Vec<Token>, from: usize, to: usize) -> (copy: Vec<Token>)
    requires
        from <= to <= tokens.len(),
    ensures
        copy.deep_view() == tokens.deep_view().subrange(from as int, to as int),
{
    let mut copy: Vec<Token> = Vec::new();
    let mut i: usize = from;
    while i < to
        invariant
            from <= i <= to <= tokens.len(),
            copy.len() == i - from,
            forall|k: int| 0 <= k < i - from ==> copy[k]@ == tokens[from + k]@,
        decreases to - i,
    {
        copy.push(tokens[i].duplicate());
        i = i + 1;
    }
    copy
}

/// Adds `token` at the end of `out`.
pub fn push(out: &mut Vec<Token>, token: Token)
    ensures
        final(out).deep_view() == old(out).deep_view().push(token@),
{
    out.push(token);
}

/// Adds the identifier or keyword `text` at the end of `out`.
pub fn push_word(out: &mut Vec<Token>, text: &str)
    ensures
        final(out).deep_view() == old(out).deep_view().push(word(text@)),
{
    push(out, Token::Ident(String::from_str(text)));
}

/// Adds the punctuation `ch`, followed by a space, at the end of `out`.
pub fn push_punct(out: &mut Vec<Token>, ch: char)
    ensures
        final(out).deep_view() == old(out).deep_view().push(punct(ch)),
{
    push(out, Token::Punct(ch, false));
}

/// Adds `::` at the end of `out`.
pub fn push_path_sep(out: &mut Vec<Token>)
    ensures
        final(out).deep_view() == old(out).deep_view() + path_sep(),
{
    push(out, Token::Punct(':', true));
    push(out, Token::Punct(':', false));
}

/// Adds the tokens `inner`, delimited by `delimiter`, as one group at the end
/// of `out`.
pub fn push_group(out: &mut Vec<Token>, delimiter: Delimiter, inner: Vec<Token>)
    ensures
        final(out).deep_view() == old(out).deep_view().push(
            TokenView::Group(delimiter, inner.deep_view()),
        ),
{
    proof {
        group_view(delimiter, inner);
    }
    push(out, Token::Group(delimiter, inner));
}

/// Adds a copy of each token of `tokens` at the end of `out`.
pub fn push_all(out: &mut Vec<Token>, tokens: &Vec<Token>)
    ensures
        final(out).deep_view() == old(out).deep_view() + tokens.deep_view(),
{
    let mut i: usize = 0;
    while i < tokens.len()
        invariant
            i <= tokens.len(),
            out.deep_view() == old(out).deep_view() + tokens.deep_view().take(i as int),
        decreases tokens.len() - i,
    {
        push(out, tokens[i].duplicate());
        i = i + 1;
    }
}

/// Adds `item` to the comma-separated list `list`, which holds `items` so
/// far and is told by `first` whether those are none.
pub(crate) fn push_item(
    list: &mut Vec<Token>,
    first: bool,
    item: &Vec<Token>,
    Ghost(items): Ghost<Seq<Seq<TokenView>>>,
)
    requires
        old(list).deep_view() == separated(items, punct(',')),
        first == (items.len() == 0),
    ensures
        final(list).deep_view() == separated(items.push(item.deep_view()), punct(',')),
{
    if !first {
        push_punct(list, ',');
    }
    push_all(list, item);
    proof {
        let all = items.push(item.deep_view());
        assert(all.drop_last() =~= items);
    }
}

/// Adds `item` to the run of items `list`, which holds `items` so far.
pub(crate) fn push_next(
    list: &mut Vec<Token>,
    item: &Vec<Token>,
    Ghost(items): Ghost<Seq<Seq<TokenView>>>,
)
    requires
        old(list).deep_view() == concatenated(items),
    ensures
        final(list).deep_view() == concatenated(items.push(item.deep_view())),
{
    push_all(list, item);
    proof {
        let all = items.push(item.deep_view());
        assert(all.drop_last() =~= items);
    }
}

} // verus!
