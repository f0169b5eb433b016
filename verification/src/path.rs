//! Simple paths: identifiers separated by `::`, as they name a module, a
//! derivable capability or an annotation.
use crate::token::{joint, path_sep, push, push_path_sep, word, Token, TokenView};
use crate::identifier::{is_segment, names_segment};
use vstd::prelude::*;

verus! {

/// A path such as `crate`, `serde::Serialize` or `::core::fmt::Debug`.
///
/// Two paths are the same when they are written the same: no scope is
/// resolved.
#[derive(Debug, PartialEq, Eq)]
pub struct Path {
    /// Whether the path starts with `::`.
    pub leading_colon: bool,
    /// The identifiers between the separators, in order.
    pub segments: Vec<String>,
}

/// The mathematical value of a [`Path`].
pub struct PathView {
    pub leading_colon: bool,
    pub segments: Seq<Seq<char>>,
}

impl View for Path {
    type V = PathView;

    open spec fn view(&self) -> PathView {
        PathView { leading_colon: self.leading_colon, segments: self.segments.deep_view() }
    }
}

impl DeepView for Path {
    type V = PathView;

    open spec fn deep_view(&self) -> PathView {
        self@
    }
}

/// Whether `text` reads `expected`.
pub fn reads(text: &String, expected: &str) -> (same: bool)
    ensures
        same == (text@ == expected@),
{
    let expected = String::from_str(expected);
    *text == expected
}

/// Whether the two tokens are a path separator: a `:` joined to a second `:`.
pub open spec fn is_path_sep(first: TokenView, second: TokenView) -> bool {
    first == joint(':') && second is Punct && second->Punct_0 == ':'
}

/// The path of one identifier.
pub open spec fn single(name: Seq<char>) -> PathView {
    PathView { leading_colon: false, segments: seq![name] }
}

/// The segments that `tokens` spell, if they are one segment or several
/// with a separator between each two; a keyword is a segment only where it
/// is one of `super`, `self`, `Self` and `crate`.
pub open spec fn segments_of(tokens: Seq<TokenView>) -> Option<Seq<Seq<char>>>
    decreases tokens.len(),
{
    if tokens.len() >= 1 && tokens[0] is Ident && is_segment(tokens[0]->Ident_0) {
        if tokens.len() == 1 {
            Some(seq![tokens[0]->Ident_0])
        } else if tokens.len() >= 3 && is_path_sep(tokens[1], tokens[2]) {
            match segments_of(tokens.skip(3)) {
                Some(rest) => Some(seq![tokens[0]->Ident_0] + rest),
                None => None,
            }
        } else {
            None
        }
    } else {
        None
    }
}

/// The path that `tokens` spell, if they spell one: an optional leading
/// separator, then at least one segment.
pub open spec fn path_of(tokens: Seq<TokenView>) -> Option<PathView> {
    let leading_colon = tokens.len() >= 2 && is_path_sep(tokens[0], tokens[1]);
    let rest = if leading_colon {
        tokens.skip(2)
    } else {
        tokens
    };
    match segments_of(rest) {
        Some(segments) => Some(PathView { leading_colon, segments }),
        None => None,
    }
}

/// The tokens that spell the segments `segments`.
pub open spec fn segment_tokens(segments: Seq<Seq<char>>) -> Seq<TokenView>
    decreases segments.len(),
{
    if segments.len() == 0 {
        Seq::empty()
    } else if segments.len() == 1 {
        seq![word(segments[0])]
    } else {
        segment_tokens(segments.drop_last()) + path_sep() + seq![word(segments.last())]
    }
}

/// The tokens that spell `path`.
pub open spec fn path_tokens(path: PathView) -> Seq<TokenView> {
    if path.leading_colon {
        path_sep() + segment_tokens(path.segments)
    } else {
        segment_tokens(path.segments)
    }
}

proof fn segment_tokens_from_the_front(segments: Seq<Seq<char>>)
    requires
        segments.len() >= 2,
    ensures
        segment_tokens(segments) == seq![word(segments[0])] + path_sep() + segment_tokens(
            segments.skip(1),
        ),
    decreases segments.len(),
{
    let rest = segments.skip(1);
    assert(rest.drop_last() =~= segments.drop_last().skip(1));
    if segments.len() == 2 {
        assert(segment_tokens(segments.drop_last()) =~= seq![word(segments[0])]);
    } else {
        segment_tokens_from_the_front(segments.drop_last());
    }
}

proof fn written_segments_are_read_back(segments: Seq<Seq<char>>)
    requires
        segments.len() >= 1,
        forall|i: int| 0 <= i < segments.len() ==> is_segment(#[trigger] segments[i]),
    ensures
        segments_of(segment_tokens(segments)) == Some(segments),
        segment_tokens(segments).len() >= 1,
        segment_tokens(segments)[0] == word(segments[0]),
    decreases segments.len(),
{
    if segments.len() > 1 {
        let rest = segments.skip(1);
        segment_tokens_from_the_front(segments);
        written_segments_are_read_back(rest);
        assert(segment_tokens(segments).skip(3) =~= segment_tokens(rest));
    }
}

/// A path that is written out and read again is the same path: what the
/// tokens of a path spell is that path, as long as there is a segment and
/// each segment can be one.
pub proof fn written_path_is_read_back(path: PathView)
    requires
        path.segments.len() >= 1,
        forall|i: int| 0 <= i < path.segments.len() ==> is_segment(#[trigger] path.segments[i]),
    ensures
        path_of(path_tokens(path)) == Some(path),
{
    written_segments_are_read_back(path.segments);
    if path.leading_colon {
        assert(path_tokens(path).skip(2) =~= segment_tokens(path.segments));
    }
}

/// Puts the segments `found` before those that follow them.
spec fn found_then(found: Seq<Seq<char>>, rest: Option<Seq<Seq<char>>>) -> Option<
    Seq<Seq<char>>,
> {
    match rest {
        Some(rest) => Some(found + rest),
        None => None,
    }
}

impl Clone for Path {
    fn clone(&self) -> (copy: Path)
        ensures
            copy@ == self@,
    {
        self.duplicate()
    }
}

fn is_colon(token: &Token, joined: bool) -> (colon: bool)
    ensures
        colon == (token@ is Punct && token@->Punct_0 == ':' && (joined ==> token@->Punct_1)),
{
    match token {
        Token::Punct(ch, joint) => *ch == ':' && (!joined || *joint),
        _ => false,
    }
}

impl Path {
    /// Whether the two paths are written the same.
    pub fn same(&self, other: &Path) -> (same: bool)
        ensures
            same == (self@ == other@),
    {
        if self.leading_colon != other.leading_colon || self.segments.len()
            != other.segments.len() {
            assert(self@.segments.len() == self.segments.len());
            return false;
        }
        let mut i: usize = 0;
        while i < self.segments.len()
            invariant
                i <= self.segments.len(),
                self.segments.len() == other.segments.len(),
                forall|k: int| 0 <= k < i ==> self.segments[k]@ == other.segments[k]@,
            decreases self.segments.len() - i,
        {
            if self.segments[i] != other.segments[i] {
                assert(self@.segments[i as int] != other@.segments[i as int]);
                return false;
            }
            i = i + 1;
        }
        assert(self@.segments =~= other@.segments);
        true
    }

    /// Whether the path is the one identifier `name`.
    pub fn is_ident(&self, name: &str) -> (same: bool)
        ensures
            same == (self@ == single(name@)),
    {
        if self.leading_colon || self.segments.len() != 1 {
            assert(self@.segments.len() == self.segments.len());
            return false;
        }
        let same = reads(&self.segments[0], name);
        proof {
            if same {
                assert(self@.segments =~= seq![name@]);
            } else {
                assert(self@.segments[0] != single(name@).segments[0]);
            }
        }
        same
    }

    /// A copy of this path.
    pub fn duplicate(&self) -> (copy: Path)
        ensures
            copy@ == self@,
    {
        let mut segments: Vec<String> = Vec::new();
        let mut i: usize = 0;
        while i < self.segments.len()
            invariant
                i <= self.segments.len(),
                segments.len() == i,
                forall|k: int| 0 <= k < i ==> segments[k]@ == self.segments[k]@,
            decreases self.segments.len() - i,
        {
            segments.push(self.segments[i].clone());
            i = i + 1;
        }
        assert(segments.deep_view() =~= self.segments.deep_view());
        Path { leading_colon: self.leading_colon, segments }
    }

    /// Reads a path from the tokens that spell it.
    ///
    /// Gives the path when `tokens` are an optional leading `::` and then one
    /// or more segments with `::` between each two, and nothing when they
    /// are anything else. A segment is an identifier that is no keyword, or
    /// one of `super`, `self`, `Self` and `crate`.
    pub fn parse(tokens: &Vec<Token>) -> (path: Option<Path>)
        ensures
            path.deep_view() == path_of(tokens.deep_view()),
    {
        let ghost all = tokens.deep_view();
        let n = tokens.len();
        let leading_colon = n >= 2 && is_colon(&tokens[0], true) && is_colon(&tokens[1], false);
        assert(leading_colon == (all.len() >= 2 && is_path_sep(all[0], all[1])));
        let start: usize = if leading_colon {
            2
        } else {
            0
        };
        let ghost rest = if leading_colon {
            all.skip(2)
        } else {
            all
        };
        let mut segments: Vec<String> = Vec::new();
        let mut pos: usize = start;
        assert(all.skip(start as int) =~= rest);
        loop
            invariant
                n == tokens.len(),
                all == tokens.deep_view(),
                rest == if leading_colon { all.skip(2) } else { all },
                leading_colon == (all.len() >= 2 && is_path_sep(all[0], all[1])),
                start == if leading_colon { 2usize } else { 0usize },
                start <= pos <= n,
                segments_of(rest) == found_then(
                    segments.deep_view(),
                    segments_of(all.skip(pos as int)),
                ),
            decreases n - pos,
        {
            let ghost here = all.skip(pos as int);
            if pos >= n {
                return None;
            }
            match &tokens[pos] {
                Token::Ident(name) => {
                    if !names_segment(name.as_str()) {
                        return None;
                    }
                    let ghost before = segments.deep_view();
                    segments.push(name.clone());
                    assert(segments.deep_view() =~= before.push(name@));
                    if pos + 1 == n {
                        assert(before + seq![name@] =~= before.push(name@));
                        return Some(Path { leading_colon, segments });
                    }
                    if n - pos < 3 || !is_colon(&tokens[pos + 1], true) || !is_colon(
                        &tokens[pos + 2],
                        false,
                    ) {
                        return None;
                    }
                    assert(here.skip(3) =~= all.skip(pos + 3));
                    pos = pos + 3;
                },
                _ => {
                    return None;
                },
            }
        }
    }

    /// Adds the tokens that spell this path at the end of `out`.
    pub fn write(&self, out: &mut Vec<Token>)
        ensures
            final(out).deep_view() == old(out).deep_view() + path_tokens(self@),
    {
        if self.leading_colon {
            push_path_sep(out);
        }
        let ghost lead = out.deep_view();
        let mut i: usize = 0;
        while i < self.segments.len()
            invariant
                i <= self.segments.len(),
                out.deep_view() == lead + segment_tokens(self@.segments.take(i as int)),
            decreases self.segments.len() - i,
        {
            assert(self@.segments.take(i + 1).drop_last() =~= self@.segments.take(i as int));
            if i > 0 {
                push_path_sep(out);
            }
            push(out, Token::Ident(self.segments[i].clone()));
            i = i + 1;
        }
        assert(self@.segments.take(self.segments.len() as int) =~= self@.segments);
    }
}

} // verus!
