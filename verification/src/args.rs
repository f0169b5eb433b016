//! The options that annotations give: on a record, the name and the
//! capabilities of the generated type and the visibility filter; on a
//! member, whether it is flattened.
//!
//! Options are read from the attributes named `fields`, written as
//! `fields(...)` or as `fields` alone. The tokens of such an attribute are
//! options separated by commas; a comma after the last one is allowed. On a
//! record an option is one of
//!
//! - `name = "<identifier>"`, the text being an identifier and nothing
//!   else,
//! - `derive(<path>, ...)`,
//! - `visibility(<entry>, ...)`, each entry one of `priv`, `pub` and
//!   `pub(<scope-path>)`;
//!
//! on a member the one option is `flatten`. Lists given several times add
//! up, in the order in which they are written; any other option may be
//! given once.
use crate::definition::{Attribute, AttributeView, Form, Member};
use crate::identifier::{is_identifier, names_identifier};
use crate::error::{Error, Key, Location, Reason};
use crate::path::{path_of, path_tokens, single, Path, PathView};
use crate::token::{
    brackets, duplicate_range, group_view, parens, punct, push, push_group, push_punct,
    push_word, separated, word, Delimiter, Token, TokenView,
};
use crate::vis::{is_word, vis_of, Vis, VisView};
use vstd::prelude::*;

verus! {

/// The options of a record.
#[derive(Debug, PartialEq, Eq)]
pub struct Args {
    /// The name of the generated type, where the default is not wanted.
    pub name: Option<String>,
    /// The capabilities to derive for the generated type.
    pub derive: Vec<Path>,
    /// The visibility classes whose members get a variant; empty to give
    /// every member one.
    pub visibility: Vec<Vis>,
}

/// The mathematical value of [`Args`].
pub struct ArgsView {
    pub name: Option<Seq<char>>,
    pub derive: Seq<PathView>,
    pub visibility: Seq<VisView>,
}

impl View for Args {
    type V = ArgsView;

    open spec fn view(&self) -> ArgsView {
        ArgsView {
            name: self.name.deep_view(),
            derive: self.derive.deep_view(),
            visibility: self.visibility.deep_view(),
        }
    }
}

/// The options of a member.
#[derive(Clone, Copy, Debug, PartialEq, Eq)]
pub struct FieldArgs {
    /// Whether setting the member is left to the member's own record type.
    pub flatten: bool,
}

/// Whether `token` is a comma.
pub open spec fn is_comma(token: TokenView) -> bool {
    token is Punct && token->Punct_0 == ','
}

/// Whether `token` is an equals sign.
pub open spec fn is_equals(token: TokenView) -> bool {
    token is Punct && token->Punct_0 == '='
}

/// The index of the first comma of `tokens` at or after index `from`, or
/// the length of `tokens` where none follows.
pub open spec fn next_comma(tokens: Seq<TokenView>, from: int) -> int
    decreases tokens.len() - from,
{
    if from < 0 || from >= tokens.len() {
        tokens.len() as int
    } else if is_comma(tokens[from]) {
        from
    } else {
        next_comma(tokens, from + 1)
    }
}

/// The next comma is not before the place the search starts from.
pub proof fn next_comma_bounds(tokens: Seq<TokenView>, from: int)
    requires
        0 <= from <= tokens.len(),
    ensures
        from <= next_comma(tokens, from) <= tokens.len(),
    decreases tokens.len() - from,
{
    if from < tokens.len() && !is_comma(tokens[from]) {
        next_comma_bounds(tokens, from + 1);
    }
}

/// The paths that the entries of `inner` from index `from` on spell, after
/// those in `found`; or the index at which the first entry starts that is
/// no path.
pub open spec fn paths_from(inner: Seq<TokenView>, from: int, found: Seq<PathView>) -> Result<
    Seq<PathView>,
    int,
>
    decreases inner.len() + 1 - from,
{
    if from < 0 || from >= inner.len() {
        Ok(found)
    } else {
        let end = next_comma(inner, from);
        proof {
            next_comma_bounds(inner, from);
        }
        match path_of(inner.subrange(from, end)) {
            Some(path) => paths_from(inner, end + 1, found.push(path)),
            None => Err(from),
        }
    }
}

/// The visibility classes that the entries of `inner` from index `from` on
/// spell, after those in `found`; or the index at which the first entry
/// starts that is no visibility class.
pub open spec fn classes_from(inner: Seq<TokenView>, from: int, found: Seq<VisView>) -> Result<
    Seq<VisView>,
    int,
>
    decreases inner.len() + 1 - from,
{
    if from < 0 || from >= inner.len() {
        Ok(found)
    } else {
        let end = next_comma(inner, from);
        proof {
            next_comma_bounds(inner, from);
        }
        match vis_of(inner.subrange(from, end)) {
            Some(vis) => classes_from(inner, end + 1, found.push(vis)),
            None => Err(from),
        }
    }
}

/// The tokens that spell each of `paths`.
pub open spec fn spelled(paths: Seq<PathView>) -> Seq<Seq<TokenView>> {
    Seq::new(paths.len(), |i: int| path_tokens(paths[i]))
}

/// What is wrong with one option: the reason, and for an entry of a list
/// the index in the list at which the entry starts.
pub type Fault = (Reason, Option<int>);

/// The place of a fault in an annotation's tokens.
pub open spec fn entry_at(entry: Option<int>) -> Option<usize> {
    match entry {
        Some(at) => Some(at as usize),
        None => None,
    }
}

/// The place of the annotation at index `attribute` as a whole, on the
/// record or on the member at position `member`.
pub open spec fn start_of(member: Option<usize>, attribute: int) -> Location {
    Location { member, attribute: attribute as usize, option: 0, entry: None }
}

/// Whether `token` is the parenthesized group that holds a list.
pub open spec fn is_list(token: TokenView) -> bool {
    token is Group && token->Group_0 == Delimiter::Parenthesis
}

impl ArgsView {
    /// No option given.
    pub open spec fn empty() -> ArgsView {
        ArgsView { name: None, derive: Seq::empty(), visibility: Seq::empty() }
    }

    /// Whether a member of visibility `vis` gets a variant: the filter is
    /// empty or lists `vis`.
    pub open spec fn retains(self, vis: VisView) -> bool {
        self.visibility.len() == 0 || self.visibility.contains(vis)
    }

    /// The name of the generated type for the record `parent`: the name
    /// given, or `parent` followed by `Field`.
    pub open spec fn name(self, parent: Seq<char>) -> Seq<char> {
        match self.name {
            Some(name) => name,
            None => parent + "Field"@,
        }
    }

    /// These options with `value` for the name of the generated type,
    /// where `value` was found to be an identifier, or not: a text that is
    /// none is a malformed value, and a second name is one too many.
    pub open spec fn with_name(self, value: Seq<char>, identifier: bool) -> Result<
        ArgsView,
        Fault,
    > {
        if !identifier {
            Err((Reason::MalformedValue(Key::Name), None))
        } else if self.name is Some {
            Err((Reason::DuplicateOption(Key::Name), None))
        } else {
            Ok(ArgsView { name: Some(value), ..self })
        }
    }

    /// These options with the one that the tokens `option` spell.
    pub open spec fn with_option(self, option: Seq<TokenView>) -> Result<ArgsView, Fault> {
        if option.len() >= 1 && option[0] == word("name"@) {
            if option.len() == 3 && is_equals(option[1]) && option[2] is Str {
                self.with_name(option[2]->Str_0, is_identifier(option[2]->Str_0))
            } else {
                Err((Reason::MalformedValue(Key::Name), None))
            }
        } else if option.len() >= 1 && option[0] == word("derive"@) {
            if option.len() == 2 && is_list(option[1]) {
                match paths_from(option[1]->Group_1, 0, self.derive) {
                    Ok(derive) => Ok(ArgsView { derive, ..self }),
                    Err(at) => Err((Reason::MalformedPath, Some(at))),
                }
            } else {
                Err((Reason::MalformedValue(Key::Derive), None))
            }
        } else if option.len() >= 1 && option[0] == word("visibility"@) {
            if option.len() == 2 && is_list(option[1]) {
                match classes_from(option[1]->Group_1, 0, self.visibility) {
                    Ok(visibility) => Ok(ArgsView { visibility, ..self }),
                    Err(at) => Err((Reason::UnknownVisibility, Some(at))),
                }
            } else {
                Err((Reason::MalformedValue(Key::Visibility), None))
            }
        } else {
            Err((Reason::UnknownOption, None))
        }
    }

    /// These options with those that `tokens` spell from index `from` on;
    /// or the first fault, with the index at which the faulty option starts.
    pub open spec fn with_options(self, tokens: Seq<TokenView>, from: int) -> Result<
        ArgsView,
        (Reason, int, Option<int>),
    >
        decreases tokens.len() + 1 - from,
    {
        if from < 0 || from >= tokens.len() {
            Ok(self)
        } else {
            let end = next_comma(tokens, from);
            proof {
                next_comma_bounds(tokens, from);
            }
            match self.with_option(tokens.subrange(from, end)) {
                Ok(next) => next.with_options(tokens, end + 1),
                Err((reason, entry)) => Err((reason, from, entry)),
            }
        }
    }

    /// These options with those of the attributes named `fields` among
    /// `attrs` from index `from` on; or the first fault.
    pub open spec fn with_attributes(self, attrs: Seq<AttributeView>, from: int) -> Result<
        ArgsView,
        Error,
    >
        decreases attrs.len() - from,
    {
        if from < 0 || from >= attrs.len() {
            Ok(self)
        } else if attrs[from].path != single("fields"@) {
            self.with_attributes(attrs, from + 1)
        } else {
            match attrs[from].options() {
                None => Err(Error::Configuration(Reason::NotAList, start_of(None, from))),
                Some(tokens) => match self.with_options(tokens, 0) {
                    Ok(next) => next.with_attributes(attrs, from + 1),
                    Err((reason, option, entry)) => Err(
                        Error::Configuration(
                            reason,
                            Location {
                                member: None,
                                attribute: from as usize,
                                option: option as usize,
                                entry: entry_at(entry),
                            },
                        ),
                    ),
                },
            }
        }
    }

    /// The options that the attributes `attrs` of a record give.
    pub open spec fn decoded(attrs: Seq<AttributeView>) -> Result<ArgsView, Error> {
        ArgsView::empty().with_attributes(attrs, 0)
    }

    /// The attributes of the generated type for the record `parent`: a
    /// documentation line that names the record, and the list of
    /// capabilities to derive.
    pub open spec fn attributes(self, parent: Seq<char>) -> Seq<TokenView> {
        seq![
            punct('#'),
            brackets(
                seq![
                    word("doc"@),
                    punct('='),
                    TokenView::Str("A field of [`"@ + parent + "`]."@),
                ],
            ),
            punct('#'),
            brackets(
                seq![
                    word("derive"@),
                    parens(separated(spelled(self.derive), punct(','))),
                ],
            ),
        ]
    }
}

proof fn options_keep_the_name_an_identifier(args: ArgsView, tokens: Seq<TokenView>, from: int)
    requires
        0 <= from,
        args.name is Some ==> is_identifier(args.name->0),
        args.with_options(tokens, from) is Ok,
    ensures
        args.with_options(tokens, from)->Ok_0.name is Some ==> is_identifier(
            args.with_options(tokens, from)->Ok_0.name->0,
        ),
    decreases tokens.len() + 1 - from,
{
    if from < tokens.len() {
        let end = next_comma(tokens, from);
        next_comma_bounds(tokens, from);
        let next = args.with_option(tokens.subrange(from, end))->Ok_0;
        options_keep_the_name_an_identifier(next, tokens, end + 1);
    }
}

proof fn attributes_keep_the_name_an_identifier(
    args: ArgsView,
    attrs: Seq<AttributeView>,
    from: int,
)
    requires
        0 <= from,
        args.name is Some ==> is_identifier(args.name->0),
        args.with_attributes(attrs, from) is Ok,
    ensures
        args.with_attributes(attrs, from)->Ok_0.name is Some ==> is_identifier(
            args.with_attributes(attrs, from)->Ok_0.name->0,
        ),
    decreases attrs.len() - from,
{
    if from < attrs.len() {
        if attrs[from].path != single("fields"@) {
            attributes_keep_the_name_an_identifier(args, attrs, from + 1);
        } else {
            let tokens = attrs[from].options()->0;
            options_keep_the_name_an_identifier(args, tokens, 0);
            attributes_keep_the_name_an_identifier(
                args.with_options(tokens, 0)->Ok_0,
                attrs,
                from + 1,
            );
        }
    }
}

/// A name that the options of a record give is an identifier: a text that
/// is none is refused when the options are read, so that the name of the
/// generated type can always be written.
pub proof fn given_name_is_an_identifier(attrs: Seq<AttributeView>)
    requires
        ArgsView::decoded(attrs) is Ok,
    ensures
        ArgsView::decoded(attrs)->Ok_0.name is Some ==> is_identifier(
            ArgsView::decoded(attrs)->Ok_0.name->0,
        ),
{
    attributes_keep_the_name_an_identifier(ArgsView::empty(), attrs, 0);
}

/// A restricted class in the filter keeps the members that are declared
/// with the very same scope path, and no member of another scope,
/// however the two scopes lie to each other.
pub proof fn restricted_keeps_its_own_scope_only(
    args: ArgsView,
    listed: PathView,
    declared: PathView,
)
    requires
        args.visibility == seq![VisView::Restricted(listed)],
    ensures
        args.retains(VisView::Restricted(declared)) <==> listed == declared,
        !args.retains(VisView::Public),
        !args.retains(VisView::Private),
{
    if listed == declared {
        assert(args.visibility[0] == VisView::Restricted(declared));
    }
}

/// Whether `result` is what `expected` describes: the same fault, or
/// options of that value.
pub open spec fn decoded_as(
    result: Result<Args, Error>,
    expected: Result<ArgsView, Error>,
) -> bool {
    match expected {
        Ok(args) => result is Ok && result->Ok_0@ == args,
        Err(error) => result == Err::<Args, Error>(error),
    }
}

fn is_punct(token: &Token, ch: char) -> (same: bool)
    ensures
        same == (token@ is Punct && token@->Punct_0 == ch),
{
    match token {
        Token::Punct(found, _) => *found == ch,
        _ => false,
    }
}

fn find_comma(tokens: &Vec<Token>, from: usize) -> (end: usize)
    requires
        from <= tokens.len(),
    ensures
        end == next_comma(tokens.deep_view(), from as int),
        from <= end <= tokens.len(),
{
    let mut end: usize = from;
    while end < tokens.len() && !is_punct(&tokens[end], ',')
        invariant
            from <= end <= tokens.len(),
            next_comma(tokens.deep_view(), from as int) == next_comma(
                tokens.deep_view(),
                end as int,
            ),
        decreases tokens.len() - end,
    {
        end = end + 1;
    }
    end
}

fn parse_paths(inner: &Vec<Token>, found: Vec<Path>) -> (parsed: Result<Vec<Path>, usize>)
    ensures
        match paths_from(inner.deep_view(), 0, found.deep_view()) {
            Ok(paths) => parsed is Ok && parsed->Ok_0.deep_view() == paths,
            Err(at) => parsed == Err::<Vec<Path>, usize>(at as usize),
        },
{
    let ghost all = inner.deep_view();
    let ghost start = found.deep_view();
    let mut paths = found;
    let mut from: usize = 0;
    while from < inner.len()
        invariant
            all == inner.deep_view(),
            start == found.deep_view(),
            paths_from(all, 0, start) == paths_from(all, from as int, paths.deep_view()),
        decreases inner.len() - from,
    {
        let end = find_comma(inner, from);
        let entry = duplicate_range(inner, from, end);
        match Path::parse(&entry) {
            Some(path) => {
                let ghost before = paths.deep_view();
                paths.push(path);
                assert(paths.deep_view() =~= before.push(path@));
            },
            None => {
                return Err(from);
            },
        }
        if end == inner.len() {
            assert(paths_from(all, end + 1, paths.deep_view()) == Ok::<Seq<PathView>, int>(
                paths.deep_view(),
            ));
            return Ok(paths);
        }
        from = end + 1;
    }
    Ok(paths)
}

fn parse_classes(inner: &Vec<Token>, found: Vec<Vis>) -> (parsed: Result<Vec<Vis>, usize>)
    ensures
        match classes_from(inner.deep_view(), 0, found.deep_view()) {
            Ok(classes) => parsed is Ok && parsed->Ok_0.deep_view() == classes,
            Err(at) => parsed == Err::<Vec<Vis>, usize>(at as usize),
        },
{
    let ghost all = inner.deep_view();
    let ghost start = found.deep_view();
    let mut classes = found;
    let mut from: usize = 0;
    while from < inner.len()
        invariant
            all == inner.deep_view(),
            start == found.deep_view(),
            classes_from(all, 0, start) == classes_from(all, from as int, classes.deep_view()),
        decreases inner.len() - from,
    {
        let end = find_comma(inner, from);
        let entry = duplicate_range(inner, from, end);
        match Vis::parse_value(&entry) {
            Ok(vis) => {
                let ghost before = classes.deep_view();
                classes.push(vis);
                assert(classes.deep_view() =~= before.push(vis@));
            },
            Err(_) => {
                return Err(from);
            },
        }
        if end == inner.len() {
            assert(classes_from(all, end + 1, classes.deep_view()) == Ok::<Seq<VisView>, int>(
                classes.deep_view(),
            ));
            return Ok(classes);
        }
        from = end + 1;
    }
    Ok(classes)
}

impl Args {
    /// No option given.
    pub fn new() -> (args: Args)
        ensures
            args@ == ArgsView::empty(),
    {
        let args = Args { name: None, derive: Vec::new(), visibility: Vec::new() };
        assert(args@.derive =~= Seq::empty());
        assert(args@.visibility =~= Seq::empty());
        args
    }

    /// Takes `value` for the name of the generated type.
    ///
    /// `identifier` says whether `value` was found to be an identifier. A
    /// text that is none is refused as a malformed value; one that is an
    /// identifier is refused where a name is given already, and taken
    /// otherwise, all else staying as it is.
    pub fn with_name(self, value: &String, identifier: bool) -> (next: Result<
        Args,
        (Reason, Option<usize>),
    >)
        ensures
            match self@.with_name(value@, identifier) {
                Ok(args) => next is Ok && next->Ok_0@ == args,
                Err((reason, entry)) => next == Err::<Args, (Reason, Option<usize>)>(
                    (reason, entry_at(entry)),
                ),
            },
    {
        if !identifier {
            return Err((Reason::MalformedValue(Key::Name), None));
        }
        if self.name.is_some() {
            return Err((Reason::DuplicateOption(Key::Name), None));
        }
        Ok(Args { name: Some(value.clone()), derive: self.derive, visibility: self.visibility })
    }

    fn with_option(self, option: &Vec<Token>) -> (next: Result<Args, (Reason, Option<usize>)>)
        ensures
            match self@.with_option(option.deep_view()) {
                Ok(args) => next is Ok && next->Ok_0@ == args,
                Err((reason, entry)) => next == Err::<Args, (Reason, Option<usize>)>(
                    (reason, entry_at(entry)),
                ),
            },
    {
        if option.len() == 0 {
            return Err((Reason::UnknownOption, None));
        }
        if is_word(&option[0], "name") {
            if option.len() == 3 && is_punct(&option[1], '=') {
                if let Token::Str(value) = &option[2] {
                    let identifier = names_identifier(value.as_str());
                    return self.with_name(value, identifier);
                }
            }
            return Err((Reason::MalformedValue(Key::Name), None));
        }
        if is_word(&option[0], "derive") {
            if option.len() == 2 {
                if let Token::Group(Delimiter::Parenthesis, inner) = &option[1] {
                    proof {
                        group_view(Delimiter::Parenthesis, *inner);
                    }
                    return match parse_paths(inner, self.derive) {
                        Ok(derive) => Ok(
                            Args { name: self.name, derive, visibility: self.visibility },
                        ),
                        Err(at) => Err((Reason::MalformedPath, Some(at))),
                    };
                }
            }
            return Err((Reason::MalformedValue(Key::Derive), None));
        }
        if is_word(&option[0], "visibility") {
            if option.len() == 2 {
                if let Token::Group(Delimiter::Parenthesis, inner) = &option[1] {
                    proof {
                        group_view(Delimiter::Parenthesis, *inner);
                    }
                    return match parse_classes(inner, self.visibility) {
                        Ok(visibility) => Ok(
                            Args { name: self.name, derive: self.derive, visibility },
                        ),
                        Err(at) => Err((Reason::UnknownVisibility, Some(at))),
                    };
                }
            }
            return Err((Reason::MalformedValue(Key::Visibility), None));
        }
        Err((Reason::UnknownOption, None))
    }

    fn with_options(self, tokens: &Vec<Token>) -> (next: Result<
        Args,
        (Reason, usize, Option<usize>),
    >)
        ensures
            match self@.with_options(tokens.deep_view(), 0) {
                Ok(args) => next is Ok && next->Ok_0@ == args,
                Err((reason, option, entry)) => next == Err::<
                    Args,
                    (Reason, usize, Option<usize>),
                >((reason, option as usize, entry_at(entry))),
            },
    {
        let ghost all = tokens.deep_view();
        let ghost start = self@;
        let mut args = self;
        let mut from: usize = 0;
        while from < tokens.len()
            invariant
                all == tokens.deep_view(),
                start == self@,
                start.with_options(all, 0) == args@.with_options(all, from as int),
            decreases tokens.len() - from,
        {
            let end = find_comma(tokens, from);
            let option = duplicate_range(tokens, from, end);
            match args.with_option(&option) {
                Ok(next) => {
                    args = next;
                },
                Err((reason, entry)) => {
                    return Err((reason, from, entry));
                },
            }
            if end == tokens.len() {
                assert(args@.with_options(all, end + 1) == Ok::<
                    ArgsView,
                    (Reason, int, Option<int>),
                >(args@));
                return Ok(args);
            }
            from = end + 1;
        }
        Ok(args)
    }

    /// Reads the options of a record from its attributes.
    ///
    /// Attributes with another name than `fields` are passed over. The
    /// others are read in order, and their options from left to right: a
    /// given name is kept, lists of capabilities and of visibility classes
    /// are added to what was found before. Reading stops at the first
    /// option that has an unknown key or a malformed value, or that gives a
    /// name a second time, and says where it stands.
    pub fn from_attributes(attrs: &Vec<Attribute>) -> (decoded: Result<Args, Error>)
        ensures
            decoded_as(decoded, ArgsView::decoded(attrs.deep_view())),
    {
        let ghost all = attrs.deep_view();
        let mut args = Args::new();
        let mut i: usize = 0;
        while i < attrs.len()
            invariant
                all == attrs.deep_view(),
                i <= attrs.len(),
                ArgsView::decoded(all) == args@.with_attributes(all, i as int),
            decreases attrs.len() - i,
        {
            if attrs[i].path.is_ident("fields") {
                match attrs[i].form {
                    Form::Assigned => {
                        return Err(
                            Error::Configuration(
                                Reason::NotAList,
                                Location { member: None, attribute: i, option: 0, entry: None },
                            ),
                        );
                    },
                    Form::Word => {},
                    Form::List => {
                        match args.with_options(&attrs[i].tokens) {
                            Ok(next) => {
                                args = next;
                            },
                            Err((reason, option, entry)) => {
                                return Err(
                                    Error::Configuration(
                                        reason,
                                        Location { member: None, attribute: i, option, entry },
                                    ),
                                );
                            },
                        }
                    },
                }
            }
            i = i + 1;
        }
        Ok(args)
    }

    /// The name of the generated type for the record `parent`.
    ///
    /// This is the name that the options give, or else `parent` followed by
    /// `Field`.
    pub fn name(&self, parent: &str) -> (name: String)
        ensures
            name@ == self@.name(parent@),
    {
        match &self.name {
            Some(name) => name.clone(),
            None => {
                let mut name = String::from_str(parent);
                name.append("Field");
                name
            },
        }
    }

    /// Whether `field` gets a variant.
    ///
    /// With an empty filter every member does. Otherwise a member does when
    /// the filter lists its visibility class, a restricted class counting
    /// as listed only under the very path that the member is declared with.
    /// Nothing but the member's visibility and the filter is looked at.
    pub fn filter(&self, field: &Member) -> (kept: bool)
        ensures
            kept == self@.retains(field@.vis),
    {
        if self.visibility.len() == 0 {
            return true;
        }
        let mut i: usize = 0;
        while i < self.visibility.len()
            invariant
                i <= self.visibility.len(),
                forall|k: int| 0 <= k < i ==> self@.visibility[k] != field@.vis,
            decreases self.visibility.len() - i,
        {
            if self.visibility[i].same(&field.vis) {
                assert(self@.visibility[i as int] == field@.vis);
                return true;
            }
            i = i + 1;
        }
        false
    }

    /// The attributes of the generated type for the record `parent`: a
    /// documentation line that names the record, and the capabilities to
    /// derive.
    pub fn attributes(&self, parent: &str) -> (tokens: Vec<Token>)
        ensures
            tokens.deep_view() == self@.attributes(parent@),
    {
        let mut text = String::from_str("A field of [`");
        text.append(parent);
        text.append("`].");
        let mut doc: Vec<Token> = Vec::new();
        push_word(&mut doc, "doc");
        push_punct(&mut doc, '=');
        push(&mut doc, Token::Str(text));
        assert(doc.deep_view() =~= seq![
            word("doc"@),
            punct('='),
            TokenView::Str("A field of [`"@ + parent@ + "`]."@),
        ]);

        let ghost paths = spelled(self@.derive);
        let mut list: Vec<Token> = Vec::new();
        let mut i: usize = 0;
        while i < self.derive.len()
            invariant
                i <= self.derive.len(),
                paths == spelled(self@.derive),
                list.deep_view() == separated(paths.take(i as int), punct(',')),
            decreases self.derive.len() - i,
        {
            assert(paths.take(i + 1).drop_last() =~= paths.take(i as int));
            if i > 0 {
                push_punct(&mut list, ',');
            }
            self.derive[i].write(&mut list);
            i = i + 1;
        }
        assert(paths.take(self.derive.len() as int) =~= paths);
        let mut derive: Vec<Token> = Vec::new();
        push_word(&mut derive, "derive");
        push_group(&mut derive, Delimiter::Parenthesis, list);
        assert(derive.deep_view() =~= seq![
            word("derive"@),
            parens(separated(spelled(self@.derive), punct(','))),
        ]);

        let mut tokens: Vec<Token> = Vec::new();
        push_punct(&mut tokens, '#');
        push_group(&mut tokens, Delimiter::Bracket, doc);
        push_punct(&mut tokens, '#');
        push_group(&mut tokens, Delimiter::Bracket, derive);
        tokens
    }
}

/// The options of a member after the one that the tokens `option` spell.
pub open spec fn with_member_option(flatten: bool, option: Seq<TokenView>) -> Result<bool, Fault> {
    if option.len() >= 1 && option[0] == word("flatten"@) {
        if option.len() == 1 {
            if flatten {
                Err((Reason::DuplicateOption(Key::Flatten), None))
            } else {
                Ok(true)
            }
        } else {
            Err((Reason::MalformedValue(Key::Flatten), None))
        }
    } else {
        Err((Reason::UnknownOption, None))
    }
}

/// The options of a member after those that `tokens` spell from index
/// `from` on; or the first fault, with the index at which the faulty option
/// starts.
pub open spec fn with_member_options(flatten: bool, tokens: Seq<TokenView>, from: int) -> Result<
    bool,
    (Reason, int),
>
    decreases tokens.len() + 1 - from,
{
    if from < 0 || from >= tokens.len() {
        Ok(flatten)
    } else {
        let end = next_comma(tokens, from);
        proof {
            next_comma_bounds(tokens, from);
        }
        match with_member_option(flatten, tokens.subrange(from, end)) {
            Ok(next) => with_member_options(next, tokens, end + 1),
            Err((reason, _)) => Err((reason, from)),
        }
    }
}

/// The options of the member at position `member` after those of the
/// attributes named `fields` among `attrs` from index `from` on; or the
/// first fault.
pub open spec fn with_member_attributes(
    flatten: bool,
    attrs: Seq<AttributeView>,
    from: int,
    member: usize,
) -> Result<bool, Error>
    decreases attrs.len() - from,
{
    if from < 0 || from >= attrs.len() {
        Ok(flatten)
    } else if attrs[from].path != single("fields"@) {
        with_member_attributes(flatten, attrs, from + 1, member)
    } else {
        match attrs[from].options() {
            None => Err(Error::Configuration(Reason::NotAList, start_of(Some(member), from))),
            Some(tokens) => match with_member_options(flatten, tokens, 0) {
                Ok(next) => with_member_attributes(next, attrs, from + 1, member),
                Err((reason, option)) => Err(
                    Error::Configuration(
                        reason,
                        Location {
                            member: Some(member),
                            attribute: from as usize,
                            option: option as usize,
                            entry: None,
                        },
                    ),
                ),
            },
        }
    }
}

/// Whether the attributes `attrs` of the member at position `member` mark
/// it to be flattened; or what is wrong with them.
pub open spec fn member_decoded(attrs: Seq<AttributeView>, member: usize) -> Result<bool, Error> {
    with_member_attributes(false, attrs, 0, member)
}

fn member_option(flatten: bool, option: &Vec<Token>) -> (next: Result<bool, Reason>)
    ensures
        match with_member_option(flatten, option.deep_view()) {
            Ok(found) => next == Ok::<bool, Reason>(found),
            Err((reason, _)) => next == Err::<bool, Reason>(reason),
        },
{
    if option.len() == 0 {
        return Err(Reason::UnknownOption);
    }
    if !is_word(&option[0], "flatten") {
        return Err(Reason::UnknownOption);
    }
    if option.len() != 1 {
        return Err(Reason::MalformedValue(Key::Flatten));
    }
    if flatten {
        return Err(Reason::DuplicateOption(Key::Flatten));
    }
    Ok(true)
}

fn member_options(flatten: bool, tokens: &Vec<Token>) -> (next: Result<bool, (Reason, usize)>)
    ensures
        match with_member_options(flatten, tokens.deep_view(), 0) {
            Ok(found) => next == Ok::<bool, (Reason, usize)>(found),
            Err((reason, option)) => next == Err::<bool, (Reason, usize)>(
                (reason, option as usize),
            ),
        },
{
    let ghost all = tokens.deep_view();
    let mut found = flatten;
    let mut from: usize = 0;
    while from < tokens.len()
        invariant
            all == tokens.deep_view(),
            with_member_options(flatten, all, 0) == with_member_options(found, all, from as int),
        decreases tokens.len() - from,
    {
        let end = find_comma(tokens, from);
        let option = duplicate_range(tokens, from, end);
        match member_option(found, &option) {
            Ok(next) => {
                found = next;
            },
            Err(reason) => {
                return Err((reason, from));
            },
        }
        if end == tokens.len() {
            assert(with_member_options(found, all, end + 1) == Ok::<bool, (Reason, int)>(found));
            return Ok(found);
        }
        from = end + 1;
    }
    Ok(found)
}

impl FieldArgs {
    /// Reads the options of the member at position `member` from its
    /// attributes.
    ///
    /// Attributes with another name than `fields` are passed over. In the
    /// others `flatten` may stand, once in all; anything else is a fault,
    /// and the first one is returned with its place.
    pub fn from_attributes(attrs: &Vec<Attribute>, member: usize) -> (decoded: Result<
        FieldArgs,
        Error,
    >)
        ensures
            match member_decoded(attrs.deep_view(), member) {
                Ok(flatten) => decoded == Ok::<FieldArgs, Error>(FieldArgs { flatten }),
                Err(error) => decoded == Err::<FieldArgs, Error>(error),
            },
    {
        let ghost all = attrs.deep_view();
        let mut flatten = false;
        let mut i: usize = 0;
        while i < attrs.len()
            invariant
                all == attrs.deep_view(),
                i <= attrs.len(),
                member_decoded(all, member) == with_member_attributes(
                    flatten,
                    all,
                    i as int,
                    member,
                ),
            decreases attrs.len() - i,
        {
            if attrs[i].path.is_ident("fields") {
                match attrs[i].form {
                    Form::Assigned => {
                        return Err(
                            Error::Configuration(
                                Reason::NotAList,
                                Location {
                                    member: Some(member),
                                    attribute: i,
                                    option: 0,
                                    entry: None,
                                },
                            ),
                        );
                    },
                    Form::Word => {},
                    Form::List => {
                        match member_options(flatten, &attrs[i].tokens) {
                            Ok(next) => {
                                flatten = next;
                            },
                            Err((reason, option)) => {
                                return Err(
                                    Error::Configuration(
                                        reason,
                                        Location {
                                            member: Some(member),
                                            attribute: i,
                                            option,
                                            entry: None,
                                        },
                                    ),
                                );
                            },
                        }
                    },
                }
            }
            i = i + 1;
        }
        Ok(FieldArgs { flatten })
    }
}

} // verus!
