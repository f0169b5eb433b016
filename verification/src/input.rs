//! From a definition to what the generator needs of it: the options, and
//! one descriptor for each member that gets a variant.
use crate::args::{member_decoded, Args, ArgsView, FieldArgs};
use crate::definition::{
    Data, DataView, Definition, DefinitionView, Generics, GenericsView, Member, MemberView,
};
use crate::error::{Error, Unsupported};
use crate::identifier::{is_identifier, is_name, names_identifier, reads_as_name};
use crate::naming::{name_variant, variant_name};
use crate::token::{
    duplicate_all, path_sep, punct, push_all, push_path_sep, push_punct, push_word, word, Token,
    TokenView,
};
use vstd::prelude::*;

verus! {

/// How generated code reaches a member on an instance of the record.
#[derive(Debug, PartialEq, Eq)]
pub enum AccessPath {
    /// By the member's name.
    Named(String),
    /// By the member's position among all members of the record.
    Unnamed(usize),
}

/// The mathematical value of an [`AccessPath`].
pub enum AccessPathView {
    Named(Seq<char>),
    Unnamed(nat),
}

impl View for AccessPath {
    type V = AccessPathView;

    open spec fn view(&self) -> AccessPathView {
        match self {
            AccessPath::Named(name) => AccessPathView::Named(name@),
            AccessPath::Unnamed(index) => AccessPathView::Unnamed(*index as nat),
        }
    }
}

impl Clone for AccessPath {
    fn clone(&self) -> (copy: AccessPath)
        ensures
            copy@ == self@,
    {
        match self {
            AccessPath::Named(name) => AccessPath::Named(name.clone()),
            AccessPath::Unnamed(index) => AccessPath::Unnamed(*index),
        }
    }
}

/// One member that gets a variant.
#[derive(Debug, PartialEq, Eq)]
pub struct Field {
    /// Whether setting the member is left to the member's own record type.
    pub flatten: bool,
    pub member: AccessPath,
    /// The name of the member's variant.
    pub variant: String,
    /// The tokens of the type that the variant carries.
    pub ty: Vec<Token>,
}

/// The mathematical value of a [`Field`].
pub struct FieldView {
    pub flatten: bool,
    pub member: AccessPathView,
    pub variant: Seq<char>,
    pub ty: Seq<TokenView>,
}

impl View for Field {
    type V = FieldView;

    open spec fn view(&self) -> FieldView {
        FieldView {
            flatten: self.flatten,
            member: self.member@,
            variant: self.variant@,
            ty: self.ty.deep_view(),
        }
    }
}

impl DeepView for Field {
    type V = FieldView;

    open spec fn deep_view(&self) -> FieldView {
        self@
    }
}

/// A struct definition, read: its options, what is copied from it, and the
/// members that get a variant, in declaration order.
#[derive(Debug, PartialEq, Eq)]
pub struct Input {
    pub args: Args,
    /// The tokens of the record's visibility.
    pub vis: Vec<Token>,
    /// The record's name.
    pub parent: String,
    pub generics: Generics,
    pub fields: Vec<Field>,
}

/// The mathematical value of an [`Input`].
pub struct InputView {
    pub args: ArgsView,
    pub vis: Seq<TokenView>,
    pub parent: Seq<char>,
    pub generics: GenericsView,
    pub fields: Seq<FieldView>,
}

impl View for Input {
    type V = InputView;

    open spec fn view(&self) -> InputView {
        InputView {
            args: self.args@,
            vis: self.vis.deep_view(),
            parent: self.parent@,
            generics: self.generics@,
            fields: self.fields.deep_view(),
        }
    }
}

/// How generated code reaches the member called `ident`, or without a name,
/// at position `index`.
pub open spec fn access_path(ident: Option<Seq<char>>, index: nat) -> AccessPathView {
    match ident {
        Some(name) => AccessPathView::Named(name),
        None => AccessPathView::Unnamed(index),
    }
}

/// The type of the variants of the record type `ty`:
/// `::fields::Field::<ty>`.
pub open spec fn projected(ty: Seq<TokenView>) -> Seq<TokenView> {
    path_sep() + seq![word("fields"@)] + path_sep() + seq![word("Field"@)] + path_sep() + seq![
        punct('<'),
    ] + ty + seq![punct('>')]
}

/// The descriptor of `member`, which stands at position `index` and is, or
/// is not, to be flattened, with `variant` for the name of its variant.
pub open spec fn described_as(
    member: MemberView,
    index: nat,
    flatten: bool,
    variant: Seq<char>,
) -> FieldView {
    FieldView {
        flatten,
        member: access_path(member.ident, index),
        variant,
        ty: if flatten {
            projected(member.ty)
        } else {
            member.ty
        },
    }
}

/// The descriptor of `member`, which stands at position `index` and is, or
/// is not, to be flattened.
pub open spec fn described(member: MemberView, index: nat, flatten: bool) -> FieldView {
    described_as(member, index, flatten, variant_name(member.ident, index))
}

/// What reading a member at position `index` comes to, once its options
/// are read and the name of its variant is made: its descriptor where its
/// own name is found to be a name and that of its variant an identifier,
/// and else the refusal of the member.
pub open spec fn member_read_as(
    member: MemberView,
    index: usize,
    flatten: bool,
    variant: Seq<char>,
    name_ok: bool,
    variant_ok: bool,
) -> Result<FieldView, Error> {
    if name_ok && variant_ok {
        Ok(described_as(member, index as nat, flatten, variant))
    } else {
        Err(Error::Member(index))
    }
}

/// The descriptor of `member`, which stands at position `index`; or what
/// keeps it from having one: a fault in its annotations, or else a name
/// that is no identifier or gives none for the variant.
pub open spec fn member_described(member: MemberView, index: int) -> Result<FieldView, Error> {
    match member_decoded(member.attrs, index as usize) {
        Err(error) => Err(error),
        Ok(flatten) => member_read_as(
            member,
            index as usize,
            flatten,
            variant_name(member.ident, index as nat),
            member.ident is Some ==> is_name(member.ident->0),
            is_identifier(variant_name(member.ident, index as nat)),
        ),
    }
}

/// The descriptors in `found`, and after them those of the members from
/// position `from` on that the filter of `args` keeps; or the first fault
/// of a member that it keeps.
pub open spec fn fields_from(
    members: Seq<MemberView>,
    args: ArgsView,
    from: int,
    found: Seq<FieldView>,
) -> Result<Seq<FieldView>, Error>
    decreases members.len() - from,
{
    if from < 0 || from >= members.len() {
        Ok(found)
    } else if !args.retains(members[from].vis) {
        fields_from(members, args, from + 1, found)
    } else {
        match member_described(members[from], from) {
            Ok(field) => fields_from(members, args, from + 1, found.push(field)),
            Err(error) => Err(error),
        }
    }
}

/// What reading `definition` gives.
///
/// An enum or a union is refused for its shape, before anything else is
/// looked at. Then the record's options are read and the name of the
/// generated type is made, which must be an identifier, as the record's
/// own name must be a name, and then the members are read in declaration
/// order: one that the visibility filter drops is passed over,
/// annotations and all; one that it keeps has its own options read and gets
/// a descriptor, unless its name is no name or that of its variant is no
/// identifier.
/// The first fault ends the reading.
pub open spec fn parsed(definition: DefinitionView) -> Result<InputView, Error> {
    match definition.data {
        DataView::Enum => Err(Error::Shape(Unsupported::Enum)),
        DataView::Union => Err(Error::Shape(Unsupported::Union)),
        DataView::Struct(members) => match ArgsView::decoded(definition.attrs) {
            Err(error) => Err(error),
            Ok(args) => if !is_name(definition.ident) || !is_identifier(
                args.name(definition.ident),
            ) {
                Err(Error::Name)
            } else {
                match fields_from(members, args, 0, Seq::empty()) {
                    Err(error) => Err(error),
                    Ok(fields) => Ok(
                        InputView {
                            args,
                            vis: definition.vis,
                            parent: definition.ident,
                            generics: definition.generics,
                            fields,
                        },
                    ),
                }
            },
        },
    }
}

/// Whether `result` is what `expected` describes: the same fault, or an
/// input of that value.
pub open spec fn parsed_as(
    result: Result<Input, Error>,
    expected: Result<InputView, Error>,
) -> bool {
    match expected {
        Ok(input) => result is Ok && result->Ok_0@ == input,
        Err(error) => result == Err::<Input, Error>(error),
    }
}

/// The positions, in declaration order, of the members that the filter of
/// `args` keeps.
pub open spec fn retained(members: Seq<MemberView>, args: ArgsView) -> Seq<int>
    decreases members.len(),
{
    if members.len() == 0 {
        Seq::empty()
    } else {
        let before = retained(members.drop_last(), args);
        if args.retains(members.last().vis) {
            before.push(members.len() - 1)
        } else {
            before
        }
    }
}

/// Whether `fields` are the descriptors of the members at `positions`, one
/// for one and in that order.
pub open spec fn describes(
    fields: Seq<FieldView>,
    members: Seq<MemberView>,
    positions: Seq<int>,
) -> bool {
    &&& fields.len() == positions.len()
    &&& forall|j: int|
        0 <= j < positions.len() ==> {
            &&& 0 <= #[trigger] positions[j] < members.len()
            &&& member_described(members[positions[j]], positions[j]) == Ok::<FieldView, Error>(
                fields[j],
            )
        }
}

/// The filter decides on a member by its visibility and the options alone:
/// two members of the same visibility are both kept or both dropped,
/// whatever else they hold and however often one asks.
pub proof fn filter_depends_on_visibility_alone(args: ArgsView, one: MemberView, other: MemberView)
    requires
        one.vis == other.vis,
    ensures
        args.retains(one.vis) == args.retains(other.vis),
{
}

/// A position is among the retained ones exactly when a member stands
/// there whose visibility the filter lists, or the filter is empty: no
/// member is kept or dropped wrongly.
pub proof fn retained_exactly_the_matching(members: Seq<MemberView>, args: ArgsView, index: int)
    ensures
        retained(members, args).contains(index) <==> 0 <= index < members.len() && args.retains(
            members[index].vis,
        ),
    decreases members.len(),
{
    if members.len() > 0 {
        let before = retained(members.drop_last(), args);
        retained_exactly_the_matching(members.drop_last(), args, index);
        let last = members.len() - 1;
        if args.retains(members.last().vis) {
            let all = before.push(last);
            if before.contains(index) {
                let at = choose|at: int| 0 <= at < before.len() && before[at] == index;
                assert(all[at] == index);
            }
            if index == last {
                assert(all[before.len() as int] == index);
            }
        }
    }
}

/// With an empty filter every member is retained.
pub proof fn empty_filter_retains_all(members: Seq<MemberView>, args: ArgsView)
    requires
        args.visibility.len() == 0,
    ensures
        retained(members, args) == Seq::new(members.len(), |i: int| i),
    decreases members.len(),
{
    if members.len() > 0 {
        empty_filter_retains_all(members.drop_last(), args);
    }
}

/// The retained positions stand in declaration order: each is a position
/// of the record, and a later one is larger than an earlier one.
pub proof fn retained_in_declaration_order(members: Seq<MemberView>, args: ArgsView)
    ensures
        retained(members, args).len() <= members.len(),
        forall|j: int|
            0 <= j < retained(members, args).len() ==> 0 <= #[trigger] retained(members, args)[j]
                < members.len(),
        forall|j: int, k: int|
            0 <= j < k < retained(members, args).len() ==> retained(members, args)[j] < retained(
                members,
                args,
            )[k],
    decreases members.len(),
{
    if members.len() > 0 {
        retained_in_declaration_order(members.drop_last(), args);
    }
}

proof fn fields_from_describes(
    members: Seq<MemberView>,
    args: ArgsView,
    from: int,
    found: Seq<FieldView>,
)
    requires
        0 <= from <= members.len(),
        describes(found, members, retained(members.take(from), args)),
        fields_from(members, args, from, found) is Ok,
    ensures
        describes(fields_from(members, args, from, found)->Ok_0, members, retained(members, args)),
    decreases members.len() - from,
{
    if from >= members.len() {
        assert(members.take(from) =~= members);
    } else {
        let before = retained(members.take(from), args);
        assert(members.take(from + 1).drop_last() =~= members.take(from));
        if !args.retains(members[from].vis) {
            fields_from_describes(members, args, from + 1, found);
        } else {
            let next = found.push(member_described(members[from], from)->Ok_0);
            let positions = before.push(from);
            assert forall|j: int| 0 <= j < positions.len() implies {
                &&& 0 <= #[trigger] positions[j] < members.len()
                &&& member_described(members[positions[j]], positions[j]) == Ok::<
                    FieldView,
                    Error,
                >(next[j])
            } by {}
            fields_from_describes(members, args, from + 1, next);
        }
    }
}

/// The descriptors of a definition that is read without fault are those of
/// the retained members, one for one and in declaration order: the member
/// at the j-th retained position gives the j-th descriptor.
pub proof fn fields_are_the_retained_members(definition: DefinitionView)
    requires
        parsed(definition) is Ok,
    ensures
        definition.data is Struct,
        describes(
            parsed(definition)->Ok_0.fields,
            definition.data->Struct_0,
            retained(definition.data->Struct_0, parsed(definition)->Ok_0.args),
        ),
{
    let members = definition.data->Struct_0;
    let args = ArgsView::decoded(definition.attrs)->Ok_0;
    fields_from_describes(members, args, 0, Seq::empty());
}

/// The names that generated code is written with can be written, for
/// every definition that is read without fault: the names made, that of
/// the generated type and those of the variants, are identifiers, and the
/// names taken from the definition, that of the record and those of the
/// members that get a variant, are names. A definition that gives another
/// is refused when it is read.
pub proof fn names_can_be_written(definition: DefinitionView)
    requires
        parsed(definition) is Ok,
    ensures
        is_name(parsed(definition)->Ok_0.parent),
        is_identifier(parsed(definition)->Ok_0.args.name(parsed(definition)->Ok_0.parent)),
        forall|j: int|
            0 <= j < parsed(definition)->Ok_0.fields.len() ==> {
                &&& is_identifier((#[trigger] parsed(definition)->Ok_0.fields[j]).variant)
                &&& parsed(definition)->Ok_0.fields[j].member matches AccessPathView::Named(name)
                    ==> is_name(name)
            },
{
    fields_are_the_retained_members(definition);
    let fields = parsed(definition)->Ok_0.fields;
    let members = definition.data->Struct_0;
    let positions = retained(members, parsed(definition)->Ok_0.args);
    assert forall|j: int| 0 <= j < fields.len() implies {
        &&& is_identifier((#[trigger] fields[j]).variant)
        &&& fields[j].member matches AccessPathView::Named(name) ==> is_name(name)
    } by {
        assert(0 <= positions[j] < members.len());
    }
}

/// An enum or a union is refused for its shape, whatever its annotations
/// hold, and gives no input to generate from.
pub proof fn enums_and_unions_are_refused(definition: DefinitionView)
    requires
        !(definition.data is Struct),
    ensures
        parsed(definition) is Err,
        parsed(definition)->Err_0 is Shape,
{
}

fn project(ty: &Vec<Token>) -> (tokens: Vec<Token>)
    ensures
        tokens.deep_view() == projected(ty.deep_view()),
{
    let mut tokens: Vec<Token> = Vec::new();
    push_path_sep(&mut tokens);
    push_word(&mut tokens, "fields");
    push_path_sep(&mut tokens);
    push_word(&mut tokens, "Field");
    push_path_sep(&mut tokens);
    push_punct(&mut tokens, '<');
    push_all(&mut tokens, ty);
    push_punct(&mut tokens, '>');
    tokens
}

fn names_member(ident: &Option<String>) -> (ok: bool)
    ensures
        ok == (ident.deep_view() is Some ==> is_name(ident.deep_view()->0)),
{
    match ident {
        Some(name) => reads_as_name(name.as_str()),
        None => true,
    }
}

/// Makes the descriptor of a member that gets a variant, or refuses the
/// member for its names.
///
/// The member stands at position `index` and is, or is not, to be
/// flattened; `variant` is the name made for its variant. `name_ok` says
/// whether the member's own name, if it has one, was found to be a name,
/// and `variant_ok` whether `variant` was found to be an identifier. Where
/// both hold the descriptor is given, with `variant` for its variant and,
/// for a flattened member, the type of the variants of the member's own
/// record for its type; else the member is refused with its position.
pub fn member_read(
    member: &Member,
    index: usize,
    flatten: bool,
    variant: String,
    name_ok: bool,
    variant_ok: bool,
) -> (read: Result<Field, Error>)
    ensures
        match member_read_as(member@, index, flatten, variant@, name_ok, variant_ok) {
            Ok(field) => read is Ok && read->Ok_0@ == field,
            Err(error) => read == Err::<Field, Error>(error),
        },
{
    if !name_ok || !variant_ok {
        return Err(Error::Member(index));
    }
    let path = match &member.ident {
        Some(name) => AccessPath::Named(name.clone()),
        None => AccessPath::Unnamed(index),
    };
    let ty = if flatten {
        project(&member.ty)
    } else {
        duplicate_all(&member.ty)
    };
    Ok(Field { flatten, member: path, variant, ty })
}

impl Generics {
    /// A copy of these generics.
    pub fn duplicate(&self) -> (copy: Generics)
        ensures
            copy@ == self@,
    {
        Generics {
            for_impl: duplicate_all(&self.for_impl),
            for_type: duplicate_all(&self.for_type),
            where_clause: duplicate_all(&self.where_clause),
        }
    }
}

impl Input {
    /// Reads a definition.
    ///
    /// Gives the input to generate from, or the reason why there is none:
    /// the definition is an enum or a union, or an annotation of the record
    /// or of a member that gets a variant holds an unknown key or a
    /// malformed value, or a name that generated code is written with
    /// cannot be written: the record's name or that of a member that gets
    /// a variant is no name, or the name made for the generated type or
    /// for a variant is no identifier. Members are taken in declaration order
    /// and keep their position in the record, whether or not members before
    /// them are dropped.
    pub fn parse(definition: &Definition) -> (input: Result<Input, Error>)
        ensures
            parsed_as(input, parsed(definition@)),
    {
        let members = match &definition.data {
            Data::Struct(members) => members,
            Data::Enum => {
                return Err(Error::Shape(Unsupported::Enum));
            },
            Data::Union => {
                return Err(Error::Shape(Unsupported::Union));
            },
        };
        let args = match Args::from_attributes(&definition.attrs) {
            Ok(args) => args,
            Err(error) => {
                return Err(error);
            },
        };
        let name = args.name(definition.ident.as_str());
        if !reads_as_name(definition.ident.as_str()) || !names_identifier(name.as_str()) {
            return Err(Error::Name);
        }
        let ghost all = members.deep_view();
        let mut fields: Vec<Field> = Vec::new();
        assert(fields.deep_view() =~= Seq::empty());
        let mut i: usize = 0;
        while i < members.len()
            invariant
                all == members.deep_view(),
                definition@.data == DataView::Struct(all),
                ArgsView::decoded(definition@.attrs) == Ok::<ArgsView, Error>(args@),
                is_name(definition@.ident),
                is_identifier(args@.name(definition@.ident)),
                i <= members.len(),
                fields_from(all, args@, 0, Seq::empty()) == fields_from(
                    all,
                    args@,
                    i as int,
                    fields.deep_view(),
                ),
            decreases members.len() - i,
        {
            if args.filter(&members[i]) {
                match FieldArgs::from_attributes(&members[i].attrs, i) {
                    Ok(options) => {
                        let ghost before = fields.deep_view();
                        let variant = name_variant(&members[i].ident, i);
                        let name_ok = names_member(&members[i].ident);
                        let variant_ok = names_identifier(variant.as_str());
                        match member_read(
                            &members[i],
                            i,
                            options.flatten,
                            variant,
                            name_ok,
                            variant_ok,
                        ) {
                            Ok(field) => {
                                fields.push(field);
                                assert(fields.deep_view() =~= before.push(field@));
                            },
                            Err(error) => {
                                return Err(error);
                            },
                        }
                    },
                    Err(error) => {
                        return Err(error);
                    },
                }
            }
            i = i + 1;
        }
        Ok(
            Input {
                args,
                vis: duplicate_all(&definition.vis),
                parent: definition.ident.clone(),
                generics: definition.generics.duplicate(),
                fields,
            },
        )
    }
}

} // verus!
