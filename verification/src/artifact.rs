//! The generated code: what it holds, and the tokens that spell it.
//!
//! For a record `Parent` with the retained members `a` and `b`, of which
//! `b` is flattened, the generated code reads
//!
//! ```text
//! #[automatically_derived]
//! #[doc = "A field of [`Parent`]."]
//! #[derive(...)]
//! pub enum ParentField {
//!     #[doc = "Field [`a`](Parent::a) of [`Parent`]."]
//!     A(u32),
//!     #[doc = "Field [`b`](Parent::b) of [`Parent`]."]
//!     B(::fields::Field::<Inner>),
//! }
//!
//! #[automatically_derived]
//! impl ::fields::Fields for Parent {
//!     type Field = ParentField;
//!     fn into_all(self) -> ::std::vec::Vec<Self::Field> {
//!         [Self::Field::A(self.a)]
//!             .into_iter()
//!             .chain(::fields::Fields::into_all(self.b).into_iter().map(Self::Field::B))
//!             .collect()
//!     }
//!     #[inline]
//!     fn set(&mut self, field: Self::Field) {
//!         match field {
//!             Self::Field::A(value) => self.a = value,
//!             Self::Field::B(value) => ::fields::Fields::set(&mut self.b, value)
//!         }
//!     }
//! }
//! ```
//!
//! with the record's visibility, generic parameters and `where` clause
//! copied where they belong.
use crate::definition::GenericsView;
use crate::input::{AccessPathView, FieldView, InputView};
use crate::naming::decimal;
use crate::token::{
    braces, brackets, concatenated, joint, parens, path_sep, punct, separated, word, TokenView,
};
use vstd::prelude::*;

verus! {

/// One variant of the generated type.
pub struct Variant {
    /// The documentation line, which names the member and the record.
    pub doc: Seq<char>,
    pub name: Seq<char>,
    /// The tokens of the type that the variant carries.
    pub ty: Seq<TokenView>,
}

/// One arm of the generated `set`: the variant it takes, the member it
/// sets, and whether it hands the value on to the member's own `set` in
/// place of storing it.
pub struct Arm {
    pub variant: Seq<char>,
    pub member: AccessPathView,
    pub delegate: bool,
}

/// One source of values in a generated enumeration: the member they come
/// from and the variant that wraps them.
pub struct Element {
    pub variant: Seq<char>,
    pub member: AccessPathView,
}

/// The generated code for one record, by what it holds.
pub struct Artifact {
    /// The attributes of the generated type.
    pub attributes: Seq<TokenView>,
    /// The visibility of the generated type.
    pub vis: Seq<TokenView>,
    /// The name of the generated type.
    pub name: Seq<char>,
    /// The name of the record.
    pub parent: Seq<char>,
    pub generics: GenericsView,
    /// The variants of the generated type, in order.
    pub variants: Seq<Variant>,
    /// The arms of `set`, in order.
    pub sets: Seq<Arm>,
    /// The members that an enumeration gives whole, in order.
    pub direct: Seq<Element>,
    /// The members whose own enumeration follows, in order, after the
    /// direct ones.
    pub chained: Seq<Element>,
}

/// The text by which a member is named in documentation: its name, or its
/// position in base ten.
pub open spec fn member_text(member: AccessPathView) -> Seq<char> {
    match member {
        AccessPathView::Named(name) => name,
        AccessPathView::Unnamed(index) => decimal(index),
    }
}

/// The documentation line of the variant for `member` of the record
/// `parent`.
pub open spec fn variant_doc(member: AccessPathView, parent: Seq<char>) -> Seq<char> {
    "Field [`"@ + member_text(member) + "`]("@ + parent + "::"@ + member_text(member)
        + ") of [`"@ + parent + "`]."@
}

/// The variant for `field` of the record `parent`.
pub open spec fn variant_of(field: FieldView, parent: Seq<char>) -> Variant {
    Variant { doc: variant_doc(field.member, parent), name: field.variant, ty: field.ty }
}

/// The arm of `set` for `field`.
pub open spec fn arm_of(field: FieldView) -> Arm {
    Arm { variant: field.variant, member: field.member, delegate: field.flatten }
}

/// The source of values that `field` is in an enumeration.
pub open spec fn element_of(field: FieldView) -> Element {
    Element { variant: field.variant, member: field.member }
}

/// The variants for `fields`, one for one.
pub open spec fn variants_of(fields: Seq<FieldView>, parent: Seq<char>) -> Seq<Variant> {
    Seq::new(fields.len(), |j: int| variant_of(fields[j], parent))
}

/// The arms of `set` for `fields`, one for one.
pub open spec fn arms_of(fields: Seq<FieldView>) -> Seq<Arm> {
    Seq::new(fields.len(), |j: int| arm_of(fields[j]))
}

/// The sources of values, in order, that those of `fields` are which are
/// flattened, or those which are not.
pub open spec fn elements_of(fields: Seq<FieldView>, flattened: bool) -> Seq<Element>
    decreases fields.len(),
{
    if fields.len() == 0 {
        Seq::empty()
    } else {
        let before = elements_of(fields.drop_last(), flattened);
        if fields.last().flatten == flattened {
            before.push(element_of(fields.last()))
        } else {
            before
        }
    }
}

/// The generated code for `input`.
pub open spec fn artifact_of(input: InputView) -> Artifact {
    Artifact {
        attributes: input.args.attributes(input.parent),
        vis: input.vis,
        name: input.args.name(input.parent),
        parent: input.parent,
        generics: input.generics,
        variants: variants_of(input.fields, input.parent),
        sets: arms_of(input.fields),
        direct: elements_of(input.fields, false),
        chained: elements_of(input.fields, true),
    }
}

/// `#[automatically_derived]`
pub open spec fn automatically_derived() -> Seq<TokenView> {
    seq![punct('#'), brackets(seq![word("automatically_derived"@)])]
}

/// `::fields::` and the name `item`.
pub open spec fn library_item(item: Seq<char>) -> Seq<TokenView> {
    path_sep() + seq![word("fields"@)] + path_sep() + seq![word(item)]
}

/// `Self::Field`
pub open spec fn field_type() -> Seq<TokenView> {
    seq![word("Self"@)] + path_sep() + seq![word("Field"@)]
}

/// `Self::Field::` and the name `variant`.
pub open spec fn selected(variant: Seq<char>) -> Seq<TokenView> {
    field_type() + path_sep() + seq![word(variant)]
}

/// The token that names `member` after `self.`: its name, or its position.
pub open spec fn member_token(member: AccessPathView) -> TokenView {
    match member {
        AccessPathView::Named(name) => word(name),
        AccessPathView::Unnamed(index) => TokenView::Literal(decimal(index)),
    }
}

/// `self.` and `member`.
pub open spec fn reached(member: AccessPathView) -> Seq<TokenView> {
    seq![word("self"@), punct('.'), member_token(member)]
}

/// `.` and the call of `method` without arguments.
pub open spec fn called(method: Seq<char>) -> Seq<TokenView> {
    seq![punct('.'), word(method), parens(Seq::empty())]
}

/// `::std::vec::Vec<Self::Field>`
pub open spec fn vec_of_fields() -> Seq<TokenView> {
    path_sep() + seq![word("std"@)] + path_sep() + seq![word("vec"@)] + path_sep() + seq![
        word("Vec"@),
        punct('<'),
    ] + field_type() + seq![punct('>')]
}

/// One variant: its documentation, its name, and its type in parentheses.
pub open spec fn variant_tokens(variant: Variant) -> Seq<TokenView> {
    seq![
        punct('#'),
        brackets(seq![word("doc"@), punct('='), TokenView::Str(variant.doc)]),
        word(variant.name),
        parens(variant.ty),
    ]
}

/// The tokens of each of `variants`.
pub open spec fn each_variant(variants: Seq<Variant>) -> Seq<Seq<TokenView>> {
    Seq::new(variants.len(), |j: int| variant_tokens(variants[j]))
}

/// One arm of `set`: the variant with its value bound, `=>`, and either
/// the assignment of the value to the member or the call of the member's
/// own `set` with it.
pub open spec fn arm_tokens(arm: Arm) -> Seq<TokenView> {
    let pattern = selected(arm.variant) + seq![
        parens(seq![word("value"@)]),
        joint('='),
        punct('>'),
    ];
    if arm.delegate {
        pattern + library_item("Fields"@) + path_sep() + seq![
            word("set"@),
            parens(
                seq![punct('&'), word("mut"@)] + reached(arm.member) + seq![
                    punct(','),
                    word("value"@),
                ],
            ),
        ]
    } else {
        pattern + reached(arm.member) + seq![punct('='), word("value"@)]
    }
}

/// The tokens of each of `arms`.
pub open spec fn each_arm(arms: Seq<Arm>) -> Seq<Seq<TokenView>> {
    Seq::new(arms.len(), |j: int| arm_tokens(arms[j]))
}

/// A member handed over whole, wrapped in its variant.
pub open spec fn moved_tokens(element: Element) -> Seq<TokenView> {
    selected(element.variant) + seq![parens(reached(element.member))]
}

/// The tokens of each of `elements`, handed over whole.
pub open spec fn each_moved(elements: Seq<Element>) -> Seq<Seq<TokenView>> {
    Seq::new(elements.len(), |j: int| moved_tokens(elements[j]))
}

/// `.chain(...)` with what `method` of `capability` gives for the member
/// reached by `access`, each value wrapped in the member's variant.
pub open spec fn chained_by(
    capability: Seq<char>,
    method: Seq<char>,
    access: Seq<TokenView>,
    variant: Seq<char>,
) -> Seq<TokenView> {
    seq![
        punct('.'),
        word("chain"@),
        parens(
            library_item(capability) + path_sep() + seq![word(method), parens(access)] + called(
                "into_iter"@,
            ) + seq![punct('.'), word("map"@), parens(selected(variant))],
        ),
    ]
}

/// The enumeration of a flattened member, consumed, chained on.
pub open spec fn chained_tokens(element: Element) -> Seq<TokenView> {
    chained_by("Fields"@, "into_all"@, reached(element.member), element.variant)
}

/// The tokens of each of `elements`, chained on.
pub open spec fn each_chained(elements: Seq<Element>) -> Seq<Seq<TokenView>> {
    Seq::new(elements.len(), |j: int| chained_tokens(elements[j]))
}

/// An enumeration: the array of the direct values, turned into an
/// iterator, with the chained ones after it, collected.
pub open spec fn enumeration(direct: Seq<Seq<TokenView>>, chained: Seq<Seq<TokenView>>) -> Seq<
    TokenView,
> {
    seq![brackets(separated(direct, punct(',')))] + called("into_iter"@) + concatenated(chained)
        + called("collect"@)
}

/// The declaration of the generated type, with the record's visibility,
/// its generic parameters with their bounds, and its `where` clause.
pub open spec fn type_tokens(artifact: Artifact) -> Seq<TokenView> {
    automatically_derived() + artifact.attributes + artifact.vis + seq![
        word("enum"@),
        word(artifact.name),
    ] + artifact.generics.for_impl + artifact.generics.where_clause + seq![
        braces(separated(each_variant(artifact.variants), punct(','))),
    ]
}

/// `type Field = Name<...>;`
pub open spec fn type_item(artifact: Artifact) -> Seq<TokenView> {
    seq![word("type"@), word("Field"@), punct('='), word(artifact.name)]
        + artifact.generics.for_type + seq![punct(';')]
}

/// The function `into_all`.
pub open spec fn into_all_item(artifact: Artifact) -> Seq<TokenView> {
    seq![word("fn"@), word("into_all"@), parens(seq![word("self"@)]), joint('-'), punct('>')]
        + vec_of_fields() + seq![
        braces(enumeration(each_moved(artifact.direct), each_chained(artifact.chained))),
    ]
}

/// The function `set`.
pub open spec fn set_item(artifact: Artifact) -> Seq<TokenView> {
    seq![
        punct('#'),
        brackets(seq![word("inline"@)]),
        word("fn"@),
        word("set"@),
        parens(
            seq![punct('&'), word("mut"@), word("self"@), punct(','), word("field"@), punct(':')]
                + field_type(),
        ),
        braces(
            seq![
                word("match"@),
                word("field"@),
                braces(separated(each_arm(artifact.sets), punct(','))),
            ],
        ),
    ]
}

/// The header of an implementation of `capability` for the record: from
/// `#[automatically_derived]` to the `where` clause.
pub open spec fn impl_header(artifact: Artifact, capability: Seq<char>) -> Seq<TokenView> {
    automatically_derived() + seq![word("impl"@)] + artifact.generics.for_impl + library_item(
        capability,
    ) + seq![word("for"@), word(artifact.parent)] + artifact.generics.for_type
        + artifact.generics.where_clause
}

/// The implementation of member access for the record.
pub open spec fn impl_tokens(artifact: Artifact) -> Seq<TokenView> {
    impl_header(artifact, "Fields"@) + seq![
        braces(type_item(artifact) + into_all_item(artifact) + set_item(artifact)),
    ]
}

/// All of the generated code: the type, then the implementation.
pub open spec fn tokens_of(artifact: Artifact) -> Seq<TokenView> {
    type_tokens(artifact) + impl_tokens(artifact)
}

/// A copy of a member, wrapped in its variant.
pub open spec fn copied_tokens(element: Element) -> Seq<TokenView> {
    selected(element.variant) + seq![
        parens(
            path_sep() + seq![word("core"@)] + path_sep() + seq![word("clone"@)] + path_sep()
                + seq![word("Clone"@)] + path_sep() + seq![
                word("clone"@),
                parens(seq![punct('&')] + reached(element.member)),
            ],
        ),
    ]
}

/// The tokens of each of `elements`, copied.
pub open spec fn each_copied(elements: Seq<Element>) -> Seq<Seq<TokenView>> {
    Seq::new(elements.len(), |j: int| copied_tokens(elements[j]))
}

/// The snapshot of a flattened member, chained on.
pub open spec fn recursed_tokens(element: Element) -> Seq<TokenView> {
    chained_by(
        "AllFields"@,
        "all"@,
        seq![punct('&')] + reached(element.member),
        element.variant,
    )
}

/// The tokens of each of `elements`, their snapshots chained on.
pub open spec fn each_recursed(elements: Seq<Element>) -> Seq<Seq<TokenView>> {
    Seq::new(elements.len(), |j: int| recursed_tokens(elements[j]))
}

/// The function `all`.
pub open spec fn all_item(artifact: Artifact) -> Seq<TokenView> {
    seq![
        word("fn"@),
        word("all"@),
        parens(seq![punct('&'), word("self"@)]),
        joint('-'),
        punct('>'),
    ] + vec_of_fields() + seq![
        braces(enumeration(each_copied(artifact.direct), each_recursed(artifact.chained))),
    ]
}

/// The implementation of the snapshot of all members for the record.
pub open spec fn snapshot_tokens(artifact: Artifact) -> Seq<TokenView> {
    impl_header(artifact, "AllFields"@) + seq![braces(all_item(artifact))]
}

/// The generated type has one variant for each descriptor and no other,
/// in the order of the descriptors, and each carries the descriptor's type
/// under the descriptor's name.
pub proof fn variants_follow_the_fields(input: InputView)
    ensures
        artifact_of(input).variants.len() == input.fields.len(),
        forall|j: int|
            0 <= j < input.fields.len() ==> {
                &&& (#[trigger] artifact_of(input).variants[j]).name == input.fields[j].variant
                &&& artifact_of(input).variants[j].ty == input.fields[j].ty
            },
{
}

/// `set` has one arm for each variant and no other, at the variant's
/// place. The arm of a variant sets the member that the variant was made
/// for: it stores the value there, or, exactly when the member is
/// flattened, hands it to the member's own `set` and touches nothing else.
pub proof fn every_variant_has_its_arm(input: InputView)
    ensures
        artifact_of(input).sets.len() == artifact_of(input).variants.len(),
        forall|j: int|
            0 <= j < input.fields.len() ==> {
                &&& (#[trigger] artifact_of(input).sets[j]).variant == artifact_of(
                    input,
                ).variants[j].name
                &&& artifact_of(input).sets[j].member == input.fields[j].member
                &&& artifact_of(input).sets[j].delegate == input.fields[j].flatten
            },
{
}

/// Each descriptor is the source of values in an enumeration once: given
/// whole where it is not flattened, chained on where it is.
pub proof fn enumeration_takes_every_field(fields: Seq<FieldView>)
    ensures
        elements_of(fields, false).len() + elements_of(fields, true).len() == fields.len(),
    decreases fields.len(),
{
    if fields.len() > 0 {
        enumeration_takes_every_field(fields.drop_last());
    }
}

/// Where no flattened member stands before one that is not flattened, an
/// enumeration goes through the members in declaration order: the direct
/// sources and the chained ones after them are the descriptors' sources,
/// one for one.
pub proof fn enumeration_in_declaration_order(fields: Seq<FieldView>)
    requires
        forall|i: int, j: int|
            0 <= i < j < fields.len() && fields[i].flatten ==> fields[j].flatten,
    ensures
        elements_of(fields, false) + elements_of(fields, true) == Seq::new(
            fields.len(),
            |j: int| element_of(fields[j]),
        ),
    decreases fields.len(),
{
    if fields.len() > 0 {
        let before = fields.drop_last();
        enumeration_in_declaration_order(before);
        let all = Seq::new(fields.len(), |j: int| element_of(fields[j]));
        let earlier = Seq::new(before.len(), |j: int| element_of(before[j]));
        assert(all =~= earlier.push(element_of(fields.last())));
        if !fields.last().flatten {
            none_flattened(before);
        }
    }
}

proof fn none_flattened(fields: Seq<FieldView>)
    requires
        forall|i: int| 0 <= i < fields.len() ==> !fields[i].flatten,
    ensures
        elements_of(fields, true) == Seq::<Element>::empty(),
    decreases fields.len(),
{
    if fields.len() > 0 {
        none_flattened(fields.drop_last());
    }
}

} // verus!
