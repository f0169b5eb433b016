//! The record definition that the generator starts from, as plain data.
//!
//! A definition says what was written, not what it means: types, generics
//! and the record's own visibility are kept as the tokens that spell them
//! and are copied into the generated code as they are.
use crate::path::{Path, PathView};
use crate::token::{Token, TokenView};
use crate::vis::{Vis, VisView};
use vstd::prelude::*;

verus! {

/// How an attribute is written.
#[derive(Clone, Copy, Debug, PartialEq, Eq)]
pub enum Form {
    /// The name alone: `#[name]`.
    Word,
    /// The name and a delimited list: `#[name(...)]`.
    List,
    /// The name and a value: `#[name = value]`.
    Assigned,
}

/// One attribute of a record or of a member.
#[derive(Debug, PartialEq, Eq)]
pub struct Attribute {
    /// The attribute's name.
    pub path: Path,
    pub form: Form,
    /// What stands between the delimiters of a list, or the value that is
    /// assigned; nothing where the attribute is the name alone.
    pub tokens: Vec<Token>,
}

/// The mathematical value of an [`Attribute`].
pub struct AttributeView {
    pub path: PathView,
    pub form: Form,
    pub tokens: Seq<TokenView>,
}

impl View for Attribute {
    type V = AttributeView;

    open spec fn view(&self) -> AttributeView {
        AttributeView { path: self.path@, form: self.form, tokens: self.tokens.deep_view() }
    }
}

impl AttributeView {
    /// The tokens in which the attribute holds options, if it is written
    /// in a form that holds any: none for the name alone, those of the
    /// list for a list, and no such tokens at all for an assigned value.
    pub open spec fn options(self) -> Option<Seq<TokenView>> {
        match self.form {
            Form::Word => Some(Seq::empty()),
            Form::List => Some(self.tokens),
            Form::Assigned => None,
        }
    }
}

impl DeepView for Attribute {
    type V = AttributeView;

    open spec fn deep_view(&self) -> AttributeView {
        self@
    }
}

/// One named or positional component of a record definition.
#[derive(Debug, PartialEq, Eq)]
pub struct Member {
    pub attrs: Vec<Attribute>,
    /// The declared visibility; `Private` where none is written.
    pub vis: Vis,
    /// The member's name, or nothing for a positional member.
    pub ident: Option<String>,
    /// The tokens of the declared type.
    pub ty: Vec<Token>,
}

/// The mathematical value of a [`Member`].
pub struct MemberView {
    pub attrs: Seq<AttributeView>,
    pub vis: VisView,
    pub ident: Option<Seq<char>>,
    pub ty: Seq<TokenView>,
}

impl View for Member {
    type V = MemberView;

    open spec fn view(&self) -> MemberView {
        MemberView {
            attrs: self.attrs.deep_view(),
            vis: self.vis@,
            ident: self.ident.deep_view(),
            ty: self.ty.deep_view(),
        }
    }
}

impl DeepView for Member {
    type V = MemberView;

    open spec fn deep_view(&self) -> MemberView {
        self@
    }
}

/// The generic parameters of a record, in the three forms in which
/// generated code repeats them.
#[derive(Debug, PartialEq, Eq)]
pub struct Generics {
    /// The parameters with their bounds and without their defaults, as
    /// they follow `impl` and the name of a type where it is declared.
    pub for_impl: Vec<Token>,
    /// The parameters by name alone, as they follow the name of a type
    /// where it is used.
    pub for_type: Vec<Token>,
    /// The `where` clause.
    pub where_clause: Vec<Token>,
}

/// The mathematical value of [`Generics`].
pub struct GenericsView {
    pub for_impl: Seq<TokenView>,
    pub for_type: Seq<TokenView>,
    pub where_clause: Seq<TokenView>,
}

impl View for Generics {
    type V = GenericsView;

    open spec fn view(&self) -> GenericsView {
        GenericsView {
            for_impl: self.for_impl.deep_view(),
            for_type: self.for_type.deep_view(),
            where_clause: self.where_clause.deep_view(),
        }
    }
}

/// What kind of definition an annotated item is, with the members of a
/// struct in declaration order.
#[derive(Debug, PartialEq, Eq)]
pub enum Data {
    Struct(Vec<Member>),
    Enum,
    Union,
}

/// The mathematical value of [`Data`].
pub enum DataView {
    Struct(Seq<MemberView>),
    Enum,
    Union,
}

impl View for Data {
    type V = DataView;

    open spec fn view(&self) -> DataView {
        match self {
            Data::Struct(members) => DataView::Struct(members.deep_view()),
            Data::Enum => DataView::Enum,
            Data::Union => DataView::Union,
        }
    }
}

/// An annotated definition.
#[derive(Debug, PartialEq, Eq)]
pub struct Definition {
    pub attrs: Vec<Attribute>,
    /// The tokens of the declared visibility.
    pub vis: Vec<Token>,
    pub ident: String,
    pub generics: Generics,
    pub data: Data,
}

/// The mathematical value of a [`Definition`].
pub struct DefinitionView {
    pub attrs: Seq<AttributeView>,
    pub vis: Seq<TokenView>,
    pub ident: Seq<char>,
    pub generics: GenericsView,
    pub data: DataView,
}

impl View for Definition {
    type V = DefinitionView;

    open spec fn view(&self) -> DefinitionView {
        DefinitionView {
            attrs: self.attrs.deep_view(),
            vis: self.vis.deep_view(),
            ident: self.ident@,
            generics: self.generics@,
            data: self.data@,
        }
    }
}

} // verus!
