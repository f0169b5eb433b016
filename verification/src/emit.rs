//! Writing the generated code out as tokens.
use crate::artifact::{
    all_item, arm_of, arm_tokens, arms_of, artifact_of, automatically_derived, called, chained_by,
    chained_tokens, copied_tokens, each_arm, each_chained, each_copied, each_moved, each_recursed,
    each_variant, element_of, elements_of, enumeration, field_type, impl_header, into_all_item,
    library_item, member_text, moved_tokens, reached, recursed_tokens, selected, set_item,
    snapshot_tokens, tokens_of, type_item, type_tokens, variant_doc, variant_of, variant_tokens,
    variants_of, vec_of_fields, Element,
};
use crate::input::{AccessPath, Field, FieldView, Input};
use crate::naming::decimal_text;
use crate::token::{
    braces, concatenated, parens, path_sep, punct, push, push_all, push_group, push_item,
    push_next, push_path_sep, push_punct, push_word, separated, word, Delimiter, Token, TokenView,
};
use vstd::prelude::*;

verus! {

fn member_name(member: &AccessPath) -> (text: String)
    ensures
        text@ == member_text(member@),
{
    match member {
        AccessPath::Named(name) => name.clone(),
        AccessPath::Unnamed(index) => decimal_text(*index),
    }
}

fn document(member: &AccessPath, parent: &str) -> (doc: String)
    ensures
        doc@ == variant_doc(member@, parent@),
{
    let name = member_name(member);
    let mut doc = String::from_str("Field [`");
    doc.append(name.as_str());
    doc.append("`](");
    doc.append(parent);
    doc.append("::");
    doc.append(name.as_str());
    doc.append(") of [`");
    doc.append(parent);
    doc.append("`].");
    doc
}

fn push_automatically_derived(out: &mut Vec<Token>)
    ensures
        final(out).deep_view() == old(out).deep_view() + automatically_derived(),
{
    let mut inner: Vec<Token> = Vec::new();
    push_word(&mut inner, "automatically_derived");
    assert(inner.deep_view() =~= seq![word("automatically_derived"@)]);
    push_punct(out, '#');
    push_group(out, Delimiter::Bracket, inner);
}

fn push_library_item(out: &mut Vec<Token>, item: &str)
    ensures
        final(out).deep_view() == old(out).deep_view() + library_item(item@),
{
    push_path_sep(out);
    push_word(out, "fields");
    push_path_sep(out);
    push_word(out, item);
}

fn push_field_type(out: &mut Vec<Token>)
    ensures
        final(out).deep_view() == old(out).deep_view() + field_type(),
{
    push_word(out, "Self");
    push_path_sep(out);
    push_word(out, "Field");
}

fn push_selected(out: &mut Vec<Token>, variant: &String)
    ensures
        final(out).deep_view() == old(out).deep_view() + selected(variant@),
{
    push_field_type(out);
    push_path_sep(out);
    push(out, Token::Ident(variant.clone()));
}

fn push_reached(out: &mut Vec<Token>, member: &AccessPath)
    ensures
        final(out).deep_view() == old(out).deep_view() + reached(member@),
{
    push_word(out, "self");
    push_punct(out, '.');
    match member {
        AccessPath::Named(name) => {
            push(out, Token::Ident(name.clone()));
        },
        AccessPath::Unnamed(index) => {
            push(out, Token::Literal(decimal_text(*index)));
        },
    }
}

fn push_called(out: &mut Vec<Token>, method: &str)
    ensures
        final(out).deep_view() == old(out).deep_view() + called(method@),
{
    let none: Vec<Token> = Vec::new();
    assert(none.deep_view() =~= Seq::empty());
    push_punct(out, '.');
    push_word(out, method);
    push_group(out, Delimiter::Parenthesis, none);
}

fn push_vec_of_fields(out: &mut Vec<Token>)
    ensures
        final(out).deep_view() == old(out).deep_view() + vec_of_fields(),
{
    push_path_sep(out);
    push_word(out, "std");
    push_path_sep(out);
    push_word(out, "vec");
    push_path_sep(out);
    push_word(out, "Vec");
    push_punct(out, '<');
    push_field_type(out);
    push_punct(out, '>');
}

fn variant(field: &Field, parent: &str) -> (tokens: Vec<Token>)
    ensures
        tokens.deep_view() == variant_tokens(variant_of(field@, parent@)),
{
    let mut doc: Vec<Token> = Vec::new();
    push_word(&mut doc, "doc");
    push_punct(&mut doc, '=');
    push(&mut doc, Token::Str(document(&field.member, parent)));
    assert(doc.deep_view() =~= seq![
        word("doc"@),
        punct('='),
        TokenView::Str(variant_doc(field@.member, parent@)),
    ]);
    let mut tokens: Vec<Token> = Vec::new();
    push_punct(&mut tokens, '#');
    push_group(&mut tokens, Delimiter::Bracket, doc);
    push(&mut tokens, Token::Ident(field.variant.clone()));
    let mut ty: Vec<Token> = Vec::new();
    push_all(&mut ty, &field.ty);
    push_group(&mut tokens, Delimiter::Parenthesis, ty);
    tokens
}

fn arm(field: &Field) -> (tokens: Vec<Token>)
    ensures
        tokens.deep_view() == arm_tokens(arm_of(field@)),
{
    let mut value: Vec<Token> = Vec::new();
    push_word(&mut value, "value");
    assert(value.deep_view() =~= seq![word("value"@)]);
    let mut tokens: Vec<Token> = Vec::new();
    push_selected(&mut tokens, &field.variant);
    push_group(&mut tokens, Delimiter::Parenthesis, value);
    push(&mut tokens, Token::Punct('=', true));
    push_punct(&mut tokens, '>');
    if field.flatten {
        let mut arguments: Vec<Token> = Vec::new();
        push_punct(&mut arguments, '&');
        push_word(&mut arguments, "mut");
        push_reached(&mut arguments, &field.member);
        push_punct(&mut arguments, ',');
        push_word(&mut arguments, "value");
        assert(arguments.deep_view() =~= seq![punct('&'), word("mut"@)] + reached(field@.member)
            + seq![punct(','), word("value"@)]);
        push_library_item(&mut tokens, "Fields");
        push_path_sep(&mut tokens);
        push_word(&mut tokens, "set");
        push_group(&mut tokens, Delimiter::Parenthesis, arguments);
    } else {
        push_reached(&mut tokens, &field.member);
        push_punct(&mut tokens, '=');
        push_word(&mut tokens, "value");
    }
    tokens
}

fn moved(field: &Field) -> (tokens: Vec<Token>)
    ensures
        tokens.deep_view() == moved_tokens(element_of(field@)),
{
    let mut access: Vec<Token> = Vec::new();
    push_reached(&mut access, &field.member);
    let mut tokens: Vec<Token> = Vec::new();
    push_selected(&mut tokens, &field.variant);
    push_group(&mut tokens, Delimiter::Parenthesis, access);
    tokens
}

fn copied(field: &Field) -> (tokens: Vec<Token>)
    ensures
        tokens.deep_view() == copied_tokens(element_of(field@)),
{
    let mut access: Vec<Token> = Vec::new();
    push_punct(&mut access, '&');
    push_reached(&mut access, &field.member);
    assert(access.deep_view() =~= seq![punct('&')] + reached(field@.member));
    let mut call: Vec<Token> = Vec::new();
    push_path_sep(&mut call);
    push_word(&mut call, "core");
    push_path_sep(&mut call);
    push_word(&mut call, "clone");
    push_path_sep(&mut call);
    push_word(&mut call, "Clone");
    push_path_sep(&mut call);
    push_word(&mut call, "clone");
    push_group(&mut call, Delimiter::Parenthesis, access);
    assert(call.deep_view() =~= path_sep() + seq![word("core"@)] + path_sep() + seq![
        word("clone"@),
    ] + path_sep() + seq![word("Clone"@)] + path_sep() + seq![
        word("clone"@),
        parens(seq![punct('&')] + reached(field@.member)),
    ]);
    let mut tokens: Vec<Token> = Vec::new();
    push_selected(&mut tokens, &field.variant);
    push_group(&mut tokens, Delimiter::Parenthesis, call);
    tokens
}

fn chain(capability: &str, method: &str, access: Vec<Token>, variant: &String) -> (tokens: Vec<
    Token,
>)
    ensures
        tokens.deep_view() == chained_by(capability@, method@, access.deep_view(), variant@),
{
    let mut wrap: Vec<Token> = Vec::new();
    push_selected(&mut wrap, variant);
    let mut inner: Vec<Token> = Vec::new();
    push_library_item(&mut inner, capability);
    push_path_sep(&mut inner);
    push_word(&mut inner, method);
    push_group(&mut inner, Delimiter::Parenthesis, access);
    push_called(&mut inner, "into_iter");
    push_punct(&mut inner, '.');
    push_word(&mut inner, "map");
    push_group(&mut inner, Delimiter::Parenthesis, wrap);
    assert(inner.deep_view() =~= library_item(capability@) + path_sep() + seq![
        word(method@),
        parens(access.deep_view()),
    ] + called("into_iter"@) + seq![punct('.'), word("map"@), parens(selected(variant@))]);
    let mut tokens: Vec<Token> = Vec::new();
    push_punct(&mut tokens, '.');
    push_word(&mut tokens, "chain");
    push_group(&mut tokens, Delimiter::Parenthesis, inner);
    tokens
}

fn chained(field: &Field) -> (tokens: Vec<Token>)
    ensures
        tokens.deep_view() == chained_tokens(element_of(field@)),
{
    let mut access: Vec<Token> = Vec::new();
    push_reached(&mut access, &field.member);
    chain("Fields", "into_all", access, &field.variant)
}

fn recursed(field: &Field) -> (tokens: Vec<Token>)
    ensures
        tokens.deep_view() == recursed_tokens(element_of(field@)),
{
    let mut access: Vec<Token> = Vec::new();
    push_punct(&mut access, '&');
    push_reached(&mut access, &field.member);
    assert(access.deep_view() =~= seq![punct('&')] + reached(field@.member));
    chain("AllFields", "all", access, &field.variant)
}

fn variants(fields: &Vec<Field>, parent: &str) -> (list: Vec<Token>)
    ensures
        list.deep_view() == separated(
            each_variant(variants_of(fields.deep_view(), parent@)),
            punct(','),
        ),
{
    let ghost items = each_variant(variants_of(fields.deep_view(), parent@));
    let mut list: Vec<Token> = Vec::new();
    let mut i: usize = 0;
    while i < fields.len()
        invariant
            i <= fields.len(),
            items == each_variant(variants_of(fields.deep_view(), parent@)),
            list.deep_view() == separated(items.take(i as int), punct(',')),
        decreases fields.len() - i,
    {
        let item = variant(&fields[i], parent);
        assert(items.take(i + 1) =~= items.take(i as int).push(item.deep_view()));
        push_item(&mut list, i == 0, &item, Ghost(items.take(i as int)));
        i = i + 1;
    }
    assert(items.take(fields.len() as int) =~= items);
    list
}

fn arms(fields: &Vec<Field>) -> (list: Vec<Token>)
    ensures
        list.deep_view() == separated(each_arm(arms_of(fields.deep_view())), punct(',')),
{
    let ghost items = each_arm(arms_of(fields.deep_view()));
    let mut list: Vec<Token> = Vec::new();
    let mut i: usize = 0;
    while i < fields.len()
        invariant
            i <= fields.len(),
            items == each_arm(arms_of(fields.deep_view())),
            list.deep_view() == separated(items.take(i as int), punct(',')),
        decreases fields.len() - i,
    {
        let item = arm(&fields[i]);
        assert(items.take(i + 1) =~= items.take(i as int).push(item.deep_view()));
        push_item(&mut list, i == 0, &item, Ghost(items.take(i as int)));
        i = i + 1;
    }
    assert(items.take(fields.len() as int) =~= items);
    list
}

/// The tokens of each of `elements` as values given whole: copies of the
/// members for a snapshot, the members themselves otherwise.
spec fn each_direct(elements: Seq<Element>, snapshot: bool) -> Seq<Seq<TokenView>> {
    if snapshot {
        each_copied(elements)
    } else {
        each_moved(elements)
    }
}

/// The tokens of each of `elements` as enumerations chained on: snapshots
/// for a snapshot, consuming ones otherwise.
spec fn each_following(elements: Seq<Element>, snapshot: bool) -> Seq<Seq<TokenView>> {
    if snapshot {
        each_recursed(elements)
    } else {
        each_chained(elements)
    }
}

proof fn elements_of_next(fields: Seq<FieldView>, i: int, flattened: bool)
    requires
        0 <= i < fields.len(),
    ensures
        elements_of(fields.take(i + 1), flattened) == if fields[i].flatten == flattened {
            elements_of(fields.take(i), flattened).push(element_of(fields[i]))
        } else {
            elements_of(fields.take(i), flattened)
        },
{
    assert(fields.take(i + 1).drop_last() =~= fields.take(i));
}

fn direct(fields: &Vec<Field>, snapshot: bool) -> (list: Vec<Token>)
    ensures
        list.deep_view() == separated(
            each_direct(elements_of(fields.deep_view(), false), snapshot),
            punct(','),
        ),
{
    let ghost all = fields.deep_view();
    let mut list: Vec<Token> = Vec::new();
    let mut first = true;
    let mut i: usize = 0;
    while i < fields.len()
        invariant
            i <= fields.len(),
            all == fields.deep_view(),
            first == (elements_of(all.take(i as int), false).len() == 0),
            list.deep_view() == separated(
                each_direct(elements_of(all.take(i as int), false), snapshot),
                punct(','),
            ),
        decreases fields.len() - i,
    {
        let ghost before = elements_of(all.take(i as int), false);
        proof {
            elements_of_next(all, i as int, false);
        }
        if !fields[i].flatten {
            let item = if snapshot {
                copied(&fields[i])
            } else {
                moved(&fields[i])
            };
            assert(each_direct(before.push(element_of(all[i as int])), snapshot) =~= each_direct(
                before,
                snapshot,
            ).push(item.deep_view()));
            push_item(&mut list, first, &item, Ghost(each_direct(before, snapshot)));
            first = false;
        }
        i = i + 1;
    }
    assert(all.take(fields.len() as int) =~= all);
    list
}

fn following(fields: &Vec<Field>, snapshot: bool) -> (run: Vec<Token>)
    ensures
        run.deep_view() == concatenated(
            each_following(elements_of(fields.deep_view(), true), snapshot),
        ),
{
    let ghost all = fields.deep_view();
    let mut run: Vec<Token> = Vec::new();
    let mut i: usize = 0;
    while i < fields.len()
        invariant
            i <= fields.len(),
            all == fields.deep_view(),
            run.deep_view() == concatenated(
                each_following(elements_of(all.take(i as int), true), snapshot),
            ),
        decreases fields.len() - i,
    {
        let ghost before = elements_of(all.take(i as int), true);
        proof {
            elements_of_next(all, i as int, true);
        }
        if fields[i].flatten {
            let item = if snapshot {
                recursed(&fields[i])
            } else {
                chained(&fields[i])
            };
            assert(each_following(before.push(element_of(all[i as int])), snapshot)
                =~= each_following(before, snapshot).push(item.deep_view()));
            push_next(&mut run, &item, Ghost(each_following(before, snapshot)));
        }
        i = i + 1;
    }
    assert(all.take(fields.len() as int) =~= all);
    run
}

fn enumerate(fields: &Vec<Field>, snapshot: bool) -> (body: Vec<Token>)
    ensures
        body.deep_view() == enumeration(
            each_direct(elements_of(fields.deep_view(), false), snapshot),
            each_following(elements_of(fields.deep_view(), true), snapshot),
        ),
{
    let mut body: Vec<Token> = Vec::new();
    push_group(&mut body, Delimiter::Bracket, direct(fields, snapshot));
    push_called(&mut body, "into_iter");
    let run = following(fields, snapshot);
    push_all(&mut body, &run);
    push_called(&mut body, "collect");
    body
}

impl Input {
    fn push_type(&self, out: &mut Vec<Token>)
        ensures
            final(out).deep_view() == old(out).deep_view() + type_tokens(artifact_of(self@)),
    {
        push_automatically_derived(out);
        let attributes = self.args.attributes(self.parent.as_str());
        push_all(out, &attributes);
        push_all(out, &self.vis);
        push_word(out, "enum");
        push(out, Token::Ident(self.args.name(self.parent.as_str())));
        push_all(out, &self.generics.for_impl);
        push_all(out, &self.generics.where_clause);
        push_group(out, Delimiter::Brace, variants(&self.fields, self.parent.as_str()));
    }

    fn push_impl_header(&self, out: &mut Vec<Token>, capability: &str)
        ensures
            final(out).deep_view() == old(out).deep_view() + impl_header(
                artifact_of(self@),
                capability@,
            ),
    {
        push_automatically_derived(out);
        push_word(out, "impl");
        push_all(out, &self.generics.for_impl);
        push_library_item(out, capability);
        push_word(out, "for");
        push(out, Token::Ident(self.parent.clone()));
        push_all(out, &self.generics.for_type);
        push_all(out, &self.generics.where_clause);
    }

    fn push_type_item(&self, out: &mut Vec<Token>)
        ensures
            final(out).deep_view() == old(out).deep_view() + type_item(artifact_of(self@)),
    {
        push_word(out, "type");
        push_word(out, "Field");
        push_punct(out, '=');
        push(out, Token::Ident(self.args.name(self.parent.as_str())));
        push_all(out, &self.generics.for_type);
        push_punct(out, ';');
    }

    fn push_into_all_item(&self, out: &mut Vec<Token>)
        ensures
            final(out).deep_view() == old(out).deep_view() + into_all_item(artifact_of(self@)),
    {
        let mut receiver: Vec<Token> = Vec::new();
        push_word(&mut receiver, "self");
        assert(receiver.deep_view() =~= seq![word("self"@)]);
        push_word(out, "fn");
        push_word(out, "into_all");
        push_group(out, Delimiter::Parenthesis, receiver);
        push(out, Token::Punct('-', true));
        push_punct(out, '>');
        push_vec_of_fields(out);
        push_group(out, Delimiter::Brace, enumerate(&self.fields, false));
    }

    fn push_all_item(&self, out: &mut Vec<Token>)
        ensures
            final(out).deep_view() == old(out).deep_view() + all_item(artifact_of(self@)),
    {
        let mut receiver: Vec<Token> = Vec::new();
        push_punct(&mut receiver, '&');
        push_word(&mut receiver, "self");
        assert(receiver.deep_view() =~= seq![punct('&'), word("self"@)]);
        push_word(out, "fn");
        push_word(out, "all");
        push_group(out, Delimiter::Parenthesis, receiver);
        push(out, Token::Punct('-', true));
        push_punct(out, '>');
        push_vec_of_fields(out);
        push_group(out, Delimiter::Brace, enumerate(&self.fields, true));
    }

    fn push_set_item(&self, out: &mut Vec<Token>)
        ensures
            final(out).deep_view() == old(out).deep_view() + set_item(artifact_of(self@)),
    {
        let mut inline: Vec<Token> = Vec::new();
        push_word(&mut inline, "inline");
        assert(inline.deep_view() =~= seq![word("inline"@)]);
        let mut parameters: Vec<Token> = Vec::new();
        push_punct(&mut parameters, '&');
        push_word(&mut parameters, "mut");
        push_word(&mut parameters, "self");
        push_punct(&mut parameters, ',');
        push_word(&mut parameters, "field");
        push_punct(&mut parameters, ':');
        push_field_type(&mut parameters);
        assert(parameters.deep_view() =~= seq![
            punct('&'),
            word("mut"@),
            word("self"@),
            punct(','),
            word("field"@),
            punct(':'),
        ] + field_type());
        let mut body: Vec<Token> = Vec::new();
        push_word(&mut body, "match");
        push_word(&mut body, "field");
        push_group(&mut body, Delimiter::Brace, arms(&self.fields));
        assert(body.deep_view() =~= seq![
            word("match"@),
            word("field"@),
            braces(separated(each_arm(artifact_of(self@).sets), punct(','))),
        ]);
        push_punct(out, '#');
        push_group(out, Delimiter::Bracket, inline);
        push_word(out, "fn");
        push_word(out, "set");
        push_group(out, Delimiter::Parenthesis, parameters);
        push_group(out, Delimiter::Brace, body);
    }

    /// Writes the generated type and the implementation of member access
    /// for the record.
    ///
    /// The type has one variant for each descriptor, in order, which
    /// carries the descriptor's type; `set` has one arm for each variant
    /// and no other, which stores the value in the member or, for a
    /// flattened member, hands it to the member's own `set`; `into_all`
    /// gives the members that are not flattened, in order, and after them
    /// what each flattened member gives, in order.
    pub fn generate(&self) -> (tokens: Vec<Token>)
        ensures
            tokens.deep_view() == tokens_of(artifact_of(self@)),
    {
        let mut body: Vec<Token> = Vec::new();
        self.push_type_item(&mut body);
        self.push_into_all_item(&mut body);
        self.push_set_item(&mut body);
        let mut tokens: Vec<Token> = Vec::new();
        self.push_type(&mut tokens);
        self.push_impl_header(&mut tokens, "Fields");
        push_group(&mut tokens, Delimiter::Brace, body);
        tokens
    }

    /// Writes the implementation of the snapshot of all members for the
    /// record.
    ///
    /// `all` gives a copy of each member that is not flattened, in order,
    /// wrapped in the member's variant, and after them the snapshot of
    /// each flattened member, in order.
    pub fn generate_snapshot(&self) -> (tokens: Vec<Token>)
        ensures
            tokens.deep_view() == snapshot_tokens(artifact_of(self@)),
    {
        let mut body: Vec<Token> = Vec::new();
        self.push_all_item(&mut body);
        let mut tokens: Vec<Token> = Vec::new();
        self.push_impl_header(&mut tokens, "AllFields");
        push_group(&mut tokens, Delimiter::Brace, body);
        tokens
    }
}

} // verus!
