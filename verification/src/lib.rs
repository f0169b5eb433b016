//! Generates, for a record definition, a tagged-variant type with one
//! variant per member, and the code that sets a member from a value of that
//! type.
//!
//! A macro shell hands [`fields`] the annotated definition as plain data
//! and gets back the tokens of the generated code, or the reason why there
//! are none. [`all_fields`] does the same for the snapshot of all members.
pub mod access;
pub mod args;
pub mod artifact;
pub mod definition;
pub mod emit;
pub mod error;
pub mod identifier;
pub mod input;
pub mod naming;
pub mod path;
pub mod token;
pub mod vis;

pub use access::{AllFields, Field, Fields};

use artifact::{artifact_of, snapshot_tokens, tokens_of, variants_follow_the_fields};
use definition::{Definition, DefinitionView};
use error::Error;
use input::{fields_are_the_retained_members, parsed, retained, Input};
use naming::variant_name;
use token::{Token, TokenView};
use vstd::prelude::*;

verus! {

/// The generated type and implementation of member access for
/// `definition`, or the reason why there is none.
pub open spec fn generated(definition: DefinitionView) -> Result<Seq<TokenView>, Error> {
    match parsed(definition) {
        Ok(input) => Ok(tokens_of(artifact_of(input))),
        Err(error) => Err(error),
    }
}

/// The generated implementation of the snapshot of all members for
/// `definition`, or the reason why there is none.
pub open spec fn generated_snapshot(definition: DefinitionView) -> Result<Seq<TokenView>, Error> {
    match parsed(definition) {
        Ok(input) => Ok(snapshot_tokens(artifact_of(input))),
        Err(error) => Err(error),
    }
}

/// Whether `result` holds what `expected` describes: the same fault, or
/// tokens of those values.
pub open spec fn generated_as(
    result: Result<Vec<Token>, Error>,
    expected: Result<Seq<TokenView>, Error>,
) -> bool {
    match expected {
        Ok(tokens) => result is Ok && result->Ok_0.deep_view() == tokens,
        Err(error) => result == Err::<Vec<Token>, Error>(error),
    }
}

/// Where a definition cannot be read, nothing is generated: neither the
/// type with its implementation nor the snapshot, but the fault that ended
/// the reading.
pub proof fn no_code_without_input(definition: DefinitionView)
    requires
        parsed(definition) is Err,
    ensures
        generated(definition) == Err::<Seq<TokenView>, Error>(parsed(definition)->Err_0),
        generated_snapshot(definition) == Err::<Seq<TokenView>, Error>(
            parsed(definition)->Err_0,
        ),
{
}

/// For an enum and for a union nothing is generated, whatever its
/// annotations hold, and the fault is the shape.
pub proof fn no_code_for_enums_and_unions(definition: DefinitionView)
    requires
        !(definition.data is Struct),
    ensures
        generated(definition) is Err,
        generated(definition)->Err_0 is Shape,
        generated_snapshot(definition) is Err,
        generated_snapshot(definition)->Err_0 is Shape,
{
}

/// The variants of the generated type stand in the declaration order of
/// the members that the filter keeps: the variant at the j-th place is the
/// one of the member at the j-th retained position, and no member that the
/// filter drops has one.
pub proof fn variants_in_declaration_order(definition: DefinitionView)
    requires
        parsed(definition) is Ok,
    ensures
        definition.data is Struct,
        ({
            let input = parsed(definition)->Ok_0;
            let members = definition.data->Struct_0;
            let positions = retained(members, input.args);
            &&& artifact_of(input).variants.len() == positions.len()
            &&& forall|j: int|
                0 <= j < positions.len() ==> (#[trigger] artifact_of(input).variants[j]).name
                    == variant_name(members[positions[j]].ident, positions[j] as nat)
        }),
{
    fields_are_the_retained_members(definition);
    variants_follow_the_fields(parsed(definition)->Ok_0);
}

/// Generates the tagged-variant type of a record and the implementation of
/// member access through it.
///
/// A struct gives its generated code. An enum or a union gives a shape
/// error, an annotation with an unknown key or a malformed value a
/// configuration error that says where it stands, and a name of the
/// record or of a member of which no identifier can be made an error of
/// its own, with the member's position; then nothing is generated.
pub fn fields(definition: &Definition) -> (tokens: Result<Vec<Token>, Error>)
    ensures
        generated_as(tokens, generated(definition@)),
{
    match Input::parse(definition) {
        Ok(input) => Ok(input.generate()),
        Err(error) => Err(error),
    }
}

/// Generates the implementation of the snapshot of all members of a
/// record, for a record that has its tagged-variant type already.
///
/// It gives a fault where [`fields`] gives one, and the same one.
pub fn all_fields(definition: &Definition) -> (tokens: Result<Vec<Token>, Error>)
    ensures
        generated_as(tokens, generated_snapshot(definition@)),
{
    match Input::parse(definition) {
        Ok(input) => Ok(input.generate_snapshot()),
        Err(error) => Err(error),
    }
}

} // verus!
