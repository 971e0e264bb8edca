//! The tuple of effects that a derived effect is applied as.

use vstd::prelude::*;

use crate::effect_derive::shape::{
    Data, DataEnum, DataView, DeriveError, Field, Fields, FieldsView, VariantView,
};
use crate::effect_derive::text::terminated;

verus! {

/// The tuple type with the given element types: `(A, B, )`, and `()` for none.
pub open spec fn tuple_text(types: Seq<Seq<char>>) -> Seq<char> {
    "("@ + terminated(types, ", "@, types.len()) + ")"@
}

/// The tuple of the fields' types, in declaration order. The fields' names play no part.
pub open spec fn effect_tuple_for_fields_text(fields: FieldsView) -> Seq<char> {
    tuple_text(fields.types())
}

/// The tuple that holds, for each variant in declaration order, the tuple of its fields.
pub open spec fn effect_tuple_for_enum_text(variants: Seq<VariantView>) -> Seq<char> {
    tuple_text(Seq::new(variants.len(), |i: int| effect_tuple_for_fields_text(variants[i].fields)))
}

/// The tuple of effects for a declaration, or why there is none.
pub open spec fn effect_tuple_text(data: DataView) -> Result<Seq<char>, DeriveError> {
    match data {
        DataView::Struct(fields) => Ok(effect_tuple_for_fields_text(fields)),
        DataView::Enum(variants) => Ok(effect_tuple_for_enum_text(variants)),
        DataView::Union => Err(DeriveError::Union),
    }
}

/// What a derivation step has produced: the text on success, the error otherwise.
pub open spec fn derived(result: Result<String, DeriveError>) -> Result<Seq<char>, DeriveError> {
    match result {
        Ok(text) => Ok(text@),
        Err(error) => Err(error),
    }
}

fn effect_tuple_for_named_fields(fields: &Vec<Field>) -> (tuple: String)
    ensures
        tuple@ == effect_tuple_for_fields_text(Fields::Named(*fields)@),
{
    let ghost types = Fields::Named(*fields)@.types();
    let mut tuple = String::new();
    tuple.append("(");
    let mut i: usize = 0;
    while i < fields.len()
        invariant
            i <= fields.len(),
            types == Fields::Named(*fields)@.types(),
            tuple@ == "("@ + terminated(types, ", "@, i as nat),
        decreases fields.len() - i,
    {
        tuple.append(fields[i].ty.as_str());
        tuple.append(", ");
        proof {
            assert(types[i as int] == fields[i as int].ty@);
            assert(tuple@ =~= "("@ + terminated(types, ", "@, (i + 1) as nat));
        }
        i += 1;
    }
    tuple.append(")");
    tuple
}

fn effect_tuple_for_unnamed_fields(types: &Vec<String>) -> (tuple: String)
    ensures
        tuple@ == effect_tuple_for_fields_text(Fields::Unnamed(*types)@),
{
    let ghost texts = Fields::Unnamed(*types)@.types();
    let mut tuple = String::new();
    tuple.append("(");
    let mut i: usize = 0;
    while i < types.len()
        invariant
            i <= types.len(),
            texts == Fields::Unnamed(*types)@.types(),
            tuple@ == "("@ + terminated(texts, ", "@, i as nat),
        decreases types.len() - i,
    {
        tuple.append(types[i].as_str());
        tuple.append(", ");
        proof {
            assert(texts[i as int] == types[i as int]@);
            assert(tuple@ =~= "("@ + terminated(texts, ", "@, (i + 1) as nat));
        }
        i += 1;
    }
    tuple.append(")");
    tuple
}

/// Returns the tuple type whose elements are the types of the fields.
pub fn effect_tuple_for_fields(fields: &Fields) -> (tuple: String)
    ensures
        tuple@ == effect_tuple_for_fields_text(fields@),
{
    match fields {
        Fields::Named(fields) => effect_tuple_for_named_fields(fields),
        Fields::Unnamed(types) => effect_tuple_for_unnamed_fields(types),
        Fields::Unit => {
            let mut tuple = String::new();
            tuple.append("(");
            tuple.append(")");
            proof {
                assert(tuple@ =~= effect_tuple_for_fields_text(fields@));
            }
            tuple
        },
    }
}

/// Returns the tuple type with one element for each variant: the tuple of that variant's
/// fields.
pub fn effect_tuple_for_enum(data_enum: &DataEnum) -> (tuple: String)
    ensures
        tuple@ == effect_tuple_for_enum_text(data_enum@),
{
    let ghost tuples = Seq::new(
        data_enum@.len(),
        |i: int| effect_tuple_for_fields_text(data_enum@[i].fields),
    );
    let mut tuple = String::new();
    tuple.append("(");
    let mut i: usize = 0;
    while i < data_enum.variants.len()
        invariant
            i <= data_enum.variants.len(),
            tuples == Seq::new(
                data_enum@.len(),
                |i: int| effect_tuple_for_fields_text(data_enum@[i].fields),
            ),
            tuple@ == "("@ + terminated(tuples, ", "@, i as nat),
        decreases data_enum.variants.len() - i,
    {
        let variant_tuple = effect_tuple_for_fields(&data_enum.variants[i].fields);
        tuple.append(variant_tuple.as_str());
        tuple.append(", ");
        proof {
            assert(tuples[i as int] == variant_tuple@);
            assert(tuple@ =~= "("@ + terminated(tuples, ", "@, (i + 1) as nat));
        }
        i += 1;
    }
    tuple.append(")");
    tuple
}

/// Returns the tuple type with the same elements as the declaration's fields.
///
/// For an enum, the tuple has one element for each variant, itself a tuple. A union is
/// refused.
pub fn effect_tuple_for_data(data: &Data) -> (tuple: Result<String, DeriveError>)
    ensures
        derived(tuple) == effect_tuple_text(data@),
{
    match data {
        Data::Struct(data) => Ok(effect_tuple_for_fields(&data.fields)),
        Data::Enum(data) => Ok(effect_tuple_for_enum(data)),
        Data::Union => Err(DeriveError::Union),
    }
}

/// The tuple of effects depends on the types of the fields and on their order, not on
/// their names nor on the brackets they stand in.
pub proof fn lemma_effect_tuple_ignores_names(fields: FieldsView, renamed: FieldsView)
    requires
        fields.types() == renamed.types(),
    ensures
        effect_tuple_for_fields_text(fields) == effect_tuple_for_fields_text(renamed),
{
}

/// Without fields, whatever the brackets, the tuple of effects is the unit type.
pub proof fn lemma_effect_tuple_of_no_fields(fields: FieldsView)
    requires
        fields.len() == 0,
    ensures
        effect_tuple_for_fields_text(fields) == "("@ + ")"@,
{
    assert(fields.types().len() == 0);
    assert(effect_tuple_for_fields_text(fields) =~= "("@ + ")"@);
}

} // verus!
