//! Derives an effect for a struct or an enum whose fields are effects.
//!
//! The derived effect applies the fields in declaration order. Its state is that of the
//! tuple of the fields, so the field at position `i` is applied to the part at position
//! `i`. An enum keeps one part for each variant, holding the parts for that variant's
//! fields; only the parts of the variant that a value holds are touched.

use vstd::prelude::*;

pub mod affect_fn;
pub mod destructure;
pub mod effect_tuple;
pub mod generics;
pub mod mut_param_type;
pub mod shape;
pub mod text;

use affect_fn::{affect_fn_for_data, affect_fn_text};
use effect_tuple::derived;
use generics::{
    generics_with_effect_bounds, generics_with_effect_bounds_view, impl_generics,
    impl_generics_text, type_generics, type_generics_text, where_clause, where_clause_text,
};
use mut_param_type::{mut_param_type_for_data, mut_param_type_text};
use shape::{DeriveError, DeriveInput, DeriveInputView};

verus! {

/// The implementation of the effect trait that is derived for a declaration, or why
/// there is none.
///
/// Every type parameter of the declaration is bound by the effect trait, after the bounds
/// it was declared with.
pub open spec fn derive_effect_text(input: DeriveInputView) -> Result<Seq<char>, DeriveError> {
    let generics = generics_with_effect_bounds_view(input.generics);
    match (mut_param_type_text(input.data), affect_fn_text(input.data, input.ident)) {
        (Ok(mut_param), Ok(affect_fn)) => Ok(
            "impl"@ + impl_generics_text(generics) + " bevy_pipe_affect::Effect for "@
                + input.ident + type_generics_text(generics) + where_clause_text(generics)
                + " { "@ + mut_param + " "@ + affect_fn + " }"@,
        ),
        (Err(error), _) => Err(error),
        (_, Err(error)) => Err(error),
    }
}

/// Derives the effect trait for a struct or an enum whose fields are effects.
///
/// Returns the source of the implementation. A union is refused.
pub fn derive_effect(input: DeriveInput) -> (expanded: Result<String, DeriveError>)
    ensures
        derived(expanded) == derive_effect_text(input@),
{
    let DeriveInput { ident: name, generics, data } = input;
    let generics = generics_with_effect_bounds(generics);
    let mut_param = match mut_param_type_for_data(&data) {
        Ok(mut_param) => mut_param,
        Err(error) => {
            return Err(error);
        },
    };
    let affect_fn = match affect_fn_for_data(&data, name.as_str()) {
        Ok(affect_fn) => affect_fn,
        Err(error) => {
            return Err(error);
        },
    };
    let impl_generics = impl_generics(&generics);
    let ty_generics = type_generics(&generics);
    let where_clause = where_clause(&generics);
    let mut expanded = String::new();
    expanded.append("impl");
    expanded.append(impl_generics.as_str());
    expanded.append(" bevy_pipe_affect::Effect for ");
    expanded.append(name.as_str());
    expanded.append(ty_generics.as_str());
    expanded.append(where_clause.as_str());
    expanded.append(" { ");
    expanded.append(mut_param.as_str());
    expanded.append(" ");
    expanded.append(affect_fn.as_str());
    expanded.append(" }");
    proof {
        assert(expanded@ =~= derive_effect_text(input@)->Ok_0);
    }
    Ok(expanded)
}

} // verus!
