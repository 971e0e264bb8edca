//! The body that applies a derived effect: one call for each field, in declaration order.

use vstd::prelude::*;

use crate::effect_derive::destructure::{
    destructure_fields, destructure_text, push_unnamed_field_ident,
};
use crate::effect_derive::effect_tuple::derived;
use crate::effect_derive::shape::{
    Data, DataEnum, DataStruct, DataView, DeriveError, Field, Fields, FieldsView, Variant,
    VariantView,
};
use crate::effect_derive::text::{decimal, lemma_decimal_injective, push_decimal};

verus! {

/// The call that hands out the part of a parameter set at position `index`: `p0()`,
/// `p1()`, and so on.
pub open spec fn param_method_text(index: nat) -> Seq<char> {
    "p"@ + decimal(index) + "()"@
}

/// The statement that applies the effect bound to `effect` to the parameter bound to
/// `param`.
pub open spec fn affect_call_text(effect: Seq<char>, param: Seq<char>) -> Seq<char> {
    "bevy_pipe_affect::Effect::affect("@ + effect + ", &mut "@ + param + ");"@
}

/// The block that applies the field bound to `ident`, which stands at position `index`, to
/// the part of `params` at that same position.
pub open spec fn field_affect_text(ident: Seq<char>, index: nat, params: Seq<char>) -> Seq<char> {
    "{ let mut param = "@ + params + "."@ + param_method_text(index) + "; "@ + affect_call_text(
        ident,
        "param"@,
    ) + " }"@
}

/// The blocks for the first `n` of the fields bound to `idents`, each after a space.
pub open spec fn field_affects_text(idents: Seq<Seq<char>>, params: Seq<char>, n: nat) -> Seq<char>
    recommends
        n <= idents.len(),
    decreases n,
{
    if n == 0 {
        Seq::empty()
    } else {
        field_affects_text(idents, params, (n - 1) as nat) + " "@ + field_affect_text(
            idents[n - 1],
            (n - 1) as nat,
            params,
        )
    }
}

/// The blocks that apply every field, in declaration order, each to the part of `params`
/// at its own position.
pub open spec fn affect_calls_for_fields_text(fields: FieldsView, params: Seq<char>) -> Seq<char> {
    field_affects_text(fields.idents(), params, fields.len())
}

/// The statements that take the struct `value` of type `ty` apart and apply its fields.
pub open spec fn affect_calls_for_struct_text(
    fields: FieldsView,
    value: Seq<char>,
    ty: Seq<char>,
    params: Seq<char>,
) -> Seq<char> {
    "let "@ + ty + destructure_text(fields) + " = "@ + value + ";"@ + affect_calls_for_fields_text(
        fields,
        params,
    )
}

/// The match arm for the variant at position `index` of the enum `ty`: it takes the part
/// of `params` at that position and applies the variant's fields to the parts of it.
pub open spec fn variant_arm_text(
    variant: VariantView,
    index: nat,
    ty: Seq<char>,
    params: Seq<char>,
) -> Seq<char> {
    ty + "::"@ + variant.ident + destructure_text(variant.fields)
        + " => { #[allow(unused_variables, unused_mut)] let mut variant_params = "@ + params
        + "."@ + param_method_text(index) + ";"@ + affect_calls_for_fields_text(
        variant.fields,
        "variant_params"@,
    ) + " }"@
}

/// The arms for the first `n` variants, each after a space.
pub open spec fn variant_arms_text(
    variants: Seq<VariantView>,
    ty: Seq<char>,
    params: Seq<char>,
    n: nat,
) -> Seq<char>
    recommends
        n <= variants.len(),
    decreases n,
{
    if n == 0 {
        Seq::empty()
    } else {
        variant_arms_text(variants, ty, params, (n - 1) as nat) + " "@ + variant_arm_text(
            variants[n - 1],
            (n - 1) as nat,
            ty,
            params,
        )
    }
}

/// The match on the enum `value` of type `ty`, with one arm for each variant.
pub open spec fn affect_calls_for_enum_text(
    variants: Seq<VariantView>,
    value: Seq<char>,
    ty: Seq<char>,
    params: Seq<char>,
) -> Seq<char> {
    "match "@ + value + " {"@ + variant_arms_text(variants, ty, params, variants.len()) + " }"@
}

/// The statements that apply `value` of type `ty` to `params`, or why there are none.
pub open spec fn affect_calls_text(
    data: DataView,
    value: Seq<char>,
    ty: Seq<char>,
    params: Seq<char>,
) -> Result<Seq<char>, DeriveError> {
    match data {
        DataView::Struct(fields) => Ok(affect_calls_for_struct_text(fields, value, ty, params)),
        DataView::Enum(variants) => Ok(affect_calls_for_enum_text(variants, value, ty, params)),
        DataView::Union => Err(DeriveError::Union),
    }
}

/// The `affect` function of the effect derived for the type `ty`, or why there is none.
pub open spec fn affect_fn_text(data: DataView, ty: Seq<char>) -> Result<Seq<char>, DeriveError> {
    match affect_calls_text(data, "self"@, ty, "params"@) {
        Ok(calls) => Ok("fn affect(self, params: &mut Self::MutParam) { "@ + calls + " }"@),
        Err(error) => Err(error),
    }
}

/// Returns the call that hands out the part of a parameter set at position `param_index`.
pub fn param_method(param_index: usize) -> (call: String)
    ensures
        call@ == param_method_text(param_index as nat),
{
    let mut call = String::new();
    call.append("p");
    push_decimal(&mut call, param_index);
    call.append("()");
    proof {
        assert(call@ =~= param_method_text(param_index as nat));
    }
    call
}

/// Returns the statement that applies one effect to one parameter.
pub fn affect_call(effect_ident: &str, param_ident: &str) -> (call: String)
    ensures
        call@ == affect_call_text(effect_ident@, param_ident@),
{
    let mut call = String::new();
    call.append("bevy_pipe_affect::Effect::affect(");
    call.append(effect_ident);
    call.append(", &mut ");
    call.append(param_ident);
    call.append(");");
    proof {
        assert(call@ =~= affect_call_text(effect_ident@, param_ident@));
    }
    call
}

fn push_field_affect(out: &mut String, field_ident: &str, field_index: usize, params_ident: &str)
    ensures
        final(out)@ == old(out)@ + " "@ + field_affect_text(
            field_ident@,
            field_index as nat,
            params_ident@,
        ),
{
    let param_method = param_method(field_index);
    let affect_call = affect_call(field_ident, "param");
    out.append(" ");
    out.append("{ let mut param = ");
    out.append(params_ident);
    out.append(".");
    out.append(param_method.as_str());
    out.append("; ");
    out.append(affect_call.as_str());
    out.append(" }");
    proof {
        assert(out@ =~= old(out)@ + " "@ + field_affect_text(
            field_ident@,
            field_index as nat,
            params_ident@,
        ));
    }
}

/// Returns the blocks that apply named fields, each to the part of the parameter set at
/// the field's position.
pub fn affect_calls_for_named_fields(fields: &Vec<Field>, params_ident: &str) -> (calls: String)
    ensures
        calls@ == affect_calls_for_fields_text(Fields::Named(*fields)@, params_ident@),
{
    let ghost idents = Fields::Named(*fields)@.idents();
    let mut calls = String::new();
    let mut field_index: usize = 0;
    while field_index < fields.len()
        invariant
            field_index <= fields.len(),
            idents == Fields::Named(*fields)@.idents(),
            calls@ == field_affects_text(idents, params_ident@, field_index as nat),
        decreases fields.len() - field_index,
    {
        proof {
            assert(idents[field_index as int] == fields[field_index as int].ident@);
        }
        push_field_affect(&mut calls, fields[field_index].ident.as_str(), field_index, params_ident);
        field_index += 1;
    }
    calls
}

/// Returns the blocks that apply unnamed fields, each to the part of the parameter set at
/// the field's position.
pub fn affect_calls_for_unnamed_fields(types: &Vec<String>, params_ident: &str) -> (calls: String)
    ensures
        calls@ == affect_calls_for_fields_text(Fields::Unnamed(*types)@, params_ident@),
{
    let ghost idents = Fields::Unnamed(*types)@.idents();
    let mut calls = String::new();
    let mut field_index: usize = 0;
    while field_index < types.len()
        invariant
            field_index <= types.len(),
            idents == Fields::Unnamed(*types)@.idents(),
            calls@ == field_affects_text(idents, params_ident@, field_index as nat),
        decreases types.len() - field_index,
    {
        let mut field_ident = String::new();
        push_unnamed_field_ident(&mut field_ident, field_index);
        proof {
            assert(idents[field_index as int] =~= field_ident@);
        }
        push_field_affect(&mut calls, field_ident.as_str(), field_index, params_ident);
        field_index += 1;
    }
    calls
}

/// Returns the blocks that apply every field, in declaration order.
pub fn affect_calls_for_fields(fields: &Fields, params_ident: &str) -> (calls: String)
    ensures
        calls@ == affect_calls_for_fields_text(fields@, params_ident@),
{
    match fields {
        Fields::Named(fields) => affect_calls_for_named_fields(fields, params_ident),
        Fields::Unnamed(types) => affect_calls_for_unnamed_fields(types, params_ident),
        Fields::Unit => String::new(),
    }
}

/// Returns the statements that take a struct apart and apply its fields in order.
pub fn affect_calls_for_struct(
    data_struct: &DataStruct,
    struct_ident: &str,
    struct_ty: &str,
    params_ident: &str,
) -> (calls: String)
    ensures
        calls@ == affect_calls_for_struct_text(
            data_struct@,
            struct_ident@,
            struct_ty@,
            params_ident@,
        ),
{
    let destructure = destructure_fields(&data_struct.fields);
    let affect_calls = affect_calls_for_fields(&data_struct.fields, params_ident);
    let mut calls = String::new();
    calls.append("let ");
    calls.append(struct_ty);
    calls.append(destructure.as_str());
    calls.append(" = ");
    calls.append(struct_ident);
    calls.append(";");
    calls.append(affect_calls.as_str());
    proof {
        assert(calls@ =~= affect_calls_for_struct_text(
            data_struct@,
            struct_ident@,
            struct_ty@,
            params_ident@,
        ));
    }
    calls
}

fn variant_arm(
    variant: &Variant,
    variant_index: usize,
    enum_ty: &str,
    params_ident: &str,
) -> (arm: String)
    ensures
        arm@ == variant_arm_text(variant@, variant_index as nat, enum_ty@, params_ident@),
{
    let destructure = destructure_fields(&variant.fields);
    let param_method = param_method(variant_index);
    let affect_calls = affect_calls_for_fields(&variant.fields, "variant_params");
    let mut arm = String::new();
    arm.append(enum_ty);
    arm.append("::");
    arm.append(variant.ident.as_str());
    arm.append(destructure.as_str());
    arm.append(" => { #[allow(unused_variables, unused_mut)] let mut variant_params = ");
    arm.append(params_ident);
    arm.append(".");
    arm.append(param_method.as_str());
    arm.append(";");
    arm.append(affect_calls.as_str());
    arm.append(" }");
    proof {
        assert(arm@ =~= variant_arm_text(
            variant@,
            variant_index as nat,
            enum_ty@,
            params_ident@,
        ));
    }
    arm
}

/// Returns the match that finds the variant an enum value holds and applies that
/// variant's fields, in order, to the part of the parameter set kept for the variant.
pub fn affect_calls_for_enum(
    data_enum: &DataEnum,
    enum_ident: &str,
    enum_ty: &str,
    params_ident: &str,
) -> (calls: String)
    ensures
        calls@ == affect_calls_for_enum_text(data_enum@, enum_ident@, enum_ty@, params_ident@),
{
    let mut calls = String::new();
    calls.append("match ");
    calls.append(enum_ident);
    calls.append(" {");
    let ghost head = calls@;
    let mut variant_index: usize = 0;
    while variant_index < data_enum.variants.len()
        invariant
            variant_index <= data_enum.variants.len(),
            calls@ == head + variant_arms_text(
                data_enum@,
                enum_ty@,
                params_ident@,
                variant_index as nat,
            ),
        decreases data_enum.variants.len() - variant_index,
    {
        let arm = variant_arm(
            &data_enum.variants[variant_index],
            variant_index,
            enum_ty,
            params_ident,
        );
        calls.append(" ");
        calls.append(arm.as_str());
        proof {
            assert(data_enum@[variant_index as int] == data_enum.variants[variant_index as int]@);
            assert(calls@ =~= head + variant_arms_text(
                data_enum@,
                enum_ty@,
                params_ident@,
                (variant_index + 1) as nat,
            ));
        }
        variant_index += 1;
    }
    calls.append(" }");
    proof {
        assert(calls@ =~= affect_calls_for_enum_text(
            data_enum@,
            enum_ident@,
            enum_ty@,
            params_ident@,
        ));
    }
    calls
}

/// Returns the statements that apply a value of the declared type, or the reason why the
/// declaration has none.
pub fn affect_calls_for_data(
    data: &Data,
    value_ident: &str,
    type_ident: &str,
    params_ident: &str,
) -> (calls: Result<String, DeriveError>)
    ensures
        derived(calls) == affect_calls_text(data@, value_ident@, type_ident@, params_ident@),
{
    match data {
        Data::Struct(data) => Ok(
            affect_calls_for_struct(data, value_ident, type_ident, params_ident),
        ),
        Data::Enum(data) => Ok(affect_calls_for_enum(data, value_ident, type_ident, params_ident)),
        Data::Union => Err(DeriveError::Union),
    }
}

/// Returns the `affect` function of the effect derived for the declared type.
pub fn affect_fn_for_data(data: &Data, type_ident: &str) -> (affect_fn: Result<String, DeriveError>)
    ensures
        derived(affect_fn) == affect_fn_text(data@, type_ident@),
{
    match affect_calls_for_data(data, "self", type_ident, "params") {
        Ok(affect_calls) => {
            let mut affect_fn = String::new();
            affect_fn.append("fn affect(self, params: &mut Self::MutParam) { ");
            affect_fn.append(affect_calls.as_str());
            affect_fn.append(" }");
            proof {
                assert(affect_fn@ =~= affect_fn_text(data@, type_ident@)->Ok_0);
            }
            Ok(affect_fn)
        },
        Err(error) => Err(error),
    }
}

/// Without fields, whatever the brackets, nothing is applied.
pub proof fn lemma_no_fields_no_calls(fields: FieldsView, params: Seq<char>)
    requires
        fields.len() == 0,
    ensures
        affect_calls_for_fields_text(fields, params) == Seq::<char>::empty(),
{
}

/// The field at position `index` is applied to the part at position `index`: the blocks
/// for the fields up to and including it end with the block that takes that part.
pub proof fn lemma_fields_are_applied_by_position(fields: FieldsView, params: Seq<char>, index: nat)
    requires
        index < fields.len(),
    ensures
        field_affects_text(fields.idents(), params, index + 1) == field_affects_text(
            fields.idents(),
            params,
            index,
        ) + " "@ + field_affect_text(fields.idents()[index as int], index, params),
{
}

/// Different positions are handed out by different calls, so no two fields of a struct or
/// of a variant, and no two variants of an enum, are applied to the same part.
pub proof fn lemma_param_methods_differ(index: nat, other: nat)
    requires
        param_method_text(index) == param_method_text(other),
    ensures
        index == other,
{
    reveal_strlit("p");
    reveal_strlit("()");
    let text = param_method_text(index);
    assert(text.subrange(1, text.len() - 2) =~= decimal(index));
    assert(text.subrange(1, text.len() - 2) =~= decimal(other));
    lemma_decimal_injective(index, other);
}

} // verus!
