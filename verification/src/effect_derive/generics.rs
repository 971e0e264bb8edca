//! The generic parameters of a derived effect.

use vstd::prelude::*;

use crate::effect_derive::shape::{
    generic_param_list, text_list, GenericParam, GenericParamView, Generics, GenericsView,
    TypeParam, TypeParamView,
};
use crate::effect_derive::text::{push_separated, separated};

verus! {

/// The path of the trait that every type parameter of a derived effect is bound by.
pub open spec fn effect_bound() -> Seq<char> {
    "bevy_pipe_affect::Effect"@
}

/// `type_param` with the effect trait as its last bound.
pub open spec fn type_param_with_effect_bound_view(type_param: TypeParamView) -> TypeParamView {
    TypeParamView {
        ident: type_param.ident,
        bounds: type_param.bounds.push(effect_bound()),
        default: type_param.default,
    }
}

/// `generic_param` with the effect trait as its last bound, if it is a type parameter.
/// Lifetime and const parameters stay as they are.
pub open spec fn generic_param_with_effect_bound_view(
    generic_param: GenericParamView,
) -> GenericParamView {
    match generic_param {
        GenericParamView::Type(type_param) => GenericParamView::Type(
            type_param_with_effect_bound_view(type_param),
        ),
        _ => generic_param,
    }
}

/// `generics` with the effect trait as the last bound of every type parameter.
pub open spec fn generics_with_effect_bounds_view(generics: GenericsView) -> GenericsView {
    GenericsView {
        params: Seq::new(
            generics.params.len(),
            |i: int| generic_param_with_effect_bound_view(generics.params[i]),
        ),
        where_clause: generics.where_clause,
    }
}

/// Returns the type parameter with the effect trait added to its bounds.
pub fn type_param_with_effect_bound(type_param: TypeParam) -> (bounded: TypeParam)
    ensures
        bounded@ == type_param_with_effect_bound_view(type_param@),
{
    let TypeParam { ident, bounds, default } = type_param;
    let mut bounds = bounds;
    bounds.push(String::from_str("bevy_pipe_affect::Effect"));
    let bounded = TypeParam { ident, bounds, default };
    proof {
        assert(bounded@.bounds =~= type_param@.bounds.push(effect_bound()));
    }
    bounded
}

/// Returns the parameter with the effect trait added to its bounds, if it is a type
/// parameter.
pub fn generic_param_with_effect_bound(generic_param: GenericParam) -> (bounded: GenericParam)
    ensures
        bounded@ == generic_param_with_effect_bound_view(generic_param@),
{
    match generic_param {
        GenericParam::Type(type_param) => GenericParam::Type(
            type_param_with_effect_bound(type_param),
        ),
        p => p,
    }
}

/// Returns the generics with the effect trait added to the bounds of every type parameter.
pub fn generics_with_effect_bounds(generics: Generics) -> (bounded: Generics)
    ensures
        bounded@ == generics_with_effect_bounds_view(generics@),
{
    let Generics { params, where_clause } = generics;
    let ghost views = generic_param_list(params);
    let mut bounded_params: Vec<GenericParam> = Vec::new();
    for param in it: params
        invariant
            it.seq() == params@,
            views == generic_param_list(params),
            bounded_params@.len() == it.index(),
            forall|i: int|
                0 <= i < it.index() ==> (#[trigger] bounded_params@[i])@
                    == generic_param_with_effect_bound_view(views[i]),
    {
        bounded_params.push(generic_param_with_effect_bound(param));
    }
    let bounded = Generics { params: bounded_params, where_clause };
    proof {
        assert(bounded@.params =~= generics_with_effect_bounds_view(generics@).params);
    }
    bounded
}

/// A parameter's name followed by its bounds, or the name alone where it has none.
pub open spec fn bounded_text(name: Seq<char>, bounds: Seq<Seq<char>>) -> Seq<char> {
    if bounds.len() == 0 {
        name
    } else {
        name + ": "@ + separated(bounds, " + "@, bounds.len())
    }
}

/// A parameter as it is declared after `impl`: with its bounds, without its default.
pub open spec fn impl_param_text(param: GenericParamView) -> Seq<char> {
    match param {
        GenericParamView::Lifetime(param) => bounded_text(param.lifetime, param.bounds),
        GenericParamView::Type(param) => bounded_text(param.ident, param.bounds),
        GenericParamView::Const(param) => "const "@ + param.ident + ": "@ + param.ty,
    }
}

/// A parameter as it is named where the type is used.
pub open spec fn type_param_text(param: GenericParamView) -> Seq<char> {
    match param {
        GenericParamView::Lifetime(param) => param.lifetime,
        GenericParamView::Type(param) => param.ident,
        GenericParamView::Const(param) => param.ident,
    }
}

/// `items` between angle brackets, separated by commas; nothing at all for no items.
pub open spec fn angle_list_text(items: Seq<Seq<char>>) -> Seq<char> {
    if items.len() == 0 {
        Seq::empty()
    } else {
        "<"@ + separated(items, ", "@, items.len()) + ">"@
    }
}

/// The parameter list that follows `impl`.
pub open spec fn impl_generics_text(generics: GenericsView) -> Seq<char> {
    angle_list_text(Seq::new(generics.params.len(), |i: int| impl_param_text(generics.params[i])))
}

/// The argument list that follows the type's name.
pub open spec fn type_generics_text(generics: GenericsView) -> Seq<char> {
    angle_list_text(Seq::new(generics.params.len(), |i: int| type_param_text(generics.params[i])))
}

/// The `where` clause after a space, or nothing where there is none.
pub open spec fn where_clause_text(generics: GenericsView) -> Seq<char> {
    match generics.where_clause {
        Some(predicates) => " where "@ + predicates,
        None => Seq::empty(),
    }
}

fn bounded(name: &str, bounds: &Vec<String>) -> (param: String)
    ensures
        param@ == bounded_text(name@, text_list(*bounds)),
{
    let mut param = String::new();
    param.append(name);
    if bounds.len() > 0 {
        param.append(": ");
        push_separated(&mut param, bounds, " + ");
    }
    proof {
        assert(param@ =~= bounded_text(name@, text_list(*bounds)));
    }
    param
}

fn impl_param(param: &GenericParam) -> (text: String)
    ensures
        text@ == impl_param_text(param@),
{
    match param {
        GenericParam::Lifetime(param) => bounded(param.lifetime.as_str(), &param.bounds),
        GenericParam::Type(param) => bounded(param.ident.as_str(), &param.bounds),
        GenericParam::Const(param) => {
            let mut text = String::new();
            text.append("const ");
            text.append(param.ident.as_str());
            text.append(": ");
            text.append(param.ty.as_str());
            proof {
                assert(text@ =~= "const "@ + param@.ident + ": "@ + param@.ty);
            }
            text
        },
    }
}

fn type_param(param: &GenericParam) -> (text: String)
    ensures
        text@ == type_param_text(param@),
{
    match param {
        GenericParam::Lifetime(param) => param.lifetime.clone(),
        GenericParam::Type(param) => param.ident.clone(),
        GenericParam::Const(param) => param.ident.clone(),
    }
}

fn angle_list(items: &Vec<String>) -> (list: String)
    ensures
        list@ == angle_list_text(text_list(*items)),
{
    let mut list = String::new();
    if items.len() > 0 {
        list.append("<");
        push_separated(&mut list, items, ", ");
        list.append(">");
    }
    proof {
        assert(list@ =~= angle_list_text(text_list(*items)));
    }
    list
}

/// Returns the parameter list that follows `impl`: every parameter with its bounds and
/// without its default, or nothing where the type has no parameters.
pub fn impl_generics(generics: &Generics) -> (list: String)
    ensures
        list@ == impl_generics_text(generics@),
{
    let mut items: Vec<String> = Vec::new();
    let mut i: usize = 0;
    while i < generics.params.len()
        invariant
            i <= generics.params.len(),
            items@.len() == i,
            forall|j: int| 0 <= j < i ==> (#[trigger] items@[j])@ == impl_param_text(
                generics@.params[j],
            ),
        decreases generics.params.len() - i,
    {
        items.push(impl_param(&generics.params[i]));
        i += 1;
    }
    proof {
        assert(text_list(items) =~= Seq::new(
            generics@.params.len(),
            |i: int| impl_param_text(generics@.params[i]),
        ));
    }
    angle_list(&items)
}

/// Returns the argument list that follows the type's name: the name of every parameter,
/// or nothing where the type has no parameters.
pub fn type_generics(generics: &Generics) -> (list: String)
    ensures
        list@ == type_generics_text(generics@),
{
    let mut items: Vec<String> = Vec::new();
    let mut i: usize = 0;
    while i < generics.params.len()
        invariant
            i <= generics.params.len(),
            items@.len() == i,
            forall|j: int| 0 <= j < i ==> (#[trigger] items@[j])@ == type_param_text(
                generics@.params[j],
            ),
        decreases generics.params.len() - i,
    {
        items.push(type_param(&generics.params[i]));
        i += 1;
    }
    proof {
        assert(text_list(items) =~= Seq::new(
            generics@.params.len(),
            |i: int| type_param_text(generics@.params[i]),
        ));
    }
    angle_list(&items)
}

/// Returns the `where` clause, keyword included, after a space; nothing where the type
/// has none.
pub fn where_clause(generics: &Generics) -> (clause: String)
    ensures
        clause@ == where_clause_text(generics@),
{
    let mut clause = String::new();
    match &generics.where_clause {
        Some(predicates) => {
            clause.append(" where ");
            clause.append(predicates.as_str());
        },
        None => {},
    }
    proof {
        assert(clause@ =~= where_clause_text(generics@));
    }
    clause
}

} // verus!
