//! The pattern that takes a struct or a variant apart into its fields.

use vstd::prelude::*;

use crate::effect_derive::shape::{unnamed_field_ident, Field, Fields, FieldsView};
use crate::effect_derive::text::{push_decimal, terminated};

verus! {

/// The pattern that binds each of `fields` to its name in [`FieldsView::idents`], written
/// so that it can follow the path of the struct or variant directly:
/// ` { a, b, }` for named fields, `(f0, f1, )` for unnamed ones, nothing for none.
pub open spec fn destructure_text(fields: FieldsView) -> Seq<char> {
    match fields {
        FieldsView::Named(_) => " { "@ + terminated(fields.idents(), ", "@, fields.len()) + "}"@,
        FieldsView::Unnamed(_) => "("@ + terminated(fields.idents(), ", "@, fields.len()) + ")"@,
        FieldsView::Unit => Seq::empty(),
    }
}

/// Writes the name that the unnamed field at position `index` is bound to.
pub fn push_unnamed_field_ident(out: &mut String, index: usize)
    ensures
        final(out)@ == old(out)@ + unnamed_field_ident(index as nat),
{
    out.append("f");
    push_decimal(out, index);
    proof {
        assert(out@ =~= old(out)@ + unnamed_field_ident(index as nat));
    }
}

fn destructure_named_fields(fields: &Vec<Field>) -> (pattern: String)
    ensures
        pattern@ == destructure_text(Fields::Named(*fields)@),
{
    let ghost view = Fields::Named(*fields)@;
    let mut pattern = String::new();
    pattern.append(" { ");
    let mut i: usize = 0;
    while i < fields.len()
        invariant
            i <= fields.len(),
            view == Fields::Named(*fields)@,
            pattern@ == " { "@ + terminated(view.idents(), ", "@, i as nat),
        decreases fields.len() - i,
    {
        pattern.append(fields[i].ident.as_str());
        pattern.append(", ");
        proof {
            assert(view.idents()[i as int] == fields[i as int].ident@);
            assert(pattern@ =~= " { "@ + terminated(view.idents(), ", "@, (i + 1) as nat));
        }
        i += 1;
    }
    pattern.append("}");
    pattern
}

fn destructure_unnamed_fields(types: &Vec<String>) -> (pattern: String)
    ensures
        pattern@ == destructure_text(Fields::Unnamed(*types)@),
{
    let ghost view = Fields::Unnamed(*types)@;
    let mut pattern = String::new();
    pattern.append("(");
    let mut i: usize = 0;
    while i < types.len()
        invariant
            i <= types.len(),
            view == Fields::Unnamed(*types)@,
            pattern@ == "("@ + terminated(view.idents(), ", "@, i as nat),
        decreases types.len() - i,
    {
        push_unnamed_field_ident(&mut pattern, i);
        pattern.append(", ");
        proof {
            assert(pattern@ =~= "("@ + terminated(view.idents(), ", "@, (i + 1) as nat));
        }
        i += 1;
    }
    pattern.append(")");
    pattern
}

/// Returns the pattern that takes a value with these fields apart.
///
/// The pattern does not hold the name of the struct or variant, only what follows it.
pub fn destructure_fields(fields: &Fields) -> (pattern: String)
    ensures
        pattern@ == destructure_text(fields@),
{
    match fields {
        Fields::Named(fields) => destructure_named_fields(fields),
        Fields::Unnamed(types) => destructure_unnamed_fields(types),
        Fields::Unit => String::new(),
    }
}

} // verus!
