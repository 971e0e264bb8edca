//! The state that a derived effect is applied to.

use vstd::prelude::*;

use crate::effect_derive::effect_tuple::{derived, effect_tuple_for_data, effect_tuple_text};
use crate::effect_derive::shape::{Data, DataView, DeriveError};

verus! {

/// The associated type of a derived effect: the state that the tuple of its fields is
/// applied to. There is none where there is no such tuple.
pub open spec fn mut_param_type_text(data: DataView) -> Result<Seq<char>, DeriveError> {
    match effect_tuple_text(data) {
        Ok(tuple) => Ok(
            "type MutParam = <"@ + tuple + " as bevy_pipe_affect::Effect>::MutParam;"@,
        ),
        Err(error) => Err(error),
    }
}

/// Returns the `MutParam` associated type of the effect derived for the declaration.
pub fn mut_param_type_for_data(data: &Data) -> (mut_param: Result<String, DeriveError>)
    ensures
        derived(mut_param) == mut_param_type_text(data@),
{
    match effect_tuple_for_data(data) {
        Ok(effect_tuple) => {
            let mut mut_param = String::new();
            mut_param.append("type MutParam = <");
            mut_param.append(effect_tuple.as_str());
            mut_param.append(" as bevy_pipe_affect::Effect>::MutParam;");
            proof {
                assert(mut_param@ =~= mut_param_type_text(data@)->Ok_0);
            }
            Ok(mut_param)
        },
        Err(error) => Err(error),
    }
}

} // verus!
