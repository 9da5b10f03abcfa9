use vstd::prelude::*;
use crate::err::Error;

verus! {

/// What a registry lookup means for a request: `Ok(true)` when the name is
/// new and must be registered with the expected signatures, `Ok(false)` when
/// the stored signatures are the expected ones, and `TypeMismatch` carrying
/// both pairs when either differs.
pub fn check_signatures(
    stored: Option<(String, String)>,
    expected_key: String,
    expected_value: String,
) -> (r: Result<bool, Error>)
    ensures
        stored is None ==> r is Ok && r->Ok_0,
        stored is Some ==> ({
            let (got_key, got_value) = stored->Some_0;
            &&& got_key@ == expected_key@ && got_value@ == expected_value@ ==> r is Ok
                && !r->Ok_0
            &&& !(got_key@ == expected_key@ && got_value@ == expected_value@) ==> r is Err
                && r->Err_0 is TypeMismatch && r->Err_0->expected_key@ == expected_key@
                && r->Err_0->expected_value@ == expected_value@ && r->Err_0->got_key@
                == got_key@ && r->Err_0->got_value@ == got_value@
        }),
{
    match stored {
        None => Ok(true),
        Some((got_key, got_value)) => {
            if got_key == expected_key && got_value == expected_value {
                Ok(false)
            } else {
                Err(
                    Error::TypeMismatch {
                        expected_key,
                        expected_value,
                        got_key,
                        got_value,
                    },
                )
            }
        },
    }
}

} // verus!
