use vstd::prelude::*;

use crate::error::{CoreError, CoreResult};

verus! {

/// A step-power exponent is usable when it lies in `1..=i32::MAX`, so that
/// it converts losslessly to the signed power of `powi`.
pub fn validate_exponent(exponent: u32) -> (result: CoreResult<()>)
    ensures
        result is Ok <==> (1 <= exponent && exponent <= i32::MAX),
        result matches Err(CoreError::InvalidInput(message)) ==> message@
            == "homotopy policy exponent must lie in 1..=i32::MAX"@,
        result matches Err(error) ==> error is InvalidInput,
{
    if exponent == 0 || exponent > 2147483647u32 {
        return Err(
            CoreError::InvalidInput("homotopy policy exponent must lie in 1..=i32::MAX".to_owned()),
        );
    }
    Ok(())
}

} // verus!
