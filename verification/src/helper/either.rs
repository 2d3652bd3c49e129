//! The two-way choice of the host binding.

use vstd::prelude::*;

verus! {

/// `napi_ohos::Either`, the binding's value that is one of two types. Verus
/// reads its two variants, `A` and `B`, from the binding's own definition.
#[verifier::external_type_specification]
#[verifier::reject_recursive_types(A)]
#[verifier::reject_recursive_types(B)]
pub struct ExEither<A, B>(napi_ohos::Either<A, B>);

} // verus!
