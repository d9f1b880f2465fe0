// Fresh random identifiers for the names of new VMs.
use vstd::prelude::*;

verus! {

/// A lower-case hexadecimal digit.
pub open spec fn is_lower_hex(c: char) -> bool {
    ('0' <= c && c <= '9') || ('a' <= c && c <= 'f')
}

/// `uuid::Uuid::new_v4().simple()` written out: the simple form of a fresh random
/// version-4 UUID, which the uuid crate writes as 32 lower-case hexadecimal digits.
/// Which digits come out is left open.
#[verifier::external_body]
pub(crate) fn fresh_vm_id() -> (r: String)
    ensures
        r@.len() == 32,
        forall|i: int| 0 <= i < 32 ==> is_lower_hex(#[trigger] r@[i]),
{
    uuid::Uuid::new_v4().simple().to_string()
}

} // verus!
