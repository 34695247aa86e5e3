//! What this crate relies on of `bytes::Bytes`.

use bytes::Bytes;
use std::ops::Deref;
use vstd::prelude::*;

verus! {

/// `bytes::Bytes`, an immutable string of bytes. Its fields stay hidden.
#[verifier::external_type_specification]
#[verifier::external_body]
pub struct ExBytes(bytes::Bytes);

/// The bytes that a `Bytes` holds.
pub uninterp spec fn bytes_content(b: Bytes) -> Seq<u8>;

/// `Bytes::new` gives a value that holds no bytes.
pub assume_specification[ Bytes::new ]() -> (res: Bytes)
    ensures
        bytes_content(res) == Seq::<u8>::empty(),
;

/// `Bytes::copy_from_slice` gives a value that holds the bytes of `data`, in order.
pub assume_specification[ Bytes::copy_from_slice ](data: &[u8]) -> (res: Bytes)
    ensures
        bytes_content(res) == data@,
;

/// `Bytes::deref` lends out the bytes that the value holds, in order.
#[verifier::external_body]
pub(crate) fn bytes_as_slice(b: &Bytes) -> (res: &[u8])
    ensures
        res@ == bytes_content(*b),
{
    b.deref()
}

} // verus!
