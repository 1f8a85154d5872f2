use vstd::prelude::*;

verus! {

/// The CRC-16/IBM-3740 checksum of a run of bytes.
pub uninterp spec fn spec_crc16_ibm_3740(data: Seq<u8>) -> u16;

/// `Crc::<u16>::checksum` of the crc crate, with the algorithm
/// `CRC_16_IBM_3740`: the checksum depends on the bytes alone and is named by
/// `spec_crc16_ibm_3740`.
#[verifier::external_body]
pub(crate) fn crc16_ibm_3740(data: &[u8]) -> (checksum: u16)
    ensures
        checksum == spec_crc16_ibm_3740(data@),
{
    crc::Crc::<u16>::new(&crc::CRC_16_IBM_3740).checksum(data)
}

} // verus!
