use vstd::prelude::*;
use crate::error::Error;

verus! {

/// Reads a 64-bit integer from the first eight bytes of a buffer,
/// least-significant byte first.
pub fn read_integer(data: &[u8]) -> (r: u64)
    requires
        data@.len() >= 8,
    ensures
        r == vstd::bytes::spec_u64_from_le_bytes(data@.take(8)),
{
    let prefix: &[u8] = &data[0..8];
    proof {
        assert(prefix@ =~= data@.take(8));
    }
    vstd::bytes::u64_from_le_bytes(prefix)
}

/// Accepts exactly the 32-byte buffers, returned as an owned copy.
pub fn to_bytes32_slice(barry: &[u8]) -> (r: Result<Vec<u8>, Error>)
    ensures
        barry@.len() == 32 <==> r is Ok,
        r matches Ok(v) ==> v@ == barry@,
        r is Err ==> r == Result::<Vec<u8>, Error>::Err(Error::ParseError),
{
    if barry.len() != 32 {
        return Err(Error::ParseError);
    }
    let mut v: Vec<u8> = Vec::new();
    let mut i: usize = 0;
    while i < 32
        invariant
            i <= 32,
            barry@.len() == 32,
            v@ =~= barry@.take(i as int),
        decreases 32 - i,
    {
        v.push(barry[i]);
        i = i + 1;
    }
    proof {
        assert(v@ =~= barry@);
    }
    Ok(v)
}

} // verus!
