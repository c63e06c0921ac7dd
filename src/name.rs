//! Extraction of the architecture name from a device property buffer.
use vstd::prelude::*;

use crate::status::{check, check_spec, Status};

verus! {

/// No byte of `s` is the NUL terminator.
pub open spec fn nul_free(s: Seq<u8>) -> bool {
    forall|i: int| 0 <= i < s.len() ==> #[trigger] s[i] != 0u8
}

/// `buf` holds a NUL terminator somewhere.
pub open spec fn has_terminator(buf: Seq<u8>) -> bool {
    exists|i: int| 0 <= i < buf.len() && #[trigger] buf[i] == 0u8
}

/// `name` is what precedes the first NUL terminator of `buf`.
pub open spec fn is_name_of(name: Seq<u8>, buf: Seq<u8>) -> bool {
    &&& name.len() < buf.len()
    &&& buf[name.len() as int] == 0u8
    &&& name == buf.take(name.len() as int)
    &&& nul_free(name)
}

/// Reads the architecture name out of a fixed-size property buffer: the bytes
/// before the first NUL. A buffer without a terminator is malformed and gives
/// `Unknown` rather than a truncated name.
pub fn name_from_buffer(buf: &[u8]) -> (r: Result<Vec<u8>, Status>)
    ensures
        r is Ok <==> has_terminator(buf@),
        r matches Ok(n) ==> is_name_of(n@, buf@),
        r matches Err(e) ==> e == Status::Unknown,
{
    let mut name: Vec<u8> = Vec::new();
    let mut i: usize = 0;
    while i < buf.len()
        invariant
            i <= buf@.len(),
            name@ == buf@.take(i as int),
            nul_free(name@),
        decreases buf@.len() - i,
    {
        let b = buf[i];
        if b == 0u8 {
            proof {
                assert(buf@[i as int] == 0u8);
            }
            return Ok(name);
        }
        name.push(b);
        i = i + 1;
        proof {
            assert(name@ =~= buf@.take(i as int));
        }
    }
    proof {
        assert forall|j: int| 0 <= j < buf@.len() implies buf@[j] != 0u8 by {
            assert(buf@.take(i as int)[j] == buf@[j]);
        }
    }
    Err(Status::Unknown)
}

/// The property query of one device: its native result code and the property
/// buffer it filled. The query's own failure comes first; a malformed buffer
/// after that.
pub fn device_name(code: u32, buf: &[u8]) -> (r: Result<Vec<u8>, Status>)
    ensures
        check_spec(code) matches Err(e) ==> r == Err::<Vec<u8>, Status>(e),
        check_spec(code) is Ok ==> (r is Ok <==> has_terminator(buf@)),
        check_spec(code) is Ok && !has_terminator(buf@) ==> r == Err::<Vec<u8>, Status>(
            Status::Unknown,
        ),
        r matches Ok(n) ==> is_name_of(n@, buf@),
{
    match check(code) {
        Err(e) => Err(e),
        Ok(()) => name_from_buffer(buf),
    }
}

} // verus!
