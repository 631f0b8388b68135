use vstd::prelude::*;
use vstd::string::{StrSliceExecFns, StringSliceAdditionalSpecFns};

verus! {

/// The size of the path field of a Unix socket address (`sun_path`).
pub const SUN_PATH_LEN: usize = 108;

/// The path field filled from `bytes`: each byte read as a C `char`, then zeros.
pub open spec fn sun_path_of(bytes: Seq<u8>) -> Seq<i8> {
    Seq::new(108, |i: int| if i < bytes.len() { bytes[i] as i8 } else { 0i8 })
}

/// The path field holds each byte of the path, byte for byte, then zeros to its end.
pub proof fn lemma_sun_path_copies_bytes(bytes: Seq<u8>)
    requires
        bytes.len() <= SUN_PATH_LEN,
    ensures
        sun_path_of(bytes).len() == SUN_PATH_LEN,
        forall|i: int| 0 <= i < bytes.len() ==> #[trigger] sun_path_of(bytes)[i] as u8 == bytes[i],
        forall|i: int| bytes.len() <= i < SUN_PATH_LEN ==> #[trigger] sun_path_of(bytes)[i] == 0i8,
{
    assert forall|i: int| 0 <= i < bytes.len() implies #[trigger] sun_path_of(bytes)[i] as u8
        == bytes[i] by {
        let b = bytes[i];
        assert((b as i8) as u8 == b) by (bit_vector);
    }
}

/// A path shorter than the field keeps a terminating zero after its bytes, so that the field,
/// read as a C string, gives the path's bytes back when they hold no zero byte.
pub proof fn lemma_sun_path_terminated(bytes: Seq<u8>)
    requires
        bytes.len() < SUN_PATH_LEN,
    ensures
        sun_path_of(bytes)[bytes.len() as int] == 0i8,
        forall|i: int|
            0 <= i < bytes.len() ==> (#[trigger] sun_path_of(bytes)[i] == 0i8 <==> bytes[i] == 0u8),
{
    assert forall|i: int| 0 <= i < bytes.len() implies (#[trigger] sun_path_of(bytes)[i] == 0i8
        <==> bytes[i] == 0u8) by {
        let b = bytes[i];
        assert((b as i8 == 0i8) <==> (b == 0u8)) by (bit_vector);
    }
}

/// The bytes of a socket path as C reads it: its UTF-8 encoding, without the
/// terminating zero. A path that holds a NUL char has no such form.
pub fn path_to_c(path: &str) -> (bytes: Vec<u8>)
    requires
        !path@.contains('\0'),
    ensures
        bytes@ == path.spec_bytes(),
{
    path.as_bytes_vec()
}

/// Copies the bytes of a socket path into the path field of a socket address.
pub fn vec_to_array(vector: &Vec<u8>) -> (array: [i8; 108])
    requires
        vector.len() <= SUN_PATH_LEN,
    ensures
        array@ == sun_path_of(vector@),
{
    let mut array = [0i8; 108];
    for counter in 0..vector.len()
        invariant
            vector.len() <= 108,
            forall|k: int| 0 <= k < counter ==> #[trigger] array@[k] == vector@[k] as i8,
            forall|k: int| counter <= k < 108 ==> #[trigger] array@[k] == 0i8,
    {
        array[counter] = vector[counter] as i8;
    }
    assert(array@ =~= sun_path_of(vector@));
    array
}

} // verus!
