use vstd::prelude::*;

verus! {

/// The bytes at even positions of `content`: the first, the third, and so on.
pub open spec fn even_positions(content: Seq<u8>) -> Seq<u8> {
    Seq::new(((content.len() + 1) / 2) as nat, |i: int| content[2 * i])
}

/// What goes into the pipe is half the file, rounded up, and its byte `k` is the file's byte
/// at position `2k`, whatever its value.
pub proof fn lemma_even_positions_copy_bytes(content: Seq<u8>)
    ensures
        2 * even_positions(content).len() == content.len() || 2 * even_positions(content).len()
            == content.len() + 1,
        forall|k: int|
            0 <= k < even_positions(content).len() ==> #[trigger] even_positions(content)[k]
                == content[2 * k],
        forall|i: int|
            0 <= i < content.len() && i % 2 == 0 ==> even_positions(content)[i / 2] == #[trigger] content[i],
{
    assert forall|i: int| 0 <= i < content.len() && i % 2 == 0 implies even_positions(content)[i / 2]
        == #[trigger] content[i] by {
        assert(2 * (i / 2) == i);
    }
}

/// The bytes that are written into the pipe: every second byte of the file, from the
/// first on.
pub fn every_second_byte(content: &Vec<u8>) -> (sent: Vec<u8>)
    ensures
        sent@ == even_positions(content@),
{
    let mut sent: Vec<u8> = Vec::new();
    for index in 0..content.len()
        invariant
            sent@.len() == (index + 1) / 2,
            forall|k: int| 0 <= k < sent@.len() ==> #[trigger] sent@[k] == content@[2 * k],
    {
        if index % 2 == 0 {
            sent.push(content[index]);
        }
    }
    assert(sent@ =~= even_positions(content@));
    sent
}

} // verus!
