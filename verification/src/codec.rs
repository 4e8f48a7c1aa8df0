use crate::errors::Error;
use vstd::prelude::*;

verus! {

/// The position-wise XOR of `data` with `key`: the pad transform on
/// sequences of bytes. Meaningful when both have the same length.
pub open spec fn xor_seq(key: Seq<u8>, data: Seq<u8>) -> Seq<u8> {
    Seq::new(data.len(), |i: int| data[i] ^ key[i])
}

/// What `pad` returns: the XOR combination on equal lengths, a
/// `LengthMismatch` carrying both lengths otherwise.
pub open spec fn pad_spec(key: Seq<u8>, data: Seq<u8>) -> Result<Seq<u8>, Error> {
    if key.len() == data.len() {
        Ok(xor_seq(key, data))
    } else {
        Err(Error::LengthMismatch { expected: data.len() as usize, actual: key.len() as usize })
    }
}

/// Lifts an executable codec result to its mathematical counterpart.
pub open spec fn codec_result_view(r: Result<Vec<u8>, Error>) -> Result<Seq<u8>, Error> {
    match r {
        Ok(v) => Ok(v@),
        Err(e) => Err(e),
    }
}

/// The pad transform: XOR each byte of `data` with the byte of `key` at the
/// same position. Self-inverse: applying it twice with the same key gives
/// `data` back. Fails with `LengthMismatch` if and only if the lengths
/// differ.
pub fn pad(key: &[u8], data: &[u8]) -> (r: Result<Vec<u8>, Error>)
    ensures
        codec_result_view(r) == pad_spec(key@, data@),
{
    if key.len() != data.len() {
        return Err(Error::LengthMismatch { expected: data.len(), actual: key.len() });
    }
    let mut out: Vec<u8> = Vec::new();
    let mut i: usize = 0;
    while i < key.len()
        invariant
            i <= key@.len(),
            key@.len() == data@.len(),
            out@ == xor_seq(key@, data@).take(i as int),
        decreases key@.len() - i,
    {
        out.push(data[i] ^ key[i]);
        assert(out@ =~= xor_seq(key@, data@).take(i + 1));
        i = i + 1;
    }
    assert(out@ =~= xor_seq(key@, data@));
    Ok(out)
}

/// The length law: the pad fails, and fails with `LengthMismatch` carrying
/// both lengths, exactly when key and data lengths differ.
pub proof fn lemma_pad_length_mismatch(key: Seq<u8>, data: Seq<u8>)
    ensures
        pad_spec(key, data) is Err <==> key.len() != data.len(),
        key.len() != data.len() ==> pad_spec(key, data) == Err::<Seq<u8>, Error>(
            Error::LengthMismatch { expected: data.len() as usize, actual: key.len() as usize },
        ),
{
}

/// The involution law: for equal-length key and data, applying the pad
/// twice with the same key returns the data unchanged.
pub proof fn lemma_pad_involution(key: Seq<u8>, data: Seq<u8>)
    requires
        key.len() == data.len(),
    ensures
        pad_spec(key, data) == Ok::<Seq<u8>, Error>(xor_seq(key, data)),
        pad_spec(key, xor_seq(key, data)) == Ok::<Seq<u8>, Error>(data),
{
    assert forall|i: int| 0 <= i < data.len() implies xor_seq(key, xor_seq(key, data))[i]
        == data[i] by {
        let k = key[i];
        let d = data[i];
        assert((d ^ k) ^ k == d) by (bit_vector);
    }
    assert(xor_seq(key, xor_seq(key, data)) =~= data);
}

} // verus!
