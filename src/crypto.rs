use vstd::prelude::*;

use aes::cipher::{KeyIvInit, StreamCipher};

verus! {

/// The value of a hexadecimal digit of either case, if `c` is one.
pub open spec fn hex_value(c: char) -> Option<u8> {
    if '0' <= c && c <= '9' {
        Some((c as u32 - '0' as u32) as u8)
    } else if 'a' <= c && c <= 'f' {
        Some((c as u32 - 'a' as u32 + 10) as u8)
    } else if 'A' <= c && c <= 'F' {
        Some((c as u32 - 'A' as u32 + 10) as u8)
    } else {
        None
    }
}

/// Whether `s` is an even number of hexadecimal digits.
pub open spec fn is_hex(s: Seq<char>) -> bool {
    s.len() % 2 == 0 && forall|i: int| 0 <= i < s.len() ==> (#[trigger] hex_value(s[i])) is Some
}

/// The bytes that an even run of hexadecimal digits spells, two digits a byte, high digit first.
pub open spec fn hex_bytes(s: Seq<char>) -> Seq<u8> {
    Seq::new(
        s.len() / 2,
        |i: int| (hex_value(s[2 * i])->Some_0 * 16 + hex_value(s[2 * i + 1])->Some_0) as u8,
    )
}

#[verifier::external_type_specification]
#[verifier::external_body]
pub struct ExFromHexError(hex::FromHexError);

/// Relies on `hex::decode`: it accepts exactly an even number of hexadecimal
/// digits of either case and returns the bytes they spell.
#[verifier::external_body]
fn hex_decode(s: &str) -> (r: Result<Vec<u8>, hex::FromHexError>)
    ensures
        r is Ok <==> is_hex(s@),
        r is Ok ==> r->Ok_0@ == hex_bytes(s@),
{
    hex::decode(s)
}

/// The byte at position `i` of the AES-128 keystream in counter mode with a
/// 128-bit big-endian counter that starts at `iv`.
pub uninterp spec fn aes128_ctr_keystream(key: Seq<u8>, iv: Seq<u8>, i: int) -> u8;

/// The buffer with each byte XORed with the keystream byte at its position.
pub open spec fn keystream_applied(data: Seq<u8>, key: Seq<u8>, iv: Seq<u8>) -> Seq<u8> {
    Seq::new(data.len(), |i: int| data[i] ^ aes128_ctr_keystream(key, iv, i))
}

/// Relies on `ctr::Ctr128BE::<aes::Aes128>` and `StreamCipher::apply_keystream`:
/// the keystream is XORed into the buffer in place. With a 128-bit counter the
/// keystream does not run out for any buffer that fits in memory.
#[verifier::external_body]
fn apply_aes128_ctr(key: &[u8; 16], iv: &[u8; 16], buf: &mut Vec<u8>)
    ensures
        final(buf)@.len() == old(buf)@.len(),
        forall|i: int|
            0 <= i < old(buf)@.len() ==> #[trigger] final(buf)@[i] == old(buf)@[i]
                ^ aes128_ctr_keystream(key@, iv@, i),
{
    let mut cipher = ctr::Ctr128BE::<aes::Aes128>::new(key.into(), iv.into());
    cipher.apply_keystream(buf.as_mut_slice());
}

/// Why a buffer could not be decrypted.
#[derive(Debug, Clone, Copy, PartialEq, Eq, Structural)]
pub enum DecryptError {
    /// The key is not an even number of hexadecimal digits.
    InvalidHex,
    /// The key does not decode to 16 bytes.
    WrongKeyLength,
}

/// The counter block that decryption starts from: all zeros.
pub open spec fn zero_iv() -> Seq<u8> {
    Seq::new(16, |i: int| 0u8)
}

/// Whether `key_hex` is a usable key: 32 hexadecimal digits.
pub open spec fn valid_key(key_hex: Seq<char>) -> bool {
    is_hex(key_hex) && key_hex.len() == 32
}

/// Decrypts the buffer in place with AES-128 in counter mode, the key given
/// in hexadecimal and the counter starting at zero. The buffer is unchanged
/// when the key is not 16 bytes in hexadecimal.
pub fn decrypt_buff(buff: &mut Vec<u8>, key_hex: &str) -> (r: Result<(), DecryptError>)
    ensures
        r is Ok <==> valid_key(key_hex@),
        r == Err::<(), DecryptError>(DecryptError::InvalidHex) <==> !is_hex(key_hex@),
        r is Ok ==> final(buff)@ == keystream_applied(
            old(buff)@,
            hex_bytes(key_hex@),
            zero_iv(),
        ),
        r is Err ==> final(buff)@ == old(buff)@,
{
    let key_vec = match hex_decode(key_hex) {
        Ok(v) => v,
        Err(_) => {
            return Err(DecryptError::InvalidHex);
        },
    };
    if key_vec.len() != 16 {
        return Err(DecryptError::WrongKeyLength);
    }
    let mut key = [0u8; 16];
    let mut i: usize = 0;
    while i < 16
        invariant
            key_vec@.len() == 16,
            i <= 16,
            forall|j: int| 0 <= j < i ==> key@[j] == key_vec@[j],
        decreases 16 - i,
    {
        key.set(i, key_vec[i]);
        i = i + 1;
    }
    assert(key@ =~= key_vec@);
    let iv = [0u8; 16];
    assert(iv@ =~= zero_iv());
    apply_aes128_ctr(&key, &iv, buff);
    assert(buff@ =~= keystream_applied(old(buff)@, key@, iv@));
    Ok(())
}

/// Applying the keystream twice with the same key and counter gives back the
/// original bytes, for a buffer of any length.
pub proof fn lemma_keystream_self_inverse(data: Seq<u8>, key: Seq<u8>, iv: Seq<u8>)
    ensures
        keystream_applied(keystream_applied(data, key, iv), key, iv) == data,
{
    let once = keystream_applied(data, key, iv);
    let twice = keystream_applied(once, key, iv);
    assert forall|i: int| 0 <= i < data.len() implies twice[i] == data[i] by {
        let k = aes128_ctr_keystream(key, iv, i);
        let x = data[i];
        assert(x ^ k ^ k == x) by (bit_vector);
    }
    assert(twice =~= data);
}

} // verus!
