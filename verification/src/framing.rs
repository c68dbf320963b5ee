//! Sizes of the blocks on the wire, derived from the modulus and the encoding.
//!
//! No block carries a length prefix: both ends compute the sizes from the key
//! size they share.

use vstd::prelude::*;

verus! {

/// Modulus size, in bits, of the keys that a deployment uses.
pub const KEY_BITS: usize = 2048;

/// Smallest modulus, in bits, that the library works with.
pub const MIN_KEY_BITS: usize = 512;

/// Largest modulus, in bits, that the library works with.
pub const MAX_KEY_BITS: usize = 4096;

/// Bytes that the padding takes out of every block.
pub const PADDING_OVERHEAD: usize = 11;

/// Bit length of the public exponent of generated keys (65537).
pub const PUBLIC_EXPONENT_BITS: usize = 17;

/// Seconds between two heartbeat rounds.
pub const HEARTBEAT_PERIOD_SECS: u64 = 5;

/// Encoded length of the algorithm identifier that precedes the key proper.
pub const ALGORITHM_ID_LEN: usize = 15;

/// Length of the line that opens a textual key block, its line break included.
pub const ARMOR_HEADER_LEN: usize = 27;

/// Length of the line that closes a textual key block, its line break included.
pub const ARMOR_FOOTER_LEN: usize = 25;

/// Characters of payload on one line of a textual key block.
pub const ARMOR_LINE_WIDTH: usize = 64;

/// Whether the library works with a modulus of `bits` bits.
pub open spec fn key_bits_supported(bits: nat) -> bool {
    MIN_KEY_BITS <= bits <= MAX_KEY_BITS
}

/// Bytes needed to hold a modulus of `bits` bits: the length of every
/// ciphertext block.
pub open spec fn modulus_bytes_spec(bits: nat) -> nat {
    (bits + 7) / 8
}

/// Whether a plaintext of `len` bytes fits in one block under a modulus of
/// `modulus_bytes` bytes.
pub open spec fn plaintext_fits(len: nat, modulus_bytes: nat) -> bool {
    len + PADDING_OVERHEAD <= modulus_bytes
}

/// Octets of the length field in front of `content` bytes of a binary element.
pub open spec fn length_octets_spec(content: nat) -> nat {
    if content < 0x80 {
        1
    } else if content < 0x100 {
        2
    } else if content < 0x1_0000 {
        3
    } else if content < 0x100_0000 {
        4
    } else {
        5
    }
}

/// Encoded length of an element with `content` bytes: tag, length field, content.
pub open spec fn element_len_spec(content: nat) -> nat {
    1 + length_octets_spec(content) + content
}

/// Encoded length of a positive integer of `bits` bits. The content has one
/// byte more than `bits / 8`: the sign bit has to stay clear.
pub open spec fn integer_len_spec(bits: nat) -> nat {
    element_len_spec(bits / 8 + 1)
}

/// Length of the binary encoding of a public key: the algorithm identifier and,
/// in a bit string with one leading byte, the pair of modulus and exponent.
pub open spec fn binary_key_len_spec(modulus_bits: nat, exponent_bits: nat) -> nat {
    let pair = element_len_spec(integer_len_spec(modulus_bits) + integer_len_spec(exponent_bits));
    let bit_string = element_len_spec(1 + pair);
    element_len_spec(ALGORITHM_ID_LEN as nat + bit_string)
}

/// Characters that `len` bytes take in base64, padding included.
pub open spec fn base64_len_spec(len: nat) -> nat {
    4 * ((len + 2) / 3)
}

/// Length of the textual encoding of `len` bytes: header line, base64 payload
/// broken into lines of `ARMOR_LINE_WIDTH` characters, footer line.
pub open spec fn armored_len_spec(len: nat) -> nat {
    let payload = base64_len_spec(len);
    let lines = (payload + ARMOR_LINE_WIDTH - 1) / (ARMOR_LINE_WIDTH as int);
    (ARMOR_HEADER_LEN + payload + lines + ARMOR_FOOTER_LEN) as nat
}

/// Length of the textual public-key block of a key with a modulus of `bits` bits
/// and the usual public exponent.
pub open spec fn key_block_len_spec(bits: nat) -> nat {
    armored_len_spec(binary_key_len_spec(bits, PUBLIC_EXPONENT_BITS as nat))
}

/// Bytes needed to hold a modulus of `bits` bits.
pub fn modulus_bytes(bits: usize) -> (r: usize)
    ensures
        r == modulus_bytes_spec(bits as nat),
{
    if bits % 8 == 0 {
        bits / 8
    } else {
        bits / 8 + 1
    }
}

/// Longest plaintext that fits in one block, or `None` where the modulus is too
/// short to hold even the padding.
pub fn max_plaintext_len(modulus_bytes: usize) -> (r: Option<usize>)
    ensures
        r is Some <==> plaintext_fits(0, modulus_bytes as nat),
        r matches Some(m) ==> forall|len: nat|
            plaintext_fits(len, modulus_bytes as nat) <==> len <= m,
{
    if modulus_bytes >= PADDING_OVERHEAD {
        Some(modulus_bytes - PADDING_OVERHEAD)
    } else {
        None
    }
}

/// Octets of the length field in front of `content` bytes.
pub fn length_octets(content: usize) -> (r: usize)
    ensures
        r == length_octets_spec(content as nat),
        1 <= r <= 5,
{
    if content < 0x80 {
        1
    } else if content < 0x100 {
        2
    } else if content < 0x1_0000 {
        3
    } else if content < 0x100_0000 {
        4
    } else {
        5
    }
}

/// Encoded length of an element with `content` bytes.
pub fn element_len(content: usize) -> (r: usize)
    requires
        content <= 0x10_0000,
    ensures
        r == element_len_spec(content as nat),
        content < r <= content + 6,
{
    1 + length_octets(content) + content
}

/// Length of the binary encoding of a public key whose modulus has
/// `modulus_bits` bits and whose exponent has `exponent_bits` bits.
pub fn binary_key_len(modulus_bits: usize, exponent_bits: usize) -> (r: usize)
    requires
        modulus_bits <= 0x1_0000,
        exponent_bits <= 0x1_0000,
    ensures
        r == binary_key_len_spec(modulus_bits as nat, exponent_bits as nat),
        r <= 0x1_0000,
{
    let modulus: usize = element_len(modulus_bits / 8 + 1);
    let exponent: usize = element_len(exponent_bits / 8 + 1);
    let pair: usize = element_len(modulus + exponent);
    let bit_string: usize = element_len(1 + pair);
    element_len(ALGORITHM_ID_LEN + bit_string)
}

/// Length of the textual encoding of `len` bytes.
pub fn armored_len(len: usize) -> (r: usize)
    requires
        len <= 0x1_0000,
    ensures
        r == armored_len_spec(len as nat),
        r <= 0x2_0000,
{
    let payload: usize = 4 * ((len + 2) / 3);
    let lines: usize = (payload + ARMOR_LINE_WIDTH - 1) / ARMOR_LINE_WIDTH;
    ARMOR_HEADER_LEN + payload + lines + ARMOR_FOOTER_LEN
}

/// Length of the textual public-key block that both ends write and read during
/// the key exchange, or `None` where the library does not work with this key size.
pub fn key_block_len(bits: usize) -> (r: Option<usize>)
    ensures
        r is Some <==> key_bits_supported(bits as nat),
        r matches Some(n) ==> n == key_block_len_spec(bits as nat),
{
    if bits < MIN_KEY_BITS || bits > MAX_KEY_BITS {
        None
    } else {
        Some(armored_len(binary_key_len(bits, PUBLIC_EXPONENT_BITS)))
    }
}

/// With the deployment's key size a key block has 451 bytes and a ciphertext
/// block 256, of which 245 can be plaintext.
pub proof fn lemma_deployment_sizes()
    ensures
        key_bits_supported(KEY_BITS as nat),
        key_block_len_spec(KEY_BITS as nat) == 451,
        modulus_bytes_spec(KEY_BITS as nat) == 256,
        forall|len: nat| plaintext_fits(len, modulus_bytes_spec(KEY_BITS as nat)) <==> len <= 245,
{
}

} // verus!
