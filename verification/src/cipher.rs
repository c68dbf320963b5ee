//! Keys, and the sealing and opening of single blocks.
//!
//! The key material is held as plain bytes. The arithmetic on it is the `rsa`
//! crate's; what this module believes of that crate is written on the private
//! functions at the end of the file.

use crate::error::{KeyGenerationError, ProtocolError};
use crate::framing::{
    key_bits_supported, modulus_bytes, modulus_bytes_spec, plaintext_fits, MAX_KEY_BITS,
    MIN_KEY_BITS,
    PADDING_OVERHEAD,
};
use rand::rngs::OsRng;
use rsa::pkcs8::{DecodePrivateKey, DecodePublicKey, EncodePrivateKey, EncodePublicKey, LineEnding};
use rsa::traits::PublicKeyParts;
use rsa::{BigUint, Pkcs1v15Encrypt, RsaPrivateKey, RsaPublicKey};
use vstd::prelude::*;

verus! {

/// Most bytes that the modulus of an accepted public key has.
pub const MAX_MODULUS_BYTES: usize = 512;

/// The modulus and exponent that a textual key block stands for, both big-endian
/// without leading zero bytes, or `None` where the block is no public key.
pub uninterp spec fn decoded_key_block(block: Seq<u8>) -> Option<(Seq<u8>, Seq<u8>)>;

/// The textual key block of the public key with this modulus and exponent, or
/// `None` where the two make no usable key.
pub uninterp spec fn encoded_key_block(modulus: Seq<u8>, exponent: Seq<u8>) -> Option<Seq<u8>>;

/// The plaintext that a ciphertext block holds for the owner of a private key,
/// or `None` where the block or its padding is not valid under that key.
pub uninterp spec fn decrypted_block(private_key: Seq<u8>, block: Seq<u8>) -> Option<Seq<u8>>;

/// A public key: the peer's, or the public half of the local pair.
#[derive(Clone, Debug)]
pub struct PublicKey {
    /// The modulus, big-endian.
    pub modulus: Vec<u8>,
    /// The public exponent, big-endian.
    pub exponent: Vec<u8>,
}

/// The key pair of the process. It is made once and only read afterwards, so
/// every connection can share it.
#[derive(Debug)]
pub struct KeyPair {
    /// Size of the modulus in bits.
    pub bits: usize,
    /// The private key in its binary encoding.
    pub private_key: Vec<u8>,
    /// The public key that the peers get.
    pub public_key: PublicKey,
}

impl PublicKey {
    /// The modulus has no leading zero byte, so its length is the length of
    /// every block sealed under this key.
    pub open spec fn wf(&self) -> bool {
        &&& 0 < self.modulus@.len() <= MAX_MODULUS_BYTES
        &&& self.modulus@[0] != 0
    }

    /// Length of the modulus, and of every ciphertext block, in bytes.
    pub open spec fn block_len(&self) -> nat {
        self.modulus@.len()
    }

    /// Length of the modulus, and of every ciphertext block, in bytes.
    pub fn modulus_bytes(&self) -> (r: usize)
        ensures
            r == self.block_len(),
    {
        self.modulus.len()
    }

    /// Whether the key is well formed.
    pub fn is_valid(&self) -> (r: bool)
        ensures
            r == self.wf(),
    {
        0 < self.modulus.len() && self.modulus.len() <= MAX_MODULUS_BYTES && self.modulus[0] != 0
    }

    /// Reads a public key from the textual block that a peer sent.
    pub fn from_block(block: &Vec<u8>) -> (r: Result<PublicKey, ProtocolError>)
        ensures
            match decoded_key_block(block@) {
                Some((modulus, exponent)) => r matches Ok(key) && key.wf() && key.modulus@
                    == modulus && key.exponent@ == exponent,
                None => r == Err::<PublicKey, ProtocolError>(ProtocolError::MalformedKey),
            },
    {
        match decode_key_block(block) {
            Some((modulus, exponent)) => Ok(PublicKey { modulus, exponent }),
            None => Err(ProtocolError::MalformedKey),
        }
    }

    /// Writes the key as the textual block that the peer expects.
    pub fn to_block(&self) -> (r: Result<Vec<u8>, ProtocolError>)
        ensures
            match encoded_key_block(self.modulus@, self.exponent@) {
                Some(block) => r matches Ok(bytes) && bytes@ == block,
                None => r == Err::<Vec<u8>, ProtocolError>(ProtocolError::MalformedKey),
            },
    {
        match encode_key_block(&self.modulus, &self.exponent) {
            Some(block) => Ok(block),
            None => Err(ProtocolError::MalformedKey),
        }
    }
}

impl KeyPair {
    /// The modulus of the public key has exactly `bits` bits' worth of bytes.
    pub open spec fn wf(&self) -> bool {
        &&& key_bits_supported(self.bits as nat)
        &&& self.public_key.wf()
        &&& self.public_key.block_len() == modulus_bytes_spec(self.bits as nat)
    }

    /// Whether the pair is well formed.
    pub fn is_valid(&self) -> (r: bool)
        ensures
            r == self.wf(),
    {
        MIN_KEY_BITS <= self.bits && self.bits <= MAX_KEY_BITS && self.public_key.is_valid()
            && self.public_key.modulus_bytes() == modulus_bytes(self.bits)
    }

    /// Makes a fresh key pair with a modulus of `bits` bits. Fails where the
    /// library does not work with that size, and where the generator fails.
    pub fn generate(bits: usize) -> (r: Result<KeyPair, KeyGenerationError>)
        ensures
            !key_bits_supported(bits as nat) ==> r is Err,
            r matches Ok(pair) ==> pair.wf() && pair.bits == bits,
    {
        if bits < MIN_KEY_BITS || bits > MAX_KEY_BITS {
            return Err(KeyGenerationError {});
        }
        KeyPair::from_generated(bits, generate_key(bits))
    }

    /// Makes the pair out of what the generator gave for `bits` bits.
    pub fn from_generated(bits: usize, generated: Option<(Vec<u8>, Vec<u8>, Vec<u8>)>) -> (r:
        Result<KeyPair, KeyGenerationError>)
        requires
            key_bits_supported(bits as nat),
            generated matches Some((_, modulus, _)) ==> modulus@.len() == modulus_bytes_spec(
                bits as nat,
            ) && modulus@[0] != 0,
        ensures
            match generated {
                Some((private_key, modulus, exponent)) => r matches Ok(pair) && pair.wf()
                    && pair.bits == bits && pair.private_key@ == private_key@
                    && pair.public_key.modulus@ == modulus@ && pair.public_key.exponent@
                    == exponent@,
                None => r is Err,
            },
    {
        match generated {
            Some((private_key, modulus, exponent)) => Ok(
                KeyPair { bits, private_key, public_key: PublicKey { modulus, exponent } },
            ),
            None => Err(KeyGenerationError {}),
        }
    }
}

/// Encrypts `plaintext` for the owner of `peer`. A plaintext that leaves no room
/// for the padding is refused, and then nothing is there to be written. The
/// padding is random: the same plaintext gives another block each time.
pub fn seal(peer: &PublicKey, plaintext: &Vec<u8>) -> (r: Result<Vec<u8>, ProtocolError>)
    requires
        peer.wf(),
    ensures
        !plaintext_fits(plaintext@.len(), peer.block_len()) ==> r == Err::<
            Vec<u8>,
            ProtocolError,
        >(ProtocolError::PlaintextTooLarge),
        plaintext_fits(plaintext@.len(), peer.block_len()) ==> r != Err::<Vec<u8>, ProtocolError>(
            ProtocolError::PlaintextTooLarge,
        ),
        r matches Ok(block) ==> block@.len() == peer.block_len(),
        r matches Err(e) ==> e == ProtocolError::PlaintextTooLarge || e
            == ProtocolError::MalformedKey,
{
    let size: usize = peer.modulus_bytes();
    if size < PADDING_OVERHEAD || plaintext.len() > size - PADDING_OVERHEAD {
        return Err(ProtocolError::PlaintextTooLarge);
    }
    match encrypt_block(&peer.modulus, &peer.exponent, plaintext) {
        Some(block) => Ok(block),
        None => Err(ProtocolError::MalformedKey),
    }
}

/// Decrypts a block with the local private key. Whatever is wrong with the
/// block, the error is the same.
pub fn open(local: &KeyPair, block: &Vec<u8>) -> (r: Result<Vec<u8>, ProtocolError>)
    ensures
        match decrypted_block(local.private_key@, block@) {
            Some(plaintext) => r matches Ok(bytes) && bytes@ == plaintext,
            None => r == Err::<Vec<u8>, ProtocolError>(ProtocolError::Decryption),
        },
{
    match decrypt_block(&local.private_key, block) {
        Some(plaintext) => Ok(plaintext),
        None => Err(ProtocolError::Decryption),
    }
}

/// `DecodePublicKey::from_public_key_pem` of `rsa::RsaPublicKey`, then
/// `BigUint::to_bytes_be` on both parts. The result depends on the block alone.
/// A key that is accepted has an odd modulus of at most 4096 bits, so the bytes
/// of the modulus are at most 512 and start with a byte that is not zero.
#[verifier::external_body]
fn decode_key_block(block: &Vec<u8>) -> (r: Option<(Vec<u8>, Vec<u8>)>)
    ensures
        r is Some <==> decoded_key_block(block@) is Some,
        r matches Some((modulus, exponent)) ==> decoded_key_block(block@) == Some(
            (modulus@, exponent@),
        ) && 0 < modulus@.len() <= MAX_MODULUS_BYTES && modulus@[0] != 0,
{
    let text = std::str::from_utf8(block).ok()?;
    let key = RsaPublicKey::from_public_key_pem(text).ok()?;
    Some((key.n().to_bytes_be(), key.e().to_bytes_be()))
}

/// `RsaPublicKey::new` on the two numbers, then
/// `EncodePublicKey::to_public_key_pem` with line feeds. The result depends on
/// the two byte strings alone.
#[verifier::external_body]
fn encode_key_block(modulus: &Vec<u8>, exponent: &Vec<u8>) -> (r: Option<Vec<u8>>)
    ensures
        r is Some <==> encoded_key_block(modulus@, exponent@) is Some,
        r matches Some(block) ==> encoded_key_block(modulus@, exponent@) == Some(block@),
{
    let n = BigUint::from_bytes_be(modulus);
    let e = BigUint::from_bytes_be(exponent);
    let key = RsaPublicKey::new(n, e).ok()?;
    let text = key.to_public_key_pem(LineEnding::LF).ok()?;
    Some(text.into_bytes())
}

/// `RsaPublicKey::encrypt` with `Pkcs1v15Encrypt` and the system's random
/// numbers. It refuses a message longer than the modulus less 11 bytes, and pads
/// every block that it returns to the length of the modulus. Which block comes
/// out depends on the random padding, so nothing more is said of it.
#[verifier::external_body]
fn encrypt_block(modulus: &Vec<u8>, exponent: &Vec<u8>, plaintext: &Vec<u8>) -> (r: Option<
    Vec<u8>,
>)
    requires
        modulus@.len() > 0,
        modulus@[0] != 0,
    ensures
        plaintext@.len() + 11 > modulus@.len() ==> r is None,
        r matches Some(block) ==> block@.len() == modulus@.len(),
{
    let n = BigUint::from_bytes_be(modulus);
    let e = BigUint::from_bytes_be(exponent);
    let key = RsaPublicKey::new(n, e).ok()?;
    key.encrypt(&mut OsRng, Pkcs1v15Encrypt, plaintext).ok()
}

/// `DecodePrivateKey::from_pkcs8_der` of `rsa::RsaPrivateKey`, then
/// `RsaPrivateKey::decrypt` with `Pkcs1v15Encrypt`, which uses no random numbers.
/// The result depends on the key's bytes and the block alone.
#[verifier::external_body]
fn decrypt_block(private_key: &Vec<u8>, block: &Vec<u8>) -> (r: Option<Vec<u8>>)
    ensures
        r is Some <==> decrypted_block(private_key@, block@) is Some,
        r matches Some(plaintext) ==> decrypted_block(private_key@, block@) == Some(plaintext@),
{
    let key = RsaPrivateKey::from_pkcs8_der(private_key).ok()?;
    key.decrypt(Pkcs1v15Encrypt, block).ok()
}

/// `RsaPrivateKey::new` with the system's random numbers, then
/// `EncodePrivateKey::to_pkcs8_der` and `BigUint::to_bytes_be`. The generator
/// only returns a modulus that has exactly the number of bits asked for, so its
/// bytes are as many as those bits need and start with a byte that is not zero.
#[verifier::external_body]
fn generate_key(bits: usize) -> (r: Option<(Vec<u8>, Vec<u8>, Vec<u8>)>)
    requires
        MIN_KEY_BITS <= bits <= MAX_KEY_BITS,
    ensures
        r matches Some((_, modulus, _)) ==> modulus@.len() == modulus_bytes_spec(bits as nat)
            && modulus@[0] != 0,
{
    let key = RsaPrivateKey::new(&mut OsRng, bits).ok()?;
    let document = key.to_pkcs8_der().ok()?;
    Some((document.as_bytes().to_vec(), key.n().to_bytes_be(), key.e().to_bytes_be()))
}

} // verus!
