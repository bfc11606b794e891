//! Addresses, signatures and key pairs in their base58 text.

use crate::address::{Address, Signature};
use crate::error::ParseError;
use crate::ledger::{
    address_text, keypair_address, keypair_pubkey, parsed_address, parsed_signature,
    pubkey_from_str, pubkey_to_string, signature_from_str, signature_text, signature_to_string,
};
use vstd::prelude::*;

verus! {

impl Address {
    /// Reads an address from its base58 text.
    pub fn from_base58(text: &str) -> (r: Result<Address, ParseError>)
        ensures
            match r {
                Ok(address) => parsed_address(text@) == Ok::<Seq<u8>, ParseError>(address@),
                Err(e) => parsed_address(text@) == Err::<Seq<u8>, ParseError>(e),
            },
    {
        pubkey_from_str(text)
    }

    /// Writes the address in base58.
    pub fn to_base58(&self) -> (text: String)
        ensures
            text@ == address_text(self@),
    {
        pubkey_to_string(self)
    }
}

impl Signature {
    /// Reads a signature from its base58 text.
    pub fn from_base58(text: &str) -> (r: Result<Signature, ParseError>)
        ensures
            match r {
                Ok(signature) => parsed_signature(text@) == Ok::<Seq<u8>, ParseError>(
                    signature@,
                ),
                Err(e) => parsed_signature(text@) == Err::<Seq<u8>, ParseError>(e),
            },
    {
        signature_from_str(text)
    }

    /// Writes the signature in base58.
    pub fn to_base58(&self) -> (text: String)
        ensures
            text@ == signature_text(self@),
    {
        signature_to_string(self)
    }
}

/// The address, in base58, of the key pair that `private_key` holds in
/// base58.
///
/// The text must hold a key pair; [`try_private_key_to_pubkey`] asks for
/// nothing and says where it does not.
pub fn private_key_to_pubkey(private_key: &str) -> (text: String)
    requires
        keypair_address(private_key@) is Some,
    ensures
        text@ == address_text(keypair_address(private_key@).unwrap()),
{
    match keypair_pubkey(private_key) {
        Some(address) => pubkey_to_string(&address),
        None => unreached(),
    }
}

/// The address, in base58, of the key pair that `private_key` holds in
/// base58; `None` where the text holds no key pair.
pub fn try_private_key_to_pubkey(private_key: &str) -> (r: Option<String>)
    ensures
        match r {
            Some(text) => keypair_address(private_key@) is Some && text@ == address_text(
                keypair_address(private_key@).unwrap(),
            ),
            None => keypair_address(private_key@) is None,
        },
{
    match keypair_pubkey(private_key) {
        Some(_) => Some(private_key_to_pubkey(private_key)),
        None => None,
    }
}

} // verus!
