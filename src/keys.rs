//! Key derivation and output-script construction, done by the `bitcoin`
//! and `miniscript` crates.
use vstd::prelude::*;

verus! {

/// The bytes held by an optional byte vector.
pub open spec fn opt_bytes(r: Option<Vec<u8>>) -> Option<Seq<u8>> {
    match r {
        Some(v) => Some(v@),
        None => None,
    }
}

/// The compressed public key at child path `path` below the extended private
/// key whose BIP32 serialisation is `master`; `None` when `master` is no such
/// serialisation.
pub uninterp spec fn derived_public_key(master: Seq<u8>, path: Seq<u32>) -> Option<Seq<u8>>;

/// The pay-to-pubkey output script of a public key.
pub uninterp spec fn p2pk_script(pubkey: Seq<u8>) -> Option<Seq<u8>>;

/// The pay-to-pubkey-hash output script of a public key.
pub uninterp spec fn p2pkh_script(pubkey: Seq<u8>) -> Option<Seq<u8>>;

/// The pay-to-witness-pubkey-hash output script of a public key.
pub uninterp spec fn p2wpkh_script(pubkey: Seq<u8>) -> Option<Seq<u8>>;

/// The script-hash-wrapped pay-to-witness-pubkey-hash output script of a
/// public key.
pub uninterp spec fn p2shwpkh_script(pubkey: Seq<u8>) -> Option<Seq<u8>>;

/// The key-path-only pay-to-taproot output script of a public key.
pub uninterp spec fn p2tr_script(pubkey: Seq<u8>) -> Option<Seq<u8>>;

/// A derivation that stays within BIP32's one-byte depth: when `master` has
/// the length of a serialised key, its depth byte plus the path length is at
/// most 255.
pub open spec fn depth_fits(master: Seq<u8>, path: Seq<u32>) -> bool {
    master.len() == 78 ==> master[4] + path.len() <= 255
}

/// The public key that the search uses at `path`: none when the derivation
/// would go deeper than a one-byte depth.
pub open spec fn key_at(master: Seq<u8>, path: Seq<u32>) -> Option<Seq<u8>> {
    if depth_fits(master, path) {
        derived_public_key(master, path)
    } else {
        None
    }
}

/// Relies on `bitcoin::bip32::Xpriv::decode`, `Xpriv::derive_priv` and
/// `Xpriv::to_keypair`: the public key at `path` (child numbers at or above
/// 2^31 are hardened), serialised compressed; the result depends on the
/// arguments alone. `derive_priv` adds one to the key's `u8` depth per child
/// number, which overflows past 255: the `requires` rules that out. (Its two
/// `expect`s on a child key out of the curve's range are, by its source,
/// statistically impossible.)
#[verifier::external_body]
pub(crate) fn derive_public_key(master: &[u8], path: &[u32]) -> (r: Option<Vec<u8>>)
    requires
        depth_fits(master@, path@),
    ensures
        opt_bytes(r) == derived_public_key(master@, path@),
{
    let secp = bitcoin::secp256k1::Secp256k1::new();
    let xpriv = bitcoin::bip32::Xpriv::decode(master).ok()?;
    let path: Vec<bitcoin::bip32::ChildNumber> =
        path.iter().map(|n| bitcoin::bip32::ChildNumber::from(*n)).collect();
    let child = xpriv.derive_priv(&secp, &path).ok()?;
    Some(child.to_keypair(&secp).public_key().serialize().to_vec())
}

/// Relies on `miniscript::Descriptor::new_pk` and `Descriptor::script_pubkey`:
/// the bare pay-to-pubkey script, `None` when the bytes are no public key.
#[verifier::external_body]
pub(crate) fn p2pk_script_of(pubkey: &[u8]) -> (r: Option<Vec<u8>>)
    ensures
        opt_bytes(r) == p2pk_script(pubkey@),
{
    let pk = bitcoin::secp256k1::PublicKey::from_slice(pubkey).ok()?;
    Some(miniscript::Descriptor::new_pk(pk).script_pubkey().to_bytes())
}

/// Relies on `miniscript::Descriptor::new_pkh` and `Descriptor::script_pubkey`.
#[verifier::external_body]
pub(crate) fn p2pkh_script_of(pubkey: &[u8]) -> (r: Option<Vec<u8>>)
    ensures
        opt_bytes(r) == p2pkh_script(pubkey@),
{
    let pk = bitcoin::secp256k1::PublicKey::from_slice(pubkey).ok()?;
    Some(miniscript::Descriptor::new_pkh(pk).ok()?.script_pubkey().to_bytes())
}

/// Relies on `miniscript::Descriptor::new_wpkh` and `Descriptor::script_pubkey`.
#[verifier::external_body]
pub(crate) fn p2wpkh_script_of(pubkey: &[u8]) -> (r: Option<Vec<u8>>)
    ensures
        opt_bytes(r) == p2wpkh_script(pubkey@),
{
    let pk = bitcoin::secp256k1::PublicKey::from_slice(pubkey).ok()?;
    Some(miniscript::Descriptor::new_wpkh(pk).ok()?.script_pubkey().to_bytes())
}

/// Relies on `miniscript::Descriptor::new_sh_wpkh` and
/// `Descriptor::script_pubkey`.
#[verifier::external_body]
pub(crate) fn p2shwpkh_script_of(pubkey: &[u8]) -> (r: Option<Vec<u8>>)
    ensures
        opt_bytes(r) == p2shwpkh_script(pubkey@),
{
    let pk = bitcoin::secp256k1::PublicKey::from_slice(pubkey).ok()?;
    Some(miniscript::Descriptor::new_sh_wpkh(pk).ok()?.script_pubkey().to_bytes())
}

/// Relies on `miniscript::Descriptor::new_tr` with no script tree, and
/// `Descriptor::script_pubkey`.
#[verifier::external_body]
pub(crate) fn p2tr_script_of(pubkey: &[u8]) -> (r: Option<Vec<u8>>)
    ensures
        opt_bytes(r) == p2tr_script(pubkey@),
{
    let pk = bitcoin::secp256k1::PublicKey::from_slice(pubkey).ok()?;
    Some(miniscript::Descriptor::new_tr(pk, None).ok()?.script_pubkey().to_bytes())
}

} // verus!
