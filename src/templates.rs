//! The template hashes that the registry is built from, as published by
//! `chia_wallet`.

use vstd::prelude::*;

verus! {

/// The bytes of `chia_wallet::standard::STANDARD_PUZZLE_HASH`, written out.
pub open spec fn standard_hash_bytes() -> Seq<u8> {
    seq![
        0xe9, 0xaa, 0xa4, 0x9f, 0x45, 0xba, 0xd5, 0xc8,
        0x89, 0xb8, 0x6e, 0xe3, 0x34, 0x15, 0x50, 0xc1,
        0x55, 0xcf, 0xdd, 0x10, 0xc3, 0xa6, 0x75, 0x7d,
        0xe6, 0x18, 0xd2, 0x06, 0x12, 0xff, 0xfd, 0x52,
    ]
}

/// Relies on the static `chia_wallet::standard::STANDARD_PUZZLE_HASH`: the template hash it holds.
#[verifier::external_body]
pub(crate) fn standard_hash() -> (r: [u8; 32])
    ensures
        r@ == standard_hash_bytes(),
{
    chia_wallet::standard::STANDARD_PUZZLE_HASH
}

/// The bytes of `chia_wallet::cat::CAT_PUZZLE_HASH`, written out.
pub open spec fn cat_v2_hash_bytes() -> Seq<u8> {
    seq![
        0x37, 0xbe, 0xf3, 0x60, 0xee, 0x85, 0x81, 0x33,
        0xb6, 0x9d, 0x59, 0x5a, 0x90, 0x6d, 0xc4, 0x5d,
        0x01, 0xaf, 0x50, 0x37, 0x9d, 0xad, 0x51, 0x5e,
        0xb9, 0x51, 0x8a, 0xbb, 0x7c, 0x1d, 0x2a, 0x7a,
    ]
}

/// Relies on the static `chia_wallet::cat::CAT_PUZZLE_HASH`: the template hash it holds.
#[verifier::external_body]
pub(crate) fn cat_v2_hash() -> (r: [u8; 32])
    ensures
        r@ == cat_v2_hash_bytes(),
{
    chia_wallet::cat::CAT_PUZZLE_HASH
}

/// The bytes of `chia_wallet::cat::CAT_PUZZLE_HASH_V1`, written out.
pub open spec fn cat_v1_hash_bytes() -> Seq<u8> {
    seq![
        0x72, 0xde, 0xc0, 0x62, 0x87, 0x4c, 0xd4, 0xd3,
        0xaa, 0xb8, 0x92, 0xa0, 0x90, 0x66, 0x88, 0xa1,
        0xae, 0x41, 0x2b, 0x01, 0x09, 0x98, 0x2e, 0x17,
        0x97, 0xa1, 0x70, 0xad, 0xd8, 0x8b, 0xdc, 0xdc,
    ]
}

/// Relies on the static `chia_wallet::cat::CAT_PUZZLE_HASH_V1`: the template hash it holds.
#[verifier::external_body]
pub(crate) fn cat_v1_hash() -> (r: [u8; 32])
    ensures
        r@ == cat_v1_hash_bytes(),
{
    chia_wallet::cat::CAT_PUZZLE_HASH_V1
}

/// The bytes of `chia_wallet::singleton::SINGLETON_TOP_LAYER_PUZZLE_HASH`, written out.
pub open spec fn singleton_top_layer_hash_bytes() -> Seq<u8> {
    seq![
        0x7f, 0xaa, 0x32, 0x53, 0xbf, 0xdd, 0xd1, 0xe0,
        0xde, 0xcb, 0x09, 0x06, 0xb2, 0xdc, 0x62, 0x47,
        0xbb, 0xc4, 0xcf, 0x60, 0x8f, 0x58, 0x34, 0x5d,
        0x17, 0x3a, 0xdb, 0x63, 0xe8, 0xb4, 0x7c, 0x9f,
    ]
}

/// Relies on the static `chia_wallet::singleton::SINGLETON_TOP_LAYER_PUZZLE_HASH`: the template hash it holds.
#[verifier::external_body]
pub(crate) fn singleton_top_layer_hash() -> (r: [u8; 32])
    ensures
        r@ == singleton_top_layer_hash_bytes(),
{
    chia_wallet::singleton::SINGLETON_TOP_LAYER_PUZZLE_HASH
}

/// The bytes of `chia_wallet::did::DID_INNER_PUZZLE_HASH`, written out.
pub open spec fn did_inner_hash_bytes() -> Seq<u8> {
    seq![
        0x33, 0x14, 0x3d, 0x2b, 0xef, 0x64, 0xf1, 0x40,
        0x36, 0x74, 0x26, 0x73, 0xaf, 0xd1, 0x58, 0x12,
        0x6b, 0x94, 0x28, 0x4b, 0x45, 0x30, 0xa2, 0x8c,
        0x35, 0x4f, 0xac, 0x20, 0x2b, 0x0c, 0x91, 0x0e,
    ]
}

/// Relies on the static `chia_wallet::did::DID_INNER_PUZZLE_HASH`: the template hash it holds.
#[verifier::external_body]
pub(crate) fn did_inner_hash() -> (r: [u8; 32])
    ensures
        r@ == did_inner_hash_bytes(),
{
    chia_wallet::did::DID_INNER_PUZZLE_HASH
}

/// The bytes of `chia_wallet::nft::NFT_STATE_LAYER_PUZZLE_HASH`, written out.
pub open spec fn nft_state_layer_hash_bytes() -> Seq<u8> {
    seq![
        0xa0, 0x4d, 0x9f, 0x57, 0x76, 0x4f, 0x54, 0xa4,
        0x3e, 0x40, 0x30, 0xbe, 0xfb, 0x4d, 0x80, 0x02,
        0x6e, 0x87, 0x05, 0x19, 0xaa, 0xa6, 0x63, 0x34,
        0xae, 0xf8, 0x30, 0x4f, 0x5d, 0x03, 0x93, 0xc2,
    ]
}

/// Relies on the static `chia_wallet::nft::NFT_STATE_LAYER_PUZZLE_HASH`: the template hash it holds.
#[verifier::external_body]
pub(crate) fn nft_state_layer_hash() -> (r: [u8; 32])
    ensures
        r@ == nft_state_layer_hash_bytes(),
{
    chia_wallet::nft::NFT_STATE_LAYER_PUZZLE_HASH
}

/// The bytes of `chia_wallet::nft::NFT_OWNERSHIP_LAYER_PUZZLE_HASH`, written out.
pub open spec fn nft_ownership_layer_hash_bytes() -> Seq<u8> {
    seq![
        0xc5, 0xab, 0xea, 0x79, 0xaf, 0xaa, 0x00, 0x1b,
        0x54, 0x27, 0xdf, 0xa0, 0xc8, 0xcf, 0x42, 0xca,
        0x6f, 0x38, 0xf5, 0x84, 0x1b, 0x78, 0xf9, 0xb3,
        0xc2, 0x52, 0x73, 0x3e, 0xb2, 0xde, 0x27, 0x26,
    ]
}

/// Relies on the static `chia_wallet::nft::NFT_OWNERSHIP_LAYER_PUZZLE_HASH`: the template hash it holds.
#[verifier::external_body]
pub(crate) fn nft_ownership_layer_hash() -> (r: [u8; 32])
    ensures
        r@ == nft_ownership_layer_hash_bytes(),
{
    chia_wallet::nft::NFT_OWNERSHIP_LAYER_PUZZLE_HASH
}

} // verus!
