//! The template registry: a fixed table from each known shape to the hash of
//! its template, and lookup of a template hash in that table.

use vstd::prelude::*;
use crate::templates::{
    standard_hash, standard_hash_bytes,
    cat_v2_hash, cat_v2_hash_bytes,
    cat_v1_hash, cat_v1_hash_bytes,
    singleton_top_layer_hash, singleton_top_layer_hash_bytes,
    did_inner_hash, did_inner_hash_bytes,
    nft_state_layer_hash, nft_state_layer_hash_bytes,
    nft_ownership_layer_hash, nft_ownership_layer_hash_bytes,
};

verus! {

/// The two historical versions of the asset (CAT) template.
#[derive(Debug, Clone, Copy, PartialEq, Eq, Structural)]
pub enum CatVersion {
    Cat1,
    Cat2,
}

/// Every template the registry knows. Terminal shapes (`Standard`, `Cat`,
/// `DidInner`, `NftOwnershipLayer`) end a walk; `SingletonTopLayer` and
/// `NftStateLayer` wrap an inner template of their own.
#[derive(Debug, Clone, Copy, PartialEq, Eq, Structural)]
pub enum Shape {
    Standard,
    Cat(CatVersion),
    SingletonTopLayer,
    DidInner,
    NftStateLayer,
    NftOwnershipLayer,
}

/// The registry as a mathematical table: the template hash of each shape.
pub open spec fn template_hash_of(shape: Shape) -> Seq<u8> {
    match shape {
        Shape::Standard => standard_hash_bytes(),
        Shape::Cat(CatVersion::Cat2) => cat_v2_hash_bytes(),
        Shape::Cat(CatVersion::Cat1) => cat_v1_hash_bytes(),
        Shape::SingletonTopLayer => singleton_top_layer_hash_bytes(),
        Shape::DidInner => did_inner_hash_bytes(),
        Shape::NftStateLayer => nft_state_layer_hash_bytes(),
        Shape::NftOwnershipLayer => nft_ownership_layer_hash_bytes(),
    }
}

/// The shape whose template hashes to `h`, if any.
pub open spec fn shape_of_hash(h: Seq<u8>) -> Option<Shape> {
    if exists|s: Shape| template_hash_of(s) == h {
        Some(choose|s: Shape| template_hash_of(s) == h)
    } else {
        None
    }
}

/// The shapes of the registry, in the order in which lookup scans them.
pub open spec fn registered_shapes() -> Seq<Shape> {
    seq![
        Shape::Standard,
        Shape::Cat(CatVersion::Cat2),
        Shape::Cat(CatVersion::Cat1),
        Shape::SingletonTopLayer,
        Shape::DidInner,
        Shape::NftStateLayer,
        Shape::NftOwnershipLayer,
    ]
}

/// No two shapes of the registry share a template hash.
pub proof fn lemma_template_hashes_distinct(s: Shape, t: Shape)
    ensures
        template_hash_of(s) == template_hash_of(t) ==> s == t,
{
    if template_hash_of(s) == template_hash_of(t) {
        assert(template_hash_of(s)[0] == template_hash_of(t)[0]);
    }
}

/// Every shape stands in the registry's table.
pub proof fn lemma_registered_shapes_complete(s: Shape)
    ensures
        registered_shapes().contains(s),
{
    let r = registered_shapes();
    match s {
        Shape::Standard => assert(r[0] == s),
        Shape::Cat(CatVersion::Cat2) => assert(r[1] == s),
        Shape::Cat(CatVersion::Cat1) => assert(r[2] == s),
        Shape::SingletonTopLayer => assert(r[3] == s),
        Shape::DidInner => assert(r[4] == s),
        Shape::NftStateLayer => assert(r[5] == s),
        Shape::NftOwnershipLayer => assert(r[6] == s),
    }
}

/// A hash is looked up to a shape exactly when it is that shape's template hash.
pub proof fn lemma_shape_of_hash(h: Seq<u8>, s: Shape)
    ensures
        shape_of_hash(h) == Some(s) <==> template_hash_of(s) == h,
{
    if template_hash_of(s) == h {
        let c = choose|c: Shape| template_hash_of(c) == h;
        lemma_template_hashes_distinct(c, s);
    }
}

/// The template hash of a shape, read from the published constants.
pub fn template_hash(shape: Shape) -> (r: [u8; 32])
    ensures
        r@ == template_hash_of(shape),
{
    match shape {
        Shape::Standard => standard_hash(),
        Shape::Cat(CatVersion::Cat2) => cat_v2_hash(),
        Shape::Cat(CatVersion::Cat1) => cat_v1_hash(),
        Shape::SingletonTopLayer => singleton_top_layer_hash(),
        Shape::DidInner => did_inner_hash(),
        Shape::NftStateLayer => nft_state_layer_hash(),
        Shape::NftOwnershipLayer => nft_ownership_layer_hash(),
    }
}

/// The shapes of the registry, as a vector.
pub fn registered() -> (r: Vec<Shape>)
    ensures
        r@ == registered_shapes(),
{
    let r = vec![
        Shape::Standard,
        Shape::Cat(CatVersion::Cat2),
        Shape::Cat(CatVersion::Cat1),
        Shape::SingletonTopLayer,
        Shape::DidInner,
        Shape::NftStateLayer,
        Shape::NftOwnershipLayer,
    ];
    assert(r@ =~= registered_shapes());
    r
}

/// Whether two hashes are equal, byte by byte.
pub fn hashes_equal(a: &[u8; 32], b: &[u8; 32]) -> (r: bool)
    ensures
        r == (a@ == b@),
{
    let mut i: usize = 0;
    while i < 32
        invariant
            0 <= i <= 32,
            a@.len() == 32,
            b@.len() == 32,
            forall|j: int| 0 <= j < i ==> a@[j] == b@[j],
        decreases 32 - i,
    {
        if a[i] != b[i] {
            return false;
        }
        i = i + 1;
    }
    assert(a@ =~= b@);
    true
}

/// Looks a template hash up in the registry.
pub fn lookup(h: &[u8; 32]) -> (r: Option<Shape>)
    ensures
        r == shape_of_hash(h@),
{
    let shapes = registered();
    let mut i: usize = 0;
    while i < shapes.len()
        invariant
            shapes@ == registered_shapes(),
            0 <= i <= shapes.len(),
            forall|j: int| 0 <= j < i ==> template_hash_of(#[trigger] shapes@[j]) != h@,
        decreases shapes.len() - i,
    {
        let s = shapes[i];
        let t = template_hash(s);
        if hashes_equal(&t, h) {
            proof {
                lemma_shape_of_hash(h@, s);
            }
            return Some(s);
        }
        i = i + 1;
    }
    proof {
        assert forall|s: Shape| template_hash_of(s) != h@ by {
            lemma_registered_shapes_complete(s);
        }
    }
    None
}

} // verus!
