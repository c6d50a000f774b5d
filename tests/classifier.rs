use chia_wallet::cat::{CAT_PUZZLE_HASH, CAT_PUZZLE_HASH_V1};
use chia_wallet::did::DID_INNER_PUZZLE_HASH;
use chia_wallet::nft::{NFT_OWNERSHIP_LAYER_PUZZLE_HASH, NFT_STATE_LAYER_PUZZLE_HASH};
use chia_wallet::singleton::SINGLETON_TOP_LAYER_PUZZLE_HASH;
use chia_wallet::standard::STANDARD_PUZZLE_HASH;
use spend_shapes::classifier::{classify_template_hashes, step, ClassifyError, SpendKind, Stage, Step};
use spend_shapes::registry::{hashes_equal, lookup, registered, template_hash, CatVersion, Shape};

const OTHER: [u8; 32] = [0x5a; 32];

#[test]
fn lookup_finds_every_registered_template() {
    assert_eq!(lookup(&STANDARD_PUZZLE_HASH), Some(Shape::Standard));
    assert_eq!(lookup(&CAT_PUZZLE_HASH), Some(Shape::Cat(CatVersion::Cat2)));
    assert_eq!(lookup(&CAT_PUZZLE_HASH_V1), Some(Shape::Cat(CatVersion::Cat1)));
    assert_eq!(lookup(&SINGLETON_TOP_LAYER_PUZZLE_HASH), Some(Shape::SingletonTopLayer));
    assert_eq!(lookup(&DID_INNER_PUZZLE_HASH), Some(Shape::DidInner));
    assert_eq!(lookup(&NFT_STATE_LAYER_PUZZLE_HASH), Some(Shape::NftStateLayer));
    assert_eq!(lookup(&NFT_OWNERSHIP_LAYER_PUZZLE_HASH), Some(Shape::NftOwnershipLayer));
}

#[test]
fn lookup_misses_unregistered_hashes() {
    assert_eq!(lookup(&OTHER), None);
    assert_eq!(lookup(&[0u8; 32]), None);
    let mut near = STANDARD_PUZZLE_HASH;
    near[31] ^= 1;
    assert_eq!(lookup(&near), None);
}

#[test]
fn template_hash_gives_the_published_constants() {
    assert_eq!(template_hash(Shape::Standard), STANDARD_PUZZLE_HASH);
    assert_eq!(template_hash(Shape::Cat(CatVersion::Cat2)), CAT_PUZZLE_HASH);
    assert_eq!(template_hash(Shape::Cat(CatVersion::Cat1)), CAT_PUZZLE_HASH_V1);
    assert_eq!(template_hash(Shape::SingletonTopLayer), SINGLETON_TOP_LAYER_PUZZLE_HASH);
    assert_eq!(template_hash(Shape::DidInner), DID_INNER_PUZZLE_HASH);
    assert_eq!(template_hash(Shape::NftStateLayer), NFT_STATE_LAYER_PUZZLE_HASH);
    assert_eq!(template_hash(Shape::NftOwnershipLayer), NFT_OWNERSHIP_LAYER_PUZZLE_HASH);
}

#[test]
fn registry_lists_seven_distinct_shapes() {
    let shapes = registered();
    assert_eq!(shapes.len(), 7);
    for (i, s) in shapes.iter().enumerate() {
        for t in shapes.iter().skip(i + 1) {
            assert_ne!(s, t);
            assert!(!hashes_equal(&template_hash(*s), &template_hash(*t)));
        }
    }
}

#[test]
fn hashes_equal_compares_every_byte() {
    assert!(hashes_equal(&OTHER, &OTHER));
    let mut last = OTHER;
    last[31] = 0;
    assert!(!hashes_equal(&OTHER, &last));
    let mut first = OTHER;
    first[0] = 0;
    assert!(!hashes_equal(&OTHER, &first));
}

#[test]
fn step_at_each_stage() {
    assert_eq!(step(Stage::TopLevel, &STANDARD_PUZZLE_HASH), Step::Finish(SpendKind::Standard));
    assert_eq!(step(Stage::TopLevel, &SINGLETON_TOP_LAYER_PUZZLE_HASH), Step::Descend(Stage::SingletonInner));
    assert_eq!(step(Stage::TopLevel, &DID_INNER_PUZZLE_HASH), Step::Reject(ClassifyError::UnknownShape));
    assert_eq!(step(Stage::SingletonInner, &DID_INNER_PUZZLE_HASH), Step::Finish(SpendKind::Did));
    assert_eq!(step(Stage::SingletonInner, &NFT_STATE_LAYER_PUZZLE_HASH), Step::Descend(Stage::OwnershipLayer));
    assert_eq!(step(Stage::SingletonInner, &STANDARD_PUZZLE_HASH), Step::Reject(ClassifyError::UnknownShape));
    assert_eq!(step(Stage::OwnershipLayer, &NFT_OWNERSHIP_LAYER_PUZZLE_HASH), Step::Finish(SpendKind::Nft));
    assert_eq!(step(Stage::OwnershipLayer, &OTHER), Step::Reject(ClassifyError::UnknownNestedLayer));
}

#[test]
fn standard_template_classifies_as_standard() {
    assert_eq!(classify_template_hashes(&vec![STANDARD_PUZZLE_HASH]), Ok(SpendKind::Standard));
    assert_eq!(classify_template_hashes(&vec![STANDARD_PUZZLE_HASH, OTHER]), Ok(SpendKind::Standard));
}

#[test]
fn unknown_outer_template_is_unknown_shape() {
    assert_eq!(classify_template_hashes(&vec![OTHER]), Err(ClassifyError::UnknownShape));
    assert_eq!(
        classify_template_hashes(&vec![NFT_OWNERSHIP_LAYER_PUZZLE_HASH, OTHER]),
        Err(ClassifyError::UnknownShape)
    );
}

#[test]
fn cat_versions_are_tagged_apart() {
    let v1 = classify_template_hashes(&vec![CAT_PUZZLE_HASH_V1]);
    let v2 = classify_template_hashes(&vec![CAT_PUZZLE_HASH]);
    assert_eq!(v1, Ok(SpendKind::Cat(CatVersion::Cat1)));
    assert_eq!(v2, Ok(SpendKind::Cat(CatVersion::Cat2)));
    assert_ne!(v1, v2);
}

#[test]
fn singleton_state_ownership_is_nft() {
    let layers = vec![
        SINGLETON_TOP_LAYER_PUZZLE_HASH,
        NFT_STATE_LAYER_PUZZLE_HASH,
        NFT_OWNERSHIP_LAYER_PUZZLE_HASH,
    ];
    assert_eq!(classify_template_hashes(&layers), Ok(SpendKind::Nft));
}

#[test]
fn singleton_did_is_did() {
    let layers = vec![SINGLETON_TOP_LAYER_PUZZLE_HASH, DID_INNER_PUZZLE_HASH];
    assert_eq!(classify_template_hashes(&layers), Ok(SpendKind::Did));
}

#[test]
fn state_layer_without_ownership_is_unknown_nested_layer() {
    let layers = vec![SINGLETON_TOP_LAYER_PUZZLE_HASH, NFT_STATE_LAYER_PUZZLE_HASH, OTHER];
    assert_eq!(classify_template_hashes(&layers), Err(ClassifyError::UnknownNestedLayer));
    let layers = vec![SINGLETON_TOP_LAYER_PUZZLE_HASH, NFT_STATE_LAYER_PUZZLE_HASH, STANDARD_PUZZLE_HASH];
    assert_eq!(classify_template_hashes(&layers), Err(ClassifyError::UnknownNestedLayer));
}

#[test]
fn unknown_singleton_inner_is_unknown_shape() {
    let layers = vec![SINGLETON_TOP_LAYER_PUZZLE_HASH, OTHER, NFT_OWNERSHIP_LAYER_PUZZLE_HASH];
    assert_eq!(classify_template_hashes(&layers), Err(ClassifyError::UnknownShape));
    let layers = vec![SINGLETON_TOP_LAYER_PUZZLE_HASH, CAT_PUZZLE_HASH];
    assert_eq!(classify_template_hashes(&layers), Err(ClassifyError::UnknownShape));
}

#[test]
fn missing_layers_are_decomposition_errors() {
    assert_eq!(classify_template_hashes(&vec![]), Err(ClassifyError::Decomposition));
    assert_eq!(
        classify_template_hashes(&vec![SINGLETON_TOP_LAYER_PUZZLE_HASH]),
        Err(ClassifyError::Decomposition)
    );
    assert_eq!(
        classify_template_hashes(&vec![SINGLETON_TOP_LAYER_PUZZLE_HASH, NFT_STATE_LAYER_PUZZLE_HASH]),
        Err(ClassifyError::Decomposition)
    );
}

#[test]
fn classification_of_hashes_is_repeatable() {
    let layers = vec![SINGLETON_TOP_LAYER_PUZZLE_HASH, NFT_STATE_LAYER_PUZZLE_HASH, OTHER];
    assert_eq!(classify_template_hashes(&layers), classify_template_hashes(&layers.clone()));
}

