//! The layered classifier as a state machine: each stage looks the template
//! hash of one layer up in the registry and either finishes with a kind of
//! spend, descends into the next layer, or rejects the puzzle.

use vstd::prelude::*;
use crate::registry::{
    lemma_shape_of_hash, lemma_template_hashes_distinct, lookup, shape_of_hash, template_hash_of,
    CatVersion, Shape,
};

verus! {

/// Which layer of a puzzle the classifier is looking at.
#[derive(Debug, Clone, Copy, PartialEq, Eq, Structural)]
pub enum Stage {
    /// The outermost template of the puzzle.
    TopLevel,
    /// The inner puzzle of a singleton.
    SingletonInner,
    /// The inner puzzle of an NFT state layer, which must be an ownership layer.
    OwnershipLayer,
}

/// The kinds of spend that the classifier recognises.
#[derive(Debug, Clone, Copy, PartialEq, Eq, Structural)]
pub enum SpendKind {
    Standard,
    Cat(CatVersion),
    Nft,
    Did,
}

/// Why a puzzle/solution pair could not be classified.
#[derive(Debug, Clone, Copy, PartialEq, Eq, Structural)]
pub enum ClassifyError {
    /// A blob is not a valid serialized tree.
    InputDecode,
    /// A program that must be curried is not.
    Decomposition,
    /// The outer template, or a singleton's inner template, is not registered.
    /// Both cases are reported alike; the layer hashes that
    /// `KnownSpend::parse_with_layers` returns tell them apart.
    UnknownShape,
    /// An NFT state layer does not wrap an ownership layer.
    UnknownNestedLayer,
    /// A matched shape's arguments or solution do not have its field structure.
    TypedDecode,
}

/// What the classifier does after looking at one layer.
#[derive(Debug, Clone, Copy, PartialEq, Eq, Structural)]
pub enum Step {
    Descend(Stage),
    Finish(SpendKind),
    Reject(ClassifyError),
}

/// The transition taken at `stage` when the layer's template is `found` in the
/// registry (`None`: not registered).
pub open spec fn transition(stage: Stage, found: Option<Shape>) -> Step {
    match stage {
        Stage::TopLevel => match found {
            Some(Shape::Standard) => Step::Finish(SpendKind::Standard),
            Some(Shape::Cat(v)) => Step::Finish(SpendKind::Cat(v)),
            Some(Shape::SingletonTopLayer) => Step::Descend(Stage::SingletonInner),
            _ => Step::Reject(ClassifyError::UnknownShape),
        },
        Stage::SingletonInner => match found {
            Some(Shape::DidInner) => Step::Finish(SpendKind::Did),
            Some(Shape::NftStateLayer) => Step::Descend(Stage::OwnershipLayer),
            _ => Step::Reject(ClassifyError::UnknownShape),
        },
        Stage::OwnershipLayer => match found {
            Some(Shape::NftOwnershipLayer) => Step::Finish(SpendKind::Nft),
            _ => Step::Reject(ClassifyError::UnknownNestedLayer),
        },
    }
}

/// The step taken at `stage` on a layer whose template hashes to `h`.
pub open spec fn step_of(stage: Stage, h: Seq<u8>) -> Step {
    transition(stage, shape_of_hash(h))
}

/// The outcome of running the machine from `stage` over the template hashes
/// `hs`, one per layer, outermost first. A walk that needs a layer that `hs`
/// does not have fails with `Decomposition`.
pub open spec fn run_from(stage: Stage, hs: Seq<Seq<u8>>) -> Result<SpendKind, ClassifyError>
    decreases hs.len(),
{
    if hs.len() == 0 {
        Err(ClassifyError::Decomposition)
    } else {
        match step_of(stage, hs[0]) {
            Step::Descend(next) => run_from(next, hs.drop_first()),
            Step::Finish(kind) => Ok(kind),
            Step::Reject(e) => Err(e),
        }
    }
}

/// The classification of a puzzle whose layers have the template hashes `hs`.
pub open spec fn classification(hs: Seq<Seq<u8>>) -> Result<SpendKind, ClassifyError> {
    run_from(Stage::TopLevel, hs)
}

/// One transition of the machine: the layer at `stage` has template hash `h`.
pub fn step(stage: Stage, h: &[u8; 32]) -> (r: Step)
    ensures
        r == step_of(stage, h@),
{
    let found = lookup(h);
    match stage {
        Stage::TopLevel => match found {
            Some(Shape::Standard) => Step::Finish(SpendKind::Standard),
            Some(Shape::Cat(v)) => Step::Finish(SpendKind::Cat(v)),
            Some(Shape::SingletonTopLayer) => Step::Descend(Stage::SingletonInner),
            _ => Step::Reject(ClassifyError::UnknownShape),
        },
        Stage::SingletonInner => match found {
            Some(Shape::DidInner) => Step::Finish(SpendKind::Did),
            Some(Shape::NftStateLayer) => Step::Descend(Stage::OwnershipLayer),
            _ => Step::Reject(ClassifyError::UnknownShape),
        },
        Stage::OwnershipLayer => match found {
            Some(Shape::NftOwnershipLayer) => Step::Finish(SpendKind::Nft),
            _ => Step::Reject(ClassifyError::UnknownNestedLayer),
        },
    }
}

/// Classifies a puzzle from the template hashes of its layers, outermost
/// first. Hashes past the layer where the walk ends are not looked at.
pub fn classify_template_hashes(hashes: &Vec<[u8; 32]>) -> (r: Result<SpendKind, ClassifyError>)
    ensures
        r == classification(hashes@.map_values(|h: [u8; 32]| h@)),
{
    let ghost hs = hashes@.map_values(|h: [u8; 32]| h@);
    let mut stage = Stage::TopLevel;
    let mut i: usize = 0;
    assert(hs.subrange(0, hs.len() as int) =~= hs);
    while i < hashes.len()
        invariant
            0 <= i <= hashes.len(),
            hs == hashes@.map_values(|h: [u8; 32]| h@),
            run_from(stage, hs.subrange(i as int, hs.len() as int)) == classification(hs),
        decreases hashes.len() - i,
    {
        let ghost rest = hs.subrange(i as int, hs.len() as int);
        assert(rest[0] == hashes@[i as int]@);
        assert(rest.drop_first() =~= hs.subrange(i + 1, hs.len() as int));
        match step(stage, &hashes[i]) {
            Step::Descend(next) => {
                stage = next;
            },
            Step::Finish(kind) => {
                return Ok(kind);
            },
            Step::Reject(e) => {
                return Err(e);
            },
        }
        i = i + 1;
    }
    assert(hs.subrange(i as int, hs.len() as int).len() == 0);
    Err(ClassifyError::Decomposition)
}

/// A walk never ends in an input decode error: that error belongs to reading
/// blobs, before any layer is looked at.
pub proof fn lemma_classification_never_input_decode(hs: Seq<Seq<u8>>)
    ensures
        classification(hs) != Err::<SpendKind, ClassifyError>(ClassifyError::InputDecode),
{
    reveal_with_fuel(run_from, 4);
    if hs.len() >= 2 {
        assert(hs.drop_first()[0] == hs[1]);
    }
    if hs.len() >= 3 {
        assert(hs.drop_first().drop_first()[0] == hs[2]);
    }
}

/// A puzzle whose outer template is the standard template, or a CAT
/// template of either version, classifies as that terminal shape, whatever
/// follows; a singleton around a DID inner puzzle classifies as a DID, and a
/// singleton around a state layer around an ownership layer as an NFT.
pub proof fn lemma_terminal_shapes_classify(hs: Seq<Seq<u8>>)
    ensures
        hs.len() >= 1 && hs[0] == template_hash_of(Shape::Standard) ==> classification(hs) == Ok::<SpendKind, ClassifyError>(SpendKind::Standard),
        forall|v: CatVersion|
            hs.len() >= 1 && hs[0] == #[trigger] template_hash_of(Shape::Cat(v)) ==> classification(hs) == Ok::<SpendKind, ClassifyError>(SpendKind::Cat(v)),
        hs.len() >= 2 && hs[0] == template_hash_of(Shape::SingletonTopLayer) && hs[1] == template_hash_of(Shape::DidInner)
            ==> classification(hs) == Ok::<SpendKind, ClassifyError>(SpendKind::Did),
        hs.len() >= 3 && hs[0] == template_hash_of(Shape::SingletonTopLayer) && hs[1] == template_hash_of(Shape::NftStateLayer)
            && hs[2] == template_hash_of(Shape::NftOwnershipLayer) ==> classification(hs) == Ok::<SpendKind, ClassifyError>(SpendKind::Nft),
{
    reveal_with_fuel(run_from, 4);
    if hs.len() >= 1 {
        lemma_shape_of_hash(hs[0], Shape::Standard);
        lemma_shape_of_hash(hs[0], Shape::Cat(CatVersion::Cat1));
        lemma_shape_of_hash(hs[0], Shape::Cat(CatVersion::Cat2));
        lemma_shape_of_hash(hs[0], Shape::SingletonTopLayer);
    }
    if hs.len() >= 2 {
        lemma_shape_of_hash(hs[1], Shape::DidInner);
        lemma_shape_of_hash(hs[1], Shape::NftStateLayer);
        assert(hs.drop_first()[0] == hs[1]);
    }
    if hs.len() >= 3 {
        lemma_shape_of_hash(hs[2], Shape::NftOwnershipLayer);
        assert(hs.drop_first().drop_first()[0] == hs[2]);
    }
}

/// A puzzle whose outer template is not in the registry is rejected as an
/// unknown shape.
pub proof fn lemma_unregistered_outer_rejected(hs: Seq<Seq<u8>>)
    requires
        hs.len() >= 1,
        shape_of_hash(hs[0]) is None,
    ensures
        classification(hs) == Err::<SpendKind, ClassifyError>(ClassifyError::UnknownShape),
{
}

/// A singleton around a state layer whose inner template is not the ownership
/// layer is rejected as an unknown nested layer, never classified as an NFT.
pub proof fn lemma_state_layer_needs_ownership(hs: Seq<Seq<u8>>)
    requires
        hs.len() >= 3,
        hs[0] == template_hash_of(Shape::SingletonTopLayer),
        hs[1] == template_hash_of(Shape::NftStateLayer),
        hs[2] != template_hash_of(Shape::NftOwnershipLayer),
    ensures
        classification(hs) == Err::<SpendKind, ClassifyError>(ClassifyError::UnknownNestedLayer),
{
    reveal_with_fuel(run_from, 4);
    lemma_shape_of_hash(hs[0], Shape::SingletonTopLayer);
    lemma_shape_of_hash(hs[1], Shape::NftStateLayer);
    lemma_shape_of_hash(hs[2], Shape::NftOwnershipLayer);
    assert(hs.drop_first()[0] == hs[1]);
    assert(hs.drop_first().drop_first()[0] == hs[2]);
}

/// A singleton whose inner template is neither the DID inner puzzle nor the
/// state layer is rejected as an unknown shape, as an unregistered outer
/// template is.
pub proof fn lemma_unknown_singleton_inner_rejected(hs: Seq<Seq<u8>>)
    requires
        hs.len() >= 2,
        hs[0] == template_hash_of(Shape::SingletonTopLayer),
        hs[1] != template_hash_of(Shape::DidInner),
        hs[1] != template_hash_of(Shape::NftStateLayer),
    ensures
        classification(hs) == Err::<SpendKind, ClassifyError>(ClassifyError::UnknownShape),
{
    reveal_with_fuel(run_from, 4);
    lemma_shape_of_hash(hs[0], Shape::SingletonTopLayer);
    lemma_shape_of_hash(hs[1], Shape::DidInner);
    lemma_shape_of_hash(hs[1], Shape::NftStateLayer);
    assert(hs.drop_first()[0] == hs[1]);
}

/// The two CAT templates are distinct, and each classifies with its own
/// version tag.
pub proof fn lemma_cat_versions_kept_apart(hs: Seq<Seq<u8>>)
    ensures
        template_hash_of(Shape::Cat(CatVersion::Cat1)) != template_hash_of(Shape::Cat(CatVersion::Cat2)),
        hs.len() >= 1 && hs[0] == template_hash_of(Shape::Cat(CatVersion::Cat1))
            ==> classification(hs) == Ok::<SpendKind, ClassifyError>(SpendKind::Cat(CatVersion::Cat1)),
        hs.len() >= 1 && hs[0] == template_hash_of(Shape::Cat(CatVersion::Cat2))
            ==> classification(hs) == Ok::<SpendKind, ClassifyError>(SpendKind::Cat(CatVersion::Cat2)),
{
    lemma_template_hashes_distinct(Shape::Cat(CatVersion::Cat1), Shape::Cat(CatVersion::Cat2));
    lemma_terminal_shapes_classify(hs);
}

/// Classification depends on the template hashes of the first three layers
/// alone: two puzzles that agree on them, read into any two arenas, classify
/// alike.
pub proof fn lemma_classification_by_layer_hashes(hs1: Seq<Seq<u8>>, hs2: Seq<Seq<u8>>)
    requires
        hs1.len() >= 3,
        hs2.len() >= 3,
        hs1.subrange(0, 3) == hs2.subrange(0, 3),
    ensures
        classification(hs1) == classification(hs2),
{
    reveal_with_fuel(run_from, 4);
    assert(hs1[0] == hs1.subrange(0, 3)[0]);
    assert(hs2[0] == hs2.subrange(0, 3)[0]);
    assert(hs1[1] == hs1.subrange(0, 3)[1]);
    assert(hs2[1] == hs2.subrange(0, 3)[1]);
    assert(hs1[2] == hs1.subrange(0, 3)[2]);
    assert(hs2[2] == hs2.subrange(0, 3)[2]);
    assert(hs1.drop_first()[0] == hs1[1]);
    assert(hs2.drop_first()[0] == hs2[1]);
    assert(hs1.drop_first().drop_first()[0] == hs1[2]);
    assert(hs2.drop_first().drop_first()[0] == hs2[2]);
}

} // verus!
