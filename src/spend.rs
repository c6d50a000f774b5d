//! Classification of a puzzle/solution pair into a known, fully typed spend.

use vstd::prelude::*;
use chia_wallet::cat::CatSolution;
use chia_wallet::did::DidSolution;
use chia_wallet::singleton::SingletonSolution;
use chia_wallet::standard::StandardSolution;
use clvmr::allocator::NodePtr;
use clvmr::Allocator;
use crate::classifier::{
    classification, classify_template_hashes,
    lemma_state_layer_needs_ownership, lemma_terminal_shapes_classify,
    lemma_unknown_singleton_inner_rejected, lemma_unregistered_outer_rejected, ClassifyError,
    SpendKind,
};
use crate::clvm::{
    cat_puzzle_at, cat_solution_at, curried_template, decode_cat_puzzle, decode_cat_solution,
    decode_did_puzzle, decode_did_solution, decode_nft_puzzle, decode_nft_solution,
    decode_standard_puzzle, decode_standard_solution, did_puzzle_at, did_solution_at, holds_node,
    nft_puzzle_at, nft_solution_at, node_from_bytes, node_tree_hash, reads_tree, singleton_inner,
    singleton_inner_template, standard_puzzle_at, standard_solution_at, state_layer_inner,
    state_layer_inner_template, tree_hash, uncurried_template, Cat, DidPuzzle, NftPuzzle,
    NftSolution, Standard,
};
use crate::input::{decode_hex, hex_bytes, is_hex};
use crate::registry::{shape_of_hash, template_hash_of, CatVersion, Shape};

verus! {

/// A puzzle together with its solution, each in typed form.
#[derive(Debug, Clone)]
pub struct Spend<P, S> {
    pub puzzle: P,
    pub solution: S,
}

pub type StandardSpend = Spend<Standard, StandardSolution<NodePtr, NodePtr>>;

pub type CatSpend = Spend<Cat<NodePtr>, CatSolution<NodePtr>>;

pub type NftSpend = Spend<NftPuzzle, NftSolution>;

pub type DidSpend = Spend<DidPuzzle, SingletonSolution<DidSolution<NodePtr>>>;

/// A spend whose puzzle has one of the known shapes.
#[derive(Debug, Clone)]
pub enum KnownSpend {
    Standard(StandardSpend),
    Cat { spend: CatSpend, version: CatVersion },
    Nft(NftSpend),
    Did(DidSpend),
}

/// The template hashes of a list of layers, as sequences of bytes.
pub open spec fn hash_seqs(layers: Seq<[u8; 32]>) -> Seq<Seq<u8>> {
    layers.map_values(|h: [u8; 32]| h@)
}

/// The template hashes of the layers of the puzzle at `p`, outermost first,
/// as far as the puzzle can be taken apart: its own template, the template of
/// a singleton's inner puzzle, and the template inside an NFT state layer.
pub open spec fn layer_hashes(a: Allocator, p: NodePtr) -> Seq<Seq<u8>> {
    match curried_template(a, p) {
        None => Seq::empty(),
        Some(t) => match singleton_inner(a, p) {
            None => seq![node_tree_hash(a, t)],
            Some(i) => match state_layer_inner(a, p) {
                None => seq![node_tree_hash(a, t), node_tree_hash(a, i)],
                Some(o) => seq![node_tree_hash(a, t), node_tree_hash(a, i), node_tree_hash(a, o)],
            },
        },
    }
}

/// The classification of the puzzle at `p` with the solution at `s`: the
/// kind that the layer hashes call for, with the puzzle and solution decoded
/// as that kind, or `TypedDecode` when either does not decode.
pub open spec fn parse_result(a: Allocator, p: NodePtr, s: NodePtr) -> Result<KnownSpend, ClassifyError> {
    match classification(layer_hashes(a, p)) {
        Ok(SpendKind::Standard) => match (standard_puzzle_at(a, p), standard_solution_at(a, s)) {
            (Some(puzzle), Some(solution)) => Ok(KnownSpend::Standard(Spend { puzzle, solution })),
            _ => Err(ClassifyError::TypedDecode),
        },
        Ok(SpendKind::Cat(version)) => match (cat_puzzle_at(a, p), cat_solution_at(a, s)) {
            (Some(puzzle), Some(solution)) => Ok(KnownSpend::Cat { spend: Spend { puzzle, solution }, version }),
            _ => Err(ClassifyError::TypedDecode),
        },
        Ok(SpendKind::Did) => match (did_puzzle_at(a, p), did_solution_at(a, s)) {
            (Some(puzzle), Some(solution)) => Ok(KnownSpend::Did(Spend { puzzle, solution })),
            _ => Err(ClassifyError::TypedDecode),
        },
        Ok(SpendKind::Nft) => match (nft_puzzle_at(a, p), nft_solution_at(a, s)) {
            (Some(puzzle), Some(solution)) => Ok(KnownSpend::Nft(Spend { puzzle, solution })),
            _ => Err(ClassifyError::TypedDecode),
        },
        Err(e) => Err(e),
    }
}

/// What reading two blobs into an arena and classifying them gives. A blob
/// that cannot be read is an input decode error; otherwise the result is the
/// classification of the two trees that were read.
pub open spec fn read_and_classified(
    before: Allocator,
    after: Allocator,
    puzzle: Seq<u8>,
    solution: Seq<u8>,
    r: Result<KnownSpend, ClassifyError>,
) -> bool {
    &&& !reads_tree(before, puzzle) ==> r == Err::<KnownSpend, ClassifyError>(ClassifyError::InputDecode)
    &&& reads_tree(before, puzzle) && (forall|m: Allocator| #[trigger] reads_tree(m, solution))
        ==> r != Err::<KnownSpend, ClassifyError>(ClassifyError::InputDecode)
    &&& r == Err::<KnownSpend, ClassifyError>(ClassifyError::InputDecode) || exists|p: NodePtr, s: NodePtr|
        holds_node(after, p) && holds_node(after, s) && r == #[trigger] parse_result(after, p, s)
}

impl KnownSpend {
    /// The kind of this spend, as the contracts speak of it.
    pub open spec fn kind_of(&self) -> SpendKind {
        match self {
            KnownSpend::Standard(_) => SpendKind::Standard,
            KnownSpend::Cat { version, .. } => SpendKind::Cat(*version),
            KnownSpend::Nft(_) => SpendKind::Nft,
            KnownSpend::Did(_) => SpendKind::Did,
        }
    }

    /// The kind of this spend.
    pub fn kind(&self) -> (r: SpendKind)
        ensures
            r == self.kind_of(),
    {
        match self {
            KnownSpend::Standard(_) => SpendKind::Standard,
            KnownSpend::Cat { version, .. } => SpendKind::Cat(*version),
            KnownSpend::Nft(_) => SpendKind::Nft,
            KnownSpend::Did(_) => SpendKind::Did,
        }
    }

    /// The template hashes of the layers of the puzzle at `p`, outermost first.
    pub fn puzzle_layers(a: &Allocator, p: NodePtr) -> (r: Vec<[u8; 32]>)
        requires
            holds_node(*a, p),
        ensures
            hash_seqs(r@) == layer_hashes(*a, p),
    {
        let mut layers: Vec<[u8; 32]> = Vec::new();
        let t = match uncurried_template(a, p) {
            Ok(t) => t,
            Err(_) => {
                assert(hash_seqs(layers@) =~= layer_hashes(*a, p));
                return layers;
            },
        };
        layers.push(tree_hash(a, t));
        let i = match singleton_inner_template(a, p) {
            Ok(i) => i,
            Err(_) => {
                assert(hash_seqs(layers@) =~= layer_hashes(*a, p));
                return layers;
            },
        };
        layers.push(tree_hash(a, i));
        let o = match state_layer_inner_template(a, p) {
            Ok(o) => o,
            Err(_) => {
                assert(hash_seqs(layers@) =~= layer_hashes(*a, p));
                return layers;
            },
        };
        layers.push(tree_hash(a, o));
        assert(hash_seqs(layers@) =~= layer_hashes(*a, p));
        layers
    }

    /// Classifies the puzzle at `puzzle_ptr` with its solution at
    /// `solution_ptr`, and also returns the template hashes of the puzzle's
    /// layers, outermost first.
    pub fn parse_with_layers(a: &Allocator, puzzle_ptr: NodePtr, solution_ptr: NodePtr) -> (r: (
        Result<KnownSpend, ClassifyError>,
        Vec<[u8; 32]>,
    ))
        requires
            holds_node(*a, puzzle_ptr),
            holds_node(*a, solution_ptr),
        ensures
            r.0 == parse_result(*a, puzzle_ptr, solution_ptr),
            hash_seqs(r.1@) == layer_hashes(*a, puzzle_ptr),
    {
        let layers = Self::puzzle_layers(a, puzzle_ptr);
        let result = match classify_template_hashes(&layers) {
            Ok(SpendKind::Standard) => {
                match (decode_standard_puzzle(a, puzzle_ptr), decode_standard_solution(a, solution_ptr)) {
                    (Ok(puzzle), Ok(solution)) => Ok(KnownSpend::Standard(Spend { puzzle, solution })),
                    _ => Err(ClassifyError::TypedDecode),
                }
            },
            Ok(SpendKind::Cat(version)) => {
                match (decode_cat_puzzle(a, puzzle_ptr), decode_cat_solution(a, solution_ptr)) {
                    (Ok(puzzle), Ok(solution)) => Ok(KnownSpend::Cat { spend: Spend { puzzle, solution }, version }),
                    _ => Err(ClassifyError::TypedDecode),
                }
            },
            Ok(SpendKind::Did) => {
                match (decode_did_puzzle(a, puzzle_ptr), decode_did_solution(a, solution_ptr)) {
                    (Ok(puzzle), Ok(solution)) => Ok(KnownSpend::Did(Spend { puzzle, solution })),
                    _ => Err(ClassifyError::TypedDecode),
                }
            },
            Ok(SpendKind::Nft) => {
                match (decode_nft_puzzle(a, puzzle_ptr), decode_nft_solution(a, solution_ptr)) {
                    (Ok(puzzle), Ok(solution)) => Ok(KnownSpend::Nft(Spend { puzzle, solution })),
                    _ => Err(ClassifyError::TypedDecode),
                }
            },
            Err(e) => Err(e),
        };
        (result, layers)
    }

    /// Classifies the puzzle at `puzzle_ptr` with its solution at
    /// `solution_ptr`, both nodes of `a`.
    pub fn parse(a: &Allocator, puzzle_ptr: NodePtr, solution_ptr: NodePtr) -> (r: Result<Self, ClassifyError>)
        requires
            holds_node(*a, puzzle_ptr),
            holds_node(*a, solution_ptr),
        ensures
            r == parse_result(*a, puzzle_ptr, solution_ptr),
    {
        let (r, _) = Self::parse_with_layers(a, puzzle_ptr, solution_ptr);
        r
    }

    /// Reads the serialized puzzle and solution into `a` and classifies them.
    pub fn parse_bytes(a: &mut Allocator, puzzle: &[u8], solution: &[u8]) -> (r: Result<Self, ClassifyError>)
        ensures
            read_and_classified(*old(a), *final(a), puzzle@, solution@, r),
    {
        let puzzle_ptr = match node_from_bytes(a, puzzle) {
            Some(p) => p,
            None => {
                return Err(ClassifyError::InputDecode);
            },
        };
        let solution_ptr = match node_from_bytes(a, solution) {
            Some(p) => p,
            None => {
                return Err(ClassifyError::InputDecode);
            },
        };
        let r = Self::parse(a, puzzle_ptr, solution_ptr);
        proof {
            lemma_parse_result_never_input_decode(*a, puzzle_ptr, solution_ptr);
        }
        r
    }

    /// Decodes the puzzle and solution from hexadecimal text, reads them into
    /// `a` and classifies them. Text that is not an even number of hexadecimal
    /// digits is an input decode error.
    pub fn parse_hex(a: &mut Allocator, puzzle: &str, solution: &str) -> (r: Result<Self, ClassifyError>)
        ensures
            !(is_hex(puzzle@) && is_hex(solution@)) ==> r == Err::<Self, ClassifyError>(ClassifyError::InputDecode),
            is_hex(puzzle@) && is_hex(solution@) ==> read_and_classified(
                *old(a),
                *final(a),
                hex_bytes(puzzle@),
                hex_bytes(solution@),
                r,
            ),
    {
        let puzzle_bytes = match decode_hex(puzzle) {
            Some(b) => b,
            None => {
                return Err(ClassifyError::InputDecode);
            },
        };
        let solution_bytes = match decode_hex(solution) {
            Some(b) => b,
            None => {
                return Err(ClassifyError::InputDecode);
            },
        };
        Self::parse_bytes(a, puzzle_bytes.as_slice(), solution_bytes.as_slice())
    }
}

/// Classification never reports a blob that could not be read.
pub proof fn lemma_parse_result_never_input_decode(a: Allocator, p: NodePtr, s: NodePtr)
    ensures
        parse_result(a, p, s) != Err::<KnownSpend, ClassifyError>(ClassifyError::InputDecode),
{
    crate::classifier::lemma_classification_never_input_decode(layer_hashes(a, p));
}

/// What the layer hashes of a puzzle are, layer by layer.
pub proof fn lemma_layer_hashes(a: Allocator, p: NodePtr)
    ensures
        curried_template(a, p) is None ==> layer_hashes(a, p).len() == 0,
        curried_template(a, p) matches Some(t) ==> layer_hashes(a, p).len() >= 1
            && layer_hashes(a, p)[0] == node_tree_hash(a, t),
        curried_template(a, p) is Some && singleton_inner(a, p) is None ==> layer_hashes(a, p).len() == 1,
        curried_template(a, p) is Some && singleton_inner(a, p) is Some ==> layer_hashes(a, p).len() >= 2
            && layer_hashes(a, p)[1] == node_tree_hash(a, singleton_inner(a, p)->0),
        curried_template(a, p) is Some && singleton_inner(a, p) is Some && state_layer_inner(a, p) is None
            ==> layer_hashes(a, p).len() == 2,
        curried_template(a, p) is Some && singleton_inner(a, p) is Some && state_layer_inner(a, p) is Some
            ==> layer_hashes(a, p).len() == 3 && layer_hashes(a, p)[2] == node_tree_hash(a, state_layer_inner(a, p)->0),
{
}

/// A puzzle that is not a curried program is a decomposition error.
pub proof fn lemma_parse_uncurried(a: Allocator, p: NodePtr, s: NodePtr)
    requires
        curried_template(a, p) is None,
    ensures
        parse_result(a, p, s) == Err::<KnownSpend, ClassifyError>(ClassifyError::Decomposition),
{
    lemma_layer_hashes(a, p);
}

/// A puzzle whose template is the standard template or a CAT template of
/// either version is classified as that shape, with the CAT version that its
/// template hash stands for, and with the puzzle and solution decoded as that
/// shape; a typed decode that fails is a typed decode error.
pub proof fn lemma_parse_terminal_top_level(a: Allocator, p: NodePtr, s: NodePtr, t: NodePtr)
    requires
        curried_template(a, p) == Some(t),
    ensures
        node_tree_hash(a, t) == template_hash_of(Shape::Standard) ==> parse_result(a, p, s) == match (
            standard_puzzle_at(a, p),
            standard_solution_at(a, s),
        ) {
            (Some(puzzle), Some(solution)) => Ok(KnownSpend::Standard(Spend { puzzle, solution })),
            _ => Err(ClassifyError::TypedDecode),
        },
        forall|v: CatVersion| node_tree_hash(a, t) == #[trigger] template_hash_of(Shape::Cat(v))
            ==> parse_result(a, p, s) == match (cat_puzzle_at(a, p), cat_solution_at(a, s)) {
                (Some(puzzle), Some(solution)) => Ok(KnownSpend::Cat { spend: Spend { puzzle, solution }, version: v }),
                _ => Err(ClassifyError::TypedDecode),
            },
{
    lemma_layer_hashes(a, p);
    lemma_terminal_shapes_classify(layer_hashes(a, p));
}

/// A singleton around a DID inner puzzle is classified as a DID, and a
/// singleton around a state layer around an ownership layer as an NFT, with
/// all three layers decoded; a typed decode that fails is a typed decode error.
pub proof fn lemma_parse_singleton_shapes(a: Allocator, p: NodePtr, s: NodePtr, t: NodePtr, i: NodePtr)
    requires
        curried_template(a, p) == Some(t),
        node_tree_hash(a, t) == template_hash_of(Shape::SingletonTopLayer),
        singleton_inner(a, p) == Some(i),
    ensures
        node_tree_hash(a, i) == template_hash_of(Shape::DidInner) ==> parse_result(a, p, s) == match (
            did_puzzle_at(a, p),
            did_solution_at(a, s),
        ) {
            (Some(puzzle), Some(solution)) => Ok(KnownSpend::Did(Spend { puzzle, solution })),
            _ => Err(ClassifyError::TypedDecode),
        },
        node_tree_hash(a, i) == template_hash_of(Shape::NftStateLayer) && state_layer_inner(a, p) is Some
            && node_tree_hash(a, state_layer_inner(a, p)->0) == template_hash_of(Shape::NftOwnershipLayer)
            ==> parse_result(a, p, s)
            == match (nft_puzzle_at(a, p), nft_solution_at(a, s)) {
            (Some(puzzle), Some(solution)) => Ok(KnownSpend::Nft(Spend { puzzle, solution })),
            _ => Err(ClassifyError::TypedDecode),
        },
{
    lemma_layer_hashes(a, p);
    lemma_terminal_shapes_classify(layer_hashes(a, p));
}

/// A puzzle whose template is not in the registry is an unknown shape,
/// whatever its solution.
pub proof fn lemma_parse_unregistered_outer(a: Allocator, p: NodePtr, s: NodePtr, t: NodePtr)
    requires
        curried_template(a, p) == Some(t),
        shape_of_hash(node_tree_hash(a, t)) is None,
    ensures
        parse_result(a, p, s) == Err::<KnownSpend, ClassifyError>(ClassifyError::UnknownShape),
{
    lemma_layer_hashes(a, p);
    lemma_unregistered_outer_rejected(layer_hashes(a, p));
}

/// A singleton whose inner template is neither the DID inner puzzle nor the
/// state layer is an unknown shape, whatever its solution.
pub proof fn lemma_parse_unknown_singleton_inner(a: Allocator, p: NodePtr, s: NodePtr, t: NodePtr, i: NodePtr)
    requires
        curried_template(a, p) == Some(t),
        node_tree_hash(a, t) == template_hash_of(Shape::SingletonTopLayer),
        singleton_inner(a, p) == Some(i),
        node_tree_hash(a, i) != template_hash_of(Shape::DidInner),
        node_tree_hash(a, i) != template_hash_of(Shape::NftStateLayer),
    ensures
        parse_result(a, p, s) == Err::<KnownSpend, ClassifyError>(ClassifyError::UnknownShape),
{
    lemma_layer_hashes(a, p);
    lemma_unknown_singleton_inner_rejected(layer_hashes(a, p));
}

/// A singleton around a state layer whose inner template is not the ownership
/// layer is an unknown nested layer, never an NFT, whatever its solution.
pub proof fn lemma_parse_state_layer_needs_ownership(
    a: Allocator,
    p: NodePtr,
    s: NodePtr,
    t: NodePtr,
    i: NodePtr,
    o: NodePtr,
)
    requires
        curried_template(a, p) == Some(t),
        node_tree_hash(a, t) == template_hash_of(Shape::SingletonTopLayer),
        singleton_inner(a, p) == Some(i),
        node_tree_hash(a, i) == template_hash_of(Shape::NftStateLayer),
        state_layer_inner(a, p) == Some(o),
        node_tree_hash(a, o) != template_hash_of(Shape::NftOwnershipLayer),
    ensures
        parse_result(a, p, s) == Err::<KnownSpend, ClassifyError>(ClassifyError::UnknownNestedLayer),
{
    lemma_layer_hashes(a, p);
    lemma_state_layer_needs_ownership(layer_hashes(a, p));
}

/// Classification is a function of what it reads: two puzzle/solution pairs,
/// in the same arena or in two, whose layer hashes agree and whose typed
/// decodes agree are classified alike.
pub proof fn lemma_parse_depends_on_what_is_read(
    a1: Allocator,
    p1: NodePtr,
    s1: NodePtr,
    a2: Allocator,
    p2: NodePtr,
    s2: NodePtr,
)
    requires
        layer_hashes(a1, p1) == layer_hashes(a2, p2),
        standard_puzzle_at(a1, p1) == standard_puzzle_at(a2, p2),
        standard_solution_at(a1, s1) == standard_solution_at(a2, s2),
        cat_puzzle_at(a1, p1) == cat_puzzle_at(a2, p2),
        cat_solution_at(a1, s1) == cat_solution_at(a2, s2),
        did_puzzle_at(a1, p1) == did_puzzle_at(a2, p2),
        did_solution_at(a1, s1) == did_solution_at(a2, s2),
        nft_puzzle_at(a1, p1) == nft_puzzle_at(a2, p2),
        nft_solution_at(a1, s1) == nft_solution_at(a2, s2),
    ensures
        parse_result(a1, p1, s1) == parse_result(a2, p2, s2),
{
}

} // verus!
