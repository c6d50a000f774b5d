//! The outside types that a classification holds, and the decoding services
//! of `clvmr`, `clvm_traits` and `clvm_utils` that it calls. Nothing inside a
//! value of these types is visible to the proofs: the logic only carries them.

use vstd::prelude::*;
use chia_wallet::cat::{CatArgs, CatSolution};
use chia_wallet::did::{DidArgs, DidSolution};
use chia_wallet::nft::{
    NftMetadata, NftOwnershipLayerArgs, NftOwnershipLayerSolution, NftRoyaltyTransferPuzzleArgs,
    NftStateLayerArgs, NftStateLayerSolution,
};
use chia_wallet::singleton::{SingletonArgs, SingletonSolution};
use chia_wallet::standard::{StandardArgs, StandardSolution};
use clvm_traits::{FromClvmError, FromNodePtr};
use clvm_utils::CurriedProgram;
use clvmr::allocator::NodePtr;
use clvmr::Allocator;

verus! {

#[verifier::external_type_specification]
#[verifier::external_body]
pub struct ExAllocator(Allocator);

#[verifier::external_type_specification]
#[verifier::external_body]
pub struct ExNodePtr(NodePtr);

#[verifier::external_type_specification]
#[verifier::external_body]
pub struct ExFromClvmError(FromClvmError);

#[verifier::external_type_specification]
#[verifier::external_body]
#[verifier::reject_recursive_types(P)]
#[verifier::reject_recursive_types(A)]
pub struct ExCurriedProgram<P, A>(CurriedProgram<P, A>);

#[verifier::external_type_specification]
#[verifier::external_body]
pub struct ExStandardArgs(StandardArgs);

#[verifier::external_type_specification]
#[verifier::external_body]
#[verifier::reject_recursive_types(P)]
#[verifier::reject_recursive_types(S)]
pub struct ExStandardSolution<P, S>(StandardSolution<P, S>);

#[verifier::external_type_specification]
#[verifier::external_body]
#[verifier::reject_recursive_types(I)]
pub struct ExCatArgs<I>(CatArgs<I>);

#[verifier::external_type_specification]
#[verifier::external_body]
#[verifier::reject_recursive_types(I)]
pub struct ExCatSolution<I>(CatSolution<I>);

#[verifier::external_type_specification]
#[verifier::external_body]
#[verifier::reject_recursive_types(I)]
pub struct ExSingletonArgs<I>(SingletonArgs<I>);

#[verifier::external_type_specification]
#[verifier::external_body]
#[verifier::reject_recursive_types(I)]
pub struct ExSingletonSolution<I>(SingletonSolution<I>);

#[verifier::external_type_specification]
#[verifier::external_body]
#[verifier::reject_recursive_types(I)]
#[verifier::reject_recursive_types(M)]
pub struct ExNftStateLayerArgs<I, M>(NftStateLayerArgs<I, M>);

#[verifier::external_type_specification]
#[verifier::external_body]
pub struct ExNftMetadata(NftMetadata);

#[verifier::external_type_specification]
#[verifier::external_body]
#[verifier::reject_recursive_types(I)]
#[verifier::reject_recursive_types(P)]
pub struct ExNftOwnershipLayerArgs<I, P>(NftOwnershipLayerArgs<I, P>);

#[verifier::external_type_specification]
#[verifier::external_body]
pub struct ExNftRoyaltyTransferPuzzleArgs(NftRoyaltyTransferPuzzleArgs);

#[verifier::external_type_specification]
#[verifier::external_body]
#[verifier::reject_recursive_types(I)]
pub struct ExNftStateLayerSolution<I>(NftStateLayerSolution<I>);

#[verifier::external_type_specification]
#[verifier::external_body]
#[verifier::reject_recursive_types(I)]
pub struct ExNftOwnershipLayerSolution<I>(NftOwnershipLayerSolution<I>);

#[verifier::external_type_specification]
#[verifier::external_body]
#[verifier::reject_recursive_types(I)]
#[verifier::reject_recursive_types(M)]
pub struct ExDidArgs<I, M>(DidArgs<I, M>);

#[verifier::external_type_specification]
#[verifier::external_body]
#[verifier::reject_recursive_types(I)]
pub struct ExDidSolution<I>(DidSolution<I>);

/// A singleton puzzle whose inner puzzle has type `T`.
pub type Singleton<T> = CurriedProgram<NodePtr, SingletonArgs<T>>;

/// An NFT state layer whose inner puzzle has type `T`.
pub type NftState<T> = CurriedProgram<NodePtr, NftStateLayerArgs<T, NftMetadata>>;

/// An NFT ownership layer whose inner puzzle has type `T`.
pub type NftOwnership<T> = CurriedProgram<NodePtr, NftOwnershipLayerArgs<T, TransferProgram>>;

/// The royalty transfer program of an NFT ownership layer.
pub type TransferProgram = CurriedProgram<NodePtr, NftRoyaltyTransferPuzzleArgs>;

/// A DID inner puzzle whose own inner puzzle has type `T`.
pub type Did<T> = CurriedProgram<NodePtr, DidArgs<T, NodePtr>>;

/// A CAT puzzle whose inner puzzle has type `T`.
pub type Cat<T> = CurriedProgram<NodePtr, CatArgs<T>>;

/// A standard-transaction puzzle.
pub type Standard = CurriedProgram<NodePtr, StandardArgs>;

/// The full three-layer NFT puzzle.
pub type NftPuzzle = Singleton<NftState<NftOwnership<NodePtr>>>;

/// The solution of a full three-layer NFT puzzle.
pub type NftSolution = SingletonSolution<NftStateLayerSolution<NftOwnershipLayerSolution<NodePtr>>>;

/// The full DID puzzle.
pub type DidPuzzle = Singleton<Did<NodePtr>>;

/// Whether `n` is a node of the arena `a`.
pub uninterp spec fn holds_node(a: Allocator, n: NodePtr) -> bool;

/// Whether `node_from_bytes` reads one tree from `b` into `a`.
pub uninterp spec fn reads_tree(a: Allocator, b: Seq<u8>) -> bool;

/// The structural hash that `tree_hash` gives of the tree at `n` in `a`.
pub uninterp spec fn node_tree_hash(a: Allocator, n: NodePtr) -> Seq<u8>;

/// The template of the curried program at `n`, if it is one.
pub uninterp spec fn curried_template(a: Allocator, n: NodePtr) -> Option<NodePtr>;

/// The template of the curried inner puzzle of the singleton at `n`, if it is one.
pub uninterp spec fn singleton_inner(a: Allocator, n: NodePtr) -> Option<NodePtr>;

/// The template of the curried inner puzzle of the NFT state layer inside the
/// singleton at `n`, if it is one.
pub uninterp spec fn state_layer_inner(a: Allocator, n: NodePtr) -> Option<NodePtr>;

/// The standard puzzle at `n`, if it decodes as one.
pub uninterp spec fn standard_puzzle_at(a: Allocator, n: NodePtr) -> Option<Standard>;

/// The standard solution at `n`, if it decodes as one.
pub uninterp spec fn standard_solution_at(a: Allocator, n: NodePtr) -> Option<StandardSolution<NodePtr, NodePtr>>;

/// The CAT puzzle at `n`, if it decodes as one.
pub uninterp spec fn cat_puzzle_at(a: Allocator, n: NodePtr) -> Option<Cat<NodePtr>>;

/// The CAT solution at `n`, if it decodes as one.
pub uninterp spec fn cat_solution_at(a: Allocator, n: NodePtr) -> Option<CatSolution<NodePtr>>;

/// The DID puzzle at `n`, if it decodes as one.
pub uninterp spec fn did_puzzle_at(a: Allocator, n: NodePtr) -> Option<DidPuzzle>;

/// The DID solution at `n`, if it decodes as one.
pub uninterp spec fn did_solution_at(a: Allocator, n: NodePtr) -> Option<SingletonSolution<DidSolution<NodePtr>>>;

/// The NFT puzzle at `n`, if it decodes as one.
pub uninterp spec fn nft_puzzle_at(a: Allocator, n: NodePtr) -> Option<NftPuzzle>;

/// The NFT solution at `n`, if it decodes as one.
pub uninterp spec fn nft_solution_at(a: Allocator, n: NodePtr) -> Option<NftSolution>;

/// Relies on `clvmr::serde::node_from_bytes`: reads one serialized tree into
/// `a`, or fails on a malformed blob. The arena only grows: its nodes stay.
#[verifier::external_body]
pub(crate) fn node_from_bytes(a: &mut Allocator, b: &[u8]) -> (r: Option<NodePtr>)
    ensures
        r is Some <==> reads_tree(*old(a), b@),
        r matches Some(n) ==> holds_node(*final(a), n),
        forall|m: NodePtr| holds_node(*old(a), m) ==> #[trigger] holds_node(*final(a), m),
{
    clvmr::serde::node_from_bytes(a, b).ok()
}

/// Relies on `clvm_utils::tree_hash`: the structural hash of the tree at
/// `node`. It indexes the arena, so `node` must be one of its nodes.
#[verifier::external_body]
pub(crate) fn tree_hash(a: &Allocator, node: NodePtr) -> (r: [u8; 32])
    requires
        holds_node(*a, node),
    ensures
        r@ == node_tree_hash(*a, node),
{
    clvm_utils::tree_hash(a, node)
}

/// Relies on `CurriedProgram<NodePtr, NodePtr>::from_node_ptr`: the template
/// of a curried program, a node of the same arena, or an error when `node` is
/// not in curried form.
#[verifier::external_body]
pub(crate) fn uncurried_template(a: &Allocator, node: NodePtr) -> (r: Result<NodePtr, FromClvmError>)
    requires
        holds_node(*a, node),
    ensures
        r is Err <==> curried_template(*a, node) is None,
        r matches Ok(t) ==> curried_template(*a, node) == Some(t) && holds_node(*a, t),
{
    CurriedProgram::<NodePtr, NodePtr>::from_node_ptr(a, node).map(|c| c.program)
}

/// Relies on `Singleton<CurriedProgram<NodePtr, NodePtr>>::from_node_ptr`: the
/// template of a singleton's curried inner puzzle, or an error when `node` is
/// not a singleton around a curried program.
#[verifier::external_body]
pub(crate) fn singleton_inner_template(a: &Allocator, node: NodePtr) -> (r: Result<NodePtr, FromClvmError>)
    requires
        holds_node(*a, node),
    ensures
        r is Err <==> singleton_inner(*a, node) is None,
        r matches Ok(t) ==> singleton_inner(*a, node) == Some(t) && holds_node(*a, t),
{
    Singleton::<CurriedProgram<NodePtr, NodePtr>>::from_node_ptr(a, node).map(|s| s.args.inner_puzzle.program)
}

/// Relies on `Singleton<NftState<CurriedProgram<NodePtr, NodePtr>>>::from_node_ptr`:
/// the template of the curried inner puzzle of the state layer inside the
/// singleton, or an error when `node` does not have that shape.
#[verifier::external_body]
pub(crate) fn state_layer_inner_template(a: &Allocator, node: NodePtr) -> (r: Result<NodePtr, FromClvmError>)
    requires
        holds_node(*a, node),
    ensures
        r is Err <==> state_layer_inner(*a, node) is None,
        r matches Ok(t) ==> state_layer_inner(*a, node) == Some(t) && holds_node(*a, t),
{
    Singleton::<NftState<CurriedProgram<NodePtr, NodePtr>>>::from_node_ptr(a, node)
        .map(|s| s.args.inner_puzzle.args.inner_puzzle.program)
}

/// Relies on `Standard::from_node_ptr`: the typed value at `node`, a function of the
/// arena and the node, or an error when it does not have that structure.
#[verifier::external_body]
pub(crate) fn decode_standard_puzzle(a: &Allocator, node: NodePtr) -> (r: Result<Standard, FromClvmError>)
    requires
        holds_node(*a, node),
    ensures
        r is Err <==> standard_puzzle_at(*a, node) is None,
        r matches Ok(v) ==> standard_puzzle_at(*a, node) == Some(v),
{
    Standard::from_node_ptr(a, node)
}

/// Relies on `StandardSolution<NodePtr, NodePtr>::from_node_ptr`: the typed value at `node`, a function of the
/// arena and the node, or an error when it does not have that structure.
#[verifier::external_body]
pub(crate) fn decode_standard_solution(a: &Allocator, node: NodePtr) -> (r: Result<StandardSolution<NodePtr, NodePtr>, FromClvmError>)
    requires
        holds_node(*a, node),
    ensures
        r is Err <==> standard_solution_at(*a, node) is None,
        r matches Ok(v) ==> standard_solution_at(*a, node) == Some(v),
{
    StandardSolution::<NodePtr, NodePtr>::from_node_ptr(a, node)
}

/// Relies on `Cat<NodePtr>::from_node_ptr`: the typed value at `node`, a function of the
/// arena and the node, or an error when it does not have that structure.
#[verifier::external_body]
pub(crate) fn decode_cat_puzzle(a: &Allocator, node: NodePtr) -> (r: Result<Cat<NodePtr>, FromClvmError>)
    requires
        holds_node(*a, node),
    ensures
        r is Err <==> cat_puzzle_at(*a, node) is None,
        r matches Ok(v) ==> cat_puzzle_at(*a, node) == Some(v),
{
    Cat::<NodePtr>::from_node_ptr(a, node)
}

/// Relies on `CatSolution<NodePtr>::from_node_ptr`: the typed value at `node`, a function of the
/// arena and the node, or an error when it does not have that structure.
#[verifier::external_body]
pub(crate) fn decode_cat_solution(a: &Allocator, node: NodePtr) -> (r: Result<CatSolution<NodePtr>, FromClvmError>)
    requires
        holds_node(*a, node),
    ensures
        r is Err <==> cat_solution_at(*a, node) is None,
        r matches Ok(v) ==> cat_solution_at(*a, node) == Some(v),
{
    CatSolution::<NodePtr>::from_node_ptr(a, node)
}

/// Relies on `DidPuzzle::from_node_ptr`: the typed value at `node`, a function of the
/// arena and the node, or an error when it does not have that structure.
#[verifier::external_body]
pub(crate) fn decode_did_puzzle(a: &Allocator, node: NodePtr) -> (r: Result<DidPuzzle, FromClvmError>)
    requires
        holds_node(*a, node),
    ensures
        r is Err <==> did_puzzle_at(*a, node) is None,
        r matches Ok(v) ==> did_puzzle_at(*a, node) == Some(v),
{
    DidPuzzle::from_node_ptr(a, node)
}

/// Relies on `SingletonSolution<DidSolution<NodePtr>>::from_node_ptr`: the typed value at `node`, a function of the
/// arena and the node, or an error when it does not have that structure.
#[verifier::external_body]
pub(crate) fn decode_did_solution(a: &Allocator, node: NodePtr) -> (r: Result<SingletonSolution<DidSolution<NodePtr>>, FromClvmError>)
    requires
        holds_node(*a, node),
    ensures
        r is Err <==> did_solution_at(*a, node) is None,
        r matches Ok(v) ==> did_solution_at(*a, node) == Some(v),
{
    SingletonSolution::<DidSolution<NodePtr>>::from_node_ptr(a, node)
}

/// Relies on `NftPuzzle::from_node_ptr`: the typed value at `node`, a function of the
/// arena and the node, or an error when it does not have that structure.
#[verifier::external_body]
pub(crate) fn decode_nft_puzzle(a: &Allocator, node: NodePtr) -> (r: Result<NftPuzzle, FromClvmError>)
    requires
        holds_node(*a, node),
    ensures
        r is Err <==> nft_puzzle_at(*a, node) is None,
        r matches Ok(v) ==> nft_puzzle_at(*a, node) == Some(v),
{
    NftPuzzle::from_node_ptr(a, node)
}

/// Relies on `NftSolution::from_node_ptr`: the typed value at `node`, a function of the
/// arena and the node, or an error when it does not have that structure.
#[verifier::external_body]
pub(crate) fn decode_nft_solution(a: &Allocator, node: NodePtr) -> (r: Result<NftSolution, FromClvmError>)
    requires
        holds_node(*a, node),
    ensures
        r is Err <==> nft_solution_at(*a, node) is None,
        r matches Ok(v) ==> nft_solution_at(*a, node) == Some(v),
{
    NftSolution::from_node_ptr(a, node)
}

} // verus!
