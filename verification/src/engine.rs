//! The processing step for one fetched block: parse it, decide through the
//! dedup gate whether it is new, and lay it out. Geometry is emitted exactly
//! once per block number, and a block is marked as known only when its
//! geometry was actually emitted, so a rejected block can be resubmitted.

use vstd::prelude::*;
use crate::block::{Block, ParseError, RawBlock, Transaction, parse_block, parse_error_of, spec_block_of, spec_txs_of};
use crate::dedup::KnownBlocks;
use crate::layout::{Layout, LayoutError, is_layout_for, layout_block, layout_error_of};

verus! {

/// What processing one parsed block did.
#[derive(Debug)]
pub enum BlockOutcome {
    /// The block was new and valid: its geometry, emitted exactly now.
    Created(Layout),
    /// A block with this number was already rendered; nothing changed.
    Duplicate,
    /// The block was new but cannot be laid out; it was not marked as known.
    Rejected(LayoutError),
}

/// Whether submitting this block to the given set of known numbers emits
/// geometry: it does exactly when its number is new and it lays out.
pub open spec fn creates(s: Set<u64>, b: Block, txs: Seq<Transaction>) -> bool {
    !s.contains(b.number) && layout_error_of(b, txs) is None
}

/// The set of known numbers after submitting this block: grown by its number
/// exactly when geometry was emitted for it.
pub open spec fn known_after(s: Set<u64>, b: Block, txs: Seq<Transaction>) -> Set<u64> {
    if creates(s, b, txs) {
        s.insert(b.number)
    } else {
        s
    }
}

/// Law: submitting the same block twice emits geometry exactly once. After a
/// submission that created geometry, resubmitting the block — with any
/// transaction list — creates nothing and leaves the known set unchanged.
pub proof fn lemma_dedup_second_submission(
    s: Set<u64>,
    b: Block,
    txs: Seq<Transaction>,
    txs2: Seq<Transaction>,
)
    requires
        creates(s, b, txs),
    ensures
        !creates(known_after(s, b, txs), b, txs2),
        known_after(known_after(s, b, txs), b, txs2) == known_after(s, b, txs),
{
}

/// Processes one parsed block against the known set: duplicate numbers are
/// dropped, a new block is laid out, and its number is marked known exactly
/// when geometry was emitted — a rejected block stays unknown, so a corrected
/// fetch of the same number can be retried.
pub fn process_block(known: &mut KnownBlocks, b: &Block, txs: &Vec<Transaction>) -> (r:
    BlockOutcome)
    ensures
        final(known)@ == known_after(old(known)@, *b, txs@),
        r is Duplicate <==> old(known)@.contains(b.number),
        r is Created <==> creates(old(known)@, *b, txs@),
        (r matches BlockOutcome::Created(l) ==> is_layout_for(*b, txs@, l)),
        (r matches BlockOutcome::Rejected(e) ==> layout_error_of(*b, txs@) == Some(e)),
{
    if known.contains(b.number) {
        return BlockOutcome::Duplicate;
    }
    match layout_block(b, txs) {
        Ok(l) => {
            known.insert(b.number);
            BlockOutcome::Created(l)
        },
        Err(e) => BlockOutcome::Rejected(e),
    }
}

/// Processes one wire-format block: parses it, then submits it to the dedup
/// gate and the layout engine. A response that does not parse is dropped with
/// its error — never a panic — and changes nothing.
pub fn handle_response(known: &mut KnownBlocks, raw: &RawBlock) -> (r: Result<
    BlockOutcome,
    ParseError,
>)
    ensures
        r is Ok <==> parse_error_of(*raw) is None,
        (r matches Err(e) ==> parse_error_of(*raw) == Some(e) && final(known)@ == old(known)@),
        (r matches Ok(outcome) ==> {
            &&& final(known)@ == known_after(old(known)@, spec_block_of(*raw), spec_txs_of(*raw))
            &&& outcome is Duplicate <==> old(known)@.contains(spec_block_of(*raw).number)
            &&& outcome is Created <==> creates(old(known)@, spec_block_of(*raw), spec_txs_of(*raw))
            &&& (outcome matches BlockOutcome::Created(l) ==> is_layout_for(
                spec_block_of(*raw),
                spec_txs_of(*raw),
                l,
            ))
            &&& (outcome matches BlockOutcome::Rejected(e) ==> layout_error_of(
                spec_block_of(*raw),
                spec_txs_of(*raw),
            ) == Some(e))
        }),
{
    let parsed = match parse_block(raw) {
        Ok(p) => p,
        Err(e) => { return Err(e); },
    };
    Ok(process_block(known, &parsed.block, &parsed.transactions))
}

/// The fixed request body asking the endpoint for the latest block with its
/// full transaction objects.
pub fn request_body() -> (r: &'static str)
    ensures
        r@ == "{\"jsonrpc\":\"2.0\",\"method\":\"eth_getBlockByNumber\",\"params\":[\"latest\",true],\"id\":1}"@,
{
    "{\"jsonrpc\":\"2.0\",\"method\":\"eth_getBlockByNumber\",\"params\":[\"latest\",true],\"id\":1}"
}

} // verus!
