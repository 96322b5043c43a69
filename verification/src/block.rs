//! Domain types for blocks and their transactions, and the parser that turns
//! a wire-format block (all numeric fields as `0x`-prefixed hex strings) into
//! integers.

use vstd::prelude::*;
use crate::hex::{hex_str_value, parses_to_u64, parse_hex_u64};

verus! {

/// A transaction as it arrives on the wire: every field a hex string.
pub struct RawTransaction {
    pub block_number: String,
    pub index: String,
    pub gas: String,
}

/// A block as it arrives on the wire: numeric fields as hex strings, with the
/// transactions in block order.
pub struct RawBlock {
    pub number: String,
    pub gas_limit: String,
    pub gas_used: String,
    pub transactions: Vec<RawTransaction>,
}

/// A parsed block: its unique number, its gas capacity and its consumption.
#[derive(Clone, Copy, Debug, PartialEq, Eq, Structural)]
pub struct Block {
    pub number: u64,
    pub gas_limit: u64,
    pub gas_used: u64,
}

impl Default for Block {
    /// The all-zero block.
    fn default() -> (r: Block)
        ensures
            r == (Block { number: 0, gas_limit: 0, gas_used: 0 }),
    {
        Block { number: 0, gas_limit: 0, gas_used: 0 }
    }
}

/// A parsed transaction: its gas and its position within the block.
#[derive(Clone, Copy, Debug, PartialEq, Eq, Structural)]
pub struct Transaction {
    pub gas: u64,
    pub index: u64,
}

/// Which field of a wire-format block failed to parse. A transaction field
/// failing means the whole block is rejected: a block is never half parsed.
#[derive(Clone, Copy, Debug, PartialEq, Eq, Structural)]
pub enum ParseError {
    BlockNumber,
    GasLimit,
    GasUsed,
    TransactionGas,
    TransactionIndex,
}

/// A fully parsed block together with its transactions, in block order.
pub struct ParsedBlock {
    pub block: Block,
    pub transactions: Vec<Transaction>,
}

/// True when both numeric fields of a wire transaction parse as `u64`.
pub open spec fn tx_ok(t: RawTransaction) -> bool {
    parses_to_u64(t.gas@) && parses_to_u64(t.index@)
}

/// True when the three numeric header fields of a wire block parse as `u64`.
pub open spec fn header_ok(raw: RawBlock) -> bool {
    parses_to_u64(raw.number@) && parses_to_u64(raw.gas_limit@) && parses_to_u64(raw.gas_used@)
}

/// The error for the first transaction, in block order, with a bad field;
/// `None` when every transaction parses.
pub open spec fn tx_error_of(ts: Seq<RawTransaction>) -> Option<ParseError>
    decreases ts.len(),
{
    if ts.len() == 0 {
        None
    } else if !parses_to_u64(ts[0].gas@) {
        Some(ParseError::TransactionGas)
    } else if !parses_to_u64(ts[0].index@) {
        Some(ParseError::TransactionIndex)
    } else {
        tx_error_of(ts.subrange(1, ts.len() as int))
    }
}

/// The parse error a wire block is rejected with, checking the header fields
/// first and then the transactions in order; `None` when everything parses.
pub open spec fn parse_error_of(raw: RawBlock) -> Option<ParseError> {
    if !parses_to_u64(raw.number@) {
        Some(ParseError::BlockNumber)
    } else if !parses_to_u64(raw.gas_limit@) {
        Some(ParseError::GasLimit)
    } else if !parses_to_u64(raw.gas_used@) {
        Some(ParseError::GasUsed)
    } else {
        tx_error_of(raw.transactions@)
    }
}

/// The block a fully parsing wire block denotes.
pub open spec fn spec_block_of(raw: RawBlock) -> Block {
    Block {
        number: hex_str_value(raw.number@) as u64,
        gas_limit: hex_str_value(raw.gas_limit@) as u64,
        gas_used: hex_str_value(raw.gas_used@) as u64,
    }
}

/// The transactions a fully parsing wire block denotes, in block order.
pub open spec fn spec_txs_of(raw: RawBlock) -> Seq<Transaction> {
    raw.transactions@.map_values(
        |t: RawTransaction|
            Transaction {
                gas: hex_str_value(t.gas@) as u64,
                index: hex_str_value(t.index@) as u64,
            },
    )
}

/// Parses a wire-format block. On any bad field the whole block is rejected
/// with the first failure, header fields before transactions; on success
/// every field is the integer its hex string denotes, transactions kept in
/// block order.
pub fn parse_block(raw: &RawBlock) -> (r: Result<ParsedBlock, ParseError>)
    ensures
        match r {
            Ok(p) => {
                &&& parse_error_of(*raw) is None
                &&& p.block == spec_block_of(*raw)
                &&& p.transactions@ == spec_txs_of(*raw)
            },
            Err(e) => parse_error_of(*raw) == Some(e),
        },
{
    let number = match parse_hex_u64(raw.number.as_str()) {
        Some(v) => v,
        None => { return Err(ParseError::BlockNumber); },
    };
    let gas_limit = match parse_hex_u64(raw.gas_limit.as_str()) {
        Some(v) => v,
        None => { return Err(ParseError::GasLimit); },
    };
    let gas_used = match parse_hex_u64(raw.gas_used.as_str()) {
        Some(v) => v,
        None => { return Err(ParseError::GasUsed); },
    };
    let mut transactions: Vec<Transaction> = Vec::new();
    let n: usize = raw.transactions.len();
    let mut k: usize = 0;
    proof {
        assert(raw.transactions@.subrange(0, n as int) =~= raw.transactions@);
    }
    while k < n
        invariant
            0 <= k <= n,
            n == raw.transactions@.len(),
            header_ok(*raw),
            transactions@.len() == k,
            forall|j: int|
                0 <= j < k ==> #[trigger] transactions@[j] == spec_txs_of(*raw)[j],
            forall|j: int| 0 <= j < k ==> tx_ok(#[trigger] raw.transactions@[j]),
            tx_error_of(raw.transactions@) == tx_error_of(
                raw.transactions@.subrange(k as int, n as int),
            ),
        decreases n - k,
    {
        let t = &raw.transactions[k];
        let ghost tail = raw.transactions@.subrange(k as int, n as int);
        proof {
            assert(tail[0] == raw.transactions@[k as int]);
        }
        let gas = match parse_hex_u64(t.gas.as_str()) {
            Some(v) => v,
            None => {
                proof {
                    assert(tx_error_of(tail) == Some(ParseError::TransactionGas));
                }
                return Err(ParseError::TransactionGas);
            },
        };
        let index = match parse_hex_u64(t.index.as_str()) {
            Some(v) => v,
            None => {
                proof {
                    assert(tx_error_of(tail) == Some(ParseError::TransactionIndex));
                }
                return Err(ParseError::TransactionIndex);
            },
        };
        transactions.push(Transaction { gas, index });
        proof {
            let ts = raw.transactions@;
            assert(ts.subrange(k as int, n as int).subrange(
                1,
                ts.subrange(k as int, n as int).len() as int,
            ) =~= ts.subrange(k + 1, n as int));
        }
        k = k + 1;
    }
    proof {
        assert(raw.transactions@.subrange(k as int, n as int) =~= Seq::<
            RawTransaction,
        >::empty());
        assert(transactions@ =~= spec_txs_of(*raw));
    }
    Ok(
        ParsedBlock {
            block: Block { number, gas_limit, gas_used },
            transactions,
        },
    )
}

} // verus!
