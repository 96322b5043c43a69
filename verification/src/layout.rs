//! The layout engine: from a block and its ordered transactions to a stack of
//! non-overlapping geometry.
//!
//! All lengths and positions along the stack axis are integers counted in
//! *layout units*: one unit is `1/(20 * gas_limit)` of the container's
//! reference size. On that grid both every transaction's share of the gas
//! limit and the fixed inter-marker spacing of `1/20` of the container are
//! exact, so the layout involves no rounding and no division.
//!
//! In these units, for a block with gas limit `gl`:
//! - the container's reference size is `20 * gl` and it is centered on the
//!   axis origin, reaching from `-10 * gl` to `10 * gl`;
//! - the fill's size is `20 * gas_used`, sitting on the container's bottom;
//! - a transaction with gas `g` has span `20 * g` and the spacing is `gl`;
//! - the running offset starts at `10 * gl - gl` (the container's top minus
//!   one spacing) and, after each marker, decrements by that marker's span
//!   plus one spacing. A marker is centered half its span below the offset.
//!
//! The decrement by the full span plus spacing is the variant of the running
//! offset that keeps consecutive markers exactly one spacing apart, which is
//! what `lemma_markers_never_overlap` proves.

use vstd::prelude::*;
use crate::block::{Block, Transaction};

verus! {

/// The container's reference size (the value `1.0`) in layout units.
pub open spec fn container_units(gl: u64) -> int {
    20 * gl
}

/// Half the container's reference size in layout units.
pub open spec fn half_units(gl: u64) -> int {
    10 * gl
}

/// The inter-marker spacing (the value `0.05`) in layout units.
pub open spec fn spacing_units(gl: u64) -> int {
    gl as int
}

/// A transaction's exact span, its gas as a share of the gas limit.
pub open spec fn span_units(gas: u64) -> int {
    20 * gas
}

/// A transaction's displayed span: its exact span held to a floor of `0.05`
/// and a ceiling of `1.0` of the container. Display only: the running offset
/// never uses this.
pub open spec fn display_units(gl: u64, gas: u64) -> int {
    if span_units(gas) < spacing_units(gl) {
        spacing_units(gl)
    } else if span_units(gas) > container_units(gl) {
        container_units(gl)
    } else {
        span_units(gas)
    }
}

/// The running offset before the `k`-th marker is placed: the container's top
/// minus one spacing, decremented per placed marker by its span plus one
/// spacing.
pub open spec fn offset_at(gl: u64, txs: Seq<Transaction>, k: int) -> int
    decreases k,
{
    if k <= 0 {
        half_units(gl) - spacing_units(gl)
    } else {
        offset_at(gl, txs, k - 1) - span_units(txs[k - 1].gas) - spacing_units(gl)
    }
}

/// The center of the `k`-th marker: half its span below the running offset,
/// so its top edge sits exactly at the offset.
pub open spec fn marker_center(gl: u64, txs: Seq<Transaction>, k: int) -> int {
    offset_at(gl, txs, k) - 10 * txs[k].gas
}

/// The top edge of the `k`-th marker.
pub open spec fn marker_top(gl: u64, txs: Seq<Transaction>, k: int) -> int {
    marker_center(gl, txs, k) + 10 * txs[k].gas
}

/// The bottom edge of the `k`-th marker.
pub open spec fn marker_bottom(gl: u64, txs: Seq<Transaction>, k: int) -> int {
    marker_center(gl, txs, k) - 10 * txs[k].gas
}

/// The sum of the transactions' gas values.
pub open spec fn sum_gas(txs: Seq<Transaction>) -> int
    decreases txs.len(),
{
    if txs.len() == 0 {
        0
    } else {
        sum_gas(txs.drop_last()) + txs.last().gas
    }
}

/// One marker of the emitted stack. `span` is the transaction's exact share
/// of the gas limit; `display_span` is the clamped size it is drawn at;
/// `center` is its position on the stack axis. All in layout units.
#[derive(Clone, Copy, Debug, PartialEq, Eq, Structural)]
pub struct Marker {
    pub index: u64,
    pub gas: u64,
    pub span: u128,
    pub display_span: u128,
    pub center: i128,
}

/// An ordered list of line segments on the stack axis, each a start and an
/// end position, in layout units.
#[derive(Clone, Debug)]
pub struct LineList {
    pub lines: Vec<(i128, i128)>,
}

impl LineList {
    /// The segments flattened to a vertex list, every consecutive pair one
    /// segment's start and end.
    pub fn vertices(&self) -> (r: Vec<i128>)
        ensures
            r@.len() == 2 * self.lines@.len(),
            forall|k: int|
                0 <= k < self.lines@.len() ==> r@[2 * k] == (#[trigger] self.lines@[k]).0 && r@[2
                    * k + 1] == self.lines@[k].1,
    {
        let mut r: Vec<i128> = Vec::new();
        let n: usize = self.lines.len();
        let mut k: usize = 0;
        while k < n
            invariant
                0 <= k <= n,
                n == self.lines@.len(),
                r@.len() == 2 * k,
                forall|j: int|
                    0 <= j < k ==> r@[2 * j] == (#[trigger] self.lines@[j]).0 && r@[2 * j + 1]
                        == self.lines@[j].1,
            decreases n - k,
        {
            let (a, b) = self.lines[k];
            r.push(a);
            r.push(b);
            k = k + 1;
        }
        r
    }
}

/// An ordered list of points on the stack axis with a line drawn between each
/// consecutive pair, in layout units.
#[derive(Clone, Debug)]
pub struct LineStrip {
    pub points: Vec<i128>,
}

impl LineStrip {
    /// The strip's vertex list: the points themselves, in order.
    pub fn vertices(&self) -> (r: Vec<i128>)
        ensures
            r@ == self.points@,
    {
        let mut r: Vec<i128> = Vec::new();
        let n: usize = self.points.len();
        let mut k: usize = 0;
        while k < n
            invariant
                0 <= k <= n,
                n == self.points@.len(),
                r@ =~= self.points@.subrange(0, k as int),
            decreases n - k,
        {
            r.push(self.points[k]);
            k = k + 1;
        }
        proof {
            assert(self.points@.subrange(0, n as int) =~= self.points@);
        }
        r
    }
}

/// Why a block was rejected instead of laid out. A rejected block produces no
/// geometry at all: a block is never half laid out.
#[derive(Clone, Copy, Debug, PartialEq, Eq, Structural)]
pub enum LayoutError {
    /// The gas limit is zero, so no share of it is defined.
    ZeroGasLimit,
    /// The block claims to have used more gas than its limit.
    GasUsedExceedsLimit,
    /// The running offset left the representable range of positions.
    OffsetOutOfRange,
}

/// The geometry emitted for one block, all in layout units: the container
/// sized by the gas limit, the fill sized by the gas used sitting on the
/// container's bottom, one marker per transaction in block order, and one
/// connecting segment per marker — the first from the axis origin to the
/// first marker, each later one from the previous marker to the next.
#[derive(Clone, Debug)]
pub struct Layout {
    pub container_span: u128,
    pub fill_span: u128,
    pub fill_center: i128,
    pub markers: Vec<Marker>,
    pub segments: LineList,
}

/// The error a block is rejected with, or `None` when it can be laid out.
pub open spec fn layout_error_of(b: Block, txs: Seq<Transaction>) -> Option<LayoutError> {
    if b.gas_limit == 0 {
        Some(LayoutError::ZeroGasLimit)
    } else if b.gas_used > b.gas_limit {
        Some(LayoutError::GasUsedExceedsLimit)
    } else if offset_at(b.gas_limit, txs, txs.len() as int) < i128::MIN {
        Some(LayoutError::OffsetOutOfRange)
    } else {
        None
    }
}

/// The `k`-th marker of `l` is the `k`-th transaction's, placed at the
/// running offset with its exact span, displayed at its clamped span.
pub open spec fn marker_matches(gl: u64, txs: Seq<Transaction>, l: Layout, k: int) -> bool {
    &&& l.markers@[k].index == txs[k].index
    &&& l.markers@[k].gas == txs[k].gas
    &&& l.markers@[k].span == span_units(txs[k].gas)
    &&& l.markers@[k].display_span == display_units(gl, txs[k].gas)
    &&& l.markers@[k].center == marker_center(gl, txs, k)
}

/// The `k`-th segment of `l` runs from the previous marker's center (the
/// axis origin before the first) to the `k`-th marker's center.
pub open spec fn segment_matches(gl: u64, txs: Seq<Transaction>, l: Layout, k: int) -> bool {
    &&& l.segments.lines@[k].0 == if k == 0 {
        0int
    } else {
        marker_center(gl, txs, k - 1)
    }
    &&& l.segments.lines@[k].1 == marker_center(gl, txs, k)
}

/// `l` is exactly the geometry for block `b` with transactions `txs`.
pub open spec fn is_layout_for(b: Block, txs: Seq<Transaction>, l: Layout) -> bool {
    &&& l.container_span == container_units(b.gas_limit)
    &&& l.fill_span == span_units(b.gas_used)
    &&& l.fill_center == -half_units(b.gas_limit) + 10 * b.gas_used
    &&& l.markers@.len() == txs.len()
    &&& forall|k: int| 0 <= k < txs.len() ==> #[trigger] marker_matches(b.gas_limit, txs, l, k)
    &&& l.segments.lines@.len() == txs.len()
    &&& forall|k: int| 0 <= k < txs.len() ==> #[trigger] segment_matches(b.gas_limit, txs, l, k)
}

/// The running offset never increases along the stack.
proof fn lemma_offset_monotone(gl: u64, txs: Seq<Transaction>, j: int, k: int)
    requires
        0 <= j <= k,
    ensures
        offset_at(gl, txs, k) <= offset_at(gl, txs, j),
    decreases k - j,
{
    if j < k {
        lemma_offset_monotone(gl, txs, j, k - 1);
    }
}

/// Lays a block out. Fails — with no geometry emitted at all — exactly when
/// the gas limit is zero, the gas used exceeds it, or the running offset
/// would leave the representable range; otherwise returns exactly the
/// geometry of `is_layout_for`.
pub fn layout_block(b: &Block, txs: &Vec<Transaction>) -> (r: Result<Layout, LayoutError>)
    ensures
        match r {
            Ok(l) => layout_error_of(*b, txs@) is None && is_layout_for(*b, txs@, l),
            Err(e) => layout_error_of(*b, txs@) == Some(e),
        },
{
    if b.gas_limit == 0 {
        return Err(LayoutError::ZeroGasLimit);
    }
    if b.gas_used > b.gas_limit {
        return Err(LayoutError::GasUsedExceedsLimit);
    }
    let gl: u64 = b.gas_limit;
    let gl_i: i128 = gl as i128;
    let container_span: u128 = 20 * (gl as u128);
    let fill_span: u128 = 20 * (b.gas_used as u128);
    let fill_center: i128 = -(10 * gl_i) + 10 * (b.gas_used as i128);
    let mut markers: Vec<Marker> = Vec::new();
    let mut lines: Vec<(i128, i128)> = Vec::new();
    let mut offset: i128 = 10 * gl_i - gl_i;
    let mut prev: i128 = 0;
    let n: usize = txs.len();
    let mut k: usize = 0;
    while k < n
        invariant
            0 <= k <= n,
            n == txs@.len(),
            gl == b.gas_limit,
            gl >= 1,
            b.gas_used <= b.gas_limit,
            gl_i == gl as i128,
            container_span == container_units(gl),
            offset == offset_at(gl, txs@, k as int),
            i128::MIN <= offset <= half_units(gl) - spacing_units(gl),
            markers@.len() == k,
            lines@.len() == k,
            forall|j: int|
                0 <= j < k ==> {
                    &&& (#[trigger] markers@[j]).index == txs@[j].index
                    &&& markers@[j].gas == txs@[j].gas
                    &&& markers@[j].span == span_units(txs@[j].gas)
                    &&& markers@[j].display_span == display_units(gl, txs@[j].gas)
                    &&& markers@[j].center == marker_center(gl, txs@, j)
                },
            forall|j: int|
                0 <= j < k ==> {
                    &&& (#[trigger] lines@[j]).0 == if j == 0 {
                        0int
                    } else {
                        marker_center(gl, txs@, j - 1)
                    }
                    &&& lines@[j].1 == marker_center(gl, txs@, j)
                },
            prev == if k == 0 {
                0int
            } else {
                marker_center(gl, txs@, k - 1)
            },
        decreases n - k,
    {
        let t = &txs[k];
        let dec: i128 = 20 * (t.gas as i128) + gl_i;
        if offset < i128::MIN + dec {
            proof {
                assert(offset_at(gl, txs@, k + 1) == offset - dec);
                lemma_offset_monotone(gl, txs@, k + 1, txs@.len() as int);
            }
            return Err(LayoutError::OffsetOutOfRange);
        }
        let center: i128 = offset - 10 * (t.gas as i128);
        let span: u128 = 20 * (t.gas as u128);
        let display_span: u128 = if span < gl as u128 {
            gl as u128
        } else if span > container_span {
            container_span
        } else {
            span
        };
        markers.push(
            Marker { index: t.index, gas: t.gas, span, display_span, center },
        );
        lines.push((prev, center));
        prev = center;
        offset = offset - dec;
        k = k + 1;
    }
    proof {
        lemma_offset_monotone(gl, txs@, 0, n as int);
    }
    Ok(Layout { container_span, fill_span, fill_center, markers, segments: LineList { lines } })
}

/// Law: markers never overlap. The bottom edge of each marker sits exactly
/// one spacing above the top edge of the next, for every block and every
/// transaction list — whatever the spans, clamped for display or not.
pub proof fn lemma_markers_never_overlap(gl: u64, txs: Seq<Transaction>, k: int)
    requires
        gl >= 1,
        0 <= k,
        k + 1 < txs.len(),
    ensures
        marker_bottom(gl, txs, k) == marker_top(gl, txs, k + 1) + spacing_units(gl),
        marker_bottom(gl, txs, k) > marker_top(gl, txs, k + 1),
{
    assert(offset_at(gl, txs, k + 1) == offset_at(gl, txs, k) - span_units(txs[k].gas)
        - spacing_units(gl));
}

/// Law: the stack's total extent — from the top edge of the first marker to
/// the bottom edge of the last — is exactly the sum of the spans plus one
/// spacing between each consecutive pair; the first marker's top sits one
/// spacing below the container's top; and when the transactions' gas sums to
/// at most the gas limit, the spans sum to at most the container's reference
/// size.
pub proof fn lemma_layout_sum(gl: u64, txs: Seq<Transaction>)
    requires
        gl >= 1,
        txs.len() >= 1,
    ensures
        marker_top(gl, txs, 0) - marker_bottom(gl, txs, txs.len() - 1) == 20 * sum_gas(txs) + (
        txs.len() - 1) * spacing_units(gl),
        marker_top(gl, txs, 0) == half_units(gl) - spacing_units(gl),
        sum_gas(txs) <= gl ==> 20 * sum_gas(txs) <= container_units(gl),
{
    lemma_offset_sum(gl, txs, txs.len() as int);
    assert(txs.subrange(0, txs.len() as int) =~= txs);
    assert((txs.len() - 1) * spacing_units(gl) == txs.len() * spacing_units(gl) - spacing_units(
        gl,
    )) by (nonlinear_arith);
}

/// The running offset in closed form: the starting offset minus the spans
/// and spacings of the markers already placed.
proof fn lemma_offset_sum(gl: u64, txs: Seq<Transaction>, k: int)
    requires
        0 <= k <= txs.len(),
    ensures
        offset_at(gl, txs, k) == half_units(gl) - spacing_units(gl) - 20 * sum_gas(
            txs.subrange(0, k),
        ) - k * spacing_units(gl),
    decreases k,
{
    if k == 0 {
        assert(txs.subrange(0, 0) =~= Seq::<Transaction>::empty());
    } else {
        lemma_offset_sum(gl, txs, k - 1);
        let p = txs.subrange(0, k);
        assert(p.drop_last() =~= txs.subrange(0, k - 1));
        assert(p.last() == txs[k - 1]);
        assert(sum_gas(p) == sum_gas(txs.subrange(0, k - 1)) + txs[k - 1].gas);
        assert((k - 1) * spacing_units(gl) + spacing_units(gl) == k * spacing_units(gl))
            by (nonlinear_arith);
    }
}

/// Law: clamping is display-only. A transaction whose exact span is below
/// the floor is displayed at the floor, yet the running offset still
/// advances by the exact span plus one spacing.
pub proof fn lemma_clamp_is_display_only(gl: u64, txs: Seq<Transaction>, k: int)
    requires
        gl >= 1,
        0 <= k < txs.len(),
        span_units(txs[k].gas) < spacing_units(gl),
    ensures
        display_units(gl, txs[k].gas) == spacing_units(gl),
        offset_at(gl, txs, k + 1) == offset_at(gl, txs, k) - span_units(txs[k].gas)
            - spacing_units(gl),
{
    assert(offset_at(gl, txs, k + 1) == offset_at(gl, txs, k) - span_units(txs[k].gas)
        - spacing_units(gl));
}

/// Law: a block with no transactions lays out as the container and the fill
/// alone: no markers and no segments.
pub proof fn lemma_empty_block_layout(b: Block, l: Layout)
    requires
        is_layout_for(b, Seq::<Transaction>::empty(), l),
    ensures
        l.markers@.len() == 0,
        l.segments.lines@.len() == 0,
{
}

} // verus!
