//! The layout engine on concrete blocks. All positions and sizes are in
//! layout units: 1/(20 * gas_limit) of the container's reference size, so the
//! container spans 20 * gas_limit units and the spacing is gas_limit units.

use blockviz::block::{Block, Transaction};
use blockviz::layout::{layout_block, LayoutError, LineList, LineStrip};

#[test]
fn zero_transactions_emit_container_and_fill_only() {
    let b = Block { number: 1, gas_limit: 100, gas_used: 40 };
    let l = layout_block(&b, &vec![]).unwrap();
    assert_eq!(l.container_span, 2000);
    assert_eq!(l.fill_span, 800);
    assert_eq!(l.markers.len(), 0);
    assert_eq!(l.segments.lines.len(), 0);
}

#[test]
fn fill_is_gas_used_share_sitting_on_the_bottom() {
    let b = Block { number: 1, gas_limit: 100, gas_used: 50 };
    let l = layout_block(&b, &vec![]).unwrap();
    // half the container, centered a quarter below the origin
    assert_eq!(l.fill_span, 1000);
    assert_eq!(l.fill_center, -500);
}

#[test]
fn marker_below_floor_is_displayed_at_floor_but_offsets_by_true_span() {
    let b = Block { number: 1, gas_limit: 1000, gas_used: 1000 };
    // gas 10 of 1000 is a 0.01 share: below the 0.05 display floor
    let txs = vec![
        Transaction { gas: 10, index: 0 },
        Transaction { gas: 10, index: 1 },
    ];
    let l = layout_block(&b, &txs).unwrap();
    // exact span 200 units (0.01 of 20000), displayed at 1000 units (0.05)
    assert_eq!(l.markers[0].span, 200);
    assert_eq!(l.markers[0].display_span, 1000);
    // offset starts at 9000; centers use the true span, not the clamp:
    // center 0 at 9000 - 100, next offset 9000 - 200 - 1000 = 7800
    assert_eq!(l.markers[0].center, 8900);
    assert_eq!(l.markers[1].center, 7700);
}

#[test]
fn marker_above_container_is_displayed_at_ceiling() {
    let b = Block { number: 1, gas_limit: 10, gas_used: 10 };
    // gas 15 of limit 10: span 300 exceeds the container's 200
    let txs = vec![Transaction { gas: 15, index: 0 }];
    let l = layout_block(&b, &txs).unwrap();
    assert_eq!(l.markers[0].span, 300);
    assert_eq!(l.markers[0].display_span, 200);
}

#[test]
fn zero_gas_limit_fails_and_emits_no_geometry() {
    let b = Block { number: 1, gas_limit: 0, gas_used: 0 };
    let txs = vec![Transaction { gas: 5, index: 0 }];
    assert_eq!(layout_block(&b, &txs).unwrap_err(), LayoutError::ZeroGasLimit);
    assert_eq!(layout_block(&b, &vec![]).unwrap_err(), LayoutError::ZeroGasLimit);
}

#[test]
fn gas_used_above_limit_fails() {
    let b = Block { number: 1, gas_limit: 100, gas_used: 101 };
    assert_eq!(layout_block(&b, &vec![]).unwrap_err(), LayoutError::GasUsedExceedsLimit);
}

#[test]
fn markers_stay_one_spacing_apart() {
    let b = Block { number: 1, gas_limit: 100, gas_used: 100 };
    let txs = vec![
        Transaction { gas: 30, index: 0 },
        Transaction { gas: 1, index: 1 },
        Transaction { gas: 25, index: 2 },
    ];
    let l = layout_block(&b, &txs).unwrap();
    // spans sum to 1120 <= container 2000; consecutive markers are exactly
    // one spacing (100 units) apart, bottom of one to top of the next
    let spacing = 100;
    for k in 0..txs.len() - 1 {
        let bottom = l.markers[k].center - (l.markers[k].span / 2) as i128;
        let top = l.markers[k + 1].center + (l.markers[k + 1].span / 2) as i128;
        assert_eq!(bottom, top + spacing);
    }
    // first marker's top sits one spacing below the container top (1000)
    let first_top = l.markers[0].center + (l.markers[0].span / 2) as i128;
    assert_eq!(first_top, 1000 - spacing);
    // total extent: sum of spans plus one spacing between each pair
    let last = txs.len() - 1;
    let bottom_last = l.markers[last].center - (l.markers[last].span / 2) as i128;
    let sum_spans: i128 = l.markers.iter().map(|m| m.span as i128).sum();
    assert_eq!(first_top - bottom_last, sum_spans + (txs.len() as i128 - 1) * spacing);
}

#[test]
fn segments_chain_origin_and_marker_centers() {
    let b = Block { number: 1, gas_limit: 100, gas_used: 100 };
    let txs = vec![
        Transaction { gas: 10, index: 0 },
        Transaction { gas: 20, index: 1 },
        Transaction { gas: 30, index: 2 },
    ];
    let l = layout_block(&b, &txs).unwrap();
    assert_eq!(l.segments.lines.len(), 3);
    assert_eq!(l.segments.lines[0].0, 0);
    for k in 0..3 {
        assert_eq!(l.segments.lines[k].1, l.markers[k].center);
        if k > 0 {
            assert_eq!(l.segments.lines[k].0, l.markers[k - 1].center);
        }
    }
}

#[test]
fn line_list_vertices_flatten_segment_endpoints() {
    let list = LineList { lines: vec![(0, 7), (7, 3)] };
    assert_eq!(list.vertices(), vec![0, 7, 7, 3]);
}

#[test]
fn line_strip_vertices_are_its_points() {
    let strip = LineStrip { points: vec![4, -2, 9] };
    assert_eq!(strip.vertices(), vec![4, -2, 9]);
}
