use tiling_core::layout::{Layout, LayoutClone, TileLayout};
use tiling_core::Viewport;

fn viewport_1600_900() -> Viewport {
    Viewport { x: 0, y: 0, width: 1600, height: 900 }
}

#[test]
fn new_starts_with_the_default_split_offset() {
    let strategy = TileLayout::new(String::from("tile"), 2, 3);
    assert_eq!(strategy.resized_width, 160);
    assert_eq!(strategy.innergaps(), 2);
    assert_eq!(strategy.outergaps(), 3);
}

#[test]
fn gap_counters_move_by_one() {
    let mut strategy = TileLayout::new(String::from("tile"), 0, 0);
    strategy.increase_innergaps();
    strategy.increase_innergaps();
    strategy.increase_outergaps();
    assert_eq!(strategy.innergaps(), 2);
    assert_eq!(strategy.outergaps(), 1);
    strategy.decrease_innergaps();
    strategy.decrease_outergaps();
    assert_eq!(strategy.innergaps(), 1);
    assert_eq!(strategy.outergaps(), 0);
}

#[test]
fn gap_decrease_below_zero_is_rejected() {
    let mut strategy = TileLayout::new(String::from("tile"), 0, 0);
    strategy.decrease_innergaps();
    strategy.decrease_outergaps();
    assert_eq!(strategy.innergaps(), 0);
    assert_eq!(strategy.outergaps(), 0);
    strategy.increase_innergaps();
    strategy.decrease_innergaps();
    strategy.decrease_innergaps();
    assert_eq!(strategy.innergaps(), 0);
}

#[test]
fn decrease_outergaps_leaves_innergaps_alone() {
    let mut strategy = TileLayout::new(String::from("tile"), 5, 5);
    strategy.decrease_outergaps();
    assert_eq!(strategy.innergaps(), 5);
    assert_eq!(strategy.outergaps(), 4);
}

#[test]
fn split_offset_stops_at_the_bound() {
    // For a 1600-wide viewport the bound is 1600/2 - 1600/8 = 600.
    let viewport = viewport_1600_900();
    let mut strategy = TileLayout::new(String::from("tile"), 0, 0);
    strategy.increase_master(&viewport, 500);
    assert_eq!(strategy.resized_width, 160, "an overshooting step is refused");
    strategy.increase_master(&viewport, 400);
    assert_eq!(strategy.resized_width, 560);
    strategy.increase_master(&viewport, 40);
    assert_eq!(strategy.resized_width, 600, "the bound itself is reachable");
    strategy.increase_master(&viewport, 1);
    assert_eq!(strategy.resized_width, 600);
    strategy.decrease_master(&viewport, 1300);
    assert_eq!(strategy.resized_width, 600, "an overshooting step is refused");
    strategy.decrease_master(&viewport, 1200);
    assert_eq!(strategy.resized_width, -600);
    strategy.decrease_master(&viewport, 1);
    assert_eq!(strategy.resized_width, -600);
}

#[test]
fn copies_are_independent() {
    let viewport = viewport_1600_900();
    let original = TileLayout::new(String::from("tile"), 3, 4);
    let mut copy = original.clone_box();
    assert_eq!(copy.name(), "tile");
    assert_eq!(copy.innergaps(), 3);
    assert_eq!(copy.outergaps(), 4);
    assert_eq!(copy.resized_width, 160);

    copy.increase_innergaps();
    copy.decrease_outergaps();
    copy.increase_master(&viewport, 40);

    assert_eq!(copy.innergaps(), 4);
    assert_eq!(copy.outergaps(), 3);
    assert_eq!(copy.resized_width, 200);
    assert_eq!(original.innergaps(), 3);
    assert_eq!(original.outergaps(), 4);
    assert_eq!(original.resized_width, 160);
}
