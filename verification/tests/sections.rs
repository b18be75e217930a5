use led_controller::section::{bound_to_num, frac_bound_to_num};
use led_controller::{
    Controller, FracIndex, FracRangeBound, LedController, PixelGrid, RangeBound, Rgba, Section,
    Views,
};

fn red() -> Rgba {
    Rgba::opaque(255, 0, 0)
}

#[test]
fn bound_to_num_resolves_all_cases() {
    assert_eq!(bound_to_num(RangeBound::Included(3), true, 0, 10), 3);
    assert_eq!(bound_to_num(RangeBound::Included(3), false, 0, 10), 4);
    assert_eq!(bound_to_num(RangeBound::Excluded(3), true, 0, 10), 4);
    assert_eq!(bound_to_num(RangeBound::Excluded(3), false, 0, 10), 3);
    assert_eq!(bound_to_num(RangeBound::Unbounded, true, 0, 10), 0);
    assert_eq!(bound_to_num(RangeBound::Unbounded, false, 0, 10), 10);
}

#[test]
fn frac_bound_to_num_resolves_all_cases() {
    let f = FracIndex { whole: 3, frac: 77 };
    assert_eq!(frac_bound_to_num(FracRangeBound::Included(f), true, 0, 9), f);
    assert_eq!(
        frac_bound_to_num(FracRangeBound::Included(f), false, 0, 9),
        FracIndex { whole: 4, frac: 77 }
    );
    assert_eq!(
        frac_bound_to_num(FracRangeBound::Excluded(f), true, 0, 9),
        FracIndex { whole: 4, frac: 77 }
    );
    assert_eq!(frac_bound_to_num(FracRangeBound::Excluded(f), false, 0, 9), f);
    assert_eq!(
        frac_bound_to_num(FracRangeBound::Unbounded, true, 0, 9),
        FracIndex { whole: 0, frac: 0 }
    );
    assert_eq!(
        frac_bound_to_num(FracRangeBound::Unbounded, false, 0, 9),
        FracIndex { whole: 9, frac: 0 }
    );
}

#[test]
fn inverted_section_aliases_reversed_slice() {
    let mut grid = PixelGrid::new();
    let n: usize = 10;
    let sec = Section::new(0, n, true);

    grid.set_flat(n - 1, red());
    assert_eq!(sec.get(&grid, 0), red());

    grid.set_flat(0, Rgba::opaque(0, 255, 0));
    assert_eq!(sec.get(&grid, n - 1), Rgba::opaque(0, 255, 0));

    sec.set(&mut grid, 1, Rgba::opaque(0, 0, 255));
    assert_eq!(grid.get_flat(n - 2), Rgba::opaque(0, 0, 255));
}

#[test]
fn straight_section_aliases_slice() {
    let mut grid = PixelGrid::new();
    let sec = Section::new(480, 10, false);
    sec.set(&mut grid, 2, red());
    assert_eq!(grid.get(1, 2), red());
    assert_eq!(sec.get(&grid, 2), red());
}

#[test]
fn iter_lists_pixels_in_logical_order() {
    let mut grid = PixelGrid::new();
    let sec = Section::new(0, 4, true);
    grid.set_flat(3, Rgba::opaque(1, 0, 0));
    grid.set_flat(2, Rgba::opaque(2, 0, 0));
    grid.set_flat(1, Rgba::opaque(3, 0, 0));
    grid.set_flat(0, Rgba::opaque(4, 0, 0));
    let pixels = sec.iter(&grid);
    assert_eq!(pixels.len(), 4);
    for (k, p) in pixels.iter().enumerate() {
        assert_eq!(p.red as usize, k + 1);
    }
    let indices = sec.iter_mut();
    assert_eq!(indices, vec![3, 2, 1, 0]);
}

#[test]
fn range_agrees_with_direct_indexing() {
    let mut grid = PixelGrid::new();
    for i in 0..10usize {
        grid.set_flat(i, Rgba::opaque(i as u8, 0, 0));
    }
    let combos = [
        (RangeBound::Included(2), RangeBound::Excluded(7), 2usize),
        (RangeBound::Included(2), RangeBound::Included(6), 2),
        (RangeBound::Excluded(1), RangeBound::Excluded(7), 2),
        (RangeBound::Excluded(1), RangeBound::Unbounded, 2),
        (RangeBound::Unbounded, RangeBound::Included(4), 0),
        (RangeBound::Unbounded, RangeBound::Unbounded, 0),
    ];
    for &inverted in &[false, true] {
        let sec = Section::new(0, 10, inverted);
        for &(sb, eb, start) in &combos {
            let sub = sec.range(sb, eb);
            assert_eq!(sub.get(&grid, 0), sec.get(&grid, start));
        }
    }
}

#[test]
fn nested_range_double_mirror_composes() {
    let mut grid = PixelGrid::new();
    for i in 0..10usize {
        grid.set_flat(i, Rgba::opaque(i as u8, 0, 0));
    }
    let sec = Section::new(0, 10, true);
    let sub = sec.range(RangeBound::Included(2), RangeBound::Excluded(9));
    let subsub = sub.range(RangeBound::Included(1), RangeBound::Excluded(5));
    for k in 0..4usize {
        assert_eq!(subsub.get(&grid, k), sec.get(&grid, 2 + 1 + k));
    }
}

#[test]
fn set_aa_integral_is_direct_write() {
    let mut grid_a = PixelGrid::new();
    let mut grid_b = PixelGrid::new();
    for &inverted in &[false, true] {
        let sec = Section::new(20, 10, inverted);
        sec.set_aa(&mut grid_a, FracIndex { whole: 3, frac: 0 }, &red());
        sec.set(&mut grid_b, 3, red());
        for i in 0..40usize {
            assert_eq!(grid_a.get_flat(i), grid_b.get_flat(i));
        }
    }
}

#[test]
fn set_aa_fractional_blends_neighbours() {
    let mut grid = PixelGrid::new();
    let sec = Section::new(0, 10, false);
    sec.set_aa(&mut grid, FracIndex { whole: 2, frac: 128 }, &red());
    // The lower pixel gets weight 255 - 128 = 127, the upper 128.
    assert_eq!(grid.get_flat(2), Rgba::new(127, 0, 0, 127));
    assert_eq!(grid.get_flat(3), Rgba::new(128, 0, 0, 128));
    assert_eq!(grid.get_flat(1), Rgba::default());
    assert_eq!(grid.get_flat(4), Rgba::default());
}

#[test]
fn set_aa_clamps_past_the_end() {
    let mut grid = PixelGrid::new();
    let sec = Section::new(0, 10, false);
    sec.set_aa(&mut grid, FracIndex { whole: 12, frac: 40 }, &red());
    assert_eq!(grid.get_flat(9), red());
    assert_eq!(grid.get_flat(8), Rgba::default());
}

#[test]
fn set_aa_range_integral_is_solid_fill() {
    let mut grid = PixelGrid::new();
    let sec = Section::new(0, 10, false);
    sec.set_aa_range(
        &mut grid,
        FracRangeBound::Included(FracIndex { whole: 2, frac: 0 }),
        FracRangeBound::Included(FracIndex { whole: 5, frac: 0 }),
        &red(),
    );
    // Resolved range [2, 6]: endpoints solid, interior solid.
    for i in 0..10usize {
        if (2..=6).contains(&i) {
            assert_eq!(grid.get_flat(i), red(), "pixel {i}");
        } else {
            assert_eq!(grid.get_flat(i), Rgba::default(), "pixel {i}");
        }
    }
}

#[test]
fn set_aa_range_unbounded_covers_whole_section() {
    let mut grid = PixelGrid::new();
    let sec = Section::new(0, 5, false);
    sec.set_aa_range(&mut grid, FracRangeBound::Unbounded, FracRangeBound::Unbounded, &red());
    for i in 0..5usize {
        assert_eq!(grid.get_flat(i), red());
    }
    assert_eq!(grid.get_flat(5), Rgba::default());
}

#[test]
fn set_aa_range_fractional_has_soft_edges() {
    let mut grid = PixelGrid::new();
    let sec = Section::new(0, 10, false);
    sec.set_aa_range(
        &mut grid,
        FracRangeBound::Included(FracIndex { whole: 2, frac: 128 }),
        FracRangeBound::Excluded(FracIndex { whole: 6, frac: 0 }),
        &red(),
    );
    // Soft edge at 2.5, solid from 3 to 5, solid endpoint write at 6.
    assert_eq!(grid.get_flat(2), Rgba::new(127, 0, 0, 127));
    for i in 3..=6usize {
        assert_eq!(grid.get_flat(i), red(), "pixel {i}");
    }
    assert_eq!(grid.get_flat(7), Rgba::default());
}

#[test]
fn views_expose_the_fixed_partition() {
    let mut views = Views::new();
    assert_eq!(views.len(), 15);
    assert!(!views.is_empty());
    let sections = views.iter();
    assert_eq!(sections.len(), 15);

    // Strip boundaries: four sections on strips 0 and 1, seven on 2.
    let expected: [(usize, usize, bool); 15] = [
        (0, 149, true),
        (149, 160, true),
        (309, 83, true),
        (392, 83, true),
        (480, 149, true),
        (629, 160, true),
        (789, 42, true),
        (831, 86, true),
        (960, 107, true),
        (1067, 46, false),
        (1113, 55, false),
        (1168, 100, false),
        (1268, 42, false),
        (1310, 92, false),
        (1402, 33, false),
    ];
    for (i, &(start, len, inverted)) in expected.iter().enumerate() {
        let s = views.section_at(i);
        assert_eq!((s.start, s.len, s.inverted), (start, len, inverted));
    }
    assert_eq!(views.iter_mut(), sections);
}

#[test]
fn controller_section_addresses_one_strip() {
    let mut c = Controller::new();
    let sec = c.section(1, 10, 20, true);
    assert_eq!((sec.start, sec.len, sec.inverted), (480 + 10, 20, true));

    let grid = c.state_mut();
    sec.set(grid, 0, red());
    assert_eq!(grid.get(1, 29), red());
}

#[test]
fn views_section_writes_land_reversed() {
    let mut c = Controller::new();
    let mut views = c.views_mut();
    let sec = views.section_at(0);
    let grid = c.state_mut();
    sec.set(grid, 0, red());
    assert_eq!(grid.get(0, 148), red());
    c.encode_state();
    let buf = c.buffer();
    assert_eq!(&buf[3 * 148..3 * 148 + 3], &[255, 0, 0]);
}
