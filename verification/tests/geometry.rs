use gallery_grid::geometry::{ConfigError, GridConfig};

#[test]
fn cells_per_row_is_floor_division() {
    // 100 / (30 + 3) = 3
    let c = GridConfig::new(100, 50, 30, 3, 0, 10).unwrap();
    assert_eq!(c.cells_per_row(), 3);
}

#[test]
fn cells_per_row_is_at_least_one() {
    // Viewport narrower than a single cell still gives one cell per row.
    let c = GridConfig::new(5, 50, 30, 3, 0, 10).unwrap();
    assert_eq!(c.cells_per_row(), 1);
    // Even a zero-width viewport.
    let z = GridConfig::new(0, 50, 30, 3, 0, 10).unwrap();
    assert_eq!(z.cells_per_row(), 1);
}

#[test]
fn row_count_is_ceiling_division() {
    // 3 cells per row throughout.
    assert_eq!(GridConfig::new(30, 20, 10, 0, 5, 12).unwrap().row_count(), 4);
    assert_eq!(GridConfig::new(30, 20, 10, 0, 5, 4).unwrap().row_count(), 2);
    assert_eq!(GridConfig::new(30, 20, 10, 0, 5, 3).unwrap().row_count(), 1);
    assert_eq!(GridConfig::new(30, 20, 10, 0, 5, 1).unwrap().row_count(), 1);
    assert_eq!(GridConfig::new(30, 20, 10, 0, 5, 0).unwrap().row_count(), 0);
}

#[test]
fn row_heights_include_margin_and_padding() {
    let c = GridConfig::new(30, 20, 10, 2, 5, 12).unwrap();
    assert_eq!(c.inner_row_height(), 10 + 2 * 2);
    assert_eq!(c.outer_row_height(), 10 + 2 * 2 + 5);
}

#[test]
fn total_height_has_no_trailing_padding() {
    // 4 rows of outer height 15, padding only between rows: 4 * 15 - 5.
    let c = GridConfig::new(30, 20, 10, 0, 5, 12).unwrap();
    assert_eq!(c.total_content_height(), 55);
    // No rows: zero height, not a negative one.
    let empty = GridConfig::new(30, 20, 10, 0, 5, 0).unwrap();
    assert_eq!(empty.total_content_height(), 0);
}

#[test]
fn zero_cell_size_is_rejected() {
    assert_eq!(
        GridConfig::new(30, 20, 0, 5, 5, 12).unwrap_err(),
        ConfigError::CellSizeZero
    );
}

#[test]
fn oversized_geometry_is_rejected() {
    // The outer row height would exceed 32 bits.
    assert_eq!(
        GridConfig::new(30, 20, u32::MAX, u32::MAX, 0, 12).unwrap_err(),
        ConfigError::GeometryTooLarge
    );
}

#[test]
fn well_formedness_is_checkable() {
    assert!(GridConfig::new(30, 20, 10, 0, 5, 12).unwrap().is_well_formed());
    let bad = GridConfig {
        viewport_width: 30,
        viewport_height: 20,
        cell_size: 0,
        cell_margin: 0,
        row_padding: 0,
        item_count: 1,
    };
    assert!(!bad.is_well_formed());
}
