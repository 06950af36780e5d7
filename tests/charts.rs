use market_dash::path::{area_path, LinePath, PathBuilder, PathGenerator, StepPath, StepPosition};
use market_dash::types::{format_large_number, format_price, format_volume, Price, Quantity, FIXED_SCALE};

fn c(v: f64) -> i64 {
    (v * 100.0).round() as i64
}

fn raw(v: f64) -> i128 {
    (v * FIXED_SCALE as f64).round() as i128
}

#[test]
fn test_path_builder() {
    let path = PathBuilder::new()
        .move_to(c(0.0), c(0.0))
        .line_to(c(100.0), c(100.0))
        .close()
        .build();

    assert!(path.contains("M0.00,0.00"));
    assert!(path.contains("L100.00,100.00"));
    assert!(path.contains("Z"));
}

#[test]
fn test_line_path_generator() {
    let generator = LinePath;
    let path = generator.generate(&[(c(0.0), c(0.0)), (c(50.0), c(50.0)), (c(100.0), c(0.0))]);

    assert!(path.starts_with("M0.00,0.00"));
    assert!(path.contains("L50.00,50.00"));
}

#[test]
fn path_commands_text() {
    let p = PathBuilder::new()
        .move_to(c(-1.5), c(2.25))
        .horizontal_to(c(3.0))
        .vertical_to(c(-0.05))
        .quadratic_to(1, 2, 3, 4)
        .arc_to(100, 100, 0, true, false, 5, 6)
        .build();
    assert_eq!(p, "M-1.50,2.25H3.00V-0.05Q0.01,0.02,0.03,0.04A1.00,1.00,0.00,1,0,0.05,0.06");
    assert_eq!(LinePath.generate(&[]), "");
}

#[test]
fn step_paths() {
    let pts = [(c(0.0), c(0.0)), (c(10.0), c(5.0))];
    assert_eq!(StepPath { step_position: StepPosition::Before }.generate(&pts), "M0.00,0.00V5.00H10.00");
    assert_eq!(StepPath { step_position: StepPosition::After }.generate(&pts), "M0.00,0.00H10.00V5.00");
    assert_eq!(StepPath { step_position: StepPosition::Middle }.generate(&pts), "M0.00,0.00H5.00V5.00H10.00");
}

#[test]
fn area_path_closes_to_baseline() {
    let p = area_path(&[(c(0.0), c(1.0)), (c(2.0), c(3.0))], c(10.0));
    assert_eq!(p, "M0.00,10.00L0.00,1.00L2.00,3.00L2.00,10.00Z");
    assert_eq!(area_path(&[], 0), "");
}

#[test]
fn test_format_large_number() {
    assert_eq!(format_large_number(raw(1_500_000.0)), "1.50M");
    assert_eq!(format_large_number(raw(2_500.0)), "2.50K");
    assert_eq!(format_large_number(raw(500.0)), "500.00");
}

#[test]
fn axis_labels() {
    assert_eq!(format_price(Price::new(raw(2_500_000.0) as u64), 2), "2.5M");
    assert_eq!(format_price(Price::new(raw(50_000.4) as u64), 2), "50000");
    assert_eq!(format_price(Price::new(raw(1_234.56) as u64), 2), "1234.6");
    assert_eq!(format_price(Price::new(raw(0.5) as u64), 2), "0.500000");
    assert_eq!(format_volume(Quantity::new(raw(1_500.0) as u64)), "1.50K");
    assert_eq!(format_volume(Quantity::new(raw(12.5) as u64)), "12.5000");
}
