use loftr::error::{ConfigError, LoftrError};
use loftr::fine_matching::perfect_square_side;
use loftr::numeric::perfect_square_root;

#[test]
fn perfect_square_root_of_squares() {
    assert_eq!(perfect_square_root(1, "area").unwrap(), 1);
    assert_eq!(perfect_square_root(25, "area").unwrap(), 5);
    assert_eq!(perfect_square_root(10_000, "area").unwrap(), 100);
}

#[test]
fn perfect_square_root_rejects_non_positive_values() {
    match perfect_square_root(0, "window") {
        Err(LoftrError::InvalidConfig(ConfigError::NotPositive { label, value })) => {
            assert_eq!(label, "window");
            assert_eq!(value, 0);
        }
        other => panic!("unexpected {other:?}"),
    }
    assert!(matches!(
        perfect_square_root(-9, "window"),
        Err(LoftrError::InvalidConfig(ConfigError::NotPositive { value: -9, .. }))
    ));
}

#[test]
fn perfect_square_root_rejects_non_squares() {
    match perfect_square_root(24, "window") {
        Err(LoftrError::InvalidConfig(ConfigError::NotPerfectSquare { label, value })) => {
            assert_eq!(label, "window");
            assert_eq!(value, 24);
        }
        other => panic!("unexpected {other:?}"),
    }
    assert!(perfect_square_root(2, "x").is_err());
}

#[test]
fn perfect_square_side_agrees_with_square_root() {
    for area in 1..200_i64 {
        let side = perfect_square_side(area).ok();
        let root = perfect_square_root(area, "area").ok();
        assert_eq!(side, root);
    }
}

#[test]
fn perfect_square_side_errors_name_the_area() {
    assert_eq!(
        perfect_square_side(0),
        Err(LoftrError::InvalidConfig(ConfigError::WindowAreaNotPositive { window_area: 0 }))
    );
    assert_eq!(
        perfect_square_side(8),
        Err(LoftrError::InvalidConfig(ConfigError::WindowAreaNotSquare { window_area: 8 }))
    );
    assert_eq!(perfect_square_side(9), Ok(3));
}
