use loftr::coarse_matching::{
    border_axis_mask, grid_cell, grid_cells, grid_validity, match_positions,
    validate_coarse_matching_inputs, CoarseMatching,
};
use loftr::error::{ConfigError, LoftrError, TensorName};
use loftr::loftr_config::{LoftrConfig, MatchCoarseConfig};

#[test]
fn border_mask_removes_all_cells_on_tiny_grid() {
    // the outdoor preset removes two cells on each edge: a 2 x 2 grid keeps nothing
    let config = LoftrConfig::outdoor();
    let valid = grid_validity(2, 2, config.match_coarse.border_rm);
    assert_eq!(valid, vec![false; 4]);
}

#[test]
fn no_border_keeps_every_cell() {
    assert_eq!(grid_validity(2, 3, 0), vec![true; 6]);
    assert_eq!(grid_validity(3, 2, -5), vec![true; 6]);
}

#[test]
fn border_mask_keeps_interior_cells() {
    // 5 x 4 grid, one cell removed per edge: rows 1..4, columns 1..3
    let valid = grid_validity(5, 4, 1);
    for k in 0..20 {
        let (y, x) = (k / 4, k % 4);
        let expected = (1..4).contains(&y) && (1..3).contains(&x);
        assert_eq!(valid[k as usize], expected, "cell {k}");
    }
    assert_eq!(border_axis_mask(5, 2), vec![false, false, true, false, false]);
    assert_eq!(border_axis_mask(0, 1), Vec::<bool>::new());
}

#[test]
fn coarse_matcher_keeps_its_configuration() {
    let config = MatchCoarseConfig { border_rm: 0, ..LoftrConfig::outdoor().match_coarse };
    let matcher = CoarseMatching::new(&config).expect("matcher");
    assert_eq!(*matcher.config(), config);
}

#[test]
fn coarse_inputs_are_checked_in_order() {
    let f = vec![1, 4, 4];
    assert_eq!(validate_coarse_matching_inputs(&f, &f, (2, 2), (2, 2), None, None), Ok(()));
    assert_eq!(
        validate_coarse_matching_inputs(&vec![1, 4], &f, (2, 2), (2, 2), None, None),
        Err(LoftrError::InvalidConfig(ConfigError::CoarseMatchingRank))
    );
    assert_eq!(
        validate_coarse_matching_inputs(&vec![2, 4, 4], &f, (2, 2), (2, 2), None, None),
        Err(LoftrError::InvalidConfig(ConfigError::CoarseMatchingBatchChannel))
    );
    assert_eq!(
        validate_coarse_matching_inputs(&f, &f, (2, 3), (2, 2), None, None),
        Err(LoftrError::InvalidConfig(ConfigError::CoarseMatchingGrid))
    );
    assert_eq!(
        validate_coarse_matching_inputs(&f, &f, (i64::MAX, 2), (2, 2), None, None),
        Err(LoftrError::InvalidConfig(ConfigError::CoarseMatchingGrid))
    );
    assert_eq!(
        validate_coarse_matching_inputs(&f, &f, (2, 2), (2, 2), Some(&vec![1, 3]), None),
        Err(LoftrError::InvalidConfig(ConfigError::CoarseMaskShape {
            label: TensorName::MaskC0,
            batch: 1,
            length: 4
        }))
    );
    assert_eq!(
        validate_coarse_matching_inputs(&f, &f, (2, 2), (2, 2), Some(&vec![1, 4]), Some(&vec![4])),
        Err(LoftrError::InvalidConfig(ConfigError::CoarseMaskShape {
            label: TensorName::MaskC1,
            batch: 1,
            length: 4
        }))
    );
}

#[test]
fn match_positions_index_the_flattened_confidence_matrix() {
    // [N=2, L=4, S=3]
    let positions = match_positions(&vec![0, 1, 1], &vec![0, 3, 2], &vec![0, 2, 1], 2, 4, 3);
    assert_eq!(positions, vec![0, 12 + 9 + 2, 12 + 6 + 1]);
    for (k, position) in positions.iter().enumerate() {
        let b = [0, 1, 1][k];
        let i = [0, 3, 2][k];
        let j = [0, 2, 1][k];
        assert_eq!(position / 12, b);
        assert_eq!((position % 12) / 3, i);
        assert_eq!(position % 3, j);
    }
}

#[test]
fn grid_cells_round_trip_to_tokens() {
    assert_eq!(grid_cell(7, 3), (1, 2));
    assert_eq!(grid_cell(0, 5), (0, 0));
    assert_eq!(grid_cell(-1, 4), (3, -1));
    assert_eq!(grid_cell(-8, 4), (0, -2));
    assert_eq!(grid_cell(i64::MIN, 1), (0, i64::MIN));
    let cells = grid_cells(&vec![0, 1, 2, 3, 4, 5], 2);
    assert_eq!(cells, vec![(0, 0), (1, 0), (0, 1), (1, 1), (0, 2), (1, 2)]);
    for index in -20..20_i64 {
        let (x, y) = grid_cell(index, 6);
        assert!((0..6).contains(&x));
        assert_eq!(x + y * 6, index);
    }
}
