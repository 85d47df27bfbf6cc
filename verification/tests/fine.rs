use loftr::error::{ConfigError, LoftrError, TensorName};
use loftr::fine_matching::{
    validate_fine_match_inputs, FineMatching, FineMatchingShapes, FineRefinement, FineWindowLayout,
};
use loftr::fine_preprocess::{
    fine_window_settings, first_dim, sequence_row_ids, unfold_layout, validate_coarse_sequence,
    validate_fine_map, window_row_ids, FinePreprocessData, FineWindowSettings, UnfoldLayout,
};
use loftr::index_tensor::IndexTensor;
use loftr::loftr_config::LoftrConfig;

fn shapes(count: i64, scale1: Option<Vec<i64>>) -> FineMatchingShapes {
    FineMatchingShapes {
        hw0_i: (16, 16),
        hw0_f: (8, 8),
        mkpts0_c: vec![count, 2],
        mkpts1_c: vec![count, 2],
        mconf: vec![count],
        b_ids: vec![count],
        scale1,
    }
}

fn ids(values: &[i64]) -> IndexTensor {
    IndexTensor::from_values(values.to_vec())
}

fn preprocess_data(hw0_f: (i64, i64), hw0_c: (i64, i64), b: &[i64], i: &[i64], j: &[i64]) -> FinePreprocessData {
    FinePreprocessData { hw0_f, hw0_c, b_ids: ids(b), i_ids: ids(i), j_ids: ids(j) }
}

#[test]
fn empty_matches_keep_coarse_points() {
    let plan = FineMatching.refinement(&vec![0, 9, 4], &vec![0, 9, 4], &shapes(0, None));
    assert_eq!(plan, Ok(FineRefinement::KeepCoarse));
}

#[test]
fn refinement_layout_for_three_by_three_windows() {
    let plan = FineMatching.refinement(&vec![1, 9, 1], &vec![1, 9, 1], &shapes(1, None));
    assert_eq!(
        plan,
        Ok(FineRefinement::Refine(FineWindowLayout {
            match_count: 1,
            window_area: 9,
            channels: 1,
            window_size: 3,
            center: 4,
            radius: 1,
            scale: 2,
        }))
    );
}

#[test]
fn refinement_checks_scale1_layout_only_with_matches() {
    let bad = Some(vec![2, 1]);
    assert_eq!(
        FineMatching.refinement(&vec![2, 9, 1], &vec![2, 9, 1], &shapes(2, bad.clone())),
        Err(LoftrError::InvalidConfig(ConfigError::FineMatchingScaleLayout))
    );
    assert_eq!(
        FineMatching.refinement(&vec![0, 9, 1], &vec![0, 9, 1], &shapes(0, bad)),
        Ok(FineRefinement::KeepCoarse)
    );
    assert!(FineMatching.refinement(&vec![2, 9, 1], &vec![2, 9, 1], &shapes(2, Some(vec![2]))).is_ok());
}

#[test]
fn refinement_rejects_non_square_windows_even_without_matches() {
    assert_eq!(
        FineMatching.refinement(&vec![0, 8, 4], &vec![0, 8, 4], &shapes(0, None)),
        Err(LoftrError::InvalidConfig(ConfigError::WindowAreaNotSquare { window_area: 8 }))
    );
    assert_eq!(
        FineMatching.refinement(&vec![0, 0, 4], &vec![0, 0, 4], &shapes(0, None)),
        Err(LoftrError::InvalidConfig(ConfigError::WindowAreaNotPositive { window_area: 0 }))
    );
}

#[test]
fn fine_match_inputs_reject_each_bad_shape() {
    let good = shapes(3, None);
    assert_eq!(validate_fine_match_inputs(&vec![3, 9, 4], &vec![3, 9, 4], &good), Ok(()));
    assert_eq!(
        validate_fine_match_inputs(&vec![3, 9], &vec![3, 9, 4], &good),
        Err(LoftrError::InvalidConfig(ConfigError::FineMatchingRank))
    );
    assert_eq!(
        validate_fine_match_inputs(&vec![3, 9, 4], &vec![3, 9, 5], &good),
        Err(LoftrError::InvalidConfig(ConfigError::FineMatchingShapeMismatch))
    );
    let mut zero = shapes(3, None);
    zero.hw0_f = (0, 8);
    assert_eq!(
        validate_fine_match_inputs(&vec![3, 9, 4], &vec![3, 9, 4], &zero),
        Err(LoftrError::InvalidConfig(ConfigError::FineMatchingNonPositiveShape))
    );
    let mut uneven = shapes(3, None);
    uneven.hw0_i = (15, 16);
    assert_eq!(
        validate_fine_match_inputs(&vec![3, 9, 4], &vec![3, 9, 4], &uneven),
        Err(LoftrError::InvalidConfig(ConfigError::FineMatchingNonIntegerScale))
    );
    let mut short = shapes(3, None);
    short.mkpts1_c = vec![2, 2];
    assert_eq!(
        validate_fine_match_inputs(&vec![3, 9, 4], &vec![3, 9, 4], &short),
        Err(LoftrError::InvalidConfig(ConfigError::FineMatchingLengthMismatch {
            label: TensorName::Mkpts1C,
            expected: 3
        }))
    );
    let mut wide = shapes(3, None);
    wide.mkpts0_c = vec![3, 3];
    assert_eq!(
        validate_fine_match_inputs(&vec![3, 9, 4], &vec![3, 9, 4], &wide),
        Err(LoftrError::InvalidConfig(ConfigError::FineMatchingPointsLayout {
            label: TensorName::Mkpts0C,
            last: 2
        }))
    );
    let mut matrix = shapes(3, None);
    matrix.b_ids = vec![3, 1];
    assert_eq!(
        validate_fine_match_inputs(&vec![3, 9, 4], &vec![3, 9, 4], &matrix),
        Err(LoftrError::InvalidConfig(ConfigError::FineMatchingVectorLayout { label: TensorName::BIds }))
    );
    let mut scalar = shapes(0, None);
    scalar.mconf = vec![];
    assert_eq!(
        validate_fine_match_inputs(&vec![0, 9, 4], &vec![0, 9, 4], &scalar),
        Err(LoftrError::InvalidConfig(ConfigError::FineMatchingVectorLayout { label: TensorName::Mconf }))
    );
}

#[test]
fn fine_preprocess_stride_matches_kornia_height_axis_behavior() {
    let data = preprocess_data((8, 12), (4, 4), &[], &[], &[]);
    assert_eq!(data.stride().expect("stride"), 2);
}

#[test]
fn tests_stride_matches_kornia_height_axis_behavior() {
    let data = preprocess_data((8, 12), (4, 4), &[], &[], &[]);
    assert_eq!(data.stride(), Ok(2));
}

#[test]
fn stride_rejects_non_positive_shapes_and_strides() {
    assert_eq!(
        preprocess_data((8, 0), (4, 4), &[], &[], &[]).stride(),
        Err(LoftrError::InvalidConfig(ConfigError::FinePreprocessNonPositiveShape))
    );
    assert_eq!(
        preprocess_data((2, 8), (4, 4), &[], &[], &[]).stride(),
        Err(LoftrError::InvalidConfig(ConfigError::FinePreprocessNonPositiveStride))
    );
}

#[test]
fn match_count_requires_rank_one_indexes_of_one_length() {
    assert_eq!(preprocess_data((4, 4), (2, 2), &[0, 0], &[0, 3], &[1, 2]).match_count(), Ok(2));
    assert_eq!(
        preprocess_data((4, 4), (2, 2), &[0, 0], &[0], &[1, 2]).match_count(),
        Err(LoftrError::InvalidConfig(ConfigError::IndexLengthMismatch { b_count: 2, i_count: 1, j_count: 2 }))
    );
    let data = FinePreprocessData {
        hw0_f: (4, 4),
        hw0_c: (2, 2),
        b_ids: ids(&[0]),
        i_ids: IndexTensor::new(vec![1, 1], vec![0]).expect("tensor"),
        j_ids: ids(&[0]),
    };
    assert_eq!(
        data.match_count(),
        Err(LoftrError::InvalidConfig(ConfigError::IndexRank { label: TensorName::IIds }))
    );
    assert_eq!(
        first_dim(&vec![3, 1], TensorName::JIds),
        Err(LoftrError::InvalidConfig(ConfigError::IndexRank { label: TensorName::JIds }))
    );
}

#[test]
fn index_tensor_rejects_inconsistent_rank_one_extent() {
    assert!(IndexTensor::new(vec![3], vec![1, 2]).is_none());
    assert!(IndexTensor::new(vec![2], vec![1, 2]).is_some());
    assert!(IndexTensor::new(vec![1, 2], vec![1, 2]).is_some());
}

#[test]
fn fine_window_settings_require_positive_odd_window() {
    let config = LoftrConfig::outdoor();
    let settings = fine_window_settings(&config).expect("settings");
    assert_eq!(
        settings,
        FineWindowSettings { cat_coarse_feat: true, window_size: 5, d_model_c: 256, d_model_f: 128 }
    );
    assert_eq!(settings.window_area(), 25);
    assert_eq!(settings.empty_windows_shape(), vec![0, 25, 128]);
    let mut even = LoftrConfig::outdoor();
    even.fine_window_size = 4;
    assert_eq!(
        fine_window_settings(&even),
        Err(LoftrError::InvalidConfig(ConfigError::WindowSizeNotPositiveOdd { window_size: 4 }))
    );
    even.fine_window_size = -3;
    assert!(fine_window_settings(&even).is_err());
}

#[test]
fn fine_maps_and_coarse_sequences_are_checked() {
    assert_eq!(validate_fine_map(&vec![1, 128, 4, 4], TensorName::FeatF0, 128), Ok(()));
    assert_eq!(
        validate_fine_map(&vec![1, 128, 4], TensorName::FeatF0, 128),
        Err(LoftrError::InvalidConfig(ConfigError::FineMapRank { label: TensorName::FeatF0 }))
    );
    assert_eq!(
        validate_fine_map(&vec![1, 64, 4, 4], TensorName::FeatF1, 128),
        Err(LoftrError::InvalidConfig(ConfigError::FineMapChannels {
            label: TensorName::FeatF1,
            expected: 128,
            got: 64
        }))
    );
    assert_eq!(validate_coarse_sequence(&vec![1, 4, 256], TensorName::FeatC0), Ok(()));
    assert_eq!(
        validate_coarse_sequence(&vec![4, 256], TensorName::FeatC1),
        Err(LoftrError::InvalidConfig(ConfigError::CoarseSequenceRank { label: TensorName::FeatC1 }))
    );
}

#[test]
fn unfold_layout_matches_expected_patch_layout() {
    // a 4 x 4 single-channel map, 3 x 3 windows with stride 2: 4 positions
    assert_eq!(
        unfold_layout(&vec![1, 1, 4, 4], 3, &vec![1, 9, 4]),
        Ok(UnfoldLayout { batch: 1, channels: 1, window_area: 9, positions: 4 })
    );
    assert_eq!(
        unfold_layout(&vec![1, 1, 4, 4], 3, &vec![1, 9]),
        Err(LoftrError::InvalidConfig(ConfigError::UnfoldRank))
    );
    assert_eq!(
        unfold_layout(&vec![1, 1, 4, 4], 3, &vec![1, 10, 4]),
        Err(LoftrError::InvalidConfig(ConfigError::UnfoldArea { window_area: 9 }))
    );
    assert_eq!(
        unfold_layout(&vec![1, 1, 4, 4], 3, &vec![1, 18, 4]),
        Err(LoftrError::InvalidConfig(ConfigError::UnfoldChannels { expected: 1, got: 2 }))
    );
    assert_eq!(
        unfold_layout(&vec![1, -2, 4, 4], 3, &vec![1, -18, 4]),
        Ok(UnfoldLayout { batch: 1, channels: -2, window_area: 9, positions: 4 })
    );
}

#[test]
fn window_rows_select_requested_windows() {
    // windows [N=1, L=4, 9, 128]: left tokens 0 and 3, right tokens 1 and 2
    let windows = vec![1, 4, 9, 128];
    assert_eq!(window_row_ids(&windows, &ids(&[0, 0]), &ids(&[0, 3])), Ok(vec![0, 3]));
    assert_eq!(window_row_ids(&windows, &ids(&[0, 0]), &ids(&[1, 2])), Ok(vec![1, 2]));
    let two_batches = vec![2, 4, 9, 128];
    assert_eq!(window_row_ids(&two_batches, &ids(&[1, 0, 1]), &ids(&[2, 3, 0])), Ok(vec![6, 3, 4]));
    // a one-entry index vector is repeated against the other
    assert_eq!(window_row_ids(&two_batches, &ids(&[1]), &ids(&[0, 1, 2])), Ok(vec![4, 5, 6]));
}

#[test]
fn row_selection_checks_ranks() {
    let matrix = IndexTensor::new(vec![1, 2], vec![0, 1]).expect("tensor");
    assert_eq!(
        window_row_ids(&vec![1, 4, 9], &ids(&[0]), &ids(&[0])),
        Err(LoftrError::InvalidConfig(ConfigError::WindowsRank))
    );
    assert_eq!(
        window_row_ids(&vec![1, 4, 9, 2], &matrix, &ids(&[0])),
        Err(LoftrError::InvalidConfig(ConfigError::IndexTensorRank))
    );
    assert_eq!(
        sequence_row_ids(&vec![1, 4, 256, 1], &ids(&[0]), &ids(&[0])),
        Err(LoftrError::InvalidConfig(ConfigError::SequenceRank))
    );
    assert_eq!(
        sequence_row_ids(&vec![1, 4, 256], &ids(&[0]), &matrix),
        Err(LoftrError::InvalidConfig(ConfigError::IndexTensorRank))
    );
    assert_eq!(sequence_row_ids(&vec![2, 4, 256], &ids(&[1, 1]), &ids(&[0, 3])), Ok(vec![4, 7]));
}
