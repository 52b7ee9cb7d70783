use candle_srcnn::layer::{ConvSpec, Stage};
use candle_srcnn::network::{build_srcnn_model, can_run, extraction, mapping, reconstruction};
use candle_srcnn::shape::{
    axis_extent, bounded_mul, checked_element_count, element_limit, is_batch_sized, is_sized,
};

#[test]
fn model_has_three_convolutions_and_two_rectifiers() {
    let stages = build_srcnn_model();
    assert_eq!(
        stages,
        vec![
            Stage::Conv(ConvSpec { in_channels: 1, out_channels: 64, kernel_size: 9, stride: 1, padding: 4 }),
            Stage::Relu,
            Stage::Conv(ConvSpec { in_channels: 64, out_channels: 32, kernel_size: 1, stride: 1, padding: 0 }),
            Stage::Relu,
            Stage::Conv(ConvSpec { in_channels: 32, out_channels: 1, kernel_size: 5, stride: 1, padding: 2 }),
        ]
    );
}

#[test]
fn named_layers_are_those_of_the_model() {
    let stages = build_srcnn_model();
    assert_eq!(stages[0], Stage::Conv(extraction()));
    assert_eq!(stages[2], Stage::Conv(mapping()));
    assert_eq!(stages[4], Stage::Conv(reconstruction()));
}

#[test]
fn each_layer_reads_what_the_one_before_writes() {
    assert_eq!(extraction().in_channels, 1);
    assert_eq!(extraction().out_channels, mapping().in_channels);
    assert_eq!(mapping().out_channels, reconstruction().in_channels);
    assert_eq!(reconstruction().out_channels, 1);
}

#[test]
fn extraction_keeps_height_and_width() {
    assert_eq!(extraction().output_shape(&[1, 1, 8, 8]), Some(vec![1, 64, 8, 8]));
    assert_eq!(extraction().output_shape(&[3, 1, 1, 1]), Some(vec![3, 64, 1, 1]));
    assert_eq!(extraction().output_shape(&[2, 1, 33, 17]), Some(vec![2, 64, 33, 17]));
}

#[test]
fn mapping_and_reconstruction_keep_height_and_width() {
    assert_eq!(mapping().output_shape(&[1, 64, 8, 6]), Some(vec![1, 32, 8, 6]));
    assert_eq!(reconstruction().output_shape(&[1, 32, 8, 6]), Some(vec![1, 1, 8, 6]));
}

#[test]
fn layer_declines_other_channel_counts_and_ranks() {
    assert_eq!(extraction().output_shape(&[1, 3, 8, 8]), None);
    assert_eq!(extraction().output_shape(&[1, 8, 8]), None);
    assert_eq!(extraction().output_shape(&[1, 1, 1, 8, 8]), None);
    assert_eq!(extraction().output_shape(&[]), None);
    assert_eq!(mapping().output_shape(&[1, 1, 8, 8]), None);
}

#[test]
fn layer_declines_empty_images() {
    assert_eq!(extraction().output_shape(&[0, 1, 8, 8]), Some(vec![0, 64, 8, 8]));
    assert_eq!(extraction().output_shape(&[0, 1, 0, 8]), None);
    assert_eq!(extraction().output_shape(&[1, 1, 0, 8]), None);
    assert_eq!(extraction().output_shape(&[1, 1, 8, 0]), None);
    let no_input = ConvSpec { in_channels: 0, out_channels: 4, kernel_size: 3, stride: 1, padding: 1 };
    assert_eq!(no_input.output_shape(&[1, 0, 8, 8]), None);
    let no_output = ConvSpec { in_channels: 1, out_channels: 0, kernel_size: 3, stride: 1, padding: 1 };
    assert_eq!(no_output.output_shape(&[1, 1, 8, 8]), None);
    let no_window = ConvSpec { in_channels: 1, out_channels: 4, kernel_size: 0, stride: 1, padding: 1 };
    assert_eq!(no_window.output_shape(&[1, 1, 8, 8]), None);
    let no_stride = ConvSpec { in_channels: 1, out_channels: 4, kernel_size: 3, stride: 0, padding: 1 };
    assert_eq!(no_stride.output_shape(&[1, 1, 8, 8]), None);
}

#[test]
fn unpadded_window_shortens_the_axes() {
    let conv = ConvSpec { in_channels: 2, out_channels: 5, kernel_size: 3, stride: 1, padding: 0 };
    assert_eq!(conv.output_shape(&[1, 2, 8, 6]), Some(vec![1, 5, 6, 4]));
    assert_eq!(conv.output_shape(&[1, 2, 3, 3]), Some(vec![1, 5, 1, 1]));
    assert_eq!(conv.output_shape(&[1, 2, 2, 8]), None);
    assert_eq!(conv.output_shape(&[1, 2, 8, 2]), None);
}

#[test]
fn stride_divides_and_rounds_down() {
    let conv = ConvSpec { in_channels: 1, out_channels: 1, kernel_size: 3, stride: 2, padding: 0 };
    assert_eq!(conv.output_shape(&[1, 1, 7, 8]), Some(vec![1, 1, 3, 3]));
    let padded = ConvSpec { in_channels: 1, out_channels: 1, kernel_size: 3, stride: 2, padding: 1 };
    assert_eq!(padded.output_shape(&[1, 1, 7, 8]), Some(vec![1, 1, 4, 4]));
}

#[test]
fn layer_declines_buffers_over_the_limit() {
    let limit = element_limit();
    assert_eq!(mapping().output_shape(&[limit / 64, 64, 1, 1]), Some(vec![limit / 64, 32, 1, 1]));
    assert_eq!(mapping().output_shape(&[limit / 64 + 1, 64, 1, 1]), None);
    assert_eq!(mapping().output_shape(&[usize::MAX, 64, 1, 1]), None);
    assert_eq!(extraction().output_shape(&[1, 1, usize::MAX, 1]), None);
    assert_eq!(extraction().output_shape(&[1, 1, usize::MAX - 7, 1]), None);
    assert_eq!(extraction().output_shape(&[1, 1, 1 << 20, 1 << 20]), if usize::BITS == 64 {
        Some(vec![1, 64, 1 << 20, 1 << 20])
    } else {
        None
    });
}

#[test]
fn rectifier_keeps_the_extents() {
    assert_eq!(Stage::Relu.output_shape(&[1, 64, 8, 8]), Some(vec![1, 64, 8, 8]));
    assert_eq!(Stage::Relu.output_shape(&[7]), Some(vec![7]));
    assert_eq!(Stage::Relu.output_shape(&[]), Some(vec![]));
    assert_eq!(Stage::Relu.output_shape(&[0, 3]), Some(vec![0, 3]));
    assert_eq!(Stage::Relu.output_shape(&[3, 0]), None);
    assert_eq!(Stage::Relu.output_shape(&[0, usize::MAX]), None);
    assert_eq!(Stage::Relu.output_shape(&[usize::MAX, 3]), None);
    assert_eq!(Stage::Conv(extraction()).output_shape(&[1, 1, 4, 4]), Some(vec![1, 64, 4, 4]));
    assert_eq!(Stage::Conv(extraction()).output_shape(&[1, 2, 4, 4]), None);
}

#[test]
fn model_can_run_on_batches_of_one_channel_images() {
    let stages = build_srcnn_model();
    assert!(can_run(&stages, &[1, 1, 8, 8]));
    assert!(can_run(&stages, &[1, 1, 1, 1]));
    assert!(can_run(&stages, &[16, 1, 64, 48]));
}

#[test]
fn model_cannot_run_on_empty_images_or_oversized_batches() {
    let stages = build_srcnn_model();
    assert!(can_run(&stages, &[0, 1, 8, 8]));
    assert!(!can_run(&stages, &[0, 1, 0, 8]));
    assert!(!can_run(&stages, &[0, 1, usize::MAX, 8]));
    assert!(!can_run(&stages, &[1, 1, 0, 8]));
    assert!(!can_run(&stages, &[1, 1, 8, 0]));
    assert!(!can_run(&stages, &[1, 1, usize::MAX, 8]));
    assert!(!can_run(&stages, &[usize::MAX, 1, usize::MAX, usize::MAX]));
}

#[test]
fn largest_buffer_of_the_model_has_800_values_per_pixel() {
    let stages = build_srcnn_model();
    let pixels = element_limit() / 800;
    assert!(can_run(&stages, &[pixels, 1, 1, 1]));
    assert!(can_run(&stages, &[1, 1, pixels, 1]));
    assert!(can_run(&stages, &[1, 1, 1, pixels]));
    assert!(!can_run(&stages, &[pixels + 1, 1, 1, 1]));
    assert!(!can_run(&stages, &[1, 1, pixels + 1, 1]));
    assert!(!can_run(&stages, &[1, 1, 1, pixels + 1]));
}

#[test]
fn what_the_first_layer_refuses_is_left_to_the_tensor_library() {
    let stages = build_srcnn_model();
    assert!(can_run(&stages, &[1, 3, 8, 8]));
    assert!(can_run(&stages, &[1, 3, 0, 8]));
    assert!(can_run(&stages, &[8, 8]));
    assert!(can_run(&stages, &[]));
}

#[test]
fn stages_are_checked_in_order() {
    let narrow = ConvSpec { in_channels: 1, out_channels: 2, kernel_size: 3, stride: 1, padding: 0 };
    let stages = vec![Stage::Conv(narrow), Stage::Relu, Stage::Conv(ConvSpec { in_channels: 2, ..narrow })];
    assert!(can_run(&stages, &[1, 1, 5, 5]));
    assert!(!can_run(&stages, &[1, 1, 4, 4]));
    assert!(!can_run(&stages, &[1, 1, 2, 2]));
    let mismatched = vec![Stage::Conv(narrow), Stage::Conv(narrow)];
    assert!(can_run(&mismatched, &[1, 1, 3, 3]));
    assert!(can_run(&[], &[1, 1, 0, 0]));
}

#[test]
fn axis_extent_follows_the_formula() {
    assert_eq!(axis_extent(8, 9, 4, 1), Some(8));
    assert_eq!(axis_extent(8, 1, 0, 1), Some(8));
    assert_eq!(axis_extent(8, 5, 2, 1), Some(8));
    assert_eq!(axis_extent(7, 3, 0, 2), Some(3));
    assert_eq!(axis_extent(8, 3, 0, 2), Some(3));
    assert_eq!(axis_extent(10, 3, 1, 3), Some(4));
    assert_eq!(axis_extent(3, 3, 0, 1), Some(1));
    assert_eq!(axis_extent(0, 9, 4, 1), None);
    assert_eq!(axis_extent(0, 1, 0, 1), None);
    assert_eq!(axis_extent(2, 3, 0, 1), None);
    assert_eq!(axis_extent(usize::MAX, 1, 1, 1), None);
    assert_eq!(axis_extent(1, 1, usize::MAX, 1), None);
    assert_eq!(axis_extent(usize::MAX, 1, 0, 1), Some(usize::MAX));
    assert_eq!(axis_extent(8, 0, 1, 1), None);
    assert_eq!(axis_extent(8, 3, 1, 0), None);
}

#[test]
fn bounded_mul_stops_at_the_limit() {
    assert_eq!(bounded_mul(6, 7, 42), Some(42));
    assert_eq!(bounded_mul(6, 7, 41), None);
    assert_eq!(bounded_mul(0, usize::MAX, 0), Some(0));
    assert_eq!(bounded_mul(usize::MAX, 2, usize::MAX), None);
    assert_eq!(bounded_mul(usize::MAX, 1, usize::MAX), Some(usize::MAX));
}

#[test]
fn element_limit_is_a_sixteenth_of_the_address_space() {
    assert_eq!(element_limit(), usize::MAX / 16);
}

#[test]
fn element_count_is_the_product_of_the_extents() {
    assert_eq!(checked_element_count(&[64, 1, 9, 9], usize::MAX), Some(5184));
    assert_eq!(checked_element_count(&[32, 64, 1, 1], usize::MAX), Some(2048));
    assert_eq!(checked_element_count(&[1, 32, 5, 5], usize::MAX), Some(800));
    assert_eq!(checked_element_count(&[7], usize::MAX), Some(7));
    assert_eq!(checked_element_count(&[], usize::MAX), Some(1));
}

#[test]
fn element_count_stops_at_the_limit() {
    assert_eq!(checked_element_count(&[2, 3, 4], 24), Some(24));
    assert_eq!(checked_element_count(&[2, 3, 4], 23), None);
    assert_eq!(checked_element_count(&[5, 5], 6), None);
    assert_eq!(checked_element_count(&[usize::MAX, 2], usize::MAX), None);
    assert_eq!(checked_element_count(&[usize::MAX, usize::MAX, usize::MAX], usize::MAX), None);
    assert_eq!(checked_element_count(&[], 0), None);
    assert_eq!(checked_element_count(&[1, 1], 1), Some(1));
}

#[test]
fn element_count_declines_an_empty_axis() {
    assert_eq!(checked_element_count(&[0], usize::MAX), None);
    assert_eq!(checked_element_count(&[3, 0, 2], usize::MAX), None);
    assert_eq!(checked_element_count(&[usize::MAX, usize::MAX, 0], usize::MAX), None);
    assert_eq!(checked_element_count(&[0, usize::MAX, usize::MAX], usize::MAX), None);
}

#[test]
fn sized_means_neither_empty_nor_over_the_limit() {
    let limit = element_limit();
    assert!(is_sized(&[1, 1, 8, 8]));
    assert!(is_sized(&[]));
    assert!(is_sized(&[limit]));
    assert!(is_sized(&[limit / 2, 2]));
    assert!(!is_sized(&[limit + 1]));
    assert!(!is_sized(&[limit / 2 + 1, 2]));
    assert!(!is_sized(&[1, 0, 8, 8]));
}

#[test]
fn empty_batch_counts_as_one_image() {
    let limit = element_limit();
    assert!(is_batch_sized(&[0, 1, 8, 8]));
    assert!(is_batch_sized(&[2, 1, 8, 8]));
    assert!(is_batch_sized(&[0]));
    assert!(is_batch_sized(&[]));
    assert!(is_batch_sized(&[0, limit]));
    assert!(!is_batch_sized(&[0, limit + 1]));
    assert!(!is_batch_sized(&[0, 0]));
    assert!(!is_batch_sized(&[1, 0, 8]));
    assert!(!is_batch_sized(&[limit, 2]));
}
