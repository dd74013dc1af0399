use dips::encoding::Encoding;
use dips::filter::DiPsFilter;
use dips::properties::{ChromaFilter, DiPsProperties, Filter};

#[test]
fn default_properties() {
    let p = DiPsProperties::default();
    assert!(p.colorize);
    assert_eq!(p.window_size, 1);
    assert_eq!(p.sigmoid_horizontal_scalar_tenths, 50);
    assert_eq!(p.filter_type, Filter::Sigmoid);
    assert_eq!(p.chroma_filter, ChromaFilter::All);
}

#[test]
fn window_size_is_clamped_and_odd() {
    let mut p = DiPsProperties::default();
    p.set_window_size(4);
    assert_eq!(p.window_size, 3);
    p.set_window_size(0);
    assert_eq!(p.window_size, 1);
    p.set_window_size(9);
    assert_eq!(p.window_size, 7);
    p.set_window_size(5);
    assert_eq!(p.window_size, 5);
    p.set_window_size(6);
    assert_eq!(p.window_size, 5);
}

#[test]
fn sensitivity_is_clamped() {
    let mut p = DiPsProperties::default();
    p.set_sigmoid_horizontal_scalar(5);
    assert_eq!(p.sigmoid_horizontal_scalar_tenths, 10);
    p.set_sigmoid_horizontal_scalar(1000);
    assert_eq!(p.sigmoid_horizontal_scalar_tenths, 100);
    p.set_sigmoid_horizontal_scalar(55);
    assert_eq!(p.sigmoid_horizontal_scalar_tenths, 55);
}

#[test]
fn setters_change_only_their_field() {
    let mut p = DiPsProperties::default();
    p.set_filter(Filter::InverseSigmoid);
    p.set_chroma_filter(ChromaFilter::Green);
    p.set_colorize(false);
    assert_eq!(p.filter_type, Filter::InverseSigmoid);
    assert_eq!(p.chroma_filter, ChromaFilter::Green);
    assert!(!p.colorize);
    assert_eq!(p.window_size, 1);
    assert_eq!(p.sigmoid_horizontal_scalar_tenths, 50);
}

#[test]
fn properties_slice_constants() {
    let mut p = DiPsProperties::default();
    p.set_colorize(false);
    p.set_window_size(5);
    p.set_sigmoid_horizontal_scalar(70);
    p.set_filter(Filter::InverseSigmoid);
    p.set_chroma_filter(ChromaFilter::Blue);
    let slice = p.get_properties_slice();
    assert_eq!(slice.len(), 5);
    assert_eq!(slice[0], ("COLORIZE".to_string(), 0));
    assert_eq!(slice[1], ("WINDOW_SIZE".to_string(), 5));
    assert_eq!(slice[2], ("SIGMOID_HORIZONTAL_SCALAR".to_string(), 70));
    assert_eq!(slice[3], ("FILTER_TYPE".to_string(), 1));
    assert_eq!(slice[4], ("CHROMA_FILTER".to_string(), 3));
}

#[test]
fn filter_shader_constants() {
    assert_eq!(Filter::Sigmoid.shader_constant(), 0);
    assert_eq!(Filter::InverseSigmoid.shader_constant(), 1);
    assert_eq!(ChromaFilter::All.shader_constant(), 0);
    assert_eq!(ChromaFilter::Red.shader_constant(), 1);
    assert_eq!(ChromaFilter::Green.shader_constant(), 2);
    assert_eq!(ChromaFilter::Blue.shader_constant(), 3);
    assert_eq!(DiPsFilter::Unfiltered.shader_constant(), 255);
    assert_eq!(DiPsFilter::Sigmoid.shader_constant(), 0);
    assert_eq!(DiPsFilter::InverseSigmoid.shader_constant(), 1);
}

#[test]
fn encoding_fourcc_values() {
    assert_eq!(Encoding::Uncompressed.as_fourcc(), 1094862674); // 'RGBA'
    assert_eq!(Encoding::Huffman.as_fourcc(), 1431914056); // 'HFYU'
    assert_eq!(Encoding::H264.as_fourcc(), 875967048); // 'H264'
}
