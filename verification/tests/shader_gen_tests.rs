use dips::shader_gen::{create_dynamic_bindings, generate_shader_source, partition_texture_bindings};
use dips::text::{decimal_string, replace_str};

#[test]
fn decimal_rendering() {
    assert_eq!(decimal_string(0), "0");
    assert_eq!(decimal_string(7), "7");
    assert_eq!(decimal_string(10), "10");
    assert_eq!(decimal_string(907), "907");
    assert_eq!(decimal_string(1000000), "1000000");
}

#[test]
fn replace_matches_std_semantics() {
    assert_eq!(replace_str("ababab", "ab", "x"), "ababab".replace("ab", "x"));
    assert_eq!(replace_str("aaa", "aa", "b"), "aaa".replace("aa", "b"));
    assert_eq!(replace_str("hello", "world", "x"), "hello");
    assert_eq!(replace_str("marker", "marker", "full"), "full");
    assert_eq!(replace_str("a//m b //m", "//m", "Z"), "aZ b Z");
}

#[test]
fn partition_small_window_pads_to_four_sets() {
    // Four textures fill one set; three empty dummy sets pad the layout.
    let (layouts, groups) = partition_texture_bindings(4);
    assert_eq!(layouts.len(), 4);
    assert_eq!(groups.len(), 4);
    assert_eq!(groups[0].entries.len(), 4);
    for (j, entry) in groups[0].entries.iter().enumerate() {
        assert_eq!(entry.binding, j as u32);
        assert_eq!(entry.texture, j);
    }
    assert_eq!(layouts[0].bindings, vec![0, 1, 2, 3]);
    for g in 1..4 {
        assert!(groups[g].entries.is_empty());
        assert!(layouts[g].bindings.is_empty());
    }
}

#[test]
fn partition_partial_trailing_set() {
    let (layouts, groups) = partition_texture_bindings(5);
    assert_eq!(groups.len(), 4);
    assert_eq!(groups[0].entries.len(), 4);
    assert_eq!(groups[1].entries.len(), 1);
    assert_eq!(groups[1].entries[0].binding, 0);
    assert_eq!(groups[1].entries[0].texture, 4);
    assert!(groups[2].entries.is_empty());
    assert!(groups[3].entries.is_empty());
    assert_eq!(layouts[1].bindings, vec![0]);
}

#[test]
fn partition_grows_past_four_sets() {
    let (_, groups) = partition_texture_bindings(17);
    assert_eq!(groups.len(), 5);
    for g in 0..4 {
        assert_eq!(groups[g].entries.len(), 4);
    }
    assert_eq!(groups[4].entries.len(), 1);
    // Texture 13 sits in set 3 at slot 1.
    assert_eq!(groups[3].entries[1].texture, 13);
    assert_eq!(groups[3].entries[1].binding, 1);
}

#[test]
fn partition_empty_window_is_all_dummies() {
    let (layouts, groups) = partition_texture_bindings(0);
    assert_eq!(layouts.len(), 4);
    assert_eq!(groups.len(), 4);
    assert!(groups.iter().all(|g| g.entries.is_empty()));
}

#[test]
fn generated_shader_single_texture() {
    let template = "//r3p1Ac3\n---\n//lFtIr3p1Ac3\n";
    let shader = generate_shader_source(1, 0, template);
    let mut expected = String::new();
    expected.push_str("@group(0) @binding(0)\nvar texture_0: texture_storage_2d<rgba8unorm, read>;\n");
    expected.push_str("    median_array[0] = spatial_median_filter(coords.xy, dimensions.xy, 0);\n");
    expected.push_str("\n---\n");
    expected.push_str("        case 0u: {\n            return textureLoad(texture_0, coords.xy);\n        }\n");
    expected.push_str("\n");
    assert_eq!(shader, expected);
}

#[test]
fn generated_shader_crosses_set_boundary() {
    // Texture 4 lands in the second set at slot 0, counting sets from 1.
    let shader = generate_shader_source(5, 1, "//r3p1Ac3\n//lFtIr3p1Ac3");
    assert!(shader.contains("@group(1) @binding(0)\nvar texture_0:"));
    assert!(shader.contains("@group(1) @binding(3)\nvar texture_3:"));
    assert!(shader.contains("@group(2) @binding(0)\nvar texture_4:"));
    assert!(shader.contains("median_array[4]"));
    assert!(shader.contains("case 4u:"));
}

#[test]
fn create_dynamic_bindings_combines_both() {
    let template = "//r3p1Ac3//lFtIr3p1Ac3";
    let (layouts, groups, shader) = create_dynamic_bindings(2, 0, template);
    assert_eq!(layouts.len(), 4);
    assert_eq!(groups[0].entries.len(), 2);
    assert_eq!(shader, generate_shader_source(2, 0, template));
}
