//! The resource-binding builder.
//!
//! A binding set holds at most four texture resources, so a window of `n`
//! history textures is split positionally: texture `i` lands in set `i / 4`
//! at slot `i % 4`, full sets are materialized as they fill, a partial
//! trailing set is materialized after the loop, and empty dummy sets pad the
//! list up to the fixed four-set pipeline layout. The shader source is
//! generated to match: one binding declaration per texture, one per-pixel
//! aggregation line per texture, and one case per texture in an
//! index-dispatch table, spliced into a template at marker strings.
use crate::text::{dec_chars, decimal_string, replace_chars, replace_str};
use vstd::arithmetic::div_mod::lemma_fundamental_div_mod;
use vstd::prelude::*;
use vstd::string::*;

verus! {

/// A binding set holds at most this many texture resources.
pub const BINDINGS_PER_GROUP: usize = 4;

/// The fixed number of binding sets the pipeline layout expects; shorter
/// partitions are padded with empty dummy sets.
pub const REQUIRED_BIND_GROUPS: usize = 4;

/// One concrete binding: the texture with logical index `texture` is bound
/// at slot `binding` of its set.
#[derive(Debug, Clone, Copy, PartialEq, Eq, Structural)]
pub struct BindingEntry {
    pub binding: u32,
    pub texture: usize,
}

/// The layout side of one binding set: the occupied slots, in order.
#[derive(Debug, Clone, PartialEq, Eq)]
pub struct TextureBindGroupLayout {
    pub bindings: Vec<u32>,
}

/// The resource side of one binding set: which texture sits in which slot.
#[derive(Debug, Clone, PartialEq, Eq)]
pub struct TextureBindGroup {
    pub entries: Vec<BindingEntry>,
}

/// How many sets actually hold textures: the ceiling of `n / 4`.
pub open spec fn filled_group_count(n: nat) -> nat {
    crate::ceil_div(n, 4)
}

/// How many sets are returned: at least the fixed four, more when the
/// window needs them.
pub open spec fn texture_group_count(n: nat) -> nat {
    if filled_group_count(n) >= 4 {
        filled_group_count(n)
    } else {
        4
    }
}

/// The number of textures set `g` holds: four for every full set, the
/// remainder for the last partial one.
pub open spec fn group_size(n: nat, g: nat) -> nat
    recommends
        g < filled_group_count(n),
{
    if n >= 4 * g + 4 {
        4
    } else {
        (n - 4 * g) as nat
    }
}

/// Set `g` holds textures `4g, 4g+1, ...` at slots `0, 1, ...`.
pub open spec fn group_entries_ok(group: TextureBindGroup, g: nat, n: nat) -> bool {
    &&& group.entries@.len() == group_size(n, g)
    &&& forall|j: int|
        0 <= j < group.entries@.len() ==> group.entries@[j] == (BindingEntry {
            binding: j as u32,
            texture: (4 * g + j) as usize,
        })
}

/// The full partition contract: the filled sets in order, then empty dummy
/// sets up to the required count, with each layout listing exactly the
/// slots its set binds.
pub open spec fn partition_ok(
    layouts: Seq<TextureBindGroupLayout>,
    groups: Seq<TextureBindGroup>,
    n: nat,
) -> bool {
    &&& layouts.len() == texture_group_count(n)
    &&& groups.len() == texture_group_count(n)
    &&& forall|g: int| 0 <= g < filled_group_count(n) ==> group_entries_ok(#[trigger] groups[g], g as nat, n)
    &&& forall|g: int| filled_group_count(n) <= g < groups.len() ==> (#[trigger] groups[g]).entries@.len() == 0
    &&& forall|g: int|
        0 <= g < layouts.len() ==> (#[trigger] layouts[g]).bindings@.len() == groups[g].entries@.len()
    &&& forall|g: int, j: int|
        0 <= g < layouts.len() && 0 <= j < layouts[g].bindings@.len() ==> #[trigger] layouts[g].bindings@[j]
            == j as u32
}

/// The binding declaration generated for one texture.
pub open spec fn binding_decl_chars(group: nat, binding: nat, index: nat) -> Seq<char> {
    "@group("@ + dec_chars(group) + ") @binding("@ + dec_chars(binding) + ")\nvar texture_"@
        + dec_chars(index) + ": texture_storage_2d<rgba8unorm, read>;\n"@
}

/// The binding declarations for all `n` textures, counting set numbers from
/// `first_group`.
pub open spec fn bindings_decl_chars(n: nat, first_group: nat) -> Seq<char>
    decreases n,
{
    if n == 0 {
        Seq::<char>::empty()
    } else {
        bindings_decl_chars((n - 1) as nat, first_group) + binding_decl_chars(
            first_group + (n - 1) as nat / 4,
            (n - 1) as nat % 4,
            (n - 1) as nat,
        )
    }
}

/// The per-pixel aggregation line generated for one texture.
pub open spec fn aggregation_line_chars(index: nat) -> Seq<char> {
    "    median_array["@ + dec_chars(index)
        + "] = spatial_median_filter(coords.xy, dimensions.xy, "@ + dec_chars(index) + ");\n"@
}

/// The aggregation lines for all `n` textures.
pub open spec fn aggregation_chars(n: nat) -> Seq<char>
    decreases n,
{
    if n == 0 {
        Seq::<char>::empty()
    } else {
        aggregation_chars((n - 1) as nat) + aggregation_line_chars((n - 1) as nat)
    }
}

/// The index-dispatch case generated for one texture.
pub open spec fn load_case_chars(index: nat) -> Seq<char> {
    "        case "@ + dec_chars(index) + "u: {\n            return textureLoad(texture_"@
        + dec_chars(index) + ", coords.xy);\n        }\n"@
}

/// The index-dispatch cases for all `n` textures.
pub open spec fn load_dispatch_chars(n: nat) -> Seq<char>
    decreases n,
{
    if n == 0 {
        Seq::<char>::empty()
    } else {
        load_dispatch_chars((n - 1) as nat) + load_case_chars((n - 1) as nat)
    }
}

/// The complete generated shader: the binding declarations, then the
/// template with the aggregation lines and the dispatch table spliced in at
/// their markers.
pub open spec fn generated_shader_chars(template: Seq<char>, n: nat, first_group: nat) -> Seq<
    char,
> {
    bindings_decl_chars(n, first_group) + replace_chars(
        replace_chars(template, "//r3p1Ac3"@, aggregation_chars(n)),
        "//lFtIr3p1Ac3"@,
        load_dispatch_chars(n),
    )
}

fn binding_decl_string(group: u64, binding: u64, index: u64) -> (r: String)
    ensures
        r@ == binding_decl_chars(group as nat, binding as nat, index as nat),
{
    let mut s = String::from_str("@group(");
    s.append(decimal_string(group).as_str());
    s.append(") @binding(");
    s.append(decimal_string(binding).as_str());
    s.append(")\nvar texture_");
    s.append(decimal_string(index).as_str());
    s.append(": texture_storage_2d<rgba8unorm, read>;\n");
    proof {
        assert(s@ =~= binding_decl_chars(group as nat, binding as nat, index as nat));
    }
    s
}

fn aggregation_line_string(index: u64) -> (r: String)
    ensures
        r@ == aggregation_line_chars(index as nat),
{
    let mut s = String::from_str("    median_array[");
    s.append(decimal_string(index).as_str());
    s.append("] = spatial_median_filter(coords.xy, dimensions.xy, ");
    s.append(decimal_string(index).as_str());
    s.append(");\n");
    proof {
        assert(s@ =~= aggregation_line_chars(index as nat));
    }
    s
}

fn load_case_string(index: u64) -> (r: String)
    ensures
        r@ == load_case_chars(index as nat),
{
    let mut s = String::from_str("        case ");
    s.append(decimal_string(index).as_str());
    s.append("u: {\n            return textureLoad(texture_");
    s.append(decimal_string(index).as_str());
    s.append(", coords.xy);\n        }\n");
    proof {
        assert(s@ =~= load_case_chars(index as nat));
    }
    s
}

/// Split `num_textures` resources into binding sets of at most four,
/// materializing each set as it fills and padding with empty dummy sets up
/// to the required four.
pub fn partition_texture_bindings(num_textures: usize) -> (r: (
    Vec<TextureBindGroupLayout>,
    Vec<TextureBindGroup>,
))
    ensures
        partition_ok(r.0@, r.1@, num_textures as nat),
{
    let n = num_textures;
    let mut layouts: Vec<TextureBindGroupLayout> = Vec::new();
    let mut groups: Vec<TextureBindGroup> = Vec::new();
    let mut current_layout: Vec<u32> = Vec::new();
    let mut current_entries: Vec<BindingEntry> = Vec::new();
    let mut i: usize = 0;
    while i < n
        invariant
            i <= n,
            groups@.len() == i / 4,
            layouts@.len() == groups@.len(),
            current_entries@.len() == i % 4,
            current_layout@.len() == current_entries@.len(),
            forall|j: int|
                0 <= j < current_entries@.len() ==> current_entries@[j] == (BindingEntry {
                    binding: j as u32,
                    texture: (4 * (i / 4) + j) as usize,
                }),
            forall|j: int| 0 <= j < current_layout@.len() ==> current_layout@[j] == j as u32,
            forall|g: int|
                0 <= g < groups@.len() ==> group_entries_ok(
                    #[trigger] groups@[g],
                    g as nat,
                    n as nat,
                ),
            forall|g: int|
                0 <= g < layouts@.len() ==> (#[trigger] layouts@[g]).bindings@.len()
                    == groups@[g].entries@.len(),
            forall|g: int, j: int|
                0 <= g < layouts@.len() && 0 <= j < layouts@[g].bindings@.len()
                    ==> #[trigger] layouts@[g].bindings@[j] == j as u32,
        decreases n - i,
    {
        proof {
            lemma_fundamental_div_mod(i as int, 4);
        }
        let slot = i % 4;
        current_layout.push(slot as u32);
        current_entries.push(BindingEntry { binding: slot as u32, texture: i });
        if current_entries.len() == BINDINGS_PER_GROUP {
            // This set just filled: materialize it at once.
            groups.push(TextureBindGroup { entries: current_entries });
            layouts.push(TextureBindGroupLayout { bindings: current_layout });
            current_entries = Vec::new();
            current_layout = Vec::new();
            proof {
                lemma_fundamental_div_mod((i + 1) as int, 4);
            }
        } else {
            proof {
                lemma_fundamental_div_mod((i + 1) as int, 4);
            }
        }
        i = i + 1;
    }
    proof {
        lemma_fundamental_div_mod(n as int, 4);
        lemma_fundamental_div_mod((n + 3) as int, 4);
    }
    if current_entries.len() > 0 {
        // Materialize the partial trailing set.
        groups.push(TextureBindGroup { entries: current_entries });
        layouts.push(TextureBindGroupLayout { bindings: current_layout });
    }
    // Pad with empty dummy sets to the fixed pipeline layout width.
    while groups.len() < REQUIRED_BIND_GROUPS
        invariant
            groups@.len() >= filled_group_count(n as nat),
            layouts@.len() == groups@.len(),
            groups@.len() <= texture_group_count(n as nat),
            forall|g: int|
                0 <= g < filled_group_count(n as nat) ==> group_entries_ok(
                    #[trigger] groups@[g],
                    g as nat,
                    n as nat,
                ),
            forall|g: int|
                filled_group_count(n as nat) <= g < groups@.len() ==> (#[trigger] groups@[g]).entries@.len()
                    == 0,
            forall|g: int|
                0 <= g < layouts@.len() ==> (#[trigger] layouts@[g]).bindings@.len()
                    == groups@[g].entries@.len(),
            forall|g: int, j: int|
                0 <= g < layouts@.len() && 0 <= j < layouts@[g].bindings@.len()
                    ==> #[trigger] layouts@[g].bindings@[j] == j as u32,
        decreases REQUIRED_BIND_GROUPS - groups.len(),
    {
        groups.push(TextureBindGroup { entries: Vec::new() });
        layouts.push(TextureBindGroupLayout { bindings: Vec::new() });
    }
    (layouts, groups)
}

/// Generate the shader source for `num_textures` textures: the binding
/// declarations followed by the template with the aggregation lines and the
/// index-dispatch table spliced in at their markers.
pub fn generate_shader_source(num_textures: usize, first_group: u32, template: &str) -> (r:
    String)
    ensures
        r@ == generated_shader_chars(template@, num_textures as nat, first_group as nat),
{
    let n = num_textures;
    let mut shader_bindings = String::new();
    let mut arraying_texture = String::new();
    let mut texture_loading = String::new();
    let mut i: usize = 0;
    while i < n
        invariant
            i <= n,
            shader_bindings@ == bindings_decl_chars(i as nat, first_group as nat),
            arraying_texture@ == aggregation_chars(i as nat),
            texture_loading@ == load_dispatch_chars(i as nat),
        decreases n - i,
    {
        proof {
            lemma_fundamental_div_mod(i as int, 4);
        }
        let group = first_group as u64 + (i / 4) as u64;
        let binding = (i % 4) as u64;
        shader_bindings.append(binding_decl_string(group, binding, i as u64).as_str());
        arraying_texture.append(aggregation_line_string(i as u64).as_str());
        texture_loading.append(load_case_string(i as u64).as_str());
        i = i + 1;
    }
    proof {
        reveal_strlit("//r3p1Ac3");
        reveal_strlit("//lFtIr3p1Ac3");
    }
    let with_aggregation = replace_str(template, "//r3p1Ac3", &arraying_texture);
    let with_loading = replace_str(with_aggregation.as_str(), "//lFtIr3p1Ac3", &texture_loading);
    let mut out = shader_bindings;
    out.append(with_loading.as_str());
    out
}

/// Build the binding-set layouts, the bound sets, and the generated shader
/// source for a window of `num_textures` textures whose first set is
/// numbered `first_group`.
pub fn create_dynamic_bindings(num_textures: usize, first_group: u32, template: &str) -> (r: (
    Vec<TextureBindGroupLayout>,
    Vec<TextureBindGroup>,
    String,
))
    ensures
        partition_ok(r.0@, r.1@, num_textures as nat),
        r.2@ == generated_shader_chars(template@, num_textures as nat, first_group as nat),
{
    let (layouts, groups) = partition_texture_bindings(num_textures);
    let shader = generate_shader_source(num_textures, first_group, template);
    (layouts, groups, shader)
}

} // verus!
