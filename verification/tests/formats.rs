use wgpu_core::binding_model::BindEntryMap;
use wgpu_core::ir::{
    ArraySize, Binding, Dim, EntryPoint, ExecutionModel, Function, GlobalUse, GlobalVariable,
    ImageFlags, Module, ScalarKind, StructMember, Type, TypeInner, VectorSize,
};
use wgpu_core::types::{
    BindGroupLayoutEntry, BindingType, BufferUsage, ShaderStage, TextureComponentType,
    TextureFormat, TextureUsage, TextureViewDimension, VertexFormat, BIND_BUFFER_ALIGNMENT,
};
use wgpu_core::validation::{
    check_buffer_usage, check_texture_format, check_texture_usage, is_sub_type,
    map_texture_format, map_vertex_format, MissingBufferUsageError, MissingTextureUsageError,
};

fn scalar(kind: ScalarKind, width: u8) -> TypeInner {
    TypeInner::Scalar { kind, width }
}

fn vector(size: VectorSize, kind: ScalarKind, width: u8) -> TypeInner {
    TypeInner::Vector { size, kind, width }
}

fn matrix(columns: VectorSize, rows: VectorSize, kind: ScalarKind, width: u8) -> TypeInner {
    TypeInner::Matrix { columns, rows, kind, width }
}

#[test]
fn sub_type_is_reflexive_on_numbers_and_structures() {
    let members = vec![
        StructMember { offset: 0, ty: 0 },
        StructMember { offset: 16, ty: 1 },
    ];
    let types = vec![
        scalar(ScalarKind::Float, 32),
        scalar(ScalarKind::Bool, 8),
        vector(VectorSize::Tri, ScalarKind::Sint, 16),
        matrix(VectorSize::Quad, VectorSize::Bi, ScalarKind::Float, 32),
        TypeInner::Struct { members },
        TypeInner::Struct { members: vec![] },
    ];
    for ty in &types {
        assert!(is_sub_type(ty, ty), "{:?}", ty);
    }
}

#[test]
fn sub_type_never_holds_of_pointers_arrays_images_and_samplers() {
    let types = vec![
        TypeInner::Pointer { base: 0 },
        TypeInner::Array { base: 0, size: ArraySize::Static(4), stride: Some(16) },
        TypeInner::Array { base: 0, size: ArraySize::Dynamic, stride: None },
        TypeInner::Image { base: 0, dim: Dim::Dim2D, flags: ImageFlags { bits: 0 } },
        TypeInner::Sampler { comparison: false },
    ];
    for ty in &types {
        assert!(!is_sub_type(ty, ty), "{:?}", ty);
        assert!(!is_sub_type(ty, &scalar(ScalarKind::Float, 32)));
        assert!(!is_sub_type(&scalar(ScalarKind::Float, 32), ty));
    }
}

#[test]
fn sub_type_follows_the_width() {
    let narrow = scalar(ScalarKind::Float, 16);
    let wide = scalar(ScalarKind::Float, 32);
    assert!(is_sub_type(&narrow, &wide));
    assert!(!is_sub_type(&wide, &narrow));
    assert!(is_sub_type(&wide, &wide));
    for size in [VectorSize::Bi, VectorSize::Tri, VectorSize::Quad] {
        let narrow = vector(size, ScalarKind::Uint, 8);
        let wide = vector(size, ScalarKind::Uint, 16);
        assert!(is_sub_type(&narrow, &wide));
        assert!(!is_sub_type(&wide, &narrow));
    }
}

#[test]
fn sub_type_of_scalar_in_scalar_needs_the_same_kind() {
    assert!(!is_sub_type(&scalar(ScalarKind::Sint, 32), &scalar(ScalarKind::Uint, 32)));
    assert!(!is_sub_type(&scalar(ScalarKind::Float, 32), &scalar(ScalarKind::Sint, 32)));
    assert!(is_sub_type(&scalar(ScalarKind::Sint, 8), &scalar(ScalarKind::Sint, 32)));
}

#[test]
fn sub_type_of_scalar_in_vector() {
    let required = scalar(ScalarKind::Float, 32);
    assert!(is_sub_type(&required, &vector(VectorSize::Bi, ScalarKind::Float, 32)));
    assert!(is_sub_type(&required, &vector(VectorSize::Quad, ScalarKind::Float, 32)));
    assert!(!is_sub_type(&required, &vector(VectorSize::Quad, ScalarKind::Float, 16)));
    assert!(!is_sub_type(&required, &vector(VectorSize::Quad, ScalarKind::Uint, 32)));
    assert!(!is_sub_type(&vector(VectorSize::Bi, ScalarKind::Float, 32), &required));
}

#[test]
fn sub_type_of_vector_in_vector_follows_the_size() {
    let two = vector(VectorSize::Bi, ScalarKind::Float, 32);
    let three = vector(VectorSize::Tri, ScalarKind::Float, 32);
    let four = vector(VectorSize::Quad, ScalarKind::Float, 32);
    assert!(is_sub_type(&two, &three));
    assert!(is_sub_type(&two, &four));
    assert!(is_sub_type(&three, &four));
    assert!(!is_sub_type(&three, &two));
    assert!(!is_sub_type(&four, &two));
    assert!(!is_sub_type(&four, &three));
    assert!(!is_sub_type(&two, &vector(VectorSize::Quad, ScalarKind::Sint, 32)));
}

#[test]
fn sub_type_of_matrix_needs_the_same_shape() {
    let required = matrix(VectorSize::Tri, VectorSize::Quad, ScalarKind::Float, 16);
    assert!(is_sub_type(
        &required,
        &matrix(VectorSize::Tri, VectorSize::Quad, ScalarKind::Float, 32)
    ));
    assert!(!is_sub_type(
        &required,
        &matrix(VectorSize::Quad, VectorSize::Quad, ScalarKind::Float, 32)
    ));
    assert!(!is_sub_type(
        &required,
        &matrix(VectorSize::Tri, VectorSize::Tri, ScalarKind::Float, 32)
    ));
    assert!(!is_sub_type(
        &required,
        &matrix(VectorSize::Tri, VectorSize::Quad, ScalarKind::Sint, 32)
    ));
    assert!(!is_sub_type(
        &required,
        &matrix(VectorSize::Tri, VectorSize::Quad, ScalarKind::Float, 8)
    ));
    assert!(!is_sub_type(&required, &vector(VectorSize::Quad, ScalarKind::Float, 32)));
}

#[test]
fn sub_type_of_structure_needs_the_same_members() {
    let members = vec![
        StructMember { offset: 0, ty: 3 },
        StructMember { offset: 16, ty: 5 },
    ];
    let required = TypeInner::Struct { members: members.clone() };
    assert!(is_sub_type(&required, &TypeInner::Struct { members: members.clone() }));
    let shorter = TypeInner::Struct { members: vec![StructMember { offset: 0, ty: 3 }] };
    assert!(!is_sub_type(&required, &shorter));
    assert!(!is_sub_type(&shorter, &required));
    let moved = TypeInner::Struct {
        members: vec![StructMember { offset: 0, ty: 3 }, StructMember { offset: 32, ty: 5 }],
    };
    assert!(!is_sub_type(&required, &moved));
    let retyped = TypeInner::Struct {
        members: vec![StructMember { offset: 0, ty: 3 }, StructMember { offset: 16, ty: 4 }],
    };
    assert!(!is_sub_type(&required, &retyped));
    let swapped = TypeInner::Struct {
        members: vec![StructMember { offset: 16, ty: 5 }, StructMember { offset: 0, ty: 3 }],
    };
    assert!(!is_sub_type(&required, &swapped));
    assert!(!is_sub_type(&required, &scalar(ScalarKind::Float, 32)));
}

#[test]
fn vertex_formats_map_to_their_types() {
    let cases = vec![
        (VertexFormat::Uchar2, vector(VectorSize::Bi, ScalarKind::Uint, 8)),
        (VertexFormat::Uchar4, vector(VectorSize::Quad, ScalarKind::Uint, 8)),
        (VertexFormat::Char2, vector(VectorSize::Bi, ScalarKind::Sint, 8)),
        (VertexFormat::Char4, vector(VectorSize::Quad, ScalarKind::Sint, 8)),
        (VertexFormat::Uchar2Norm, vector(VectorSize::Bi, ScalarKind::Float, 8)),
        (VertexFormat::Uchar4Norm, vector(VectorSize::Quad, ScalarKind::Float, 8)),
        (VertexFormat::Char2Norm, vector(VectorSize::Bi, ScalarKind::Float, 8)),
        (VertexFormat::Char4Norm, vector(VectorSize::Quad, ScalarKind::Float, 8)),
        (VertexFormat::Ushort2, vector(VectorSize::Bi, ScalarKind::Uint, 16)),
        (VertexFormat::Ushort4, vector(VectorSize::Quad, ScalarKind::Uint, 16)),
        (VertexFormat::Short2, vector(VectorSize::Bi, ScalarKind::Sint, 16)),
        (VertexFormat::Short4, vector(VectorSize::Quad, ScalarKind::Sint, 16)),
        (VertexFormat::Ushort2Norm, vector(VectorSize::Bi, ScalarKind::Float, 16)),
        (VertexFormat::Ushort4Norm, vector(VectorSize::Quad, ScalarKind::Float, 16)),
        (VertexFormat::Short2Norm, vector(VectorSize::Bi, ScalarKind::Float, 16)),
        (VertexFormat::Short4Norm, vector(VectorSize::Quad, ScalarKind::Float, 16)),
        (VertexFormat::Half2, vector(VectorSize::Bi, ScalarKind::Float, 16)),
        (VertexFormat::Half4, vector(VectorSize::Quad, ScalarKind::Float, 16)),
        (VertexFormat::Float, scalar(ScalarKind::Float, 32)),
        (VertexFormat::Float2, vector(VectorSize::Bi, ScalarKind::Float, 32)),
        (VertexFormat::Float3, vector(VectorSize::Tri, ScalarKind::Float, 32)),
        (VertexFormat::Float4, vector(VectorSize::Quad, ScalarKind::Float, 32)),
        (VertexFormat::Uint, scalar(ScalarKind::Uint, 32)),
        (VertexFormat::Uint2, vector(VectorSize::Bi, ScalarKind::Uint, 32)),
        (VertexFormat::Uint3, vector(VectorSize::Tri, ScalarKind::Uint, 32)),
        (VertexFormat::Uint4, vector(VectorSize::Quad, ScalarKind::Uint, 32)),
        (VertexFormat::Int, scalar(ScalarKind::Sint, 32)),
        (VertexFormat::Int2, vector(VectorSize::Bi, ScalarKind::Sint, 32)),
        (VertexFormat::Int3, vector(VectorSize::Tri, ScalarKind::Sint, 32)),
        (VertexFormat::Int4, vector(VectorSize::Quad, ScalarKind::Sint, 32)),
    ];
    assert_eq!(cases.len(), 30);
    for (format, expected) in cases {
        assert_eq!(map_vertex_format(format), expected, "{:?}", format);
    }
}

#[test]
fn texture_formats_map_to_their_types() {
    let cases = vec![
        (TextureFormat::R8Unorm, scalar(ScalarKind::Float, 8)),
        (TextureFormat::R8Snorm, scalar(ScalarKind::Float, 8)),
        (TextureFormat::R8Uint, scalar(ScalarKind::Uint, 8)),
        (TextureFormat::R8Sint, scalar(ScalarKind::Sint, 8)),
        (TextureFormat::R16Uint, scalar(ScalarKind::Uint, 16)),
        (TextureFormat::R16Sint, scalar(ScalarKind::Sint, 16)),
        (TextureFormat::R16Float, scalar(ScalarKind::Float, 16)),
        (TextureFormat::Rg8Unorm, vector(VectorSize::Bi, ScalarKind::Float, 8)),
        (TextureFormat::Rg8Snorm, vector(VectorSize::Bi, ScalarKind::Float, 8)),
        (TextureFormat::Rg8Uint, vector(VectorSize::Bi, ScalarKind::Uint, 8)),
        (TextureFormat::Rg8Sint, vector(VectorSize::Bi, ScalarKind::Sint, 8)),
        (TextureFormat::R32Uint, scalar(ScalarKind::Uint, 32)),
        (TextureFormat::R32Sint, scalar(ScalarKind::Sint, 32)),
        (TextureFormat::R32Float, scalar(ScalarKind::Float, 32)),
        (TextureFormat::Rg16Uint, vector(VectorSize::Bi, ScalarKind::Uint, 16)),
        (TextureFormat::Rg16Sint, vector(VectorSize::Bi, ScalarKind::Sint, 16)),
        (TextureFormat::Rg16Float, vector(VectorSize::Bi, ScalarKind::Float, 16)),
        (TextureFormat::Rgba8Unorm, vector(VectorSize::Quad, ScalarKind::Float, 8)),
        (TextureFormat::Rgba8UnormSrgb, vector(VectorSize::Quad, ScalarKind::Float, 8)),
        (TextureFormat::Rgba8Snorm, vector(VectorSize::Quad, ScalarKind::Float, 8)),
        (TextureFormat::Rgba8Uint, vector(VectorSize::Quad, ScalarKind::Uint, 8)),
        (TextureFormat::Rgba8Sint, vector(VectorSize::Quad, ScalarKind::Sint, 8)),
        (TextureFormat::Bgra8Unorm, vector(VectorSize::Quad, ScalarKind::Float, 8)),
        (TextureFormat::Bgra8UnormSrgb, vector(VectorSize::Quad, ScalarKind::Float, 8)),
        (TextureFormat::Rgb10a2Unorm, vector(VectorSize::Quad, ScalarKind::Float, 10)),
        (TextureFormat::Rg11b10Float, vector(VectorSize::Tri, ScalarKind::Float, 11)),
        (TextureFormat::Rg32Uint, vector(VectorSize::Bi, ScalarKind::Uint, 32)),
        (TextureFormat::Rg32Sint, vector(VectorSize::Bi, ScalarKind::Sint, 32)),
        (TextureFormat::Rg32Float, vector(VectorSize::Bi, ScalarKind::Float, 32)),
        (TextureFormat::Rgba16Uint, vector(VectorSize::Quad, ScalarKind::Uint, 16)),
        (TextureFormat::Rgba16Sint, vector(VectorSize::Quad, ScalarKind::Sint, 16)),
        (TextureFormat::Rgba16Float, vector(VectorSize::Quad, ScalarKind::Float, 16)),
        (TextureFormat::Rgba32Uint, vector(VectorSize::Quad, ScalarKind::Uint, 32)),
        (TextureFormat::Rgba32Sint, vector(VectorSize::Quad, ScalarKind::Sint, 32)),
        (TextureFormat::Rgba32Float, vector(VectorSize::Quad, ScalarKind::Float, 32)),
    ];
    assert_eq!(cases.len(), 35);
    for (format, expected) in cases {
        assert!(!format.is_depth());
        assert_eq!(map_texture_format(format), expected, "{:?}", format);
    }
}

#[test]
fn depth_formats_are_told_apart() {
    assert!(TextureFormat::Depth32Float.is_depth());
    assert!(TextureFormat::Depth24Plus.is_depth());
    assert!(TextureFormat::Depth24PlusStencil8.is_depth());
    assert!(!TextureFormat::R32Float.is_depth());
}

#[test]
fn texture_format_is_covered_by_a_wider_output() {
    let output = vector(VectorSize::Quad, ScalarKind::Float, 32);
    assert!(check_texture_format(TextureFormat::Rgba8Unorm, &output));
    assert!(check_texture_format(TextureFormat::Rg8Unorm, &output));
    assert!(check_texture_format(TextureFormat::R32Float, &output));
    assert!(check_texture_format(TextureFormat::Rgba32Float, &output));
    assert!(!check_texture_format(TextureFormat::Rgba8Uint, &output));
    assert!(!check_texture_format(TextureFormat::Rgba32Sint, &output));
    let narrow = vector(VectorSize::Bi, ScalarKind::Float, 16);
    assert!(!check_texture_format(TextureFormat::Rgba8Unorm, &narrow));
    assert!(!check_texture_format(TextureFormat::Rg32Float, &narrow));
    assert!(check_texture_format(TextureFormat::Rg16Float, &narrow));
    assert!(check_texture_format(TextureFormat::R8Unorm, &narrow));
    let single = scalar(ScalarKind::Float, 32);
    assert!(check_texture_format(TextureFormat::R32Float, &single));
    assert!(!check_texture_format(TextureFormat::Rg32Float, &single));
}

#[test]
fn buffer_usage_is_checked() {
    let actual = BufferUsage { bits: BufferUsage::UNIFORM | BufferUsage::COPY_DST };
    assert_eq!(check_buffer_usage(actual, BufferUsage { bits: BufferUsage::UNIFORM }), Ok(()));
    assert_eq!(check_buffer_usage(actual, actual), Ok(()));
    assert_eq!(check_buffer_usage(actual, BufferUsage { bits: 0 }), Ok(()));
    let expected = BufferUsage { bits: BufferUsage::UNIFORM | BufferUsage::STORAGE };
    assert_eq!(
        check_buffer_usage(actual, expected),
        Err(MissingBufferUsageError { actual, expected })
    );
    let expected = BufferUsage { bits: BufferUsage::INDIRECT };
    assert_eq!(
        check_buffer_usage(BufferUsage { bits: 0 }, expected),
        Err(MissingBufferUsageError { actual: BufferUsage { bits: 0 }, expected })
    );
}

#[test]
fn texture_usage_is_checked() {
    let actual = TextureUsage { bits: TextureUsage::SAMPLED | TextureUsage::COPY_DST };
    assert_eq!(check_texture_usage(actual, TextureUsage { bits: TextureUsage::SAMPLED }), Ok(()));
    assert_eq!(check_texture_usage(actual, actual), Ok(()));
    let expected = TextureUsage { bits: TextureUsage::OUTPUT_ATTACHMENT };
    assert_eq!(
        check_texture_usage(actual, expected),
        Err(MissingTextureUsageError { actual, expected })
    );
    let expected = TextureUsage { bits: TextureUsage::SAMPLED | TextureUsage::STORAGE };
    assert_eq!(
        check_texture_usage(actual, expected),
        Err(MissingTextureUsageError { actual, expected })
    );
}

#[test]
fn flag_sets_contain_their_parts() {
    let both = GlobalUse::all();
    assert!(both.contains(GlobalUse::load()));
    assert!(both.contains(GlobalUse::store()));
    assert!(both.contains(GlobalUse::empty()));
    assert!(!GlobalUse::load().contains(GlobalUse::store()));
    assert!(!GlobalUse::load().contains(both));
    assert!(GlobalUse::empty().is_empty());
    assert!(!GlobalUse::load().is_empty());
    assert!(GlobalUse::empty().contains(GlobalUse::empty()));
    assert!(!GlobalUse::empty().contains(GlobalUse::load()));
    let stages = ShaderStage { bits: ShaderStage::VERTEX | ShaderStage::FRAGMENT };
    assert!(stages.contains(ShaderStage::vertex()));
    assert!(stages.contains(ShaderStage::fragment()));
    assert!(!stages.contains(ShaderStage::compute()));
    assert!(stages.contains(ShaderStage::none()));
    assert!(!ShaderStage::none().contains(ShaderStage::vertex()));
    let flags = ImageFlags { bits: ImageFlags::SAMPLED | ImageFlags::ARRAYED };
    assert!(flags.contains(ImageFlags::sampled()));
    assert!(flags.contains(ImageFlags::arrayed()));
    assert!(!flags.contains(ImageFlags::multisampled()));
}

#[test]
fn constants_agree_with_the_crates_they_mirror() {
    assert_eq!(BIND_BUFFER_ALIGNMENT, wgpu_types::BIND_BUFFER_ALIGNMENT);
    assert_eq!(GlobalUse::LOAD, naga::GlobalUse::LOAD.bits());
    assert_eq!(GlobalUse::STORE, naga::GlobalUse::STORE.bits());
    assert_eq!(GlobalUse::all().bits, naga::GlobalUse::all().bits());
    assert_eq!(ImageFlags::ARRAYED, naga::ImageFlags::ARRAYED.bits());
    assert_eq!(ImageFlags::MULTISAMPLED, naga::ImageFlags::MULTISAMPLED.bits());
    assert_eq!(ImageFlags::SAMPLED, naga::ImageFlags::SAMPLED.bits());
    assert_eq!(ImageFlags::CAN_LOAD, naga::ImageFlags::CAN_LOAD.bits());
    assert_eq!(ImageFlags::CAN_STORE, naga::ImageFlags::CAN_STORE.bits());
    assert_eq!(ShaderStage::NONE, wgpu_types::ShaderStage::NONE.bits());
    assert_eq!(ShaderStage::VERTEX, wgpu_types::ShaderStage::VERTEX.bits());
    assert_eq!(ShaderStage::FRAGMENT, wgpu_types::ShaderStage::FRAGMENT.bits());
    assert_eq!(ShaderStage::COMPUTE, wgpu_types::ShaderStage::COMPUTE.bits());
    assert_eq!(BufferUsage::MAP_READ, wgpu_types::BufferUsage::MAP_READ.bits());
    assert_eq!(BufferUsage::MAP_WRITE, wgpu_types::BufferUsage::MAP_WRITE.bits());
    assert_eq!(BufferUsage::COPY_SRC, wgpu_types::BufferUsage::COPY_SRC.bits());
    assert_eq!(BufferUsage::COPY_DST, wgpu_types::BufferUsage::COPY_DST.bits());
    assert_eq!(BufferUsage::INDEX, wgpu_types::BufferUsage::INDEX.bits());
    assert_eq!(BufferUsage::VERTEX, wgpu_types::BufferUsage::VERTEX.bits());
    assert_eq!(BufferUsage::UNIFORM, wgpu_types::BufferUsage::UNIFORM.bits());
    assert_eq!(BufferUsage::STORAGE, wgpu_types::BufferUsage::STORAGE.bits());
    assert_eq!(BufferUsage::INDIRECT, wgpu_types::BufferUsage::INDIRECT.bits());
    assert_eq!(TextureUsage::COPY_SRC, wgpu_types::TextureUsage::COPY_SRC.bits());
    assert_eq!(TextureUsage::COPY_DST, wgpu_types::TextureUsage::COPY_DST.bits());
    assert_eq!(TextureUsage::SAMPLED, wgpu_types::TextureUsage::SAMPLED.bits());
    assert_eq!(TextureUsage::STORAGE, wgpu_types::TextureUsage::STORAGE.bits());
    assert_eq!(
        TextureUsage::OUTPUT_ATTACHMENT,
        wgpu_types::TextureUsage::OUTPUT_ATTACHMENT.bits()
    );
}

#[test]
fn flag_sets_contain_as_the_crates_they_mirror_do() {
    for actual in 0u8..4 {
        for expected in 0u8..4 {
            let ours = GlobalUse { bits: actual }.contains(GlobalUse { bits: expected });
            let theirs = naga::GlobalUse::from_bits_truncate(actual)
                .contains(naga::GlobalUse::from_bits_truncate(expected));
            assert_eq!(ours, theirs);
        }
    }
    for actual in 0u32..8 {
        for expected in 0u32..8 {
            let ours = ShaderStage { bits: actual }.contains(ShaderStage { bits: expected });
            let theirs = wgpu_types::ShaderStage::from_bits_truncate(actual)
                .contains(wgpu_types::ShaderStage::from_bits_truncate(expected));
            assert_eq!(ours, theirs);
        }
    }
}

#[test]
fn module_values_can_be_built_and_compared() {
    let module = Module {
        types: vec![Type { name: Some(String::from("v")), inner: scalar(ScalarKind::Float, 32) }],
        global_variables: vec![GlobalVariable {
            name: None,
            binding: Some(Binding::Location(1)),
            ty: 0,
        }],
        functions: vec![Function { name: None, global_usage: vec![GlobalUse::load()] }],
        entry_points: vec![EntryPoint {
            exec_model: ExecutionModel::Vertex,
            name: String::from("main"),
            function: 0,
        }],
    };
    assert!(module.is_well_formed());
    assert_eq!(module.clone(), module);
    let empty = Module::new();
    assert!(empty.is_well_formed());
    assert!(empty.types.is_empty() && empty.entry_points.is_empty());
    let mut entries = BindEntryMap::new();
    entries.insert(
        0,
        BindGroupLayoutEntry {
            binding: 0,
            visibility: ShaderStage::vertex(),
            ty: BindingType::SampledTexture {
                dimension: TextureViewDimension::D2,
                component_type: TextureComponentType::Float,
                multisampled: false,
            },
            count: None,
        },
    );
    assert_eq!(entries.len(), 1);
}
