//! Whether one resource of a shader matches the layout entry it is bound to.

use vstd::prelude::*;
use crate::ir::{
    resolved_type, Dim, GlobalUse, GlobalVariable, ImageFlags, Module, ScalarKind, Type, TypeInner,
};
use crate::types::{
    BindGroupLayoutEntry, BindingType, BufferAddress, TextureComponentType, TextureViewDimension,
};
use crate::validation::size::{fitting_size, get_aligned_type_size};

verus! {

/// Why a resource of a shader does not match the pipeline layout.
#[derive(Clone, Copy, Debug, PartialEq, Eq, Structural)]
pub enum BindingError {
    /// The layout has no binding at this place.
    Missing,
    /// The binding is not visible from the shader's stage.
    Invisible,
    /// The shader reads or writes in a way that the binding does not allow.
    WrongUsage(GlobalUse),
    /// The shader's type is of another kind than the binding.
    WrongType,
    /// The structure in the shader, of this size, is larger than the
    /// minimum size that the binding asks of its buffer.
    WrongBufferSize(BufferAddress),
    /// The view dimension of the binding does not match the image.
    WrongTextureViewDimension { dim: Dim, is_array: bool },
    /// The component type of a sampled texture does not match the kind of
    /// the image's texels, given here where they are numbers.
    WrongTextureComponentType(Option<ScalarKind>),
    /// Only one of the binding and the image is sampled.
    WrongTextureSampled,
    /// The image is multisampled and the binding is not.
    WrongTextureMultisampled,
    /// Only one of the binding and the sampler compares.
    WrongSamplerComparison,
}

/// For a buffer binding, how a shader may use it and the least size asked
/// of the buffer: a uniform buffer and a read-only storage buffer may be
/// read, any other storage buffer read and written.
pub open spec fn buffer_rules(entry: BindingType) -> Option<(GlobalUse, Option<BufferAddress>)> {
    match entry {
        BindingType::UniformBuffer { min_binding_size, .. } => Some(
            (GlobalUse { bits: GlobalUse::LOAD }, min_binding_size),
        ),
        BindingType::StorageBuffer { min_binding_size, readonly, .. } => Some(
            (
                if readonly {
                    GlobalUse { bits: GlobalUse::LOAD }
                } else {
                    GlobalUse { bits: GlobalUse::LOAD | GlobalUse::STORE }
                },
                min_binding_size,
            ),
        ),
        _ => None,
    }
}

/// Whether a view of dimension `view` can be bound to an image of
/// dimension `dim`: an arrayed two-dimensional or cube image takes the
/// array view of its dimension, an image that is not arrayed the plain
/// view of its dimension, and nothing else fits.
pub open spec fn view_dimension_fits(dim: Dim, arrayed: bool, view: TextureViewDimension) -> bool {
    if arrayed {
        (dim == Dim::Dim2D && view == TextureViewDimension::D2Array) || (dim == Dim::DimCube
            && view == TextureViewDimension::CubeArray)
    } else {
        (dim == Dim::Dim1D && view == TextureViewDimension::D1) || (dim == Dim::Dim2D && view
            == TextureViewDimension::D2) || (dim == Dim::Dim3D && view
            == TextureViewDimension::D3) || (dim == Dim::DimCube && view
            == TextureViewDimension::Cube)
    }
}

/// The kind of number that a component type stands for.
pub open spec fn component_kind(component_type: TextureComponentType) -> ScalarKind {
    match component_type {
        TextureComponentType::Float => ScalarKind::Float,
        TextureComponentType::Sint => ScalarKind::Sint,
        TextureComponentType::Uint => ScalarKind::Uint,
    }
}

/// The kind of a scalar or of the components of a vector.
pub open spec fn texel_kind(ty: TypeInner) -> Option<ScalarKind> {
    match ty {
        TypeInner::Scalar { kind, .. } => Some(kind),
        TypeInner::Vector { kind, .. } => Some(kind),
        _ => None,
    }
}

/// How a shader may use an image of texel type `texel` that is bound to
/// `entry`, or the first rule that the pair breaks. A multisampled image
/// needs a multisampled sampled texture; the view dimension has to fit; a
/// sampled texture has to name the kind of the texels and may be read; a
/// storage texture may be read where it is read-only and else written; and
/// the image is sampled exactly where the binding is a sampled texture.
pub open spec fn image_rules(
    texel: TypeInner,
    dim: Dim,
    flags: ImageFlags,
    entry: BindingType,
) -> Result<GlobalUse, BindingError> {
    let arrayed = flags.contains(ImageFlags { bits: ImageFlags::ARRAYED });
    let sampled = flags.contains(ImageFlags { bits: ImageFlags::SAMPLED });
    if flags.contains(ImageFlags { bits: ImageFlags::MULTISAMPLED }) && !(
    entry matches BindingType::SampledTexture { multisampled: true, .. }) {
        Err(BindingError::WrongTextureMultisampled)
    } else {
        match entry {
            BindingType::SampledTexture { dimension, component_type, .. } => {
                if !view_dimension_fits(dim, arrayed, dimension) {
                    Err(BindingError::WrongTextureViewDimension { dim, is_array: arrayed })
                } else if texel_kind(texel) != Some(component_kind(component_type)) {
                    Err(BindingError::WrongTextureComponentType(texel_kind(texel)))
                } else if !sampled {
                    Err(BindingError::WrongTextureSampled)
                } else {
                    Ok(GlobalUse { bits: GlobalUse::LOAD })
                }
            },
            BindingType::StorageTexture { dimension, readonly, .. } => {
                if !view_dimension_fits(dim, arrayed, dimension) {
                    Err(BindingError::WrongTextureViewDimension { dim, is_array: arrayed })
                } else if sampled {
                    Err(BindingError::WrongTextureSampled)
                } else if readonly {
                    Ok(GlobalUse { bits: GlobalUse::LOAD })
                } else {
                    Ok(GlobalUse { bits: GlobalUse::STORE })
                }
            },
            _ => Err(BindingError::WrongTextureViewDimension { dim, is_array: true }),
        }
    }
}

/// How a shader may use a resource of the type at `ty` that is bound to
/// `entry`, or the first rule that the pair breaks. A structure goes with a
/// buffer whose least size, where it names one, is at least the size of the
/// structure as a whole buffer; a sampler with a sampler that compares
/// exactly where it does, and then nothing is read or written; an image
/// with a texture, by `image_rules`; no other type goes with any binding.
pub open spec fn allowed_usage(types: Seq<Type>, ty: int, entry: BindingType) -> Result<
    GlobalUse,
    BindingError,
> {
    match types[ty].inner {
        TypeInner::Struct { .. } => match buffer_rules(entry) {
            Some((allowed, min_binding_size)) => {
                let size = fitting_size(types, ty, true)->0;
                if min_binding_size matches Some(least) && least < size {
                    Err(BindingError::WrongBufferSize(size))
                } else {
                    Ok(allowed)
                }
            },
            None => Err(BindingError::WrongType),
        },
        TypeInner::Sampler { comparison } => match entry {
            BindingType::Sampler { comparison: compares } => if compares == comparison {
                Ok(GlobalUse { bits: 0 })
            } else {
                Err(BindingError::WrongSamplerComparison)
            },
            _ => Err(BindingError::WrongType),
        },
        TypeInner::Image { base, dim, flags } => image_rules(
            types[base as int].inner,
            dim,
            flags,
            entry,
        ),
        _ => Err(BindingError::WrongType),
    }
}

/// What the check of one resource comes to: the type of the variable,
/// with one level of pointer removed, has to go with the binding, and the
/// shader may use the variable only as the binding allows.
pub open spec fn binding_result(
    types: Seq<Type>,
    ty: int,
    entry: BindingType,
    usage: GlobalUse,
) -> Result<(), BindingError> {
    match allowed_usage(types, resolved_type(types, ty), entry) {
        Ok(allowed) => if allowed.contains(usage) {
            Ok(())
        } else {
            Err(BindingError::WrongUsage(usage))
        },
        Err(error) => Err(error),
    }
}

/// The size of the variable's structure is known wherever the check of
/// the variable against `entry` asks for it: where the variable's type is
/// a structure and the binding a buffer.
pub open spec fn binding_is_sized(types: Seq<Type>, ty: int, entry: BindingType) -> bool {
    let resolved = resolved_type(types, ty);
    types[resolved].inner is Struct && buffer_rules(entry) is Some ==> fitting_size(
        types,
        resolved,
        true,
    ) is Some
}

/// Decides `view_dimension_fits`.
fn check_view_dimension(dim: Dim, arrayed: bool, view: TextureViewDimension) -> (fits: bool)
    ensures
        fits == view_dimension_fits(dim, arrayed, view),
{
    if arrayed {
        match (dim, view) {
            (Dim::Dim2D, TextureViewDimension::D2Array) => true,
            (Dim::DimCube, TextureViewDimension::CubeArray) => true,
            _ => false,
        }
    } else {
        match (dim, view) {
            (Dim::Dim1D, TextureViewDimension::D1) => true,
            (Dim::Dim2D, TextureViewDimension::D2) => true,
            (Dim::Dim3D, TextureViewDimension::D3) => true,
            (Dim::DimCube, TextureViewDimension::Cube) => true,
            _ => false,
        }
    }
}

/// Computes `image_rules`.
fn check_image(texel: &TypeInner, dim: Dim, flags: ImageFlags, entry: &BindingType) -> (result:
    Result<GlobalUse, BindingError>)
    ensures
        result == image_rules(*texel, dim, flags, *entry),
{
    if flags.contains(ImageFlags::multisampled()) {
        match *entry {
            BindingType::SampledTexture { multisampled: true, .. } => {},
            _ => return Err(BindingError::WrongTextureMultisampled),
        }
    }
    let view_dimension = match *entry {
        BindingType::SampledTexture { dimension, .. } => dimension,
        BindingType::StorageTexture { dimension, .. } => dimension,
        _ => return Err(BindingError::WrongTextureViewDimension { dim, is_array: true }),
    };
    let arrayed = flags.contains(ImageFlags::arrayed());
    if !check_view_dimension(dim, arrayed, view_dimension) {
        return Err(BindingError::WrongTextureViewDimension { dim, is_array: arrayed });
    }
    let (allowed_usage, is_sampled) = match *entry {
        BindingType::SampledTexture { component_type, .. } => {
            let expected_scalar_kind = match component_type {
                TextureComponentType::Float => ScalarKind::Float,
                TextureComponentType::Sint => ScalarKind::Sint,
                TextureComponentType::Uint => ScalarKind::Uint,
            };
            match *texel {
                TypeInner::Scalar { kind, .. } => {
                    if kind != expected_scalar_kind {
                        return Err(BindingError::WrongTextureComponentType(Some(kind)));
                    }
                },
                TypeInner::Vector { kind, .. } => {
                    if kind != expected_scalar_kind {
                        return Err(BindingError::WrongTextureComponentType(Some(kind)));
                    }
                },
                _ => return Err(BindingError::WrongTextureComponentType(None)),
            };
            (GlobalUse::load(), true)
        },
        BindingType::StorageTexture { readonly, .. } => {
            if readonly {
                (GlobalUse::load(), false)
            } else {
                (GlobalUse::store(), false)
            }
        },
        _ => return Err(BindingError::WrongType),
    };
    if is_sampled != flags.contains(ImageFlags::sampled()) {
        return Err(BindingError::WrongTextureSampled);
    }
    Ok(allowed_usage)
}

/// Checks the global variable `var` of `module`, which a function uses as
/// `usage` says, against the layout entry that it is bound to.
pub fn check_binding(
    module: &Module,
    var: &GlobalVariable,
    entry: &BindGroupLayoutEntry,
    usage: GlobalUse,
) -> (result: Result<(), BindingError>)
    requires
        module.wf(),
        var.ty < module.types@.len(),
        binding_is_sized(module.types@, var.ty as int, entry.ty),
    ensures
        result == binding_result(module.types@, var.ty as int, entry.ty, usage),
{
    let (ty, ty_inner) = module.resolve(var.ty);
    let allowed_usage = match *ty_inner {
        TypeInner::Struct { .. } => {
            let (allowed_usage, min_size) = match entry.ty {
                BindingType::UniformBuffer { dynamic: _, min_binding_size } => (
                    GlobalUse::load(),
                    min_binding_size,
                ),
                BindingType::StorageBuffer { dynamic: _, min_binding_size, readonly } => {
                    let global_use = if readonly {
                        GlobalUse::load()
                    } else {
                        GlobalUse::all()
                    };
                    (global_use, min_binding_size)
                },
                _ => return Err(BindingError::WrongType),
            };
            let actual_size = get_aligned_type_size(module, ty, true);
            match min_size {
                Some(least) => {
                    if least < actual_size {
                        return Err(BindingError::WrongBufferSize(actual_size));
                    }
                },
                None => {},
            }
            allowed_usage
        },
        TypeInner::Sampler { comparison } => match entry.ty {
            BindingType::Sampler { comparison: compares } => {
                if compares == comparison {
                    GlobalUse::empty()
                } else {
                    return Err(BindingError::WrongSamplerComparison);
                }
            },
            _ => return Err(BindingError::WrongType),
        },
        TypeInner::Image { base, dim, flags } => {
            assert(module.types@[ty as int].inner.refers_below(ty as int));
            match check_image(&module.types[base].inner, dim, flags, &entry.ty) {
                Ok(allowed_usage) => allowed_usage,
                Err(error) => return Err(error),
            }
        },
        _ => return Err(BindingError::WrongType),
    };
    if allowed_usage.contains(usage) {
        Ok(())
    } else {
        Err(BindingError::WrongUsage(usage))
    }
}

} // verus!
