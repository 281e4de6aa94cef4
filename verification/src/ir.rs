//! The reflected shader module: an arena of types, the global variables
//! declared over them, and the entry points with their per-global usage.

use vstd::prelude::*;

verus! {

/// Position of an item in one of the module's arenas.
pub type Handle = usize;

/// Programmable stage that an entry point runs in.
#[derive(Clone, Copy, Debug, PartialEq, Eq, Hash, Structural)]
pub enum ExecutionModel {
    Vertex,
    Fragment,
    GLCompute,
}

/// Primitive type of a scalar.
#[derive(Clone, Copy, Debug, PartialEq, Eq, Hash, Structural)]
pub enum ScalarKind {
    /// Signed integer.
    Sint,
    /// Unsigned integer.
    Uint,
    /// Floating point.
    Float,
    /// Boolean.
    Bool,
}

/// Number of components of a vector, or of rows and columns of a matrix.
#[derive(Clone, Copy, Debug, PartialEq, Eq, Hash, Structural)]
pub enum VectorSize {
    Bi,
    Tri,
    Quad,
}

impl VectorSize {
    /// The number of components that the size stands for.
    pub open spec fn count(self) -> nat {
        match self {
            VectorSize::Bi => 2,
            VectorSize::Tri => 3,
            VectorSize::Quad => 4,
        }
    }

    /// The number of components, as a machine integer.
    pub fn components(self) -> (n: u8)
        ensures
            n == self.count(),
    {
        match self {
            VectorSize::Bi => 2,
            VectorSize::Tri => 3,
            VectorSize::Quad => 4,
        }
    }
}

/// Length of an array.
#[derive(Clone, Copy, Debug, PartialEq, Eq, Hash, Structural)]
pub enum ArraySize {
    /// Known when the shader is compiled.
    Static(u32),
    /// Decided by the size of the buffer bound at run time.
    Dynamic,
}

/// One member of a structure: where it starts, and its type.
#[derive(Clone, Copy, Debug, PartialEq, Eq, Hash, Structural)]
pub struct StructMember {
    /// Byte offset from the start of the structure.
    pub offset: u32,
    /// The member's type.
    pub ty: Handle,
}

/// Dimensionality of an image as the shader sees it.
#[derive(Clone, Copy, Debug, PartialEq, Eq, Hash, Structural)]
pub enum Dim {
    Dim1D,
    Dim2D,
    Dim3D,
    DimCube,
    DimRect,
    DimBuffer,
    DimSubpassData,
}

/// Set of flags that describe an image type.
#[derive(Clone, Copy, Debug, PartialEq, Eq, Hash, Structural)]
pub struct ImageFlags {
    pub bits: u32,
}

impl ImageFlags {
    /// The image is an array of layers.
    pub const ARRAYED: u32 = 0x1;

    /// The image holds several samples per texel.
    pub const MULTISAMPLED: u32 = 0x2;

    /// The image is read through a sampler.
    pub const SAMPLED: u32 = 0x4;

    /// The image can be the source of loads.
    pub const CAN_LOAD: u32 = 0x10;

    /// The image can be the target of stores.
    pub const CAN_STORE: u32 = 0x20;

    /// Whether every flag of `other` is set in `self`.
    pub open spec fn spec_contains(self, other: ImageFlags) -> bool {
        self.bits & other.bits == other.bits
    }

    pub fn arrayed() -> (flags: ImageFlags)
        ensures
            flags.bits == ImageFlags::ARRAYED,
    {
        ImageFlags { bits: ImageFlags::ARRAYED }
    }

    pub fn multisampled() -> (flags: ImageFlags)
        ensures
            flags.bits == ImageFlags::MULTISAMPLED,
    {
        ImageFlags { bits: ImageFlags::MULTISAMPLED }
    }

    pub fn sampled() -> (flags: ImageFlags)
        ensures
            flags.bits == ImageFlags::SAMPLED,
    {
        ImageFlags { bits: ImageFlags::SAMPLED }
    }

    #[verifier::when_used_as_spec(spec_contains)]
    pub fn contains(self, other: ImageFlags) -> (r: bool)
        ensures
            r == self.spec_contains(other),
    {
        self.bits & other.bits == other.bits
    }
}

/// How a function uses one global variable: a set of `LOAD` and `STORE`.
#[derive(Clone, Copy, Debug, PartialEq, Eq, Hash, Structural)]
pub struct GlobalUse {
    pub bits: u8,
}

impl GlobalUse {
    /// The variable is read.
    pub const LOAD: u8 = 0x1;

    /// The variable is written.
    pub const STORE: u8 = 0x2;

    /// Whether every flag of `other` is set in `self`.
    pub open spec fn spec_contains(self, other: GlobalUse) -> bool {
        self.bits & other.bits == other.bits
    }

    /// Whether no flag is set.
    pub open spec fn spec_is_empty(self) -> bool {
        self.bits == 0
    }

    pub fn empty() -> (usage: GlobalUse)
        ensures
            usage.bits == 0,
    {
        GlobalUse { bits: 0 }
    }

    pub fn load() -> (usage: GlobalUse)
        ensures
            usage.bits == GlobalUse::LOAD,
    {
        GlobalUse { bits: GlobalUse::LOAD }
    }

    pub fn store() -> (usage: GlobalUse)
        ensures
            usage.bits == GlobalUse::STORE,
    {
        GlobalUse { bits: GlobalUse::STORE }
    }

    /// Both flags.
    pub fn all() -> (usage: GlobalUse)
        ensures
            usage.bits == GlobalUse::LOAD | GlobalUse::STORE,
    {
        GlobalUse { bits: GlobalUse::LOAD | GlobalUse::STORE }
    }

    #[verifier::when_used_as_spec(spec_is_empty)]
    pub fn is_empty(self) -> (r: bool)
        ensures
            r == self.spec_is_empty(),
    {
        self.bits == 0
    }

    #[verifier::when_used_as_spec(spec_contains)]
    pub fn contains(self, other: GlobalUse) -> (r: bool)
        ensures
            r == self.spec_contains(other),
    {
        self.bits & other.bits == other.bits
    }

    /// Containment orders the usages: every usage contains itself and the
    /// empty usage, only the empty usage is contained in the empty usage,
    /// what contains a usage contains all that the usage contains, and
    /// reading and writing together contain both reading and writing.
    pub proof fn lemma_contains_is_an_order(a: GlobalUse, b: GlobalUse, c: GlobalUse)
        ensures
            a.contains(a),
            a.contains(GlobalUse { bits: 0 }),
            (GlobalUse { bits: 0 }).contains(a) <==> a.is_empty(),
            a.contains(b) && b.contains(c) ==> a.contains(c),
            a.contains(b) && b.contains(a) ==> a == b,
            a.bits <= (GlobalUse::LOAD | GlobalUse::STORE) ==> (GlobalUse {
                bits: GlobalUse::LOAD | GlobalUse::STORE,
            }).contains(a),
    {
        let (x, y, z) = (a.bits, b.bits, c.bits);
        assert(x & x == x) by (bit_vector);
        assert(x & 0 == 0) by (bit_vector);
        assert((0u8 & x == x) <==> x == 0) by (bit_vector);
        assert(x & y == y && y & z == z ==> x & z == z) by (bit_vector);
        assert(x & y == y && y & x == x ==> x == y) by (bit_vector);
        assert(x <= (1u8 | 2u8) ==> (1u8 | 2u8) & x == x) by (bit_vector);
    }
}

/// The shape of a type.
#[derive(Clone, Debug, PartialEq, Eq)]
pub enum TypeInner {
    /// A number; `width` counts bits.
    Scalar { kind: ScalarKind, width: u8 },
    /// A vector of numbers.
    Vector { size: VectorSize, kind: ScalarKind, width: u8 },
    /// A matrix of numbers.
    Matrix { columns: VectorSize, rows: VectorSize, kind: ScalarKind, width: u8 },
    /// A pointer to a value of type `base`.
    Pointer { base: Handle },
    /// A list of elements of type `base`, `stride` bytes apart where it is given.
    Array { base: Handle, size: ArraySize, stride: Option<u32> },
    /// A structure, its members in declaration order.
    Struct { members: Vec<StructMember> },
    /// An image whose texels are of type `base`.
    Image { base: Handle, dim: Dim, flags: ImageFlags },
    /// A sampler.
    Sampler { comparison: bool },
}

impl TypeInner {
    /// Every type that this one mentions stands before position `bound`.
    pub open spec fn refers_below(&self, bound: int) -> bool {
        match *self {
            TypeInner::Pointer { base } => base < bound,
            TypeInner::Array { base, .. } => base < bound,
            TypeInner::Image { base, .. } => base < bound,
            TypeInner::Struct { members } => forall|k: int|
                0 <= k < members@.len() ==> (#[trigger] members@[k]).ty < bound,
            _ => true,
        }
    }

    /// Decides `refers_below`.
    pub fn has_handles_below(&self, bound: usize) -> (r: bool)
        ensures
            r == self.refers_below(bound as int),
    {
        match self {
            TypeInner::Pointer { base } => *base < bound,
            TypeInner::Array { base, .. } => *base < bound,
            TypeInner::Image { base, .. } => *base < bound,
            TypeInner::Struct { members } => {
                let mut k: usize = 0;
                while k < members.len()
                    invariant
                        k <= members.len(),
                        *self is Struct,
                        self->members == *members,
                        forall|j: int| 0 <= j < k ==> (#[trigger] members@[j]).ty < bound,
                    decreases members.len() - k,
                {
                    if members[k].ty >= bound {
                        assert(!(members@[k as int].ty < bound));
                        return false;
                    }
                    k += 1;
                }
                true
            },
            _ => true,
        }
    }
}

/// An entry of the type arena.
#[derive(Clone, Debug, PartialEq, Eq)]
pub struct Type {
    pub name: Option<String>,
    pub inner: TypeInner,
}

/// Where a global variable is bound.
#[derive(Clone, Copy, Debug, PartialEq, Eq, Hash, Structural)]
pub enum Binding {
    /// A varying, at this location.
    Location(u32),
    /// A resource, at index `binding` of bind group `set`.
    Descriptor { set: u32, binding: u32 },
}

/// A variable declared at module level.
#[derive(Clone, Debug, PartialEq, Eq)]
pub struct GlobalVariable {
    pub name: Option<String>,
    /// `None` for a variable that is bound to nothing.
    pub binding: Option<Binding>,
    pub ty: Handle,
}

/// A function, as far as the interface of a stage depends on it.
#[derive(Clone, Debug, PartialEq, Eq)]
pub struct Function {
    pub name: Option<String>,
    /// How the function uses each global variable, in the order of the
    /// module's global variables.
    pub global_usage: Vec<GlobalUse>,
}

/// A function exported to run as one stage of a pipeline.
#[derive(Clone, Debug, PartialEq, Eq)]
pub struct EntryPoint {
    pub exec_model: ExecutionModel,
    pub name: String,
    pub function: Handle,
}

/// A reflected shader module.
#[derive(Clone, Debug, PartialEq, Eq)]
pub struct Module {
    pub types: Vec<Type>,
    pub global_variables: Vec<GlobalVariable>,
    pub functions: Vec<Function>,
    pub entry_points: Vec<EntryPoint>,
}

/// Every type mentions only types that stand before it in the arena.
pub open spec fn types_ordered(types: Seq<Type>) -> bool {
    forall|i: int| 0 <= i < types.len() ==> (#[trigger] types[i]).inner.refers_below(i)
}

/// The type that `ty` stands for once one level of pointer is removed.
pub open spec fn resolved_type(types: Seq<Type>, ty: int) -> int {
    match types[ty].inner {
        TypeInner::Pointer { base } => base as int,
        _ => ty,
    }
}

impl Module {
    /// The module's handles are sound: a type mentions only earlier types,
    /// a global variable's type is in the arena, and an entry point's
    /// function exists.
    pub open spec fn wf(&self) -> bool {
        &&& types_ordered(self.types@)
        &&& forall|i: int|
            0 <= i < self.global_variables@.len() ==> (#[trigger] self.global_variables@[i]).ty
                < self.types@.len()
        &&& forall|i: int|
            0 <= i < self.entry_points@.len() ==> (#[trigger] self.entry_points@[i]).function
                < self.functions@.len()
    }

    /// A module without types, variables, functions or entry points.
    pub fn new() -> (module: Module)
        ensures
            module.wf(),
            module.types@.len() == 0,
            module.global_variables@.len() == 0,
            module.functions@.len() == 0,
            module.entry_points@.len() == 0,
    {
        Module {
            types: Vec::new(),
            global_variables: Vec::new(),
            functions: Vec::new(),
            entry_points: Vec::new(),
        }
    }

    /// Adds a type at the end of the arena and gives its handle. A type
    /// that mentions a type that the arena does not hold yet is refused, and
    /// the module stays as it was.
    pub fn append_type(&mut self, ty: Type) -> (handle: Option<Handle>)
        requires
            old(self).wf(),
        ensures
            final(self).wf(),
            final(self).global_variables == old(self).global_variables,
            final(self).functions == old(self).functions,
            final(self).entry_points == old(self).entry_points,
            match handle {
                Some(handle) => {
                    &&& handle == old(self).types@.len()
                    &&& ty.inner.refers_below(handle as int)
                    &&& final(self).types@ == old(self).types@.push(ty)
                },
                None => {
                    &&& !ty.inner.refers_below(old(self).types@.len() as int)
                    &&& final(self).types == old(self).types
                },
            },
    {
        let handle = self.types.len();
        if !ty.inner.has_handles_below(handle) {
            return None;
        }
        self.types.push(ty);
        Some(handle)
    }

    /// Adds a global variable after those that the module holds and gives
    /// its handle. A variable whose type the arena does not hold is
    /// refused, and the module stays as it was.
    pub fn append_global_variable(&mut self, var: GlobalVariable) -> (handle: Option<Handle>)
        requires
            old(self).wf(),
        ensures
            final(self).wf(),
            final(self).types == old(self).types,
            final(self).functions == old(self).functions,
            final(self).entry_points == old(self).entry_points,
            match handle {
                Some(handle) => {
                    &&& handle == old(self).global_variables@.len()
                    &&& var.ty < old(self).types@.len()
                    &&& final(self).global_variables@ == old(self).global_variables@.push(var)
                },
                None => {
                    &&& var.ty >= old(self).types@.len()
                    &&& final(self).global_variables == old(self).global_variables
                },
            },
    {
        if var.ty >= self.types.len() {
            return None;
        }
        let handle = self.global_variables.len();
        self.global_variables.push(var);
        Some(handle)
    }

    /// Adds a function after those that the module holds and gives its
    /// handle.
    pub fn append_function(&mut self, function: Function) -> (handle: Handle)
        requires
            old(self).wf(),
        ensures
            final(self).wf(),
            final(self).types == old(self).types,
            final(self).global_variables == old(self).global_variables,
            final(self).entry_points == old(self).entry_points,
            handle == old(self).functions@.len(),
            final(self).functions@ == old(self).functions@.push(function),
    {
        let handle = self.functions.len();
        self.functions.push(function);
        handle
    }

    /// Adds an entry point after those that the module holds. One whose
    /// function the module does not hold is refused, and the module stays
    /// as it was.
    pub fn append_entry_point(&mut self, entry_point: EntryPoint) -> (added: bool)
        requires
            old(self).wf(),
        ensures
            final(self).wf(),
            final(self).types == old(self).types,
            final(self).global_variables == old(self).global_variables,
            final(self).functions == old(self).functions,
            added == (entry_point.function < old(self).functions@.len()),
            added ==> final(self).entry_points@ == old(self).entry_points@.push(entry_point),
            !added ==> final(self).entry_points == old(self).entry_points,
    {
        if entry_point.function >= self.functions.len() {
            return false;
        }
        self.entry_points.push(entry_point);
        true
    }

    /// Decides `wf`.
    pub fn is_well_formed(&self) -> (r: bool)
        ensures
            r == self.wf(),
    {
        let mut i: usize = 0;
        while i < self.types.len()
            invariant
                i <= self.types.len(),
                forall|j: int| 0 <= j < i ==> (#[trigger] self.types@[j]).inner.refers_below(j),
            decreases self.types.len() - i,
        {
            if !self.types[i].inner.has_handles_below(i) {
                return false;
            }
            i += 1;
        }
        let mut g: usize = 0;
        while g < self.global_variables.len()
            invariant
                g <= self.global_variables.len(),
                types_ordered(self.types@),
                forall|j: int|
                    0 <= j < g ==> (#[trigger] self.global_variables@[j]).ty < self.types@.len(),
            decreases self.global_variables.len() - g,
        {
            if self.global_variables[g].ty >= self.types.len() {
                return false;
            }
            g += 1;
        }
        let mut e: usize = 0;
        while e < self.entry_points.len()
            invariant
                e <= self.entry_points.len(),
                types_ordered(self.types@),
                forall|j: int|
                    0 <= j < self.global_variables@.len() ==> (
                    #[trigger] self.global_variables@[j]).ty < self.types@.len(),
                forall|j: int|
                    0 <= j < e ==> (#[trigger] self.entry_points@[j]).function
                        < self.functions@.len(),
            decreases self.entry_points.len() - e,
        {
            if self.entry_points[e].function >= self.functions.len() {
                return false;
            }
            e += 1;
        }
        true
    }

    /// The shape of `ty` once one level of pointer is removed, with its handle.
    pub fn resolve(&self, ty: Handle) -> (r: (Handle, &TypeInner))
        requires
            self.wf(),
            ty < self.types@.len(),
        ensures
            r.0 == resolved_type(self.types@, ty as int),
            r.0 <= ty,
            *r.1 == self.types@[r.0 as int].inner,
    {
        match self.types[ty].inner {
            TypeInner::Pointer { base } => {
                assert(self.types@[ty as int].inner.refers_below(ty as int));
                (base, &self.types[base].inner)
            },
            _ => (ty, &self.types[ty].inner),
        }
    }
}

} // verus!
