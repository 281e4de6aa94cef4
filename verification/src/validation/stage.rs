//! Whether one stage of a pipeline fits the pipeline layout and the stage
//! before it, and what it hands to the stage after it.

use vstd::prelude::*;
use std::collections::HashMap;
use crate::binding_model::BindEntryMap;
use crate::ir::{
    resolved_type, Binding, EntryPoint, ExecutionModel, GlobalUse, GlobalVariable, Module, Type,
    TypeInner,
};
use crate::types::{BindGroupLayoutEntry, ShaderLocation, ShaderStage};
use crate::validation::binding::{binding_result, check_binding, BindingError};
use crate::validation::size::{buffers_sized, has_buffer_size};
use crate::validation::subtype::{is_sub_type, sub_type};

verus! {

broadcast use vstd::std_specs::hash::group_hash_axioms;

/// Why an input of a stage is not served by the stage before it.
#[derive(Clone, Copy, Debug, PartialEq, Eq, Structural)]
pub enum InputError {
    /// The earlier stage provides nothing at the location.
    Missing,
    /// What the earlier stage provides does not satisfy the input's type.
    WrongType,
}

/// Why a programmable stage of a pipeline is refused.
#[derive(Clone, Copy, Debug, PartialEq, Eq, Structural)]
pub enum StageError {
    /// The module has no entry point of the given name for this stage.
    MissingEntryPoint(ExecutionModel),
    /// The resource bound at index `binding` of group `set` does not match
    /// the pipeline layout.
    Binding { set: u32, binding: u32, error: BindingError },
    /// The input at `location` is not served by the earlier stage.
    Input { location: ShaderLocation, error: InputError },
}

/// A value that is either held or borrowed.
pub enum MaybeOwned<'a, T> {
    Owned(T),
    Borrowed(&'a T),
}

impl<'a, T> MaybeOwned<'a, T> {
    /// The value, whoever holds it.
    pub open spec fn value(&self) -> T {
        match *self {
            MaybeOwned::Owned(value) => value,
            MaybeOwned::Borrowed(value) => *value,
        }
    }
}

impl<'a, T> std::ops::Deref for MaybeOwned<'a, T> {
    type Target = T;

    fn deref(&self) -> (value: &T)
        ensures
            *value == self.value(),
    {
        match *self {
            MaybeOwned::Owned(ref value) => value,
            MaybeOwned::Borrowed(value) => value,
        }
    }
}

/// The types that a stage reads or writes, by location.
pub type StageInterface<'a> = HashMap<ShaderLocation, MaybeOwned<'a, TypeInner>>;

/// The type at each location of an interface.
pub open spec fn interface_types<'a>(
    interface: Map<ShaderLocation, MaybeOwned<'a, TypeInner>>,
) -> Map<ShaderLocation, TypeInner> {
    Map::new(
        |location: ShaderLocation| interface.contains_key(location),
        |location: ShaderLocation| interface[location].value(),
    )
}

/// The entries of each bind group layout, by binding index.
pub open spec fn layout_entries(group_layouts: Seq<&BindEntryMap>) -> Seq<
    Map<u32, BindGroupLayoutEntry>,
> {
    Seq::new(group_layouts.len(), |set: int| group_layouts[set]@)
}

/// The visibility that a binding needs to be used from a stage.
pub open spec fn stage_bit(execution_model: ExecutionModel) -> ShaderStage {
    match execution_model {
        ExecutionModel::Vertex => ShaderStage { bits: ShaderStage::VERTEX },
        ExecutionModel::Fragment => ShaderStage { bits: ShaderStage::FRAGMENT },
        ExecutionModel::GLCompute => ShaderStage { bits: ShaderStage::COMPUTE },
    }
}

/// Whether an entry point has the given name and runs in the given stage.
pub open spec fn is_entry_point(
    entry_point: EntryPoint,
    name: Seq<char>,
    execution_model: ExecutionModel,
) -> bool {
    entry_point.name@ == name && entry_point.exec_model == execution_model
}

/// The position of the first entry point, from `start` on, that has the
/// given name and stage.
pub open spec fn entry_point_from(
    entry_points: Seq<EntryPoint>,
    name: Seq<char>,
    execution_model: ExecutionModel,
    start: int,
) -> Option<int>
    decreases entry_points.len() - start,
{
    if start < 0 || start >= entry_points.len() {
        None
    } else if is_entry_point(entry_points[start], name, execution_model) {
        Some(start)
    } else {
        entry_point_from(entry_points, name, execution_model, start + 1)
    }
}

/// The position of the first entry point that has the given name and stage.
pub open spec fn entry_point_index(
    entry_points: Seq<EntryPoint>,
    name: Seq<char>,
    execution_model: ExecutionModel,
) -> Option<int> {
    entry_point_from(entry_points, name, execution_model, 0)
}

/// What the check of a resource bound at index `binding` of group `set`
/// comes to: the layout has to hold an entry there, the entry has to be
/// visible from the stage, and then the variable has to match the entry.
pub open spec fn descriptor_result(
    types: Seq<Type>,
    layouts: Seq<Map<u32, BindGroupLayoutEntry>>,
    stage: ShaderStage,
    ty: int,
    set: u32,
    binding: u32,
    usage: GlobalUse,
) -> Result<(), BindingError> {
    if set < layouts.len() && layouts[set as int].contains_key(binding) {
        let entry = layouts[set as int][binding];
        if entry.visibility.contains(stage) {
            binding_result(types, ty, entry.ty, usage)
        } else {
            Err(BindingError::Invisible)
        }
    } else {
        Err(BindingError::Missing)
    }
}

/// What the check of an input at `location` comes to: the earlier stage
/// has to provide a type there that satisfies `required`.
pub open spec fn input_result(
    inputs: Map<ShaderLocation, TypeInner>,
    required: TypeInner,
    location: ShaderLocation,
) -> Result<(), InputError> {
    if inputs.contains_key(location) {
        if sub_type(required, inputs[location]) {
            Ok(())
        } else {
            Err(InputError::WrongType)
        }
    } else {
        Err(InputError::Missing)
    }
}

/// Why the stage is refused on account of one global variable, if it is.
/// A variable that the function does not use is not looked at, nor one that
/// is bound to nothing. A resource is checked against the layout. A varying
/// that the function writes is an output and always passes; one that it
/// only reads is an input, checked against the earlier stage.
pub open spec fn global_error(
    types: Seq<Type>,
    layouts: Seq<Map<u32, BindGroupLayoutEntry>>,
    stage: ShaderStage,
    inputs: Map<ShaderLocation, TypeInner>,
    var: GlobalVariable,
    usage: GlobalUse,
) -> Option<StageError> {
    if usage.is_empty() {
        None
    } else {
        match var.binding {
            Some(Binding::Descriptor { set, binding }) => match descriptor_result(
                types,
                layouts,
                stage,
                var.ty as int,
                set,
                binding,
                usage,
            ) {
                Ok(_) => None,
                Err(error) => Some(StageError::Binding { set, binding, error }),
            },
            Some(Binding::Location(location)) => if usage.contains(
                GlobalUse { bits: GlobalUse::STORE },
            ) {
                None
            } else {
                match input_result(inputs, value_type(types, var), location) {
                    Ok(_) => None,
                    Err(error) => Some(StageError::Input { location, error }),
                }
            },
            None => None,
        }
    }
}

/// The type of a global variable once one level of pointer is removed.
pub open spec fn value_type(types: Seq<Type>, var: GlobalVariable) -> TypeInner {
    types[resolved_type(types, var.ty as int)].inner
}

/// The location that a global variable adds to the outputs of the stage,
/// if it adds one: it does where the function writes it and it is a
/// varying. Its type there is its `value_type`.
pub open spec fn output_of(var: GlobalVariable, usage: GlobalUse) -> Option<ShaderLocation> {
    if !usage.is_empty() && usage.contains(GlobalUse { bits: GlobalUse::STORE }) {
        match var.binding {
            Some(Binding::Location(location)) => Some(location),
            _ => None,
        }
    } else {
        None
    }
}

/// The outputs that the first `count` global variables add up to. Where
/// two of them write one location, the later one stays.
pub open spec fn stage_outputs(
    types: Seq<Type>,
    vars: Seq<GlobalVariable>,
    usages: Seq<GlobalUse>,
    count: int,
) -> Map<ShaderLocation, TypeInner>
    decreases count,
{
    if count <= 0 {
        Map::empty()
    } else {
        let before = stage_outputs(types, vars, usages, count - 1);
        match output_of(vars[count - 1], usages[count - 1]) {
            Some(location) => before.insert(location, value_type(types, vars[count - 1])),
            None => before,
        }
    }
}

/// The global variables of a module that a function's usage speaks of:
/// as many as the shorter of the two lists has.
pub open spec fn examined(module: Module, function: int) -> int {
    let vars = module.global_variables@.len();
    let usages = module.functions@[function].global_usage@.len();
    if vars <= usages {
        vars as int
    } else {
        usages as int
    }
}

/// `global_error` for the global variable at `index` of the module, as
/// `function` uses it.
pub open spec fn global_error_at(
    module: Module,
    function: int,
    layouts: Seq<Map<u32, BindGroupLayoutEntry>>,
    stage: ShaderStage,
    inputs: Map<ShaderLocation, TypeInner>,
    index: int,
) -> Option<StageError> {
    global_error(
        module.types@,
        layouts,
        stage,
        inputs,
        module.global_variables@[index],
        module.functions@[function].global_usage@[index],
    )
}

/// What the check of a stage comes to. Without an entry point of the given
/// name and stage, the entry point is missing. Else the global variables
/// are gone through in their order, as the entry point's function uses
/// them: the check fails with the error of the first variable that has one,
/// and where none has, it gives the outputs of the stage.
pub open spec fn stage_outcome(
    module: Module,
    layouts: Seq<Map<u32, BindGroupLayoutEntry>>,
    name: Seq<char>,
    execution_model: ExecutionModel,
    inputs: Map<ShaderLocation, TypeInner>,
    outcome: Result<Map<ShaderLocation, TypeInner>, StageError>,
) -> bool {
    match entry_point_index(module.entry_points@, name, execution_model) {
        None => outcome == Err::<Map<ShaderLocation, TypeInner>, StageError>(
            StageError::MissingEntryPoint(execution_model),
        ),
        Some(entry_point) => {
            let function = module.entry_points@[entry_point].function as int;
            let stage = stage_bit(execution_model);
            match outcome {
                Ok(outputs) => {
                    &&& forall|i: int|
                        0 <= i < examined(module, function) ==> (#[trigger] global_error_at(
                            module,
                            function,
                            layouts,
                            stage,
                            inputs,
                            i,
                        )) is None
                    &&& outputs =~= stage_outputs(
                        module.types@,
                        module.global_variables@,
                        module.functions@[function].global_usage@,
                        examined(module, function),
                    )
                },
                Err(error) => exists|i: int|
                    {
                        &&& 0 <= i < examined(module, function)
                        &&& #[trigger] global_error_at(module, function, layouts, stage, inputs, i)
                            == Some(error)
                        &&& forall|j: int|
                            0 <= j < i ==> (#[trigger] global_error_at(
                                module,
                                function,
                                layouts,
                                stage,
                                inputs,
                                j,
                            )) is None
                    },
            }
        },
    }
}

/// The outcome of a check as it reads over the types of the interface.
pub open spec fn outcome_types<'a>(result: Result<StageInterface<'a>, StageError>) -> Result<
    Map<ShaderLocation, TypeInner>,
    StageError,
> {
    match result {
        Ok(outputs) => Ok(interface_types(outputs@)),
        Err(error) => Err(error),
    }
}

/// The entry point that a stage is checked by is the first of the given
/// name and stage: it has both, no entry point before it has both, and
/// there is none exactly where no entry point has both.
pub proof fn lemma_entry_point_is_first(
    entry_points: Seq<EntryPoint>,
    name: Seq<char>,
    execution_model: ExecutionModel,
)
    ensures
        match entry_point_index(entry_points, name, execution_model) {
            Some(index) => {
                &&& 0 <= index < entry_points.len()
                &&& is_entry_point(entry_points[index], name, execution_model)
                &&& forall|j: int|
                    0 <= j < index ==> !is_entry_point(
                        #[trigger] entry_points[j],
                        name,
                        execution_model,
                    )
            },
            None => forall|j: int|
                0 <= j < entry_points.len() ==> !is_entry_point(
                    #[trigger] entry_points[j],
                    name,
                    execution_model,
                ),
        },
{
    lemma_entry_point_from(entry_points, name, execution_model, 0);
}

proof fn lemma_entry_point_from(
    entry_points: Seq<EntryPoint>,
    name: Seq<char>,
    execution_model: ExecutionModel,
    start: int,
)
    requires
        0 <= start <= entry_points.len(),
    ensures
        match entry_point_from(entry_points, name, execution_model, start) {
            Some(index) => {
                &&& start <= index < entry_points.len()
                &&& is_entry_point(entry_points[index], name, execution_model)
                &&& forall|j: int|
                    start <= j < index ==> !is_entry_point(
                        #[trigger] entry_points[j],
                        name,
                        execution_model,
                    )
            },
            None => forall|j: int|
                start <= j < entry_points.len() ==> !is_entry_point(
                    #[trigger] entry_points[j],
                    name,
                    execution_model,
                ),
        },
    decreases entry_points.len() - start,
{
    if start < entry_points.len() && !is_entry_point(entry_points[start], name, execution_model) {
        lemma_entry_point_from(entry_points, name, execution_model, start + 1);
    }
}

/// A resource whose binding is not visible from the stage is refused as
/// invisible: whatever the type of the variable, whatever kind of resource
/// the binding holds, and whatever the earlier stage provides.
pub proof fn lemma_invisible_binding_is_refused(
    types: Seq<Type>,
    layouts: Seq<Map<u32, BindGroupLayoutEntry>>,
    stage: ShaderStage,
    inputs: Map<ShaderLocation, TypeInner>,
    var: GlobalVariable,
    usage: GlobalUse,
    set: u32,
    binding: u32,
)
    requires
        !usage.is_empty(),
        var.binding == Some(Binding::Descriptor { set, binding }),
        set < layouts.len(),
        layouts[set as int].contains_key(binding),
        !layouts[set as int][binding].visibility.contains(stage),
    ensures
        global_error(types, layouts, stage, inputs, var, usage) == Some(
            StageError::Binding { set, binding, error: BindingError::Invisible },
        ),
{
}

/// A stage that uses a resource whose binding is not visible from it is
/// refused. The error is that of the invisible binding, unless a global
/// variable before it has an error of its own, which then comes first.
pub proof fn lemma_stage_with_invisible_binding_fails(
    module: Module,
    layouts: Seq<Map<u32, BindGroupLayoutEntry>>,
    name: Seq<char>,
    execution_model: ExecutionModel,
    inputs: Map<ShaderLocation, TypeInner>,
    outcome: Result<Map<ShaderLocation, TypeInner>, StageError>,
    index: int,
    set: u32,
    binding: u32,
)
    requires
        stage_outcome(module, layouts, name, execution_model, inputs, outcome),
        entry_point_index(module.entry_points@, name, execution_model) is Some,
        ({
            let entry_point = entry_point_index(module.entry_points@, name, execution_model)->0;
            let function = module.entry_points@[entry_point].function as int;
            &&& 0 <= index < examined(module, function)
            &&& !module.functions@[function].global_usage@[index].is_empty()
        }),
        module.global_variables@[index].binding == Some(Binding::Descriptor { set, binding }),
        set < layouts.len(),
        layouts[set as int].contains_key(binding),
        !layouts[set as int][binding].visibility.contains(stage_bit(execution_model)),
    ensures
        outcome is Err,
        ({
            let entry_point = entry_point_index(module.entry_points@, name, execution_model)->0;
            let function = module.entry_points@[entry_point].function as int;
            (forall|j: int|
                0 <= j < index ==> (#[trigger] global_error_at(
                    module,
                    function,
                    layouts,
                    stage_bit(execution_model),
                    inputs,
                    j,
                )) is None) ==> outcome == Err::<Map<ShaderLocation, TypeInner>, StageError>(
                StageError::Binding { set, binding, error: BindingError::Invisible },
            )
        }),
{
    let entry_point = entry_point_index(module.entry_points@, name, execution_model)->0;
    let function = module.entry_points@[entry_point].function as int;
    let stage = stage_bit(execution_model);
    lemma_invisible_binding_is_refused(
        module.types@,
        layouts,
        stage,
        inputs,
        module.global_variables@[index],
        module.functions@[function].global_usage@[index],
        set,
        binding,
    );
    assert(global_error_at(module, function, layouts, stage, inputs, index) == Some(
        StageError::Binding { set, binding, error: BindingError::Invisible },
    ));
}

/// `output_of` for the global variable at `index`.
pub open spec fn output_at(vars: Seq<GlobalVariable>, usages: Seq<GlobalUse>, index: int) -> Option<
    ShaderLocation,
> {
    output_of(vars[index], usages[index])
}

/// The outputs of a stage hold a location exactly where one of the global
/// variables gone through writes it, and hold there the type of the last
/// one that does. So no location stands twice.
pub proof fn lemma_stage_outputs(
    types: Seq<Type>,
    vars: Seq<GlobalVariable>,
    usages: Seq<GlobalUse>,
    count: int,
    location: ShaderLocation,
)
    requires
        0 <= count,
    ensures
        stage_outputs(types, vars, usages, count).contains_key(location) <==> exists|i: int|
            0 <= i < count && #[trigger] output_at(vars, usages, i) == Some(location),
        forall|i: int|
            0 <= i < count && #[trigger] output_at(vars, usages, i) == Some(location) && (forall|
                j: int,
            |
                i < j < count ==> #[trigger] output_at(vars, usages, j) != Some(location))
                ==> stage_outputs(types, vars, usages, count)[location] == value_type(
                types,
                vars[i],
            ),
    decreases count,
{
    if count > 0 {
        lemma_stage_outputs(types, vars, usages, count - 1, location);
        if stage_outputs(types, vars, usages, count - 1).contains_key(location) {
            let i = choose|i: int|
                0 <= i < count - 1 && #[trigger] output_at(vars, usages, i) == Some(location);
            assert(0 <= i < count);
        }
        if output_at(vars, usages, count - 1) == Some(location) {
            assert(0 <= count - 1 < count);
        }
        assert forall|i: int|
            0 <= i < count && #[trigger] output_at(vars, usages, i) == Some(location) && (forall|
                j: int,
            |
                i < j < count ==> #[trigger] output_at(vars, usages, j) != Some(
                    location,
                )) implies stage_outputs(types, vars, usages, count)[location] == value_type(
            types,
            vars[i],
        ) by {
            if i < count - 1 {
                assert(output_at(vars, usages, count - 1) != Some(location));
            }
        }
    }
}

/// The stage bit of an execution model.
fn stage_bit_of(execution_model: ExecutionModel) -> (stage: ShaderStage)
    ensures
        stage == stage_bit(execution_model),
{
    match execution_model {
        ExecutionModel::Vertex => ShaderStage::vertex(),
        ExecutionModel::Fragment => ShaderStage::fragment(),
        ExecutionModel::GLCompute => ShaderStage::compute(),
    }
}

/// Finds the first entry point of the module that has the given name and
/// runs in the given stage. Entry points of different stages may share a
/// name.
pub fn find_entry_point(module: &Module, name: &str, execution_model: ExecutionModel) -> (found:
    Option<usize>)
    ensures
        match found {
            Some(index) => entry_point_index(module.entry_points@, name@, execution_model) == Some(
                index as int,
            ) && index < module.entry_points@.len(),
            None => entry_point_index(module.entry_points@, name@, execution_model) is None,
        },
{
    let wanted = name.to_owned();
    let mut index: usize = 0;
    while index < module.entry_points.len()
        invariant
            index <= module.entry_points@.len(),
            wanted@ == name@,
            entry_point_index(module.entry_points@, name@, execution_model) == entry_point_from(
                module.entry_points@,
                name@,
                execution_model,
                index as int,
            ),
        decreases module.entry_points@.len() - index,
    {
        let entry_point = &module.entry_points[index];
        if entry_point.name == wanted && entry_point.exec_model == execution_model {
            return Some(index);
        }
        index += 1;
    }
    None
}

/// Computes `descriptor_result` for a variable bound as a resource.
fn check_descriptor(
    module: &Module,
    group_layouts: &[&BindEntryMap],
    stage: ShaderStage,
    var: &GlobalVariable,
    set: u32,
    binding: u32,
    usage: GlobalUse,
) -> (result: Result<(), BindingError>)
    requires
        module.wf(),
        var.ty < module.types@.len(),
        var.binding == Some(Binding::Descriptor { set, binding }),
        has_buffer_size(module.types@, *var),
    ensures
        result == descriptor_result(
            module.types@,
            layout_entries(group_layouts@),
            stage,
            var.ty as int,
            set,
            binding,
            usage,
        ),
{
    if (set as usize) < group_layouts.len() {
        let entries: &BindEntryMap = group_layouts[set as usize];
        match entries.get(&binding) {
            Some(entry) => {
                if entry.visibility.contains(stage) {
                    check_binding(module, var, entry, usage)
                } else {
                    Err(BindingError::Invisible)
                }
            },
            None => Err(BindingError::Missing),
        }
    } else {
        Err(BindingError::Missing)
    }
}

/// Computes `input_result` for a varying that the stage only reads.
fn check_input<'a>(
    inputs: &StageInterface<'a>,
    required: &TypeInner,
    location: ShaderLocation,
) -> (result: Result<(), InputError>)
    ensures
        result == input_result(interface_types(inputs@), *required, location),
{
    match inputs.get(&location) {
        Some(provided) => {
            if is_sub_type(required, &*provided) {
                Ok(())
            } else {
                Err(InputError::WrongType)
            }
        },
        None => Err(InputError::Missing),
    }
}

/// Checks the entry point of the given name and stage against the
/// pipeline's bind group layouts, given in the order of their sets, and
/// against `inputs`, which the stage before it provides. Gives the outputs
/// of the stage, for the stage after it to take as its inputs; their types
/// are borrowed from the module.
pub fn check_stage<'a>(
    module: &'a Module,
    group_layouts: &[&BindEntryMap],
    entry_point_name: &str,
    execution_model: ExecutionModel,
    inputs: StageInterface<'a>,
) -> (result: Result<StageInterface<'a>, StageError>)
    requires
        module.wf(),
        buffers_sized(*module),
    ensures
        stage_outcome(
            *module,
            layout_entries(group_layouts@),
            entry_point_name@,
            execution_model,
            interface_types(inputs@),
            outcome_types(result),
        ),
        result matches Ok(outputs) ==> forall|location: ShaderLocation|
            outputs@.contains_key(location) ==> (#[trigger] outputs@[location]) is Borrowed,
{
    let located = match find_entry_point(module, entry_point_name, execution_model) {
        Some(index) => index,
        None => return Err(StageError::MissingEntryPoint(execution_model)),
    };
    let entry_point = &module.entry_points[located];
    let stage = stage_bit_of(execution_model);
    let function = &module.functions[entry_point.function];
    let count = if module.global_variables.len() <= function.global_usage.len() {
        module.global_variables.len()
    } else {
        function.global_usage.len()
    };
    let ghost layouts = layout_entries(group_layouts@);
    let ghost provided = interface_types(inputs@);
    let ghost f = entry_point.function as int;
    let mut outputs = StageInterface::new();
    let mut index: usize = 0;
    assert(interface_types(outputs@) =~= Map::<ShaderLocation, TypeInner>::empty());
    while index < count
        invariant
            index <= count,
            count == examined(*module, f),
            module.wf(),
            buffers_sized(*module),
            0 <= f < module.functions@.len(),
            *function == module.functions@[f],
            entry_point_index(module.entry_points@, entry_point_name@, execution_model) == Some(
                located as int,
            ),
            module.entry_points@[located as int].function == f,
            layouts == layout_entries(group_layouts@),
            provided == interface_types(inputs@),
            stage == stage_bit(execution_model),
            forall|j: int|
                0 <= j < index ==> (#[trigger] global_error_at(
                    *module,
                    f,
                    layouts,
                    stage,
                    provided,
                    j,
                )) is None,
            interface_types(outputs@) =~= stage_outputs(
                module.types@,
                module.global_variables@,
                function.global_usage@,
                index as int,
            ),
            forall|location: ShaderLocation|
                outputs@.contains_key(location) ==> (#[trigger] outputs@[location]) is Borrowed,
        decreases count - index,
    {
        let var = &module.global_variables[index];
        let usage = function.global_usage[index];
        let ghost before = interface_types(outputs@);
        if !usage.is_empty() {
            match var.binding {
                Some(Binding::Descriptor { set, binding }) => {
                    let checked = check_descriptor(
                        module,
                        group_layouts,
                        stage,
                        var,
                        set,
                        binding,
                        usage,
                    );
                    if let Err(error) = checked {
                        assert(global_error_at(*module, f, layouts, stage, provided, index as int)
                            == Some(StageError::Binding { set, binding, error }));
                        return Err(StageError::Binding { set, binding, error });
                    }
                },
                Some(Binding::Location(location)) => {
                    let (_, ty) = module.resolve(var.ty);
                    if usage.contains(GlobalUse::store()) {
                        outputs.insert(location, MaybeOwned::Borrowed(ty));
                        assert(interface_types(outputs@) =~= before.insert(location, *ty));
                    } else {
                        let checked = check_input(&inputs, ty, location);
                        if let Err(error) = checked {
                            assert(global_error_at(
                                *module,
                                f,
                                layouts,
                                stage,
                                provided,
                                index as int,
                            ) == Some(StageError::Input { location, error }));
                            return Err(StageError::Input { location, error });
                        }
                    }
                },
                None => {},
            }
        }
        assert(global_error_at(*module, f, layouts, stage, provided, index as int) is None);
        index += 1;
    }
    Ok(outputs)
}

} // verus!
