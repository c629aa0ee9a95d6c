//! Mapping the items of a function template onto the items of the module it is imported into:
//! every function (other than the template's entry points), table, memory and global of the
//! template must be one of its `$` imports, and is mapped to the substitution provided under
//! that import's name.
use vstd::prelude::*;
use vstd::string::StringExecFns;

use crate::cli::compile::same_text;
use crate::compiler::wasm::generate::{import_views, item_text, same_item_kind};
use crate::text::decimal;
use crate::wasm_module::{
    module_function_ids, module_global_ids, module_imports, module_memory_ids, module_table_ids, wasm_function_ids,
    wasm_global_ids, wasm_imports, wasm_memory_ids, wasm_table_ids, ExportTarget, ImportEntry, ImportEntryView, WasmModule,
};

verus! {

/// The name of the last `$` import of the template that declares `item`, if any.
pub open spec fn template_import_name(imports: Seq<ImportEntryView>, item: ExportTarget) -> Option<Seq<char>>
    decreases imports.len(),
{
    if imports.len() == 0 {
        None
    } else if imports.last().module == "$"@ && imports.last().kind == item {
        Some(imports.last().name)
    } else {
        template_import_name(imports.drop_last(), item)
    }
}

/// The last substitution provided under `name` for an item of the same kind as `item`, if any.
pub open spec fn substitution_for(
    substitutions: Seq<(Seq<char>, ExportTarget)>,
    name: Seq<char>,
    item: ExportTarget,
) -> Option<ExportTarget>
    decreases substitutions.len(),
{
    if substitutions.len() == 0 {
        None
    } else if substitutions.last().0 == name && same_item_kind(substitutions.last().1, item) {
        Some(substitutions.last().1)
    } else {
        substitution_for(substitutions.drop_last(), name, item)
    }
}

/// The word for the kind of an item in messages.
pub open spec fn item_kind_word(item: ExportTarget) -> Seq<char> {
    match item {
        ExportTarget::Function(_) => "function"@,
        ExportTarget::Table(_) => "table"@,
        ExportTarget::Memory(_) => "memory"@,
        ExportTarget::Global(_) => "global"@,
    }
}

/// The message for a template item that is not one of the template's `$` imports.
pub open spec fn not_exposed_message(item: ExportTarget) -> Seq<char> {
    "Template "@ + item_kind_word(item) + (if item is Function {
        " not exposed as module import: "@
    } else {
        " not exposed as module export: "@
    }) + item_text(item)
}

/// The message for a template import that no substitution provides.
pub open spec fn not_provided_message(item: ExportTarget, name: Seq<char>) -> Seq<char> {
    "Template "@ + item_kind_word(item) + " import not provided: \""@ + name + "\""@
}

/// What a template item is mapped to: the substitution under the name of the `$` import that
/// declares it, or the message saying which of the two is missing.
pub open spec fn item_mapping(
    imports: Seq<ImportEntryView>,
    substitutions: Seq<(Seq<char>, ExportTarget)>,
    item: ExportTarget,
) -> Result<ExportTarget, Seq<char>> {
    match template_import_name(imports, item) {
        None => Err(not_exposed_message(item)),
        Some(name) => match substitution_for(substitutions, name, item) {
            None => Err(not_provided_message(item, name)),
            Some(target) => Ok(target),
        },
    }
}

/// Whether an item is one of the template's entry points, which are not mapped.
pub open spec fn is_entry_point(entry_points: Seq<u32>, item: ExportTarget) -> bool {
    item matches ExportTarget::Function(index) && entry_points.contains(index)
}

/// The mappings of the template's items, in order (entry points left out), or the message of
/// the first item that cannot be mapped.
pub open spec fn template_id_mappings_of(
    imports: Seq<ImportEntryView>,
    items: Seq<ExportTarget>,
    substitutions: Seq<(Seq<char>, ExportTarget)>,
    entry_points: Seq<u32>,
) -> Result<Seq<(ExportTarget, ExportTarget)>, Seq<char>>
    decreases items.len(),
{
    if items.len() == 0 {
        Ok(Seq::empty())
    } else {
        match template_id_mappings_of(imports, items.drop_last(), substitutions, entry_points) {
            Err(message) => Err(message),
            Ok(mappings) => if is_entry_point(entry_points, items.last()) {
                Ok(mappings)
            } else {
                match item_mapping(imports, substitutions, items.last()) {
                    Err(message) => Err(message),
                    Ok(target) => Ok(mappings.push((items.last(), target))),
                }
            },
        }
    }
}

/// The views of a list of substitutions.
pub open spec fn substitution_views(substitutions: Seq<(String, ExportTarget)>) -> Seq<(Seq<char>, ExportTarget)> {
    substitutions.map_values(|entry: (String, ExportTarget)| (entry.0@, entry.1))
}

/// Whether `result` is what `template_id_mappings_of` gives.
pub open spec fn is_template_id_mappings(
    imports: Seq<ImportEntryView>,
    items: Seq<ExportTarget>,
    substitutions: Seq<(Seq<char>, ExportTarget)>,
    entry_points: Seq<u32>,
    result: Result<Vec<(ExportTarget, ExportTarget)>, String>,
) -> bool {
    match result {
        Ok(mappings) => template_id_mappings_of(imports, items, substitutions, entry_points) == Ok::<
            Seq<(ExportTarget, ExportTarget)>,
            Seq<char>,
        >(mappings@),
        Err(message) => template_id_mappings_of(imports, items, substitutions, entry_points) == Err::<
            Seq<(ExportTarget, ExportTarget)>,
            Seq<char>,
        >(message@),
    }
}

/// The name of the last `$` import that declares `item`.
fn find_template_import_name(imports: &Vec<ImportEntry>, item: ExportTarget) -> (result: Option<String>)
    ensures
        match template_import_name(import_views(imports@), item) {
            Some(name) => result matches Some(found) && found@ == name,
            None => result is None,
        },
{
    let ghost views = import_views(imports@);
    let mut remaining: usize = imports.len();
    assert(views.subrange(0, remaining as int) =~= views);
    while remaining > 0
        invariant
            remaining <= imports@.len(),
            views == import_views(imports@),
            template_import_name(views, item) == template_import_name(views.subrange(0, remaining as int), item),
        decreases remaining,
    {
        let ghost prefix = views.subrange(0, remaining as int);
        proof {
            assert(prefix.drop_last() =~= views.subrange(0, remaining - 1));
            assert(prefix.last() == imports@[remaining - 1]@);
        }
        let import = &imports[remaining - 1];
        if same_text(import.module.as_str(), "$") && import.kind == item {
            return Some(import.name.clone());
        }
        remaining = remaining - 1;
    }
    None
}

/// Whether two items are of the same kind.
fn is_same_kind(a: ExportTarget, b: ExportTarget) -> (result: bool)
    ensures
        result == same_item_kind(a, b),
{
    match (a, b) {
        (ExportTarget::Function(_), ExportTarget::Function(_)) => true,
        (ExportTarget::Table(_), ExportTarget::Table(_)) => true,
        (ExportTarget::Memory(_), ExportTarget::Memory(_)) => true,
        (ExportTarget::Global(_), ExportTarget::Global(_)) => true,
        _ => false,
    }
}

/// The last substitution under `name` for an item of the same kind as `item`.
fn find_substitution(substitutions: &Vec<(String, ExportTarget)>, name: &str, item: ExportTarget) -> (result: Option<ExportTarget>)
    ensures
        result == substitution_for(substitution_views(substitutions@), name@, item),
{
    let ghost views = substitution_views(substitutions@);
    let mut remaining: usize = substitutions.len();
    assert(views.subrange(0, remaining as int) =~= views);
    while remaining > 0
        invariant
            remaining <= substitutions@.len(),
            views == substitution_views(substitutions@),
            substitution_for(views, name@, item) == substitution_for(views.subrange(0, remaining as int), name@, item),
        decreases remaining,
    {
        let ghost prefix = views.subrange(0, remaining as int);
        proof {
            assert(prefix.drop_last() =~= views.subrange(0, remaining - 1));
            assert(prefix.last() == (substitutions@[remaining - 1].0@, substitutions@[remaining - 1].1));
        }
        let entry = &substitutions[remaining - 1];
        if same_text(entry.0.as_str(), name) && is_same_kind(entry.1, item) {
            return Some(entry.1);
        }
        remaining = remaining - 1;
    }
    None
}

/// Whether `item` is one of the entry points.
fn entry_point_listed(entry_points: &Vec<u32>, item: ExportTarget) -> (result: bool)
    ensures
        result == is_entry_point(entry_points@, item),
{
    match item {
        ExportTarget::Function(index) => {
            let mut position: usize = 0;
            while position < entry_points.len()
                invariant
                    position <= entry_points@.len(),
                    item == ExportTarget::Function(index),
                    forall|k: int| 0 <= k < position ==> entry_points@[k] != index,
                decreases entry_points.len() - position,
            {
                if entry_points[position] == index {
                    assert(entry_points@[position as int] == index);
                    assert(entry_points@.contains(index));
                    return true;
                }
                position = position + 1;
            }
            false
        },
        _ => false,
    }
}

/// The text of an item.
fn item_to_text(item: ExportTarget) -> (result: String)
    ensures
        result@ == item_text(item),
{
    let (kind, index) = match item {
        ExportTarget::Function(index) => ("Function(", index),
        ExportTarget::Table(index) => ("Table(", index),
        ExportTarget::Memory(index) => ("Memory(", index),
        ExportTarget::Global(index) => ("Global(", index),
    };
    String::from_str(kind).concat(decimal(index as u64).as_str()).concat(")")
}

/// The word for the kind of an item.
fn kind_word(item: ExportTarget) -> (result: &'static str)
    ensures
        result@ == item_kind_word(item),
{
    match item {
        ExportTarget::Function(_) => "function",
        ExportTarget::Table(_) => "table",
        ExportTarget::Memory(_) => "memory",
        ExportTarget::Global(_) => "global",
    }
}

/// What one template item is mapped to (see `item_mapping`).
fn map_item(
    imports: &Vec<ImportEntry>,
    substitutions: &Vec<(String, ExportTarget)>,
    item: ExportTarget,
) -> (result: Result<ExportTarget, String>)
    ensures
        match item_mapping(import_views(imports@), substitution_views(substitutions@), item) {
            Ok(target) => result == Ok::<ExportTarget, String>(target),
            Err(message) => result matches Err(found) && found@ == message,
        },
{
    match find_template_import_name(imports, item) {
        None => {
            let exposed = match item {
                ExportTarget::Function(_) => " not exposed as module import: ",
                _ => " not exposed as module export: ",
            };
            Err(String::from_str("Template ").concat(kind_word(item)).concat(exposed).concat(item_to_text(item).as_str()))
        },
        Some(name) => match find_substitution(substitutions, name.as_str(), item) {
            None => Err(
                String::from_str("Template ")
                    .concat(kind_word(item))
                    .concat(" import not provided: \"")
                    .concat(name.as_str())
                    .concat("\""),
            ),
            Some(target) => Ok(target),
        },
    }
}

/// Once a prefix of the items fails to map, every longer prefix fails with the same message.
proof fn lemma_mapping_error_persists(
    imports: Seq<ImportEntryView>,
    items: Seq<ExportTarget>,
    substitutions: Seq<(Seq<char>, ExportTarget)>,
    entry_points: Seq<u32>,
    length: nat,
)
    requires
        length <= items.len(),
        template_id_mappings_of(imports, items.subrange(0, length as int), substitutions, entry_points) is Err,
    ensures
        template_id_mappings_of(imports, items, substitutions, entry_points)
            == template_id_mappings_of(imports, items.subrange(0, length as int), substitutions, entry_points),
    decreases items.len() - length,
{
    if length == items.len() {
        assert(items.subrange(0, length as int) =~= items);
    } else {
        let longer = items.subrange(0, (length + 1) as int);
        assert(longer.drop_last() =~= items.subrange(0, length as int));
        lemma_mapping_error_persists(imports, items, substitutions, entry_points, (length + 1) as nat);
    }
}

/// Maps the items of a function template (its functions, then tables, memories and globals)
/// onto the substitutions provided for them: each item that is not an entry point must be
/// declared by a `$` import, and is mapped to the substitution of the same kind provided under
/// that import's name. Gives the mappings in order, or the message of the first item that
/// cannot be mapped.
pub fn template_id_mappings(
    imports: &Vec<ImportEntry>,
    items: &Vec<ExportTarget>,
    substitutions: &Vec<(String, ExportTarget)>,
    entry_points: &Vec<u32>,
) -> (result: Result<Vec<(ExportTarget, ExportTarget)>, String>)
    ensures
        is_template_id_mappings(
            import_views(imports@),
            items@,
            substitution_views(substitutions@),
            entry_points@,
            result,
        ),
{
    let ghost import_list = import_views(imports@);
    let ghost substitution_list = substitution_views(substitutions@);
    let mut mappings: Vec<(ExportTarget, ExportTarget)> = Vec::new();
    let mut index: usize = 0;
    while index < items.len()
        invariant
            index <= items@.len(),
            import_list == import_views(imports@),
            substitution_list == substitution_views(substitutions@),
            template_id_mappings_of(import_list, items@.subrange(0, index as int), substitution_list, entry_points@)
                == Ok::<Seq<(ExportTarget, ExportTarget)>, Seq<char>>(mappings@),
        decreases items@.len() - index,
    {
        let ghost next = items@.subrange(0, index + 1);
        proof {
            assert(next.drop_last() =~= items@.subrange(0, index as int));
            assert(next.last() == items@[index as int]);
        }
        let item = items[index];
        if !entry_point_listed(entry_points, item) {
            match map_item(imports, substitutions, item) {
                Ok(target) => {
                    mappings.push((item, target));
                },
                Err(message) => {
                    proof {
                        lemma_mapping_error_persists(import_list, items@, substitution_list, entry_points@, (index + 1) as nat);
                    }
                    return Err(message);
                },
            }
        }
        index = index + 1;
    }
    assert(items@.subrange(0, items@.len() as int) =~= items@);
    Ok(mappings)
}

/// The items of the module parsed from `bytes`: its functions, then tables, memories and
/// globals, each in declaration order.
pub open spec fn wasm_template_items(bytes: Seq<u8>) -> Seq<ExportTarget> {
    wasm_function_ids(bytes).map_values(|index: u32| ExportTarget::Function(index))
        + wasm_table_ids(bytes).map_values(|index: u32| ExportTarget::Table(index))
        + wasm_memory_ids(bytes).map_values(|index: u32| ExportTarget::Memory(index))
        + wasm_global_ids(bytes).map_values(|index: u32| ExportTarget::Global(index))
}

/// Appends `indices`, each as an item made by `kind` (0 for functions, 1 for tables, 2 for
/// memories, 3 for globals).
fn append_items(items: &mut Vec<ExportTarget>, indices: &Vec<u32>, kind: u8)
    requires
        kind < 4,
    ensures
        final(items)@ == old(items)@ + indices@.map_values(|index: u32| item_of_kind(kind, index)),
{
    let ghost start = items@;
    let mut position: usize = 0;
    while position < indices.len()
        invariant
            position <= indices@.len(),
            items@ == start + indices@.subrange(0, position as int).map_values(|index: u32| item_of_kind(kind, index)),
        decreases indices.len() - position,
    {
        let index = indices[position];
        let item = match kind {
            0 => ExportTarget::Function(index),
            1 => ExportTarget::Table(index),
            2 => ExportTarget::Memory(index),
            _ => ExportTarget::Global(index),
        };
        items.push(item);
        proof {
            assert(indices@.subrange(0, position + 1).map_values(|index: u32| item_of_kind(kind, index))
                =~= indices@.subrange(0, position as int).map_values(|index: u32| item_of_kind(kind, index)).push(item));
        }
        position = position + 1;
    }
    assert(indices@.subrange(0, indices@.len() as int) =~= indices@);
}

/// The item of the given kind (0 for functions, 1 for tables, 2 for memories, 3 for globals).
pub open spec fn item_of_kind(kind: u8, index: u32) -> ExportTarget {
    if kind == 0 {
        ExportTarget::Function(index)
    } else if kind == 1 {
        ExportTarget::Table(index)
    } else if kind == 2 {
        ExportTarget::Memory(index)
    } else {
        ExportTarget::Global(index)
    }
}

/// Maps the items of the function template module `template` onto `substitutions` (see
/// `template_id_mappings`); for an unmodified module, as `template_id_mappings_of` says of the
/// imports and items of its binary.
pub fn template_module_id_mappings(
    template: &WasmModule,
    substitutions: &Vec<(String, ExportTarget)>,
    entry_points: &Vec<u32>,
) -> (result: Result<Vec<(ExportTarget, ExportTarget)>, String>)
    ensures
        template.source() matches Some(bytes) ==> is_template_id_mappings(
            wasm_imports(bytes),
            wasm_template_items(bytes),
            substitution_views(substitutions@),
            entry_points@,
            result,
        ),
{
    let imports = module_imports(template);
    let mut items: Vec<ExportTarget> = Vec::new();
    append_items(&mut items, &module_function_ids(template), 0);
    append_items(&mut items, &module_table_ids(template), 1);
    append_items(&mut items, &module_memory_ids(template), 2);
    append_items(&mut items, &module_global_ids(template), 3);
    proof {
        if let Some(bytes) = template.source() {
            assert(import_views(imports@) =~= wasm_imports(bytes));
            assert(wasm_function_ids(bytes).map_values(|index: u32| item_of_kind(0, index))
                =~= wasm_function_ids(bytes).map_values(|index: u32| ExportTarget::Function(index)));
            assert(wasm_table_ids(bytes).map_values(|index: u32| item_of_kind(1, index))
                =~= wasm_table_ids(bytes).map_values(|index: u32| ExportTarget::Table(index)));
            assert(wasm_memory_ids(bytes).map_values(|index: u32| item_of_kind(2, index))
                =~= wasm_memory_ids(bytes).map_values(|index: u32| ExportTarget::Memory(index)));
            assert(wasm_global_ids(bytes).map_values(|index: u32| item_of_kind(3, index))
                =~= wasm_global_ids(bytes).map_values(|index: u32| ExportTarget::Global(index)));
            assert(items@ =~= wasm_template_items(bytes));
        }
    }
    template_id_mappings(&imports, &items, substitutions, entry_points)
}

} // verus!
