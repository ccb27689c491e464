//! Symbolic names of the runtime entry points, in the order of the engine
//! module's table.

use vstd::prelude::*;
use vstd::string::StringExecFns;

verus! {

/// What every symbolic name starts with.
pub const SYMBOL_PREFIX: &'static str = "il2cpp_";

/// The symbolic names without their prefix. Position in this list is the
/// only binding between a symbolic name and a table entry.
pub const SYMBOL_STEMS: [&'static str; 234] = [
    "init", "init_utf16", "shutdown", "set_config_dir", "set_data_dir", "set_temp_dir",
    "set_commandline_arguments", "set_commandline_arguments_utf16", "set_config_utf16",
    "set_config", "set_memory_callbacks", "memory_pool_set_region_size",
    "memory_pool_get_region_size", "get_corlib", "add_internal_call", "resolve_icall", "alloc",
    "free", "array_class_get", "array_length", "array_get_byte_length", "array_new",
    "array_new_specific", "array_new_full", "bounded_array_class_get", "array_element_size",
    "assembly_get_image", "class_for_each", "class_enum_basetype", "class_is_inited",
    "class_is_generic", "class_is_inflated", "class_is_assignable_from", "class_is_subclass_of",
    "class_has_parent", "class_from_il2cpp_type", "class_from_name", "class_from_system_type",
    "class_get_element_class", "class_get_events", "class_get_fields", "class_get_nested_types",
    "class_get_interfaces", "class_get_properties", "class_get_property_from_name",
    "class_get_field_from_name", "class_get_methods", "class_get_method_from_name",
    "class_get_name", "type_get_name_chunked", "class_get_namespace", "class_get_parent",
    "class_get_declaring_type", "class_instance_size", "class_num_fields", "class_is_valuetype",
    "class_value_size", "class_is_blittable", "class_get_flags", "class_is_abstract",
    "class_is_interface", "class_array_element_size", "class_from_type", "class_get_type",
    "class_get_type_token", "class_has_attribute", "class_has_references", "class_is_enum",
    "class_get_image", "class_get_assemblyname", "class_get_rank", "class_get_data_size",
    "class_get_static_field_data", "class_get_bitmap_size", "class_get_bitmap",
    "stats_dump_to_file", "stats_get_value", "domain_get", "domain_assembly_open",
    "domain_get_assemblies", "raise_exception", "exception_from_name_msg",
    "get_exception_argument_null", "format_exception", "format_stack_trace",
    "unhandled_exception", "native_stack_trace", "field_get_flags", "field_get_name",
    "field_get_parent", "field_get_offset", "field_get_type", "field_get_value",
    "field_get_value_object", "field_has_attribute", "field_set_value",
    "field_static_get_value", "field_static_set_value", "field_set_value_object",
    "field_is_literal", "gc_collect", "gc_collect_a_little", "gc_start_incremental_collection",
    "gc_disable", "gc_enable", "gc_is_disabled", "gc_set_mode", "gc_get_max_time_slice_ns",
    "gc_set_max_time_slice_ns", "gc_is_incremental", "gc_get_used_size", "gc_get_heap_size",
    "gc_wbarrier_set_field", "gc_has_strict_wbarriers", "gc_set_external_allocation_tracker",
    "gc_set_external_wbarrier_tracker", "gc_foreach_heap", "stop_gc_world", "start_gc_world",
    "gc_alloc_fixed", "gc_free_fixed", "gchandle_new", "gchandle_new_weakref",
    "gchandle_get_target", "gchandle_free", "gchandle_foreach_get_target", "object_header_size",
    "array_object_header_size", "offset_of_array_length_in_array_object_header",
    "offset_of_array_bounds_in_array_object_header", "allocation_granularity",
    "unity_liveness_allocate_struct", "unity_liveness_calculation_from_root",
    "unity_liveness_calculation_from_statics", "unity_liveness_finalize",
    "unity_liveness_free_struct", "method_get_return_type", "method_get_declaring_type",
    "method_get_name", "method_get_from_reflection", "method_get_object", "method_is_generic",
    "method_is_inflated", "method_is_instance", "method_get_param_count", "method_get_param",
    "method_get_class", "method_has_attribute", "method_get_flags", "method_get_token",
    "method_get_param_name", "property_get_flags", "property_get_get_method",
    "property_get_set_method", "property_get_name", "property_get_parent", "object_get_class",
    "object_get_size", "object_get_virtual_method", "object_new", "object_unbox", "value_box",
    "monitor_enter", "monitor_try_enter", "monitor_exit", "monitor_pulse", "monitor_pulse_all",
    "monitor_wait", "monitor_try_wait", "runtime_invoke", "runtime_invoke_convert_args",
    "runtime_class_init", "runtime_object_init", "runtime_object_init_exception",
    "runtime_unhandled_exception_policy_set", "string_length", "string_chars", "string_new",
    "string_new_len", "string_new_utf16", "string_new_wrapper", "string_intern",
    "string_is_interned", "thread_current", "thread_attach", "thread_detach",
    "thread_get_all_attached_threads", "is_vm_thread", "current_thread_walk_frame_stack",
    "thread_walk_frame_stack", "current_thread_get_top_frame", "thread_get_top_frame",
    "current_thread_get_frame_at", "thread_get_frame_at", "current_thread_get_stack_depth",
    "thread_get_stack_depth", "override_stack_backtrace", "type_get_object", "type_get_type",
    "type_get_class_or_element_class", "type_get_name", "type_is_byref", "type_get_attrs",
    "type_equals", "type_get_assembly_qualified_name", "type_get_reflection_name",
    "type_is_static", "type_is_pointer_type", "image_get_assembly", "image_get_name",
    "image_get_filename", "image_get_entry_point", "image_get_class_count", "image_get_class",
    "capture_memory_snapshot", "free_captured_memory_snapshot", "set_find_plugin_callback",
    "register_log_callback", "debugger_set_agent_options", "is_debugger_attached",
    "register_debugger_agent_transport", "debug_get_method_info",
    "unity_install_unitytls_interface", "custom_attrs_from_class", "custom_attrs_from_method",
    "custom_attrs_from_field", "custom_attrs_get_attr", "custom_attrs_has_attr",
    "custom_attrs_construct", "custom_attrs_free", "class_set_userdata",
    "class_get_userdata_offset", "set_default_thread_affinity",
    "unity_set_android_network_up_state_func",
];

/// The symbolic names in table order.
pub open spec fn symbol_names() -> Seq<Seq<char>> {
    Seq::new(SYMBOL_STEMS@.len(), |i: int| SYMBOL_PREFIX@ + SYMBOL_STEMS@[i]@)
}

/// The views of a list of names.
pub open spec fn names_of(symbols: Seq<String>) -> Seq<Seq<char>> {
    symbols.map_values(|s: String| s@)
}

/// Builds the symbolic names in table order.
pub fn symbol_list() -> (list: Vec<String>)
    ensures
        names_of(list@) == symbol_names(),
{
    let mut list: Vec<String> = Vec::new();
    let mut i: usize = 0;
    while i < SYMBOL_STEMS.len()
        invariant
            i <= SYMBOL_STEMS@.len(),
            list@.len() == i,
            forall|k: int| 0 <= k < i ==> (#[trigger] list@[k])@ == SYMBOL_PREFIX@ + SYMBOL_STEMS@[k]@,
        decreases SYMBOL_STEMS@.len() - i,
    {
        let mut name = String::from_str(SYMBOL_PREFIX);
        name.append(SYMBOL_STEMS[i]);
        list.push(name);
        i = i + 1;
    }
    assert(names_of(list@) =~= symbol_names());
    list
}

} // verus!
