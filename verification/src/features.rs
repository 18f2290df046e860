//! The optional driver capabilities that the logical device is asked for.
//!
//! Each group is a plain record of named flags, one flag per capability.
//! The renderer asks for every one of them without first asking the device
//! whether it has it: a device that lacks one refuses to be created.

use vstd::prelude::*;

verus! {

/// Capabilities of API version 1.2: timeline semaphores, descriptor
/// indexing, buffer device addresses and reduced-precision arithmetic.
#[derive(Clone, Copy, Debug, PartialEq, Eq, Structural)]
pub struct Vulkan12Features {
    pub timeline_semaphore: bool,
    pub shader_input_attachment_array_dynamic_indexing: bool,
    pub shader_uniform_texel_buffer_array_dynamic_indexing: bool,
    pub shader_storage_texel_buffer_array_dynamic_indexing: bool,
    pub shader_uniform_buffer_array_non_uniform_indexing: bool,
    pub shader_sampled_image_array_non_uniform_indexing: bool,
    pub shader_storage_buffer_array_non_uniform_indexing: bool,
    pub shader_storage_image_array_non_uniform_indexing: bool,
    pub shader_input_attachment_array_non_uniform_indexing: bool,
    pub descriptor_binding_uniform_buffer_update_after_bind: bool,
    pub descriptor_binding_sampled_image_update_after_bind: bool,
    pub descriptor_binding_storage_image_update_after_bind: bool,
    pub descriptor_binding_storage_buffer_update_after_bind: bool,
    pub descriptor_binding_uniform_texel_buffer_update_after_bind: bool,
    pub descriptor_binding_storage_texel_buffer_update_after_bind: bool,
    pub descriptor_binding_update_unused_while_pending: bool,
    pub descriptor_binding_partially_bound: bool,
    pub descriptor_binding_variable_descriptor_count: bool,
    pub runtime_descriptor_array: bool,
    pub buffer_device_address: bool,
    pub shader_float16: bool,
    pub shader_int8: bool,
}

/// Capabilities of API version 1.3: dynamic rendering, the second
/// generation of synchronization primitives and integer dot products.
#[derive(Clone, Copy, Debug, PartialEq, Eq, Structural)]
pub struct Vulkan13Features {
    pub dynamic_rendering: bool,
    pub synchronization2: bool,
    pub shader_integer_dot_product: bool,
}

/// The second family of extended dynamic state.
#[derive(Clone, Copy, Debug, PartialEq, Eq, Structural)]
pub struct ExtendedDynamicState2Features {
    pub extended_dynamic_state2: bool,
    pub extended_dynamic_state2_logic_op: bool,
    pub extended_dynamic_state2_patch_control_points: bool,
}

/// The third family of extended dynamic state.
#[derive(Clone, Copy, Debug, PartialEq, Eq, Structural)]
pub struct ExtendedDynamicState3Features {
    pub tessellation_domain_origin: bool,
    pub depth_clamp_enable: bool,
    pub polygon_mode: bool,
    pub rasterization_samples: bool,
    pub sample_mask: bool,
    pub alpha_to_coverage_enable: bool,
    pub alpha_to_one_enable: bool,
    pub logic_op_enable: bool,
    pub color_blend_enable: bool,
    pub color_blend_equation: bool,
    pub color_write_mask: bool,
    pub rasterization_stream: bool,
    pub conservative_rasterization_mode: bool,
    pub extra_primitive_overestimation_size: bool,
    pub depth_clip_enable: bool,
    pub sample_locations_enable: bool,
    pub color_blend_advanced: bool,
    pub provoking_vertex_mode: bool,
    pub line_rasterization_mode: bool,
    pub line_stipple_enable: bool,
    pub depth_clip_negative_one_to_one: bool,
    pub viewport_w_scaling_enable: bool,
    pub viewport_swizzle: bool,
    pub coverage_to_color_enable: bool,
    pub coverage_to_color_location: bool,
    pub coverage_modulation_mode: bool,
    pub coverage_modulation_table_enable: bool,
    pub coverage_modulation_table: bool,
    pub coverage_reduction_mode: bool,
    pub representative_fragment_test_enable: bool,
    pub shading_rate_image_enable: bool,
}

/// Everything the logical device is asked to enable.
#[derive(Clone, Copy, Debug, PartialEq, Eq, Structural)]
pub struct DeviceFeatures {
    pub vulkan12: Vulkan12Features,
    pub vulkan13: Vulkan13Features,
    /// The first family of extended dynamic state.
    pub extended_dynamic_state: bool,
    pub extended_dynamic_state2: ExtendedDynamicState2Features,
    pub extended_dynamic_state3: ExtendedDynamicState3Features,
    /// Per-attachment control of colour writes.
    pub color_write_enable: bool,
}

impl Vulkan12Features {
    /// Every flag of the group has the given value.
    pub open spec fn uniform(on: bool) -> Self {
        Vulkan12Features {
            timeline_semaphore: on,
            shader_input_attachment_array_dynamic_indexing: on,
            shader_uniform_texel_buffer_array_dynamic_indexing: on,
            shader_storage_texel_buffer_array_dynamic_indexing: on,
            shader_uniform_buffer_array_non_uniform_indexing: on,
            shader_sampled_image_array_non_uniform_indexing: on,
            shader_storage_buffer_array_non_uniform_indexing: on,
            shader_storage_image_array_non_uniform_indexing: on,
            shader_input_attachment_array_non_uniform_indexing: on,
            descriptor_binding_uniform_buffer_update_after_bind: on,
            descriptor_binding_sampled_image_update_after_bind: on,
            descriptor_binding_storage_image_update_after_bind: on,
            descriptor_binding_storage_buffer_update_after_bind: on,
            descriptor_binding_uniform_texel_buffer_update_after_bind: on,
            descriptor_binding_storage_texel_buffer_update_after_bind: on,
            descriptor_binding_update_unused_while_pending: on,
            descriptor_binding_partially_bound: on,
            descriptor_binding_variable_descriptor_count: on,
            runtime_descriptor_array: on,
            buffer_device_address: on,
            shader_float16: on,
            shader_int8: on,
        }
    }

    /// The group with nothing asked for.
    pub fn none() -> (features: Self)
        ensures
            features == Self::uniform(false),
    {
        Vulkan12Features {
            timeline_semaphore: false,
            shader_input_attachment_array_dynamic_indexing: false,
            shader_uniform_texel_buffer_array_dynamic_indexing: false,
            shader_storage_texel_buffer_array_dynamic_indexing: false,
            shader_uniform_buffer_array_non_uniform_indexing: false,
            shader_sampled_image_array_non_uniform_indexing: false,
            shader_storage_buffer_array_non_uniform_indexing: false,
            shader_storage_image_array_non_uniform_indexing: false,
            shader_input_attachment_array_non_uniform_indexing: false,
            descriptor_binding_uniform_buffer_update_after_bind: false,
            descriptor_binding_sampled_image_update_after_bind: false,
            descriptor_binding_storage_image_update_after_bind: false,
            descriptor_binding_storage_buffer_update_after_bind: false,
            descriptor_binding_uniform_texel_buffer_update_after_bind: false,
            descriptor_binding_storage_texel_buffer_update_after_bind: false,
            descriptor_binding_update_unused_while_pending: false,
            descriptor_binding_partially_bound: false,
            descriptor_binding_variable_descriptor_count: false,
            runtime_descriptor_array: false,
            buffer_device_address: false,
            shader_float16: false,
            shader_int8: false,
        }
    }

    /// Asks for timeline semaphores.
    pub fn with_timeline_semaphore(self) -> (features: Self)
        ensures
            features == (Vulkan12Features { timeline_semaphore: true, ..self }),
    {
        Vulkan12Features { timeline_semaphore: true, ..self }
    }

    /// Asks for every capability of descriptor indexing.
    pub fn with_descriptor_indexing(self) -> (features: Self)
        ensures
            features == (Vulkan12Features {
                shader_input_attachment_array_dynamic_indexing: true,
                shader_uniform_texel_buffer_array_dynamic_indexing: true,
                shader_storage_texel_buffer_array_dynamic_indexing: true,
                shader_uniform_buffer_array_non_uniform_indexing: true,
                shader_sampled_image_array_non_uniform_indexing: true,
                shader_storage_buffer_array_non_uniform_indexing: true,
                shader_storage_image_array_non_uniform_indexing: true,
                shader_input_attachment_array_non_uniform_indexing: true,
                descriptor_binding_uniform_buffer_update_after_bind: true,
                descriptor_binding_sampled_image_update_after_bind: true,
                descriptor_binding_storage_image_update_after_bind: true,
                descriptor_binding_storage_buffer_update_after_bind: true,
                descriptor_binding_uniform_texel_buffer_update_after_bind: true,
                descriptor_binding_storage_texel_buffer_update_after_bind: true,
                descriptor_binding_update_unused_while_pending: true,
                descriptor_binding_partially_bound: true,
                descriptor_binding_variable_descriptor_count: true,
                runtime_descriptor_array: true,
                ..self
            }),
    {
        Vulkan12Features {
            shader_input_attachment_array_dynamic_indexing: true,
            shader_uniform_texel_buffer_array_dynamic_indexing: true,
            shader_storage_texel_buffer_array_dynamic_indexing: true,
            shader_uniform_buffer_array_non_uniform_indexing: true,
            shader_sampled_image_array_non_uniform_indexing: true,
            shader_storage_buffer_array_non_uniform_indexing: true,
            shader_storage_image_array_non_uniform_indexing: true,
            shader_input_attachment_array_non_uniform_indexing: true,
            descriptor_binding_uniform_buffer_update_after_bind: true,
            descriptor_binding_sampled_image_update_after_bind: true,
            descriptor_binding_storage_image_update_after_bind: true,
            descriptor_binding_storage_buffer_update_after_bind: true,
            descriptor_binding_uniform_texel_buffer_update_after_bind: true,
            descriptor_binding_storage_texel_buffer_update_after_bind: true,
            descriptor_binding_update_unused_while_pending: true,
            descriptor_binding_partially_bound: true,
            descriptor_binding_variable_descriptor_count: true,
            runtime_descriptor_array: true,
            ..self
        }
    }

    /// Asks for buffer device addresses.
    pub fn with_buffer_device_address(self) -> (features: Self)
        ensures
            features == (Vulkan12Features { buffer_device_address: true, ..self }),
    {
        Vulkan12Features { buffer_device_address: true, ..self }
    }

    /// Asks for 16-bit floating point and 8-bit integer shader arithmetic.
    pub fn with_reduced_precision(self) -> (features: Self)
        ensures
            features == (Vulkan12Features { shader_float16: true, shader_int8: true, ..self }),
    {
        Vulkan12Features { shader_float16: true, shader_int8: true, ..self }
    }

    /// What the renderer asks for: every flag of the group.
    pub fn requested() -> (features: Self)
        ensures
            features == Self::uniform(true),
    {
        Self::none().with_timeline_semaphore().with_descriptor_indexing().with_buffer_device_address().with_reduced_precision()
    }
}

impl Vulkan13Features {
    /// Every flag of the group has the given value.
    pub open spec fn uniform(on: bool) -> Self {
        Vulkan13Features { dynamic_rendering: on, synchronization2: on, shader_integer_dot_product: on }
    }

    /// What the renderer asks for: every flag of the group.
    pub fn requested() -> (features: Self)
        ensures
            features == Self::uniform(true),
    {
        Vulkan13Features {
            dynamic_rendering: true,
            synchronization2: true,
            shader_integer_dot_product: true,
        }
    }
}

impl ExtendedDynamicState2Features {
    /// Every flag of the group has the given value.
    pub open spec fn uniform(on: bool) -> Self {
        ExtendedDynamicState2Features {
            extended_dynamic_state2: on,
            extended_dynamic_state2_logic_op: on,
            extended_dynamic_state2_patch_control_points: on,
        }
    }

    /// What the renderer asks for: every flag of the group.
    pub fn requested() -> (features: Self)
        ensures
            features == Self::uniform(true),
    {
        ExtendedDynamicState2Features {
            extended_dynamic_state2: true,
            extended_dynamic_state2_logic_op: true,
            extended_dynamic_state2_patch_control_points: true,
        }
    }
}

impl ExtendedDynamicState3Features {
    /// Every flag of the group has the given value.
    pub open spec fn uniform(on: bool) -> Self {
        ExtendedDynamicState3Features {
            tessellation_domain_origin: on,
            depth_clamp_enable: on,
            polygon_mode: on,
            rasterization_samples: on,
            sample_mask: on,
            alpha_to_coverage_enable: on,
            alpha_to_one_enable: on,
            logic_op_enable: on,
            color_blend_enable: on,
            color_blend_equation: on,
            color_write_mask: on,
            rasterization_stream: on,
            conservative_rasterization_mode: on,
            extra_primitive_overestimation_size: on,
            depth_clip_enable: on,
            sample_locations_enable: on,
            color_blend_advanced: on,
            provoking_vertex_mode: on,
            line_rasterization_mode: on,
            line_stipple_enable: on,
            depth_clip_negative_one_to_one: on,
            viewport_w_scaling_enable: on,
            viewport_swizzle: on,
            coverage_to_color_enable: on,
            coverage_to_color_location: on,
            coverage_modulation_mode: on,
            coverage_modulation_table_enable: on,
            coverage_modulation_table: on,
            coverage_reduction_mode: on,
            representative_fragment_test_enable: on,
            shading_rate_image_enable: on,
        }
    }

    /// What the renderer asks for: every flag of the group.
    pub fn requested() -> (features: Self)
        ensures
            features == Self::uniform(true),
    {
        ExtendedDynamicState3Features {
            tessellation_domain_origin: true,
            depth_clamp_enable: true,
            polygon_mode: true,
            rasterization_samples: true,
            sample_mask: true,
            alpha_to_coverage_enable: true,
            alpha_to_one_enable: true,
            logic_op_enable: true,
            color_blend_enable: true,
            color_blend_equation: true,
            color_write_mask: true,
            rasterization_stream: true,
            conservative_rasterization_mode: true,
            extra_primitive_overestimation_size: true,
            depth_clip_enable: true,
            sample_locations_enable: true,
            color_blend_advanced: true,
            provoking_vertex_mode: true,
            line_rasterization_mode: true,
            line_stipple_enable: true,
            depth_clip_negative_one_to_one: true,
            viewport_w_scaling_enable: true,
            viewport_swizzle: true,
            coverage_to_color_enable: true,
            coverage_to_color_location: true,
            coverage_modulation_mode: true,
            coverage_modulation_table_enable: true,
            coverage_modulation_table: true,
            coverage_reduction_mode: true,
            representative_fragment_test_enable: true,
            shading_rate_image_enable: true,
        }
    }
}

impl DeviceFeatures {
    /// Every flag of every group has the given value.
    pub open spec fn uniform(on: bool) -> Self {
        DeviceFeatures {
            vulkan12: Vulkan12Features::uniform(on),
            vulkan13: Vulkan13Features::uniform(on),
            extended_dynamic_state: on,
            extended_dynamic_state2: ExtendedDynamicState2Features::uniform(on),
            extended_dynamic_state3: ExtendedDynamicState3Features::uniform(on),
            color_write_enable: on,
        }
    }

    /// What the renderer asks of the logical device: every flag of every
    /// group, whether or not the device has said that it supports it.
    pub fn requested() -> (features: Self)
        ensures
            features == Self::uniform(true),
    {
        DeviceFeatures {
            vulkan12: Vulkan12Features::requested(),
            vulkan13: Vulkan13Features::requested(),
            extended_dynamic_state: true,
            extended_dynamic_state2: ExtendedDynamicState2Features::requested(),
            extended_dynamic_state3: ExtendedDynamicState3Features::requested(),
            color_write_enable: true,
        }
    }
}

} // verus!
