//! Selection of the physical device and the request for the logical one.
//!
//! What the driver reports of each device arrives here as plain values: a
//! packed API version, the capability flags of each queue family and the
//! names of the supported extensions. Selection takes the first device, in
//! the order of enumeration, that passes every gate; nothing is scored.

use vstd::prelude::*;
use crate::error::SetupError;
use crate::features::DeviceFeatures;
use crate::version::{minimum_api_version, MINIMUM_API_VERSION};

verus! {

/// The names of the extensions that a device must support, in their fixed
/// order.
pub open spec fn required_extension_names() -> Seq<Seq<char>> {
    seq![
        "VK_KHR_swapchain"@,
        "VK_KHR_dynamic_rendering"@,
        "VK_KHR_timeline_semaphore"@,
        "VK_KHR_synchronization2"@,
        "VK_EXT_extended_dynamic_state"@,
        "VK_EXT_extended_dynamic_state2"@,
        "VK_EXT_extended_dynamic_state3"@,
        "VK_EXT_vertex_input_dynamic_state"@,
        "VK_EXT_color_write_enable"@,
        "VK_EXT_descriptor_indexing"@,
        "VK_KHR_buffer_device_address"@,
        "VK_EXT_memory_budget"@,
        "VK_KHR_shader_float16_int8"@,
        "VK_KHR_shader_integer_dot_product"@,
        "VK_KHR_maintenance1"@,
        "VK_KHR_maintenance2"@,
        "VK_KHR_maintenance3"@,
        "VK_KHR_maintenance4"@,
        "VK_KHR_maintenance5"@,
        "VK_KHR_spirv_1_4"@,
        "VK_KHR_create_renderpass2"@,
    ]
}

/// The names that a list of texts holds, in order.
pub open spec fn names_of(texts: Seq<String>) -> Seq<Seq<char>> {
    Seq::new(texts.len(), |i: int| texts[i]@)
}

/// Every name of `wanted` occurs in `offered`, letter for letter.
pub open spec fn offers_all(offered: Seq<Seq<char>>, wanted: Seq<Seq<char>>) -> bool {
    forall|k: int| 0 <= k < wanted.len() ==> offered.contains(#[trigger] wanted[k])
}

/// The capability bit of a queue family that stands for graphics work.
pub open spec fn graphics_bit(flags: u32) -> bool {
    flags & 1u32 == 1u32
}

/// `contains` of `ash::vk::QueueFlags`, asked of the flags with the given
/// raw value about `QueueFlags::GRAPHICS`, whose raw value is 1: true when
/// every bit of the second set is among those of the first.
#[verifier::external_body]
fn queue_flags_contain_graphics(flags: u32) -> (found: bool)
    ensures
        found == graphics_bit(flags),
{
    ash::vk::QueueFlags::from_raw(flags).contains(ash::vk::QueueFlags::GRAPHICS)
}

/// One queue family of a device, as the driver reports it.
#[derive(Clone, Copy, Debug, PartialEq, Eq, Structural)]
pub struct QueueFamily {
    /// The capability flags, as a raw bit set.
    pub flags: u32,
    /// How many queues the family has.
    pub queue_count: u32,
}

impl QueueFamily {
    pub open spec fn spec_supports_graphics(self) -> bool {
        graphics_bit(self.flags)
    }

    /// Whether the family can run graphics work.
    #[verifier::when_used_as_spec(spec_supports_graphics)]
    pub fn supports_graphics(self) -> (capable: bool)
        ensures
            capable == self.spec_supports_graphics(),
    {
        queue_flags_contain_graphics(self.flags)
    }
}

/// Whether any family of the list can run graphics work.
pub open spec fn has_graphics_family(families: Seq<QueueFamily>) -> bool {
    exists|i: int| 0 <= i < families.len() && (#[trigger] families[i]).supports_graphics()
}

/// What `find_graphics_queue_family` answers: the position of the first
/// family that can run graphics work.
pub open spec fn is_first_graphics_family(families: Seq<QueueFamily>, index: int) -> bool {
    &&& 0 <= index < families.len()
    &&& families[index].supports_graphics()
    &&& forall|j: int| 0 <= j < index ==> !(#[trigger] families[j]).supports_graphics()
}

/// The index of the first queue family that can run graphics work, if
/// there is one.
pub fn find_graphics_queue_family(families: &Vec<QueueFamily>) -> (found: Option<u32>)
    requires
        families@.len() <= u32::MAX,
    ensures
        found is Some <==> has_graphics_family(families@),
        found is Some ==> is_first_graphics_family(families@, found->0 as int),
{
    let mut i: usize = 0;
    while i < families.len()
        invariant
            i <= families@.len() <= u32::MAX,
            forall|j: int| 0 <= j < i ==> !(#[trigger] families@[j]).supports_graphics(),
        decreases families@.len() - i,
    {
        if families[i].supports_graphics() {
            return Some(i as u32);
        }
        i += 1;
    }
    None
}

/// The fixed, ordered list of extensions that a device must support.
pub struct DeviceExtensionSet {
    names: Vec<String>,
}

impl View for DeviceExtensionSet {
    type V = Seq<Seq<char>>;

    closed spec fn view(&self) -> Seq<Seq<char>> {
        names_of(self.names@)
    }
}

impl DeviceExtensionSet {
    /// The list that device selection demands.
    pub fn required() -> (set: Self)
        ensures
            set@ == required_extension_names(),
    {
        let mut names: Vec<String> = Vec::new();
        names.push(String::from_str("VK_KHR_swapchain"));
        names.push(String::from_str("VK_KHR_dynamic_rendering"));
        names.push(String::from_str("VK_KHR_timeline_semaphore"));
        names.push(String::from_str("VK_KHR_synchronization2"));
        names.push(String::from_str("VK_EXT_extended_dynamic_state"));
        names.push(String::from_str("VK_EXT_extended_dynamic_state2"));
        names.push(String::from_str("VK_EXT_extended_dynamic_state3"));
        names.push(String::from_str("VK_EXT_vertex_input_dynamic_state"));
        names.push(String::from_str("VK_EXT_color_write_enable"));
        names.push(String::from_str("VK_EXT_descriptor_indexing"));
        names.push(String::from_str("VK_KHR_buffer_device_address"));
        names.push(String::from_str("VK_EXT_memory_budget"));
        names.push(String::from_str("VK_KHR_shader_float16_int8"));
        names.push(String::from_str("VK_KHR_shader_integer_dot_product"));
        names.push(String::from_str("VK_KHR_maintenance1"));
        names.push(String::from_str("VK_KHR_maintenance2"));
        names.push(String::from_str("VK_KHR_maintenance3"));
        names.push(String::from_str("VK_KHR_maintenance4"));
        names.push(String::from_str("VK_KHR_maintenance5"));
        names.push(String::from_str("VK_KHR_spirv_1_4"));
        names.push(String::from_str("VK_KHR_create_renderpass2"));
        DeviceExtensionSet { names }
    }

    /// A list of demanded extensions other than the fixed one, in the
    /// order given.
    pub fn from_names(names: Vec<String>) -> (set: Self)
        ensures
            set@ == names_of(names@),
    {
        DeviceExtensionSet { names }
    }

    /// How many names the list holds.
    pub fn len(&self) -> (n: usize)
        ensures
            n == self@.len(),
    {
        self.names.len()
    }

    /// The name at a position of the list.
    pub fn name(&self, index: usize) -> (name: &String)
        requires
            index < self@.len(),
        ensures
            name@ == self@[index as int],
    {
        &self.names[index]
    }

    /// Whether a list of extension names holds every name of this list.
    pub fn all_offered_by(&self, offered: &Vec<String>) -> (all: bool)
        ensures
            all == offers_all(names_of(offered@), self@),
    {
        let mut k: usize = 0;
        while k < self.names.len()
            invariant
                k <= self.names@.len(),
                forall|j: int| 0 <= j < k ==> names_of(offered@).contains(#[trigger] self@[j]),
            decreases self.names@.len() - k,
        {
            if !contains_name(offered, &self.names[k]) {
                assert(!names_of(offered@).contains(self@[k as int]));
                return false;
            }
            k += 1;
        }
        true
    }
}

/// Whether a list of names holds a given name, letter for letter.
pub fn contains_name(names: &Vec<String>, name: &String) -> (found: bool)
    ensures
        found == names_of(names@).contains(name@),
{
    let mut i: usize = 0;
    while i < names.len()
        invariant
            i <= names@.len(),
            forall|j: int| 0 <= j < i ==> names_of(names@)[j] != name@,
        decreases names@.len() - i,
    {
        if names[i] == *name {
            assert(names_of(names@)[i as int] == name@);
            return true;
        }
        i += 1;
    }
    false
}

/// What the driver reports of one physical device.
pub struct DeviceCandidate {
    /// The packed API version that the device supports.
    pub api_version: u32,
    /// The queue families, in the order of their indices.
    pub queue_families: Vec<QueueFamily>,
    /// The names of the supported device extensions.
    pub extensions: Vec<String>,
}

impl DeviceCandidate {
    /// The device passes all three gates: its API version is at least the
    /// minimum, one of its queue families can run graphics work, and it
    /// supports every required extension.
    pub open spec fn spec_is_suitable(&self) -> bool {
        self.meets(required_extension_names())
    }

    /// The three gates, for any list of demanded extensions.
    pub open spec fn meets(&self, demanded: Seq<Seq<char>>) -> bool {
        &&& self.api_version >= MINIMUM_API_VERSION
        &&& has_graphics_family(self.queue_families@)
        &&& offers_all(names_of(self.extensions@), demanded)
    }

    /// Whether the device passes the three gates, with the given list of
    /// demanded extensions.
    pub fn is_suitable(&self, required: &DeviceExtensionSet) -> (suitable: bool)
        ensures
            suitable == self.meets(required@),
            required@ == required_extension_names() ==> suitable == self.spec_is_suitable(),
    {
        if self.api_version < minimum_api_version() {
            return false;
        }
        let mut i: usize = 0;
        let mut graphics = false;
        while i < self.queue_families.len() && !graphics
            invariant
                i <= self.queue_families@.len(),
                graphics ==> has_graphics_family(self.queue_families@),
                !graphics ==> forall|j: int|
                    0 <= j < i ==> !(#[trigger] self.queue_families@[j]).supports_graphics(),
            decreases self.queue_families@.len() - i + if graphics { 0int } else { 1int },
        {
            if self.queue_families[i].supports_graphics() {
                graphics = true;
            } else {
                i += 1;
            }
        }
        if !graphics {
            return false;
        }
        required.all_offered_by(&self.extensions)
    }
}

/// What device selection answers with: no device before the chosen one is
/// suitable, and the chosen one is.
pub open spec fn is_first_suitable(candidates: Seq<DeviceCandidate>, index: int) -> bool {
    &&& 0 <= index < candidates.len()
    &&& candidates[index].spec_is_suitable()
    &&& forall|j: int| 0 <= j < index ==> !(#[trigger] candidates[j]).spec_is_suitable()
}

/// Whether any device of the list may be selected.
pub open spec fn has_suitable(candidates: Seq<DeviceCandidate>) -> bool {
    exists|i: int| 0 <= i < candidates.len() && (#[trigger] candidates[i]).spec_is_suitable()
}

/// Selects the physical device: the first, in the order of enumeration,
/// that is suitable. The answer is its position in the list. Where no
/// device is suitable, and so where the list is empty, the device is not
/// found.
pub fn pick_physical_device(candidates: &Vec<DeviceCandidate>) -> (picked: Result<usize, SetupError>)
    ensures
        picked is Ok <==> has_suitable(candidates@),
        picked is Ok ==> is_first_suitable(candidates@, picked->Ok_0 as int),
        picked is Err ==> picked->Err_0 == SetupError::DeviceNotFound,
{
    let required = DeviceExtensionSet::required();
    let mut i: usize = 0;
    while i < candidates.len()
        invariant
            i <= candidates@.len(),
            required@ == required_extension_names(),
            forall|j: int| 0 <= j < i ==> !(#[trigger] candidates@[j]).spec_is_suitable(),
        decreases candidates@.len() - i,
    {
        if candidates[i].is_suitable(&required) {
            return Ok(i);
        }
        i += 1;
    }
    Err(SetupError::DeviceNotFound)
}

/// What the logical device is created with.
#[derive(Clone, Copy, Debug, PartialEq, Eq, Structural)]
pub struct LogicalDeviceRequest {
    /// The queue family from which the queue is taken.
    pub queue_family_index: u32,
    /// How many queues are asked of that family.
    pub queue_count: u32,
    /// The optional capabilities that are switched on.
    pub features: DeviceFeatures,
}

/// The request for the logical device of a selected physical device.
///
/// `present_supported` says whether the first queue family that can run
/// graphics work can also present to the target surface. A device without
/// such a family was not to be selected, and is not found; a family that
/// cannot present ends the pipeline, since no other family is looked for.
/// Otherwise exactly one queue of that family is asked for, with every
/// optional capability switched on.
pub fn create_logical_device(families: &Vec<QueueFamily>, present_supported: bool) -> (request: Result<
    LogicalDeviceRequest,
    SetupError,
>)
    requires
        families@.len() <= u32::MAX,
    ensures
        !has_graphics_family(families@) ==> request == Err::<LogicalDeviceRequest, SetupError>(
            SetupError::DeviceNotFound,
        ),
        has_graphics_family(families@) && !present_supported ==> request == Err::<
            LogicalDeviceRequest,
            SetupError,
        >(SetupError::PresentationUnsupported),
        has_graphics_family(families@) && present_supported ==> {
            &&& request is Ok
            &&& is_first_graphics_family(families@, request->Ok_0.queue_family_index as int)
            &&& request->Ok_0.queue_count == 1
            &&& request->Ok_0.features == DeviceFeatures::uniform(true)
        },
{
    match find_graphics_queue_family(families) {
        None => Err(SetupError::DeviceNotFound),
        Some(graphics_index) => {
            if !present_supported {
                Err(SetupError::PresentationUnsupported)
            } else {
                Ok(
                    LogicalDeviceRequest {
                        queue_family_index: graphics_index,
                        queue_count: 1,
                        features: DeviceFeatures::requested(),
                    },
                )
            }
        },
    }
}

/// Selection is determined by the list alone: no two positions are both
/// the first suitable one.
pub proof fn law_selection_is_unique(candidates: Seq<DeviceCandidate>, first: int, second: int)
    requires
        is_first_suitable(candidates, first),
        is_first_suitable(candidates, second),
    ensures
        first == second,
{
}

/// A device whose API version lies below the minimum is never selected,
/// whatever else it offers and wherever it stands in the list.
pub proof fn law_version_gate(candidates: Seq<DeviceCandidate>, index: int)
    requires
        0 <= index < candidates.len(),
        candidates[index].api_version < MINIMUM_API_VERSION,
    ensures
        !is_first_suitable(candidates, index),
{
}

/// A suitable device is selected at whatever position it stands, as long
/// as every device before it fails a gate; what follows it plays no part.
pub proof fn law_first_match_wins(candidates: Seq<DeviceCandidate>, index: int)
    requires
        0 <= index < candidates.len(),
        candidates[index].spec_is_suitable(),
        forall|j: int| 0 <= j < index ==> !(#[trigger] candidates[j]).spec_is_suitable(),
    ensures
        has_suitable(candidates),
        is_first_suitable(candidates, index),
        forall|other: Seq<DeviceCandidate>|
            other.len() >= index + 1 && other.take(index + 1) == candidates.take(index + 1)
                ==> is_first_suitable(other, index),
{
    assert forall|other: Seq<DeviceCandidate>|
        other.len() >= index + 1 && other.take(index + 1) == candidates.take(
            index + 1,
        ) implies is_first_suitable(other, index) by {
        assert(candidates[index] == candidates.take(index + 1)[index]);
        assert forall|j: int| 0 <= j < index implies !(#[trigger] other[j]).spec_is_suitable() by {
            assert(candidates[j] == candidates.take(index + 1)[j]);
        }
    }
}

/// Selection keeps the order of enumeration: putting a device that fails
/// a gate in front of a list moves the selected position on by one.
pub proof fn law_selection_preserves_order(
    unsuitable: DeviceCandidate,
    candidates: Seq<DeviceCandidate>,
    index: int,
)
    requires
        !unsuitable.spec_is_suitable(),
        is_first_suitable(candidates, index),
    ensures
        is_first_suitable(seq![unsuitable] + candidates, index + 1),
{
}

} // verus!
