//! The policies by which the swapchain is configured: which surface format,
//! which present mode, which extent and how many images.
//!
//! Formats and present modes arrive as the raw numbers of the graphics API;
//! the constants they are held against are those of `ash`.

use vstd::prelude::*;
use crate::error::SetupError;

verus! {

/// The raw number of the format with eight bits for each of red, green,
/// blue and alpha, sRGB-encoded.
pub const FORMAT_R8G8B8A8_SRGB: i32 = 43;

/// The raw number of the non-linear sRGB colour space.
pub const COLOR_SPACE_SRGB_NONLINEAR: i32 = 0;

/// The extent that a surface reports when it leaves the size to the
/// swapchain: both sides at the largest value a `u32` holds.
pub const UNDEFINED_EXTENT_SIDE: u32 = 0xffff_ffff;

/// The number of images that the renderer would like to cycle through.
pub const PREFERRED_IMAGE_COUNT: u32 = 3;

/// `as_raw` of `ash::vk::Format`, applied to its constant `R8G8B8A8_SRGB`,
/// which `ash` defines with the raw number 43.
#[verifier::external_body]
fn srgb_rgba8_format() -> (raw: i32)
    ensures
        raw == FORMAT_R8G8B8A8_SRGB,
{
    ash::vk::Format::R8G8B8A8_SRGB.as_raw()
}

/// `as_raw` of `ash::vk::ColorSpaceKHR`, applied to its constant
/// `SRGB_NONLINEAR`, which `ash` defines with the raw number 0.
#[verifier::external_body]
fn srgb_nonlinear_color_space() -> (raw: i32)
    ensures
        raw == COLOR_SPACE_SRGB_NONLINEAR,
{
    ash::vk::ColorSpaceKHR::SRGB_NONLINEAR.as_raw()
}

/// A width and a height in pixels.
#[derive(Clone, Copy, Debug, PartialEq, Eq, Structural)]
pub struct Extent {
    pub width: u32,
    pub height: u32,
}

impl Extent {
    pub open spec fn spec_is_undefined(self) -> bool {
        self.width == UNDEFINED_EXTENT_SIDE && self.height == UNDEFINED_EXTENT_SIDE
    }

    /// Whether this is the value by which a surface says that it has no
    /// extent of its own.
    #[verifier::when_used_as_spec(spec_is_undefined)]
    pub fn is_undefined(self) -> (undefined: bool)
        ensures
            undefined == self.spec_is_undefined(),
    {
        self.width == UNDEFINED_EXTENT_SIDE && self.height == UNDEFINED_EXTENT_SIDE
    }
}

/// One report of the window's size in pixels, as the window host sends it.
#[derive(Clone, Copy, Debug, PartialEq, Eq, Structural)]
pub struct SizeEvent {
    pub width: u32,
    pub height: u32,
}

/// A pixel format together with the colour space in which it is shown,
/// both as raw numbers of the graphics API.
#[derive(Clone, Copy, Debug, PartialEq, Eq, Structural)]
pub struct SurfaceFormat {
    pub format: i32,
    pub color_space: i32,
}

impl SurfaceFormat {
    pub open spec fn spec_is_preferred(self) -> bool {
        self.format == FORMAT_R8G8B8A8_SRGB && self.color_space == COLOR_SPACE_SRGB_NONLINEAR
    }

    /// Whether this is the format the renderer wants: sRGB-encoded RGBA of
    /// eight bits each, in the non-linear sRGB colour space.
    #[verifier::when_used_as_spec(spec_is_preferred)]
    pub fn is_preferred(self) -> (preferred: bool)
        ensures
            preferred == self.spec_is_preferred(),
    {
        self.format == srgb_rgba8_format() && self.color_space == srgb_nonlinear_color_space()
    }
}

/// Whether a list of formats holds the preferred one.
pub open spec fn offers_preferred_format(formats: Seq<SurfaceFormat>) -> bool {
    exists|i: int| 0 <= i < formats.len() && (#[trigger] formats[i]).is_preferred()
}

/// The format that the policy picks from a list that is not empty: the
/// preferred one where the list holds it, else the first entry.
pub open spec fn chosen_format(formats: Seq<SurfaceFormat>) -> SurfaceFormat {
    if offers_preferred_format(formats) {
        SurfaceFormat { format: FORMAT_R8G8B8A8_SRGB, color_space: COLOR_SPACE_SRGB_NONLINEAR }
    } else {
        formats[0]
    }
}

/// Picks the surface format: the preferred one wherever it stands in the
/// list, and the first entry of the list where it does not occur.
pub fn choose_swapchain_surface_format(formats: &Vec<SurfaceFormat>) -> (chosen: SurfaceFormat)
    requires
        formats@.len() > 0,
    ensures
        chosen == chosen_format(formats@),
{
    let mut i: usize = 0;
    while i < formats.len()
        invariant
            i <= formats@.len(),
            forall|j: int| 0 <= j < i ==> !(#[trigger] formats@[j]).is_preferred(),
        decreases formats@.len() - i,
    {
        if formats[i].is_preferred() {
            return formats[i];
        }
        i += 1;
    }
    formats[0]
}

/// How rendered images are queued for display.
#[derive(Clone, Copy, Debug, PartialEq, Eq, Structural)]
pub enum PresentMode {
    /// Images are shown at once: lowest latency, visible tearing.
    Immediate,
    /// A single-entry queue whose entry is replaced by a newer image.
    Mailbox,
    /// A queue emptied at each vertical blank.
    Fifo,
    /// As `Fifo`, but a late image is shown at once.
    FifoRelaxed,
}

/// The present mode that a raw number of the graphics API stands for.
pub open spec fn present_mode_of_raw(raw: i32) -> Option<PresentMode> {
    if raw == 0 {
        Some(PresentMode::Immediate)
    } else if raw == 1 {
        Some(PresentMode::Mailbox)
    } else if raw == 2 {
        Some(PresentMode::Fifo)
    } else if raw == 3 {
        Some(PresentMode::FifoRelaxed)
    } else {
        None
    }
}

/// Tells the constants of `ash::vk::PresentModeKHR` apart: `IMMEDIATE` has
/// the raw number 0, `MAILBOX` 1, `FIFO` 2 and `FIFO_RELAXED` 3. Any other
/// number is a mode that the renderer does not use.
#[verifier::external_body]
fn present_mode_from_ash(raw: i32) -> (mode: Option<PresentMode>)
    ensures
        mode == present_mode_of_raw(raw),
{
    match ash::vk::PresentModeKHR::from_raw(raw) {
        ash::vk::PresentModeKHR::IMMEDIATE => Some(PresentMode::Immediate),
        ash::vk::PresentModeKHR::MAILBOX => Some(PresentMode::Mailbox),
        ash::vk::PresentModeKHR::FIFO => Some(PresentMode::Fifo),
        ash::vk::PresentModeKHR::FIFO_RELAXED => Some(PresentMode::FifoRelaxed),
        _ => None,
    }
}

impl PresentMode {
    /// The mode that a raw number of the graphics API stands for, if it is
    /// one of the four that the renderer chooses among.
    pub fn from_raw(raw: i32) -> (mode: Option<PresentMode>)
        ensures
            mode == present_mode_of_raw(raw),
    {
        present_mode_from_ash(raw)
    }

    pub open spec fn spec_raw(self) -> i32 {
        match self {
            PresentMode::Immediate => 0,
            PresentMode::Mailbox => 1,
            PresentMode::Fifo => 2,
            PresentMode::FifoRelaxed => 3,
        }
    }

    /// The raw number of the mode.
    #[verifier::when_used_as_spec(spec_raw)]
    pub fn raw(self) -> (raw: i32)
        ensures
            raw == self.spec_raw(),
            present_mode_of_raw(raw) == Some(self),
    {
        match self {
            PresentMode::Immediate => 0,
            PresentMode::Mailbox => 1,
            PresentMode::Fifo => 2,
            PresentMode::FifoRelaxed => 3,
        }
    }

    /// What the operator is told when this mode was chosen.
    pub open spec fn spec_warning(self) -> Option<Seq<char>> {
        match self {
            PresentMode::Mailbox => None,
            PresentMode::Fifo => Some(
                "mailbox presentation is unavailable: vertical sync is on"@,
            ),
            PresentMode::FifoRelaxed => Some(
                "mailbox and fifo presentation are unavailable: vertical sync is on, and a late frame may tear"@,
            ),
            PresentMode::Immediate => Some(
                "only immediate presentation is available: lowest latency, but frames will tear"@,
            ),
        }
    }

    /// The warning that goes with a choice below `Mailbox`, which names the
    /// trade-off; `Mailbox` itself has none.
    pub fn warning(self) -> (text: Option<&'static str>)
        ensures
            text is Some <==> self != PresentMode::Mailbox,
            match text {
                Some(t) => self.spec_warning() == Some(t@),
                None => self.spec_warning() is None,
            },
    {
        match self {
            PresentMode::Mailbox => None,
            PresentMode::Fifo => Some("mailbox presentation is unavailable: vertical sync is on"),
            PresentMode::FifoRelaxed => Some(
                "mailbox and fifo presentation are unavailable: vertical sync is on, and a late frame may tear",
            ),
            PresentMode::Immediate => Some(
                "only immediate presentation is available: lowest latency, but frames will tear",
            ),
        }
    }
}

/// The mode that the policy picks: the first of `Mailbox`, `Fifo`,
/// `FifoRelaxed`, `Immediate` that the list holds.
pub open spec fn preferred_present_mode(modes: Seq<PresentMode>) -> Option<PresentMode> {
    if modes.contains(PresentMode::Mailbox) {
        Some(PresentMode::Mailbox)
    } else if modes.contains(PresentMode::Fifo) {
        Some(PresentMode::Fifo)
    } else if modes.contains(PresentMode::FifoRelaxed) {
        Some(PresentMode::FifoRelaxed)
    } else if modes.contains(PresentMode::Immediate) {
        Some(PresentMode::Immediate)
    } else {
        None
    }
}

/// Whether a list of modes holds a given one.
pub fn offers_mode(modes: &Vec<PresentMode>, wanted: PresentMode) -> (found: bool)
    ensures
        found == modes@.contains(wanted),
{
    let mut i: usize = 0;
    while i < modes.len()
        invariant
            i <= modes@.len(),
            forall|j: int| 0 <= j < i ==> modes@[j] != wanted,
        decreases modes@.len() - i,
    {
        if modes[i] == wanted {
            return true;
        }
        i += 1;
    }
    false
}

/// Picks the present mode by the fixed order of preference, whatever the
/// order of the list. Only an empty list leaves nothing to pick.
pub fn choose_swapchain_present_mode(modes: &Vec<PresentMode>) -> (chosen: Option<PresentMode>)
    ensures
        chosen == preferred_present_mode(modes@),
        chosen is None <==> modes@.len() == 0,
{
    assert(modes@.len() > 0 ==> modes@.contains(modes@[0]));
    if offers_mode(modes, PresentMode::Mailbox) {
        Some(PresentMode::Mailbox)
    } else if offers_mode(modes, PresentMode::Fifo) {
        Some(PresentMode::Fifo)
    } else if offers_mode(modes, PresentMode::FifoRelaxed) {
        Some(PresentMode::FifoRelaxed)
    } else if offers_mode(modes, PresentMode::Immediate) {
        Some(PresentMode::Immediate)
    } else {
        None
    }
}

/// What the device reports of a surface, as far as the swapchain is
/// configured from it.
#[derive(Clone, Copy, Debug, PartialEq, Eq, Structural)]
pub struct SurfaceCapabilities {
    /// The fewest images a swapchain may have.
    pub min_image_count: u32,
    /// The most images a swapchain may have; zero means no limit.
    pub max_image_count: u32,
    /// The surface's own extent, or the undefined value.
    pub current_extent: Extent,
    /// The transform that the surface applies at present, as raw flags.
    pub current_transform: u32,
}

/// The larger of the preferred image count and the minimum, brought down
/// to the maximum where there is one.
pub open spec fn image_count_for(min_image_count: u32, max_image_count: u32) -> u32 {
    let wanted = if min_image_count > PREFERRED_IMAGE_COUNT {
        min_image_count
    } else {
        PREFERRED_IMAGE_COUNT
    };
    if max_image_count > 0 && wanted > max_image_count {
        max_image_count
    } else {
        wanted
    }
}

/// The extent that the policy settles on: the surface's own where it has
/// one, whatever the window host has sent; else the size that was received.
pub open spec fn resolved_extent(current: Extent, received: Option<SizeEvent>) -> Result<
    Extent,
    SetupError,
> {
    if !current.is_undefined() {
        Ok(current)
    } else {
        match received {
            Some(size) => Ok(Extent { width: size.width, height: size.height }),
            None => Err(SetupError::HandshakeBroken),
        }
    }
}

impl SurfaceCapabilities {
    /// How many images the swapchain is created with.
    pub fn image_count(&self) -> (count: u32)
        ensures
            count == image_count_for(self.min_image_count, self.max_image_count),
    {
        let wanted: u32 = if self.min_image_count > PREFERRED_IMAGE_COUNT {
            self.min_image_count
        } else {
            PREFERRED_IMAGE_COUNT
        };
        if self.max_image_count > 0 && wanted > self.max_image_count {
            self.max_image_count
        } else {
            wanted
        }
    }

    /// Whether the extent has to come from the window host: true exactly
    /// when the surface reports the undefined extent. Only then does the
    /// renderer wait for a size event.
    pub fn needs_size_event(&self) -> (needed: bool)
        ensures
            needed == self.current_extent.is_undefined(),
    {
        self.current_extent.is_undefined()
    }
}

/// Settles the extent of the swapchain. `received` is what the wait for
/// one size event brought, where there was a wait: the event, or nothing
/// if the window host went away first. A surface with an extent of its own
/// keeps it, and what was received plays no part.
pub fn choose_swapchain_extent(capabilities: &SurfaceCapabilities, received: Option<SizeEvent>) -> (extent:
    Result<Extent, SetupError>)
    ensures
        extent == resolved_extent(capabilities.current_extent, received),
{
    if !capabilities.current_extent.is_undefined() {
        return Ok(capabilities.current_extent);
    }
    match received {
        Some(size) => Ok(Extent { width: size.width, height: size.height }),
        None => Err(SetupError::HandshakeBroken),
    }
}

/// What the images of the swapchain are used for.
#[derive(Clone, Copy, Debug, PartialEq, Eq, Structural)]
pub enum ImageUsage {
    ColorAttachment,
}

/// Who may access the images of the swapchain.
#[derive(Clone, Copy, Debug, PartialEq, Eq, Structural)]
pub enum SharingMode {
    /// One queue family at a time.
    Exclusive,
    /// Several queue families at once.
    Concurrent,
}

/// How the alpha channel is treated when the surface is composited.
#[derive(Clone, Copy, Debug, PartialEq, Eq, Structural)]
pub enum CompositeAlpha {
    Opaque,
    PreMultiplied,
    PostMultiplied,
    Inherit,
}

/// What the swapchain is created with.
#[derive(Clone, Copy, Debug, PartialEq, Eq, Structural)]
pub struct SwapchainRequest {
    pub min_image_count: u32,
    pub format: SurfaceFormat,
    pub extent: Extent,
    pub array_layers: u32,
    pub usage: ImageUsage,
    pub sharing: SharingMode,
    pub pre_transform: u32,
    pub composite_alpha: CompositeAlpha,
    pub present_mode: PresentMode,
    pub clipped: bool,
    /// Whether an earlier swapchain is handed over for reuse.
    pub replaces_previous: bool,
}

/// The request that the policies yield, or the failure that ends the stage:
/// no present mode at all, or an extent that never arrived.
pub open spec fn planned_swapchain(
    capabilities: SurfaceCapabilities,
    formats: Seq<SurfaceFormat>,
    modes: Seq<PresentMode>,
    received: Option<SizeEvent>,
) -> Result<SwapchainRequest, SetupError> {
    match preferred_present_mode(modes) {
        None => Err(SetupError::SwapchainCreationFailure),
        Some(mode) => match resolved_extent(capabilities.current_extent, received) {
            Err(e) => Err(e),
            Ok(extent) => Ok(
                SwapchainRequest {
                    min_image_count: image_count_for(
                        capabilities.min_image_count,
                        capabilities.max_image_count,
                    ),
                    format: chosen_format(formats),
                    extent,
                    array_layers: 1,
                    usage: ImageUsage::ColorAttachment,
                    sharing: SharingMode::Exclusive,
                    pre_transform: capabilities.current_transform,
                    composite_alpha: CompositeAlpha::Opaque,
                    present_mode: mode,
                    clipped: true,
                    replaces_previous: false,
                },
            ),
        },
    }
}

/// Configures the swapchain from what the device reports of the surface.
///
/// The formats come as the device lists them and must not be empty. The
/// modes are those among the listed ones that `PresentMode::from_raw`
/// knows. `received` is the outcome of the wait for a size event, which
/// takes place only where `needs_size_event` says so.
pub fn create_swapchain(
    capabilities: &SurfaceCapabilities,
    formats: &Vec<SurfaceFormat>,
    modes: &Vec<PresentMode>,
    received: Option<SizeEvent>,
) -> (request: Result<SwapchainRequest, SetupError>)
    requires
        formats@.len() > 0,
    ensures
        request == planned_swapchain(*capabilities, formats@, modes@, received),
{
    let format = choose_swapchain_surface_format(formats);
    let present_mode = match choose_swapchain_present_mode(modes) {
        Some(mode) => mode,
        None => {
            return Err(SetupError::SwapchainCreationFailure);
        },
    };
    let extent = match choose_swapchain_extent(capabilities, received) {
        Ok(extent) => extent,
        Err(e) => {
            return Err(e);
        },
    };
    Ok(
        SwapchainRequest {
            min_image_count: capabilities.image_count(),
            format,
            extent,
            array_layers: 1,
            usage: ImageUsage::ColorAttachment,
            sharing: SharingMode::Exclusive,
            pre_transform: capabilities.current_transform,
            composite_alpha: CompositeAlpha::Opaque,
            present_mode,
            clipped: true,
            replaces_previous: false,
        },
    )
}

/// The present modes among a list of raw numbers, in the order of the
/// list; numbers that stand for no mode the renderer uses are left out.
pub open spec fn known_present_modes(raws: Seq<i32>) -> Seq<PresentMode>
    decreases raws.len(),
{
    if raws.len() == 0 {
        Seq::<PresentMode>::empty()
    } else {
        let rest = known_present_modes(raws.drop_last());
        match present_mode_of_raw(raws.last()) {
            Some(mode) => rest.push(mode),
            None => rest,
        }
    }
}

/// Reads the present modes that a device lists.
pub fn present_modes_from_raw(raws: &Vec<i32>) -> (modes: Vec<PresentMode>)
    ensures
        modes@ == known_present_modes(raws@),
{
    let mut modes: Vec<PresentMode> = Vec::new();
    let mut i: usize = 0;
    while i < raws.len()
        invariant
            i <= raws@.len(),
            modes@ == known_present_modes(raws@.take(i as int)),
        decreases raws@.len() - i,
    {
        proof {
            assert(raws@.take(i + 1).drop_last() =~= raws@.take(i as int));
        }
        if let Some(mode) = PresentMode::from_raw(raws[i]) {
            modes.push(mode);
        }
        i += 1;
    }
    proof {
        assert(raws@.take(raws@.len() as int) =~= raws@);
    }
    modes
}

/// The preferred format is chosen wherever it stands in the list.
pub proof fn law_preferred_format_wins(formats: Seq<SurfaceFormat>, index: int)
    requires
        0 <= index < formats.len(),
        formats[index].is_preferred(),
    ensures
        chosen_format(formats) == formats[index],
{
}

/// The chosen format does not depend on the order of the list, as long as
/// the list holds the preferred format: two lists with the same entries
/// yield the same choice.
pub proof fn law_format_choice_ignores_order(first: Seq<SurfaceFormat>, second: Seq<SurfaceFormat>)
    requires
        offers_preferred_format(first),
        first.to_multiset() == second.to_multiset(),
    ensures
        chosen_format(first) == chosen_format(second),
{
    broadcast use vstd::seq_lib::group_to_multiset_ensures;

    let i = choose|i: int| 0 <= i < first.len() && (#[trigger] first[i]).is_preferred();
    assert(second.to_multiset().count(first[i]) > 0);
}

/// Without the preferred format in the list, the first entry is chosen.
pub proof fn law_format_fallback(formats: Seq<SurfaceFormat>)
    requires
        formats.len() > 0,
        !offers_preferred_format(formats),
    ensures
        chosen_format(formats) == formats[0],
{
}

/// The place of a present mode in the order of preference; the smaller,
/// the better.
pub open spec fn preference_rank(mode: PresentMode) -> nat {
    match mode {
        PresentMode::Mailbox => 0,
        PresentMode::Fifo => 1,
        PresentMode::FifoRelaxed => 2,
        PresentMode::Immediate => 3,
    }
}

/// The chosen present mode is one that the list holds, and no mode of the
/// list stands before it in the order of preference.
pub proof fn law_present_mode_is_best_offered(modes: Seq<PresentMode>)
    requires
        modes.len() > 0,
    ensures
        preferred_present_mode(modes) is Some,
        modes.contains(preferred_present_mode(modes)->0),
        forall|i: int|
            0 <= i < modes.len() ==> preference_rank(preferred_present_mode(modes)->0)
                <= preference_rank(#[trigger] modes[i]),
{
    assert(modes.contains(modes[0]));
}

/// The chosen present mode does not depend on the order of the list, nor
/// on how often a mode occurs in it: two lists that hold the same modes
/// yield the same choice.
pub proof fn law_present_mode_ignores_order(first: Seq<PresentMode>, second: Seq<PresentMode>)
    requires
        forall|mode: PresentMode| first.contains(mode) <==> second.contains(mode),
    ensures
        preferred_present_mode(first) == preferred_present_mode(second),
{
}

/// A surface with an extent of its own keeps it, whatever was received; a
/// surface without one takes exactly the size that was received.
pub proof fn law_extent_resolution(current: Extent, received: Option<SizeEvent>, size: SizeEvent)
    ensures
        !current.is_undefined() ==> resolved_extent(current, received) == Ok::<Extent, SetupError>(
            current,
        ),
        current.is_undefined() ==> resolved_extent(current, Some(size)) == Ok::<
            Extent,
            SetupError,
        >(Extent { width: size.width, height: size.height }),
        current.is_undefined() ==> resolved_extent(current, None) == Err::<Extent, SetupError>(
            SetupError::HandshakeBroken,
        ),
{
}

/// The image count is at least the minimum and at least three, unless a
/// maximum stands against it; with a maximum, it is that at most.
pub proof fn law_image_count_bounds(min_image_count: u32, max_image_count: u32)
    ensures
        max_image_count > 0 ==> image_count_for(min_image_count, max_image_count)
            <= max_image_count,
        max_image_count == 0 || min_image_count <= max_image_count ==> image_count_for(
            min_image_count,
            max_image_count,
        ) >= min_image_count,
        max_image_count == 0 || max_image_count >= PREFERRED_IMAGE_COUNT ==> image_count_for(
            min_image_count,
            max_image_count,
        ) >= PREFERRED_IMAGE_COUNT,
{
}

} // verus!
