//! The chain of graphics resources: in which order it is acquired, what
//! depends on what, and in which order it is released.
//!
//! The set owns one handle for each resource that has been created. What a
//! handle is, the library does not ask: it keeps the handles, and gives
//! them back in the order in which they have to be destroyed.

use vstd::prelude::*;
use std::sync::mpsc::Receiver;
use crate::error::SetupError;
use crate::signal::AppState;

verus! {

/// The receiving end of a channel of the standard library. The library
/// holds it and reads from it, and knows nothing of what it will yield.
#[verifier::external_type_specification]
#[verifier::external_body]
#[verifier::reject_recursive_types(T)]
pub struct ExReceiver<T>(Receiver<T>);

/// A resource that the set owns and that has to be destroyed.
#[derive(Clone, Copy, Debug, PartialEq, Eq, Structural)]
pub enum Resource {
    Instance,
    DebugSink,
    LogicalDevice,
    Surface,
    Swapchain,
}

/// A stage of the acquisition pipeline. The physical device is selected,
/// not created: its stage adds nothing that would have to be destroyed.
#[derive(Clone, Copy, Debug, PartialEq, Eq, Structural)]
pub enum Stage {
    Instance,
    DebugSink,
    PhysicalDevice,
    LogicalDevice,
    Surface,
    Swapchain,
}

impl Resource {
    /// The place of a resource in the order of destruction: the swapchain
    /// goes first and the instance last.
    pub open spec fn teardown_rank(self) -> nat {
        match self {
            Resource::Swapchain => 0,
            Resource::Surface => 1,
            Resource::LogicalDevice => 2,
            Resource::DebugSink => 3,
            Resource::Instance => 4,
        }
    }

    /// Whether `self` needs `other` for as long as it lives. Everything
    /// needs the instance; the swapchain also needs the surface and the
    /// logical device.
    pub open spec fn depends_on(self, other: Resource) -> bool {
        match self {
            Resource::Instance => false,
            Resource::DebugSink => other == Resource::Instance,
            Resource::LogicalDevice => other == Resource::Instance,
            Resource::Surface => other == Resource::Instance,
            Resource::Swapchain => other == Resource::Surface || other == Resource::LogicalDevice
                || other == Resource::Instance,
        }
    }

    /// The stage that creates the resource.
    pub open spec fn spec_stage(self) -> Stage {
        match self {
            Resource::Instance => Stage::Instance,
            Resource::DebugSink => Stage::DebugSink,
            Resource::LogicalDevice => Stage::LogicalDevice,
            Resource::Surface => Stage::Surface,
            Resource::Swapchain => Stage::Swapchain,
        }
    }

    #[verifier::when_used_as_spec(spec_stage)]
    pub fn stage(self) -> (stage: Stage)
        ensures
            stage == self.spec_stage(),
    {
        match self {
            Resource::Instance => Stage::Instance,
            Resource::DebugSink => Stage::DebugSink,
            Resource::LogicalDevice => Stage::LogicalDevice,
            Resource::Surface => Stage::Surface,
            Resource::Swapchain => Stage::Swapchain,
        }
    }
}

impl Stage {
    /// The resource that the stage creates, if it creates one.
    pub open spec fn spec_resource(self) -> Option<Resource> {
        match self {
            Stage::Instance => Some(Resource::Instance),
            Stage::DebugSink => Some(Resource::DebugSink),
            Stage::PhysicalDevice => None,
            Stage::LogicalDevice => Some(Resource::LogicalDevice),
            Stage::Surface => Some(Resource::Surface),
            Stage::Swapchain => Some(Resource::Swapchain),
        }
    }

    #[verifier::when_used_as_spec(spec_resource)]
    pub fn resource(self) -> (resource: Option<Resource>)
        ensures
            resource == self.spec_resource(),
    {
        match self {
            Stage::Instance => Some(Resource::Instance),
            Stage::DebugSink => Some(Resource::DebugSink),
            Stage::PhysicalDevice => None,
            Stage::LogicalDevice => Some(Resource::LogicalDevice),
            Stage::Surface => Some(Resource::Surface),
            Stage::Swapchain => Some(Resource::Swapchain),
        }
    }

    /// The failure that is reported when the driver rejects the stage's
    /// request. The debug sink hangs on the instance and shares its
    /// failure; a selection that finds nothing is a device not found.
    pub open spec fn spec_failure(self) -> SetupError {
        match self {
            Stage::Instance => SetupError::InstanceCreationFailure,
            Stage::DebugSink => SetupError::InstanceCreationFailure,
            Stage::PhysicalDevice => SetupError::DeviceNotFound,
            Stage::LogicalDevice => SetupError::LogicalDeviceCreationFailure,
            Stage::Surface => SetupError::SurfaceCreationFailure,
            Stage::Swapchain => SetupError::SwapchainCreationFailure,
        }
    }

    #[verifier::when_used_as_spec(spec_failure)]
    pub fn failure(self) -> (error: SetupError)
        ensures
            error == self.spec_failure(),
    {
        match self {
            Stage::Instance => SetupError::InstanceCreationFailure,
            Stage::DebugSink => SetupError::InstanceCreationFailure,
            Stage::PhysicalDevice => SetupError::DeviceNotFound,
            Stage::LogicalDevice => SetupError::LogicalDeviceCreationFailure,
            Stage::Surface => SetupError::SurfaceCreationFailure,
            Stage::Swapchain => SetupError::SwapchainCreationFailure,
        }
    }
}

/// The renderer's end of the channel that carries lifecycle signals, once
/// the window host has handed it over.
pub struct WindowCommunication(pub Option<Receiver<AppState>>);

/// `Receiver::recv` of the standard library's channel: it waits for the
/// next value, and fails once the sender is gone and nothing is left to
/// read. Which of the two happens, and which value arrives, is up to the
/// sender: nothing is claimed of the result.
#[verifier::external_body]
fn receive_signal(receiver: &Receiver<AppState>) -> (signal: Option<AppState>) {
    match receiver.recv() {
        Ok(state) => Some(state),
        Err(_) => None,
    }
}

impl WindowCommunication {
    /// A renderer that has not been given its end of the channel yet.
    pub fn disconnected() -> (communication: Self)
        ensures
            !communication.is_connected(),
            communication.0 is None,
    {
        WindowCommunication(None)
    }

    /// A renderer that holds its end of the channel.
    pub fn connected(receiver: Receiver<AppState>) -> (communication: Self)
        ensures
            communication.is_connected(),
            communication.0 == Some(receiver),
    {
        WindowCommunication(Some(receiver))
    }

    pub open spec fn spec_is_connected(&self) -> bool {
        self.0 is Some
    }

    /// Whether the renderer holds its end of the channel.
    #[verifier::when_used_as_spec(spec_is_connected)]
    pub fn is_connected(&self) -> (connected: bool)
        ensures
            connected == self.spec_is_connected(),
    {
        self.0.is_some()
    }

    /// Waits for the next lifecycle signal. A sender that has gone away
    /// breaks the handshake; everything else is up to the window host.
    pub fn next_signal(&self) -> (signal: Result<AppState, SetupError>)
        requires
            self.is_connected(),
        ensures
            signal is Err ==> signal->Err_0 == SetupError::HandshakeBroken,
    {
        match &self.0 {
            Some(receiver) => signal_or_broken(receive_signal(receiver)),
            None => Err(SetupError::HandshakeBroken),
        }
    }
}

/// What a wait on the signal channel amounts to: the signal that arrived,
/// or a broken handshake where the sender had gone away.
pub fn signal_or_broken(received: Option<AppState>) -> (signal: Result<AppState, SetupError>)
    ensures
        signal == match received {
            Some(state) => Ok::<AppState, SetupError>(state),
            None => Err::<AppState, SetupError>(SetupError::HandshakeBroken),
        },
{
    match received {
        Some(state) => Ok(state),
        None => Err(SetupError::HandshakeBroken),
    }
}

/// What a resource set holds.
pub struct SetupView<H> {
    /// Whether this is a diagnostic build, which has a debug sink.
    pub diagnostics: bool,
    /// Whether the renderer's end of the signal channel is in place.
    pub connected: bool,
    pub instance: Option<H>,
    pub debug_sink: Option<H>,
    /// The position of the selected device in the enumeration.
    pub physical_device: Option<usize>,
    pub logical_device: Option<H>,
    pub surface: Option<H>,
    pub swapchain: Option<H>,
}

/// The handle of one resource, under the resource's name, or nothing where
/// the resource is absent.
pub open spec fn release_of<H>(resource: Resource, slot: Option<H>) -> Seq<(Resource, H)> {
    match slot {
        Some(handle) => seq![(resource, handle)],
        None => Seq::<(Resource, H)>::empty(),
    }
}

impl<H> SetupView<H> {
    /// A set in which no stage has run.
    pub open spec fn empty(diagnostics: bool) -> Self {
        SetupView {
            diagnostics,
            connected: false,
            instance: None,
            debug_sink: None,
            physical_device: None,
            logical_device: None,
            surface: None,
            swapchain: None,
        }
    }

    /// Whether a stage has run to its end.
    pub open spec fn done(self, stage: Stage) -> bool {
        match stage {
            Stage::Instance => self.instance is Some,
            Stage::DebugSink => self.debug_sink is Some,
            Stage::PhysicalDevice => self.physical_device is Some,
            Stage::LogicalDevice => self.logical_device is Some,
            Stage::Surface => self.surface is Some,
            Stage::Swapchain => self.swapchain is Some,
        }
    }

    /// Whether a resource is live.
    pub open spec fn holds(self, resource: Resource) -> bool {
        self.done(resource.spec_stage())
    }

    /// The stages have run in their order and none was left out: each one
    /// that is done has its predecessor done. The debug sink exists in
    /// diagnostic builds only, and there it is not skipped.
    pub open spec fn wf(self) -> bool {
        &&& self.debug_sink is Some ==> self.diagnostics && self.instance is Some
        &&& self.physical_device is Some ==> self.instance is Some && (self.diagnostics
            ==> self.debug_sink is Some)
        &&& self.logical_device is Some ==> self.physical_device is Some
        &&& self.surface is Some ==> self.logical_device is Some
        &&& self.swapchain is Some ==> self.surface is Some
    }

    /// The stage that has to run next, if any is left.
    pub open spec fn next_stage(self) -> Option<Stage> {
        if self.instance is None {
            Some(Stage::Instance)
        } else if self.diagnostics && self.debug_sink is None {
            Some(Stage::DebugSink)
        } else if self.physical_device is None {
            Some(Stage::PhysicalDevice)
        } else if self.logical_device is None {
            Some(Stage::LogicalDevice)
        } else if self.surface is None {
            Some(Stage::Surface)
        } else if self.swapchain is None {
            Some(Stage::Swapchain)
        } else {
            None
        }
    }

    /// The handle of a resource, where the resource is live.
    pub open spec fn slot(self, resource: Resource) -> Option<H> {
        match resource {
            Resource::Instance => self.instance,
            Resource::DebugSink => self.debug_sink,
            Resource::LogicalDevice => self.logical_device,
            Resource::Surface => self.surface,
            Resource::Swapchain => self.swapchain,
        }
    }

    /// The set after a stage has handed in the handle it created.
    pub open spec fn with_handle(self, resource: Resource, handle: H) -> Self {
        match resource {
            Resource::Instance => SetupView { instance: Some(handle), ..self },
            Resource::DebugSink => SetupView { debug_sink: Some(handle), ..self },
            Resource::LogicalDevice => SetupView { logical_device: Some(handle), ..self },
            Resource::Surface => SetupView { surface: Some(handle), ..self },
            Resource::Swapchain => SetupView { swapchain: Some(handle), ..self },
        }
    }

    /// The live resources with their handles, in the order in which they
    /// have to be destroyed: swapchain, surface, logical device, debug
    /// sink, instance, without those that are absent.
    pub open spec fn teardown_sequence(self) -> Seq<(Resource, H)> {
        release_of(Resource::Swapchain, self.swapchain) + release_of(
            Resource::Surface,
            self.surface,
        ) + release_of(Resource::LogicalDevice, self.logical_device) + release_of(
            Resource::DebugSink,
            self.debug_sink,
        ) + release_of(Resource::Instance, self.instance)
    }
}

/// The set of resources that the renderer acquires, owns for as long as it
/// runs, and releases once.
pub struct VulkanSetup<H> {
    window_communicator: WindowCommunication,
    diagnostics: bool,
    instance: Option<H>,
    debug_sink: Option<H>,
    physical_device: Option<usize>,
    logical_device: Option<H>,
    surface: Option<H>,
    swapchain: Option<H>,
}

impl<H> View for VulkanSetup<H> {
    type V = SetupView<H>;

    closed spec fn view(&self) -> SetupView<H> {
        SetupView {
            diagnostics: self.diagnostics,
            connected: self.window_communicator.is_connected(),
            instance: self.instance,
            debug_sink: self.debug_sink,
            physical_device: self.physical_device,
            logical_device: self.logical_device,
            surface: self.surface,
            swapchain: self.swapchain,
        }
    }
}

/// A pipeline that was given up: why, and what has to be destroyed, in
/// that order, before the failure is reported.
pub struct Failure<H> {
    pub error: SetupError,
    pub release: Vec<(Resource, H)>,
}

impl<H> VulkanSetup<H> {
    #[verifier::type_invariant]
    spec fn in_order(&self) -> bool {
        self@.wf()
    }

    /// A set in which nothing has been acquired yet.
    pub fn new(diagnostics: bool) -> (setup: Self)
        ensures
            setup@ == SetupView::<H>::empty(diagnostics),
            setup@.wf(),
    {
        VulkanSetup {
            window_communicator: WindowCommunication::disconnected(),
            diagnostics,
            instance: None,
            debug_sink: None,
            physical_device: None,
            logical_device: None,
            surface: None,
            swapchain: None,
        }
    }

    /// Hands the renderer its end of the signal channel.
    pub fn init_window_communicator(&mut self, communicator: Receiver<AppState>)
        ensures
            final(self)@ == (SetupView { connected: true, ..old(self)@ }),
    {
        proof {
            use_type_invariant(&*self);
        }
        self.window_communicator = WindowCommunication::connected(communicator);
    }

    /// Whether the renderer holds its end of the signal channel.
    pub fn is_connected(&self) -> (connected: bool)
        ensures
            connected == self@.connected,
    {
        self.window_communicator.is_connected()
    }

    /// Waits for the next lifecycle signal.
    pub fn next_signal(&self) -> (signal: Result<AppState, SetupError>)
        requires
            self@.connected,
        ensures
            signal is Err ==> signal->Err_0 == SetupError::HandshakeBroken,
    {
        self.window_communicator.next_signal()
    }

    /// Whether this is a diagnostic build.
    pub fn diagnostics(&self) -> (diagnostics: bool)
        ensures
            diagnostics == self@.diagnostics,
    {
        self.diagnostics
    }

    /// Whether a stage has run to its end.
    pub fn done(&self, stage: Stage) -> (done: bool)
        ensures
            done == self@.done(stage),
    {
        match stage {
            Stage::Instance => self.instance.is_some(),
            Stage::DebugSink => self.debug_sink.is_some(),
            Stage::PhysicalDevice => self.physical_device.is_some(),
            Stage::LogicalDevice => self.logical_device.is_some(),
            Stage::Surface => self.surface.is_some(),
            Stage::Swapchain => self.swapchain.is_some(),
        }
    }

    /// The stage that has to run next. No stage is left exactly when the
    /// whole chain has been acquired.
    pub fn next_stage(&self) -> (stage: Option<Stage>)
        ensures
            stage == self@.next_stage(),
            stage is Some ==> !self@.done(stage->0),
            stage is None <==> self@.swapchain is Some,
    {
        proof {
            use_type_invariant(self);
        }
        if self.instance.is_none() {
            Some(Stage::Instance)
        } else if self.diagnostics && self.debug_sink.is_none() {
            Some(Stage::DebugSink)
        } else if self.physical_device.is_none() {
            Some(Stage::PhysicalDevice)
        } else if self.logical_device.is_none() {
            Some(Stage::LogicalDevice)
        } else if self.surface.is_none() {
            Some(Stage::Surface)
        } else if self.swapchain.is_none() {
            Some(Stage::Swapchain)
        } else {
            None
        }
    }

    /// The position of the selected physical device in the enumeration.
    pub fn physical_device(&self) -> (index: Option<usize>)
        ensures
            index == self@.physical_device,
    {
        self.physical_device
    }

    /// The handle of a resource, where the resource is live.
    pub fn handle(&self, resource: Resource) -> (handle: Option<&H>)
        ensures
            self@.slot(resource) == (match handle {
                Some(h) => Some(*h),
                None => None,
            }),
    {
        match resource {
            Resource::Instance => self.instance.as_ref(),
            Resource::DebugSink => self.debug_sink.as_ref(),
            Resource::LogicalDevice => self.logical_device.as_ref(),
            Resource::Surface => self.surface.as_ref(),
            Resource::Swapchain => self.swapchain.as_ref(),
        }
    }

    /// Takes in the handle that a stage has created. The set accepts it
    /// only from the stage whose turn it is; from any other it hands the
    /// handle back and stays as it was.
    pub fn install(&mut self, resource: Resource, handle: H) -> (refused: Result<(), H>)
        ensures
            final(self)@.wf(),
            old(self)@.next_stage() == Some(resource.spec_stage()) ==> refused is Ok && final(self)@
                == old(self)@.with_handle(resource, handle),
            old(self)@.next_stage() != Some(resource.spec_stage()) ==> refused == Err::<(), H>(
                handle,
            ) && final(self)@ == old(self)@,
    {
        proof {
            use_type_invariant(&*self);
        }
        match self.next_stage() {
            None => {
                return Err(handle);
            },
            Some(next) => {
                if next != resource.stage() {
                    return Err(handle);
                }
            },
        }
        match resource {
            Resource::Instance => {
                self.instance = Some(handle);
            },
            Resource::DebugSink => {
                self.debug_sink = Some(handle);
            },
            Resource::LogicalDevice => {
                self.logical_device = Some(handle);
            },
            Resource::Surface => {
                self.surface = Some(handle);
            },
            Resource::Swapchain => {
                self.swapchain = Some(handle);
            },
        }
        Ok(())
    }

    /// Records which physical device was selected. The set accepts the
    /// selection only when it is that stage's turn.
    pub fn select_physical_device(&mut self, index: usize) -> (accepted: bool)
        ensures
            final(self)@.wf(),
            accepted == (old(self)@.next_stage() == Some(Stage::PhysicalDevice)),
            accepted ==> final(self)@ == (SetupView { physical_device: Some(index), ..old(self)@ }),
            !accepted ==> final(self)@ == old(self)@,
    {
        proof {
            use_type_invariant(&*self);
        }
        match self.next_stage() {
            Some(Stage::PhysicalDevice) => {
                self.physical_device = Some(index);
                true
            },
            _ => false,
        }
    }

    /// Releases the set: hands out every live handle under its resource's
    /// name, in the order in which they have to be destroyed.
    pub fn teardown(self) -> (release: Vec<(Resource, H)>)
        ensures
            release@ == self@.teardown_sequence(),
    {
        let VulkanSetup {
            window_communicator: _,
            diagnostics: _,
            instance,
            debug_sink,
            physical_device: _,
            logical_device,
            surface,
            swapchain,
        } = self;
        let mut release: Vec<(Resource, H)> = Vec::new();
        if let Some(handle) = swapchain {
            release.push((Resource::Swapchain, handle));
        }
        if let Some(handle) = surface {
            release.push((Resource::Surface, handle));
        }
        if let Some(handle) = logical_device {
            release.push((Resource::LogicalDevice, handle));
        }
        if let Some(handle) = debug_sink {
            release.push((Resource::DebugSink, handle));
        }
        if let Some(handle) = instance {
            release.push((Resource::Instance, handle));
        }
        release
    }

    /// Gives the pipeline up after a stage has failed: what was acquired
    /// so far is released in teardown order, and the failure goes with it.
    pub fn abort(self, error: SetupError) -> (failure: Failure<H>)
        ensures
            failure.error == error,
            failure.release@ == self@.teardown_sequence(),
    {
        Failure { error, release: self.teardown() }
    }
}

/// What is needed for longer is destroyed later: a resource stands before
/// everything it depends on in the order of destruction.
pub proof fn law_dependants_go_first(dependant: Resource, dependency: Resource)
    requires
        dependant.depends_on(dependency),
    ensures
        dependant.teardown_rank() < dependency.teardown_rank(),
{
}

/// How many entries a slot adds to the teardown sequence.
pub open spec fn live_count<H>(slot: Option<H>) -> int {
    if slot is Some {
        1
    } else {
        0
    }
}

impl<H> SetupView<H> {
    /// Where the entry of a resource stands in the teardown sequence, if
    /// the resource is live: behind the live resources that go before it.
    pub open spec fn teardown_position(self, resource: Resource) -> int {
        match resource {
            Resource::Swapchain => 0,
            Resource::Surface => live_count(self.swapchain),
            Resource::LogicalDevice => live_count(self.swapchain) + live_count(self.surface),
            Resource::DebugSink => live_count(self.swapchain) + live_count(self.surface)
                + live_count(self.logical_device),
            Resource::Instance => live_count(self.swapchain) + live_count(self.surface)
                + live_count(self.logical_device) + live_count(self.debug_sink),
        }
    }
}

/// The teardown sequence has one entry for each live resource.
pub proof fn law_teardown_length<H>(setup: SetupView<H>)
    ensures
        setup.teardown_sequence().len() == live_count(setup.swapchain) + live_count(setup.surface)
            + live_count(setup.logical_device) + live_count(setup.debug_sink) + live_count(
            setup.instance,
        ),
{
}

/// Every entry of the teardown sequence is a live resource with its own
/// handle, and stands at that resource's position.
pub proof fn law_teardown_entries_are_live<H>(setup: SetupView<H>, index: int)
    requires
        0 <= index < setup.teardown_sequence().len(),
    ensures
        setup.slot(setup.teardown_sequence()[index].0) == Some(setup.teardown_sequence()[index].1),
        setup.teardown_position(setup.teardown_sequence()[index].0) == index,
{
}

/// Every live resource has its entry in the teardown sequence, with its
/// own handle, at its position.
pub proof fn law_live_resources_are_released<H>(setup: SetupView<H>, resource: Resource)
    requires
        setup.slot(resource) is Some,
    ensures
        0 <= setup.teardown_position(resource) < setup.teardown_sequence().len(),
        setup.teardown_sequence()[setup.teardown_position(resource)] == (
            resource,
            setup.slot(resource)->0,
        ),
{
}

/// The teardown sequence is never reordered: of any two of its entries,
/// the earlier one has the lower place in the order swapchain, surface,
/// logical device, debug sink, instance.
pub proof fn law_teardown_order<H>(setup: SetupView<H>, earlier: int, later: int)
    requires
        0 <= earlier < later < setup.teardown_sequence().len(),
    ensures
        setup.teardown_sequence()[earlier].0.teardown_rank() < setup.teardown_sequence()[later].0.teardown_rank(),
{
    law_teardown_entries_are_live(setup, earlier);
    law_teardown_entries_are_live(setup, later);
}

/// No resource is destroyed while something that depends on it is still
/// live: an entry of the teardown sequence is not needed by any entry
/// that follows it.
pub proof fn law_teardown_respects_dependencies<H>(setup: SetupView<H>, earlier: int, later: int)
    requires
        0 <= earlier < later < setup.teardown_sequence().len(),
    ensures
        !setup.teardown_sequence()[later].0.depends_on(setup.teardown_sequence()[earlier].0),
{
    law_teardown_order(setup, earlier, later);
    if setup.teardown_sequence()[later].0.depends_on(setup.teardown_sequence()[earlier].0) {
        law_dependants_go_first(
            setup.teardown_sequence()[later].0,
            setup.teardown_sequence()[earlier].0,
        );
    }
}

/// In a set whose stages ran in order, whatever a live resource depends on
/// is live too.
pub proof fn law_dependencies_are_live<H>(setup: SetupView<H>, dependant: Resource, dependency: Resource)
    requires
        setup.wf(),
        setup.holds(dependant),
        dependant.depends_on(dependency),
    ensures
        setup.holds(dependency),
{
}

/// The stages run in their order: the next stage of a set in order is the
/// first that is not done, and taking in its handle keeps the set in order
/// and makes that stage done.
pub proof fn law_stage_order<H>(setup: SetupView<H>, resource: Resource, handle: H)
    requires
        setup.wf(),
        setup.next_stage() == Some(resource.spec_stage()),
    ensures
        !setup.holds(resource),
        setup.with_handle(resource, handle).wf(),
        setup.with_handle(resource, handle).holds(resource),
        setup.with_handle(resource, handle).teardown_sequence().len()
            == setup.teardown_sequence().len() + 1,
        setup.with_handle(resource, handle).teardown_sequence()[0] == (resource, handle),
{
    let after = setup.with_handle(resource, handle);
    law_teardown_length(setup);
    law_teardown_length(after);
    law_live_resources_are_released(after, resource);
}

} // verus!
