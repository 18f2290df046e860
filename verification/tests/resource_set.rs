use redefyning::setup::{Failure, Resource, Stage};
use redefyning::{SetupError, VulkanSetup};

fn labels(release: &Vec<(Resource, &'static str)>) -> Vec<Resource> {
    release.iter().map(|entry| entry.0).collect()
}

fn complete(diagnostics: bool) -> VulkanSetup<&'static str> {
    let mut setup: VulkanSetup<&'static str> = VulkanSetup::new(diagnostics);
    assert_eq!(setup.install(Resource::Instance, "instance"), Ok(()));
    if diagnostics {
        assert_eq!(setup.install(Resource::DebugSink, "debug"), Ok(()));
    }
    assert!(setup.select_physical_device(1));
    assert_eq!(setup.install(Resource::LogicalDevice, "device"), Ok(()));
    assert_eq!(setup.install(Resource::Surface, "surface"), Ok(()));
    assert_eq!(setup.install(Resource::Swapchain, "swapchain"), Ok(()));
    setup
}

#[test]
fn full_set_is_torn_down_in_reverse_of_creation() {
    let release = complete(true).teardown();
    assert_eq!(
        release,
        vec![
            (Resource::Swapchain, "swapchain"),
            (Resource::Surface, "surface"),
            (Resource::LogicalDevice, "device"),
            (Resource::DebugSink, "debug"),
            (Resource::Instance, "instance"),
        ]
    );
}

#[test]
fn absent_debug_sink_is_skipped_in_teardown() {
    let release = complete(false).teardown();
    assert_eq!(
        labels(&release),
        vec![Resource::Swapchain, Resource::Surface, Resource::LogicalDevice, Resource::Instance]
    );
}

#[test]
fn empty_set_has_nothing_to_tear_down() {
    let setup: VulkanSetup<&'static str> = VulkanSetup::new(true);
    assert_eq!(setup.teardown(), Vec::new());
}

#[test]
fn partial_sets_are_torn_down_in_order() {
    let mut setup: VulkanSetup<&'static str> = VulkanSetup::new(true);
    assert_eq!(setup.install(Resource::Instance, "instance"), Ok(()));
    assert_eq!(setup.install(Resource::DebugSink, "debug"), Ok(()));
    assert!(setup.select_physical_device(0));
    assert_eq!(setup.install(Resource::LogicalDevice, "device"), Ok(()));
    assert_eq!(
        setup.teardown(),
        vec![
            (Resource::LogicalDevice, "device"),
            (Resource::DebugSink, "debug"),
            (Resource::Instance, "instance"),
        ]
    );

    let mut only_instance: VulkanSetup<&'static str> = VulkanSetup::new(false);
    assert_eq!(only_instance.install(Resource::Instance, "instance"), Ok(()));
    assert_eq!(only_instance.teardown(), vec![(Resource::Instance, "instance")]);

    let mut up_to_surface: VulkanSetup<&'static str> = VulkanSetup::new(false);
    assert_eq!(up_to_surface.install(Resource::Instance, "instance"), Ok(()));
    assert!(up_to_surface.select_physical_device(0));
    assert_eq!(up_to_surface.install(Resource::LogicalDevice, "device"), Ok(()));
    assert_eq!(up_to_surface.install(Resource::Surface, "surface"), Ok(()));
    assert_eq!(
        labels(&up_to_surface.teardown()),
        vec![Resource::Surface, Resource::LogicalDevice, Resource::Instance]
    );
}

#[test]
fn stages_run_in_their_order() {
    let mut setup: VulkanSetup<u32> = VulkanSetup::new(true);
    assert_eq!(setup.next_stage(), Some(Stage::Instance));
    assert_eq!(setup.install(Resource::Instance, 1), Ok(()));
    assert_eq!(setup.next_stage(), Some(Stage::DebugSink));
    assert_eq!(setup.install(Resource::DebugSink, 2), Ok(()));
    assert_eq!(setup.next_stage(), Some(Stage::PhysicalDevice));
    assert!(setup.select_physical_device(3));
    assert_eq!(setup.physical_device(), Some(3));
    assert_eq!(setup.next_stage(), Some(Stage::LogicalDevice));
    assert_eq!(setup.install(Resource::LogicalDevice, 4), Ok(()));
    assert_eq!(setup.next_stage(), Some(Stage::Surface));
    assert_eq!(setup.install(Resource::Surface, 5), Ok(()));
    assert_eq!(setup.next_stage(), Some(Stage::Swapchain));
    assert_eq!(setup.install(Resource::Swapchain, 6), Ok(()));
    assert_eq!(setup.next_stage(), None);
    assert_eq!(setup.handle(Resource::Surface), Some(&5));
    assert!(setup.done(Stage::Swapchain));
    assert!(setup.diagnostics());
}

#[test]
fn debug_sink_stage_is_skipped_without_diagnostics() {
    let mut setup: VulkanSetup<u32> = VulkanSetup::new(false);
    assert_eq!(setup.install(Resource::Instance, 1), Ok(()));
    assert_eq!(setup.next_stage(), Some(Stage::PhysicalDevice));
    assert_eq!(setup.install(Resource::DebugSink, 2), Err(2));
    assert!(!setup.done(Stage::DebugSink));
    assert_eq!(setup.handle(Resource::DebugSink), None);
}

#[test]
fn handle_out_of_turn_is_handed_back() {
    let mut setup: VulkanSetup<u32> = VulkanSetup::new(false);
    assert_eq!(setup.install(Resource::Swapchain, 9), Err(9));
    assert_eq!(setup.install(Resource::Surface, 9), Err(9));
    assert!(!setup.select_physical_device(0));
    assert_eq!(setup.next_stage(), Some(Stage::Instance));
    assert_eq!(setup.install(Resource::Instance, 1), Ok(()));
    assert_eq!(setup.install(Resource::Instance, 2), Err(2));
    assert_eq!(setup.handle(Resource::Instance), Some(&1));
    assert_eq!(setup.install(Resource::LogicalDevice, 3), Err(3));
    assert!(setup.select_physical_device(7));
    assert!(!setup.select_physical_device(8));
    assert_eq!(setup.physical_device(), Some(7));
    assert_eq!(setup.teardown(), vec![(Resource::Instance, 1)]);
}

#[test]
fn abort_releases_what_was_acquired_and_keeps_the_error() {
    let mut setup: VulkanSetup<&'static str> = VulkanSetup::new(false);
    assert_eq!(setup.install(Resource::Instance, "instance"), Ok(()));
    assert!(setup.select_physical_device(0));
    assert_eq!(setup.install(Resource::LogicalDevice, "device"), Ok(()));
    let Failure { error, release } = setup.abort(SetupError::SurfaceCreationFailure);
    assert_eq!(error, SetupError::SurfaceCreationFailure);
    assert_eq!(release, vec![(Resource::LogicalDevice, "device"), (Resource::Instance, "instance")]);
}

#[test]
fn each_stage_has_its_failure_and_resource() {
    assert_eq!(Stage::Instance.failure(), SetupError::InstanceCreationFailure);
    assert_eq!(Stage::DebugSink.failure(), SetupError::InstanceCreationFailure);
    assert_eq!(Stage::PhysicalDevice.failure(), SetupError::DeviceNotFound);
    assert_eq!(Stage::LogicalDevice.failure(), SetupError::LogicalDeviceCreationFailure);
    assert_eq!(Stage::Surface.failure(), SetupError::SurfaceCreationFailure);
    assert_eq!(Stage::Swapchain.failure(), SetupError::SwapchainCreationFailure);
    assert_eq!(Stage::PhysicalDevice.resource(), None);
    for resource in [
        Resource::Instance,
        Resource::DebugSink,
        Resource::LogicalDevice,
        Resource::Surface,
        Resource::Swapchain,
    ] {
        assert_eq!(resource.stage().resource(), Some(resource));
    }
}

#[test]
fn error_messages_name_stage_and_cause() {
    assert_eq!(
        SetupError::InstanceCreationFailure.message(),
        "instance: the driver rejected the instance parameters"
    );
    assert_eq!(
        SetupError::DeviceNotFound.message(),
        "physical device: no physical device meets the version, queue and extension requirements"
    );
    assert_eq!(
        SetupError::PresentationUnsupported.message(),
        "logical device: the graphics queue family cannot present to the surface"
    );
    assert_eq!(
        SetupError::LogicalDeviceCreationFailure.message(),
        "logical device: the driver rejected the logical device"
    );
    assert_eq!(SetupError::SurfaceCreationFailure.message(), "surface: the driver rejected the surface");
    assert_eq!(
        SetupError::SwapchainCreationFailure.message(),
        "swapchain: the driver rejected the swapchain"
    );
    assert_eq!(SetupError::HandshakeBroken.message(), "handshake: the other end of a channel went away");
    assert_eq!(SetupError::HandshakeBroken.stage_name(), "handshake");
    assert_eq!(SetupError::SurfaceCreationFailure.cause(), "the driver rejected the surface");
}
