use raw_window_handle::{RawDisplayHandle, RawWindowHandle, XlibDisplayHandle, XlibWindowHandle};
use redefyning::signal::AppState;
use redefyning::swapchain::SizeEvent;
use redefyning::text::{digit, push_decimal, push_zero_padded};
use redefyning::utils::{format_duration, format_elapsed};
use redefyning::window::{HandshakeStep, HostAction, HostEvent};
use redefyning::{App, AppVersion, AppWindow, RawWindowingHandles, WindowSettings};
use std::time::Duration;

#[test]
fn version_keeps_its_parts() {
    let version = AppVersion::new(2, 3, 4, 1, Some("beta"));
    assert_eq!(version.unpack_raw(), (1, 2, 3, 4));
    assert_eq!(version.unpack(), (1, 2, 3, 4, "beta"));
}

#[test]
fn version_without_revision_is_stable() {
    let version = AppVersion::new(0, 0, 0, 0, None);
    assert_eq!(version.unpack(), (0, 0, 0, 0, "stable"));
    assert_eq!(version.to_text(), "0.0.0.0-stable");
}

#[test]
fn version_is_written_with_dots_and_a_hyphen() {
    assert_eq!(AppVersion::new(3, 4, 1, 2, Some("5")).to_text(), "2.3.4.1-5");
    assert_eq!(AppVersion::new(10, 200, 3000, 1, Some("rc1")).to_text(), "1.10.200.3000-rc1");
    assert_eq!(
        AppVersion::new(u32::MAX, 0, 9, 10, Some("")).to_text(),
        "10.4294967295.0.9-"
    );
}

#[test]
fn version_pattern_names_the_five_parts() {
    let version = AppVersion::new(1, 2, 3, 4, None);
    assert_eq!(version.unpack_str(), "{self.0}.{self.1}.{self.2}.{self.3}-{self.4}");
}

#[test]
fn version_is_packed_as_the_api_packs_it() {
    let version = AppVersion::new(1, 3, 286, 0, None);
    assert_eq!(version.packed(), ash::vk::make_api_version(0, 1, 3, 286));
    assert_eq!(version.packed(), 0x0040_311e);
    assert_eq!(AppVersion::new(1, 2, 3, 4, None).packed(), (4 << 29) | (1 << 22) | (2 << 12) | 3);
    assert_eq!(AppVersion::new(0x3ff, 0, 0, 9, None).packed(), 0xffc0_0000);
    assert_eq!(AppVersion::new(0, 0, 0x1fff, 0, None).packed(), 0x1fff);
}

#[test]
fn versions_compare_by_their_parts() {
    assert_eq!(AppVersion::new(1, 2, 3, 0, None), AppVersion::new(1, 2, 3, 0, Some("stable")));
    assert!(AppVersion::new(1, 2, 3, 0, None) < AppVersion::new(1, 2, 4, 0, None));
    assert!(AppVersion::new(9, 9, 9, 0, None) < AppVersion::new(0, 0, 0, 1, None));
}

#[test]
fn decimal_digits_are_written_in_order() {
    let mut text = String::from("n=");
    push_decimal(&mut text, 0);
    assert_eq!(text, "n=0");
    push_decimal(&mut text, 1234567890);
    assert_eq!(text, "n=01234567890");
    let mut max = String::new();
    push_decimal(&mut max, u64::MAX);
    assert_eq!(max, "18446744073709551615");
    assert_eq!(digit(0), '0');
    assert_eq!(digit(7), '7');
    assert_eq!(digit(9), '9');
}

#[test]
fn padded_numbers_keep_their_width() {
    let mut text = String::new();
    push_zero_padded(&mut text, 7, 3);
    assert_eq!(text, "007");
    push_zero_padded(&mut text, 1234, 2);
    assert_eq!(text, "00734");
    push_zero_padded(&mut text, 5, 0);
    assert_eq!(text, "00734");
    push_zero_padded(&mut text, 0, 2);
    assert_eq!(text, "0073400");
}

#[test]
fn elapsed_time_is_written_as_hours_minutes_seconds_millis() {
    assert_eq!(format_elapsed(0, 0), "0:00:00.000");
    assert_eq!(format_elapsed(3723, 4), "1:02:03.004");
    assert_eq!(format_elapsed(59, 999), "0:00:59.999");
    assert_eq!(format_elapsed(3600 * 123 + 60 * 45 + 6, 78), "123:45:06.078");
    assert_eq!(format_duration(Duration::from_millis(3_723_004)), "1:02:03.004");
    assert_eq!(format_duration(Duration::new(7322, 999_999_999)), "2:02:02.999");
    assert_eq!(format_duration(Duration::ZERO), "0:00:00.000");
}

#[test]
fn handles_come_back_as_they_went_in() {
    let display = RawDisplayHandle::Xlib(XlibDisplayHandle::new(None, 3));
    let window = RawWindowHandle::Xlib(XlibWindowHandle::new(42));
    let handles = RawWindowingHandles::from_raw_tuple(&(display, window));
    assert_eq!(handles.unpack(), (display, window));
    let other = RawWindowingHandles::from_raw_tuple(&(display, RawWindowHandle::Xlib(XlibWindowHandle::new(43))));
    assert_ne!(handles, other);
}

#[test]
fn application_collects_scripts_in_order() {
    let version = AppVersion::new(0, 1, 0, 0, None);
    let app: App<&'static str> = App::new("test", version, None);
    assert_eq!(app.script_count(), 0);
    assert_eq!(app.name(), "test");
    assert_eq!(app.version(), version);
    let app = app.add_script("first").add_script("second");
    assert_eq!(app.script_count(), 2);
    let (scripts, name, v, _settings) = app.into_parts();
    assert_eq!(scripts, vec!["first", "second"]);
    assert_eq!(name, "test");
    assert_eq!(v, version);
}

#[test]
fn application_keeps_the_window_settings_it_was_given() {
    let settings = WindowSettings::default().with_title("editor").with_resizable(false);
    let app: App<fn()> = App::new("test", AppVersion::new(0, 0, 0, 0, None), Some(settings));
    let (_, _, _, kept) = app.into_parts();
    assert_eq!(kept.title, "editor");
    assert!(!kept.resizable);
}

#[test]
fn application_without_settings_gets_the_defaults() {
    let app: App<fn()> = App::new("test", AppVersion::new(0, 0, 0, 0, None), None);
    let (_, _, _, settings) = app.into_parts();
    let defaults = WindowSettings::default();
    assert_eq!(settings.title, defaults.title);
    assert_eq!(settings.resizable, defaults.resizable);
    assert_eq!(settings.visible, defaults.visible);
    assert_eq!(settings.decorations, defaults.decorations);
}

#[test]
fn scripts_can_be_boxed_closures() {
    let app: App<Box<dyn Fn() -> u32 + Send + 'static>> = App::new("test", AppVersion::new(0, 0, 0, 0, None), None);
    let app = app.add_script(Box::new(|| 1)).add_script(Box::new(|| 2));
    let (scripts, _, _, _) = app.into_parts();
    let results: Vec<u32> = scripts.iter().map(|script| script()).collect();
    assert_eq!(results, vec![1, 2]);
}

#[test]
fn window_host_sends_handles_before_the_size() {
    let mut host = AppWindow::default();
    assert_eq!(host.app_state, AppState::Awaiting);
    assert!(!host.connected && !host.handshake_pending);
    host.init_render_communicator();
    host.start();
    assert!(host.connected && host.handshake_pending);
    let steps = host.resumed(SizeEvent { width: 800, height: 600 });
    assert_eq!(
        steps,
        vec![HandshakeStep::SendHandles, HandshakeStep::SendSize(SizeEvent { width: 800, height: 600 })]
    );
    assert_eq!(host.app_state, AppState::Open);
    assert!(!host.handshake_pending);
}

#[test]
fn window_host_leaves_on_close_and_escape() {
    for event in [HostEvent::CloseRequested, HostEvent::EscapeKey] {
        let mut host = AppWindow { app_state: AppState::Open, connected: true, handshake_pending: false };
        assert_eq!(host.window_event(event), HostAction::Exit);
        assert_eq!(host.app_state, AppState::Closed);
    }
}

#[test]
fn window_host_reports_its_state_on_other_events() {
    let mut host = AppWindow { app_state: AppState::Open, connected: true, handshake_pending: false };
    assert_eq!(host.window_event(HostEvent::Other), HostAction::SendState(AppState::Open));
    assert_eq!(host.window_event(HostEvent::RedrawRequested), HostAction::NoteRedraw);
    assert_eq!(host.window_event(HostEvent::OtherKey), HostAction::Ignore);
    assert_eq!(host.app_state, AppState::Open);
    assert_eq!(host.send_app_state(), HostAction::SendState(AppState::Open));
    let mut unconnected = AppWindow::default();
    assert_eq!(unconnected.window_event(HostEvent::Other), HostAction::ReportUnconnected);
    assert_eq!(unconnected.send_app_state(), HostAction::ReportUnconnected);
    let mut leaving = AppWindow { app_state: AppState::Paused, connected: true, handshake_pending: false };
    assert_eq!(leaving.exit(), HostAction::Exit);
    assert_eq!(leaving.app_state, AppState::Closed);
}
