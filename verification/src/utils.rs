//! The handles that the window host passes to the renderer, and the clock
//! reading of log lines.

use vstd::prelude::*;
use raw_window_handle::{RawDisplayHandle, RawWindowHandle};
use std::time::Duration;
use crate::text::{decimal, push_char, push_decimal, push_zero_padded, zero_padded};

verus! {

/// The display handle of `raw_window_handle`: a token of the platform that
/// the library carries from the window host to the surface stage and never
/// looks into.
#[verifier::external_type_specification]
#[verifier::external_body]
pub struct ExRawDisplayHandle(RawDisplayHandle);

/// The window handle of `raw_window_handle`, carried in the same way.
#[verifier::external_type_specification]
#[verifier::external_body]
pub struct ExRawWindowHandle(RawWindowHandle);

/// The pair of handles from which the surface is made. It is captured once,
/// when the window is created, and never refreshed.
#[derive(Clone, Copy, Debug, PartialEq, Eq, Hash)]
pub struct RawWindowingHandles {
    window: RawWindowHandle,
    display: RawDisplayHandle,
}

impl View for RawWindowingHandles {
    type V = (RawDisplayHandle, RawWindowHandle);

    closed spec fn view(&self) -> (RawDisplayHandle, RawWindowHandle) {
        (self.display, self.window)
    }
}

impl RawWindowingHandles {
    /// The pair from a display handle and a window handle, in this order.
    pub fn from_raw_tuple(raw: &(RawDisplayHandle, RawWindowHandle)) -> (handles: Self)
        ensures
            handles@ == *raw,
    {
        Self { window: raw.1, display: raw.0 }
    }

    /// The display handle and the window handle, in this order.
    pub fn unpack(self) -> (raw: (RawDisplayHandle, RawWindowHandle))
        ensures
            raw == self@,
    {
        (self.display, self.window)
    }
}

/// `Duration::as_secs` of the standard library: the whole seconds that the
/// duration holds.
#[verifier::external_body]
fn whole_seconds(d: &Duration) -> (secs: u64) {
    d.as_secs()
}

/// `Duration::subsec_millis` of the standard library: the part of the
/// duration below one second, in whole milliseconds, which is below 1000.
#[verifier::external_body]
fn subsecond_millis(d: &Duration) -> (millis: u32)
    ensures
        millis < 1000,
{
    d.subsec_millis()
}

/// A time span as text: the hours without leading zeros, the minutes and
/// the seconds with two digits each, and the milliseconds with three, as in
/// `1:02:03.004`.
pub open spec fn elapsed_text(secs: nat, millis: nat) -> Seq<char> {
    decimal(secs / 3600) + seq![':'] + zero_padded((secs % 3600) / 60, 2) + seq![':']
        + zero_padded(secs % 60, 2) + seq!['.'] + zero_padded(millis, 3)
}

/// Writes a time span of whole seconds and milliseconds below 1000.
pub fn format_elapsed(secs: u64, millis: u32) -> (text: String)
    requires
        millis < 1000,
    ensures
        text@ == elapsed_text(secs as nat, millis as nat),
{
    let hours: u64 = secs / 3600;
    let mins: u64 = (secs % 3600) / 60;
    let secs_rem: u64 = secs % 60;
    let mut text = String::new();
    push_decimal(&mut text, hours);
    push_char(&mut text, ':');
    push_zero_padded(&mut text, mins, 2);
    push_char(&mut text, ':');
    push_zero_padded(&mut text, secs_rem, 2);
    push_char(&mut text, '.');
    push_zero_padded(&mut text, millis as u64, 3);
    text
}

/// Writes a duration as hours, minutes, seconds and milliseconds.
pub fn format_duration(d: Duration) -> (text: String)
    ensures
        exists|secs: nat, millis: nat| millis < 1000 && text@ == #[trigger] elapsed_text(secs, millis),
{
    let secs: u64 = whole_seconds(&d);
    let millis: u32 = subsecond_millis(&d);
    format_elapsed(secs, millis)
}

} // verus!
