//! What the window host decides: what it sends to the renderer when the
//! window comes up, and what it does with each event afterwards.
//!
//! The event loop, the window and the channels belong to the caller. It
//! tells the host what happened and carries out what the host answers.

use vstd::prelude::*;
use crate::signal::AppState;
use crate::swapchain::SizeEvent;

verus! {

/// How many size events the size stream holds before its sender has to
/// wait. The stream never drops an event.
pub const SIZE_STREAM_CAPACITY: usize = 16;

/// What the event loop reports of the window.
#[derive(Clone, Copy, Debug, PartialEq, Eq, Structural)]
pub enum HostEvent {
    /// The user asked for the window to be closed.
    CloseRequested,
    /// The window wants to be drawn again.
    RedrawRequested,
    /// The escape key was pressed or released.
    EscapeKey,
    /// Any other key was pressed or released.
    OtherKey,
    /// Anything else.
    Other,
}

/// What the window host does in answer to an event.
#[derive(Clone, Copy, Debug, PartialEq, Eq, Structural)]
pub enum HostAction {
    /// Send `Closed` to the renderer and leave the event loop.
    Exit,
    /// Note that a redraw was asked for.
    NoteRedraw,
    /// Do nothing.
    Ignore,
    /// Send the given state to the renderer.
    SendState(AppState),
    /// Report that the renderer cannot be reached yet.
    ReportUnconnected,
}

/// One step of the handshake that the window host performs when the window
/// has come up.
#[derive(Clone, Copy, Debug, PartialEq, Eq, Structural)]
pub enum HandshakeStep {
    /// Send the pair of surface handles through the single-use channel.
    SendHandles,
    /// Send the window's size in pixels through the size stream.
    SendSize(SizeEvent),
}

/// The window host, as far as its decisions go: the state it reports, and
/// which of its channels are in place.
#[derive(Clone, Copy, Debug, PartialEq, Eq, Structural)]
pub struct AppWindow {
    /// The state that the host reports to the renderer.
    pub app_state: AppState,
    /// Whether the channel of lifecycle signals is in place.
    pub connected: bool,
    /// Whether the handles and the first size are still to be sent.
    pub handshake_pending: bool,
}

impl AppWindow {
    /// Whether an event makes the host leave.
    pub open spec fn leaves_on(event: HostEvent) -> bool {
        event == HostEvent::CloseRequested || event == HostEvent::EscapeKey
    }

    /// The answer of a host to an event.
    pub open spec fn spec_action(self, event: HostEvent) -> HostAction {
        match event {
            HostEvent::CloseRequested => HostAction::Exit,
            HostEvent::EscapeKey => HostAction::Exit,
            HostEvent::RedrawRequested => HostAction::NoteRedraw,
            HostEvent::OtherKey => HostAction::Ignore,
            HostEvent::Other => if self.connected {
                HostAction::SendState(self.app_state)
            } else {
                HostAction::ReportUnconnected
            },
        }
    }

    /// The handshake of a host whose window has the given size: first the
    /// handles, then the size.
    pub open spec fn handshake(size: SizeEvent) -> Seq<HandshakeStep> {
        seq![HandshakeStep::SendHandles, HandshakeStep::SendSize(size)]
    }

    /// Gives the host its end of the channel of lifecycle signals.
    pub fn init_render_communicator(&mut self)
        ensures
            *final(self) == (AppWindow { connected: true, ..*old(self) }),
    {
        self.connected = true;
    }

    /// Starts the host: from now on the handshake is due as soon as the
    /// window comes up.
    pub fn start(&mut self)
        ensures
            *final(self) == (AppWindow { handshake_pending: true, ..*old(self) }),
    {
        self.handshake_pending = true;
    }

    /// The window has come up with the given size. The application is open
    /// from now on, and the host owes the renderer the handshake, which it
    /// performs once: the handles first, and then the size.
    pub fn resumed(&mut self, size: SizeEvent) -> (steps: Vec<HandshakeStep>)
        requires
            old(self).handshake_pending,
        ensures
            steps@ == AppWindow::handshake(size),
            *final(self) == (AppWindow {
                app_state: AppState::Open,
                handshake_pending: false,
                ..*old(self)
            }),
    {
        self.app_state = AppState::Open;
        self.handshake_pending = false;
        let mut steps: Vec<HandshakeStep> = Vec::new();
        steps.push(HandshakeStep::SendHandles);
        steps.push(HandshakeStep::SendSize(size));
        steps
    }

    /// Leaves: the renderer is to be told `Closed`, which is the host's
    /// state from now on.
    pub fn exit(&mut self) -> (action: HostAction)
        requires
            old(self).connected,
        ensures
            action == HostAction::Exit,
            *final(self) == (AppWindow { app_state: AppState::Closed, ..*old(self) }),
    {
        self.app_state = AppState::Closed;
        HostAction::Exit
    }

    /// What is done to let the renderer know the host's state.
    pub fn send_app_state(&self) -> (action: HostAction)
        ensures
            action == self.spec_action(HostEvent::Other),
    {
        if self.connected {
            HostAction::SendState(self.app_state)
        } else {
            HostAction::ReportUnconnected
        }
    }

    /// Answers an event of the window. A request to close and the escape
    /// key make the host leave, for which the renderer must be in reach.
    pub fn window_event(&mut self, event: HostEvent) -> (action: HostAction)
        requires
            AppWindow::leaves_on(event) ==> old(self).connected,
        ensures
            action == old(self).spec_action(event),
            AppWindow::leaves_on(event) ==> *final(self) == (AppWindow {
                app_state: AppState::Closed,
                ..*old(self)
            }),
            !AppWindow::leaves_on(event) ==> *final(self) == *old(self),
    {
        match event {
            HostEvent::CloseRequested => self.exit(),
            HostEvent::EscapeKey => self.exit(),
            HostEvent::RedrawRequested => HostAction::NoteRedraw,
            HostEvent::OtherKey => HostAction::Ignore,
            HostEvent::Other => self.send_app_state(),
        }
    }
}

impl Default for AppWindow {
    /// A host that awaits its window, with no channel in place.
    fn default() -> (host: Self)
        ensures
            host == (AppWindow {
                app_state: AppState::Awaiting,
                connected: false,
                handshake_pending: false,
            }),
    {
        AppWindow { app_state: AppState::Awaiting, connected: false, handshake_pending: false }
    }
}

} // verus!
