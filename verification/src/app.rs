//! The application as its author describes it: a name, a version, the
//! settings of its window and the scripts that run beside the renderer.

use vstd::prelude::*;
use crate::version::{AppVersion, VersionParts};

verus! {

/// The window attributes of `winit`. The library passes them from the
/// application's author to the window host and never looks into them.
#[verifier::external_type_specification]
#[verifier::external_body]
pub struct ExWindowAttributes(winit::window::WindowAttributes);

/// The settings of the application's window.
pub type WindowSettings = winit::window::WindowAttributes;

/// `Default::default` of `winit::window::WindowAttributes`: the attributes
/// of a window for which nothing was asked. Nothing is claimed of them.
#[verifier::external_body]
fn default_window_settings() -> (settings: WindowSettings) {
    WindowSettings::default()
}

/// An application, with scripts of type `S`.
pub struct App<S> {
    scripts: Vec<S>,
    name: &'static str,
    version: AppVersion,
    window_settings: WindowSettings,
}

/// What an application holds.
pub struct AppView<S> {
    pub scripts: Seq<S>,
    pub name: Seq<char>,
    pub version: VersionParts,
    pub window_settings: WindowSettings,
}

impl<S> View for App<S> {
    type V = AppView<S>;

    closed spec fn view(&self) -> AppView<S> {
        AppView {
            scripts: self.scripts@,
            name: self.name@,
            version: self.version@,
            window_settings: self.window_settings,
        }
    }
}

impl<S> App<S> {
    /// An application without scripts. Where no window settings are given,
    /// the window gets those that `winit` has for a window of which nothing
    /// was asked.
    pub fn new(name: &'static str, version: AppVersion, window_settings: Option<WindowSettings>) -> (app:
        Self)
        ensures
            app@.scripts == Seq::<S>::empty(),
            app@.name == name@,
            app@.version == version@,
            window_settings is Some ==> app@.window_settings == window_settings->0,
    {
        match window_settings {
            Some(settings) => Self::with_settings(name, version, settings),
            None => Self::with_settings(name, version, default_window_settings()),
        }
    }

    /// An application without scripts, with the given window settings.
    pub fn with_settings(name: &'static str, version: AppVersion, window_settings: WindowSettings) -> (app:
        Self)
        ensures
            app@ == (AppView {
                scripts: Seq::<S>::empty(),
                name: name@,
                version: version@,
                window_settings,
            }),
    {
        App { scripts: Vec::new(), name, version, window_settings }
    }

    /// The application with one more script, which runs after those it
    /// already has.
    pub fn add_script(self, script: S) -> (app: Self)
        ensures
            app@ == (AppView { scripts: self@.scripts.push(script), ..self@ }),
    {
        let mut app = self;
        app.scripts.push(script);
        app
    }

    /// How many scripts the application has.
    pub fn script_count(&self) -> (count: usize)
        ensures
            count == self@.scripts.len(),
    {
        self.scripts.len()
    }

    /// The application's name.
    pub fn name(&self) -> (name: &'static str)
        ensures
            name@ == self@.name,
    {
        self.name
    }

    /// The application's version.
    pub fn version(&self) -> (version: AppVersion)
        ensures
            version@ == self@.version,
    {
        self.version
    }

    /// Takes the application apart for the threads that run it: the
    /// scripts in their order, the name, the version and the window
    /// settings.
    pub fn into_parts(self) -> (parts: (Vec<S>, &'static str, AppVersion, WindowSettings))
        ensures
            parts.0@ == self@.scripts,
            parts.1@ == self@.name,
            parts.2@ == self@.version,
            parts.3 == self@.window_settings,
    {
        (self.scripts, self.name, self.version, self.window_settings)
    }
}

} // verus!
