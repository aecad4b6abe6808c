//! Browser automation: settings, the controller, the DevTools client and
//! scripted actions.

use vstd::prelude::*;

verus! {

/// Browser settings.
#[derive(Debug, Clone, Copy, PartialEq, Eq, Structural)]
pub struct BrowserConfig {
    pub headless: bool,
    pub viewport: Viewport,
}

/// The size of the browser window.
#[derive(Debug, Clone, Copy, PartialEq, Eq, Structural)]
pub struct Viewport {
    pub width: u32,
    pub height: u32,
}

impl Default for BrowserConfig {
    /// Headless, 1920 by 1080.
    fn default() -> (c: Self)
        ensures
            c == (BrowserConfig { headless: true, viewport: Viewport { width: 1920, height: 1080 } }),
    {
        BrowserConfig { headless: true, viewport: Viewport { width: 1920, height: 1080 } }
    }
}

/// Controls a browser with given settings.
#[derive(Debug)]
pub struct BrowserController {
    config: BrowserConfig,
}

impl BrowserController {
    /// A controller with the given settings.
    pub fn new(config: BrowserConfig) -> (c: Self)
        ensures
            c.config() == config,
    {
        BrowserController { config }
    }

    /// The controller's settings.
    pub closed spec fn config(&self) -> BrowserConfig {
        self.config
    }

    /// Whether the browser runs headless.
    pub fn headless(&self) -> (b: bool)
        ensures
            b == self.config().headless,
    {
        self.config.headless
    }
}

/// A client of the Chrome DevTools Protocol at a WebSocket URL.
#[derive(Debug)]
pub struct CdpClient {
    ws_url: String,
}

impl View for CdpClient {
    /// The WebSocket URL.
    type V = Seq<char>;

    closed spec fn view(&self) -> Seq<char> {
        self.ws_url@
    }
}

impl CdpClient {
    /// A client for the given WebSocket URL.
    pub fn new(ws_url: String) -> (c: Self)
        ensures
            c@ == ws_url@,
    {
        CdpClient { ws_url }
    }

    /// The WebSocket URL.
    pub fn ws_url(&self) -> (s: &str)
        ensures
            s@ == self@,
    {
        self.ws_url.as_str()
    }
}

/// A scripted browser action.
#[derive(Debug, Clone, PartialEq, Eq)]
pub enum AutomationAction {
    Click { selector: String },
    Type { selector: String, text: String },
    Scroll { x: i32, y: i32 },
    Wait { duration_ms: u64 },
}

/// A script of browser actions, in order.
#[derive(Debug)]
pub struct BrowserAutomation {
    actions: Vec<AutomationAction>,
}

impl View for BrowserAutomation {
    type V = Seq<AutomationAction>;

    closed spec fn view(&self) -> Seq<AutomationAction> {
        self.actions@
    }
}

impl BrowserAutomation {
    /// An empty script.
    pub fn new() -> (a: Self)
        ensures
            a@.len() == 0,
    {
        BrowserAutomation { actions: Vec::new() }
    }

    /// Appends an action.
    pub fn add(&mut self, action: AutomationAction)
        ensures
            final(self)@ == old(self)@.push(action),
    {
        self.actions.push(action);
    }

    /// The actions, in order.
    pub fn actions(&self) -> (s: &[AutomationAction])
        ensures
            s@ == self@,
    {
        self.actions.as_slice()
    }
}

impl Default for BrowserAutomation {
    fn default() -> (a: Self)
        ensures
            a@.len() == 0,
    {
        BrowserAutomation::new()
    }
}

} // verus!
