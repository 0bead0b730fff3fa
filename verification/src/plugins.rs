//! The request logger that comes with the library: where it writes, and
//! the lines it writes.
use crate::json::{json_text, render};
use crate::models::{Request, Response};
use crate::paths::{path_from, path_of};
use crate::text::{decimal, push_decimal, push_text, to_text};
use vstd::prelude::*;

verus! {

/// A plugin that writes one line to a log file at each point of an
/// execution.
pub struct ExamplePlugin {
    log_file: std::path::PathBuf,
}

/// The line written before a request is sent.
pub open spec fn before_request_text(request: Request) -> Seq<char> {
    "BEFORE REQUEST: "@ + request.method.name() + " "@ + request.name@ + " "@ + request.url@
}

/// The line written after a response came in. The size is that of the
/// body's compact rendering, in bytes.
pub open spec fn after_response_text(response: Response) -> Seq<char> {
    "AFTER RESPONSE: Status "@ + decimal(response.status as nat) + " - "@ + decimal(
        vstd::utf8::encode_utf8(json_text(response.body)).len(),
    ) + " bytes - "@ + decimal(response.timing.total_ms as nat) + "ms"@
}

/// The line written after an execution failed.
pub open spec fn error_text(error: Seq<char>) -> Seq<char> {
    "ERROR: "@ + error
}

impl ExamplePlugin {
    /// The file that the plugin writes to.
    pub closed spec fn path(self) -> std::path::PathBuf {
        self.log_file
    }

    /// A logger that writes to `netbook_requests.log` in the working
    /// directory.
    pub fn new() -> (p: ExamplePlugin)
        ensures
            p.path() == path_of("netbook_requests.log"@),
    {
        ExamplePlugin { log_file: path_from("netbook_requests.log") }
    }

    /// A logger that writes to `log_file`.
    pub fn with_log_file(log_file: std::path::PathBuf) -> (p: ExamplePlugin)
        ensures
            p.path() == log_file,
    {
        ExamplePlugin { log_file }
    }

    /// The file that the plugin writes to.
    pub fn log_file(&self) -> (f: &std::path::PathBuf)
        ensures
            *f == self.path(),
    {
        &self.log_file
    }

    /// The plugin's name.
    pub fn name(&self) -> (n: &'static str)
        ensures
            n@ == "Example Request Logger"@,
    {
        "Example Request Logger"
    }

    /// The line to write before `request` is sent.
    pub fn before_request_line(&self, request: &Request) -> (line: String)
        ensures
            line@ == before_request_text(*request),
    {
        let mut out: Vec<char> = Vec::new();
        push_text(&mut out, "BEFORE REQUEST: ");
        push_text(&mut out, request.method.as_str());
        push_text(&mut out, " ");
        push_text(&mut out, request.name.as_str());
        push_text(&mut out, " ");
        push_text(&mut out, request.url.as_str());
        to_text(&out)
    }

    /// The line to write after `response` came in.
    pub fn after_response_line(&self, response: &Response) -> (line: String)
        ensures
            line@ == after_response_text(*response),
    {
        let body = render(&response.body);
        let size = body.as_str().as_bytes().len();
        let mut out: Vec<char> = Vec::new();
        push_text(&mut out, "AFTER RESPONSE: Status ");
        push_decimal(&mut out, response.status as u64);
        push_text(&mut out, " - ");
        push_decimal(&mut out, size as u64);
        push_text(&mut out, " bytes - ");
        push_decimal(&mut out, response.timing.total_ms);
        push_text(&mut out, "ms");
        to_text(&out)
    }

    /// The line to write after an execution failed with `error`.
    pub fn error_line(&self, error: &str) -> (line: String)
        ensures
            line@ == error_text(error@),
    {
        let mut out: Vec<char> = Vec::new();
        push_text(&mut out, "ERROR: ");
        push_text(&mut out, error);
        to_text(&out)
    }
}

impl Default for ExamplePlugin {
    fn default() -> (p: ExamplePlugin)
        ensures
            p.path() == path_of("netbook_requests.log"@),
    {
        ExamplePlugin::new()
    }
}

/// The list of registered plugins. They stand in the order in which they
/// were registered, which is the order in which they are to be told of
/// each step of an execution.
pub struct HookBus<P> {
    plugins: Vec<P>,
}

impl<P> View for HookBus<P> {
    type V = Seq<P>;

    closed spec fn view(&self) -> Seq<P> {
        self.plugins@
    }
}

impl<P> HookBus<P> {
    /// A bus without plugins.
    pub fn new() -> (bus: HookBus<P>)
        ensures
            bus@ == Seq::<P>::empty(),
    {
        HookBus { plugins: Vec::new() }
    }

    /// Registers `plugin` behind those that are registered.
    pub fn register(&mut self, plugin: P)
        ensures
            final(self)@ == old(self)@.push(plugin),
    {
        self.plugins.push(plugin);
    }

    /// The number of registered plugins.
    pub fn len(&self) -> (n: usize)
        ensures
            n == self@.len(),
    {
        self.plugins.len()
    }

    /// The plugin that was registered as the `i`-th, counted from 0.
    pub fn plugin(&self, i: usize) -> (p: &P)
        requires
            i < self@.len(),
        ensures
            *p == self@[i as int],
    {
        &self.plugins[i]
    }
}

} // verus!
