//! Fixed configuration of the application shell and the two capability
//! classes that are resolved once at startup.

use vstd::prelude::*;

verus! {

/// Port of the loopback content server.
pub const CONTENT_SERVER_PORT: u16 = 9527;

/// Label under which the main window is looked up.
pub const MAIN_WINDOW_LABEL: &'static str = "main";

/// Command-line token that keeps the main window hidden.
pub const HIDDEN_FLAG: &'static str = "--hidden";

/// Diagnostic of a run loop that fails to start.
pub const RUN_FAILURE_MESSAGE: &'static str = "error while running tauri application";

/// The kind of platform the shell runs on.
#[derive(Clone, Copy, Debug, PartialEq, Eq, Structural)]
pub enum TargetClass {
    /// The application manages the visibility of its own window.
    Desktop,
    /// The operating system's shell manages window visibility.
    Mobile,
}

/// The kind of build the shell was compiled as.
#[derive(Clone, Copy, Debug, PartialEq, Eq, Structural)]
pub enum BuildClass {
    /// Diagnostic instrumentation is included.
    Debug,
    /// No diagnostic instrumentation.
    Release,
}

/// Verbosity of the logger, from silent to most talkative.
#[derive(Clone, Copy, Debug, PartialEq, Eq, Structural)]
pub enum LogLevel {
    Off,
    Error,
    Warn,
    Info,
    Debug,
    Trace,
}

/// The characters of [`HIDDEN_FLAG`].
pub open spec fn hidden_flag_chars() -> Seq<char> {
    seq!['-', '-', 'h', 'i', 'd', 'd', 'e', 'n']
}

/// The characters of [`MAIN_WINDOW_LABEL`].
pub open spec fn main_window_label_chars() -> Seq<char> {
    seq!['m', 'a', 'i', 'n']
}

/// The two string constants hold exactly the characters spelled out above.
pub proof fn lemma_constant_chars()
    ensures
        HIDDEN_FLAG@ == hidden_flag_chars(),
        MAIN_WINDOW_LABEL@ == main_window_label_chars(),
{
    reveal_strlit("--hidden");
    reveal_strlit("main");
    assert(HIDDEN_FLAG@ =~= hidden_flag_chars());
    assert(MAIN_WINDOW_LABEL@ =~= main_window_label_chars());
}

} // verus!
