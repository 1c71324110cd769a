use std::time::Instant;
use vstd::prelude::*;

use crate::activity::ExitReason;
use crate::clock::now;
use crate::config::Termusic;

verus! {

/// A request to the audio player.
#[derive(Debug, PartialEq, Eq)]
pub enum PlayerCommand {
    /// Queue the file at this path and play it.
    Play(String),
    TogglePause,
    /// Seek by this many seconds.
    Seek(i64),
    VolumeUp,
    VolumeDown,
}

/// The application: its configuration, its drawing flags and the terminal context
/// (`Ctx`) it hands to the main screen while that screen runs.
pub struct App<Ctx> {
    pub config: Termusic,
    /// Becomes true when the user asks to leave.
    pub quit: bool,
    /// Whether the interface must be refreshed.
    pub redraw: bool,
    /// When the interface was last refreshed.
    pub last_redraw: Instant,
    pub context: Option<Ctx>,
}

/// Number of passes of the main loop between two refreshes of the slow widgets
/// (progress, downloads, search results) and two playback steps.
pub const PROGRESS_PERIOD: u32 = 8;

/// The pass counter after a pass that found it at `interval`.
pub open spec fn next_interval(interval: int) -> int {
    if interval + 1 >= PROGRESS_PERIOD {
        0
    } else {
        interval + 1
    }
}

/// The pass counter after `n` passes of the main loop.
pub open spec fn interval_after(n: nat) -> int
    decreases n,
{
    if n == 0 {
        0
    } else {
        next_interval(interval_after((n - 1) as nat))
    }
}

/// The application with its context taken away.
pub open spec fn without_context<Ctx>(app: App<Ctx>) -> App<Ctx> {
    App { context: None, ..app }
}

/// The application after a run ended with `reason`: no context, and quitting if the
/// user quit.
pub open spec fn ended<Ctx>(app: App<Ctx>, reason: Option<ExitReason>) -> App<Ctx> {
    App { quit: app.quit || (reason matches Some(ExitReason::Quit)), context: None, ..app }
}

impl<Ctx> App<Ctx> {
    /// A new application on `context`, which the caller has already switched to the
    /// alternate screen and cleared: not quitting, due for a first draw.
    pub fn new(config: Termusic, context: Ctx) -> (app: Self)
        ensures
            app.config == config,
            !app.quit,
            app.redraw,
            app.context == Some(context),
    {
        App { config, quit: false, redraw: true, last_redraw: now(), context: Some(context) }
    }

    /// Starts a run of the main screen: the context is taken from the application. With
    /// `None` the run cannot start.
    pub fn begin_run(&mut self) -> (context: Option<Ctx>)
        ensures
            context == old(self).context,
            *final(self) == without_context(*old(self)),
    {
        self.context.take()
    }

    /// Ends a run with the context the main screen gave back when it closed and the
    /// reason the screen gave for closing. The application does not keep the context: it
    /// is handed out to be released. A run that ended because the user quit leaves the
    /// application quitting.
    pub fn end_run(&mut self, returned: Option<Ctx>, reason: Option<&ExitReason>) -> (released: Option<Ctx>)
        ensures
            released == returned,
            *final(self) == (App {
                quit: old(self).quit || (reason matches Some(ExitReason::Quit)),
                ..without_context(*old(self))
            }),
    {
        self.context = returned;
        if leaves_main_loop(reason) {
            self.quit = true;
        }
        self.context.take()
    }
}

/// One pass of the main loop's counter: whether the slow widgets are due in this pass
/// (the counter is at 0), and the counter for the next pass.
pub fn advance_progress(interval: u32) -> (step: (bool, u32))
    ensures
        step.0 == (interval == 0),
        step.1 == next_interval(interval as int),
{
    let due = interval == 0;
    let next = if interval >= PROGRESS_PERIOD - 1 {
        0
    } else {
        interval + 1
    };
    (due, next)
}

/// Whether the main loop ends after a pass in which the main screen gave `reason`:
/// only on `Quit`.
pub fn leaves_main_loop(reason: Option<&ExitReason>) -> (leave: bool)
    ensures
        leave == (reason matches Some(ExitReason::Quit)),
{
    match reason {
        Some(ExitReason::Quit) => true,
        _ => false,
    }
}

/// The slow widgets refresh on every `PROGRESS_PERIOD`-th pass of the main loop,
/// starting with the first: after `n` passes the counter is `n` modulo the period, so a
/// pass is a refreshing one exactly when the number of passes before it is a multiple
/// of the period.
pub proof fn law_progress_cadence(n: nat)
    ensures
        interval_after(n) == n % (PROGRESS_PERIOD as nat),
        (interval_after(n) == 0) == (n % (PROGRESS_PERIOD as nat) == 0),
    decreases n,
{
    if n > 0 {
        law_progress_cadence((n - 1) as nat);
    }
}

/// A run of the main screen consumes the application's context: the run takes it, and
/// whatever the screen gives back is released, so after the run the application holds
/// no context and a further run cannot start. A run that ends because the user quit
/// leaves the application quitting.
pub proof fn law_run_consumes_context<Ctx>(app: App<Ctx>, reason: Option<ExitReason>)
    ensures
        ended(without_context(app), reason).context is None,
        (reason matches Some(ExitReason::Quit)) ==> ended(without_context(app), reason).quit,
{
}

} // verus!
