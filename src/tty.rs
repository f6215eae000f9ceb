//! Terminal configuration: the record negotiated with the guest and read
//! by the terminal file when it transforms writes.
use vstd::prelude::*;

verus! {

/// The terminal configuration owned by the runtime.
#[derive(Clone, Copy, Debug, PartialEq, Eq, Structural)]
pub struct TtyOptions {
    pub cols: u32,
    pub rows: u32,
    pub echo: bool,
    pub line_buffering: bool,
    pub line_feeds: bool,
}

/// The terminal state reported to and accepted from the guest.
#[derive(Clone, Copy, Debug, PartialEq, Eq, Structural)]
pub struct WasiTtyState {
    pub cols: u32,
    pub rows: u32,
    pub width: u32,
    pub height: u32,
    pub stdin_tty: bool,
    pub stdout_tty: bool,
    pub stderr_tty: bool,
    pub echo: bool,
    pub line_buffered: bool,
    pub line_feeds: bool,
}

/// Pixel width reported for the terminal.
pub const TTY_WIDTH: u32 = 800;

/// Pixel height reported for the terminal.
pub const TTY_HEIGHT: u32 = 600;

/// The state that `tty_get` reports for a configuration.
pub open spec fn state_of(o: TtyOptions) -> WasiTtyState {
    WasiTtyState {
        cols: o.cols,
        rows: o.rows,
        width: TTY_WIDTH,
        height: TTY_HEIGHT,
        stdin_tty: true,
        stdout_tty: true,
        stderr_tty: true,
        echo: o.echo,
        line_buffered: o.line_buffering,
        line_feeds: o.line_feeds,
    }
}

/// The configuration that `tty_set` leaves behind: every negotiable field
/// comes from the state, the rest are not part of the configuration.
pub open spec fn options_of(s: WasiTtyState) -> TtyOptions {
    TtyOptions {
        cols: s.cols,
        rows: s.rows,
        echo: s.echo,
        line_buffering: s.line_buffered,
        line_feeds: s.line_feeds,
    }
}

/// The configuration after `reset`: echo, line buffering and line-feed
/// translation on, the size kept.
pub open spec fn reset_of(o: TtyOptions) -> TtyOptions {
    TtyOptions { echo: true, line_buffering: true, line_feeds: true, ..o }
}

impl TtyOptions {
    /// A fresh session of the given size, with echo, line buffering and
    /// line-feed translation on.
    pub fn new(cols: u32, rows: u32) -> (r: TtyOptions)
        ensures
            r.cols == cols,
            r.rows == rows,
            r.echo,
            r.line_buffering,
            r.line_feeds,
    {
        TtyOptions { cols, rows, echo: true, line_buffering: true, line_feeds: true }
    }

    /// Re-initialises the terminal session.
    pub fn reset(&mut self)
        ensures
            *final(self) == reset_of(*old(self)),
    {
        self.echo = true;
        self.line_buffering = true;
        self.line_feeds = true;
    }

    /// The state reported to the guest.
    pub fn tty_get(&self) -> (r: WasiTtyState)
        ensures
            r == state_of(*self),
    {
        WasiTtyState {
            cols: self.cols,
            rows: self.rows,
            width: TTY_WIDTH,
            height: TTY_HEIGHT,
            stdin_tty: true,
            stdout_tty: true,
            stderr_tty: true,
            echo: self.echo,
            line_buffered: self.line_buffering,
            line_feeds: self.line_feeds,
        }
    }

    /// Takes the guest's columns, rows, echo, line buffering and line-feed
    /// mode; the rest of the state is not configurable.
    pub fn tty_set(&mut self, tty_state: WasiTtyState)
        ensures
            *final(self) == options_of(tty_state),
    {
        self.cols = tty_state.cols;
        self.rows = tty_state.rows;
        self.echo = tty_state.echo;
        self.line_buffering = tty_state.line_buffered;
        self.line_feeds = tty_state.line_feeds;
    }
}

/// Setting the terminal state and reading it back gives the same columns,
/// rows, echo, line buffering and line-feed mode that were set; `tty_set`
/// leaves nothing of the configuration before it.
pub proof fn lemma_set_then_get(st: WasiTtyState)
    ensures
        ({
            let got = state_of(options_of(st));
            &&& got.cols == st.cols
            &&& got.rows == st.rows
            &&& got.echo == st.echo
            &&& got.line_buffered == st.line_buffered
            &&& got.line_feeds == st.line_feeds
        }),
{
}

} // verus!
