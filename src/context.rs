//! The engine session: when it may be started, configured and closed.
use vstd::prelude::*;

use crate::error::{error_of, Error, STATUS_SUCCESS};
use crate::surface::DIM_MAX;

verus! {

/// Command-buffer size the engine uses unless told otherwise.
pub const DEFAULT_COMMAND_SIZE: u32 = 65536;

/// Where the engine is in its life.
#[derive(Debug, Clone, Copy, PartialEq, Eq, Structural)]
pub enum EngineState {
    Uninitialized,
    Active,
    Closed,
}

/// How a start of the engine in state `s` ends, given its native status.
pub open spec fn start_outcome(s: EngineState, status: u32) -> Result<(), Error> {
    if s == EngineState::Active {
        Err(Error::AlreadyExists)
    } else if status != STATUS_SUCCESS {
        Err(error_of(status))
    } else {
        Ok(())
    }
}

/// The engine's state after a start in state `s` with that native status.
pub open spec fn state_after_start(s: EngineState, status: u32) -> EngineState {
    if start_outcome(s, status) is Ok {
        EngineState::Active
    } else {
        s
    }
}

/// A handle on a started engine session. There is at most one at a time,
/// and closing it consumes it.
#[derive(Debug)]
pub struct Context {
    tess_width: u32,
    tess_height: u32,
}

impl Context {
    pub closed spec fn spec_tess_width(self) -> u32 {
        self.tess_width
    }

    pub closed spec fn spec_tess_height(self) -> u32 {
        self.tess_height
    }

    /// Width of the tessellation window the session was started with.
    pub fn tess_width(&self) -> (r: u32)
        ensures
            r == self.spec_tess_width(),
    {
        self.tess_width
    }

    /// Height of the tessellation window the session was started with.
    pub fn tess_height(&self) -> (r: u32)
        ensures
            r == self.spec_tess_height(),
    {
        self.tess_height
    }
}

/// The bookkeeping around the one engine of a process: its state and the
/// command-buffer size the next session starts with.
#[derive(Debug)]
pub struct Engine {
    state: EngineState,
    command_size: u32,
}

impl Engine {
    pub closed spec fn spec_state(self) -> EngineState {
        self.state
    }

    pub closed spec fn spec_command_size(self) -> u32 {
        self.command_size
    }

    /// An engine that was never started, with the default command size.
    pub fn new() -> (r: Engine)
        ensures
            r.spec_state() == EngineState::Uninitialized,
            r.spec_command_size() == DEFAULT_COMMAND_SIZE,
    {
        Engine { state: EngineState::Uninitialized, command_size: DEFAULT_COMMAND_SIZE }
    }

    pub fn state(&self) -> (r: EngineState)
        ensures
            r == self.spec_state(),
    {
        self.state
    }

    pub fn command_size(&self) -> (r: u32)
        ensures
            r == self.spec_command_size(),
    {
        self.command_size
    }

    /// Records a new command-buffer size for sessions started later. It is
    /// refused with `AlreadyExists` while a session is active.
    pub fn set_command_size(&mut self, size: u32) -> (r: Result<(), Error>)
        ensures
            final(self).spec_state() == old(self).spec_state(),
            old(self).spec_state() == EngineState::Active ==> {
                &&& r == Err::<(), Error>(Error::AlreadyExists)
                &&& final(self).spec_command_size() == old(self).spec_command_size()
            },
            old(self).spec_state() != EngineState::Active ==> {
                &&& r == Ok::<(), Error>(())
                &&& final(self).spec_command_size() == size
            },
    {
        if self.state == EngineState::Active {
            return Err(Error::AlreadyExists);
        }
        self.command_size = size;
        Ok(())
    }

    /// Whether a session may be started with this tessellation window, and
    /// the window as the engine takes it. A second start while a session is
    /// active is `AlreadyExists`; a side the engine cannot take is
    /// `InvalidArgument`.
    pub fn init_request(&self, tess_width: u32, tess_height: u32) -> (r: Result<(i32, i32), Error>)
        ensures
            r == (if self.spec_state() == EngineState::Active {
                Err(Error::AlreadyExists)
            } else if tess_width > DIM_MAX || tess_height > DIM_MAX {
                Err(Error::InvalidArgument)
            } else {
                Ok((tess_width as i32, tess_height as i32))
            }),
    {
        if self.state == EngineState::Active {
            Err(Error::AlreadyExists)
        } else if tess_width > DIM_MAX || tess_height > DIM_MAX {
            Err(Error::InvalidArgument)
        } else {
            Ok((tess_width as i32, tess_height as i32))
        }
    }

    /// Settles a start of the engine from its native status: on success the
    /// engine is active and the session's handle is returned. A start while
    /// a session is active is refused with `AlreadyExists` whatever the
    /// status says.
    pub fn init_done(&mut self, tess_width: u32, tess_height: u32, status: u32) -> (r: Result<
        Context,
        Error,
    >)
        ensures
            final(self).spec_command_size() == old(self).spec_command_size(),
            final(self).spec_state() == state_after_start(old(self).spec_state(), status),
            match start_outcome(old(self).spec_state(), status) {
                Ok(_) => r matches Ok(c) && c.spec_tess_width() == tess_width
                    && c.spec_tess_height() == tess_height,
                Err(e) => r == Err::<Context, Error>(e),
            },
    {
        if self.state == EngineState::Active {
            return Err(Error::AlreadyExists);
        }
        if status != STATUS_SUCCESS {
            return Err(Error::from(status));
        }
        self.state = EngineState::Active;
        Ok(Context { tess_width, tess_height })
    }

    /// Ends the session the handle stands for, consuming it. Returns whether
    /// the engine must be torn down, which is so exactly when a session was
    /// active.
    pub fn close(&mut self, _ctx: Context) -> (r: bool)
        ensures
            r == (old(self).spec_state() == EngineState::Active),
            final(self).spec_state() == (if r {
                EngineState::Closed
            } else {
                old(self).spec_state()
            }),
            final(self).spec_command_size() == old(self).spec_command_size(),
    {
        if self.state == EngineState::Active {
            self.state = EngineState::Closed;
            true
        } else {
            false
        }
    }
}

/// A session cannot be started twice: after a start that succeeded, a
/// second one, whatever its native status, fails with `AlreadyExists` and
/// leaves the first session active. Once that session is closed, a start
/// is settled by its status alone again.
pub proof fn lemma_second_start_refused(s0: EngineState, first: u32, second: u32)
    requires
        start_outcome(s0, first) is Ok,
    ensures
        state_after_start(s0, first) == EngineState::Active,
        start_outcome(state_after_start(s0, first), second) == Err::<(), Error>(Error::AlreadyExists),
        state_after_start(state_after_start(s0, first), second) == EngineState::Active,
        start_outcome(EngineState::Closed, second) == (if second == STATUS_SUCCESS {
            Ok::<(), Error>(())
        } else {
            Err(error_of(second))
        }),
{
}

} // verus!
