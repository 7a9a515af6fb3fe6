//! What is asked of an X server, and on which connection.

use vstd::prelude::*;

use crate::config::{native_wayland, texts, ConfigCell, LinuxWindowing};

verus! {

/// The atom under which a window manager keeps a window's state.
pub const NET_WM_STATE: &'static str = "_NET_WM_STATE";

/// Takes a state from a window.
pub const NET_WM_STATE_REMOVE: i64 = 0;

/// Gives a state to a window.
pub const NET_WM_STATE_ADD: i64 = 1;

/// The kind of an event that is a message between clients.
pub const CLIENT_MESSAGE: i32 = 33;

/// Selects the client that redirects requests of the windows below: the window
/// manager.
pub const SUBSTRUCTURE_REDIRECT_MASK: i64 = 0x10_0000;

/// Selects the clients that are told of changes of the windows below.
pub const SUBSTRUCTURE_NOTIFY_MASK: i64 = 0x8_0000;

/// Whether the error handlers of Xlib are to be replaced by ones that only log.
/// They are wherever Xlib could be loaded and windows are not native to Wayland,
/// however often it is asked. Only a build for Linux that has native Wayland windows
/// looks at the configuration.
pub fn install_x_error_handlers(
    cell: &mut ConfigCell,
    executable: Option<String>,
    has_native_wayland: bool,
    xlib_loaded: bool,
) -> (r: bool)
    ensures
        has_native_wayland ==> (final(cell)@ matches Some(config) && {
            &&& r == (config.linux_windowing != LinuxWindowing::Wayland && xlib_loaded)
            &&& old(cell)@ matches Some(before) ==> config == before
            &&& old(cell)@ is None ==> config.is_default_of(executable) && r == xlib_loaded
        }),
        !has_native_wayland ==> r == xlib_loaded && final(cell)@ == old(cell)@,
{
    if native_wayland(cell, executable, has_native_wayland) {
        return false;
    }
    xlib_loaded
}

/// What is done about a piece of work that needs a connection to an X server.
#[derive(Clone, Copy, Debug, PartialEq, Eq, Structural)]
pub enum DisplayStep {
    /// The work is not done, and its default result stands.
    UseDefault,
    /// A connection is opened. Go on with [`DisplayCell::opened`].
    Open,
    /// The work is done on the connection at this address, and the connection is
    /// flushed.
    Run(u64),
}

/// The connection that a thread has of its own, once there is one.
#[derive(Debug, PartialEq, Eq)]
pub struct DisplayCell {
    display: Option<u64>,
}

impl View for DisplayCell {
    type V = Option<u64>;

    closed spec fn view(&self) -> Option<u64> {
        self.display
    }
}

/// What is done about work on a thread's own connection.
pub open spec fn own_display_step(display: Option<u64>, xlib_loaded: bool) -> DisplayStep {
    if !xlib_loaded {
        DisplayStep::UseDefault
    } else {
        match display {
            Some(address) => DisplayStep::Run(address),
            None => DisplayStep::Open,
        }
    }
}

/// The connection that a thread has after an attempt to open one came back with an
/// address, which is zero where it failed.
pub open spec fn display_after(address: u64) -> Option<u64> {
    if address == 0 {
        None
    } else {
        Some(address)
    }
}

/// What is done about work on a connection at the given address, which is zero
/// where there is none.
pub open spec fn display_step(address: u64) -> DisplayStep {
    if address == 0 {
        DisplayStep::UseDefault
    } else {
        DisplayStep::Run(address)
    }
}

impl DisplayCell {
    /// The cell of a thread that has no connection yet.
    pub fn new() -> (r: DisplayCell)
        ensures
            r@ is None,
    {
        DisplayCell { display: None }
    }

    /// What is done about work on this thread's own connection.
    pub fn with_x11(&self, xlib_loaded: bool) -> (r: DisplayStep)
        ensures
            r == own_display_step(self@, xlib_loaded),
    {
        if !xlib_loaded {
            return DisplayStep::UseDefault;
        }
        match self.display {
            Some(address) => DisplayStep::Run(address),
            None => DisplayStep::Open,
        }
    }

    /// Takes the address of the connection that was to be opened: zero where that
    /// failed, and then nothing is kept.
    pub fn opened(&mut self, address: u64) -> (r: DisplayStep)
        requires
            old(self)@ is None,
        ensures
            final(self)@ == display_after(address),
            r == display_step(address),
    {
        if address == 0 {
            return DisplayStep::UseDefault;
        }
        self.display = Some(address);
        DisplayStep::Run(address)
    }
}

/// What is done about work on CEF's connection, from its address.
pub fn with_cef_display(xlib_loaded: bool, address: u64) -> (r: DisplayStep)
    ensures
        r == (if xlib_loaded {
            display_step(address)
        } else {
            DisplayStep::UseDefault
        }),
{
    if !xlib_loaded || address == 0 {
        return DisplayStep::UseDefault;
    }
    DisplayStep::Run(address)
}

/// A message between clients.
#[derive(Debug, PartialEq, Eq)]
pub struct ClientMessage {
    pub kind: i32,
    pub serial: u64,
    pub send_event: i32,
    pub window: u64,
    pub message_type: u64,
    pub format: i32,
    pub data: [i64; 5],
}

/// An event that is sent to the root window.
#[derive(Debug, PartialEq, Eq)]
pub struct SentEvent {
    pub propagate: i32,
    pub mask: i64,
    pub message: ClientMessage,
}

/// The names of the atoms that a change of a window's states takes: the property
/// that holds them, the first state, and the second if there is one.
pub fn wm_state_atoms(atom1: String, atom2: Option<String>) -> (r: Vec<String>)
    ensures
        texts(r@) == seq![NET_WM_STATE@, atom1@] + (match atom2 {
            Some(name) => seq![name@],
            None => seq![],
        }),
{
    let mut names: Vec<String> = Vec::new();
    names.push(NET_WM_STATE.to_owned());
    names.push(atom1);
    if let Some(name) = atom2 {
        names.push(name);
    }
    assert(texts(names@) =~= seq![NET_WM_STATE@, atom1@] + (match atom2 {
        Some(name) => seq![name@],
        None => seq![],
    }));
    names
}

/// Asks the window manager to give a state, or two at once, to a window, or to take
/// them from it. The states, and the property that holds them, come as the atoms of
/// [`wm_state_atoms`], which Xlib sends as signed numbers of the same bits.
pub fn set_wm_state(xid: u64, add: bool, wm_state: u64, atom1: u64, atom2: Option<u64>) -> (r: SentEvent)
    ensures
        r.propagate == 0,
        r.mask == SUBSTRUCTURE_REDIRECT_MASK + SUBSTRUCTURE_NOTIFY_MASK,
        r.mask == 0x18_0000,
        r.message.kind == 33,
        r.message.data@[0] == 1 <==> add,
        r.message.data@[0] == 0 <==> !add,
        atom1 <= i64::MAX ==> r.message.data@[1] == atom1,
        atom2 matches Some(atom) ==> (atom <= i64::MAX ==> r.message.data@[2] == atom),
        atom2 is None ==> r.message.data@[2] == 0,
        r.message.kind == CLIENT_MESSAGE,
        r.message.serial == 0,
        r.message.send_event == 1,
        r.message.window == xid,
        r.message.message_type == wm_state,
        r.message.format == 32,
        r.message.data@ == seq![
            if add {
                NET_WM_STATE_ADD
            } else {
                NET_WM_STATE_REMOVE
            },
            atom1 as i64,
            match atom2 {
                Some(atom) => atom as i64,
                None => 0,
            },
            1i64,
            0i64,
        ],
{
    let action: i64 = if add {
        NET_WM_STATE_ADD
    } else {
        NET_WM_STATE_REMOVE
    };
    let second: i64 = match atom2 {
        Some(atom) => atom as i64,
        None => 0,
    };
    assert(0x10_0000i64 | 0x8_0000i64 == 0x10_0000i64 + 0x8_0000i64) by (bit_vector);
    SentEvent {
        propagate: 0,
        mask: SUBSTRUCTURE_REDIRECT_MASK | SUBSTRUCTURE_NOTIFY_MASK,
        message: ClientMessage {
            kind: CLIENT_MESSAGE,
            serial: 0,
            send_event: 1,
            window: xid,
            message_type: wm_state,
            format: 32,
            data: [action, atom1 as i64, second, 1, 0],
        },
    }
}

/// A thread opens a connection at most once: work that finds one opened runs on it,
/// and so does all later work. A failed attempt leaves nothing behind, and is made
/// again.
pub proof fn connection_is_opened_once(address: u64)
    ensures
        own_display_step(None, true) == DisplayStep::Open,
        address != 0 ==> display_step(address) == DisplayStep::Run(address) && own_display_step(
            display_after(address),
            true,
        ) == DisplayStep::Run(address),
        address == 0 ==> display_step(address) == DisplayStep::UseDefault && own_display_step(
            display_after(address),
            true,
        ) == DisplayStep::Open,
{
}

/// Work runs on a connection exactly when Xlib was loaded and there is one, and then
/// on that one.
pub proof fn work_runs_on_the_connection_there_is(display: Option<u64>, address: u64, xlib_loaded: bool)
    ensures
        own_display_step(display, xlib_loaded) == DisplayStep::Run(address) <==> xlib_loaded && display
            == Some(address),
        own_display_step(display, xlib_loaded) == DisplayStep::Open <==> xlib_loaded && display is None,
        own_display_step(display, xlib_loaded) == DisplayStep::UseDefault <==> !xlib_loaded,
        display_step(address) == DisplayStep::Run(address) <==> address != 0,
        display_step(address) == DisplayStep::UseDefault <==> address == 0,
        display_after(address) == Some(address) <==> address != 0,
        display_after(address) is None <==> address == 0,
{
}

} // verus!
