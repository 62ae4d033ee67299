//! Decisions of the tasks around the session engine: what the console input
//! adapter does with a typed line, how each supervisor reacts to a finished
//! session, and the command-line defaults.

use vstd::prelude::*;
use vstd::string::StrSliceExecFns;
use crate::common::{InternalMessage, EventView, ProcessResult};

verus! {

/// A typed line with its single trailing line terminator removed.
pub open spec fn stripped_line(line: Seq<char>) -> Seq<char> {
    if line.len() > 0 {
        line.drop_last()
    } else {
        line
    }
}

/// The console command that quits the local session.
pub open spec fn quit_command() -> Seq<char> {
    "\\quit"@
}

/// The event the console input adapter emits for a typed line: the quit
/// command always quits; any other line is forwarded as input while a peer
/// is connected and discarded while none is.
pub open spec fn console_event(line: Seq<char>, connected: bool) -> Option<EventView> {
    if stripped_line(line) == quit_command() {
        Some(EventView::Quit)
    } else if !connected {
        None
    } else {
        Some(EventView::Input(stripped_line(line)))
    }
}

/// Whether the console input adapter stops reading after a line: only the
/// quit command stops it.
pub open spec fn console_stops(line: Seq<char>) -> bool {
    stripped_line(line) == quit_command()
}

/// What the console input adapter does with one typed line.
pub struct ConsoleStep {
    /// Event to emit onto the session engine's stream, if any.
    pub event: Option<InternalMessage>,
    /// Whether to stop reading further lines.
    pub stop: bool,
}

/// Decides what to do with one line read from the console, terminator still
/// attached. `connected` is the advisory connectivity flag: lines typed with
/// no live peer are discarded.
pub fn console_step(line: String, connected: bool) -> (r: ConsoleStep)
    ensures
        r.event.deep_view() == console_event(line@, connected),
        r.stop == console_stops(line@),
{
    let ghost line_view = line@;
    let n = line.as_str().unicode_len();
    let stripped: String = if n > 0 {
        line.as_str().substring_char(0, n - 1).to_owned()
    } else {
        line
    };
    proof {
        assert(stripped@ =~= stripped_line(line_view));
    }
    let quit: String = "\\quit".to_owned();
    if stripped == quit {
        ConsoleStep { event: Some(InternalMessage::Quit), stop: true }
    } else if !connected {
        ConsoleStep { event: None, stop: false }
    } else {
        ConsoleStep { event: Some(InternalMessage::Input(stripped)), stop: false }
    }
}

/// Whether the server keeps accepting connections after a session ends:
/// only a peer that disconnected cleanly lets the accept loop resume.
pub open spec fn server_continues(outcome: ProcessResult) -> bool {
    outcome == ProcessResult::PeerDisconnected
}

/// The server role's accept-loop state: the advisory connectivity flag it
/// arms while a connection is live.
pub struct ServerSupervisor {
    pub connected: bool,
}

impl ServerSupervisor {
    /// A server starts with no peer connected.
    pub fn new() -> (s: ServerSupervisor)
        ensures
            !s.connected,
    {
        ServerSupervisor { connected: false }
    }

    /// A connection was accepted: arm the connectivity flag.
    pub fn on_accept(&mut self)
        ensures
            final(self).connected,
    {
        self.connected = true;
    }

    /// A session finished: disarm the connectivity flag, whatever happened,
    /// and say whether to accept the next connection.
    pub fn on_session_end(&mut self, outcome: ProcessResult) -> (cont: bool)
        ensures
            !final(self).connected,
            cont == server_continues(outcome),
    {
        self.connected = false;
        match outcome {
            ProcessResult::PeerDisconnected => true,
            _ => false,
        }
    }
}

/// Whether the client prompts the user before exiting: it does when the
/// peer went away, cleanly or by termination; every other outcome was
/// already reported by the engine itself.
pub open spec fn client_prompts(outcome: ProcessResult) -> bool {
    outcome == ProcessResult::PeerDisconnected || outcome == ProcessResult::Terminated
}

/// The client role's state: the advisory connectivity flag its console
/// reader checks.
pub struct ClientSupervisor {
    pub connected: bool,
}

impl ClientSupervisor {
    /// A client starts connected: it runs only after the connection stands.
    pub fn new() -> (s: ClientSupervisor)
        ensures
            s.connected,
    {
        ClientSupervisor { connected: true }
    }

    /// The one session finished: disarm the flag when the peer went away and
    /// say whether to prompt the user before exiting.
    pub fn on_session_end(&mut self, outcome: ProcessResult) -> (prompt: bool)
        ensures
            prompt == client_prompts(outcome),
            final(self).connected == (old(self).connected && !client_prompts(outcome)),
    {
        match outcome {
            ProcessResult::PeerDisconnected | ProcessResult::Terminated => {
                self.connected = false;
                true
            },
            _ => false,
        }
    }
}

/// Applies the documented defaults to the parsed command-line values:
/// host `127.0.0.1`, port `6142`, mode `server`.
pub fn read_args(host: Option<String>, port: Option<String>, mode: Option<String>) -> (r: (
    String,
    String,
    String,
))
    ensures
        (match host {
            Some(h) => r.0@ == h@,
            None => r.0@ == "127.0.0.1"@,
        }),
        (match port {
            Some(p) => r.1@ == p@,
            None => r.1@ == "6142"@,
        }),
        (match mode {
            Some(m) => r.2@ == m@,
            None => r.2@ == "server"@,
        }),
{
    let host = match host {
        Some(h) => h,
        None => "127.0.0.1".to_owned(),
    };
    let port = match port {
        Some(p) => p,
        None => "6142".to_owned(),
    };
    let mode = match mode {
        Some(m) => m,
        None => "server".to_owned(),
    };
    (host, port, mode)
}

} // verus!
