//! The per-connection session state machine.
//!
//! A session owns one connection's display name and phase and decides,
//! for every line the peer sends and every bus event its subscription
//! yields, exactly which lines to write back, which to broadcast, and
//! when to end. The surrounding loop only carries those decisions out:
//! it writes, publishes, and on every termination path calls
//! [`Session::terminate`] so the claimed name is always given back.
//!
//! The one decision that touches shared state, a rename, happens in
//! [`Session::rename`]: a single in-memory critical section over the
//! registry that computes plain values and performs no I/O, so the
//! registry lock never spans a suspension point.

use vstd::prelude::*;

use crate::bus::RecvOutcome;
use crate::messages;
use crate::messages::str_eq;
use crate::registry::NameRegistry;

verus! {

/// Where a session stands in its lifecycle.
#[derive(Clone, Copy, PartialEq, Eq, Structural, Debug)]
pub enum Phase {
    /// Connected; the greeting has not been written yet.
    Greeting,
    /// In the select loop, relaying lines and bus messages.
    Active,
    /// Finished; the session's name has been released.
    Terminating,
}

/// What the session loop must do with one inbound line.
pub enum Directive {
    /// Write the help text to this client only.
    WriteHelp,
    /// Write this farewell to this client, then terminate the session.
    Goodbye(String),
    /// Publish this line on the bus.
    Broadcast(String),
    /// Attempt a rename to this requested name via [`Session::rename`].
    Claim(String),
}

/// What came of a rename attempt.
pub enum RenameOutcome {
    /// The claim succeeded: publish this announcement on the bus.
    Announce(String),
    /// The name was taken: write this error to this client only.
    Reject(String),
}

/// A line asks for a rename when it starts with `/name ` and at least
/// one character follows the space; that remainder is the requested
/// name. A bare `/name ` with nothing after it is an ordinary message.
pub open spec fn is_rename(line: Seq<char>) -> bool {
    line.len() > 6 && line.subrange(0, 6) == "/name "@
}

/// The requested name carried by a rename line: all after `/name `.
pub open spec fn rename_arg(line: Seq<char>) -> Seq<char> {
    line.skip(6)
}

/// The decision owed for one inbound line: help and quit by exact
/// match, then rename requests, and every remaining line is chat,
/// tagged with the sender's current name.
pub open spec fn directive_for(name: Seq<char>, line: Seq<char>, d: Directive) -> bool {
    if line == "/help"@ {
        d is WriteHelp
    } else if line == "/quit"@ {
        d matches Directive::Goodbye(g) && g@ == "Goodbye!!"@
    } else if is_rename(line) {
        d matches Directive::Claim(r) && r@ == rename_arg(line)
    } else {
        d matches Directive::Broadcast(m) && m@ == messages::chat_line_spec(name, line)
    }
}

/// One connection's state: its display name and lifecycle phase.
pub struct Session {
    name: String,
    phase: Phase,
}

impl Session {
    /// The session's current display name.
    pub closed spec fn name_spec(self) -> Seq<char> {
        self.name@
    }

    /// The session's lifecycle phase.
    pub closed spec fn phase_spec(self) -> Phase {
        self.phase
    }

    /// Creates the session for a fresh connection under its
    /// address-derived default name.
    pub fn connect(default_name: String) -> (s: Session)
        ensures
            s.name_spec() == default_name@,
            s.phase_spec() is Greeting,
    {
        Session { name: default_name, phase: Phase::Greeting }
    }

    /// Whether the session is in its select loop.
    pub fn is_active(&self) -> (r: bool)
        ensures
            r == (self.phase_spec() is Active),
    {
        matches!(self.phase, Phase::Active)
    }

    /// The session's current display name, for writing and publishing.
    pub fn name(&self) -> (r: &String)
        ensures
            r@ == self.name_spec(),
    {
        &self.name
    }

    /// Produces the greeting line `You are <name>` and enters the
    /// select loop; the loop writes the greeting and then the help text.
    pub fn greet(&mut self) -> (g: String)
        requires
            old(self).phase_spec() is Greeting,
        ensures
            final(self).name_spec() == old(self).name_spec(),
            final(self).phase_spec() is Active,
            g@ == messages::greeting_line_spec(old(self).name_spec()),
    {
        self.phase = Phase::Active;
        messages::greeting_line(self.name.as_str())
    }

    /// Decides what one inbound line means, without touching any
    /// shared state.
    pub fn handle_line(&self, line: &str) -> (d: Directive)
        requires
            self.phase_spec() is Active,
        ensures
            directive_for(self.name_spec(), line@, d),
    {
        if str_eq(line, "/help") {
            Directive::WriteHelp
        } else if str_eq(line, "/quit") {
            Directive::Goodbye(messages::goodbye_line())
        } else {
            match rename_request(line) {
                Some(requested) => Directive::Claim(requested),
                None => Directive::Broadcast(messages::chat_line(self.name.as_str(), line)),
            }
        }
    }

    /// The rename critical section: one atomic check-and-insert on the
    /// registry, pure in-memory work with no I/O. On success the session
    /// adopts the requested name, its old claim is given back, and the
    /// announcement to broadcast carries the old name; on a collision
    /// nothing changes and the error to write is returned.
    pub fn rename(&mut self, registry: &mut NameRegistry, requested: &str) -> (out: RenameOutcome)
        requires
            old(self).phase_spec() is Active,
        ensures
            final(self).phase_spec() is Active,
            old(registry)@.contains(requested@) ==> (out matches RenameOutcome::Reject(m)
                && m@ == messages::reject_line_spec(requested@)
                && final(self).name_spec() == old(self).name_spec()
                && final(registry)@ == old(registry)@),
            !old(registry)@.contains(requested@) ==> (out matches RenameOutcome::Announce(m)
                && m@ == messages::rename_line_spec(old(self).name_spec(), requested@)
                && final(self).name_spec() == requested@
                && final(registry)@ == old(registry)@.insert(requested@).remove(
                    old(self).name_spec(),
                )),
    {
        let claimed = registry.try_claim(requested, self.name.as_str());
        if claimed {
            let announcement = messages::rename_line(self.name.as_str(), requested);
            self.name = requested.to_owned();
            RenameOutcome::Announce(announcement)
        } else {
            RenameOutcome::Reject(messages::reject_line(requested))
        }
    }

    /// Decides what one bus event means for this session: a message is
    /// written to the peer verbatim, a lag is tolerated silently, an
    /// idle bus is waited on, and a closed bus ends the session.
    pub fn handle_bus_event(&mut self, event: RecvOutcome) -> (w: Option<String>)
        requires
            old(self).phase_spec() is Active,
        ensures
            final(self).name_spec() == old(self).name_spec(),
            match event {
                RecvOutcome::Message(m) => (w matches Some(x) && x@ == m@)
                    && final(self).phase_spec() is Active,
                RecvOutcome::Lagged(_) => w is None && final(self).phase_spec() is Active,
                RecvOutcome::Empty => w is None && final(self).phase_spec() is Active,
                RecvOutcome::Closed => w is None && final(self).phase_spec() is Terminating,
            },
    {
        match event {
            RecvOutcome::Message(m) => Some(m),
            RecvOutcome::Lagged(_) => None,
            RecvOutcome::Empty => None,
            RecvOutcome::Closed => {
                self.phase = Phase::Terminating;
                None
            },
        }
    }

    /// Ends the session on any path: quit, peer disconnect, framing
    /// error, write failure, or bus shutdown. The session's current
    /// name leaves the registry, so a terminated session can never
    /// leak a claim; releasing a default name that was never claimed
    /// is a no-op.
    pub fn terminate(&mut self, registry: &mut NameRegistry)
        ensures
            final(self).name_spec() == old(self).name_spec(),
            final(self).phase_spec() is Terminating,
            final(registry)@ == old(registry)@.remove(old(self).name_spec()),
            !final(registry)@.contains(old(self).name_spec()),
    {
        registry.release(self.name.as_str());
        self.phase = Phase::Terminating;
    }
}

/// Splits a rename request into its requested name, or reports that
/// the line is not one.
fn rename_request(line: &str) -> (r: Option<String>)
    ensures
        match r {
            Some(a) => is_rename(line@) && a@ == rename_arg(line@),
            None => !is_rename(line@),
        },
{
    let n = line.unicode_len();
    if n <= 6 {
        return None;
    }
    let prefix = line.substring_char(0, 6);
    if !str_eq(prefix, "/name ") {
        return None;
    }
    let arg = line.substring_char(6, n);
    proof {
        assert(arg@ =~= rename_arg(line@));
    }
    Some(arg.to_owned())
}

} // verus!
