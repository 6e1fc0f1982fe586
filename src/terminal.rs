use vstd::prelude::*;

verus! {

/// A change to make to the terminal.
#[derive(PartialEq, Eq, Structural, Clone, Copy, Debug)]
pub enum TerminalCommand {
    /// Raw input and the alternate screen.
    EnterManaged,
    /// Back to the ordinary terminal.
    LeaveManaged,
    /// Drop the buffered frame and redraw everything.
    Clear,
}

/// Whether the terminal is in managed mode: raw input on the alternate
/// screen, drawn by the dispatch loop.
#[derive(PartialEq, Eq, Structural, Clone, Copy, Debug)]
pub struct TerminalState {
    pub managed: bool,
}

/// What a suspension must undo when the operation it makes room for is
/// over.
#[derive(PartialEq, Eq, Structural, Clone, Copy, Debug)]
pub struct Suspension {
    pub restore: bool,
}

/// `before` and `after` are the states around the start of a suspension
/// that handed out `ticket`, and `cmds` the commands it gave.
pub open spec fn suspend_began(
    before: TerminalState,
    after: TerminalState,
    ticket: Suspension,
    cmds: Seq<TerminalCommand>,
) -> bool {
    &&& !after.managed
    &&& ticket.restore == before.managed
    &&& cmds == (if before.managed {
        seq![TerminalCommand::LeaveManaged]
    } else {
        Seq::empty()
    })
}

/// `before` and `after` are the states around the end of the suspension of
/// `ticket`, and `cmds` the commands it gave.
pub open spec fn suspend_ended(
    before: TerminalState,
    ticket: Suspension,
    after: TerminalState,
    cmds: Seq<TerminalCommand>,
) -> bool {
    if ticket.restore {
        &&& after.managed
        &&& cmds == seq![TerminalCommand::EnterManaged, TerminalCommand::Clear]
    } else {
        &&& after == before
        &&& cmds == Seq::<TerminalCommand>::empty()
    }
}

fn one_command(c: TerminalCommand) -> (r: Vec<TerminalCommand>)
    ensures
        r@ == seq![c],
{
    let mut r: Vec<TerminalCommand> = Vec::new();
    r.push(c);
    r
}

impl TerminalState {
    /// The terminal as the process finds it.
    pub fn new() -> (r: TerminalState)
        ensures
            !r.managed,
    {
        TerminalState { managed: false }
    }

    /// Enters managed mode, where it is not entered yet.
    pub fn enter(&mut self) -> (cmds: Vec<TerminalCommand>)
        ensures
            final(self).managed,
            cmds@ == (if old(self).managed {
                Seq::empty()
            } else {
                seq![TerminalCommand::EnterManaged]
            }),
    {
        if self.managed {
            Vec::new()
        } else {
            self.managed = true;
            one_command(TerminalCommand::EnterManaged)
        }
    }

    /// Leaves managed mode, where it is in it: before the process ends,
    /// normally or on a fatal error.
    pub fn exit(&mut self) -> (cmds: Vec<TerminalCommand>)
        ensures
            !final(self).managed,
            cmds@ == (if old(self).managed {
                seq![TerminalCommand::LeaveManaged]
            } else {
                Seq::empty()
            }),
    {
        if self.managed {
            self.managed = false;
            one_command(TerminalCommand::LeaveManaged)
        } else {
            Vec::new()
        }
    }

    /// Hands the terminal to an outside operation: leaves managed mode and
    /// notes whether it is to be entered again afterwards.
    pub fn suspend(&mut self) -> (r: (Suspension, Vec<TerminalCommand>))
        ensures
            suspend_began(*old(self), *final(self), r.0, r.1@),
    {
        let ticket = Suspension { restore: self.managed };
        let cmds = self.exit();
        (ticket, cmds)
    }

    /// Takes the terminal back after the operation, whatever came of it and
    /// whatever it did to the terminal: managed mode is entered again and the
    /// screen redrawn in full, where the suspension began in managed mode,
    /// and nothing is done where it did not.
    pub fn resume(&mut self, ticket: Suspension) -> (cmds: Vec<TerminalCommand>)
        ensures
            suspend_ended(*old(self), ticket, *final(self), cmds@),
    {
        if ticket.restore {
            self.managed = true;
            let mut cmds: Vec<TerminalCommand> = Vec::new();
            cmds.push(TerminalCommand::EnterManaged);
            cmds.push(TerminalCommand::Clear);
            assert(cmds@ =~= seq![TerminalCommand::EnterManaged, TerminalCommand::Clear]);
            cmds
        } else {
            let cmds: Vec<TerminalCommand> = Vec::new();
            assert(cmds@ =~= Seq::<TerminalCommand>::empty());
            cmds
        }
    }
}

/// A suspension leaves the terminal in the mode it found it in, whatever
/// happened to the terminal while it was suspended: in managed mode where it
/// began in managed mode, and with no spurious entry where it did not.
pub proof fn lemma_suspend_restores_mode(
    before: TerminalState,
    suspended: TerminalState,
    ticket: Suspension,
    begin_cmds: Seq<TerminalCommand>,
    during: TerminalState,
    after: TerminalState,
    end_cmds: Seq<TerminalCommand>,
)
    requires
        suspend_began(before, suspended, ticket, begin_cmds),
        suspend_ended(during, ticket, after, end_cmds),
    ensures
        before.managed ==> after.managed,
        !before.managed ==> after == during && end_cmds.len() == 0,
{
}

} // verus!
