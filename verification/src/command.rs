//! The command engine: commands that set a light on or off, a registry of
//! lights, and a remote control that arms a command, executes it, logs every
//! execution in an append-only history, and replays the most recent entry's
//! inverse on undo.

use vstd::prelude::*;

verus! {

/// A receiver with two states: the light is on or it is off.
/// A fresh light starts off.
#[derive(Clone, Copy, PartialEq, Eq, Structural)]
pub struct Light {
    pub is_on: bool,
}

impl Light {
    pub fn new() -> (l: Light)
        ensures
            !l.is_on,
    {
        Light { is_on: false }
    }

    /// Switch the light on. Idempotent: an already lit light stays lit.
    pub fn on(&mut self)
        ensures
            final(self).is_on,
    {
        self.is_on = true;
    }

    /// Switch the light off. Idempotent: a dark light stays dark.
    pub fn off(&mut self)
        ensures
            !final(self).is_on,
    {
        self.is_on = false;
    }
}

/// A command that switches one registered light on.
/// `light` is the slot of its receiver in the invoker's registry; the command
/// holds only that handle, never the receiver's state.
#[derive(Clone, Copy, PartialEq, Eq, Structural)]
pub struct LightOnCommand {
    pub light: usize,
}

impl LightOnCommand {
    pub fn new(light: usize) -> (c: LightOnCommand)
        ensures
            c.light == light,
    {
        LightOnCommand { light }
    }

    pub fn execute(&self, lights: &mut Vec<Light>)
        requires
            self.light < old(lights)@.len(),
        ensures
            final(lights)@ == old(lights)@.update(self.light as int, (Light { is_on: true })),
    {
        let target = &mut lights[self.light];
        target.on();
    }

    /// The fixed inverse of `execute`: switch the same light off.
    pub fn undo(&self, lights: &mut Vec<Light>)
        requires
            self.light < old(lights)@.len(),
        ensures
            final(lights)@ == old(lights)@.update(self.light as int, (Light { is_on: false })),
    {
        let target = &mut lights[self.light];
        target.off();
    }
}

/// A command that switches one registered light off.
#[derive(Clone, Copy, PartialEq, Eq, Structural)]
pub struct LightOffCommand {
    pub light: usize,
}

impl LightOffCommand {
    pub fn new(light: usize) -> (c: LightOffCommand)
        ensures
            c.light == light,
    {
        LightOffCommand { light }
    }

    pub fn execute(&self, lights: &mut Vec<Light>)
        requires
            self.light < old(lights)@.len(),
        ensures
            final(lights)@ == old(lights)@.update(self.light as int, (Light { is_on: false })),
    {
        let target = &mut lights[self.light];
        target.off();
    }

    /// The fixed inverse of `execute`: switch the same light on.
    pub fn undo(&self, lights: &mut Vec<Light>)
        requires
            self.light < old(lights)@.len(),
        ensures
            final(lights)@ == old(lights)@.update(self.light as int, (Light { is_on: true })),
    {
        let target = &mut lights[self.light];
        target.on();
    }
}

/// The closed set of command variants. Duplication into the history is a plain
/// value copy, so a stored entry is independent of the armed original.
#[derive(Clone, Copy, PartialEq, Eq, Structural)]
pub enum Command {
    On(LightOnCommand),
    Off(LightOffCommand),
}

impl Command {
    /// The registry slot of the receiver this command acts on.
    pub open spec fn target(self) -> int {
        match self {
            Command::On(c) => c.light as int,
            Command::Off(c) => c.light as int,
        }
    }

    /// The state `execute` writes into its receiver.
    pub open spec fn exec_state(self) -> bool {
        match self {
            Command::On(_) => true,
            Command::Off(_) => false,
        }
    }

    /// The state `undo` writes: always the designed inverse of `exec_state`.
    pub open spec fn undo_state(self) -> bool {
        !self.exec_state()
    }

    /// The receiver's state after this command's `execute`, whatever it held
    /// before: execution is a blind assignment, not a delta.
    pub open spec fn apply_execute(self, l: Light) -> Light {
        Light { is_on: self.exec_state() }
    }

    /// The receiver's state after this command's `undo`; it never inspects
    /// the receiver's current state.
    pub open spec fn apply_undo(self, l: Light) -> Light {
        Light { is_on: self.undo_state() }
    }

    pub fn execute(&self, lights: &mut Vec<Light>)
        requires
            0 <= self.target() < old(lights)@.len(),
        ensures
            final(lights)@ == old(lights)@.update(
                self.target(),
                self.apply_execute(old(lights)@[self.target()]),
            ),
    {
        match self {
            Command::On(c) => c.execute(lights),
            Command::Off(c) => c.execute(lights),
        }
    }

    pub fn undo(&self, lights: &mut Vec<Light>)
        requires
            0 <= self.target() < old(lights)@.len(),
        ensures
            final(lights)@ == old(lights)@.update(
                self.target(),
                self.apply_undo(old(lights)@[self.target()]),
            ),
    {
        match self {
            Command::On(c) => c.undo(lights),
            Command::Off(c) => c.undo(lights),
        }
    }
}

/// The history after one button press with `armed` as the armed command:
/// a press with a command armed appends it, an unarmed press appends nothing.
pub open spec fn history_after_press(h: Seq<Command>, armed: Option<Command>) -> Seq<Command> {
    match armed {
        Some(c) => h.push(c),
        None => h,
    }
}

/// The lights after one undo press against history `h`: the most recent
/// entry is inspected — never removed — and its inverse is applied; with an
/// empty history nothing changes.
pub open spec fn lights_after_undo(h: Seq<Command>, ls: Seq<Light>) -> Seq<Light> {
    if h.len() == 0 {
        ls
    } else {
        ls.update(h.last().target(), h.last().apply_undo(ls[h.last().target()]))
    }
}

/// The invoker: holds at most one armed command and owns the registry of
/// lights and the append-only execution history.
pub struct RemoteControl {
    pub lights: Vec<Light>,
    pub command: Option<Command>,
    pub history: Vec<Command>,
}

impl RemoteControl {
    /// Well-formed: every command held — armed or logged — refers to a
    /// registered light. Lights are never removed, so every operation
    /// preserves this.
    pub open spec fn wf(self) -> bool {
        &&& (match self.command {
            Some(c) => 0 <= c.target() < self.lights@.len(),
            None => true,
        })
        &&& (forall|i: int|
            0 <= i < self.history@.len() ==> 0 <= (#[trigger] self.history@[i]).target()
                < self.lights@.len())
    }

    pub fn new() -> (r: RemoteControl)
        ensures
            r.lights@.len() == 0,
            r.command is None,
            r.history@.len() == 0,
            r.wf(),
    {
        RemoteControl { lights: Vec::new(), command: None, history: Vec::new() }
    }

    /// Register a light with the invoker; the returned slot is the handle
    /// commands name it by.
    pub fn add_light(&mut self, light: Light) -> (id: usize)
        ensures
            id == old(self).lights@.len(),
            final(self).lights@ == old(self).lights@.push(light),
            final(self).command == old(self).command,
            final(self).history@ == old(self).history@,
            old(self).wf() ==> final(self).wf(),
    {
        let id = self.lights.len();
        self.lights.push(light);
        id
    }

    /// The invoker after arming `c`: only the armed slot changes.
    pub open spec fn after_set(self, c: Command) -> RemoteControl {
        RemoteControl { lights: self.lights, command: Some(c), history: self.history }
    }

    /// Arm a command, replacing any previously armed one unconditionally.
    /// The history and the lights are untouched.
    pub fn set_command(&mut self, command: Command)
        requires
            0 <= command.target() < old(self).lights@.len(),
        ensures
            *final(self) == old(self).after_set(command),
            final(self).command == Some(command),
            final(self).history@ == old(self).history@,
            final(self).lights@ == old(self).lights@,
            old(self).wf() ==> final(self).wf(),
    {
        self.command = Some(command);
    }

    /// Execute the armed command on its light and append a copy of it to the
    /// history; with no command armed this is a silent no-op.
    pub fn press_button(&mut self)
        requires
            old(self).wf(),
        ensures
            final(self).command == old(self).command,
            final(self).history@ == history_after_press(old(self).history@, old(self).command),
            match old(self).command {
                Some(c) => final(self).lights@ == old(self).lights@.update(
                    c.target(),
                    c.apply_execute(old(self).lights@[c.target()]),
                ),
                None => final(self).lights@ == old(self).lights@,
            },
            final(self).wf(),
    {
        if let Some(cmd) = self.command {
            cmd.execute(&mut self.lights);
            self.history.push(cmd);
        }
    }

    /// Apply the inverse of the most recent history entry, leaving the entry
    /// in place; with an empty history this is a silent no-op. Because the
    /// entry is peeked, not popped, a repeated undo replays the same inverse.
    pub fn press_undo(&mut self)
        requires
            old(self).wf(),
        ensures
            final(self).command == old(self).command,
            final(self).history@ == old(self).history@,
            final(self).lights@ == lights_after_undo(old(self).history@, old(self).lights@),
            final(self).wf(),
    {
        let n = self.history.len();
        if n > 0 {
            let cmd = self.history[n - 1];
            cmd.undo(&mut self.lights);
        }
    }
}

/// How many of the presses in `armed` happened with a command armed.
pub open spec fn count_armed(armed: Seq<Option<Command>>) -> nat
    decreases armed.len(),
{
    if armed.len() == 0 {
        0
    } else {
        (if armed[0] is Some {
            1nat
        } else {
            0nat
        }) + count_armed(armed.subrange(1, armed.len() as int))
    }
}

/// The history after a whole sequence of button presses, `armed[i]` being the
/// command armed at the i-th press (`None` for an unarmed press).
pub open spec fn history_after_presses(h: Seq<Command>, armed: Seq<Option<Command>>) -> Seq<
    Command,
>
    decreases armed.len(),
{
    if armed.len() == 0 {
        h
    } else {
        history_after_presses(
            history_after_press(h, armed[0]),
            armed.subrange(1, armed.len() as int),
        )
    }
}

/// Inverse law: a command's `undo` applied right after its `execute` returns
/// the receiver to its pre-execute state, provided the receiver did not
/// already hold the very state the command writes. (A lit light put through
/// an on-command's execute/undo pair ends dark, since undo is a blind
/// assignment of the fixed inverse; such inputs are excluded here.)
pub proof fn lemma_execute_then_undo_restores(c: Command, l: Light)
    requires
        l.is_on != c.exec_state(),
    ensures
        c.apply_undo(c.apply_execute(l)) == l,
{
}

/// History length law: after any sequence of button presses, the history has
/// grown by exactly the number of presses made with a command armed; unarmed
/// presses contribute zero entries.
pub proof fn lemma_history_length(h: Seq<Command>, armed: Seq<Option<Command>>)
    ensures
        history_after_presses(h, armed).len() == h.len() + count_armed(armed),
    decreases armed.len(),
{
    if armed.len() > 0 {
        lemma_history_length(
            history_after_press(h, armed[0]),
            armed.subrange(1, armed.len() as int),
        );
    }
}

/// Peek-not-pop law: an undo press consults the most recent history entry
/// without removing it (`press_undo` never changes the history), so a second
/// consecutive undo press replays the same entry's inverse — the receivers
/// end exactly as the first undo left them.
pub proof fn lemma_double_undo(h: Seq<Command>, ls: Seq<Light>)
    requires
        h.len() > 0 ==> 0 <= h.last().target() < ls.len(),
    ensures
        lights_after_undo(h, lights_after_undo(h, ls)) == lights_after_undo(h, ls),
{
    if h.len() > 0 {
        let once = lights_after_undo(h, ls);
        assert(lights_after_undo(h, once) =~= once);
    }
}

/// Arming law: arming twice before any button press leaves the history (and
/// everything else) exactly as arming the second command alone would; only
/// the second command is ever armed, hence ever executed.
pub proof fn lemma_idempotent_arming(r: RemoteControl, c1: Command, c2: Command)
    ensures
        r.after_set(c1).after_set(c2) == r.after_set(c2),
        r.after_set(c1).after_set(c2).history == r.history,
{
}

} // verus!
