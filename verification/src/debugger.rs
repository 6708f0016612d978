//! The debugger: what the execution thread and the debugger's own thread
//! decide, and the framing of the messages that its socket carries.
//!
//! The execution thread holds a `DebugHandle` and asks it before every
//! instruction. The debugger's thread owns the socket. The two share nothing
//! but two bounded channels: messages go from the handle to the debugger,
//! commands from the debugger to the handle.

use vstd::prelude::*;
use std::collections::{HashSet, VecDeque};
use crate::debugger::channels::{
    another, bounded, new_wait_group, send, try_receive, wait, Received,
};
use crate::debugger::worker::Debugger;
use crate::memory::{accessible, accessible_means, instruction_at, Memory, MEMORY_SIZE};
use crate::opcodes::Opcode;
use crate::processor::Processor;
use crate::semantics::INSTRUCTION_POINTER;
use crate::{Address, Register, Word};

pub mod channels;
pub mod segmented_reader;
pub mod tcp_protocol;
pub mod worker;

verus! {

broadcast use vstd::std_specs::hash::group_hash_axioms;

/// The number of messages that each of the two channels holds.
pub const CHANNEL_BOUND: usize = 100;

/// The milliseconds between two looks at the socket.
pub const TCP_POLL_INTERVAL: u64 = 50;

#[derive(Clone, Copy, Debug, PartialEq, Eq, Structural)]
pub enum ShouldExecuteInstruction {
    Yes,
    No,
}

#[derive(Clone, Copy, Debug, PartialEq, Eq, Structural)]
pub enum BreakpointHandleState {
    /// Execution has not begun; the debugger may set breakpoints first.
    WaitingForStart,
    Running,
    /// Execution is held before the next instruction.
    Breaking,
}

/// What the handle tells the debugger.
pub enum DebugMessage {
    /// Request to stop the debugger's thread.
    Stop,
    /// Request to wait for the start and to drop the wait group after it.
    WaitForStart(crossbeam_utils::sync::WaitGroup),
    /// A breakpoint was hit at the given address; execution is held.
    HitBreakpoint(Address),
    /// Execution is (still) held before the instruction at the given address.
    Breaking(Address),
    /// Execution is held at the given address because a pause was asked for.
    Pausing(Address),
    /// The registers and the call stack while execution is held.
    BreakState { registers: Vec<Word>, call_stack: Vec<Address> },
}

/// What the debugger tells the handle.
pub enum DebugCommand {
    SetBreakpoints(Vec<Address>),
    RemoveBreakpoints(Vec<Address>),
    /// Go on with normal execution.
    Continue,
    /// Execute one instruction and hold again.
    StepOne,
    /// Hold as soon as possible.
    Pause,
    SetRegister(u8, Word),
    Terminate,
}

#[derive(Clone, Copy, Debug, PartialEq, Eq, Structural)]
pub enum ShouldTerminate {
    Yes,
    No,
}

/// A message that the handle owes the debugger, before it is put together.
#[derive(Clone, Copy, Debug, PartialEq, Eq, Structural)]
pub enum Announcement {
    /// The registers and the call stack as they are now.
    BreakState,
    HitBreakpoint(Address),
    Breaking(Address),
    Pausing(Address),
}

/// What the handle decides while execution is held.
#[derive(Clone, Copy, Debug, PartialEq, Eq, Structural)]
pub enum Decision {
    Execute,
    Skip,
    /// The debugger asked to end the process.
    Terminate,
}

/// Why the handle cannot go on.
#[derive(Clone, Copy, Debug, PartialEq, Eq, Structural)]
pub enum Interruption {
    /// The debugger asked to end the process.
    Terminated,
    /// The debugger's thread is gone.
    Disconnected,
}

/// The handle as the contracts see it.
pub struct HandleModel {
    pub state: BreakpointHandleState,
    pub breakpoints: Set<Address>,
    /// The commands that wait for the time when execution is held.
    pub pending: Seq<DebugCommand>,
    pub should_pause: bool,
    /// The addresses of the calls that have not returned.
    pub call_stack: Seq<Address>,
    pub did_execute_last_cycle: bool,
}

impl HandleModel {
    /// Whether the handle runs and has nothing that could hold execution:
    /// no breakpoint and no request for a pause.
    pub open spec fn idle(self) -> bool {
        &&& self.state == BreakpointHandleState::Running
        &&& self.breakpoints == Set::<Address>::empty()
        &&& !self.should_pause
    }

    /// The handle once execution has begun.
    pub open spec fn started(self) -> HandleModel {
        if self.state == BreakpointHandleState::WaitingForStart {
            HandleModel { state: BreakpointHandleState::Running, pending: Seq::empty(), ..self }
        } else {
            self
        }
    }

    /// The handle after `command` arrived. A pause and a change of the
    /// breakpoints take effect at once; continue, step and terminate wait
    /// for the time when execution is held. A register is set in the
    /// processor, not here.
    pub open spec fn received(self, command: DebugCommand) -> HandleModel {
        match command {
            DebugCommand::Pause => HandleModel { should_pause: true, ..self },
            DebugCommand::SetBreakpoints(locations) => HandleModel {
                breakpoints: self.breakpoints.union(locations@.to_set()),
                ..self
            },
            DebugCommand::RemoveBreakpoints(locations) => HandleModel {
                breakpoints: self.breakpoints.difference(locations@.to_set()),
                ..self
            },
            DebugCommand::SetRegister(_, _) => self,
            _ => HandleModel { pending: self.pending.push(command), ..self },
        }
    }

    /// The handle after the commands of `commands` arrived, the first one
    /// first.
    pub open spec fn received_all(self, commands: Seq<DebugCommand>) -> HandleModel
        decreases commands.len(),
    {
        if commands.len() == 0 {
            self
        } else {
            self.received_all(commands.drop_last()).received(commands.last())
        }
    }

    /// What the handle has to announce before the instruction at
    /// `instruction_pointer`, and the handle after it has done so.
    ///
    /// While execution is held, and the last instruction was executed, the
    /// state goes out, then `Breaking`. While execution is not held, a pause
    /// that was asked for or a breakpoint at the instruction pointer holds
    /// it: `Pausing` or `HitBreakpoint` goes out, then the state, and the
    /// commands that waited are dropped. The request for a pause is used up
    /// either way.
    pub open spec fn announced(self, instruction_pointer: Address) -> (
        HandleModel,
        Seq<Announcement>,
    ) {
        if self.state == BreakpointHandleState::Breaking {
            if self.did_execute_last_cycle {
                (self, seq![Announcement::BreakState, Announcement::Breaking(instruction_pointer)])
            } else {
                (self, Seq::empty())
            }
        } else if self.should_pause {
            (
                HandleModel {
                    state: BreakpointHandleState::Breaking,
                    pending: Seq::empty(),
                    should_pause: false,
                    ..self
                },
                seq![Announcement::Pausing(instruction_pointer), Announcement::BreakState],
            )
        } else if self.breakpoints.contains(instruction_pointer) {
            (
                HandleModel {
                    state: BreakpointHandleState::Breaking,
                    pending: Seq::empty(),
                    ..self
                },
                seq![Announcement::HitBreakpoint(instruction_pointer), Announcement::BreakState],
            )
        } else {
            (self, Seq::empty())
        }
    }

    /// Whether the next instruction is executed, and the handle after it
    /// has decided so. While execution is not held, it is. While execution
    /// is held, the command that has waited longest decides: a step executes
    /// one instruction, continue ends the hold, terminate ends the process;
    /// with no command waiting nothing is executed.
    pub open spec fn decided(self) -> (HandleModel, Decision) {
        if self.state != BreakpointHandleState::Breaking {
            (HandleModel { did_execute_last_cycle: true, ..self }, Decision::Execute)
        } else if self.pending.len() == 0 {
            (HandleModel { did_execute_last_cycle: false, ..self }, Decision::Skip)
        } else {
            let rest = self.pending.drop_first();
            match self.pending.first() {
                DebugCommand::StepOne => (
                    HandleModel { pending: rest, did_execute_last_cycle: true, ..self },
                    Decision::Execute,
                ),
                DebugCommand::Continue => (
                    HandleModel {
                        state: BreakpointHandleState::Running,
                        pending: rest,
                        did_execute_last_cycle: true,
                        ..self
                    },
                    Decision::Execute,
                ),
                DebugCommand::Terminate => (
                    HandleModel { pending: rest, did_execute_last_cycle: false, ..self },
                    Decision::Terminate,
                ),
                _ => (
                    HandleModel { pending: rest, did_execute_last_cycle: false, ..self },
                    Decision::Skip,
                ),
            }
        }
    }

    /// What becomes of the handle and of `registers` when the handle is
    /// asked before an instruction, and what it decides, where the commands
    /// of `first` have arrived before it is asked and those of `second`
    /// while execution is held.
    ///
    /// Execution has begun; the first commands are taken in; what is due is
    /// announced for the instruction pointer as the commands left it, which
    /// may hold the execution; while it is held, the second commands are
    /// taken in; then the handle decides, and before an instruction that is
    /// executed it takes note of a call or a return that `memory` holds at
    /// the instruction pointer.
    pub open spec fn asked(
        self,
        registers: Seq<Word>,
        memory: Seq<u8>,
        first: Seq<DebugCommand>,
        second: Seq<DebugCommand>,
    ) -> (HandleModel, Seq<Word>, Decision) {
        let heard = self.started().received_all(first);
        let told = registers_after_all(registers, first);
        let held = heard.announced(told[INSTRUCTION_POINTER as int]).0;
        let holding = held.state == BreakpointHandleState::Breaking;
        let listening = if holding {
            held.received_all(second)
        } else {
            held
        };
        let left = if holding {
            registers_after_all(told, second)
        } else {
            told
        };
        let (decided, decision) = listening.decided();
        let at = left[INSTRUCTION_POINTER as int];
        (
            if decision == Decision::Execute {
                decided.followed(opcode_at(memory, at), at)
            } else {
                decided
            },
            left,
            decision,
        )
    }

    /// The handle after it has seen that `opcode` is executed at `address`:
    /// a call puts its address on the call stack, a return takes the last
    /// one off.
    pub open spec fn followed(self, opcode: Option<Opcode>, address: Address) -> HandleModel {
        match opcode {
            Some(opcode) => if opcode.is_call() {
                HandleModel { call_stack: self.call_stack.push(address), ..self }
            } else if opcode is Return && self.call_stack.len() > 0 {
                HandleModel { call_stack: self.call_stack.drop_last(), ..self }
            } else {
                self
            },
            None => self,
        }
    }
}

/// A breakpoint holds the execution: once the instruction pointer stands at
/// a breakpoint, a running handle holds, announces the breakpoint and then
/// the state, and executes nothing while no command waits.
pub proof fn breakpoint_holds_execution(handle: HandleModel, address: Address)
    requires
        handle.state == BreakpointHandleState::Running,
        handle.breakpoints.contains(address),
    ensures
        handle.announced(address).0.state == BreakpointHandleState::Breaking,
        !handle.should_pause ==> handle.announced(address).1 == seq![
            Announcement::HitBreakpoint(address),
            Announcement::BreakState,
        ],
        handle.announced(address).0.decided().1 == Decision::Skip,
{
}

/// A step executes exactly one instruction: while execution is held and
/// nothing else waits, a step lets the next instruction be executed and keeps
/// the hold; before the instruction after it, at `next`, the handle announces
/// the state and that it is holding there, and executes nothing more.
pub proof fn step_executes_one_instruction(handle: HandleModel, next: Address)
    requires
        handle.state == BreakpointHandleState::Breaking,
        handle.pending.len() == 0,
    ensures
        ({
            let (stepped, decision) = handle.received(DebugCommand::StepOne).decided();
            let (held, announcements) = stepped.announced(next);
            &&& decision == Decision::Execute
            &&& stepped.state == BreakpointHandleState::Breaking
            &&& announcements == seq![Announcement::BreakState, Announcement::Breaking(next)]
            &&& held.decided().1 == Decision::Skip
        }),
{
    let waiting = handle.received(DebugCommand::StepOne).pending;
    assert(waiting.drop_first() =~= Seq::<DebugCommand>::empty());
}

/// Continue ends the hold: while execution is held and nothing else waits,
/// continue lets the next instruction be executed, and the handle runs.
pub proof fn continue_resumes_execution(handle: HandleModel)
    requires
        handle.state == BreakpointHandleState::Breaking,
        handle.pending.len() == 0,
    ensures
        handle.received(DebugCommand::Continue).decided().1 == Decision::Execute,
        handle.received(DebugCommand::Continue).decided().0.state
            == BreakpointHandleState::Running,
{
}

/// The opcode that memory holds at `address`, if an instruction can stand
/// there and memory holds one.
pub open spec fn opcode_at(memory: Seq<u8>, address: Address) -> Option<Opcode> {
    if accessible(address as int, 8) {
        Opcode::decoding(instruction_at(memory, address as int))
    } else {
        None
    }
}

/// What the handle answers for `decision`: yes for an instruction that is
/// executed, no for one that is not, and the end of the process where the
/// debugger asked for it.
pub open spec fn answer(decision: Decision) -> Result<ShouldExecuteInstruction, Interruption> {
    match decision {
        Decision::Execute => Ok(ShouldExecuteInstruction::Yes),
        Decision::Skip => Ok(ShouldExecuteInstruction::No),
        Decision::Terminate => Err(Interruption::Terminated),
    }
}

/// The registers after `command` arrived: set-register sets one, and no
/// other command changes any.
pub open spec fn registers_after(registers: Seq<Word>, command: DebugCommand) -> Seq<Word> {
    match command {
        DebugCommand::SetRegister(register, value) => registers.update(register as int, value),
        _ => registers,
    }
}

/// The registers after the commands of `commands` arrived, the first one
/// first.
pub open spec fn registers_after_all(registers: Seq<Word>, commands: Seq<DebugCommand>) -> Seq<
    Word,
>
    decreases commands.len(),
{
    if commands.len() == 0 {
        registers
    } else {
        registers_after(registers_after_all(registers, commands.drop_last()), commands.last())
    }
}

impl DebugMessage {
    /// Whether the message is the one that `announcement` stands for while
    /// the registers are `registers` and the call stack is `call_stack`: the
    /// notice with its address, or the state with these registers and this
    /// call stack.
    pub open spec fn carries(
        self,
        announcement: Announcement,
        registers: Seq<Word>,
        call_stack: Seq<Address>,
    ) -> bool {
        match announcement {
            Announcement::BreakState => self matches DebugMessage::BreakState {
                registers: sent_registers,
                call_stack: sent_call_stack,
            } && sent_registers@ == registers && sent_call_stack@ == call_stack,
            Announcement::HitBreakpoint(location) => self matches DebugMessage::HitBreakpoint(
                sent,
            ) && sent == location,
            Announcement::Breaking(location) => self matches DebugMessage::Breaking(sent) && sent
                == location,
            Announcement::Pausing(location) => self matches DebugMessage::Pausing(sent) && sent
                == location,
        }
    }
}

pub struct DebugHandle {
    state: BreakpointHandleState,
    breakpoints: HashSet<Address>,
    sender: Option<crossbeam_channel::Sender<DebugMessage>>,
    receiver: Option<crossbeam_channel::Receiver<DebugCommand>>,
    receive_cache: VecDeque<DebugCommand>,
    should_pause: bool,
    call_stack: Vec<Address>,
    did_execute_last_cycle: bool,
}

impl View for DebugHandle {
    type V = HandleModel;

    closed spec fn view(&self) -> HandleModel {
        HandleModel {
            state: self.state,
            breakpoints: self.breakpoints@,
            pending: self.receive_cache@,
            should_pause: self.should_pause,
            call_stack: self.call_stack@,
            did_execute_last_cycle: self.did_execute_last_cycle,
        }
    }
}

/// Puts every address of `locations` into `breakpoints`.
fn insert_all(breakpoints: &mut HashSet<Address>, locations: &Vec<Address>)
    ensures
        final(breakpoints)@ == old(breakpoints)@.union(locations@.to_set()),
{
    let mut done: usize = 0;
    while done < locations.len()
        invariant
            done <= locations@.len(),
            breakpoints@ == old(breakpoints)@.union(locations@.take(done as int).to_set()),
        decreases locations@.len() - done,
    {
        breakpoints.insert(locations[done]);
        proof {
            let earlier = locations@.take(done as int);
            let now = locations@.take(done + 1);
            assert(now =~= earlier.push(locations@[done as int]));
            assert forall|a: Address| now.to_set().contains(a) <==> earlier.to_set().contains(a)
                || a == locations@[done as int] by {
                if earlier.contains(a) {
                    let j = choose|j: int| 0 <= j < earlier.len() && earlier[j] == a;
                    assert(now[j] == a);
                }
                if a == locations@[done as int] {
                    assert(now[done as int] == a);
                }
            }
            assert(breakpoints@ =~= old(breakpoints)@.union(now.to_set()));
        }
        done = done + 1;
    }
    assert(locations@.take(done as int) =~= locations@);
}

/// Takes every address of `locations` out of `breakpoints`.
fn remove_all(breakpoints: &mut HashSet<Address>, locations: &Vec<Address>)
    ensures
        final(breakpoints)@ == old(breakpoints)@.difference(locations@.to_set()),
{
    let mut done: usize = 0;
    while done < locations.len()
        invariant
            done <= locations@.len(),
            breakpoints@ == old(breakpoints)@.difference(locations@.take(done as int).to_set()),
        decreases locations@.len() - done,
    {
        breakpoints.remove(&locations[done]);
        proof {
            let earlier = locations@.take(done as int);
            let now = locations@.take(done + 1);
            assert(now =~= earlier.push(locations@[done as int]));
            assert forall|a: Address| now.to_set().contains(a) <==> earlier.to_set().contains(a)
                || a == locations@[done as int] by {
                if earlier.contains(a) {
                    let j = choose|j: int| 0 <= j < earlier.len() && earlier[j] == a;
                    assert(now[j] == a);
                }
                if a == locations@[done as int] {
                    assert(now[done as int] == a);
                }
            }
            assert(breakpoints@ =~= old(breakpoints)@.difference(now.to_set()));
        }
        done = done + 1;
    }
    assert(locations@.take(done as int) =~= locations@);
}

/// Makes the two channels and the two who talk over them: the handle for the
/// execution thread, which waits for the start, and the debugger for a
/// thread of its own.
pub fn start_debugger() -> (ends: (DebugHandle, Debugger))
    ensures
        ends.0.attached(),
        ends.0@ == (HandleModel {
            state: BreakpointHandleState::WaitingForStart,
            breakpoints: Set::empty(),
            pending: Seq::empty(),
            should_pause: false,
            call_stack: Seq::empty(),
            did_execute_last_cycle: true,
        }),
        !ends.1.has_started(),
        ends.1.waiting() == 0,
{
    let (sender, receiver) = bounded::<DebugMessage>(CHANNEL_BOUND);
    let (breakpoint_sender, breakpoint_receiver) = bounded::<DebugCommand>(CHANNEL_BOUND);
    (DebugHandle::connected(sender, breakpoint_receiver), Debugger::new(receiver, breakpoint_sender))
}

impl DebugHandle {
    /// The end of the channel on which messages go to the debugger, if there
    /// is a debugger.
    pub closed spec fn outbox(&self) -> Option<crossbeam_channel::Sender<DebugMessage>> {
        self.sender
    }

    /// The end of the channel on which the commands of the debugger arrive,
    /// if there is a debugger.
    pub closed spec fn inbox(&self) -> Option<crossbeam_channel::Receiver<DebugCommand>> {
        self.receiver
    }

    /// Whether the handle has a debugger at the other end of its channels.
    pub open spec fn attached(&self) -> bool {
        self.outbox() is Some || self.inbox() is Some
    }

    /// A handle without a debugger: it is running, holds no breakpoint, and
    /// never holds execution.
    pub fn dummy() -> (handle: Self)
        ensures
            !handle.attached(),
            handle@ == (HandleModel {
                state: BreakpointHandleState::Running,
                breakpoints: Set::empty(),
                pending: Seq::empty(),
                should_pause: false,
                call_stack: Seq::empty(),
                did_execute_last_cycle: true,
            }),
    {
        Self {
            state: BreakpointHandleState::Running,
            breakpoints: HashSet::new(),
            sender: None,
            receiver: None,
            receive_cache: VecDeque::new(),
            should_pause: false,
            call_stack: Vec::new(),
            did_execute_last_cycle: true,
        }
    }

    /// A handle for the execution thread, with its ends of the two channels.
    /// It waits for the debugger to start the execution.
    pub fn connected(
        sender: crossbeam_channel::Sender<DebugMessage>,
        receiver: crossbeam_channel::Receiver<DebugCommand>,
    ) -> (handle: Self)
        ensures
            handle.outbox() == Some(sender),
            handle.inbox() == Some(receiver),
            handle@ == (HandleModel {
                state: BreakpointHandleState::WaitingForStart,
                breakpoints: Set::empty(),
                pending: Seq::empty(),
                should_pause: false,
                call_stack: Seq::empty(),
                did_execute_last_cycle: true,
            }),
    {
        DebugHandle {
            state: BreakpointHandleState::WaitingForStart,
            breakpoints: HashSet::new(),
            sender: Some(sender),
            receiver: Some(receiver),
            receive_cache: VecDeque::new(),
            should_pause: false,
            call_stack: Vec::new(),
            did_execute_last_cycle: true,
        }
    }

    pub fn state(&self) -> (state: BreakpointHandleState)
        ensures
            state == self@.state,
    {
        self.state
    }

    pub fn is_attached(&self) -> (attached: bool)
        ensures
            attached == self.attached(),
    {
        self.sender.is_some() || self.receiver.is_some()
    }

    /// The addresses of the calls that have not returned, the first call
    /// first.
    pub fn call_stack(&self) -> (addresses: &Vec<Address>)
        ensures
            addresses@ == self@.call_stack,
    {
        &self.call_stack
    }

    pub fn has_breakpoint(&self, address: Address) -> (has: bool)
        ensures
            has == self@.breakpoints.contains(address),
    {
        self.breakpoints.contains(&address)
    }

    /// Takes in one command of the debugger.
    pub fn handle_message(&mut self, message: DebugCommand, processor: &mut Processor)
        ensures
            final(self).outbox() == old(self).outbox(),
            final(self).inbox() == old(self).inbox(),
            final(self)@ == old(self)@.received(message),
            final(processor).registers@ == registers_after(old(processor).registers@, message),
            final(processor).same_counters(old(processor)),
    {
        match message {
            DebugCommand::Pause => {
                self.should_pause = true;
            },
            DebugCommand::SetBreakpoints(locations) => {
                insert_all(&mut self.breakpoints, &locations);
            },
            DebugCommand::RemoveBreakpoints(locations) => {
                remove_all(&mut self.breakpoints, &locations);
            },
            DebugCommand::SetRegister(register, value) => {
                processor.registers.set(Register(register), value);
            },
            _ => {
                self.receive_cache.push_back(message);
            },
        }
    }

    /// Works out what is to be announced before the instruction at
    /// `instruction_pointer`, and holds execution if a pause or a breakpoint
    /// asks for it.
    pub fn announce(&mut self, instruction_pointer: Address) -> (announcements: Vec<Announcement>)
        ensures
            final(self).outbox() == old(self).outbox(),
            final(self).inbox() == old(self).inbox(),
            (final(self)@, announcements@) == old(self)@.announced(instruction_pointer),
    {
        let mut announcements: Vec<Announcement> = Vec::new();
        match self.state {
            BreakpointHandleState::Breaking => {
                if self.did_execute_last_cycle {
                    announcements.push(Announcement::BreakState);
                    announcements.push(Announcement::Breaking(instruction_pointer));
                }
            },
            _ => {
                let hit_breakpoint: bool = self.breakpoints.contains(&instruction_pointer);
                if self.should_pause {
                    announcements.push(Announcement::Pausing(instruction_pointer));
                    announcements.push(Announcement::BreakState);
                } else if hit_breakpoint {
                    announcements.push(Announcement::HitBreakpoint(instruction_pointer));
                    announcements.push(Announcement::BreakState);
                }
                if self.should_pause || hit_breakpoint {
                    self.state = BreakpointHandleState::Breaking;
                    self.receive_cache.clear();
                }
                self.should_pause = false;
            },
        }
        assert(announcements@ =~= old(self)@.announced(instruction_pointer).1);
        announcements
    }

    /// Decides whether the next instruction is executed.
    pub fn decide(&mut self) -> (decision: Decision)
        ensures
            final(self).outbox() == old(self).outbox(),
            final(self).inbox() == old(self).inbox(),
            (final(self)@, decision) == old(self)@.decided(),
    {
        let decision: Decision = match self.state {
            BreakpointHandleState::Breaking => match self.receive_cache.pop_front() {
                Some(DebugCommand::StepOne) => Decision::Execute,
                Some(DebugCommand::Continue) => {
                    self.state = BreakpointHandleState::Running;
                    Decision::Execute
                },
                Some(DebugCommand::Terminate) => Decision::Terminate,
                Some(_) => Decision::Skip,
                None => Decision::Skip,
            },
            _ => Decision::Execute,
        };
        self.did_execute_last_cycle = match decision {
            Decision::Execute => true,
            _ => false,
        };
        assert(self@.pending =~= old(self)@.decided().0.pending);
        decision
    }

    /// Follows calls and returns: looks at the instruction that memory holds
    /// at `instruction_pointer`, which is about to be executed. Where no
    /// instruction can stand there, nothing is followed.
    pub fn track_call_stack(&mut self, memory: &Memory, instruction_pointer: Address)
        requires
            memory.wf(),
        ensures
            final(self).outbox() == old(self).outbox(),
            final(self).inbox() == old(self).inbox(),
            final(self)@ == old(self)@.followed(
                opcode_at(memory@, instruction_pointer),
                instruction_pointer,
            ),
    {
        proof {
            accessible_means(instruction_pointer as int, 8);
        }
        if instruction_pointer as u64 + 8 <= MEMORY_SIZE as u64 && instruction_pointer % 8 == 0 {
            match memory.read_opcode(instruction_pointer) {
                Ok(Opcode::CallAddress { .. })
                | Ok(Opcode::CallRegister { .. })
                | Ok(Opcode::CallPointer { .. }) => {
                    self.call_stack.push(instruction_pointer);
                },
                Ok(Opcode::Return {  }) => {
                    let _ = self.call_stack.pop();
                },
                _ => {},
            }
        }
    }

    /// The message that `announcement` stands for, put together from the
    /// registers of `processor` and the call stack as they are now.
    pub fn message_for(&self, announcement: Announcement, processor: &Processor) -> (message:
        DebugMessage)
        ensures
            message.carries(announcement, processor.registers@, self@.call_stack),
    {
        match announcement {
            Announcement::BreakState => DebugMessage::BreakState {
                registers: vstd::slice::slice_to_vec(processor.registers.contents()),
                call_stack: self.call_stack.clone(),
            },
            Announcement::HitBreakpoint(location) => DebugMessage::HitBreakpoint(location),
            Announcement::Breaking(location) => DebugMessage::Breaking(location),
            Announcement::Pausing(location) => DebugMessage::Pausing(location),
        }
    }

    /// Sends `message` to the debugger, if there is one. Tells whether the
    /// debugger is still there; without a debugger nothing is sent and
    /// nothing can be amiss.
    fn send(&self, message: DebugMessage) -> (alive: bool)
        ensures
            self.outbox() is None ==> alive,
    {
        match &self.sender {
            Some(sender) => send(sender, message),
            None => true,
        }
    }

    /// Sends the registers and the call stack, as `message_for` puts them
    /// together.
    fn send_break_state(&self, processor: &Processor) -> (alive: bool)
        ensures
            self.outbox() is None ==> alive,
    {
        self.send(self.message_for(Announcement::BreakState, processor))
    }

    /// Sends the message that `message_for` puts together for
    /// `announcement`.
    fn send_announcement(&self, announcement: Announcement, processor: &Processor) -> (alive: bool)
        ensures
            self.outbox() is None ==> alive,
    {
        match announcement {
            Announcement::BreakState => self.send_break_state(processor),
            _ => self.send(self.message_for(announcement, processor)),
        }
    }

    /// Asks the debugger's thread to stop. Tells whether it was still there.
    pub fn stop(&self) -> (alive: bool)
        ensures
            self.outbox() is None ==> alive,
    {
        self.send(DebugMessage::Stop)
    }

    /// Waits until the debugger starts the execution; does not wait where
    /// there is no debugger. Tells whether the debugger was still there to
    /// be asked.
    pub fn wait_for_start(&self) -> (alive: bool)
        ensures
            self.outbox() is None ==> alive,
    {
        if self.sender.is_some() {
            let wait_group = new_wait_group();
            let alive: bool = self.send(DebugMessage::WaitForStart(another(&wait_group)));
            if alive {
                wait(wait_group);
            }
            alive
        } else {
            true
        }
    }

    /// Acts on what the channel gave: a command is taken in as
    /// `handle_message` says, and the taking goes on; an empty channel ends
    /// it well, and a channel without a sender ends it with the news that the
    /// debugger's thread is gone.
    pub fn take_in(&mut self, received: Received<DebugCommand>, processor: &mut Processor) -> (done:
        Option<Result<(), Interruption>>)
        ensures
            final(self).outbox() == old(self).outbox(),
            final(self).inbox() == old(self).inbox(),
            final(processor).same_counters(old(processor)),
            match received {
                Received::Message(command) => {
                    &&& done is None
                    &&& final(self)@ == old(self)@.received(command)
                    &&& final(processor).registers@ == registers_after(
                        old(processor).registers@,
                        command,
                    )
                },
                Received::Empty => {
                    &&& done == Some(Ok::<(), Interruption>(()))
                    &&& final(self)@ == old(self)@
                    &&& final(processor).registers@ == old(processor).registers@
                },
                Received::Disconnected => {
                    &&& done == Some(Err::<(), Interruption>(Interruption::Disconnected))
                    &&& final(self)@ == old(self)@
                    &&& final(processor).registers@ == old(processor).registers@
                },
            },
    {
        match received {
            Received::Message(command) => {
                self.handle_message(command, processor);
                None
            },
            Received::Empty => Some(Ok(())),
            Received::Disconnected => Some(Err(Interruption::Disconnected)),
        }
    }

    /// Takes in every command that waits in the channel, without waiting for
    /// more. Fails if the debugger's thread is gone.
    ///
    /// Which commands wait is for the debugger to say. Whatever they are,
    /// handle and registers are afterwards as they are after these commands
    /// arrived one after the other. Without a debugger there are none.
    fn receive_updates_non_blocking(&mut self, processor: &mut Processor) -> (result: Result<
        (),
        Interruption,
    >)
        ensures
            final(self).outbox() == old(self).outbox(),
            final(self).inbox() == old(self).inbox(),
            final(processor).same_counters(old(processor)),
            exists|commands: Seq<DebugCommand>|
                {
                    &&& final(self)@ == #[trigger] old(self)@.received_all(commands)
                    &&& final(processor).registers@ == registers_after_all(
                        old(processor).registers@,
                        commands,
                    )
                    &&& old(self).inbox() is None ==> commands.len() == 0
                },
            final(self)@.state == old(self)@.state,
            final(self)@.call_stack == old(self)@.call_stack,
            final(self)@.did_execute_last_cycle == old(self)@.did_execute_last_cycle,
            old(self).inbox() is None ==> result is Ok,
            result matches Err(interruption) ==> interruption == Interruption::Disconnected,
    {
        let ghost mut taken: Seq<DebugCommand> = Seq::empty();
        if self.receiver.is_none() {
            assert(self@ == old(self)@.received_all(taken));
            return Ok(());
        }
        // The channel is empty long before the count runs out; the count is
        // there to show that the loop ends.
        let mut patience: u64 = u64::MAX;
        while patience > 0
            invariant
                self.outbox() == old(self).outbox(),
                self.inbox() == old(self).inbox(),
                old(self).inbox() is Some,
                processor.same_counters(old(processor)),
                self@ == old(self)@.received_all(taken),
                processor.registers@ == registers_after_all(old(processor).registers@, taken),
                self@.state == old(self)@.state,
                self@.call_stack == old(self)@.call_stack,
                self@.did_execute_last_cycle == old(self)@.did_execute_last_cycle,
            decreases patience,
        {
            let received: Received<DebugCommand> = match &self.receiver {
                Some(receiver) => try_receive(receiver),
                None => Received::Empty,
            };
            proof {
                if received is Message {
                    let command = received->Message_0;
                    let more = taken.push(command);
                    assert(more.drop_last() =~= taken);
                    assert(more.last() == command);
                    taken = more;
                }
            }
            match self.take_in(received, processor) {
                Some(result) => {
                    return result;
                },
                None => {},
            }
            patience = patience - 1;
        }
        Ok(())
    }

    /// Asks the handle before an instruction whether it is to be executed.
    ///
    /// A handle that waits for the start waits here until the debugger
    /// starts the execution. Then the commands that have arrived are taken
    /// in, what `announced` says is sent, and, while execution is held, the
    /// commands that have arrived since are taken in and `decided` decides.
    /// Before an instruction that is executed, `followed` takes note of
    /// calls and returns.
    ///
    /// Which commands arrive is for the debugger to say. Whatever they are,
    /// handle, registers and answer are the ones of `asked` for them, unless
    /// the debugger's thread is found gone on the way. Without a debugger no
    /// command arrives and nothing is found gone: the handle then goes
    /// through `started`, `announced`, `decided` and `followed` with the
    /// processor untouched.
    pub fn before_instruction_execution(
        &mut self,
        processor: &mut Processor,
        memory: &Memory,
    ) -> (result: Result<ShouldExecuteInstruction, Interruption>)
        requires
            memory.wf(),
        ensures
            final(self).outbox() == old(self).outbox(),
            final(self).inbox() == old(self).inbox(),
            final(processor).same_counters(old(processor)),
            ({
                ||| result == Err::<ShouldExecuteInstruction, Interruption>(
                    Interruption::Disconnected,
                ) && old(self).attached()
                ||| exists|first: Seq<DebugCommand>, second: Seq<DebugCommand>|
                    {
                        let asked = #[trigger] old(self)@.asked(
                            old(processor).registers@,
                            memory@,
                            first,
                            second,
                        );
                        &&& final(self)@ == asked.0
                        &&& final(processor).registers@ == asked.1
                        &&& result == answer(asked.2)
                        &&& old(self).inbox() is None ==> first.len() == 0 && second.len() == 0
                    }
            }),
            !old(self).attached() ==> {
                let at = old(processor).snapshot(memory@).instruction_pointer();
                let (held, decision) = old(self)@.started().announced(at).0.decided();
                &&& final(processor).registers@ == old(processor).registers@
                &&& result == answer(decision)
                &&& final(self)@ == if decision == Decision::Execute {
                    held.followed(opcode_at(memory@, at), at)
                } else {
                    held
                }
            },
    {
        let ghost before = self@;
        let ghost registers = processor.registers@;
        if matches!(self.state, BreakpointHandleState::WaitingForStart) {
            if !self.wait_for_start() {
                return Err(Interruption::Disconnected);
            }
            self.state = BreakpointHandleState::Running;
            self.receive_cache.clear();
        }
        assert(self@.pending =~= before.started().pending);
        let ghost start = self@;
        match self.receive_updates_non_blocking(processor) {
            Err(interruption) => {
                return Err(interruption);
            },
            Ok(()) => {},
        }
        let ghost first = choose|commands: Seq<DebugCommand>|
            {
                &&& self@ == #[trigger] start.received_all(commands)
                &&& processor.registers@ == registers_after_all(registers, commands)
                &&& old(self).inbox() is None ==> commands.len() == 0
            };
        let ghost told = processor.registers@;
        let announcements: Vec<Announcement> = self.announce(processor.get_instruction_pointer());
        let ghost held = self@;
        let mut sent: usize = 0;
        while sent < announcements.len()
            invariant
                sent <= announcements@.len(),
                self.outbox() == old(self).outbox(),
                self.inbox() == old(self).inbox(),
                processor.same_counters(old(processor)),
            decreases announcements@.len() - sent,
        {
            if !self.send_announcement(announcements[sent], processor) {
                return Err(Interruption::Disconnected);
            }
            sent = sent + 1;
        }
        let ghost mut second: Seq<DebugCommand> = Seq::empty();
        if matches!(self.state, BreakpointHandleState::Breaking) {
            match self.receive_updates_non_blocking(processor) {
                Err(interruption) => {
                    return Err(interruption);
                },
                Ok(()) => {},
            }
            proof {
                second = choose|commands: Seq<DebugCommand>|
                    {
                        &&& self@ == #[trigger] held.received_all(commands)
                        &&& processor.registers@ == registers_after_all(told, commands)
                        &&& old(self).inbox() is None ==> commands.len() == 0
                    };
            }
        }
        let decision: Decision = self.decide();
        match decision {
            Decision::Execute => {
                self.track_call_stack(memory, processor.get_instruction_pointer());
            },
            _ => {},
        }
        proof {
            let asked = before.asked(registers, memory@, first, second);
            assert(self@ == asked.0);
            assert(processor.registers@ == asked.1);
            assert(decision == asked.2);
            if !old(self).attached() {
                assert(first.len() == 0 && second.len() == 0);
            }
        }
        match decision {
            Decision::Execute => Ok(ShouldExecuteInstruction::Yes),
            Decision::Skip => Ok(ShouldExecuteInstruction::No),
            Decision::Terminate => Err(Interruption::Terminated),
        }
    }
}

} // verus!
