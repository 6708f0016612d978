//! The machine: memory, processor, periphery, the debugger's handle and the
//! instruction cache in one place.

use vstd::prelude::*;
use vstd::slice::slice_subrange;
use crate::address_constants::{ENTRY_POINT, FRAMEBUFFER_SIZE};
use crate::debugger::DebugHandle;
use crate::display::visible_address;
use crate::memory::{Memory, MEMORY_SIZE};
use crate::periphery::Periphery;
use crate::processor::{
    Abort, Diagnostic, ExecutionResult, InstructionCache, Outcome, Processor,
};
use crate::semantics::Fault;
use crate::terminal;

verus! {

pub struct Machine<P> {
    pub memory: Memory,
    pub processor: Processor,
    pub periphery: P,
    pub debug_handle: DebugHandle,
    pub instruction_cache: InstructionCache,
    /// Whether the program has halted.
    pub is_halted: bool,
}

impl<P: Periphery> Machine<P> {
    pub open spec fn wf(&self) -> bool {
        &&& self.memory.wf()
        &&& self.instruction_cache.wf()
        &&& self.periphery.usable()
    }

    /// A machine at the start of a program, without a debugger: the memory
    /// holds zeros, the instruction cache is empty and the processor is new.
    pub fn new(periphery: P, exit_on_halt: bool) -> (machine: Self)
        requires
            periphery.usable(),
        ensures
            machine.wf(),
            machine.periphery == periphery,
            !machine.is_halted,
            !machine.debug_handle.attached(),
            machine.debug_handle@.idle(),
            machine.processor.exit_on_halt == exit_on_halt,
            machine.processor.cycle_count == 0,
            machine.processor.checkpoint_counter == 0,
            machine.processor.registers@ == Processor::initial_registers(),
            forall|i: int| 0 <= i < MEMORY_SIZE ==> machine.memory@[i] == 0,
            forall|i: int|
                0 <= i < machine.instruction_cache.cache@.len()
                    ==> machine.instruction_cache.cache@[i] is None,
    {
        Self::with_debugger(periphery, exit_on_halt, DebugHandle::dummy())
    }

    /// A machine at the start of a program, with the handle of a debugger.
    pub fn with_debugger(periphery: P, exit_on_halt: bool, debug_handle: DebugHandle) -> (machine:
        Self)
        requires
            periphery.usable(),
        ensures
            machine.wf(),
            machine.periphery == periphery,
            machine.debug_handle == debug_handle,
            !machine.is_halted,
            machine.processor.exit_on_halt == exit_on_halt,
            machine.processor.cycle_count == 0,
            machine.processor.checkpoint_counter == 0,
            machine.processor.registers@ == Processor::initial_registers(),
            forall|i: int| 0 <= i < MEMORY_SIZE ==> machine.memory@[i] == 0,
            forall|i: int|
                0 <= i < machine.instruction_cache.cache@.len()
                    ==> machine.instruction_cache.cache@[i] is None,
    {
        Self {
            memory: Memory::new(),
            processor: Processor::new(exit_on_halt),
            periphery,
            debug_handle,
            instruction_cache: InstructionCache::new(),
            is_halted: false,
        }
    }

    /// The framebuffer that the display shows, and the grid of characters of
    /// the terminal over it.
    pub fn render(&self) -> (frame: (&[u8], Vec<Vec<u8>>))
        requires
            self.wf(),
        ensures
            frame.0@ == self.memory@.subrange(
                visible_address(self.periphery.first_framebuffer_visible()) as int,
                visible_address(self.periphery.first_framebuffer_visible()) + FRAMEBUFFER_SIZE,
            ),
            terminal::shows(frame.1@, self.memory@, self.periphery.cursor_phase()),
    {
        let start: usize = if self.periphery.is_first_framebuffer_visible() {
            crate::address_constants::FIRST_FRAMEBUFFER_START as usize
        } else {
            crate::address_constants::SECOND_FRAMEBUFFER_START as usize
        };
        let framebuffer: &[u8] = slice_subrange(
            self.memory.data(),
            start,
            start + FRAMEBUFFER_SIZE as usize,
        );
        let cursor = self.periphery.cursor();
        (framebuffer, terminal::render(&self.memory, &cursor))
    }

    /// Executes the next instruction, unless the program has halted.
    ///
    /// A machine that has halted stays as it is. Else the step is the one of
    /// `Processor::execute_next_instruction`, and the machine has halted
    /// after it if the instruction was the halt.
    pub fn execute_next_instruction(&mut self) -> (result: Result<Outcome, Abort>)
        requires
            old(self).wf(),
        ensures
            final(self).wf(),
            final(self).processor.exit_on_halt == old(self).processor.exit_on_halt,
            final(self).debug_handle.attached() == old(self).debug_handle.attached(),
            final(self).is_halted == (old(self).is_halted || (result matches Ok(outcome)
                && outcome.result == ExecutionResult::Halted)),
            old(self).is_halted ==> {
                &&& result == Ok::<Outcome, Abort>(
                    Outcome { result: ExecutionResult::Halted, diagnostic: Diagnostic::Nothing },
                )
                &&& final(self).memory@ == old(self).memory@
                &&& final(self).processor == old(self).processor
                &&& final(self).periphery == old(self).periphery
                &&& final(self).instruction_cache == old(self).instruction_cache
                &&& final(self).debug_handle == old(self).debug_handle
            },
            !old(self).is_halted ==> Processor::hooked(
                old(self).debug_handle@,
                final(self).debug_handle@,
                old(self).processor.snapshot(old(self).memory@),
                old(self).instruction_cache.cache@,
                old(self).periphery.first_framebuffer_visible(),
                final(self).processor.snapshot(final(self).memory@),
                final(self).instruction_cache.cache@,
                final(self).periphery.first_framebuffer_visible(),
                result,
            ),
            !old(self).is_halted && !old(self).debug_handle.attached() && old(
                self,
            ).debug_handle@.idle() ==> {
                &&& final(self).debug_handle@.idle()
                &&& Processor::steps(
                    old(self).processor.snapshot(old(self).memory@),
                    old(self).instruction_cache.cache@,
                    old(self).periphery.first_framebuffer_visible(),
                    final(self).processor.snapshot(final(self).memory@),
                    final(self).instruction_cache.cache@,
                    final(self).periphery.first_framebuffer_visible(),
                    match result {
                        Ok(outcome) => Ok(outcome),
                        Err(Abort::Fault(fault)) => Err(fault),
                        Err(_) => Err(Fault::DebugBreak),
                    },
                )
                &&& !(result matches Err(Abort::Terminated))
                &&& !(result matches Err(Abort::Disconnected))
            },
    {
        if self.is_halted {
            return Ok(Outcome { result: ExecutionResult::Halted, diagnostic: Diagnostic::Nothing });
        }
        let result: Result<Outcome, Abort> = self.processor.execute_next_instruction(
            &mut self.memory,
            &mut self.periphery,
            &mut self.instruction_cache,
            &mut self.debug_handle,
        );
        match result {
            Ok(Outcome { result: ExecutionResult::Halted, .. }) => {
                self.is_halted = true;
            },
            _ => {},
        }
        result
    }

    #[must_use]
    pub fn is_halted(&self) -> (halted: bool)
        ensures
            halted == self.is_halted,
    {
        self.is_halted
    }
}

} // verus!
