use backseat_safe_system_2k::address_constants::ENTRY_POINT;
use backseat_safe_system_2k::cursor::Cursor;
use backseat_safe_system_2k::debugger::tcp_protocol::{
    after_read, after_write, drops_client, frame, PollReturn, ReadOutcome, ReadStep, Request,
    Response, WriteOutcome, WriteStep, DEBUGGER_PORT_PREFIX, TCP_INTERFACE_ADDRESS,
};
use backseat_safe_system_2k::debugger::channels::{Delivery, Received};
use backseat_safe_system_2k::debugger::worker::{
    command_for, ends_thread, still_listening, Debugger,
};
use backseat_safe_system_2k::debugger::{
    start_debugger, Announcement, BreakpointHandleState, DebugCommand, DebugHandle, DebugMessage,
    Decision, Interruption, ShouldExecuteInstruction, ShouldTerminate, CHANNEL_BOUND,
    TCP_POLL_INTERVAL,
};
use backseat_safe_system_2k::display::MockDisplay;
use backseat_safe_system_2k::keyboard::{KeyState, Keyboard};
use backseat_safe_system_2k::machine::Machine;
use backseat_safe_system_2k::memory::Memory;
use backseat_safe_system_2k::opcodes::Opcode;
use backseat_safe_system_2k::periphery::PeripheryImplementation;
use backseat_safe_system_2k::processor::{Abort, Processor};
use backseat_safe_system_2k::timer::Timer;
use backseat_safe_system_2k::{Register, Word};

type Clock = Box<dyn FnMut() -> u64>;
type Keys = Box<dyn FnMut(Word) -> KeyState>;
type MockPeriphery = PeripheryImplementation<Clock, Keys, MockDisplay>;

fn periphery() -> MockPeriphery {
    let clock: Clock = Box::new(|| 0);
    let keys: Keys = Box::new(|_| KeyState::Up);
    PeripheryImplementation {
        timer: Timer::new(clock),
        keyboard: Keyboard::new(keys),
        display: MockDisplay::new(&mut (), &()),
        cursor: Cursor::new(0),
    }
}

fn program() -> Vec<Opcode> {
    (0..8)
        .map(|index| Opcode::MoveRegisterImmediate {
            register: Register(index),
            immediate: 100 + index as Word,
        })
        .collect()
}

fn machine_with(handle: DebugHandle) -> Machine<MockPeriphery> {
    let mut machine = Machine::with_debugger(periphery(), false, handle);
    for (index, opcode) in program().into_iter().enumerate() {
        machine
            .memory
            .write_opcode(ENTRY_POINT + 8 * index as u32, opcode);
    }
    machine
}

#[test]
fn protocol_constants() {
    assert_eq!(TCP_INTERFACE_ADDRESS, "127.0.0.1:57017");
    assert_eq!(DEBUGGER_PORT_PREFIX, "Debugger-Port:");
    assert_eq!(CHANNEL_BOUND, 100);
    assert_eq!(TCP_POLL_INTERVAL, 50);
}

#[test]
fn frame_ends_with_a_zero_byte() {
    assert_eq!(frame(b"{\"Continue\":{}}".to_vec()), b"{\"Continue\":{}}\0".to_vec());
    assert_eq!(frame(Vec::new()), vec![0]);
}

#[test]
fn writing_goes_on_until_the_frame_is_written() {
    assert_eq!(after_write(0, 10, WriteOutcome::Written(4)), WriteStep::Continue(4));
    assert_eq!(after_write(4, 10, WriteOutcome::Written(5)), WriteStep::Continue(9));
    assert_eq!(after_write(9, 10, WriteOutcome::Written(1)), WriteStep::Finished);
    assert_eq!(after_write(0, 10, WriteOutcome::Written(10)), WriteStep::Finished);
    assert_eq!(after_write(3, 10, WriteOutcome::Written(0)), WriteStep::WroteNothing);
    assert_eq!(after_write(3, 10, WriteOutcome::Interrupted), WriteStep::Continue(3));
    assert_eq!(after_write(3, 10, WriteOutcome::WouldBlock), WriteStep::Spin(3));
    assert_eq!(after_write(3, 10, WriteOutcome::Failed), WriteStep::GiveUp);
}

#[test]
fn requests_become_commands() {
    assert!(matches!(
        command_for(Request::StartExecution { stop_on_entry: true }),
        Some(DebugCommand::Pause)
    ));
    assert!(command_for(Request::StartExecution {
        stop_on_entry: false
    })
    .is_none());
    assert!(matches!(
        command_for(Request::SetBreakpoints { locations: vec![8, 16] }),
        Some(DebugCommand::SetBreakpoints(locations)) if locations == vec![8, 16]
    ));
    assert!(matches!(
        command_for(Request::RemoveBreakpoints { locations: vec![8] }),
        Some(DebugCommand::RemoveBreakpoints(locations)) if locations == vec![8]
    ));
    assert!(matches!(
        command_for(Request::Continue {}),
        Some(DebugCommand::Continue)
    ));
    assert!(matches!(
        command_for(Request::StepOne {}),
        Some(DebugCommand::StepOne)
    ));
    assert!(matches!(
        command_for(Request::SetRegister { register: 3, value: 9 }),
        Some(DebugCommand::SetRegister(3, 9))
    ));
    assert!(matches!(
        command_for(Request::Terminate {}),
        Some(DebugCommand::Terminate)
    ));
}

#[test]
fn handle_without_debugger_always_executes() {
    let mut machine = machine_with(DebugHandle::dummy());
    assert!(!machine.debug_handle.is_attached());
    assert!(machine.debug_handle.stop());
    assert!(machine.debug_handle.wait_for_start());
    for _ in 0..8 {
        machine.execute_next_instruction().unwrap();
    }
    assert_eq!(machine.processor.get_instruction_pointer(), ENTRY_POINT + 64);
    assert_eq!(machine.debug_handle.state(), BreakpointHandleState::Running);
    assert!(machine.debug_handle.call_stack().is_empty());
}

#[test]
fn messages_take_effect_as_they_arrive() {
    let mut handle = DebugHandle::dummy();
    let mut processor = Processor::new(false);
    handle.handle_message(DebugCommand::SetBreakpoints(vec![16, 24, 16]), &mut processor);
    assert!(handle.has_breakpoint(16));
    assert!(handle.has_breakpoint(24));
    assert!(!handle.has_breakpoint(8));
    handle.handle_message(DebugCommand::RemoveBreakpoints(vec![16, 100]), &mut processor);
    assert!(!handle.has_breakpoint(16));
    assert!(handle.has_breakpoint(24));
    handle.handle_message(DebugCommand::SetRegister(7, 1234), &mut processor);
    assert_eq!(processor.registers.get(Register(7)), 1234);
    handle.handle_message(DebugCommand::Pause, &mut processor);
    assert_eq!(
        handle.announce(8),
        vec![Announcement::Pausing(8), Announcement::BreakState]
    );
    assert_eq!(handle.state(), BreakpointHandleState::Breaking);
    // The pause is used up.
    handle.handle_message(DebugCommand::Continue, &mut processor);
    assert_eq!(handle.decide(), Decision::Execute);
    assert_eq!(handle.state(), BreakpointHandleState::Running);
    assert_eq!(handle.announce(8), vec![]);
}

#[test]
fn commands_from_before_the_hold_are_dropped() {
    let mut handle = DebugHandle::dummy();
    let mut processor = Processor::new(false);
    handle.handle_message(DebugCommand::StepOne, &mut processor);
    handle.handle_message(DebugCommand::Continue, &mut processor);
    handle.handle_message(DebugCommand::SetBreakpoints(vec![32]), &mut processor);
    assert_eq!(
        handle.announce(32),
        vec![Announcement::HitBreakpoint(32), Announcement::BreakState]
    );
    assert_eq!(handle.decide(), Decision::Skip);
    assert_eq!(handle.announce(32), vec![]);
    handle.handle_message(DebugCommand::Terminate, &mut processor);
    assert_eq!(handle.decide(), Decision::Terminate);
}

#[test]
fn continue_is_acted_on_before_a_later_step() {
    let mut handle = DebugHandle::dummy();
    let mut processor = Processor::new(false);
    handle.handle_message(DebugCommand::Pause, &mut processor);
    handle.announce(0);
    handle.handle_message(DebugCommand::Continue, &mut processor);
    handle.handle_message(DebugCommand::StepOne, &mut processor);
    assert_eq!(handle.decide(), Decision::Execute);
    assert_eq!(handle.state(), BreakpointHandleState::Running);
    assert_eq!(handle.decide(), Decision::Execute);
    assert_eq!(handle.state(), BreakpointHandleState::Running);
}

#[test]
fn breakpoint_and_step() {
    let mut machine = machine_with(DebugHandle::dummy());
    let breakpoint = ENTRY_POINT + 16;
    machine.debug_handle.handle_message(
        DebugCommand::SetBreakpoints(vec![breakpoint]),
        &mut machine.processor,
    );
    for _ in 0..2 {
        machine.execute_next_instruction().unwrap();
    }
    assert_eq!(machine.processor.get_instruction_pointer(), breakpoint);
    assert_eq!(machine.debug_handle.state(), BreakpointHandleState::Running);

    // The breakpoint holds the execution, however often the machine is asked.
    for _ in 0..5 {
        machine.execute_next_instruction().unwrap();
        assert_eq!(machine.debug_handle.state(), BreakpointHandleState::Breaking);
        assert_eq!(machine.processor.get_instruction_pointer(), breakpoint);
        assert_eq!(machine.processor.get_cycle_count(), 2);
    }
    assert_eq!(machine.processor.registers.get(Register(2)), 0);

    // One step executes one instruction.
    machine
        .debug_handle
        .handle_message(DebugCommand::StepOne, &mut machine.processor);
    for _ in 0..5 {
        machine.execute_next_instruction().unwrap();
        assert_eq!(machine.debug_handle.state(), BreakpointHandleState::Breaking);
        assert_eq!(machine.processor.get_instruction_pointer(), breakpoint + 8);
        assert_eq!(machine.processor.get_cycle_count(), 3);
    }
    assert_eq!(machine.processor.registers.get(Register(2)), 102);

    // A register that the debugger sets is there for the next instruction.
    machine
        .debug_handle
        .handle_message(DebugCommand::SetRegister(2, 7), &mut machine.processor);
    assert_eq!(machine.processor.registers.get(Register(2)), 7);

    // Continue ends the hold.
    machine
        .debug_handle
        .handle_message(DebugCommand::Continue, &mut machine.processor);
    for _ in 0..3 {
        machine.execute_next_instruction().unwrap();
        assert_eq!(machine.debug_handle.state(), BreakpointHandleState::Running);
    }
    assert_eq!(machine.processor.get_instruction_pointer(), breakpoint + 32);

    machine
        .debug_handle
        .handle_message(DebugCommand::Pause, &mut machine.processor);
    machine
        .debug_handle
        .handle_message(DebugCommand::Terminate, &mut machine.processor);
    // The terminate came before the hold and is dropped with it.
    machine.execute_next_instruction().unwrap();
    assert_eq!(machine.debug_handle.state(), BreakpointHandleState::Breaking);
    machine
        .debug_handle
        .handle_message(DebugCommand::Terminate, &mut machine.processor);
    assert_eq!(machine.execute_next_instruction(), Err(Abort::Terminated));
}

#[test]
fn announcements_after_a_step_tell_where_execution_is_held() {
    let mut handle = DebugHandle::dummy();
    let mut processor = Processor::new(false);
    let breakpoint = ENTRY_POINT + 16;
    handle.handle_message(DebugCommand::SetBreakpoints(vec![breakpoint]), &mut processor);
    assert_eq!(handle.announce(ENTRY_POINT), vec![]);
    assert_eq!(handle.decide(), Decision::Execute);
    assert_eq!(
        handle.announce(breakpoint),
        vec![Announcement::HitBreakpoint(breakpoint), Announcement::BreakState]
    );
    assert_eq!(handle.decide(), Decision::Skip);
    assert_eq!(handle.announce(breakpoint), vec![]);
    handle.handle_message(DebugCommand::StepOne, &mut processor);
    assert_eq!(handle.decide(), Decision::Execute);
    assert_eq!(
        handle.announce(breakpoint + 8),
        vec![Announcement::BreakState, Announcement::Breaking(breakpoint + 8)]
    );
    assert_eq!(handle.decide(), Decision::Skip);
}

#[test]
fn call_stack_follows_calls_and_returns() {
    let mut handle = DebugHandle::dummy();
    let mut memory = Memory::new();
    memory.write_opcode(
        ENTRY_POINT,
        Opcode::CallAddress {
            source_address: ENTRY_POINT + 64,
        },
    );
    memory.write_opcode(
        ENTRY_POINT + 64,
        Opcode::CallRegister {
            register: Register(1),
        },
    );
    memory.write_opcode(
        ENTRY_POINT + 128,
        Opcode::CallPointer {
            pointer: Register(1),
        },
    );
    memory.write_opcode(ENTRY_POINT + 192, Opcode::Return {});
    memory.write_opcode(ENTRY_POINT + 200, Opcode::NoOp {});
    handle.track_call_stack(&memory, ENTRY_POINT);
    handle.track_call_stack(&memory, ENTRY_POINT + 64);
    handle.track_call_stack(&memory, ENTRY_POINT + 128);
    assert_eq!(
        handle.call_stack(),
        &vec![ENTRY_POINT, ENTRY_POINT + 64, ENTRY_POINT + 128]
    );
    handle.track_call_stack(&memory, ENTRY_POINT + 200);
    handle.track_call_stack(&memory, ENTRY_POINT + 4);
    handle.track_call_stack(&memory, 0x0100_0000);
    assert_eq!(handle.call_stack().len(), 3);
    for _ in 0..5 {
        handle.track_call_stack(&memory, ENTRY_POINT + 192);
    }
    assert!(handle.call_stack().is_empty());
}

#[test]
fn worker_answers_messages_and_polls() {
    let (handle, mut debugger) = start_debugger();
    assert!(handle.is_attached());
    assert_eq!(handle.state(), BreakpointHandleState::WaitingForStart);
    assert!(matches!(
        debugger.handle_debug_message(DebugMessage::HitBreakpoint(16)),
        Some(Response::HitBreakpoint { location: 16 })
    ));
    assert!(matches!(
        debugger.handle_debug_message(DebugMessage::Breaking(24)),
        Some(Response::Breaking { location: 24 })
    ));
    assert!(matches!(
        debugger.handle_debug_message(DebugMessage::Pausing(32)),
        Some(Response::Pausing { location: 32 })
    ));
    assert!(matches!(
        debugger.handle_debug_message(DebugMessage::BreakState {
            registers: vec![1, 2],
            call_stack: vec![3]
        }),
        Some(Response::BreakState { registers, call_stack })
            if registers == vec![1, 2] && call_stack == vec![3]
    ));
    assert!(debugger.handle_debug_message(DebugMessage::Stop).is_none());

    let reaction = debugger.handle_poll_result(PollReturn::Nothing, 5);
    assert_eq!(reaction.should_terminate, ShouldTerminate::No);
    assert!(reaction.response.is_none());
    let reaction = debugger.handle_poll_result(PollReturn::ClientDisconnected, 5);
    assert_eq!(reaction.should_terminate, ShouldTerminate::No);
    assert!(reaction.response.is_none());
    let reaction = debugger.handle_poll_result(PollReturn::ClientConnected, 5);
    assert_eq!(reaction.should_terminate, ShouldTerminate::No);
    assert!(matches!(reaction.response, Some(Response::Hello { pid: 5 })));
    let reaction = debugger.handle_poll_result(
        PollReturn::ReceivedRequests(vec![Request::StepOne {}, Request::Continue {}]),
        5,
    );
    assert_eq!(reaction.should_terminate, ShouldTerminate::No);
    assert!(reaction.alive);
    let reaction = debugger.handle_poll_result(
        PollReturn::ReceivedRequests(vec![Request::Terminate {}, Request::StepOne {}]),
        5,
    );
    assert_eq!(reaction.should_terminate, ShouldTerminate::Yes);
    drop(handle);
    assert!(!debugger.handle_request(Request::StepOne {}));
}

#[test]
fn handle_and_worker_talk_over_their_channels() {
    let (handle, mut debugger) = start_debugger();
    // What the handle sends arrives at the worker's end.
    assert!(handle.stop());
    assert!(matches!(
        debugger.receiver().try_recv(),
        Ok(DebugMessage::Stop)
    ));
    assert!(debugger.receiver().try_recv().is_err());
    // More requests than the channel holds are dropped and do no harm.
    for _ in 0..CHANNEL_BOUND + 20 {
        assert!(debugger.handle_request(Request::StepOne {}));
    }
    drop(debugger);
    assert!(!handle.stop());
    let mut machine = machine_with(handle);
    assert_eq!(machine.execute_next_instruction(), Err(Abort::Disconnected));
}

#[test]
fn decisions_and_interruptions_are_told_apart() {
    assert_ne!(ShouldExecuteInstruction::Yes, ShouldExecuteInstruction::No);
    assert_ne!(Interruption::Terminated, Interruption::Disconnected);
}

#[test]
fn a_full_channel_is_no_harm_and_a_lost_one_is() {
    assert!(still_listening(Delivery::Sent));
    assert!(still_listening(Delivery::Full));
    assert!(!still_listening(Delivery::Disconnected));
}

#[test]
fn messages_are_put_together_from_registers_and_call_stack() {
    let mut handle = DebugHandle::dummy();
    let mut processor = Processor::new(false);
    processor.registers.set(Register(3), 33);
    let mut memory = Memory::new();
    memory.write_opcode(
        ENTRY_POINT,
        Opcode::CallAddress {
            source_address: ENTRY_POINT + 64,
        },
    );
    handle.track_call_stack(&memory, ENTRY_POINT);
    match handle.message_for(Announcement::BreakState, &processor) {
        DebugMessage::BreakState {
            registers,
            call_stack,
        } => {
            assert_eq!(registers.len(), 256);
            assert_eq!(registers[3], 33);
            assert_eq!(registers[254], ENTRY_POINT);
            assert_eq!(registers, processor.registers.contents().to_vec());
            assert_eq!(call_stack, vec![ENTRY_POINT]);
        }
        _ => panic!("the state is asked for"),
    }
    assert!(matches!(
        handle.message_for(Announcement::HitBreakpoint(8), &processor),
        DebugMessage::HitBreakpoint(8)
    ));
    assert!(matches!(
        handle.message_for(Announcement::Breaking(16), &processor),
        DebugMessage::Breaking(16)
    ));
    assert!(matches!(
        handle.message_for(Announcement::Pausing(24), &processor),
        DebugMessage::Pausing(24)
    ));
}

#[test]
fn what_the_channel_gives_is_taken_in() {
    let mut handle = DebugHandle::dummy();
    let mut processor = Processor::new(false);
    assert_eq!(
        handle.take_in(Received::Message(DebugCommand::SetRegister(9, 99)), &mut processor),
        None
    );
    assert_eq!(processor.registers.get(Register(9)), 99);
    assert_eq!(
        handle.take_in(
            Received::Message(DebugCommand::SetBreakpoints(vec![40])),
            &mut processor
        ),
        None
    );
    assert!(handle.has_breakpoint(40));
    assert_eq!(handle.take_in(Received::Empty, &mut processor), Some(Ok(())));
    assert_eq!(
        handle.take_in(Received::Disconnected, &mut processor),
        Some(Err(Interruption::Disconnected))
    );
    assert!(handle.has_breakpoint(40));
    assert_eq!(processor.registers.get(Register(9)), 99);
}

#[test]
fn debugger_listens_on_the_channel_that_it_was_given() {
    let (sender, receiver) = crossbeam_channel::bounded(4);
    let (breakpoint_sender, breakpoint_receiver) = crossbeam_channel::bounded(4);
    let mut debugger = Debugger::new(receiver, breakpoint_sender);
    sender.send(DebugMessage::Breaking(48)).unwrap();
    assert!(matches!(
        debugger.receiver().try_recv(),
        Ok(DebugMessage::Breaking(48))
    ));
    assert!(debugger.handle_request(Request::StepOne {}));
    assert!(matches!(
        breakpoint_receiver.try_recv(),
        Ok(DebugCommand::StepOne)
    ));
    let handle = DebugHandle::connected(sender, breakpoint_receiver);
    assert!(handle.is_attached());
    assert!(handle.stop());
    assert!(matches!(
        debugger.receiver().try_recv(),
        Ok(DebugMessage::Stop)
    ));
}

#[test]
fn only_stop_ends_the_thread() {
    assert!(ends_thread(&DebugMessage::Stop));
    assert!(!ends_thread(&DebugMessage::HitBreakpoint(8)));
    assert!(!ends_thread(&DebugMessage::Breaking(8)));
    assert!(!ends_thread(&DebugMessage::Pausing(8)));
    assert!(!ends_thread(&DebugMessage::BreakState {
        registers: vec![],
        call_stack: vec![]
    }));
}

#[test]
fn reading_goes_by_what_the_socket_gave() {
    assert_eq!(after_read(ReadOutcome::Read(12)), ReadStep::Take(12));
    assert_eq!(after_read(ReadOutcome::Read(1)), ReadStep::Take(1));
    assert_eq!(after_read(ReadOutcome::Read(0)), ReadStep::ClientDisconnected);
    assert_eq!(after_read(ReadOutcome::WouldBlock), ReadStep::Nothing);
    assert_eq!(after_read(ReadOutcome::Failed), ReadStep::GiveUp);
    assert!(drops_client(ReadStep::ClientDisconnected));
    assert!(drops_client(ReadStep::GiveUp));
    assert!(!drops_client(ReadStep::Nothing));
    assert!(!drops_client(ReadStep::Take(3)));
}

#[test]
fn a_request_without_a_command_cannot_find_the_thread_gone() {
    let (handle, mut debugger) = start_debugger();
    drop(handle);
    assert!(debugger.handle_request(Request::StartExecution {
        stop_on_entry: false
    }));
    assert!(!debugger.handle_request(Request::StartExecution {
        stop_on_entry: true
    }));
    let reaction = debugger.handle_poll_result(PollReturn::ReceivedRequests(vec![]), 5);
    assert!(reaction.alive);
    assert_eq!(reaction.should_terminate, ShouldTerminate::No);
    let reaction = debugger.handle_poll_result(
        PollReturn::ReceivedRequests(vec![Request::StartExecution {
            stop_on_entry: false,
        }]),
        5,
    );
    assert!(reaction.alive);
    let reaction = debugger.handle_poll_result(
        PollReturn::ReceivedRequests(vec![
            Request::StartExecution {
                stop_on_entry: false,
            },
            Request::Continue {},
        ]),
        5,
    );
    assert!(!reaction.alive);
}
