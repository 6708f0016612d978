use std::time::Duration;

use backseat_safe_system_2k::address_constants::ENTRY_POINT;
use backseat_safe_system_2k::cursor::Cursor;
use backseat_safe_system_2k::debugger::tcp_protocol::{Request, Response};
use backseat_safe_system_2k::debugger::worker::Debugger;
use backseat_safe_system_2k::debugger::{start_debugger, BreakpointHandleState, DebugMessage};
use backseat_safe_system_2k::display::MockDisplay;
use backseat_safe_system_2k::keyboard::{KeyState, Keyboard};
use backseat_safe_system_2k::machine::Machine;
use backseat_safe_system_2k::opcodes::Opcode;
use backseat_safe_system_2k::periphery::PeripheryImplementation;
use backseat_safe_system_2k::timer::Timer;
use backseat_safe_system_2k::{Register, Word};
use crossbeam_channel::{unbounded, Receiver, Sender};

type Clock = Box<dyn FnMut() -> u64>;
type Keys = Box<dyn FnMut(Word) -> KeyState>;
type MockPeriphery = PeripheryImplementation<Clock, Keys, MockDisplay>;

fn periphery() -> MockPeriphery {
    let clock: Clock = Box::new(|| 0);
    let keys: Keys = Box::new(|_| KeyState::Up);
    PeripheryImplementation {
        timer: Timer::new(clock),
        keyboard: Keyboard::new(keys),
        display: MockDisplay::new(&mut (), &()),
        cursor: Cursor::new(0),
    }
}

/// The debugger's thread without its socket: requests come from the test and
/// responses go to it.
fn work(mut debugger: Debugger, requests: Receiver<Request>, responses: Sender<Response>) {
    loop {
        while let Ok(request) = requests.try_recv() {
            assert!(debugger.handle_request(request));
        }
        match debugger.receiver().recv_timeout(Duration::from_millis(1)) {
            Ok(DebugMessage::Stop) => break,
            Ok(message) => {
                if let Some(response) = debugger.handle_debug_message(message) {
                    responses.send(response).unwrap();
                }
            }
            Err(_) => {}
        }
    }
}

/// Executes instructions until the debugger's thread has a response.
fn next_response(
    machine: &mut Machine<MockPeriphery>,
    responses: &Receiver<Response>,
) -> Response {
    for _ in 0..5000 {
        if let Ok(response) = responses.recv_timeout(Duration::from_millis(1)) {
            return response;
        }
        machine.execute_next_instruction().unwrap();
    }
    panic!("the debugger says nothing");
}

#[test]
fn breakpoint_and_step_over_the_channels() {
    let (handle, debugger) = start_debugger();
    let (requests, requests_end) = unbounded();
    let (responses_end, responses) = unbounded();
    crossbeam_utils::thread::scope(|scope| {
        scope.spawn(move |_| work(debugger, requests_end, responses_end));
        converse(handle, requests, responses);
    })
    .unwrap();
}

fn converse(
    handle: backseat_safe_system_2k::debugger::DebugHandle,
    requests: Sender<Request>,
    responses: Receiver<Response>,
) {
    let mut machine = Machine::with_debugger(periphery(), false, handle);
    for index in 0..8 {
        machine.memory.write_opcode(
            ENTRY_POINT + 8 * index,
            Opcode::MoveRegisterImmediate {
                register: Register(index as u8),
                immediate: 100 + index,
            },
        );
    }

    requests
        .send(Request::SetBreakpoints {
            locations: vec![ENTRY_POINT + 16],
        })
        .unwrap();
    requests
        .send(Request::StartExecution {
            stop_on_entry: false,
        })
        .unwrap();

    assert!(matches!(
        next_response(&mut machine, &responses),
        Response::HitBreakpoint { location } if location == ENTRY_POINT + 16
    ));
    match next_response(&mut machine, &responses) {
        Response::BreakState {
            registers,
            call_stack,
        } => {
            assert_eq!(registers.len(), 256);
            assert_eq!(&registers[..3], &[100, 101, 0]);
            assert_eq!(registers[254], ENTRY_POINT + 16);
            assert!(call_stack.is_empty());
        }
        _ => panic!("the state must follow the breakpoint"),
    }
    assert_eq!(machine.debug_handle.state(), BreakpointHandleState::Breaking);
    assert_eq!(machine.processor.get_cycle_count(), 2);

    requests.send(Request::StepOne {}).unwrap();
    match next_response(&mut machine, &responses) {
        Response::BreakState { registers, .. } => {
            assert_eq!(&registers[..4], &[100, 101, 102, 0]);
        }
        _ => panic!("the state must come before the notice"),
    }
    assert!(matches!(
        next_response(&mut machine, &responses),
        Response::Breaking { location } if location == ENTRY_POINT + 24
    ));
    assert_eq!(machine.processor.get_cycle_count(), 3);

    requests
        .send(Request::SetRegister {
            register: 200,
            value: 77,
        })
        .unwrap();
    requests.send(Request::Continue {}).unwrap();
    for _ in 0..5000 {
        if machine.debug_handle.state() == BreakpointHandleState::Running {
            break;
        }
        machine.execute_next_instruction().unwrap();
        let _ = responses.recv_timeout(Duration::from_millis(1));
    }
    assert_eq!(machine.debug_handle.state(), BreakpointHandleState::Running);
    assert_eq!(machine.processor.registers.get(Register(200)), 77);

    assert!(machine.debug_handle.stop());
}
