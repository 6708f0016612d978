//! The debugger's own thread: what it does with a request of the client and
//! with a message of the execution thread.

use vstd::prelude::*;
use crate::debugger::channels::{try_send, Delivery};
use crate::debugger::tcp_protocol::{PollReturn, Request, Response};
use crate::debugger::{DebugCommand, DebugMessage, ShouldTerminate};

verus! {

pub struct Debugger {
    receiver: crossbeam_channel::Receiver<DebugMessage>,
    breakpoint_sender: crossbeam_channel::Sender<DebugCommand>,
    started: bool,
    start_notifications: Vec<crossbeam_utils::sync::WaitGroup>,
}

/// What the debugger does after a look at the socket.
pub struct PollReaction {
    pub should_terminate: ShouldTerminate,
    /// What is to be sent to the client.
    pub response: Option<Response>,
    /// Whether the execution thread still listens.
    pub alive: bool,
}

/// The command that the execution thread gets for `request`: a start that
/// stops on entry is a pause, a start that does not is nothing, and every
/// other request is the command of its name.
pub open spec fn command_of(request: Request) -> Option<DebugCommand> {
    match request {
        Request::StartExecution { stop_on_entry } => if stop_on_entry {
            Some(DebugCommand::Pause)
        } else {
            None
        },
        Request::SetBreakpoints { locations } => Some(DebugCommand::SetBreakpoints(locations)),
        Request::RemoveBreakpoints { locations } => Some(
            DebugCommand::RemoveBreakpoints(locations),
        ),
        Request::Continue {  } => Some(DebugCommand::Continue),
        Request::StepOne {  } => Some(DebugCommand::StepOne),
        Request::SetRegister { register, value } => Some(
            DebugCommand::SetRegister(register, value),
        ),
        Request::Terminate {  } => Some(DebugCommand::Terminate),
    }
}

/// The response that the client gets for `message`: each notice of the
/// execution thread is passed on, and a request to stop or to wait is not
/// for the client.
pub open spec fn response_of(message: DebugMessage) -> Option<Response> {
    match message {
        DebugMessage::Stop => None,
        DebugMessage::WaitForStart(_) => None,
        DebugMessage::HitBreakpoint(location) => Some(Response::HitBreakpoint { location }),
        DebugMessage::Breaking(location) => Some(Response::Breaking { location }),
        DebugMessage::Pausing(location) => Some(Response::Pausing { location }),
        DebugMessage::BreakState { registers, call_stack } => Some(
            Response::BreakState { registers, call_stack },
        ),
    }
}

/// Whether the execution thread still listens after a command was sent to it
/// without waiting and `delivery` became of the command: it does where the
/// command was sent, and also where the channel was full and the command is
/// lost; it does not where the channel has lost its receiver.
pub open spec fn leaves_listener(delivery: Delivery) -> bool {
    delivery != Delivery::Disconnected
}

/// Tells whether the execution thread still listens after `delivery`.
pub fn still_listening(delivery: Delivery) -> (alive: bool)
    ensures
        alive == leaves_listener(delivery),
{
    match delivery {
        Delivery::Sent | Delivery::Full => true,
        Delivery::Disconnected => false,
    }
}

/// Tells whether `message` ends the debugger's thread: the request to stop
/// does, and no other message.
pub fn ends_thread(message: &DebugMessage) -> (ends: bool)
    ensures
        ends == (message is Stop),
{
    match message {
        DebugMessage::Stop => true,
        _ => false,
    }
}

/// Works out the command that the execution thread gets for `request`.
pub fn command_for(request: Request) -> (command: Option<DebugCommand>)
    ensures
        command == command_of(request),
{
    match request {
        Request::StartExecution { stop_on_entry } => {
            if stop_on_entry {
                Some(DebugCommand::Pause)
            } else {
                None
            }
        },
        Request::SetBreakpoints { locations } => Some(DebugCommand::SetBreakpoints(locations)),
        Request::RemoveBreakpoints { locations } => Some(
            DebugCommand::RemoveBreakpoints(locations),
        ),
        Request::Continue {  } => Some(DebugCommand::Continue),
        Request::StepOne {  } => Some(DebugCommand::StepOne),
        Request::SetRegister { register, value } => Some(
            DebugCommand::SetRegister(register, value),
        ),
        Request::Terminate {  } => Some(DebugCommand::Terminate),
    }
}

impl Debugger {
    /// Whether the client has started the execution.
    pub closed spec fn has_started(&self) -> bool {
        self.started
    }

    /// The number of wait groups that are held until the execution starts.
    pub closed spec fn waiting(&self) -> nat {
        self.start_notifications@.len()
    }

    /// The end of the channel on which the messages of the execution thread
    /// arrive.
    pub closed spec fn inbox(&self) -> crossbeam_channel::Receiver<DebugMessage> {
        self.receiver
    }

    /// The end of the channel on which commands go to the execution thread.
    pub closed spec fn outbox(&self) -> crossbeam_channel::Sender<DebugCommand> {
        self.breakpoint_sender
    }

    /// A debugger that listens on `receiver` and commands through
    /// `breakpoint_sender`. The execution has not started, and nobody waits
    /// for it yet.
    pub fn new(
        receiver: crossbeam_channel::Receiver<DebugMessage>,
        breakpoint_sender: crossbeam_channel::Sender<DebugCommand>,
    ) -> (debugger: Self)
        ensures
            debugger.inbox() == receiver,
            debugger.outbox() == breakpoint_sender,
            !debugger.has_started(),
            debugger.waiting() == 0,
    {
        Self { receiver, breakpoint_sender, started: false, start_notifications: Vec::new() }
    }

    /// The end of the channel on which the messages of the execution thread
    /// arrive.
    pub fn receiver(&self) -> (receiver: &crossbeam_channel::Receiver<DebugMessage>)
        ensures
            *receiver == self.inbox(),
    {
        &self.receiver
    }

    /// Acts on what a look at the socket found: a client that has connected
    /// gets a hello with the number of this process, and each request that
    /// was received is handled in turn. The thread is to end once one of the
    /// requests is to terminate. The execution thread can be found gone only
    /// by a request that has a command for it.
    pub fn handle_poll_result(&mut self, result: PollReturn, pid: u32) -> (reaction: PollReaction)
        ensures
            final(self).inbox() == old(self).inbox(),
            final(self).outbox() == old(self).outbox(),
            match result {
                PollReturn::Nothing | PollReturn::ClientDisconnected => {
                    &&& reaction.should_terminate == ShouldTerminate::No
                    &&& reaction.response is None
                    &&& reaction.alive
                    &&& final(self).has_started() == old(self).has_started()
                    &&& final(self).waiting() == old(self).waiting()
                },
                PollReturn::ClientConnected => {
                    &&& reaction.should_terminate == ShouldTerminate::No
                    &&& reaction.response == Some(Response::Hello { pid })
                    &&& reaction.alive
                    &&& final(self).has_started() == old(self).has_started()
                    &&& final(self).waiting() == old(self).waiting()
                },
                PollReturn::ReceivedRequests(requests) => {
                    let starts = exists|i: int|
                        0 <= i < requests@.len() && #[trigger] requests@[i] is StartExecution;
                    &&& reaction.should_terminate == ShouldTerminate::Yes <==> exists|i: int|
                        0 <= i < requests@.len() && #[trigger] requests@[i] is Terminate
                    &&& reaction.response is None
                    &&& (forall|i: int|
                        0 <= i < requests@.len() ==> command_of(#[trigger] requests@[i]) is None)
                        ==> reaction.alive
                    &&& final(self).has_started() == (old(self).has_started() || starts)
                    &&& final(self).waiting() == if starts {
                        0
                    } else {
                        old(self).waiting()
                    }
                },
            },
    {
        match result {
            PollReturn::Nothing | PollReturn::ClientDisconnected => PollReaction {
                should_terminate: ShouldTerminate::No,
                response: None,
                alive: true,
            },
            PollReturn::ClientConnected => PollReaction {
                should_terminate: ShouldTerminate::No,
                response: Some(Response::Hello { pid }),
                alive: true,
            },
            PollReturn::ReceivedRequests(requests) => {
                let mut should_terminate: ShouldTerminate = ShouldTerminate::No;
                let mut alive: bool = true;
                let ghost all = requests@;
                let mut requests: Vec<Request> = requests;
                let mut handled: usize = 0;
                assert(all.len() == requests.len());
                while requests.len() > 0
                    invariant
                        self.inbox() == old(self).inbox(),
                        self.outbox() == old(self).outbox(),
                        all.len() <= usize::MAX,
                        handled + requests@.len() == all.len(),
                        requests@ == all.subrange(handled as int, all.len() as int),
                        should_terminate == ShouldTerminate::Yes <==> exists|i: int|
                            0 <= i < handled && #[trigger] all[i] is Terminate,
                        (forall|i: int| 0 <= i < handled ==> command_of(#[trigger] all[i]) is None)
                            ==> alive,
                        self.has_started() == (old(self).has_started() || exists|i: int|
                            0 <= i < handled && #[trigger] all[i] is StartExecution),
                        self.waiting() == if exists|i: int|
                            0 <= i < handled && #[trigger] all[i] is StartExecution {
                            0
                        } else {
                            old(self).waiting()
                        },
                    decreases requests@.len(),
                {
                    let request: Request = requests.remove(0);
                    proof {
                        assert(request == all[handled as int]);
                        assert(requests@ =~= all.subrange(handled + 1, all.len() as int));
                    }
                    if let Request::Terminate {  } = request {
                        should_terminate = ShouldTerminate::Yes;
                    }
                    if !self.handle_request(request) {
                        alive = false;
                    }
                    handled = handled + 1;
                }
                PollReaction { should_terminate, response: None, alive }
            },
        }
    }

    /// Acts on a message of the execution thread. A wait group is held until
    /// the execution starts, and dropped at once if it has started. What the
    /// client is to be told is handed back.
    pub fn handle_debug_message(&mut self, message: DebugMessage) -> (response: Option<Response>)
        ensures
            response == response_of(message),
            final(self).inbox() == old(self).inbox(),
            final(self).outbox() == old(self).outbox(),
            final(self).has_started() == old(self).has_started(),
            final(self).waiting() == if message is WaitForStart && !old(self).has_started() {
                old(self).waiting() + 1
            } else {
                old(self).waiting()
            },
    {
        match message {
            DebugMessage::Stop => None,
            DebugMessage::WaitForStart(wait_group) => {
                if !self.started {
                    self.start_notifications.push(wait_group);
                }
                None
            },
            DebugMessage::HitBreakpoint(location) => Some(Response::HitBreakpoint { location }),
            DebugMessage::Breaking(location) => Some(Response::Breaking { location }),
            DebugMessage::Pausing(location) => Some(Response::Pausing { location }),
            DebugMessage::BreakState { registers, call_stack } => Some(
                Response::BreakState { registers, call_stack },
            ),
        }
    }

    /// Acts on a request of the client: the command of `command_of` goes to
    /// the execution thread, and a start lets go of everyone who waits for
    /// it. Tells whether the execution thread still listens; a request
    /// without a command cannot find it gone.
    pub fn handle_request(&mut self, request: Request) -> (alive: bool)
        ensures
            command_of(request) is None ==> alive,
            final(self).inbox() == old(self).inbox(),
            final(self).outbox() == old(self).outbox(),
            final(self).has_started() == (old(self).has_started() || request is StartExecution),
            final(self).waiting() == if request is StartExecution {
                0
            } else {
                old(self).waiting()
            },
    {
        let starts: bool = match request {
            Request::StartExecution { .. } => true,
            _ => false,
        };
        let alive: bool = match command_for(request) {
            Some(command) => self.send_to_breakpoint_handler(command),
            None => true,
        };
        if starts {
            self.started = true;
            self.start_notifications.clear();
        }
        alive
    }

    /// Sends `message` to the execution thread without waiting; a message
    /// that finds the channel full is dropped. Tells whether the execution
    /// thread still listens.
    fn send_to_breakpoint_handler(&mut self, message: DebugCommand) -> (alive: bool)
        ensures
            final(self).has_started() == old(self).has_started(),
            final(self).waiting() == old(self).waiting(),
            final(self).inbox() == old(self).inbox(),
            final(self).outbox() == old(self).outbox(),
    {
        still_listening(try_send(&self.breakpoint_sender, message))
    }
}

} // verus!
