//! Sessions with the kernel CPU.
//!
//! The board is driven from outside: the functions here decide on a message
//! from the kernel CPU and list what the board has to do about it.

use vstd::prelude::*;

use crate::satman::kernel_cpu::validate;
use crate::satman::kernel_proto::{Message, KERNELCPU_EXEC_ADDRESS, KERNELCPU_LAST_ADDRESS};
use crate::satman::log_lines::split_lines;

verus! {

/// Data longer than this is left out of traces.
pub const TRACE_LIMIT: usize = 100;

/// Failures of a session.
#[derive(Debug, PartialEq, Eq)]
pub enum Error {
    /// The kernel could not be loaded.
    Load(String),
    KernelNotFound,
    /// The mailbox held a pointer outside of the memory of the kernel CPU.
    InvalidPointer(usize),
    ClockFailure,
    /// Something was asked for out of turn.
    Unexpected(String),
}

/// How far the kernel has come.
#[derive(Clone, Copy, Debug, PartialEq, Eq, Structural)]
pub enum KernelState {
    Absent,
    Loaded,
    Running,
}

/// A session with the kernel CPU.
#[derive(Debug)]
pub struct Session {
    kernel_state: KernelState,
    log_buffer: String,
}

/// The state of the kernel, and what it has logged since the last full line.
#[verifier::ext_equal]
pub struct SessionView {
    pub kernel_state: KernelState,
    pub log: Seq<char>,
}

/// What the board is asked to do.
#[derive(Debug, PartialEq, Eq)]
pub enum KernAction {
    /// Start the kernel CPU.
    StartCpu,
    /// Stop the kernel CPU.
    StopCpu,
    /// Acknowledge the message in the mailbox.
    Acknowledge,
    /// Put a message into the mailbox and wait until it is acknowledged.
    Send { message: Message },
    /// Reset the RTIO core.
    ResetRtio,
    /// Log a line on behalf of the kernel.
    Log { line: String },
    /// Report an exception that has ended the kernel.
    ReportException { exception: String },
}

/// What became of a message of the kernel CPU, and what the board has to do.
#[derive(Debug, PartialEq, Eq)]
pub struct Processed {
    pub result: Result<bool, Error>,
    pub actions: Vec<KernAction>,
}

/// How much of a message a trace shows.
#[derive(Clone, Copy, Debug, PartialEq, Eq, Structural)]
pub enum Trace {
    /// Its name.
    Name,
    /// Its name and the length of its data.
    Length { len: usize },
    /// All but its data.
    WithoutData,
    /// All of it.
    Whole,
}

/// The failure says that something was asked for out of turn, in these words.
pub open spec fn is_unexpected<T>(result: Result<T, Error>, text: Seq<char>) -> bool {
    result matches Err(Error::Unexpected(message)) && message@ == text
}

/// The log can be flushed: it is not empty, and the last byte of its encoding
/// is a character of its own.
pub open spec fn can_flush(log: Seq<char>) -> bool {
    log.len() > 0 && (log.last() as u32) < 128
}

/// The lines that a flush takes out of the log: all of them, if the last is
/// complete.
pub open spec fn flushed(log: Seq<char>) -> Seq<Seq<char>> {
    if log.last() == '\n' {
        crate::satman::log_lines::lines_of(log)
    } else {
        seq![]
    }
}

/// What a flush leaves in the log.
pub open spec fn after_flush(log: Seq<char>) -> Seq<char> {
    if log.last() == '\n' {
        seq![]
    } else {
        log
    }
}

/// The actions log the lines, in their order.
pub open spec fn log_the_lines(actions: Seq<KernAction>, lines: Seq<Seq<char>>) -> bool {
    &&& actions.len() == lines.len()
    &&& forall|i: int|
        0 <= i < lines.len() ==> (#[trigger] actions[i] matches KernAction::Log { line }
            && line@ == lines[i])
}

/// The actions report the exceptions, in their order.
pub open spec fn report_the_exceptions(
    actions: Seq<KernAction>,
    exceptions: Seq<Option<String>>,
) -> bool {
    &&& actions.len() == exceptions.len()
    &&& forall|i: int|
        0 <= i < exceptions.len() ==> (
        #[trigger] actions[i] matches KernAction::ReportException { exception }
            && Some(exception) == exceptions[i])
}

impl KernelState {
    /// The name of the state.
    pub open spec fn name_spec(self) -> Seq<char> {
        match self {
            KernelState::Absent => "Absent"@,
            KernelState::Loaded => "Loaded"@,
            KernelState::Running => "Running"@,
        }
    }

    /// The name of the state.
    pub fn name(&self) -> (name: &'static str)
        ensures
            name@ == self.name_spec(),
    {
        match self {
            KernelState::Absent => "Absent",
            KernelState::Loaded => "Loaded",
            KernelState::Running => "Running",
        }
    }
}

impl View for Session {
    type V = SessionView;

    closed spec fn view(&self) -> SessionView {
        SessionView { kernel_state: self.kernel_state, log: self.log_buffer@ }
    }
}

impl Session {
    /// A session without a kernel.
    pub fn new() -> (session: Session)
        ensures
            session@ == (SessionView { kernel_state: KernelState::Absent, log: seq![] }),
    {
        Session { kernel_state: KernelState::Absent, log_buffer: String::new() }
    }

    /// The kernel is running.
    pub fn running(&self) -> (running: bool)
        ensures
            running == (self@.kernel_state is Running),
    {
        match self.kernel_state {
            KernelState::Absent | KernelState::Loaded => false,
            KernelState::Running => true,
        }
    }

    /// Tells whether the log can be flushed once a text has been added.
    pub fn can_log(&self, text: &str) -> (can: bool)
        ensures
            can == can_flush(self@.log + text@),
    {
        let added: usize = text.unicode_len();
        let kept: usize = self.log_buffer.as_str().unicode_len();
        if added > 0 {
            assert((self@.log + text@).last() == text@.last());
            (text.get_char(added - 1) as u32) < 128
        } else {
            assert(self@.log + text@ =~= self@.log);
            if kept > 0 {
                (self.log_buffer.as_str().get_char(kept - 1) as u32) < 128
            } else {
                false
            }
        }
    }

    /// Takes all lines out of the log if the last is complete.
    pub fn flush_log_buffer(&mut self) -> (lines: Vec<String>)
        requires
            can_flush(old(self)@.log),
        ensures
            lines.deep_view() == flushed(old(self)@.log),
            final(self)@ == (SessionView { log: after_flush(old(self)@.log), ..old(self)@ }),
    {
        let len: usize = self.log_buffer.as_str().unicode_len();
        if self.log_buffer.as_str().get_char(len - 1) == '\n' {
            let lines = split_lines(self.log_buffer.as_str());
            self.log_buffer = String::new();
            assert(self@ =~= (SessionView { log: seq![], ..old(self)@ }));
            lines
        } else {
            let lines: Vec<String> = Vec::new();
            assert(lines.deep_view() =~= Seq::<Seq<char>>::empty());
            lines
        }
    }
}

/// Takes a pointer from the mailbox: it has to lie in the memory of the kernel
/// CPU.
pub fn kern_recv_notrace(ptr: usize) -> (result: Result<(), Error>)
    ensures
        match result {
            Ok(()) => KERNELCPU_EXEC_ADDRESS <= ptr <= KERNELCPU_LAST_ADDRESS,
            Err(error) => error == Error::InvalidPointer(ptr) && !(KERNELCPU_EXEC_ADDRESS <= ptr
                <= KERNELCPU_LAST_ADDRESS),
        },
{
    if !validate(ptr) {
        return Err(Error::InvalidPointer(ptr));
    }
    Ok(())
}

/// How much the trace of a message from the kernel CPU shows.
pub open spec fn recv_trace(reply: Message) -> Trace {
    match reply {
        Message::Log(_) | Message::LogSlice(_) => Trace::Name,
        Message::DmaRecordAppend(data) if data@.len() > TRACE_LIMIT => Trace::Length {
            len: data@.len() as usize,
        },
        _ => Trace::Whole,
    }
}

/// Decides how much the trace of a message from the kernel CPU shows.
pub fn kern_recv_dotrace(reply: &Message) -> (trace: Trace)
    ensures
        trace == recv_trace(*reply),
{
    match reply {
        Message::Log(_) => Trace::Name,
        Message::LogSlice(_) => Trace::Name,
        Message::DmaRecordAppend(data) => {
            let len: usize = data.len();
            if len > TRACE_LIMIT {
                Trace::Length { len }
            } else {
                Trace::Whole
            }
        },
        _ => Trace::Whole,
    }
}

/// How much the trace of a message to the kernel CPU shows.
pub open spec fn send_trace(request: Message) -> Trace {
    match request {
        Message::LoadRequest(_) => Trace::Name,
        Message::DmaRetrieveReply { trace: Some(data), .. } if data@.len() > TRACE_LIMIT => {
            Trace::WithoutData
        },
        _ => Trace::Whole,
    }
}

/// Decides how much the trace of a message to the kernel CPU shows.
pub fn kern_send_dotrace(request: &Message) -> (trace: Trace)
    ensures
        trace == send_trace(*request),
{
    match request {
        Message::LoadRequest(_) => Trace::Name,
        Message::DmaRetrieveReply { trace, .. } => {
            match trace {
                Some(data) => if data.len() > TRACE_LIMIT {
                    Trace::WithoutData
                } else {
                    Trace::Whole
                },
                None => Trace::Whole,
            }
        },
        _ => Trace::Whole,
    }
}

/// Acknowledges the message of the kernel CPU.
pub fn kern_acknowledge(actions: &mut Vec<KernAction>) -> (result: Result<(), Error>)
    ensures
        result is Ok,
        final(actions)@ == old(actions)@.push(KernAction::Acknowledge),
{
    actions.push(KernAction::Acknowledge);
    Ok(())
}

/// Sends a message to the kernel CPU.
pub fn kern_send(request: Message, actions: &mut Vec<KernAction>) -> (result: Result<(), Error>)
    ensures
        result is Ok,
        final(actions)@ == old(actions)@.push(KernAction::Send { message: request }),
{
    actions.push(KernAction::Send { message: request });
    Ok(())
}

/// Runs the kernel that has been loaded, and fails if there is none.
pub fn kern_run(session: &mut Session, actions: &mut Vec<KernAction>) -> (result: Result<
    (),
    Error,
>)
    ensures
        if old(session)@.kernel_state is Loaded {
            &&& result is Ok
            &&& final(session)@ == (SessionView {
                kernel_state: KernelState::Running,
                ..old(session)@
            })
            &&& final(actions)@ == old(actions)@.push(KernAction::Acknowledge)
        } else {
            &&& is_unexpected(result, "attempted to run a kernel while not in Loaded state"@)
            &&& final(session)@ == old(session)@
            &&& final(actions)@ == old(actions)@
        },
{
    match session.kernel_state {
        KernelState::Loaded => {
            session.kernel_state = KernelState::Running;
            kern_acknowledge(actions)
        },
        _ => Err(
            Error::Unexpected("attempted to run a kernel while not in Loaded state".to_owned()),
        ),
    }
}

/// Loads a kernel: starts the kernel CPU and hands it the library. Its reply
/// goes to [`kern_load_reply`]. Fails while a kernel is running.
pub fn kern_load(session: &Session, library: &[u8], actions: &mut Vec<KernAction>) -> (result:
    Result<(), Error>)
    ensures
        if session@.kernel_state is Running {
            &&& is_unexpected(
                result,
                "attempted to load a new kernel while a kernel was running"@,
            )
            &&& final(actions)@ == old(actions)@
        } else {
            &&& result is Ok
            &&& final(actions)@.len() == old(actions)@.len() + 2
            &&& final(actions)@.take(old(actions)@.len() as int) == old(actions)@
            &&& final(actions)@[old(actions)@.len() as int] is StartCpu
            &&& final(actions)@.last() matches KernAction::Send { message }
            &&& message matches Message::LoadRequest(loaded)
            &&& loaded@ == library@
        },
{
    if session.running() {
        return Err(
            Error::Unexpected(
                "attempted to load a new kernel while a kernel was running".to_owned(),
            ),
        );
    }
    let ghost before = actions@;
    actions.push(KernAction::StartCpu);
    let result = kern_send(
        Message::LoadRequest(vstd::slice::slice_to_vec(library)),
        actions,
    );
    assert(actions@.take(before.len() as int) =~= before);
    result
}

/// Takes the reply of the kernel CPU to the library that it was handed, with
/// the reply rendered as text: the kernel is loaded, or the kernel CPU is
/// stopped, or the reply is none.
pub fn kern_load_reply(
    session: &mut Session,
    reply: &Message,
    text: &str,
    actions: &mut Vec<KernAction>,
) -> (result: Result<(), Error>)
    ensures
        match *reply {
            Message::LoadReply(Ok(())) => {
                &&& result is Ok
                &&& final(session)@ == (SessionView {
                    kernel_state: KernelState::Loaded,
                    ..old(session)@
                })
                &&& final(actions)@ == old(actions)@
            },
            Message::LoadReply(Err(error)) => {
                &&& result == Err::<(), Error>(Error::Load(error))
                &&& final(session)@ == old(session)@
                &&& final(actions)@ == old(actions)@.push(KernAction::StopCpu)
            },
            _ => {
                &&& is_unexpected(result, "unexpected kernel CPU reply to load request: "@ + text@)
                &&& final(session)@ == old(session)@
                &&& final(actions)@ == old(actions)@
            },
        },
{
    match reply {
        Message::LoadReply(Ok(())) => {
            session.kernel_state = KernelState::Loaded;
            Ok(())
        },
        Message::LoadReply(Err(error)) => {
            actions.push(KernAction::StopCpu);
            Err(Error::Load(error.clone()))
        },
        _ => {
            let mut message = "unexpected kernel CPU reply to load request: ".to_owned();
            message.append(text);
            Err(Error::Unexpected(message))
        },
    }
}

/// What is done about a request of the kernel for the hardware. The buses of
/// this device are not for its kernels, so it refuses them.
pub open spec fn hardware_answer(request: Message) -> Option<Seq<KernAction>> {
    let reply = match request {
        Message::RtioDestinationStatusRequest { .. } => Some(
            Message::RtioDestinationStatusReply { up: true },
        ),
        Message::I2cStartRequest { .. }
        | Message::I2cRestartRequest { .. }
        | Message::I2cStopRequest { .. }
        | Message::I2cSwitchSelectRequest { .. } => Some(
            Message::I2cBasicReply { succeeded: false },
        ),
        Message::I2cWriteRequest { .. } => Some(
            Message::I2cWriteReply { succeeded: false, ack: false },
        ),
        Message::I2cReadRequest { .. } => Some(
            Message::I2cReadReply { succeeded: false, data: 0xff },
        ),
        Message::SpiSetConfigRequest { .. } | Message::SpiWriteRequest { .. } => Some(
            Message::SpiBasicReply { succeeded: false },
        ),
        Message::SpiReadRequest { .. } => Some(
            Message::SpiReadReply { succeeded: false, data: 0 },
        ),
        _ => None,
    };
    match reply {
        Some(message) => Some(seq![KernAction::Send { message }]),
        None => if request is RtioInitRequest {
            Some(seq![KernAction::ResetRtio, KernAction::Acknowledge])
        } else {
            None
        },
    }
}

/// Serves a request of the kernel for the hardware, and tells whether it was
/// one.
pub fn process_kern_hwreq(request: &Message, actions: &mut Vec<KernAction>) -> (result: Result<
    bool,
    Error,
>)
    ensures
        match hardware_answer(*request) {
            Some(answer) => {
                &&& result == Ok::<bool, Error>(true)
                &&& final(actions)@ == old(actions)@ + answer
            },
            None => {
                &&& result == Ok::<bool, Error>(false)
                &&& final(actions)@ == old(actions)@
            },
        },
{
    let reply = match request {
        Message::RtioInitRequest => {
            actions.push(KernAction::ResetRtio);
            actions.push(KernAction::Acknowledge);
            return Ok(true);
        },
        Message::RtioDestinationStatusRequest { .. } => Message::RtioDestinationStatusReply {
            up: true,
        },
        Message::I2cStartRequest { .. } => Message::I2cBasicReply { succeeded: false },
        Message::I2cRestartRequest { .. } => Message::I2cBasicReply { succeeded: false },
        Message::I2cStopRequest { .. } => Message::I2cBasicReply { succeeded: false },
        Message::I2cWriteRequest { .. } => Message::I2cWriteReply { succeeded: false, ack: false },
        Message::I2cReadRequest { .. } => Message::I2cReadReply { succeeded: false, data: 0xff },
        Message::I2cSwitchSelectRequest { .. } => Message::I2cBasicReply { succeeded: false },
        Message::SpiSetConfigRequest { .. } => Message::SpiBasicReply { succeeded: false },
        Message::SpiWriteRequest { .. } => Message::SpiBasicReply { succeeded: false },
        Message::SpiReadRequest { .. } => Message::SpiReadReply { succeeded: false, data: 0 },
        _ => {
            return Ok(false);
        },
    };
    let _ = kern_send(reply, actions);
    Ok(true)
}

/// A message of the kernel that is only acknowledged.
pub open spec fn is_acknowledged(request: Message) -> bool {
    ||| request is DmaRecordStart
    ||| request is DmaRecordAppend
    ||| request is DmaRecordStop
    ||| request is DmaEraseRequest
    ||| request is DmaStartRemoteRequest
    ||| request is RpcSend
    ||| request is RpcFlush
}

/// What is done about a message of a running kernel that is no request for the
/// hardware.
pub open spec fn is_service(
    before: SessionView,
    request: Message,
    text: Seq<char>,
    after: SessionView,
    actions: Seq<KernAction>,
    result: Result<bool, Error>,
) -> bool {
    match request {
        Message::Log(added) | Message::LogSlice(added) => {
            let log = before.log + added@;
            &&& result == Ok::<bool, Error>(false)
            &&& after == (SessionView { log: after_flush(log), ..before })
            &&& actions.len() > 0
            &&& log_the_lines(actions.drop_last(), flushed(log))
            &&& actions.last() is Acknowledge
        },
        Message::DmaRetrieveRequest { .. } => {
            &&& result == Ok::<bool, Error>(false)
            &&& after == before
            &&& actions == seq![
                KernAction::Send {
                    message: Message::DmaRetrieveReply {
                        trace: None,
                        duration: 0,
                        uses_ddma: false,
                    },
                },
            ]
        },
        Message::DmaAwaitRemoteRequest { .. } => {
            &&& result == Ok::<bool, Error>(false)
            &&& after == before
            &&& actions == seq![
                KernAction::Send {
                    message: Message::DmaAwaitRemoteReply {
                        timeout: false,
                        error: 0,
                        channel: 0,
                        timestamp: 0,
                    },
                },
            ]
        },
        Message::CacheGetRequest { .. } => {
            &&& result == Ok::<bool, Error>(false)
            &&& after == before
            &&& actions.len() == 1
            &&& actions[0] matches KernAction::Send { message }
            &&& message matches Message::CacheGetReply { value }
            &&& value@.len() == 0
        },
        Message::CachePutRequest { .. } => {
            &&& result == Ok::<bool, Error>(false)
            &&& after == before
            &&& actions == seq![
                KernAction::Send { message: Message::CachePutReply { succeeded: false } },
            ]
        },
        Message::RunFinished => {
            &&& result == Ok::<bool, Error>(false)
            &&& after == (SessionView { kernel_state: KernelState::Absent, ..before })
            &&& actions == seq![KernAction::StopCpu]
        },
        Message::RunException { exceptions } => {
            &&& result == Ok::<bool, Error>(true)
            &&& after == (SessionView { kernel_state: KernelState::Absent, ..before })
            &&& actions.len() > 0
            &&& actions.first() is StopCpu
            &&& report_the_exceptions(actions.drop_first(), exceptions@)
        },
        _ => if is_acknowledged(request) {
            &&& result == Ok::<bool, Error>(false)
            &&& after == before
            &&& actions == seq![KernAction::Acknowledge]
        } else {
            &&& is_unexpected(result, "unexpected request "@ + text + " from kernel CPU"@)
            &&& after == before
            &&& actions == Seq::<KernAction>::empty()
        },
    }
}

/// What is done about a message of the kernel CPU. A late reply to a library
/// is ignored while the kernel is loaded; any other message is taken only from
/// a running kernel.
pub open spec fn is_processing(
    before: SessionView,
    request: Message,
    text: Seq<char>,
    after: SessionView,
    actions: Seq<KernAction>,
    result: Result<bool, Error>,
) -> bool {
    if before.kernel_state is Running {
        match hardware_answer(request) {
            Some(answer) => {
                &&& result == Ok::<bool, Error>(false)
                &&& after == before
                &&& actions == answer
            },
            None => is_service(before, request, text, after, actions, result),
        }
    } else {
        &&& after == before
        &&& actions == Seq::<KernAction>::empty()
        &&& if before.kernel_state is Loaded && request is LoadReply {
            result == Ok::<bool, Error>(false)
        } else {
            is_unexpected(
                result,
                "unexpected request "@ + text + " from kernel CPU in "@
                    + before.kernel_state.name_spec() + " state"@,
            )
        }
    }
}

/// The message can be processed: what a running kernel logs can be flushed, and
/// every exception that it ends with is there.
pub open spec fn can_process(session: SessionView, request: Message) -> bool {
    session.kernel_state is Running ==> match request {
        Message::Log(added) | Message::LogSlice(added) => can_flush(session.log + added@),
        Message::RunException { exceptions } => forall|i: int|
            0 <= i < exceptions@.len() ==> #[trigger] exceptions@[i] is Some,
        _ => true,
    }
}

/// Adds a text to the log, logs the lines that are complete, and acknowledges.
fn process_log(session: &mut Session, text: &str, actions: &mut Vec<KernAction>)
    requires
        can_flush(old(session)@.log + text@),
        old(actions)@.len() == 0,
    ensures
        final(session)@ == (SessionView {
            log: after_flush(old(session)@.log + text@),
            ..old(session)@
        }),
        final(actions)@.len() > 0,
        log_the_lines(final(actions)@.drop_last(), flushed(old(session)@.log + text@)),
        final(actions)@.last() is Acknowledge,
{
    session.log_buffer.append(text);
    let lines = session.flush_log_buffer();
    let n: usize = lines.len();
    let ghost logged = lines.deep_view();
    for i in 0..n
        invariant
            n == lines@.len(),
            logged == lines.deep_view(),
            log_the_lines(actions@, logged.take(i as int)),
    {
        let ghost before = actions@;
        actions.push(KernAction::Log { line: lines[i].clone() });
        assert forall|j: int| 0 <= j < i + 1 implies (
        #[trigger] actions@[j] matches KernAction::Log { line } && line@ == logged.take(i + 1)[j]) by {
            if j < i {
                assert(actions@[j] == before[j]);
                assert(logged.take(i as int)[j] == logged[j]);
            }
        }
    }
    assert(logged.take(n as int) =~= logged);
    let ghost before = actions@;
    let _ = kern_acknowledge(actions);
    assert(actions@.drop_last() =~= before);
}

/// Processes a message of the kernel CPU, with the message rendered as text.
/// Tells whether the kernel has ended with an exception.
pub fn process_kern_message(
    session: &mut Session,
    request: &Message,
    text: &str,
) -> (processed: Processed)
    requires
        can_process(old(session)@, *request),
    ensures
        is_processing(
            old(session)@,
            *request,
            text@,
            final(session)@,
            processed.actions@,
            processed.result,
        ),
{
    let mut actions: Vec<KernAction> = Vec::new();
    match (request, session.kernel_state) {
        (Message::LoadReply(_), KernelState::Loaded) => {
            return Processed { result: Ok(false), actions };
        },
        (_, KernelState::Running) => {},
        _ => {
            let mut message = "unexpected request ".to_owned();
            message.append(text);
            message.append(" from kernel CPU in ");
            message.append(session.kernel_state.name());
            message.append(" state");
            return Processed { result: Err(Error::Unexpected(message)), actions };
        },
    }
    if let Ok(true) = process_kern_hwreq(request, &mut actions) {
        assert(actions@ =~= hardware_answer(*request)->0);
        return Processed { result: Ok(false), actions };
    }
    match request {
        Message::Log(added) => {
            process_log(session, added.as_str(), &mut actions);
        },
        Message::LogSlice(added) => {
            process_log(session, added.as_str(), &mut actions);
        },
        Message::DmaRecordStart(_) => {
            let _ = kern_acknowledge(&mut actions);
        },
        Message::DmaRecordAppend(_) => {
            let _ = kern_acknowledge(&mut actions);
        },
        Message::DmaRecordStop { .. } => {
            let _ = kern_acknowledge(&mut actions);
        },
        Message::DmaEraseRequest { .. } => {
            let _ = kern_acknowledge(&mut actions);
        },
        Message::DmaRetrieveRequest { .. } => {
            let _ = kern_send(
                Message::DmaRetrieveReply { trace: None, duration: 0, uses_ddma: false },
                &mut actions,
            );
        },
        Message::DmaStartRemoteRequest { .. } => {
            let _ = kern_acknowledge(&mut actions);
        },
        Message::DmaAwaitRemoteRequest { .. } => {
            let _ = kern_send(
                Message::DmaAwaitRemoteReply { timeout: false, error: 0, channel: 0, timestamp: 0 },
                &mut actions,
            );
        },
        Message::RpcSend { .. } => {
            let _ = kern_acknowledge(&mut actions);
        },
        Message::RpcFlush => {
            let _ = kern_acknowledge(&mut actions);
        },
        Message::CacheGetRequest { .. } => {
            let _ = kern_send(Message::CacheGetReply { value: Vec::new() }, &mut actions);
        },
        Message::CachePutRequest { .. } => {
            let _ = kern_send(Message::CachePutReply { succeeded: false }, &mut actions);
        },
        Message::RunFinished => {
            actions.push(KernAction::StopCpu);
            session.kernel_state = KernelState::Absent;
        },
        Message::RunException { exceptions } => {
            actions.push(KernAction::StopCpu);
            session.kernel_state = KernelState::Absent;
            let n: usize = exceptions.len();
            for i in 0..n
                invariant
                    n == exceptions@.len(),
                    forall|j: int| 0 <= j < n ==> #[trigger] exceptions@[j] is Some,
                    actions@.len() == i + 1,
                    actions@.first() is StopCpu,
                    report_the_exceptions(actions@.drop_first(), exceptions@.take(i as int)),
            {
                let ghost before = actions@;
                if let Some(exception) = &exceptions[i] {
                    actions.push(KernAction::ReportException { exception: exception.clone() });
                }
                assert forall|j: int| 0 <= j < i + 1 implies (
                #[trigger] actions@.drop_first()[j] matches KernAction::ReportException {
                    exception,
                } && Some(exception) == exceptions@.take(i + 1)[j]) by {
                    if j < i {
                        assert(actions@.drop_first()[j] == before.drop_first()[j]);
                        assert(exceptions@.take(i as int)[j] == exceptions@[j]);
                    }
                }
            }
            assert(exceptions@.take(n as int) =~= exceptions@);
            return Processed { result: Ok(true), actions };
        },
        _ => {
            let mut message = "unexpected request ".to_owned();
            message.append(text);
            message.append(" from kernel CPU");
            return Processed { result: Err(Error::Unexpected(message)), actions };
        },
    }
    Processed { result: Ok(false), actions }
}

/// The action answers the kernel CPU, which waits for it.
pub open spec fn is_answer(action: KernAction) -> bool {
    action is Acknowledge || action is Send
}

/// A message of a kernel that goes on running is answered once, after
/// everything else that is done about it.
pub proof fn law_running_kernels_are_answered_once(
    before: SessionView,
    request: Message,
    text: Seq<char>,
    after: SessionView,
    actions: Seq<KernAction>,
    result: Result<bool, Error>,
)
    requires
        is_processing(before, request, text, after, actions, result),
        before.kernel_state is Running,
        after.kernel_state is Running,
        result is Ok,
    ensures
        actions.len() > 0,
        forall|i: int|
            0 <= i < actions.len() ==> is_answer(#[trigger] actions[i]) == (i == actions.len() - 1),
{
    if hardware_answer(request) is None {
        assert forall|i: int| 0 <= i < actions.len() implies is_answer(#[trigger] actions[i]) == (i
            == actions.len() - 1) by {
            if i < actions.len() - 1 {
                assert(actions.drop_last()[i] == actions[i]);
            }
        }
    }
}

/// A message never brings a kernel further: it leaves the kernel as it is, or
/// ends one that was running.
pub proof fn law_messages_only_end_kernels(
    before: SessionView,
    request: Message,
    text: Seq<char>,
    after: SessionView,
    actions: Seq<KernAction>,
    result: Result<bool, Error>,
)
    requires
        is_processing(before, request, text, after, actions, result),
    ensures
        after.kernel_state == before.kernel_state || (before.kernel_state is Running
            && after.kernel_state is Absent),
{
}

/// The kernel CPU is stopped when the kernel has ended, and only then.
pub proof fn law_ended_kernels_are_stopped(
    before: SessionView,
    request: Message,
    text: Seq<char>,
    after: SessionView,
    actions: Seq<KernAction>,
    result: Result<bool, Error>,
)
    requires
        is_processing(before, request, text, after, actions, result),
    ensures
        (exists|i: int| 0 <= i < actions.len() && #[trigger] actions[i] is StopCpu) <==> (
        before.kernel_state is Running && after.kernel_state is Absent),
{
    if before.kernel_state is Running {
        if after.kernel_state is Absent {
            assert(actions[0] is StopCpu);
        } else {
            assert forall|i: int| 0 <= i < actions.len() implies !(#[trigger] actions[i]
                is StopCpu) by {
                if i < actions.len() - 1 {
                    assert(actions.drop_last()[i] == actions[i]);
                }
            }
        }
    }
}

/// What a message that is refused asks for is not done: the session stays as it
/// is, and so does the board.
pub proof fn law_refused_messages_change_nothing(
    before: SessionView,
    request: Message,
    text: Seq<char>,
    after: SessionView,
    actions: Seq<KernAction>,
    result: Result<bool, Error>,
)
    requires
        is_processing(before, request, text, after, actions, result),
        result is Err,
    ensures
        after == before,
        actions == Seq::<KernAction>::empty(),
{
}

/// However a text is cut into messages, its lines are logged once it is
/// complete: what two messages log is the lines of what they say together.
pub proof fn law_the_log_does_not_depend_on_cuts(
    log: Seq<char>,
    first: Seq<char>,
    second: Seq<char>,
)
    requires
        (log + first).len() > 0,
        second.len() > 0,
        second.last() == '\n',
    ensures
        flushed(log + first) + flushed(after_flush(log + first) + second)
            == crate::satman::log_lines::lines_of(log + first + second),
        after_flush(after_flush(log + first) + second) == Seq::<char>::empty(),
{
    let rest = after_flush(log + first) + second;
    assert(rest.last() == '\n');
    if (log + first).last() == '\n' {
        assert(rest =~= second);
        crate::satman::log_lines::law_lines_add_up(log + first, second);
    } else {
        assert(flushed(log + first) + flushed(rest) =~= flushed(rest));
    }
}

} // verus!
