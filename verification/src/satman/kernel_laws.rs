//! What holds of the messages of a kernel, message by message.

use vstd::prelude::*;

use crate::satman::kernel::{Error, KernAction, KernelState, SessionView, Trace};
use crate::satman::kernel_proto::Message;

verus! {

/// The message adds the text to the log.
pub open spec fn says(message: Message, text: Seq<char>) -> bool {
    ||| message matches Message::Log(added) && added@ == text
    ||| message matches Message::LogSlice(added) && added@ == text
}

/// The lines that the actions log.
pub open spec fn logged(actions: Seq<KernAction>) -> Seq<Seq<char>>
    decreases actions.len(),
{
    if actions.len() == 0 {
        seq![]
    } else {
        match actions.last() {
            KernAction::Log { line } => logged(actions.drop_last()).push(line@),
            _ => logged(actions.drop_last()),
        }
    }
}

proof fn lemma_logged(actions: Seq<KernAction>, lines: Seq<Seq<char>>)
    requires
        crate::satman::kernel::log_the_lines(actions, lines),
    ensures
        logged(actions) == lines,
    decreases actions.len(),
{
    if actions.len() > 0 {
        let n = actions.len() - 1;
        assert(actions[n] is Log);
        assert forall|i: int| 0 <= i < n implies (
        #[trigger] actions.drop_last()[i] matches KernAction::Log { line } && line@
            == lines.drop_last()[i]) by {
            assert(actions[i] is Log);
        }
        lemma_logged(actions.drop_last(), lines.drop_last());
        assert(lines.drop_last().push(lines.last()) =~= lines);
    }
}

/// A text of a running kernel follows what it has logged before. If it ends with
/// a line feed, all lines are logged and none is left; if not, all of it stays
/// for later. Either way the text is acknowledged last, and nothing else is done.
pub proof fn law_texts_follow_the_log(
    before: SessionView,
    request: Message,
    text: Seq<char>,
    after: SessionView,
    actions: Seq<KernAction>,
    result: Result<bool, Error>,
    added: Seq<char>,
)
    requires
        before.kernel_state is Running,
        says(request, added),
        (before.log + added).len() > 0,
        crate::satman::kernel::is_processing(before, request, text, after, actions, result),
    ensures
        (before.log + added).last() == '\n' ==> {
            &&& logged(actions) == crate::satman::log_lines::lines_of(before.log + added)
            &&& after.log == Seq::<char>::empty()
        },
        (before.log + added).last() != '\n' ==> {
            &&& logged(actions) == Seq::<Seq<char>>::empty()
            &&& after.log == before.log + added
        },
        after.kernel_state is Running,
        result == Ok::<bool, Error>(false),
        actions.len() == logged(actions).len() + 1,
        actions.last() is Acknowledge,
{
    lemma_logged(actions.drop_last(), crate::satman::kernel::flushed(before.log + added));
}

/// No text that a kernel has logged is lost: of two texts in succession, however
/// they are sent, of which the second completes a line, the lines that are
/// logged are those of the log before with both texts behind it, and nothing is
/// left.
pub proof fn law_no_logged_text_is_lost(
    before: SessionView,
    first: Message,
    first_text: Seq<char>,
    between: SessionView,
    first_actions: Seq<KernAction>,
    first_result: Result<bool, Error>,
    second: Message,
    second_text: Seq<char>,
    after: SessionView,
    second_actions: Seq<KernAction>,
    second_result: Result<bool, Error>,
    a: Seq<char>,
    b: Seq<char>,
)
    requires
        before.kernel_state is Running,
        says(first, a),
        says(second, b),
        (before.log + a).len() > 0,
        b.len() > 0,
        b.last() == '\n',
        crate::satman::kernel::is_processing(
            before,
            first,
            first_text,
            between,
            first_actions,
            first_result,
        ),
        crate::satman::kernel::is_processing(
            between,
            second,
            second_text,
            after,
            second_actions,
            second_result,
        ),
    ensures
        logged(first_actions) + logged(second_actions) == crate::satman::log_lines::lines_of(
            before.log + a + b,
        ),
        after.log == Seq::<char>::empty(),
        after.kernel_state is Running,
{
    law_texts_follow_the_log(
        before,
        first,
        first_text,
        between,
        first_actions,
        first_result,
        a,
    );
    assert((between.log + b).last() == '\n');
    law_texts_follow_the_log(
        between,
        second,
        second_text,
        after,
        second_actions,
        second_result,
        b,
    );
    let done = before.log + a;
    if done.last() == '\n' {
        assert(between.log + b =~= b);
        crate::satman::log_lines::law_lines_add_up(done, b);
    } else {
        assert(logged(first_actions) + logged(second_actions) =~= logged(second_actions));
    }
}

/// A log can be flushed if it is not empty and its last character takes one
/// byte; so any text can be logged that ends with such a character.
pub proof fn law_plain_texts_can_be_logged(
    session: SessionView,
    request: Message,
    added: Seq<char>,
)
    requires
        says(request, added),
        added.len() > 0,
        (added.last() as u32) < 128,
    ensures
        crate::satman::kernel::can_process(session, request),
{
}

/// Everything but a text and an exception can be processed in any case, and so
/// can anything while no kernel is running.
pub proof fn law_other_messages_can_be_processed(session: SessionView, request: Message)
    requires
        !(session.kernel_state is Running) || !(request is Log || request is LogSlice
            || request is RunException),
    ensures
        crate::satman::kernel::can_process(session, request),
{
}

/// The answer to the request is the message alone.
pub open spec fn answers(request: Message, message: Message) -> bool {
    crate::satman::kernel::hardware_answer(request) matches Some(actions) && actions.len() == 1
        && actions[0] == (KernAction::Send { message })
}

/// A request for the hardware is answered: every destination is up, and each
/// request for a bus is refused with the reply of its own kind. A reset of the
/// RTIO is carried out before it is acknowledged. There are no other requests
/// for the hardware.
pub proof fn law_requests_for_the_hardware_are_answered(request: Message)
    ensures
        request is RtioDestinationStatusRequest ==> answers(
            request,
            (Message::RtioDestinationStatusReply { up: true }),
        ),
        request is I2cStartRequest || request is I2cRestartRequest || request is I2cStopRequest
            || request is I2cSwitchSelectRequest ==> answers(
            request,
            (Message::I2cBasicReply { succeeded: false }),
        ),
        request is I2cWriteRequest ==> answers(
            request,
            (Message::I2cWriteReply { succeeded: false, ack: false }),
        ),
        request is I2cReadRequest ==> answers(
            request,
            (Message::I2cReadReply { succeeded: false, data: 0xff }),
        ),
        request is SpiSetConfigRequest || request is SpiWriteRequest ==> answers(
            request,
            (Message::SpiBasicReply { succeeded: false }),
        ),
        request is SpiReadRequest ==> answers(
            request,
            (Message::SpiReadReply { succeeded: false, data: 0 }),
        ),
        request is RtioInitRequest ==> (crate::satman::kernel::hardware_answer(
            request,
        ) matches Some(actions) && actions.len() == 2 && actions[0] is ResetRtio && actions[1]
            is Acknowledge),
        crate::satman::kernel::hardware_answer(request) is Some ==> is_for_the_hardware(request),
{
}

/// The message is a request for the hardware.
pub open spec fn is_for_the_hardware(request: Message) -> bool {
    ||| request is RtioInitRequest
    ||| request is RtioDestinationStatusRequest
    ||| request is I2cStartRequest
    ||| request is I2cRestartRequest
    ||| request is I2cStopRequest
    ||| request is I2cWriteRequest
    ||| request is I2cReadRequest
    ||| request is I2cSwitchSelectRequest
    ||| request is SpiSetConfigRequest
    ||| request is SpiWriteRequest
    ||| request is SpiReadRequest
}

/// A request of a running kernel for the hardware gets its answer and leaves the
/// session as it is.
pub proof fn law_the_hardware_does_not_touch_the_session(
    before: SessionView,
    request: Message,
    text: Seq<char>,
    after: SessionView,
    actions: Seq<KernAction>,
    result: Result<bool, Error>,
)
    requires
        before.kernel_state is Running,
        is_for_the_hardware(request),
        crate::satman::kernel::is_processing(before, request, text, after, actions, result),
    ensures
        Some(actions) == crate::satman::kernel::hardware_answer(request),
        after == before,
        result == Ok::<bool, Error>(false),
{
}

/// Recordings and remote calls of a running kernel are acknowledged, and nothing
/// else is done about them.
pub proof fn law_recordings_and_calls_are_acknowledged(
    before: SessionView,
    request: Message,
    text: Seq<char>,
    after: SessionView,
    actions: Seq<KernAction>,
    result: Result<bool, Error>,
)
    requires
        before.kernel_state is Running,
        crate::satman::kernel::is_processing(before, request, text, after, actions, result),
        request is DmaRecordStart || request is DmaRecordAppend || request is DmaRecordStop
            || request is DmaEraseRequest || request is DmaStartRemoteRequest || request is RpcSend
            || request is RpcFlush,
    ensures
        actions.len() == 1,
        actions[0] is Acknowledge,
        after == before,
        result == Ok::<bool, Error>(false),
{
}

/// A running kernel finds no trace, waits for no remote playback, and finds and
/// leaves nothing in the cache. The session stays as it is.
pub proof fn law_traces_and_the_cache_are_empty(
    before: SessionView,
    request: Message,
    text: Seq<char>,
    after: SessionView,
    actions: Seq<KernAction>,
    result: Result<bool, Error>,
)
    requires
        before.kernel_state is Running,
        crate::satman::kernel::is_processing(before, request, text, after, actions, result),
        request is DmaRetrieveRequest || request is DmaAwaitRemoteRequest || request
            is CacheGetRequest || request is CachePutRequest,
    ensures
        actions.len() == 1,
        request is DmaRetrieveRequest ==> actions[0] == (KernAction::Send {
            message: Message::DmaRetrieveReply { trace: None, duration: 0, uses_ddma: false },
        }),
        request is DmaAwaitRemoteRequest ==> actions[0] == (KernAction::Send {
            message: Message::DmaAwaitRemoteReply {
                timeout: false,
                error: 0,
                channel: 0,
                timestamp: 0,
            },
        }),
        request is CacheGetRequest ==> (actions[0] matches KernAction::Send {
            message: Message::CacheGetReply { value },
        } && value@.len() == 0),
        request is CachePutRequest ==> actions[0] == (KernAction::Send {
            message: Message::CachePutReply { succeeded: false },
        }),
        after == before,
        result == Ok::<bool, Error>(false),
{
}

/// A kernel that has finished, or ended with exceptions, is stopped first and
/// gone; each exception is reported, in their order, and only they tell the
/// caller of an exception. What it logged last stays in the log.
pub proof fn law_the_end_of_a_kernel_is_told(
    before: SessionView,
    request: Message,
    text: Seq<char>,
    after: SessionView,
    actions: Seq<KernAction>,
    result: Result<bool, Error>,
    i: int,
)
    requires
        before.kernel_state is Running,
        crate::satman::kernel::is_processing(before, request, text, after, actions, result),
        request is RunFinished || request is RunException,
    ensures
        after.kernel_state is Absent,
        after.log == before.log,
        actions.len() > 0,
        actions[0] is StopCpu,
        result == Ok::<bool, Error>(request is RunException),
        request is RunFinished ==> actions.len() == 1,
        request matches Message::RunException { exceptions } ==> {
            &&& actions.len() == exceptions@.len() + 1
            &&& 0 <= i < exceptions@.len() ==> (actions[i + 1] matches KernAction::ReportException {
                exception,
            } && exceptions@[i] == Some(exception))
        },
{
    if let Message::RunException { exceptions } = request {
        if 0 <= i < exceptions@.len() {
            assert(actions.drop_first()[i] == actions[i + 1]);
        }
    }
}

/// While no kernel is running, a message does nothing, and is refused by its
/// text and the name of the state, unless it is a late reply to a library. A
/// running kernel is refused only what is no message of a kernel.
pub proof fn law_messages_out_of_turn_are_refused(
    before: SessionView,
    request: Message,
    text: Seq<char>,
    after: SessionView,
    actions: Seq<KernAction>,
    result: Result<bool, Error>,
)
    requires
        crate::satman::kernel::is_processing(before, request, text, after, actions, result),
    ensures
        !(before.kernel_state is Running) ==> after == before && actions.len() == 0,
        before.kernel_state is Loaded && request is LoadReply ==> result == Ok::<bool, Error>(
            false,
        ),
        before.kernel_state is Loaded && !(request is LoadReply) ==> (
        result matches Err(Error::Unexpected(message)) && message@ == "unexpected request "@ + text
            + " from kernel CPU in "@ + "Loaded"@ + " state"@),
        before.kernel_state is Absent ==> (result matches Err(Error::Unexpected(message))
            && message@ == "unexpected request "@ + text + " from kernel CPU in "@ + "Absent"@
            + " state"@),
        before.kernel_state is Running && is_no_message_of_a_kernel(request) ==> (
        result matches Err(Error::Unexpected(message)) && message@ == "unexpected request "@ + text
            + " from kernel CPU"@),
        before.kernel_state is Running && result is Err ==> is_no_message_of_a_kernel(request),
{
}

/// The message is one to the kernel, or none that a running kernel sends.
pub open spec fn is_no_message_of_a_kernel(request: Message) -> bool {
    ||| request is LoadRequest
    ||| request is LoadReply
    ||| request is DmaRetrieveReply
    ||| request is DmaAwaitRemoteReply
    ||| request is CacheGetReply
    ||| request is CachePutReply
    ||| request is RtioDestinationStatusReply
    ||| request is I2cWriteReply
    ||| request is I2cReadReply
    ||| request is I2cBasicReply
    ||| request is SpiReadReply
    ||| request is SpiBasicReply
    ||| request is Other
}

/// A trace shows a message whole, but for a text, a library, and data of more
/// than 100 bytes. Of recorded data it tells the length.
pub proof fn law_traces_leave_out_long_data(message: Message)
    ensures
        message is Log || message is LogSlice ==> crate::satman::kernel::recv_trace(message)
            is Name,
        message matches Message::DmaRecordAppend(data) ==> crate::satman::kernel::recv_trace(
            message,
        ) == (if data@.len() > 100 {
            Trace::Length { len: data@.len() as usize }
        } else {
            Trace::Whole
        }),
        !(message is Log || message is LogSlice || message is DmaRecordAppend)
            ==> crate::satman::kernel::recv_trace(message) is Whole,
        message is LoadRequest ==> crate::satman::kernel::send_trace(message) is Name,
        message matches Message::DmaRetrieveReply { trace: Some(data), .. } ==> (
        crate::satman::kernel::send_trace(message) is WithoutData <==> data@.len() > 100),
        !(message is LoadRequest) && !(crate::satman::kernel::send_trace(message) is WithoutData)
            ==> crate::satman::kernel::send_trace(message) is Whole,
        crate::satman::kernel::send_trace(message) is WithoutData ==> (
        message matches Message::DmaRetrieveReply { trace, .. } && trace is Some),
{
}

/// Each state of a kernel has its name.
pub proof fn law_states_have_their_names()
    ensures
        KernelState::Absent.name_spec() == "Absent"@,
        KernelState::Loaded.name_spec() == "Loaded"@,
        KernelState::Running.name_spec() == "Running"@,
{
}

/// A flush takes all lines out of a log that ends with a line feed and leaves
/// nothing; it takes nothing out of another, and leaves all of it.
pub proof fn law_a_flush_takes_complete_lines(log: Seq<char>)
    ensures
        log.last() == '\n' ==> crate::satman::kernel::flushed(log)
            == crate::satman::log_lines::lines_of(log) && crate::satman::kernel::after_flush(
            log,
        ).len() == 0,
        log.last() != '\n' ==> crate::satman::kernel::flushed(log).len() == 0
            && crate::satman::kernel::after_flush(log) == log,
        crate::satman::kernel::can_flush(log) <==> (log.len() > 0 && (log.last() as u32) < 128),
{
}

/// What is refused out of turn is refused with an error of its own, in the words
/// that are given.
pub proof fn law_refusals_tell_their_reason(result: Result<(), Error>, text: Seq<char>)
    requires
        crate::satman::kernel::is_unexpected(result, text),
    ensures
        result matches Err(Error::Unexpected(message)) && message@ == text,
{
}

} // verus!
