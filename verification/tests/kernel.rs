use artiq_firmware::satman::kernel::{
    kern_acknowledge, kern_load, kern_load_reply, kern_recv_dotrace, kern_recv_notrace, kern_run,
    kern_send, kern_send_dotrace, process_kern_hwreq, process_kern_message, Error, KernAction,
    KernelState, Processed, Session, Trace,
};
use artiq_firmware::satman::kernel_cpu::{self, mismatches, validate, CpuAction};
use artiq_firmware::satman::kernel_proto::Message;
use artiq_firmware::satman::log_lines::split_lines;

fn loaded() -> Session {
    let mut session = Session::new();
    let mut actions = vec![];
    assert_eq!(
        kern_load_reply(&mut session, &Message::LoadReply(Ok(())), "", &mut actions),
        Ok(())
    );
    assert_eq!(actions, vec![]);
    session
}

fn running() -> Session {
    let mut session = loaded();
    let mut actions = vec![];
    assert_eq!(kern_run(&mut session, &mut actions), Ok(()));
    assert_eq!(actions, vec![KernAction::Acknowledge]);
    session
}

fn reply(message: Message) -> Processed {
    Processed { result: Ok(false), actions: vec![KernAction::Send { message }] }
}

fn acknowledged() -> Processed {
    Processed { result: Ok(false), actions: vec![KernAction::Acknowledge] }
}

fn unexpected(text: &str) -> Error {
    Error::Unexpected(text.to_string())
}

fn logged(line: &str) -> KernAction {
    KernAction::Log { line: line.to_string() }
}

#[test]
fn a_kernel_is_loaded_then_run() {
    let mut session = Session::new();
    assert!(!session.running());
    let mut actions = vec![];
    assert_eq!(kern_load(&session, &[1, 2, 3], &mut actions), Ok(()));
    assert_eq!(
        actions,
        vec![
            KernAction::StartCpu,
            KernAction::Send { message: Message::LoadRequest(vec![1, 2, 3]) },
        ]
    );
    let mut actions = vec![];
    assert_eq!(
        kern_load_reply(&mut session, &Message::LoadReply(Ok(())), "", &mut actions),
        Ok(())
    );
    assert!(!session.running());
    assert_eq!(kern_run(&mut session, &mut actions), Ok(()));
    assert!(session.running());
    assert_eq!(actions, vec![KernAction::Acknowledge]);
}

#[test]
fn no_kernel_is_loaded_while_one_runs() {
    let session = running();
    let mut actions = vec![];
    assert_eq!(
        kern_load(&session, &[1], &mut actions),
        Err(unexpected("attempted to load a new kernel while a kernel was running"))
    );
    assert_eq!(actions, vec![]);
}

#[test]
fn a_kernel_that_cannot_be_loaded_is_stopped() {
    let mut session = Session::new();
    let mut actions = vec![];
    assert_eq!(
        kern_load_reply(
            &mut session,
            &Message::LoadReply(Err("bad library".to_string())),
            "",
            &mut actions
        ),
        Err(Error::Load("bad library".to_string()))
    );
    assert_eq!(actions, vec![KernAction::StopCpu]);
    assert!(kern_run(&mut session, &mut actions).is_err());
}

#[test]
fn another_reply_to_a_library_is_unexpected() {
    let mut session = Session::new();
    let mut actions = vec![];
    assert_eq!(
        kern_load_reply(&mut session, &Message::RunFinished, "RunFinished", &mut actions),
        Err(unexpected("unexpected kernel CPU reply to load request: RunFinished"))
    );
    assert_eq!(actions, vec![]);
}

#[test]
fn only_a_loaded_kernel_is_run() {
    let mut actions = vec![];
    for mut session in [Session::new(), running()] {
        let was_running = session.running();
        assert_eq!(
            kern_run(&mut session, &mut actions),
            Err(unexpected("attempted to run a kernel while not in Loaded state"))
        );
        assert_eq!(session.running(), was_running);
    }
    assert_eq!(actions, vec![]);
}

#[test]
fn a_late_reply_to_a_library_is_ignored() {
    let mut session = loaded();
    assert_eq!(
        process_kern_message(&mut session, &Message::LoadReply(Ok(())), "LoadReply"),
        Processed { result: Ok(false), actions: vec![] }
    );
}

#[test]
fn messages_are_refused_unless_a_kernel_runs() {
    for (mut session, state) in [(Session::new(), "Absent"), (loaded(), "Loaded")] {
        let text = format!("unexpected request RpcFlush from kernel CPU in {} state", state);
        assert_eq!(
            process_kern_message(&mut session, &Message::RpcFlush, "RpcFlush"),
            Processed { result: Err(unexpected(&text)), actions: vec![] }
        );
    }
    assert_eq!(KernelState::Absent.name(), "Absent");
    assert_eq!(KernelState::Loaded.name(), "Loaded");
    assert_eq!(KernelState::Running.name(), "Running");
}

#[test]
fn other_messages_of_a_running_kernel_are_refused() {
    for message in [Message::Other, Message::LoadReply(Ok(()))] {
        let mut session = running();
        assert_eq!(
            process_kern_message(&mut session, &message, "X"),
            Processed {
                result: Err(unexpected("unexpected request X from kernel CPU")),
                actions: vec![],
            }
        );
        assert!(session.running());
    }
}

#[test]
fn recording_and_remote_calls_are_acknowledged() {
    let mut session = running();
    for message in [
        Message::DmaRecordStart("trace".to_string()),
        Message::DmaRecordAppend(vec![1]),
        Message::DmaRecordStop { duration: 4, enable_ddma: true },
        Message::DmaEraseRequest { name: "trace".to_string() },
        Message::DmaStartRemoteRequest { id: 1, timestamp: 2 },
        Message::RpcSend { is_async: false, service: 1, tag: vec![] },
        Message::RpcFlush,
    ] {
        assert_eq!(process_kern_message(&mut session, &message, ""), acknowledged());
    }
    assert!(session.running());
}

#[test]
fn requests_of_a_running_kernel_are_answered() {
    let mut session = running();
    assert_eq!(
        process_kern_message(
            &mut session,
            &Message::DmaRetrieveRequest { name: "trace".to_string() },
            ""
        ),
        reply(Message::DmaRetrieveReply { trace: None, duration: 0, uses_ddma: false })
    );
    assert_eq!(
        process_kern_message(&mut session, &Message::DmaAwaitRemoteRequest { id: 3 }, ""),
        reply(Message::DmaAwaitRemoteReply { timeout: false, error: 0, channel: 0, timestamp: 0 })
    );
    assert_eq!(
        process_kern_message(
            &mut session,
            &Message::CacheGetRequest { key: "key".to_string() },
            ""
        ),
        reply(Message::CacheGetReply { value: vec![] })
    );
    assert_eq!(
        process_kern_message(
            &mut session,
            &Message::CachePutRequest { key: "key".to_string(), value: vec![1] },
            ""
        ),
        reply(Message::CachePutReply { succeeded: false })
    );
}

#[test]
fn the_buses_are_refused() {
    let basic_i2c = || Message::I2cBasicReply { succeeded: false };
    let basic_spi = || Message::SpiBasicReply { succeeded: false };
    let cases = [
        (
            Message::RtioDestinationStatusRequest { destination: 3 },
            Message::RtioDestinationStatusReply { up: true },
        ),
        (Message::I2cStartRequest { busno: 0 }, basic_i2c()),
        (Message::I2cRestartRequest { busno: 0 }, basic_i2c()),
        (Message::I2cStopRequest { busno: 0 }, basic_i2c()),
        (
            Message::I2cWriteRequest { busno: 0, data: 1 },
            Message::I2cWriteReply { succeeded: false, ack: false },
        ),
        (
            Message::I2cReadRequest { busno: 0, ack: true },
            Message::I2cReadReply { succeeded: false, data: 0xff },
        ),
        (Message::I2cSwitchSelectRequest { busno: 0, address: 1, mask: 2 }, basic_i2c()),
        (
            Message::SpiSetConfigRequest { busno: 0, flags: 0, length: 8, div: 2, cs: 1 },
            basic_spi(),
        ),
        (Message::SpiWriteRequest { busno: 0, data: 7 }, basic_spi()),
        (
            Message::SpiReadRequest { busno: 0 },
            Message::SpiReadReply { succeeded: false, data: 0 },
        ),
    ];
    for (request, answer) in cases {
        let mut actions = vec![];
        assert_eq!(process_kern_hwreq(&request, &mut actions), Ok(true));
        assert_eq!(actions, vec![KernAction::Send { message: answer }]);
        let processed = process_kern_message(&mut running(), &request, "");
        assert_eq!(processed, Processed { result: Ok(false), actions });
    }
}

#[test]
fn the_rtio_is_reset_on_request() {
    let mut actions = vec![];
    assert_eq!(process_kern_hwreq(&Message::RtioInitRequest, &mut actions), Ok(true));
    assert_eq!(actions, vec![KernAction::ResetRtio, KernAction::Acknowledge]);
}

#[test]
fn other_messages_are_no_requests_for_the_hardware() {
    let mut actions = vec![];
    assert_eq!(process_kern_hwreq(&Message::RpcFlush, &mut actions), Ok(false));
    assert_eq!(actions, vec![]);
}

#[test]
fn a_finished_kernel_is_stopped() {
    let mut session = running();
    assert_eq!(
        process_kern_message(&mut session, &Message::RunFinished, ""),
        Processed { result: Ok(false), actions: vec![KernAction::StopCpu] }
    );
    assert!(!session.running());
    assert!(kern_run(&mut session, &mut vec![]).is_err());
}

#[test]
fn exceptions_are_reported_and_stop_the_kernel() {
    let mut session = running();
    let exceptions = vec![Some("first".to_string()), Some("second".to_string())];
    assert_eq!(
        process_kern_message(&mut session, &Message::RunException { exceptions }, ""),
        Processed {
            result: Ok(true),
            actions: vec![
                KernAction::StopCpu,
                KernAction::ReportException { exception: "first".to_string() },
                KernAction::ReportException { exception: "second".to_string() },
            ],
        }
    );
    assert!(!session.running());
}

#[test]
fn lines_are_logged_once_they_are_complete() {
    let mut session = running();
    let mut log = |text: &str| {
        assert!(session.can_log(text));
        process_kern_message(&mut session, &Message::LogSlice(text.to_string()), "").actions
    };
    assert_eq!(log("one "), vec![KernAction::Acknowledge]);
    assert_eq!(log("line\ntwo"), vec![KernAction::Acknowledge]);
    assert_eq!(
        log("!\r\n"),
        vec![logged("one line"), logged("two!"), KernAction::Acknowledge]
    );
    assert_eq!(log("\n"), vec![logged(""), KernAction::Acknowledge]);
}

#[test]
fn formatted_texts_are_logged() {
    let mut session = running();
    assert_eq!(
        process_kern_message(&mut session, &Message::Log("x = 1\n".to_string()), "").actions,
        vec![logged("x = 1"), KernAction::Acknowledge]
    );
}

#[test]
fn a_log_that_cannot_be_flushed_is_told() {
    let session = Session::new();
    assert!(!session.can_log(""));
    assert!(session.can_log("a"));
    assert!(session.can_log("é\n"));
    assert!(!session.can_log("caf\u{e9}"));
}

#[test]
fn texts_are_split_into_lines() {
    for text in ["", "a", "a\n", "a\nb", "\n\n", "a\r\nb\r\n", "a\rb\n", "\r\n", "é\nß\n"] {
        let expected: Vec<String> = text.lines().map(str::to_string).collect();
        assert_eq!(split_lines(text), expected);
    }
    assert_eq!(split_lines("a\r\nb\r"), vec!["a".to_string(), "b\r".to_string()]);
}

#[test]
fn a_log_does_not_depend_on_cuts() {
    let text = "one\r\ntwo\n\nthree\n";
    for cut in 1..text.len() {
        let mut session = running();
        let mut lines = Vec::new();
        for part in [&text[..cut], &text[cut..]] {
            let message = Message::LogSlice(part.to_string());
            for action in process_kern_message(&mut session, &message, "").actions {
                if let KernAction::Log { line } = action {
                    lines.push(line);
                }
            }
        }
        assert_eq!(lines, vec!["one", "two", "", "three"]);
    }
}

#[test]
fn pointers_have_to_lie_in_the_memory_of_the_kernel_cpu() {
    for (ptr, valid) in [
        (0, false),
        (0x44ffffff, false),
        (0x45000000, true),
        (0x48123456, true),
        (0x4fffffff, true),
        (0x50000000, false),
    ] {
        assert_eq!(validate(ptr), valid);
        let expected = if valid { Ok(()) } else { Err(Error::InvalidPointer(ptr)) };
        assert_eq!(kern_recv_notrace(ptr), expected);
    }
}

#[test]
fn traces_leave_long_data_out() {
    assert_eq!(kern_recv_dotrace(&Message::Log("text".to_string())), Trace::Name);
    assert_eq!(kern_recv_dotrace(&Message::LogSlice("text".to_string())), Trace::Name);
    assert_eq!(kern_recv_dotrace(&Message::DmaRecordAppend(vec![0; 100])), Trace::Whole);
    assert_eq!(
        kern_recv_dotrace(&Message::DmaRecordAppend(vec![0; 101])),
        Trace::Length { len: 101 }
    );
    assert_eq!(kern_recv_dotrace(&Message::RpcFlush), Trace::Whole);
    let retrieved =
        |trace| Message::DmaRetrieveReply { trace, duration: 0, uses_ddma: false };
    assert_eq!(kern_send_dotrace(&Message::LoadRequest(vec![])), Trace::Name);
    assert_eq!(kern_send_dotrace(&retrieved(None)), Trace::Whole);
    assert_eq!(kern_send_dotrace(&retrieved(Some(vec![0; 100]))), Trace::Whole);
    assert_eq!(kern_send_dotrace(&retrieved(Some(vec![0; 101]))), Trace::WithoutData);
    assert_eq!(
        kern_send_dotrace(&Message::CachePutReply { succeeded: false }),
        Trace::Whole
    );
}

#[test]
fn answers_are_added_to_what_is_to_be_done() {
    let mut actions = vec![KernAction::StopCpu];
    assert_eq!(kern_acknowledge(&mut actions), Ok(()));
    assert_eq!(kern_send(Message::RpcFlush, &mut actions), Ok(()));
    assert_eq!(
        actions,
        vec![
            KernAction::StopCpu,
            KernAction::Acknowledge,
            KernAction::Send { message: Message::RpcFlush },
        ]
    );
}

#[test]
fn the_kernel_cpu_is_stopped_before_it_starts() {
    let stopped = vec![
        CpuAction::WriteReset { value: 1 },
        CpuAction::SelectRtio { value: 0 },
        CpuAction::AcknowledgeMailbox,
        CpuAction::InitRpcQueue,
    ];
    assert_eq!(kernel_cpu::stop(), stopped);
    let actions = kernel_cpu::start(1);
    assert_eq!(actions[..4], stopped[..]);
    let address = 0x45000000 - 0x74;
    assert_eq!(
        actions[4..],
        [
            CpuAction::SelectRtio { value: 2 },
            CpuAction::CopySupportCode { address },
            CpuAction::CompareSupportCode { address },
            CpuAction::WriteReset { value: 0 },
            CpuAction::InitRpcQueue,
        ]
    );
}

#[test]
fn bytes_that_differ_from_the_support_code_are_found() {
    assert_eq!(mismatches(&[1, 2, 3, 4], &[1, 0, 3, 0]), vec![1, 3]);
    assert_eq!(mismatches(&[1, 2], &[1, 2]), vec![]);
    assert_eq!(mismatches(&[], &[]), vec![]);
}
