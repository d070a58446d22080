use mbcontrol::capture::{Capture, CaptureReport, Ending, BUFFER_SIZE};
use mbcontrol::command::{Command, Event};
use mbcontrol::config::{parse_field, Configuration, RawRequest, Settings};
use mbcontrol::error::{ControlError, Failure};
use mbcontrol::guard::Arbiter;
use mbcontrol::remote::{Reconfigure, Reply};
use mbcontrol::state::{legal, DeviceState, Operation};

/// A stand-in for the driver and the sink: records every command it carries
/// out and answers with fixed read and write sizes.
struct Bench {
    state: DeviceState,
    chunk: u64,
    sink_limit: u64,
    sink: u64,
    reads: u64,
    read_bytes: u64,
    stops: u64,
    starts: u64,
    configures: u64,
    commands: Vec<Command>,
    fail_read_at: Option<u64>,
    cancel_at_read: Option<u64>,
    sink_fails: bool,
}

impl Bench {
    fn new(state: DeviceState, chunk: u64, sink_limit: u64) -> Bench {
        Bench {
            state,
            chunk,
            sink_limit,
            sink: 0,
            reads: 0,
            read_bytes: 0,
            stops: 0,
            starts: 0,
            configures: 0,
            commands: Vec::new(),
            fail_read_at: None,
            cancel_at_read: None,
            sink_fails: false,
        }
    }

    fn perform(&mut self, c: Command) -> Event<String> {
        self.commands.push(c);
        match c {
            Command::QueryState => Event::Observed(self.state),
            Command::Configure => {
                self.configures += 1;
                self.state = DeviceState::Ready;
                Event::Completed
            }
            Command::Start => {
                self.starts += 1;
                self.state = DeviceState::Running;
                Event::Completed
            }
            Command::Stop => {
                self.stops += 1;
                self.state = DeviceState::Ready;
                Event::Completed
            }
            Command::Read => {
                if self.cancel_at_read == Some(self.reads) {
                    return Event::Cancelled;
                }
                if self.fail_read_at == Some(self.reads) {
                    return Event::DriverFailed("read error".to_string());
                }
                self.reads += 1;
                self.read_bytes += self.chunk;
                Event::BytesRead(self.chunk)
            }
            Command::Write { from, to } => {
                if self.sink_fails {
                    return Event::SinkFailed("disk full".to_string());
                }
                let n = std::cmp::min(to - from, self.sink_limit);
                self.sink += n;
                Event::BytesWritten(n)
            }
            Command::Finish => panic!("finish is not a device command"),
        }
    }
}

fn run_capture(bench: &mut Bench, arbiter: &mut Arbiter, target: u64) -> CaptureReport<String> {
    let token = arbiter.try_acquire().unwrap();
    let (mut capture, mut cmd) = Capture::begin(token, target);
    while cmd != Command::Finish {
        let e = bench.perform(cmd);
        assert!(capture.accepts(&e));
        cmd = capture.step(e);
    }
    assert!(capture.is_done());
    assert_eq!(capture.device(), arbiter.device());
    capture.finish(arbiter)
}

fn raw(k: &str, l: &str, m: &str, p: &str, d: &str) -> RawRequest {
    RawRequest {
        flank: k.as_bytes().to_vec(),
        plateau: l.as_bytes().to_vec(),
        decay: m.as_bytes().to_vec(),
        threshold: p.as_bytes().to_vec(),
        dead_time: d.as_bytes().to_vec(),
    }
}

fn run_remote(bench: &mut Bench, arbiter: &mut Arbiter, request: &RawRequest) -> Reply<String> {
    let (mut rc, mut cmd) = match Reconfigure::open(request, arbiter) {
        Ok(x) => x,
        Err(e) => return Reply::Rejected(Failure { kind: e, cause: None }),
    };
    while cmd != Command::Finish {
        let e = bench.perform(cmd);
        assert!(rc.accepts(&e));
        cmd = rc.step(e);
    }
    rc.finish(arbiter)
}

const STATES: [DeviceState; 4] = [
    DeviceState::Unconfigured,
    DeviceState::InvalidParameters,
    DeviceState::Ready,
    DeviceState::Running,
];

#[test]
fn legality_table() {
    let ops = [Operation::Configure, Operation::Start, Operation::Stop, Operation::Read];
    let expected = [
        [true, false, false, false],
        [true, false, false, false],
        [true, true, false, false],
        [false, false, true, true],
    ];
    for (si, s) in STATES.iter().enumerate() {
        for (oi, op) in ops.iter().enumerate() {
            assert_eq!(legal(*op, *s), expected[si][oi], "{:?} in {:?}", op, s);
        }
    }
}

#[test]
fn only_one_acquire_is_granted() {
    let mut arbiter = Arbiter::new(7);
    assert!(!arbiter.held());
    let first = arbiter.try_acquire();
    assert!(first.is_ok());
    for _ in 0..5 {
        assert!(matches!(arbiter.try_acquire(), Err(ControlError::DeviceBusy)));
    }
    arbiter.release(first.unwrap());
    assert!(!arbiter.held());
    assert!(arbiter.try_acquire().is_ok());
}

#[test]
fn two_chunks_reach_target() {
    let mut bench = Bench::new(DeviceState::Ready, 12288, u64::MAX);
    let mut arbiter = Arbiter::new(7);
    let report = run_capture(&mut bench, &mut arbiter, 24576);
    assert_eq!(bench.reads, 2);
    assert_eq!(bench.sink, 24576);
    assert_eq!(bench.stops, 1);
    assert_eq!(report.written, 24576);
    assert_eq!(report.ending, Ending::Completed);
    assert_eq!(bench.state, DeviceState::Ready);
    assert!(!arbiter.held());
}

#[test]
fn start_refused_when_unconfigured() {
    let mut bench = Bench::new(DeviceState::Unconfigured, 12288, u64::MAX);
    let mut arbiter = Arbiter::new(7);
    let report = run_capture(&mut bench, &mut arbiter, 24576);
    assert_eq!(report.ending, Ending::Failed(Failure { kind: ControlError::WrongState, cause: None }));
    assert_eq!(report.written, 0);
    assert_eq!(bench.commands, vec![Command::QueryState]);
    assert_eq!(bench.starts, 0);
    assert_eq!(bench.reads, 0);
    assert_eq!(bench.stops, 0);
    assert!(!arbiter.held());
}

#[test]
fn start_refused_when_running_or_invalid() {
    for s in [DeviceState::Running, DeviceState::InvalidParameters] {
        let mut bench = Bench::new(s, 12288, u64::MAX);
        let mut arbiter = Arbiter::new(7);
        let report = run_capture(&mut bench, &mut arbiter, 100);
        assert_eq!(report.ending, Ending::Failed(Failure { kind: ControlError::WrongState, cause: None }));
        assert_eq!(bench.commands, vec![Command::QueryState]);
    }
}

#[test]
fn remote_requests_busy_during_capture() {
    let mut bench = Bench::new(DeviceState::Ready, 12288, u64::MAX);
    let mut arbiter = Arbiter::new(7);
    let token = arbiter.try_acquire().unwrap();
    let (mut capture, cmd) = Capture::begin(token, 24576);
    let e = bench.perform(cmd);
    let cmd = capture.step(e);
    assert_eq!(cmd, Command::Start);
    let e = bench.perform(cmd);
    let _ = capture.step(e);
    let request = raw("10", "20", "30", "400", "50");
    let a = Reconfigure::<String>::open(&request, &mut arbiter);
    let b = Reconfigure::<String>::open(&request, &mut arbiter);
    assert!(matches!(a, Err(ControlError::DeviceBusy)));
    assert!(matches!(b, Err(ControlError::DeviceBusy)));
    assert_eq!(bench.configures, 0);
    assert!(arbiter.held());
}

#[test]
fn remote_stops_running_device_first() {
    let mut bench = Bench::new(DeviceState::Running, 12288, u64::MAX);
    let mut arbiter = Arbiter::new(7);
    let reply = run_remote(&mut bench, &mut arbiter, &raw("10", "20", "30", "400", "50"));
    assert_eq!(reply, Reply::Accepted);
    assert_eq!(
        bench.commands,
        vec![Command::QueryState, Command::Stop, Command::Configure]
    );
    assert_eq!(bench.starts, 0);
    assert!(!arbiter.held());
}

#[test]
fn remote_configures_directly_when_not_running() {
    for s in [DeviceState::Ready, DeviceState::Unconfigured, DeviceState::InvalidParameters] {
        let mut bench = Bench::new(s, 12288, u64::MAX);
        let mut arbiter = Arbiter::new(7);
        let reply = run_remote(&mut bench, &mut arbiter, &raw("1", "0", "0", "0", "0"));
        assert_eq!(reply, Reply::Accepted);
        assert_eq!(bench.commands, vec![Command::QueryState, Command::Configure]);
        assert_eq!(bench.stops, 0);
        assert_eq!(bench.starts, 0);
    }
}

#[test]
fn invalid_request_never_acquires() {
    let mut arbiter = Arbiter::new(7);
    let r = Reconfigure::<String>::open(&raw("10", "x", "30", "400", "50"), &mut arbiter);
    assert!(matches!(r, Err(ControlError::InvalidParameters)));
    assert!(!arbiter.held());
    // Even a busy device reports the validation failure, not the contention.
    let _token = arbiter.try_acquire().unwrap();
    let r = Reconfigure::<String>::open(&raw("128", "20", "30", "400", "50"), &mut arbiter);
    assert!(matches!(r, Err(ControlError::InvalidParameters)));
    assert!(arbiter.held());
}

#[test]
fn remote_driver_failure_is_rejected() {
    let mut arbiter = Arbiter::new(7);
    let (mut rc, cmd) = Reconfigure::<String>::open(&raw("10", "20", "30", "400", "50"), &mut arbiter).unwrap();
    assert_eq!(rc.device(), 7);
    assert_eq!(cmd, Command::QueryState);
    assert_eq!(rc.configuration().settings().plateau, 20);
    assert_eq!(rc.step(Event::Observed(DeviceState::Ready)), Command::Configure);
    assert_eq!(rc.step(Event::DriverFailed("bad register".to_string())), Command::Finish);
    assert!(rc.is_done());
    assert_eq!(
        rc.finish(&mut arbiter),
        Reply::Rejected(Failure { kind: ControlError::DriverFault, cause: Some("bad register".to_string()) })
    );
    assert!(!arbiter.held());
}

#[test]
fn parse_field_values() {
    assert_eq!(parse_field(b"0"), Some(0));
    assert_eq!(parse_field(b"123"), Some(123));
    assert_eq!(parse_field(b"007"), Some(7));
    assert_eq!(parse_field(b"4294967295"), Some(4294967295));
    assert_eq!(parse_field(b"4294967296"), None);
    assert_eq!(parse_field(b"99999999999999999999"), None);
    assert_eq!(parse_field(b""), None);
    assert_eq!(parse_field(b"12a"), None);
    assert_eq!(parse_field(b"-1"), None);
    assert_eq!(parse_field(b" 1"), None);
}

#[test]
fn configuration_ranges() {
    let ok = Settings { flank: 127, plateau: 127, decay: 65535, threshold: 16777215, dead_time: 16777215 };
    assert_eq!(Configuration::new(ok).unwrap().settings(), ok);
    let low = Settings { flank: 0, plateau: 0, decay: 0, threshold: 0, dead_time: 0 };
    assert_eq!(Configuration::new(low).unwrap().settings(), low);
    let bad = [
        Settings { flank: 128, ..ok },
        Settings { plateau: 128, ..ok },
        Settings { decay: 65536, ..ok },
        Settings { threshold: 16777216, ..ok },
        Settings { dead_time: 16777216, ..ok },
    ];
    for s in bad {
        assert_eq!(Configuration::new(s), Err(ControlError::InvalidParameters));
    }
    let c = Configuration::from_raw(&raw("10", "20", "30", "400", "50")).unwrap();
    assert_eq!(
        c.settings(),
        Settings { flank: 10, plateau: 20, decay: 30, threshold: 400, dead_time: 50 }
    );
    assert_eq!(
        Configuration::from_raw(&raw("10", "", "30", "400", "50")),
        Err(ControlError::InvalidParameters)
    );
}

#[test]
fn partial_writes_lose_nothing() {
    let mut bench = Bench::new(DeviceState::Ready, 12288, 5000);
    let mut arbiter = Arbiter::new(7);
    let report = run_capture(&mut bench, &mut arbiter, 24576);
    assert_eq!(report.written, 24576);
    assert_eq!(bench.sink, bench.read_bytes);
    assert_eq!(bench.reads, 2);
    let writes = bench.commands.iter().filter(|c| matches!(c, Command::Write { .. })).count();
    assert_eq!(writes, 6);
    assert_eq!(bench.commands[3], Command::Write { from: 0, to: 12288 });
    assert_eq!(bench.commands[4], Command::Write { from: 5000, to: 12288 });
}

#[test]
fn last_read_may_overshoot() {
    let mut bench = Bench::new(DeviceState::Ready, BUFFER_SIZE, u64::MAX);
    let mut arbiter = Arbiter::new(7);
    let report = run_capture(&mut bench, &mut arbiter, 30000);
    assert_eq!(bench.reads, 2);
    assert_eq!(report.written, 2 * BUFFER_SIZE);
    assert_eq!(report.ending, Ending::Completed);
}

#[test]
fn cancel_reports_bytes_written() {
    let mut bench = Bench::new(DeviceState::Ready, 1000, u64::MAX);
    bench.cancel_at_read = Some(3);
    let mut arbiter = Arbiter::new(7);
    let report = run_capture(&mut bench, &mut arbiter, 100000);
    assert_eq!(report.ending, Ending::Cancelled);
    assert_eq!(report.written, 3000);
    assert_eq!(bench.stops, 1);
    assert_eq!(*bench.commands.last().unwrap(), Command::Stop);
    assert!(!arbiter.held());
}

#[test]
fn read_failure_stops_device() {
    let mut bench = Bench::new(DeviceState::Ready, 1000, u64::MAX);
    bench.fail_read_at = Some(2);
    let mut arbiter = Arbiter::new(7);
    let report = run_capture(&mut bench, &mut arbiter, 100000);
    assert_eq!(
        report.ending,
        Ending::Failed(Failure { kind: ControlError::DriverFault, cause: Some("read error".to_string()) })
    );
    assert_eq!(report.written, 2000);
    assert_eq!(*bench.commands.last().unwrap(), Command::Stop);
    assert_eq!(bench.stops, 1);
    assert_eq!(bench.state, DeviceState::Ready);
}

#[test]
fn sink_failure_stops_device() {
    let mut bench = Bench::new(DeviceState::Ready, 1000, u64::MAX);
    bench.sink_fails = true;
    let mut arbiter = Arbiter::new(7);
    let report = run_capture(&mut bench, &mut arbiter, 100000);
    assert_eq!(
        report.ending,
        Ending::Failed(Failure { kind: ControlError::IoFault, cause: Some("disk full".to_string()) })
    );
    assert_eq!(report.written, 0);
    assert_eq!(bench.stops, 1);
}

#[test]
fn sink_taking_nothing_is_io_fault() {
    let mut bench = Bench::new(DeviceState::Ready, 1000, 0);
    let mut arbiter = Arbiter::new(7);
    let report = run_capture(&mut bench, &mut arbiter, 100000);
    assert_eq!(report.ending, Ending::Failed(Failure { kind: ControlError::IoFault, cause: None }));
    assert_eq!(report.written, 0);
    assert_eq!(bench.stops, 1);
}

#[test]
fn start_failure_still_stops() {
    let mut arbiter = Arbiter::new(7);
    let token = arbiter.try_acquire().unwrap();
    let (mut capture, _) = Capture::begin(token, 10);
    assert_eq!(capture.step(Event::Observed(DeviceState::Ready)), Command::Start);
    assert_eq!(capture.step(Event::DriverFailed("start refused".to_string())), Command::Stop);
    assert!(!capture.accepts(&Event::BytesRead(1)));
    assert_eq!(capture.step(Event::DriverFailed("stop refused".to_string())), Command::Finish);
    assert_eq!(capture.written(), 0);
    let report = capture.finish(&mut arbiter);
    assert_eq!(
        report.ending,
        Ending::Failed(Failure { kind: ControlError::DriverFault, cause: Some("start refused".to_string()) })
    );
    assert!(!arbiter.held());
}

#[test]
fn oversized_read_not_accepted() {
    let mut arbiter = Arbiter::new(7);
    let token = arbiter.try_acquire().unwrap();
    let (mut capture, _) = Capture::<String>::begin(token, 10);
    capture.step(Event::Observed(DeviceState::Ready));
    capture.step(Event::Completed);
    assert!(capture.accepts(&Event::BytesRead(BUFFER_SIZE)));
    assert!(!capture.accepts(&Event::BytesRead(BUFFER_SIZE + 1)));
    assert!(!capture.accepts(&Event::BytesWritten(1)));
}

#[test]
fn reason_texts() {
    assert_eq!(ControlError::WrongState.reason(), "wrong_state");
    assert_eq!(ControlError::InvalidParameters.reason(), "invalid_parameters");
    assert_eq!(ControlError::DeviceBusy.reason(), "device_busy");
    assert_eq!(ControlError::DriverFault.reason(), "driver_fault");
    assert_eq!(ControlError::IoFault.reason(), "io_fault");
    assert!(ControlError::DeviceBusy.is_expected());
    assert!(ControlError::InvalidParameters.is_expected());
    assert!(!ControlError::DriverFault.is_expected());
    assert!(!ControlError::IoFault.is_expected());
    assert!(!ControlError::WrongState.is_expected());
}

#[test]
fn cancel_waits_for_buffer_to_be_written() {
    let mut arbiter = Arbiter::new(3);
    let token = arbiter.try_acquire().unwrap();
    assert_eq!(token.device(), 3);
    let (mut capture, _) = Capture::<String>::begin(token, 1000);
    capture.step(Event::Observed(DeviceState::Ready));
    capture.step(Event::Completed);
    assert_eq!(capture.step(Event::BytesRead(100)), Command::Write { from: 0, to: 100 });
    assert!(!capture.accepts(&Event::Cancelled));
    assert_eq!(capture.step(Event::BytesWritten(40)), Command::Write { from: 40, to: 100 });
    assert!(!capture.accepts(&Event::Cancelled));
    assert_eq!(capture.step(Event::BytesWritten(60)), Command::Read);
    assert!(capture.accepts(&Event::Cancelled));
    assert_eq!(capture.step(Event::Cancelled), Command::Stop);
    assert_eq!(capture.step(Event::Completed), Command::Finish);
    let report = capture.finish(&mut arbiter);
    assert_eq!(report.written, 100);
    assert_eq!(report.ending, Ending::Cancelled);
}

#[test]
fn arbiters_keep_their_device() {
    let mut a = Arbiter::new(1);
    let mut b = Arbiter::new(2);
    let ta = a.try_acquire().unwrap();
    let tb = b.try_acquire().unwrap();
    assert_eq!(ta.device(), a.device());
    assert_eq!(tb.device(), b.device());
    assert_ne!(ta.device(), tb.device());
    a.release(ta);
    assert!(!a.held());
    assert!(b.held());
    b.release(tb);
    assert!(!b.held());
}
