use mv7::error::{Mv7Error, ProtocolFault, TransportFault};
use mv7::frame::Command;
use mv7::machine::Answer;
use mv7::position::MicPosition;
use mv7::session::{Completion, Exchange, MV7Device};
use mv7::transport::{Action, Reply};
use mv7::mute::mute_request;
use mv7::usb::Direction;
use std::collections::VecDeque;

/// A stand-in for the microphone and the USB stack in front of it.
struct Bench {
    present: bool,
    configuration: u8,
    /// Interfaces that a kernel driver holds.
    bound: Vec<u8>,
    /// Interfaces that are claimed.
    claimed: Vec<u8>,
    muted: bool,
    mode: u8,
    /// Frames waiting on the interrupt endpoint.
    pending: VecDeque<Vec<u8>>,
    /// The request that fails, counted from zero, and the fault it fails with.
    failure: Option<(usize, TransportFault)>,
    /// Every request that was performed.
    log: Vec<Action>,
}

impl Bench {
    fn new() -> Bench {
        Bench {
            present: true,
            configuration: 1,
            bound: Vec::new(),
            claimed: Vec::new(),
            muted: false,
            mode: 2,
            pending: VecDeque::new(),
            failure: None,
            log: Vec::new(),
        }
    }

    fn report(&self) -> Vec<u8> {
        let mut frame = format!("dspMode={}", self.mode).into_bytes();
        frame.resize(64, 0);
        frame
    }

    fn perform(&mut self, action: Action) -> Reply {
        let position = self.log.len();
        self.log.push(action);
        if let Some((at, fault)) = self.failure {
            if at == position {
                return Reply::Failed(fault);
            }
        }
        match action {
            Action::FindDevice { vendor_id, product_id } => {
                if self.present && vendor_id == 0x14ed && product_id == 0x1012 {
                    Reply::Done
                } else {
                    Reply::Absent
                }
            }
            Action::ReadConfiguration => Reply::Configuration(self.configuration),
            Action::WriteConfiguration { configuration } => {
                self.configuration = configuration;
                Reply::Done
            }
            Action::QueryKernelDriver { interface } => {
                Reply::KernelDriver(self.bound.contains(&interface))
            }
            Action::DetachKernelDriver { interface } => {
                self.bound.retain(|bound| *bound != interface);
                Reply::Done
            }
            Action::ClaimInterface { interface } => {
                self.claimed.push(interface);
                Reply::Done
            }
            Action::SetAlternateSetting { .. } => Reply::Done,
            Action::Sleep { .. } => Reply::Done,
            Action::ControlRead { setup, .. } => {
                assert_eq!(setup, mute_request(Direction::In));
                Reply::Data(vec![self.muted as u8])
            }
            Action::ControlWrite { setup, payload, .. } => {
                assert_eq!(setup, mute_request(Direction::Out));
                self.muted = payload != 0;
                Reply::Written(1)
            }
            Action::InterruptRead { endpoint, length, .. } => {
                assert_eq!(endpoint, 0x84);
                assert_eq!(length, 64);
                match self.pending.pop_front() {
                    Some(frame) => Reply::Data(frame),
                    None => Reply::Failed(TransportFault::Timeout),
                }
            }
            Action::InterruptWrite { endpoint, command, .. } => {
                assert_eq!(endpoint, 0x05);
                let frame = command.frame();
                let text: Vec<u8> = frame.iter().copied().take_while(|byte| *byte != 0).collect();
                if let Some(code) = text.strip_prefix(b"dspMode ") {
                    self.mode = String::from_utf8(code.to_vec()).unwrap().parse().unwrap();
                } else {
                    assert_eq!(text, b"dspMode");
                }
                self.pending.push_back(self.report());
                Reply::Written(frame.len())
            }
            Action::ResetDevice => Reply::Done,
            Action::ReleaseInterface { interface } => {
                self.claimed.retain(|claimed| *claimed != interface);
                Reply::Done
            }
            Action::AttachKernelDriver { interface } => {
                self.bound.push(interface);
                Reply::Done
            }
        }
    }

    /// Performs the requests of `exchange` until it has its result.
    fn run(&mut self, mut exchange: Exchange) -> Completion {
        while let Some(action) = exchange.request() {
            assert!(!exchange.is_finished());
            let reply = self.perform(action);
            exchange = exchange.advance(&reply);
        }
        assert!(exchange.is_finished());
        match exchange.finish() {
            Ok(completion) => completion,
            Err(_) => panic!("an exchange without a request has finished"),
        }
    }

    fn open(&mut self) -> MV7Device {
        let completion = self.run(MV7Device::open());
        assert_eq!(completion.result, Ok(Answer::Done));
        completion.session.unwrap()
    }

    fn count(&self, pick: fn(&Action) -> bool) -> usize {
        self.log.iter().filter(|action| pick(action)).count()
    }
}

fn is_claim(action: &Action) -> bool {
    matches!(action, Action::ClaimInterface { .. })
}

fn is_release(action: &Action) -> bool {
    matches!(action, Action::ReleaseInterface { .. })
}

fn is_attach(action: &Action) -> bool {
    matches!(action, Action::AttachKernelDriver { .. })
}

fn is_interrupt_read(action: &Action) -> bool {
    matches!(action, Action::InterruptRead { .. })
}

fn stale(text: &[u8]) -> Vec<u8> {
    let mut frame = text.to_vec();
    frame.resize(64, 0);
    frame
}

const DRAIN_READ: Action = Action::InterruptRead { endpoint: 0x84, length: 64, timeout_ms: 50 };

const REPORT_READ: Action = Action::InterruptRead { endpoint: 0x84, length: 64, timeout_ms: 200 };

#[test]
fn open_performs_the_whole_sequence_in_order() {
    let mut bench = Bench::new();
    let session = bench.open();
    assert_eq!(
        bench.log,
        vec![
            Action::FindDevice { vendor_id: 0x14ed, product_id: 0x1012 },
            Action::ReadConfiguration,
            Action::QueryKernelDriver { interface: 0 },
            Action::ClaimInterface { interface: 0 },
            Action::SetAlternateSetting { interface: 0, setting: 0 },
            Action::QueryKernelDriver { interface: 3 },
            Action::ClaimInterface { interface: 3 },
            Action::SetAlternateSetting { interface: 3, setting: 0 },
            Action::Sleep { millis: 100 },
            DRAIN_READ,
        ]
    );
    assert_eq!(bench.claimed, vec![0, 3]);
    assert_eq!(session.was_kernel_attached(0), Some(false));
    assert_eq!(session.was_kernel_attached(3), Some(false));
    assert_eq!(session.was_kernel_attached(1), None);
}

#[test]
fn open_switches_a_wrong_configuration() {
    let mut bench = Bench::new();
    bench.configuration = 2;
    bench.open();
    assert_eq!(bench.log[2], Action::WriteConfiguration { configuration: 1 });
    assert_eq!(bench.configuration, 1);
    assert_eq!(bench.log[3], Action::QueryKernelDriver { interface: 0 });
}

#[test]
fn open_detaches_kernel_drivers_and_close_reattaches_them() {
    let mut bench = Bench::new();
    bench.bound = vec![3];
    let session = bench.open();
    assert_eq!(session.was_kernel_attached(0), Some(false));
    assert_eq!(session.was_kernel_attached(3), Some(true));
    assert!(bench.log.contains(&Action::DetachKernelDriver { interface: 3 }));
    assert!(!bench.log.contains(&Action::DetachKernelDriver { interface: 0 }));
    assert!(bench.bound.is_empty());

    bench.log.clear();
    let completion = bench.run(session.close());
    assert_eq!(completion.result, Ok(Answer::Done));
    assert!(completion.session.is_none());
    assert_eq!(
        bench.log,
        vec![
            Action::ReleaseInterface { interface: 3 },
            Action::AttachKernelDriver { interface: 3 },
            Action::ReleaseInterface { interface: 0 },
        ]
    );
    assert_eq!(bench.bound, vec![3]);
    assert!(bench.claimed.is_empty());
}

#[test]
fn close_reattaches_nothing_that_was_not_attached() {
    let mut bench = Bench::new();
    let session = bench.open();
    bench.log.clear();
    bench.run(session.close());
    assert_eq!(bench.count(is_attach), 0);
    assert_eq!(bench.count(is_release), 2);
}

#[test]
fn close_reattaches_both_interfaces_when_both_were_attached() {
    let mut bench = Bench::new();
    bench.bound = vec![0, 3];
    let session = bench.open();
    bench.log.clear();
    bench.run(session.close());
    assert_eq!(
        bench.log,
        vec![
            Action::ReleaseInterface { interface: 3 },
            Action::AttachKernelDriver { interface: 3 },
            Action::ReleaseInterface { interface: 0 },
            Action::AttachKernelDriver { interface: 0 },
        ]
    );
}

#[test]
fn releases_on_close_equal_claims_on_open_whatever_ran_between() {
    let mut bench = Bench::new();
    bench.bound = vec![0];
    let mut session = bench.open();
    session = bench.run(session.set_mute(true)).session.unwrap();
    session = bench.run(session.get_mic_position()).session.unwrap();
    bench.failure = Some((bench.log.len(), TransportFault::Pipe));
    let failed = bench.run(session.get_mute());
    assert_eq!(failed.result, Err(Mv7Error::TransportError(TransportFault::Pipe)));
    session = failed.session.unwrap();
    session = bench.run(session.status()).session.unwrap();
    let claims = bench.count(is_claim);
    assert_eq!(claims, 2);
    assert_eq!(bench.count(is_release), 0);
    bench.run(session.close());
    assert_eq!(bench.count(is_release), claims);
    assert_eq!(bench.count(is_attach), 1);
    assert!(bench.claimed.is_empty());
}

#[test]
fn close_goes_on_when_a_release_fails() {
    let mut bench = Bench::new();
    bench.bound = vec![0, 3];
    let session = bench.open();
    bench.log.clear();
    bench.failure = Some((0, TransportFault::NoDevice));
    let completion = bench.run(session.close());
    assert_eq!(completion.result, Ok(Answer::Done));
    assert_eq!(bench.count(is_release), 2);
    assert_eq!(bench.count(is_attach), 2);
}

#[test]
fn close_goes_on_when_a_reattachment_fails() {
    let mut bench = Bench::new();
    bench.bound = vec![0, 3];
    let session = bench.open();
    bench.log.clear();
    bench.failure = Some((1, TransportFault::NotSupported));
    let completion = bench.run(session.close());
    assert_eq!(completion.result, Ok(Answer::Done));
    assert_eq!(bench.log.len(), 4);
    assert_eq!(bench.log[2], Action::ReleaseInterface { interface: 0 });
}

#[test]
fn missing_device_is_reported() {
    let mut bench = Bench::new();
    bench.present = false;
    let completion = bench.run(MV7Device::open());
    assert_eq!(completion.result, Err(Mv7Error::DeviceNotFound));
    assert!(completion.session.is_none());
    assert_eq!(bench.log.len(), 1);
}

#[test]
fn failing_device_lookup_is_a_transport_error() {
    let mut bench = Bench::new();
    bench.failure = Some((0, TransportFault::Access));
    let completion = bench.run(MV7Device::open());
    assert_eq!(completion.result, Err(Mv7Error::TransportError(TransportFault::Access)));
    assert_eq!(bench.log.len(), 1);
}

#[test]
fn unreadable_configuration_is_a_configuration_error() {
    let mut bench = Bench::new();
    bench.failure = Some((1, TransportFault::Io));
    let completion = bench.run(MV7Device::open());
    assert_eq!(completion.result, Err(Mv7Error::ConfigurationError(TransportFault::Io)));
    assert!(completion.session.is_none());
    assert_eq!(bench.log.len(), 2);
}

#[test]
fn unsettable_configuration_is_a_configuration_error() {
    let mut bench = Bench::new();
    bench.configuration = 0;
    bench.failure = Some((2, TransportFault::Busy));
    let completion = bench.run(MV7Device::open());
    assert_eq!(completion.result, Err(Mv7Error::ConfigurationError(TransportFault::Busy)));
    assert_eq!(bench.log.len(), 3);
}

#[test]
fn failed_claim_names_its_interface_and_releases_the_other() {
    let mut bench = Bench::new();
    bench.bound = vec![0, 3];
    // Requests 0 to 5 find the device and take over interface 0; 6 queries
    // interface 3, 7 detaches its driver, 8 claims it.
    bench.failure = Some((8, TransportFault::Busy));
    let completion = bench.run(MV7Device::open());
    assert_eq!(
        completion.result,
        Err(Mv7Error::ResourceAcquisitionError { interface: 3, fault: TransportFault::Busy })
    );
    assert!(completion.session.is_none());
    assert_eq!(bench.log[8], Action::ClaimInterface { interface: 3 });
    assert_eq!(
        bench.log[9..],
        [
            Action::ReleaseInterface { interface: 0 },
            Action::AttachKernelDriver { interface: 0 },
        ]
    );
    assert_eq!(bench.count(is_release), 1);
    assert!(bench.claimed.is_empty());
}

#[test]
fn failed_driver_query_on_the_first_interface_releases_nothing() {
    let mut bench = Bench::new();
    bench.failure = Some((2, TransportFault::NotSupported));
    let completion = bench.run(MV7Device::open());
    assert_eq!(
        completion.result,
        Err(Mv7Error::ResourceAcquisitionError {
            interface: 0,
            fault: TransportFault::NotSupported
        })
    );
    assert_eq!(bench.log.len(), 3);
}

#[test]
fn failed_detach_names_its_interface() {
    let mut bench = Bench::new();
    bench.bound = vec![0];
    bench.failure = Some((3, TransportFault::Access));
    let completion = bench.run(MV7Device::open());
    assert_eq!(
        completion.result,
        Err(Mv7Error::ResourceAcquisitionError { interface: 0, fault: TransportFault::Access })
    );
    assert_eq!(bench.log[3], Action::DetachKernelDriver { interface: 0 });
    assert_eq!(bench.log.len(), 4);
}

#[test]
fn failed_alternate_setting_releases_the_interface_it_failed_on() {
    let mut bench = Bench::new();
    bench.failure = Some((4, TransportFault::Pipe));
    let completion = bench.run(MV7Device::open());
    assert_eq!(
        completion.result,
        Err(Mv7Error::ResourceAcquisitionError { interface: 0, fault: TransportFault::Pipe })
    );
    assert_eq!(bench.log[4], Action::SetAlternateSetting { interface: 0, setting: 0 });
    assert_eq!(bench.log[5..], [Action::ReleaseInterface { interface: 0 }]);
    assert_eq!(bench.count(is_claim), 1);
    assert_eq!(bench.count(is_release), 1);
}

#[test]
fn open_fails_when_the_first_drain_fails_and_gives_everything_back() {
    let mut bench = Bench::new();
    bench.bound = vec![3];
    bench.failure = Some((10, TransportFault::NoDevice));
    let completion = bench.run(MV7Device::open());
    assert_eq!(completion.result, Err(Mv7Error::TransportError(TransportFault::NoDevice)));
    assert!(completion.session.is_none());
    assert_eq!(bench.log[10], DRAIN_READ);
    assert_eq!(
        bench.log[11..],
        [
            Action::ReleaseInterface { interface: 3 },
            Action::AttachKernelDriver { interface: 3 },
            Action::ReleaseInterface { interface: 0 },
        ]
    );
}

#[test]
fn open_discards_startup_chatter() {
    let mut bench = Bench::new();
    bench.pending.push_back(stale(b"hello"));
    bench.pending.push_back(stale(b"dspMode=5"));
    bench.open();
    assert_eq!(bench.count(is_interrupt_read), 3);
    assert!(bench.pending.is_empty());
}

#[test]
fn mute_round_trip_on_the_bench() {
    let mut bench = Bench::new();
    let mut session = bench.open();

    let set = bench.run(session.set_mute(true));
    assert_eq!(set.result, Ok(Answer::Written(1)));
    session = set.session.unwrap();
    let get = bench.run(session.get_mute());
    assert_eq!(get.result, Ok(Answer::Mute(true)));
    session = get.session.unwrap();

    let set = bench.run(session.set_mute(false));
    assert_eq!(set.result, Ok(Answer::Written(1)));
    session = set.session.unwrap();
    let get = bench.run(session.get_mute());
    assert_eq!(get.result, Ok(Answer::Mute(false)));
}

#[test]
fn mute_requests_are_single_control_transfers() {
    let mut bench = Bench::new();
    let mut session = bench.open();
    bench.log.clear();
    session = bench.run(session.get_mute()).session.unwrap();
    bench.run(session.set_mute(true));
    assert_eq!(
        bench.log,
        vec![
            Action::ControlRead {
                setup: mute_request(Direction::In),
                length: 1,
                timeout_ms: 100
            },
            Action::ControlWrite {
                setup: mute_request(Direction::Out),
                payload: 1,
                timeout_ms: 100
            },
        ]
    );
}

#[test]
fn empty_mute_reply_counts_as_unmuted() {
    let session = Bench::new().open();
    let exchange = session.get_mute().advance(&Reply::Data(Vec::new()));
    assert_eq!(exchange.finish().ok().unwrap().result, Ok(Answer::Mute(false)));
}

#[test]
fn failed_mute_query_is_a_transport_error_and_keeps_the_session() {
    let session = Bench::new().open();
    let exchange = session.get_mute().advance(&Reply::Failed(TransportFault::Timeout));
    let completion = exchange.finish().ok().unwrap();
    assert_eq!(completion.result, Err(Mv7Error::TransportError(TransportFault::Timeout)));
    assert!(completion.session.is_some());
}

#[test]
fn failed_mute_write_is_a_transport_error() {
    let session = Bench::new().open();
    let exchange = session.set_mute(true).advance(&Reply::Failed(TransportFault::Pipe));
    let completion = exchange.finish().ok().unwrap();
    assert_eq!(completion.result, Err(Mv7Error::TransportError(TransportFault::Pipe)));
}

#[test]
fn position_round_trip_on_the_bench() {
    let mut bench = Bench::new();
    let mut session = bench.open();

    let set = bench.run(session.set_mic_position(MicPosition::Far));
    assert_eq!(set.result, Ok(Answer::Done));
    session = set.session.unwrap();
    assert_eq!(bench.mode, 5);
    let get = bench.run(session.get_mic_position());
    assert_eq!(get.result, Ok(Answer::Position(MicPosition::Far)));
    session = get.session.unwrap();

    let set = bench.run(session.set_mic_position(MicPosition::Near));
    assert_eq!(set.result, Ok(Answer::Done));
    session = set.session.unwrap();
    assert_eq!(bench.mode, 2);
    let get = bench.run(session.get_mic_position());
    assert_eq!(get.result, Ok(Answer::Position(MicPosition::Near)));
}

#[test]
fn position_query_drains_writes_and_reads() {
    let mut bench = Bench::new();
    let session = bench.open();
    bench.log.clear();
    bench.run(session.get_mic_position());
    assert_eq!(
        bench.log,
        vec![
            DRAIN_READ,
            Action::InterruptWrite { endpoint: 0x05, command: Command::QueryMode, timeout_ms: 100 },
            REPORT_READ,
        ]
    );
}

#[test]
fn position_change_writes_the_mode_and_reads_the_acknowledgement() {
    let mut bench = Bench::new();
    let session = bench.open();
    bench.log.clear();
    bench.run(session.set_mic_position(MicPosition::Far));
    assert_eq!(
        bench.log,
        vec![
            DRAIN_READ,
            Action::InterruptWrite {
                endpoint: 0x05,
                command: Command::SetMode(MicPosition::Far),
                timeout_ms: 100
            },
            REPORT_READ,
        ]
    );
}

#[test]
fn acknowledgement_of_a_position_change_is_not_read() {
    let session = Bench::new().open();
    let exchange = session
        .set_mic_position(MicPosition::Far)
        .advance(&Reply::Failed(TransportFault::Timeout))
        .advance(&Reply::Written(64))
        .advance(&Reply::Data(stale(b"garbage")));
    assert_eq!(exchange.finish().ok().unwrap().result, Ok(Answer::Done));
}

#[test]
fn missing_acknowledgement_is_a_transport_error() {
    let session = Bench::new().open();
    let exchange = session
        .set_mic_position(MicPosition::Far)
        .advance(&Reply::Failed(TransportFault::Timeout))
        .advance(&Reply::Written(64))
        .advance(&Reply::Failed(TransportFault::Timeout));
    assert_eq!(
        exchange.finish().ok().unwrap().result,
        Err(Mv7Error::TransportError(TransportFault::Timeout))
    );
}

#[test]
fn unknown_mode_is_a_protocol_error() {
    let mut bench = Bench::new();
    bench.mode = 9;
    let session = bench.open();
    let completion = bench.run(session.get_mic_position());
    assert_eq!(
        completion.result,
        Err(Mv7Error::ProtocolError(ProtocolFault::UnrecognizedMode(9)))
    );
    assert!(completion.session.is_some());
}

#[test]
fn malformed_reports_are_protocol_errors() {
    let cases: [(&[u8], ProtocolFault); 4] = [
        (b"mode=2", ProtocolFault::MissingPrefix),
        (b"dspMode=", ProtocolFault::MissingNumber),
        (b"dspMode=300", ProtocolFault::NumberTooLarge),
        (b"dspMode=2\xff", ProtocolFault::NotText),
    ];
    for (text, fault) in cases {
        let session = Bench::new().open();
        let exchange = session
            .get_mic_position()
            .advance(&Reply::Failed(TransportFault::Timeout))
            .advance(&Reply::Written(64))
            .advance(&Reply::Data(stale(text)));
        assert_eq!(
            exchange.finish().ok().unwrap().result,
            Err(Mv7Error::ProtocolError(fault))
        );
    }
}

#[test]
fn failed_command_write_is_a_transport_error() {
    let session = Bench::new().open();
    let exchange = session
        .get_mic_position()
        .advance(&Reply::Failed(TransportFault::Timeout))
        .advance(&Reply::Failed(TransportFault::Io));
    assert!(exchange.is_finished());
    assert_eq!(
        exchange.finish().ok().unwrap().result,
        Err(Mv7Error::TransportError(TransportFault::Io))
    );
}

#[test]
fn status_reports_mute_and_position() {
    let mut bench = Bench::new();
    bench.muted = true;
    bench.mode = 5;
    let session = bench.open();
    bench.log.clear();
    let completion = bench.run(session.status());
    assert_eq!(
        completion.result,
        Ok(Answer::Status { muted: true, position: MicPosition::Far })
    );
    assert!(completion.session.is_some());
    assert_eq!(
        bench.log,
        vec![
            Action::ControlRead {
                setup: mute_request(Direction::In),
                length: 1,
                timeout_ms: 100
            },
            DRAIN_READ,
            Action::InterruptWrite { endpoint: 0x05, command: Command::QueryMode, timeout_ms: 100 },
            REPORT_READ,
        ]
    );
}

#[test]
fn status_never_queries_the_position_when_the_mute_query_fails() {
    let mut bench = Bench::new();
    let session = bench.open();
    bench.log.clear();
    bench.failure = Some((0, TransportFault::Pipe));
    let completion = bench.run(session.status());
    assert_eq!(completion.result, Err(Mv7Error::TransportError(TransportFault::Pipe)));
    assert_eq!(bench.log.len(), 1);
    assert!(matches!(bench.log[0], Action::ControlRead { .. }));
}

#[test]
fn status_fails_when_the_position_is_not_understood() {
    let mut bench = Bench::new();
    bench.mode = 7;
    let session = bench.open();
    let completion = bench.run(session.status());
    assert_eq!(
        completion.result,
        Err(Mv7Error::ProtocolError(ProtocolFault::UnrecognizedMode(7)))
    );
}

#[test]
fn reset_ends_the_session_and_releases_its_interfaces() {
    let mut bench = Bench::new();
    bench.bound = vec![3];
    let session = bench.open();
    bench.log.clear();
    let completion = bench.run(session.reset_device());
    assert_eq!(completion.result, Ok(Answer::Done));
    assert!(completion.session.is_none());
    assert_eq!(
        bench.log,
        vec![
            Action::ResetDevice,
            Action::ReleaseInterface { interface: 3 },
            Action::AttachKernelDriver { interface: 3 },
            Action::ReleaseInterface { interface: 0 },
        ]
    );
}

#[test]
fn failed_reset_ends_the_session_too() {
    let mut bench = Bench::new();
    let session = bench.open();
    bench.log.clear();
    bench.failure = Some((0, TransportFault::NotFound));
    let completion = bench.run(session.reset_device());
    assert_eq!(completion.result, Err(Mv7Error::TransportError(TransportFault::NotFound)));
    assert!(completion.session.is_none());
    assert_eq!(bench.count(is_release), 2);
}

#[test]
fn drain_of_three_stale_frames_performs_four_reads() {
    let mut bench = Bench::new();
    let session = bench.open();
    bench.log.clear();
    for _ in 0..3 {
        bench.pending.push_back(stale(b"dspMode=5"));
    }
    let mut exchange = session.get_mic_position();
    let mut reads = 0;
    while exchange.request() == Some(DRAIN_READ) {
        let reply = bench.perform(DRAIN_READ);
        exchange = exchange.advance(&reply);
        reads += 1;
    }
    assert_eq!(reads, 4);
    assert_eq!(
        exchange.request(),
        Some(Action::InterruptWrite {
            endpoint: 0x05,
            command: Command::QueryMode,
            timeout_ms: 100
        })
    );
    let completion = bench.run(exchange);
    assert_eq!(completion.result, Ok(Answer::Position(MicPosition::Near)));
}

#[test]
fn drain_stops_after_five_reads() {
    let mut bench = Bench::new();
    let session = bench.open();
    bench.log.clear();
    for _ in 0..7 {
        bench.pending.push_back(stale(b"dspMode=5"));
    }
    let completion = bench.run(session.get_mic_position());
    assert_eq!(bench.log[..5], [DRAIN_READ; 5]);
    assert!(matches!(bench.log[5], Action::InterruptWrite { .. }));
    // The sixth stale frame answers the query in place of the fresh report.
    assert_eq!(completion.result, Ok(Answer::Position(MicPosition::Far)));
}

#[test]
fn empty_reads_count_toward_the_drain() {
    let session = Bench::new().open();
    let mut exchange = session.get_mic_position();
    for _ in 0..5 {
        assert_eq!(exchange.request(), Some(DRAIN_READ));
        exchange = exchange.advance(&Reply::Data(Vec::new()));
    }
    assert!(matches!(exchange.request(), Some(Action::InterruptWrite { .. })));
}

#[test]
fn drain_fails_on_a_fault_that_is_no_timeout() {
    let session = Bench::new().open();
    let exchange = session.get_mic_position().advance(&Reply::Failed(TransportFault::Overflow));
    let completion = exchange.finish().ok().unwrap();
    assert_eq!(completion.result, Err(Mv7Error::TransportError(TransportFault::Overflow)));
    assert!(completion.session.is_some());
}

#[test]
fn reply_of_the_wrong_kind_counts_as_the_fault_other() {
    let exchange = MV7Device::open().advance(&Reply::Written(3));
    assert_eq!(
        exchange.finish().ok().unwrap().result,
        Err(Mv7Error::TransportError(TransportFault::Other))
    );
    let session = Bench::new().open();
    let exchange = session.get_mute().advance(&Reply::Done);
    assert_eq!(
        exchange.finish().ok().unwrap().result,
        Err(Mv7Error::TransportError(TransportFault::Other))
    );
}

#[test]
fn unfinished_exchange_is_handed_back() {
    let exchange = MV7Device::open();
    assert!(!exchange.is_finished());
    let exchange = match exchange.finish() {
        Ok(_) => panic!("an exchange that has not begun has no result"),
        Err(exchange) => exchange,
    };
    assert_eq!(
        exchange.request(),
        Some(Action::FindDevice { vendor_id: 0x14ed, product_id: 0x1012 })
    );
}

#[test]
fn finished_exchange_ignores_further_replies() {
    let exchange = MV7Device::open().advance(&Reply::Absent).advance(&Reply::Done);
    assert_eq!(exchange.request(), None);
    assert_eq!(exchange.finish().ok().unwrap().result, Err(Mv7Error::DeviceNotFound));
}

#[test]
fn every_exchange_ends_within_its_bound() {
    // A device that answers every request with stale data or a refusal still
    // lets an open come to its result.
    for reply in [Reply::Done, Reply::Data(Vec::new()), Reply::KernelDriver(true)] {
        let mut exchange = MV7Device::open();
        let mut steps = 0;
        while exchange.request().is_some() {
            exchange = exchange.advance(&reply);
            steps += 1;
            assert!(steps <= 21);
        }
    }
}

#[test]
fn replay_of_a_clean_open_lists_its_requests() {
    let replies = vec![
        Reply::Done,
        Reply::Configuration(1),
        Reply::KernelDriver(true),
        Reply::Done,
        Reply::Done,
        Reply::Done,
        Reply::KernelDriver(false),
        Reply::Done,
        Reply::Done,
        Reply::Done,
        Reply::Data(stale(b"chatter")),
        Reply::Failed(TransportFault::Timeout),
    ];
    let (exchange, requests) = MV7Device::open().replay(&replies);
    assert_eq!(
        requests,
        vec![
            Action::FindDevice { vendor_id: 0x14ed, product_id: 0x1012 },
            Action::ReadConfiguration,
            Action::QueryKernelDriver { interface: 0 },
            Action::DetachKernelDriver { interface: 0 },
            Action::ClaimInterface { interface: 0 },
            Action::SetAlternateSetting { interface: 0, setting: 0 },
            Action::QueryKernelDriver { interface: 3 },
            Action::ClaimInterface { interface: 3 },
            Action::SetAlternateSetting { interface: 3, setting: 0 },
            Action::Sleep { millis: 100 },
            DRAIN_READ,
            DRAIN_READ,
        ]
    );
    let completion = exchange.finish().ok().unwrap();
    assert_eq!(completion.result, Ok(Answer::Done));
    let session = completion.session.unwrap();
    assert_eq!(session.was_kernel_attached(0), Some(true));
    assert_eq!(session.was_kernel_attached(3), Some(false));
}

#[test]
fn replay_stops_at_the_result() {
    let replies = vec![Reply::Absent, Reply::Done, Reply::Done];
    let (exchange, requests) = MV7Device::open().replay(&replies);
    assert_eq!(requests, vec![Action::FindDevice { vendor_id: 0x14ed, product_id: 0x1012 }]);
    assert_eq!(exchange.finish().ok().unwrap().result, Err(Mv7Error::DeviceNotFound));
}

#[test]
fn replay_without_enough_replies_leaves_the_exchange_pending() {
    let session = Bench::new().open();
    let replies = vec![Reply::Failed(TransportFault::Timeout)];
    let (exchange, requests) = session.get_mic_position().replay(&replies);
    assert_eq!(requests, vec![DRAIN_READ]);
    assert!(!exchange.is_finished());
    assert_eq!(
        exchange.request(),
        Some(Action::InterruptWrite {
            endpoint: 0x05,
            command: Command::QueryMode,
            timeout_ms: 100
        })
    );
}

#[test]
fn replay_of_a_drain_with_three_stale_frames() {
    let session = Bench::new().open();
    let replies = vec![
        Reply::Data(stale(b"dspMode=5")),
        Reply::Data(stale(b"dspMode=5")),
        Reply::Data(stale(b"dspMode=5")),
        Reply::Failed(TransportFault::Timeout),
        Reply::Written(64),
        Reply::Data(stale(b"dspMode=2")),
    ];
    let (exchange, requests) = session.get_mic_position().replay(&replies);
    assert_eq!(requests[..4], [DRAIN_READ; 4]);
    assert_eq!(requests.len(), 6);
    assert_eq!(
        exchange.finish().ok().unwrap().result,
        Ok(Answer::Position(MicPosition::Near))
    );
}
