use mv7::error::ProtocolFault;
use mv7::frame::{parse_mode_report, Command};
use mv7::mute::{encode_mute, read_mute};
use mv7::position::MicPosition;

fn padded(text: &[u8]) -> Vec<u8> {
    let mut frame = text.to_vec();
    frame.resize(64, 0);
    frame
}

#[test]
fn query_frame_is_the_keyword_padded_with_nul() {
    assert_eq!(Command::QueryMode.frame(), padded(b"dspMode\0"));
    assert_eq!(Command::QueryMode.frame().len(), 64);
}

#[test]
fn set_frames_carry_the_mode_code() {
    assert_eq!(Command::SetMode(MicPosition::Near).frame(), padded(b"dspMode 2\0"));
    assert_eq!(Command::SetMode(MicPosition::Far).frame(), padded(b"dspMode 5\0"));
    assert_eq!(Command::SetMode(MicPosition::Far).frame().len(), 64);
}

#[test]
fn padded_report_of_mode_2_is_near() {
    assert_eq!(parse_mode_report(&padded(b"dspMode=2")), Ok(MicPosition::Near));
}

#[test]
fn bare_report_of_mode_5_is_far() {
    assert_eq!(parse_mode_report(b"dspMode=5"), Ok(MicPosition::Far));
}

#[test]
fn report_of_mode_9_is_unrecognized() {
    assert_eq!(parse_mode_report(b"dspMode=9"), Err(ProtocolFault::UnrecognizedMode(9)));
    assert_eq!(
        parse_mode_report(&padded(b"dspMode=9")),
        Err(ProtocolFault::UnrecognizedMode(9))
    );
}

#[test]
fn report_without_prefix_is_rejected() {
    assert_eq!(parse_mode_report(b"mode=2"), Err(ProtocolFault::MissingPrefix));
    assert_eq!(parse_mode_report(b""), Err(ProtocolFault::MissingPrefix));
    assert_eq!(parse_mode_report(b"dspMode"), Err(ProtocolFault::MissingPrefix));
    assert_eq!(parse_mode_report(b"dspMode 2"), Err(ProtocolFault::MissingPrefix));
    assert_eq!(parse_mode_report(&padded(b"")), Err(ProtocolFault::MissingPrefix));
    assert_eq!(parse_mode_report(b"DSPMODE=2"), Err(ProtocolFault::MissingPrefix));
}

#[test]
fn text_before_the_prefix_is_not_skipped() {
    assert_eq!(parse_mode_report(b" dspMode=2"), Err(ProtocolFault::MissingPrefix));
    assert_eq!(parse_mode_report(b"\0dspMode=2"), Err(ProtocolFault::MissingPrefix));
}

#[test]
fn report_without_digits_is_rejected() {
    assert_eq!(parse_mode_report(b"dspMode="), Err(ProtocolFault::MissingNumber));
    assert_eq!(parse_mode_report(&padded(b"dspMode=")), Err(ProtocolFault::MissingNumber));
    assert_eq!(parse_mode_report(b"dspMode=x2"), Err(ProtocolFault::MissingNumber));
    assert_eq!(parse_mode_report(b"dspMode=+2"), Err(ProtocolFault::MissingNumber));
    assert_eq!(parse_mode_report(b"dspMode= 2"), Err(ProtocolFault::MissingNumber));
}

#[test]
fn number_above_a_byte_is_rejected() {
    assert_eq!(parse_mode_report(b"dspMode=256"), Err(ProtocolFault::NumberTooLarge));
    assert_eq!(parse_mode_report(b"dspMode=1000"), Err(ProtocolFault::NumberTooLarge));
    assert_eq!(
        parse_mode_report(b"dspMode=99999999999999999999999999999999"),
        Err(ProtocolFault::NumberTooLarge)
    );
    assert_eq!(parse_mode_report(b"dspMode=255"), Err(ProtocolFault::UnrecognizedMode(255)));
}

#[test]
fn only_the_leading_digits_are_read() {
    assert_eq!(parse_mode_report(b"dspMode=2x"), Ok(MicPosition::Near));
    assert_eq!(parse_mode_report(b"dspMode=5 9"), Ok(MicPosition::Far));
    assert_eq!(parse_mode_report(b"dspMode=5\r\n"), Ok(MicPosition::Far));
    assert_eq!(parse_mode_report(b"dspMode=25"), Err(ProtocolFault::UnrecognizedMode(25)));
}

#[test]
fn leading_zeros_do_not_change_the_number() {
    assert_eq!(parse_mode_report(b"dspMode=002"), Ok(MicPosition::Near));
    assert_eq!(parse_mode_report(b"dspMode=0000000000005"), Ok(MicPosition::Far));
    assert_eq!(parse_mode_report(b"dspMode=0"), Err(ProtocolFault::UnrecognizedMode(0)));
}

#[test]
fn bytes_that_are_not_text_are_rejected() {
    assert_eq!(parse_mode_report(b"dspMode=2\xff"), Err(ProtocolFault::NotText));
    assert_eq!(parse_mode_report(b"\xc3"), Err(ProtocolFault::NotText));
    assert_eq!(parse_mode_report(b"dspMode=2\xc3\xa9"), Ok(MicPosition::Near));
}

#[test]
fn report_of_the_code_that_was_written_reads_back() {
    for position in [MicPosition::Near, MicPosition::Far] {
        let mut report = b"dspMode=".to_vec();
        report.extend_from_slice(position.code().to_string().as_bytes());
        report.resize(64, 0);
        assert_eq!(parse_mode_report(&report), Ok(position));
    }
}

#[test]
fn any_nonzero_byte_means_muted() {
    assert!(read_mute(&[1]));
    assert!(read_mute(&[0xff]));
    assert!(read_mute(&[2, 0]));
    assert!(!read_mute(&[0]));
    assert!(!read_mute(&[0, 1]));
    assert!(!read_mute(&[]));
}

#[test]
fn mute_payload_is_one_or_zero() {
    assert_eq!(encode_mute(true), 1);
    assert_eq!(encode_mute(false), 0);
    assert!(read_mute(&[encode_mute(true)]));
    assert!(!read_mute(&[encode_mute(false)]));
}
