//! Model-level tests of the session bridge: the reader's delivery
//! discipline, the create-shell state machine, the supervisor, shell
//! resolution, and the configuration paths.

use steppe::pty::resize_request;
use steppe::reader::SessionReader;
use steppe::session::CreateAction;
use steppe::session::SpawnState;
use steppe::session::resolve_shell;
use steppe::supervisor::SupervisorState;
use steppe::utf8_is_valid;
use steppe::writer::write_to_pty_bytes;

#[test]
fn create_shell_is_idempotent() {
    let mut state = SpawnState::new();
    assert_eq!(state.create_shell(), CreateAction::Spawn);
    state.record_spawn_outcome(true);
    assert_eq!(state.create_shell(), CreateAction::AlreadyCreated);
    state.record_spawn_outcome(true);
    assert_eq!(state.create_shell(), CreateAction::AlreadyCreated);
}

#[test]
fn failed_spawn_permits_retry() {
    let mut state = SpawnState::new();
    assert_eq!(state.create_shell(), CreateAction::Spawn);
    state.record_spawn_outcome(false);
    assert_eq!(state.create_shell(), CreateAction::Spawn);
}

#[test]
fn empty_reader_reports_no_data() {
    let mut reader = SessionReader::new();
    assert_eq!(reader.read_from_pty(), Ok(None));
    assert_eq!(reader.read_from_pty(), Ok(None));
}

#[test]
fn fed_text_is_delivered_verbatim() {
    let mut reader = SessionReader::new();
    reader.feed(b"echo hi\n");
    let chunk = reader.read_from_pty().unwrap().unwrap();
    assert_eq!(chunk, "echo hi\n");
}

#[test]
fn no_double_delivery() {
    let mut reader = SessionReader::new();
    reader.feed(b"first chunk");
    let chunk = reader.read_from_pty().unwrap().unwrap();
    assert_eq!(chunk, "first chunk");
    assert_eq!(reader.read_from_pty(), Ok(None));
}

#[test]
fn split_codepoint_fails_then_recovers() {
    // The euro sign is the three bytes 0xe2 0x82 0xac; only its first
    // byte has arrived.
    let mut reader = SessionReader::new();
    reader.feed(&[0xe2]);
    assert!(reader.read_from_pty().is_err());
    // The byte was not discarded: once the rest arrives, the full
    // character comes out.
    reader.feed(&[0x82, 0xac]);
    assert_eq!(reader.read_from_pty().unwrap().unwrap(), "\u{20ac}");
    assert_eq!(reader.read_from_pty(), Ok(None));
}

#[test]
fn decode_failure_keeps_bytes_across_many_polls() {
    let mut reader = SessionReader::new();
    reader.feed(b"ok so far");
    reader.feed(&[0xf0, 0x9f]);
    assert!(reader.read_from_pty().is_err());
    assert!(reader.read_from_pty().is_err());
    reader.feed(&[0x92, 0x96]);
    let chunk = reader.read_from_pty().unwrap().unwrap();
    assert_eq!(chunk, "ok so far\u{1f496}");
}

#[test]
fn write_is_verbatim_bytes() {
    assert_eq!(write_to_pty_bytes("echo hi\n"), b"echo hi\n".to_vec());
    assert_eq!(
        write_to_pty_bytes("a\u{e9}\u{20ac}\n"),
        "a\u{e9}\u{20ac}\n".as_bytes().to_vec()
    );
    assert_eq!(write_to_pty_bytes(""), Vec::<u8>::new());
}

#[test]
fn write_between_reads_leaves_reader_alone() {
    let mut reader = SessionReader::new();
    reader.feed(b"queued");
    let _ = write_to_pty_bytes("something else entirely");
    assert_eq!(reader.read_from_pty().unwrap().unwrap(), "queued");
}

#[test]
fn validator_boundary_cases() {
    assert!(utf8_is_valid(b""));
    assert!(utf8_is_valid(b"plain ascii\n"));
    assert!(utf8_is_valid(&[0xc2, 0x80]));
    assert!(!utf8_is_valid(&[0xc0, 0x80])); // overlong two-byte form
    assert!(!utf8_is_valid(&[0xc1, 0xbf])); // overlong two-byte form
    assert!(utf8_is_valid(&[0xe0, 0xa0, 0x80]));
    assert!(!utf8_is_valid(&[0xe0, 0x9f, 0xbf])); // overlong three-byte form
    assert!(utf8_is_valid(&[0xed, 0x9f, 0xbf])); // just below the surrogates
    assert!(!utf8_is_valid(&[0xed, 0xa0, 0x80])); // a surrogate
    assert!(utf8_is_valid(&[0xee, 0x80, 0x80])); // just above the surrogates
    assert!(utf8_is_valid(&[0xf0, 0x90, 0x80, 0x80]));
    assert!(!utf8_is_valid(&[0xf0, 0x8f, 0xbf, 0xbf])); // overlong four-byte form
    assert!(utf8_is_valid(&[0xf4, 0x8f, 0xbf, 0xbf])); // the largest scalar
    assert!(!utf8_is_valid(&[0xf4, 0x90, 0x80, 0x80])); // past the largest scalar
    assert!(!utf8_is_valid(&[0xf5, 0x80, 0x80, 0x80]));
    assert!(!utf8_is_valid(&[0xff]));
    assert!(!utf8_is_valid(&[0x80]));
    assert!(!utf8_is_valid(&[0xe2, 0x82])); // truncated in the middle
}

#[test]
fn validator_agrees_with_std_on_all_short_inputs() {
    for b in 0..=255u8 {
        let one = [b];
        assert_eq!(utf8_is_valid(&one), std::str::from_utf8(&one).is_ok());
    }
    for b0 in 0..=255u8 {
        for b1 in 0..=255u8 {
            let two = [b0, b1];
            assert_eq!(utf8_is_valid(&two), std::str::from_utf8(&two).is_ok());
        }
    }
    for b0 in [0xdfu8, 0xe0, 0xe1, 0xed, 0xef, 0xf0, 0xf3, 0xf4, 0xf5] {
        for b1 in [0x00u8, 0x7f, 0x80, 0x8f, 0x90, 0x9f, 0xa0, 0xbf, 0xc0, 0xff] {
            for b2 in [0x00u8, 0x80, 0x9f, 0xbf, 0xc2, 0xe8] {
                let three = [b0, b1, b2];
                assert_eq!(utf8_is_valid(&three), std::str::from_utf8(&three).is_ok());
                for b3 in [0x00u8, 0x80, 0xbf, 0xf1] {
                    let four = [b0, b1, b2, b3];
                    assert_eq!(utf8_is_valid(&four), std::str::from_utf8(&four).is_ok());
                }
            }
        }
    }
}

#[test]
fn resolve_shell_takes_environment_value() {
    let cmd = resolve_shell(Some("/bin/zsh".to_string())).unwrap();
    assert_eq!(cmd.program, "/bin/zsh");
    assert_eq!(cmd.term, "xterm-256color");
}

#[test]
fn resolve_shell_without_value_is_an_error() {
    let err = resolve_shell(None).unwrap_err();
    assert_eq!(err, "Could not grab preferred shell from $SHELL");
}

#[test]
fn resize_request_carries_dimensions_exactly() {
    let d = resize_request(40, 120);
    assert_eq!(d.rows, 40);
    assert_eq!(d.cols, 120);
    assert_eq!(d.pixel_width, 0);
    assert_eq!(d.pixel_height, 0);
}

#[test]
fn initial_size_is_24_by_80() {
    let d = steppe::pty::initial_size();
    assert_eq!((d.rows, d.cols), (24, 80));
}

#[test]
fn supervisor_propagates_exit_code() {
    let mut sup = SupervisorState::new();
    assert_eq!(sup, SupervisorState::Unspawned);
    sup.start();
    assert_eq!(sup, SupervisorState::Running);
    let host_code = sup.on_child_exit(7);
    assert_eq!(host_code, 7);
    assert_eq!(sup, SupervisorState::Exited(7));
}

#[test]
fn config_paths() {
    assert_eq!(
        steppe::config::get_config_path(Some("/tmp/xdg".to_string()), "/home/u"),
        "/tmp/xdg/steppe/config.js"
    );
    assert_eq!(
        steppe::config::get_config_path(None, "/home/u"),
        "/home/u/.config/steppe/config.js"
    );
    assert_eq!(
        steppe::config::get_config_dir(None, "/home/u"),
        "/home/u/.config/steppe"
    );
    assert_eq!(steppe::config::default_config_text(), "export {}");
}
