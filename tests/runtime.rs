use wasi_web::fetch::{response_head, settle_request, RequestError, ResponseHead};
use wasi_web::tasks::{sleep_delay_ms, thread_parallelism, MAX_TIMER_MS, THREAD_PARALLELISM};
use wasi_web::terminal::{translate_line_feeds, TermLog, TermStdout, TerminalCommandRx};
use wasi_web::tty::{TtyOptions, WasiTtyState};

fn opts(line_feeds: bool) -> TtyOptions {
    TtyOptions { cols: 80, rows: 25, echo: true, line_buffering: true, line_feeds }
}

fn printed(c: Option<TerminalCommandRx>) -> Option<String> {
    match c {
        Some(TerminalCommandRx::Print(t)) => Some(t),
        _ => None,
    }
}

#[test]
fn sleep_delay_is_kept_below_ceiling() {
    assert_eq!(sleep_delay_ms(0), 0);
    assert_eq!(sleep_delay_ms(1500), 1500);
    assert_eq!(sleep_delay_ms(2147483646), 2147483646);
}

#[test]
fn sleep_delay_is_clamped_at_ceiling() {
    assert_eq!(sleep_delay_ms(2147483647), MAX_TIMER_MS);
    assert_eq!(sleep_delay_ms(2147483648), MAX_TIMER_MS);
    assert_eq!(sleep_delay_ms(u64::MAX as u128), i32::MAX);
    assert_eq!(sleep_delay_ms(u128::MAX), i32::MAX);
}

#[test]
fn parallelism_is_a_fixed_positive_count() {
    assert_eq!(thread_parallelism(), Ok(8));
    assert_eq!(thread_parallelism(), Ok(THREAD_PARALLELISM));
    assert!(THREAD_PARALLELISM >= 1);
}

#[test]
fn line_feeds_expand_to_crlf() {
    assert_eq!(translate_line_feeds(b"a\nb"), b"a\r\nb".to_vec());
    assert_eq!(translate_line_feeds(b"\n\n"), b"\r\n\r\n".to_vec());
    assert_eq!(translate_line_feeds(b""), Vec::<u8>::new());
    assert_eq!(translate_line_feeds(b"plain"), b"plain".to_vec());
}

#[test]
fn terminal_write_translates_when_enabled() {
    let out = TermStdout::new();
    assert_eq!(printed(out.term_write(&opts(true), b"a\nb")), Some("a\r\nb".to_string()));
}

#[test]
fn terminal_write_unchanged_when_disabled() {
    let out = TermStdout::new();
    assert_eq!(printed(out.term_write(&opts(false), b"a\nb")), Some("a\nb".to_string()));
}

#[test]
fn terminal_write_of_invalid_bytes_prints_nothing() {
    let out = TermStdout::new();
    let bad: &[u8] = &[0x61, 0xFF, 0xFE, 0x0A];
    let (n, cmd) = out.poll_write(&opts(true), bad);
    assert_eq!(n, 4);
    assert!(cmd.is_none());
    let (n, cmd) = out.poll_write(&opts(false), &[0xC0, 0x80]);
    assert_eq!(n, 2);
    assert!(cmd.is_none());
}

#[test]
fn terminal_write_reports_whole_length() {
    let out = TermStdout::new();
    let (n, cmd) = out.poll_write(&opts(true), "héllo\n".as_bytes());
    assert_eq!(n, 7);
    assert_eq!(printed(cmd), Some("héllo\r\n".to_string()));
}

#[test]
fn log_write_replaces_invalid_bytes() {
    let log = TermLog::new();
    let (n, text) = log.poll_write(&[0x61, 0xFF, 0x62]);
    assert_eq!(n, 3);
    assert_eq!(text, "a\u{FFFD}b");
    assert!(text.contains('\u{FFFD}'));
}

#[test]
fn log_write_keeps_valid_text() {
    let log = TermLog::new();
    assert_eq!(log.log_write(b"hello\nworld"), "hello\nworld");
    assert_eq!(log.log_write(b""), "");
}

#[test]
fn pseudo_files_hold_nothing() {
    let out = TermStdout::new();
    let log = TermLog::new();
    assert_eq!(out.size(), 0);
    assert_eq!(out.last_accessed(), 0);
    assert_eq!(out.last_modified(), 0);
    assert_eq!(out.created_time(), 0);
    assert_eq!(log.size(), 0);
    assert_eq!(log.created_time(), 0);
    assert_eq!(out.poll_read_ready(), None);
    assert_eq!(log.poll_read_ready(), None);
    assert_eq!(out.poll_write_ready(), 8192);
    assert_eq!(log.poll_write_ready(), 8192);
}

#[test]
fn tty_set_then_get_round_trips() {
    let mut tty = TtyOptions::new(100, 40);
    let st = WasiTtyState {
        cols: 80,
        rows: 24,
        width: 1,
        height: 2,
        stdin_tty: false,
        stdout_tty: false,
        stderr_tty: false,
        echo: false,
        line_buffered: true,
        line_feeds: false,
    };
    tty.tty_set(st);
    let got = tty.tty_get();
    assert_eq!(got.cols, 80);
    assert_eq!(got.rows, 24);
    assert!(!got.echo);
    assert!(got.line_buffered);
    assert!(!got.line_feeds);
    assert_eq!((got.width, got.height), (800, 600));
    assert!(got.stdin_tty && got.stdout_tty && got.stderr_tty);
}

#[test]
fn tty_reset_enables_modes() {
    let mut tty = TtyOptions { cols: 120, rows: 30, echo: false, line_buffering: false, line_feeds: false };
    tty.reset();
    assert_eq!(tty, TtyOptions { cols: 120, rows: 30, echo: true, line_buffering: true, line_feeds: true });
}

#[test]
fn valid_status_gives_head() {
    assert_eq!(response_head(true, 200), Ok(ResponseHead { redirected: true, status: 200 }));
    assert_eq!(response_head(false, 100), Ok(ResponseHead { redirected: false, status: 100 }));
    assert_eq!(response_head(false, 999), Ok(ResponseHead { redirected: false, status: 999 }));
}

#[test]
fn malformed_status_is_request_error() {
    assert_eq!(response_head(false, 0), Err(RequestError::InvalidStatus(0)));
    assert_eq!(response_head(false, 99), Err(RequestError::InvalidStatus(99)));
    assert_eq!(response_head(true, 1000), Err(RequestError::InvalidStatus(1000)));
    assert_eq!(response_head(true, u16::MAX), Err(RequestError::InvalidStatus(u16::MAX)));
}

#[test]
fn response_has_body_and_no_headers() {
    let resp = ResponseHead { redirected: true, status: 404 }.into_response(vec![1, 2, 3]);
    assert!(resp.redirected);
    assert_eq!(resp.status, 404);
    assert!(resp.headers.is_empty());
    assert_eq!(resp.body, Some(vec![1, 2, 3]));
}

#[test]
fn reply_is_delivered_once() {
    let resp = ResponseHead { redirected: false, status: 201 }.into_response(b"ok".to_vec());
    let got = settle_request(Some(Ok(resp))).unwrap();
    assert_eq!(got.status, 201);
    assert_eq!(got.body, Some(b"ok".to_vec()));
    let err = settle_request(Some(Err(RequestError::Transport("refused".to_string()))));
    assert_eq!(err.unwrap_err(), RequestError::Transport("refused".to_string()));
}

#[test]
fn dropped_reply_is_not_delivered() {
    assert_eq!(settle_request(None).unwrap_err(), RequestError::NotDelivered);
}
