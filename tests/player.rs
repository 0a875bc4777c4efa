use video_player::controller::{
    command, exit_code, ending_for_status, help_lines, pause_line, position_text, seek_line,
    Action, ChildStatus, Command, Ending, Key, PlayerSession,
};
use video_player::invocation::{build_args, engine_name, PlaybackRequest};
use video_player::supervisor::{PlayerError, Supervisor};

fn request(path: &str, start_millis: u64, speed_millis: u64) -> PlaybackRequest {
    PlaybackRequest::new(path.to_string(), start_millis, speed_millis).unwrap()
}

fn args(path: &str, start_millis: u64, speed_millis: u64) -> Vec<String> {
    build_args(&request(path, start_millis, speed_millis))
}

#[test]
fn defaults_build_plain_arguments() {
    assert_eq!(
        args("video.mp4", 0, 1000),
        vec!["-hide_banner", "-loglevel", "info", "-autoexit", "video.mp4"]
    );
}

#[test]
fn start_offset_adds_seek() {
    assert_eq!(
        args("video.mp4", 30000, 1000),
        vec!["-hide_banner", "-loglevel", "info", "-ss", "30", "-autoexit", "video.mp4"]
    );
}

#[test]
fn speed_adds_both_filters() {
    let a = args("video.mp4", 0, 1500);
    assert_eq!(
        a,
        vec![
            "-hide_banner",
            "-loglevel",
            "info",
            "-autoexit",
            "-vf",
            "setpts=PTS/1.500",
            "-af",
            "atempo=1.500",
            "video.mp4"
        ]
    );
}

#[test]
fn slow_and_whole_speeds_have_three_digits() {
    let slow = args("a.mkv", 0, 500);
    assert!(slow.contains(&"setpts=PTS/0.500".to_string()));
    assert!(slow.contains(&"atempo=0.500".to_string()));
    let double = args("a.mkv", 0, 2000);
    assert!(double.contains(&"atempo=2.000".to_string()));
    let odd = args("a.mkv", 0, 1234);
    assert!(odd.contains(&"setpts=PTS/1.234".to_string()));
}

#[test]
fn fractional_offsets_are_shortest_decimals() {
    assert_eq!(args("v", 2500, 1000)[4], "2.5");
    assert_eq!(args("v", 12050, 1000)[4], "12.05");
    assert_eq!(args("v", 1, 1000)[4], "0.001");
    assert_eq!(args("v", 120000, 1000)[4], "120");
    assert_eq!(args("v", 61999, 1000)[4], "61.999");
}

#[test]
fn offset_and_speed_together() {
    assert_eq!(
        args("clip.webm", 90500, 750),
        vec![
            "-hide_banner",
            "-loglevel",
            "info",
            "-ss",
            "90.5",
            "-autoexit",
            "-vf",
            "setpts=PTS/0.750",
            "-af",
            "atempo=0.750",
            "clip.webm"
        ]
    );
}

#[test]
fn plain_request_has_no_options() {
    for path in ["video.mp4", "x", "/tmp/some file.avi"] {
        let a = args(path, 0, 1000);
        assert!(!a.iter().any(|s| s == "-ss" || s == "-vf" || s == "-af"));
        assert_eq!(a.last().unwrap(), path);
    }
}

#[test]
fn zero_speed_is_refused() {
    assert!(PlaybackRequest::new("v".to_string(), 0, 0).is_none());
    assert!(PlaybackRequest::new("v".to_string(), 0, 1).is_some());
}

#[test]
fn engine_is_ffplay() {
    assert_eq!(engine_name(), "ffplay");
}

#[test]
fn seek_left_saturates_at_zero() {
    let mut s = PlayerSession::new(request("video.mp4", 5000, 1000));
    match s.handle_key(Key::Left) {
        Action::Seek { request, message } => {
            assert_eq!(request.start_millis, 0);
            assert_eq!(request.video_path, "video.mp4");
            assert_eq!(request.speed_millis, 1000);
            assert_eq!(message, "Seeked -10s (position: 0.0s)");
        }
        _ => panic!("expected a seek"),
    }
    assert_eq!(s.position_millis, 0);
}

#[test]
fn seeks_move_by_their_steps() {
    let mut s = PlayerSession::new(request("v", 0, 1500));
    let mut check = |key: Key, pos: u64, text: &str| match s.handle_key(key) {
        Action::Seek { request, message } => {
            assert_eq!(request.start_millis, pos);
            assert_eq!(request.speed_millis, 1500);
            assert_eq!(message, text);
        }
        _ => panic!("expected a seek"),
    };
    check(Key::Right, 10000, "Seeked +10s (position: 10.0s)");
    check(Key::Up, 70000, "Seeked +1m (position: 70.0s)");
    check(Key::Down, 10000, "Seeked -1m (position: 10.0s)");
    check(Key::Down, 0, "Seeked -1m (position: 0.0s)");
    check(Key::Left, 0, "Seeked -10s (position: 0.0s)");
}

#[test]
fn position_stays_non_negative_over_key_runs() {
    let keys = [Key::Left, Key::Down, Key::Right, Key::Down, Key::Up, Key::Left, Key::Down];
    let mut s = PlayerSession::new(request("v", 15000, 1000));
    let mut expected: i64 = 15000;
    for k in keys {
        let delta: i64 = match k {
            Key::Left => -10000,
            Key::Right => 10000,
            Key::Up => 60000,
            _ => -60000,
        };
        expected = (expected + delta).max(0);
        s.handle_key(k);
        assert_eq!(s.position_millis as i64, expected);
    }
}

#[test]
fn forward_seek_stops_at_the_largest_position() {
    let mut s = PlayerSession::new(request("v", u64::MAX - 5, 1000));
    s.handle_key(Key::Up);
    assert_eq!(s.position_millis, u64::MAX);
}

#[test]
fn quit_keys_quit() {
    for c in ['q', 'Q'] {
        let mut s = PlayerSession::new(request("v", 0, 1000));
        assert!(matches!(s.handle_key(Key::Char(c)), Action::Quit));
        assert_eq!(s.position_millis, 0);
    }
    assert_eq!(exit_code(&Ending::Quit), 0);
}

#[test]
fn space_toggles_pause_with_notices() {
    let mut s = PlayerSession::new(request("v", 0, 1000));
    match s.handle_key(Key::Char(' ')) {
        Action::Notice(m) => {
            assert_eq!(m, "Paused (note: ffplay doesn't support pause via signals)")
        }
        _ => panic!("expected a notice"),
    }
    assert!(s.paused);
    match s.handle_key(Key::Char(' ')) {
        Action::Notice(m) => assert_eq!(m, "Playing"),
        _ => panic!("expected a notice"),
    }
    assert!(!s.paused);
    assert_eq!(pause_line(true), "Paused (note: ffplay doesn't support pause via signals)");
}

#[test]
fn question_mark_shows_help() {
    let mut s = PlayerSession::new(request("v", 0, 1000));
    match s.handle_key(Key::Char('?')) {
        Action::Help(lines) => assert_eq!(lines, help_lines()),
        _ => panic!("expected help"),
    }
    assert_eq!(
        help_lines(),
        vec![
            "Video Player Controls:",
            "  Space - Play/Pause",
            "  Left/Right - Seek 10 seconds",
            "  Up/Down - Seek 1 minute",
            "  Q - Quit",
            "  ? - Show this help",
            ""
        ]
    );
}

#[test]
fn other_keys_are_ignored() {
    let mut s = PlayerSession::new(request("v", 42000, 1000));
    for k in [Key::Char('x'), Key::Char('1'), Key::Other] {
        assert!(matches!(s.handle_key(k), Action::Nothing));
    }
    assert_eq!(s.position_millis, 42000);
    assert!(!s.paused);
    assert_eq!(command(Key::Char('z')), Command::Ignore);
    assert_eq!(command(Key::Up), Command::ForwardLong);
}

#[test]
fn positions_print_with_one_rounded_digit() {
    assert_eq!(position_text(5049), "5.0");
    assert_eq!(position_text(5050), "5.1");
    assert_eq!(position_text(9960), "10.0");
    assert_eq!(position_text(0), "0.0");
    assert_eq!(seek_line(Command::ForwardShort, 125300), "Seeked +10s (position: 125.3s)");
}

#[test]
fn natural_end_exits_with_child_code() {
    let st = ChildStatus::from_wait(Some(Some(0)));
    assert_eq!(st, ChildStatus::Exited(0));
    let e = ending_for_status(st).unwrap();
    assert_eq!(exit_code(&e), 0);
    let e = ending_for_status(ChildStatus::from_wait(Some(Some(3)))).unwrap();
    assert_eq!(exit_code(&e), 3);
}

#[test]
fn wait_results_read_as_status() {
    assert_eq!(ChildStatus::from_wait(None), ChildStatus::Running);
    assert_eq!(ChildStatus::from_wait(Some(None)), ChildStatus::Exited(0));
    assert!(ending_for_status(ChildStatus::Running).is_none());
}

#[test]
fn failures_exit_with_one() {
    let launch = Ending::Failed(PlayerError::LaunchFailed { cause: "not found".to_string() });
    assert_eq!(exit_code(&launch), 1);
    assert_eq!(exit_code(&Ending::Failed(PlayerError::TerminalModeFailed)), 1);
    assert_eq!(exit_code(&Ending::Failed(PlayerError::PollFailed)), 1);
}

#[test]
fn replace_keeps_one_child_or_none() {
    let mut sup: Supervisor<u32> = Supervisor::new();
    assert!(!sup.is_running());
    assert!(sup.start(Ok(1)).is_ok());
    assert!(sup.is_running());
    assert_eq!(sup.child_mut().copied(), Some(1));
    assert_eq!(sup.release(), Some(1));
    assert!(sup.start(Ok(2)).is_ok());
    assert!(sup.is_running());
    assert_eq!(sup.release(), Some(2));
    match sup.start(Err("no such file".to_string())) {
        Err(PlayerError::LaunchFailed { cause }) => assert_eq!(cause, "no such file"),
        _ => panic!("expected a launch failure"),
    }
    assert!(!sup.is_running());
    assert_eq!(sup.release(), None);
}

#[test]
fn shutdown_leaves_no_child() {
    let mut sup: Supervisor<u32> = Supervisor::new();
    sup.start(Ok(7)).unwrap();
    if let Some(c) = sup.child_mut() {
        *c = 8;
    }
    assert_eq!(sup.release(), Some(8));
    assert!(!sup.is_running());
    assert_eq!(sup.release(), None);
}

#[test]
fn observed_exit_empties_the_slot() {
    let mut sup: Supervisor<u32> = Supervisor::new();
    sup.start(Ok(5)).unwrap();
    assert_eq!(sup.observe(ChildStatus::Running), None);
    assert!(sup.is_running());
    assert_eq!(sup.observe(ChildStatus::Exited(0)), Some(5));
    assert!(!sup.is_running());
}
