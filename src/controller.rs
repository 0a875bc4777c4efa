use vstd::prelude::*;

use crate::invocation::{texts, PlaybackRequest};
use crate::supervisor::PlayerError;
use crate::text::{decimal, digit, digit_char, push_char, push_decimal};

verus! {

/// A key press, as far as the controls tell keys apart.
#[derive(Clone, Copy, Debug, PartialEq, Eq, Structural)]
pub enum Key {
    Char(char),
    Left,
    Right,
    Up,
    Down,
    Other,
}

/// What a key press asks the player to do.
#[derive(Clone, Copy, Debug, PartialEq, Eq, Structural)]
pub enum Command {
    Quit,
    TogglePause,
    BackShort,
    ForwardShort,
    ForwardLong,
    BackLong,
    Help,
    Ignore,
}

/// The control table: which command each key gives.
pub open spec fn command_of(key: Key) -> Command {
    match key {
        Key::Char(c) => if c == 'q' || c == 'Q' {
            Command::Quit
        } else if c == ' ' {
            Command::TogglePause
        } else if c == '?' {
            Command::Help
        } else {
            Command::Ignore
        },
        Key::Left => Command::BackShort,
        Key::Right => Command::ForwardShort,
        Key::Up => Command::ForwardLong,
        Key::Down => Command::BackLong,
        Key::Other => Command::Ignore,
    }
}

/// Looks a key up in the control table.
pub fn command(key: Key) -> (c: Command)
    ensures
        c == command_of(key),
{
    match key {
        Key::Char(c) => if c == 'q' || c == 'Q' {
            Command::Quit
        } else if c == ' ' {
            Command::TogglePause
        } else if c == '?' {
            Command::Help
        } else {
            Command::Ignore
        },
        Key::Left => Command::BackShort,
        Key::Right => Command::ForwardShort,
        Key::Up => Command::ForwardLong,
        Key::Down => Command::BackLong,
        Key::Other => Command::Ignore,
    }
}

/// Whether a command moves the playback position.
pub open spec fn is_seek(c: Command) -> bool {
    c == Command::BackShort || c == Command::ForwardShort || c == Command::ForwardLong
        || c == Command::BackLong
}

/// The signed distance, in milliseconds, that a seek command moves by.
pub open spec fn seek_delta(c: Command) -> int {
    match c {
        Command::BackShort => -10000,
        Command::ForwardShort => 10000,
        Command::ForwardLong => 60000,
        Command::BackLong => -60000,
        _ => 0,
    }
}

/// The position after a command: a backward seek stops at zero, and a
/// forward one at the largest position that can be held.
pub open spec fn next_position(pos: int, c: Command) -> int {
    let moved = pos + seek_delta(c);
    if moved < 0 {
        0
    } else if moved > u64::MAX {
        u64::MAX as int
    } else {
        moved
    }
}

/// The position after a run of key presses.
pub open spec fn position_after(pos: int, keys: Seq<Key>) -> int
    decreases keys.len(),
{
    if keys.len() == 0 {
        pos
    } else {
        position_after(next_position(pos, command_of(keys[0])), keys.drop_first())
    }
}

/// However many seeks are made from a position that is not negative, the
/// position never becomes negative.
pub proof fn lemma_position_never_negative(start: int, keys: Seq<Key>)
    requires
        start >= 0,
    ensures
        position_after(start, keys) >= 0,
    decreases keys.len(),
{
    if keys.len() > 0 {
        lemma_position_never_negative(next_position(start, command_of(keys[0])), keys.drop_first());
    }
}

/// The label of a seek command in the confirmation line.
pub open spec fn seek_label(c: Command) -> Seq<char> {
    match c {
        Command::BackShort => "-10s"@,
        Command::ForwardShort => "+10s"@,
        Command::ForwardLong => "+1m"@,
        _ => "-1m"@,
    }
}

/// `ms` milliseconds rounded to the nearest tenth of a second, halves up.
pub open spec fn rounded_tenths(ms: nat) -> nat {
    if ms % 100 >= 50 {
        ms / 100 + 1
    } else {
        ms / 100
    }
}

/// A position in seconds with one fractional digit (`5049` is `5.0`).
pub open spec fn tenths_text(ms: nat) -> Seq<char> {
    decimal(rounded_tenths(ms) / 10) + seq!['.', digit_char(rounded_tenths(ms) % 10)]
}

/// The line that confirms a seek.
pub open spec fn seek_message(c: Command, ms: nat) -> Seq<char> {
    "Seeked "@ + seek_label(c) + " (position: "@ + tenths_text(ms) + "s)"@
}

/// The line that reports a change of the pause state.
pub open spec fn pause_notice(paused: bool) -> Seq<char> {
    if paused {
        "Paused (note: ffplay doesn't support pause via signals)"@
    } else {
        "Playing"@
    }
}

/// The lines of the controls banner.
pub open spec fn help_text() -> Seq<Seq<char>> {
    seq![
        "Video Player Controls:"@,
        "  Space - Play/Pause"@,
        "  Left/Right - Seek 10 seconds"@,
        "  Up/Down - Seek 1 minute"@,
        "  Q - Quit"@,
        "  ? - Show this help"@,
        ""@,
    ]
}

/// The lines of the controls banner.
pub fn help_lines() -> (r: Vec<String>)
    ensures
        texts(r@) == help_text(),
{
    let mut v: Vec<String> = Vec::new();
    v.push(String::from_str("Video Player Controls:"));
    v.push(String::from_str("  Space - Play/Pause"));
    v.push(String::from_str("  Left/Right - Seek 10 seconds"));
    v.push(String::from_str("  Up/Down - Seek 1 minute"));
    v.push(String::from_str("  Q - Quit"));
    v.push(String::from_str("  ? - Show this help"));
    v.push(String::from_str(""));
    assert(texts(v@) =~= help_text());
    v
}

/// The text of a position, in seconds with one fractional digit.
pub fn position_text(ms: u64) -> (r: String)
    ensures
        r@ == tenths_text(ms as nat),
{
    let t: u64 = if ms % 100 >= 50 { ms / 100 + 1 } else { ms / 100 };
    let mut s = String::new();
    push_decimal(&mut s, t / 10);
    push_char(&mut s, '.');
    push_char(&mut s, digit(t % 10));
    assert(s@ =~= tenths_text(ms as nat));
    s
}

/// The line that confirms a seek by `c` to `ms`.
pub fn seek_line(c: Command, ms: u64) -> (r: String)
    requires
        is_seek(c),
    ensures
        r@ == seek_message(c, ms as nat),
{
    let mut s = String::from_str("Seeked ");
    match c {
        Command::BackShort => s.append("-10s"),
        Command::ForwardShort => s.append("+10s"),
        Command::ForwardLong => s.append("+1m"),
        _ => s.append("-1m"),
    }
    s.append(" (position: ");
    let p = position_text(ms);
    s.append(p.as_str());
    s.append("s)");
    s
}

/// The line that reports the pause state `paused`.
pub fn pause_line(paused: bool) -> (r: String)
    ensures
        r@ == pause_notice(paused),
{
    if paused {
        String::from_str("Paused (note: ffplay doesn't support pause via signals)")
    } else {
        String::from_str("Playing")
    }
}

/// What the controller does in answer to a key press.
pub enum Action {
    /// Leave the event loop and shut down.
    Quit,
    /// Print a status line.
    Notice(String),
    /// Restart playback with `request`, then print `message`.
    Seek { request: PlaybackRequest, message: String },
    /// Print the controls banner.
    Help(Vec<String>),
    /// Do nothing.
    Nothing,
}

/// The controller's state: where playback stands, whether a pause was asked
/// for, and the request that playback started from.
pub struct PlayerSession {
    pub position_millis: u64,
    pub paused: bool,
    pub template: PlaybackRequest,
}

impl PlayerSession {
    /// A session that starts where `request` starts, not paused.
    pub fn new(request: PlaybackRequest) -> (s: PlayerSession)
        ensures
            s.position_millis == request.start_millis,
            !s.paused,
            s.template == request,
    {
        PlayerSession { position_millis: request.start_millis, paused: false, template: request }
    }

    /// Applies a key press to the session and says what is to be done.
    ///
    /// A seek moves the position (backward seeks stop at zero) and asks for
    /// playback to restart there; the space bar only records and reports a
    /// pause, which the engine cannot perform.
    pub fn handle_key(&mut self, key: Key) -> (r: Action)
        ensures
            final(self).template == old(self).template,
            final(self).position_millis == next_position(
                old(self).position_millis as int,
                command_of(key),
            ),
            final(self).paused == if command_of(key) == Command::TogglePause {
                !old(self).paused
            } else {
                old(self).paused
            },
            r is Quit <==> command_of(key) == Command::Quit,
            r is Notice <==> command_of(key) == Command::TogglePause,
            r is Seek <==> is_seek(command_of(key)),
            r is Help <==> command_of(key) == Command::Help,
            r is Nothing <==> command_of(key) == Command::Ignore,
            r matches Action::Notice(m) ==> m@ == pause_notice(final(self).paused),
            r matches Action::Help(lines) ==> texts(lines@) == help_text(),
            r matches Action::Seek { request, message } ==> {
                &&& request.video_path@ == old(self).template.video_path@
                &&& request.speed_millis == old(self).template.speed_millis
                &&& request.start_millis == final(self).position_millis
                &&& message@ == seek_message(command_of(key), final(self).position_millis as nat)
            },
    {
        let c = command(key);
        match c {
            Command::Quit => Action::Quit,
            Command::TogglePause => {
                self.paused = !self.paused;
                Action::Notice(pause_line(self.paused))
            },
            Command::Help => Action::Help(help_lines()),
            Command::Ignore => Action::Nothing,
            _ => {
                let pos = self.position_millis;
                self.position_millis = match c {
                    Command::BackShort => pos.saturating_sub(10000),
                    Command::ForwardShort => pos.saturating_add(10000),
                    Command::ForwardLong => pos.saturating_add(60000),
                    _ => pos.saturating_sub(60000),
                };
                let request = self.template.at(self.position_millis);
                let message = seek_line(c, self.position_millis);
                Action::Seek { request, message }
            },
        }
    }
}

/// What a non-blocking look at the playback child found.
#[derive(Clone, Copy, Debug, PartialEq, Eq, Structural)]
pub enum ChildStatus {
    Running,
    Exited(i32),
}

impl ChildStatus {
    /// Reads a wait result: `None` while the child runs, else its exit code,
    /// which is absent when a signal ended it and then counts as zero.
    pub fn from_wait(waited: Option<Option<i32>>) -> (r: ChildStatus)
        ensures
            waited is None ==> r == ChildStatus::Running,
            waited matches Some(code) ==> r == ChildStatus::Exited(
                match code {
                    Some(c) => c,
                    None => 0,
                },
            ),
    {
        match waited {
            None => ChildStatus::Running,
            Some(code) => ChildStatus::Exited(code.unwrap_or(0)),
        }
    }
}

/// How a run of the controller ended.
pub enum Ending {
    /// The user quit.
    Quit,
    /// The playback child exited by itself with this code.
    ChildExited(i32),
    /// Something failed.
    Failed(PlayerError),
}

/// The ending that a look at the child calls for, if any: the loop ends
/// once the child has exited.
pub fn ending_for_status(status: ChildStatus) -> (r: Option<Ending>)
    ensures
        status == ChildStatus::Running <==> r is None,
        status matches ChildStatus::Exited(c) ==> r matches Some(Ending::ChildExited(d)) && d == c,
{
    match status {
        ChildStatus::Running => None,
        ChildStatus::Exited(c) => Some(Ending::ChildExited(c)),
    }
}

/// The process exit code of an ending: zero on quit, the child's own code when
/// it exited, one on a failure.
pub open spec fn exit_code_of(e: Ending) -> i32 {
    match e {
        Ending::Quit => 0,
        Ending::ChildExited(c) => c,
        Ending::Failed(_) => 1,
    }
}

/// The process exit code of an ending.
pub fn exit_code(e: &Ending) -> (r: i32)
    ensures
        r == exit_code_of(*e),
{
    match e {
        Ending::Quit => 0,
        Ending::ChildExited(c) => *c,
        Ending::Failed(_) => 1,
    }
}

} // verus!
