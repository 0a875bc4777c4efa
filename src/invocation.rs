use vstd::prelude::*;

use crate::text::{
    decimal, digit, digit_char, digits_value, lemma_decimal_reads_back, lemma_digit_reads_back,
    push_char, push_decimal,
};

verus! {

/// Speed, in thousandths, at which the engine plays unfiltered.
pub const NORMAL_SPEED: u64 = 1000;

/// What the engine is asked to play: a file, an offset and a speed.
///
/// Offsets are kept in milliseconds and speeds in thousandths, so that
/// `speed_millis == 1000` is normal speed.
pub struct PlaybackRequest {
    pub video_path: String,
    pub start_millis: u64,
    pub speed_millis: u64,
}

impl PlaybackRequest {
    /// A request plays at a positive speed.
    pub open spec fn wf(&self) -> bool {
        self.speed_millis > 0
    }

    /// Builds a request; a zero speed is refused.
    pub fn new(video_path: String, start_millis: u64, speed_millis: u64) -> (r: Option<PlaybackRequest>)
        ensures
            speed_millis == 0 <==> r is None,
            r matches Some(q) ==> q.wf() && q.video_path == video_path
                && q.start_millis == start_millis && q.speed_millis == speed_millis,
    {
        if speed_millis == 0 {
            None
        } else {
            Some(PlaybackRequest { video_path, start_millis, speed_millis })
        }
    }

    /// The same request, started at another offset.
    pub fn at(&self, start_millis: u64) -> (r: PlaybackRequest)
        ensures
            r.video_path@ == self.video_path@,
            r.speed_millis == self.speed_millis,
            r.start_millis == start_millis,
    {
        PlaybackRequest {
            video_path: self.video_path.clone(),
            start_millis,
            speed_millis: self.speed_millis,
        }
    }
}

/// The non-zero thousandths `f` of a number, without trailing zeros.
pub open spec fn fraction_text(f: nat) -> Seq<char> {
    if f % 100 == 0 {
        seq![digit_char(f / 100)]
    } else if f % 10 == 0 {
        seq![digit_char(f / 100), digit_char((f / 10) % 10)]
    } else {
        seq![digit_char(f / 100), digit_char((f / 10) % 10), digit_char(f % 10)]
    }
}

/// The shortest decimal text of `ms` thousandths (`30000` is `30`, `2500` is `2.5`).
pub open spec fn seconds_text(ms: nat) -> Seq<char> {
    if ms % 1000 == 0 {
        decimal(ms / 1000)
    } else {
        decimal(ms / 1000) + seq!['.'] + fraction_text(ms % 1000)
    }
}

/// The text of `ms` thousandths with exactly three fractional digits (`1500` is `1.500`).
pub open spec fn fixed3_text(ms: nat) -> Seq<char> {
    decimal(ms / 1000) + seq![
        '.',
        digit_char((ms % 1000) / 100),
        digit_char((ms % 100) / 10),
        digit_char(ms % 10),
    ]
}

/// The arguments that make the engine play `path` from `start` at `speed`.
pub open spec fn invocation(path: Seq<char>, start: nat, speed: nat) -> Seq<Seq<char>> {
    let seek = if start > 0 {
        seq!["-ss"@, seconds_text(start)]
    } else {
        Seq::empty()
    };
    let filters = if speed != NORMAL_SPEED {
        seq!["-vf"@, "setpts=PTS/"@ + fixed3_text(speed), "-af"@, "atempo="@ + fixed3_text(speed)]
    } else {
        Seq::empty()
    };
    seq!["-hide_banner"@, "-loglevel"@, "info"@] + seek + seq!["-autoexit"@] + filters + seq![path]
}

/// A request from the beginning at normal speed asks for no seek and no filter:
/// none of the engine's arguments is a seek-to, video-filter or audio-filter flag.
/// (The path itself is the last argument, so it must not be one of those flags.)
pub proof fn lemma_plain_request_has_no_options(path: Seq<char>)
    requires
        path != "-ss"@,
        path != "-vf"@,
        path != "-af"@,
    ensures
        invocation(path, 0, NORMAL_SPEED as nat) == seq![
            "-hide_banner"@,
            "-loglevel"@,
            "info"@,
            "-autoexit"@,
            path,
        ],
        forall|i: int|
            0 <= i < invocation(path, 0, NORMAL_SPEED as nat).len() ==> {
                let a = #[trigger] invocation(path, 0, NORMAL_SPEED as nat)[i];
                a != "-ss"@ && a != "-vf"@ && a != "-af"@
            },
{
    reveal_strlit("-hide_banner");
    reveal_strlit("-loglevel");
    reveal_strlit("info");
    reveal_strlit("-autoexit");
    reveal_strlit("-ss");
    reveal_strlit("-vf");
    reveal_strlit("-af");
    let args = invocation(path, 0, NORMAL_SPEED as nat);
    assert(args =~= seq!["-hide_banner"@, "-loglevel"@, "info"@, "-autoexit"@, path]);
    assert("-hide_banner"@[1] != "-ss"@[1]);
    assert("-hide_banner"@[1] != "-vf"@[1]);
    assert("-hide_banner"@[1] != "-af"@[1]);
    assert("-loglevel"@[1] != "-ss"@[1]);
    assert("-loglevel"@[1] != "-vf"@[1]);
    assert("-loglevel"@[1] != "-af"@[1]);
    assert("info"@[0] != "-ss"@[0]);
    assert("info"@[0] != "-vf"@[0]);
    assert("info"@[0] != "-af"@[0]);
    assert("-autoexit"@[1] != "-ss"@[1]);
    assert("-autoexit"@[1] != "-vf"@[1]);
    assert("-autoexit"@[2] != "-af"@[2]);
}

/// The thousandths that the digits after a decimal point stand for
/// (`5` is 500, `05` is 50, `123` is 123).
pub open spec fn fraction_value(s: Seq<char>) -> nat {
    if s.len() == 1 {
        digits_value(s) * 100
    } else if s.len() == 2 {
        digits_value(s) * 10
    } else {
        digits_value(s)
    }
}

/// The fraction text of thousandths `f` reads back as `f`.
pub proof fn lemma_fraction_reads_back(f: nat)
    requires
        0 < f < 1000,
    ensures
        fraction_value(fraction_text(f)) == f,
        1 <= fraction_text(f).len() <= 3,
{
    let t = fraction_text(f);
    lemma_digit_reads_back(f / 100);
    lemma_digit_reads_back((f / 10) % 10);
    lemma_digit_reads_back(f % 10);
    let a = f / 100;
    let b = (f / 10) % 10;
    let c = f % 10;
    assert(f == a * 100 + b * 10 + c);
    let one = seq![digit_char(a)];
    assert(one.drop_last() =~= Seq::<char>::empty());
    assert(digits_value(Seq::<char>::empty()) == 0);
    assert(digits_value(one) == a);
    if f % 100 == 0 {
        assert(t =~= one);
    } else {
        let two = seq![digit_char(a), digit_char(b)];
        assert(two.drop_last() =~= one);
        assert(digits_value(two) == a * 10 + b);
        if f % 10 == 0 {
            assert(t =~= two);
        } else {
            let three = seq![digit_char(a), digit_char(b), digit_char(c)];
            assert(three.drop_last() =~= two);
            assert(t =~= three);
            assert(digits_value(three) == (a * 10 + b) * 10 + c);
        }
    }
}

/// A request with a positive offset asks the engine to seek to that offset:
/// the seek-to flag follows the fixed leading flags, and its value is a
/// decimal text that reads back as the offset, exact to the millisecond.
pub proof fn lemma_offset_request_seeks(path: Seq<char>, start: nat, speed: nat)
    requires
        start > 0,
    ensures
        invocation(path, start, speed)[3] == "-ss"@,
        invocation(path, start, speed)[4] == seconds_text(start),
        start % 1000 == 0 ==> seconds_text(start) == decimal(start / 1000),
        start % 1000 != 0 ==> seconds_text(start) == decimal(start / 1000) + seq!['.']
            + fraction_text(start % 1000),
        digits_value(decimal(start / 1000)) * 1000 + (if start % 1000 == 0 {
            0
        } else {
            fraction_value(fraction_text(start % 1000))
        }) == start,
{
    let args = invocation(path, start, speed);
    assert(args[3] == "-ss"@);
    assert(args[4] == seconds_text(start));
    lemma_decimal_reads_back(start / 1000);
    if start % 1000 != 0 {
        lemma_fraction_reads_back(start % 1000);
    }
}

/// The texts held by a vector of strings.
pub open spec fn texts(v: Seq<String>) -> Seq<Seq<char>> {
    v.map_values(|s: String| s@)
}

/// The name by which the engine is run.
pub fn engine_name() -> (r: String)
    ensures
        r@ == "ffplay"@,
{
    String::from_str("ffplay")
}

fn push_seconds(s: &mut String, ms: u64)
    ensures
        final(s)@ == old(s)@ + seconds_text(ms as nat),
{
    push_decimal(s, ms / 1000);
    let f = ms % 1000;
    if f != 0 {
        push_char(s, '.');
        push_char(s, digit(f / 100));
        if f % 100 != 0 {
            push_char(s, digit((f / 10) % 10));
            if f % 10 != 0 {
                push_char(s, digit(f % 10));
            }
        }
    }
    assert(final(s)@ =~= old(s)@ + seconds_text(ms as nat));
}

fn push_fixed3(s: &mut String, ms: u64)
    ensures
        final(s)@ == old(s)@ + fixed3_text(ms as nat),
{
    push_decimal(s, ms / 1000);
    push_char(s, '.');
    push_char(s, digit((ms % 1000) / 100));
    push_char(s, digit((ms % 100) / 10));
    push_char(s, digit(ms % 10));
    assert(final(s)@ =~= old(s)@ + fixed3_text(ms as nat));
}

/// The engine's argument vector for `request`.
pub fn build_args(request: &PlaybackRequest) -> (r: Vec<String>)
    ensures
        texts(r@) == invocation(
            request.video_path@,
            request.start_millis as nat,
            request.speed_millis as nat,
        ),
{
    let mut v: Vec<String> = Vec::new();
    v.push(String::from_str("-hide_banner"));
    v.push(String::from_str("-loglevel"));
    v.push(String::from_str("info"));
    if request.start_millis > 0 {
        v.push(String::from_str("-ss"));
        let mut s = String::new();
        push_seconds(&mut s, request.start_millis);
        v.push(s);
    }
    v.push(String::from_str("-autoexit"));
    if request.speed_millis != NORMAL_SPEED {
        let mut vf = String::from_str("setpts=PTS/");
        push_fixed3(&mut vf, request.speed_millis);
        let mut af = String::from_str("atempo=");
        push_fixed3(&mut af, request.speed_millis);
        v.push(String::from_str("-vf"));
        v.push(vf);
        v.push(String::from_str("-af"));
        v.push(af);
    }
    v.push(request.video_path.clone());
    assert(texts(v@) =~= invocation(
        request.video_path@,
        request.start_millis as nat,
        request.speed_millis as nat,
    ));
    v
}

} // verus!
