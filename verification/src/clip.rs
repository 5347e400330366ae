//! Recordings and their names: when a recording started gives the names of its files.

use vstd::prelude::*;

use crate::paths::{
    join_path, law_path_is_base_and_rest, law_paths_are_unique, path_below,
};
use crate::text::join;

verus! {

/// The pattern after which recordings are named.
pub const TIMESTAMP_FORMAT: &'static str = "%Y-%m-%d_%H%M%S";

/// The ending of the audio file of a recording.
pub const WAV_ENDING: &'static str = ".wav";

/// The ending of the transcript of a recording.
pub const TXT_ENDING: &'static str = ".txt";

/// A date and a time of day, to the second, as a clock on the wall shows them.
#[derive(Clone, Copy, PartialEq, Eq, Structural, Debug)]
pub struct LocalTime {
    pub year: i32,
    pub month: u32,
    pub day: u32,
    pub hour: u32,
    pub minute: u32,
    pub second: u32,
}

/// Whether the year has a 29th of February.
pub open spec fn is_leap_year(year: int) -> bool {
    year % 4 == 0 && (year % 100 != 0 || year % 400 == 0)
}

/// The number of days of a month, from 1 for January on.
pub open spec fn days_in_month(year: int, month: int) -> int {
    if month == 2 {
        if is_leap_year(year) {
            29
        } else {
            28
        }
    } else if month == 4 || month == 6 || month == 9 || month == 11 {
        30
    } else {
        31
    }
}

impl LocalTime {
    /// Whether there is such a day, in the span of years that the calendar covers, and such a
    /// time of day.
    pub open spec fn valid(self) -> bool {
        &&& -262143 <= self.year <= 262142
        &&& 1 <= self.month <= 12
        &&& 1 <= self.day <= days_in_month(self.year as int, self.month as int)
        &&& self.hour < 24
        &&& self.minute < 60
        &&& self.second < 60
    }
}

/// The digit for a number below ten.
pub open spec fn digit(n: nat) -> char {
    (48 + n) as char
}

/// `n` in decimal notation.
pub open spec fn decimal(n: nat) -> Seq<char>
    decreases n,
{
    if n < 10 {
        seq![digit(n)]
    } else {
        decimal(n / 10).push(digit(n % 10))
    }
}

/// `count` zeros.
pub open spec fn zeros(count: int) -> Seq<char> {
    Seq::new(
        if count < 0 {
            0
        } else {
            count as nat
        },
        |i: int| '0',
    )
}

/// `n` in decimal notation, with zeros in front of it up to `width` digits.
pub open spec fn padded(n: nat, width: int) -> Seq<char> {
    zeros(width - decimal(n).len()) + decimal(n)
}

/// A year in four digits, or more where it has more; with a sign outside of 0 to 9999.
pub open spec fn year_text(year: int) -> Seq<char> {
    if year < 0 {
        seq!['-'] + padded((-year) as nat, 4)
    } else if year <= 9999 {
        padded(year as nat, 4)
    } else {
        seq!['+'] + padded(year as nat, 4)
    }
}

/// The time of day and the day of a recording's name: everything behind the year.
pub open spec fn below_year_text(time: LocalTime) -> Seq<char> {
    seq!['-'] + padded(time.month as nat, 2) + seq!['-'] + padded(time.day as nat, 2) + seq!['_']
        + padded(time.hour as nat, 2) + padded(time.minute as nat, 2) + padded(
        time.second as nat,
        2,
    )
}

/// The name of a recording that started at `time`: `YYYY-MM-DD_HHMMSS`.
pub open spec fn timestamp_of(time: LocalTime) -> Seq<char> {
    year_text(time.year as int) + below_year_text(time)
}

/// Calls `chrono::Local::now` and reads the fields of the local date and time. Whatever the
/// clock and the time zone are, they are those of a day of the calendar and of a time of day.
///
/// Which day and time they are, nothing here says. `chrono` panics where the system clock
/// stands before 1970, where the local date lies beyond the years of its calendar, and where the
/// time zone data of the system names no usable local time.
#[verifier::external_body]
pub(crate) fn local_now() -> (now: LocalTime)
    ensures
        now.valid(),
{
    let now = chrono::Local::now().naive_local();
    LocalTime {
        year: chrono::Datelike::year(&now),
        month: chrono::Datelike::month(&now),
        day: chrono::Datelike::day(&now),
        hour: chrono::Timelike::hour(&now),
        minute: chrono::Timelike::minute(&now),
        second: chrono::Timelike::second(&now),
    }
}

/// Calls `chrono::NaiveDateTime::format` and writes the result out. With the pattern
/// `%Y-%m-%d_%H%M%S` that is the year (four digits or more, with a sign outside of 0 to 9999),
/// then month, day, hour, minute and second in two digits each, with the separators of the
/// pattern between them.
#[verifier::external_body]
fn format_local(time: &LocalTime, pattern: &str) -> (text: String)
    requires
        time.valid(),
        pattern@ == TIMESTAMP_FORMAT@,
    ensures
        text@ == timestamp_of(*time),
{
    let date = chrono::NaiveDate::from_ymd_opt(time.year, time.month, time.day).unwrap();
    let moment = date.and_hms_opt(time.hour, time.minute, time.second).unwrap();
    moment.format(pattern).to_string()
}

/// The name of a recording that started at `time`.
pub fn timestamp(time: &LocalTime) -> (name: String)
    requires
        time.valid(),
    ensures
        name@ == timestamp_of(*time),
{
    format_local(time, TIMESTAMP_FORMAT)
}

/// A recording: the directory in which its files stand, and the name that they share.
#[derive(Debug, PartialEq, Eq)]
pub struct Clip {
    pub dir: String,
    pub stem: String,
}

/// The texts that a [`Clip`] holds.
pub struct ClipView {
    pub dir: Seq<char>,
    pub stem: Seq<char>,
}

impl View for Clip {
    type V = ClipView;

    open spec fn view(&self) -> ClipView {
        ClipView { dir: self.dir@, stem: self.stem@ }
    }
}

impl ClipView {
    /// The name of the audio file.
    pub open spec fn wav_name(self) -> Seq<char> {
        self.stem + WAV_ENDING@
    }

    /// The path of the audio file.
    pub open spec fn wav_path(self) -> Seq<char> {
        path_below(self.dir, self.wav_name())
    }

    /// The path of the transcript.
    pub open spec fn txt_path(self) -> Seq<char> {
        path_below(self.dir, self.stem + TXT_ENDING@)
    }
}

/// The recording that starts at `time`, in the directory `dir`.
pub open spec fn clip_at(dir: Seq<char>, time: LocalTime) -> ClipView {
    ClipView { dir, stem: timestamp_of(time) }
}

impl Clip {
    /// The recording that starts at `time`, in the directory `dir`.
    pub fn starting_at(dir: &str, time: &LocalTime) -> (clip: Clip)
        requires
            time.valid(),
        ensures
            clip@ == clip_at(dir@, *time),
            clip.dir@ == dir@,
            clip.stem@ == timestamp_of(*time),
    {
        Clip { dir: dir.to_owned(), stem: timestamp(time) }
    }

    /// The name of the audio file.
    pub fn wav_name(&self) -> (name: String)
        ensures
            name@ == self@.wav_name(),
            name@ == self.stem@ + WAV_ENDING@,
    {
        join(self.stem.as_str(), WAV_ENDING)
    }

    /// The path of the audio file.
    pub fn wav_path(&self) -> (path: String)
        ensures
            path@ == self@.wav_path(),
            path@ == path_below(self.dir@, self.stem@ + WAV_ENDING@),
    {
        join_path(self.dir.as_str(), self.wav_name().as_str())
    }

    /// The path of the transcript.
    pub fn txt_path(&self) -> (path: String)
        ensures
            path@ == self@.txt_path(),
            path@ == path_below(self.dir@, self.stem@ + TXT_ENDING@),
    {
        join_path(self.dir.as_str(), join(self.stem.as_str(), TXT_ENDING).as_str())
    }
}

/// The number that a text of digits stands for.
pub open spec fn number_of(digits: Seq<char>) -> int
    decreases digits.len(),
{
    if digits.len() == 0 {
        0
    } else {
        10 * number_of(digits.drop_last()) + (digits.last() as int - 48)
    }
}

proof fn lemma_number_of_decimal(n: nat)
    ensures
        number_of(decimal(n)) == n,
        decimal(n).len() >= 1,
        n < 10 ==> decimal(n).len() == 1,
        10 <= n < 100 ==> decimal(n).len() == 2,
    decreases n,
{
    if n < 10 {
        assert(decimal(n).drop_last() == Seq::<char>::empty());
        assert(number_of(decimal(n).drop_last()) == 0);
        assert(decimal(n).last() == digit(n));
    } else {
        lemma_number_of_decimal(n / 10);
        assert(decimal(n).drop_last() == decimal(n / 10));
        assert(decimal(n).last() == digit(n % 10));
    }
}

proof fn lemma_zeros_in_front(count: int, s: Seq<char>)
    ensures
        number_of(zeros(count) + s) == number_of(s),
    decreases s.len(), count,
{
    let z = zeros(count);
    if s.len() > 0 {
        assert((z + s).drop_last() == z + s.drop_last());
        lemma_zeros_in_front(count, s.drop_last());
    } else if count > 0 {
        assert((z + s).drop_last() == zeros(count - 1) + s);
        assert((z + s).last() == '0');
        lemma_zeros_in_front(count - 1, s);
    } else {
        assert(z + s == s);
    }
}

proof fn lemma_number_of_padded(n: nat, width: int)
    ensures
        number_of(padded(n, width)) == n,
        width == 2 && n < 100 ==> padded(n, width).len() == 2,
        padded(n, width).len() > 0,
        padded(n, width).first() == '0' || padded(n, width).first() == decimal(n).first(),
{
    lemma_number_of_decimal(n);
    lemma_zeros_in_front(width - decimal(n).len(), decimal(n));
    let z = zeros(width - decimal(n).len());
    if z.len() > 0 {
        assert(padded(n, width).first() == z.first());
    } else {
        assert(padded(n, width) == decimal(n));
    }
}

proof fn lemma_first_of_decimal(n: nat)
    ensures
        '0' <= decimal(n).first() <= '9',
    decreases n,
{
    if n >= 10 {
        lemma_first_of_decimal(n / 10);
        lemma_number_of_decimal(n / 10);
        assert(decimal(n).first() == decimal(n / 10).first());
    }
}

proof fn lemma_year_text_is_unique(a: int, b: int)
    requires
        year_text(a) == year_text(b),
    ensures
        a == b,
{
    let na: nat = (if a < 0 {
        -a
    } else {
        a
    }) as nat;
    let nb: nat = (if b < 0 {
        -b
    } else {
        b
    }) as nat;
    lemma_number_of_padded(na, 4);
    lemma_number_of_padded(nb, 4);
    lemma_first_of_decimal(na);
    lemma_first_of_decimal(nb);
    let ta = year_text(a);
    let tb = year_text(b);
    if a < 0 || a > 9999 {
        assert(ta.drop_first() == padded(na, 4));
    } else {
        assert('0' <= ta.first() <= '9');
    }
    if b < 0 || b > 9999 {
        assert(tb.drop_first() == padded(nb, 4));
    } else {
        assert('0' <= tb.first() <= '9');
    }
    assert(a < 0 <==> ta.first() == '-');
    assert(b < 0 <==> tb.first() == '-');
    assert(a > 9999 <==> ta.first() == '+');
    assert(b > 9999 <==> tb.first() == '+');
    assert(na == nb);
}

proof fn lemma_below_year_text(time: LocalTime)
    requires
        time.valid(),
    ensures
        below_year_text(time).len() == 13,
        below_year_text(time).subrange(1, 3) == padded(time.month as nat, 2),
        below_year_text(time).subrange(4, 6) == padded(time.day as nat, 2),
        below_year_text(time).subrange(7, 9) == padded(time.hour as nat, 2),
        below_year_text(time).subrange(9, 11) == padded(time.minute as nat, 2),
        below_year_text(time).subrange(11, 13) == padded(time.second as nat, 2),
{
    lemma_number_of_padded(time.month as nat, 2);
    lemma_number_of_padded(time.day as nat, 2);
    lemma_number_of_padded(time.hour as nat, 2);
    lemma_number_of_padded(time.minute as nat, 2);
    lemma_number_of_padded(time.second as nat, 2);
}

/// Recordings that start in different seconds have different names, so that none overwrites
/// another.
pub proof fn law_names_are_unique(a: LocalTime, b: LocalTime)
    requires
        a.valid(),
        b.valid(),
        timestamp_of(a) == timestamp_of(b),
    ensures
        a == b,
{
    let s = timestamp_of(a);
    lemma_below_year_text(a);
    lemma_below_year_text(b);
    let cut = s.len() - 13;
    assert(s.take(cut) == year_text(a.year as int));
    assert(s.take(cut) == year_text(b.year as int));
    assert(s.skip(cut) == below_year_text(a));
    assert(s.skip(cut) == below_year_text(b));
    lemma_year_text_is_unique(a.year as int, b.year as int);
    lemma_number_of_padded(a.month as nat, 2);
    lemma_number_of_padded(b.month as nat, 2);
    lemma_number_of_padded(a.day as nat, 2);
    lemma_number_of_padded(b.day as nat, 2);
    lemma_number_of_padded(a.hour as nat, 2);
    lemma_number_of_padded(b.hour as nat, 2);
    lemma_number_of_padded(a.minute as nat, 2);
    lemma_number_of_padded(b.minute as nat, 2);
    lemma_number_of_padded(a.second as nat, 2);
    lemma_number_of_padded(b.second as nat, 2);
}

/// The transcript of a recording stands beside its audio file: the two paths differ in the
/// ending alone.
pub proof fn law_transcript_beside_audio(clip: ClipView)
    ensures
        clip.wav_path() == path_below(clip.dir, clip.stem) + WAV_ENDING@,
        clip.txt_path() == path_below(clip.dir, clip.stem) + TXT_ENDING@,
{
    assert(clip.dir + (clip.stem + WAV_ENDING@) == clip.dir + clip.stem + WAV_ENDING@);
    assert(clip.dir + (clip.stem + TXT_ENDING@) == clip.dir + clip.stem + TXT_ENDING@);
    assert(clip.dir.push('/') + (clip.stem + WAV_ENDING@) == clip.dir.push('/') + clip.stem
        + WAV_ENDING@);
    assert(clip.dir.push('/') + (clip.stem + TXT_ENDING@) == clip.dir.push('/') + clip.stem
        + TXT_ENDING@);
}

/// A number comes back from its decimal notation, which has no needless zero in front.
pub proof fn law_decimal_reads_back(n: nat)
    ensures
        number_of(decimal(n)) == n,
        forall|i: int| 0 <= i < decimal(n).len() ==> '0' <= #[trigger] decimal(n)[i] <= '9',
        n > 0 ==> decimal(n).first() != '0',
    decreases n,
{
    lemma_number_of_decimal(n);
    if n >= 10 {
        law_decimal_reads_back(n / 10);
        lemma_number_of_decimal(n / 10);
        assert(decimal(n).first() == decimal(n / 10).first());
        assert forall|i: int| 0 <= i < decimal(n).len() implies '0' <= #[trigger] decimal(n)[i]
            <= '9' by {
            if i < decimal(n / 10).len() {
                assert(decimal(n)[i] == decimal(n / 10)[i]);
            }
        }
    }
}

/// A text of digits stands for ten times the number without the last of them, and that digit.
pub proof fn law_number_is_read_digit_by_digit(digits: Seq<char>, digit: char)
    ensures
        number_of(digits.push(digit)) == 10 * number_of(digits) + (digit as int - '0' as int),
        number_of(Seq::empty()) == 0,
{
    assert(digits.push(digit).drop_last() == digits);
}

proof fn lemma_two_digits(n: nat)
    requires
        n < 100,
    ensures
        padded(n, 2) == seq![digit(n / 10), digit(n % 10)],
        digit(n / 10) as int == 48 + n / 10,
        digit(n % 10) as int == 48 + n % 10,
{
    reveal_with_fuel(decimal, 3);
    if n < 10 {
        assert(decimal(n) == seq![digit(n)]);
        assert(zeros(1) == seq!['0']);
        assert(digit(0) == '0');
    } else {
        assert(decimal(n) == seq![digit(n / 10), digit(n % 10)]);
        assert(zeros(0) == Seq::<char>::empty());
    }
}

proof fn lemma_four_digits(n: nat)
    requires
        n < 10000,
    ensures
        padded(n, 4) == seq![
            digit(n / 1000),
            digit(n / 100 % 10),
            digit(n / 10 % 10),
            digit(n % 10),
        ],
{
    reveal_with_fuel(decimal, 5);
    assert(digit(0) == '0');
    if n < 10 {
        assert(decimal(n) == seq![digit(n)]);
        assert(zeros(3) == seq!['0', '0', '0']);
    } else if n < 100 {
        assert(decimal(n) == seq![digit(n / 10), digit(n % 10)]);
        assert(zeros(2) == seq!['0', '0']);
        assert(n / 10 % 10 == n / 10);
    } else if n < 1000 {
        assert(n / 10 / 10 == n / 100);
        assert(decimal(n / 10) == seq![digit(n / 100), digit(n / 10 % 10)]);
        assert(decimal(n) == seq![digit(n / 100), digit(n / 10 % 10), digit(n % 10)]);
        assert(zeros(1) == seq!['0']);
        assert(n / 100 % 10 == n / 100);
    } else {
        assert(n / 10 / 10 == n / 100);
        assert(n / 100 / 10 == n / 1000);
        assert(decimal(n / 100) == seq![digit(n / 1000), digit(n / 100 % 10)]);
        assert(decimal(n / 10) == seq![digit(n / 1000), digit(n / 100 % 10), digit(n / 10 % 10)]);
        assert(decimal(n) == seq![
            digit(n / 1000),
            digit(n / 100 % 10),
            digit(n / 10 % 10),
            digit(n % 10),
        ]);
        assert(zeros(0) == Seq::<char>::empty());
    }
    assert(padded(n, 4).len() == 4);
}

/// The number that two digits of `s` stand for, from place `i` on; less than zero where they are
/// no digits.
pub open spec fn two_digits_at(s: Seq<char>, i: int) -> int {
    if '0' <= s[i] <= '9' && '0' <= s[i + 1] <= '9' {
        10 * (s[i] as int - '0' as int) + (s[i + 1] as int - '0' as int)
    } else {
        -1
    }
}

/// The files of a recording stand in the directory that is given and share a name from which the
/// very time comes back at which the recording starts: `YYYY-MM-DD_HHMMSS`. A year beyond four
/// digits, or before the first, has a sign in front.
pub proof fn law_name_tells_the_start(dir: Seq<char>, time: LocalTime)
    requires
        time.valid(),
    ensures
        clip_at(dir, time).dir == dir,
        ({
            let name = clip_at(dir, time).stem;
            let rest = name.len() - 13;
            &&& rest >= 4
            &&& name[rest] == '-'
            &&& two_digits_at(name, rest + 1) == time.month
            &&& name[rest + 3] == '-'
            &&& two_digits_at(name, rest + 4) == time.day
            &&& name[rest + 6] == '_'
            &&& two_digits_at(name, rest + 7) == time.hour
            &&& two_digits_at(name, rest + 9) == time.minute
            &&& two_digits_at(name, rest + 11) == time.second
            &&& 0 <= time.year <= 9999 ==> {
                &&& rest == 4
                &&& 100 * two_digits_at(name, 0) + two_digits_at(name, 2) == time.year
            }
            &&& time.year < 0 ==> name[0] == '-' && number_of(name.subrange(1, rest))
                == -time.year
            &&& time.year > 9999 ==> name[0] == '+' && number_of(name.subrange(1, rest))
                == time.year
        }),
{
    let year = year_text(time.year as int);
    let below = below_year_text(time);
    let name = clip_at(dir, time).stem;
    lemma_below_year_text(time);
    lemma_two_digits(time.month as nat);
    lemma_two_digits(time.day as nat);
    lemma_two_digits(time.hour as nat);
    lemma_two_digits(time.minute as nat);
    lemma_two_digits(time.second as nat);
    assert(name == year + below);
    let rest = year.len() as int;
    assert(forall|i: int| 0 <= i < 13 ==> #[trigger] below[i] == name[rest + i]);
    assert(below.subrange(1, 3)[0] == below[1] && below.subrange(1, 3)[1] == below[2]);
    assert(below.subrange(4, 6)[0] == below[4] && below.subrange(4, 6)[1] == below[5]);
    assert(below.subrange(7, 9)[0] == below[7] && below.subrange(7, 9)[1] == below[8]);
    assert(below.subrange(9, 11)[0] == below[9] && below.subrange(9, 11)[1] == below[10]);
    assert(below.subrange(11, 13)[0] == below[11] && below.subrange(11, 13)[1] == below[12]);
    assert(below[0] == '-' && below[3] == '-' && below[6] == '_');
    if 0 <= time.year <= 9999 {
        let y = time.year as nat;
        lemma_four_digits(y);
        assert(name[0] == year[0] && name[1] == year[1] && name[2] == year[2] && name[3]
            == year[3]);
        assert(year[0] as int == 48 + y / 1000 && year[1] as int == 48 + y / 100 % 10);
        assert(year[2] as int == 48 + y / 10 % 10 && year[3] as int == 48 + y % 10);
    } else {
        let n: nat = (if time.year < 0 {
            -time.year
        } else {
            time.year as int
        }) as nat;
        lemma_number_of_padded(n, 4);
        assert(padded(n, 4).len() >= 4);
        assert(name.subrange(1, rest) == padded(n, 4));
        assert(name[0] == year[0]);
    }
}

/// Recordings in one directory that start in different seconds have different audio files and
/// different transcripts, so that none overwrites another.
pub proof fn law_recordings_do_not_overwrite(dir: Seq<char>, a: LocalTime, b: LocalTime)
    requires
        a.valid(),
        b.valid(),
        a != b,
    ensures
        clip_at(dir, a).wav_path() != clip_at(dir, b).wav_path(),
        clip_at(dir, a).txt_path() != clip_at(dir, b).txt_path(),
{
    let x = clip_at(dir, a);
    let y = clip_at(dir, b);
    if x.wav_path() == y.wav_path() {
        law_paths_are_unique(dir, x.wav_name(), y.wav_name());
        assert(x.wav_name().take(x.wav_name().len() - WAV_ENDING@.len()) == x.stem);
        assert(y.wav_name().take(y.wav_name().len() - WAV_ENDING@.len()) == y.stem);
        law_names_are_unique(a, b);
    }
    if x.txt_path() == y.txt_path() {
        let s = x.stem + TXT_ENDING@;
        let t = y.stem + TXT_ENDING@;
        law_paths_are_unique(dir, s, t);
        assert(s.take(s.len() - TXT_ENDING@.len()) == x.stem);
        assert(t.take(t.len() - TXT_ENDING@.len()) == y.stem);
        law_names_are_unique(a, b);
    }
}

/// The files of a recording are its name with an ending, in its directory: `.wav` for the sound
/// and `.txt` for the transcript. The audio file is sent under its name in the directory.
pub proof fn law_files_have_name_and_ending(clip: ClipView)
    ensures
        clip.wav_name() == clip.stem + ".wav"@,
        clip.dir.len() > 0 && clip.dir.last() != '/' ==> {
            &&& clip.wav_path() == clip.dir + seq!['/'] + clip.stem + ".wav"@
            &&& clip.txt_path() == clip.dir + seq!['/'] + clip.stem + ".txt"@
        },
        clip.dir.len() == 0 || clip.dir.last() == '/' ==> {
            &&& clip.wav_path() == clip.dir + clip.stem + ".wav"@
            &&& clip.txt_path() == clip.dir + clip.stem + ".txt"@
        },
{
    law_transcript_beside_audio(clip);
    law_path_is_base_and_rest(clip.dir, clip.stem);
}

/// A year has 365 days, and 366 in every fourth year, save in those of a full hundred that no four
/// hundred divides; every day of it has 24 hours of 60 minutes of 60 seconds.
pub proof fn law_calendar_has_its_days(time: LocalTime, year: int)
    ensures
        days_in_month(year, 1) + days_in_month(year, 2) + days_in_month(year, 3) + days_in_month(
            year,
            4,
        ) + days_in_month(year, 5) + days_in_month(year, 6) + days_in_month(year, 7)
            + days_in_month(year, 8) + days_in_month(year, 9) + days_in_month(year, 10)
            + days_in_month(year, 11) + days_in_month(year, 12) == if year % 400 == 0 || (year % 4
            == 0 && year % 100 != 0) {
            366int
        } else {
            365
        },
        forall|month: int| #[trigger] days_in_month(year, month) <= 31,
        forall|month: int|
            month != 2 ==> #[trigger] days_in_month(year, month) >= 30,
        time.valid() <==> {
            &&& -262143 <= time.year <= 262142
            &&& 1 <= time.month <= 12
            &&& 1 <= time.day <= days_in_month(time.year as int, time.month as int)
            &&& time.hour <= 23
            &&& time.minute <= 59
            &&& time.second <= 59
        },
{
}

/// What a recording holds is seen of it as it is; and its name follows this pattern.
pub proof fn law_clip_is_seen_whole(clip: Clip)
    ensures
        clip@.dir == clip.dir@,
        clip@.stem == clip.stem@,
        TIMESTAMP_FORMAT@ == "%Y-%m-%d_%H%M%S"@,
{
}

} // verus!
