//! The settings file: `KEY=value` lines, comments, quotes and defaults.

use vstd::prelude::*;

use crate::paths::{join_path, law_path_is_base_and_rest, path_below, CLIPS_DIR, ENV_FILE};
use crate::text::{
    cut_at, is_all, is_bare, is_space, join, law_text_is_cut_at_the_first,
    law_trimming_leaves_the_core, lemma_cut_between, lemma_lines_of_joined, lemma_parts_of_trimmed,
    lemma_single_line, lemma_trimmed_has_bare_ends, lemma_trimmed_is_fixed, lines_of, opt_str_view,
    opt_view, same_text, split_lines, split_once, trim, trim_matches, trimmed, trimmed_end,
    trimmed_of, trimmed_start, views, Strip,
};

verus! {

/// The setting that holds the key for the transcription service.
pub const API_KEY: &'static str = "OPENAI_API_KEY";

/// The setting that holds the language of the recordings.
pub const LANG: &'static str = "VOICE_CLIP_LANG";

/// The setting that holds the capture device.
pub const DEVICE: &'static str = "VOICE_CLIP_DEVICE";

/// The language where none is set.
pub const DEFAULT_LANG: &'static str = "nl";

/// The capture device where none is set.
pub const DEFAULT_DEVICE: &'static str = "plughw:0,0";

/// The settings of the daemon.
#[derive(Debug, PartialEq, Eq)]
pub struct Config {
    /// The key for the transcription service.
    pub api_key: String,
    /// The language of the recordings.
    pub lang: String,
    /// The capture device.
    pub device: String,
    /// The directory of the recordings.
    pub clips_dir: String,
}

/// The texts that a [`Config`] holds.
pub struct ConfigView {
    pub api_key: Seq<char>,
    pub lang: Seq<char>,
    pub device: Seq<char>,
    pub clips_dir: Seq<char>,
}

impl View for Config {
    type V = ConfigView;

    open spec fn view(&self) -> ConfigView {
        ConfigView {
            api_key: self.api_key@,
            lang: self.lang@,
            device: self.device@,
            clips_dir: self.clips_dir@,
        }
    }
}

/// Why there are no settings.
#[derive(Debug, PartialEq, Eq)]
pub enum ConfigError {
    /// The settings file, at this path, is there and could not be read.
    Unreadable(String),
    /// The settings file, at this path, does not hold the key for the transcription service.
    MissingApiKey(String),
}

impl ConfigError {
    /// The error in words.
    pub open spec fn words(self) -> Seq<char> {
        match self {
            ConfigError::Unreadable(path) => "Failed to read "@ + path@,
            ConfigError::MissingApiKey(path) => "OPENAI_API_KEY not found in "@ + path@,
        }
    }

    /// The error in words.
    pub fn message(&self) -> (message: String)
        ensures
            message@ == self.words(),
            match self {
                ConfigError::Unreadable(path) => message@ == "Failed to read "@ + path@,
                ConfigError::MissingApiKey(path) => message@ == "OPENAI_API_KEY not found in "@
                    + path@,
            },
    {
        match self {
            ConfigError::Unreadable(path) => join("Failed to read ", path.as_str()),
            ConfigError::MissingApiKey(path) => join("OPENAI_API_KEY not found in ", path.as_str()),
        }
    }

    /// The error where the settings file of the user whose home directory is `home` could not be
    /// read.
    pub fn unreadable(home: &str) -> (error: ConfigError)
        ensures
            error matches ConfigError::Unreadable(path) && path@ == env_path_of(home@),
    {
        ConfigError::Unreadable(env_path(home))
    }
}

/// The settings file of the user whose home directory is `home`.
pub open spec fn env_path_of(home: Seq<char>) -> Seq<char> {
    path_below(home, ENV_FILE@)
}

/// The settings file of the user whose home directory is `home`.
pub fn env_path(home: &str) -> (path: String)
    ensures
        path@ == env_path_of(home@),
{
    join_path(home, ENV_FILE)
}

/// The value that stands behind a `=`: without the white space around it, then without the
/// double quotes, then without the single quotes at its ends.
pub open spec fn unquoted(value: Seq<char>) -> Seq<char> {
    trimmed_of(trimmed_of(trimmed(value), Strip::Only('"')), Strip::Only('\''))
}

/// The key and the value that a line sets. Blank lines, lines that start with `#` and lines
/// without `=` set nothing.
pub open spec fn assignment(line: Seq<char>) -> Option<(Seq<char>, Seq<char>)> {
    let line = trimmed(line);
    if line.len() == 0 || line.first() == '#' {
        None
    } else {
        match cut_at(line, '=') {
            Some((key, value)) => Some((trimmed(key), unquoted(value))),
            None => None,
        }
    }
}

/// The value that the last of `lines` to set `key` gives it.
pub open spec fn last_value(lines: Seq<Seq<char>>, key: Seq<char>) -> Option<Seq<char>>
    decreases lines.len(),
{
    if lines.len() == 0 {
        None
    } else {
        match assignment(lines.last()) {
            Some((k, value)) => if k == key {
                Some(value)
            } else {
                last_value(lines.drop_last(), key)
            },
            None => last_value(lines.drop_last(), key),
        }
    }
}

/// The value of `key` in a settings file with these contents; in none, where there is no file.
pub open spec fn setting(contents: Option<Seq<char>>, key: Seq<char>) -> Option<Seq<char>> {
    match contents {
        Some(contents) => last_value(lines_of(contents), key),
        None => None,
    }
}

/// `value`, or `default` where there is none.
pub open spec fn or_default(value: Option<Seq<char>>, default: Seq<char>) -> Seq<char> {
    match value {
        Some(value) => value,
        None => default,
    }
}

/// The settings that the settings file gives the user whose home directory is `home`; none
/// without a key for the transcription service.
pub open spec fn config_of(home: Seq<char>, contents: Option<Seq<char>>) -> Option<ConfigView> {
    match setting(contents, API_KEY@) {
        Some(api_key) => Some(
            ConfigView {
                api_key,
                lang: or_default(setting(contents, LANG@), DEFAULT_LANG@),
                device: or_default(setting(contents, DEVICE@), DEFAULT_DEVICE@),
                clips_dir: path_below(home, CLIPS_DIR@),
            },
        ),
        None => None,
    }
}

/// Reads one line of the settings file.
pub fn parse_assignment(line: &str) -> (parsed: Option<(String, String)>)
    ensures
        parsed is Some <==> assignment(line@) is Some,
        parsed matches Some((key, value)) ==> assignment(line@) == Some((key@, value@)),
{
    let line = trim(line);
    if line.is_empty() || line.get_char(0) == '#' {
        return None;
    }
    match split_once(line, '=') {
        Some((key, value)) => {
            let key = trim(key).to_owned();
            let value = trim_matches(
                trim_matches(trim(value), &Strip::Only('"')),
                &Strip::Only('\''),
            ).to_owned();
            Some((key, value))
        },
        None => None,
    }
}

/// Reads the settings of the user whose home directory is `home` from the contents of the
/// settings file, `None` where there is no such file.
pub fn load_config(home: &str, contents: Option<&str>) -> (config: Result<Config, ConfigError>)
    ensures
        config is Ok <==> config_of(home@, opt_str_view(contents)) is Some,
        config matches Ok(config) ==> config_of(home@, opt_str_view(contents)) == Some(config@),
        config matches Err(error) ==> (error matches ConfigError::MissingApiKey(path) && path@
            == env_path_of(home@)),
        config is Ok <==> setting(opt_str_view(contents), API_KEY@) is Some,
        config matches Ok(config) ==> {
            &&& setting(opt_str_view(contents), API_KEY@) == Some(config.api_key@)
            &&& config.lang@ == or_default(setting(opt_str_view(contents), LANG@), DEFAULT_LANG@)
            &&& config.device@ == or_default(
                setting(opt_str_view(contents), DEVICE@),
                DEFAULT_DEVICE@,
            )
            &&& config.clips_dir@ == path_below(home@, CLIPS_DIR@)
        },
{
    let mut api_key: Option<String> = None;
    let mut lang: Option<String> = None;
    let mut device: Option<String> = None;
    if let Some(contents) = contents {
        let lines = split_lines(contents);
        let ghost all = lines_of(contents@);
        let n: usize = lines.len();
        let mut i: usize = 0;
        assert(views(lines@).len() == n);
        while i < n
            invariant
                i <= n,
                n == lines.len(),
                views(lines@) == all,
                all.len() == n,
                opt_view(api_key) == last_value(all.take(i as int), API_KEY@),
                opt_view(lang) == last_value(all.take(i as int), LANG@),
                opt_view(device) == last_value(all.take(i as int), DEVICE@),
            decreases n - i,
        {
            let ghost before = all.take(i as int);
            proof {
                assert(all[i as int] == lines[i as int]@);
                assert(all.take(i + 1).drop_last() == before);
                assert(all.take(i + 1).last() == lines[i as int]@);
                lemma_setting_names_differ();
            }
            if let Some((key, value)) = parse_assignment(lines[i].as_str()) {
                if same_text(key.as_str(), API_KEY) {
                    api_key = Some(value);
                } else if same_text(key.as_str(), LANG) {
                    lang = Some(value);
                } else if same_text(key.as_str(), DEVICE) {
                    device = Some(value);
                }
            }
            i += 1;
        }
        assert(all.take(n as int) == all);
    }
    match api_key {
        Some(api_key) => {
            let lang = match lang {
                Some(lang) => lang,
                None => DEFAULT_LANG.to_owned(),
            };
            let device = match device {
                Some(device) => device,
                None => DEFAULT_DEVICE.to_owned(),
            };
            Ok(Config { api_key, lang, device, clips_dir: join_path(home, CLIPS_DIR) })
        },
        None => Err(ConfigError::MissingApiKey(env_path(home))),
    }
}

proof fn lemma_setting_names_differ()
    ensures
        API_KEY@ != LANG@,
        API_KEY@ != DEVICE@,
        LANG@ != DEVICE@,
{
    reveal_strlit("OPENAI_API_KEY");
    reveal_strlit("VOICE_CLIP_LANG");
    reveal_strlit("VOICE_CLIP_DEVICE");
    assert(API_KEY@.len() == 14);
    assert(LANG@.len() == 15);
    assert(DEVICE@.len() == 17);
}

proof fn lemma_last_value_of_joined(xs: Seq<Seq<char>>, ys: Seq<Seq<char>>, key: Seq<char>)
    ensures
        last_value(xs + ys, key) == match last_value(ys, key) {
            Some(value) => Some(value),
            None => last_value(xs, key),
        },
    decreases ys.len(),
{
    if ys.len() == 0 {
        assert(xs + ys == xs);
    } else {
        assert((xs + ys).last() == ys.last());
        assert((xs + ys).drop_last() == xs + ys.drop_last());
        lemma_last_value_of_joined(xs, ys.drop_last(), key);
    }
}

proof fn lemma_last_value_of_one(line: Seq<char>, key: Seq<char>)
    ensures
        last_value(seq![line], key) == match assignment(line) {
            Some((k, value)) => if k == key {
                Some(value)
            } else {
                None
            },
            None => None,
        },
{
    assert(seq![line].last() == line);
    assert(seq![line].drop_last() == Seq::<Seq<char>>::empty());
    assert(last_value(Seq::<Seq<char>>::empty(), key) is None);
}

/// A line put behind the settings file decides its own key, whatever the file said of it,
/// and no other.
pub proof fn law_last_assignment_wins(
    contents: Seq<char>,
    line: Seq<char>,
    key: Seq<char>,
    value: Seq<char>,
)
    requires
        !line.contains('\n'),
        assignment(line) == Some((key, value)),
    ensures
        setting(Some(contents.push('\n') + line), key) == Some(value),
        forall|other: Seq<char>|
            other != key ==> #[trigger] setting(Some(contents.push('\n') + line), other) == setting(
                Some(contents),
                other,
            ),
{
    lemma_lines_of_joined(contents, line);
    lemma_single_line(line);
    let xs = lines_of(contents);
    lemma_last_value_of_joined(xs, seq![line], key);
    lemma_last_value_of_one(line, key);
    assert forall|other: Seq<char>| other != key implies #[trigger] setting(
        Some(contents.push('\n') + line),
        other,
    ) == setting(Some(contents), other) by {
        lemma_last_value_of_joined(xs, seq![line], other);
        lemma_last_value_of_one(line, other);
    }
}

/// Whether a line sets `key`.
pub open spec fn sets(line: Seq<char>, key: Seq<char>) -> bool {
    assignment(line) matches Some((k, _)) && k == key
}

/// Whether a line sets none of the settings that are looked for.
pub open spec fn is_idle(line: Seq<char>) -> bool {
    !sets(line, API_KEY@) && !sets(line, LANG@) && !sets(line, DEVICE@)
}

/// Whether what is put behind `text` starts a line of its own.
pub open spec fn at_line_start(text: Seq<char>) -> bool {
    text.len() == 0 || text.last() == '\n'
}

/// The lines that `before` ends; none where it is empty.
spec fn complete_lines(before: Seq<char>) -> Seq<Seq<char>> {
    if before.len() == 0 {
        Seq::empty()
    } else {
        lines_of(before.drop_last())
    }
}

proof fn lemma_lines_behind(before: Seq<char>, rest: Seq<char>)
    requires
        at_line_start(before),
    ensures
        lines_of(before + rest) == complete_lines(before) + lines_of(rest),
{
    if before.len() == 0 {
        assert(before + rest == rest);
        assert(complete_lines(before) + lines_of(rest) == lines_of(rest));
    } else {
        assert(before == before.drop_last().push('\n'));
        lemma_lines_of_joined(before.drop_last(), rest);
    }
}

proof fn lemma_lines_of_nothing()
    ensures
        lines_of(Seq::empty()) == seq![Seq::<char>::empty()],
        assignment(Seq::empty()) is None,
{
    lemma_single_line(Seq::empty());
    lemma_trimmed_is_fixed(Seq::empty(), Strip::Whitespace);
}

/// A line that sets none of the settings (blank, a comment, without `=`, or with another key)
/// makes no difference, wherever in the settings file it stands: at its top, between its lines,
/// or at its end, with or without a line feed behind it.
pub proof fn law_idle_line_changes_nothing(
    home: Seq<char>,
    before: Seq<char>,
    line: Seq<char>,
    after: Seq<char>,
)
    requires
        at_line_start(before),
        !line.contains('\n'),
        is_idle(line),
    ensures
        config_of(home, Some(before + (line.push('\n') + after))) == config_of(
            home,
            Some(before + after),
        ),
        config_of(home, Some(before + line)) == config_of(home, Some(before)),
        config_of(home, Some(after.push('\n') + line)) == config_of(home, Some(after)),
{
    let xs = complete_lines(before);
    let ys = lines_of(after);
    lemma_lines_behind(before, line.push('\n') + after);
    lemma_lines_of_joined(line, after);
    lemma_lines_behind(before, after);
    lemma_lines_behind(before, line);
    lemma_lines_behind(before, Seq::empty());
    assert(before + Seq::<char>::empty() == before);
    lemma_lines_of_joined(after, line);
    lemma_single_line(line);
    lemma_lines_of_nothing();
    let nothing = Seq::<char>::empty();
    assert forall|key: Seq<char>| !sets(line, key) implies ({
        &&& #[trigger] setting(Some(before + (line.push('\n') + after)), key) == setting(
            Some(before + after),
            key,
        )
        &&& setting(Some(before + line), key) == setting(Some(before), key)
        &&& setting(Some(after.push('\n') + line), key) == setting(Some(after), key)
    }) by {
        lemma_last_value_of_one(line, key);
        lemma_last_value_of_one(nothing, key);
        lemma_last_value_of_joined(xs, seq![line] + ys, key);
        lemma_last_value_of_joined(seq![line], ys, key);
        lemma_last_value_of_joined(xs, ys, key);
        lemma_last_value_of_joined(xs, seq![line], key);
        lemma_last_value_of_joined(xs, seq![nothing], key);
        lemma_last_value_of_joined(ys, seq![line], key);
    }
    let with = Some(before + (line.push('\n') + after));
    assert(setting(with, API_KEY@) == setting(Some(before + after), API_KEY@));
    assert(setting(with, LANG@) == setting(Some(before + after), LANG@));
    assert(setting(with, DEVICE@) == setting(Some(before + after), DEVICE@));
}

/// The order of adjacent lines makes no difference, unless they set the same key.
pub proof fn law_lines_of_different_keys_may_be_swapped(
    home: Seq<char>,
    before: Seq<char>,
    a: Seq<char>,
    b: Seq<char>,
    after: Seq<char>,
)
    requires
        at_line_start(before),
        !a.contains('\n'),
        !b.contains('\n'),
        forall|key: Seq<char>| #[trigger] sets(a, key) ==> !sets(b, key),
    ensures
        config_of(home, Some(before + (a.push('\n') + (b.push('\n') + after)))) == config_of(
            home,
            Some(before + (b.push('\n') + (a.push('\n') + after))),
        ),
        config_of(home, Some(before + (a.push('\n') + b))) == config_of(
            home,
            Some(before + (b.push('\n') + a)),
        ),
{
    let one = Some(before + (a.push('\n') + (b.push('\n') + after)));
    let other = Some(before + (b.push('\n') + (a.push('\n') + after)));
    let one_end = Some(before + (a.push('\n') + b));
    let other_end = Some(before + (b.push('\n') + a));
    let xs = complete_lines(before);
    let ys = lines_of(after);
    lemma_lines_behind(before, a.push('\n') + (b.push('\n') + after));
    lemma_lines_behind(before, b.push('\n') + (a.push('\n') + after));
    lemma_lines_behind(before, a.push('\n') + b);
    lemma_lines_behind(before, b.push('\n') + a);
    lemma_lines_of_joined(a, b.push('\n') + after);
    lemma_lines_of_joined(b, a.push('\n') + after);
    lemma_lines_of_joined(a, after);
    lemma_lines_of_joined(b, after);
    lemma_lines_of_joined(a, b);
    lemma_lines_of_joined(b, a);
    lemma_single_line(a);
    lemma_single_line(b);
    assert forall|key: Seq<char>| #[trigger] setting(one, key) == setting(other, key) && setting(
        one_end,
        key,
    ) == setting(other_end, key) by {
        lemma_last_value_of_one(a, key);
        lemma_last_value_of_one(b, key);
        lemma_last_value_of_joined(xs, seq![a] + (seq![b] + ys), key);
        lemma_last_value_of_joined(xs, seq![b] + (seq![a] + ys), key);
        lemma_last_value_of_joined(seq![a], seq![b] + ys, key);
        lemma_last_value_of_joined(seq![b], seq![a] + ys, key);
        lemma_last_value_of_joined(seq![a], ys, key);
        lemma_last_value_of_joined(seq![b], ys, key);
        lemma_last_value_of_joined(xs, seq![a] + seq![b], key);
        lemma_last_value_of_joined(xs, seq![b] + seq![a], key);
        lemma_last_value_of_joined(seq![a], seq![b], key);
        lemma_last_value_of_joined(seq![b], seq![a], key);
        assert(sets(a, key) ==> !sets(b, key));
    }
    assert(setting(one, API_KEY@) == setting(other, API_KEY@));
    assert(setting(one, LANG@) == setting(other, LANG@));
    assert(setting(one, DEVICE@) == setting(other, DEVICE@));
}

/// Comments and blank lines set nothing.
pub proof fn law_comments_and_blanks_set_nothing(line: Seq<char>)
    requires
        trimmed(line).len() == 0 || trimmed(line).first() == '#',
    ensures
        assignment(line) is None,
{
}

/// Whether `key` is read back as it is written: without `=`, without white space at its ends,
/// and not the start of a comment.
pub open spec fn is_plain_key(key: Seq<char>) -> bool {
    &&& !key.contains('=')
    &&& key.len() > 0 ==> {
        &&& key.first() != '#'
        &&& !Strip::Whitespace.accepts(key.first())
        &&& !Strip::Whitespace.accepts(key.last())
    }
}

/// Whether `value` has no `c` at its ends.
pub open spec fn lacks_at_ends(value: Seq<char>, c: char) -> bool {
    value.len() > 0 ==> value.first() != c && value.last() != c
}

/// What `KEY=value` sets is read back: the value as it stands, where it has neither quotes
/// nor white space at its ends.
pub proof fn law_assignment_reads_back(key: Seq<char>, value: Seq<char>)
    requires
        is_plain_key(key),
        lacks_at_ends(value, '"'),
        lacks_at_ends(value, '\''),
        value.len() > 0 ==> !Strip::Whitespace.accepts(value.first())
            && !Strip::Whitespace.accepts(value.last()),
    ensures
        assignment(key.push('=') + value) == Some((key, value)),
{
    let line = key.push('=') + value;
    assert(line.first() == if key.len() > 0 {
        key.first()
    } else {
        '='
    });
    assert(line.last() == if value.len() > 0 {
        value.last()
    } else {
        '='
    });
    lemma_trimmed_is_fixed(line, Strip::Whitespace);
    lemma_cut_between(key, '=', value);
    lemma_trimmed_is_fixed(key, Strip::Whitespace);
    lemma_trimmed_is_fixed(value, Strip::Whitespace);
    lemma_trimmed_is_fixed(value, Strip::Only('"'));
    lemma_trimmed_is_fixed(value, Strip::Only('\''));
}

/// What `KEY="value"` or `KEY='value'` sets is read back: the value between the quotes, white
/// space at its ends with it, and double quotes too where it stands between single ones.
pub proof fn law_quoted_assignment_reads_back(key: Seq<char>, value: Seq<char>, quote: char)
    requires
        is_plain_key(key),
        quote == '"' ==> lacks_at_ends(value, '"'),
        lacks_at_ends(value, '\''),
        quote == '"' || quote == '\'',
    ensures
        assignment(key.push('=') + value.insert(0, quote).push(quote)) == Some((key, value)),
{
    let quoted = value.insert(0, quote).push(quote);
    let line = key.push('=') + quoted;
    assert(line.first() == if key.len() > 0 {
        key.first()
    } else {
        '='
    });
    assert(line.last() == quote);
    assert(quoted.first() == quote);
    lemma_trimmed_is_fixed(line, Strip::Whitespace);
    lemma_cut_between(key, '=', quoted);
    lemma_trimmed_is_fixed(key, Strip::Whitespace);
    lemma_trimmed_is_fixed(quoted, Strip::Whitespace);
    lemma_quotes_come_off(value, quote);
    lemma_trimmed_is_fixed(value, Strip::Only('\''));
    if quote == '\'' {
        lemma_trimmed_is_fixed(quoted, Strip::Only('"'));
    }
}

proof fn lemma_quotes_come_off(value: Seq<char>, quote: char)
    requires
        lacks_at_ends(value, quote),
    ensures
        trimmed_of(value.insert(0, quote).push(quote), Strip::Only(quote)) == value,
{
    let quoted = value.insert(0, quote).push(quote);
    let strip = Strip::Only(quote);
    assert(quoted.first() == quote);
    assert(quoted.drop_first() == value.push(quote));
    if value.len() == 0 {
        assert(value.push(quote).drop_first() == value);
        assert(trimmed_start(value, strip) == value);
        assert(trimmed_start(value.push(quote), strip) == value);
    } else {
        assert(value.push(quote).first() == value.first());
        assert(trimmed_start(value.push(quote), strip) == value.push(quote));
        assert(value.push(quote).drop_last() == value);
        assert(trimmed_end(value, strip) == value);
    }
}

/// Of a value, white space comes off at the ends, then double quotes, then single quotes, however
/// many there are; what stands between them is the value, unchanged.
pub proof fn law_quotes_come_off_in_turn(
    a: Seq<char>,
    c: Seq<char>,
    e: Seq<char>,
    core: Seq<char>,
    f: Seq<char>,
    d: Seq<char>,
    b: Seq<char>,
)
    requires
        is_all(a, Strip::Whitespace) && is_all(b, Strip::Whitespace),
        is_all(c, Strip::Only('"')) && is_all(d, Strip::Only('"')),
        is_all(e, Strip::Only('\'')) && is_all(f, Strip::Only('\'')),
        is_bare(core, Strip::Only('\'')),
        is_bare(e + core + f, Strip::Only('"')),
        is_bare(c + (e + core + f) + d, Strip::Whitespace),
    ensures
        unquoted(a + (c + (e + core + f) + d) + b) == core,
{
    law_trimming_leaves_the_core(a, c + (e + core + f) + d, b, Strip::Whitespace);
    law_trimming_leaves_the_core(c, e + core + f, d, Strip::Only('"'));
    law_trimming_leaves_the_core(e, core, f, Strip::Only('\''));
}

/// A line sets what stands in front of its first `=` to what stands behind it: white space around
/// the key makes no difference, and neither does white space in front of the line.
pub proof fn law_line_sets_its_key(
    before: Seq<char>,
    key: Seq<char>,
    between: Seq<char>,
    value: Seq<char>,
)
    requires
        is_all(before, Strip::Whitespace),
        is_plain_key(key),
        is_all(between, Strip::Whitespace),
    ensures
        assignment(before + key + between + seq!['='] + value) == Some((key, unquoted(value))),
{
    let strip = Strip::Whitespace;
    let none = Seq::<char>::empty();
    let line = before + key + between + seq!['='] + value;
    let (va, vt, vb) = lemma_parts_of_trimmed(value, strip);
    // A blank value is taken off with the white space behind the line.
    let kept = if vt.len() > 0 {
        va + vt
    } else {
        none
    };
    let back = if vt.len() > 0 {
        vb
    } else {
        value
    };
    // Without a key, the white space in front of `=` starts the line.
    let front = if key.len() > 0 {
        before
    } else {
        before + between
    };
    let name = if key.len() > 0 {
        key + between
    } else {
        none
    };
    assert(value == kept + back);
    let core = name + seq!['='] + kept;
    assert(line == front + core + back) by {
        if key.len() == 0 {
            assert(before + key + between == before + between);
        }
    }
    assert(is_all(back, strip)) by {
        if vt.len() == 0 {
            assert(value == va + vb);
        }
    }
    assert(core.first() == if key.len() > 0 {
        key.first()
    } else {
        '='
    });
    assert(core.last() == if vt.len() > 0 {
        vt.last()
    } else {
        '='
    });
    law_trimming_leaves_the_core(front, core, back, strip);
    assert(trimmed(line) == core);
    assert(!name.contains('=')) by {
        if name.contains('=') {
            let i = choose|i: int| 0 <= i < name.len() && name[i] == '=';
            if i < key.len() {
                assert(key[i] == '=');
            } else {
                assert(strip.accepts(between[i - key.len()]));
            }
        }
    }
    law_text_is_cut_at_the_first(name, '=', kept);
    law_trimming_leaves_the_core(none, key, if key.len() > 0 {
        between
    } else {
        none
    }, strip);
    assert(none + key + (if key.len() > 0 {
        between
    } else {
        none
    }) == name);
    if vt.len() > 0 {
        law_trimming_leaves_the_core(va, vt, none, strip);
        assert(va + vt + none == kept);
    } else {
        law_trimming_leaves_the_core(none, none, none, strip);
        assert(none + none + none == none);
    }
    assert(trimmed(kept) == trimmed(value));
}

/// Only a line with a `=` sets something, and a comment does not, whatever stands in it.
pub proof fn law_other_lines_set_nothing(before: Seq<char>, rest: Seq<char>, line: Seq<char>)
    requires
        is_all(before, Strip::Whitespace),
        !line.contains('='),
    ensures
        assignment(before + seq!['#'] + rest) is None,
        assignment(line) is None,
{
    let strip = Strip::Whitespace;
    lemma_trimmed_has_bare_ends(line, strip);
    assert(!trimmed(line).contains('='));
    if trimmed(line).len() > 0 {
        law_text_is_cut_at_the_first(trimmed(line), '=', Seq::empty());
    }
    let (a, t, b) = lemma_parts_of_trimmed(seq!['#'] + rest, strip);
    let marked = a + t + b;
    assert(marked[0] == '#');
    if a.len() > 0 {
        assert(strip.accepts(a[0]) && a[0] == marked[0]);
    }
    if t.len() == 0 {
        assert(marked == b);
        assert(strip.accepts(b[0]));
    }
    assert(t.first() == '#');
    let comment = before + seq!['#'] + rest;
    assert(comment == before + t + b) by {
        assert(a + t == t);
        assert(comment == before + (seq!['#'] + rest));
        assert(before + (t + b) == before + t + b);
    }
    law_trimming_leaves_the_core(before, t, b, strip);
}

/// What a settings file says of a key is what its last line says that says something of it: of
/// two parts the later counts, and the earlier where the later says nothing. A single line counts
/// for the key that it sets, and no file says nothing.
pub proof fn law_later_part_counts(
    earlier: Seq<char>,
    later: Seq<char>,
    line: Seq<char>,
    key: Seq<char>,
)
    requires
        !line.contains('\n'),
    ensures
        setting(Some(earlier + seq!['\n'] + later), key) == match setting(Some(later), key) {
            Some(value) => Some(value),
            None => setting(Some(earlier), key),
        },
        setting(Some(line), key) == match assignment(line) {
            Some((set, value)) => if set == key {
                Some(value)
            } else {
                None
            },
            None => None,
        },
        setting(None, key) is None,
{
    assert(earlier + seq!['\n'] + later == earlier.push('\n') + later);
    lemma_lines_of_joined(earlier, later);
    lemma_last_value_of_joined(lines_of(earlier), lines_of(later), key);
    lemma_single_line(line);
    lemma_last_value_of_one(line, key);
}

/// Each setting decides its own field and no other: the key, the language and the device are what
/// the settings file says of them, whatever it says of the others, and the language and the device
/// have a default where it says nothing. Without a key there are no settings. Where the recordings
/// go depends on the home directory alone.
pub proof fn law_each_setting_decides_its_field(home: Seq<char>, contents: Option<Seq<char>>)
    ensures
        config_of(home, contents) is Some <==> setting(contents, "OPENAI_API_KEY"@) is Some,
        config_of(home, contents) matches Some(config) ==> {
            &&& setting(contents, "OPENAI_API_KEY"@) == Some(config.api_key)
            &&& setting(contents, "VOICE_CLIP_LANG"@) matches Some(lang) ==> config.lang == lang
            &&& setting(contents, "VOICE_CLIP_LANG"@) is None ==> config.lang == "nl"@
            &&& setting(contents, "VOICE_CLIP_DEVICE"@) matches Some(device) ==> config.device
                == device
            &&& setting(contents, "VOICE_CLIP_DEVICE"@) is None ==> config.device == "plughw:0,0"@
            &&& config.clips_dir == path_below(home, "voice-clips/clips"@)
        },
{
}

/// Files that say the same of a setting agree on its field, whatever else they say; and the same
/// file gives all users the same settings but for where their recordings go.
pub proof fn law_settings_do_not_interfere(
    home: Seq<char>,
    other: Seq<char>,
    a: Option<Seq<char>>,
    b: Option<Seq<char>>,
)
    requires
        config_of(home, a) is Some,
        config_of(other, b) is Some,
    ensures
        setting(a, API_KEY@) == setting(b, API_KEY@) <==> config_of(home, a)->0.api_key
            == config_of(other, b)->0.api_key,
        setting(a, LANG@) == setting(b, LANG@) ==> config_of(home, a)->0.lang == config_of(
            other,
            b,
        )->0.lang,
        setting(a, DEVICE@) == setting(b, DEVICE@) ==> config_of(home, a)->0.device == config_of(
            other,
            b,
        )->0.device,
        home == other ==> config_of(home, a)->0.clips_dir == config_of(other, b)->0.clips_dir,
{
}

/// Whether `value` is read back as it is written: without quotes and white space at its ends, and
/// on one line.
pub open spec fn is_plain_value(value: Seq<char>) -> bool {
    &&& !value.contains('\n')
    &&& value.len() > 0 ==> {
        &&& value.first() != '"' && value.last() != '"'
        &&& value.first() != '\'' && value.last() != '\''
        &&& !is_space(value.first()) && !is_space(value.last())
    }
}

proof fn lemma_plain_line(key: Seq<char>, value: Seq<char>)
    requires
        is_plain_key(key),
        !key.contains('\n'),
        is_plain_value(value),
    ensures
        assignment(key.push('=') + value) == Some((key, value)),
        !(key.push('=') + value).contains('\n'),
{
    law_assignment_reads_back(key, value);
    let line = key.push('=') + value;
    if line.contains('\n') {
        let i = choose|i: int| 0 <= i < line.len() && line[i] == '\n';
        if i < key.len() {
            assert(key[i] == '\n');
        } else if i > key.len() {
            assert(value[i - key.len() - 1] == '\n');
        }
    }
}

/// A settings file with a line `VOICE_CLIP_DEVICE=value` behind it gives the settings that it gave
/// before with that device in them, and all else as it was; likewise for the language and for the
/// key, with which there are settings in any case.
pub proof fn law_line_behind_changes_its_field_alone(
    home: Seq<char>,
    contents: Seq<char>,
    value: Seq<char>,
)
    requires
        is_plain_value(value),
    ensures
        config_of(home, Some(contents)) matches Some(config) ==> {
            &&& config_of(home, Some(contents + "\nVOICE_CLIP_DEVICE="@ + value)) == Some(
                ConfigView { device: value, ..config },
            )
            &&& config_of(home, Some(contents + "\nVOICE_CLIP_LANG="@ + value)) == Some(
                ConfigView { lang: value, ..config },
            )
            &&& config_of(home, Some(contents + "\nOPENAI_API_KEY="@ + value)) == Some(
                ConfigView { api_key: value, ..config },
            )
        },
        config_of(home, Some(contents)) is None ==> {
            &&& config_of(home, Some(contents + "\nVOICE_CLIP_DEVICE="@ + value)) is None
            &&& config_of(home, Some(contents + "\nVOICE_CLIP_LANG="@ + value)) is None
        },
        config_of(home, Some(contents + "\nOPENAI_API_KEY="@ + value)) matches Some(config)
            && config.api_key == value,
{
    lemma_setting_names_differ();
    reveal_strlit("OPENAI_API_KEY");
    reveal_strlit("VOICE_CLIP_LANG");
    reveal_strlit("VOICE_CLIP_DEVICE");
    reveal_strlit("\nOPENAI_API_KEY=");
    reveal_strlit("\nVOICE_CLIP_LANG=");
    reveal_strlit("\nVOICE_CLIP_DEVICE=");
    lemma_plain_line(DEVICE@, value);
    lemma_plain_line(LANG@, value);
    lemma_plain_line(API_KEY@, value);
    let device = DEVICE@.push('=') + value;
    let lang = LANG@.push('=') + value;
    let api_key = API_KEY@.push('=') + value;
    assert(contents + "\nVOICE_CLIP_DEVICE="@ + value == contents.push('\n') + device);
    assert(contents + "\nVOICE_CLIP_LANG="@ + value == contents.push('\n') + lang);
    assert(contents + "\nOPENAI_API_KEY="@ + value == contents.push('\n') + api_key);
    law_last_assignment_wins(contents, device, DEVICE@, value);
    law_last_assignment_wins(contents, lang, LANG@, value);
    law_last_assignment_wins(contents, api_key, API_KEY@, value);
}

/// The settings file and the recordings stand at fixed places below the home directory.
pub proof fn law_files_stand_below_home(home: Seq<char>, contents: Option<Seq<char>>)
    requires
        home.len() > 0 && home.last() != '/',
    ensures
        env_path_of(home) == home + "/voice-clips/.env"@,
        config_of(home, contents) matches Some(config) ==> config.clips_dir == home
            + "/voice-clips/clips"@,
{
    reveal_strlit("voice-clips/.env");
    reveal_strlit("/voice-clips/.env");
    reveal_strlit("voice-clips/clips");
    reveal_strlit("/voice-clips/clips");
    assert("/voice-clips/.env"@ == seq!['/'] + "voice-clips/.env"@);
    assert("/voice-clips/clips"@ == seq!['/'] + "voice-clips/clips"@);
    law_path_is_base_and_rest(home, ENV_FILE@);
    law_path_is_base_and_rest(home, CLIPS_DIR@);
    assert(home + "/voice-clips/.env"@ == home + seq!['/'] + "voice-clips/.env"@);
    assert(home + "/voice-clips/clips"@ == home + seq!['/'] + "voice-clips/clips"@);
}

/// Why there are no settings is said in so many words, with the path of the settings file in full.
pub proof fn law_config_errors_name_the_file(path: String)
    ensures
        ConfigError::MissingApiKey(path).words() == "OPENAI_API_KEY not found in "@ + path@,
        ConfigError::Unreadable(path).words() == "Failed to read "@ + path@,
{
}

/// What the settings hold is seen of them as it is.
pub proof fn law_config_is_seen_whole(config: Config)
    ensures
        config@.api_key == config.api_key@,
        config@.lang == config.lang@,
        config@.device == config.device@,
        config@.clips_dir == config.clips_dir@,
{
}

} // verus!
