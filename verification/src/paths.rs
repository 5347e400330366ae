//! Where the daemon keeps its files.

use vstd::prelude::*;

verus! {

/// The socket on which the daemon listens.
pub const SOCKET_PATH: &'static str = "/tmp/voice-clip.sock";

/// The file that holds the process id of the running daemon.
pub const PID_PATH: &'static str = "/tmp/voice-clip.pid";

/// The file that exists while a recording runs, for status bars to look at.
pub const REC_MARKER: &'static str = "/tmp/voice-clip.recording";

/// The settings file, below the home directory.
pub const ENV_FILE: &'static str = "voice-clips/.env";

/// The directory of the recordings, below the home directory.
pub const CLIPS_DIR: &'static str = "voice-clips/clips";

/// The path of `rest`, a relative path, below `base`.
pub open spec fn path_below(base: Seq<char>, rest: Seq<char>) -> Seq<char> {
    if base.len() == 0 || base.last() == '/' {
        base + rest
    } else {
        base.push('/') + rest
    }
}

/// The path of `rest`, a relative path, below `base`.
pub fn join_path(base: &str, rest: &str) -> (path: String)
    ensures
        path@ == path_below(base@, rest@),
        base@.len() == 0 || base@.last() == '/' ==> path@ == base@ + rest@,
        base@.len() > 0 && base@.last() != '/' ==> path@ == base@ + seq!['/'] + rest@,
{
    let n: usize = base.unicode_len();
    let mut path = base.to_owned();
    if n > 0 && base.get_char(n - 1) != '/' {
        path.append("/");
        proof {
            reveal_strlit("/");
            assert(path@ == base@.push('/'));
        }
    }
    path.append(rest);
    assert(base@.push('/') + rest@ == base@ + seq!['/'] + rest@);
    path
}

/// Below a directory stands its path, then what is below it, whole and unchanged, with one
/// separator between the two: the directory's own where its path ends in one. It makes no
/// difference whether it does.
pub proof fn law_path_is_base_and_rest(base: Seq<char>, rest: Seq<char>)
    ensures
        base.len() > 0 && base.last() != '/' ==> path_below(base, rest) == base + seq!['/'] + rest,
        path_below(base.push('/'), rest) == base + seq!['/'] + rest,
        path_below(Seq::empty(), rest) == rest,
{
    assert(base.push('/') + rest == base + seq!['/'] + rest);
    assert(Seq::<char>::empty() + rest == rest);
}

/// Different files in one directory have different paths.
pub proof fn law_paths_are_unique(base: Seq<char>, a: Seq<char>, b: Seq<char>)
    requires
        path_below(base, a) == path_below(base, b),
    ensures
        a == b,
{
    let whole = path_below(base, a);
    if base.len() == 0 || base.last() == '/' {
        assert(whole.skip(base.len() as int) == a);
        assert(whole.skip(base.len() as int) == b);
    } else {
        assert(whole.skip(base.len() as int + 1) == a);
        assert(whole.skip(base.len() as int + 1) == b);
    }
}

} // verus!
