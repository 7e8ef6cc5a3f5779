//! Path computation: the per-user application-data directory, the engine
//! checkout path beneath it, and the filename arithmetic of the
//! transcription pipeline.
//!
//! Paths are carried as plain strings. A path's filename component is the
//! text after the last separator once trailing separators are dropped;
//! `.`, `..` and the empty remainder count as "no filename", as for a root
//! path. Extension rewriting keeps a leading dot with no later dot, so a
//! bare dotfile name gains `.wav` instead of losing its name.

use crate::model::Error;
use vstd::prelude::*;

verus! {

/// The end of `s` with trailing `/` characters removed: the least index
/// such that every character from it on is `/`.
pub open spec fn trimmed_end(s: Seq<char>) -> int
    decreases s.len(),
{
    if s.len() > 0 && s[s.len() - 1] == '/' {
        trimmed_end(s.drop_last())
    } else {
        s.len() as int
    }
}

/// The start of the last path component of `s`: the index right after the
/// last `/`, or `0` when `s` holds none.
pub open spec fn component_start(s: Seq<char>) -> int
    decreases s.len(),
{
    if s.len() == 0 {
        0
    } else if s[s.len() - 1] == '/' {
        s.len() as int
    } else {
        component_start(s.drop_last())
    }
}

/// The index of the last `.` in `s`, or `-1` when `s` holds none.
pub open spec fn last_dot(s: Seq<char>) -> int
    decreases s.len(),
{
    if s.len() == 0 {
        -1
    } else if s[s.len() - 1] == '.' {
        s.len() - 1
    } else {
        last_dot(s.drop_last())
    }
}

pub proof fn lemma_trimmed_end_bounds(s: Seq<char>)
    ensures
        0 <= trimmed_end(s) <= s.len(),
    decreases s.len(),
{
    if s.len() > 0 && s[s.len() - 1] == '/' {
        lemma_trimmed_end_bounds(s.drop_last());
    }
}

pub proof fn lemma_component_start_bounds(s: Seq<char>)
    ensures
        0 <= component_start(s) <= s.len(),
    decreases s.len(),
{
    if s.len() > 0 && s[s.len() - 1] != '/' {
        lemma_component_start_bounds(s.drop_last());
    }
}

pub proof fn lemma_last_dot_bounds(s: Seq<char>)
    ensures
        -1 <= last_dot(s) < s.len(),
    decreases s.len(),
{
    if s.len() > 0 && s[s.len() - 1] != '.' {
        lemma_last_dot_bounds(s.drop_last());
    }
}

/// The filename component of `path`: the text after the last `/` once
/// trailing `/` are dropped; `None` when that text is empty, `.` or `..`.
pub open spec fn file_name_spec(path: Seq<char>) -> Option<Seq<char>> {
    let t = path.subrange(0, trimmed_end(path));
    let n = t.subrange(component_start(t), t.len() as int);
    if n.len() == 0 || n == seq!['.'] || n == seq!['.', '.'] {
        None
    } else {
        Some(n)
    }
}

/// The end of the file stem of filename `name`: everything up to the last
/// `.`, except that a `.` at the start (or none at all) keeps the whole
/// name.
pub open spec fn stem_end(name: Seq<char>) -> int {
    if last_dot(name) <= 0 {
        name.len() as int
    } else {
        last_dot(name)
    }
}

/// Filename `name` with its extension rewritten to `.wav`.
pub open spec fn wav_name_spec(name: Seq<char>) -> Seq<char> {
    name.subrange(0, stem_end(name)) + ".wav"@
}

/// `dir` and `name` joined with a single separator.
pub open spec fn join_spec(dir: Seq<char>, name: Seq<char>) -> Seq<char> {
    dir + "/"@ + name
}

fn trimmed_end_exec(s: &str) -> (e: usize)
    ensures
        e == trimmed_end(s@),
    decreases s@.len(),
{
    let n = s.unicode_len();
    if n > 0 && s.get_char(n - 1) == '/' {
        let rest = s.substring_char(0, n - 1);
        proof {
            assert(rest@ =~= s@.drop_last());
        }
        trimmed_end_exec(rest)
    } else {
        n
    }
}

fn component_start_exec(s: &str) -> (k: usize)
    ensures
        k == component_start(s@),
    decreases s@.len(),
{
    let n = s.unicode_len();
    if n == 0 {
        0
    } else if s.get_char(n - 1) == '/' {
        n
    } else {
        let rest = s.substring_char(0, n - 1);
        proof {
            assert(rest@ =~= s@.drop_last());
        }
        component_start_exec(rest)
    }
}

fn last_dot_exec(s: &str) -> (r: Option<usize>)
    ensures
        r matches Some(i) ==> last_dot(s@) == i,
        r is None ==> last_dot(s@) == -1,
    decreases s@.len(),
{
    let n = s.unicode_len();
    if n == 0 {
        None
    } else if s.get_char(n - 1) == '.' {
        Some(n - 1)
    } else {
        let rest = s.substring_char(0, n - 1);
        proof {
            assert(rest@ =~= s@.drop_last());
        }
        last_dot_exec(rest)
    }
}

/// Returns the filename component of `path`, or `None` when `path` has
/// none.
pub fn file_name(path: &str) -> (r: Option<String>)
    ensures
        r is Some <==> file_name_spec(path@) is Some,
        r matches Some(n) ==> file_name_spec(path@) == Some(n@),
{
    proof {
        lemma_trimmed_end_bounds(path@);
    }
    let e = trimmed_end_exec(path);
    let t = path.substring_char(0, e);
    proof {
        lemma_component_start_bounds(t@);
    }
    let k = component_start_exec(t);
    let tn = t.unicode_len();
    let n = t.substring_char(k, tn);
    let ln = n.unicode_len();
    if ln == 0 {
        None
    } else if ln == 1 && n.get_char(0) == '.' {
        proof {
            assert(n@ =~= seq!['.']);
        }
        None
    } else if ln == 2 && n.get_char(0) == '.' && n.get_char(1) == '.' {
        proof {
            assert(n@ =~= seq!['.', '.']);
        }
        None
    } else {
        proof {
            if n@ == seq!['.'] {
                assert(n@.len() == 1 && n@[0] == '.');
            }
            if n@ == seq!['.', '.'] {
                assert(n@.len() == 2 && n@[0] == '.' && n@[1] == '.');
            }
        }
        Some(n.to_owned())
    }
}

/// Returns filename `name` with its extension rewritten to `.wav`.
pub fn wav_name(name: &str) -> (r: String)
    ensures
        r@ == wav_name_spec(name@),
{
    proof {
        lemma_last_dot_bounds(name@);
    }
    let e: usize = match last_dot_exec(name) {
        Some(i) => if i > 0 {
            i
        } else {
            name.unicode_len()
        },
        None => name.unicode_len(),
    };
    let stem = name.substring_char(0, e);
    stem.to_owned().concat(".wav")
}

/// Returns `dir` and `name` joined with a single separator.
pub fn join(dir: &str, name: &str) -> (r: String)
    ensures
        r@ == join_spec(dir@, name@),
{
    let mut s = dir.to_owned();
    s.append("/");
    s.append(name);
    s
}

/// A sequence keeps its suffix when another sequence is prepended.
pub proof fn lemma_concat_keeps_suffix(a: Seq<char>, b: Seq<char>, n: int)
    requires
        0 <= n <= b.len(),
    ensures
        (a + b).subrange((a + b).len() - n, (a + b).len() as int) == b.subrange(
            b.len() - n,
            b.len() as int,
        ),
{
    assert((a + b).subrange((a + b).len() - n, (a + b).len() as int) =~= b.subrange(
        b.len() - n,
        b.len() as int,
    ));
}

/// Every name the pipeline derives for the normalized file ends in `.wav`.
pub proof fn lemma_wav_name_suffix(name: Seq<char>)
    ensures
        wav_name_spec(name).len() >= 4,
        wav_name_spec(name).subrange(
            wav_name_spec(name).len() - 4,
            wav_name_spec(name).len() as int,
        ) == ".wav"@,
{
    reveal_strlit(".wav");
    lemma_last_dot_bounds(name);
    let w = wav_name_spec(name);
    assert(w.subrange(w.len() - 4, w.len() as int) =~= ".wav"@);
}

/// A joined path keeps the suffix of its final component.
pub proof fn lemma_join_keeps_suffix(dir: Seq<char>, name: Seq<char>, n: int)
    requires
        0 <= n <= name.len(),
    ensures
        join_spec(dir, name).len() >= name.len(),
        join_spec(dir, name).subrange(
            join_spec(dir, name).len() - n,
            join_spec(dir, name).len() as int,
        ) == name.subrange(name.len() - n, name.len() as int),
{
    lemma_concat_keeps_suffix(dir + "/"@, name, n);
}

/// Relies on `directories::ProjectDirs::from` and `ProjectDirs::data_dir`:
/// resolves the OS-conventional application-data directory for the
/// qualifier triple ("me", "fdionisi", "whisper-cli"), `None` when no
/// viable user profile directory exists on the host. The result depends on
/// the process environment, so nothing is promised of its value.
#[verifier::external_body]
pub(crate) fn app_data_dir() -> (r: Option<String>) {
    directories::ProjectDirs::from("me", "fdionisi", "whisper-cli").map(
        |d| d.data_dir().to_string_lossy().into_owned(),
    )
}

/// The engine checkout path under a resolved application-data directory.
pub fn repository_under(data_dir: &str) -> (r: String)
    ensures
        r@ == join_spec(data_dir@, "whisper.cpp"@),
{
    join(data_dir, "whisper.cpp")
}

/// Resolves the engine checkout path: the application-data directory with
/// `whisper.cpp` joined beneath it. `Err(EnvironmentError)` exactly when
/// the application-data root cannot be determined. Creating the data
/// directory itself is filesystem work and is emitted by the driver as an
/// action for the process shell.
pub fn repository() -> (r: Result<String, Error>)
    ensures
        r matches Ok(p) ==> exists|d: Seq<char>| p@ == join_spec(d, "whisper.cpp"@),
        r matches Err(e) ==> e == Error::EnvironmentError,
{
    match app_data_dir() {
        Some(d) => {
            let p = repository_under(d.as_str());
            proof {
                assert(p@ == join_spec(d@, "whisper.cpp"@));
            }
            Ok(p)
        },
        None => Err(Error::EnvironmentError),
    }
}

/// The two lines of the `info` report: a heading and the resolved engine
/// checkout path.
pub fn info_lines(path: &str) -> (r: (String, String))
    ensures
        r.0@ == "Directories:"@,
        r.1@ == "  whisper.cpp: "@ + path@,
{
    let mut second = String::from_str("  whisper.cpp: ");
    second.append(path);
    (String::from_str("Directories:"), second)
}

} // verus!
