//! Run configuration, the error taxonomy, and candidate-file selection.
//!
//! All timing constants are explicit fields of [`Config`] rather than hidden
//! constants, so a driver or a test can shrink every delay.

use vstd::prelude::*;
use vstd::string::*;

use crate::text::eq_str;

verus! {

/// Configuration of one run. Paths and the target are plain strings; the
/// durations are in milliseconds.
#[derive(Debug, Clone)]
pub struct Config {
    /// Directory holding the candidate batch files.
    pub batch_dir: String,
    /// Target domain with its network port appended.
    pub target_domain: String,
    /// Name of the expected long-running bypass process.
    pub process_name: String,
    /// How long to wait for the expected process to appear.
    pub process_wait_timeout_ms: u64,
    /// Read/write timeout of one probe.
    pub connection_timeout_ms: u64,
}

/// What can go wrong at the top level of a run.
#[derive(Debug, PartialEq, Eq, Clone)]
pub enum AppError {
    IoError(String),
    NetworkError(String),
    /// The candidate directory held no batch file at all.
    NoBatchFiles,
    InputError(String),
}

impl AppError {
    /// The fixed report line for this error.
    pub open spec fn spec_message(self) -> Seq<char> {
        match self {
            AppError::IoError(m) => "IO error: "@ + m@,
            AppError::NetworkError(m) => "Network error: "@ + m@,
            AppError::NoBatchFiles => "Pre-configs not found in directory"@,
            AppError::InputError(m) => "Input error: "@ + m@,
        }
    }

    /// Renders the error as its report line.
    pub fn to_message(&self) -> (r: String)
        ensures
            r@ == self.spec_message(),
    {
        match self {
            AppError::IoError(m) => {
                let mut s = String::from_str("IO error: ");
                s.append(m.as_str());
                s
            },
            AppError::NetworkError(m) => {
                let mut s = String::from_str("Network error: ");
                s.append(m.as_str());
                s
            },
            AppError::NoBatchFiles => String::from_str("Pre-configs not found in directory"),
            AppError::InputError(m) => {
                let mut s = String::from_str("Input error: ");
                s.append(m.as_str());
                s
            },
        }
    }
}

/// Index of the last occurrence of `c` in `s`, or `-1` when there is none.
pub open spec fn last_index_of(s: Seq<char>, c: char) -> int
    decreases s.len(),
{
    if s.len() == 0 {
        -1
    } else if s.last() == c {
        s.len() - 1
    } else {
        last_index_of(s.drop_last(), c)
    }
}

/// The extension of a file name: what follows the last dot, provided the dot
/// is not the leading character (a name that only starts with a dot is a
/// hidden file, not a name with an extension).
pub open spec fn extension_of(name: Seq<char>) -> Option<Seq<char>> {
    let d = last_index_of(name, '.');
    if d >= 1 {
        Some(name.subrange(d + 1, name.len() as int))
    } else {
        None
    }
}

/// A candidate file is one whose extension is exactly `bat`.
pub open spec fn is_batch_name(name: Seq<char>) -> bool {
    extension_of(name) == Some("bat"@)
}

/// Finds the last occurrence of `c` in `s`, returning its index or `None`.
fn find_last_char(s: &str, c: char) -> (r: Option<usize>)
    ensures
        match r {
            Some(i) => i < s@.len() && last_index_of(s@, c) == i as int,
            None => last_index_of(s@, c) == -1,
        },
{
    let n = s.unicode_len();
    proof {
        assert(s@.take(n as int) =~= s@);
    }
    let mut i: usize = n;
    while i > 0
        invariant
            n == s@.len(),
            i <= n,
            last_index_of(s@, c) == last_index_of(s@.take(i as int), c),
        decreases i,
    {
        proof {
            assert(s@.take(i as int).drop_last() =~= s@.take(i - 1));
            assert(s@.take(i as int).last() == s@[i - 1]);
        }
        if s.get_char(i - 1) == c {
            return Some(i - 1);
        }
        i = i - 1;
    }
    None
}

/// Whether `name` names a batch file: its extension is exactly `bat`.
pub fn is_batch_file_name(name: &str) -> (r: bool)
    ensures
        r == is_batch_name(name@),
{
    match find_last_char(name, '.') {
        None => false,
        Some(d) => {
            if d == 0 {
                false
            } else {
                let n = name.unicode_len();
                let ext = name.substring_char(d + 1, n);
                eq_str(ext, "bat")
            }
        },
    }
}

/// The batch files among `names`, in order.
pub open spec fn batch_names_of(names: Seq<String>) -> Seq<String> {
    names.filter(|s: String| is_batch_name(s@))
}

/// Selects the candidate batch files from a directory listing, in listing
/// order. Returns them exactly when there is at least one; an empty
/// selection is the `NoBatchFiles` error.
pub fn select_batch_files(names: &Vec<String>) -> (r: Result<Vec<String>, AppError>)
    ensures
        match r {
            Ok(v) => v@ == batch_names_of(names@) && v@.len() > 0,
            Err(e) => e == AppError::NoBatchFiles && batch_names_of(names@).len() == 0,
        },
{
    let n = names.len();
    let mut out: Vec<String> = Vec::new();
    let mut i: usize = 0;
    while i < n
        invariant
            n == names@.len(),
            i <= n,
            out@ == batch_names_of(names@.take(i as int)),
        decreases n - i,
    {
        proof {
            assert(names@.take(i + 1).drop_last() =~= names@.take(i as int));
            assert(names@.take(i + 1).last() == names@[i as int]);
            reveal(Seq::filter);
        }
        if is_batch_file_name(names[i].as_str()) {
            let entry = names[i].clone();
            out.push(entry);
        }
        i = i + 1;
    }
    proof {
        assert(names@.take(n as int) =~= names@);
    }
    if out.len() == 0 {
        Err(AppError::NoBatchFiles)
    } else {
        Ok(out)
    }
}

} // verus!
