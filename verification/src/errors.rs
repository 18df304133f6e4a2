//! Error data reported by the script engine, and the classification that
//! turns it into the terminal payload a host sees: pick the deepest
//! script-level information available, and point source locations at user
//! code rather than internal bootstrap frames.

use vstd::prelude::*;
use vstd::string::StrSliceExecFns;
use vstd::string::StringExecFns;

verus! {

/// One frame of a script-level stack trace.
#[derive(Debug, Clone, PartialEq, Eq)]
pub struct StackFrame {
    /// Name of the source the frame comes from, when the engine knows it.
    pub file_name: Option<String>,
    pub line_number: Option<i64>,
    pub column_number: Option<i64>,
}

/// A script-level exception: its message and the stack frames it carries.
#[derive(Debug, Clone, PartialEq, Eq)]
pub struct JsErrorData {
    pub exception_message: String,
    pub frames: Vec<StackFrame>,
}

/// An error propagated out of the engine's event loop or module evaluation.
#[derive(Debug, Clone, PartialEq, Eq)]
pub enum EngineError {
    /// A script-level exception was available.
    Js(JsErrorData),
    /// Anything else, reduced to its generic textual form.
    Other(String),
}

/// Whether `s` begins with `prefix`.
pub open spec fn seq_starts_with(s: Seq<char>, prefix: Seq<char>) -> bool {
    s.len() >= prefix.len() && s.subrange(0, prefix.len() as int) == prefix
}

/// `s` with every leading occurrence of the character `c` removed.
pub open spec fn skip_leading(s: Seq<char>, c: char) -> Seq<char>
    decreases s.len(),
{
    if s.len() > 0 && s[0] == c {
        skip_leading(s.drop_first(), c)
    } else {
        s
    }
}

/// `s` with every leading occurrence of the prefix `p` removed.
pub open spec fn strip_repeated_prefix(s: Seq<char>, p: Seq<char>) -> Seq<char>
    decreases s.len(),
{
    if p.len() > 0 && s.len() >= p.len() && seq_starts_with(s, p) {
        strip_repeated_prefix(s.subrange(p.len() as int, s.len() as int), p)
    } else {
        s
    }
}

/// Whether a source name denotes internal infrastructure rather than user
/// code: after any leading bracket characters, it begins with the internal
/// scheme prefix.
pub open spec fn names_internal_source(name: Seq<char>) -> bool {
    seq_starts_with(skip_leading(name, '['), "ext:"@)
}

/// A frame points at user code when it has a source name and that name is
/// not internal infrastructure.
pub open spec fn frame_targets_user_code(f: StackFrame) -> bool {
    match f.file_name {
        Some(n) => !names_internal_source(n@),
        None => false,
    }
}

/// The first frame of `frames` that points at user code, if any.
pub open spec fn first_user_frame(frames: Seq<StackFrame>) -> Option<StackFrame>
    decreases frames.len(),
{
    if frames.len() == 0 {
        None
    } else if frame_targets_user_code(frames[0]) {
        Some(frames[0])
    } else {
        first_user_frame(frames.drop_first())
    }
}

proof fn lemma_skip_leading_is_suffix(s: Seq<char>, c: char, i: int)
    requires
        0 <= i <= s.len(),
        forall|k: int| 0 <= k < i ==> s[k] == c,
        i == s.len() || s[i] != c,
    ensures
        skip_leading(s, c) == s.subrange(i, s.len() as int),
    decreases s.len(),
{
    if i == 0 {
        assert(s.subrange(0, s.len() as int) =~= s);
    } else {
        assert(s[0] == c);
        lemma_skip_leading_is_suffix(s.drop_first(), c, i - 1);
        assert(s.drop_first().subrange(i - 1, s.drop_first().len() as int) =~= s.subrange(
            i,
            s.len() as int,
        ));
    }
}

/// Whatever frame the classification selects points at user code.
pub proof fn lemma_first_user_frame_targets_user_code(frames: Seq<StackFrame>)
    ensures
        match first_user_frame(frames) {
            Some(f) => frame_targets_user_code(f),
            None => true,
        },
    decreases frames.len(),
{
    if frames.len() > 0 && !frame_targets_user_code(frames[0]) {
        lemma_first_user_frame_targets_user_code(frames.drop_first());
    }
}

proof fn lemma_first_user_frame_at(frames: Seq<StackFrame>, i: int)
    requires
        0 <= i < frames.len(),
        frame_targets_user_code(frames[i]),
        forall|j: int| 0 <= j < i ==> !frame_targets_user_code(#[trigger] frames[j]),
    ensures
        first_user_frame(frames) == Some(frames[i]),
    decreases frames.len(),
{
    if i > 0 {
        lemma_first_user_frame_at(frames.drop_first(), i - 1);
    }
}

proof fn lemma_first_user_frame_none(frames: Seq<StackFrame>)
    requires
        forall|j: int| 0 <= j < frames.len() ==> !frame_targets_user_code(#[trigger] frames[j]),
    ensures
        first_user_frame(frames) is None,
    decreases frames.len(),
{
    if frames.len() > 0 {
        lemma_first_user_frame_none(frames.drop_first());
    }
}

/// Returns whether `s` begins with `prefix`.
pub fn str_starts_with(s: &str, prefix: &str) -> (r: bool)
    ensures
        r == seq_starts_with(s@, prefix@),
{
    let n = s.unicode_len();
    let m = prefix.unicode_len();
    if m > n {
        return false;
    }
    let mut i: usize = 0;
    while i < m
        invariant
            0 <= i <= m,
            m <= n,
            m as nat == prefix@.len(),
            n as nat == s@.len(),
            forall|k: int| 0 <= k < i ==> s@[k] == prefix@[k],
        decreases m - i,
    {
        if s.get_char(i) != prefix.get_char(i) {
            assert(!seq_starts_with(s@, prefix@)) by {
                if seq_starts_with(s@, prefix@) {
                    assert(s@.subrange(0, prefix@.len() as int)[i as int] == s@[i as int]);
                }
            }
            return false;
        }
        i += 1;
    }
    assert(s@.subrange(0, prefix@.len() as int) =~= prefix@);
    true
}

/// Decides whether a frame's source name denotes internal infrastructure.
pub fn is_internal_source_name(name: &str) -> (r: bool)
    ensures
        r == names_internal_source(name@),
{
    let len = name.unicode_len();
    let mut i: usize = 0;
    while i < len && name.get_char(i) == '['
        invariant
            0 <= i <= len,
            len as nat == name@.len(),
            forall|k: int| 0 <= k < i ==> name@[k] == '[',
        decreases len - i,
    {
        i += 1;
    }
    proof {
        lemma_skip_leading_is_suffix(name@, '[', i as int);
    }
    let rest = name.substring_char(i, len);
    str_starts_with(rest, "ext:")
}

/// Finds the index of the first stack frame that points at user code.
pub fn find_user_frame(frames: &Vec<StackFrame>) -> (r: Option<usize>)
    ensures
        match r {
            Some(i) => i < frames@.len() && first_user_frame(frames@) == Some(frames@[i as int]),
            None => first_user_frame(frames@) is None,
        },
{
    let n = frames.len();
    let mut i: usize = 0;
    while i < n
        invariant
            0 <= i <= n,
            n == frames@.len(),
            forall|j: int| 0 <= j < i ==> !frame_targets_user_code(#[trigger] frames@[j]),
        decreases n - i,
    {
        let matches_user = match &frames[i].file_name {
            Some(name) => !is_internal_source_name(name.as_str()),
            None => false,
        };
        if matches_user {
            proof {
                lemma_first_user_frame_at(frames@, i as int);
            }
            return Some(i);
        }
        i += 1;
    }
    proof {
        lemma_first_user_frame_none(frames@);
    }
    None
}

/// Strips every leading occurrence of `prefix` from `s`.
pub fn strip_repeated_prefix_str<'a>(s: &'a str, prefix: &str) -> (r: &'a str)
    requires
        prefix@.len() > 0,
    ensures
        r@ == strip_repeated_prefix(s@, prefix@),
{
    let m = prefix.unicode_len();
    let mut rest = s;
    while str_starts_with(rest, prefix)
        invariant
            m as nat == prefix@.len(),
            m > 0,
            strip_repeated_prefix(s@, prefix@) == strip_repeated_prefix(rest@, prefix@),
        decreases rest@.len(),
    {
        let len = rest.unicode_len();
        rest = rest.substring_char(m, len);
    }
    rest
}

/// The message a host logs for an uncaught worker error: the worker's name
/// and the error text, with any repeated leading `Uncaught ` marker removed
/// from the text first.
pub fn uncaught_error_message(name: &str, error_text: &str) -> (r: String)
    ensures
        r@ == "Uncaught (in worker \""@ + name@ + "\") "@ + strip_repeated_prefix(
            error_text@,
            "Uncaught "@,
        ),
{
    proof {
        reveal_strlit("Uncaught ");
    }
    let trimmed = strip_repeated_prefix_str(error_text, "Uncaught ");
    let mut out = String::from_str("Uncaught (in worker \"");
    out.append(name);
    out.append("\") ");
    out.append(trimmed);
    out
}

} // verus!
