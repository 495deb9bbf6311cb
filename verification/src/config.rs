//! The shape of the configuration file after decoding, and the verified
//! string normalization its interpretation rests on. Decoding the file
//! format itself (and reading it from disk) is the surrounding program's
//! business; the interpretation of the decoded values lives here.
use vstd::prelude::*;

pub mod state;

verus! {

/// A decoded configuration file: every section and every setting may be
/// absent, and string-valued settings arrive as the user wrote them.
#[derive(Debug, Clone, PartialEq)]
pub struct ConfigFile {
    pub general_settings: Option<GeneralSettingsFile>,
    pub nlu: Option<NluFile>,
    pub window: Option<WindowFile>,
}

/// The `general-settings` section as written.
#[derive(Debug, Clone, PartialEq)]
pub struct GeneralSettingsFile {
    pub default_mode: Option<String>,
    pub log_level: Option<String>,
    pub units: Option<String>,
}

/// The `natural-language-understanding` section as written.
#[derive(Debug, Clone, PartialEq)]
pub struct NluFile {
    pub stt: Option<SpeechToTextFile>,
}

/// The `speech-to-text` subsection as written.
#[derive(Debug, Clone, PartialEq)]
pub struct SpeechToTextFile {
    pub source: Option<String>,
    pub kara_config: Option<SttKaraFile>,
}

/// The local backend's subsection as written.
#[derive(Debug, Clone, PartialEq)]
pub struct SttKaraFile {
    pub model_path: Option<String>,
}

/// The `window` section as written; `opacity` is in hundredths (100 is
/// fully opaque).
#[derive(Debug, Clone, PartialEq)]
pub struct WindowFile {
    pub opacity: Option<u32>,
    pub decorations: Option<bool>,
    pub title: Option<String>,
}

/// The code point a character compares as under ASCII case folding: an
/// ASCII capital letter folds to its small form, everything else is itself.
pub open spec fn lower_code(c: char) -> int {
    if 65 <= c as int <= 90 {
        c as int + 32
    } else {
        c as int
    }
}

/// ASCII case-insensitive equality of two character sequences.
pub open spec fn eq_nocase(a: Seq<char>, b: Seq<char>) -> bool {
    &&& a.len() == b.len()
    &&& forall|i: int| 0 <= i < a.len() ==> lower_code(a[i]) == lower_code(b[i])
}

/// The whitespace the trimming strips: space, tab, line feed, carriage
/// return.
pub open spec fn is_space(c: char) -> bool {
    c == ' ' || c == '\t' || c == '\n' || c == '\r'
}

/// The sequence with its leading whitespace stripped.
pub open spec fn trim_front(s: Seq<char>) -> Seq<char>
    decreases s.len(),
{
    if s.len() > 0 && is_space(s[0]) {
        trim_front(s.skip(1))
    } else {
        s
    }
}

/// The sequence with its trailing whitespace stripped.
pub open spec fn trim_back(s: Seq<char>) -> Seq<char>
    decreases s.len(),
{
    if s.len() > 0 && is_space(s.last()) {
        trim_back(s.drop_last())
    } else {
        s
    }
}

/// The sequence with whitespace stripped from both ends.
pub open spec fn trimmed(s: Seq<char>) -> Seq<char> {
    trim_back(trim_front(s))
}

/// ASCII case folding of one character's code point, as executable code.
fn char_lower_code(c: char) -> (r: u32)
    ensures
        r as int == lower_code(c),
{
    let code = c as u32;
    if 65 <= code && code <= 90 {
        code + 32
    } else {
        code
    }
}

/// Whether a character is trimmed whitespace, as executable code.
fn is_space_exec(c: char) -> (r: bool)
    ensures
        r == is_space(c),
{
    c == ' ' || c == '\t' || c == '\n' || c == '\r'
}

/// Strips whitespace from both ends of a string slice.
pub fn trim_str(s: &str) -> (t: &str)
    ensures
        t@ == trimmed(s@),
{
    let n = s.unicode_len();
    let mut lo: usize = 0;
    proof {
        assert(s@.skip(0) =~= s@);
    }
    while lo < n && is_space_exec(s.get_char(lo))
        invariant
            lo <= n,
            n == s@.len(),
            trim_front(s@) == trim_front(s@.skip(lo as int)),
        decreases n - lo,
    {
        proof {
            assert(s@.skip(lo as int).skip(1) =~= s@.skip(lo + 1));
        }
        lo = lo + 1;
    }
    let ghost t0 = trim_front(s@);
    proof {
        if lo == n {
            assert(s@.skip(lo as int).len() == 0);
        }
        assert(t0 == s@.skip(lo as int));
        assert(s@.skip(lo as int) =~= s@.subrange(lo as int, n as int));
    }
    let mut hi: usize = n;
    while hi > lo && is_space_exec(s.get_char(hi - 1))
        invariant
            lo <= hi <= n,
            n == s@.len(),
            t0 == trim_front(s@),
            trim_back(t0) == trim_back(s@.subrange(lo as int, hi as int)),
        decreases hi,
    {
        proof {
            let sub = s@.subrange(lo as int, hi as int);
            assert(sub.last() == s@[hi - 1]);
            assert(sub.drop_last() =~= s@.subrange(lo as int, hi - 1));
        }
        hi = hi - 1;
    }
    let t = s.substring_char(lo, hi);
    proof {
        let sub = s@.subrange(lo as int, hi as int);
        if hi == lo {
            assert(sub.len() == 0);
        }
        assert(trim_back(sub) == sub);
        assert(t@ == trimmed(s@));
    }
    t
}

/// ASCII case-insensitive equality of two string slices.
pub fn eq_ignore_case(a: &str, b: &str) -> (r: bool)
    ensures
        r == eq_nocase(a@, b@),
{
    let na = a.unicode_len();
    let nb = b.unicode_len();
    if na != nb {
        return false;
    }
    let mut i: usize = 0;
    while i < na
        invariant
            i <= na,
            na == a@.len(),
            na == b@.len(),
            forall|j: int| 0 <= j < i ==> lower_code(a@[j]) == lower_code(b@[j]),
        decreases na - i,
    {
        let ca = char_lower_code(a.get_char(i));
        let cb = char_lower_code(b.get_char(i));
        if ca != cb {
            return false;
        }
        i = i + 1;
    }
    true
}

} // verus!
