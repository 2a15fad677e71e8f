//! Small commands: the greeting, the version record, the text statistics of a
//! file, and the PATH registration guard of the GUI mode.
use vstd::prelude::*;

use crate::error::AppResult;
use crate::loci_text::count_where;
use crate::text::{chars_of, owned, push_str, string_of};

verus! {

/// The greeting.
pub struct HelloOutput {
    pub message: String,
}

/// Greets `name`.
pub fn hello(name: String) -> (r: AppResult<HelloOutput>)
    ensures
        r matches Ok(h) && h.message@ == "Hello, "@ + name@ + "!"@,
{
    let mut message = owned("Hello, ");
    push_str(&mut message, name.as_str());
    push_str(&mut message, "!");
    Ok(HelloOutput { message })
}

/// The application's name and version.
pub struct VersionOutput {
    pub app: String,
    pub version: String,
}

/// The statistics of a text file.
pub struct ProcessFileOutput {
    pub path: String,
    pub line_count: usize,
    pub char_count: usize,
    pub byte_count: usize,
}

/// `s` with every `\r\n` replaced by `\n` (as `str::replace`, left to right).
pub open spec fn unix_eol(s: Seq<char>) -> Seq<char>
    decreases s.len(),
{
    if s.len() == 0 {
        s
    } else if s.len() >= 2 && s[0] == '\r' && s[1] == '\n' {
        seq!['\n'] + unix_eol(s.subrange(2, s.len() as int))
    } else {
        seq![s[0]] + unix_eol(s.drop_first())
    }
}

/// The number of lines `str::lines` yields: one per line ending, plus one for a
/// last line without one.
pub open spec fn line_count(s: Seq<char>) -> nat {
    count_where(s, |c: char| c == '\n') + if s.len() > 0 && s.last() != '\n' {
        1nat
    } else {
        0nat
    }
}

fn to_unix_eol(v: &Vec<char>) -> (r: Vec<char>)
    ensures
        r@ == unix_eol(v@),
{
    let mut r: Vec<char> = Vec::new();
    let mut i: usize = 0;
    assert(v@.subrange(0, v@.len() as int) =~= v@);
    assert(r@ + unix_eol(v@) =~= unix_eol(v@));
    while i < v.len()
        invariant
            i <= v@.len(),
            r@ + unix_eol(v@.subrange(i as int, v@.len() as int)) == unix_eol(v@),
        decreases v.len() - i,
    {
        let ghost rest = v@.subrange(i as int, v@.len() as int);
        if i + 1 < v.len() && v[i] == '\r' && v[i + 1] == '\n' {
            assert(rest.subrange(2, rest.len() as int) =~= v@.subrange(i + 2, v@.len() as int));
            r.push('\n');
            i = i + 2;
        } else {
            assert(rest.drop_first() =~= v@.subrange(i + 1, v@.len() as int));
            r.push(v[i]);
            i = i + 1;
        }
    }
    assert(v@.subrange(v@.len() as int, v@.len() as int) =~= Seq::<char>::empty());
    assert(v@.subrange(0, v@.len() as int) =~= v@);
    r
}

fn count_lines(v: &Vec<char>) -> (n: usize)
    ensures
        n == line_count(v@),
{
    let mut n: usize = 0;
    let mut i: usize = 0;
    assert(v@.subrange(0, 0) =~= Seq::<char>::empty());
    while i < v.len()
        invariant
            i <= v@.len(),
            n <= i,
            n == count_where(v@.subrange(0, i as int), |c: char| c == '\n'),
        decreases v.len() - i,
    {
        assert(v@.subrange(0, i + 1).drop_last() =~= v@.subrange(0, i as int));
        if v[i] == '\n' {
            n = n + 1;
        }
        i = i + 1;
    }
    assert(v@.subrange(0, v@.len() as int) =~= v@);
    if v.len() > 0 && v[v.len() - 1] != '\n' {
        proof {
            crate::loci_text::lemma_count_where_le(v@.drop_last(), |c: char| c == '\n');
        }
        n = n + 1;
    }
    n
}

/// The statistics of a file's text, once its line endings are made `\n`: its
/// lines (as `str::lines` counts them), its characters and its UTF-8 bytes.
/// `path` is the canonical path the text was read from.
pub fn file_stats(path: String, content: &str) -> (r: AppResult<ProcessFileOutput>)
    ensures
        r matches Ok(o) && {
            &&& o.path@ == path@
            &&& o.line_count == line_count(unix_eol(content@))
            &&& o.char_count == unix_eol(content@).len()
            &&& o.byte_count == vstd::utf8::encode_utf8(unix_eol(content@)).len() as usize
        },
{
    let v = chars_of(content);
    let normalized = to_unix_eol(&v);
    let line_count = count_lines(&normalized);
    let text = string_of(&normalized);
    let byte_count = text.as_str().len();
    Ok(ProcessFileOutput { path, line_count, char_count: normalized.len(), byte_count })
}

/// The guard of the GUI mode's PATH registration. Registering the executable's
/// directory in the user PATH is a Windows feature; elsewhere the guard holds
/// nothing and registers nothing.
pub struct TempPathGuard;

/// Registers the executable's directory for the GUI mode (nothing to do outside
/// Windows).
pub fn register_for_gui_mode() -> (g: TempPathGuard) {
    TempPathGuard
}

} // verus!
