//! The PowerShell probes that check the Windows voices: the script wrapper that
//! turns a failure into a marked line, the encoded command line PowerShell
//! receives, and the reading of a probe's output; and the `Start-Process`
//! commands that launch the GUI and the session worker.
use vstd::prelude::*;

use base64::Engine;

use crate::text::{chars_of, decimal, owned, push_str, string_of, sub_chars, trim, trim_chars};
use crate::voice::{compact_summary, summarize_text};

verus! {

/// The PowerShell executables tried, in order.
pub fn windows_powershell_candidates() -> (r: Vec<&'static str>)
    ensures
        r@.len() == 2,
        r@[0]@ == "powershell.exe"@,
        r@[1]@ == "C:\\Windows\\System32\\WindowsPowerShell\\v1.0\\powershell.exe"@,
{
    let mut r: Vec<&'static str> = Vec::new();
    r.push("powershell.exe");
    r.push("C:\\Windows\\System32\\WindowsPowerShell\\v1.0\\powershell.exe");
    r
}

/// The marker of a failure line in a probe's output.
pub open spec fn error_marker() -> Seq<char> {
    "__LTERR__ "@
}

/// A probe script wrapped so that a failure is printed as a marked line and
/// exits with code 87.
pub open spec fn wrapped_script(script: Seq<char>) -> Seq<char> {
    "$ProgressPreference='SilentlyContinue'; $ErrorActionPreference='Stop'; try { "@ + script
        + " } catch { $msg = $_.Exception.Message; if ($null -ne $_.Exception.InnerException) { $msg = $msg + ' | inner: ' + $_.Exception.InnerException.Message }; Write-Output ('__LTERR__ ' + $msg); exit 87; }"@
}

/// The wrapped probe script.
pub fn wrap_probe_script(script: &str) -> (r: String)
    ensures
        r@ == wrapped_script(script@),
{
    let mut r = owned(
        "$ProgressPreference='SilentlyContinue'; $ErrorActionPreference='Stop'; try { ",
    );
    push_str(&mut r, script);
    push_str(
        &mut r,
        " } catch { $msg = $_.Exception.Message; if ($null -ne $_.Exception.InnerException) { $msg = $msg + ' | inner: ' + $_.Exception.InnerException.Message }; Write-Output ('__LTERR__ ' + $msg); exit 87; }",
    );
    r
}

/// The little-endian bytes of a UTF-16 code unit.
pub open spec fn unit_le(u: int) -> Seq<u8> {
    seq![(u % 256) as u8, (u / 256) as u8]
}

/// The UTF-16LE bytes of one character: one code unit below U+10000, else a
/// surrogate pair.
pub open spec fn char_utf16le(c: char) -> Seq<u8> {
    let u = c as u32 as int;
    if u < 0x10000 {
        unit_le(u)
    } else {
        unit_le(0xD800 + (u - 0x10000) / 0x400) + unit_le(0xDC00 + (u - 0x10000) % 0x400)
    }
}

/// The UTF-16LE encoding of a text (as `str::encode_utf16` with
/// `u16::to_le_bytes` on each unit).
pub open spec fn utf16le(s: Seq<char>) -> Seq<u8>
    decreases s.len(),
{
    if s.len() == 0 {
        Seq::empty()
    } else {
        utf16le(s.drop_last()) + char_utf16le(s.last())
    }
}

fn push_unit(out: &mut Vec<u8>, u: u32)
    requires
        u < 0x10000,
    ensures
        final(out)@ == old(out)@ + unit_le(u as int),
{
    out.push((u % 256) as u8);
    out.push((u / 256) as u8);
    assert(final(out)@ =~= old(out)@ + unit_le(u as int));
}

/// The UTF-16LE encoding of a text.
pub fn utf16le_bytes(s: &str) -> (r: Vec<u8>)
    ensures
        r@ == utf16le(s@),
{
    let v = chars_of(s);
    let mut out: Vec<u8> = Vec::new();
    let mut i: usize = 0;
    assert(v@.subrange(0, 0) =~= Seq::<char>::empty());
    while i < v.len()
        invariant
            i <= v@.len(),
            out@ == utf16le(v@.subrange(0, i as int)),
        decreases v.len() - i,
    {
        assert(v@.subrange(0, i + 1).drop_last() =~= v@.subrange(0, i as int));
        let c = v[i];
        let u = c as u32;
        proof {
            vstd::utf8::char_is_scalar(c);
        }
        if u < 0x10000 {
            push_unit(&mut out, u);
        } else {
            let w = u - 0x10000;
            push_unit(&mut out, 0xD800 + w / 0x400);
            push_unit(&mut out, 0xDC00 + w % 0x400);
        }
        i = i + 1;
    }
    assert(v@.subrange(0, v@.len() as int) =~= v@);
    out
}

/// The character of a 6-bit value in the standard base64 alphabet
/// (`A`-`Z`, `a`-`z`, `0`-`9`, `+`, `/`).
pub open spec fn base64_digit(v: int) -> char {
    if v < 26 {
        (65 + v) as char
    } else if v < 52 {
        (97 + v - 26) as char
    } else if v < 62 {
        (48 + v - 52) as char
    } else if v == 62 {
        '+'
    } else {
        '/'
    }
}

/// The standard base64 encoding (RFC 4648, with `=` padding) of a byte
/// sequence.
pub open spec fn base64_standard(b: Seq<u8>) -> Seq<char>
    decreases b.len(),
{
    if b.len() == 0 {
        Seq::empty()
    } else if b.len() == 1 {
        seq![base64_digit(b[0] as int / 4), base64_digit((b[0] as int % 4) * 16), '=', '=']
    } else if b.len() == 2 {
        seq![
            base64_digit(b[0] as int / 4),
            base64_digit((b[0] as int % 4) * 16 + b[1] as int / 16),
            base64_digit((b[1] as int % 16) * 4),
            '=',
        ]
    } else {
        seq![
            base64_digit(b[0] as int / 4),
            base64_digit((b[0] as int % 4) * 16 + b[1] as int / 16),
            base64_digit((b[1] as int % 16) * 4 + b[2] as int / 64),
            base64_digit(b[2] as int % 64),
        ] + base64_standard(b.subrange(3, b.len() as int))
    }
}

/// `base64::engine::general_purpose::STANDARD.encode`: the standard alphabet
/// with padding. It panics when the encoded length overflows `usize`, which
/// the precondition rules out.
#[verifier::external_body]
fn base64_encode(bytes: &Vec<u8>) -> (r: String)
    requires
        bytes@.len() / 3 * 4 + 4 <= usize::MAX,
    ensures
        r@ == base64_standard(bytes@),
{
    base64::engine::general_purpose::STANDARD.encode(bytes)
}

/// The argument of `-EncodedCommand` that runs `script` wrapped: the base64 of
/// its UTF-16LE encoding.
pub fn encoded_probe_command(script: &str) -> (r: String)
    requires
        utf16le(wrapped_script(script@)).len() / 3 * 4 + 4 <= usize::MAX,
    ensures
        r@ == base64_standard(utf16le(wrapped_script(script@))),
{
    let wrapped = wrap_probe_script(script);
    let bytes = utf16le_bytes(wrapped.as_str());
    base64_encode(&bytes)
}

/// The decimal text of a signed number.
pub open spec fn signed_decimal(n: int) -> Seq<char> {
    if n < 0 {
        "-"@ + decimal((-n) as nat)
    } else {
        decimal(n as nat)
    }
}

/// The decimal text of a signed number (as `Display`).
pub fn i32_to_decimal(n: i32) -> (s: String)
    ensures
        s@ == signed_decimal(n as int),
{
    if n < 0 {
        let m: u64 = (-(n as i64)) as u64;
        let d = crate::text::usize_to_decimal(m as usize);
        let mut s = owned("-");
        push_str(&mut s, d.as_str());
        s
    } else {
        crate::text::usize_to_decimal(n as usize)
    }
}

/// How a process exit status prints with `{:?}`: `Some(code)` or `None`.
pub open spec fn status_text(code: Option<i32>) -> Seq<char> {
    match code {
        Some(c) => "Some("@ + signed_decimal(c as int) + ")"@,
        None => "None"@,
    }
}

/// The outcome of a probe given its output and exit status: the text after
/// the first failure marker (trimmed) is an error; a failed exit is an error
/// quoting both outputs; otherwise the compacted standard output.
pub open spec fn probe_outcome_of(
    stdout: Seq<char>,
    stderr: Seq<char>,
    success: bool,
    code: Option<i32>,
) -> Result<Seq<char>, Seq<char>> {
    match crate::loci_text::find_from(stdout, error_marker(), 0) {
        Some(i) => Err(trim(stdout.subrange(i + error_marker().len(), stdout.len() as int))),
        None => if !success {
            Err(
                "powershell probe failed (status "@ + status_text(code) + "): "@ + compact_summary(
                    stderr,
                    220,
                ) + " "@ + compact_summary(stdout, 180),
            )
        } else {
            Ok(compact_summary(stdout, 220))
        },
    }
}

/// The outcome of a probe.
pub fn probe_outcome(stdout: &str, stderr: &str, success: bool, code: Option<i32>) -> (r: Result<
    String,
    String,
>)
    ensures
        match probe_outcome_of(stdout@, stderr@, success, code) {
            Ok(t) => r matches Ok(s) && s@ == t,
            Err(t) => r matches Err(s) && s@ == t,
        },
{
    let out = chars_of(stdout);
    let marker = chars_of("__LTERR__ ");
    match crate::loci_text::find_first_occurrence(&out, &marker) {
        Some(i) => {
            proof {
                crate::loci_text::lemma_find_from_found(out@, marker@, 0);
                assert(crate::text::occurs_at(out@, marker@, i as int));
            }
            let n = out.len();
            let m = marker.len();
            assert(i + m <= n);
            let start = i + m;
            let rest = sub_chars(&out, start, out.len());
            let t = trim_chars(&rest);
            Err(string_of(&t))
        },
        None => {
            if !success {
                let mut m = owned("powershell probe failed (status ");
                match code {
                    Some(c) => {
                        push_str(&mut m, "Some(");
                        let d = i32_to_decimal(c);
                        push_str(&mut m, d.as_str());
                        push_str(&mut m, ")");
                    },
                    None => push_str(&mut m, "None"),
                }
                push_str(&mut m, "): ");
                let e = summarize_text(stderr, 220);
                push_str(&mut m, e.as_str());
                push_str(&mut m, " ");
                let o = summarize_text(stdout, 180);
                push_str(&mut m, o.as_str());
                Err(m)
            } else {
                Ok(summarize_text(stdout, 220))
            }
        },
    }
}

/// `s` as the body of a single-quoted PowerShell string: each `'` doubled.
pub open spec fn ps_quoted(s: Seq<char>) -> Seq<char>
    decreases s.len(),
{
    if s.len() == 0 {
        s
    } else {
        let rest = ps_quoted(s.drop_last());
        if s.last() == '\'' {
            rest + seq!['\'', '\'']
        } else {
            rest.push(s.last())
        }
    }
}

/// `s` with each `'` doubled, for a single-quoted PowerShell string.
pub fn ps_quote(s: &str) -> (r: String)
    ensures
        r@ == ps_quoted(s@),
{
    let v = chars_of(s);
    let mut out = String::new();
    let mut i: usize = 0;
    while i < v.len()
        invariant
            i <= v@.len(),
            v@ == s@,
            out@ == ps_quoted(v@.subrange(0, i as int)),
        decreases v.len() - i,
    {
        proof {
            assert(v@.subrange(0, i + 1).drop_last() == v@.subrange(0, i as int));
            assert(v@.subrange(0, i + 1).last() == v@[i as int]);
        }
        if v[i] == '\'' {
            crate::text::push_char(&mut out, '\'');
            crate::text::push_char(&mut out, '\'');
            assert(out@ == ps_quoted(v@.subrange(0, i as int)) + seq!['\'', '\'']);
        } else {
            crate::text::push_char(&mut out, v[i]);
        }
        i = i + 1;
    }
    assert(v@.subrange(0, v@.len() as int) == v@);
    out
}

/// The PowerShell command that starts the GUI executable `file` in `workdir`.
pub open spec fn gui_start_script(file: Seq<char>, workdir: Seq<char>) -> Seq<char> {
    "Start-Process -FilePath '"@ + ps_quoted(file) + "' -WorkingDirectory '"@ + ps_quoted(workdir)
        + "'"@
}

/// The PowerShell command that starts the GUI executable `file` in `workdir`.
pub fn gui_start_command(file: &str, workdir: &str) -> (r: String)
    ensures
        r@ == gui_start_script(file@, workdir@),
{
    let mut r = owned("Start-Process -FilePath '");
    push_str(&mut r, ps_quote(file).as_str());
    push_str(&mut r, "' -WorkingDirectory '");
    push_str(&mut r, ps_quote(workdir).as_str());
    push_str(&mut r, "'");
    r
}

/// The PowerShell command that starts the session worker (`exe
/// session-worker`) hidden, in `workdir`.
pub open spec fn worker_start_script(exe: Seq<char>, workdir: Seq<char>) -> Seq<char> {
    "Start-Process -FilePath '"@ + ps_quoted(exe) + "' -ArgumentList 'session-worker' -WorkingDirectory '"@
        + ps_quoted(workdir) + "' -WindowStyle Hidden"@
}

/// The PowerShell command that starts the session worker hidden.
pub fn worker_start_command(exe: &str, workdir: &str) -> (r: String)
    ensures
        r@ == worker_start_script(exe@, workdir@),
{
    let mut r = owned("Start-Process -FilePath '");
    push_str(&mut r, ps_quote(exe).as_str());
    push_str(&mut r, "' -ArgumentList 'session-worker' -WorkingDirectory '");
    push_str(&mut r, ps_quote(workdir).as_str());
    push_str(&mut r, "' -WindowStyle Hidden");
    r
}

} // verus!
