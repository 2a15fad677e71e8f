//! Editing of the user `PATH` value: adding the executable's directory while
//! the GUI runs and taking it out again. Entries compare case-insensitively,
//! without surrounding quotes and trailing separators. Also the shell shims
//! that make `localtrans` callable: the PowerShell profile block and the `cmd`
//! AutoRun entry, each installed at most once.
use vstd::prelude::*;

use crate::governance::{opt_view, views};
use crate::text::{
    chars_of, contains, contains_str, fields, join, join_strings, lemma_fields_shape, lemma_segments_join,
    lemma_trim_idempotent, lower, lower_chars, owned, push_str, seq_eq, split_fields, string_of, trim, trim_chars,
    trimmed_nonempty,
};

verus! {

/// `s` without the leading characters equal to `c`.
pub open spec fn strip_leading(s: Seq<char>, c: char) -> Seq<char>
    decreases s.len(),
{
    if s.len() > 0 && s[0] == c {
        strip_leading(s.drop_first(), c)
    } else {
        s
    }
}

/// `s` without the trailing characters equal to `c`.
pub open spec fn strip_trailing(s: Seq<char>, c: char) -> Seq<char>
    decreases s.len(),
{
    if s.len() > 0 && s.last() == c {
        strip_trailing(s.drop_last(), c)
    } else {
        s
    }
}

/// The comparison key of a `PATH` entry.
pub open spec fn path_key(p: Seq<char>) -> Seq<char> {
    lower(
        strip_trailing(
            strip_trailing(strip_trailing(strip_leading(trim(p), '"'), '"'), '\\'),
            '/',
        ),
    )
}

/// The entries of a `PATH` value.
pub open spec fn path_entries(path: Seq<char>) -> Seq<Seq<char>> {
    fields(path, seq![';'])
}

/// The entries whose key differs from `key`, in order.
pub open spec fn entries_without(items: Seq<Seq<char>>, key: Seq<char>) -> Seq<Seq<char>>
    decreases items.len(),
{
    if items.len() == 0 {
        Seq::empty()
    } else {
        let rest = entries_without(items.drop_last(), key);
        if path_key(items.last()) == key {
            rest
        } else {
            rest.push(items.last())
        }
    }
}

proof fn lemma_strip_leading_from(s: Seq<char>, c: char, i: int)
    requires
        0 <= i <= s.len(),
        forall|k: int| 0 <= k < i ==> s[k] == c,
    ensures
        strip_leading(s, c) == strip_leading(s.subrange(i, s.len() as int), c),
    decreases i,
{
    if i > 0 {
        assert(s.drop_first() == s.subrange(1, s.len() as int));
        lemma_strip_leading_from(s.drop_first(), c, i - 1);
        assert(s.drop_first().subrange(i - 1, s.drop_first().len() as int) == s.subrange(
            i,
            s.len() as int,
        ));
    } else {
        assert(s.subrange(0, s.len() as int) == s);
    }
}

proof fn lemma_strip_trailing_to(s: Seq<char>, c: char, j: int)
    requires
        0 <= j <= s.len(),
        forall|k: int| j <= k < s.len() ==> s[k] == c,
    ensures
        strip_trailing(s, c) == strip_trailing(s.subrange(0, j), c),
    decreases s.len() - j,
{
    if j < s.len() {
        assert(s.drop_last() == s.subrange(0, s.len() - 1));
        lemma_strip_trailing_to(s.drop_last(), c, j);
        assert(s.drop_last().subrange(0, j) == s.subrange(0, j));
    } else {
        assert(s.subrange(0, j) == s);
    }
}

/// `v` without its leading characters equal to `c`.
pub fn strip_leading_chars(v: &Vec<char>, c: char) -> (r: Vec<char>)
    ensures
        r@ == strip_leading(v@, c),
{
    let mut i: usize = 0;
    while i < v.len() && v[i] == c
        invariant
            i <= v.len(),
            forall|k: int| 0 <= k < i ==> v@[k] == c,
        decreases v.len() - i,
    {
        i = i + 1;
    }
    proof {
        lemma_strip_leading_from(v@, c, i as int);
        let t = v@.subrange(i as int, v@.len() as int);
        if t.len() > 0 {
            assert(t[0] == v@[i as int]);
        }
        assert(strip_leading(t, c) == t);
    }
    crate::text::sub_chars(v, i, v.len())
}

/// `v` without its trailing characters equal to `c`.
pub fn strip_trailing_chars(v: &Vec<char>, c: char) -> (r: Vec<char>)
    ensures
        r@ == strip_trailing(v@, c),
{
    let mut j: usize = v.len();
    while j > 0 && v[j - 1] == c
        invariant
            j <= v.len(),
            forall|k: int| j <= k < v@.len() ==> v@[k] == c,
        decreases j,
    {
        j = j - 1;
    }
    proof {
        lemma_strip_trailing_to(v@, c, j as int);
        let t = v@.subrange(0, j as int);
        if t.len() > 0 {
            assert(t.last() == v@[j - 1]);
        }
        assert(strip_trailing(t, c) == t);
    }
    crate::text::sub_chars(v, 0, j)
}

/// The comparison key of a `PATH` entry: trimmed, unquoted, without trailing
/// `\` and `/`, lowercase.
pub fn normalize_path(p: &str) -> (r: Vec<char>)
    ensures
        r@ == path_key(p@),
{
    let v = chars_of(p);
    let t = trim_chars(&v);
    let a = strip_leading_chars(&t, '"');
    let b = strip_trailing_chars(&a, '"');
    let c = strip_trailing_chars(&b, '\\');
    let d = strip_trailing_chars(&c, '/');
    lower_chars(&d)
}

/// The entries of a `PATH` value: its `;`-separated parts, trimmed, without
/// empty ones.
pub fn split_path(path: &str) -> (r: Vec<String>)
    ensures
        views(r@) == path_entries(path@),
{
    let mut seps: Vec<char> = Vec::new();
    seps.push(';');
    assert(seps@ =~= seq![';']);
    split_fields(path, &seps)
}

/// A `PATH` value made of the given entries.
pub fn join_path(items: &Vec<String>) -> (r: String)
    ensures
        r@ == join(views(items@), ";"@),
{
    join_strings(items, ";")
}

fn has_key(items: &Vec<String>, key: &Vec<char>) -> (b: bool)
    ensures
        b == exists|i: int| 0 <= i < items@.len() && path_key(items@[i]@) == key@,
{
    let mut i: usize = 0;
    while i < items.len()
        invariant
            i <= items@.len(),
            forall|k: int| 0 <= k < i ==> path_key(items@[k]@) != key@,
        decreases items.len() - i,
    {
        let n = normalize_path(items[i].as_str());
        if seq_eq(&n, key) {
            return true;
        }
        i = i + 1;
    }
    false
}

/// The `PATH` value with `dir` added at the end, or `None` when an entry
/// already names it.
pub fn add_dir_to_user_path(current: &str, dir: &str) -> (r: Option<String>)
    ensures
        match r {
            None => exists|i: int|
                0 <= i < path_entries(current@).len() && path_key(path_entries(current@)[i])
                    == path_key(dir@),
            Some(v) => (forall|i: int|
                0 <= i < path_entries(current@).len() ==> path_key(path_entries(current@)[i])
                    != path_key(dir@)) && v@ == join(path_entries(current@).push(dir@), ";"@),
        },
{
    let mut items = split_path(current);
    let needle = normalize_path(dir);
    if has_key(&items, &needle) {
        proof {
            let i = choose|i: int| 0 <= i < items@.len() && path_key(items@[i]@) == needle@;
            assert(views(items@)[i] == items@[i]@);
        }
        return None;
    }
    proof {
        assert forall|i: int| 0 <= i < path_entries(current@).len() implies path_key(
            path_entries(current@)[i],
        ) != path_key(dir@) by {
            assert(views(items@)[i] == items@[i]@);
        }
    }
    let ghost before = views(items@);
    items.push(string_of(&chars_of(dir)));
    assert(views(items@) =~= before.push(dir@));
    Some(join_path(&items))
}

/// The `PATH` value without the entries that name `dir`.
pub fn remove_dir_from_user_path(current: &str, dir: &str) -> (r: String)
    ensures
        r@ == join(entries_without(path_entries(current@), path_key(dir@)), ";"@),
{
    let items = split_path(current);
    let needle = normalize_path(dir);
    let mut kept: Vec<String> = Vec::new();
    let mut i: usize = 0;
    while i < items.len()
        invariant
            i <= items@.len(),
            views(kept@) == entries_without(views(items@).subrange(0, i as int), needle@),
        decreases items.len() - i,
    {
        let n = normalize_path(items[i].as_str());
        let ghost ps = views(items@);
        proof {
            assert(ps.subrange(0, i + 1).drop_last() == ps.subrange(0, i as int));
            assert(ps.subrange(0, i + 1).last() == items@[i as int]@);
        }
        if !seq_eq(&n, &needle) {
            let ghost before = views(kept@);
            kept.push(items[i].clone());
            assert(views(kept@) =~= before.push(items@[i as int]@));
        }
        i = i + 1;
    }
    assert(views(items@).subrange(0, items@.len() as int) == views(items@));
    join_path(&kept)
}

proof fn lemma_entries_without_none(items: Seq<Seq<char>>, key: Seq<char>)
    requires
        forall|i: int| 0 <= i < items.len() ==> path_key(#[trigger] items[i]) != key,
    ensures
        entries_without(items, key) == items,
    decreases items.len(),
{
    if items.len() > 0 {
        let init = items.drop_last();
        assert forall|i: int| 0 <= i < init.len() implies path_key(#[trigger] init[i]) != key by {
            assert(init[i] == items[i]);
        }
        lemma_entries_without_none(init, key);
        assert(path_key(items[items.len() - 1]) != key);
        assert(init.push(items.last()) =~= items);
    }
}

/// The entries of `current` with `dir` added at the end: `dir` shows up
/// trimmed, and not at all when it is blank.
pub proof fn lemma_path_entries_after_add(current: Seq<char>, dir: Seq<char>)
    requires
        !dir.contains(';'),
    ensures
        path_entries(join(path_entries(current).push(dir), ";"@)) == (if trim(dir).len() > 0 {
            path_entries(current).push(trim(dir))
        } else {
            path_entries(current)
        }),
{
    reveal_strlit(";");
    let ps = path_entries(current);
    let all = ps.push(dir);
    lemma_fields_shape(current, seq![';']);
    assert forall|i: int| 0 <= i < all.len() implies !(#[trigger] all[i]).contains(';') by {
        if i < ps.len() {
            assert(all[i] == ps[i]);
            if ps[i].contains(';') {
                let k = choose|k: int| 0 <= k < ps[i].len() && ps[i][k] == ';';
                assert(seq![';'].contains(ps[i][k])) by {
                    assert(seq![';'][0] == ';');
                }
            }
        } else {
            assert(all[i] == dir);
        }
    }
    assert(";"@ == seq![';']);
    lemma_segments_join(all, ';');
    assert(all.drop_last() == ps);
    crate::text::lemma_trimmed_nonempty_fixed(ps);
    assert(trimmed_nonempty(all) == (if trim(dir).len() > 0 {
        ps.push(trim(dir))
    } else {
        ps
    }));
}

/// Adding a directory to `PATH` and then removing it again gives back the
/// entries that were there before. It holds for every directory name without
/// a `;` that no entry names yet (the case in which adding changes `PATH`).
pub proof fn lemma_path_add_then_remove(current: Seq<char>, dir: Seq<char>)
    requires
        !dir.contains(';'),
        forall|i: int|
            0 <= i < path_entries(current).len() ==> path_key(#[trigger] path_entries(current)[i])
                != path_key(dir),
    ensures
        join(
            entries_without(path_entries(join(path_entries(current).push(dir), ";"@)), path_key(dir)),
            ";"@,
        ) == join(path_entries(current), ";"@),
{
    let ps = path_entries(current);
    lemma_path_entries_after_add(current, dir);
    lemma_entries_without_none(ps, path_key(dir));
    if trim(dir).len() > 0 {
        lemma_trim_idempotent(dir);
        assert(path_key(trim(dir)) == path_key(dir));
        assert(ps.push(trim(dir)).drop_last() == ps);
    }
}

/// Adding a directory whose name is not blank and holds no `;` leaves an entry
/// that names it, so adding it a second time changes nothing.
pub proof fn lemma_path_add_once(current: Seq<char>, dir: Seq<char>)
    requires
        !dir.contains(';'),
        trim(dir).len() > 0,
    ensures
        exists|i: int|
            0 <= i < path_entries(join(path_entries(current).push(dir), ";"@)).len() && path_key(
                #[trigger] path_entries(join(path_entries(current).push(dir), ";"@))[i],
            ) == path_key(dir),
{
    let ps = path_entries(current);
    lemma_path_entries_after_add(current, dir);
    lemma_trim_idempotent(dir);
    let after = ps.push(trim(dir));
    assert(after[ps.len() as int] == trim(dir));
    assert(path_key(trim(dir)) == path_key(dir));
    assert(path_key(path_entries(join(ps.push(dir), ";"@))[ps.len() as int]) == path_key(dir));
}

/// The line that marks the `localtrans` shim in a PowerShell profile.
pub open spec fn shim_marker() -> Seq<char> {
    "# >>> localtrans shim >>>"@
}

/// The block appended to a PowerShell profile: a `localtrans` function that
/// runs the executable named by the active marker file, or the one on the
/// `PATH`.
pub open spec fn powershell_shim() -> Seq<char> {
    r#"
# >>> localtrans shim >>>
function localtrans {
  param([Parameter(ValueFromRemainingArguments = $true)] $Args)
  $marker = Join-Path $env:USERPROFILE ".localtrans\runtime\active_exe_path.txt"
  if (Test-Path $marker) {
    $exe = (Get-Content $marker -Raw).Trim()
    if ($exe -and (Test-Path $exe)) {
      & $exe @Args
      return
    }
  }
  $cmd = Get-Command localtrans.exe -CommandType Application -ErrorAction SilentlyContinue
  if ($cmd) { & $cmd.Source @Args; return }
  Write-Error "localtrans executable not found."
}
Set-Alias localtrans.exe localtrans -Scope Global
# <<< localtrans shim <<<
"#@
}

/// The profile text with the shim appended on a line of its own, unless the
/// profile already holds the shim (then `None`: nothing to write).
pub open spec fn profile_with_shim_text(existing: Seq<char>) -> Option<Seq<char>> {
    if contains(existing, shim_marker()) {
        None
    } else if existing.len() > 0 && existing.last() == '\n' {
        Some(existing + powershell_shim())
    } else {
        Some(existing.push('\n') + powershell_shim())
    }
}

/// The PowerShell profile with the `localtrans` shim installed, or `None` when
/// it is installed already.
pub fn profile_with_shim(existing: &str) -> (r: Option<String>)
    ensures
        opt_view(r) == profile_with_shim_text(existing@),
{
    let v = chars_of(existing);
    if contains_str(&v, "# >>> localtrans shim >>>") {
        return None;
    }
    let mut merged = owned(existing);
    if !(v.len() > 0 && v[v.len() - 1] == '\n') {
        crate::text::push_char(&mut merged, '\n');
    }
    push_str(&mut merged, r#"
# >>> localtrans shim >>>
function localtrans {
  param([Parameter(ValueFromRemainingArguments = $true)] $Args)
  $marker = Join-Path $env:USERPROFILE ".localtrans\runtime\active_exe_path.txt"
  if (Test-Path $marker) {
    $exe = (Get-Content $marker -Raw).Trim()
    if ($exe -and (Test-Path $exe)) {
      & $exe @Args
      return
    }
  }
  $cmd = Get-Command localtrans.exe -CommandType Application -ErrorAction SilentlyContinue
  if ($cmd) { & $cmd.Source @Args; return }
  Write-Error "localtrans executable not found."
}
Set-Alias localtrans.exe localtrans -Scope Global
# <<< localtrans shim <<<
"#);
    Some(merged)
}

/// Installing the shim twice installs it once: a profile with the shim
/// appended holds the shim.
pub proof fn lemma_profile_shim_once(existing: Seq<char>)
    ensures
        profile_with_shim_text(existing) matches Some(p) ==> profile_with_shim_text(p) is None,
{
    reveal_strlit(r#"
# >>> localtrans shim >>>
function localtrans {
  param([Parameter(ValueFromRemainingArguments = $true)] $Args)
  $marker = Join-Path $env:USERPROFILE ".localtrans\runtime\active_exe_path.txt"
  if (Test-Path $marker) {
    $exe = (Get-Content $marker -Raw).Trim()
    if ($exe -and (Test-Path $exe)) {
      & $exe @Args
      return
    }
  }
  $cmd = Get-Command localtrans.exe -CommandType Application -ErrorAction SilentlyContinue
  if ($cmd) { & $cmd.Source @Args; return }
  Write-Error "localtrans executable not found."
}
Set-Alias localtrans.exe localtrans -Scope Global
# <<< localtrans shim <<<
"#);
    reveal_strlit("# >>> localtrans shim >>>");
    if let Some(p) = profile_with_shim_text(existing) {
        let shim = powershell_shim();
        let m = shim_marker();
        let pre = (p.len() - shim.len()) as int;
        assert(p.subrange(pre, p.len() as int) == shim);
        assert(shim.subrange(1, 1 + m.len() as int) =~= m);
        assert(p.subrange(pre + 1, pre + 1 + m.len()) =~= m);
        assert(crate::text::occurs_at(p, m, pre + 1));
    }
}

/// The command that the `cmd` AutoRun value runs: the doskey script, quoted.
pub open spec fn autorun_call(script_path: Seq<char>) -> Seq<char> {
    "\""@ + script_path + "\""@
}

/// The `cmd` AutoRun value that also runs the doskey script: the call alone
/// when the value is blank, else appended with ` & `; `None` when the value
/// already runs it.
pub open spec fn autorun_with_call_text(existing: Seq<char>, script_path: Seq<char>) -> Option<Seq<char>> {
    if contains(existing, autorun_call(script_path)) {
        None
    } else if trim(existing).len() == 0 {
        Some(autorun_call(script_path))
    } else {
        Some(existing + " & "@ + autorun_call(script_path))
    }
}

/// The `cmd` AutoRun value that runs the doskey script at `script_path`, or
/// `None` when it runs it already.
pub fn autorun_with_call(existing: &str, script_path: &str) -> (r: Option<String>)
    ensures
        opt_view(r) == autorun_with_call_text(existing@, script_path@),
{
    let mut call = owned("\"");
    push_str(&mut call, script_path);
    push_str(&mut call, "\"");
    let v = chars_of(existing);
    let c = chars_of(call.as_str());
    if crate::text::contains_chars(&v, &c) {
        return None;
    }
    if trim_chars(&v).len() == 0 {
        return Some(call);
    }
    let mut out = owned(existing);
    push_str(&mut out, " & ");
    push_str(&mut out, call.as_str());
    Some(out)
}

/// Registering the doskey script twice registers it once: the updated value
/// runs it.
pub proof fn lemma_autorun_once(existing: Seq<char>, script_path: Seq<char>)
    ensures
        autorun_with_call_text(existing, script_path) matches Some(v) ==> autorun_with_call_text(v, script_path) is None,
{
    if let Some(v) = autorun_with_call_text(existing, script_path) {
        let call = autorun_call(script_path);
        let at = (v.len() - call.len()) as int;
        assert(v.subrange(at, v.len() as int) =~= call);
        assert(crate::text::occurs_at(v, call, at));
    }
}

} // verus!
