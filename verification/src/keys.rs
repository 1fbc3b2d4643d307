//! Rewriting of `.env` files: the `update-keys` command sets `KEY=VALUE` lines and keeps
//! every other line as it was.
use vstd::prelude::*;
use crate::config::{env_key_list, env_keys};
use crate::text::{
    chars_eq, chars_of, contains, find_char_from, has_prefix_at, index_of, join, join_strs,
    occurs_at, push_char, push_range, skip_space, starts_with, str_eq, string_of_range, trim,
    trim_bounds, trim_start,
};

verus! {

/// True when `line`, after leading white space, starts with `key` followed by optional
/// white space and `=`.
pub open spec fn defines_key(line: Seq<char>, key: Seq<char>) -> bool {
    let t = trim_start(line);
    &&& starts_with(t, key)
    &&& trim_start(t.subrange(key.len() as int, t.len() as int)).len() > 0
    &&& trim_start(t.subrange(key.len() as int, t.len() as int))[0] == '='
}

/// `s` without one pair of matching surrounding quotes (double or single), if it has one.
pub open spec fn unquoted(s: Seq<char>) -> Seq<char> {
    if s.len() >= 2 && ((s[0] == '"' && s.last() == '"') || (s[0] == '\'' && s.last() == '\'')) {
        s.subrange(1, s.len() - 1)
    } else {
        s
    }
}

/// True when every character of `s` is an ASCII digit.
pub open spec fn all_digits(s: Seq<char>) -> bool {
    forall|i: int| 0 <= i < s.len() ==> '0' <= #[trigger] s[i] <= '9'
}

/// `s` with each backslash doubled and each double quote preceded by a backslash.
pub open spec fn escaped(s: Seq<char>) -> Seq<char>
    decreases s.len(),
{
    if s.len() == 0 {
        seq![]
    } else {
        escaped(s.drop_last()) + escaped_char(s.last())
    }
}

/// How one character is written inside double quotes.
pub open spec fn escaped_char(c: char) -> Seq<char> {
    if c == '\\' {
        seq!['\\', '\\']
    } else if c == '"' {
        seq!['\\', '"']
    } else {
        seq![c]
    }
}

/// The line that sets `key` to `value`: unquoted for a numeric `CHALLENGE_TRAILER`, in
/// escaped double quotes otherwise.
pub open spec fn rendered(key: Seq<char>, value: Seq<char>) -> Seq<char> {
    if key == "CHALLENGE_TRAILER"@ && value.len() > 0 && all_digits(value) {
        key + seq!['='] + value
    } else {
        key + seq!['=', '"'] + escaped(value) + seq!['"']
    }
}

/// The line that starts at `i` and ends at `j` (a line break, or the end of `s`): a `\r`
/// right before a line break is not part of the line.
pub open spec fn line_at(s: Seq<char>, i: int, j: int) -> Seq<char> {
    if j < s.len() && j > i && s[j - 1] == '\r' {
        s.subrange(i, j - 1)
    } else {
        s.subrange(i, j)
    }
}

/// The lines of `s` that follow once a line started at `start` and `i` has been reached.
pub open spec fn lines_scan(s: Seq<char>, start: int, i: int) -> Seq<Seq<char>>
    decreases s.len() - i,
{
    if i >= s.len() {
        if start < s.len() {
            seq![line_at(s, start, s.len() as int)]
        } else {
            seq![]
        }
    } else if s[i] == '\n' {
        seq![line_at(s, start, i)] + lines_scan(s, i + 1, i + 1)
    } else {
        lines_scan(s, start, i + 1)
    }
}

/// The lines of `s` (`str::lines`): split at `\n`, a `\r` before a `\n` dropped, no empty
/// line after a final line break.
pub open spec fn lines(s: Seq<char>) -> Seq<Seq<char>> {
    lines_scan(s, 0, 0)
}

/// A pair of views of the strings of an update.
pub open spec fn update_view(u: (String, String)) -> (Seq<char>, Seq<char>) {
    (u.0@, u.1@)
}

/// The views of a list of updates.
pub open spec fn updates_view(us: Seq<(String, String)>) -> Seq<(Seq<char>, Seq<char>)> {
    us.map_values(|u: (String, String)| update_view(u))
}

/// The first update, at or after `k`, whose key `line` defines.
pub open spec fn first_defined_from(
    line: Seq<char>,
    ups: Seq<(Seq<char>, Seq<char>)>,
    k: int,
) -> Option<int>
    decreases ups.len() - k,
{
    if k < 0 || k >= ups.len() {
        None
    } else if defines_key(line, ups[k].0) {
        Some(k)
    } else {
        first_defined_from(line, ups, k + 1)
    }
}

/// The first update whose key `line` defines.
pub open spec fn first_defined(line: Seq<char>, ups: Seq<(Seq<char>, Seq<char>)>) -> Option<int> {
    first_defined_from(line, ups, 0)
}

/// What a line of the existing file becomes: the first update it defines, rendered, or
/// the line itself; either way followed by a line break.
pub open spec fn merged_line(line: Seq<char>, ups: Seq<(Seq<char>, Seq<char>)>) -> Seq<char> {
    match first_defined(line, ups) {
        Some(k) => rendered(ups[k].0, ups[k].1).push('\n'),
        None => line.push('\n'),
    }
}

/// The first `n` lines of the file, merged.
pub open spec fn merged_prefix(
    ls: Seq<Seq<char>>,
    ups: Seq<(Seq<char>, Seq<char>)>,
    n: int,
) -> Seq<char>
    decreases n,
{
    if n <= 0 {
        seq![]
    } else {
        merged_prefix(ls, ups, n - 1) + merged_line(ls[n - 1], ups)
    }
}

/// True when some line among `ls` replaced update `k`.
pub open spec fn update_used(ls: Seq<Seq<char>>, ups: Seq<(Seq<char>, Seq<char>)>, k: int) -> bool {
    exists|j: int| 0 <= j < ls.len() && first_defined(#[trigger] ls[j], ups) == Some(k)
}

/// The updates among the first `n` that no line replaced, each rendered on a line of its
/// own, in the order given.
pub open spec fn appended_prefix(
    ls: Seq<Seq<char>>,
    ups: Seq<(Seq<char>, Seq<char>)>,
    n: int,
) -> Seq<char>
    decreases n,
{
    if n <= 0 {
        seq![]
    } else {
        appended_prefix(ls, ups, n - 1) + if update_used(ls, ups, n - 1) {
            seq![]
        } else {
            rendered(ups[n - 1].0, ups[n - 1].1).push('\n')
        }
    }
}

/// The rewritten file: each existing line merged, then the updates no line replaced.
pub open spec fn merged(existing: Seq<char>, ups: Seq<(Seq<char>, Seq<char>)>) -> Seq<char> {
    let ls = lines(existing);
    merged_prefix(ls, ups, ls.len() as int) + appended_prefix(ls, ups, ups.len() as int)
}

fn defines_range(v: &Vec<char>, lo: usize, hi: usize, key: &Vec<char>) -> (r: bool)
    requires
        lo <= hi <= v@.len(),
    ensures
        r == defines_key(v@.subrange(lo as int, hi as int), key@),
{
    let t0 = skip_space(v, lo, hi);
    let ghost t = v@.subrange(t0 as int, hi as int);
    if !has_prefix_at(v, t0, hi, key) {
        return false;
    }
    let after = t0 + key.len();
    assert(t.subrange(key@.len() as int, t.len() as int) =~= v@.subrange(after as int, hi as int));
    let r = skip_space(v, after, hi);
    if r < hi {
        assert(v@.subrange(r as int, hi as int)[0] == v@[r as int]);
        v[r] == '='
    } else {
        false
    }
}

/// True when `line` sets `key`: after leading white space it starts with `key`, then
/// optional white space and `=`.
pub fn defines(line: &str, key: &str) -> (r: bool)
    ensures
        r == defines_key(line@, key@),
{
    let v = chars_of(line);
    assert(v@.subrange(0, v@.len() as int) =~= v@);
    defines_range(&v, 0, v.len(), &chars_of(key))
}

/// `value` without one pair of matching surrounding quotes, if it has one.
pub fn unquote(value: &str) -> (r: String)
    ensures
        r@ == unquoted(value@),
{
    let v = chars_of(value);
    let n = v.len();
    if n >= 2 && ((v[0] == '"' && v[n - 1] == '"') || (v[0] == '\'' && v[n - 1] == '\'')) {
        string_of_range(&v, 1, n - 1)
    } else {
        assert(v@.subrange(0, n as int) =~= v@);
        string_of_range(&v, 0, n)
    }
}

fn all_digit_chars(v: &Vec<char>) -> (r: bool)
    ensures
        r == all_digits(v@),
{
    let mut i: usize = 0;
    while i < v.len()
        invariant
            i <= v@.len(),
            forall|j: int| 0 <= j < i ==> '0' <= #[trigger] v@[j] <= '9',
        decreases v.len() - i,
    {
        if !('0' <= v[i] && v[i] <= '9') {
            return false;
        }
        i += 1;
    }
    true
}

fn push_escaped(s: &mut String, v: &Vec<char>)
    ensures
        final(s)@ == old(s)@ + escaped(v@),
{
    let ghost start = s@;
    let mut i: usize = 0;
    while i < v.len()
        invariant
            i <= v@.len(),
            s@ == start + escaped(v@.subrange(0, i as int)),
        decreases v.len() - i,
    {
        let c = v[i];
        let ghost before = s@;
        if c == '\\' {
            push_char(s, '\\');
            push_char(s, '\\');
        } else if c == '"' {
            push_char(s, '\\');
            push_char(s, '"');
        } else {
            push_char(s, c);
        }
        assert(v@.subrange(0, i + 1).drop_last() =~= v@.subrange(0, i as int));
        assert(s@ =~= before + escaped_char(c));
        i += 1;
    }
    assert(v@.subrange(0, v@.len() as int) =~= v@);
}

/// The `.env` line that sets `key` to `value`.
pub fn render(key: &str, value: &str) -> (r: String)
    ensures
        r@ == rendered(key@, value@),
{
    let vv = chars_of(value);
    let mut s = key.to_owned();
    if str_eq(key, "CHALLENGE_TRAILER") && vv.len() > 0 && all_digit_chars(&vv) {
        push_char(&mut s, '=');
        s.append(value);
        assert(s@ =~= rendered(key@, value@));
        return s;
    }
    push_char(&mut s, '=');
    push_char(&mut s, '"');
    push_escaped(&mut s, &vv);
    push_char(&mut s, '"');
    assert(s@ =~= rendered(key@, value@));
    s
}


/// Merging a prefix of the lines ignores the lines after it.
proof fn lemma_merged_prefix_push(
    ls: Seq<Seq<char>>,
    x: Seq<char>,
    ups: Seq<(Seq<char>, Seq<char>)>,
    n: int,
)
    requires
        0 <= n <= ls.len(),
    ensures
        merged_prefix(ls.push(x), ups, n) == merged_prefix(ls, ups, n),
    decreases n,
{
    if n > 0 {
        lemma_merged_prefix_push(ls, x, ups, n - 1);
        assert(ls.push(x)[n - 1] == ls[n - 1]);
    }
}

fn first_defined_index(
    v: &Vec<char>,
    lo: usize,
    hi: usize,
    keys: &Vec<Vec<char>>,
    Ghost(ups): Ghost<Seq<(Seq<char>, Seq<char>)>>,
) -> (r: Option<usize>)
    requires
        lo <= hi <= v@.len(),
        keys@.len() == ups.len(),
        forall|k: int| 0 <= k < ups.len() ==> (#[trigger] keys@[k])@ == ups[k].0,
    ensures
        r matches Some(k) ==> first_defined(v@.subrange(lo as int, hi as int), ups) == Some(
            k as int,
        ),
        r is None ==> first_defined(v@.subrange(lo as int, hi as int), ups) is None,
        r matches Some(k) ==> k < keys@.len(),
{
    let ghost line = v@.subrange(lo as int, hi as int);
    let mut k: usize = 0;
    while k < keys.len()
        invariant
            lo <= hi <= v@.len(),
            line == v@.subrange(lo as int, hi as int),
            keys@.len() == ups.len(),
            forall|k: int| 0 <= k < ups.len() ==> (#[trigger] keys@[k])@ == ups[k].0,
            k <= keys@.len(),
            first_defined(line, ups) == first_defined_from(line, ups, k as int),
        decreases keys.len() - k,
    {
        if defines_range(v, lo, hi, &keys[k]) {
            return Some(k);
        }
        k += 1;
    }
    None
}

fn merge_line(
    out: &mut String,
    written: &mut Vec<bool>,
    ev: &Vec<char>,
    start: usize,
    e: usize,
    keys: &Vec<Vec<char>>,
    updates: &Vec<(String, String)>,
    Ghost(done): Ghost<Seq<Seq<char>>>,
)
    requires
        start <= e <= ev@.len(),
        keys@.len() == updates@.len(),
        forall|j: int|
            0 <= j < updates@.len() ==> (#[trigger] keys@[j])@ == updates_view(updates@)[j].0,
        old(written)@.len() == updates@.len(),
        old(out)@ == merged_prefix(done, updates_view(updates@), done.len() as int),
        forall|j: int|
            0 <= j < updates@.len() ==> (#[trigger] old(written)@[j]) == update_used(
                done,
                updates_view(updates@),
                j,
            ),
    ensures
        final(written)@.len() == updates@.len(),
        final(out)@ == merged_prefix(
            done.push(ev@.subrange(start as int, e as int)),
            updates_view(updates@),
            done.len() + 1int,
        ),
        forall|j: int|
            0 <= j < updates@.len() ==> (#[trigger] final(written)@[j]) == update_used(
                done.push(ev@.subrange(start as int, e as int)),
                updates_view(updates@),
                j,
            ),
{
    let ghost ups = updates_view(updates@);
    let ghost n = updates@.len();
    let ghost line = ev@.subrange(start as int, e as int);
    let ghost nd = done.push(line);
    let fd = first_defined_index(ev, start, e, keys, Ghost(ups));
    match fd {
        Some(k) => {
            let rl = render(updates[k].0.as_str(), updates[k].1.as_str());
            out.append(rl.as_str());
            push_char(out, '\n');
            written.set(k, true);
        },
        None => {
            push_range(out, ev, start, e);
            push_char(out, '\n');
        },
    }
    proof {
        lemma_merged_prefix_push(done, line, ups, done.len() as int);
        assert(nd[done.len() as int] == line);
        assert(out@ =~= merged_prefix(nd, ups, nd.len() as int));
        assert forall|j: int| 0 <= j < n implies (#[trigger] written@[j]) == update_used(
            nd,
            ups,
            j,
        ) by {
            if first_defined(line, ups) == Some(j) {
                assert(nd[done.len() as int] == line);
            }
            if update_used(nd, ups, j) {
                let w = choose|w: int|
                    0 <= w < nd.len() && first_defined(#[trigger] nd[w], ups) == Some(j);
                if w < done.len() {
                    assert(done[w] == nd[w]);
                }
            }
            if update_used(done, ups, j) {
                let w = choose|w: int|
                    0 <= w < done.len() && first_defined(#[trigger] done[w], ups) == Some(j);
                assert(nd[w] == done[w]);
            }
        }
    }
}

/// The existing file with every line that defines an updated key replaced by the rendered
/// update (the first update whose key it defines) and the updates that replaced no line
/// appended, each on a line of its own.
pub fn merge(existing: &str, updates: &Vec<(String, String)>) -> (r: String)
    ensures
        r@ == merged(existing@, updates_view(updates@)),
{
    let ghost ups = updates_view(updates@);
    let ghost s = existing@;
    let ev = chars_of(existing);
    let n = updates.len();
    let mut keys: Vec<Vec<char>> = Vec::new();
    let mut written: Vec<bool> = Vec::new();
    let mut k: usize = 0;
    while k < n
        invariant
            n == updates@.len(),
            ups == updates_view(updates@),
            k <= n,
            keys@.len() == k,
            written@.len() == k,
            forall|j: int| 0 <= j < k ==> (#[trigger] keys@[j])@ == ups[j].0,
            forall|j: int| 0 <= j < k ==> !(#[trigger] written@[j]),
        decreases n - k,
    {
        keys.push(chars_of(updates[k].0.as_str()));
        written.push(false);
        k += 1;
    }
    let mut out = String::new();
    let mut start: usize = 0;
    let mut i: usize = 0;
    let ghost mut done: Seq<Seq<char>> = seq![];
    while i < ev.len()
        invariant
            ev@ == s,
            s == existing@,
            n == updates@.len(),
            ups == updates_view(updates@),
            keys@.len() == n,
            forall|j: int| 0 <= j < n ==> (#[trigger] keys@[j])@ == ups[j].0,
            written@.len() == n,
            start <= i <= ev@.len(),
            lines(s) == done + lines_scan(s, start as int, i as int),
            out@ == merged_prefix(done, ups, done.len() as int),
            forall|j: int| 0 <= j < n ==> (#[trigger] written@[j]) == update_used(done, ups, j),
        decreases ev@.len() - i,
    {
        if ev[i] == '\n' {
            let e = if i > start && ev[i - 1] == '\r' {
                i - 1
            } else {
                i
            };
            let ghost line = s.subrange(start as int, e as int);
            assert(line == line_at(s, start as int, i as int));
            merge_line(&mut out, &mut written, &ev, start, e, &keys, updates, Ghost(done));
            proof {
                assert(lines(s) =~= done.push(line) + lines_scan(s, i + 1, i + 1));
                done = done.push(line);
            }
            start = i + 1;
        }
        i += 1;
    }
    if start < ev.len() {
        let ghost line = s.subrange(start as int, ev@.len() as int);
        assert(line == line_at(s, start as int, s.len() as int));
        merge_line(&mut out, &mut written, &ev, start, ev.len(), &keys, updates, Ghost(done));
        proof {
            assert(lines(s) =~= done.push(line));
            done = done.push(line);
        }
    } else {
        assert(lines(s) =~= done);
    }
    let ghost ls = lines(s);
    let ghost head = out@;
    let mut k: usize = 0;
    while k < n
        invariant
            n == updates@.len(),
            ups == updates_view(updates@),
            ups.len() == n,
            ls == lines(s),
            written@.len() == n,
            forall|j: int| 0 <= j < n ==> (#[trigger] written@[j]) == update_used(ls, ups, j),
            k <= n,
            out@ == head + appended_prefix(ls, ups, k as int),
        decreases n - k,
    {
        if !written[k] {
            let rl = render(updates[k].0.as_str(), updates[k].1.as_str());
            out.append(rl.as_str());
            push_char(&mut out, '\n');
        }
        k += 1;
        assert(out@ =~= head + appended_prefix(ls, ups, k as int));
    }
    out
}


/// The usage line printed when no update is given.
pub open spec fn usage_text() -> Seq<char> {
    "usage: grok-server update-keys KEY=VALUE [KEY=VALUE ...]"@
}

/// What one `KEY=VALUE` argument asks for: the trimmed key (which must be one the server
/// reads) and the trimmed, unquoted value; or the message that rejects it.
pub open spec fn update_of_arg(arg: Seq<char>) -> Result<(Seq<char>, Seq<char>), Seq<char>> {
    match index_of(arg, '=') {
        None => Err("argument '"@ + arg + "' is not KEY=VALUE"@),
        Some(p) => {
            let key = trim(arg.subrange(0, p));
            if env_key_list().contains(key) {
                Ok((key, unquoted(trim(arg.subrange(p + 1, arg.len() as int)))))
            } else {
                Err("unknown key '"@ + key + "'\nallowed: "@ + join(env_key_list(), ", "@))
            }
        },
    }
}

/// The updates the first `n` arguments ask for, or the message that rejects the first bad
/// one among them.
pub open spec fn updates_of_args(args: Seq<Seq<char>>, n: int) -> Result<
    Seq<(Seq<char>, Seq<char>)>,
    Seq<char>,
>
    decreases n,
{
    if n <= 0 {
        Ok(seq![])
    } else {
        match updates_of_args(args, n - 1) {
            Err(e) => Err(e),
            Ok(us) => match update_of_arg(args[n - 1]) {
                Err(e) => Err(e),
                Ok(u) => Ok(us.push(u)),
            },
        }
    }
}

/// The updates the command line asks for; an empty command line is rejected with the
/// usage line.
pub open spec fn requested_updates(args: Seq<Seq<char>>) -> Result<
    Seq<(Seq<char>, Seq<char>)>,
    Seq<char>,
> {
    if args.len() == 0 {
        Err(usage_text())
    } else {
        updates_of_args(args, args.len() as int)
    }
}

fn is_env_key(key: &Vec<char>) -> (r: bool)
    ensures
        r == env_key_list().contains(key@),
{
    let keys = env_keys();
    let mut i: usize = 0;
    while i < keys.len()
        invariant
            keys@.len() == env_key_list().len(),
            forall|j: int| 0 <= j < keys@.len() ==> (#[trigger] keys@[j])@ == env_key_list()[j],
            i <= keys@.len(),
            forall|j: int| 0 <= j < i ==> env_key_list()[j] != key@,
        decreases keys.len() - i,
    {
        if chars_eq(key, &chars_of(keys[i])) {
            assert(env_key_list()[i as int] == key@);
            return true;
        }
        i += 1;
    }
    false
}

fn update_from_arg(arg: &str) -> (r: Result<(String, String), String>)
    ensures
        match r {
            Ok(u) => update_of_arg(arg@) == Ok::<(Seq<char>, Seq<char>), Seq<char>>(
                update_view(u),
            ),
            Err(e) => update_of_arg(arg@) == Err::<(Seq<char>, Seq<char>), Seq<char>>(e@),
        },
{
    let v = chars_of(arg);
    match find_char_from(&v, '=', 0) {
        None => {
            let mut m = "argument '".to_owned();
            m.append(arg);
            m.append("' is not KEY=VALUE");
            Err(m)
        },
        Some(p) => {
            let (a, b) = trim_bounds(&v, 0, p);
            assert(v@.subrange(0, p as int) == arg@.subrange(0, p as int));
            let mut key = String::new();
            push_range(&mut key, &v, a, b);
            assert(key@ =~= trim(arg@.subrange(0, p as int)));
            if !is_env_key(&chars_of(key.as_str())) {
                let mut m = "unknown key '".to_owned();
                m.append(key.as_str());
                m.append("'\nallowed: ");
                let keys = env_keys();
                let joined = join_strs(&keys, ", ");
                assert(keys@.map_values(|x: &str| x@) =~= env_key_list());
                m.append(joined.as_str());
                return Err(m);
            }
            let vlen = v.len();
            let (c, d) = trim_bounds(&v, p + 1, vlen);
            let mut raw = String::new();
            push_range(&mut raw, &v, c, d);
            assert(raw@ =~= trim(arg@.subrange(p + 1, arg@.len() as int)));
            let value = unquote(raw.as_str());
            Ok((key, value))
        },
    }
}

/// The updates that `update-keys` arguments ask for, each `KEY=VALUE` with a key the
/// server reads; the first bad argument, or an empty list, is rejected with its message.
pub fn parse_updates(args: &Vec<String>) -> (r: Result<Vec<(String, String)>, String>)
    ensures
        match r {
            Ok(us) => requested_updates(args@.map_values(|a: String| a@)) == Ok::<
                Seq<(Seq<char>, Seq<char>)>,
                Seq<char>,
            >(updates_view(us@)),
            Err(e) => requested_updates(args@.map_values(|a: String| a@)) == Err::<
                Seq<(Seq<char>, Seq<char>)>,
                Seq<char>,
            >(e@),
        },
{
    let ghost av = args@.map_values(|a: String| a@);
    if args.len() == 0 {
        return Err("usage: grok-server update-keys KEY=VALUE [KEY=VALUE ...]".to_owned());
    }
    let mut out: Vec<(String, String)> = Vec::new();
    assert(updates_view(out@) =~= seq![]);
    let mut i: usize = 0;
    while i < args.len()
        invariant
            av == args@.map_values(|a: String| a@),
            i <= args@.len(),
            updates_of_args(av, i as int) == Ok::<Seq<(Seq<char>, Seq<char>)>, Seq<char>>(
                updates_view(out@),
            ),
        decreases args.len() - i,
    {
        assert(av[i as int] == args@[i as int]@);
        match update_from_arg(args[i].as_str()) {
            Err(e) => {
                let ghost n = args@.len() as int;
                proof {
                    lemma_updates_err_sticks(av, i as int + 1, n, e@);
                }
                return Err(e);
            },
            Ok(u) => {
                let ghost prev = updates_view(out@);
                assert(update_of_arg(av[i as int]) == Ok::<(Seq<char>, Seq<char>), Seq<char>>(
                    update_view(u),
                ));
                out.push(u);
                assert(updates_view(out@) =~= prev.push(update_view(u)));
            },
        }
        i += 1;
    }
    Ok(out)
}

/// Once an argument is rejected, every longer prefix is rejected with the same message.
proof fn lemma_updates_err_sticks(args: Seq<Seq<char>>, m: int, n: int, e: Seq<char>)
    requires
        0 <= m <= n,
        updates_of_args(args, m) == Err::<Seq<(Seq<char>, Seq<char>)>, Seq<char>>(e),
    ensures
        updates_of_args(args, n) == Err::<Seq<(Seq<char>, Seq<char>)>, Seq<char>>(e),
    decreases n - m,
{
    if m < n {
        lemma_updates_err_sticks(args, m + 1, n, e);
    }
}

/// Text found in `a` is found in `a` followed by anything.
proof fn lemma_contains_before(a: Seq<char>, b: Seq<char>, p: Seq<char>)
    requires
        contains(a, p),
    ensures
        contains(a + b, p),
{
    let i = choose|i: int| occurs_at(a, p, i);
    assert((a + b).subrange(i, i + p.len()) =~= a.subrange(i, i + p.len()));
    assert(occurs_at(a + b, p, i));
}

/// Text found in `b` is found in anything followed by `b`.
proof fn lemma_contains_after(a: Seq<char>, b: Seq<char>, p: Seq<char>)
    requires
        contains(b, p),
    ensures
        contains(a + b, p),
{
    let i = choose|i: int| occurs_at(b, p, i);
    assert((a + b).subrange(a.len() + i, a.len() + i + p.len()) =~= b.subrange(i, i + p.len()));
    assert(occurs_at(a + b, p, a.len() + i));
}

/// Text contains itself.
proof fn lemma_contains_self(p: Seq<char>)
    ensures
        contains(p, p),
{
    assert(p.subrange(0, p.len() as int) =~= p);
    assert(occurs_at(p, p, 0));
}

/// The merged lines hold each line's merged form.
proof fn lemma_merged_prefix_holds(
    ls: Seq<Seq<char>>,
    ups: Seq<(Seq<char>, Seq<char>)>,
    n: int,
    j: int,
)
    requires
        0 <= j < n <= ls.len(),
    ensures
        contains(merged_prefix(ls, ups, n), merged_line(ls[j], ups)),
    decreases n,
{
    if j == n - 1 {
        lemma_contains_self(merged_line(ls[j], ups));
        lemma_contains_after(merged_prefix(ls, ups, n - 1), merged_line(ls[j], ups), merged_line(ls[j], ups));
    } else {
        lemma_merged_prefix_holds(ls, ups, n - 1, j);
        lemma_contains_before(merged_prefix(ls, ups, n - 1), merged_line(ls[n - 1], ups), merged_line(ls[j], ups));
    }
}

/// The appended lines hold each update that no line replaced.
proof fn lemma_appended_holds(
    ls: Seq<Seq<char>>,
    ups: Seq<(Seq<char>, Seq<char>)>,
    n: int,
    k: int,
)
    requires
        0 <= k < n <= ups.len(),
        !update_used(ls, ups, k),
    ensures
        contains(appended_prefix(ls, ups, n), rendered(ups[k].0, ups[k].1).push('\n')),
    decreases n,
{
    let line = rendered(ups[k].0, ups[k].1).push('\n');
    if k == n - 1 {
        lemma_contains_self(line);
        lemma_contains_after(appended_prefix(ls, ups, n - 1), line, line);
    } else {
        lemma_appended_holds(ls, ups, n - 1, k);
        let tail = if update_used(ls, ups, n - 1) {
            seq![]
        } else {
            rendered(ups[n - 1].0, ups[n - 1].1).push('\n')
        };
        lemma_contains_before(appended_prefix(ls, ups, n - 1), tail, line);
    }
}

/// Every update is written: each key with its value ends up on a line of its own,
/// replacing a line that set the key or appended after the existing lines.
pub proof fn law_merge_writes_every_update(existing: Seq<char>, ups: Seq<(Seq<char>, Seq<char>)>, k: int)
    requires
        0 <= k < ups.len(),
    ensures
        contains(merged(existing, ups), rendered(ups[k].0, ups[k].1).push('\n')),
{
    let ls = lines(existing);
    let head = merged_prefix(ls, ups, ls.len() as int);
    let tail = appended_prefix(ls, ups, ups.len() as int);
    if update_used(ls, ups, k) {
        let j = choose|j: int| 0 <= j < ls.len() && first_defined(#[trigger] ls[j], ups) == Some(k);
        lemma_merged_prefix_holds(ls, ups, ls.len() as int, j);
        lemma_contains_before(head, tail, merged_line(ls[j], ups));
    } else {
        lemma_appended_holds(ls, ups, ups.len() as int, k);
        lemma_contains_after(head, tail, rendered(ups[k].0, ups[k].1).push('\n'));
    }
}

} // verus!
