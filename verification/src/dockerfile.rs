//! Rendering a build plan as a Dockerfile (`BuildKit` syntax: cache mounts,
//! secret mounts, multi-stage).
use vstd::prelude::*;
use crate::plan::{
    BuildPlan, Command, CommandView, CopyFromView, EnvMap, command_views, copy_from_views, copy_views, CopyView, PlanView, build_index, };
use crate::json::{
    array_items, escape_at, hex4, hex_value, json_string, json_string_array, lemma_skip_ws_space,
    lemma_skip_ws_stops, skip_ws, string_body,
};
use crate::text::{
    chars_of, is_alnum, is_alnum_char, is_alpha, join, join_strings, lemma_join_push, lemma_views_push, split_words,
    views, vviews, words,
};

verus! {

// ---------------------------------------------------------------------------
// Escaping and small renderings

pub open spec fn hex_digit(d: u8) -> char {
    if d < 10 {
        ((48 + d) as u8) as char
    } else {
        ((87 + d) as u8) as char
    }
}

/// How one character is written inside a JSON string literal.
pub open spec fn escape_char(c: char) -> Seq<char> {
    if c == '"' {
        seq!['\\', '"']
    } else if c == '\\' {
        seq!['\\', '\\']
    } else if c == '\n' {
        seq!['\\', 'n']
    } else if c == '\r' {
        seq!['\\', 'r']
    } else if c == '\t' {
        seq!['\\', 't']
    } else if c <= '\u{1f}' {
        seq!['\\', 'u', '0', '0', hex_digit((c as u8) / 16), hex_digit((c as u8) % 16)]
    } else {
        seq![c]
    }
}

/// `s` escaped for embedding inside a JSON string literal.
pub open spec fn escape(s: Seq<char>) -> Seq<char>
    decreases s.len(),
{
    if s.len() == 0 {
        Seq::empty()
    } else {
        escape(s.drop_last()) + escape_char(s.last())
    }
}

/// A valid environment-variable name: a letter or underscore, then letters,
/// digits, or underscores.
pub open spec fn env_key_ok(k: Seq<char>) -> bool {
    &&& k.len() > 0
    &&& (is_alpha(k[0]) || k[0] == '_')
    &&& forall|i: int| 1 <= i < k.len() ==> is_alnum(#[trigger] k[i]) || k[i] == '_'
}

/// Characters that make a start command need a shell.
pub open spec fn shell_char(c: char) -> bool {
    c == '$' || c == '`' || c == '&' || c == '|' || c == ';' || c == '<' || c == '>' || c == '('
        || c == ')' || c == '{' || c == '}' || c == '*' || c == '?' || c == '~' || c == '!' || c
        == '#' || c == '=' || c == '\n'
}

pub open spec fn needs_shell(cmd: Seq<char>) -> bool {
    exists|i: int| 0 <= i < cmd.len() && shell_char(#[trigger] cmd[i])
}

pub open spec fn quoted(w: Seq<char>) -> Seq<char> {
    seq!['"'] + escape(w) + seq!['"']
}

/// The exec-form argument list of a command: each word quoted and escaped.
pub open spec fn argv(ws: Seq<Seq<char>>) -> Seq<Seq<char>> {
    ws.map_values(|w: Seq<char>| quoted(w))
}

/// The `CMD` line for a start command: exec form when no shell is needed,
/// otherwise `sh -c` with the whole command as one escaped argument.
pub open spec fn cmd_text(cmd: Seq<char>) -> Seq<char> {
    if needs_shell(cmd) {
        "CMD [\"/bin/sh\", \"-c\", \""@ + escape(cmd) + "\"]"@
    } else {
        "CMD ["@ + join(argv(words(cmd)), ", "@) + "]"@
    }
}

pub open spec fn digit(d: nat) -> char {
    ((48 + d) as u8) as char
}

/// Decimal digits of `n`.
pub open spec fn decimal(n: nat) -> Seq<char>
    decreases n,
{
    if n < 10 {
        seq![digit(n)]
    } else {
        decimal(n / 10) + seq![digit(n % 10)]
    }
}

// ---------------------------------------------------------------------------
// Lines of the Dockerfile

pub open spec fn env_line(k: Seq<char>, v: Seq<char>) -> Seq<char> {
    "ENV "@ + k + "=\""@ + escape(v) + "\""@
}

/// `ENV` lines for the entries with a valid name, in entry order.
pub open spec fn env_lines(e: Seq<(Seq<char>, Seq<char>)>) -> Seq<Seq<char>>
    decreases e.len(),
{
    if e.len() == 0 {
        Seq::empty()
    } else {
        let rest = env_lines(e.drop_last());
        if env_key_ok(e.last().0) {
            rest.push(env_line(e.last().0, e.last().1))
        } else {
            rest
        }
    }
}

pub open spec fn copy_line(c: CopyView) -> Seq<char> {
    "COPY "@ + c.src + " "@ + c.dest
}

pub open spec fn copy_from_line(c: CopyFromView) -> Seq<char> {
    "COPY --from="@ + c.stage + " "@ + c.src + " "@ + c.dest
}

pub open spec fn secret_mount(id: Seq<char>) -> Seq<char> {
    "--mount=type=secret,id="@ + id
}

pub open spec fn cache_mount(m: Seq<char>) -> Seq<char> {
    "--mount=type=cache,target="@ + m
}

/// The mounts of a `RUN` line: the plan's secrets on the first stage only,
/// then the command's cache mounts.
pub open spec fn mounts(secrets: Seq<Seq<char>>, index: int, c: CommandView) -> Seq<Seq<char>> {
    let s = if index == 0 {
        secrets.map_values(|id: Seq<char>| secret_mount(id))
    } else {
        Seq::empty()
    };
    s + c.cache_mounts.map_values(|m: Seq<char>| cache_mount(m))
}

pub open spec fn run_line(ms: Seq<Seq<char>>, run: Seq<char>) -> Seq<char> {
    if ms.len() == 0 {
        "RUN "@ + run
    } else {
        "RUN "@ + join(ms, " "@) + " "@ + run
    }
}

/// All lines of stage `index` of `p`.
pub open spec fn stage_lines(p: PlanView, index: int) -> Seq<Seq<char>> {
    let st = p.stages[index];
    let head = seq![
        Seq::<char>::empty(),
        "FROM "@ + st.base_image + " AS "@ + st.name,
        "WORKDIR "@ + st.workdir,
    ];
    let benv = if index == build_index(p.stages) {
        env_lines(p.build_env)
    } else {
        Seq::empty()
    };
    head + benv + st.copy_files.map_values(|c: CopyView| copy_line(c)) + st.copy_from.map_values(
        |c: CopyFromView| copy_from_line(c),
    ) + st.commands.map_values(|c: CommandView| run_line(mounts(p.secrets, index, c), c.run))
}

/// The lines of the first `n` stages of `p`.
pub open spec fn stages_lines(p: PlanView, n: int) -> Seq<Seq<char>>
    decreases n,
{
    if n <= 0 {
        Seq::empty()
    } else {
        stages_lines(p, n - 1) + stage_lines(p, n - 1)
    }
}

/// Runtime `ENV` lines, after a blank line, when any entry has a valid name.
pub open spec fn runtime_env_lines(p: PlanView) -> Seq<Seq<char>> {
    if env_lines(p.env).len() == 0 {
        Seq::empty()
    } else {
        seq![Seq::<char>::empty()] + env_lines(p.env)
    }
}

pub open spec fn path_lines(p: PlanView) -> Seq<Seq<char>> {
    if p.paths.len() == 0 {
        Seq::empty()
    } else {
        seq![Seq::<char>::empty(), "ENV PATH=\""@ + join(p.paths, ":"@) + ":$PATH\""@]
    }
}

pub open spec fn port_lines(p: PlanView) -> Seq<Seq<char>> {
    match p.port {
        Some(port) => seq![Seq::<char>::empty(), "EXPOSE "@ + decimal(port as nat)],
        None => Seq::empty(),
    }
}

pub open spec fn start_lines(p: PlanView) -> Seq<Seq<char>> {
    match p.start_command {
        Some(cmd) => seq![cmd_text(cmd)],
        None => Seq::empty(),
    }
}

/// Every line of the Dockerfile for `p`, in order.
pub open spec fn dockerfile_lines(p: PlanView) -> Seq<Seq<char>> {
    seq!["# syntax=docker/dockerfile:1"@] + stages_lines(p, p.stages.len() as int)
        + runtime_env_lines(p) + path_lines(p) + port_lines(p) + start_lines(p) + seq![
        Seq::<char>::empty(),
    ]
}

/// The Dockerfile for `p`: its lines joined with newlines.
pub open spec fn dockerfile(p: PlanView) -> Seq<char> {
    join(dockerfile_lines(p), "\n"@)
}

} // verus!

verus! {

fn hex(d: u8) -> (c: char)
    requires
        d < 16,
    ensures
        c == hex_digit(d),
{
    if d < 10 {
        (48 + d) as char
    } else {
        (87 + d) as char
    }
}

/// Append `cs` escaped for a JSON string literal to `out`.
fn push_escaped(out: &mut String, cs: &[char])
    ensures
        final(out)@ == old(out)@ + escape(cs@),
{
    let ghost start = out@;
    let mut i: usize = 0;
    assert(cs@.take(0) =~= Seq::<char>::empty());
    while i < cs.len()
        invariant
            i <= cs@.len(),
            out@ == start + escape(cs@.take(i as int)),
        decreases cs@.len() - i,
    {
        let c = cs[i];
        let ghost before = out@;
        if c == '"' {
            out.push('\\');
            out.push('"');
        } else if c == '\\' {
            out.push('\\');
            out.push('\\');
        } else if c == '\n' {
            out.push('\\');
            out.push('n');
        } else if c == '\r' {
            out.push('\\');
            out.push('r');
        } else if c == '\t' {
            out.push('\\');
            out.push('t');
        } else if c <= '\u{1f}' {
            let code: u8 = c as u8;
            out.push('\\');
            out.push('u');
            out.push('0');
            out.push('0');
            out.push(hex(code / 16));
            out.push(hex(code % 16));
        } else {
            out.push(c);
        }
        proof {
            assert(out@ =~= before + escape_char(c));
            assert(cs@.take(i + 1).drop_last() =~= cs@.take(i as int));
            assert(escape(cs@.take(i + 1)) == escape(cs@.take(i as int)) + escape_char(c));
        }
        i = i + 1;
    }
    assert(cs@.take(cs@.len() as int) =~= cs@);
}

/// Escape a string for embedding inside a JSON string literal, so no quote,
/// backslash, newline or other control character can break out of the `CMD`
/// array or split the Dockerfile line it sits on.
pub fn json_escape(s: &str) -> (out: String)
    ensures
        out@ == escape(s@),
{
    let mut out = String::new();
    push_escaped(&mut out, &chars_of(s));
    assert(out@ =~= escape(s@));
    out
}

/// Whether `key` is a valid environment-variable name, safe to emit unquoted
/// on the left of an `ENV key=...` line.
pub fn is_valid_env_key(key: &str) -> (b: bool)
    ensures
        b == env_key_ok(key@),
{
    let k = chars_of(key);
    if k.len() == 0 {
        return false;
    }
    let first = k[0];
    if !(('a' <= first && first <= 'z') || ('A' <= first && first <= 'Z') || first == '_') {
        return false;
    }
    let mut i: usize = 1;
    while i < k.len()
        invariant
            1 <= i <= k@.len(),
            k@ == key@,
            forall|j: int| 1 <= j < i ==> is_alnum(#[trigger] k@[j]) || k@[j] == '_',
        decreases k@.len() - i,
    {
        let c = k[i];
        if !(is_alnum_char(c) || c == '_') {
            assert(!(is_alnum(key@[i as int]) || key@[i as int] == '_'));
            return false;
        }
        i = i + 1;
    }
    true
}

fn is_shell_char(c: char) -> (b: bool)
    ensures
        b == shell_char(c),
{
    c == '$' || c == '`' || c == '&' || c == '|' || c == ';' || c == '<' || c == '>' || c == '('
        || c == ')' || c == '{' || c == '}' || c == '*' || c == '?' || c == '~' || c == '!' || c
        == '#' || c == '=' || c == '\n'
}

fn any_shell_char(cs: &[char]) -> (b: bool)
    ensures
        b == needs_shell(cs@),
{
    let mut i: usize = 0;
    while i < cs.len()
        invariant
            i <= cs@.len(),
            forall|j: int| 0 <= j < i ==> !shell_char(#[trigger] cs@[j]),
        decreases cs@.len() - i,
    {
        if is_shell_char(cs[i]) {
            return true;
        }
        i = i + 1;
    }
    false
}

/// Render the `CMD` line for a start command: exec form (`CMD ["a", "b"]`)
/// when the command needs no shell, so it runs on shell-less runtimes like
/// distroless; `sh -c` only when the command needs a shell.
pub fn cmd_line(cmd: &str) -> (out: String)
    ensures
        out@ == cmd_text(cmd@),
{
    let cs = chars_of(cmd);
    if any_shell_char(&cs) {
        let mut out = String::from_str("CMD [\"/bin/sh\", \"-c\", \"");
        push_escaped(&mut out, &cs);
        out.append("\"]");
        out
    } else {
        let ws = split_words(&cs);
        let ghost wv = vviews(ws@);
        let mut out = String::from_str("CMD [");
        let mut i: usize = 0;
        assert(argv(wv).take(0) =~= Seq::<Seq<char>>::empty());
        while i < ws.len()
            invariant
                i <= ws@.len(),
                wv == vviews(ws@),
                wv == words(cmd@),
                out@ == "CMD ["@ + join(argv(wv).take(i as int), ", "@),
            decreases ws@.len() - i,
        {
            let ghost before = out@;
            if i > 0 {
                out.append(", ");
            }
            out.push('"');
            push_escaped(&mut out, ws[i].as_slice());
            out.push('"');
            proof {
                assert(argv(wv).take(i + 1) =~= argv(wv).take(i as int).push(quoted(wv[i as int])));
                lemma_join_push(argv(wv).take(i as int), ", "@, quoted(wv[i as int]));
                assert(wv[i as int] == ws@[i as int]@);
                if i > 0 {
                    assert(out@ =~= before + ", "@ + quoted(wv[i as int]));
                } else {
                    assert(out@ =~= before + quoted(wv[i as int]));
                }
            }
            i = i + 1;
        }
        assert(argv(wv).take(ws@.len() as int) =~= argv(wv));
        out.append("]");
        out
    }
}

/// Append the decimal digits of `n` to `out`.
fn push_decimal(out: &mut String, n: u16)
    ensures
        final(out)@ == old(out)@ + decimal(n as nat),
    decreases n,
{
    if n >= 10 {
        push_decimal(out, n / 10);
    }
    let d: u8 = (n % 10) as u8;
    out.push((48 + d) as char);
    assert(digit((n % 10) as nat) == (48 + d) as char);
}

fn push_line(lines: &mut Vec<String>, line: String)
    ensures
        views(final(lines)@) == views(old(lines)@).push(line@),
{
    proof {
        lemma_views_push(lines@, line);
    }
    lines.push(line);
}

/// Append the `ENV` lines of `env` (valid names only) to `lines`.
fn push_env_lines(lines: &mut Vec<String>, env: &EnvMap)
    ensures
        views(final(lines)@) == views(old(lines)@) + env_lines(env@),
{
    let entries = env.entries();
    let ghost ev = env@;
    let ghost base = views(lines@);
    let mut i: usize = 0;
    assert(ev.take(0) =~= Seq::<(Seq<char>, Seq<char>)>::empty());
    assert(base + env_lines(ev.take(0)) =~= base);
    while i < entries.len()
        invariant
            i <= entries@.len(),
            entries@.len() == ev.len(),
            entries@.map_values(|p: (String, String)| (p.0@, p.1@)) == ev,
            views(lines@) == base + env_lines(ev.take(i as int)),
        decreases entries@.len() - i,
    {
        let key = &entries[i].0;
        let value = &entries[i].1;
        proof {
            assert(ev.take(i + 1).drop_last() =~= ev.take(i as int));
            assert(ev[i as int] == (key@, value@));
        }
        if is_valid_env_key(key.as_str()) {
            let mut line = String::from_str("ENV ");
            line.append(key.as_str());
            line.append("=\"");
            line.append(json_escape(value.as_str()).as_str());
            line.append("\"");
            push_line(lines, line);
        }
        i = i + 1;
    }
    assert(ev.take(ev.len() as int) =~= ev);
}

} // verus!

verus! {

/// The mount options of one `RUN` line.
fn run_mounts(plan: &BuildPlan, index: usize, cmd: &Command) -> (ms: Vec<String>)
    ensures
        views(ms@) == mounts(plan@.secrets, index as int, cmd@),
{
    let mut ms: Vec<String> = Vec::new();
    let ghost sec = if index == 0 {
        plan@.secrets.map_values(|id: Seq<char>| secret_mount(id))
    } else {
        Seq::empty()
    };
    if index == 0 {
        let mut i: usize = 0;
        while i < plan.secrets.len()
            invariant
                index == 0,
                i <= plan.secrets@.len(),
                views(ms@) == plan@.secrets.take(i as int).map_values(
                    |id: Seq<char>| secret_mount(id),
                ),
            decreases plan.secrets@.len() - i,
        {
            let mut m = String::from_str("--mount=type=secret,id=");
            m.append(plan.secrets[i].as_str());
            proof {
                lemma_views_push(ms@, m);
                assert(plan@.secrets.take(i + 1) =~= plan@.secrets.take(i as int).push(
                    plan.secrets@[i as int]@,
                ));
            }
            ms.push(m);
            proof {
                assert(views(ms@) =~= plan@.secrets.take(i + 1).map_values(
                    |id: Seq<char>| secret_mount(id),
                ));
            }
            i = i + 1;
        }
        assert(plan@.secrets.take(plan.secrets@.len() as int) =~= plan@.secrets);
    } else {
        assert(views(ms@) =~= sec);
    }
    let ghost cv = views(cmd.cache_mounts@);
    let mut j: usize = 0;
    assert(cv.take(0).map_values(|m: Seq<char>| cache_mount(m)) =~= Seq::<Seq<char>>::empty());
    while j < cmd.cache_mounts.len()
        invariant
            j <= cmd.cache_mounts@.len(),
            cv == views(cmd.cache_mounts@),
            views(ms@) == sec + cv.take(j as int).map_values(|m: Seq<char>| cache_mount(m)),
        decreases cmd.cache_mounts@.len() - j,
    {
        let mut m = String::from_str("--mount=type=cache,target=");
        m.append(cmd.cache_mounts[j].as_str());
        proof {
            lemma_views_push(ms@, m);
            assert(cv.take(j + 1) =~= cv.take(j as int).push(cv[j as int]));
        }
        ms.push(m);
        proof {
            assert(views(ms@) =~= sec + cv.take(j + 1).map_values(|m: Seq<char>| cache_mount(m)));
        }
        j = j + 1;
    }
    assert(cv.take(cv.len() as int) =~= cv);
    ms
}

/// Append the lines of stage `index` to `lines`.
fn push_stage_lines(lines: &mut Vec<String>, plan: &BuildPlan, index: usize, build: usize)
    requires
        index < plan@.stages.len(),
        build == build_index(plan@.stages),
    ensures
        views(final(lines)@) == views(old(lines)@) + stage_lines(plan@, index as int),
{
    let stage = &plan.stages[index];
    let ghost p = plan@;
    let ghost st = p.stages[index as int];
    assert(st == stage@);
    let ghost base = views(lines@);
    push_line(lines, String::new());
    let mut from = String::from_str("FROM ");
    from.append(stage.base_image.as_str());
    from.append(" AS ");
    from.append(stage.name.as_str());
    push_line(lines, from);
    let mut wd = String::from_str("WORKDIR ");
    wd.append(stage.workdir.as_str());
    push_line(lines, wd);
    let ghost head = seq![
        Seq::<char>::empty(),
        "FROM "@ + st.base_image + " AS "@ + st.name,
        "WORKDIR "@ + st.workdir,
    ];
    assert(views(lines@) =~= base + head);
    if index == build {
        push_env_lines(lines, &plan.build_env);
    }
    let ghost benv = if index == build {
        env_lines(p.build_env)
    } else {
        Seq::empty()
    };
    assert(views(lines@) =~= base + head + benv);
    let ghost after_env = views(lines@);
    let mut i: usize = 0;
    let ghost cf = st.copy_files;
    assert(cf.take(0).map_values(|c: CopyView| copy_line(c)) =~= Seq::<Seq<char>>::empty());
    while i < stage.copy_files.len()
        invariant
            i <= stage.copy_files@.len(),
            cf == copy_views(stage.copy_files@),
            views(lines@) == after_env + cf.take(i as int).map_values(|c: CopyView| copy_line(c)),
        decreases stage.copy_files@.len() - i,
    {
        let c = &stage.copy_files[i];
        let mut l = String::from_str("COPY ");
        l.append(c.src.as_str());
        l.append(" ");
        l.append(c.dest.as_str());
        push_line(lines, l);
        proof {
            assert(cf[i as int] == c@);
            assert(cf.take(i + 1) =~= cf.take(i as int).push(cf[i as int]));
            assert(views(lines@) =~= after_env + cf.take(i + 1).map_values(
                |c: CopyView| copy_line(c),
            ));
        }
        i = i + 1;
    }
    assert(cf.take(cf.len() as int) =~= cf);
    let ghost after_copy = views(lines@);
    let ghost cff = st.copy_from;
    let mut i: usize = 0;
    assert(cff.take(0).map_values(|c: CopyFromView| copy_from_line(c))
        =~= Seq::<Seq<char>>::empty());
    while i < stage.copy_from.len()
        invariant
            i <= stage.copy_from@.len(),
            cff == copy_from_views(stage.copy_from@),
            views(lines@) == after_copy + cff.take(i as int).map_values(
                |c: CopyFromView| copy_from_line(c),
            ),
        decreases stage.copy_from@.len() - i,
    {
        let c = &stage.copy_from[i];
        let mut l = String::from_str("COPY --from=");
        l.append(c.stage.as_str());
        l.append(" ");
        l.append(c.src.as_str());
        l.append(" ");
        l.append(c.dest.as_str());
        push_line(lines, l);
        proof {
            assert(cff[i as int] == c@);
            assert(cff.take(i + 1) =~= cff.take(i as int).push(cff[i as int]));
            assert(views(lines@) =~= after_copy + cff.take(i + 1).map_values(
                |c: CopyFromView| copy_from_line(c),
            ));
        }
        i = i + 1;
    }
    assert(cff.take(cff.len() as int) =~= cff);
    let ghost after_from = views(lines@);
    let ghost cmds = st.commands;
    let mut i: usize = 0;
    assert(cmds.take(0).map_values(
        |c: CommandView| run_line(mounts(p.secrets, index as int, c), c.run),
    ) =~= Seq::<Seq<char>>::empty());
    while i < stage.commands.len()
        invariant
            i <= stage.commands@.len(),
            p == plan@,
            cmds == command_views(stage.commands@),
            views(lines@) == after_from + cmds.take(i as int).map_values(
                |c: CommandView| run_line(mounts(p.secrets, index as int, c), c.run),
            ),
        decreases stage.commands@.len() - i,
    {
        let cmd = &stage.commands[i];
        let ms = run_mounts(plan, index, cmd);
        let mut l = String::from_str("RUN ");
        if ms.len() > 0 {
            l.append(join_strings(&ms, " ").as_str());
            l.append(" ");
        }
        l.append(cmd.run.as_str());
        proof {
            assert(cmds[i as int] == cmd@);
            assert(l@ == run_line(mounts(p.secrets, index as int, cmd@), cmd@.run));
        }
        push_line(lines, l);
        proof {
            assert(cmds.take(i + 1) =~= cmds.take(i as int).push(cmds[i as int]));
            assert(views(lines@) =~= after_from + cmds.take(i + 1).map_values(
                |c: CommandView| run_line(mounts(p.secrets, index as int, c), c.run),
            ));
        }
        i = i + 1;
    }
    assert(cmds.take(cmds.len() as int) =~= cmds);
    assert(views(lines@) =~= base + stage_lines(p, index as int));
}

/// Generate a Dockerfile from a build plan: a syntax line, then each stage
/// (`FROM`, `WORKDIR`, build env on the build stage, `COPY`s, `RUN`s with
/// secret mounts on the first stage and cache mounts), then runtime `ENV`,
/// `PATH`, `EXPOSE` and `CMD`, each group after a blank line.
pub fn generate(plan: &BuildPlan) -> (out: String)
    ensures
        out@ == dockerfile(plan@),
{
    let mut lines: Vec<String> = Vec::new();
    push_line(&mut lines, String::from_str("# syntax=docker/dockerfile:1"));
    let build = plan.build_stage_index();
    let ghost p = plan@;
    let ghost header = seq!["# syntax=docker/dockerfile:1"@];
    let mut index: usize = 0;
    assert(views(lines@) =~= header + stages_lines(p, 0));
    while index < plan.stages.len()
        invariant
            index <= plan@.stages.len(),
            p == plan@,
            build == build_index(plan@.stages),
            views(lines@) == header + stages_lines(p, index as int),
        decreases plan@.stages.len() - index,
    {
        push_stage_lines(&mut lines, plan, index, build);
        proof {
            assert(header + stages_lines(p, index as int) + stage_lines(p, index as int)
                =~= header + stages_lines(p, index + 1));
        }
        index = index + 1;
    }
    let ghost after_stages = views(lines@);
    let mut env_part: Vec<String> = Vec::new();
    push_env_lines(&mut env_part, &plan.env);
    assert(views(env_part@) =~= env_lines(p.env));
    if env_part.len() > 0 {
        push_line(&mut lines, String::new());
        let mut i: usize = 0;
        let ghost mid = views(lines@);
        while i < env_part.len()
            invariant
                i <= env_part@.len(),
                views(lines@) == mid + views(env_part@).take(i as int),
            decreases env_part@.len() - i,
        {
            push_line(&mut lines, env_part[i].clone());
            proof {
                assert(views(env_part@).take(i + 1) =~= views(env_part@).take(i as int).push(
                    env_part@[i as int]@,
                ));
            }
            i = i + 1;
        }
        assert(views(env_part@).take(env_part@.len() as int) =~= views(env_part@));
    }
    assert(views(lines@) =~= after_stages + runtime_env_lines(p));
    let ghost after_env = views(lines@);
    if plan.paths.len() > 0 {
        push_line(&mut lines, String::new());
        let mut l = String::from_str("ENV PATH=\"");
        l.append(join_strings(&plan.paths, ":").as_str());
        l.append(":$PATH\"");
        push_line(&mut lines, l);
    }
    assert(views(lines@) =~= after_env + path_lines(p));
    let ghost after_paths = views(lines@);
    match plan.port {
        Some(port) => {
            push_line(&mut lines, String::new());
            let mut l = String::from_str("EXPOSE ");
            push_decimal(&mut l, port);
            push_line(&mut lines, l);
        },
        None => {},
    }
    assert(views(lines@) =~= after_paths + port_lines(p));
    let ghost after_port = views(lines@);
    match &plan.start_command {
        Some(cmd) => {
            push_line(&mut lines, cmd_line(cmd.as_str()));
        },
        None => {},
    }
    assert(views(lines@) =~= after_port + start_lines(p));
    push_line(&mut lines, String::new());
    assert(views(lines@) =~= dockerfile_lines(p));
    join_strings(&lines, "\n")
}

} // verus!

verus! {

// ---------------------------------------------------------------------------
// Laws: untrusted text cannot break a Dockerfile line

/// Every character is printable: no newline, carriage return or other
/// control character below U+0020.
pub open spec fn no_control(s: Seq<char>) -> bool {
    forall|i: int| 0 <= i < s.len() ==> ' ' <= #[trigger] s[i]
}

proof fn lemma_no_control_add(a: Seq<char>, b: Seq<char>)
    requires
        no_control(a),
        no_control(b),
    ensures
        no_control(a + b),
{
    assert forall|i: int| 0 <= i < (a + b).len() implies ' ' <= #[trigger] (a + b)[i] by {
        if i < a.len() {
            assert((a + b)[i] == a[i]);
        } else {
            assert((a + b)[i] == b[i - a.len()]);
        }
    }
}

proof fn lemma_hex_digit_printable(d: u8)
    requires
        d < 16,
    ensures
        ' ' <= hex_digit(d),
{
    if d < 10 {
        assert((48 + d) as u8 == 48 + d);
    } else {
        assert((87 + d) as u8 == 87 + d);
    }
}

proof fn lemma_escape_char_printable(c: char)
    ensures
        no_control(escape_char(c)),
{
    if c <= '\u{1f}' && c != '"' && c != '\\' && c != '\n' && c != '\r' && c != '\t' {
        let code = c as u8;
        assert(code / 16 < 16 && code % 16 < 16) by (bit_vector);
        lemma_hex_digit_printable(code / 16);
        lemma_hex_digit_printable(code % 16);
    }
}

/// A JSON-escaped string is printable: whatever `s` holds, its escape holds
/// no newline or other control character.
pub proof fn law_escape_is_printable(s: Seq<char>)
    ensures
        no_control(escape(s)),
    decreases s.len(),
{
    if s.len() > 0 {
        law_escape_is_printable(s.drop_last());
        lemma_escape_char_printable(s.last());
        lemma_no_control_add(escape(s.drop_last()), escape_char(s.last()));
    }
}

proof fn lemma_join_printable(parts: Seq<Seq<char>>, sep: Seq<char>)
    requires
        no_control(sep),
        forall|i: int| 0 <= i < parts.len() ==> no_control(#[trigger] parts[i]),
    ensures
        no_control(join(parts, sep)),
    decreases parts.len(),
{
    if parts.len() > 1 {
        let d = parts.drop_last();
        assert forall|i: int| 0 <= i < d.len() implies no_control(#[trigger] d[i]) by {
            assert(d[i] == parts[i]);
        }
        lemma_join_printable(d, sep);
        lemma_no_control_add(join(d, sep), sep);
        lemma_no_control_add(join(d, sep) + sep, parts.last());
    } else if parts.len() == 1 {
        assert(no_control(parts[0]));
    }
}

proof fn lemma_literal_printable()
    ensures
        no_control("CMD [\"/bin/sh\", \"-c\", \""@),
        no_control("\"]"@),
        no_control("CMD ["@),
        no_control("]"@),
        no_control(", "@),
        no_control("\""@),
        no_control("ENV "@),
        no_control("=\""@),
{
    reveal_strlit("CMD [\"/bin/sh\", \"-c\", \"");
    reveal_strlit("\"]");
    reveal_strlit("CMD [");
    reveal_strlit("]");
    reveal_strlit(", ");
    reveal_strlit("\"");
    reveal_strlit("ENV ");
    reveal_strlit("=\"");
}

/// The `CMD` line for any start command is a single printable line: a
/// newline or control character in the command is escaped, never emitted.
pub proof fn law_cmd_line_is_one_line(cmd: Seq<char>)
    ensures
        no_control(cmd_text(cmd)),
{
    lemma_literal_printable();
    if needs_shell(cmd) {
        law_escape_is_printable(cmd);
        lemma_no_control_add("CMD [\"/bin/sh\", \"-c\", \""@, escape(cmd));
        lemma_no_control_add("CMD [\"/bin/sh\", \"-c\", \""@ + escape(cmd), "\"]"@);
    } else {
        let args = argv(words(cmd));
        assert forall|i: int| 0 <= i < args.len() implies no_control(#[trigger] args[i]) by {
            let w = words(cmd)[i];
            law_escape_is_printable(w);
            lemma_no_control_add(seq!['"'], escape(w));
            lemma_no_control_add(seq!['"'] + escape(w), seq!['"']);
        }
        lemma_join_printable(args, ", "@);
        lemma_no_control_add("CMD ["@, join(args, ", "@));
        lemma_no_control_add("CMD ["@ + join(args, ", "@), "]"@);
    }
}

/// An `ENV` line for a valid name is a single printable line, whatever the
/// value holds.
pub proof fn law_env_line_is_one_line(key: Seq<char>, value: Seq<char>)
    requires
        env_key_ok(key),
    ensures
        no_control(env_line(key, value)),
{
    lemma_literal_printable();
    assert(no_control(key)) by {
        assert forall|i: int| 0 <= i < key.len() implies ' ' <= #[trigger] key[i] by {
            if i > 0 {
                assert(is_alnum(key[i]) || key[i] == '_');
            }
        }
    }
    law_escape_is_printable(value);
    lemma_no_control_add("ENV "@, key);
    lemma_no_control_add("ENV "@ + key, "=\""@);
    lemma_no_control_add("ENV "@ + key + "=\""@, escape(value));
    lemma_no_control_add("ENV "@ + key + "=\""@ + escape(value), "\""@);
}

/// Secret mounts go on the commands of the first stage only: every later
/// stage's `RUN` lines carry just their cache mounts.
pub proof fn law_secrets_only_on_first_stage(secrets: Seq<Seq<char>>, index: int, c: CommandView)
    requires
        index != 0,
    ensures
        mounts(secrets, index, c) == c.cache_mounts.map_values(|m: Seq<char>| cache_mount(m)),
{
    assert(mounts(secrets, index, c) =~= c.cache_mounts.map_values(|m: Seq<char>| cache_mount(m)));
}

} // verus!

verus! {

/// The entries that get an `ENV` line (those with a valid name), in order.
pub open spec fn emitted(e: Seq<(Seq<char>, Seq<char>)>) -> Seq<(Seq<char>, Seq<char>)>
    decreases e.len(),
{
    if e.len() == 0 {
        Seq::empty()
    } else if env_key_ok(e.last().0) {
        emitted(e.drop_last()).push(e.last())
    } else {
        emitted(e.drop_last())
    }
}

proof fn lemma_emitted_from(e: Seq<(Seq<char>, Seq<char>)>)
    ensures
        forall|i: int|
            0 <= i < emitted(e).len() ==> exists|j: int|
                0 <= j < e.len() && #[trigger] emitted(e)[i] == e[j],
    decreases e.len(),
{
    if e.len() > 0 {
        let d = e.drop_last();
        lemma_emitted_from(d);
        assert forall|i: int| 0 <= i < emitted(e).len() implies exists|j: int|
            0 <= j < e.len() && #[trigger] emitted(e)[i] == e[j] by {
            if i < emitted(d).len() {
                assert(emitted(e)[i] == emitted(d)[i]);
                let j = choose|j: int| 0 <= j < d.len() && emitted(d)[i] == d[j];
                assert(e[j] == d[j]);
            } else {
                assert(emitted(e)[i] == e[e.len() - 1]);
            }
        }
    }
}

/// The runtime `ENV` lines come one per validly named entry, in the order of
/// the entries; for an environment map (names sorted) that is name order.
pub proof fn law_env_lines_in_name_order(e: Seq<(Seq<char>, Seq<char>)>)
    requires
        crate::plan::sorted_entries(e),
    ensures
        env_lines(e) == emitted(e).map_values(|p: (Seq<char>, Seq<char>)| env_line(p.0, p.1)),
        crate::plan::sorted_entries(emitted(e)),
        forall|i: int| 0 <= i < emitted(e).len() ==> env_key_ok(#[trigger] emitted(e)[i].0),
    decreases e.len(),
{
    if e.len() > 0 {
        let d = e.drop_last();
        assert(crate::plan::sorted_entries(d)) by {
            assert forall|i: int, j: int| 0 <= i < j < d.len() implies crate::text::before(
                #[trigger] d[i].0,
                #[trigger] d[j].0,
            ) by {
                assert(d[i] == e[i] && d[j] == e[j]);
            }
        }
        law_env_lines_in_name_order(d);
        lemma_emitted_from(d);
        let m = emitted(d);
        if env_key_ok(e.last().0) {
            assert(emitted(e) == m.push(e.last()));
            assert(env_lines(e) =~= m.push(e.last()).map_values(
                |p: (Seq<char>, Seq<char>)| env_line(p.0, p.1),
            ));
            assert forall|i: int, j: int| 0 <= i < j < emitted(e).len() implies crate::text::before(
                #[trigger] emitted(e)[i].0,
                #[trigger] emitted(e)[j].0,
            ) by {
                if j < m.len() {
                    assert(emitted(e)[i] == m[i] && emitted(e)[j] == m[j]);
                } else {
                    assert(emitted(e)[i] == m[i]);
                    let k = choose|k: int| 0 <= k < d.len() && #[trigger] m[i] == d[k];
                    assert(d[k] == e[k]);
                    assert(crate::text::before(e[k].0, e[e.len() - 1].0));
                }
            }
        }
    }
}

} // verus!

verus! {

// ---------------------------------------------------------------------------
// Laws: the escaped text reads back as JSON

proof fn lemma_escape_prepend(c: char, s: Seq<char>)
    ensures
        escape(seq![c] + s) == escape_char(c) + escape(s),
    decreases s.len(),
{
    let t = seq![c] + s;
    assert(t.len() > 0);
    assert(escape(t) == escape(t.drop_last()) + escape_char(t.last()));
    if s.len() == 0 {
        assert(t.drop_last() =~= Seq::<char>::empty());
        assert(t.last() == c);
        assert(escape(Seq::<char>::empty()) =~= Seq::<char>::empty());
        assert(s =~= Seq::<char>::empty());
        assert(escape(t) =~= escape_char(c));
        assert(escape_char(c) + escape(s) =~= escape_char(c));
    } else {
        let d = s.drop_last();
        lemma_escape_prepend(c, d);
        assert(t.drop_last() =~= seq![c] + d);
        assert(t.last() == s.last());
        assert(escape(s) == escape(d) + escape_char(s.last()));
        assert(escape_char(c) + escape(d) + escape_char(s.last()) =~= escape_char(c) + (escape(d)
            + escape_char(s.last())));
    }
}

proof fn lemma_hex_digit_value(d: u8)
    requires
        d < 16,
    ensures
        hex_value(hex_digit(d)) == Some(d as int),
{
    if d < 10 {
        assert((48 + d) as u8 == 48 + d);
    } else {
        assert((87 + d) as u8 == 87 + d);
    }
}

/// A control character's `\u00XX` escape reads back as the character.
#[verifier::rlimit(30)]
proof fn lemma_control_escape_reads(c: char, x: Seq<char>)
    requires
        c <= '\u{1f}',
        c != '"' && c != '\\' && c != '\n' && c != '\r' && c != '\t',
    ensures
        escape_at(escape_char(c) + x) == Some((c, 6int)),
        escape_char(c).len() == 6,
{
    let t = escape_char(c) + x;
    let code = c as u8;
    assert(code / 16 < 16 && code % 16 < 16) by (bit_vector);
    assert((code / 16) * 16 + code % 16 == code) by (bit_vector);
    lemma_hex_digit_value(code / 16);
    lemma_hex_digit_value(code % 16);
    let h = t.skip(2);
    assert(h[0] == '0' && h[1] == '0' && h[2] == hex_digit(code / 16) && h[3] == hex_digit(code % 16));
    assert(hex4(h) == Some(((0int * 16 + 0) * 16 + (code / 16) as int) * 16 + (code % 16) as int));
    assert(hex4(h) == Some(code as int));
    assert(code as int == c as int);
    assert((code as int) as char == c);
}

/// What an escaped character reads back as, and how much of the text it takes.
proof fn lemma_escape_char_reads(c: char, x: Seq<char>)
    ensures
        string_body(escape_char(c) + x) == match string_body(x) {
            Some((v, r)) => Some((seq![c] + v, r)),
            None => None::<(Seq<char>, Seq<char>)>,
        },
{
    let t = escape_char(c) + x;
    if c == '"' || c == '\\' || c == '\n' || c == '\r' || c == '\t' {
        assert(t[0] == '\\');
        assert(escape_at(t) == Some((c, 2int)));
        assert(t.skip(2) =~= x);
    } else if c <= '\u{1f}' {
        lemma_control_escape_reads(c, x);
        assert(t[0] == '\\');
        assert(t.skip(6) =~= x);
    } else {
        assert(escape_char(c) == seq![c]);
        assert(t[0] == c);
        assert(t.skip(1) =~= x);
    }
}

/// The body of a string literal written by escaping `s`, then a closing
/// quote, reads back as `s`, leaving what follows the quote.
#[verifier::rlimit(30)]
proof fn lemma_body_of_escape(s: Seq<char>, r: Seq<char>)
    ensures
        string_body(escape(s) + seq!['"'] + r) == Some((s, r)),
    decreases s.len(),
{
    let t = escape(s) + seq!['"'] + r;
    if s.len() == 0 {
        assert(escape(s) =~= Seq::<char>::empty());
        assert(t =~= seq!['"'] + r);
        assert(t.skip(1) =~= r);
    } else {
        let c = s[0];
        let s1 = s.skip(1);
        assert(seq![c] + s1 =~= s);
        lemma_escape_prepend(c, s1);
        let x = escape(s1) + seq!['"'] + r;
        lemma_body_of_escape(s1, r);
        assert(t =~= escape_char(c) + x);
        lemma_escape_char_reads(c, x);
    }
}

/// A JSON-escaped string, put in quotes, reads back as JSON as exactly the
/// string that was escaped.
pub proof fn law_escape_reads_back(s: Seq<char>)
    ensures
        json_string(quoted(s)) == Some(s),
{
    let t = quoted(s);
    assert(t[0] == '"');
    lemma_skip_ws_stops(t);
    assert(t.skip(1) =~= escape(s) + seq!['"'] + Seq::<char>::empty());
    lemma_body_of_escape(s, Seq::<char>::empty());
}

/// Text with no quote, backslash or control character is left as it is.
pub proof fn law_escape_keeps_plain_text(s: Seq<char>)
    requires
        forall|i: int| 0 <= i < s.len() ==> #[trigger] s[i] != '"' && s[i] != '\\' && ' ' <= s[i],
    ensures
        escape(s) == s,
    decreases s.len(),
{
    if s.len() > 0 {
        let d = s.drop_last();
        assert forall|i: int| 0 <= i < d.len() implies #[trigger] d[i] != '"' && d[i] != '\\' && ' '
            <= d[i] by {
            assert(d[i] == s[i]);
        }
        law_escape_keeps_plain_text(d);
        let c = s.last();
        assert(c == s[s.len() - 1]);
        assert(escape_char(c) == seq![c]);
        assert(d.push(c) =~= s);
        assert(d + seq![c] =~= s);
    }
}

proof fn lemma_join_front(a: Seq<char>, rest: Seq<Seq<char>>, sep: Seq<char>)
    requires
        rest.len() > 0,
    ensures
        join(seq![a] + rest, sep) == a + sep + join(rest, sep),
    decreases rest.len(),
{
    let ps = seq![a] + rest;
    assert(ps.len() > 1);
    assert(join(ps, sep) == join(ps.drop_last(), sep) + sep + ps.last());
    assert(ps.last() == rest.last());
    if rest.len() == 1 {
        assert(ps.drop_last() =~= seq![a]);
        assert(join(seq![a], sep) == a);
        assert(join(rest, sep) == rest[0]);
    } else {
        let d = rest.drop_last();
        lemma_join_front(a, d, sep);
        assert(ps.drop_last() =~= seq![a] + d);
        assert(join(rest, sep) == join(d, sep) + sep + rest.last());
        assert(a + sep + join(d, sep) + sep + rest.last() =~= a + sep + (join(d, sep) + sep
            + rest.last()));
    }
}

proof fn lemma_join_starts_with_quote(ws: Seq<Seq<char>>)
    requires
        ws.len() > 0,
    ensures
        join(argv(ws), ", "@).len() > 0,
        join(argv(ws), ", "@)[0] == '"',
    decreases ws.len(),
{
    let qs = argv(ws);
    if ws.len() == 1 {
        assert(join(qs, ", "@) == quoted(ws[0]));
    } else {
        let d = ws.drop_last();
        lemma_join_starts_with_quote(d);
        assert(qs.drop_last() =~= argv(d));
    }
}

/// A quoted string opens with a quote, and its body reads back as the
/// string, leaving what follows the closing quote.
proof fn lemma_quoted_reads(w: Seq<char>, after: Seq<char>)
    ensures
        (quoted(w) + after).len() > 0,
        (quoted(w) + after)[0] == '"',
        string_body((quoted(w) + after).skip(1)) == Some((w, after)),
{
    assert((quoted(w) + after).skip(1) =~= escape(w) + seq!['"'] + after);
    lemma_body_of_escape(w, after);
}

proof fn lemma_last_item(w: Seq<char>, tail: Seq<char>)
    ensures
        array_items(quoted(w) + "]"@ + tail) == Some((seq![w], tail)),
{
    reveal(array_items);
    reveal_strlit("]");
    let after = "]"@ + tail;
    assert(quoted(w) + "]"@ + tail =~= quoted(w) + after);
    lemma_quoted_reads(w, after);
    lemma_skip_ws_stops(after);
    assert(after.skip(1) =~= tail);
}

proof fn lemma_next_item(w: Seq<char>, j: Seq<char>, rest: Seq<char>)
    requires
        j.len() > 0,
        j[0] == '"',
    ensures
        array_items(quoted(w) + ", "@ + j + rest) == match array_items(j + rest) {
            Some((vs, r)) => Some((seq![w] + vs, r)),
            None => None::<(Seq<Seq<char>>, Seq<char>)>,
        },
{
    reveal(array_items);
    reveal_strlit(", ");
    let after = ", "@ + j + rest;
    assert(quoted(w) + ", "@ + j + rest =~= quoted(w) + after);
    lemma_quoted_reads(w, after);
    lemma_skip_ws_stops(after);
    assert(after.skip(1) =~= seq![' '] + (j + rest));
    lemma_skip_ws_space(j + rest);
    lemma_skip_ws_stops(j + rest);
}

/// The quoted, comma-separated words and a closing bracket read back as the
/// words, leaving what follows the bracket.
#[verifier::rlimit(30)]
proof fn lemma_items_of_argv(ws: Seq<Seq<char>>, tail: Seq<char>)
    requires
        ws.len() > 0,
    ensures
        array_items(join(argv(ws), ", "@) + "]"@ + tail) == Some((ws, tail)),
    decreases ws.len(),
{
    let w0 = ws[0];
    let rest = ws.skip(1);
    assert(argv(ws) =~= seq![quoted(w0)] + argv(rest));
    assert(seq![w0] + rest =~= ws);
    if ws.len() == 1 {
        assert(argv(ws) =~= seq![quoted(w0)]);
        assert(join(argv(ws), ", "@) == quoted(w0));
        lemma_last_item(w0, tail);
    } else {
        lemma_join_front(quoted(w0), argv(rest), ", "@);
        let j = join(argv(rest), ", "@);
        lemma_join_starts_with_quote(rest);
        assert(join(argv(ws), ", "@) + "]"@ + tail =~= quoted(w0) + ", "@ + j + ("]"@ + tail));
        lemma_next_item(w0, j, "]"@ + tail);
        lemma_items_of_argv(rest, tail);
        assert(j + ("]"@ + tail) =~= join(argv(rest), ", "@) + "]"@ + tail);
    }
}

proof fn lemma_shell_argv()
    ensures
        "[\"/bin/sh\", \"-c\", \""@ =~= seq!['['] + quoted("/bin/sh"@) + ", "@ + quoted("-c"@) + ", "@
            + seq!['"'],
        "\"]"@ =~= seq!['"'] + "]"@,
{
    reveal_strlit("[\"/bin/sh\", \"-c\", \"");
    reveal_strlit("/bin/sh");
    reveal_strlit("-c");
    reveal_strlit(", ");
    reveal_strlit("\"]");
    reveal_strlit("]");
    law_escape_keeps_plain_text("/bin/sh"@);
    law_escape_keeps_plain_text("-c"@);
}

proof fn lemma_shell_prefix()
    ensures
        "CMD [\"/bin/sh\", \"-c\", \""@ =~= "CMD "@ + "[\"/bin/sh\", \"-c\", \""@,
{
    reveal_strlit("CMD [\"/bin/sh\", \"-c\", \"");
    reveal_strlit("CMD ");
    reveal_strlit("[\"/bin/sh\", \"-c\", \"");
}

proof fn lemma_after_prefix(x: Seq<char>)
    ensures
        ("CMD "@ + x).skip(4) == x,
        ("CMD "@ + x).take(4) == "CMD "@,
{
    reveal_strlit("CMD ");
    assert(("CMD "@ + x).skip(4) =~= x);
    assert(("CMD "@ + x).take(4) =~= "CMD "@);
}

proof fn lemma_after_cmd(x: Seq<char>)
    ensures
        ("CMD ["@ + x).skip(4) == seq!['['] + x,
        ("CMD ["@ + x).take(4) == "CMD "@,
{
    reveal_strlit("CMD [");
    reveal_strlit("CMD ");
    assert(("CMD ["@ + x).skip(4) =~= seq!['['] + x);
    assert(("CMD ["@ + x).take(4) =~= "CMD "@);
}

#[verifier::rlimit(30)]
proof fn lemma_cmd_shell_reads_back(cmd: Seq<char>)
    requires
        needs_shell(cmd),
    ensures
        cmd_text(cmd).take(4) == "CMD "@,
        json_string_array(cmd_text(cmd).skip(4)) == Some(seq!["/bin/sh"@, "-c"@, cmd]),
{
    let t = cmd_text(cmd);
        let ws = seq!["/bin/sh"@, "-c"@, cmd];
        lemma_shell_argv();
        assert(argv(ws) =~= seq![quoted("/bin/sh"@)] + seq![quoted("-c"@), quoted(cmd)]);
        lemma_join_front(quoted("/bin/sh"@), seq![quoted("-c"@), quoted(cmd)], ", "@);
        assert(seq![quoted("-c"@), quoted(cmd)] =~= seq![quoted("-c"@)] + seq![quoted(cmd)]);
        lemma_join_front(quoted("-c"@), seq![quoted(cmd)], ", "@);
        assert(join(seq![quoted(cmd)], ", "@) == quoted(cmd));
        let body = join(argv(ws), ", "@) + "]"@;
        lemma_shell_prefix();
        let p = "[\"/bin/sh\", \"-c\", \""@;
        assert(t =~= "CMD "@ + (p + escape(cmd) + "\"]"@));
        assert(p + escape(cmd) + "\"]"@ =~= seq!['['] + body);
        lemma_after_prefix(seq!['['] + body);
        lemma_skip_ws_stops(seq!['['] + body);
        assert((seq!['['] + body).skip(1) =~= body);
        lemma_join_starts_with_quote(ws);
        lemma_skip_ws_stops(body);
        lemma_items_of_argv(ws, Seq::<char>::empty());
        assert(body + Seq::<char>::empty() =~= body);
}

proof fn lemma_cmd_words_read_back(cmd: Seq<char>)
    requires
        !needs_shell(cmd),
    ensures
        cmd_text(cmd).take(4) == "CMD "@,
        json_string_array(cmd_text(cmd).skip(4)) == Some(words(cmd)),
{
    reveal_strlit("]");
    let t = cmd_text(cmd);
    let ws = words(cmd);
    let body = join(argv(ws), ", "@) + "]"@;
    assert(t =~= "CMD ["@ + body);
    lemma_after_cmd(body);
    lemma_skip_ws_stops(seq!['['] + body);
    assert((seq!['['] + body).skip(1) =~= body);
    if ws.len() == 0 {
        assert(argv(ws).len() == 0);
        assert(body =~= "]"@);
        lemma_skip_ws_stops(body);
        assert(body.skip(1) =~= Seq::<char>::empty());
        assert(ws =~= Seq::<Seq<char>>::empty());
    } else {
        lemma_join_starts_with_quote(ws);
        lemma_skip_ws_stops(body);
        lemma_items_of_argv(ws, Seq::<char>::empty());
        assert(body + Seq::<char>::empty() =~= body);
    }
}

/// The `CMD` line is `CMD ` and a JSON array that reads back as the argument
/// vector: `/bin/sh -c <command>` when the command needs a shell, otherwise
/// the command's whitespace-separated words.
pub proof fn law_cmd_line_reads_back(cmd: Seq<char>)
    ensures
        cmd_text(cmd).take(4) == "CMD "@,
        json_string_array(cmd_text(cmd).skip(4)) == Some(
            if needs_shell(cmd) {
                seq!["/bin/sh"@, "-c"@, cmd]
            } else {
                words(cmd)
            },
        ),
{
    if needs_shell(cmd) {
        lemma_cmd_shell_reads_back(cmd);
    } else {
        lemma_cmd_words_read_back(cmd);
    }
}

} // verus!
