//! What the rendered Dockerfile text is made of: the lines it splits into,
//! which of them open a stage, and where the build-time environment lands.
use vstd::prelude::*;
use crate::dockerfile::{
    copy_from_line, copy_line, decimal, digit, dockerfile, dockerfile_lines, env_line, env_lines,
    law_cmd_line_is_one_line, law_env_line_is_one_line, mounts, no_control, path_lines, port_lines,
    run_line, runtime_env_lines, stage_lines, stages_lines, start_lines, cache_mount, secret_mount,
};
use crate::plan::{CommandView, CopyFromView, CopyView, PlanView, StageView};
use crate::text::{join, lemma_join_push, split_on};

verus! {

// ---------------------------------------------------------------------------
// Splitting joined text back into its lines

/// `s` holds no newline.
pub open spec fn one_line(s: Seq<char>) -> bool {
    forall|i: int| 0 <= i < s.len() ==> #[trigger] s[i] != '\n'
}

proof fn lemma_one_line_add(a: Seq<char>, b: Seq<char>)
    requires
        one_line(a),
        one_line(b),
    ensures
        one_line(a + b),
{
    assert forall|i: int| 0 <= i < (a + b).len() implies #[trigger] (a + b)[i] != '\n' by {
        if i < a.len() {
            assert((a + b)[i] == a[i]);
        } else {
            assert((a + b)[i] == b[i - a.len()]);
        }
    }
}

proof fn lemma_printable_one_line(s: Seq<char>)
    requires
        no_control(s),
    ensures
        one_line(s),
{
    assert forall|i: int| 0 <= i < s.len() implies #[trigger] s[i] != '\n' by {
        assert(' ' <= s[i]);
    }
}

proof fn lemma_split_one_line(s: Seq<char>)
    requires
        one_line(s),
    ensures
        split_on(s, '\n') == seq![s],
    decreases s.len(),
{
    if s.len() > 0 {
        let d = s.drop_last();
        assert(one_line(d)) by {
            assert forall|i: int| 0 <= i < d.len() implies #[trigger] d[i] != '\n' by {
                assert(d[i] == s[i]);
            }
        }
        lemma_split_one_line(d);
        assert(s.last() != '\n');
        assert(d.push(s.last()) =~= s);
        assert(split_on(s, '\n') == seq![d].update(0, d.push(s.last())));
        assert(seq![d].update(0, d.push(s.last())) =~= seq![s]);
    } else {
        assert(s =~= Seq::<char>::empty());
    }
}

proof fn lemma_split_after(a: Seq<char>, b: Seq<char>)
    requires
        one_line(b),
    ensures
        split_on(a + seq!['\n'] + b, '\n') == split_on(a, '\n').push(b),
    decreases b.len(),
{
    let t = a + seq!['\n'] + b;
    if b.len() == 0 {
        assert(t.drop_last() =~= a);
        assert(t.last() == '\n');
        assert(b =~= Seq::<char>::empty());
        assert(split_on(t, '\n') == split_on(a, '\n').push(Seq::<char>::empty()));
    } else {
        let d = b.drop_last();
        assert(one_line(d)) by {
            assert forall|i: int| 0 <= i < d.len() implies #[trigger] d[i] != '\n' by {
                assert(d[i] == b[i]);
            }
        }
        lemma_split_after(a, d);
        assert(t.drop_last() =~= a + seq!['\n'] + d);
        assert(t.last() == b.last());
        assert(b.last() != '\n');
        let p = split_on(a, '\n').push(d);
        assert(split_on(t, '\n') == p.update(p.len() - 1, p.last().push(t.last())));
        assert(d.push(b.last()) =~= b);
        assert(p.update(p.len() - 1, d.push(b.last())) =~= split_on(a, '\n').push(b));
    }
}

/// Text made by joining newline-free lines with `\n` splits at its newlines
/// back into exactly those lines.
pub proof fn law_split_join(parts: Seq<Seq<char>>)
    requires
        parts.len() > 0,
        forall|i: int| 0 <= i < parts.len() ==> one_line(#[trigger] parts[i]),
    ensures
        split_on(join(parts, "\n"@), '\n') == parts,
    decreases parts.len(),
{
    reveal_strlit("\n");
    if parts.len() == 1 {
        lemma_split_one_line(parts[0]);
        assert(seq![parts[0]] =~= parts);
    } else {
        let d = parts.drop_last();
        assert forall|i: int| 0 <= i < d.len() implies one_line(#[trigger] d[i]) by {
            assert(d[i] == parts[i]);
        }
        law_split_join(d);
        assert(one_line(parts.last()));
        assert("\n"@ =~= seq!['\n']);
        assert(join(parts, "\n"@) == join(d, "\n"@) + seq!['\n'] + parts.last());
        lemma_split_after(join(d, "\n"@), parts.last());
        assert(d.push(parts.last()) =~= parts);
    }
}

proof fn lemma_join_one_line(parts: Seq<Seq<char>>, sep: Seq<char>)
    requires
        one_line(sep),
        forall|i: int| 0 <= i < parts.len() ==> one_line(#[trigger] parts[i]),
    ensures
        one_line(join(parts, sep)),
    decreases parts.len(),
{
    if parts.len() > 1 {
        let d = parts.drop_last();
        assert forall|i: int| 0 <= i < d.len() implies one_line(#[trigger] d[i]) by {
            assert(d[i] == parts[i]);
        }
        lemma_join_one_line(d, sep);
        lemma_one_line_add(join(d, sep), sep);
        lemma_one_line_add(join(d, sep) + sep, parts.last());
    } else if parts.len() == 1 {
        assert(one_line(parts[0]));
    } else {
        assert(join(parts, sep) =~= Seq::<char>::empty());
    }
}

// ---------------------------------------------------------------------------
// Which lines are newline-free, and which open a stage

/// Every line of `ls` is newline-free.
pub open spec fn all_one_line(ls: Seq<Seq<char>>) -> bool {
    forall|i: int| 0 <= i < ls.len() ==> one_line(#[trigger] ls[i])
}

/// A line that opens a stage: it starts with `FROM `.
pub open spec fn is_from_line(l: Seq<char>) -> bool {
    l.len() >= 5 && l.take(5) == "FROM "@
}

/// No line of `ls` opens a stage.
pub open spec fn no_from(ls: Seq<Seq<char>>) -> bool {
    forall|i: int| 0 <= i < ls.len() ==> !is_from_line(#[trigger] ls[i])
}

/// The lines of `ls` that open a stage, in order.
pub open spec fn from_lines(ls: Seq<Seq<char>>) -> Seq<Seq<char>>
    decreases ls.len(),
{
    if ls.len() == 0 {
        Seq::empty()
    } else if is_from_line(ls.last()) {
        from_lines(ls.drop_last()).push(ls.last())
    } else {
        from_lines(ls.drop_last())
    }
}

/// The line that opens stage `s`.
pub open spec fn from_line(s: StageView) -> Seq<char> {
    "FROM "@ + s.base_image + " AS "@ + s.name
}

/// No text field of a command holds a newline.
pub open spec fn command_one_line(c: CommandView) -> bool {
    &&& one_line(c.run)
    &&& forall|j: int| 0 <= j < c.cache_mounts.len() ==> one_line(#[trigger] c.cache_mounts[j])
}

/// No text field of a stage holds a newline.
pub open spec fn stage_one_line(s: StageView) -> bool {
    &&& one_line(s.name)
    &&& one_line(s.base_image)
    &&& one_line(s.workdir)
    &&& forall|j: int| 0 <= j < s.commands.len() ==> command_one_line(#[trigger] s.commands[j])
    &&& forall|j: int|
        0 <= j < s.copy_files.len() ==> one_line((#[trigger] s.copy_files[j]).src) && one_line(
            s.copy_files[j].dest,
        )
    &&& forall|j: int|
        0 <= j < s.copy_from.len() ==> one_line((#[trigger] s.copy_from[j]).stage) && one_line(
            s.copy_from[j].src,
        ) && one_line(s.copy_from[j].dest)
}

/// No text field of the plan that is written verbatim holds a newline.
/// (Environment values and the start command may: they are escaped.)
pub open spec fn fields_one_line(p: PlanView) -> bool {
    &&& forall|i: int| 0 <= i < p.stages.len() ==> stage_one_line(#[trigger] p.stages[i])
    &&& forall|i: int| 0 <= i < p.secrets.len() ==> one_line(#[trigger] p.secrets[i])
    &&& forall|i: int| 0 <= i < p.paths.len() ==> one_line(#[trigger] p.paths[i])
}

proof fn lemma_all_one_line_add(a: Seq<Seq<char>>, b: Seq<Seq<char>>)
    requires
        all_one_line(a),
        all_one_line(b),
    ensures
        all_one_line(a + b),
{
    assert forall|i: int| 0 <= i < (a + b).len() implies one_line(#[trigger] (a + b)[i]) by {
        if i < a.len() {
            assert((a + b)[i] == a[i]);
        } else {
            assert((a + b)[i] == b[i - a.len()]);
        }
    }
}

proof fn lemma_no_from_add(a: Seq<Seq<char>>, b: Seq<Seq<char>>)
    requires
        no_from(a),
        no_from(b),
    ensures
        no_from(a + b),
{
    assert forall|i: int| 0 <= i < (a + b).len() implies !is_from_line(#[trigger] (a + b)[i]) by {
        if i < a.len() {
            assert((a + b)[i] == a[i]);
        } else {
            assert((a + b)[i] == b[i - a.len()]);
        }
    }
}

proof fn lemma_from_lines_add(a: Seq<Seq<char>>, b: Seq<Seq<char>>)
    ensures
        from_lines(a + b) == from_lines(a) + from_lines(b),
    decreases b.len(),
{
    if b.len() == 0 {
        assert(a + b =~= a);
        assert(from_lines(a) + from_lines(b) =~= from_lines(a));
    } else {
        lemma_from_lines_add(a, b.drop_last());
        assert((a + b).drop_last() =~= a + b.drop_last());
        assert((a + b).last() == b.last());
        if is_from_line(b.last()) {
            assert(from_lines(a) + from_lines(b.drop_last()).push(b.last()) =~= (from_lines(a)
                + from_lines(b.drop_last())).push(b.last()));
        }
    }
}

proof fn lemma_from_lines_none(a: Seq<Seq<char>>)
    requires
        no_from(a),
    ensures
        from_lines(a) == Seq::<Seq<char>>::empty(),
    decreases a.len(),
{
    if a.len() > 0 {
        let d = a.drop_last();
        assert(no_from(d)) by {
            assert forall|i: int| 0 <= i < d.len() implies !is_from_line(#[trigger] d[i]) by {
                assert(d[i] == a[i]);
            }
        }
        lemma_from_lines_none(d);
        assert(!is_from_line(a[a.len() - 1]));
    }
}

proof fn lemma_not_from(l: Seq<char>)
    requires
        l.len() > 0,
        l[0] != 'F',
    ensures
        !is_from_line(l),
{
    reveal_strlit("FROM ");
    if l.len() >= 5 && l.take(5) == "FROM "@ {
        assert(l.take(5)[0] == l[0]);
    }
}

proof fn lemma_from_line(s: StageView)
    ensures
        is_from_line(from_line(s)),
        one_line(s.base_image) && one_line(s.name) ==> one_line(from_line(s)),
{
    reveal_strlit("FROM ");
    reveal_strlit(" AS ");
    assert(from_line(s).take(5) =~= "FROM "@);
    if one_line(s.base_image) && one_line(s.name) {
        lemma_one_line_add("FROM "@, s.base_image);
        lemma_one_line_add("FROM "@ + s.base_image, " AS "@);
        lemma_one_line_add("FROM "@ + s.base_image + " AS "@, s.name);
    }
}

proof fn lemma_empty_line()
    ensures
        one_line(Seq::<char>::empty()),
        !is_from_line(Seq::<char>::empty()),
{
}

proof fn lemma_workdir_line(st: StageView)
    ensures
        !is_from_line("WORKDIR "@ + st.workdir),
        one_line(st.workdir) ==> one_line("WORKDIR "@ + st.workdir),
{
    reveal_strlit("WORKDIR ");
    lemma_not_from("WORKDIR "@ + st.workdir);
    if one_line(st.workdir) {
        lemma_one_line_add("WORKDIR "@, st.workdir);
    }
}

proof fn lemma_copy_lines(cs: Seq<CopyView>)
    ensures
        no_from(cs.map_values(|c: CopyView| copy_line(c))),
        (forall|j: int| 0 <= j < cs.len() ==> one_line((#[trigger] cs[j]).src) && one_line(
            cs[j].dest,
        )) ==> all_one_line(cs.map_values(|c: CopyView| copy_line(c))),
{
    reveal_strlit("COPY ");
    reveal_strlit(" ");
    let ls = cs.map_values(|c: CopyView| copy_line(c));
    assert forall|j: int| 0 <= j < ls.len() implies !is_from_line(#[trigger] ls[j]) by {
        assert(ls[j] == copy_line(cs[j]));
        lemma_not_from(ls[j]);
    }
    if forall|j: int| 0 <= j < cs.len() ==> one_line((#[trigger] cs[j]).src) && one_line(
        cs[j].dest,
    ) {
        assert forall|j: int| 0 <= j < ls.len() implies one_line(#[trigger] ls[j]) by {
            let c = cs[j];
            assert(ls[j] == copy_line(c));
            lemma_one_line_add("COPY "@, c.src);
            lemma_one_line_add("COPY "@ + c.src, " "@);
            lemma_one_line_add("COPY "@ + c.src + " "@, c.dest);
        }
    }
}

proof fn lemma_copy_from_lines(cs: Seq<CopyFromView>)
    ensures
        no_from(cs.map_values(|c: CopyFromView| copy_from_line(c))),
        (forall|j: int|
            0 <= j < cs.len() ==> one_line((#[trigger] cs[j]).stage) && one_line(cs[j].src)
                && one_line(cs[j].dest)) ==> all_one_line(
            cs.map_values(|c: CopyFromView| copy_from_line(c)),
        ),
{
    reveal_strlit("COPY --from=");
    reveal_strlit(" ");
    let ls = cs.map_values(|c: CopyFromView| copy_from_line(c));
    assert forall|j: int| 0 <= j < ls.len() implies !is_from_line(#[trigger] ls[j]) by {
        assert(ls[j] == copy_from_line(cs[j]));
        lemma_not_from(ls[j]);
    }
    if forall|j: int|
        0 <= j < cs.len() ==> one_line((#[trigger] cs[j]).stage) && one_line(cs[j].src)
            && one_line(cs[j].dest) {
        assert forall|j: int| 0 <= j < ls.len() implies one_line(#[trigger] ls[j]) by {
            let c = cs[j];
            assert(ls[j] == copy_from_line(c));
            lemma_one_line_add("COPY --from="@, c.stage);
            lemma_one_line_add("COPY --from="@ + c.stage, " "@);
            lemma_one_line_add("COPY --from="@ + c.stage + " "@, c.src);
            lemma_one_line_add("COPY --from="@ + c.stage + " "@ + c.src, " "@);
            lemma_one_line_add("COPY --from="@ + c.stage + " "@ + c.src + " "@, c.dest);
        }
    }
}

proof fn lemma_mounts_one_line(secrets: Seq<Seq<char>>, index: int, c: CommandView)
    requires
        forall|i: int| 0 <= i < secrets.len() ==> one_line(#[trigger] secrets[i]),
        command_one_line(c),
    ensures
        all_one_line(mounts(secrets, index, c)),
{
    reveal_strlit("--mount=type=secret,id=");
    reveal_strlit("--mount=type=cache,target=");
    let a = if index == 0 {
        secrets.map_values(|id: Seq<char>| secret_mount(id))
    } else {
        Seq::empty()
    };
    let b = c.cache_mounts.map_values(|m: Seq<char>| cache_mount(m));
    assert forall|j: int| 0 <= j < a.len() implies one_line(#[trigger] a[j]) by {
        assert(a[j] == secret_mount(secrets[j]));
        lemma_one_line_add("--mount=type=secret,id="@, secrets[j]);
    }
    assert forall|j: int| 0 <= j < b.len() implies one_line(#[trigger] b[j]) by {
        assert(b[j] == cache_mount(c.cache_mounts[j]));
        lemma_one_line_add("--mount=type=cache,target="@, c.cache_mounts[j]);
    }
    lemma_all_one_line_add(a, b);
    assert(mounts(secrets, index, c) == a + b);
}

proof fn lemma_run_lines(secrets: Seq<Seq<char>>, index: int, cs: Seq<CommandView>)
    ensures
        no_from(cs.map_values(|c: CommandView| run_line(mounts(secrets, index, c), c.run))),
        (forall|i: int| 0 <= i < secrets.len() ==> one_line(#[trigger] secrets[i])) && (forall|
            j: int,
        |
            0 <= j < cs.len() ==> command_one_line(#[trigger] cs[j])) ==> all_one_line(
            cs.map_values(|c: CommandView| run_line(mounts(secrets, index, c), c.run)),
        ),
{
    reveal_strlit("RUN ");
    reveal_strlit(" ");
    let ls = cs.map_values(|c: CommandView| run_line(mounts(secrets, index, c), c.run));
    assert forall|j: int| 0 <= j < ls.len() implies !is_from_line(#[trigger] ls[j]) by {
        assert(ls[j] == run_line(mounts(secrets, index, cs[j]), cs[j].run));
        lemma_not_from(ls[j]);
    }
    if (forall|i: int| 0 <= i < secrets.len() ==> one_line(#[trigger] secrets[i])) && (forall|
        j: int,
    |
        0 <= j < cs.len() ==> command_one_line(#[trigger] cs[j])) {
        assert forall|j: int| 0 <= j < ls.len() implies one_line(#[trigger] ls[j]) by {
            let c = cs[j];
            let ms = mounts(secrets, index, c);
            assert(ls[j] == run_line(ms, c.run));
            assert(command_one_line(c));
            if ms.len() == 0 {
                lemma_one_line_add("RUN "@, c.run);
            } else {
                lemma_mounts_one_line(secrets, index, c);
                lemma_join_one_line(ms, " "@);
                lemma_one_line_add("RUN "@, join(ms, " "@));
                lemma_one_line_add("RUN "@ + join(ms, " "@), " "@);
                lemma_one_line_add("RUN "@ + join(ms, " "@) + " "@, c.run);
            }
        }
    }
}

proof fn lemma_env_lines(e: Seq<(Seq<char>, Seq<char>)>)
    ensures
        no_from(env_lines(e)),
        all_one_line(env_lines(e)),
    decreases e.len(),
{
    reveal_strlit("ENV ");
    if e.len() > 0 {
        let d = e.drop_last();
        lemma_env_lines(d);
        if crate::dockerfile::env_key_ok(e.last().0) {
            let l = env_line(e.last().0, e.last().1);
            assert(l[0] == 'E');
            lemma_not_from(l);
            law_env_line_is_one_line(e.last().0, e.last().1);
            lemma_printable_one_line(l);
            let r = env_lines(d);
            assert(env_lines(e) == r.push(l));
            assert forall|i: int| 0 <= i < r.push(l).len() implies !is_from_line(
                #[trigger] r.push(l)[i],
            ) && one_line(r.push(l)[i]) by {
                if i < r.len() {
                    assert(r.push(l)[i] == r[i]);
                }
            }
        }
    }
}

/// The lines of a stage: a blank line, its `FROM` line, its `WORKDIR` line,
/// then lines of which none opens a stage.
#[verifier::rlimit(30)]
proof fn lemma_stage_lines(p: PlanView, i: int)
    requires
        0 <= i < p.stages.len(),
    ensures
        stage_lines(p, i).len() >= 3,
        stage_lines(p, i)[0] == Seq::<char>::empty(),
        stage_lines(p, i)[1] == from_line(p.stages[i]),
        stage_lines(p, i)[2] == "WORKDIR "@ + p.stages[i].workdir,
        no_from(stage_lines(p, i).skip(2)),
        from_lines(stage_lines(p, i)) == seq![from_line(p.stages[i])],
        fields_one_line(p) ==> all_one_line(stage_lines(p, i)),
        i == crate::plan::build_index(p.stages) ==> stage_lines(p, i).len() >= 3 + env_lines(
            p.build_env,
        ).len() && stage_lines(p, i).subrange(3, 3 + env_lines(p.build_env).len() as int)
            == env_lines(p.build_env),
{
    let st = p.stages[i];
    let head = seq![Seq::<char>::empty(), from_line(st), "WORKDIR "@ + st.workdir];
    let benv = if i == crate::plan::build_index(p.stages) {
        env_lines(p.build_env)
    } else {
        Seq::empty()
    };
    let copies = st.copy_files.map_values(|c: CopyView| copy_line(c));
    let froms = st.copy_from.map_values(|c: CopyFromView| copy_from_line(c));
    let runs = st.commands.map_values(
        |c: CommandView| run_line(mounts(p.secrets, i, c), c.run),
    );
    let rest = benv + copies + froms + runs;
    assert(head =~= seq![Seq::<char>::empty(), "FROM "@ + st.base_image + " AS "@ + st.name, "WORKDIR "@ + st.workdir]);
    assert(stage_lines(p, i) =~= head + rest);
    if i == crate::plan::build_index(p.stages) {
        assert(stage_lines(p, i).subrange(3, 3 + env_lines(p.build_env).len() as int) =~= env_lines(
            p.build_env,
        ));
    }
    lemma_env_lines(p.build_env);
    lemma_copy_lines(st.copy_files);
    lemma_copy_from_lines(st.copy_from);
    lemma_run_lines(p.secrets, i, st.commands);
    lemma_workdir_line(st);
    lemma_from_line(st);
    lemma_empty_line();
    assert(no_from(benv));
    lemma_no_from_add(benv, copies);
    lemma_no_from_add(benv + copies, froms);
    lemma_no_from_add(benv + copies + froms, runs);
    lemma_no_from_add(seq!["WORKDIR "@ + st.workdir], rest);
    assert(stage_lines(p, i).skip(2) =~= seq!["WORKDIR "@ + st.workdir] + rest);
    reveal_with_fuel(from_lines, 4);
    assert(head.drop_last() =~= seq![Seq::<char>::empty(), from_line(st)]);
    assert(head.drop_last().drop_last() =~= seq![Seq::<char>::empty()]);
    assert(seq![Seq::<char>::empty()].drop_last() =~= Seq::<Seq<char>>::empty());
    assert(from_lines(head) =~= seq![from_line(st)]);
    lemma_from_lines_add(head, rest);
    lemma_from_lines_none(rest);
    assert(from_lines(head) + from_lines(rest) =~= seq![from_line(st)]);
    if fields_one_line(p) {
        assert(stage_one_line(st));
        assert(all_one_line(head));
        assert(all_one_line(benv));
        lemma_all_one_line_add(benv, copies);
        lemma_all_one_line_add(benv + copies, froms);
        lemma_all_one_line_add(benv + copies + froms, runs);
        lemma_all_one_line_add(head, rest);
    }
}

/// The lines of the first `n` stages: the stage-opening ones are the `FROM`
/// lines of those stages, in order.
proof fn lemma_stages_lines(p: PlanView, n: int)
    requires
        0 <= n <= p.stages.len(),
    ensures
        from_lines(stages_lines(p, n)) == p.stages.take(n).map_values(
            |s: StageView| from_line(s),
        ),
        fields_one_line(p) ==> all_one_line(stages_lines(p, n)),
    decreases n,
{
    if n == 0 {
        assert(p.stages.take(0).map_values(|s: StageView| from_line(s)) =~= Seq::<
            Seq<char>,
        >::empty());
    } else {
        lemma_stages_lines(p, n - 1);
        lemma_stage_lines(p, n - 1);
        lemma_from_lines_add(stages_lines(p, n - 1), stage_lines(p, n - 1));
        assert(p.stages.take(n).map_values(|s: StageView| from_line(s)) =~= p.stages.take(
            n - 1,
        ).map_values(|s: StageView| from_line(s)).push(from_line(p.stages[n - 1])));
        if fields_one_line(p) {
            lemma_all_one_line_add(stages_lines(p, n - 1), stage_lines(p, n - 1));
        }
    }
}

/// `stages_lines(p, m)` is where `stages_lines(p, n)` starts, for `m <= n`.
proof fn lemma_stages_prefix(p: PlanView, m: int, n: int)
    requires
        0 <= m <= n,
    ensures
        stages_lines(p, m).len() <= stages_lines(p, n).len(),
        stages_lines(p, n).take(stages_lines(p, m).len() as int) == stages_lines(p, m),
    decreases n,
{
    if m < n {
        lemma_stages_prefix(p, m, n - 1);
        let a = stages_lines(p, n - 1);
        assert(stages_lines(p, n) == a + stage_lines(p, n - 1));
        assert((a + stage_lines(p, n - 1)).take(stages_lines(p, m).len() as int) =~= a.take(
            stages_lines(p, m).len() as int,
        ));
    } else {
        assert(stages_lines(p, n).take(stages_lines(p, n).len() as int) =~= stages_lines(p, n));
    }
}

proof fn lemma_decimal_one_line(n: nat)
    ensures
        one_line(decimal(n)),
    decreases n,
{
    if n < 10 {
        assert((48 + n) as u8 == 48 + n);
        assert(decimal(n) =~= seq![digit(n)]);
    } else {
        lemma_decimal_one_line(n / 10);
        let d = (n % 10) as nat;
        assert((48 + d) as u8 == 48 + d);
        assert(one_line(seq![digit(d)]));
        lemma_one_line_add(decimal(n / 10), seq![digit(d)]);
    }
}

/// The lines after the stages: runtime environment, `PATH`, `EXPOSE`, the
/// start command and the closing blank line. None opens a stage.
#[verifier::rlimit(30)]
proof fn lemma_tail_lines(p: PlanView)
    ensures
        no_from(
            runtime_env_lines(p) + path_lines(p) + port_lines(p) + start_lines(p) + seq![
                Seq::<char>::empty(),
            ],
        ),
        fields_one_line(p) ==> all_one_line(
            runtime_env_lines(p) + path_lines(p) + port_lines(p) + start_lines(p) + seq![
                Seq::<char>::empty(),
            ],
        ),
{
    reveal_strlit("ENV PATH=\"");
    reveal_strlit(":");
    reveal_strlit(":$PATH\"");
    reveal_strlit("EXPOSE ");
    reveal_strlit("CMD [\"/bin/sh\", \"-c\", \"");
    reveal_strlit("CMD [");
    lemma_empty_line();
    lemma_env_lines(p.env);
    let blank = seq![Seq::<char>::empty()];
    assert(no_from(blank) && all_one_line(blank));
    let r = runtime_env_lines(p);
    if env_lines(p.env).len() > 0 {
        lemma_no_from_add(blank, env_lines(p.env));
        lemma_all_one_line_add(blank, env_lines(p.env));
    }
    assert(no_from(r) && all_one_line(r));
    let pl = path_lines(p);
    if p.paths.len() > 0 {
        let l = "ENV PATH=\""@ + join(p.paths, ":"@) + ":$PATH\""@;
        lemma_not_from(l);
        if fields_one_line(p) {
            lemma_join_one_line(p.paths, ":"@);
            lemma_one_line_add("ENV PATH=\""@, join(p.paths, ":"@));
            lemma_one_line_add("ENV PATH=\""@ + join(p.paths, ":"@), ":$PATH\""@);
        }
        assert(pl =~= blank + seq![l]);
        lemma_no_from_add(blank, seq![l]);
        if fields_one_line(p) {
            lemma_all_one_line_add(blank, seq![l]);
        }
    }
    assert(no_from(pl));
    let po = port_lines(p);
    match p.port {
        Some(port) => {
            let l = "EXPOSE "@ + decimal(port as nat);
            lemma_not_from(l);
            lemma_decimal_one_line(port as nat);
            lemma_one_line_add("EXPOSE "@, decimal(port as nat));
            assert(po =~= blank + seq![l]);
            lemma_no_from_add(blank, seq![l]);
            lemma_all_one_line_add(blank, seq![l]);
        },
        None => {},
    }
    let sl = start_lines(p);
    match p.start_command {
        Some(cmd) => {
            let l = crate::dockerfile::cmd_text(cmd);
            assert(l[0] == 'C');
            lemma_not_from(l);
            law_cmd_line_is_one_line(cmd);
            lemma_printable_one_line(l);
            assert(no_from(sl) && all_one_line(sl));
        },
        None => {},
    }
    lemma_no_from_add(r, pl);
    lemma_no_from_add(r + pl, po);
    lemma_no_from_add(r + pl + po, sl);
    lemma_no_from_add(r + pl + po + sl, blank);
    if fields_one_line(p) {
        lemma_all_one_line_add(r, pl);
        lemma_all_one_line_add(r + pl, po);
        lemma_all_one_line_add(r + pl + po, sl);
        lemma_all_one_line_add(r + pl + po + sl, blank);
    }
}

// ---------------------------------------------------------------------------
// Laws on the rendered text

proof fn lemma_header_line()
    ensures
        one_line("# syntax=docker/dockerfile:1"@),
        !is_from_line("# syntax=docker/dockerfile:1"@),
        no_from(seq!["# syntax=docker/dockerfile:1"@]),
{
    reveal_strlit("# syntax=docker/dockerfile:1");
    lemma_not_from("# syntax=docker/dockerfile:1"@);
}

/// The tail of the Dockerfile's lines after the stages.
pub open spec fn tail_lines(p: PlanView) -> Seq<Seq<char>> {
    runtime_env_lines(p) + path_lines(p) + port_lines(p) + start_lines(p) + seq![
        Seq::<char>::empty(),
    ]
}

proof fn lemma_dockerfile_parts(p: PlanView)
    ensures
        dockerfile_lines(p) == seq!["# syntax=docker/dockerfile:1"@] + stages_lines(
            p,
            p.stages.len() as int,
        ) + tail_lines(p),
{
    assert(dockerfile_lines(p) =~= seq!["# syntax=docker/dockerfile:1"@] + stages_lines(
        p,
        p.stages.len() as int,
    ) + tail_lines(p));
}

/// With no newline in the plan's verbatim text fields, the Dockerfile text
/// splits at its newlines into exactly its lines; the first is the syntax
/// header, and the text ends with a newline.
pub proof fn law_dockerfile_splits_into_lines(p: PlanView)
    requires
        fields_one_line(p),
    ensures
        split_on(dockerfile(p), '\n') == dockerfile_lines(p),
        dockerfile_lines(p)[0] == "# syntax=docker/dockerfile:1"@,
        dockerfile(p).len() > 0,
        dockerfile(p).last() == '\n',
{
    let h = seq!["# syntax=docker/dockerfile:1"@];
    let sl = stages_lines(p, p.stages.len() as int);
    lemma_dockerfile_parts(p);
    lemma_header_line();
    lemma_stages_lines(p, p.stages.len() as int);
    lemma_tail_lines(p);
    assert(all_one_line(h));
    lemma_all_one_line_add(h, sl);
    lemma_all_one_line_add(h + sl, tail_lines(p));
    law_split_join(dockerfile_lines(p));
    let ls = dockerfile_lines(p);
    let d = ls.drop_last();
    assert(ls.last() == Seq::<char>::empty());
    assert(d.len() > 0);
    assert(d.push(ls.last()) =~= ls);
    lemma_join_push(d, "\n"@, Seq::<char>::empty());
    reveal_strlit("\n");
    assert(dockerfile(p) == join(d, "\n"@) + "\n"@ + Seq::<char>::empty());
    assert(dockerfile(p) =~= join(d, "\n"@) + seq!['\n']);
}

/// The lines that open a stage (those starting with `FROM `) are one per
/// stage, in stage order, each naming that stage's base image and name.
pub proof fn law_from_lines_follow_stages(p: PlanView)
    ensures
        from_lines(dockerfile_lines(p)) == p.stages.map_values(|s: StageView| from_line(s)),
{
    let h = seq!["# syntax=docker/dockerfile:1"@];
    let sl = stages_lines(p, p.stages.len() as int);
    lemma_dockerfile_parts(p);
    lemma_header_line();
    lemma_stages_lines(p, p.stages.len() as int);
    lemma_tail_lines(p);
    lemma_from_lines_none(h);
    lemma_from_lines_none(tail_lines(p));
    lemma_from_lines_add(h, sl);
    lemma_from_lines_add(h + sl, tail_lines(p));
    assert(p.stages.take(p.stages.len() as int) =~= p.stages);
    assert(from_lines(h) + from_lines(sl) + from_lines(tail_lines(p)) =~= from_lines(sl));
}

/// Where the `FROM` line of the build stage stands among the Dockerfile's
/// lines: after the header and the lines of the stages before it, and that
/// stage's blank separator line.
pub open spec fn build_from_index(p: PlanView) -> int {
    2 + stages_lines(p, crate::plan::build_index(p.stages)).len() as int
}

/// The build-time environment lands in the stage where the application is
/// built: that stage's `FROM` line is preceded by exactly the `FROM` lines of
/// the stages before it, and right after it and its `WORKDIR` line come the
/// `ENV` lines of the build environment, with no stage opened in between.
#[verifier::rlimit(30)]
pub proof fn law_build_env_in_build_stage(p: PlanView)
    requires
        p.stages.len() > 0,
    ensures
        build_from_index(p) + 2 + env_lines(p.build_env).len() <= dockerfile_lines(p).len(),
        dockerfile_lines(p)[build_from_index(p)] == from_line(
            p.stages[crate::plan::build_index(p.stages)],
        ),
        from_lines(dockerfile_lines(p).take(build_from_index(p))) == p.stages.take(
            crate::plan::build_index(p.stages),
        ).map_values(|s: StageView| from_line(s)),
        dockerfile_lines(p).subrange(
            build_from_index(p) + 2,
            build_from_index(p) + 2 + env_lines(p.build_env).len() as int,
        ) == env_lines(p.build_env),
        no_from(
            dockerfile_lines(p).subrange(
                build_from_index(p) + 1,
                build_from_index(p) + 2 + env_lines(p.build_env).len() as int,
            ),
        ),
{
    let b = crate::plan::build_index(p.stages);
    crate::plan::lemma_build_index(p.stages);
    let n = p.stages.len() as int;
    let h = seq!["# syntax=docker/dockerfile:1"@];
    let sb = stages_lines(p, b);
    let st = stage_lines(p, b);
    let sn = stages_lines(p, n);
    let m = env_lines(p.build_env).len() as int;
    let f = build_from_index(p);
    let ls = dockerfile_lines(p);
    lemma_dockerfile_parts(p);
    lemma_stage_lines(p, b);
    lemma_stages_lines(p, b);
    lemma_stages_prefix(p, b + 1, n);
    assert(stages_lines(p, b + 1) == sb + st);
    let a = h + sb + st;
    assert(ls.take(a.len() as int) =~= a) by {
        assert forall|k: int| 0 <= k < a.len() implies ls[k] == #[trigger] a[k] by {
            if k > 0 {
                assert(ls[k] == sn[k - 1]);
                assert(sn.take((sb + st).len() as int)[k - 1] == sn[k - 1]);
                assert(a[k] == (sb + st)[k - 1]);
            }
        }
    }
    assert(f == 2 + sb.len());
    assert(a.len() == 1 + sb.len() + st.len());
    assert(f + 2 + m <= a.len());
    assert(ls[f] == a[f]);
    assert(a[f] == st[1]);
    assert(ls.take(f) =~= h + sb + seq![st[0]]) by {
        assert forall|k: int| 0 <= k < f implies ls.take(f)[k] == #[trigger] (h + sb + seq![
            st[0],
        ])[k] by {
            assert(ls[k] == a[k]);
        }
    }
    lemma_header_line();
    lemma_empty_line();
    lemma_from_lines_none(h);
    assert(no_from(seq![st[0]]));
    lemma_from_lines_none(seq![st[0]]);
    lemma_from_lines_add(h, sb);
    lemma_from_lines_add(h + sb, seq![st[0]]);
    assert(from_lines(h) + from_lines(sb) + from_lines(seq![st[0]]) =~= from_lines(sb));
    assert(ls.subrange(f + 2, f + 2 + m) =~= st.subrange(3, 3 + m)) by {
        assert forall|k: int| 0 <= k < m implies ls.subrange(f + 2, f + 2 + m)[k]
            == #[trigger] st.subrange(3, 3 + m)[k] by {
            assert(ls[f + 2 + k] == a[f + 2 + k]);
        }
    }
    assert forall|k: int| 0 <= k < ls.subrange(f + 1, f + 2 + m).len() implies !is_from_line(
        #[trigger] ls.subrange(f + 1, f + 2 + m)[k],
    ) by {
        assert(ls[f + 1 + k] == a[f + 1 + k]);
        assert(a[f + 1 + k] == st[2 + k]);
        assert(st.skip(2)[k] == st[2 + k]);
    }
}

/// The whole layout of a rendered Dockerfile for a plan with at least one
/// stage and no newline in its verbatim text fields: it splits into its
/// lines, starts with the syntax header and ends with a newline; its `FROM`
/// lines follow the stages in order; and the build-time `ENV` lines sit in
/// the build stage, after its `FROM` and `WORKDIR` lines and before any other
/// stage opens.
pub proof fn law_generate_layout(p: PlanView)
    requires
        p.stages.len() > 0,
        fields_one_line(p),
    ensures
        split_on(dockerfile(p), '\n') == dockerfile_lines(p),
        dockerfile_lines(p)[0] == "# syntax=docker/dockerfile:1"@,
        dockerfile(p).last() == '\n',
        from_lines(dockerfile_lines(p)) == p.stages.map_values(|s: StageView| from_line(s)),
        dockerfile_lines(p)[build_from_index(p)] == from_line(
            p.stages[crate::plan::build_index(p.stages)],
        ),
        dockerfile_lines(p).subrange(
            build_from_index(p) + 2,
            build_from_index(p) + 2 + env_lines(p.build_env).len() as int,
        ) == env_lines(p.build_env),
        no_from(
            dockerfile_lines(p).subrange(
                build_from_index(p) + 1,
                build_from_index(p) + 2 + env_lines(p.build_env).len() as int,
            ),
        ),
{
    law_dockerfile_splits_into_lines(p);
    law_from_lines_follow_stages(p);
    law_build_env_in_build_stage(p);
}

/// Where the `RUN` line of command `j` of stage `i` stands among the stage's
/// lines: after the blank, `FROM` and `WORKDIR` lines, the build-time `ENV`
/// lines (build stage only), the `COPY` lines and the earlier commands.
pub open spec fn run_line_index(p: PlanView, i: int, j: int) -> int {
    let st = p.stages[i];
    let benv = if i == crate::plan::build_index(p.stages) {
        env_lines(p.build_env).len() as int
    } else {
        0
    };
    3 + benv + st.copy_files.len() + st.copy_from.len() + j
}

/// Each command of a stage renders as one `RUN` line: the plan's secret
/// mounts (first stage only), then the command's cache mounts, then the
/// command. On every later stage only the cache mounts are written.
pub proof fn law_run_lines(p: PlanView, i: int, j: int)
    requires
        0 <= i < p.stages.len(),
        0 <= j < p.stages[i].commands.len(),
    ensures
        stage_lines(p, i)[run_line_index(p, i, j)] == run_line(
            mounts(p.secrets, i, p.stages[i].commands[j]),
            p.stages[i].commands[j].run,
        ),
        i == 0 ==> mounts(p.secrets, i, p.stages[i].commands[j]) == p.secrets.map_values(
            |id: Seq<char>| secret_mount(id),
        ) + p.stages[i].commands[j].cache_mounts.map_values(|m: Seq<char>| cache_mount(m)),
        i != 0 ==> mounts(p.secrets, i, p.stages[i].commands[j])
            == p.stages[i].commands[j].cache_mounts.map_values(|m: Seq<char>| cache_mount(m)),
{
    let st = p.stages[i];
    let c = st.commands[j];
    let k = run_line_index(p, i, j);
    let runs = st.commands.map_values(
        |c: CommandView| run_line(mounts(p.secrets, i, c), c.run),
    );
    assert(stage_lines(p, i).len() == k - j + runs.len());
    assert(stage_lines(p, i)[k] == runs[j]);
    if i != 0 {
        crate::dockerfile::law_secrets_only_on_first_stage(p.secrets, i, c);
    }
}

} // verus!
