//! Runtime versions: an explicit override, a version file of the project, or a
//! provider default.
use vstd::prelude::*;
use crate::detect::{AppContext, ContextView};
use crate::error::Error;
use crate::plan::opt_view;
use crate::project::text;
use crate::sanitize::{token_ok, validate_token};
use crate::structured::{Found, FoundView, Step, StepView, step_views, toml_at, toml_lookup};
use crate::text::{
    chars_of, is_digit, lines, lower, lower_of, same, split_lines, split_words, string_of, trim,
    trimmed, vviews, words,
};

verus! {

/// `s` with every leading `c` removed.
pub open spec fn strip_leading(s: Seq<char>, c: char) -> Seq<char>
    decreases s.len(),
{
    if s.len() > 0 && s[0] == c {
        strip_leading(s.drop_first(), c)
    } else {
        s
    }
}

pub open spec fn version_char(c: char) -> bool {
    is_digit(c) || c == '.'
}

/// A raw version token with whitespace and leading `v`s trimmed, accepted only
/// when it looks like a dotted numeric version.
pub open spec fn normalized(raw: Seq<char>) -> Option<Seq<char>> {
    let v = trim(strip_leading(trim(raw), 'v'));
    if v.len() > 0 && (forall|i: int| 0 <= i < v.len() ==> version_char(#[trigger] v[i])) {
        Some(v)
    } else {
        None
    }
}

/// The version a plain version file holds.
pub open spec fn file_version(c: ContextView, file: Seq<char>) -> Option<Seq<char>> {
    match text(c.project, file) {
        Some(t) => normalized(t),
        None => None,
    }
}

pub open spec fn same_ignoring_case(a: Seq<char>, b: Seq<char>) -> bool {
    lower(a) == lower(b)
}

pub open spec fn is_alias(aliases: Seq<Seq<char>>, tool: Seq<char>) -> bool {
    exists|i: int| 0 <= i < aliases.len() && same_ignoring_case(#[trigger] aliases[i], tool)
}

/// The version one `.tool-versions` line gives for a tool known by `aliases`.
pub open spec fn line_version(line: Seq<char>, aliases: Seq<Seq<char>>) -> Option<Seq<char>> {
    let t = trim(line);
    let ws = words(t);
    if t.len() == 0 || t[0] == '#' || ws.len() == 0 {
        None
    } else if is_alias(aliases, ws[0]) && ws.len() > 1 {
        normalized(ws[1])
    } else {
        None
    }
}

/// The first line that gives a version.
pub open spec fn first_line_version(ls: Seq<Seq<char>>, aliases: Seq<Seq<char>>) -> Option<
    Seq<char>,
>
    decreases ls.len(),
{
    if ls.len() == 0 {
        None
    } else {
        match line_version(ls[0], aliases) {
            Some(v) => Some(v),
            None => first_line_version(ls.drop_first(), aliases),
        }
    }
}

/// The version `.tool-versions` gives for a tool known by `aliases`.
pub open spec fn tool_versions_version(c: ContextView, aliases: Seq<Seq<char>>) -> Option<Seq<char>> {
    match text(c.project, ".tool-versions"@) {
        Some(t) => first_line_version(lines(t), aliases),
        None => None,
    }
}

pub open spec fn key(k: Seq<char>) -> StepView {
    StepView::Key(k)
}

/// The raw version a mise `[tools]` entry gives: a string, a table's
/// `version`, or an array's first element.
pub open spec fn mise_entry(t: Seq<char>, alias: Seq<char>) -> Option<Seq<char>> {
    let at = toml_at(t, seq![key("tools"@), key(alias)]);
    let found = if at is Text {
        at
    } else if at is Table {
        toml_at(t, seq![key("tools"@), key(alias), key("version"@)])
    } else if at is Array {
        toml_at(t, seq![key("tools"@), key(alias), StepView::Index(0)])
    } else {
        FoundView::Absent
    };
    match found {
        FoundView::Text(s) => Some(s),
        _ => None,
    }
}

/// The first alias whose mise entry gives a version.
pub open spec fn mise_aliases(t: Seq<char>, aliases: Seq<Seq<char>>) -> Option<Seq<char>>
    decreases aliases.len(),
{
    if aliases.len() == 0 {
        None
    } else {
        let v = match mise_entry(t, aliases[0]) {
            Some(raw) => normalized(raw),
            None => None,
        };
        if v is Some {
            v
        } else {
            mise_aliases(t, aliases.drop_first())
        }
    }
}

/// The version a mise config file gives, when it has a `[tools]` table.
pub open spec fn mise_file_version(c: ContextView, path: Seq<char>, aliases: Seq<Seq<char>>) -> Option<
    Seq<char>,
> {
    match text(c.project, path) {
        Some(t) => if toml_at(t, seq![key("tools"@)]) is Table {
            mise_aliases(t, aliases)
        } else {
            None
        },
        None => None,
    }
}

pub open spec fn mise_paths() -> Seq<Seq<char>> {
    seq![".mise.toml"@, "mise.toml"@, ".config/mise/config.toml"@]
}

pub open spec fn first_mise_version(c: ContextView, paths: Seq<Seq<char>>, aliases: Seq<Seq<char>>) -> Option<
    Seq<char>,
>
    decreases paths.len(),
{
    if paths.len() == 0 {
        None
    } else {
        match mise_file_version(c, paths[0], aliases) {
            Some(v) => Some(v),
            None => first_mise_version(c, paths.drop_first(), aliases),
        }
    }
}

/// The version mise config (`.mise.toml`, `mise.toml`, `.config/mise/config.toml`) gives.
pub open spec fn mise_version(c: ContextView, aliases: Seq<Seq<char>>) -> Option<Seq<char>> {
    first_mise_version(c, mise_paths(), aliases)
}

/// The version the shared multi-tool files give: `.tool-versions`, then mise.
pub open spec fn tool_files_version(c: ContextView, aliases: Seq<Seq<char>>) -> Option<Seq<char>> {
    match tool_versions_version(c, aliases) {
        Some(v) => Some(v),
        None => mise_version(c, aliases),
    }
}

/// The version a provider builds with: an explicit override, else the
/// detected one, else the default.
pub open spec fn chosen_version(c: ContextView, detected: Option<Seq<char>>, default: Seq<char>) -> Seq<
    char,
> {
    match c.overrides.version {
        Some(v) => v,
        None => match detected {
            Some(v) => v,
            None => default,
        },
    }
}

pub open spec fn str_views(a: Seq<&str>) -> Seq<Seq<char>> {
    a.map_values(|s: &str| s@)
}

fn strip_leading_vs(s: &[char]) -> (out: Vec<char>)
    ensures
        out@ == strip_leading(s@, 'v'),
{
    let mut i: usize = 0;
    assert(s@.skip(0) =~= s@);
    while i < s.len() && s[i] == 'v'
        invariant
            i <= s@.len(),
            strip_leading(s@, 'v') == strip_leading(s@.skip(i as int), 'v'),
        decreases s@.len() - i,
    {
        assert(s@.skip(i as int).drop_first() =~= s@.skip(i + 1));
        i = i + 1;
    }
    crate::text::slice(s, i, s.len())
}

fn normalize_chars(raw: &[char]) -> (r: Option<Vec<char>>)
    ensures
        match r {
            Some(v) => normalized(raw@) == Some(v@),
            None => normalized(raw@) is None,
        },
{
    let v = trimmed(&strip_leading_vs(&trimmed(raw)));
    let ghost tv = trim(strip_leading(trim(raw@), 'v'));
    if v.len() == 0 {
        return None;
    }
    let mut i: usize = 0;
    while i < v.len()
        invariant
            i <= v@.len(),
            v@ == tv,
            tv == trim(strip_leading(trim(raw@), 'v')),
            forall|j: int| 0 <= j < i ==> version_char(#[trigger] v@[j]),
        decreases v@.len() - i,
    {
        let c = v[i];
        if !(('0' <= c && c <= '9') || c == '.') {
            assert(!version_char(v@[i as int]));
            return None;
        }
        i = i + 1;
    }
    Some(v)
}

/// Normalize a raw version token: trim whitespace and leading `v`s, and accept
/// it only when it looks like a dotted numeric version, so freeform values
/// (`lts/*`, `latest`, `system`) fall back to the provider default.
pub fn normalize_version(raw: &str) -> (r: Option<String>)
    ensures
        opt_view(r) == normalized(raw@),
{
    match normalize_chars(&chars_of(raw)) {
        Some(v) => Some(string_of(&v)),
        None => None,
    }
}

/// Read a version from a plain version file (`.nvmrc`, `.python-version`, ...).
pub fn version_from_file(ctx: &AppContext, file: &str) -> (r: Option<String>)
    ensures
        opt_view(r) == file_version(ctx@, file@),
{
    match ctx.read_file(file) {
        Ok(t) => normalize_version(t.as_str()),
        Err(_) => None,
    }
}

fn alias_matches(aliases: &[&str], tool: &[char]) -> (b: bool)
    ensures
        b == is_alias(str_views(aliases@), tool@),
{
    let lt = lower_of(tool);
    let ghost av = str_views(aliases@);
    let mut i: usize = 0;
    while i < aliases.len()
        invariant
            i <= aliases@.len(),
            av == str_views(aliases@),
            lt@ == lower(tool@),
            forall|j: int| 0 <= j < i ==> !same_ignoring_case(#[trigger] av[j], tool@),
        decreases aliases@.len() - i,
    {
        let la = lower_of(&chars_of(aliases[i]));
        if same(&la, &lt) {
            assert(same_ignoring_case(av[i as int], tool@));
            return true;
        }
        i = i + 1;
    }
    false
}

fn version_in_line(line: &[char], aliases: &[&str]) -> (r: Option<Vec<char>>)
    ensures
        match r {
            Some(v) => line_version(line@, str_views(aliases@)) == Some(v@),
            None => line_version(line@, str_views(aliases@)) is None,
        },
{
    let t = trimmed(line);
    let ws = split_words(&t);
    proof {
        assert(vviews(ws@).len() == ws@.len());
    }
    if t.len() == 0 || t[0] == '#' || ws.len() == 0 {
        return None;
    }
    proof {
        assert(vviews(ws@)[0] == ws@[0]@);
    }
    if alias_matches(aliases, ws[0].as_slice()) && ws.len() > 1 {
        proof {
            assert(vviews(ws@)[1] == ws@[1]@);
        }
        normalize_chars(ws[1].as_slice())
    } else {
        None
    }
}

/// Read a tool's version from `.tool-versions` (one `<tool> <version>` per
/// line). The first line naming one of `aliases` (ignoring ASCII case) with
/// a numeric version wins; comment and blank lines are ignored.
pub fn version_from_tool_versions(ctx: &AppContext, aliases: &[&str]) -> (r: Option<String>)
    ensures
        opt_view(r) == tool_versions_version(ctx@, str_views(aliases@)),
{
    let content = match ctx.read_file(".tool-versions") {
        Ok(t) => t,
        Err(_) => return None,
    };
    let ls = split_lines(&chars_of(content.as_str()));
    let ghost lv = vviews(ls@);
    let ghost av = str_views(aliases@);
    let mut i: usize = 0;
    assert(lv.skip(0) =~= lv);
    while i < ls.len()
        invariant
            i <= ls@.len(),
            lv == vviews(ls@),
            lv == lines(content@),
            text(ctx@.project, ".tool-versions"@) == Some(content@),
            av == str_views(aliases@),
            first_line_version(lv, av) == first_line_version(lv.skip(i as int), av),
        decreases ls@.len() - i,
    {
        proof {
            assert(lv.skip(i as int)[0] == ls@[i as int]@);
            assert(lv.skip(i as int).drop_first() =~= lv.skip(i + 1));
        }
        match version_in_line(ls[i].as_slice(), aliases) {
            Some(v) => {
                return Some(string_of(&v));
            },
            None => {},
        }
        i = i + 1;
    }
    None
}

fn key_step(k: &str) -> (s: Step)
    ensures
        s@ == key(k@),
{
    Step::Key(String::from_str(k))
}

fn raw_mise_entry(t: &str, alias: &str) -> (r: Option<String>)
    ensures
        opt_view(r) == mise_entry(t@, alias@),
{
    let mut path: Vec<Step> = Vec::new();
    path.push(key_step("tools"));
    path.push(key_step(alias));
    assert(step_views(path@) =~= seq![key("tools"@), key(alias@)]);
    let at = toml_lookup(t, &path);
    let found = match at {
        Found::Text(s) => Found::Text(s),
        Found::Table => {
            path.push(key_step("version"));
            assert(step_views(path@) =~= seq![key("tools"@), key(alias@), key("version"@)]);
            toml_lookup(t, &path)
        },
        Found::Array => {
            path.push(Step::Index(0));
            assert(step_views(path@) =~= seq![key("tools"@), key(alias@), StepView::Index(0)]);
            toml_lookup(t, &path)
        },
        _ => Found::Absent,
    };
    match found {
        Found::Text(s) => Some(s),
        _ => None,
    }
}

/// Read a tool's version from a mise config (`.mise.toml`, `mise.toml`, or
/// `.config/mise/config.toml`) `[tools]` table. The value may be a bare
/// string, an inline table's `version`, or an array whose first entry is used.
pub fn version_from_mise(ctx: &AppContext, aliases: &[&str]) -> (r: Option<String>)
    ensures
        opt_view(r) == mise_version(ctx@, str_views(aliases@)),
{
    let paths: [&str; 3] = [".mise.toml", "mise.toml", ".config/mise/config.toml"];
    let ghost av = str_views(aliases@);
    let ghost pv = mise_paths();
    assert(str_views(paths@) =~= pv);
    let mut p: usize = 0;
    assert(pv.skip(0) =~= pv);
    while p < 3
        invariant
            p <= 3,
            av == str_views(aliases@),
            pv == mise_paths(),
            str_views(paths@) == pv,
            first_mise_version(ctx@, pv, av) == first_mise_version(ctx@, pv.skip(p as int), av),
        decreases 3 - p,
    {
        let path = paths[p];
        proof {
            assert(pv.skip(p as int)[0] == path@);
            assert(pv.skip(p as int).drop_first() =~= pv.skip(p + 1));
        }
        match ctx.read_file(path) {
            Ok(content) => {
                let mut tools: Vec<Step> = Vec::new();
                tools.push(key_step("tools"));
                assert(step_views(tools@) =~= seq![key("tools"@)]);
                let kind = toml_lookup(content.as_str(), &tools);
                if let Found::Table = kind {
                    assert(toml_at(content@, seq![key("tools"@)]) is Table);
                    let mut a: usize = 0;
                    assert(av.skip(0) =~= av);
                    while a < aliases.len()
                        invariant
                            a <= aliases@.len(),
                            p < 3,
                            av == str_views(aliases@),
                            pv == mise_paths(),
                            pv.skip(p as int)[0] == path@,
                            pv.skip(p as int).len() > 0,
                            text(ctx@.project, path@) == Some(content@),
                            toml_at(content@, seq![key("tools"@)]) is Table,
                            first_mise_version(ctx@, pv, av) == first_mise_version(
                                ctx@,
                                pv.skip(p as int),
                                av,
                            ),
                            mise_aliases(content@, av) == mise_aliases(content@, av.skip(a as int)),
                        decreases aliases@.len() - a,
                    {
                        proof {
                            assert(av.skip(a as int)[0] == aliases@[a as int]@);
                            assert(av.skip(a as int).drop_first() =~= av.skip(a + 1));
                        }
                        match raw_mise_entry(content.as_str(), aliases[a]) {
                            Some(raw) => match normalize_version(raw.as_str()) {
                                Some(v) => {
                                    return Some(v);
                                },
                                None => {},
                            },
                            None => {},
                        }
                        a = a + 1;
                    }
                }
            },
            Err(_) => {},
        }
        p = p + 1;
    }
    None
}

/// Resolve a version from the shared multi-tool version files
/// (`.tool-versions`, then mise config), under any of `aliases`.
pub fn version_from_tool_files(ctx: &AppContext, aliases: &[&str]) -> (r: Option<String>)
    ensures
        opt_view(r) == tool_files_version(ctx@, str_views(aliases@)),
{
    match version_from_tool_versions(ctx, aliases) {
        Some(v) => Some(v),
        None => version_from_mise(ctx, aliases),
    }
}

/// Resolve the runtime version for a provider's base image: an explicit
/// override wins, then a version detected from the project, then `default`.
/// Fails when the result is not safe in an image tag.
pub fn resolve_version(ctx: &AppContext, detected: Option<String>, default: &str) -> (r: Result<
    String,
    Error,
>)
    ensures
        r is Ok <==> token_ok(chosen_version(ctx@, opt_view(detected), default@)),
        r matches Ok(v) ==> v@ == chosen_version(ctx@, opt_view(detected), default@),
        r matches Err(e) ==> e.is_unsafe_value(
            "version"@,
            chosen_version(ctx@, opt_view(detected), default@),
        ),
{
    let version = match &ctx.overrides.version {
        Some(v) => v.clone(),
        None => match detected {
            Some(v) => v,
            None => String::from_str(default),
        },
    };
    match validate_token("version", version.as_str()) {
        Ok(()) => Ok(version),
        Err(e) => Err(e),
    }
}

} // verus!
