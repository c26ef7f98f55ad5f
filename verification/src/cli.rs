//! The decisions of the `kiln` command line that do not touch the system:
//! parsing `--env` flags, checking untrusted arguments before they reach
//! `git` or `buildctl`, and the `buildctl` argument list.
use vstd::prelude::*;
use crate::plan::{EnvMap, as_map};
use crate::providers::{cat, cat3, owned};
use crate::sanitize::{token_ok, validate_token};
use crate::text::{chars_of, first_index, first_index_of, has_prefix, is_ws, is_ws_char, slice, starts_with, string_of, views};

verus! {

/// A `KEY=VALUE` flag split at its first `=`, when it has one and the key is
/// not empty.
pub open spec fn env_pair(s: Seq<char>) -> Option<(Seq<char>, Seq<char>)> {
    match first_index_of(s, '=') {
        Some(i) => if i > 0 {
            Some((s.take(i), s.skip(i + 1)))
        } else {
            None
        },
        None => None,
    }
}

/// The variables a list of `KEY=VALUE` flags sets; a later flag for a key
/// wins over an earlier one.
pub open spec fn env_flags(entries: Seq<Seq<char>>) -> Map<Seq<char>, Seq<char>>
    decreases entries.len(),
{
    if entries.len() == 0 {
        Map::empty()
    } else {
        let m = env_flags(entries.drop_last());
        match env_pair(entries.last()) {
            Some((k, v)) => m.insert(k, v),
            None => m,
        }
    }
}

/// Parse repeated `--env KEY=VALUE` arguments into a map. Entries without `=`
/// or with an empty key are skipped.
pub fn parse_env(entries: &Vec<String>) -> (m: EnvMap)
    ensures
        as_map(m@) == env_flags(views(entries@)),
{
    let mut m = EnvMap::new();
    let mut i: usize = 0;
    proof {
        assert(views(entries@).take(0) =~= Seq::<Seq<char>>::empty());
        assert(as_map(m@) =~= Map::<Seq<char>, Seq<char>>::empty());
    }
    while i < entries.len()
        invariant
            i <= entries@.len(),
            as_map(m@) == env_flags(views(entries@).take(i as int)),
        decreases entries@.len() - i,
    {
        proof {
            assert(views(entries@).take(i + 1).drop_last() =~= views(entries@).take(i as int));
            assert(views(entries@).take(i + 1).last() == entries@[i as int]@);
        }
        let cs = chars_of(entries[i].as_str());
        let n = cs.len();
        match first_index(&cs, '=') {
            Some(k) => {
                if k > 0 {
                    let key = string_of(&slice(&cs, 0, k));
                    let value = string_of(&slice(&cs, k + 1, n));
                    proof {
                        assert(key@ =~= cs@.take(k as int));
                        assert(value@ =~= cs@.skip(k + 1));
                    }
                    m.insert(key, value);
                }
            },
            None => {},
        }
        i = i + 1;
    }
    proof {
        assert(views(entries@).take(entries@.len() as int) =~= views(entries@));
    }
    m
}

/// A clone URL `git` may fetch: `https://`, `ssh://` or scp-style `git@host:path`.
pub open spec fn git_source_ok(url: Seq<char>) -> bool {
    has_prefix(url, "https://"@) || has_prefix(url, "ssh://"@) || has_prefix(url, "git@"@)
}

/// Validate a user-supplied `--source` clone URL before handing it to `git`.
///
/// Only `https://`, `ssh://`, and scp-style `git@host:path` are accepted,
/// which blocks the `ext::` and `file://` transports, plain `http://` and
/// `git://`, and any `-`-prefixed value git would parse as an option.
pub fn validate_git_source(url: &str) -> (r: Result<(), String>)
    ensures
        r is Ok <==> git_source_ok(url@),
        r matches Err(m) ==> m@ == "unsupported --source URL (use https://, ssh://, or git@host:path)"@,
{
    let cs = chars_of(url);
    if starts_with(&cs, &chars_of("https://")) || starts_with(&cs, &chars_of("ssh://")) || starts_with(
        &cs,
        &chars_of("git@"),
    ) {
        Ok(())
    } else {
        Err(owned("unsupported --source URL (use https://, ssh://, or git@host:path)"))
    }
}

/// Validate a user-supplied `--ref` before it reaches `git --branch` or
/// `checkout`: the identifier charset, with no leading `-`.
pub fn validate_git_ref(git_ref: &str) -> (r: Result<(), String>)
    ensures
        r is Ok <==> token_ok(git_ref@),
        r matches Err(m) ==> m@ == "invalid --ref value"@,
{
    match validate_token("git ref", git_ref) {
        Ok(()) => Ok(()),
        Err(_) => Err(owned("invalid --ref value")),
    }
}

/// Unicode general category `Cc`, the set `char::is_control` tests for.
pub open spec fn is_control(c: char) -> bool {
    c <= '\u{1f}' || ('\u{7f}' <= c && c <= '\u{9f}')
}

/// A registry reference safe inside a comma-separated `buildctl` option:
/// not empty, and no comma, whitespace or control character.
pub open spec fn registry_ref_ok(reference: Seq<char>) -> bool {
    reference.len() > 0 && forall|i: int|
        0 <= i < reference.len() ==> #[trigger] reference[i] != ',' && !is_ws(reference[i])
            && !is_control(reference[i])
}

/// Validate a registry reference (`--dest`, `--cache-from`, `--cache-to`)
/// before it is interpolated into a comma-separated `buildctl` option string.
pub fn validate_registry_ref(reference: &str) -> (r: Result<(), String>)
    ensures
        r is Ok <==> registry_ref_ok(reference@),
        r matches Err(m) ==> m@ == "invalid registry reference"@,
{
    let cs = chars_of(reference);
    if cs.len() == 0 {
        return Err(owned("invalid registry reference"));
    }
    let mut i: usize = 0;
    while i < cs.len()
        invariant
            i <= cs@.len(),
            cs@ == reference@,
            forall|j: int|
                0 <= j < i ==> #[trigger] cs@[j] != ',' && !is_ws(cs@[j]) && !is_control(cs@[j]),
        decreases cs@.len() - i,
    {
        let c = cs[i];
        if c == ',' || is_ws_char(c) || c <= '\u{1f}' || ('\u{7f}' <= c && c <= '\u{9f}') {
            return Err(owned("invalid registry reference"));
        }
        i = i + 1;
    }
    Ok(())
}

/// `,registry.insecure=true` for an insecure registry.
pub open spec fn insecure_suffix(insecure: bool) -> Seq<char> {
    if insecure {
        ",registry.insecure=true"@
    } else {
        Seq::empty()
    }
}

pub open spec fn opt_str(o: Option<&str>) -> Option<Seq<char>> {
    match o {
        Some(s) => Some(s@),
        None => None,
    }
}

/// The `buildctl` arguments for a build: the daemon address, the Dockerfile
/// frontend on `work_dir` with `Dockerfile.kiln`, fresh base-image
/// resolution, the optional cache import and export, one `--secret` per id
/// (read from the like-named environment variable), and the pushed image.
pub open spec fn buildctl_args(
    addr: Seq<char>,
    work_dir: Seq<char>,
    dest: Seq<char>,
    cache_from: Option<Seq<char>>,
    cache_to: Option<Seq<char>>,
    insecure: bool,
    secrets: Seq<Seq<char>>,
) -> Seq<Seq<char>> {
    let sfx = insecure_suffix(insecure);
    let head = seq![
        "--addr"@,
        addr,
        "build"@,
        "--frontend"@,
        "dockerfile.v0"@,
        "--local"@,
        "context="@ + work_dir,
        "--local"@,
        "dockerfile="@ + work_dir,
        "--opt"@,
        "filename=Dockerfile.kiln"@,
        "--opt"@,
        "image-resolve-mode=pull"@,
    ];
    let import = match cache_from {
        Some(r) => seq!["--import-cache"@, "type=registry,ref="@ + r + sfx],
        None => Seq::empty(),
    };
    let export = match cache_to {
        Some(r) => seq!["--export-cache"@, "type=registry,ref="@ + r + ",mode=max,push=true"@ + sfx],
        None => Seq::empty(),
    };
    head + import + export + secret_args(secrets) + seq![
        "--output"@,
        "type=image,name="@ + dest + ",push=true"@ + sfx,
    ]
}

/// `--secret id=<id>,env=<id>` for each secret id, in order.
pub open spec fn secret_args(secrets: Seq<Seq<char>>) -> Seq<Seq<char>>
    decreases secrets.len(),
{
    if secrets.len() == 0 {
        Seq::empty()
    } else {
        let id = secrets.last();
        secret_args(secrets.drop_last()) + seq!["--secret"@, "id="@ + id + ",env="@ + id]
    }
}

/// The argument list `kiln build` passes to `buildctl` (see [`buildctl_args`]).
pub fn build_buildctl_args(
    buildkit_addr: &str,
    work_dir: &str,
    dest: &str,
    cache_from: Option<&str>,
    cache_to: Option<&str>,
    registry_insecure: bool,
    secrets: &Vec<String>,
) -> (args: Vec<String>)
    ensures
        views(args@) == buildctl_args(
            buildkit_addr@,
            work_dir@,
            dest@,
            opt_str(cache_from),
            opt_str(cache_to),
            registry_insecure,
            views(secrets@),
        ),
{
    let suffix = if registry_insecure {
        ",registry.insecure=true"
    } else {
        ""
    };
    proof {
        reveal_strlit("");
    }
    let ghost sfx = insecure_suffix(registry_insecure);
    assert(suffix@ == sfx);
    let mut args: Vec<String> = vec![
        owned("--addr"),
        owned(buildkit_addr),
        owned("build"),
        owned("--frontend"),
        owned("dockerfile.v0"),
        owned("--local"),
        cat("context=", work_dir),
        owned("--local"),
        cat("dockerfile=", work_dir),
        owned("--opt"),
        owned("filename=Dockerfile.kiln"),
        // Always resolve base image tags to their latest registry digest, so
        // a rebuild picks up upstream base-image security patches.
        owned("--opt"),
        owned("image-resolve-mode=pull"),
    ];
    let ghost head = views(args@);
    let ghost expect_head = seq![
        "--addr"@,
        buildkit_addr@,
        "build"@,
        "--frontend"@,
        "dockerfile.v0"@,
        "--local"@,
        "context="@ + work_dir@,
        "--local"@,
        "dockerfile="@ + work_dir@,
        "--opt"@,
        "filename=Dockerfile.kiln"@,
        "--opt"@,
        "image-resolve-mode=pull"@,
    ];
    assert(head =~= expect_head);
    if let Some(cache_ref) = cache_from {
        let ghost before = args@;
        args.push(owned("--import-cache"));
        args.push(cat3("type=registry,ref=", cache_ref, suffix));
        proof {
            assert(views(args@) =~= views(before) + seq![
                "--import-cache"@,
                "type=registry,ref="@ + cache_ref@ + sfx,
            ]);
        }
    }
    if let Some(cache_ref) = cache_to {
        let ghost before = args@;
        args.push(owned("--export-cache"));
        let mut v = cat3("type=registry,ref=", cache_ref, ",mode=max,push=true");
        v.append(suffix);
        args.push(v);
        proof {
            assert(views(args@) =~= views(before) + seq![
                "--export-cache"@,
                "type=registry,ref="@ + cache_ref@ + ",mode=max,push=true"@ + sfx,
            ]);
        }
    }
    let ghost with_export = views(args@);
    // Forward each configured secret to buildkit, sourced from the
    // like-named environment variable of this process.
    let mut i: usize = 0;
    proof {
        assert(views(secrets@).take(0) =~= Seq::<Seq<char>>::empty());
        assert(secret_args(Seq::<Seq<char>>::empty()) =~= Seq::<Seq<char>>::empty());
        assert(with_export + Seq::<Seq<char>>::empty() =~= with_export);
    }
    while i < secrets.len()
        invariant
            i <= secrets@.len(),
            views(args@) == with_export + secret_args(views(secrets@).take(i as int)),
        decreases secrets@.len() - i,
    {
        let id = secrets[i].as_str();
        let ghost before = views(args@);
        args.push(owned("--secret"));
        let mut v = cat3("id=", id, ",env=");
        v.append(id);
        args.push(v);
        proof {
            let t = views(secrets@).take(i + 1);
            assert(t.drop_last() =~= views(secrets@).take(i as int));
            assert(t.last() == id@);
            assert(views(args@) =~= before + seq!["--secret"@, "id="@ + id@ + ",env="@ + id@]);
        }
        i = i + 1;
    }
    proof {
        assert(views(secrets@).take(secrets@.len() as int) =~= views(secrets@));
    }
    let ghost before = views(args@);
    args.push(owned("--output"));
    let mut out = cat3("type=image,name=", dest, ",push=true");
    out.append(suffix);
    args.push(out);
    proof {
        assert(views(args@) =~= before + seq!["--output"@, "type=image,name="@ + dest@ + ",push=true"@ + sfx]);
    }
    args
}

} // verus!

verus! {

// ---------------------------------------------------------------------------
// Fetching a git build source

/// One `git` invocation in fetching a build source.
#[derive(Clone, Copy, Debug, PartialEq, Eq, Structural)]
pub enum GitStep {
    /// A shallow clone, of the ref's branch when a ref is given.
    ShallowClone,
    /// A full clone, after the branch clone failed (the ref may name a commit).
    FullClone,
    /// Checking the ref out inside the full clone.
    Checkout,
}

/// What comes after a `git` invocation.
#[derive(Debug)]
pub enum GitNext {
    /// Run this invocation next.
    Run(GitStep),
    /// The source is checked out.
    Done,
    /// Fetching failed, for this reason.
    Failed(String),
}

/// The arguments of `git` for `step`, cloning `url` into `dir`. `--` ends
/// option parsing so that a `-`-leading url can never be read as a flag.
pub open spec fn git_args(step: GitStep, url: Seq<char>, git_ref: Option<Seq<char>>, dir: Seq<char>) -> Seq<Seq<char>> {
    match step {
        GitStep::ShallowClone => seq!["clone"@, "--depth"@, "1"@] + match git_ref {
            Some(r) => seq!["--branch"@, r],
            None => Seq::empty(),
        } + seq!["--"@, url, dir],
        GitStep::FullClone => seq!["clone"@, "--"@, url, dir],
        GitStep::Checkout => match git_ref {
            Some(r) => seq!["checkout"@, r],
            None => seq!["checkout"@],
        },
    }
}

/// The `git` arguments for `step` (see [`git_args`]).
pub fn git_step_args(step: GitStep, url: &str, git_ref: Option<&str>, dir: &str) -> (args: Vec<String>)
    ensures
        views(args@) == git_args(step, url@, opt_str(git_ref), dir@),
{
    let mut args: Vec<String> = Vec::new();
    match step {
        GitStep::ShallowClone => {
            args.push(owned("clone"));
            args.push(owned("--depth"));
            args.push(owned("1"));
            match git_ref {
                Some(r) => {
                    args.push(owned("--branch"));
                    args.push(owned(r));
                },
                None => {},
            }
            args.push(owned("--"));
            args.push(owned(url));
            args.push(owned(dir));
        },
        GitStep::FullClone => {
            args.push(owned("clone"));
            args.push(owned("--"));
            args.push(owned(url));
            args.push(owned(dir));
        },
        GitStep::Checkout => {
            args.push(owned("checkout"));
            match git_ref {
                Some(r) => {
                    args.push(owned(r));
                },
                None => {},
            }
        },
    }
    assert(views(args@) =~= git_args(step, url@, opt_str(git_ref), dir@));
    args
}

/// What follows `step` given whether it `succeeded`: a failed branch clone
/// falls back to a full clone and a checkout of the ref; without a ref, or
/// when the fallback fails, fetching fails.
pub fn after_git_step(step: GitStep, succeeded: bool, has_ref: bool) -> (next: GitNext)
    ensures
        match step {
            GitStep::ShallowClone => if succeeded {
                next is Done
            } else if has_ref {
                next == GitNext::Run(GitStep::FullClone)
            } else {
                next matches GitNext::Failed(m) && m@ == "git clone failed"@
            },
            GitStep::FullClone => if succeeded {
                next == GitNext::Run(GitStep::Checkout)
            } else {
                next matches GitNext::Failed(m) && m@ == "git clone failed"@
            },
            GitStep::Checkout => if succeeded {
                next is Done
            } else {
                next matches GitNext::Failed(m) && m@ == "git checkout failed"@
            },
        },
{
    match step {
        GitStep::ShallowClone => if succeeded {
            GitNext::Done
        } else if has_ref {
            GitNext::Run(GitStep::FullClone)
        } else {
            GitNext::Failed(owned("git clone failed"))
        },
        GitStep::FullClone => if succeeded {
            GitNext::Run(GitStep::Checkout)
        } else {
            GitNext::Failed(owned("git clone failed"))
        },
        GitStep::Checkout => if succeeded {
            GitNext::Done
        } else {
            GitNext::Failed(owned("git checkout failed"))
        },
    }
}

} // verus!

verus! {

/// The first of a build's untrusted arguments that is refused, checked in
/// this order: the destination, the cache import and export references, the
/// git source and the git ref. `None` when all pass.
pub open spec fn build_args_error(
    dest: Seq<char>,
    cache_from: Option<Seq<char>>,
    cache_to: Option<Seq<char>>,
    source: Option<Seq<char>>,
    git_ref: Option<Seq<char>>,
) -> Option<Seq<char>> {
    if !registry_ref_ok(dest) {
        Some("invalid registry reference"@)
    } else if cache_from matches Some(r) && !registry_ref_ok(r) {
        Some("invalid registry reference"@)
    } else if cache_to matches Some(r) && !registry_ref_ok(r) {
        Some("invalid registry reference"@)
    } else if source matches Some(u) && !git_source_ok(u) {
        Some("unsupported --source URL (use https://, ssh://, or git@host:path)"@)
    } else if git_ref matches Some(g) && !token_ok(g) {
        Some("invalid --ref value"@)
    } else {
        None
    }
}

/// Check every untrusted argument of `kiln build` before it reaches `git` or
/// `buildctl`; the error is that of the first refused one.
pub fn validate_build_args(
    dest: &str,
    cache_from: Option<&str>,
    cache_to: Option<&str>,
    source: Option<&str>,
    git_ref: Option<&str>,
) -> (r: Result<(), String>)
    ensures
        match r {
            Ok(()) => build_args_error(
                dest@,
                opt_str(cache_from),
                opt_str(cache_to),
                opt_str(source),
                opt_str(git_ref),
            ) is None,
            Err(m) => build_args_error(
                dest@,
                opt_str(cache_from),
                opt_str(cache_to),
                opt_str(source),
                opt_str(git_ref),
            ) == Some(m@),
        },
{
    validate_registry_ref(dest)?;
    if let Some(cache_ref) = cache_from {
        validate_registry_ref(cache_ref)?;
    }
    if let Some(cache_ref) = cache_to {
        validate_registry_ref(cache_ref)?;
    }
    if let Some(url) = source {
        validate_git_source(url)?;
    }
    if let Some(g) = git_ref {
        validate_git_ref(g)?;
    }
    Ok(())
}

} // verus!
