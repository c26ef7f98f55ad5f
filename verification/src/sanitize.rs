//! Validation for untrusted values interpolated into the generated Dockerfile.
//!
//! A source repository's metadata (crate name, go module, project filename,
//! entrypoint) is attacker-controlled, so any such value that reaches a `RUN`,
//! `COPY`, or `CMD` line must be constrained to a set of characters that cannot
//! break out into an injected build or runtime command.
use vstd::prelude::*;
use crate::error::Error;
use crate::text::{chars_of, contains, contains_seq, is_alnum, is_alnum_char};

verus! {

/// Alphanumerics plus the punctuation of real binary names and relative paths.
pub open spec fn safe_char(c: char) -> bool {
    is_alnum(c) || c == '_' || c == '-' || c == '.' || c == '/'
}

/// Characters of apt package specifiers (`g++`, `pkg=1.2-3`, `pkg:arm64`,
/// `pkg/bookworm-backports`): a superset of [`safe_char`].
pub open spec fn apt_char(c: char) -> bool {
    is_alnum(c) || c == '+' || c == '-' || c == '.' || c == '_' || c == ':' || c == '=' || c == '~'
        || c == '/'
}

/// Characters of an image reference (`name[:tag][@digest]`).
pub open spec fn image_char(c: char) -> bool {
    is_alnum(c) || c == '_' || c == '-' || c == '.' || c == '/' || c == ':' || c == '@'
}

/// Characters of a `BuildKit` secret id.
pub open spec fn secret_char(c: char) -> bool {
    is_alnum(c) || c == '_' || c == '-' || c == '.'
}

pub open spec fn dot_dot() -> Seq<char> {
    seq!['.', '.']
}

/// Non-empty, no leading `-`, no `..`, and every character safe.
pub open spec fn token_ok(s: Seq<char>) -> bool {
    &&& s.len() > 0
    &&& s[0] != '-'
    &&& !contains_seq(s, dot_dot())
    &&& forall|i: int| 0 <= i < s.len() ==> safe_char(#[trigger] s[i])
}

pub open spec fn apt_package_ok(s: Seq<char>) -> bool {
    &&& s.len() > 0
    &&& s[0] != '-'
    &&& !contains_seq(s, dot_dot())
    &&& forall|i: int| 0 <= i < s.len() ==> apt_char(#[trigger] s[i])
}

pub open spec fn image_ref_ok(s: Seq<char>) -> bool {
    &&& s.len() > 0
    &&& s[0] != '-'
    &&& forall|i: int| 0 <= i < s.len() ==> image_char(#[trigger] s[i])
}

pub open spec fn secret_id_ok(s: Seq<char>) -> bool {
    &&& s.len() > 0
    &&& s[0] != '-'
    &&& forall|i: int| 0 <= i < s.len() ==> secret_char(#[trigger] s[i])
}

/// Whether `c` is safe to interpolate into a Dockerfile identifier position.
pub fn is_safe_char(c: char) -> (b: bool)
    ensures
        b == safe_char(c),
{
    is_alnum_char(c) || c == '_' || c == '-' || c == '.' || c == '/'
}

/// Whether `c` is safe in an apt package specifier.
pub fn is_apt_char(c: char) -> (b: bool)
    ensures
        b == apt_char(c),
{
    is_alnum_char(c) || c == '+' || c == '-' || c == '.' || c == '_' || c == ':' || c == '=' || c
        == '~' || c == '/'
}

fn is_image_char(c: char) -> (b: bool)
    ensures
        b == image_char(c),
{
    is_alnum_char(c) || c == '_' || c == '-' || c == '.' || c == '/' || c == ':' || c == '@'
}

fn is_secret_char(c: char) -> (b: bool)
    ensures
        b == secret_char(c),
{
    is_alnum_char(c) || c == '_' || c == '-' || c == '.'
}

/// Which character class a check admits.
enum CharClass {
    Token,
    Apt,
    Image,
    Secret,
}

spec fn in_class(class: CharClass, c: char) -> bool {
    match class {
        CharClass::Token => safe_char(c),
        CharClass::Apt => apt_char(c),
        CharClass::Image => image_char(c),
        CharClass::Secret => secret_char(c),
    }
}

fn class_has(class: &CharClass, c: char) -> (b: bool)
    ensures
        b == in_class(*class, c),
{
    match class {
        CharClass::Token => is_safe_char(c),
        CharClass::Apt => is_apt_char(c),
        CharClass::Image => is_image_char(c),
        CharClass::Secret => is_secret_char(c),
    }
}

fn all_in_class(cs: &[char], class: &CharClass) -> (b: bool)
    ensures
        b == forall|i: int| 0 <= i < cs@.len() ==> in_class(*class, #[trigger] cs@[i]),
{
    let mut i: usize = 0;
    while i < cs.len()
        invariant
            i <= cs@.len(),
            forall|k: int| 0 <= k < i ==> in_class(*class, #[trigger] cs@[k]),
        decreases cs@.len() - i,
    {
        if !class_has(class, cs[i]) {
            return false;
        }
        i = i + 1;
    }
    true
}

fn dots() -> (d: Vec<char>)
    ensures
        d@ == dot_dot(),
{
    let mut d: Vec<char> = Vec::new();
    d.push('.');
    d.push('.');
    assert(d@ =~= dot_dot());
    d
}

fn unsafe_value(field: &'static str, value: &str) -> (e: Error)
    ensures
        e.is_unsafe_value(field@, value@),
{
    Error::UnsafeValue { field, value: String::from_str(value) }
}

/// Validate a provider-derived identifier before it is interpolated into the
/// generated Dockerfile: rejects an empty value, a leading `-`, a `..`
/// sequence, and any character outside [`is_safe_char`].
pub fn validate_token(field: &'static str, value: &str) -> (r: Result<(), Error>)
    ensures
        r is Ok <==> token_ok(value@),
        r matches Err(e) ==> e.is_unsafe_value(field@, value@),
{
    let cs = chars_of(value);
    let ok = cs.len() > 0 && cs[0] != '-' && !contains(&cs, &dots()) && all_in_class(
        &cs,
        &CharClass::Token,
    );
    if ok {
        Ok(())
    } else {
        Err(unsafe_value(field, value))
    }
}

/// Validate a user-supplied apt package name before it reaches an install line.
pub fn validate_apt_package(value: &str) -> (r: Result<(), Error>)
    ensures
        r is Ok <==> apt_package_ok(value@),
        r matches Err(e) ==> e.is_unsafe_value("apt package"@, value@),
{
    let cs = chars_of(value);
    let ok = cs.len() > 0 && cs[0] != '-' && !contains(&cs, &dots()) && all_in_class(
        &cs,
        &CharClass::Apt,
    );
    if ok {
        Ok(())
    } else {
        Err(unsafe_value("apt package", value))
    }
}

/// Validate a user-supplied base image reference before it lands on a `FROM`
/// line: non-empty, no leading `-`, and only name/tag/digest characters, so no
/// whitespace or newline can smuggle in another instruction.
pub fn validate_image_ref(value: &str) -> (r: Result<(), Error>)
    ensures
        r is Ok <==> image_ref_ok(value@),
        r matches Err(e) ==> e.is_unsafe_value("base image"@, value@),
{
    let cs = chars_of(value);
    let ok = cs.len() > 0 && cs[0] != '-' && all_in_class(&cs, &CharClass::Image);
    if ok {
        Ok(())
    } else {
        Err(unsafe_value("base image", value))
    }
}

/// Validate a `BuildKit` secret id before it is interpolated into a
/// `--mount=type=secret,id=<id>` option: a `,` or `=` would add attributes.
pub fn validate_secret_id(value: &str) -> (r: Result<(), Error>)
    ensures
        r is Ok <==> secret_id_ok(value@),
        r matches Err(e) ==> e.is_unsafe_value("secret id"@, value@),
{
    let cs = chars_of(value);
    let ok = cs.len() > 0 && cs[0] != '-' && all_in_class(&cs, &CharClass::Secret);
    if ok {
        Ok(())
    } else {
        Err(unsafe_value("secret id", value))
    }
}

} // verus!

verus! {

// ---------------------------------------------------------------------------
// Laws: what an accepted value cannot contain

/// Characters that end or chain a shell command, quote, expand or redirect.
pub open spec fn shell_meta(c: char) -> bool {
    c == ';' || c == '|' || c == '&' || c == '$' || c == '`' || c == '<' || c == '>' || c == '('
        || c == ')' || c == '{' || c == '}' || c == '\'' || c == '"' || c == '\\' || c == '*'
        || c == '?' || c == '!' || c == '#'
}

/// An accepted identifier carries no whitespace (so no newline), no shell
/// metacharacter, no leading `-` and no `..`.
pub proof fn law_tokens_carry_no_payload(s: Seq<char>)
    requires
        token_ok(s),
    ensures
        forall|i: int| 0 <= i < s.len() ==> !crate::text::is_ws(#[trigger] s[i]) && !shell_meta(s[i]),
        s[0] != '-',
        !contains_seq(s, dot_dot()),
{
    assert forall|i: int| 0 <= i < s.len() implies !crate::text::is_ws(#[trigger] s[i]) && !shell_meta(
        s[i],
    ) by {
        assert(safe_char(s[i]));
    }
}

/// The apt-package character set contains the identifier set.
pub proof fn law_apt_chars_contain_safe_chars(c: char)
    requires
        safe_char(c),
    ensures
        apt_char(c),
{
}

/// An accepted apt package carries no whitespace and no shell metacharacter.
pub proof fn law_apt_packages_carry_no_payload(s: Seq<char>)
    requires
        apt_package_ok(s),
    ensures
        forall|i: int| 0 <= i < s.len() ==> !crate::text::is_ws(#[trigger] s[i]) && !shell_meta(s[i]),
{
    assert forall|i: int| 0 <= i < s.len() implies !crate::text::is_ws(#[trigger] s[i]) && !shell_meta(
        s[i],
    ) by {
        assert(apt_char(s[i]));
    }
}

/// An accepted image reference cannot end the `FROM` line or add words to it.
pub proof fn law_image_refs_stay_on_their_line(s: Seq<char>)
    requires
        image_ref_ok(s),
    ensures
        forall|i: int| 0 <= i < s.len() ==> !crate::text::is_ws(#[trigger] s[i]) && !shell_meta(s[i]),
{
    assert forall|i: int| 0 <= i < s.len() implies !crate::text::is_ws(#[trigger] s[i]) && !shell_meta(
        s[i],
    ) by {
        assert(image_char(s[i]));
    }
}

/// An accepted secret id cannot add attributes to a `--mount` option.
pub proof fn law_secret_ids_add_no_attributes(s: Seq<char>)
    requires
        secret_id_ok(s),
    ensures
        forall|i: int| 0 <= i < s.len() ==> #[trigger] s[i] != ',' && s[i] != '=' && !crate::text::is_ws(s[i]),
{
    assert forall|i: int| 0 <= i < s.len() implies #[trigger] s[i] != ',' && s[i] != '=' && !crate::text::is_ws(
        s[i],
    ) by {
        assert(secret_char(s[i]));
    }
}

} // verus!
