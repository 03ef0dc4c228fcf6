use vstd::prelude::*;

verus! {

/// `dirs::cache_dir`, the user's cache directory as text. It comes from the environment
/// (`$XDG_CACHE_HOME`, `$HOME`), so nothing is stated of the value.
#[verifier::external_body]
pub(crate) fn cache_dir() -> Option<String> {
    dirs::cache_dir().map(|p| p.to_string_lossy().into_owned())
}

/// `dirs::config_dir`, the user's configuration directory as text. It comes from the
/// environment, so nothing is stated of the value.
#[verifier::external_body]
pub(crate) fn config_dir() -> Option<String> {
    dirs::config_dir().map(|p| p.to_string_lossy().into_owned())
}

/// `dirs::runtime_dir`, the user's runtime directory as text. It comes from the environment
/// (`$XDG_RUNTIME_DIR`), so nothing is stated of the value.
#[verifier::external_body]
pub(crate) fn runtime_dir() -> Option<String> {
    dirs::runtime_dir().map(|p| p.to_string_lossy().into_owned())
}

/// A relative path appended to a base path, with one separator between them.
pub open spec fn join_path(base: Seq<char>, rel: Seq<char>) -> Seq<char> {
    if base.len() == 0 || base.last() == '/' {
        base + rel
    } else {
        base + seq!['/'] + rel
    }
}

/// Append a relative path to a base path, inserting a separator where the base lacks one.
pub fn join(base: &str, rel: &str) -> (p: String)
    ensures
        p@ == join_path(base@, rel@),
{
    let mut p = base.to_string();
    let n = base.unicode_len();
    if n > 0 && base.get_char(n - 1) != '/' {
        crate::util::push_char(&mut p, '/');
    }
    p.append(rel);
    p
}

} // verus!
