use vstd::prelude::*;

use crate::platform::{join, join_path};

verus! {

/// The socket file: `synoplayer.sock` under the runtime directory, else under the cache
/// directory, else under `/tmp`.
pub open spec fn socket_path_under(runtime: Option<String>, cache: Option<String>) -> Seq<char> {
    join_path(
        match runtime {
            Some(r) => r@,
            None => match cache {
                Some(c) => c@,
                None => "/tmp"@,
            },
        },
        "synoplayer.sock"@,
    )
}

/// Get the IPC socket path.
///
/// Uses `$XDG_RUNTIME_DIR/synoplayer.sock` if available,
/// falls back to the user's cache directory, then to `/tmp`.
pub fn socket_path() -> (p: String)
    ensures
        exists|runtime: Option<String>, cache: Option<String>| p@ == socket_path_under(runtime, cache),
{
    let runtime = crate::platform::runtime_dir();
    match &runtime {
        Some(r) => {
            let p = join(r.as_str(), "synoplayer.sock");
            assert(p@ == socket_path_under(runtime, None));
            p
        },
        None => {
            let cache = crate::platform::cache_dir();
            let p = match &cache {
                Some(c) => join(c.as_str(), "synoplayer.sock"),
                None => join("/tmp", "synoplayer.sock"),
            };
            assert(p@ == socket_path_under(runtime, cache));
            p
        },
    }
}

/// Guard for the socket file; the application removes the file when the guard goes away.
pub struct SocketGuard {
    pub path: String,
}

impl SocketGuard {
    pub fn new(path: String) -> (g: Self)
        ensures
            g.path == path,
    {
        SocketGuard { path }
    }
}

} // verus!
