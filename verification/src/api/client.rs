use vstd::prelude::*;

use crate::api::types::{ApiInfo, ApiResponse};
use crate::error::{is_code_error, Result, SynoError};
use crate::text::{push_str, signed_decimal, signed_string, str_equal};
use crate::tui::handler::{cat, cat3};

verus! {

/// A call of the Web API: which API, its version, the method and the extra parameters.
#[derive(Debug)]
pub struct ApiCall {
    pub api: String,
    pub version: i32,
    pub method: String,
    pub params: Vec<(String, String)>,
}

/// Whether two lists of parameters hold the same names and values in the same order.
pub open spec fn same_params(a: Seq<(String, String)>, b: Seq<(Seq<char>, Seq<char>)>) -> bool {
    &&& a.len() == b.len()
    &&& forall|k: int| 0 <= k < a.len() ==> (#[trigger] a[k]).0@ == b[k].0 && a[k].1@ == b[k].1
}

/// The text without the `/` characters at its end.
pub open spec fn without_trailing_slashes(s: Seq<char>) -> Seq<char>
    decreases s.len(),
{
    if s.len() > 0 && s.last() == '/' {
        without_trailing_slashes(s.drop_last())
    } else {
        s
    }
}

/// The path an API lives at: the first discovered path of that name, else the known paths of
/// the discovery and login APIs.
pub open spec fn api_path(paths: Seq<(String, ApiInfo)>, name: Seq<char>) -> Option<Seq<char>> {
    if exists|k: int| 0 <= k < paths.len() && (#[trigger] paths[k]).0@ == name {
        let k = choose|k: int|
            0 <= k < paths.len() && (#[trigger] paths[k]).0@ == name && forall|j: int|
                0 <= j < k ==> (#[trigger] paths[j]).0@ != name;
        Some(paths[k].1.path@)
    } else if name == "SYNO.API.Info"@ {
        Some("query.cgi"@)
    } else if name == "SYNO.API.Auth"@ {
        Some("entry.cgi"@)
    } else {
        None
    }
}

/// No name occurs twice among the API paths.
pub open spec fn distinct_names(paths: Seq<(String, ApiInfo)>) -> bool {
    forall|a: int, b: int| 0 <= a < b < paths.len() ==> (#[trigger] paths[a]).0@ != (#[trigger] paths[b]).0@
}

/// Whether position `k` holds the first occurrence of its name.
pub open spec fn first_of_name(paths: Seq<(String, ApiInfo)>, k: int) -> bool {
    forall|j: int| 0 <= j < k ==> (#[trigger] paths[j]).0@ != paths[k].0@
}

/// The paths with each name once, at its first place, in order.
fn first_of_each_name(paths: Vec<(String, ApiInfo)>) -> (r: Vec<(String, ApiInfo)>)
    ensures
        distinct_names(r@),
        forall|name: Seq<char>| #[trigger] api_path(r@, name) == api_path(paths@, name),
{
    let ghost all = paths@;
    let mut rest = paths;
    let mut r: Vec<(String, ApiInfo)> = Vec::new();
    let ghost mut i: int = 0;
    let ghost mut src: Seq<int> = Seq::empty();
    let ghost mut hit: Seq<int> = Seq::empty();
    while rest.len() > 0
        invariant
            0 <= i <= all.len(),
            rest@ == all.skip(i),
            distinct_names(r@),
            src.len() == r@.len(),
            forall|j: int| 0 <= j < r@.len() ==> 0 <= #[trigger] src[j] < i && r@[j] == all[src[j]] && first_of_name(all, src[j]),
            hit.len() == i,
            forall|k: int| 0 <= k < i ==> 0 <= #[trigger] hit[k] < r@.len() && r@[hit[k]].0@ == all[k].0@,
        decreases rest.len(),
    {
        let item = rest.remove(0);
        assert(item == all[i]);
        let mut pos: usize = 0;
        let mut seen = false;
        while pos < r.len() && !seen
            invariant
                pos <= r@.len(),
                !seen ==> forall|t: int| 0 <= t < pos ==> (#[trigger] r@[t]).0@ != item.0@,
                seen ==> pos < r@.len() && r@[pos as int].0@ == item.0@,
            decreases r.len() - pos + (if seen { 0int } else { 1int }),
        {
            if str_equal(r[pos].0.as_str(), item.0.as_str()) {
                seen = true;
            } else {
                pos = pos + 1;
            }
        }
        proof {
            assert(all.skip(i + 1) =~= rest@);
        }
        if seen {
            proof {
                hit = hit.push(pos as int);
            }
        } else {
            proof {
                assert forall|k: int| 0 <= k < i implies (#[trigger] all[k]).0@ != item.0@ by {
                    assert(r@[hit[k]].0@ == all[k].0@);
                }
                assert(first_of_name(all, i));
            }
            let ghost r0 = r@;
            r.push(item);
            proof {
                src = src.push(i);
                hit = hit.push(r0.len() as int);
                assert(forall|j: int| 0 <= j < r0.len() ==> r@[j] == r0[j]);
            }
        }
        proof {
            i = i + 1;
        }
    }
    proof {
        assert forall|name: Seq<char>| #[trigger] api_path(r@, name) == api_path(all, name) by {
            lemma_same_first_paths(all, r@, src, hit, name);
        }
    }
    r
}

proof fn lemma_same_first_paths(all: Seq<(String, ApiInfo)>, r: Seq<(String, ApiInfo)>, src: Seq<int>, hit: Seq<int>, name: Seq<char>)
    requires
        distinct_names(r),
        src.len() == r.len(),
        forall|j: int| 0 <= j < r.len() ==> 0 <= #[trigger] src[j] < all.len() && r[j] == all[src[j]] && first_of_name(all, src[j]),
        hit.len() == all.len(),
        forall|k: int| 0 <= k < all.len() ==> 0 <= #[trigger] hit[k] < r.len() && r[hit[k]].0@ == all[k].0@,
    ensures
        api_path(r, name) == api_path(all, name),
{
    if exists|k: int| 0 <= k < all.len() && (#[trigger] all[k]).0@ == name {
        let k0 = choose|k: int|
            0 <= k < all.len() && (#[trigger] all[k]).0@ == name && forall|j: int| 0 <= j < k ==> (#[trigger] all[j]).0@ != name;
        let kw = choose|k: int| 0 <= k < all.len() && (#[trigger] all[k]).0@ == name;
        lemma_first_exists(all, name, kw);
        let j = hit[k0];
        assert(r[j].0@ == name);
        lemma_first_exists(r, name, j);
        let j0 = choose|t: int|
            0 <= t < r.len() && (#[trigger] r[t]).0@ == name && forall|u: int| 0 <= u < t ==> (#[trigger] r[u]).0@ != name;
        if j0 < j {
            assert(r[j0].0@ != r[j].0@);
        } else if j0 > j {
            assert(r[j].0@ != name);
        }
        let k1 = src[j];
        assert(all[k1].0@ == name);
        if k1 < k0 {
            assert(all[k1].0@ != name);
        } else if k1 > k0 {
            assert(all[k0].0@ != all[k1].0@);
        }
    } else {
        if exists|t: int| 0 <= t < r.len() && (#[trigger] r[t]).0@ == name {
            let t = choose|t: int| 0 <= t < r.len() && (#[trigger] r[t]).0@ == name;
            assert(all[src[t]].0@ == name);
        }
    }
}

/// Where a name occurs, it has a first occurrence.
proof fn lemma_first_exists(s: Seq<(String, ApiInfo)>, name: Seq<char>, k: int)
    requires
        0 <= k < s.len(),
        s[k].0@ == name,
    ensures
        exists|f: int| 0 <= f < s.len() && (#[trigger] s[f]).0@ == name && forall|j: int| 0 <= j < f ==> (#[trigger] s[j]).0@ != name,
    decreases k,
{
    if exists|j: int| 0 <= j < k && (#[trigger] s[j]).0@ == name {
        let j = choose|j: int| 0 <= j < k && (#[trigger] s[j]).0@ == name;
        lemma_first_exists(s, name, j);
    } else {
        assert(forall|j: int| 0 <= j < k ==> (#[trigger] s[j]).0@ != name);
    }
}

/// HTTP transport state for the Synology Web API: where the NAS is, the session id, the
/// discovered API paths and the credentials kept for logging in again. The HTTP connection
/// itself belongs to the caller.
#[derive(Debug)]
pub struct SynoClient {
    pub base_url: String,
    pub sid: Option<String>,
    pub api_paths: Vec<(String, ApiInfo)>,
    pub credentials: Option<(String, String)>,
}

impl SynoClient {
    /// A client for a NAS at `base_url` (trailing slashes dropped), not logged in.
    pub fn new(base_url: &str) -> (c: Self)
        ensures
            c.base_url@ == without_trailing_slashes(base_url@),
            c.sid is None,
            c.api_paths@.len() == 0,
            c.credentials is None,
    {
        let mut end = base_url.unicode_len();
        assert(base_url@.take(end as int) =~= base_url@);
        while end > 0 && base_url.get_char(end - 1) == '/'
            invariant
                end <= base_url@.len(),
                without_trailing_slashes(base_url@) == without_trailing_slashes(base_url@.take(end as int)),
            decreases end,
        {
            assert(base_url@.take(end as int).drop_last() =~= base_url@.take(end - 1));
            end = end - 1;
        }
        let trimmed = crate::text::substring(base_url, 0, end);
        assert(trimmed@ =~= base_url@.take(end as int));
        SynoClient { base_url: trimmed, sid: None, api_paths: Vec::new(), credentials: None }
    }

    pub fn is_authenticated(&self) -> (b: bool)
        ensures
            b == self.sid is Some,
    {
        self.sid.is_some()
    }

    pub fn sid(&self) -> (s: Option<&str>)
        ensures
            match self.sid {
                Some(t) => (s matches Some(u) && u@ == t@),
                None => s is None,
            },
    {
        match &self.sid {
            Some(t) => Some(t.as_str()),
            None => None,
        }
    }

    pub fn set_sid(&mut self, sid: String)
        ensures
            final(self).sid == Some(sid),
            final(self).base_url == old(self).base_url,
            final(self).api_paths == old(self).api_paths,
            final(self).credentials == old(self).credentials,
    {
        self.sid = Some(sid);
    }

    pub fn clear_sid(&mut self)
        ensures
            final(self).sid is None,
            final(self).base_url == old(self).base_url,
            final(self).api_paths == old(self).api_paths,
            final(self).credentials == old(self).credentials,
    {
        self.sid = None;
    }

    pub fn set_credentials(&mut self, username: String, password: String)
        ensures
            final(self).credentials == Some((username, password)),
            final(self).sid == old(self).sid,
            final(self).base_url == old(self).base_url,
            final(self).api_paths == old(self).api_paths,
    {
        self.credentials = Some((username, password));
    }

    pub fn api_paths(&self) -> (p: &Vec<(String, ApiInfo)>)
        ensures
            p == &self.api_paths,
    {
        &self.api_paths
    }

    /// Keep the discovered API paths: each name once, with the place first given for it.
    pub fn set_api_paths(&mut self, paths: Vec<(String, ApiInfo)>)
        ensures
            distinct_names(final(self).api_paths@),
            forall|name: Seq<char>| #[trigger] api_path(final(self).api_paths@, name) == api_path(paths@, name),
            final(self).sid == old(self).sid,
            final(self).base_url == old(self).base_url,
            final(self).credentials == old(self).credentials,
    {
        self.api_paths = first_of_each_name(paths);
    }

    pub fn base_url(&self) -> (u: &str)
        ensures
            u@ == self.base_url@,
    {
        self.base_url.as_str()
    }

    /// The full URL of an API: `<base>/webapi/<path>`; an unknown API is an error (code 102).
    pub fn build_url(&self, api_name: &str) -> (r: Result<String>)
        ensures
            match api_path(self.api_paths@, api_name@) {
                Some(p) => (r matches Ok(u) && u@ == self.base_url@ + "/webapi/"@ + p),
                None => (r matches Err(SynoError::Api { code, message }) && code == 102 && message@
                    == "Unknown API: "@ + api_name@ + ". Run API discovery first."@),
            },
    {
        let mut i: usize = 0;
        while i < self.api_paths.len()
            invariant
                i <= self.api_paths@.len(),
                forall|j: int| 0 <= j < i ==> (#[trigger] self.api_paths@[j]).0@ != api_name@,
            decreases self.api_paths.len() - i,
        {
            if str_equal(self.api_paths[i].0.as_str(), api_name) {
                proof {
                    let k = choose|k: int|
                        0 <= k < self.api_paths@.len() && (#[trigger] self.api_paths@[k]).0@ == api_name@
                            && forall|j: int| 0 <= j < k ==> (#[trigger] self.api_paths@[j]).0@ != api_name@;
                    if k != i {
                        if k < i {
                        } else {
                            assert(self.api_paths@[i as int].0@ == api_name@);
                        }
                    }
                }
                let mut u = cat(self.base_url.as_str(), "/webapi/");
                push_str(&mut u, self.api_paths[i].1.path.as_str());
                return Ok(u);
            }
            i = i + 1;
        }
        let path: Option<&str> = if str_equal(api_name, "SYNO.API.Info") {
            Some("query.cgi")
        } else if str_equal(api_name, "SYNO.API.Auth") {
            Some("entry.cgi")
        } else {
            None
        };
        match path {
            Some(p) => {
                let mut u = cat(self.base_url.as_str(), "/webapi/");
                push_str(&mut u, p);
                Ok(u)
            },
            None => Err(
                SynoError::Api {
                    code: 102,
                    message: cat3("Unknown API: ", api_name, ". Run API discovery first."),
                },
            ),
        }
    }

    /// The query parameters of a call: `api`, `method`, `version`, the session id when logged
    /// in, then the call's own parameters.
    pub fn query_params(&self, call: &ApiCall) -> (q: Vec<(String, String)>)
        ensures
            q@.len() == 3 + (if self.sid is Some { 1int } else { 0 }) + call.params@.len(),
            q@[0].0@ == "api"@ && q@[0].1@ == call.api@,
            q@[1].0@ == "method"@ && q@[1].1@ == call.method@,
            q@[2].0@ == "version"@ && q@[2].1@ == signed_decimal(call.version as int),
            match self.sid {
                Some(s) => q@[3].0@ == "_sid"@ && q@[3].1@ == s@ && forall|k: int|
                    0 <= k < call.params@.len() ==> (#[trigger] q@[4 + k]).0@ == call.params@[k].0@ && q@[4
                        + k].1@ == call.params@[k].1@,
                None => forall|k: int|
                    0 <= k < call.params@.len() ==> (#[trigger] q@[3 + k]).0@ == call.params@[k].0@ && q@[3
                        + k].1@ == call.params@[k].1@,
            },
    {
        let mut q: Vec<(String, String)> = Vec::new();
        q.push(("api".to_string(), call.api.clone()));
        q.push(("method".to_string(), call.method.clone()));
        q.push(("version".to_string(), signed_string(call.version as i64)));
        match &self.sid {
            Some(s) => q.push(("_sid".to_string(), s.clone())),
            None => {},
        }
        let base = q.len();
        let mut i: usize = 0;
        while i < call.params.len()
            invariant
                base == 3 + (if self.sid is Some { 1int } else { 0 }),
                q@.len() == base + i,
                i <= call.params@.len(),
                q@[0].0@ == "api"@ && q@[0].1@ == call.api@,
                q@[1].0@ == "method"@ && q@[1].1@ == call.method@,
                q@[2].0@ == "version"@ && q@[2].1@ == signed_decimal(call.version as int),
                self.sid matches Some(s) ==> q@[3].0@ == "_sid"@ && q@[3].1@ == s@,
                forall|k: int| 0 <= k < i ==> (#[trigger] q@[base + k]).0@ == call.params@[k].0@ && q@[base + k].1@ == call.params@[k].1@,
            decreases call.params.len() - i,
        {
            q.push((call.params[i].0.clone(), call.params[i].1.clone()));
            i = i + 1;
        }
        q
    }

    /// The payload of an API response: the data of a success (an error with code 100 when it
    /// has none), else the error its code names (code 100 when it has none).
    pub fn decode<T>(response: ApiResponse<T>) -> (r: Result<T>)
        ensures
            response.success ==> match response.data {
                Some(d) => r == Ok::<T, SynoError>(d),
                None => (r matches Err(SynoError::Api { code, message }) && code == 100 && message@
                    == "Success response with no data"@),
            },
            !response.success ==> (r matches Err(e) && is_code_error(
                e,
                match response.error {
                    Some(err) => err.code,
                    None => 100,
                },
            )),
    {
        if response.success {
            match response.data {
                Some(d) => Ok(d),
                None => Err(SynoError::Api { code: 100, message: "Success response with no data".to_string() }),
            }
        } else {
            let code = match response.error {
                Some(e) => e.code,
                None => 100,
            };
            Err(SynoError::from_api_code(code))
        }
    }
}

/// Dropping the trailing slashes of an address twice is the same as once: a client made from
/// a client's own address has the same address.
pub proof fn lemma_trailing_slashes_idempotent(s: Seq<char>)
    ensures
        without_trailing_slashes(without_trailing_slashes(s))
            == without_trailing_slashes(s),
    decreases s.len(),
{
    if s.len() > 0 && s.last() == '/' {
        lemma_trailing_slashes_idempotent(s.drop_last());
    }
}

} // verus!
