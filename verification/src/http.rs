//! The request model: what the host hands to the dispatcher, and how raw
//! host-supplied configuration is validated and normalised into a request.

use vstd::prelude::*;
use vstd::string::StringExecFns;
use vstd::string::StrSliceExecFns;

verus! {

/// A callback retained in the host's registry, identified by an integer slot.
pub type LuaReference = i32;

/// Rejections raised at submission time, before a request reaches the worker.
#[derive(Clone, Copy, Debug, PartialEq, Eq)]
pub enum Error {
    InvalidURL,
}

impl Error {
    /// The message raised on the host thread when a submission is rejected.
    pub fn message(&self) -> (m: &'static str)
        ensures
            m@ == "invalid url"@,
    {
        "invalid url"
    }
}

/// The bytes http::Method::from_bytes accepts: RFC 7230 token characters.
pub open spec fn method_byte_ok(b: u8) -> bool {
    ||| b == 33  // !
    ||| b == 42  // *
    ||| b == 43  // +
    ||| b == 45  // -
    ||| b == 46  // .
    ||| 48 <= b <= 57  // 0-9
    ||| 65 <= b <= 90  // A-Z
    ||| b == 94  // ^
    ||| b == 95  // _
    ||| b == 96  // `
    ||| 97 <= b <= 122  // a-z
    ||| b == 124  // |
    ||| b == 126  // ~
}

/// A well-formed HTTP method: a non-empty run of token bytes.
pub open spec fn method_token(s: Seq<u8>) -> bool {
    s.len() > 0 && forall|i: int| 0 <= i < s.len() ==> method_byte_ok(s[i])
}

/// Which strings parse as well-formed absolute URLs; decided by url::Url::parse,
/// and a function of the characters alone.
pub uninterp spec fn url_ok(s: Seq<char>) -> bool;

/// Relies on http::Method::from_bytes, which accepts exactly the non-empty
/// strings of RFC 7230 token bytes (letters, digits and ! * + - . ^ _ ` | ~).
#[verifier::external_body]
fn method_is_valid(bytes: &Vec<u8>) -> (r: bool)
    ensures
        r == method_token(bytes@),
{
    http::Method::from_bytes(bytes.as_slice()).is_ok()
}

/// Relies on url::Url::parse to decide which strings are well-formed URLs;
/// the verdict depends on the characters of the string alone.
#[verifier::external_body]
fn url_is_valid(s: &str) -> (r: bool)
    ensures
        r == url_ok(s@),
{
    url::Url::parse(s).is_ok()
}

/// The method used when none (or an invalid one) is configured: GET.
pub open spec fn default_method() -> Seq<u8> {
    seq![71u8, 69u8, 84u8]
}

fn default_method_vec() -> (v: Vec<u8>)
    ensures
        v@ == default_method(),
{
    let mut v: Vec<u8> = Vec::new();
    v.push(71);
    v.push(69);
    v.push(84);
    proof {
        assert(v@ =~= default_method());
    }
    v
}

/// The content type used when none is configured.
pub open spec fn default_content_type() -> Seq<char> {
    "text/plain; charset=utf-8"@
}

/// The method a request ends up with for a given configured value: the
/// configured token if it is valid, and GET otherwise.
pub open spec fn chosen_method(m: Option<Vec<u8>>) -> Seq<u8> {
    match m {
        Some(b) => if method_token(b@) {
            b@
        } else {
            default_method()
        },
        None => default_method(),
    }
}

/// The timeout a request ends up with: a configured positive number of
/// seconds is kept, anything else falls back to the default (applied later).
pub open spec fn chosen_timeout(t: Option<i64>) -> Option<u64> {
    match t {
        Some(secs) => if secs > 0 {
            Some(secs as u64)
        } else {
            None
        },
        None => None,
    }
}

/// Character-for-character string equality.
pub fn str_eq(a: &str, b: &str) -> (r: bool)
    ensures
        r == (a@ == b@),
{
    let alen = a.unicode_len();
    let blen = b.unicode_len();
    if alen != blen {
        return false;
    }
    let mut i: usize = 0;
    while i < alen
        invariant
            i <= alen,
            alen == a@.len(),
            blen == b@.len(),
            alen == blen,
            forall|j: int| 0 <= j < i ==> a@[j] == b@[j],
        decreases alen - i,
    {
        if a.get_char(i) != b.get_char(i) {
            return false;
        }
        i = i + 1;
    }
    proof {
        assert(a@ =~= b@);
    }
    true
}

/// The numeric value a character compares by when ASCII case is ignored:
/// upper-case ASCII letters fold onto their lower-case forms.
pub open spec fn lower_code(c: char) -> int {
    if 65 <= c as int <= 90 {
        c as int + 32
    } else {
        c as int
    }
}

/// ASCII case-insensitive string equality, character for character.
pub open spec fn eq_ignore_ascii_case(a: Seq<char>, b: Seq<char>) -> bool {
    a.len() == b.len() && forall|i: int| 0 <= i < a.len() ==> lower_code(a[i]) == lower_code(b[i])
}

/// Decides ASCII case-insensitive equality of two strings.
pub fn str_eq_ignore_ascii_case(a: &str, b: &str) -> (r: bool)
    ensures
        r == eq_ignore_ascii_case(a@, b@),
{
    let alen = a.unicode_len();
    let blen = b.unicode_len();
    if alen != blen {
        return false;
    }
    let mut i: usize = 0;
    while i < alen
        invariant
            i <= alen,
            alen == a@.len(),
            blen == b@.len(),
            alen == blen,
            forall|j: int| 0 <= j < i ==> lower_code(a@[j]) == lower_code(b@[j]),
        decreases alen - i,
    {
        let ca = a.get_char(i) as u32;
        let cb = b.get_char(i) as u32;
        let la = if 65 <= ca && ca <= 90 {
            ca + 32
        } else {
            ca
        };
        let lb = if 65 <= cb && cb <= 90 {
            cb + 32
        } else {
            cb
        };
        if la != lb {
            proof {
                assert(la == lower_code(a@[i as int]));
                assert(lb == lower_code(b@[i as int]));
            }
            return false;
        }
        i = i + 1;
    }
    true
}

/// Whether a configured header names the user agent, in any ASCII casing.
pub open spec fn names_user_agent(h: (String, String)) -> bool {
    eq_ignore_ascii_case(h.0@, "User-Agent"@)
}

/// Whether any configured header names the user agent.
pub open spec fn has_user_agent(hs: Seq<(String, String)>) -> bool {
    exists|i: int| 0 <= i < hs.len() && names_user_agent(hs[i])
}

/// The user agent presented when the configuration names none.
pub open spec fn default_user_agent() -> Seq<char> {
    "Valve/Steam HTTP Client 1.0 (4000)"@
}

/// Raw request configuration as read off the host, before validation.
/// Every field is optional; absent fields fall back to defaults.
#[derive(Clone, Debug)]
pub struct RequestConfig {
    pub method: Option<Vec<u8>>,
    pub url: Option<String>,
    pub body: Option<Vec<u8>>,
    pub content_type: Option<String>,
    pub timeout: Option<i64>,
    pub parameters: Option<Vec<(String, String)>>,
    pub headers: Option<Vec<(String, String)>>,
    pub success: Option<LuaReference>,
    pub failed: Option<LuaReference>,
}

/// A validated request, ready to move into the dispatch channel.
#[derive(Clone, Debug, PartialEq, Eq)]
pub struct HTTPRequest {
    pub method: Vec<u8>,
    pub url: String,
    pub parameters: Option<Vec<(String, String)>>,
    pub headers: Option<Vec<(String, String)>>,
    pub body: Option<Vec<u8>>,
    pub content_type: String,
    pub timeout: Option<u64>,
    pub success: Option<LuaReference>,
    pub failed: Option<LuaReference>,
}

impl HTTPRequest {
    /// A body and form parameters are mutually exclusive: a present body
    /// suppresses the parameters.
    pub open spec fn wf(self) -> bool {
        self.body is Some ==> self.parameters is None
    }

    /// Validates and normalises raw configuration into a request.
    ///
    /// The URL is the only field whose absence or malformation rejects the
    /// submission; every other field falls back to a default.
    pub fn from_config(cfg: RequestConfig) -> (r: Result<HTTPRequest, Error>)
        ensures
            match r {
                Ok(req) => {
                    &&& cfg.url matches Some(u) && url_ok(u@)
                    &&& req.url == cfg.url->Some_0
                    &&& req.method@ == chosen_method(cfg.method)
                    &&& req.body == cfg.body
                    &&& req.parameters == (if cfg.body is Some {
                        None::<Vec<(String, String)>>
                    } else {
                        cfg.parameters
                    })
                    &&& req.headers == cfg.headers
                    &&& cfg.content_type matches Some(t) ==> req.content_type == t
                    &&& cfg.content_type is None ==> req.content_type@ == default_content_type()
                    &&& req.timeout == chosen_timeout(cfg.timeout)
                    &&& req.success == cfg.success
                    &&& req.failed == cfg.failed
                    &&& req.wf()
                },
                Err(e) => {
                    &&& e == Error::InvalidURL
                    &&& match cfg.url {
                        Some(u) => !url_ok(u@),
                        None => true,
                    }
                },
            },
    {
        let RequestConfig { method, url, body, content_type, timeout, parameters, headers, success, failed } =
            cfg;

        let url = match url {
            None => {
                return Err(Error::InvalidURL);
            },
            Some(u) => {
                if url_is_valid(u.as_str()) {
                    u
                } else {
                    return Err(Error::InvalidURL);
                }
            },
        };

        let method = match method {
            None => default_method_vec(),
            Some(m) => {
                if method_is_valid(&m) {
                    m
                } else {
                    default_method_vec()
                }
            },
        };

        let content_type = match content_type {
            Some(t) => t,
            None => String::from_str("text/plain; charset=utf-8"),
        };

        let timeout = match timeout {
            Some(secs) => {
                if secs > 0 {
                    Some(secs as u64)
                } else {
                    None
                }
            },
            None => None,
        };

        let parameters = if body.is_some() {
            None
        } else {
            parameters
        };

        Ok(HTTPRequest { method, url, parameters, headers, body, content_type, timeout, success, failed })
    }

    /// The headers the configuration stands for.
    pub open spec fn user_headers(self) -> Seq<(String, String)> {
        match self.headers {
            Some(h) => h@,
            None => Seq::empty(),
        }
    }

    /// The full ordered header list handed to the HTTP client: every
    /// configured header in order, then the default user agent when no
    /// configured header names one in any casing, then the content type.
    pub fn header_plan(&self) -> (r: Vec<(String, String)>)
        ensures
            ({
                let user = self.user_headers();
                let n = user.len() as int;
                &&& forall|i: int| 0 <= i < n ==> r@[i] == user[i]
                &&& has_user_agent(user) ==> r@.len() == n + 1
                &&& !has_user_agent(user) ==> {
                    &&& r@.len() == n + 2
                    &&& r@[n].0@ == "User-Agent"@
                    &&& r@[n].1@ == default_user_agent()
                }
                &&& r@[r@.len() - 1].0@ == "Content-Type"@
                &&& r@[r@.len() - 1].1@ == self.content_type@
            }),
    {
        let ghost user = self.user_headers();
        let mut r: Vec<(String, String)> = Vec::new();
        let mut found_ua = false;
        match &self.headers {
            Some(hs) => {
                let mut i: usize = 0;
                while i < hs.len()
                    invariant
                        i <= hs.len(),
                        user == hs@,
                        r@.len() == i,
                        forall|j: int| 0 <= j < i ==> r@[j] == user[j],
                        found_ua == exists|k: int|
                            0 <= k < i && names_user_agent(#[trigger] user[k]),
                    decreases hs.len() - i,
                {
                    let name = hs[i].0.clone();
                    let value = hs[i].1.clone();
                    proof {
                        assert(name == user[i as int].0);
                        assert((name, value) == user[i as int]);
                    }
                    if !found_ua && str_eq_ignore_ascii_case(name.as_str(), "User-Agent") {
                        found_ua = true;
                        proof {
                            assert(names_user_agent(user[i as int]));
                        }
                    }
                    r.push((name, value));
                    i = i + 1;
                }
                proof {
                    assert(found_ua == has_user_agent(user));
                }
            },
            None => {
            },
        }
        if !found_ua {
            r.push(
                (String::from_str("User-Agent"), String::from_str("Valve/Steam HTTP Client 1.0 (4000)")),
            );
        }
        r.push((String::from_str("Content-Type"), self.content_type.clone()));
        r
    }

    /// The request timeout in seconds, with the default applied.
    pub fn effective_timeout(&self) -> (t: u64)
        ensures
            t == match self.timeout {
                Some(secs) => secs,
                None => 60u64,
            },
    {
        match self.timeout {
            Some(secs) => secs,
            None => 60,
        }
    }
}

} // verus!
