//! What the API client decides: the base URL, the URL and `Authorization`
//! header of a request, and how a response is taken.
use vstd::prelude::*;
use crate::error::{ErrorV, ZhihuError};
use crate::json::{Json, JsonV};
use crate::text::{concat2, owned};
use vstd::string::StrSliceExecFns;

verus! {

/// The API host used when `ZHIHU_OPENAPI_BASE_URL` is not set.
pub const DEFAULT_BASE_URL: &'static str = "https://developer.zhihu.com";

/// The client's credentials and the server it talks to.
#[derive(Debug)]
pub struct ZhihuClient {
    secret: String,
    base_url: String,
}

/// `s` without the slashes at its end.
pub open spec fn trim_trailing_slashes(s: Seq<char>) -> Seq<char>
    decreases s.len(),
{
    if s.len() > 0 && s.last() == '/' {
        trim_trailing_slashes(s.drop_last())
    } else {
        s
    }
}

/// The base URL: the value of `ZHIHU_OPENAPI_BASE_URL` when set, the default
/// host otherwise, without trailing slashes.
pub open spec fn base_url_spec(env: Option<Seq<char>>) -> Seq<char> {
    trim_trailing_slashes(
        match env {
            Some(e) => e,
            None => DEFAULT_BASE_URL@,
        },
    )
}

/// Whether a status code reports success (200 to 299).
pub open spec fn is_success_spec(status: u16) -> bool {
    200 <= status <= 299
}

/// How a response is taken: a successful one must hold JSON (`decoded` is
/// what decoding its body gave), any other is an API error with the status
/// and the body.
pub open spec fn response_spec(status: u16, body: Seq<char>, decoded: Option<JsonV>) -> Result<
    JsonV,
    ErrorV,
> {
    if !is_success_spec(status) {
        Err(ErrorV::Api { status, body })
    } else {
        match decoded {
            Some(j) => Ok(j),
            None => Err(ErrorV::NonJsonResponse),
        }
    }
}

impl ZhihuClient {
    /// A client with the given secret and base URL.
    pub fn with_secret_and_base_url(secret: String, base_url: String) -> (r: Self)
        ensures
            r.secret_view() == secret@,
            r.base_url_view() == base_url@,
    {
        ZhihuClient { secret, base_url }
    }

    /// The secret of this client.
    pub closed spec fn secret_view(&self) -> Seq<char> {
        self.secret@
    }

    /// The base URL of this client.
    pub closed spec fn base_url_view(&self) -> Seq<char> {
        self.base_url@
    }

    /// The secret of this client.
    pub fn secret(&self) -> (r: &str)
        ensures
            r@ == self.secret_view(),
    {
        self.secret.as_str()
    }

    /// The base URL of this client.
    pub fn base_url(&self) -> (r: &str)
        ensures
            r@ == self.base_url_view(),
    {
        self.base_url.as_str()
    }

    /// The base URL for the value of `ZHIHU_OPENAPI_BASE_URL`, if set.
    pub fn base_url_from(env: Option<&str>) -> (r: String)
        ensures
            r@ == base_url_spec(
                match env {
                    Some(e) => Some(e@),
                    None => None,
                },
            ),
    {
        let s = match env {
            Some(e) => e,
            None => DEFAULT_BASE_URL,
        };
        let mut n = s.unicode_len();
        assert(s@.subrange(0, n as int) =~= s@);
        while n > 0 && s.get_char(n - 1) == '/'
            invariant
                n <= s@.len(),
                trim_trailing_slashes(s@) == trim_trailing_slashes(s@.subrange(0, n as int)),
            decreases n,
        {
            assert(s@.subrange(0, n as int).drop_last() =~= s@.subrange(0, n - 1));
            n = n - 1;
        }
        proof {
            let t = s@.subrange(0, n as int);
            if n > 0 {
                assert(t.last() == s@[n - 1]);
            }
        }
        owned(s.substring_char(0, n))
    }

    /// The URL of `path` on this client's server.
    pub fn url_for(&self, path: &str) -> (r: String)
        ensures
            r@ == self.base_url_view() + path@,
    {
        concat2(self.base_url.as_str(), path)
    }

    /// The value of the `Authorization` header: `Bearer ` and the secret.
    pub fn authorization(&self) -> (r: String)
        ensures
            r@ == "Bearer "@ + self.secret_view(),
    {
        concat2("Bearer ", self.secret.as_str())
    }

    /// Whether a status code reports success.
    pub fn is_success(status: u16) -> (r: bool)
        ensures
            r == is_success_spec(status),
    {
        200 <= status && status <= 299
    }

    /// Takes a response: its JSON when the status is a success and the body
    /// decoded (`decoded` is what decoding `body` as JSON gave), a
    /// `NonJsonResponse` error when it did not decode, an `Api` error with the
    /// status and body when the status is not a success.
    pub fn response_json(status: u16, body: String, decoded: Option<Json>) -> (r: Result<
        Json,
        ZhihuError,
    >)
        ensures
            match r {
                Ok(j) => response_spec(
                    status,
                    body@,
                    match decoded {
                        Some(d) => Some(d@),
                        None => None,
                    },
                ) == Ok::<JsonV, ErrorV>(j@),
                Err(e) => response_spec(
                    status,
                    body@,
                    match decoded {
                        Some(d) => Some(d@),
                        None => None,
                    },
                ) == Err::<JsonV, ErrorV>(e@),
            },
    {
        if !ZhihuClient::is_success(status) {
            return Err(ZhihuError::Api { status, body });
        }
        match decoded {
            Some(j) => Ok(j),
            None => Err(ZhihuError::NonJsonResponse),
        }
    }
}


/// The base URL never ends with a slash, and it is the configured (or
/// default) URL with only slashes removed from its end.
pub proof fn lemma_base_url_drops_only_trailing_slashes(env: Option<Seq<char>>)
    ensures
        ({
            let src = match env {
                Some(e) => e,
                None => DEFAULT_BASE_URL@,
            };
            let b = base_url_spec(env);
            &&& b.len() <= src.len()
            &&& b == src.subrange(0, b.len() as int)
            &&& forall|i: int| b.len() <= i < src.len() ==> #[trigger] src[i] == '/'
            &&& (b.len() > 0 ==> b.last() != '/')
        }),
{
    let src = match env {
        Some(e) => e,
        None => DEFAULT_BASE_URL@,
    };
    lemma_trim_trailing_slashes(src);
}

proof fn lemma_trim_trailing_slashes(s: Seq<char>)
    ensures
        trim_trailing_slashes(s).len() <= s.len(),
        trim_trailing_slashes(s) == s.subrange(0, trim_trailing_slashes(s).len() as int),
        forall|i: int| trim_trailing_slashes(s).len() <= i < s.len() ==> #[trigger] s[i] == '/',
        trim_trailing_slashes(s).len() > 0 ==> trim_trailing_slashes(s).last() != '/',
    decreases s.len(),
{
    if s.len() > 0 && s.last() == '/' {
        lemma_trim_trailing_slashes(s.drop_last());
        let t = trim_trailing_slashes(s);
        assert(t == s.drop_last().subrange(0, t.len() as int));
        assert(t =~= s.subrange(0, t.len() as int));
        assert forall|i: int| t.len() <= i < s.len() implies #[trigger] s[i] == '/' by {
            if i < s.len() - 1 {
                assert(s[i] == s.drop_last()[i]);
            }
        }
    } else {
        assert(s =~= s.subrange(0, s.len() as int));
    }
}

} // verus!
