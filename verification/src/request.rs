//! The description of a request, and the addresses that it is sent to.

use vstd::prelude::*;
use vstd::string::*;

verus! {

/// One query parameter.
#[derive(Clone, Debug, PartialEq, Eq)]
pub struct Param {
    pub key: String,
    pub value: String,
}

impl DeepView for Param {
    type V = (Seq<char>, Seq<char>);

    open spec fn deep_view(&self) -> (Seq<char>, Seq<char>) {
        (self.key@, self.value@)
    }
}

/// What is asked, and of whom: the hosts, the path below each host, and the
/// query parameters in the order in which they are sent. A key may occur
/// more than once.
#[derive(Clone, Debug, PartialEq, Eq)]
pub struct RequestDescriptor {
    pub hosts: Vec<String>,
    pub path: String,
    pub params: Vec<Param>,
}

/// The URL that `url::Url::parse_with_params` gives for the address `base`
/// and the pairs `params`, as text; `None` where it reports an error.
pub uninterp spec fn url_with_params(
    base: Seq<char>,
    params: Seq<(Seq<char>, Seq<char>)>,
) -> Option<Seq<char>>;

/// Calls `url::Url::parse_with_params` and hands back the URL's text, which
/// is what `url_with_params` names; `None` where `base` is no absolute URL.
#[verifier::external_body]
fn compose_url(base: &str, params: &Vec<Param>) -> (r: Option<String>)
    ensures
        r.deep_view() == url_with_params(base@, params.deep_view()),
{
    let pairs = params.iter().map(|p| (p.key.as_str(), p.value.as_str()));
    match url::Url::parse_with_params(base, pairs) {
        Ok(url) => Some(String::from(url)),
        Err(_) => None,
    }
}

/// What follows the port in the URL `url`, as `url::Url` slices it from
/// `url::Position::AfterPort`: the path, the query and the fragment. `None`
/// where `url::Url::parse` reports an error.
pub uninterp spec fn url_target(url: Seq<char>) -> Option<Seq<char>>;

/// Calls `url::Url::parse` and slices the URL from `Position::AfterPort`;
/// the result is what `url_target` names.
#[verifier::external_body]
pub(crate) fn slice_target(url: &str) -> (r: Option<String>)
    ensures
        r.deep_view() == url_target(url@),
{
    match url::Url::parse(url) {
        Ok(parsed) => Some(parsed[url::Position::AfterPort..].to_string()),
        Err(_) => None,
    }
}

/// The address of `path` on `host`: the two with a slash between them.
pub open spec fn address_of(host: Seq<char>, path: Seq<char>) -> Seq<char> {
    host + "/"@ + path
}

/// The URL of a request for `path` on `host` with the parameters `params`.
/// Without parameters it is the address as it stands, unparsed, so there
/// always is one. With parameters it is what the URL library makes of the
/// address and the parameters, and there is none where the library refuses
/// the address.
pub open spec fn url_of(
    host: Seq<char>,
    path: Seq<char>,
    params: Seq<(Seq<char>, Seq<char>)>,
) -> Option<Seq<char>> {
    if params.len() == 0 {
        Some(address_of(host, path))
    } else {
        url_with_params(address_of(host, path), params)
    }
}

impl RequestDescriptor {
    /// The URL of the request on each host, in the order of the hosts. A
    /// request with parameters has `None` for a host whose address the URL
    /// library refuses; a request without parameters has a URL for every
    /// host, which nothing has parsed yet.
    pub open spec fn spec_urls(self) -> Seq<Option<Seq<char>>> {
        Seq::new(
            self.hosts@.len(),
            |i: int| url_of(self.hosts@[i]@, self.path@, self.params.deep_view()),
        )
    }

    /// A request to one host.
    pub fn single(host: String, path: String, params: Vec<Param>) -> (r: RequestDescriptor)
        ensures
            r.hosts@ == seq![host],
            r.path == path,
            r.params == params,
    {
        let mut hosts: Vec<String> = Vec::new();
        hosts.push(host);
        RequestDescriptor { hosts, path, params }
    }

    /// The address of the request on `host`.
    pub fn address(host: &str, path: &str) -> (r: String)
        ensures
            r@ == address_of(host@, path@),
    {
        let mut out = String::from_str(host);
        out.append("/");
        out.append(path);
        out
    }

    /// The URL of the request on each host, in the order of the hosts: see
    /// [`url_of`] for when a host has none.
    pub fn urls(&self) -> (r: Vec<Option<String>>)
        ensures
            r.deep_view() == self.spec_urls(),
    {
        let mut out: Vec<Option<String>> = Vec::new();
        let mut i: usize = 0;
        while i < self.hosts.len()
            invariant
                i <= self.hosts@.len(),
                out@.len() == i,
                forall|k: int|
                    0 <= k < i ==> (#[trigger] out@[k]).deep_view() == url_of(
                        self.hosts@[k]@,
                        self.path@,
                        self.params.deep_view(),
                    ),
            decreases self.hosts@.len() - i,
        {
            let base = Self::address(self.hosts[i].as_str(), self.path.as_str());
            let url = if self.params.len() == 0 {
                Some(base)
            } else {
                compose_url(base.as_str(), &self.params)
            };
            out.push(url);
            i += 1;
        }
        assert(out.deep_view() =~= self.spec_urls());
        out
    }
}

} // verus!
