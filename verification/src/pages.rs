//! The page server: which page a request path is answered with, and the
//! cross-origin policy of its responses.

use vstd::prelude::*;
use crate::text::str_equal;

verus! {

/// Pages rendered from a template on the server.
#[derive(Clone, Copy, Debug, PartialEq, Eq, Structural)]
pub enum DirectPage {
    Home,
    NoAuth,
}

/// Single-page applications served by the page server.
#[derive(Clone, Copy, Debug, PartialEq, Eq, Structural)]
pub enum SpaPage {
    User,
}

/// What a request is answered with.
#[derive(Clone, Copy, Debug, PartialEq, Eq, Structural)]
pub enum PageRoute {
    Direct(DirectPage),
    Spa(SpaPage),
    /// The file of that path under the public directory.
    PublicFile,
    /// The server's start time.
    Epoch,
    /// No route matched: the rejection page.
    Rejected,
}

/// The route of a request whose path has the non-empty components `segs`,
/// where `authorized` tells whether the request carries a valid session and
/// `public_file` whether the public directory holds a file at that path.
/// The routes are tried in order: the home page, the no-auth page, the
/// authorized user profile, anything under `user`, a public file, the
/// epoch page.
pub open spec fn page_route(segs: Seq<Seq<char>>, authorized: bool, public_file: bool) -> PageRoute {
    if segs.len() == 0 {
        PageRoute::Direct(DirectPage::Home)
    } else if segs == seq!["no-auth"@] {
        PageRoute::Direct(DirectPage::NoAuth)
    } else if segs == seq!["user"@, "profile"@] && authorized {
        PageRoute::Spa(SpaPage::User)
    } else if segs[0] == "user"@ {
        PageRoute::Spa(SpaPage::User)
    } else if public_file {
        PageRoute::PublicFile
    } else if segs == seq!["epoch"@] {
        PageRoute::Epoch
    } else {
        PageRoute::Rejected
    }
}

/// Whether a request carries a valid session never changes the page it is
/// answered with: an unauthorized request for the user profile falls through
/// to the route of everything under `user`, which answers the same page.
pub proof fn lemma_route_ignores_authorization(segs: Seq<Seq<char>>, public_file: bool)
    ensures
        page_route(segs, true, public_file) == page_route(segs, false, public_file),
{
    if segs == seq!["user"@, "profile"@] {
        assert(segs[0] == "user"@);
    }
}

/// Whether the components are exactly the one `name`.
fn is_single(segments: &Vec<String>, name: &str) -> (r: bool)
    ensures
        r == (segments.deep_view() == seq![name@]),
{
    if segments.len() != 1 {
        assert(segments.deep_view().len() != 1);
        return false;
    }
    let r = str_equal(segments[0].as_str(), name);
    assert(segments.deep_view()[0] == segments@[0]@);
    assert(r == (segments.deep_view() =~= seq![name@]));
    r
}

/// The page a request path is answered with.
pub fn route_page(segments: &Vec<String>, authorized: bool, public_file: bool) -> (r: PageRoute)
    ensures
        r == page_route(segments.deep_view(), authorized, public_file),
{
    let ghost segs = segments.deep_view();
    assert(forall|i: int| 0 <= i < segs.len() ==> segs[i] == segments@[i]@);
    if segments.len() == 0 {
        return PageRoute::Direct(DirectPage::Home);
    }
    if is_single(segments, "no-auth") {
        return PageRoute::Direct(DirectPage::NoAuth);
    }
    let under_user = str_equal(segments[0].as_str(), "user");
    assert(under_user == (segs[0] == "user"@));
    if authorized && segments.len() == 2 && under_user && str_equal(
        segments[1].as_str(),
        "profile",
    ) {
        assert(segs =~= seq!["user"@, "profile"@]);
        return PageRoute::Spa(SpaPage::User);
    }
    if under_user {
        return PageRoute::Spa(SpaPage::User);
    }
    assert(segs != seq!["user"@, "profile"@]) by {
        if segs == seq!["user"@, "profile"@] {
            assert(segs[0] == "user"@);
        }
    }
    if public_file {
        return PageRoute::PublicFile;
    }
    if is_single(segments, "epoch") {
        return PageRoute::Epoch;
    }
    PageRoute::Rejected
}

/// HTTP methods.
#[derive(Clone, Copy, Debug, PartialEq, Eq, Structural)]
pub enum HttpMethod {
    Get,
    Post,
    Delete,
    Options,
}

/// The origins a response may be shared with.
#[derive(Clone, Debug)]
pub enum CorsOrigins {
    Any,
    List(Vec<String>),
}

/// A cross-origin resource sharing policy.
#[derive(Clone, Debug)]
pub struct CorsPolicy {
    pub methods: Vec<HttpMethod>,
    pub headers: Vec<String>,
    pub allow_credentials: bool,
    pub origins: CorsOrigins,
}

/// The headers a cross-origin request may carry.
pub open spec fn cors_headers() -> Seq<Seq<char>> {
    seq!["Authorization"@, "Content-Type"@, "X-CSRF"@]
}

/// The cross-origin policy of the page server: `GET`, `POST`, `DELETE` and
/// `OPTIONS`, the authorization, content type and CSRF headers, with
/// credentials; any origin on a local insecure setup, else the configured
/// origins.
pub fn cors_policy(local_insecure: bool, origins: Vec<String>) -> (r: CorsPolicy)
    ensures
        r.methods@ == seq![HttpMethod::Get, HttpMethod::Post, HttpMethod::Delete, HttpMethod::Options],
        r.headers.deep_view() == cors_headers(),
        r.allow_credentials,
        local_insecure ==> r.origins is Any,
        !local_insecure ==> (r.origins matches CorsOrigins::List(list) && list@ == origins@),
{
    let methods = vec![HttpMethod::Get, HttpMethod::Post, HttpMethod::Delete, HttpMethod::Options];
    let mut headers: Vec<String> = Vec::new();
    headers.push(String::from_str("Authorization"));
    headers.push(String::from_str("Content-Type"));
    headers.push(String::from_str("X-CSRF"));
    assert(headers.deep_view() =~= cors_headers());
    let origins = if local_insecure {
        CorsOrigins::Any
    } else {
        CorsOrigins::List(origins)
    };
    CorsPolicy { methods, headers, allow_credentials: true, origins }
}

} // verus!
