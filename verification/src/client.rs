//! The API client: the bearer-token slot and the three remote operations'
//! request shapes.
//!
//! The client owns one optional bearer token, set either from a loaded
//! configuration or from a guest login's response. Every authenticated
//! operation fails cleanly with [`Error::MissingCredential`] while it is
//! unset. The network itself is the application's: the client computes,
//! as plain data, the exact URL and header values each call must use.

use vstd::prelude::*;

use crate::error::Error;

verus! {

/// An outbound API request, as plain data for the application to perform.
#[derive(Debug, Clone)]
pub struct ApiRequest {
    /// The full request URL.
    pub url: String,
    /// The `Authorization` header value, when the call is authenticated.
    pub authorization: Option<String>,
    /// The `X-Website-Token` header value, when the endpoint wants it.
    pub website_token: Option<String>,
    /// The `Cookie` header value, when the endpoint wants the token there.
    pub cookie: Option<String>,
}

/// The client: a single mutable bearer-token slot.
#[derive(Debug, Clone)]
pub struct Client {
    token: Option<String>,
}

impl Client {
    /// The token the client currently holds, if any.
    pub closed spec fn spec_token(&self) -> Option<Seq<char>> {
        match self.token {
            Some(t) => Some(t@),
            None => None,
        }
    }

    /// A new client with no token.
    pub fn new() -> (r: Self)
        ensures
            r.spec_token() is None,
    {
        Client { token: None }
    }

    /// Store a token, fully replacing whatever the slot held before.
    ///
    /// A guest login stores its fresh token through this, so a second
    /// login's token completely replaces the first one.
    pub fn set_token(&mut self, token: String)
        ensures
            final (self).spec_token() == Some(token@),
    {
        self.token = Some(token);
    }

    /// The stored token, or [`Error::MissingCredential`] when unset.
    pub fn get_token(&self) -> (r: Result<String, Error>)
        ensures
            r is Ok <==> self.spec_token() is Some,
            r matches Ok(t) ==> Some(t@) == self.spec_token(),
            r is Err ==> r == Err::<String, Error>(Error::MissingCredential),
    {
        match &self.token {
            Some(t) => Ok(t.clone()),
            None => Err(Error::MissingCredential),
        }
    }

    /// The guest account creation request: a bare POST, no credentials.
    pub fn accounts_request(&self) -> (r: ApiRequest)
        ensures
            r.url@ == "https://api.gofile.io/accounts"@,
            r.authorization is None,
            r.website_token is None,
            r.cookie is None,
    {
        ApiRequest {
            url: "https://api.gofile.io/accounts".to_owned(),
            authorization: None,
            website_token: None,
            cookie: None,
        }
    }

    /// The folder contents request for folder `id`: one page, large enough
    /// for every child the service returns, bearer-authenticated, with the
    /// semi-static site token in its own header.
    pub fn contents_request(&self, id: &str) -> (r: Result<ApiRequest, Error>)
        ensures
            r is Ok <==> self.spec_token() is Some,
            r matches Ok(q) ==> {
                &&& q.url@ == "https://api.gofile.io/contents/"@ + id@
                    + "?contentFilter=&page=1&pageSize=1000&sortField=name&sortDirection=1"@
                &&& self.spec_token() matches Some(t) && q.authorization matches Some(a) && a@
                    == "Bearer "@ + t
                &&& q.website_token matches Some(w) && w@ == "4fd6sg89d7s6"@
                &&& q.cookie is None
            },
            r is Err ==> r == Err::<ApiRequest, Error>(Error::MissingCredential),
    {
        let token = self.get_token()?;
        let mut url = "https://api.gofile.io/contents/".to_owned();
        url.append(id);
        url.append("?contentFilter=&page=1&pageSize=1000&sortField=name&sortDirection=1");
        Ok(
            ApiRequest {
                url,
                authorization: Some(bearer_value(token.as_str())),
                website_token: Some("4fd6sg89d7s6".to_owned()),
                cookie: None,
            },
        )
    }

    /// The upload request: a bearer-authenticated POST to the upload host.
    /// The multipart body is the application's to assemble.
    pub fn upload_request(&self) -> (r: Result<ApiRequest, Error>)
        ensures
            r is Ok <==> self.spec_token() is Some,
            r matches Ok(q) ==> {
                &&& q.url@ == "https://upload.gofile.io/uploadfile"@
                &&& self.spec_token() matches Some(t) && q.authorization matches Some(a) && a@
                    == "Bearer "@ + t
                &&& q.website_token is None
                &&& q.cookie is None
            },
            r is Err ==> r == Err::<ApiRequest, Error>(Error::MissingCredential),
    {
        let token = self.get_token()?;
        Ok(
            ApiRequest {
                url: "https://upload.gofile.io/uploadfile".to_owned(),
                authorization: Some(bearer_value(token.as_str())),
                website_token: None,
                cookie: None,
            },
        )
    }

    /// The file body request for a file child's download link: the link
    /// itself, with the token passed as the `accountToken` cookie.
    pub fn download_request(&self, link: &str) -> (r: Result<ApiRequest, Error>)
        ensures
            r is Ok <==> self.spec_token() is Some,
            r matches Ok(q) ==> {
                &&& q.url@ == link@
                &&& q.authorization is None
                &&& q.website_token is None
                &&& self.spec_token() matches Some(t) && q.cookie matches Some(c) && c@
                    == "accountToken="@ + t
            },
            r is Err ==> r == Err::<ApiRequest, Error>(Error::MissingCredential),
    {
        let token = self.get_token()?;
        let mut cookie = "accountToken=".to_owned();
        cookie.append(token.as_str());
        Ok(
            ApiRequest {
                url: link.to_owned(),
                authorization: None,
                website_token: None,
                cookie: Some(cookie),
            },
        )
    }
}

impl Default for Client {
    /// The default client: no token, as [`Client::new`] builds it.
    fn default() -> (r: Self)
        ensures
            r.spec_token() is None,
    {
        Client { token: None }
    }
}

/// The three remote operations, named for error classification.
#[derive(Debug, Clone, Copy, PartialEq, Eq, Structural)]
pub enum ApiOperation {
    /// Guest account creation.
    LoginGuest,
    /// Folder contents listing.
    GetContents,
    /// File upload.
    Upload,
}

/// The status names success.
pub open spec fn spec_status_ok(status: u16) -> bool {
    200 <= status < 300
}

/// Classify a response status: success on 2xx; anything else fails the
/// login with [`Error::Auth`] and the other operations with
/// [`Error::Http`].
pub fn classify_status(status: u16, op: ApiOperation) -> (r: Result<(), Error>)
    ensures
        r is Ok <==> spec_status_ok(status),
        !spec_status_ok(status) && op is LoginGuest ==> r == Err::<(), Error>(Error::Auth),
        !spec_status_ok(status) && !(op is LoginGuest) ==> r == Err::<(), Error>(Error::Http),
{
    if 200 <= status && status < 300 {
        Ok(())
    } else if matches!(op, ApiOperation::LoginGuest) {
        Err(Error::Auth)
    } else {
        Err(Error::Http)
    }
}

/// The error a malformed response body maps to: a login that cannot be
/// decoded is an authentication failure, any other body a decode failure.
pub fn classify_bad_body(op: ApiOperation) -> (r: Error)
    ensures
        op is LoginGuest ==> r == Error::Auth,
        !(op is LoginGuest) ==> r == Error::Decode,
{
    if matches!(op, ApiOperation::LoginGuest) {
        Error::Auth
    } else {
        Error::Decode
    }
}

/// The `Authorization` header value for a bearer token.
fn bearer_value(token: &str) -> (r: String)
    ensures
        r@ == "Bearer "@ + token@,
{
    let mut v = "Bearer ".to_owned();
    v.append(token);
    v
}

} // verus!
