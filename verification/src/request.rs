//! The requests that a check sends to the appliance.

use vstd::prelude::*;

verus! {

/// The HTTP method of a request.
#[derive(Clone, Copy, Debug, PartialEq, Eq, Structural)]
pub enum Method {
    Get,
    Post,
    Delete,
}

/// One of the three exchanges of a check.
#[derive(Clone, Copy, Debug, PartialEq, Eq, Structural)]
pub enum Exchange {
    /// Opens a session: the answer carries the session token in a header.
    Login,
    /// Asks for the alerts that are not cleared: the answer's body holds them.
    Alerts,
    /// Closes the session: the answer does not matter.
    Logout,
}

/// A request for the caller to send: the body goes out as it is, together
/// with the client's default headers.
#[derive(Clone, Debug, PartialEq, Eq)]
pub struct Request {
    pub exchange: Exchange,
    pub method: Method,
    pub url: String,
    pub body: String,
}

/// A [`Request`] as a mathematical value.
pub struct RequestView {
    pub exchange: Exchange,
    pub method: Method,
    pub url: Seq<char>,
    pub body: Seq<char>,
}

impl View for Request {
    type V = RequestView;

    open spec fn view(&self) -> RequestView {
        RequestView {
            exchange: self.exchange,
            method: self.method,
            url: self.url@,
            body: self.body@,
        }
    }
}

/// The compact JSON text that `serde_json` writes for the object with the
/// given members, each a name and a string.
pub uninterp spec fn json_object_text(members: Seq<(Seq<char>, Seq<char>)>) -> Seq<char>;

/// The address of the resource that holds the sessions of a host.
pub open spec fn sessions_url(host: Seq<char>) -> Seq<char> {
    "https://"@ + host + "/rest/login-sessions"@
}

/// The address of the query for the alerts of a host that are not cleared.
pub open spec fn alerts_url(host: Seq<char>) -> Seq<char> {
    "https://"@ + host + "/rest/alerts?filter=%%22alertState<>%%27Cleared%%27%%22"@
}

/// The body that names a user and a password.
pub open spec fn credentials_body(user: Seq<char>, pass: Seq<char>) -> Seq<char> {
    json_object_text(seq![("userName"@, user), ("password"@, pass)])
}

/// The body that carries a session token. The appliance takes the token
/// there, not in a header.
pub open spec fn session_body(token: Seq<char>) -> Seq<char> {
    json_object_text(seq![("Auth"@, token)])
}

/// The request that opens a session.
pub open spec fn login_request_for(host: Seq<char>, user: Seq<char>, pass: Seq<char>) -> RequestView {
    RequestView {
        exchange: Exchange::Login,
        method: Method::Post,
        url: sessions_url(host),
        body: credentials_body(user, pass),
    }
}

/// The request for the alerts that are not cleared.
pub open spec fn alerts_request_for(host: Seq<char>, token: Seq<char>) -> RequestView {
    RequestView {
        exchange: Exchange::Alerts,
        method: Method::Get,
        url: alerts_url(host),
        body: session_body(token),
    }
}

/// The request that closes a session.
pub open spec fn logout_request_for(host: Seq<char>, token: Seq<char>) -> RequestView {
    RequestView {
        exchange: Exchange::Logout,
        method: Method::Delete,
        url: sessions_url(host),
        body: session_body(token),
    }
}

/// `Display` of `serde_json::Value`, on the object that `Map::insert` makes
/// of the members, each value a JSON string. Trusted: the text is the
/// compact JSON of that object, and depends on the members alone.
#[verifier::external_body]
fn json_object(members: &Vec<(String, String)>) -> (text: String)
    ensures
        text@ == json_object_text(members.deep_view()),
{
    let mut object = serde_json::Map::new();
    for (name, value) in members.iter() {
        object.insert(name.clone(), serde_json::Value::String(value.clone()));
    }
    serde_json::Value::Object(object).to_string()
}

fn url_of(host: &str, path: &str) -> (url: String)
    ensures
        url@ == "https://"@ + host@ + path@,
{
    let mut url = "https://".to_owned();
    url.append(host);
    url.append(path);
    url
}

fn session_json(token: &str) -> (body: String)
    ensures
        body@ == session_body(token@),
{
    let mut members: Vec<(String, String)> = Vec::new();
    members.push(("Auth".to_owned(), token.to_owned()));
    assert(members.deep_view() =~= seq![("Auth"@, token@)]);
    json_object(&members)
}

/// The request that opens a session on `host` for `user`.
pub fn login_request(host: &str, user: &str, pass: &str) -> (request: Request)
    ensures
        request@ == login_request_for(host@, user@, pass@),
{
    let mut members: Vec<(String, String)> = Vec::new();
    members.push(("userName".to_owned(), user.to_owned()));
    members.push(("password".to_owned(), pass.to_owned()));
    assert(members.deep_view() =~= seq![("userName"@, user@), ("password"@, pass@)]);
    Request {
        exchange: Exchange::Login,
        method: Method::Post,
        url: url_of(host, "/rest/login-sessions"),
        body: json_object(&members),
    }
}

/// The request for the alerts of `host` that are not cleared, within the
/// session that `token` stands for.
pub fn alerts_request(host: &str, token: &str) -> (request: Request)
    ensures
        request@ == alerts_request_for(host@, token@),
{
    Request {
        exchange: Exchange::Alerts,
        method: Method::Get,
        url: url_of(host, "/rest/alerts?filter=%%22alertState<>%%27Cleared%%27%%22"),
        body: session_json(token),
    }
}

/// The request that closes the session that `token` stands for.
pub fn logout_request(host: &str, token: &str) -> (request: Request)
    ensures
        request@ == logout_request_for(host@, token@),
{
    Request {
        exchange: Exchange::Logout,
        method: Method::Delete,
        url: url_of(host, "/rest/login-sessions"),
        body: session_json(token),
    }
}

} // verus!
