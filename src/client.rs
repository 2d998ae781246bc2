use vstd::prelude::*;
use vstd::string::StringExecFns;
use crate::error::Error;
use crate::escape::{escaped, push_escaped};

verus! {

/// Where the DAPNET API lives unless configured otherwise.
pub const DEFAULT_API_URL: &'static str = "https://hampager.de/api/";

/// Text of the URL that `reference` names when resolved against the absolute
/// URL `base`; `None` where `base` does not parse or `reference` does not resolve.
pub uninterp spec fn resolved_url(base: Seq<char>, reference: Seq<char>) -> Option<Seq<char>>;

/// Relies on `url::Url::parse` followed by `url::Url::join`: resolves a reference
/// against a base URL the way a browser does. Its outcome and the text of the
/// result (`Url::as_str`) depend on the two texts alone.
#[verifier::external_body]
fn resolve_url(base: &str, reference: &str) -> (r: core::result::Result<
    (url::Url, String),
    url::ParseError,
>)
    ensures
        match r {
            Ok((_, text)) => resolved_url(base@, reference@) == Some(text@),
            Err(_) => resolved_url(base@, reference@) is None,
        },
{
    let url = url::Url::parse(base)?.join(reference)?;
    let text = url.as_str().to_string();
    Ok((url, text))
}

/// Where the client sends its requests.
#[derive(Debug, Clone)]
pub struct ClientConfig {
    /// Base URL of the API, against which every resource path is resolved.
    pub api_url: String,
}

impl Default for ClientConfig {
    fn default() -> (r: Self)
        ensures
            r.api_url@ == DEFAULT_API_URL@,
    {
        ClientConfig { api_url: String::from_str(DEFAULT_API_URL) }
    }
}

/// HTTP method of a request.
#[derive(Debug, Clone, Copy, PartialEq, Eq)]
pub enum Method {
    Get,
    Post,
}

/// What the body of a successful answer holds.
#[derive(Debug, Clone, Copy, PartialEq, Eq)]
pub enum Reply {
    /// One record.
    One,
    /// A list of records.
    Many,
    /// Nothing of interest: the request submitted a payload.
    Unit,
}

/// One operation of the API.
#[derive(Debug, Clone)]
pub enum Endpoint {
    Statistics,
    /// Calls sent by the named user.
    CallsBy(String),
    NewCall,
    AllNodes,
    Node(String),
    AllCallsigns,
    Callsign(String),
    AllTransmitters,
    Transmitter(String),
    AllTransmitterGroups,
    TransmitterGroup(String),
    AllRubrics,
    Rubric(String),
    /// News of the named rubric.
    News(String),
    NewNews,
}

impl Endpoint {
    /// Path of the operation relative to the API's base URL; names are escaped.
    pub open spec fn path_spec(&self) -> Seq<char> {
        match self {
            Endpoint::Statistics => "stats"@,
            Endpoint::CallsBy(owner) => "calls?ownerName="@ + escaped(owner@),
            Endpoint::NewCall => "calls"@,
            Endpoint::AllNodes => "nodes"@,
            Endpoint::Node(name) => "nodes/"@ + escaped(name@),
            Endpoint::AllCallsigns => "callsigns"@,
            Endpoint::Callsign(name) => "callsigns/"@ + escaped(name@),
            Endpoint::AllTransmitters => "transmitters"@,
            Endpoint::Transmitter(name) => "transmitters/"@ + escaped(name@),
            Endpoint::AllTransmitterGroups => "transmitterGroups"@,
            Endpoint::TransmitterGroup(name) => "transmitterGroups/"@ + escaped(name@),
            Endpoint::AllRubrics => "rubrics"@,
            Endpoint::Rubric(name) => "rubrics/"@ + escaped(name@),
            Endpoint::News(rubric) => "news?rubricName="@ + escaped(rubric@),
            Endpoint::NewNews => "news"@,
        }
    }

    pub open spec fn method_spec(&self) -> Method {
        match self {
            Endpoint::NewCall | Endpoint::NewNews => Method::Post,
            _ => Method::Get,
        }
    }

    pub open spec fn reply_spec(&self) -> Reply {
        match self {
            Endpoint::NewCall | Endpoint::NewNews => Reply::Unit,
            Endpoint::Statistics | Endpoint::Node(_) | Endpoint::Callsign(_) | Endpoint::Transmitter(
                _,
            ) | Endpoint::TransmitterGroup(_) | Endpoint::Rubric(_) => Reply::One,
            _ => Reply::Many,
        }
    }

    /// Path of the operation relative to the API's base URL.
    pub fn path(&self) -> (r: String)
        ensures
            r@ == self.path_spec(),
    {
        let (prefix, name): (&str, Option<&String>) = match self {
            Endpoint::Statistics => ("stats", None),
            Endpoint::CallsBy(owner) => ("calls?ownerName=", Some(owner)),
            Endpoint::NewCall => ("calls", None),
            Endpoint::AllNodes => ("nodes", None),
            Endpoint::Node(name) => ("nodes/", Some(name)),
            Endpoint::AllCallsigns => ("callsigns", None),
            Endpoint::Callsign(name) => ("callsigns/", Some(name)),
            Endpoint::AllTransmitters => ("transmitters", None),
            Endpoint::Transmitter(name) => ("transmitters/", Some(name)),
            Endpoint::AllTransmitterGroups => ("transmitterGroups", None),
            Endpoint::TransmitterGroup(name) => ("transmitterGroups/", Some(name)),
            Endpoint::AllRubrics => ("rubrics", None),
            Endpoint::Rubric(name) => ("rubrics/", Some(name)),
            Endpoint::News(rubric) => ("news?rubricName=", Some(rubric)),
            Endpoint::NewNews => ("news", None),
        };
        let mut out = String::from_str(prefix);
        match name {
            Some(n) => push_escaped(&mut out, n.as_str()),
            None => {},
        }
        proof {
            assert(out@ =~= self.path_spec());
        }
        out
    }

    /// HTTP method of the operation: the two submissions post, the rest get.
    pub fn method(&self) -> (r: Method)
        ensures
            r == self.method_spec(),
    {
        match self {
            Endpoint::NewCall | Endpoint::NewNews => Method::Post,
            _ => Method::Get,
        }
    }

    /// What a successful answer to the operation holds.
    pub fn reply(&self) -> (r: Reply)
        ensures
            r == self.reply_spec(),
    {
        match self {
            Endpoint::NewCall | Endpoint::NewNews => Reply::Unit,
            Endpoint::Statistics | Endpoint::Node(_) | Endpoint::Callsign(_) | Endpoint::Transmitter(
                _,
            ) | Endpoint::TransmitterGroup(_) | Endpoint::Rubric(_) => Reply::One,
            _ => Reply::Many,
        }
    }
}

/// A request ready for the transport: method, resolved URL and basic-auth credentials.
#[derive(Debug)]
pub struct Request {
    pub method: Method,
    /// The path that `url` was resolved from.
    pub path: String,
    pub url: url::Url,
    /// The text of `url`.
    pub url_text: String,
    pub reply: Reply,
    pub username: String,
    pub password: String,
}

/// Credentials and configuration of the API; every request carries the credentials.
#[derive(Debug, Clone)]
pub struct Client {
    username: String,
    password: String,
    config: ClientConfig,
}

impl Client {
    pub closed spec fn username_spec(&self) -> Seq<char> {
        self.username@
    }

    pub closed spec fn password_spec(&self) -> Seq<char> {
        self.password@
    }

    pub closed spec fn api_url_spec(&self) -> Seq<char> {
        self.config.api_url@
    }

    /// Creates a new instance of the client with the default configuration.
    pub fn new(username: &str, password: &str) -> (r: Self)
        ensures
            r.username_spec() == username@,
            r.password_spec() == password@,
            r.api_url_spec() == DEFAULT_API_URL@,
    {
        Client::with_config(username, password, ClientConfig::default())
    }

    /// Creates a new instance of the client that talks to `config.api_url`.
    pub fn with_config(username: &str, password: &str, config: ClientConfig) -> (r: Self)
        ensures
            r.username_spec() == username@,
            r.password_spec() == password@,
            r.api_url_spec() == config.api_url@,
    {
        Client {
            username: String::from_str(username),
            password: String::from_str(password),
            config,
        }
    }

    pub fn username(&self) -> (r: &String)
        ensures
            r@ == self.username_spec(),
    {
        &self.username
    }

    pub fn password(&self) -> (r: &String)
        ensures
            r@ == self.password_spec(),
    {
        &self.password
    }

    pub fn config(&self) -> (r: &ClientConfig)
        ensures
            r.api_url@ == self.api_url_spec(),
    {
        &self.config
    }

    /// The request for `endpoint`: its path resolved against the base URL, with
    /// the client's credentials. It fails, with a URL error, exactly when the base
    /// URL does not parse or the path does not resolve against it.
    pub fn request(&self, endpoint: &Endpoint) -> (r: core::result::Result<Request, Error>)
        ensures
            r is Ok <==> resolved_url(self.api_url_spec(), endpoint.path_spec()) is Some,
            r matches Ok(req) ==> {
                &&& req.method == endpoint.method_spec()
                &&& req.path@ == endpoint.path_spec()
                &&& Some(req.url_text@) == resolved_url(self.api_url_spec(), endpoint.path_spec())
                &&& req.reply == endpoint.reply_spec()
                &&& req.username@ == self.username_spec()
                &&& req.password@ == self.password_spec()
            },
            r matches Err(e) ==> e is UrlError,
    {
        let path = endpoint.path();
        let (url, url_text) = match resolve_url(self.config.api_url.as_str(), path.as_str()) {
            Ok(resolved) => resolved,
            Err(e) => {
                return Err(Error::UrlError(e));
            },
        };
        Ok(Request {
            method: endpoint.method(),
            path,
            url,
            url_text,
            reply: endpoint.reply(),
            username: self.username.clone(),
            password: self.password.clone(),
        })
    }
}

/// Whether an HTTP status is a success (2xx).
pub open spec fn is_success(status: u16) -> bool {
    200 <= status <= 299
}

/// HTTP status of "not found".
pub const NOT_FOUND: u16 = 404;

/// What to do with the answer to a fetch.
#[derive(Debug, Clone, Copy, PartialEq, Eq)]
pub enum FetchAction {
    /// Decode the body: the resource is present.
    Decode,
    /// The resource is absent; there is no body to decode.
    Absent,
}

/// The rule for the status of a fetch: a success means the body holds the
/// resource, "not found" means it is absent, and any other status is an error
/// that carries it.
pub fn fetch_outcome(status: u16) -> (r: core::result::Result<FetchAction, Error>)
    ensures
        is_success(status) ==> r == Ok::<FetchAction, Error>(FetchAction::Decode),
        status == NOT_FOUND ==> r == Ok::<FetchAction, Error>(FetchAction::Absent),
        !is_success(status) && status != NOT_FOUND ==> (r matches Err(Error::ApiError(s)) && s == status),
{
    if 200 <= status && status <= 299 {
        Ok(FetchAction::Decode)
    } else if status == NOT_FOUND {
        Ok(FetchAction::Absent)
    } else {
        Err(Error::ApiError(status))
    }
}

/// The rule for the status of a submission: a success is `Ok`, any other status
/// is an error that carries it.
pub fn submit_outcome(status: u16) -> (r: core::result::Result<(), Error>)
    ensures
        is_success(status) ==> r is Ok,
        !is_success(status) ==> (r matches Err(Error::ApiError(s)) && s == status),
{
    if 200 <= status && status <= 299 {
        Ok(())
    } else {
        Err(Error::ApiError(status))
    }
}

/// The present entries of `s`, in order.
pub open spec fn present<T>(s: Seq<Option<T>>) -> Seq<T>
    decreases s.len(),
{
    if s.len() == 0 {
        Seq::empty()
    } else {
        let head = match s[0] {
            Some(x) => seq![x],
            None => Seq::empty(),
        };
        head + present(s.drop_first())
    }
}

/// Filtering a list keeps exactly its present entries: every item of the result
/// stands as a present entry in the list, and every present entry of the list
/// is in the result.
pub proof fn lemma_present_items_exact<T>(s: Seq<Option<T>>)
    ensures
        forall|x: T| #[trigger] present(s).contains(x) ==> s.contains(Some(x)),
        forall|i: int| 0 <= i < s.len() && (#[trigger] s[i]) is Some ==> present(s).contains(s[i]->0),
    decreases s.len(),
{
    if s.len() > 0 {
        let rest = s.drop_first();
        lemma_present_items_exact(rest);
        let head = match s[0] {
            Some(x) => seq![x],
            None => Seq::<T>::empty(),
        };
        assert(present(s) == head + present(rest));
        assert forall|x: T| #[trigger] present(s).contains(x) implies s.contains(Some(x)) by {
            let k = choose|k: int| 0 <= k < present(s).len() && present(s)[k] == x;
            if k < head.len() {
                assert(s[0] == Some(x));
            } else {
                assert(present(rest)[k - head.len()] == x);
                assert(present(rest).contains(x));
                let j = choose|j: int| 0 <= j < rest.len() && rest[j] == Some(x);
                assert(s[j + 1] == Some(x));
            }
        }
        assert forall|i: int| 0 <= i < s.len() && (#[trigger] s[i]) is Some implies present(s).contains(s[i]->0) by {
            if i == 0 {
                assert(present(s)[0] == s[0]->0);
            } else {
                assert(rest[i - 1] == s[i]);
                let k = choose|k: int| 0 <= k < present(rest).len() && present(rest)[k] == s[i]->0;
                assert(present(s)[k + head.len()] == s[i]->0);
            }
        }
    }
}

/// The present entries of a list that the server may pad with nulls, in order.
pub fn present_items<T>(items: Vec<Option<T>>) -> (r: Vec<T>)
    ensures
        r@ == present(items@),
{
    let ghost old_items = items;
    let mut items = items;
    let mut out: Vec<T> = Vec::new();
    while items.len() > 0
        invariant
            out@ + present(items@) == present(old_items@),
        decreases items.len(),
    {
        let ghost before = items@;
        let first = items.remove(0);
        proof {
            assert(before.drop_first() =~= items@);
        }
        match first {
            Some(x) => {
                out.push(x);
                proof {
                    assert(out@ + present(items@) =~= present(old_items@));
                }
            },
            None => {},
        }
    }
    out
}

} // verus!
