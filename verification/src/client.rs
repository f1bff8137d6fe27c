//! The configuration of a client, and the requests it sends to the resolver.
//!
//! A client knows the address of the resolver and one credential. It does not
//! send anything itself: it says what is to be sent, and opens the session
//! that interprets what comes back.

use crate::address::normalize;
use crate::address::normalized_url;
use crate::address::InvalidUrl;
use crate::model::request::DownloadRequest;
use crate::model::request::DownloadRequestView;
use crate::pipeline::Goal;
use crate::pipeline::GoalView;
use crate::pipeline::Session;
use crate::text::ends_with;
use crate::text::str_ends_with;
use vstd::prelude::*;
use vstd::string::StringExecFns;

verus! {

/// Collects the settings of a client.
#[derive(Debug, Clone, PartialEq, Eq)]
pub struct ClientBuilder {
    pub base_url: Option<String>,
    pub api_key: Option<String>,
    pub bearer_token: Option<String>,
    pub user_agent: Option<String>,
}

/// The mathematical value of a `ClientBuilder`.
pub struct ClientBuilderView {
    pub base_url: Option<Seq<char>>,
    pub api_key: Option<Seq<char>>,
    pub bearer_token: Option<Seq<char>>,
    pub user_agent: Option<Seq<char>>,
}

impl DeepView for ClientBuilder {
    type V = ClientBuilderView;

    open spec fn deep_view(&self) -> ClientBuilderView {
        ClientBuilderView {
            base_url: self.base_url.deep_view(),
            api_key: self.api_key.deep_view(),
            bearer_token: self.bearer_token.deep_view(),
            user_agent: self.user_agent.deep_view(),
        }
    }
}

/// What keeps a builder from building a client.
#[derive(Debug, Clone, Copy, PartialEq, Eq, Structural)]
pub enum ConfigError {
    /// No base URL was set.
    MissingBaseUrl,
    /// Neither an API key nor a bearer token was set.
    MissingCredential,
    /// Both an API key and a bearer token were set.
    ConflictingCredentials,
}

impl ClientBuilderView {
    /// What is wrong with the settings, if anything: the base URL is asked
    /// for first, then exactly one credential.
    pub open spec fn defect(self) -> Option<ConfigError> {
        if self.base_url is None {
            Some(ConfigError::MissingBaseUrl)
        } else if self.api_key is None && self.bearer_token is None {
            Some(ConfigError::MissingCredential)
        } else if self.api_key is Some && self.bearer_token is Some {
            Some(ConfigError::ConflictingCredentials)
        } else {
            None
        }
    }

    /// The user agent of the client that these settings build: the one that
    /// was set, or the library's own.
    pub open spec fn effective_user_agent(self) -> Seq<char> {
        match self.user_agent {
            Some(agent) => agent,
            None => "ccobalt/0.0.1 (+client)"@,
        }
    }
}

/// `url` with a slash added at its end, unless it ends with one.
pub open spec fn with_trailing_slash(url: Seq<char>) -> Seq<char> {
    if ends_with(url, '/') {
        url
    } else {
        url + "/"@
    }
}

impl ClientBuilder {
    /// A builder with nothing set.
    pub fn new() -> (builder: ClientBuilder)
        ensures
            builder.deep_view() == (ClientBuilderView {
                base_url: None,
                api_key: None,
                bearer_token: None,
                user_agent: None,
            }),
    {
        ClientBuilder { base_url: None, api_key: None, bearer_token: None, user_agent: None }
    }

    /// Sets the address of the resolver. A slash is added at its end unless
    /// it ends with one.
    pub fn base_url(self, url: &str) -> (builder: ClientBuilder)
        ensures
            builder.deep_view() == (ClientBuilderView {
                base_url: Some(with_trailing_slash(url@)),
                ..self.deep_view()
            }),
    {
        let mut address = url.to_owned();
        if !str_ends_with(url, '/') {
            address.append("/");
        }
        ClientBuilder {
            base_url: Some(address),
            api_key: self.api_key,
            bearer_token: self.bearer_token,
            user_agent: self.user_agent,
        }
    }

    /// Sets the user agent that the client presents.
    pub fn user_agent(self, user_agent: &str) -> (builder: ClientBuilder)
        ensures
            builder.deep_view() == (ClientBuilderView {
                user_agent: Some(user_agent@),
                ..self.deep_view()
            }),
    {
        ClientBuilder {
            base_url: self.base_url,
            api_key: self.api_key,
            bearer_token: self.bearer_token,
            user_agent: Some(user_agent.to_owned()),
        }
    }

    /// Sets the API key that the client authenticates with.
    pub fn api_key(self, key: &str) -> (builder: ClientBuilder)
        ensures
            builder.deep_view() == (ClientBuilderView {
                api_key: Some(key@),
                ..self.deep_view()
            }),
    {
        ClientBuilder {
            base_url: self.base_url,
            api_key: Some(key.to_owned()),
            bearer_token: self.bearer_token,
            user_agent: self.user_agent,
        }
    }

    /// Sets the bearer token that the client authenticates with.
    pub fn bearer_token(self, token: &str) -> (builder: ClientBuilder)
        ensures
            builder.deep_view() == (ClientBuilderView {
                bearer_token: Some(token@),
                ..self.deep_view()
            }),
    {
        ClientBuilder {
            base_url: self.base_url,
            api_key: self.api_key,
            bearer_token: Some(token.to_owned()),
            user_agent: self.user_agent,
        }
    }

    /// Says what keeps these settings from building a client, if anything.
    pub fn validate(&self) -> (r: Result<(), ConfigError>)
        ensures
            match r {
                Ok(_) => self.deep_view().defect() is None,
                Err(e) => self.deep_view().defect() == Some(e),
            },
    {
        if self.base_url.is_none() {
            Err(ConfigError::MissingBaseUrl)
        } else if self.api_key.is_none() && self.bearer_token.is_none() {
            Err(ConfigError::MissingCredential)
        } else if self.api_key.is_some() && self.bearer_token.is_some() {
            Err(ConfigError::ConflictingCredentials)
        } else {
            Ok(())
        }
    }

    /// Builds the client. The settings must be complete: a base URL and
    /// exactly one credential. Fails exactly when the base URL is no absolute
    /// URL; the client otherwise holds the base URL in normalized form, the
    /// credential, and the user agent that was set or else the library's own.
    pub fn build(self) -> (r: Result<Client, InvalidUrl>)
        requires
            self.deep_view().defect() is None,
        ensures
            match r {
                Ok(client) => client.deep_view().wf() && normalized_url(
                    self.deep_view().base_url->0,
                ) == Some(client.deep_view().base_url) && client.deep_view() == (ClientView {
                    base_url: client.deep_view().base_url,
                    api_key: self.deep_view().api_key,
                    bearer_token: self.deep_view().bearer_token,
                    user_agent: self.deep_view().effective_user_agent(),
                }),
                Err(_) => normalized_url(self.deep_view().base_url->0) is None,
            },
    {
        let text = match self.base_url {
            Some(text) => text,
            None => {
                return Err(InvalidUrl);
            },
        };
        let base_url = match normalize(text.as_str()) {
            Ok(address) => address,
            Err(e) => {
                return Err(e);
            },
        };
        let user_agent = match self.user_agent {
            Some(agent) => agent,
            None => "ccobalt/0.0.1 (+client)".to_owned(),
        };
        Ok(Client { base_url, api_key: self.api_key, bearer_token: self.bearer_token, user_agent })
    }
}

impl Default for ClientBuilder {
    /// A builder with nothing set.
    fn default() -> (builder: ClientBuilder)
        ensures
            builder.deep_view() == (ClientBuilderView {
                base_url: None,
                api_key: None,
                bearer_token: None,
                user_agent: None,
            }),
    {
        ClientBuilder::new()
    }
}

/// A configured client: the resolver's address in normalized form, exactly
/// one credential, and a user agent.
#[derive(Debug, PartialEq, Eq)]
pub struct Client {
    base_url: String,
    api_key: Option<String>,
    bearer_token: Option<String>,
    user_agent: String,
}

/// The mathematical value of a `Client`.
pub struct ClientView {
    pub base_url: Seq<char>,
    pub api_key: Option<Seq<char>>,
    pub bearer_token: Option<Seq<char>>,
    pub user_agent: Seq<char>,
}

impl ClientView {
    /// What holds of every client: it has exactly one credential.
    pub open spec fn wf(self) -> bool {
        (self.api_key is Some) != (self.bearer_token is Some)
    }

    /// The value of the `authorization` header: the API key or the bearer
    /// token, each after the name of its scheme.
    pub open spec fn authorization(self) -> Seq<char> {
        match self.api_key {
            Some(key) => "Api-Key "@ + key,
            None => "Bearer "@ + self.bearer_token->0,
        }
    }

    /// The request that asks the resolver about itself.
    pub open spec fn info_request(self) -> HttpRequestView {
        HttpRequestView {
            method: Method::Get,
            url: self.base_url,
            headers: seq![HeaderView { name: "accept"@, value: "application/json"@ }],
            body: None,
        }
    }

    /// The request that asks the resolver for a download.
    pub open spec fn download_request(self, request: DownloadRequestView) -> HttpRequestView {
        HttpRequestView {
            method: Method::Post,
            url: self.base_url,
            headers: seq![
                HeaderView { name: "accept"@, value: "application/json"@ },
                HeaderView { name: "content-type"@, value: "application/json"@ },
                HeaderView { name: "authorization"@, value: self.authorization() },
            ],
            body: Some(request.json_text()),
        }
    }
}

/// The method of a request.
#[derive(Debug, Clone, Copy, PartialEq, Eq, Structural)]
pub enum Method {
    Get,
    Post,
}

/// One header of a request.
#[derive(Debug, Clone, PartialEq, Eq)]
pub struct Header {
    pub name: String,
    pub value: String,
}

/// A request to the resolver, ready to be sent.
#[derive(Debug, Clone, PartialEq, Eq)]
pub struct HttpRequest {
    pub method: Method,
    pub url: String,
    pub headers: Vec<Header>,
    pub body: Option<String>,
}

/// The mathematical value of a `Header`.
pub struct HeaderView {
    pub name: Seq<char>,
    pub value: Seq<char>,
}

/// The mathematical value of an `HttpRequest`.
pub struct HttpRequestView {
    pub method: Method,
    pub url: Seq<char>,
    pub headers: Seq<HeaderView>,
    pub body: Option<Seq<char>>,
}

impl DeepView for Header {
    type V = HeaderView;

    open spec fn deep_view(&self) -> HeaderView {
        HeaderView { name: self.name@, value: self.value@ }
    }
}

impl DeepView for HttpRequest {
    type V = HttpRequestView;

    open spec fn deep_view(&self) -> HttpRequestView {
        HttpRequestView {
            method: self.method,
            url: self.url@,
            headers: self.headers.deep_view(),
            body: self.body.deep_view(),
        }
    }
}

/// A session that was opened, and the request that the caller is to send
/// before it reports the first event.
#[derive(Debug, Clone, PartialEq, Eq)]
pub struct Exchange {
    pub session: Session,
    pub request: HttpRequest,
}

fn header(name: &str, value: &str) -> (h: Header)
    ensures
        h.deep_view() == (HeaderView { name: name@, value: value@ }),
{
    Header { name: name.to_owned(), value: value.to_owned() }
}

impl DeepView for Client {
    type V = ClientView;

    closed spec fn deep_view(&self) -> ClientView {
        ClientView {
            base_url: self.base_url@,
            api_key: self.api_key.deep_view(),
            bearer_token: self.bearer_token.deep_view(),
            user_agent: self.user_agent@,
        }
    }
}

fn copy_of(text: &Option<String>) -> (copy: Option<String>)
    ensures
        copy.deep_view() == text.deep_view(),
{
    match text {
        Some(s) => Some(s.clone()),
        None => None,
    }
}

impl Clone for Client {
    fn clone(&self) -> (copy: Client)
        ensures
            copy.deep_view() == self.deep_view(),
    {
        proof {
            use_type_invariant(self);
        }
        Client {
            base_url: self.base_url.clone(),
            api_key: copy_of(&self.api_key),
            bearer_token: copy_of(&self.bearer_token),
            user_agent: self.user_agent.clone(),
        }
    }
}

impl Client {
    #[verifier::type_invariant]
    spec fn inv(self) -> bool {
        (self.api_key is Some) != (self.bearer_token is Some)
    }

    /// A builder with nothing set.
    pub fn builder() -> (builder: ClientBuilder)
        ensures
            builder.deep_view() == (ClientBuilderView {
                base_url: None,
                api_key: None,
                bearer_token: None,
                user_agent: None,
            }),
    {
        ClientBuilder::new()
    }

    /// The resolver's address, in normalized form.
    pub fn base_url(&self) -> (url: &str)
        ensures
            url@ == self.deep_view().base_url,
    {
        self.base_url.as_str()
    }

    /// The user agent that the client presents.
    pub fn user_agent(&self) -> (agent: &str)
        ensures
            agent@ == self.deep_view().user_agent,
    {
        self.user_agent.as_str()
    }

    /// The value of the `authorization` header. Every client has exactly one
    /// credential to make it from.
    pub fn authorization(&self) -> (value: String)
        ensures
            self.deep_view().wf(),
            value@ == self.deep_view().authorization(),
    {
        proof {
            use_type_invariant(self);
        }
        match &self.api_key {
            Some(key) => "Api-Key ".to_owned().concat(key.as_str()),
            None => match &self.bearer_token {
                Some(token) => "Bearer ".to_owned().concat(token.as_str()),
                None => "Bearer ".to_owned(),
            },
        }
    }

    /// The request that asks the resolver about itself.
    pub fn info_request(&self) -> (request: HttpRequest)
        ensures
            request.deep_view() == self.deep_view().info_request(),
    {
        let mut headers: Vec<Header> = Vec::new();
        headers.push(header("accept", "application/json"));
        let request = HttpRequest {
            method: Method::Get,
            url: self.base_url.clone(),
            headers,
            body: None,
        };
        assert(request.headers.deep_view() =~= self.deep_view().info_request().headers);
        request
    }

    /// The request that asks the resolver for a download: the download
    /// request as JSON, with the client's credential.
    pub fn download_request(&self, request: &DownloadRequest) -> (http: HttpRequest)
        ensures
            http.deep_view() == self.deep_view().download_request(request.deep_view()),
    {
        let mut headers: Vec<Header> = Vec::new();
        headers.push(header("accept", "application/json"));
        headers.push(header("content-type", "application/json"));
        let authorization = self.authorization();
        headers.push(header("authorization", authorization.as_str()));
        let http = HttpRequest {
            method: Method::Post,
            url: self.base_url.clone(),
            headers,
            body: Some(request.to_json()),
        };
        assert(http.headers.deep_view() =~= self.deep_view().download_request(
            request.deep_view(),
        ).headers);
        http
    }

    /// Opens the session that asks the resolver about itself.
    pub fn get_info(&self) -> (exchange: Exchange)
        ensures
            exchange.session.deep_view() == crate::pipeline::opened(GoalView::Info),
            exchange.request.deep_view() == self.deep_view().info_request(),
    {
        Exchange { session: Session::open(Goal::Info), request: self.info_request() }
    }

    /// Opens the session that asks the resolver how to obtain the media and
    /// ends with its answer.
    pub fn resolve_download(&self, request: &DownloadRequest) -> (exchange: Exchange)
        ensures
            exchange.session.deep_view() == crate::pipeline::opened(GoalView::Resolve),
            exchange.request.deep_view() == self.deep_view().download_request(
                request.deep_view(),
            ),
    {
        Exchange { session: Session::open(Goal::Resolve), request: self.download_request(request) }
    }

    /// Opens the session that resolves the request, fetches the media and
    /// ends with its bytes.
    pub fn download(&self, request: &DownloadRequest) -> (exchange: Exchange)
        ensures
            exchange.session.deep_view() == crate::pipeline::opened(GoalView::Download),
            exchange.request.deep_view() == self.deep_view().download_request(
                request.deep_view(),
            ),
    {
        Exchange {
            session: Session::open(Goal::Download),
            request: self.download_request(request),
        }
    }

    /// Opens the session that resolves the request, fetches the media and
    /// has it written to a file named after `base_name` in `directory`.
    pub fn download_and_save(
        &self,
        request: &DownloadRequest,
        base_name: &str,
        directory: &str,
    ) -> (exchange: Exchange)
        ensures
            exchange.session.deep_view() == crate::pipeline::opened(
                GoalView::Save { base_name: base_name@, directory: directory@ },
            ),
            exchange.request.deep_view() == self.deep_view().download_request(
                request.deep_view(),
            ),
    {
        Exchange {
            session: Session::open(
                Goal::Save { base_name: base_name.to_owned(), directory: directory.to_owned() },
            ),
            request: self.download_request(request),
        }
    }
}

} // verus!
