use ccobalt::address::normalize;
use ccobalt::address::InvalidUrl;
use ccobalt::client::Client;
use ccobalt::client::ClientBuilder;
use ccobalt::client::ConfigError;
use ccobalt::client::Header;
use ccobalt::client::Method;
use ccobalt::model::request::DownloadRequest;
use ccobalt::pipeline::Goal;
use ccobalt::pipeline::Session;
use ccobalt::pipeline::Stage;
use ccobalt::text::str_ends_with;
use ccobalt::text::str_eq;

fn header(name: &str, value: &str) -> Header {
    Header { name: name.to_string(), value: value.to_string() }
}

fn client_with_key() -> Client {
    Client::builder().base_url("https://api.example").api_key("secret").build().unwrap()
}

#[test]
fn the_base_url_gets_a_trailing_slash() {
    let builder = ClientBuilder::new().base_url("https://api.example");
    assert_eq!(builder.base_url.as_deref(), Some("https://api.example/"));
    let builder = ClientBuilder::new().base_url("https://api.example/");
    assert_eq!(builder.base_url.as_deref(), Some("https://api.example/"));
    let builder = ClientBuilder::new().base_url("https://api.example/v1");
    assert_eq!(builder.base_url.as_deref(), Some("https://api.example/v1/"));
    let builder = ClientBuilder::new().base_url("");
    assert_eq!(builder.base_url.as_deref(), Some("/"));
}

#[test]
fn each_setter_changes_its_own_setting() {
    let builder = ClientBuilder::new();
    assert_eq!(builder, ClientBuilder::default());
    assert_eq!(builder, Client::builder());
    assert_eq!(builder.base_url, None);
    let builder = builder.api_key("k").user_agent("agent/1").bearer_token("t");
    assert_eq!(builder.api_key.as_deref(), Some("k"));
    assert_eq!(builder.bearer_token.as_deref(), Some("t"));
    assert_eq!(builder.user_agent.as_deref(), Some("agent/1"));
    assert_eq!(builder.base_url, None);
    let builder = builder.api_key("k2");
    assert_eq!(builder.api_key.as_deref(), Some("k2"));
    assert_eq!(builder.bearer_token.as_deref(), Some("t"));
}

#[test]
fn incomplete_settings_are_reported() {
    assert_eq!(ClientBuilder::new().validate(), Err(ConfigError::MissingBaseUrl));
    assert_eq!(ClientBuilder::new().api_key("k").validate(), Err(ConfigError::MissingBaseUrl));
    assert_eq!(
        ClientBuilder::new().base_url("https://a").validate(),
        Err(ConfigError::MissingCredential)
    );
    assert_eq!(
        ClientBuilder::new().base_url("https://a").api_key("k").bearer_token("t").validate(),
        Err(ConfigError::ConflictingCredentials)
    );
    assert_eq!(ClientBuilder::new().base_url("https://a").api_key("k").validate(), Ok(()));
    assert_eq!(ClientBuilder::new().base_url("https://a").bearer_token("t").validate(), Ok(()));
}

#[test]
fn a_client_holds_the_normalized_base_url() {
    let client = Client::builder().base_url("HTTPS://API.Example:443/v1").api_key("k").build().unwrap();
    assert_eq!(client.base_url(), "https://api.example/v1/");
}

#[test]
fn a_base_url_that_is_no_url_fails_the_build() {
    let built = Client::builder().base_url("not a url").api_key("k").build();
    assert_eq!(built, Err(InvalidUrl));
    let built = Client::builder().base_url("").bearer_token("t").build();
    assert_eq!(built, Err(InvalidUrl));
}

#[test]
fn the_user_agent_defaults_to_the_library() {
    assert_eq!(client_with_key().user_agent(), "ccobalt/0.0.1 (+client)");
    let client =
        Client::builder().base_url("https://a").user_agent("mine/2").api_key("k").build().unwrap();
    assert_eq!(client.user_agent(), "mine/2");
}

#[test]
fn the_credential_decides_the_authorization() {
    assert_eq!(client_with_key().authorization(), "Api-Key secret");
    let client = Client::builder().base_url("https://a").bearer_token("tok").build().unwrap();
    assert_eq!(client.authorization(), "Bearer tok");
}

#[test]
fn a_copy_of_a_client_equals_it() {
    let client = client_with_key();
    let copy = client.clone();
    assert_eq!(copy, client);
    assert_eq!(copy.authorization(), "Api-Key secret");
}

#[test]
fn the_info_request_is_a_get_without_credential() {
    let request = client_with_key().info_request();
    assert_eq!(request.method, Method::Get);
    assert_eq!(request.url, "https://api.example/");
    assert_eq!(request.headers, vec![header("accept", "application/json")]);
    assert_eq!(request.body, None);
}

#[test]
fn the_download_request_posts_the_json_with_the_credential() {
    let request = client_with_key().download_request(&DownloadRequest { url: "https://e/v".to_string(), ..DownloadRequest::default() });
    assert_eq!(request.method, Method::Post);
    assert_eq!(request.url, "https://api.example/");
    assert_eq!(
        request.headers,
        vec![
            header("accept", "application/json"),
            header("content-type", "application/json"),
            header("authorization", "Api-Key secret"),
        ]
    );
    assert_eq!(request.body.as_deref(), Some(r#"{"url":"https://e/v"}"#));
}

#[test]
fn each_operation_opens_its_own_session() {
    let client = client_with_key();
    let request = DownloadRequest { url: "https://e/v".to_string(), ..DownloadRequest::default() };
    let info = client.get_info();
    assert_eq!(info.session, Session { goal: Goal::Info, stage: Stage::Sending });
    assert_eq!(info.request, client.info_request());
    let resolve = client.resolve_download(&request);
    assert_eq!(resolve.session, Session { goal: Goal::Resolve, stage: Stage::Sending });
    assert_eq!(resolve.request, client.download_request(&request));
    let download = client.download(&request);
    assert_eq!(download.session, Session { goal: Goal::Download, stage: Stage::Sending });
    assert_eq!(download.request, client.download_request(&request));
    let save = client.download_and_save(&request, "clip", "/tmp/out");
    assert_eq!(
        save.session,
        Session {
            goal: Goal::Save { base_name: "clip".to_string(), directory: "/tmp/out".to_string() },
            stage: Stage::Sending,
        }
    );
    assert_eq!(save.request, client.download_request(&request));
}

#[test]
fn an_address_is_normalized_or_refused() {
    assert_eq!(normalize("https://x/y.mp4"), Ok("https://x/y.mp4".to_string()));
    assert_eq!(normalize("HTTP://Example.COM"), Ok("http://example.com/".to_string()));
    assert_eq!(normalize("https://x/a b"), Ok("https://x/a%20b".to_string()));
    assert_eq!(normalize(""), Err(InvalidUrl));
    assert_eq!(normalize("/relative/path"), Err(InvalidUrl));
    assert_eq!(normalize("https://"), Err(InvalidUrl));
}

#[test]
fn strings_compare_by_their_characters() {
    assert!(str_eq("", ""));
    assert!(str_eq("tunnel", "tunnel"));
    assert!(!str_eq("tunnel", "Tunnel"));
    assert!(!str_eq("tunnel", "tunnels"));
    assert!(!str_eq("a", ""));
    assert!(str_eq("h\u{e9}llo \u{1F600}", "h\u{e9}llo \u{1F600}"));
    assert!(!str_eq("h\u{e9}llo", "he\u{301}llo"));
}

#[test]
fn the_last_character_is_found() {
    assert!(str_ends_with("https://a/", '/'));
    assert!(!str_ends_with("https://a", '/'));
    assert!(!str_ends_with("", '/'));
    assert!(str_ends_with("/", '/'));
    assert!(str_ends_with("caf\u{e9}", '\u{e9}'));
    assert!(!str_ends_with("a/\u{e9}", '/'));
}
