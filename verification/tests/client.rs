use rpc_lib::auth::basic_auth_value;
use rpc_lib::client::Client;
use rpc_lib::headers::Headers;
use rpc_lib::text::decimal_text;

fn header(client: &Client<'_>, name: &str) -> Option<String> {
    client.headers().get(name).cloned()
}

#[test]
fn new_client_has_the_default_headers() {
    let client = Client::new("http://localhost:4000/rpc");
    assert_eq!(client.url(), "http://localhost:4000/rpc");
    assert_eq!(header(&client, "User-Agent"), Some("rpc-lib/2.1.0".to_string()));
    assert_eq!(header(&client, "Accept"), Some("application/json".to_string()));
    assert_eq!(header(&client, "Content-Type"), Some("application/json".to_string()));
    assert_eq!(header(&client, "Authorization"), None);
    assert_eq!(client.headers().entries().len(), 3);
}

#[test]
fn with_user_agent_replaces_the_user_agent() {
    let client = Client::new("http://localhost:4000/rpc").with_user_agent("rpc-cli/1.0.0");
    assert_eq!(header(&client, "User-Agent"), Some("rpc-cli/1.0.0".to_string()));
    assert_eq!(header(&client, "Accept"), Some("application/json".to_string()));
    assert_eq!(header(&client, "Content-Type"), Some("application/json".to_string()));
    assert_eq!(client.headers().entries().len(), 3);
    assert_eq!(client.url(), "http://localhost:4000/rpc");
}

#[test]
fn with_user_agent_twice_keeps_the_last() {
    let client = Client::new("u").with_user_agent("first").with_user_agent("second");
    assert_eq!(header(&client, "User-Agent"), Some("second".to_string()));
    assert_eq!(client.headers().entries().len(), 3);
}

#[test]
fn with_basic_auth_sets_the_authorization_header() {
    let client = Client::new("u").with_basic_auth("Aladdin", Some("open sesame"));
    assert_eq!(
        header(&client, "Authorization"),
        Some("Basic QWxhZGRpbjpvcGVuIHNlc2FtZQ==".to_string())
    );
    assert_eq!(client.headers().entries().len(), 4);
    assert_eq!(header(&client, "User-Agent"), Some("rpc-lib/2.1.0".to_string()));
}

#[test]
fn with_basic_auth_without_password_encodes_an_empty_one() {
    let client = Client::new("u").with_basic_auth("user", None);
    assert_eq!(header(&client, "Authorization"), Some("Basic dXNlcjo=".to_string()));
    let with_empty = Client::new("u").with_basic_auth("user", Some(""));
    assert_eq!(header(&with_empty, "Authorization"), Some("Basic dXNlcjo=".to_string()));
}

#[test]
fn with_basic_auth_twice_keeps_the_last() {
    let client = Client::new("u")
        .with_basic_auth("first", Some("secret"))
        .with_basic_auth("user", Some("pass"));
    assert_eq!(header(&client, "Authorization"), Some("Basic dXNlcjpwYXNz".to_string()));
    assert_eq!(client.headers().entries().len(), 4);
}

#[test]
fn builders_do_not_disturb_each_other() {
    let one = Client::new("u").with_basic_auth("user", Some("pass")).with_user_agent("agent");
    let other = Client::new("u").with_user_agent("agent").with_basic_auth("user", Some("pass"));
    for client in [&one, &other] {
        assert_eq!(header(client, "User-Agent"), Some("agent".to_string()));
        assert_eq!(header(client, "Authorization"), Some("Basic dXNlcjpwYXNz".to_string()));
        assert_eq!(header(client, "Accept"), Some("application/json".to_string()));
        assert_eq!(header(client, "Content-Type"), Some("application/json".to_string()));
    }
}

#[test]
fn basic_auth_value_encodes_utf8() {
    assert_eq!(basic_auth_value("", None), "Basic Og==");
    assert_eq!(basic_auth_value("a", Some("b")), "Basic YTpi");
    assert_eq!(basic_auth_value("us:er", Some("p:w")), "Basic dXM6ZXI6cDp3");
    assert_eq!(basic_auth_value("j\u{fc}rgen", Some("pa\u{df}")), "Basic asO8cmdlbjpwYcOf");
}

#[test]
fn headers_start_empty() {
    let headers = Headers::new();
    assert_eq!(headers.entries().len(), 0);
    assert_eq!(headers.get("Accept"), None);
}

#[test]
fn headers_with_adds_and_replaces() {
    let headers = Headers::new().with("A", "1").with("B", "2").with("A", "3");
    assert_eq!(headers.get("A"), Some(&"3".to_string()));
    assert_eq!(headers.get("B"), Some(&"2".to_string()));
    assert_eq!(headers.get("C"), None);
    assert_eq!(
        headers.entries(),
        &vec![("A".to_string(), "3".to_string()), ("B".to_string(), "2".to_string())]
    );
}

#[test]
fn headers_names_are_taken_as_written() {
    let headers = Headers::new().with("accept", "x").with("Accept", "y");
    assert_eq!(headers.get("accept"), Some(&"x".to_string()));
    assert_eq!(headers.get("Accept"), Some(&"y".to_string()));
    assert_eq!(headers.entries().len(), 2);
}

#[test]
fn decimal_text_writes_numerals() {
    assert_eq!(decimal_text(0), "0");
    assert_eq!(decimal_text(9), "9");
    assert_eq!(decimal_text(10), "10");
    assert_eq!(decimal_text(200), "200");
    assert_eq!(decimal_text(1234), "1234");
    assert_eq!(decimal_text(65535), "65535");
}
