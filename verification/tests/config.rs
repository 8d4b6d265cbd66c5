use libeh::client::auth::EhClientAuth;
use libeh::client::client::{failure, settle};
use libeh::client::config::{cookies_of, CookieSeed, EhClientConfig};
use libeh::client::proxy::EhClientProxy;
use libeh::dto::site::Site;

const AGENT: &str = "Mozilla/5.0 (Windows NT 10.0; Win64; x64) AppleWebKit/537.36 (KHTML, like Gecko) Chrome/121.0.0.0 Safari/537.36 Edg/121.0.0.0";

#[test]
fn settings_without_auth_have_no_cookie_store() {
    let config = EhClientConfig { site: Site::Eh, proxy: None, auth: None };
    let settings = config.transport_settings();
    assert_eq!(settings.cookies, None);
    assert_eq!(settings.proxy, None);
    assert_eq!(settings.redirect_limit, 20);
    assert_eq!(settings.user_agent, AGENT);
}

#[test]
fn settings_with_auth_seed_exactly_its_pairs() {
    let auth = EhClientAuth::new("123456", "hash", Some("abcdef"));
    let config = EhClientConfig { site: Site::Ex, proxy: None, auth: Some(auth.clone()) };
    let settings = config.transport_settings();
    let seed = settings.cookies.unwrap();
    assert_eq!(seed.origin, "https://exhentai.org");
    assert_eq!(
        seed.cookies,
        vec![
            "ipb_member_id=123456".to_string(),
            "ipb_pass_hash=hash".to_string(),
            "igneous=abcdef".to_string(),
        ]
    );
    let pairs = auth.to_vec();
    assert_eq!(seed.cookies.len(), pairs.len());
    for (line, (name, value)) in seed.cookies.iter().zip(pairs.iter()) {
        assert_eq!(line, &format!("{}={}", name, value));
    }
}

#[test]
fn settings_scope_cookies_to_the_configured_site() {
    let auth = EhClientAuth::new("1", "h", None);
    let config = EhClientConfig { site: Site::Eh, proxy: None, auth: Some(auth) };
    assert_eq!(
        config.transport_settings().cookies,
        Some(CookieSeed {
            origin: "https://e-hentai.org".to_string(),
            cookies: vec!["ipb_member_id=1".to_string(), "ipb_pass_hash=h".to_string()],
        })
    );
}

#[test]
fn settings_hold_the_configured_proxy() {
    let proxy = EhClientProxy::new("http", "127.0.0.1", 7897);
    let config = EhClientConfig { site: Site::Eh, proxy: Some(proxy), auth: None };
    assert_eq!(config.transport_settings().proxy, Some("http://127.0.0.1:7897".to_string()));
}

#[test]
fn settings_never_pass_over_a_configured_proxy() {
    let proxy = EhClientProxy::new("ftp", "127.0.0.1", 7897);
    let config = EhClientConfig { site: Site::Eh, proxy: Some(proxy), auth: None };
    assert_eq!(config.transport_settings().proxy, Some("ftp://127.0.0.1:7897".to_string()));
    let odd = EhClientProxy::new("", "", -1);
    let config = EhClientConfig { site: Site::Ex, proxy: Some(odd.clone()), auth: None };
    assert_eq!(config.transport_settings().proxy, Some(odd.to_string()));
    assert_eq!(config.transport_settings().proxy, Some("://:-1".to_string()));
}

#[test]
fn settings_keep_proxy_and_cookies_apart() {
    let proxy = EhClientProxy::new("http", "10.0.0.1", 3128);
    let auth = EhClientAuth::new("1", "h", None);
    let config = EhClientConfig { site: Site::Eh, proxy: Some(proxy), auth: Some(auth) };
    let settings = config.transport_settings();
    assert_eq!(settings.proxy, Some("http://10.0.0.1:3128".to_string()));
    assert_eq!(settings.cookies.unwrap().cookies.len(), 2);
}

#[test]
fn cookies_of_writes_name_and_value() {
    let pairs = vec![("a".to_string(), "1".to_string()), ("b".to_string(), String::new())];
    assert_eq!(cookies_of(&pairs), vec!["a=1".to_string(), "b=".to_string()]);
    assert_eq!(cookies_of(&Vec::new()), Vec::<String>::new());
}

#[test]
fn failures_carry_the_description() {
    assert_eq!(failure("connection refused"), "Error: connection refused");
    assert_eq!(failure(""), "Error: ");
    let failed: Result<String, String> = Err("timed out".to_string());
    assert_eq!(settle(failed), Err("Error: timed out".to_string()));
    let twice: Result<u8, String> = settle(settle(Err("x".to_string())));
    assert_eq!(twice, Err("Error: Error: x".to_string()));
}

#[test]
fn what_arrived_is_handed_on() {
    let body: Result<Vec<u8>, String> = Ok(vec![1, 2, 3]);
    assert_eq!(settle(body), Ok(vec![1, 2, 3]));
    let text: Result<String, String> = Ok("<html>".to_string());
    assert_eq!(settle(text), Ok("<html>".to_string()));
}
