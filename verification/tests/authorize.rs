use oauth_session::authorize::{authorization_url, start_login, ProviderConfig, STATE_LENGTH};
use oauth_session::error::AuthError;
use oauth_session::registry::StateRegistry;

fn config() -> ProviderConfig {
    ProviderConfig {
        client_id: "my-client".to_string(),
        client_secret: "my-secret".to_string(),
        redirect_uri: "http://localhost:3000/auth/callback".to_string(),
        scope: "streaming user-read-email user-read-private".to_string(),
    }
}

#[test]
fn authorization_url_with_exact_text() {
    let url = authorization_url(&config(), "AbCdEfGh12345678").unwrap();
    assert_eq!(
        url,
        "https://accounts.spotify.com/authorize/?client_id=my-client\
         &redirect_uri=http%3A%2F%2Flocalhost%3A3000%2Fauth%2Fcallback\
         &response_type=code\
         &scope=streaming+user-read-email+user-read-private\
         &state=AbCdEfGh12345678"
    );
}

#[test]
fn authorization_url_encodes_what_is_configured() {
    let odd = ProviderConfig {
        client_id: "a&b=c".to_string(),
        client_secret: String::new(),
        redirect_uri: "https://example.org/cb?x=1#frag".to_string(),
        scope: "é".to_string(),
    };
    let url = authorization_url(&odd, "s t").unwrap();
    assert_eq!(
        url,
        "https://accounts.spotify.com/authorize/?client_id=a%26b%3Dc\
         &redirect_uri=https%3A%2F%2Fexample.org%2Fcb%3Fx%3D1%23frag\
         &response_type=code\
         &scope=%C3%A9\
         &state=s+t"
    );
}

#[test]
fn authorization_url_does_not_carry_the_secret() {
    let url = authorization_url(&config(), "state").unwrap();
    assert!(!url.contains("my-secret"));
}

#[test]
fn url_that_is_too_long_is_a_configuration_failure() {
    let mut huge = config();
    huge.client_id = "x".repeat(70_000);
    assert_eq!(authorization_url(&huge, "state"), Err(AuthError::ConfigurationFailure));
}

#[test]
fn start_login_registers_the_state_it_sends() {
    let mut registry = StateRegistry::new();
    let target = start_login(&mut registry, &config()).unwrap();
    assert_eq!(target.state.chars().count(), 16);
    assert_eq!(STATE_LENGTH, 16);
    assert!(target.state.chars().all(|c| c.is_ascii_alphanumeric()));
    let query = target.url.split_once('?').unwrap().1;
    let sent: Vec<&str> = query
        .split('&')
        .filter_map(|pair| pair.split_once('='))
        .filter(|(key, _)| *key == "state")
        .map(|(_, value)| value)
        .collect();
    assert_eq!(sent, vec![target.state.as_str()]);
    assert!(registry.contains(&target.state));
    assert_eq!(registry.len(), 1);
    assert_eq!(target.url, authorization_url(&config(), &target.state).unwrap());
}

#[test]
fn start_login_redirects_to_the_provider() {
    let mut registry = StateRegistry::new();
    let target = start_login(&mut registry, &config()).unwrap();
    assert!(target.url.starts_with("https://accounts.spotify.com/authorize/?"));
    assert!(target.url.contains("response_type=code"));
    assert!(target.url.contains("client_id=my-client"));
}

#[test]
fn each_login_gets_its_own_state() {
    let mut registry = StateRegistry::new();
    let first = start_login(&mut registry, &config()).unwrap();
    let second = start_login(&mut registry, &config()).unwrap();
    assert_ne!(first.state, second.state);
    assert_eq!(registry.len(), 2);
    assert!(registry.contains(&first.state));
    assert!(registry.contains(&second.state));
}

#[test]
fn failed_start_leaves_the_registry_alone() {
    let mut registry = StateRegistry::new();
    registry.register("earlier".to_string());
    let mut huge = config();
    huge.scope = "s".repeat(70_000);
    assert_eq!(start_login(&mut registry, &huge), Err(AuthError::ConfigurationFailure));
    assert_eq!(registry.len(), 1);
    assert!(registry.contains("earlier"));
}
