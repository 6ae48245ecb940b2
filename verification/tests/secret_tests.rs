use house_display::secret::parse_secret;
use house_display::secret::resolve_secret;
use house_display::AgentError;
use house_display::ApiAgent;

#[test]
fn secret_parsing_trims_whitespace() {
    assert_eq!(Ok("abc123".to_string()), resolve_secret(Some("  abc123\n")));
    let parsed = parse_secret("  abc123\n").unwrap();
    assert_eq!("abc123", parsed);
    assert!(!parsed.ends_with('\n'));
}

#[test]
fn secret_takes_first_token_only() {
    assert_eq!(Some("key1".to_string()), parse_secret("key1 key2\nkey3"));
}

#[test]
fn unreadable_secret_is_credential_missing() {
    assert_eq!(Err(AgentError::CredentialMissing), resolve_secret(None));
}

#[test]
fn empty_secret_is_credential_missing() {
    assert_eq!(Err(AgentError::CredentialMissing), resolve_secret(Some("")));
    assert_eq!(Err(AgentError::CredentialMissing), resolve_secret(Some(" \t\n")));
}

#[test]
fn access_key_is_resolved_once() {
    let mut agent = ApiAgent::new();
    assert_eq!(None, agent.access_key);
    assert_eq!(Ok(()), agent.set_access_key(Some("first\n")));
    assert_eq!(Some("first".to_string()), agent.access_key);
    // A key already held is kept; later content is ignored.
    assert_eq!(Ok(()), agent.set_access_key(Some("second\n")));
    assert_eq!(Some("first".to_string()), agent.access_key);
}

#[test]
fn missing_file_leaves_no_key() {
    let mut agent = ApiAgent::new();
    assert_eq!(Err(AgentError::CredentialMissing), agent.set_access_key(None));
    assert_eq!(None, agent.access_key);
    assert_eq!(Err(AgentError::CredentialMissing), agent.api_search_url().map(|_| ()));
}
