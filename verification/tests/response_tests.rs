use house_display::response::resolve_resource_uri;
use house_display::response::strip_quotes;
use house_display::AgentError;

#[test]
fn resolves_resource_uri() {
    let body = r#"{"ResultSet":{"ResourceURI":"https://roote.ekispert.net/ja/result?x=1"}}"#;
    assert_eq!(
        Ok("https://roote.ekispert.net/ja/result?x=1".to_string()),
        resolve_resource_uri(body)
    );
}

#[test]
fn missing_field_is_malformed_response() {
    assert_eq!(
        Err(AgentError::MalformedResponse),
        resolve_resource_uri(r#"{"ResultSet":{}}"#)
    );
    assert_eq!(Err(AgentError::MalformedResponse), resolve_resource_uri(r#"{}"#));
}

#[test]
fn non_string_field_is_malformed_response() {
    assert_eq!(
        Err(AgentError::MalformedResponse),
        resolve_resource_uri(r#"{"ResultSet":{"ResourceURI":7}}"#)
    );
}

#[test]
fn unparseable_body_is_malformed_response() {
    assert_eq!(Err(AgentError::MalformedResponse), resolve_resource_uri("<html></html>"));
    assert_eq!(Err(AgentError::MalformedResponse), resolve_resource_uri(""));
}

#[test]
fn quote_characters_are_stripped() {
    assert_eq!("ab", strip_quotes(r#"a"b""#));
    assert_eq!("plain", strip_quotes("plain"));
    assert_eq!("", strip_quotes(r#""""#));
    let body = "{\"ResultSet\":{\"ResourceURI\":\"with\\\"quote\"}}";
    assert_eq!(Ok("withquote".to_string()), resolve_resource_uri(body));
}
