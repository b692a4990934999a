use std::sync::Arc;

use datafusion::execution::config::SessionConfig;
use datafusion::prelude::SessionContext as DFSessionContext;
use iceberg_datafusion::options::{
    build_session_context, resolve_session_context, IcebergOptions, SensitiveString, Session,
    SessionContext,
};
use iceberg_datafusion::options_text::frame_options;
use iceberg_datafusion::string_map::StringMap;

fn session_of(context: &DFSessionContext) -> Session {
    let state = context.state();
    Session {
        session_id: context.session_id(),
        options: state.config().get_extension::<IcebergOptions>(),
    }
}

fn properties(entries: &[(&str, &str)]) -> StringMap<String> {
    let mut map = StringMap::new();
    for (key, value) in entries {
        map.insert(key.to_string(), value.to_string());
    }
    map
}

fn credentials(entries: &[(&str, &str)]) -> StringMap<SensitiveString> {
    let mut map = StringMap::new();
    for (key, value) in entries {
        map.insert(key.to_string(), SensitiveString::from(value.to_string()));
    }
    map
}

#[test]
fn test_resolve_session_context_distinguishes_missing_and_default_options() {
    let session_without_options = DFSessionContext::new();
    assert!(resolve_session_context(&session_of(&session_without_options)).is_none());

    let config = SessionConfig::new().with_extension(Arc::new(IcebergOptions::default()));
    let session_with_default_options = DFSessionContext::new_with_config(config);
    let context = resolve_session_context(&session_of(&session_with_default_options)).unwrap();

    assert_eq!(
        context.session_id(),
        session_with_default_options.session_id()
    );
    assert!(context.identity().is_none());
    assert!(context.properties().is_empty());
    assert!(context.credentials().is_empty());
}

#[test]
fn test_to_session_context_generates_unique_ids() {
    let options = IcebergOptions {
        identity: Some("query-user".to_string()),
        properties: properties(&[("prop", "value")]),
        credentials: credentials(&[("token", "secret")]),
    };

    let first = options.to_session_context();
    let second = options.to_session_context();

    assert_ne!(first.session_id(), second.session_id());
    assert_eq!(first.identity(), Some("query-user"));
    assert_eq!(first.properties(), &options.properties);
    assert!(first.credentials() == &options.credentials);
}

#[test]
fn test_debug_redacts_credentials() {
    let secret = "credential-that-must-not-be-logged";
    let options = IcebergOptions {
        credentials: credentials(&[("token", secret)]),
        ..Default::default()
    };

    let debug_output = options.debug_string();
    assert!(!debug_output.contains(secret));
    assert!(debug_output.contains("[REDACTED]"));
}

#[test]
fn debug_text_shows_all_but_secrets() {
    let options = IcebergOptions {
        identity: Some("a \"quoted\" user".to_string()),
        properties: properties(&[("b", "2"), ("a", "1")]),
        credentials: credentials(&[("token", "secret"), ("key", "other")]),
    };
    assert_eq!(
        options.debug_string(),
        "IcebergOptions { identity: Some(\"a \\\"quoted\\\" user\"), \
         properties: {\"a\": \"1\", \"b\": \"2\"}, \
         credentials: {\"key\": [REDACTED], \"token\": [REDACTED]} }"
    );
    assert_eq!(
        IcebergOptions::default().debug_string(),
        "IcebergOptions { identity: None, properties: {}, credentials: {} }"
    );
}

#[test]
fn debug_text_is_the_same_for_other_secrets() {
    let with = |secret: &str| IcebergOptions {
        identity: None,
        properties: properties(&[("region", "us-east")]),
        credentials: credentials(&[("token", secret)]),
    };
    assert_eq!(with("one").debug_string(), with("another").debug_string());
    assert_eq!(
        SensitiveString::from("one".to_string()).debug_string(),
        "[REDACTED]"
    );
}

#[test]
fn options_are_framed_in_order() {
    assert_eq!(
        frame_options(
            "None",
            &vec!["x".to_string(), "y".to_string()],
            &vec!["z".to_string()]
        ),
        "IcebergOptions { identity: None, properties: {x, y}, credentials: {z} }"
    );
}

#[test]
fn fresh_session_ids_are_random_uuids() {
    let context = SessionContext::empty();
    let id: Vec<char> = context.session_id().chars().collect();
    assert_eq!(id.len(), 36);
    for (i, c) in id.iter().enumerate() {
        if i == 8 || i == 13 || i == 18 || i == 23 {
            assert_eq!(*c, '-');
        } else {
            assert!(c.is_ascii_digit() || ('a'..='f').contains(c));
        }
    }
    assert_eq!(id[14], '4');
    assert!("89ab".contains(id[19]));
    assert!(context.identity().is_none());
    assert!(context.properties().is_empty());
    assert!(context.credentials().is_empty());
    assert_ne!(context.session_id(), SessionContext::empty().session_id());
}

#[test]
fn a_given_session_id_is_kept() {
    let options = IcebergOptions {
        identity: Some("alice".to_string()),
        properties: properties(&[("org", "123")]),
        credentials: credentials(&[("jwt", "secret")]),
    };
    let context = build_session_context(&options, Some("session-7".to_string()));
    assert_eq!(context.session_id(), "session-7");
    assert_eq!(context.identity(), Some("alice"));
    assert_eq!(
        context.properties().get("org").map(|value| value.as_str()),
        Some("123")
    );
    assert_eq!(
        context.credentials().get("jwt").map(|value| value.expose()),
        Some("secret")
    );
    assert!(context.credentials().get("other").is_none());

    let anonymous = build_session_context(&IcebergOptions::default(), Some("s".to_string()));
    assert_eq!(anonymous.session_id(), "s");
    assert!(anonymous.identity().is_none());
}

#[test]
fn options_of_a_session_reach_its_context() {
    let options = Arc::new(IcebergOptions {
        identity: Some("bob".to_string()),
        properties: properties(&[("p", "v")]),
        credentials: credentials(&[("c", "s")]),
    });
    let config = SessionConfig::new().with_extension(Arc::clone(&options));
    let session = DFSessionContext::new_with_config(config);
    let context = resolve_session_context(&session_of(&session)).unwrap();
    assert_eq!(context.session_id(), session.session_id());
    assert_eq!(context.identity(), Some("bob"));
    assert_eq!(context.properties(), &options.properties);
    assert!(context.credentials() == &options.credentials);

    let copy = options.as_ref().clone();
    assert_eq!(copy.identity, options.identity);
    assert_eq!(copy.properties, options.properties);
    assert!(copy.credentials == options.credentials);
}
