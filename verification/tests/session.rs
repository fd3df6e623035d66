use schema_validator::violations::conclude;
use schema_validator::{ValidationStep, WasmSchemaValidator};
use serde_json::Value;

fn document(text: &str) -> Value {
    serde_json::from_str(text).expect("test document")
}

/// Runs the engine on a compile step, as an embedding does, without any
/// reference resolution.
fn evaluate(schema: &Value, content: &Value) -> Result<(), String> {
    let validator = match jsonschema::validator_for(schema) {
        Ok(validator) => validator,
        Err(error) => return Err(WasmSchemaValidator::compilation_failed(&error.to_string())),
    };
    let evaluation = validator.evaluate(content);
    let violations: Vec<(String, String)> = evaluation
        .iter_errors()
        .map(|entry| (entry.instance_location.to_string(), entry.error.to_string()))
        .collect();
    conclude(evaluation.flag().valid, &violations)
}

/// A whole validation in which every fetch fails with `transport`.
fn validate_offline(
    session: &mut WasmSchemaValidator,
    schema: &str,
    content: &str,
    transport: &str,
) -> Result<(), String> {
    let first = session.validate(schema, content);
    let step = match first {
        ValidationStep::Fetch(uri) => session.schema_fetched(uri, Err(transport.to_string()), content),
        other => other,
    };
    match step {
        ValidationStep::Compile { schema, content } => evaluate(&schema, &content),
        ValidationStep::Failed(message) => Err(message),
        ValidationStep::Fetch(uri) => panic!("a second fetch was asked for: {}", uri),
    }
}

#[test]
fn it_works() {
    let schema = "{\"type\":\"string\"}";
    let content = "\"Hello world\"";
    let mut schema_validator = WasmSchemaValidator::new();
    let result = validate_offline(&mut schema_validator, schema, content, "offline");
    assert!(result.is_ok());
    assert_eq!(result.unwrap(), ());
}

#[test]
fn it_fails() {
    let schema = "{\"properties\":{\"initials\":{\"type\":\"string\"},\"name\":{\"type\":\"string\"}},\"required\":[\"initials\",\"name\"],\"type\":\"object\"}";
    let content = "{\"name\":123}";
    let mut schema_validator = WasmSchemaValidator::new();
    let result = validate_offline(&mut schema_validator, schema, content, "offline");
    assert!(result.is_err());
    println!("{}", result.unwrap_err());
}

#[test]
fn a_wrong_type_and_a_missing_property_are_reported_at_their_locations() {
    let schema = "{\"type\":\"object\",\"properties\":{\"name\":{\"type\":\"string\"}},\"required\":[\"name\",\"initials\"]}";
    let content = "{\"name\":123}";
    let mut session = WasmSchemaValidator::new();
    let payload = validate_offline(&mut session, schema, content, "offline").unwrap_err();
    let report = document(&payload);
    let members = report.as_object().expect("the payload is an object");
    assert!(members.len() >= 2);
    assert_eq!(
        members["/name"],
        Value::String("123 is not of type \"string\"".to_string())
    );
    assert_eq!(
        members[""],
        Value::String("\"initials\" is a required property".to_string())
    );
}

#[test]
fn a_new_session_resolves_nothing() {
    let session = WasmSchemaValidator::new();
    assert_eq!(session.schema_store().get(&"id://x".to_string()), None);
    match session.validate("id://x", "1") {
        ValidationStep::Failed(message) => assert_eq!(
            message,
            "schema not found: unresolvable identifier: 'id://x'. Only previously-registered identifiers or http(s) references can be resolved."
        ),
        other => panic!("expected a failure, got {:?}", other),
    }
}

#[test]
fn add_schema_registers_under_local_and_remote_identifiers() {
    let mut session = WasmSchemaValidator::new();
    assert_eq!(session.add_schema("id://a".to_string(), "{\"type\":\"string\"}"), Ok(()));
    assert_eq!(
        session.add_schema("http://example.com/b".to_string(), "{\"type\":\"number\"}"),
        Ok(())
    );
    assert_eq!(
        session.add_schema("https://example.com/c".to_string(), "true"),
        Ok(())
    );
    let store = session.schema_store();
    assert_eq!(store.get(&"id://a".to_string()), Some(document("{\"type\":\"string\"}")));
    assert_eq!(
        store.get(&"http://example.com/b".to_string()),
        Some(document("{\"type\":\"number\"}"))
    );
    assert_eq!(store.get(&"https://example.com/c".to_string()), Some(Value::Bool(true)));
}

#[test]
fn add_schema_refuses_a_bad_identifier_and_leaves_the_store_unchanged() {
    let mut session = WasmSchemaValidator::new();
    assert_eq!(
        session.add_schema("bad-id".to_string(), "{}"),
        Err("Schema ID is invalid. It should start with http(s):// or id://.".to_string())
    );
    assert_eq!(session.schema_store().get(&"bad-id".to_string()), None);
    match session.schema_store().retrieve("bad-id".to_string()) {
        schema_validator::schema_store::Retrieval::Failed(error) => assert_eq!(
            error.message(),
            "unresolvable identifier: 'bad-id'. Only previously-registered identifiers or http(s) references can be resolved."
        ),
        other => panic!("expected a refusal, got {:?}", other),
    }
}

#[test]
fn add_schema_refuses_inline_json_as_identifier() {
    let mut session = WasmSchemaValidator::new();
    assert_eq!(
        session.add_schema("{\"type\":\"string\"}".to_string(), "{}"),
        Err("Schema ID is invalid. It should start with http(s):// or id://.".to_string())
    );
    assert_eq!(
        session.add_schema("".to_string(), "{}"),
        Err("Schema ID is invalid. It should start with http(s):// or id://.".to_string())
    );
}

#[test]
fn add_schema_checks_the_identifier_before_the_text() {
    let mut session = WasmSchemaValidator::new();
    assert_eq!(
        session.add_schema("bad-id".to_string(), "not json"),
        Err("Schema ID is invalid. It should start with http(s):// or id://.".to_string())
    );
}

#[test]
fn add_schema_refuses_a_text_that_is_not_json() {
    let mut session = WasmSchemaValidator::new();
    assert_eq!(session.add_schema("id://a".to_string(), "{\"type\":\"string\"}"), Ok(()));
    assert_eq!(
        session.add_schema("id://a".to_string(), "{\"type\":"),
        Err("Invalid schema. EOF while parsing a value at line 1 column 8".to_string())
    );
    assert_eq!(
        session.schema_store().get(&"id://a".to_string()),
        Some(document("{\"type\":\"string\"}"))
    );
}

#[test]
fn add_schema_twice_is_as_once() {
    let mut once = WasmSchemaValidator::new();
    let mut twice = WasmSchemaValidator::new();
    assert_eq!(once.add_schema("id://x".to_string(), "{\"type\":\"string\"}"), Ok(()));
    assert_eq!(twice.add_schema("id://x".to_string(), "{\"type\":\"string\"}"), Ok(()));
    assert_eq!(twice.add_schema("id://x".to_string(), "{\"type\":\"string\"}"), Ok(()));
    for uri in ["id://x", "id://y", "http://example.com/x"] {
        assert_eq!(
            once.schema_store().get(&uri.to_string()),
            twice.schema_store().get(&uri.to_string())
        );
    }
    for content in ["\"text\"", "1", "not json"] {
        assert_eq!(
            validate_offline(&mut once, "id://x", content, "offline"),
            validate_offline(&mut twice, "id://x", content, "offline")
        );
    }
}

#[test]
fn add_schema_overwrites_an_earlier_registration() {
    let mut session = WasmSchemaValidator::new();
    assert_eq!(session.add_schema("id://x".to_string(), "{\"type\":\"string\"}"), Ok(()));
    assert_eq!(validate_offline(&mut session, "id://x", "1", "offline").is_err(), true);
    assert_eq!(session.add_schema("id://x".to_string(), "{\"type\":\"number\"}"), Ok(()));
    assert_eq!(validate_offline(&mut session, "id://x", "1", "offline"), Ok(()));
}

#[test]
fn a_registered_schema_validates_as_the_inline_schema_does() {
    let schema = "{\"type\":\"object\",\"properties\":{\"name\":{\"type\":\"string\"}},\"required\":[\"name\",\"initials\"]}";
    let mut registered = WasmSchemaValidator::new();
    assert_eq!(registered.add_schema("id://x".to_string(), schema), Ok(()));
    let mut inline = WasmSchemaValidator::new();
    for content in [
        "{\"name\":123}",
        "{\"name\":\"a\",\"initials\":\"b\"}",
        "{\"name\":\"a\"}",
        "[]",
        "\"Hello world\"",
        "{\"name\":",
        "",
    ] {
        assert_eq!(
            validate_offline(&mut registered, "id://x", content, "offline"),
            validate_offline(&mut inline, schema, content, "offline"),
            "content: {:?}",
            content
        );
    }
}

#[test]
fn validate_parses_inline_json_directly() {
    let session = WasmSchemaValidator::new();
    match session.validate("{\"type\":\"string\"}", "\"Hello world\"") {
        ValidationStep::Compile { schema, content } => {
            assert_eq!(schema, document("{\"type\":\"string\"}"));
            assert_eq!(content, Value::String("Hello world".to_string()));
        }
        other => panic!("expected a compile step, got {:?}", other),
    }
}

#[test]
fn validate_fails_at_parse_time_for_a_brace_without_json() {
    let session = WasmSchemaValidator::new();
    match session.validate("{ not json", "1") {
        ValidationStep::Failed(message) => {
            assert_eq!(message, "Invalid schema. key must be a string at line 1 column 3")
        }
        other => panic!("expected a failure, got {:?}", other),
    }
}

#[test]
fn validate_refuses_what_is_neither_identifier_nor_inline_json() {
    let session = WasmSchemaValidator::new();
    for schema in ["bad-id", "", "[]", "true", " {}", "ftp://example.com/s", "\"{}\""] {
        match session.validate(schema, "not even looked at") {
            ValidationStep::Failed(message) => {
                assert_eq!(message, "Schema must be a valid identifier or JSON text")
            }
            other => panic!("expected a refusal, got {:?}", other),
        }
    }
}

#[test]
fn validate_reports_content_that_is_not_json() {
    let mut session = WasmSchemaValidator::new();
    assert_eq!(session.add_schema("id://x".to_string(), "{}"), Ok(()));
    for schema in ["{}", "id://x"] {
        match session.validate(schema, "{\"name\":") {
            ValidationStep::Failed(message) => assert_eq!(
                message,
                "invalid content: EOF while parsing a value at line 1 column 8"
            ),
            other => panic!("expected a failure, got {:?}", other),
        }
    }
}

#[test]
fn a_schema_failure_is_reported_before_a_content_failure() {
    let session = WasmSchemaValidator::new();
    match session.validate("id://missing", "not json") {
        ValidationStep::Failed(message) => assert!(message.starts_with("schema not found: ")),
        other => panic!("expected a failure, got {:?}", other),
    }
    match session.validate("{", "not json") {
        ValidationStep::Failed(message) => assert!(message.starts_with("Invalid schema. ")),
        other => panic!("expected a failure, got {:?}", other),
    }
}

#[test]
fn validate_asks_for_a_fetch_of_an_unknown_remote_schema() {
    let session = WasmSchemaValidator::new();
    match session.validate("https://example.com/schema.json", "not json") {
        ValidationStep::Fetch(uri) => assert_eq!(uri, "https://example.com/schema.json"),
        other => panic!("expected a fetch, got {:?}", other),
    }
}

#[test]
fn a_failed_fetch_is_a_resolution_error_that_names_the_identifier() {
    let mut session = WasmSchemaValidator::new();
    let uri = "http://unresolvable.invalid/schema.json";
    let first = session.validate(uri, "\"x\"");
    let asked = match first {
        ValidationStep::Fetch(asked) => asked,
        other => panic!("expected a fetch, got {:?}", other),
    };
    assert_eq!(asked, uri);
    match session.schema_fetched(asked, Err("dns error".to_string()), "\"x\"") {
        ValidationStep::Failed(message) => assert_eq!(
            message,
            "schema not found: failed to fetch 'http://unresolvable.invalid/schema.json': dns error"
        ),
        other => panic!("expected a failure and no compile step, got {:?}", other),
    }
    assert_eq!(session.schema_store().get(&uri.to_string()), None);
}

#[test]
fn a_fetched_body_that_is_not_json_is_a_parse_error() {
    let mut session = WasmSchemaValidator::new();
    let uri = "http://example.com/schema.json";
    match session.schema_fetched(uri.to_string(), Ok(b"<!doctype html>".to_vec()), "1") {
        ValidationStep::Failed(message) => assert_eq!(
            message,
            "schema not found: invalid JSON received from 'http://example.com/schema.json': expected value at line 1 column 1"
        ),
        other => panic!("expected a failure, got {:?}", other),
    }
    assert_eq!(session.schema_store().get(&uri.to_string()), None);
}

#[test]
fn a_fetched_schema_is_cached_and_not_fetched_again() {
    let mut session = WasmSchemaValidator::new();
    let uri = "http://example.com/schema.json";
    assert!(matches!(session.validate(uri, "1"), ValidationStep::Fetch(_)));
    match session.schema_fetched(uri.to_string(), Ok(b"{\"type\":\"number\"}".to_vec()), "1") {
        ValidationStep::Compile { schema, content } => {
            assert_eq!(schema, document("{\"type\":\"number\"}"));
            assert_eq!(content, document("1"));
        }
        other => panic!("expected a compile step, got {:?}", other),
    }
    match session.validate(uri, "2") {
        ValidationStep::Compile { schema, content } => {
            assert_eq!(schema, document("{\"type\":\"number\"}"));
            assert_eq!(content, document("2"));
        }
        other => panic!("expected a compile step without a fetch, got {:?}", other),
    }
}

#[test]
fn a_fetched_schema_is_cached_even_where_the_content_is_not_json() {
    let mut session = WasmSchemaValidator::new();
    let uri = "http://example.com/schema.json";
    match session.schema_fetched(uri.to_string(), Ok(b"{}".to_vec()), "not json") {
        ValidationStep::Failed(message) => {
            assert_eq!(message, "invalid content: expected ident at line 1 column 2")
        }
        other => panic!("expected a failure, got {:?}", other),
    }
    assert_eq!(session.schema_store().get(&uri.to_string()), Some(document("{}")));
}

#[test]
fn the_uncached_step_decides_as_the_cached_one_and_stores_nothing() {
    let uri = "http://example.com/schema.json";
    match WasmSchemaValidator::schema_fetched_uncached(
        uri.to_string(),
        Ok(b"{\"type\":\"number\"}".to_vec()),
        "1",
    ) {
        ValidationStep::Compile { schema, content } => {
            assert_eq!(schema, document("{\"type\":\"number\"}"));
            assert_eq!(content, document("1"));
        }
        other => panic!("expected a compile step, got {:?}", other),
    }
    match WasmSchemaValidator::schema_fetched_uncached(
        uri.to_string(),
        Err("offline".to_string()),
        "1",
    ) {
        ValidationStep::Failed(message) => assert_eq!(
            message,
            "schema not found: failed to fetch 'http://example.com/schema.json': offline"
        ),
        other => panic!("expected a failure, got {:?}", other),
    }
}

#[test]
fn a_fetched_reference_is_stored_for_the_engine() {
    let mut session = WasmSchemaValidator::new();
    let uri = "https://example.com/defs.json";
    assert_eq!(
        session.reference_fetched(uri.to_string(), Ok(b"{\"$defs\":{}}".to_vec())),
        Ok(document("{\"$defs\":{}}"))
    );
    assert_eq!(
        session.schema_store().get(&uri.to_string()),
        Some(document("{\"$defs\":{}}"))
    );
    assert_eq!(
        session.reference_fetched("https://example.com/other.json".to_string(), Err("reset".to_string())),
        Err("failed to fetch 'https://example.com/other.json': reset".to_string())
    );
    assert_eq!(
        session.reference_fetched("https://example.com/other.json".to_string(), Ok(b"]".to_vec())),
        Err("invalid JSON received from 'https://example.com/other.json': expected value at line 1 column 1".to_string())
    );
    assert_eq!(
        session.schema_store().get(&"https://example.com/other.json".to_string()),
        None
    );
}

#[test]
fn a_schema_the_engine_cannot_compile_is_reported() {
    let mut session = WasmSchemaValidator::new();
    let result = validate_offline(&mut session, "{\"type\":12}", "1", "offline");
    let message = result.unwrap_err();
    assert!(message.starts_with("schema compilation failed: "), "{}", message);
    assert_eq!(
        WasmSchemaValidator::compilation_failed("boom"),
        "schema compilation failed: boom"
    );
    assert_eq!(
        WasmSchemaValidator::compilation_failed(""),
        "schema compilation failed: "
    );
}
