use cascade_agent::error::AgentError;
use cascade_agent::json::{JsonNumber, JsonValue};
use cascade_agent::knowledge::embeddings::{model_from_name, passage_input, query_input, EmbeddingModelKind};
use cascade_agent::knowledge::hit_metadata;
use cascade_agent::orchestrator::{
    choose_transport, create_orchestrator, OrchestratorConnection, OrchestratorSettings,
    TransportChoice,
};
use cascade_agent::text::{blank, decimal, white_space};

fn settings(enabled: bool, transport: &str, url: Option<&str>) -> OrchestratorSettings {
    OrchestratorSettings {
        enabled,
        transport: transport.to_string(),
        bind_address: "127.0.0.1:9000".to_string(),
        connect_url: url.map(|u| u.to_string()),
    }
}

#[test]
fn orchestrator_factory() {
    let noop = create_orchestrator(&settings(false, "grpc", None)).unwrap();
    assert!(!noop.is_connected());
    assert!(create_orchestrator(&settings(true, "websocket", None)).is_ok());
    match create_orchestrator(&settings(true, "grpc", None)) {
        Err(AgentError::OrchestratorError(m)) => assert_eq!(m, "Unknown transport: grpc"),
        _ => panic!("expected an error"),
    }
    assert!(matches!(choose_transport(&settings(false, "x", None)), Ok(TransportChoice::Noop)));
    match choose_transport(&settings(true, "websocket", Some("ws://h"))) {
        Ok(TransportChoice::Connect(u)) => assert_eq!(u, "ws://h"),
        _ => panic!("expected a client"),
    }
    match choose_transport(&settings(true, "websocket", None)) {
        Ok(TransportChoice::Serve(a)) => assert_eq!(a, "127.0.0.1:9000"),
        _ => panic!("expected a server"),
    }
}

#[test]
fn embedding_models() {
    assert_eq!(model_from_name("bgem3").unwrap(), EmbeddingModelKind::BGEM3);
    assert_eq!(model_from_name("BAAI/bgem3").unwrap(), EmbeddingModelKind::BGEM3);
    assert_eq!(
        model_from_name("intfloat/multilingual-e5-base").unwrap(),
        EmbeddingModelKind::MultilingualE5Base
    );
    assert_eq!(model_from_name("gte-base-en-v1.5").unwrap(), EmbeddingModelKind::GTEBaseENV15);
    match model_from_name("word2vec") {
        Err(AgentError::EmbeddingError(m)) => {
            assert_eq!(m, "Unknown embedding model: 'word2vec'. See docs for supported models.")
        }
        _ => panic!("expected an error"),
    }
    assert_eq!(query_input("x"), "query: x");
    assert_eq!(passage_input("y"), "passage: y");
}

#[test]
fn knowledge_hit_metadata() {
    assert!(hit_metadata(JsonValue::Null).is_none());
    let m = hit_metadata(JsonValue::Object(vec![("a".into(), JsonValue::Bool(true))])).unwrap();
    assert_eq!(m.len(), 1);
    assert_eq!(m[0].0, "a");
    let m = hit_metadata(JsonValue::Number(JsonNumber::PosInt(5))).unwrap();
    assert_eq!(m[0].0, "value");
    assert_eq!(m[0].1.as_u64(), Some(5));
}

#[test]
fn error_messages() {
    assert_eq!(
        AgentError::ContextOverflow { current: 9000, max: 8192 }.message(),
        "Context limit exceeded: 9000 tokens (limit: 8192)"
    );
    assert_eq!(AgentError::TomlSer("x".into()).message(), "Toml serialization error: x");
    assert_eq!(AgentError::InferenceFailed("all down".into()).message(), "Cascade inference failed: all down");
}

#[test]
fn text_helpers() {
    assert_eq!(decimal(0), "0");
    assert_eq!(decimal(1203), "1203");
    assert_eq!(decimal(usize::MAX), usize::MAX.to_string());
    for c in [' ', '\n', '\t', '\u{a0}', '\u{3000}', '\u{2009}'] {
        assert!(white_space(c));
        assert_eq!(white_space(c), c.is_whitespace());
    }
    for c in ['a', '\u{200b}', '-'] {
        assert_eq!(white_space(c), c.is_whitespace());
    }
    assert!(blank(" \n\t"));
    assert!(blank(""));
    assert!(!blank(" x "));
}
