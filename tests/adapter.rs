use haiku_api::errors::{ApiError, UpstreamError};
use haiku_api::generation::{DeepseekClient, HaikuResponse};
use haiku_api::prompts::{PromptInput, PromptStore};
use haiku_api::store::Table;

fn reply() -> HaikuResponse {
    HaikuResponse { haiku: "autumn moonlight".to_string(), is_funny: false }
}

#[test]
fn server_error_status_is_upstream_error() {
    let r = DeepseekClient::settle(500, Some(reply()));
    assert_eq!(r.unwrap_err(), ApiError::Upstream(UpstreamError::Status(500)));
    let r = DeepseekClient::settle(500, None);
    assert_eq!(r.unwrap_err(), ApiError::Upstream(UpstreamError::Status(500)));
}

#[test]
fn unparsable_success_is_malformed() {
    let r = DeepseekClient::settle(200, None);
    assert_eq!(r.unwrap_err(), ApiError::Upstream(UpstreamError::Malformed));
}

#[test]
fn status_class_boundaries() {
    assert!(DeepseekClient::settle(299, Some(reply())).is_ok());
    assert_eq!(DeepseekClient::settle(199, Some(reply())).unwrap_err(), ApiError::Upstream(UpstreamError::Status(199)));
    assert_eq!(DeepseekClient::settle(300, Some(reply())).unwrap_err(), ApiError::Upstream(UpstreamError::Status(300)));
    assert_eq!(DeepseekClient::settle(404, None).unwrap_err(), ApiError::Upstream(UpstreamError::Status(404)));
}

#[test]
fn success_gives_the_draft() {
    let d = DeepseekClient::settle(201, Some(reply())).unwrap();
    assert_eq!(d.haiku, "autumn moonlight");
    let input = d.into_input();
    assert_eq!(input.content, "autumn moonlight");
    assert!(!input.is_funny);
}

#[test]
fn request_carries_prompt_and_bearer_credential() {
    let client = DeepseekClient { url: "https://api.example".to_string(), api_key: "k123".to_string() };
    let mut store: PromptStore = Table::new();
    let p = PromptInput::create(&mut store, PromptInput { title: "t".to_string(), content: "write about rain".to_string() }, 1).unwrap();
    let req = client.request_for(&p, 64);
    assert_eq!(req.endpoint, "https://api.example/generate");
    assert_eq!(req.authorization, "Bearer k123");
    assert_eq!(req.prompt, "write about rain");
    assert_eq!(req.max_tokens, 64);
    assert_eq!(client.endpoint(), "https://api.example/generate");
    assert_eq!(client.authorization(), "Bearer k123");
}

#[test]
fn error_messages_carry_kind_and_detail() {
    assert_eq!(ApiError::Upstream(UpstreamError::Status(500)).message(), "UpstreamError: upstream answered with status 500");
    assert_eq!(ApiError::Upstream(UpstreamError::Malformed).message(), "UpstreamError: upstream answer is malformed");
    assert_eq!(ApiError::NotFound.message(), "NotFound: no active entity with this identity");
    assert_eq!(ApiError::Routing.kind(), "RoutingError");
    assert_eq!(ApiError::Validation.kind(), "ValidationError");
    assert_eq!(ApiError::Conflict.kind(), "ConflictError");
    assert_eq!(ApiError::ResourceExhausted.kind(), "ResourceExhausted");
}

#[test]
fn unreachable_upstream_message() {
    assert_eq!(ApiError::Upstream(UpstreamError::Unreachable).message(), "UpstreamError: upstream could not be reached");
}
