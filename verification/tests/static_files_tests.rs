use king_pusha::outcome::{
    response_status, DeliveryError, Outcome, PushError, SignatureError, ValidationError,
};
use king_pusha::static_files::{file_name, file_path, media_type};

#[test]
fn empty_path_names_the_index_page() {
    assert_eq!(file_name(""), "index.html");
    assert_eq!(file_path(""), "./web/index.html");
    assert_eq!(media_type(""), "text/html");
}

#[test]
fn other_paths_name_themselves() {
    assert_eq!(file_name("app.js"), "app.js");
    assert_eq!(file_path("app.js"), "./web/app.js");
    assert_eq!(file_path("img/logo.png"), "./web/img/logo.png");
}

#[test]
fn media_type_follows_the_extension() {
    assert_eq!(media_type("img/logo.png"), "image/png");
    assert_eq!(media_type("style.css"), "text/css");
    assert_eq!(media_type("data.json"), "application/json");
    assert_eq!(media_type("no_extension"), "application/octet-stream");
    assert_eq!(media_type("strange.zzzzzz"), "application/octet-stream");
}

#[test]
fn outcome_has_its_status() {
    assert_eq!(response_status(Outcome::Delivered), 200);
    let failed = |error| response_status(Outcome::Failed(error));
    assert_eq!(failed(PushError::Validation(ValidationError::PayloadTooLarge)), 400);
    assert_eq!(failed(PushError::Validation(ValidationError::MalformedEndpoint)), 400);
    assert_eq!(failed(PushError::Delivery(DeliveryError::Gone)), 410);
    assert_eq!(failed(PushError::Delivery(DeliveryError::TransportError)), 502);
    assert_eq!(failed(PushError::Delivery(DeliveryError::RateLimited)), 503);
    assert_eq!(failed(PushError::Delivery(DeliveryError::Timeout)), 504);
    assert_eq!(failed(PushError::Signature(SignatureError::InvalidExpiry)), 500);
    assert_eq!(failed(PushError::Encryption), 500);
    assert_eq!(failed(PushError::QueueClosed), 503);
    assert_eq!(failed(PushError::QueueFull), 503);
}
