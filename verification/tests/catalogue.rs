use le_hey_eye_lib::anthropic::{default_model_ids, extract_model_ids};
use le_hey_eye_lib::json::parse_json;

#[test]
fn model_ids_are_read_from_the_data_array() {
    let body = "{\"data\":[{\"id\":\"anthropic-large\"},{\"id\":\"anthropic-small\"},{\"name\":\"no id here\"}]}";
    let value = parse_json(body).unwrap();
    assert_eq!(
        extract_model_ids(&value),
        vec!["anthropic-large".to_string(), "anthropic-small".to_string()]
    );
}

#[test]
fn missing_data_array_falls_back_to_the_default_catalogue() {
    let value = parse_json("{\"error\":\"nope\"}").unwrap();
    assert_eq!(extract_model_ids(&value), default_model_ids());
    let not_an_array = parse_json("{\"data\":3}").unwrap();
    assert_eq!(extract_model_ids(&not_an_array), default_model_ids());
}

#[test]
fn malformed_document_does_not_parse() {
    assert!(parse_json("{not json").is_none());
    assert!(parse_json("").is_none());
}

#[test]
fn default_catalogue_is_fixed() {
    assert_eq!(
        default_model_ids(),
        vec![
            "anthropic-large".to_string(),
            "anthropic-medium".to_string(),
            "anthropic-small".to_string(),
        ]
    );
}
