use tinify::client::Client;
use tinify::source::LoneTransform;
use tinify::http::Payload;
use tinify::http::Request;
use tinify::tinify::from_buffer;
use tinify::tinify::from_file;
use tinify::tinify::from_url;
use tinify::tinify::get_client;
use tinify::tinify::set_key;
use tinify::tinify::Options;
use tinify::tinify::Tinify;

fn mock_key() -> String {
    "none".to_string()
}

#[test]
fn test_set_key_into_hash_map() {
    let key = mock_key();
    let mut options = Options::new();
    set_key(&mut options, key.as_str());
    options.insert("key", key.to_owned());

    let test_key = options.get("key").unwrap().clone();

    assert_eq!(test_key, key.to_owned());
}

#[test]
fn test_get_one_client() {
    let key = mock_key();
    let mut options = Options::new();
    set_key(&mut options, key.as_str());
    let client = get_client(&options);
    let expected = Client::new(key.as_str());

    assert_eq!(client, expected);
}

#[test]
fn test_get_client() {
    let key = mock_key();
    let client = Tinify::new().set_key(key.as_str()).get_client().unwrap();

    assert_eq!(client.source().key(), &Some(key));
}

#[test]
fn set_key_replaces_the_key() {
    let mut options = Options::new();
    assert!(!options.contains_key("key"));
    assert_eq!(options.get("key"), None);

    set_key(&mut options, "first");
    set_key(&mut options, "second");

    assert!(options.contains_key("key"));
    assert_eq!(options.get("key"), Some(&"second".to_string()));
}

#[test]
fn insert_returns_the_value_that_was_there() {
    let mut options = Options::new();

    assert_eq!(options.insert("key", "a".to_string()), None);
    assert_eq!(options.insert("proxy", "b".to_string()), None);
    assert_eq!(options.insert("key", "c".to_string()), Some("a".to_string()));
    assert_eq!(options.get("key"), Some(&"c".to_string()));
    assert_eq!(options.get("proxy"), Some(&"b".to_string()));
    assert_eq!(options.get("other"), None);
}

#[test]
fn new_configuration_is_empty_and_rejects_a_lone_transform() {
    let tinify = Tinify::new();
    assert_eq!(tinify.key, "");
    assert_eq!(tinify.lone_transform, LoneTransform::Reject);

    let tinify = Tinify::default();
    assert_eq!(tinify.key, "");
    assert_eq!(tinify.lone_transform, LoneTransform::Reject);
}

#[test]
fn configuration_reaches_the_client() {
    let client = Tinify::new()
        .set_key("secret")
        .set_lone_transform(LoneTransform::Forward)
        .get_client()
        .unwrap();

    assert_eq!(client.source().key(), &Some("secret".to_string()));
    assert_eq!(client.source().lone_transform(), LoneTransform::Forward);
    assert_eq!(client.source().buffer(), &None);
    assert_eq!(client.source().output(), &None);
    assert!(client.source().operations().is_empty());
}

#[test]
fn jobs_begin_with_the_key_of_the_options() {
    let mut options = Options::new();
    set_key(&mut options, "secret");
    let password = Some("secret".to_string());

    let (pending, request) = from_buffer(&options, &[1, 2, 3]).unwrap();
    assert_eq!(pending.source().key(), &password);
    assert_eq!(request.payload, Payload::Bytes(vec![1, 2, 3]));
    assert_eq!(request.auth.and_then(|auth| auth.password), password);

    let (pending, request) = from_file(&options, Ok(vec![4, 5])).unwrap();
    assert_eq!(pending.source().key(), &password);
    assert_eq!(request.payload, Payload::Bytes(vec![4, 5]));

    let (pending, request) = from_url(&options, "https://host/image.png").unwrap();
    assert_eq!(pending.source().key(), &password);
    assert_eq!(request, Request::get("https://host/image.png".to_string()));
}
