use tinify::client::Client;
use tinify::convert::Convert;
use tinify::convert::Type;
use tinify::error::Exchange;
use tinify::error::TinifyError;
use tinify::error::Upstream;
use tinify::http::Auth;
use tinify::http::Payload;
use tinify::http::Request;
use tinify::http::Response;
use tinify::http::Verb;
use tinify::resize::Method;
use tinify::resize::Resize;
use tinify::source::Fault;
use tinify::source::LoneTransform;
use tinify::source::Output;
use tinify::source::Pending;
use tinify::source::Source;
use tinify::source::Stage;
use tinify::source::Step;
use tinify::transform::Transform;

const SHRINK: &str = "https://api.tinify.com/shrink";
const RESULT: &str = "https://api.tinify.com/output/2xnsp7jn34e5.jpg";
const PANDA: &str = "https://tinypng.com/images/panda-happy.png";

fn ok(status: u16, location: Option<&str>, body: Vec<u8>) -> Result<Response, reqwest::Error> {
    Ok(Response { status, location: location.map(|l| Ok(l.to_string())), body })
}

fn account(body: &[u8]) -> Result<Upstream, serde_json::Error> {
    let value: serde_json::Value = serde_json::from_slice(body)?;
    Ok(Upstream {
        error: value["error"].as_str().unwrap_or_default().to_string(),
        message: value["message"].as_str().unwrap_or_default().to_string(),
    })
}

/// Hands the scripted reports to the job, one for each request, and returns
/// the requests that the job made after the first, with the step at which
/// it stopped.
fn run(
    pending: Pending,
    script: Vec<Result<Response, reqwest::Error>>,
) -> (Vec<Request>, Step) {
    let mut sent = Vec::new();
    let mut pending = pending;
    let mut script = script.into_iter();
    loop {
        let event = script.next().expect("the job asked for more than the script holds");
        match pending.receive(event) {
            Step::Send(next, request) => {
                sent.push(request);
                pending = next;
            }
            step => {
                assert!(script.next().is_none(), "the job stopped before the script ended");
                return (sent, step);
            }
        }
    }
}

fn ready(step: Step) -> Source {
    match step {
        Step::Ready(source) => source,
        other => panic!("the job is not ready: {:?}", other),
    }
}

fn failure(step: Step) -> TinifyError {
    match step {
        Step::Rejected(_, rejection) => {
            let parsed = account(&rejection.body);
            rejection.into_error(parsed)
        }
        Step::Failed(_, error) => error,
        other => panic!("the job did not fail: {:?}", other),
    }
}

fn bytes(output: Output) -> Vec<u8> {
    match output {
        Output::Bytes(bytes) => bytes,
        other => panic!("no bytes were handed out: {:?}", other),
    }
}

fn unauthorized() -> Vec<u8> {
    b"{\"error\":\"Unauthorized\",\"message\":\"Credentials are invalid.\"}".to_vec()
}

/// An uploaded job whose result the service keeps at `RESULT`.
fn uploaded(key: &str, image: &[u8], result: Vec<u8>) -> Source {
    let (pending, _) = Client::new(key).from_buffer(image).unwrap();
    let (_, step) = run(pending, vec![ok(201, Some(RESULT), Vec::new()), ok(200, None, result)]);
    ready(step)
}

#[test]
fn client_test_invalid_key() {
    let client = Client::new("invalid");
    let (pending, request) = client.from_url(PANDA).unwrap();
    assert_eq!(request, Request::get(PANDA.to_string()));

    let (sent, step) =
        run(pending, vec![ok(200, None, vec![7; 30734]), ok(401, None, unauthorized())]);
    assert_eq!(sent.len(), 1);
    assert_eq!(sent[0].url, SHRINK);
    let request = failure(step);

    assert!(matches!(request, TinifyError::ClientError { .. }));
    assert_eq!(
        request.upstream(),
        Some(&Upstream {
            error: "Unauthorized".to_string(),
            message: "Credentials are invalid.".to_string(),
        })
    );
}

#[test]
fn client_test_compress_from_file() {
    let tmp_image = vec![1u8; 124814];
    let actual = tmp_image.len();
    let (pending, request) = Client::new("key").from_file(Ok(tmp_image.clone())).unwrap();
    assert_eq!(request.payload, Payload::Bytes(tmp_image));

    let (_, step) =
        run(pending, vec![ok(201, Some(RESULT), Vec::new()), ok(200, None, vec![2u8; 102051])]);
    let expected = bytes(ready(step).to_file()).len();

    assert_eq!(actual, 124814);
    assert_eq!(expected, 102051);
}

#[test]
fn client_test_compress_from_buffer() {
    let buffer = vec![1u8; 124814];
    let actual = buffer.len();
    let (pending, request) = Client::new("key").from_buffer(&buffer).unwrap();
    assert_eq!(
        request,
        Request {
            verb: Verb::Post,
            url: SHRINK.to_string(),
            payload: Payload::Bytes(buffer.clone()),
            auth: Some(Auth { user: "api".to_string(), password: Some("key".to_string()) }),
            timeout_secs: 300,
        }
    );
    assert_eq!(request.content_type(), None);
    assert_eq!(pending.exchange(), Exchange::Shrink);
    assert_eq!(pending.source().buffer(), &None);

    let (sent, step) =
        run(pending, vec![ok(201, Some(RESULT), Vec::new()), ok(200, None, vec![2u8; 102051])]);
    assert_eq!(sent, vec![Request::get(RESULT.to_string())]);
    let source = ready(step);
    assert_eq!(source.stage(), Stage::Uploaded);
    assert_eq!(source.output(), &Some(RESULT.to_string()));
    let expected = bytes(source.to_file()).len();

    assert_eq!(actual, 124814);
    assert_eq!(expected, 102051);
}

#[test]
fn client_test_compress_from_url() {
    let (pending, request) = Client::new("key").from_url(PANDA).unwrap();
    assert_eq!(
        request,
        Request {
            verb: Verb::Get,
            url: PANDA.to_string(),
            payload: Payload::Empty,
            auth: None,
            timeout_secs: 300,
        }
    );
    assert_eq!(pending.exchange(), Exchange::Fetch);

    let remote = vec![3u8; 30734];
    let content_length = remote.len();
    let (sent, step) = run(
        pending,
        vec![
            ok(200, None, remote.clone()),
            ok(201, Some(RESULT), Vec::new()),
            ok(200, None, vec![4u8; 26324]),
        ],
    );
    assert_eq!(
        sent,
        vec![
            Request::post(SHRINK.to_string(), Payload::Bytes(remote), Some("key".to_string())),
            Request::get(RESULT.to_string()),
        ]
    );
    let expected = bytes(ready(step).to_file()).len();

    assert_eq!(content_length, 30734);
    assert_eq!(expected, 26324);
}

#[test]
fn client_test_save_to_file() {
    let source = uploaded("key", &[1u8; 64], vec![2u8; 32]);

    assert!(matches!(source.to_file(), Output::Bytes(_)));
}

#[test]
fn client_test_save_to_bufffer() {
    let source = uploaded("key", &vec![1u8; 124814], vec![2u8; 102051]);
    let buffer = bytes(source.to_buffer());

    assert_eq!(buffer.capacity(), 102051);
}

#[test]
fn client_test_error_transparent_png_to_jpeg() {
    let convert = Convert { types: vec![Type::Jpeg] };
    let source = uploaded("key", &[1u8; 64], vec![2u8; 32]).convert(convert).unwrap();
    let (pending, request) = match source.to_file() {
        Output::Send(pending, request) => (pending, request),
        other => panic!("the convert was not sent: {:?}", other),
    };
    assert_eq!(request.url, RESULT);
    assert_eq!(request.payload, Payload::Json("{\"convert\":{\"type\":\"image/jpeg\"}}".to_string()));

    let body = b"{\"error\":\"Bad request\",\"message\":\"Transparent image cannot be converted.\"}";
    let (_, step) = run(pending, vec![ok(400, None, body.to_vec())]);
    let request = failure(step);

    assert!(matches!(request, TinifyError::ClientError { .. }));
}

#[test]
fn source_test_request_error() {
    let source = Source::new(None);
    let (pending, request) = source.from_url("").unwrap();
    let transport = reqwest::blocking::Client::new().get(request.url).send();
    let (_, step) = run(pending, vec![Err(transport.unwrap_err())]);
    let request = failure(step);

    assert!(matches!(request, TinifyError::ReqwestError { .. }));
}

#[test]
fn end_to_end_upload_redirect_download() {
    let image = vec![9u8; 124_814];
    let (pending, upload) = Client::new("key").from_buffer(&image).unwrap();
    assert_eq!(upload.verb, Verb::Post);
    assert_eq!(upload.url, SHRINK);

    let step = pending.receive(ok(201, Some("https://host/result"), Vec::new()));
    let (pending, follow_up) = match step {
        Step::Send(pending, request) => (pending, request),
        other => panic!("no follow-up request: {:?}", other),
    };
    assert_eq!(follow_up, Request::get("https://host/result".to_string()));
    assert_eq!(pending.exchange(), Exchange::Download);

    let compressed: Vec<u8> = (0..102_051u32).map(|i| (i % 251) as u8).collect();
    let source = ready(pending.receive(ok(200, None, compressed.clone())));
    assert_eq!(source.output(), &Some("https://host/result".to_string()));
    let buffer = bytes(source.to_buffer());

    assert_eq!(buffer.len(), 102_051);
    assert_eq!(buffer, compressed);
}

#[test]
fn upload_without_location_takes_the_body() {
    let (pending, _) = Client::new("key").from_buffer(&[1, 2, 3, 4]).unwrap();
    let source = ready(pending.receive(ok(201, None, vec![5, 6])));

    assert_eq!(source.buffer(), &Some(vec![5, 6]));
    assert_eq!(source.output(), &None);
    assert_eq!(source.stage(), Stage::Uploaded);
    assert_eq!(bytes(source.to_buffer()), vec![5, 6]);
}

#[test]
fn unauthorized_upload_does_not_fill_the_buffer() {
    let (pending, _) = Client::new("invalid").from_buffer(&[1, 2, 3]).unwrap();
    let step = pending.receive(ok(401, Some(RESULT), unauthorized()));
    let (source, rejection) = match step {
        Step::Rejected(source, rejection) => (source, rejection),
        other => panic!("the upload was not refused: {:?}", other),
    };

    assert_eq!(rejection.fault, Fault::Client);
    assert_eq!(rejection.body, unauthorized());
    assert_eq!(source.buffer(), &None);
    assert_eq!(source.output(), &None);
    assert_eq!(source.stage(), Stage::Uninitialized);
    assert_eq!(source, Source::new(Some("invalid")));
}

#[test]
fn unsupported_media_is_the_callers_fault() {
    let (pending, _) = Client::new("key").from_buffer(b"not an image").unwrap();
    let body = b"{\"error\":\"Unsupported media type\",\"message\":\"File type is not supported.\"}";
    let error = failure(pending.receive(ok(415, None, body.to_vec())));

    assert_eq!(error.message(), "Tinify Client Error: File type is not supported.");
}

#[test]
fn unavailable_service_is_the_services_fault() {
    let (pending, _) = Client::new("key").from_buffer(&[1]).unwrap();
    let body = b"{\"error\":\"Service unavailable\",\"message\":\"Try again later.\"}";
    let error = failure(pending.receive(ok(503, None, body.to_vec())));

    assert!(matches!(error, TinifyError::ServerError { .. }));
    assert_eq!(error.message(), "Tinify Server Error: Try again later.");
    assert_eq!(error.upstream().map(|u| u.error.as_str()), Some("Service unavailable"));
}

#[test]
fn unreadable_account_is_a_json_error() {
    let (pending, _) = Client::new("key").from_buffer(&[1]).unwrap();
    let error = failure(pending.receive(ok(503, None, b"<html>down</html>".to_vec())));

    assert!(matches!(error, TinifyError::JsonParseError(_)));
    assert_eq!(error.upstream(), None);
}

#[test]
fn unreadable_location_fails_the_exchange() {
    let header = reqwest::header::HeaderValue::from_bytes(b"https://host/\xfa").unwrap();
    let (pending, _) = Client::new("key").from_buffer(&[1]).unwrap();
    let response =
        Response { status: 201, location: Some(header.to_str().map(String::from)), body: vec![8] };
    let step = pending.receive(Ok(response));
    let (source, error) = match step {
        Step::Failed(source, error) => (source, error),
        other => panic!("the exchange did not fail: {:?}", other),
    };

    assert!(matches!(error, TinifyError::ReqwestConvertError(_)));
    assert_eq!(source.buffer(), &None);
}

#[test]
fn unreadable_location_does_not_matter_on_a_refusal() {
    let header = reqwest::header::HeaderValue::from_bytes(b"\xfa").unwrap();
    let (pending, _) = Client::new("key").from_buffer(&[1]).unwrap();
    let response = Response {
        status: 401,
        location: Some(header.to_str().map(String::from)),
        body: unauthorized(),
    };
    let error = failure(pending.receive(Ok(response)));

    assert!(matches!(error, TinifyError::ClientError { .. }));
}

#[test]
fn unreadable_file_fails_the_job() {
    let cause = std::io::Error::new(std::io::ErrorKind::NotFound, "no such file");
    let error = Client::new("key").from_file(Err(cause)).unwrap_err();

    assert!(matches!(error, TinifyError::IOError(_)));
    assert_eq!(error.message(), "no such file");
}

#[test]
fn refused_download_of_the_callers_image() {
    let (pending, _) = Client::new("key").from_url(PANDA).unwrap();
    let (sent, step) = run(pending, vec![ok(503, None, b"{}".to_vec())]);

    assert!(sent.is_empty());
    match step {
        Step::Rejected(source, rejection) => {
            assert_eq!(rejection.fault, Fault::Server);
            assert_eq!(source.buffer(), &None);
        }
        other => panic!("the download was not refused: {:?}", other),
    }
}

#[test]
fn resize_scale_width_is_sent_without_height() {
    let resize = Resize { method: Method::Scale, width: Some(400), height: None };
    let source = uploaded("key", &[1u8; 64], vec![2u8; 32]).resize(resize).unwrap();
    assert_eq!(source.stage(), Stage::OperationsPending);
    assert_eq!(source.operations().resize, Some(resize));

    let (pending, request) = match source.to_file() {
        Output::Send(pending, request) => (pending, request),
        other => panic!("the resize was not sent: {:?}", other),
    };
    assert_eq!(
        request,
        Request {
            verb: Verb::Post,
            url: RESULT.to_string(),
            payload: Payload::Json("{\"resize\":{\"method\":\"scale\",\"width\":400}}".to_string()),
            auth: Some(Auth { user: "api".to_string(), password: Some("key".to_string()) }),
            timeout_secs: 300,
        }
    );
    assert_eq!(request.content_type(), Some("application/json"));
    assert_eq!(pending.exchange(), Exchange::Operate);

    let source = ready(pending.receive(ok(200, None, vec![7u8; 16])));
    assert_eq!(source.stage(), Stage::Flushed);
    assert!(source.operations().is_empty());
    assert_eq!(source.output(), &None);
    assert_eq!(bytes(source.to_file()), vec![7u8; 16]);
}

#[test]
fn resize_scale_height_is_sent_without_width() {
    let resize = Resize { method: Method::Scale, width: None, height: Some(400) };
    let source = uploaded("key", &[1u8; 64], vec![2u8; 32]).resize(resize).unwrap();

    match source.to_buffer() {
        Output::Send(_, request) => assert_eq!(
            request.payload,
            Payload::Json("{\"resize\":{\"method\":\"scale\",\"height\":400}}".to_string())
        ),
        other => panic!("the resize was not sent: {:?}", other),
    }
}

#[test]
fn resize_scale_with_both_dimensions_is_refused_locally() {
    let resize = Resize { method: Method::Scale, width: Some(400), height: Some(200) };
    let error = uploaded("key", &[1u8; 64], vec![2u8; 32]).resize(resize).unwrap_err();

    assert!(matches!(error, TinifyError::ClientError { .. }));
    assert_eq!(error.upstream().map(|u| u.error.as_str()), Some("Invalid"));
    assert_eq!(
        error.message(),
        "Tinify Client Error: Scale takes a width or a height, not both; fit, cover and thumb take both."
    );
}

#[test]
fn resize_with_unsuitable_dimensions_is_refused_locally() {
    for (method, width, height) in [
        (Method::Scale, None, None),
        (Method::Fit, Some(1), None),
        (Method::Cover, None, Some(1)),
        (Method::Thumb, None, None),
    ] {
        let result = Source::new(Some("key")).resize(Resize { method, width, height });
        assert!(matches!(result, Err(TinifyError::ClientError { .. })));
    }
    for method in [Method::Fit, Method::Cover, Method::Thumb] {
        let resize = Resize { method, width: Some(400), height: Some(200) };
        let source = Source::new(Some("key")).resize(resize).unwrap();
        assert_eq!(source.operations().resize, Some(resize));
    }
}

#[test]
fn convert_without_types_is_refused_locally() {
    let error = Source::new(Some("key")).convert(Convert { types: Vec::new() }).unwrap_err();

    assert_eq!(error.message(), "Tinify Client Error: Convert takes at least one image type.");
}

#[test]
fn operations_go_out_together_in_one_request() {
    let source = uploaded("key", &[1u8; 64], vec![2u8; 32])
        .transform(Transform { background: "#000000".to_string() })
        .unwrap()
        .resize(Resize { method: Method::Fit, width: Some(400), height: Some(200) })
        .unwrap()
        .convert(Convert { types: vec![Type::Jpeg, Type::Png, Type::Webp] })
        .unwrap();

    match source.to_buffer() {
        Output::Send(_, request) => assert_eq!(
            request.payload,
            Payload::Json(
                "{\"convert\":{\"type\":[\"image/jpeg\",\"image/png\",\"image/webp\"]},\
                 \"resize\":{\"method\":\"fit\",\"width\":400,\"height\":200},\
                 \"transform\":{\"background\":\"#000000\"}}"
                    .to_string()
            )
        ),
        other => panic!("the operations were not sent: {:?}", other),
    }
}

#[test]
fn later_operation_replaces_the_earlier_of_its_kind() {
    let source = Source::new(Some("key"))
        .resize(Resize { method: Method::Fit, width: Some(1), height: Some(2) })
        .unwrap()
        .resize(Resize { method: Method::Scale, width: Some(3), height: None })
        .unwrap()
        .convert(Convert { types: vec![Type::Png] })
        .unwrap()
        .convert(Convert { types: vec![Type::WildCard] })
        .unwrap();

    assert_eq!(
        source.operations().resize,
        Some(Resize { method: Method::Scale, width: Some(3), height: None })
    );
    assert_eq!(source.operations().convert, Some(Convert { types: vec![Type::WildCard] }));
    assert_eq!(source.operations().transform, None);
    assert_eq!(source.stage(), Stage::Uninitialized);
}

#[test]
fn operations_result_behind_a_location_is_downloaded() {
    let source = uploaded("key", &[1u8; 64], vec![2u8; 32])
        .convert(Convert { types: vec![Type::Webp] })
        .unwrap();
    let pending = match source.to_buffer() {
        Output::Send(pending, _) => pending,
        other => panic!("the convert was not sent: {:?}", other),
    };
    let (sent, step) = run(
        pending,
        vec![ok(200, Some("https://host/converted"), Vec::new()), ok(200, None, vec![5u8; 8])],
    );
    assert_eq!(sent, vec![Request::get("https://host/converted".to_string())]);
    let source = ready(step);

    assert_eq!(source.stage(), Stage::Flushed);
    assert_eq!(source.output(), &Some("https://host/converted".to_string()));
    assert!(source.operations().is_empty());
    assert_eq!(bytes(source.to_buffer()), vec![5u8; 8]);
}

#[test]
fn refused_operations_stay_pending() {
    let resize = Resize { method: Method::Fit, width: Some(0), height: Some(0) };
    let source = uploaded("key", &[1u8; 64], vec![2u8; 32]).resize(resize).unwrap();
    let pending = match source.to_buffer() {
        Output::Send(pending, _) => pending,
        other => panic!("the resize was not sent: {:?}", other),
    };
    let body = b"{\"error\":\"Bad request\",\"message\":\"Invalid dimensions.\"}".to_vec();
    match pending.receive(ok(404, None, body)) {
        Step::Rejected(source, rejection) => {
            assert_eq!(rejection.fault, Fault::Client);
            assert_eq!(source.buffer(), &Some(vec![2u8; 32]));
            assert_eq!(source.output(), &Some(RESULT.to_string()));
            assert_eq!(source.operations().resize, Some(resize));
        }
        other => panic!("the operations were not refused: {:?}", other),
    }
}

#[test]
fn lone_transform_is_refused_unless_forwarded() {
    let transform = Transform { background: "white".to_string() };
    let source = uploaded("key", &[1u8; 64], vec![2u8; 32]).transform(transform.clone()).unwrap();
    match source.to_buffer() {
        Output::Refused(source, error) => {
            assert_eq!(
                error.message(),
                "Tinify Client Error: Transform takes effect only together with a convert."
            );
            assert_eq!(source.operations().transform, Some(transform.clone()));
        }
        other => panic!("the lone transform was not refused: {:?}", other),
    }

    let (pending, _) =
        Client::configured("key", LoneTransform::Forward).from_buffer(&[1u8; 64]).unwrap();
    let (_, step) = run(pending, vec![ok(201, Some(RESULT), Vec::new()), ok(200, None, vec![2])]);
    let source = ready(step).transform(transform).unwrap();
    match source.to_file() {
        Output::Send(_, request) => assert_eq!(
            request.payload,
            Payload::Json("{\"transform\":{\"background\":\"white\"}}".to_string())
        ),
        other => panic!("the lone transform was not sent: {:?}", other),
    }
}

#[test]
fn operations_without_an_output_are_refused() {
    let (pending, _) = Client::new("key").from_buffer(&[1, 2, 3]).unwrap();
    let source = ready(pending.receive(ok(201, None, vec![5, 6])))
        .convert(Convert { types: vec![Type::Png] })
        .unwrap();

    match source.to_buffer() {
        Output::Refused(_, error) => {
            assert_eq!(error.upstream().map(|u| u.error.as_str()), Some("Empty"));
            assert_eq!(
                error.message(),
                "Tinify Client Error: Output of the compressed image is empty."
            );
        }
        other => panic!("the operations were not refused: {:?}", other),
    }
}

#[test]
fn job_without_a_buffer_hands_out_nothing() {
    match Source::new(Some("key")).to_buffer() {
        Output::Refused(source, error) => {
            assert_eq!(
                error.message(),
                "Tinify Client Error: Buffer of the compressed image is empty."
            );
            assert_eq!(source, Source::new(Some("key")));
        }
        other => panic!("a buffer was handed out: {:?}", other),
    }
    assert!(matches!(Source::new(Some("key")).to_file(), Output::Nothing));
}

#[test]
fn file_gets_what_the_buffer_holds() {
    let result: Vec<u8> = (0..=255u8).collect();
    let to_file = bytes(uploaded("key", &[1u8; 512], result.clone()).to_file());
    let to_buffer = bytes(uploaded("key", &[1u8; 512], result.clone()).to_buffer());

    assert_eq!(to_file, to_buffer);
    assert_eq!(to_buffer, result);
}

#[test]
fn upload_without_a_key_is_still_authenticated_as_the_api_user() {
    let (_, request) = Source::new(None).from_buffer(&[1]).unwrap();

    assert_eq!(request.auth, Some(Auth { user: "api".to_string(), password: None }));
}
