use tgbotool::client::{
    api_url, decimal_text, download_url, downloaded, method_url, ErrResponse, Error, OkResponse,
    TgResponse,
};
use tgbotool::types::File;

#[test]
fn decimal_text_of_small_and_large_numbers() {
    assert_eq!(decimal_text(0), "0");
    assert_eq!(decimal_text(7), "7");
    assert_eq!(decimal_text(10), "10");
    assert_eq!(decimal_text(404), "404");
    assert_eq!(decimal_text(9999), "9999");
    assert_eq!(decimal_text(10000), "10000");
    assert_eq!(decimal_text(u16::MAX), "65535");
}

#[test]
fn decimal_text_agrees_with_display() {
    for n in 0..=u16::MAX {
        assert_eq!(decimal_text(n), n.to_string());
    }
}

#[test]
fn api_and_method_urls() {
    let base = api_url("123:abc");
    assert_eq!(base, "https://api.telegram.org/bot123:abc");
    assert_eq!(method_url(&base, "getFile"), "https://api.telegram.org/bot123:abc/getFile");
}

fn file(file_path: Option<&str>) -> File {
    File {
        file_id: "id".to_string(),
        file_unique_id: "unique".to_string(),
        file_size: Some(3),
        file_path: file_path.map(|p| p.to_string()),
    }
}

#[test]
fn download_url_of_a_prepared_file() {
    assert_eq!(
        download_url("123:abc", &file(Some("photos/file_1.jpg"))),
        Some("https://api.telegram.org/file/bot123:abc/photos/file_1.jpg".to_string())
    );
}

#[test]
fn download_url_of_a_file_without_path() {
    assert_eq!(download_url("123:abc", &file(None)), None);
}

#[test]
fn downloaded_bytes_or_error() {
    match downloaded(true, "200 OK", vec![1, 2, 3]) {
        Ok(Some(bytes)) => assert_eq!(bytes, [1, 2, 3]),
        _ => panic!("expected the bytes"),
    }
    match downloaded(false, "404 Not Found", vec![1, 2, 3]) {
        Err(Error::Response(reason)) => assert_eq!(reason, "download file error: 404 Not Found"),
        _ => panic!("expected an error"),
    }
}

#[test]
fn refused_request_becomes_a_response_error() {
    let answer = ErrResponse {
        ok: false,
        error_code: 400,
        description: "Bad Request: chat not found".to_string(),
    };
    match answer.into_error("400 Bad Request") {
        Error::Response(reason) => {
            assert_eq!(reason, "status: 400 Bad Request: 400 Bad Request: chat not found")
        }
        _ => panic!("expected a response error"),
    }
}

#[test]
fn answers_become_results() {
    let good: TgResponse<u8> = TgResponse::Success(OkResponse { ok: true, result: 9 });
    assert!(matches!(good.into_result("200 OK"), Ok(9)));
    let bad: TgResponse<u8> = TgResponse::Failure(ErrResponse {
        ok: false,
        error_code: 401,
        description: "Unauthorized".to_string(),
    });
    match bad.into_result("401 Unauthorized") {
        Err(Error::Response(reason)) => {
            assert_eq!(reason, "status: 401 Unauthorized: 401 Unauthorized")
        }
        _ => panic!("expected a response error"),
    }
}

#[test]
fn client_errors_say_what_went_wrong() {
    assert_eq!(Error::Request("timed out".to_string()).to_string(), "Request error: timed out");
    assert_eq!(Error::Response("bad".to_string()).to_string(), "Response error: bad");
    assert_eq!(Error::Io("closed".to_string()).to_string(), "I/O error: closed");
}
