use rust_host_func::http::HttpRequest;

#[test]
fn get_request_json() {
    assert_eq!(
        HttpRequest::get_request().to_json(),
        "{\"method\": \"GET\", \"url\": \"https://httpbin.org/get\", \
         \"headers\": {\"User-Agent\": \"WasmVM-TEE/1.0\"}, \"timeout\": 30}"
    );
}

#[test]
fn post_request_json_escapes_body() {
    assert_eq!(
        HttpRequest::post_request().to_json(),
        "{\"method\": \"POST\", \"url\": \"https://httpbin.org/post\", \
         \"headers\": {\"Content-Type\": \"application/json\", \"User-Agent\": \"WasmVM-TEE/1.0\"}, \
         \"body\": \"{\\\"message\\\": \\\"Hello from WASM!\\\", \\\"timestamp\\\": 1234567890}\", \
         \"timeout\": 30}"
    );
}

#[test]
fn headers_request_json() {
    let r = HttpRequest::headers_request();
    assert_eq!(r.headers.len(), 4);
    assert_eq!(
        r.to_json(),
        "{\"method\": \"GET\", \"url\": \"https://httpbin.org/headers\", \
         \"headers\": {\"X-Custom-Header\": \"test-value\", \"Authorization\": \"Bearer fake-token\", \
         \"Accept\": \"application/json\", \"User-Agent\": \"WasmVM-TEE/1.0\"}, \"timeout\": 30}"
    );
}

#[test]
fn request_bytes_are_utf8_of_json() {
    let r = HttpRequest {
        method: "PUT".to_string(),
        url: "http://x/é".to_string(),
        headers: vec![],
        body: None,
        timeout: 0,
    };
    let json = r.to_json();
    assert_eq!(json, "{\"method\": \"PUT\", \"url\": \"http://x/é\", \"headers\": {}, \"timeout\": 0}");
    assert_eq!(r.to_bytes(), json.as_bytes().to_vec());
}
