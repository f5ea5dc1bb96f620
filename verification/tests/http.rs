use rust_tour::http::{basic_response, response, route, starts_with, Route};

#[test]
fn a_request_is_routed_by_its_first_line() {
    assert_eq!(route(b"GET / HTTP/1.1\r\nHost: localhost\r\n\r\n"), Route::Home);
    assert_eq!(route(b"GET / HTTP/1.1\r\n"), Route::Home);
    assert_eq!(route(b"GET /sleep HTTP/1.1\r\nHost: x\r\n\r\n"), Route::Sleep);
    assert_eq!(route(b"GET /other HTTP/1.1\r\n\r\n"), Route::NotFound);
    assert_eq!(route(b"POST / HTTP/1.1\r\n\r\n"), Route::NotFound);
    assert_eq!(route(b"GET / HTTP/1.1\r"), Route::NotFound);
    assert_eq!(route(b"GET / HTTP/1.1\n"), Route::NotFound);
    assert_eq!(route(b""), Route::NotFound);
    let mut buffer = [0u8; 1024];
    buffer[..16].copy_from_slice(b"GET / HTTP/1.1\r\n");
    assert_eq!(route(&buffer), Route::Home);
    assert_eq!(route(&[0u8; 1024]), Route::NotFound);
}

#[test]
fn a_prefix_is_found_at_the_front_only() {
    assert!(starts_with(b"abc", b""));
    assert!(starts_with(b"abc", b"a"));
    assert!(starts_with(b"abc", b"abc"));
    assert!(!starts_with(b"abc", b"abcd"));
    assert!(!starts_with(b"abc", b"bc"));
    assert!(!starts_with(b"", b"a"));
    assert!(starts_with(b"", b""));
}

#[test]
fn each_route_has_its_status_page_and_delay() {
    assert_eq!(Route::Home.status_line(), "HTTP/1.1 200 OK");
    assert_eq!(Route::Sleep.status_line(), "HTTP/1.1 200 OK");
    assert_eq!(Route::NotFound.status_line(), "HTTP/1.1 404 NOT FOUND");
    assert_eq!(Route::Home.file(), "hello.html");
    assert_eq!(Route::Sleep.file(), "hello.html");
    assert_eq!(Route::NotFound.file(), "404.html");
    assert_eq!(Route::Home.delay_secs(), 0);
    assert_eq!(Route::Sleep.delay_secs(), 5);
    assert_eq!(Route::NotFound.delay_secs(), 0);
}

#[test]
fn a_response_frames_its_body_with_status_and_length() {
    assert_eq!(
        response("HTTP/1.1 200 OK", "<h1>Hello!</h1>"),
        "HTTP/1.1 200 OK\r\nContent-Length: 15\r\n\r\n<h1>Hello!</h1>"
    );
    assert_eq!(
        Route::NotFound.respond("Oops!"),
        "HTTP/1.1 404 NOT FOUND\r\nContent-Length: 5\r\n\r\nOops!"
    );
    assert_eq!(
        Route::Home.respond(""),
        "HTTP/1.1 200 OK\r\nContent-Length: 0\r\n\r\n"
    );
    assert_eq!(
        Route::Sleep.respond("grüß"),
        "HTTP/1.1 200 OK\r\nContent-Length: 6\r\n\r\ngrüß"
    );
    let long = "x".repeat(1234);
    assert_eq!(
        response("S", &long),
        format!("S\r\nContent-Length: 1234\r\n\r\n{}", long)
    );
    assert_eq!(basic_response(), "HTTP/1.1 200 OK\r\n\r\n");
}
