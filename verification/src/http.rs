//! What a small web server says to a request: which page it serves, and
//! the bytes of the response.

use crate::text::{byte_length, decimal, decimal_string};
use vstd::prelude::*;
use vstd::string::StringExecFns;

verus! {

/// What the server does with a request.
#[derive(Clone, Copy, Debug, PartialEq, Eq, Structural)]
pub enum Route {
    /// Serve the home page.
    Home,
    /// Wait a while, then serve the home page.
    Sleep,
    /// Say that there is no such page.
    NotFound,
}

/// The first line of a request for the home page.
pub open spec fn home_request() -> Seq<u8> {
    seq![
        71u8, 69, 84, 32, 47, 32, 72, 84, 84, 80, 47, 49, 46, 49, 13, 10,
    ]
}

/// The first line of a request for the page that is served slowly.
pub open spec fn sleep_request() -> Seq<u8> {
    seq![
        71u8, 69, 84, 32, 47, 115, 108, 101, 101, 112, 32, 72, 84, 84, 80, 47, 49, 46, 49, 13, 10,
    ]
}

/// What the server does with the request that starts with the bytes of
/// `request`.
pub open spec fn route_of(request: Seq<u8>) -> Route {
    if home_request().is_prefix_of(request) {
        Route::Home
    } else if sleep_request().is_prefix_of(request) {
        Route::Sleep
    } else {
        Route::NotFound
    }
}

/// The response with the status line `status_line` and the body
/// `contents`: the status line, the length of the body in bytes as the one
/// header, an empty line, the body.
pub open spec fn response_text(status_line: Seq<char>, contents: Seq<char>) -> Seq<char> {
    status_line + "\r\nContent-Length: "@ + decimal(byte_length(contents)) + "\r\n\r\n"@
        + contents
}

/// Whether `bytes` begins with `prefix`.
pub fn starts_with(bytes: &[u8], prefix: &[u8]) -> (b: bool)
    ensures
        b == prefix@.is_prefix_of(bytes@),
{
    if prefix.len() > bytes.len() {
        return false;
    }
    let mut i: usize = 0;
    while i < prefix.len()
        invariant
            i <= prefix.len() <= bytes.len(),
            forall|k: int| 0 <= k < i ==> prefix@[k] == bytes@[k],
        decreases prefix.len() - i,
    {
        if prefix[i] != bytes[i] {
            assert(bytes@.subrange(0, prefix@.len() as int)[i as int] != prefix@[i as int]);
            return false;
        }
        i = i + 1;
    }
    true
}

/// Decides what to do with the request whose first bytes are `request`.
pub fn route(request: &[u8]) -> (r: Route)
    ensures
        r == route_of(request@),
{
    let get: [u8; 16] = [71, 69, 84, 32, 47, 32, 72, 84, 84, 80, 47, 49, 46, 49, 13, 10];
    let sleep: [u8; 21] = [
        71, 69, 84, 32, 47, 115, 108, 101, 101, 112, 32, 72, 84, 84, 80, 47, 49, 46, 49, 13, 10,
    ];
    assert(get@ =~= home_request());
    assert(sleep@ =~= sleep_request());
    if starts_with(request, get.as_slice()) {
        Route::Home
    } else if starts_with(request, sleep.as_slice()) {
        Route::Sleep
    } else {
        Route::NotFound
    }
}

impl Route {
    /// The status line of the response.
    pub open spec fn status(self) -> Seq<char> {
        match self {
            Route::NotFound => "HTTP/1.1 404 NOT FOUND"@,
            _ => "HTTP/1.1 200 OK"@,
        }
    }

    /// The name of the file whose contents are the body of the response.
    pub open spec fn page(self) -> Seq<char> {
        match self {
            Route::NotFound => "404.html"@,
            _ => "hello.html"@,
        }
    }

    /// The seconds to wait before the response goes out.
    pub open spec fn delay(self) -> u64 {
        match self {
            Route::Sleep => 5,
            _ => 0,
        }
    }

    /// The status line of the response.
    pub fn status_line(self) -> (line: &'static str)
        ensures
            line@ == self.status(),
    {
        match self {
            Route::NotFound => "HTTP/1.1 404 NOT FOUND",
            _ => "HTTP/1.1 200 OK",
        }
    }

    /// The name of the file whose contents are the body of the response.
    pub fn file(self) -> (name: &'static str)
        ensures
            name@ == self.page(),
    {
        match self {
            Route::NotFound => "404.html",
            _ => "hello.html",
        }
    }

    /// The seconds to wait before the response goes out.
    pub fn delay_secs(self) -> (secs: u64)
        ensures
            secs == self.delay(),
    {
        match self {
            Route::Sleep => 5,
            _ => 0,
        }
    }

    /// The response to a request on this route, given the contents of the
    /// file that the route names.
    pub fn respond(self, contents: &str) -> (response: String)
        ensures
            response@ == response_text(self.status(), contents@),
    {
        response(self.status_line(), contents)
    }
}

/// The response that says no more than that all is well.
pub fn basic_response() -> (response: &'static str)
    ensures
        response@ == "HTTP/1.1 200 OK\r\n\r\n"@,
{
    "HTTP/1.1 200 OK\r\n\r\n"
}

/// Frames `contents` as the body of a response with the status line
/// `status_line`.
pub fn response(status_line: &str, contents: &str) -> (response: String)
    ensures
        response@ == response_text(status_line@, contents@),
{
    let length = decimal_string(contents.as_bytes().len());
    String::from_str(status_line).concat("\r\nContent-Length: ").concat(length.as_str()).concat(
        "\r\n\r\n",
    ).concat(contents)
}

} // verus!
