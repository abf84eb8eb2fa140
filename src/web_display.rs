use vstd::prelude::*;
use vstd::utf8::encode_utf8;
use crate::config::string_views;
use crate::number::{decimal_chars, digits_value, parse_u64, parses_as_u64, push_decimal_text, unsigned_part};
use crate::mpris_mediaplayer2::Track;
use crate::nowplaying::{Mailbox, NowplayingData, drained};

verus! {

/// Why a configured port was refused.
#[derive(Debug, Clone, Copy, PartialEq, Eq, Structural)]
pub enum PortError {
    /// The text is not a decimal number that fits in 64 bits.
    NotANumber,
    /// The number is neither 80 nor within 1024..=65535.
    OutOfRange,
}

/// The ports the responder accepts.
pub open spec fn port_accepted(v: int) -> bool {
    (1024 <= v && v <= 65535) || v == 80
}

/// The outcome of validating a configured port.
pub open spec fn port_check(s: Seq<char>) -> Result<u64, PortError> {
    if !parses_as_u64(s) {
        Err(PortError::NotANumber)
    } else if !port_accepted(digits_value(unsigned_part(s))) {
        Err(PortError::OutOfRange)
    } else {
        Ok(digits_value(unsigned_part(s)) as u64)
    }
}

/// Validates the text of a port number.
pub fn check_port(port: &str) -> (r: Result<u64, PortError>)
    ensures
        r == port_check(port@),
{
    match parse_u64(port) {
        None => Err(PortError::NotANumber),
        Some(value) => {
            if (value >= 1024 && value <= 65535) || value == 80 {
                Ok(value)
            } else {
                Err(PortError::OutOfRange)
            }
        },
    }
}

/// The abstract settings of the responder.
pub struct WebDisplayState {
    pub port: Seq<char>,
    pub files: Seq<Seq<char>>,
    pub public: bool,
}

/// The HTTP responder's settings: its port and the whitelist of static paths.
pub struct WebDisplay {
    port: String,
    files: Vec<String>,
    public: bool,
}

impl View for WebDisplay {
    type V = WebDisplayState;

    closed spec fn view(&self) -> WebDisplayState {
        WebDisplayState { port: self.port@, files: string_views(self.files@), public: self.public }
    }
}

/// The request line that asks for `path`.
pub open spec fn get_line(path: Seq<char>) -> Seq<char> {
    "GET "@ + path + " HTTP/1.1"@
}

/// Whether `line` asks for one of the whitelisted static paths.
pub open spec fn is_whitelisted(files: Seq<Seq<char>>, line: Seq<char>) -> bool {
    exists|i: int| 0 <= i < files.len() && get_line(#[trigger] files[i]) == line
}

/// The request line of the now-playing endpoint.
pub open spec fn nowplaying_line() -> Seq<char> {
    "GET /nowplaying HTTP/1.1"@
}

/// The title shown by the endpoint: the title, followed by ` [album]` when
/// the album is non-empty.
pub open spec fn shown_title(t: Track) -> Seq<char> {
    if t.album.len() > 0 { t.title + " ["@ + t.album + "]"@ } else { t.title }
}

/// The body of the now-playing endpoint.
pub open spec fn nowplaying_json_spec(t: Track) -> Seq<char> {
    "{\"nowplaying\":{\"title\":\""@ + shown_title(t) + "\",\"artist\":\""@ + t.artist + "\"}}"@
}

/// The status of a response.
#[derive(Debug, Clone, Copy, PartialEq, Eq, Structural)]
pub enum HttpStatus {
    Success,
    NotFound,
    Forbidden,
}

pub open spec fn status_line_of(s: HttpStatus) -> Seq<char> {
    match s {
        HttpStatus::Success => "HTTP/1.1 200 OK"@,
        HttpStatus::NotFound => "HTTP/1.1 404 NOT FOUND"@,
        HttpStatus::Forbidden => "HTTP/1.1 403 FORBIDDEN"@,
    }
}

/// The bytes of a response: status line, `Content-Length`, a blank line, the body.
pub open spec fn response_bytes(status: HttpStatus, body: Seq<u8>) -> Seq<u8> {
    encode_utf8(status_line_of(status) + "\r\nContent-Length: "@ + decimal_chars(body.len()) + "\r\n\r\n"@) + body
}

/// A response to one request.
pub struct HttpResponse {
    pub status: HttpStatus,
    pub body: Vec<u8>,
}

impl HttpResponse {
    /// The bytes written back on the connection.
    pub fn to_bytes(&self) -> (r: Vec<u8>)
        ensures
            r@ == response_bytes(self.status, self.body@),
    {
        let mut head = String::from_str(match self.status {
            HttpStatus::Success => "HTTP/1.1 200 OK",
            HttpStatus::NotFound => "HTTP/1.1 404 NOT FOUND",
            HttpStatus::Forbidden => "HTTP/1.1 403 FORBIDDEN",
        });
        head.append("\r\nContent-Length: ");
        push_decimal_text(&mut head, self.body.len() as u64);
        head.append("\r\n\r\n");
        let mut out = head.as_str().as_bytes_vec();
        let mut i: usize = 0;
        let ghost head = out@;
        while i < self.body.len()
            invariant
                i <= self.body@.len(),
                out@ == head + self.body@.subrange(0, i as int),
            decreases self.body@.len() - i,
        {
            out.push(self.body[i]);
            i = i + 1;
            proof {
                assert(out@ =~= head + self.body@.subrange(0, i as int));
            }
        }
        proof {
            assert(self.body@.subrange(0, i as int) =~= self.body@);
            assert(out@ =~= response_bytes(self.status, self.body@));
        }
        out
    }
}

/// Builds the now-playing body for a snapshot.
pub fn nowplaying_json(data: &NowplayingData) -> (r: String)
    ensures
        r@ == nowplaying_json_spec(data@),
{
    let mut s = String::from_str("{\"nowplaying\":{\"title\":\"");
    s.append(data.current_title.as_str());
    if !data.current_album.as_str().is_empty() {
        s.append(" [");
        s.append(data.current_album.as_str());
        s.append("]");
    }
    s.append("\",\"artist\":\"");
    s.append(data.current_artist.as_str());
    s.append("\"}}");
    s
}

/// What the responder does with one connection.
pub enum RequestAction {
    /// The request line was unreadable: close without answering.
    Drop,
    /// Write this response.
    Respond(HttpResponse),
    /// Read this whitelisted static file, then answer with `file_response`.
    ReadFile(String),
}

/// The response for a static file that was read (`Some`) or is missing (`None`).
pub fn file_response(content: Option<Vec<u8>>) -> (r: HttpResponse)
    ensures
        content matches Some(c) ==> r.status == HttpStatus::Success && r.body@ == c@,
        content is None ==> r.status == HttpStatus::NotFound && r.body@.len() == 0,
{
    match content {
        Some(c) => HttpResponse { status: HttpStatus::Success, body: c },
        None => HttpResponse { status: HttpStatus::NotFound, body: Vec::new() },
    }
}

impl WebDisplay {
    /// A responder on `port` serving the static paths `files`. The port must
    /// be the text of 80 or of a number within 1024..=65535.
    pub fn new(port: String, files: Vec<String>, public: bool) -> (r: Result<WebDisplay, PortError>)
        ensures
            port_check(port@) is Err ==> r == Err::<WebDisplay, PortError>(port_check(port@)->Err_0),
            port_check(port@) is Ok ==> (r matches Ok(w) && w@ == (WebDisplayState {
                port: port@,
                files: string_views(files@),
                public,
            })),
    {
        match check_port(port.as_str()) {
            Err(e) => Err(e),
            Ok(_) => Ok(WebDisplay { port, files, public }),
        }
    }

    /// The address the responder listens on: loopback only, on its port.
    pub fn bind_address(&self) -> (r: String)
        ensures
            r@ == "127.0.0.1:"@ + self@.port,
    {
        let mut s = String::from_str("127.0.0.1:");
        s.append(self.port.as_str());
        s
    }

    /// The cached snapshot after a read of the mailbox: the newest one sent,
    /// or `current_data` when nothing new was sent.
    pub fn get_nowplaying_data(rx: &mut Mailbox, current_data: NowplayingData) -> (r: NowplayingData)
        ensures
            r@ == drained(old(rx)@, current_data@),
            final(rx)@ == None::<Track>,
    {
        rx.drain_latest(current_data)
    }

    /// Whether `request` asks for the static path `files[i]` for some `i`;
    /// if so, returns that path.
    fn whitelisted(&self, request: &String) -> (r: Option<String>)
        ensures
            r matches Some(p) ==> get_line(p@) == request@ && self@.files.contains(p@),
            r is None ==> !is_whitelisted(self@.files, request@),
    {
        let mut found: Option<String> = None;
        let mut i: usize = 0;
        while i < self.files.len()
            invariant
                i <= self.files@.len(),
                found matches Some(p) ==> get_line(p@) == request@ && self@.files.contains(p@),
                found is None ==> forall|j: int| 0 <= j < i ==> get_line(#[trigger] self@.files[j]) != request@,
            decreases self.files@.len() - i,
        {
            let mut line = String::from_str("GET ");
            line.append(self.files[i].as_str());
            line.append(" HTTP/1.1");
            if line == *request {
                assert(self@.files[i as int] == self.files@[i as int]@);
                found = Some(self.files[i].clone());
            }
            i = i + 1;
        }
        found
    }

    /// Decides what to do with a connection whose first line is `request`
    /// (`None` when it could not be read), given the mailbox and the
    /// snapshot cached so far. Returns the action and the snapshot to cache.
    pub fn handle_http_request(&self, request: Option<String>, rx: &mut Mailbox, old_data: NowplayingData)
        -> (r: (RequestAction, NowplayingData))
        ensures
            request is None ==> r.0 is Drop && r.1@ == old_data@ && final(rx)@ == old(rx)@,
            request is Some && request->Some_0@ == nowplaying_line() ==> {
                &&& r.1@ == drained(old(rx)@, old_data@)
                &&& final(rx)@ == None::<Track>
                &&& r.0 matches RequestAction::Respond(resp)
                &&& resp.status == HttpStatus::Success
                &&& resp.body@ == encode_utf8(nowplaying_json_spec(r.1@))
            },
            request is Some && request->Some_0@ != nowplaying_line() ==> {
                &&& r.1@ == old_data@
                &&& final(rx)@ == old(rx)@
                &&& is_whitelisted(self@.files, request->Some_0@) ==> (r.0 matches RequestAction::ReadFile(p)
                    && get_line(p@) == request->Some_0@ && self@.files.contains(p@))
                &&& !is_whitelisted(self@.files, request->Some_0@) ==> (r.0 matches RequestAction::Respond(resp)
                    && resp.status == HttpStatus::Forbidden && resp.body@.len() == 0)
            },
    {
        match request {
            None => (RequestAction::Drop, old_data),
            Some(line) => {
                let endpoint = String::from_str("GET /nowplaying HTTP/1.1");
                if line == endpoint {
                    let current = WebDisplay::get_nowplaying_data(rx, old_data);
                    let json = nowplaying_json(&current);
                    let body = json.as_str().as_bytes_vec();
                    (RequestAction::Respond(HttpResponse { status: HttpStatus::Success, body }), current)
                } else {
                    match self.whitelisted(&line) {
                        Some(p) => (RequestAction::ReadFile(p), old_data),
                        None => (
                            RequestAction::Respond(HttpResponse { status: HttpStatus::Forbidden, body: Vec::new() }),
                            old_data,
                        ),
                    }
                }
            },
        }
    }
}

/// Where the static file for the whitelisted `path` lies: the `web_display`
/// directory inside `work_directory`.
pub fn static_file_path(work_directory: &str, path: &str) -> (r: String)
    ensures
        r@ == work_directory@ + "web_display"@ + path@,
{
    let mut s = String::from_str(work_directory);
    s.append("web_display");
    s.append(path);
    s
}

} // verus!
