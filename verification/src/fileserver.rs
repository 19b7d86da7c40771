//! The local file server that plays recordings back: which requests it
//! serves, how it reads a `Range` header, what it answers with, and how it
//! cuts the file into the chunks of the body.
//!
//! The sockets and the file reads are the caller's; each decision of the
//! server is a function here.

use std::path::PathBuf;
use vstd::prelude::*;

use crate::text::{
    opt_view,
    chars_of, find_char, first_index_of, lemma_first_index_of, lemma_last_index_of, last_index_of, parse_u64,
    parsed_u64, push_decimal, decimal, rfind_char, slice_of, string_of,
};

verus! {

/// Size of the buffer the body is read into.
pub const BUFFER_SIZE: usize = 8192;

/// The status codes the file server answers with.
#[derive(Debug, Clone, Copy, PartialEq, Eq, Structural)]
pub enum Status {
    Success,
    PartialContent,
    BadRequest,
    Forbidden,
    NotFound,
    InternalServerError,
}

/// The numeric code of a status.
pub open spec fn status_code(s: Status) -> u16 {
    match s {
        Status::Success => 200,
        Status::PartialContent => 206,
        Status::BadRequest => 400,
        Status::Forbidden => 403,
        Status::NotFound => 404,
        Status::InternalServerError => 500,
    }
}

impl Status {
    /// The numeric code of the status.
    pub fn code(&self) -> (r: u16)
        ensures
            r == status_code(*self),
    {
        match self {
            Status::Success => 200,
            Status::PartialContent => 206,
            Status::BadRequest => 400,
            Status::Forbidden => 403,
            Status::NotFound => 404,
            Status::InternalServerError => 500,
        }
    }
}

/// The service that hands each connection a file service for `folder`.
pub struct MakeFileService(pub PathBuf);

impl MakeFileService {
    /// A service serving the files of `folder`.
    pub fn new(folder: PathBuf) -> (r: Self)
        ensures
            r.0 == folder,
    {
        MakeFileService(folder)
    }
}

/// The kinds of files served.
#[derive(Debug, Clone, Copy, PartialEq, Eq, Structural)]
pub enum ContentType {
    /// A recording.
    VideoMp4,
    /// A recording's metadata.
    ApplicationJson,
}

impl ContentType {
    /// The value of the `Content-Type` header.
    pub fn header_value(&self) -> (r: &'static str)
        ensures
            r@ == (match *self {
                ContentType::VideoMp4 => "video/mp4"@,
                ContentType::ApplicationJson => "application/json"@,
            }),
    {
        match self {
            ContentType::VideoMp4 => "video/mp4",
            ContentType::ApplicationJson => "application/json",
        }
    }
}

/// Whether a `Host` header names the local host: the part before its last
/// ':' is "127.0.0.1".
pub open spec fn is_local_host(host: Seq<char>) -> bool {
    let i = last_index_of(host, ':');
    i >= 0 && host.subrange(0, i) == "127.0.0.1"@
}

/// Whether a request with this `Host` header (`None` where it is missing or
/// not readable as text) is served at all.
pub fn is_local_request(host: &Option<String>) -> (r: bool)
    ensures
        r == (match opt_view(host) {
            Some(h) => is_local_host(h),
            None => false,
        }),
{
    match host {
        None => false,
        Some(h) => {
            let cs = chars_of(h.as_str());
            proof {
                lemma_last_index_of(cs@, ':');
            }
            match rfind_char(&cs, ':') {
                None => false,
                Some(i) => {
                    let domain = string_of(&slice_of(&cs, 0, i));
                    let local = String::from_str("127.0.0.1");
                    domain == local
                },
            }
        },
    }
}

/// What percent-decoding a string and reading the bytes as UTF-8 gives:
/// `None` where the decoded bytes are not UTF-8.
pub uninterp spec fn percent_decoded(s: Seq<char>) -> Option<Seq<char>>;

/// `percent_encoding::percent_decode_str(s).decode_utf8()`, with the error
/// mapped to `None`. Its result is taken as `percent_decoded` of the input;
/// a string without '%' comes back unchanged, as the crate's source shows.
#[verifier::external_body]
fn percent_decode_utf8(s: &str) -> (r: Option<String>)
    ensures
        opt_view(&r) == percent_decoded(s@),
        !s@.contains('%') ==> opt_view(&r) == Some(s@),
{
    percent_encoding::percent_decode_str(s).decode_utf8().ok().map(|c| c.into_owned())
}

/// Whether `s` ends with `suffix`.
pub open spec fn ends_with(s: Seq<char>, suffix: Seq<char>) -> bool {
    s.len() >= suffix.len() && s.subrange(s.len() - suffix.len(), s.len() as int) == suffix
}

fn has_suffix(s: &Vec<char>, suffix: &str) -> (r: bool)
    ensures
        r == ends_with(s@, suffix@),
{
    let t = chars_of(suffix);
    if t.len() > s.len() {
        return false;
    }
    let off = s.len() - t.len();
    let mut i: usize = 0;
    while i < t.len()
        invariant
            t@ == suffix@,
            off + t.len() == s.len(),
            i <= t.len(),
            forall|j: int| 0 <= j < i ==> s@[off + j] == t@[j],
        decreases t.len() - i,
    {
        if s[off + i] != t[i] {
            proof {
                let tail = s@.subrange(off as int, s@.len() as int);
                assert(tail[i as int] != t@[i as int]);
                assert(tail != suffix@);
            }
            return false;
        }
        i = i + 1;
    }
    assert(s@.subrange(off as int, s@.len() as int) =~= suffix@);
    true
}

/// A request that is served: the file, relative to the served folder, and
/// its content type.
pub struct Route {
    pub file: String,
    pub content_type: ContentType,
}

/// How a decoded request path is served: a `.mp4` file as a video, a
/// `.json` file as JSON; any other file is forbidden and a path that did not
/// decode is a bad request.
pub open spec fn route_of(decoded: Option<Seq<char>>) -> Result<(Seq<char>, ContentType), Status> {
    match decoded {
        None => Err(Status::BadRequest),
        Some(u) => if ends_with(u, ".mp4"@) {
            Ok((u, ContentType::VideoMp4))
        } else if ends_with(u, ".json"@) {
            Ok((u, ContentType::ApplicationJson))
        } else {
            Err(Status::Forbidden)
        },
    }
}

/// The result of routing as plain values.
pub open spec fn route_view(r: Result<Route, Status>) -> Result<(Seq<char>, ContentType), Status> {
    match r {
        Ok(route) => Ok((route.file@, route.content_type)),
        Err(s) => Err(s),
    }
}

/// Serves a decoded request path (`None` where it did not decode).
pub fn route_decoded(decoded: Option<String>) -> (r: Result<Route, Status>)
    ensures
        route_view(r) == route_of(opt_view(&decoded)),
{
    match decoded {
        None => Err(Status::BadRequest),
        Some(u) => {
            let cs = chars_of(u.as_str());
            if has_suffix(&cs, ".mp4") {
                Ok(Route { file: u, content_type: ContentType::VideoMp4 })
            } else if has_suffix(&cs, ".json") {
                Ok(Route { file: u, content_type: ContentType::ApplicationJson })
            } else {
                Err(Status::Forbidden)
            }
        },
    }
}

/// How a request is served: only requests to the local host, for a `.mp4`
/// or `.json` file; the path of the request loses its leading '/' and is
/// percent-decoded.
pub fn route(host: &Option<String>, uri_path: &str) -> (r: Result<Route, Status>)
    requires
        uri_path@.len() > 0,
        (uri_path@[0] as u32) < 0x80,
    ensures
        !(match opt_view(host) {
            Some(h) => is_local_host(h),
            None => false,
        }) ==> r == Err::<Route, Status>(Status::Forbidden),
        (match opt_view(host) {
            Some(h) => is_local_host(h),
            None => false,
        }) ==> route_view(r) == route_of(percent_decoded(uri_path@.drop_first())),
{
    if !is_local_request(host) {
        return Err(Status::Forbidden);
    }
    let cs = chars_of(uri_path);
    let rest = string_of(&slice_of(&cs, 1, cs.len()));
    assert(rest@ =~= uri_path@.drop_first());
    let decoded = percent_decode_utf8(rest.as_str());
    route_decoded(decoded)
}

/// The byte range a request asks for in a file of `file_size` bytes, read
/// from its `Range` header as the server reads it: the text after the first
/// '=', split at its first '-'; a bound that does not parse as a number
/// falls back to the start or the end of the file; without a usable header
/// the whole file.
pub open spec fn range_bounds(header: Option<Seq<char>>, file_size: u64) -> (u64, u64) {
    match header {
        None => (0, file_size),
        Some(h) => {
            let e = first_index_of(h, '=');
            if e < 0 {
                (0, file_size)
            } else {
                let range = h.subrange(e + 1, h.len() as int);
                let d = first_index_of(range, '-');
                if d < 0 {
                    (0, file_size)
                } else {
                    let start = match parsed_u64(range.subrange(0, d)) {
                        Some(v) => v,
                        None => 0,
                    };
                    let end = match parsed_u64(range.subrange(d + 1, range.len() as int)) {
                        Some(v) => v,
                        None => file_size,
                    };
                    (start, end)
                }
            }
        },
    }
}

/// Reads the `Range` header (`None` where it is missing or not readable as
/// text) of a request for a file of `file_size` bytes.
pub fn parse_range(header: &Option<String>, file_size: u64) -> (r: (u64, u64))
    ensures
        r == range_bounds(opt_view(header), file_size),
{
    match header {
        None => (0, file_size),
        Some(h) => {
            let cs = chars_of(h.as_str());
            proof {
                lemma_first_index_of(cs@, '=');
            }
            let e = match find_char(&cs, '=') {
                None => {
                    return (0, file_size);
                },
                Some(e) => e,
            };
            let range = slice_of(&cs, e + 1, cs.len());
            proof {
                lemma_first_index_of(range@, '-');
            }
            let d = match find_char(&range, '-') {
                None => {
                    return (0, file_size);
                },
                Some(d) => d,
            };
            let start = match parse_u64(&slice_of(&range, 0, d)) {
                Some(v) => v,
                None => 0,
            };
            let end = match parse_u64(&slice_of(&range, d + 1, range.len())) {
                Some(v) => v,
                None => file_size,
            };
            (start, end)
        },
    }
}

/// The text of a `Content-Range` header: "bytes START-END/SIZE".
pub open spec fn content_range_text(start: u64, end: u64, file_size: u64) -> Seq<char> {
    "bytes "@ + decimal(start as nat) + seq!['-'] + decimal(end as nat) + seq!['/'] + decimal(file_size as nat)
}

/// The `Content-Range` header for the bytes `start` to `end` (inclusive) of
/// a file of `file_size` bytes.
pub fn content_range(start: u64, end: u64, file_size: u64) -> (r: String)
    ensures
        r@ == content_range_text(start, end, file_size),
{
    let mut s = String::from_str("bytes ");
    push_decimal(&mut s, start);
    crate::text::push_char(&mut s, '-');
    push_decimal(&mut s, end);
    crate::text::push_char(&mut s, '/');
    push_decimal(&mut s, file_size);
    assert(s@ =~= content_range_text(start, end, file_size));
    s
}

/// What the answer to a served request carries: its status, the length of
/// the body, the `Content-Range` header of a partial answer, and the size of
/// the buffer the body is read with.
pub struct BodyPlan {
    pub status: Status,
    pub content_length: u64,
    pub content_range: Option<String>,
    pub buf_size: usize,
}

/// The answer for the bytes `start` to `end` (exclusive) of a file of
/// `file_size` bytes: partial content unless that is the whole length of
/// the file, with a `Content-Range` naming the last byte; the body is read
/// with a buffer of at most `BUFFER_SIZE` bytes.
pub fn plan_body(start: u64, end: u64, file_size: u64) -> (r: BodyPlan)
    requires
        start <= end,
        end - start != file_size ==> end >= 1,
    ensures
        r.content_length == end - start,
        (r.status == Status::PartialContent) == (end - start != file_size),
        r.status == Status::PartialContent || r.status == Status::Success,
        end - start != file_size ==> (r.content_range matches Some(cr) && cr@ == content_range_text(
            start,
            (end - 1) as u64,
            file_size,
        )),
        end - start == file_size ==> r.content_range is None,
        r.buf_size == if end - start < BUFFER_SIZE { (end - start) as usize } else { BUFFER_SIZE },
{
    let len = end - start;
    let buf_size: usize = if len < 8192 { len as usize } else { BUFFER_SIZE };
    if len != file_size {
        BodyPlan {
            status: Status::PartialContent,
            content_length: len,
            content_range: Some(content_range(start, end - 1, file_size)),
            buf_size,
        }
    } else {
        BodyPlan { status: Status::Success, content_length: len, content_range: None, buf_size }
    }
}

/// What to do with a read of the body: stop, or send `take` bytes of it and
/// go on with `remaining` bytes still to send.
#[derive(Debug, Clone, Copy, PartialEq, Eq, Structural)]
pub enum ChunkStep {
    Finished,
    Send { take: u64, remaining: u64 },
}

/// The step of the body stream after reading `read` bytes while
/// `remaining` bytes are still owed: an empty read ends the body; a read
/// larger than what is owed is cut to it.
pub open spec fn chunk_step_of(remaining: u64, read: u64) -> ChunkStep {
    if read == 0 {
        ChunkStep::Finished
    } else if read > remaining {
        ChunkStep::Send { take: remaining, remaining: 0 }
    } else {
        ChunkStep::Send { take: read, remaining: (remaining - read) as u64 }
    }
}

/// Decides the next chunk of the body after a read of `read` bytes.
pub fn chunk_step(remaining: u64, read: u64) -> (r: ChunkStep)
    ensures
        r == chunk_step_of(remaining, read),
{
    if read == 0 {
        ChunkStep::Finished
    } else if read > remaining {
        ChunkStep::Send { take: remaining, remaining: 0 }
    } else {
        ChunkStep::Send { take: read, remaining: remaining - read }
    }
}

/// The bytes sent for a sequence of reads when `remaining` bytes are owed:
/// the stream stops once nothing is owed or a read is empty.
pub open spec fn bytes_sent(remaining: u64, reads: Seq<u64>) -> int
    decreases reads.len(),
{
    if remaining == 0 || reads.len() == 0 {
        0
    } else {
        match chunk_step_of(remaining, reads[0]) {
            ChunkStep::Finished => 0,
            ChunkStep::Send { take, remaining: rest } => take + bytes_sent(rest, reads.drop_first()),
        }
    }
}

/// However the reads of the file turn out, the body never holds more bytes
/// than its `Content-Length`.
pub proof fn lemma_body_within_length(len: u64, reads: Seq<u64>)
    ensures
        0 <= bytes_sent(len, reads) <= len,
    decreases reads.len(),
{
    if len > 0 && reads.len() > 0 {
        match chunk_step_of(len, reads[0]) {
            ChunkStep::Finished => {},
            ChunkStep::Send { take, remaining } => {
                lemma_body_within_length(remaining, reads.drop_first());
            },
        }
    }
}

/// Where the reads together supply at least the length and none of them
/// comes back empty, the body holds exactly `Content-Length` bytes.
pub proof fn lemma_body_complete(len: u64, reads: Seq<u64>)
    requires
        forall|i: int| 0 <= i < reads.len() ==> reads[i] > 0,
        reads_total(reads) >= len,
    ensures
        bytes_sent(len, reads) == len,
    decreases reads.len(),
{
    if len > 0 && reads.len() > 0 {
        let rest = reads.drop_first();
        assert(reads_total(reads) == reads[0] + reads_total(rest));
        if reads[0] <= len {
            assert forall|i: int| 0 <= i < rest.len() implies rest[i] > 0 by {
                assert(rest[i] == reads[i + 1]);
            }
            lemma_body_complete((len - reads[0]) as u64, rest);
            assert(bytes_sent(len, reads) == reads[0] + bytes_sent((len - reads[0]) as u64, rest));
        } else {
            assert(bytes_sent(0, rest) == 0);
            assert(bytes_sent(len, reads) == len + bytes_sent(0, rest));
        }
    } else if len > 0 {
        assert(reads_total(reads) == 0);
    }
}

/// The summed size of a sequence of reads.
pub open spec fn reads_total(reads: Seq<u64>) -> int
    decreases reads.len(),
{
    if reads.len() == 0 {
        0
    } else {
        reads[0] + reads_total(reads.drop_first())
    }
}

/// A `Range` header "UNIT=START-END" (a unit without '=') asks for the bytes
/// START to END, and "UNIT=START-" for the bytes from START to the end of the
/// file; a missing header, or one without '=', asks for the whole file.
pub proof fn lemma_range_header(unit: Seq<char>, start: u64, end: u64, file_size: u64)
    requires
        forall|i: int| 0 <= i < unit.len() ==> #[trigger] unit[i] != '=',
    ensures
        range_bounds(Some(unit + seq!['='] + decimal(start as nat) + seq!['-'] + decimal(end as nat)), file_size)
            == (start, end),
        range_bounds(Some(unit + seq!['='] + decimal(start as nat) + seq!['-']), file_size) == (start, file_size),
        range_bounds(None, file_size) == (0u64, file_size),
        range_bounds(Some(unit), file_size) == (0u64, file_size),
{
    let a = decimal(start as nat);
    let b = decimal(end as nat);
    crate::text::lemma_decimal_digits(start as nat);
    crate::text::lemma_decimal_digits(end as nat);
    crate::text::lemma_decimal_parses_back(start);
    crate::text::lemma_decimal_parses_back(end);
    let pre = unit + seq!['='];
    let tails: Seq<Seq<char>> = seq![a + seq!['-'] + b, a + seq!['-']];
    assert forall|t: int| 0 <= t < 2 implies {
        let h = pre + #[trigger] tails[t];
        let range = h.subrange(unit.len() + 1int, h.len() as int);
        &&& first_index_of(h, '=') == unit.len()
        &&& range == tails[t]
        &&& first_index_of(range, '-') == a.len()
        &&& range.subrange(0, a.len() as int) == a
        &&& range.subrange(a.len() + 1int, range.len() as int) == if t == 0 { b } else { Seq::<char>::empty() }
    } by {
        let h = pre + tails[t];
        assert forall|i: int| 0 <= i < unit.len() implies #[trigger] h[i] != '=' by {
            assert(h[i] == unit[i]);
        }
        assert(h[unit.len() as int] == '=');
        crate::text::lemma_first_index_at(h, '=', unit.len() as int);
        let range = h.subrange(unit.len() + 1int, h.len() as int);
        assert(range =~= tails[t]);
        assert forall|i: int| 0 <= i < a.len() implies #[trigger] range[i] != '-' by {
            assert(range[i] == a[i]);
            assert(crate::text::is_digit(a[i]));
        }
        assert(range[a.len() as int] == '-');
        crate::text::lemma_first_index_at(range, '-', a.len() as int);
        assert(range.subrange(0, a.len() as int) =~= a);
        if t == 0 {
            assert(range.subrange(a.len() + 1int, range.len() as int) =~= b);
        } else {
            assert(range.subrange(a.len() + 1int, range.len() as int) =~= Seq::<char>::empty());
        }
    }
    assert(pre + tails[0] =~= unit + seq!['='] + a + seq!['-'] + b);
    assert(pre + tails[1] =~= unit + seq!['='] + a + seq!['-']);
    assert(parsed_u64(Seq::<char>::empty()) is None);
    crate::text::lemma_first_index_at(unit, '=', unit.len() as int);
}

/// Which decoded paths are served: a path ending in ".mp4" as a video and
/// one ending in ".json" as JSON, each as the file of that very path; a path
/// with any other ending is forbidden, and one that did not decode is a bad
/// request.
pub proof fn lemma_routes(stem: Seq<char>, u: Seq<char>)
    ensures
        route_of(None) == Err::<(Seq<char>, ContentType), Status>(Status::BadRequest),
        route_of(Some(stem + ".mp4"@)) == Ok::<(Seq<char>, ContentType), Status>((stem + ".mp4"@, ContentType::VideoMp4)),
        route_of(Some(stem + ".json"@)) == Ok::<(Seq<char>, ContentType), Status>(
            (stem + ".json"@, ContentType::ApplicationJson),
        ),
        route_of(Some(u)) matches Ok((f, _)) ==> f == u,
        !ends_with(u, ".mp4"@) && !ends_with(u, ".json"@)
            ==> route_of(Some(u)) == Err::<(Seq<char>, ContentType), Status>(Status::Forbidden),
{
    reveal_strlit(".mp4");
    reveal_strlit(".json");
    let v = stem + ".mp4"@;
    assert(v.subrange(v.len() - 4, v.len() as int) =~= ".mp4"@);
    let j = stem + ".json"@;
    assert(j.subrange(j.len() - 5, j.len() as int) =~= ".json"@);
    assert(".json"@[4] != ".mp4"@[3]);
    if ends_with(j, ".mp4"@) {
        assert(j[j.len() - 1] == ".mp4"@[3]);
    }
}

/// A request is served only where its `Host` header names the local host:
/// "127.0.0.1" followed by ':' and a port without ':' is local, and a host
/// without any ':' is not.
pub proof fn lemma_local_host(port: Seq<char>, host: Seq<char>)
    ensures
        (forall|i: int| 0 <= i < port.len() ==> #[trigger] port[i] != ':')
            ==> is_local_host("127.0.0.1"@ + seq![':'] + port),
        (forall|i: int| 0 <= i < host.len() ==> #[trigger] host[i] != ':') ==> !is_local_host(host),
{
    if forall|i: int| 0 <= i < port.len() ==> #[trigger] port[i] != ':' {
        reveal_strlit("127.0.0.1");
        let h = "127.0.0.1"@ + seq![':'] + port;
        let k = "127.0.0.1"@.len() as int;
        lemma_last_index_of(h, ':');
        let l = last_index_of(h, ':');
        assert(h[k] == ':');
        if l > k {
            assert(h[l] == port[l - k - 1]);
        }
        assert(h.subrange(0, k) =~= "127.0.0.1"@);
    }
    lemma_last_index_of(host, ':');
    if last_index_of(host, ':') >= 0 {
        assert(host[last_index_of(host, ':')] == ':');
    }
}

} // verus!
