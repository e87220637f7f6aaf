//! Stream status as reported to the user interface.
use vstd::prelude::*;

use crate::capture::{hls_path_for, stream_hls_path};
use crate::db::DbStream;
use crate::text::{copy_string, dec_digits, push_u64, str_equal};

verus! {

/// The status of one stream, with the full URL of its playlist.
#[derive(Debug, Clone)]
pub struct StreamStatus {
    pub id: String,
    pub title: String,
    pub status: String,
    pub hls_path: String,
}

/// All streams and how many of them are running.
#[derive(Debug, Clone)]
pub struct StatusResponse {
    pub streams: Vec<StreamStatus>,
    pub active: usize,
}

/// An audio device: its name and whether it is a `loopback` of the system
/// output or an `input`.
#[derive(Debug, Clone)]
pub struct AudioDeviceInfo {
    pub name: String,
    pub device_type: String,
}

/// The view of a stream status as (id, title, status, URL).
pub open spec fn status_view(s: StreamStatus) -> (Seq<char>, Seq<char>, Seq<char>, Seq<char>) {
    (s.id@, s.title@, s.status@, s.hls_path@)
}

/// The status reported for a stored stream: its playlist URL on the local
/// HLS server at `port`.
pub open spec fn reported_status(s: DbStream, port: u16) -> (Seq<char>, Seq<char>, Seq<char>, Seq<char>) {
    (s.id@, s.title@, s.status@, "http://localhost:"@ + dec_digits(port as nat) + s.hls_path@)
}

/// How many of the streams have the status `running`.
pub open spec fn running_count(streams: Seq<DbStream>) -> nat
    decreases streams.len(),
{
    if streams.len() == 0 {
        0
    } else {
        running_count(streams.drop_last()) + (if streams.last().status@ == "running"@ {
            1nat
        } else {
            0nat
        })
    }
}

/// The status of all stored streams, in their stored order, served by the
/// local HLS server at `port`; `active` counts the running ones.
pub fn build_status_response(streams: &Vec<DbStream>, port: u16) -> (r: StatusResponse)
    ensures
        r.streams@.len() == streams@.len(),
        forall|i: int|
            0 <= i < streams@.len() ==> #[trigger] status_view(r.streams@[i]) == reported_status(
                streams@[i],
                port,
            ),
        r.active == running_count(streams@),
{
    let mut out: Vec<StreamStatus> = Vec::new();
    let mut active: usize = 0;
    let n = streams.len();
    for i in 0..n
        invariant
            n == streams@.len(),
            out@.len() == i,
            forall|j: int|
                0 <= j < i ==> #[trigger] status_view(out@[j]) == reported_status(streams@[j], port),
            active == running_count(streams@.take(i as int)),
            active <= i,
    {
        let s = &streams[i];
        let mut url = String::from_str("http://localhost:");
        push_u64(&mut url, port as u64);
        url.append(s.hls_path.as_str());
        out.push(
            StreamStatus {
                id: copy_string(&s.id),
                title: copy_string(&s.title),
                status: copy_string(&s.status),
                hls_path: url,
            },
        );
        assert(streams@.take(i + 1).drop_last() =~= streams@.take(i as int));
        if str_equal(s.status.as_str(), "running") {
            active = active + 1;
        }
    }
    assert(streams@.take(n as int) =~= streams@);
    StatusResponse { streams: out, active }
}

/// The number of running streams never exceeds the number of streams.
pub proof fn law_active_at_most_streams(streams: Seq<DbStream>)
    ensures
        running_count(streams) <= streams.len(),
    decreases streams.len(),
{
    if streams.len() > 0 {
        law_active_at_most_streams(streams.drop_last());
    }
}

/// The view of a stored stream as (id, title, status, path, created, type, url).
pub open spec fn stream_view(s: DbStream) -> (
    Seq<char>,
    Seq<char>,
    Seq<char>,
    Seq<char>,
    Seq<char>,
    Seq<char>,
    Option<Seq<char>>,
) {
    (
        s.id@,
        s.title@,
        s.status@,
        s.hls_path@,
        s.created_at@,
        s.source_type@,
        s.source_url.deep_view(),
    )
}

/// The first stored stream with identifier `id`, or the message
/// `Stream not found`.
pub fn find_stream(streams: &Vec<DbStream>, id: &str) -> (r: Result<DbStream, String>)
    ensures
        match r {
            Ok(s) => exists|i: int|
                0 <= i < streams@.len() && streams@[i].id@ == id@ && stream_view(s) == stream_view(
                    streams@[i],
                ) && forall|j: int| 0 <= j < i ==> #[trigger] streams@[j].id@ != id@,
            Err(m) => m@ == "Stream not found"@ && forall|j: int|
                0 <= j < streams@.len() ==> #[trigger] streams@[j].id@ != id@,
        },
{
    let n = streams.len();
    for i in 0..n
        invariant
            n == streams@.len(),
            forall|j: int| 0 <= j < i ==> #[trigger] streams@[j].id@ != id@,
    {
        if str_equal(streams[i].id.as_str(), id) {
            let s = &streams[i];
            return Ok(
                DbStream {
                    id: copy_string(&s.id),
                    title: copy_string(&s.title),
                    status: copy_string(&s.status),
                    hls_path: copy_string(&s.hls_path),
                    created_at: copy_string(&s.created_at),
                    source_type: copy_string(&s.source_type),
                    source_url: match &s.source_url {
                        Some(u) => Some(copy_string(u)),
                        None => None,
                    },
                },
            );
        }
    }
    Err(String::from_str("Stream not found"))
}

/// The record of a stream that has just started: running, served under the
/// playlist path of its sanitized identifier.
pub fn new_running_stream(
    id: &str,
    title: &str,
    created_at: &str,
    source_type: &str,
    source_url: Option<String>,
) -> (r: DbStream)
    ensures
        stream_view(r) == (
            id@,
            title@,
            "running"@,
            stream_hls_path(id@),
            created_at@,
            source_type@,
            source_url.deep_view(),
        ),
{
    DbStream {
        id: String::from_str(id),
        title: String::from_str(title),
        status: String::from_str("running"),
        hls_path: hls_path_for(id),
        created_at: String::from_str(created_at),
        source_type: String::from_str(source_type),
        source_url,
    }
}


/// A stream that has just started is reported as running, at the URL
/// `http://localhost:<port>/streams/<id>/<id>.m3u8` of its sanitized
/// identifier.
pub proof fn law_new_stream_reported_url(s: DbStream, id: Seq<char>, port: u16)
    requires
        s.id@ == id,
        s.status@ == "running"@,
        s.hls_path@ == stream_hls_path(id),
    ensures
        reported_status(s, port).2 == "running"@,
        reported_status(s, port).3 == "http://localhost:"@ + dec_digits(port as nat) + "/streams/"@
            + crate::capture::sanitized(id) + "/"@ + crate::capture::sanitized(id) + ".m3u8"@,
{
    assert(reported_status(s, port).3 =~= "http://localhost:"@ + dec_digits(port as nat)
        + "/streams/"@ + crate::capture::sanitized(id) + "/"@ + crate::capture::sanitized(id)
        + ".m3u8"@);
}

} // verus!
