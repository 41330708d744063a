//! The book-keeping of running captures: which streams are capturing, in
//! what state, and the decisions of a persistent capture task.
use vstd::prelude::*;

use crate::error::Error;
use crate::text::{join3, join_str, str_is, string_of};
use crate::web::json::{get_str, get_u64, JsonValue};
use crate::web::streams::StoredStream;

verus! {

/// State of a running capture.
#[derive(Debug)]
pub enum CaptureStatus {
    Starting,
    Active,
    Stopping,
    Inactive,
    Error(String),
}

/// The name of a capture state.
pub open spec fn capture_status_name(s: CaptureStatus) -> Seq<char> {
    match s {
        CaptureStatus::Starting => "starting"@,
        CaptureStatus::Active => "active"@,
        CaptureStatus::Stopping => "stopping"@,
        CaptureStatus::Inactive => "inactive"@,
        CaptureStatus::Error(_) => "error"@,
    }
}

impl CaptureStatus {
    /// The state's name in lower case.
    pub fn as_str(&self) -> (r: &'static str)
        ensures
            r@ == capture_status_name(*self),
    {
        match self {
            CaptureStatus::Starting => "starting",
            CaptureStatus::Active => "active",
            CaptureStatus::Stopping => "stopping",
            CaptureStatus::Inactive => "inactive",
            CaptureStatus::Error(_) => "error",
        }
    }
}

/// A running capture.
#[derive(Debug)]
pub struct CaptureInfo {
    pub stream_id: String,
    pub status: CaptureStatus,
    /// When the capture started, in milliseconds since the Unix epoch.
    pub started_at: Option<i64>,
    /// When the last frame arrived, in milliseconds since the Unix epoch.
    pub last_frame_at: Option<i64>,
}

/// The streams of a list of captures, in order.
pub open spec fn ids_of(captures: Seq<CaptureInfo>) -> Seq<Seq<char>> {
    captures.map_values(|c: CaptureInfo| c.stream_id@)
}

/// The captures of the streams that are running, one per stream.
#[derive(Debug)]
pub struct CaptureManager {
    running_captures: Vec<CaptureInfo>,
}

impl CaptureManager {
    /// The running captures, in the order they started.
    pub closed spec fn captures(&self) -> Seq<CaptureInfo> {
        self.running_captures@
    }

    /// The streams that are capturing.
    pub open spec fn running(&self) -> Seq<Seq<char>> {
        ids_of(self.captures())
    }

    /// No stream has two captures.
    pub open spec fn wf(&self) -> bool {
        self.running().no_duplicates()
    }

    /// No capture is running.
    pub fn new() -> (r: Self)
        ensures
            r.wf(),
            r.captures().len() == 0,
    {
        let r = CaptureManager { running_captures: Vec::new() };
        assert(r.running() =~= Seq::<Seq<char>>::empty());
        r
    }

    fn position(&self, stream_id: &str) -> (r: Option<usize>)
        ensures
            match r {
                Some(i) => i < self.running().len() && self.running()[i as int] == stream_id@,
                None => !self.running().contains(stream_id@),
            },
    {
        let mut i: usize = 0;
        while i < self.running_captures.len()
            invariant
                i <= self.running_captures@.len(),
                forall|k: int| 0 <= k < i ==> self.running_captures@[k].stream_id@ != stream_id@,
            decreases self.running_captures@.len() - i,
        {
            if str_is(self.running_captures[i].stream_id.as_str(), stream_id) {
                return Some(i);
            }
            i += 1;
        }
        proof {
            if self.running().contains(stream_id@) {
                let k = self.running().index_of(stream_id@);
                assert(self.running()[k] == self.running_captures@[k].stream_id@);
            }
        }
        None
    }

    /// Whether a stream is capturing.
    pub fn is_stream_running(&self, stream_id: &str) -> (r: bool)
        ensures
            r == self.running().contains(stream_id@),
    {
        self.position(stream_id).is_some()
    }

    /// The capture of a stream, if it is running.
    pub fn get_capture_status(&self, stream_id: &str) -> (r: Option<&CaptureInfo>)
        ensures
            match r {
                Some(c) => c.stream_id@ == stream_id@ && self.captures().contains(*c),
                None => !self.running().contains(stream_id@),
            },
    {
        match self.position(stream_id) {
            Some(i) => Some(&self.running_captures[i]),
            None => None,
        }
    }

    /// All running captures.
    pub fn get_all_captures(&self) -> (r: &Vec<CaptureInfo>)
        ensures
            r@ == self.captures(),
    {
        &self.running_captures
    }

    /// Registers the start of a capture of `stream` (what the store holds
    /// under `stream_id`, `None` when nothing) at time `now`: a stream that
    /// does not exist is not found, and one that is capturing already is
    /// refused.  Otherwise the stream is capturing, in state `Starting`,
    /// and no other capture changes.
    pub fn start_stream(&mut self, stream_id: &str, stream: Option<&StoredStream>, now: i64) -> (r:
        Result<(), Error>)
        requires
            old(self).wf(),
        ensures
            final(self).wf(),
            match r {
                Ok(()) => {
                    &&& stream is Some
                    &&& !old(self).running().contains(stream_id@)
                    &&& final(self).captures().len() == old(self).captures().len() + 1
                    &&& final(self).captures().drop_last() == old(self).captures()
                    &&& final(self).captures().last().stream_id@ == stream_id@
                    &&& final(self).captures().last().status is Starting
                    &&& final(self).captures().last().started_at == Some(now)
                    &&& final(self).captures().last().last_frame_at is None
                },
                Err(e) => final(self).captures() == old(self).captures() && if stream is None {
                    e is NotFound && e.spec_detail() == "Stream "@ + stream_id@ + " not found"@
                } else {
                    old(self).running().contains(stream_id@) && e is Config && e.spec_detail()
                        == "Stream capture already running"@
                },
            },
    {
        if stream.is_none() {
            return Err(Error::NotFound(join3("Stream ", stream_id, " not found")));
        }
        if self.is_stream_running(stream_id) {
            return Err(Error::Config(string_of("Stream capture already running")));
        }
        let ghost before = self.running_captures@;
        self.running_captures.push(
            CaptureInfo {
                stream_id: string_of(stream_id),
                status: CaptureStatus::Starting,
                started_at: Some(now),
                last_frame_at: None,
            },
        );
        proof {
            assert(self.running_captures@.drop_last() =~= before);
            assert(ids_of(self.running_captures@) =~= ids_of(before).push(stream_id@));
            assert forall|a: int, b: int|
                0 <= a < b < ids_of(self.running_captures@).len() implies ids_of(
                self.running_captures@,
            )[a] != ids_of(self.running_captures@)[b] by {
                if b == ids_of(before).len() {
                    assert(ids_of(before)[a] != stream_id@) by {
                        assert(ids_of(before).contains(ids_of(before)[a]));
                    }
                }
            }
        }
        Ok(())
    }

    /// Removes the capture of a stream, giving it back; a stream that is
    /// not capturing is not found.  The other captures stay, in order.
    pub fn stop_stream(&mut self, stream_id: &str) -> (r: Result<CaptureInfo, Error>)
        requires
            old(self).wf(),
        ensures
            final(self).wf(),
            !final(self).running().contains(stream_id@),
            match r {
                Ok(c) => old(self).running().contains(stream_id@) && c.stream_id@ == stream_id@
                    && exists|i: int|
                    0 <= i < old(self).captures().len() && old(self).captures()[i] == c
                        && final(self).captures() == old(self).captures().remove(i),
                Err(e) => !old(self).running().contains(stream_id@) && final(self).captures()
                    == old(self).captures() && e is NotFound && e.spec_detail()
                    == "Stream capture not running"@,
            },
    {
        match self.position(stream_id) {
            None => Err(Error::NotFound(string_of("Stream capture not running"))),
            Some(i) => {
                let ghost before = self.running_captures@;
                let c = self.running_captures.remove(i);
                proof {
                    assert(ids_of(self.running_captures@) =~= ids_of(before).remove(i as int));
                    assert forall|a: int, b: int|
                        0 <= a < b < ids_of(self.running_captures@).len() implies ids_of(
                        self.running_captures@,
                    )[a] != ids_of(self.running_captures@)[b] by {
                        let a0 = if a < i {
                            a
                        } else {
                            a + 1
                        };
                        let b0 = if b < i {
                            b
                        } else {
                            b + 1
                        };
                        assert(ids_of(self.running_captures@)[a] == ids_of(before)[a0]);
                        assert(ids_of(self.running_captures@)[b] == ids_of(before)[b0]);
                    }
                    if ids_of(self.running_captures@).contains(stream_id@) {
                        let k = ids_of(self.running_captures@).index_of(stream_id@);
                        let k0 = if k < i {
                            k
                        } else {
                            k + 1
                        };
                        assert(ids_of(before)[k0] == stream_id@);
                        assert(ids_of(before)[i as int] == stream_id@);
                    }
                }
                Ok(c)
            },
        }
    }
}

/// Once a stream's capture is registered it is running, and once it is
/// stopped it is not: `start_stream` and `stop_stream` undo each other on
/// the set of running streams.
pub proof fn start_then_stop_restores(before: Seq<CaptureInfo>, started: Seq<CaptureInfo>, stopped: Seq<CaptureInfo>, id: Seq<char>, i: int)
    requires
        ids_of(before).no_duplicates(),
        !ids_of(before).contains(id),
        started.drop_last() == before,
        started.len() == before.len() + 1,
        started.last().stream_id@ == id,
        0 <= i < started.len(),
        started[i].stream_id@ == id,
        stopped == started.remove(i),
    ensures
        stopped == before,
{
    assert(i == before.len()) by {
        if i < before.len() {
            assert(started[i] == before[i]);
            assert(ids_of(before)[i] == id);
        }
    }
    assert(stopped =~= before);
}

// ---------------------------------------------------------------------------
// The persistent capture task
// ---------------------------------------------------------------------------

/// The kind of capture a stream runs.
#[derive(Debug, Clone, Copy, PartialEq, Eq, Structural)]
pub enum CaptureKind {
    File,
    Rtsp,
    Ffmpeg,
    Website,
    Yt,
}

/// The capture kind a `kind` tag names.
pub open spec fn capture_kind_named(kind: Seq<char>) -> Option<CaptureKind> {
    if kind == "file"@ {
        Some(CaptureKind::File)
    } else if kind == "rtsp"@ {
        Some(CaptureKind::Rtsp)
    } else if kind == "ffmpeg"@ {
        Some(CaptureKind::Ffmpeg)
    } else if kind == "website"@ {
        Some(CaptureKind::Website)
    } else if kind == "yt"@ {
        Some(CaptureKind::Yt)
    } else {
        None
    }
}

/// The `kind` tag of a stored configuration (parsed as JSON, or the parser's
/// message when it does not parse).
pub fn config_kind(config: &Result<JsonValue, String>) -> (r: Result<String, Error>)
    ensures
        match config {
            Err(m) => r matches Err(e) && e is Config && e.spec_detail()
                == "Invalid stream config JSON: "@ + m@,
            Ok(c) => match get_str(*c, "kind"@) {
                Some(k) => r matches Ok(s) && s@ == k,
                None => r matches Err(e) && e is Config && e.spec_detail()
                    == "Stream config missing 'kind' field"@,
            },
        },
{
    match config {
        Err(m) => Err(Error::Config(join_str("Invalid stream config JSON: ", m.as_str()))),
        Ok(c) => match c.get("kind") {
            Some(v) => match v.as_str() {
                Some(k) => Ok(string_of(k)),
                None => Err(Error::Config(string_of("Stream config missing 'kind' field"))),
            },
            None => Err(Error::Config(string_of("Stream config missing 'kind' field"))),
        },
    }
}

/// The capture kind a tag names; other tags are unsupported.
pub fn capture_kind(kind: &str) -> (r: Result<CaptureKind, Error>)
    ensures
        match capture_kind_named(kind@) {
            Some(k) => r == Ok::<CaptureKind, Error>(k),
            None => r matches Err(e) && e is Config && e.spec_detail()
                == "Unsupported stream kind: "@ + kind@,
        },
{
    if str_is(kind, "file") {
        Ok(CaptureKind::File)
    } else if str_is(kind, "rtsp") {
        Ok(CaptureKind::Rtsp)
    } else if str_is(kind, "ffmpeg") {
        Ok(CaptureKind::Ffmpeg)
    } else if str_is(kind, "website") {
        Ok(CaptureKind::Website)
    } else if str_is(kind, "yt") {
        Ok(CaptureKind::Yt)
    } else {
        Err(Error::Config(join_str("Unsupported stream kind: ", kind)))
    }
}

/// How often a persistent capture takes a frame and how long it runs, in
/// seconds (a duration of zero runs until stopped).
#[derive(Debug, Clone, Copy, PartialEq, Eq, Structural)]
pub struct CaptureTiming {
    pub snapshot_interval_secs: u64,
    pub duration_secs: u64,
}

/// The timing a configuration asks for: `snapshot_interval` (5 when
/// absent) and `duration` (an hour when absent).
pub fn capture_timing(config: &JsonValue) -> (r: CaptureTiming)
    ensures
        r.snapshot_interval_secs == match get_u64(*config, "snapshot_interval"@) {
            Some(n) => n,
            None => 5,
        },
        r.duration_secs == match get_u64(*config, "duration"@) {
            Some(n) => n,
            None => 3600,
        },
{
    let interval = match config.get("snapshot_interval") {
        Some(v) => match v.as_u64() {
            Some(n) => n,
            None => 5,
        },
        None => 5,
    };
    let duration = match config.get("duration") {
        Some(v) => match v.as_u64() {
            Some(n) => n,
            None => 3600,
        },
        None => 3600,
    };
    CaptureTiming { snapshot_interval_secs: interval, duration_secs: duration }
}

impl CaptureTiming {
    /// When a capture started at `start_ms` must end, in milliseconds; none
    /// for a duration of zero.
    pub fn end_time(&self, start_ms: u64) -> (r: Option<u64>)
        ensures
            self.duration_secs == 0 ==> r is None,
            self.duration_secs > 0 ==> r == Some(
                if start_ms + self.duration_secs * 1000 > u64::MAX {
                    u64::MAX
                } else {
                    (start_ms + self.duration_secs * 1000) as u64
                },
            ),
    {
        if self.duration_secs == 0 {
            None
        } else {
            if self.duration_secs > (u64::MAX - start_ms) / 1000 {
                assert(start_ms + self.duration_secs * 1000 > u64::MAX) by (nonlinear_arith)
                    requires
                        self.duration_secs > (u64::MAX - start_ms) / 1000,
                        start_ms <= u64::MAX,
                ;
                Some(u64::MAX)
            } else {
                assert(start_ms + self.duration_secs * 1000 <= u64::MAX) by (nonlinear_arith)
                    requires
                        self.duration_secs <= (u64::MAX - start_ms) / 1000,
                        start_ms <= u64::MAX,
                ;
                Some(start_ms + self.duration_secs * 1000)
            }
        }
    }

    /// Whether a capture goes on at time `now_ms`: until its end time, if
    /// it has one.
    pub fn keep_capturing(end_ms: Option<u64>, now_ms: u64) -> (r: bool)
        ensures
            r == match end_ms {
                Some(e) => now_ms < e,
                None => true,
            },
    {
        match end_ms {
            Some(e) => now_ms < e,
            None => true,
        }
    }
}

/// The state a stream is left in when its capture task ends: `inactive`
/// after a normal end, `error` with `Capture failed: <detail>` after a
/// failure.
pub fn completion_status(outcome: &Result<(), Error>) -> (r: (&'static str, Option<String>))
    ensures
        match outcome {
            Ok(()) => r.0@ == "inactive"@ && r.1 is None,
            Err(e) => {
                &&& r.0@ == "error"@
                &&& r.1 matches Some(m)
                &&& m@ == "Capture failed: "@ + e.spec_detail()
            },
        },
{
    match outcome {
        Ok(()) => ("inactive", None),
        Err(e) => ("error", Some(join_str("Capture failed: ", e.detail().as_str()))),
    }
}

} // verus!
