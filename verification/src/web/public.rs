//! The public stream list: what each stored stream shows as its source,
//! resolution, frame rate and state.
use vstd::prelude::*;

use crate::text::{decimal, join3, str_is, string_of, u64_decimal, string_from_chars};
use crate::web::json::{get_str, get_u64, JsonValue};
use crate::web::models::StreamStatus;
use crate::web::streams::StoredStream;

verus! {

/// A stream as the public list shows it.
#[derive(Debug)]
pub struct StreamInfo {
    pub id: String,
    pub name: String,
    pub source: String,
    pub status: StreamStatus,
    /// `<width>x<height>`.
    pub resolution: String,
    pub fps: u32,
    pub last_frame_at: Option<String>,
    pub template_id: Option<String>,
}

/// The source a configuration reads: the `url` of a web page or a yt-dlp
/// stream (`yt` or `youtube`), the `rtsp_url` of a camera, the
/// `file_path` of a file; nothing for other kinds or a missing member.
pub open spec fn source_of(config: JsonValue) -> Option<Seq<char>> {
    match get_str(config, "kind"@) {
        None => None,
        Some(kind) => if kind == "website"@ || kind == "yt"@ || kind == "youtube"@ {
            get_str(config, "url"@)
        } else if kind == "rtsp"@ {
            get_str(config, "rtsp_url"@)
        } else if kind == "file"@ {
            get_str(config, "file_path"@)
        } else {
            None
        },
    }
}

fn text_member(config: &JsonValue, key: &str) -> (r: Option<String>)
    ensures
        match r {
            Some(s) => get_str(*config, key@) == Some(s@),
            None => get_str(*config, key@) is None,
        },
{
    match config.get(key) {
        Some(v) => match v.as_str() {
            Some(s) => Some(string_of(s)),
            None => None,
        },
        None => None,
    }
}

/// The source a configuration reads (see `source_of`).
pub fn extract_source_from_stream_config(config: &JsonValue) -> (r: Option<String>)
    ensures
        match r {
            Some(s) => source_of(*config) == Some(s@),
            None => source_of(*config) is None,
        },
{
    let kind = match config.get("kind") {
        Some(v) => match v.as_str() {
            Some(k) => k,
            None => return None,
        },
        None => return None,
    };
    if str_is(kind, "website") || str_is(kind, "yt") || str_is(kind, "youtube") {
        text_member(config, "url")
    } else if str_is(kind, "rtsp") {
        text_member(config, "rtsp_url")
    } else if str_is(kind, "file") {
        text_member(config, "file_path")
    } else {
        None
    }
}

/// The resolution a configuration names, `<width>x<height>`, when it has
/// both numbers.
pub open spec fn resolution_of(config: JsonValue) -> Option<Seq<char>> {
    match (get_u64(config, "width"@), get_u64(config, "height"@)) {
        (Some(w), Some(h)) => Some(decimal(w as nat) + "x"@ + decimal(h as nat)),
        _ => None,
    }
}

/// The resolution a configuration names (see `resolution_of`).
pub fn extract_resolution_from_config(config: &JsonValue) -> (r: Option<String>)
    ensures
        match r {
            Some(s) => resolution_of(*config) == Some(s@),
            None => resolution_of(*config) is None,
        },
{
    let w = match config.get("width") {
        Some(v) => v.as_u64(),
        None => None,
    };
    let h = match config.get("height") {
        Some(v) => v.as_u64(),
        None => None,
    };
    match (w, h) {
        (Some(w), Some(h)) => {
            let a = u64_decimal(w);
            let b = u64_decimal(h);
            let sa = string_from_chars(a.as_slice());
            let sb = string_from_chars(b.as_slice());
            Some(join3(sa.as_str(), "x", sb.as_str()))
        },
        _ => None,
    }
}

/// The frame rate shown for a kind of stream: 1 for web pages, 30 for
/// cameras and yt-dlp streams, 24 for files, 1 otherwise.
pub open spec fn fps_of(config: JsonValue) -> u32 {
    match get_str(config, "kind"@) {
        Some(kind) => if kind == "website"@ {
            1
        } else if kind == "rtsp"@ || kind == "yt"@ || kind == "youtube"@ {
            30
        } else if kind == "file"@ {
            24
        } else {
            1
        },
        None => 1,
    }
}

proof fn lemma_kind_names_differ()
    ensures
        "website"@ != "rtsp"@,
        "website"@ != "yt"@,
        "website"@ != "youtube"@,
        "website"@ != "file"@,
        "rtsp"@ != "file"@,
        "yt"@ != "file"@,
        "youtube"@ != "file"@,
{
    reveal_strlit("website");
    reveal_strlit("rtsp");
    reveal_strlit("yt");
    reveal_strlit("youtube");
    reveal_strlit("file");
    assert("website"@.len() != "rtsp"@.len());
    assert("website"@.len() != "yt"@.len());
    assert("website"@[0] != "youtube"@[0]);
    assert("website"@.len() != "file"@.len());
    assert("rtsp"@[0] != "file"@[0]);
    assert("yt"@.len() != "file"@.len());
    assert("youtube"@.len() != "file"@.len());
}

/// The frame rate follows the kind of stream: cameras (`rtsp`) and yt-dlp
/// streams (`yt`, `youtube`) run at 30, files at 24, web pages at 1, and a
/// configuration with no kind, or any other kind, at 1.
pub proof fn frame_rate_by_kind(config: JsonValue)
    ensures
        get_str(config, "kind"@) == Some("rtsp"@) ==> fps_of(config) == 30,
        get_str(config, "kind"@) == Some("yt"@) ==> fps_of(config) == 30,
        get_str(config, "kind"@) == Some("youtube"@) ==> fps_of(config) == 30,
        get_str(config, "kind"@) == Some("file"@) ==> fps_of(config) == 24,
        get_str(config, "kind"@) == Some("website"@) ==> fps_of(config) == 1,
        get_str(config, "kind"@) is None ==> fps_of(config) == 1,
        (get_str(config, "kind"@) matches Some(k) && k != "rtsp"@ && k != "yt"@ && k
            != "youtube"@ && k != "file"@) ==> fps_of(config) == 1,
        fps_of(config) == 30 <==> (get_str(config, "kind"@) == Some("rtsp"@) || get_str(
            config,
            "kind"@,
        ) == Some("yt"@) || get_str(config, "kind"@) == Some("youtube"@)),
        fps_of(config) == 24 <==> get_str(config, "kind"@) == Some("file"@),
{
    lemma_kind_names_differ();
}

/// The frame rate shown for a stream (see `fps_of`).
pub fn get_fps_for_stream_type(config: &JsonValue) -> (r: u32)
    ensures
        r == fps_of(*config),
{
    let kind = match config.get("kind") {
        Some(v) => match v.as_str() {
            Some(k) => k,
            None => return 1,
        },
        None => return 1,
    };
    if str_is(kind, "website") {
        1
    } else if str_is(kind, "rtsp") || str_is(kind, "yt") || str_is(kind, "youtube") {
        30
    } else if str_is(kind, "file") {
        24
    } else {
        1
    }
}

/// The state shown for a stream: a stored `active` state counts only while
/// its capture is running; `starting`, `stopping` and `error` show as they
/// are; anything else is inactive.
pub open spec fn shown_state(execution_status: Option<Seq<char>>, running: bool) -> StreamStatus {
    match execution_status {
        Some(s) => if s == "active"@ {
            if running {
                StreamStatus::Active
            } else {
                StreamStatus::Inactive
            }
        } else if s == "starting"@ {
            StreamStatus::Starting
        } else if s == "stopping"@ {
            StreamStatus::Stopping
        } else if s == "error"@ {
            StreamStatus::Error
        } else {
            StreamStatus::Inactive
        },
        None => StreamStatus::Inactive,
    }
}

/// The running flag matters only for a stored `active` state, which is
/// shown as active exactly while the capture runs; `starting`, `stopping`
/// and `error` are shown as they are whatever the flag; no state, or any
/// other, is shown as inactive.
pub proof fn shown_state_laws(s: Option<Seq<char>>, running: bool)
    ensures
        shown_state(Some("starting"@), running) == StreamStatus::Starting,
        shown_state(Some("stopping"@), running) == StreamStatus::Stopping,
        shown_state(Some("error"@), running) == StreamStatus::Error,
        shown_state(Some("active"@), running) == if running {
            StreamStatus::Active
        } else {
            StreamStatus::Inactive
        },
        shown_state(None, running) == StreamStatus::Inactive,
        s != Some("active"@) ==> shown_state(s, true) == shown_state(s, false),
        shown_state(s, running) == StreamStatus::Active <==> (s == Some("active"@) && running),
        shown_state(s, running) == StreamStatus::Starting <==> s == Some("starting"@),
        shown_state(s, running) == StreamStatus::Stopping <==> s == Some("stopping"@),
        shown_state(s, running) == StreamStatus::Error <==> s == Some("error"@),
{
    reveal_strlit("active");
    reveal_strlit("starting");
    reveal_strlit("stopping");
    reveal_strlit("error");
    assert("active"@ != "starting"@) by {
        assert("active"@.len() != "starting"@.len());
    }
    assert("active"@ != "stopping"@) by {
        assert("active"@.len() != "stopping"@.len());
    }
    assert("active"@ != "error"@) by {
        assert("active"@.len() != "error"@.len());
    }
    assert("starting"@ != "stopping"@) by {
        assert("starting"@[2] != "stopping"@[2]);
    }
    assert("starting"@ != "error"@) by {
        assert("starting"@.len() != "error"@.len());
    }
    assert("stopping"@ != "error"@) by {
        assert("stopping"@.len() != "error"@.len());
    }
}

/// The state shown for a stream (see `shown_state`).
pub fn stream_status_of(execution_status: Option<&str>, running: bool) -> (r: StreamStatus)
    ensures
        r == shown_state(
            match execution_status {
                Some(s) => Some(s@),
                None => None,
            },
            running,
        ),
{
    match execution_status {
        Some(s) => if str_is(s, "active") {
            if running {
                StreamStatus::Active
            } else {
                StreamStatus::Inactive
            }
        } else if str_is(s, "starting") {
            StreamStatus::Starting
        } else if str_is(s, "stopping") {
            StreamStatus::Stopping
        } else if str_is(s, "error") {
            StreamStatus::Error
        } else {
            StreamStatus::Inactive
        },
        None => StreamStatus::Inactive,
    }
}

/// The public entry of a stored stream whose configuration parsed to
/// `config`, given whether its capture runs and, if so, the time of its
/// last frame: none when the configuration names no source.  The
/// resolution defaults to `1920x1080`; the last frame time is the running
/// capture's, else the stored run time.
pub fn public_stream_info(
    stream: &StoredStream,
    config: &JsonValue,
    running: bool,
    capture_last_frame: Option<Option<String>>,
) -> (r: Option<StreamInfo>)
    ensures
        match r {
            None => source_of(*config) is None,
            Some(info) => {
                &&& source_of(*config) == Some(info.source@)
                &&& info.id@ == stream.id@
                &&& info.name@ == stream.name@
                &&& info.status == shown_state(
                    match stream.execution_status {
                        Some(s) => Some(s@),
                        None => None,
                    },
                    running,
                )
                &&& info.resolution@ == match resolution_of(*config) {
                    Some(x) => x,
                    None => "1920x1080"@,
                }
                &&& info.fps == fps_of(*config)
                &&& info.last_frame_at == match capture_last_frame {
                    Some(t) => t,
                    None => stream.last_executed_at,
                }
                &&& info.template_id matches Some(t) && t@ == stream.id@
            },
        },
{
    let source = match extract_source_from_stream_config(config) {
        Some(s) => s,
        None => return None,
    };
    let status = match &stream.execution_status {
        Some(s) => stream_status_of(Some(s.as_str()), running),
        None => stream_status_of(None, running),
    };
    let resolution = match extract_resolution_from_config(config) {
        Some(r) => r,
        None => string_of("1920x1080"),
    };
    let last_frame_at = match capture_last_frame {
        Some(t) => t,
        None => stream.last_executed_at.clone(),
    };
    Some(
        StreamInfo {
            id: stream.id.clone(),
            name: stream.name.clone(),
            source,
            status,
            resolution,
            fps: get_fps_for_stream_type(config),
            last_frame_at,
            template_id: Some(stream.id.clone()),
        },
    )
}

} // verus!
