//! The records the daemon keeps about sources, timelapses and exports, and
//! the textual names under which their kinds and states are stored.
use vstd::prelude::*;

use crate::text::{owned, push_str, same_text};

verus! {

/// The error text for a name that no variant carries.
pub open spec fn unknown_text(what: Seq<char>, value: Seq<char>) -> Seq<char> {
    what + value
}

fn unknown(what: &str, value: &str) -> (r: String)
    ensures
        r@ == unknown_text(what@, value@),
{
    let mut s = owned(what);
    push_str(&mut s, value);
    s
}

/// Where a source's frames come from.
#[derive(Debug, Clone, Copy, PartialEq, Eq, Structural)]
pub enum SourceKind {
    Ffmpeg,
    Frigate,
    File,
}

impl SourceKind {
    /// The name under which the kind is stored and sent.
    pub open spec fn name(self) -> Seq<char> {
        match self {
            SourceKind::Ffmpeg => "ffmpeg"@,
            SourceKind::Frigate => "frigate"@,
            SourceKind::File => "file"@,
        }
    }

    /// The kind whose name is `s`, if any.
    pub open spec fn parse(s: Seq<char>) -> Option<SourceKind> {
        if s == "ffmpeg"@ {
            Some(SourceKind::Ffmpeg)
        } else if s == "frigate"@ {
            Some(SourceKind::Frigate)
        } else if s == "file"@ {
            Some(SourceKind::File)
        } else {
            None
        }
    }

    pub fn as_str(&self) -> (r: &'static str)
        ensures
            r@ == self.name(),
    {
        match self {
            SourceKind::Ffmpeg => "ffmpeg",
            SourceKind::Frigate => "frigate",
            SourceKind::File => "file",
        }
    }

    /// Reads a kind from its name; any other text is refused with
    /// `unknown source kind: <text>`.
    pub fn try_from(value: &str) -> (r: Result<SourceKind, String>)
        ensures
            match r {
                Ok(k) => SourceKind::parse(value@) == Some(k),
                Err(e) => SourceKind::parse(value@) is None && e@ == unknown_text(
                    "unknown source kind: "@,
                    value@,
                ),
            },
    {
        if same_text(value, "ffmpeg") {
            Ok(SourceKind::Ffmpeg)
        } else if same_text(value, "frigate") {
            Ok(SourceKind::Frigate)
        } else if same_text(value, "file") {
            Ok(SourceKind::File)
        } else {
            Err(unknown("unknown source kind: ", value))
        }
    }
}

/// Reading back the name of a kind gives that kind, and a name that is
/// read as a kind is that kind's name.
pub proof fn source_kind_names_round_trip(k: SourceKind, s: Seq<char>)
    ensures
        SourceKind::parse(k.name()) == Some(k),
        SourceKind::parse(s) == Some(k) ==> s == k.name(),
{
    reveal_strlit("ffmpeg");
    reveal_strlit("frigate");
    reveal_strlit("file");
    assert("ffmpeg"@.len() != "frigate"@.len());
    assert("ffmpeg"@.len() != "file"@.len());
    assert("frigate"@.len() != "file"@.len());
}

/// The last known health of a source.
#[derive(Debug, Clone, Copy, PartialEq, Eq, Structural)]
pub enum SourceStatus {
    Unknown,
    Healthy,
    Error,
}

impl SourceStatus {
    pub open spec fn name(self) -> Seq<char> {
        match self {
            SourceStatus::Unknown => "unknown"@,
            SourceStatus::Healthy => "healthy"@,
            SourceStatus::Error => "error"@,
        }
    }

    pub open spec fn parse(s: Seq<char>) -> Option<SourceStatus> {
        if s == "unknown"@ {
            Some(SourceStatus::Unknown)
        } else if s == "healthy"@ {
            Some(SourceStatus::Healthy)
        } else if s == "error"@ {
            Some(SourceStatus::Error)
        } else {
            None
        }
    }

    pub fn as_str(&self) -> (r: &'static str)
        ensures
            r@ == self.name(),
    {
        match self {
            SourceStatus::Unknown => "unknown",
            SourceStatus::Healthy => "healthy",
            SourceStatus::Error => "error",
        }
    }

    /// Reads a status from its name; any other text is refused with
    /// `unknown source status: <text>`.
    pub fn try_from(value: &str) -> (r: Result<SourceStatus, String>)
        ensures
            match r {
                Ok(k) => SourceStatus::parse(value@) == Some(k),
                Err(e) => SourceStatus::parse(value@) is None && e@ == unknown_text(
                    "unknown source status: "@,
                    value@,
                ),
            },
    {
        if same_text(value, "unknown") {
            Ok(SourceStatus::Unknown)
        } else if same_text(value, "healthy") {
            Ok(SourceStatus::Healthy)
        } else if same_text(value, "error") {
            Ok(SourceStatus::Error)
        } else {
            Err(unknown("unknown source status: ", value))
        }
    }
}

/// Reading back the name of a source status gives that status, and a name
/// that is read as a status is that status's name.
pub proof fn source_status_names_round_trip(k: SourceStatus, s: Seq<char>)
    ensures
        SourceStatus::parse(k.name()) == Some(k),
        SourceStatus::parse(s) == Some(k) ==> s == k.name(),
{
    reveal_strlit("unknown");
    reveal_strlit("healthy");
    reveal_strlit("error");
    assert("unknown"@[0] != "healthy"@[0]);
    assert("unknown"@.len() != "error"@.len());
    assert("healthy"@.len() != "error"@.len());
}

/// Whether a timelapse is capturing.
#[derive(Debug, Clone, Copy, PartialEq, Eq, Structural)]
pub enum TimelapseStatus {
    Stopped,
    Running,
    Error,
}

impl TimelapseStatus {
    pub open spec fn name(self) -> Seq<char> {
        match self {
            TimelapseStatus::Stopped => "stopped"@,
            TimelapseStatus::Running => "running"@,
            TimelapseStatus::Error => "error"@,
        }
    }

    pub open spec fn parse(s: Seq<char>) -> Option<TimelapseStatus> {
        if s == "stopped"@ {
            Some(TimelapseStatus::Stopped)
        } else if s == "running"@ {
            Some(TimelapseStatus::Running)
        } else if s == "error"@ {
            Some(TimelapseStatus::Error)
        } else {
            None
        }
    }

    pub fn as_str(&self) -> (r: &'static str)
        ensures
            r@ == self.name(),
    {
        match self {
            TimelapseStatus::Stopped => "stopped",
            TimelapseStatus::Running => "running",
            TimelapseStatus::Error => "error",
        }
    }

    /// Reads a status from its name; any other text is refused with
    /// `unknown timelapse status: <text>`.
    pub fn try_from(value: &str) -> (r: Result<TimelapseStatus, String>)
        ensures
            match r {
                Ok(k) => TimelapseStatus::parse(value@) == Some(k),
                Err(e) => TimelapseStatus::parse(value@) is None && e@ == unknown_text(
                    "unknown timelapse status: "@,
                    value@,
                ),
            },
    {
        if same_text(value, "stopped") {
            Ok(TimelapseStatus::Stopped)
        } else if same_text(value, "running") {
            Ok(TimelapseStatus::Running)
        } else if same_text(value, "error") {
            Ok(TimelapseStatus::Error)
        } else {
            Err(unknown("unknown timelapse status: ", value))
        }
    }
}

/// Reading back the name of a timelapse status gives that status, and a
/// name that is read as a status is that status's name.
pub proof fn timelapse_status_names_round_trip(k: TimelapseStatus, s: Seq<char>)
    ensures
        TimelapseStatus::parse(k.name()) == Some(k),
        TimelapseStatus::parse(s) == Some(k) ==> s == k.name(),
{
    reveal_strlit("stopped");
    reveal_strlit("running");
    reveal_strlit("error");
    assert("stopped"@[0] != "running"@[0]);
    assert("stopped"@.len() != "error"@.len());
    assert("running"@.len() != "error"@.len());
}

/// Where an export job stands.
#[derive(Debug, Clone, Copy, PartialEq, Eq, Structural)]
pub enum ExportStatus {
    Queued,
    Running,
    Complete,
    Error,
}

impl ExportStatus {
    pub open spec fn name(self) -> Seq<char> {
        match self {
            ExportStatus::Queued => "queued"@,
            ExportStatus::Running => "running"@,
            ExportStatus::Complete => "complete"@,
            ExportStatus::Error => "error"@,
        }
    }

    pub open spec fn parse(s: Seq<char>) -> Option<ExportStatus> {
        if s == "queued"@ {
            Some(ExportStatus::Queued)
        } else if s == "running"@ {
            Some(ExportStatus::Running)
        } else if s == "complete"@ {
            Some(ExportStatus::Complete)
        } else if s == "error"@ {
            Some(ExportStatus::Error)
        } else {
            None
        }
    }

    pub fn as_str(&self) -> (r: &'static str)
        ensures
            r@ == self.name(),
    {
        match self {
            ExportStatus::Queued => "queued",
            ExportStatus::Running => "running",
            ExportStatus::Complete => "complete",
            ExportStatus::Error => "error",
        }
    }

    /// Reads a status from its name; any other text is refused with
    /// `unknown export status: <text>`.
    pub fn try_from(value: &str) -> (r: Result<ExportStatus, String>)
        ensures
            match r {
                Ok(k) => ExportStatus::parse(value@) == Some(k),
                Err(e) => ExportStatus::parse(value@) is None && e@ == unknown_text(
                    "unknown export status: "@,
                    value@,
                ),
            },
    {
        if same_text(value, "queued") {
            Ok(ExportStatus::Queued)
        } else if same_text(value, "running") {
            Ok(ExportStatus::Running)
        } else if same_text(value, "complete") {
            Ok(ExportStatus::Complete)
        } else if same_text(value, "error") {
            Ok(ExportStatus::Error)
        } else {
            Err(unknown("unknown export status: ", value))
        }
    }
}

/// Reading back the name of an export status gives that status, and a name
/// that is read as a status is that status's name.
pub proof fn export_status_names_round_trip(k: ExportStatus, s: Seq<char>)
    ensures
        ExportStatus::parse(k.name()) == Some(k),
        ExportStatus::parse(s) == Some(k) ==> s == k.name(),
{
    reveal_strlit("queued");
    reveal_strlit("running");
    reveal_strlit("complete");
    reveal_strlit("error");
    assert("queued"@.len() != "running"@.len());
    assert("queued"@.len() != "complete"@.len());
    assert("queued"@.len() != "error"@.len());
    assert("running"@.len() != "complete"@.len());
    assert("running"@.len() != "error"@.len());
    assert("complete"@.len() != "error"@.len());
}

/// What the capture logic reads of a source: its kind, its URL and the RTSP
/// transport it asks for. `id` is the source's UUID as a 128-bit number.
#[derive(Debug, Clone)]
pub struct Source {
    pub id: u128,
    pub name: String,
    pub kind: SourceKind,
    pub url: String,
    pub rtsp_transport: Option<String>,
    pub status: SourceStatus,
    pub last_error: Option<String>,
    pub latest_frame_path: Option<String>,
}

/// A request to register a source.
#[derive(Debug, Clone)]
pub struct CreateSourceRequest {
    pub name: String,
    pub kind: SourceKind,
    pub url: String,
    pub rtsp_transport: Option<String>,
}

/// A request to export a timelapse; the format defaults to `mp4`.
#[derive(Debug, Clone)]
pub struct CreateExportRequest {
    pub format: Option<String>,
}

} // verus!
