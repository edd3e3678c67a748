//! Progress records written by the external downloader, one JSON object per
//! line of its standard output, and how a line becomes an event.
use vstd::prelude::*;
use crate::text::{push_str, str_eq};

verus! {

/// A progress or completion record of one download.
#[derive(Clone, Debug)]
pub enum YtDlpEvent {
    DLStarted { id: String },
    DLProgress { id: String, percent: String, eta: String },
    PPStarted { id: String },
    PPProgress { id: String, percent: String, eta: String },
    /// The download is complete and its file is at `path`.
    Finished { id: String, path: String },
    /// A record with a tag this library does not know.
    Unknown,
}

/// The error kind of a download, as seen by its caller.
#[derive(Clone, Copy, Debug, PartialEq, Eq, Structural)]
pub enum YtDlpError {
    Unknown,
}

/// The mathematical value of a `YtDlpEvent`.
pub enum EventModel {
    DLStarted { id: Seq<char> },
    DLProgress { id: Seq<char>, percent: Seq<char>, eta: Seq<char> },
    PPStarted { id: Seq<char> },
    PPProgress { id: Seq<char>, percent: Seq<char>, eta: Seq<char> },
    Finished { id: Seq<char>, path: Seq<char> },
    Unknown,
}

impl View for YtDlpEvent {
    type V = EventModel;

    open spec fn view(&self) -> EventModel {
        match self {
            YtDlpEvent::DLStarted { id } => EventModel::DLStarted { id: id@ },
            YtDlpEvent::DLProgress { id, percent, eta } => EventModel::DLProgress {
                id: id@,
                percent: percent@,
                eta: eta@,
            },
            YtDlpEvent::PPStarted { id } => EventModel::PPStarted { id: id@ },
            YtDlpEvent::PPProgress { id, percent, eta } => EventModel::PPProgress {
                id: id@,
                percent: percent@,
                eta: eta@,
            },
            YtDlpEvent::Finished { id, path } => EventModel::Finished { id: id@, path: path@ },
            YtDlpEvent::Unknown => EventModel::Unknown,
        }
    }
}

impl YtDlpEvent {
    /// Whether this event ends its job's stream.
    pub fn is_terminal(&self) -> (r: bool)
        ensures
            r == (self@ is Finished),
    {
        match self {
            YtDlpEvent::Finished { .. } => true,
            _ => false,
        }
    }
}

pub open spec fn event_option_view(e: Option<YtDlpEvent>) -> Option<EventModel> {
    match e {
        Some(v) => Some(v@),
        None => None,
    }
}

/// The members of a JSON object: each key, with the member's text where its
/// value is a JSON string.
pub type Fields = Seq<(Seq<char>, Option<Seq<char>>)>;

/// What `json_object_fields` gives for a line: the members of the JSON
/// object it holds, in key order, or `None` where it holds no JSON object.
pub uninterp spec fn json_fields(line: Seq<char>) -> Option<Seq<(Seq<char>, Option<Seq<char>>)>>;

/// Relies on serde_json::from_str into a BTreeMap of serde_json::Value: reads
/// the line as one JSON object; each member is listed with its text when the
/// value is a JSON string.
#[verifier::external_body]
fn json_object_fields(line: &str) -> (r: Option<Vec<(String, Option<String>)>>)
    ensures
        r.deep_view() == json_fields(line@),
{
    let map: std::collections::BTreeMap<String, serde_json::Value> = serde_json::from_str(
        line,
    ).ok()?;
    Some(
        map.into_iter().map(
            |(k, v)|
                match v {
                    serde_json::Value::String(s) => (k, Some(s)),
                    _ => (k, None),
                },
        ).collect(),
    )
}

/// The string text of the first member named `key`, if it is a string.
pub open spec fn field_text(fields: Fields, key: Seq<char>) -> Option<Seq<char>>
    decreases fields.len(),
{
    if fields.len() == 0 {
        None
    } else if fields[0].0 == key {
        fields[0].1
    } else {
        field_text(fields.drop_first(), key)
    }
}

/// Returns the string text of the first member named `key`, if any.
pub fn find_field(fields: &Vec<(String, Option<String>)>, key: &str) -> (r: Option<String>)
    ensures
        r.deep_view() == field_text(fields.deep_view(), key@),
{
    let ghost all = fields.deep_view();
    let n = fields.len();
    let mut i: usize = 0;
    assert(all.subrange(0, n as int) =~= all);
    while i < n
        invariant
            n == fields@.len(),
            all == fields.deep_view(),
            i <= n,
            field_text(all, key@) == field_text(all.subrange(i as int, n as int), key@),
        decreases n - i,
    {
        let ghost rest = all.subrange(i as int, n as int);
        assert(rest[0] == fields@[i as int].deep_view());
        assert(rest.drop_first() =~= all.subrange(i + 1, n as int));
        if str_eq(fields[i].0.as_str(), key) {
            return match &fields[i].1 {
                Some(t) => Some(t.clone()),
                None => None,
            };
        }
        i = i + 1;
    }
    assert(all.subrange(n as int, n as int).len() == 0);
    None
}

/// The event a JSON object stands for. The tag is the `event` member: either
/// the one the downloader's print templates write or the variant's own name.
/// A record without a string tag, or with a known tag but without the string
/// members that tag needs, is no event; an unknown tag is `Unknown`.
pub open spec fn event_of_fields(f: Fields) -> Option<EventModel> {
    match field_text(f, "event"@) {
        None => None,
        Some(tag) => {
            let id = field_text(f, "id"@);
            let percent = field_text(f, "percent"@);
            let eta = field_text(f, "eta"@);
            let path = field_text(f, "path"@);
            if tag == "dl_started"@ || tag == "DLStarted"@ {
                if id is Some {
                    Some(EventModel::DLStarted { id: id->0 })
                } else {
                    None
                }
            } else if tag == "dl_progress"@ || tag == "DLProgress"@ {
                if id is Some && percent is Some && eta is Some {
                    Some(EventModel::DLProgress { id: id->0, percent: percent->0, eta: eta->0 })
                } else {
                    None
                }
            } else if tag == "pp_started"@ || tag == "PPStarted"@ {
                if id is Some {
                    Some(EventModel::PPStarted { id: id->0 })
                } else {
                    None
                }
            } else if tag == "pp_progress"@ || tag == "PPProgress"@ {
                if id is Some && percent is Some && eta is Some {
                    Some(EventModel::PPProgress { id: id->0, percent: percent->0, eta: eta->0 })
                } else {
                    None
                }
            } else if tag == "moved"@ || tag == "Finished"@ {
                if id is Some && path is Some {
                    Some(EventModel::Finished { id: id->0, path: path->0 })
                } else {
                    None
                }
            } else {
                Some(EventModel::Unknown)
            }
        },
    }
}

/// The event that a line of the downloader's output stands for, if any.
pub open spec fn event_of_line(line: Seq<char>) -> Option<EventModel> {
    match json_fields(line) {
        None => None,
        Some(f) => event_of_fields(f),
    }
}

fn is_tag(tag: &str, short: &str, long: &str) -> (r: bool)
    ensures
        r == (tag@ == short@ || tag@ == long@),
{
    str_eq(tag, short) || str_eq(tag, long)
}

/// Turns the members of a JSON object into the event it stands for.
pub fn event_from_fields(fields: &Vec<(String, Option<String>)>) -> (r: Option<YtDlpEvent>)
    ensures
        event_option_view(r) == event_of_fields(fields.deep_view()),
{
    let tag = match find_field(fields, "event") {
        None => {
            return None;
        },
        Some(t) => t,
    };
    let id = find_field(fields, "id");
    let percent = find_field(fields, "percent");
    let eta = find_field(fields, "eta");
    let path = find_field(fields, "path");
    if is_tag(tag.as_str(), "dl_started", "DLStarted") {
        match id {
            Some(id) => Some(YtDlpEvent::DLStarted { id }),
            None => None,
        }
    } else if is_tag(tag.as_str(), "dl_progress", "DLProgress") {
        match (id, percent, eta) {
            (Some(id), Some(percent), Some(eta)) => Some(YtDlpEvent::DLProgress { id, percent, eta }),
            _ => None,
        }
    } else if is_tag(tag.as_str(), "pp_started", "PPStarted") {
        match id {
            Some(id) => Some(YtDlpEvent::PPStarted { id }),
            None => None,
        }
    } else if is_tag(tag.as_str(), "pp_progress", "PPProgress") {
        match (id, percent, eta) {
            (Some(id), Some(percent), Some(eta)) => Some(YtDlpEvent::PPProgress { id, percent, eta }),
            _ => None,
        }
    } else if is_tag(tag.as_str(), "moved", "Finished") {
        match (id, path) {
            (Some(id), Some(path)) => Some(YtDlpEvent::Finished { id, path }),
            _ => None,
        }
    } else {
        Some(YtDlpEvent::Unknown)
    }
}

/// Parses one line of the downloader's output; a line that is not an event
/// record gives `None` and is to be dropped.
pub fn parse_event(line: &str) -> (r: Option<YtDlpEvent>)
    ensures
        event_option_view(r) == event_of_line(line@),
{
    match json_object_fields(line) {
        None => None,
        Some(fields) => event_from_fields(&fields),
    }
}

/// The status shown to the caller for a progress event; `None` for events
/// that change nothing on screen.
pub open spec fn status_text(e: EventModel) -> Option<Seq<char>> {
    match e {
        EventModel::DLStarted { .. } => Some("Downloading..."@),
        EventModel::DLProgress { percent, .. } => Some("Downloading... "@ + percent),
        EventModel::PPStarted { .. } => Some("Processing..."@),
        EventModel::PPProgress { percent, .. } => Some("Processing... "@ + percent),
        _ => None,
    }
}

/// The status line for a progress event.
pub fn status_line(e: &YtDlpEvent) -> (r: Option<String>)
    ensures
        r.deep_view() == status_text(e@),
{
    match e {
        YtDlpEvent::DLStarted { .. } => Some(String::from_str("Downloading...")),
        YtDlpEvent::DLProgress { percent, .. } => {
            let mut s = String::from_str("Downloading... ");
            push_str(&mut s, percent.as_str());
            Some(s)
        },
        YtDlpEvent::PPStarted { .. } => Some(String::from_str("Processing...")),
        YtDlpEvent::PPProgress { percent, .. } => {
            let mut s = String::from_str("Processing... ");
            push_str(&mut s, percent.as_str());
            Some(s)
        },
        _ => None,
    }
}

} // verus!
