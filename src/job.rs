//! A download job: a validated source URL, the audio flag, and the sink
//! through which its events reach the one caller that asked for it.
use vstd::prelude::*;
use crate::runner::{download_args, download_args_spec};

verus! {

/// What `parse_url` gives for a text: the serialization of the absolute URL
/// it holds, or `None` where it holds none.
pub uninterp spec fn url_serialization(input: Seq<char>) -> Option<Seq<char>>;

/// Relies on url::Url::parse: parses an absolute URL and gives its
/// serialization (`String::from` of the parsed `Url`).
#[verifier::external_body]
fn parse_url(input: &str) -> (r: Option<String>)
    ensures
        r.deep_view() == url_serialization(input@),
{
    url::Url::parse(input).ok().map(String::from)
}

/// The source of a job was not an absolute URL.
#[derive(Clone, Copy, Debug, PartialEq, Eq, Structural)]
pub struct InvalidUrl;

/// One requested download. `S` is the write side of the job's event sink.
pub struct DownloadRequest<S> {
    /// The source, as the serialization of a parsed absolute URL.
    pub url: String,
    /// Whether the video is to be downloaded without its audio.
    pub strip_audio: bool,
    pub sender: S,
}

impl<S> DownloadRequest<S> {
    /// A job for the URL in `link`; fails when `link` is not an absolute URL.
    pub fn new(link: &str, strip_audio: bool, sender: S) -> (r: Result<Self, InvalidUrl>)
        ensures
            url_serialization(link@) is None ==> r is Err,
            (url_serialization(link@) matches Some(u) ==> (r matches Ok(job) && job.url@ == u
                && job.strip_audio == strip_audio && job.sender == sender)),
    {
        match parse_url(link) {
            None => Err(InvalidUrl),
            Some(url) => Ok(DownloadRequest { url, strip_audio, sender }),
        }
    }

    /// The downloader's arguments for this job, with the configured home and
    /// temp directories.
    pub fn args(&self, home: Option<&str>, temp: Option<&str>) -> (r: Vec<String>)
        ensures
            r.deep_view() == download_args_spec(
                self.url@,
                self.strip_audio,
                match home {
                    Some(h) => Some(h@),
                    None => None,
                },
                match temp {
                    Some(t) => Some(t@),
                    None => None,
                },
            ),
    {
        download_args(self.url.as_str(), self.strip_audio, home, temp)
    }
}

} // verus!
