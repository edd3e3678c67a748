//! The process runner's decisions: the downloader's command line, and what
//! to do with each line or end of its two output streams.
use vstd::prelude::*;
use crate::event::{event_of_line, parse_event, EventModel, YtDlpEvent};

verus! {

pub const DEFAULT_HOME_DIR: &'static str = "./out";
pub const DEFAULT_TEMP_DIR: &'static str = "./tmp";

/// The fixed flags given to the downloader after the source URL.
pub open spec fn base_args_spec() -> Seq<Seq<char>> {
    seq![
        "--no-sponsorblock"@,
        "--newline"@,
        "--no-warnings"@,
        "--progress"@,
        "--progress-delta"@,
        "1"@,
        "--print"@,
        "before_dl:{\"event\":\"dl_started\",\"id\":\"%(id)s\"}"@,
        "--progress-template"@,
        "download:{\"event\":\"dl_progress\",\"id\":\"%(info.id)s\",\"percent\":\"%(progress._percent_str)s\",\"eta\":\"%(progress._eta_str)s\"}"@,
        "--print"@,
        "post_process:{\"event\":\"pp_started\",\"id\":\"%(id)s\"}"@,
        "--progress-template"@,
        "postprocess:{\"event\":\"pp_progress\",\"id\":\"%(info.id)s\",\"percent\":\"%(progress._percent_str)s\",\"eta\":\"%(progress._eta_str)s\"}"@,
        "--print"@,
        "after_move:{\"event\":\"moved\",\"id\":\"%(id)s\",\"path\":%(filepath)j}"@,
    ]
}

fn push_arg(args: &mut Vec<String>, a: &str)
    ensures
        final(args).deep_view() == old(args).deep_view().push(a@),
{
    args.push(String::from_str(a));
    assert(final(args).deep_view() =~= old(args).deep_view().push(a@));
}

/// The fixed flags: no chapter-skip metadata, one line per progress tick,
/// progress at most once a second, and one JSON record per lifecycle step.
pub fn base_args() -> (r: Vec<String>)
    ensures
        r.deep_view() == base_args_spec(),
{
    let mut a: Vec<String> = Vec::new();
    push_arg(&mut a, "--no-sponsorblock");
    push_arg(&mut a, "--newline");
    push_arg(&mut a, "--no-warnings");
    push_arg(&mut a, "--progress");
    push_arg(&mut a, "--progress-delta");
    push_arg(&mut a, "1");
    push_arg(&mut a, "--print");
    push_arg(&mut a, "before_dl:{\"event\":\"dl_started\",\"id\":\"%(id)s\"}");
    push_arg(&mut a, "--progress-template");
    push_arg(
        &mut a,
        "download:{\"event\":\"dl_progress\",\"id\":\"%(info.id)s\",\"percent\":\"%(progress._percent_str)s\",\"eta\":\"%(progress._eta_str)s\"}",
    );
    push_arg(&mut a, "--print");
    push_arg(&mut a, "post_process:{\"event\":\"pp_started\",\"id\":\"%(id)s\"}");
    push_arg(&mut a, "--progress-template");
    push_arg(
        &mut a,
        "postprocess:{\"event\":\"pp_progress\",\"id\":\"%(info.id)s\",\"percent\":\"%(progress._percent_str)s\",\"eta\":\"%(progress._eta_str)s\"}",
    );
    push_arg(&mut a, "--print");
    push_arg(&mut a, "after_move:{\"event\":\"moved\",\"id\":\"%(id)s\",\"path\":%(filepath)j}");
    assert(a.deep_view() =~= base_args_spec());
    a
}

/// The format selector: best video with best audio, or best video alone
/// when the audio is to be stripped.
pub open spec fn format_selector(strip_audio: bool) -> Seq<char> {
    if strip_audio {
        "bv"@
    } else {
        "bv*+ba/b"@
    }
}

/// The `-P` values that place the finished file and the partial files.
pub open spec fn storage_args_spec(home: Option<Seq<char>>, temp: Option<Seq<char>>) -> (
    Seq<char>,
    Seq<char>,
) {
    (
        "home:"@ + match home {
            Some(h) => h,
            None => DEFAULT_HOME_DIR@,
        },
        "temp:"@ + match temp {
            Some(t) => t,
            None => DEFAULT_TEMP_DIR@,
        },
    )
}

fn prefixed(prefix: &str, value: &str) -> (r: String)
    ensures
        r@ == prefix@ + value@,
{
    String::from_str(prefix).concat(value)
}

/// The downloader's `home:` and `temp:` path arguments, with the defaults
/// for directories not configured.
pub fn yt_dlp_storage_args(home: Option<&str>, temp: Option<&str>) -> (r: (String, String))
    ensures
        (r.0@, r.1@) == storage_args_spec(
            match home {
                Some(h) => Some(h@),
                None => None,
            },
            match temp {
                Some(t) => Some(t@),
                None => None,
            },
        ),
{
    let h = match home {
        Some(h) => h,
        None => DEFAULT_HOME_DIR,
    };
    let t = match temp {
        Some(t) => t,
        None => DEFAULT_TEMP_DIR,
    };
    (prefixed("home:", h), prefixed("temp:", t))
}

/// The report for the external programs found missing, `None` when both the
/// downloader and the media converter answered.
pub open spec fn missing_deps_text(downloader_ok: bool, converter_ok: bool) -> Option<Seq<char>> {
    if downloader_ok && converter_ok {
        None
    } else if converter_ok {
        Some("missing deps: yt-dlp"@)
    } else if downloader_ok {
        Some("missing deps: ffmpeg"@)
    } else {
        Some("missing deps: yt-dlp, ffmpeg"@)
    }
}

/// Names the external programs that did not answer their version query.
pub fn missing_deps(downloader_ok: bool, converter_ok: bool) -> (r: Option<String>)
    ensures
        r.deep_view() == missing_deps_text(downloader_ok, converter_ok),
{
    if downloader_ok && converter_ok {
        None
    } else if converter_ok {
        Some(String::from_str("missing deps: yt-dlp"))
    } else if downloader_ok {
        Some(String::from_str("missing deps: ffmpeg"))
    } else {
        Some(String::from_str("missing deps: yt-dlp, ffmpeg"))
    }
}

/// The downloader's full argument list for one job.
pub open spec fn download_args_spec(
    url: Seq<char>,
    strip_audio: bool,
    home: Option<Seq<char>>,
    temp: Option<Seq<char>>,
) -> Seq<Seq<char>> {
    let (h, t) = storage_args_spec(home, temp);
    seq![url] + base_args_spec() + seq!["-P"@, h, "-P"@, t, "-f"@, format_selector(strip_audio)]
}

/// Builds the arguments that follow the program name: the source URL, the
/// fixed flags, the two storage paths and the format selector.
pub fn download_args(url: &str, strip_audio: bool, home: Option<&str>, temp: Option<&str>) -> (r:
    Vec<String>)
    ensures
        r.deep_view() == download_args_spec(
            url@,
            strip_audio,
            match home {
                Some(h) => Some(h@),
                None => None,
            },
            match temp {
                Some(t) => Some(t@),
                None => None,
            },
        ),
{
    let mut a: Vec<String> = Vec::new();
    push_arg(&mut a, url);
    let mut b = base_args();
    let ghost before = a.deep_view();
    let ghost fixed = b.deep_view();
    a.append(&mut b);
    assert(a.deep_view() =~= before + fixed);
    let (h, t) = yt_dlp_storage_args(home, temp);
    push_arg(&mut a, "-P");
    push_arg(&mut a, h.as_str());
    push_arg(&mut a, "-P");
    push_arg(&mut a, t.as_str());
    push_arg(&mut a, "-f");
    if strip_audio {
        push_arg(&mut a, "bv");
    } else {
        push_arg(&mut a, "bv*+ba/b");
    }
    assert(a.deep_view() =~= download_args_spec(
        url@,
        strip_audio,
        match home {
            Some(h) => Some(h@),
            None => None,
        },
        match temp {
            Some(t) => Some(t@),
            None => None,
        },
    ));
    a
}

/// What the runner sees next from the downloader's two output streams.
pub enum StreamEvent {
    /// A line of standard output.
    StdoutLine(String),
    /// Standard output has ended: the process is done with it.
    StdoutClosed,
    /// Reading standard output failed.
    StdoutFailed,
    /// A line of standard error, kept for diagnostics only.
    StderrLine(String),
    /// Standard error has ended.
    StderrClosed,
    /// Reading standard error failed.
    StderrFailed,
}

pub enum StreamEventModel {
    StdoutLine(Seq<char>),
    StdoutClosed,
    StdoutFailed,
    StderrLine(Seq<char>),
    StderrClosed,
    StderrFailed,
}

impl View for StreamEvent {
    type V = StreamEventModel;

    open spec fn view(&self) -> StreamEventModel {
        match self {
            StreamEvent::StdoutLine(l) => StreamEventModel::StdoutLine(l@),
            StreamEvent::StdoutClosed => StreamEventModel::StdoutClosed,
            StreamEvent::StdoutFailed => StreamEventModel::StdoutFailed,
            StreamEvent::StderrLine(l) => StreamEventModel::StderrLine(l@),
            StreamEvent::StderrClosed => StreamEventModel::StderrClosed,
            StreamEvent::StderrFailed => StreamEventModel::StderrFailed,
        }
    }
}

/// What the runner does in answer to one stream event.
pub enum RunnerAction {
    /// Send the event to the job's sink and keep reading.
    Forward(YtDlpEvent),
    /// Send the terminal event to the job's sink and stop reading.
    Finish(YtDlpEvent),
    /// Nothing to send; keep reading.
    Idle,
    /// Stop reading: the job ends here, with no terminal event if none was
    /// sent before.
    Stop,
}

pub enum RunnerActionModel {
    Forward(EventModel),
    Finish(EventModel),
    Idle,
    Stop,
}

impl View for RunnerAction {
    type V = RunnerActionModel;

    open spec fn view(&self) -> RunnerActionModel {
        match self {
            RunnerAction::Forward(e) => RunnerActionModel::Forward(e@),
            RunnerAction::Finish(e) => RunnerActionModel::Finish(e@),
            RunnerAction::Idle => RunnerActionModel::Idle,
            RunnerAction::Stop => RunnerActionModel::Stop,
        }
    }
}

/// The state of one downloader run as its output is read.
pub struct Runner {
    /// Whether standard error is still worth reading.
    pub stderr_open: bool,
    /// Whether reading has ended.
    pub stopped: bool,
}

pub struct RunnerModel {
    pub stderr_open: bool,
    pub stopped: bool,
}

impl View for Runner {
    type V = RunnerModel;

    open spec fn view(&self) -> RunnerModel {
        RunnerModel { stderr_open: self.stderr_open, stopped: self.stopped }
    }
}

/// One step of the runner: the next state and the action.
pub open spec fn runner_next(s: RunnerModel, e: StreamEventModel) -> (RunnerModel, RunnerActionModel) {
    if s.stopped {
        (s, RunnerActionModel::Stop)
    } else {
        match e {
            StreamEventModel::StdoutLine(line) => match event_of_line(line) {
                None => (s, RunnerActionModel::Idle),
                Some(ev) => if ev is Finished {
                    (RunnerModel { stopped: true, ..s }, RunnerActionModel::Finish(ev))
                } else {
                    (s, RunnerActionModel::Forward(ev))
                },
            },
            StreamEventModel::StdoutClosed | StreamEventModel::StdoutFailed => (
                RunnerModel { stopped: true, ..s },
                RunnerActionModel::Stop,
            ),
            StreamEventModel::StderrLine(_) => (s, RunnerActionModel::Idle),
            StreamEventModel::StderrClosed | StreamEventModel::StderrFailed => (
                RunnerModel { stderr_open: false, ..s },
                RunnerActionModel::Idle,
            ),
        }
    }
}

/// The runner's state and actions after a whole sequence of stream events.
pub open spec fn runner_run(s: RunnerModel, evs: Seq<StreamEventModel>) -> (
    RunnerModel,
    Seq<RunnerActionModel>,
)
    decreases evs.len(),
{
    if evs.len() == 0 {
        (s, Seq::empty())
    } else {
        let (s1, a) = runner_next(s, evs[0]);
        let (s2, rest) = runner_run(s1, evs.drop_first());
        (s2, seq![a] + rest)
    }
}

impl Runner {
    /// A runner that has read nothing yet.
    pub fn new() -> (r: Runner)
        ensures
            r@ == (RunnerModel { stderr_open: true, stopped: false }),
    {
        Runner { stderr_open: true, stopped: false }
    }

    /// Whether the runner still reads standard error.
    pub fn reads_stderr(&self) -> (r: bool)
        ensures
            r == (self.stderr_open && !self.stopped),
    {
        self.stderr_open && !self.stopped
    }

    /// Takes one stream event: parses standard output lines into events,
    /// forwards every event, stops after `Finished` or when standard output
    /// ends, and only notes the end of standard error.
    pub fn step(&mut self, e: StreamEvent) -> (r: RunnerAction)
        ensures
            (final(self)@, r@) == runner_next(old(self)@, e@),
    {
        if self.stopped {
            return RunnerAction::Stop;
        }
        match e {
            StreamEvent::StdoutLine(line) => match parse_event(line.as_str()) {
                None => RunnerAction::Idle,
                Some(ev) => {
                    if ev.is_terminal() {
                        self.stopped = true;
                        RunnerAction::Finish(ev)
                    } else {
                        RunnerAction::Forward(ev)
                    }
                },
            },
            StreamEvent::StdoutClosed | StreamEvent::StdoutFailed => {
                self.stopped = true;
                RunnerAction::Stop
            },
            StreamEvent::StderrLine(_) => RunnerAction::Idle,
            StreamEvent::StderrClosed | StreamEvent::StderrFailed => {
                self.stderr_open = false;
                RunnerAction::Idle
            },
        }
    }
}

/// Whether an action hands an event to the job's sink.
pub open spec fn sends(a: RunnerActionModel) -> bool {
    a is Forward || a is Finish
}

/// The events of a run where standard output gives `lines` and then ends.
pub open spec fn stdout_then_close(lines: Seq<Seq<char>>) -> Seq<StreamEventModel> {
    Seq::new(lines.len(), |i: int| StreamEventModel::StdoutLine(lines[i])).push(
        StreamEventModel::StdoutClosed,
    )
}

proof fn lemma_silent_lines(s: RunnerModel, lines: Seq<Seq<char>>)
    requires
        !s.stopped,
        forall|i: int| 0 <= i < lines.len() ==> event_of_line(#[trigger] lines[i]) is None,
    ensures
        runner_run(s, stdout_then_close(lines)).0.stopped,
        forall|i: int|
            0 <= i < runner_run(s, stdout_then_close(lines)).1.len() ==> !sends(
                #[trigger] runner_run(s, stdout_then_close(lines)).1[i],
            ),
    decreases lines.len(),
{
    let evs = stdout_then_close(lines);
    if lines.len() == 0 {
        assert(evs.len() == 1);
        assert(evs[0] == StreamEventModel::StdoutClosed);
        assert(evs.drop_first() =~= Seq::<StreamEventModel>::empty());
        let (s1, a) = runner_next(s, evs[0]);
        assert(s1.stopped);
        assert(runner_run(s1, evs.drop_first()) == (s1, Seq::<RunnerActionModel>::empty()));
        assert(runner_run(s, evs).1 =~= seq![a]);
    } else {
        assert(event_of_line(lines[0]) is None);
        assert(evs.drop_first() =~= stdout_then_close(lines.drop_first()));
        lemma_silent_lines(s, lines.drop_first());
        let (s1, a) = runner_next(s, evs[0]);
        assert(s1 == s);
        let tail = runner_run(s, stdout_then_close(lines.drop_first())).1;
        assert(runner_run(s, evs).1 =~= seq![a] + tail);
        assert forall|i: int| 0 <= i < runner_run(s, evs).1.len() implies !sends(
            #[trigger] runner_run(s, evs).1[i],
        ) by {
            if i > 0 {
                assert(runner_run(s, evs).1[i] == tail[i - 1]);
            }
        }
    }
}

/// When the downloader writes only lines that are no event records and then
/// exits, nothing reaches the job's sink, in particular no `Finished`, and
/// the runner stops at the end of its output instead of waiting.
pub proof fn lemma_unparseable_output_ends_without_finish(lines: Seq<Seq<char>>)
    requires
        forall|i: int| 0 <= i < lines.len() ==> event_of_line(#[trigger] lines[i]) is None,
    ensures
        ({
            let (s, acts) = runner_run(
                RunnerModel { stderr_open: true, stopped: false },
                stdout_then_close(lines),
            );
            s.stopped && forall|i: int| 0 <= i < acts.len() ==> !sends(#[trigger] acts[i])
        }),
{
    lemma_silent_lines(RunnerModel { stderr_open: true, stopped: false }, lines);
}

proof fn lemma_stopped_sends_nothing(s: RunnerModel, evs: Seq<StreamEventModel>)
    requires
        s.stopped,
    ensures
        runner_run(s, evs).1.len() == evs.len(),
        forall|j: int|
            0 <= j < runner_run(s, evs).1.len() ==> !sends(#[trigger] runner_run(s, evs).1[j]),
    decreases evs.len(),
{
    if evs.len() > 0 {
        lemma_stopped_sends_nothing(s, evs.drop_first());
        let acts = runner_run(s, evs).1;
        let tail = runner_run(s, evs.drop_first()).1;
        assert forall|j: int| 0 <= j < acts.len() implies !sends(#[trigger] acts[j]) by {
            if j > 0 {
                assert(acts[j] == tail[j - 1]);
            }
        }
    }
}

proof fn lemma_run_len(s: RunnerModel, evs: Seq<StreamEventModel>)
    ensures
        runner_run(s, evs).1.len() == evs.len(),
    decreases evs.len(),
{
    if evs.len() > 0 {
        lemma_run_len(runner_next(s, evs[0]).0, evs.drop_first());
    }
}

/// `Finished` ends a job's stream: after the runner sends it, nothing more
/// reaches the job's sink, so a run sends it at most once and last.
pub proof fn lemma_finished_is_last(s: RunnerModel, evs: Seq<StreamEventModel>)
    ensures
        forall|i: int, j: int|
            0 <= i < j < runner_run(s, evs).1.len() && (#[trigger] runner_run(s, evs).1[i]) is Finish
                ==> !sends(#[trigger] runner_run(s, evs).1[j]),
    decreases evs.len(),
{
    if evs.len() > 0 {
        let (s1, a) = runner_next(s, evs[0]);
        let rest = evs.drop_first();
        let acts = runner_run(s, evs).1;
        let tail = runner_run(s1, rest).1;
        lemma_finished_is_last(s1, rest);
        lemma_run_len(s1, rest);
        if a is Finish {
            lemma_stopped_sends_nothing(s1, rest);
        }
        assert forall|i: int, j: int|
            0 <= i < j < acts.len() && (#[trigger] acts[i]) is Finish implies !sends(
            #[trigger] acts[j],
        ) by {
            assert(acts[j] == tail[j - 1]);
            if i > 0 {
                assert(acts[i] == tail[i - 1]);
            }
        }
    }
}

} // verus!
