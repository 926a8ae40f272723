//! A whole pull run as a state machine.
//!
//! The run creates the output directories, exchanges the credentials for a
//! token, looks the channels up, and lists each channel's broadcasts and/or
//! clips, keeping the items that are ready and counting them per channel.
//! It does no input or output itself: each step returns the `Action` to
//! perform, and the caller hands the outcome back as an `Event`. The first
//! failure ends the run.

use vstd::prelude::*;
use crate::collector::{Collector, CollectorView, page_address};
use crate::twitch::{
    Channel, ChannelView, Reply, VideoKind, VideoType, VideoView, channels_address,
    channels_outcome, channels_view, get_access_token, get_channels, token_address,
    token_outcome, token_url, channels_url, videos_view,
};
use crate::util::{Config, ExitCode, ExitMsg};

verus! {

/// Which listings a run pulls.
#[derive(Copy, Clone, Debug, PartialEq, Eq, Structural)]
pub enum ContentKind {
    Vods,
    Clips,
    Both,
}

impl ContentKind {
    pub open spec fn wants_vods(self) -> bool {
        self is Vods || self is Both
    }

    pub open spec fn wants_clips(self) -> bool {
        self is Clips || self is Both
    }

    /// The listing a channel starts with.
    pub open spec fn first_listing(self) -> VideoKind {
        if self.wants_vods() {
            VideoKind::Vod
        } else {
            VideoKind::Clip
        }
    }

    /// The kind named on the command line; `both` when none is given, `None`
    /// for a name that is not one of `vods`, `clips`, `both`.
    pub fn from_arg(arg: Option<&str>) -> (r: Option<ContentKind>)
        ensures
            r == match arg {
                None => Some(ContentKind::Both),
                Some(a) => if a@ == "vods"@ {
                    Some(ContentKind::Vods)
                } else if a@ == "clips"@ {
                    Some(ContentKind::Clips)
                } else if a@ == "both"@ {
                    Some(ContentKind::Both)
                } else {
                    None
                },
            },
    {
        match arg {
            None => Some(ContentKind::Both),
            Some(a) => {
                let a = String::from_str(a);
                if a == String::from_str("vods") {
                    Some(ContentKind::Vods)
                } else if a == String::from_str("clips") {
                    Some(ContentKind::Clips)
                } else if a == String::from_str("both") {
                    Some(ContentKind::Both)
                } else {
                    None
                }
            },
        }
    }

    pub fn includes_vods(&self) -> (r: bool)
        ensures
            r == self.wants_vods(),
    {
        match self {
            ContentKind::Clips => false,
            _ => true,
        }
    }

    pub fn includes_clips(&self) -> (r: bool)
        ensures
            r == self.wants_clips(),
    {
        match self {
            ContentKind::Vods => false,
            _ => true,
        }
    }
}

/// The items found for one channel.
#[derive(Debug)]
pub struct ChannelCount {
    pub login: String,
    pub vods: usize,
    pub clips: usize,
}

/// A channel's counts as plain values.
pub struct ChannelCountView {
    pub login: Seq<char>,
    pub vods: nat,
    pub clips: nat,
}

impl View for ChannelCount {
    type V = ChannelCountView;

    open spec fn view(&self) -> ChannelCountView {
        ChannelCountView { login: self.login@, vods: self.vods as nat, clips: self.clips as nat }
    }
}

/// Per-channel and run-wide counts of the items found.
#[derive(Debug)]
pub struct RunReport {
    pub channels: Vec<ChannelCount>,
    pub total_vods: usize,
    pub total_clips: usize,
}

/// A report as plain values.
pub struct RunReportView {
    pub channels: Seq<ChannelCountView>,
    pub total_vods: nat,
    pub total_clips: nat,
}

impl View for RunReport {
    type V = RunReportView;

    open spec fn view(&self) -> RunReportView {
        RunReportView {
            channels: self.channels@.map_values(|c: ChannelCount| c@),
            total_vods: self.total_vods as nat,
            total_clips: self.total_clips as nat,
        }
    }
}

/// The broadcasts counted over `channels`.
pub open spec fn sum_vods(channels: Seq<ChannelCountView>) -> nat
    decreases channels.len(),
{
    if channels.len() == 0 {
        0
    } else {
        sum_vods(channels.drop_last()) + channels.last().vods
    }
}

/// The clips counted over `channels`.
pub open spec fn sum_clips(channels: Seq<ChannelCountView>) -> nat
    decreases channels.len(),
{
    if channels.len() == 0 {
        0
    } else {
        sum_clips(channels.drop_last()) + channels.last().clips
    }
}

impl RunReportView {
    /// The run-wide totals are the sums of the per-channel counts.
    pub open spec fn consistent(self) -> bool {
        &&& self.total_vods == sum_vods(self.channels)
        &&& self.total_clips == sum_clips(self.channels)
    }
}

/// What the caller is to do next.
#[derive(Debug)]
pub enum Action {
    /// Create the directory `root`, or `root/channel`, with its parents; an
    /// existing directory is no failure.
    CreateDir { root: String, channel: Option<String> },
    /// Send a POST to `url`.
    Post { url: String },
    /// Send a GET to `url` with the headers `Client-ID: client_id` and
    /// `Authorization: bearer`.
    Get { url: String, client_id: String, bearer: String },
    /// The run is over.
    Finish(Result<(), ExitMsg>),
}

/// An action as plain values, errors by their code.
pub enum ActionView {
    CreateDir { root: Seq<char>, channel: Option<Seq<char>> },
    Post { url: Seq<char> },
    Get { url: Seq<char>, client_id: Seq<char>, bearer: Seq<char> },
    Finish(Result<(), ExitCode>),
}

impl View for Action {
    type V = ActionView;

    open spec fn view(&self) -> ActionView {
        match self {
            Action::CreateDir { root, channel } => ActionView::CreateDir {
                root: root@,
                channel: channel.deep_view(),
            },
            Action::Post { url } => ActionView::Post { url: url@ },
            Action::Get { url, client_id, bearer } => ActionView::Get {
                url: url@,
                client_id: client_id@,
                bearer: bearer@,
            },
            Action::Finish(r) => ActionView::Finish(
                match r {
                    Ok(_) => Ok(()),
                    Err(e) => Err(e.code),
                },
            ),
        }
    }
}

/// The outcome of an action.
#[derive(Debug)]
pub enum Event {
    DirCreated,
    DirFailed(String),
    Replied(Reply),
}

/// The value of the `Authorization` header for a token.
pub open spec fn bearer_of(token: Seq<char>) -> Seq<char> {
    "Bearer "@ + token
}

/// What the run is waiting for.
pub enum Stage {
    Start,
    TempDir,
    VodsDir,
    ClipsDir,
    Token,
    Channels,
    ChannelDir(VideoKind),
    Listing(Collector),
    Done,
}

/// A stage as plain values.
pub enum StageView {
    Start,
    TempDir,
    VodsDir,
    ClipsDir,
    Token,
    Channels,
    ChannelDir(VideoKind),
    Listing(CollectorView),
    Done,
}

impl View for Stage {
    type V = StageView;

    open spec fn view(&self) -> StageView {
        match self {
            Stage::Start => StageView::Start,
            Stage::TempDir => StageView::TempDir,
            Stage::VodsDir => StageView::VodsDir,
            Stage::ClipsDir => StageView::ClipsDir,
            Stage::Token => StageView::Token,
            Stage::Channels => StageView::Channels,
            Stage::ChannelDir(k) => StageView::ChannelDir(*k),
            Stage::Listing(c) => StageView::Listing(c@),
            Stage::Done => StageView::Done,
        }
    }
}

/// A run as plain values.
pub struct PullView {
    pub kind: ContentKind,
    pub client_id: Seq<char>,
    pub client_secret: Seq<char>,
    pub logins: Seq<Seq<char>>,
    pub temp_dir: Seq<char>,
    pub vods_dir: Seq<char>,
    pub clips_dir: Seq<char>,
    pub token: Seq<char>,
    pub channels: Seq<ChannelView>,
    /// The channel being worked on; the channels before it are done.
    pub index: nat,
    pub stage: StageView,
    /// The ready items found so far, channel by channel.
    pub videos: Seq<VideoView>,
    /// Counts of the current channel.
    pub vods: nat,
    pub clips: nat,
    pub report: RunReportView,
}

impl PullView {
    pub open spec fn root_of(self, k: VideoKind) -> Seq<char> {
        match k {
            VideoKind::Vod => self.vods_dir,
            VideoKind::Clip => self.clips_dir,
        }
    }

    /// The counts stay consistent with the items, and a channel stage names a
    /// channel of the lookup.
    pub open spec fn wf(self) -> bool {
        &&& self.report.total_vods + self.report.total_clips + self.vods + self.clips
            == self.videos.len()
        &&& forall|i: int| 0 <= i < self.videos.len() ==> (#[trigger] self.videos[i]).is_ready()
        &&& self.report.channels.len() == self.index
        &&& self.report.consistent()
        &&& self.stage is TempDir || self.stage is VodsDir || self.stage is ClipsDir
            || self.stage is Token ==> self.logins.len() > 0
        &&& self.stage is Start || self.stage is TempDir || self.stage is VodsDir
            || self.stage is ClipsDir || self.stage is Token || self.stage is Channels
            ==> self.index == 0
        &&& match self.stage {
            StageView::ChannelDir(k) => {
                &&& self.index < self.channels.len()
                &&& k == VideoKind::Vod ==> self.kind.wants_vods() && self.vods == 0 && self.clips
                    == 0
                &&& k == VideoKind::Clip ==> self.kind.wants_clips() && self.clips == 0
            },
            StageView::Listing(c) => {
                &&& self.index < self.channels.len()
                &&& c.wf()
                &&& !c.finished
                &&& c.channel_id == self.channels[self.index as int].id
                &&& c.kind == VideoKind::Vod ==> self.kind.wants_vods() && self.vods == 0
                    && self.clips == 0
                &&& c.kind == VideoKind::Clip ==> self.kind.wants_clips() && self.clips == 0
            },
            StageView::Done => true,
            _ => self.vods == 0 && self.clips == 0,
        }
    }

    /// Between two channels: counts consistent, no channel under way.
    pub open spec fn between_channels(self) -> bool {
        &&& self.report.total_vods + self.report.total_clips == self.videos.len()
        &&& forall|i: int| 0 <= i < self.videos.len() ==> (#[trigger] self.videos[i]).is_ready()
        &&& self.report.channels.len() == self.index
        &&& self.report.consistent()
        &&& self.vods == 0
        &&& self.clips == 0
    }

    /// Whether `event` is an outcome of the action that the stage waits on.
    pub open spec fn awaits(self, event: Event) -> bool {
        match self.stage {
            StageView::TempDir | StageView::VodsDir | StageView::ClipsDir
            | StageView::ChannelDir(_) => !(event is Replied),
            StageView::Token | StageView::Channels | StageView::Listing(_) => event is Replied,
            _ => false,
        }
    }

    /// The request for the next page of a listing.
    pub open spec fn fetch(self, c: CollectorView) -> ActionView {
        ActionView::Get {
            url: page_address(c.kind, c.channel_id, c.cursor),
            client_id: self.client_id,
            bearer: bearer_of(self.token),
        }
    }

    /// Starts the channel at `index`, or ends the run when none is left.
    pub open spec fn enter_channel(self) -> (PullView, ActionView) {
        if self.index >= self.channels.len() {
            (PullView { stage: StageView::Done, ..self }, ActionView::Finish(Ok(())))
        } else {
            let k = self.kind.first_listing();
            (
                PullView { stage: StageView::ChannelDir(k), ..self },
                ActionView::CreateDir {
                    root: self.root_of(k),
                    channel: Some(self.channels[self.index as int].login),
                },
            )
        }
    }

    /// Records a finished listing and moves on to the channel's clips, or to
    /// the next channel.
    pub open spec fn listing_done(self, c: CollectorView) -> (PullView, ActionView) {
        let n = c.items.len();
        let s = PullView {
            videos: self.videos + c.items,
            vods: if c.kind == VideoKind::Vod {
                n
            } else {
                self.vods
            },
            clips: if c.kind == VideoKind::Clip {
                n
            } else {
                self.clips
            },
            ..self
        };
        if c.kind == VideoKind::Vod && self.kind.wants_clips() {
            (
                PullView { stage: StageView::ChannelDir(VideoKind::Clip), ..s },
                ActionView::CreateDir {
                    root: self.clips_dir,
                    channel: Some(self.channels[self.index as int].login),
                },
            )
        } else {
            let done = ChannelCountView {
                login: self.channels[self.index as int].login,
                vods: s.vods,
                clips: s.clips,
            };
            PullView {
                index: self.index + 1,
                vods: 0,
                clips: 0,
                report: RunReportView {
                    channels: self.report.channels.push(done),
                    total_vods: self.report.total_vods + s.vods,
                    total_clips: self.report.total_clips + s.clips,
                },
                ..s
            }.enter_channel()
        }
    }

    /// The first step of a run: an empty channel list ends it before any
    /// directory or request.
    pub open spec fn begin(self) -> (PullView, ActionView) {
        if self.logins.len() == 0 {
            (
                PullView { stage: StageView::Done, ..self },
                ActionView::Finish(Err(ExitCode::MissingConfigChannels)),
            )
        } else {
            (
                PullView { stage: StageView::TempDir, ..self },
                ActionView::CreateDir { root: self.temp_dir, channel: None },
            )
        }
    }

    /// The step that an event causes.
    pub open spec fn next(self, event: Event) -> (PullView, ActionView) {
        let failed = (
            PullView { stage: StageView::Done, ..self },
            ActionView::Finish(Err(ExitCode::CannotCreateDir)),
        );
        match self.stage {
            StageView::TempDir => if event is DirFailed {
                failed
            } else {
                (
                    PullView { stage: StageView::VodsDir, ..self },
                    ActionView::CreateDir { root: self.vods_dir, channel: None },
                )
            },
            StageView::VodsDir => if event is DirFailed {
                failed
            } else {
                (
                    PullView { stage: StageView::ClipsDir, ..self },
                    ActionView::CreateDir { root: self.clips_dir, channel: None },
                )
            },
            StageView::ClipsDir => if event is DirFailed {
                failed
            } else {
                (
                    PullView { stage: StageView::Token, ..self },
                    ActionView::Post { url: token_address(self.client_id, self.client_secret) },
                )
            },
            StageView::Token => match token_outcome(event->Replied_0) {
                Err(code) => (PullView { stage: StageView::Done, ..self }, ActionView::Finish(Err(code))),
                Ok(token) => (
                    PullView { stage: StageView::Channels, token, ..self },
                    ActionView::Get {
                        url: channels_address(self.logins),
                        client_id: self.client_id,
                        bearer: bearer_of(token),
                    },
                ),
            },
            StageView::Channels => match channels_outcome(event->Replied_0) {
                Err(code) => (PullView { stage: StageView::Done, ..self }, ActionView::Finish(Err(code))),
                Ok(channels) => PullView { channels, index: 0, ..self }.enter_channel(),
            },
            StageView::ChannelDir(k) => if event is DirFailed {
                failed
            } else {
                let c = CollectorView {
                    kind: k,
                    channel_id: self.channels[self.index as int].id,
                    cursor: None,
                    items: Seq::empty(),
                    pages: 0,
                    finished: false,
                };
                (PullView { stage: StageView::Listing(c), ..self }, self.fetch(c))
            },
            StageView::Listing(c) => {
                let (c2, r) = c.after(crate::collector::reply_page(event->Replied_0, c.kind));
                match r {
                    Err(code) => (PullView { stage: StageView::Done, ..self }, ActionView::Finish(Err(code))),
                    Ok(_) => if c2.finished {
                        self.listing_done(c2)
                    } else {
                        (PullView { stage: StageView::Listing(c2), ..self }, self.fetch(c2))
                    },
                }
            },
            _ => (self, ActionView::Finish(Ok(()))),
        }
    }
}

/// A run without channels ends at its first step with
/// `MissingConfigChannels`: no directory is made and no request is sent, and
/// a finished run awaits no further event.
pub proof fn lemma_no_channels_no_request(p: PullView, event: Event)
    requires
        p.logins.len() == 0,
    ensures
        p.begin().1 == ActionView::Finish(Err(ExitCode::MissingConfigChannels)),
        p.begin().0.stage == StageView::Done,
        !p.begin().0.awaits(event),
{
}

/// A pull run.
pub struct Pull {
    kind: ContentKind,
    client_id: String,
    client_secret: String,
    logins: Vec<String>,
    temp_dir: String,
    vods_dir: String,
    clips_dir: String,
    token: String,
    channels: Vec<Channel>,
    index: usize,
    stage: Stage,
    videos: Vec<VideoType>,
    vods: usize,
    clips: usize,
    report: RunReport,
}

impl View for Pull {
    type V = PullView;

    closed spec fn view(&self) -> PullView {
        PullView {
            kind: self.kind,
            client_id: self.client_id@,
            client_secret: self.client_secret@,
            logins: self.logins.deep_view(),
            temp_dir: self.temp_dir@,
            vods_dir: self.vods_dir@,
            clips_dir: self.clips_dir@,
            token: self.token@,
            channels: channels_view(self.channels@),
            index: self.index as nat,
            stage: self.stage@,
            videos: videos_view(self.videos@),
            vods: self.vods as nat,
            clips: self.clips as nat,
            report: self.report@,
        }
    }
}

impl Pull {
    /// A run over the configured channels and directories.
    pub fn new(config: Config, kind: ContentKind) -> (r: Pull)
        ensures
            r@.wf(),
            r@.stage == StageView::Start,
            r@.kind == kind,
            r@.client_id == config.twitch_client_id@,
            r@.client_secret == config.twitch_client_secret@,
            r@.logins == config.twitch_channels.deep_view(),
            r@.temp_dir == config.temp_dir@,
            r@.vods_dir == config.vods_dir@,
            r@.clips_dir == config.clips_dir@,
            r@.channels.len() == 0,
            r@.index == 0,
            r@.videos.len() == 0,
            r@.report.channels.len() == 0,
            r@.report.total_vods == 0,
            r@.report.total_clips == 0,
    {
        let Config {
            twitch_channels,
            twitch_client_id,
            twitch_client_secret,
            temp_dir,
            vods_dir,
            clips_dir,
            ..
        } = config;
        Pull {
            kind,
            client_id: twitch_client_id,
            client_secret: twitch_client_secret,
            logins: twitch_channels,
            temp_dir,
            vods_dir,
            clips_dir,
            token: String::new(),
            channels: Vec::new(),
            index: 0,
            stage: Stage::Start,
            videos: Vec::new(),
            vods: 0,
            clips: 0,
            report: RunReport { channels: Vec::new(), total_vods: 0, total_clips: 0 },
        }
    }

    /// The ready items found so far.
    pub fn videos(&self) -> (r: &Vec<VideoType>)
        ensures
            videos_view(r@) == self@.videos,
    {
        &self.videos
    }

    /// The counts of the channels done so far.
    pub fn report(&self) -> (r: &RunReport)
        ensures
            r@ == self@.report,
    {
        &self.report
    }

    /// Hands over the ready items and the report.
    pub fn into_results(self) -> (r: (Vec<VideoType>, RunReport))
        ensures
            videos_view(r.0@) == self@.videos,
            r.1@ == self@.report,
    {
        (self.videos, self.report)
    }

    /// Whether the run is over.
    pub fn is_done(&self) -> (r: bool)
        ensures
            r == (self@.stage is Done),
    {
        match self.stage {
            Stage::Done => true,
            _ => false,
        }
    }

    fn bearer(&self) -> (r: String)
        ensures
            r@ == bearer_of(self.token@),
    {
        let mut b = String::from_str("Bearer ");
        b.append(self.token.as_str());
        b
    }

    fn fetch(&self, c: &Collector) -> (a: Action)
        requires
            !c@.finished,
        ensures
            a@ == self@.fetch(c@),
    {
        let url = match c.next_url() {
            Some(u) => u,
            None => String::new(),
        };
        Action::Get { url, client_id: self.client_id.clone(), bearer: self.bearer() }
    }

    fn finish(&mut self, r: Result<(), ExitMsg>) -> (a: Action)
        ensures
            final(self)@ == (PullView { stage: StageView::Done, ..old(self)@ }),
            a@ == ActionView::Finish(
                match r {
                    Ok(_) => Ok(()),
                    Err(e) => Err(e.code),
                },
            ),
    {
        self.stage = Stage::Done;
        Action::Finish(r)
    }

    fn enter_channel(&mut self) -> (a: Action)
        requires
            old(self)@.between_channels(),
        ensures
            final(self)@.wf(),
            (final(self)@, a@) == old(self)@.enter_channel(),
    {
        if self.index >= self.channels.len() {
            return self.finish(Ok(()));
        }
        let k = if self.kind.includes_vods() {
            VideoKind::Vod
        } else {
            VideoKind::Clip
        };
        let root = match k {
            VideoKind::Vod => self.vods_dir.clone(),
            VideoKind::Clip => self.clips_dir.clone(),
        };
        self.stage = Stage::ChannelDir(k);
        Action::CreateDir { root, channel: Some(self.channels[self.index].login.clone()) }
    }

    fn dir_failed(&mut self, why: String) -> (a: Action)
        ensures
            final(self)@ == (PullView { stage: StageView::Done, ..old(self)@ }),
            a@ == ActionView::Finish(Err(ExitCode::CannotCreateDir)),
    {
        self.finish(
            Err(ExitMsg::with_reason(ExitCode::CannotCreateDir, "Cannot create directory.", why.as_str())),
        )
    }

    /// The first action of the run.
    pub fn start(&mut self) -> (a: Action)
        requires
            old(self)@.wf(),
            old(self)@.stage is Start,
        ensures
            final(self)@.wf(),
            (final(self)@, a@) == old(self)@.begin(),
    {
        if self.logins.len() == 0 {
            return self.finish(
                Err(
                    ExitMsg::new(
                        ExitCode::MissingConfigChannels,
                        "Missing channel names in the config file.",
                    ),
                ),
            );
        }
        self.stage = Stage::TempDir;
        Action::CreateDir { root: self.temp_dir.clone(), channel: None }
    }

    /// Takes the outcome of the last action and returns the next one.
    pub fn on_event(&mut self, event: Event) -> (a: Action)
        requires
            old(self)@.wf(),
            old(self)@.awaits(event),
        ensures
            final(self)@.wf(),
            (final(self)@, a@) == old(self)@.next(event),
    {
        let mut stage = Stage::Done;
        std::mem::swap(&mut self.stage, &mut stage);
        match stage {
            Stage::TempDir => match event {
                Event::DirFailed(why) => self.dir_failed(why),
                _ => {
                    self.stage = Stage::VodsDir;
                    Action::CreateDir { root: self.vods_dir.clone(), channel: None }
                },
            },
            Stage::VodsDir => match event {
                Event::DirFailed(why) => self.dir_failed(why),
                _ => {
                    self.stage = Stage::ClipsDir;
                    Action::CreateDir { root: self.clips_dir.clone(), channel: None }
                },
            },
            Stage::ClipsDir => match event {
                Event::DirFailed(why) => self.dir_failed(why),
                _ => {
                    self.stage = Stage::Token;
                    Action::Post {
                        url: token_url(self.client_id.as_str(), self.client_secret.as_str()),
                    }
                },
            },
            Stage::Token => {
                let reply = match event {
                    Event::Replied(r) => r,
                    _ => {
                        proof {
                            assert(false);
                        }
                        return self.finish(Ok(()));
                    },
                };
                match get_access_token(&reply) {
                    Err(e) => self.finish(Err(e)),
                    Ok(t) => {
                        self.token = t;
                        self.stage = Stage::Channels;
                        let url = match channels_url(&self.logins) {
                            Ok(u) => u,
                            Err(_) => String::new(),
                        };
                        Action::Get { url, client_id: self.client_id.clone(), bearer: self.bearer() }
                    },
                }
            },
            Stage::Channels => {
                let reply = match event {
                    Event::Replied(r) => r,
                    _ => {
                        proof {
                            assert(false);
                        }
                        return self.finish(Ok(()));
                    },
                };
                match get_channels(&reply) {
                    Err(e) => self.finish(Err(e)),
                    Ok(channels) => {
                        self.channels = channels;
                        self.index = 0;
                        self.enter_channel()
                    },
                }
            },
            Stage::ChannelDir(k) => match event {
                Event::DirFailed(why) => self.dir_failed(why),
                _ => {
                    let c = Collector::new(k, self.channels[self.index].id.as_str());
                    let a = self.fetch(&c);
                    self.stage = Stage::Listing(c);
                    a
                },
            },
            Stage::Listing(c) => {
                let mut c = c;
                let reply = match event {
                    Event::Replied(r) => r,
                    _ => {
                        proof {
                            assert(false);
                        }
                        return self.finish(Ok(()));
                    },
                };
                match c.on_reply(&reply) {
                    Err(e) => self.finish(Err(e)),
                    Ok(()) => if c.is_finished() {
                        self.listing_done(c)
                    } else {
                        let a = self.fetch(&c);
                        self.stage = Stage::Listing(c);
                        a
                    },
                }
            },
            _ => {
                proof {
                    assert(false);
                }
                self.finish(Ok(()))
            },
        }
    }

    fn listing_done(&mut self, c: Collector) -> (a: Action)
        requires
            old(self)@.stage is Done,
            old(self)@.report.total_vods + old(self)@.report.total_clips + old(self)@.vods
                + old(self)@.clips == old(self)@.videos.len(),
            forall|i: int|
                0 <= i < old(self)@.videos.len() ==> (#[trigger] old(self)@.videos[i]).is_ready(),
            old(self)@.report.channels.len() == old(self)@.index,
            old(self)@.report.consistent(),
            c@.wf(),
            c@.finished,
            old(self)@.index < old(self)@.channels.len(),
            c@.kind == VideoKind::Vod ==> old(self)@.kind.wants_vods() && old(self)@.vods == 0
                && old(self)@.clips == 0,
            c@.kind == VideoKind::Clip ==> old(self)@.kind.wants_clips() && old(self)@.clips == 0,
        ensures
            final(self)@.wf(),
            (final(self)@, a@) == old(self)@.listing_done(c@),
    {
        let ghost start = self@;
        let kind = c.kind_of();
        let mut items = c.into_items();
        let n = items.len();
        self.videos.append(&mut items);
        assert(videos_view(self.videos@) =~= start.videos + c@.items);
        assert forall|i: int| 0 <= i < self@.videos.len() implies (#[trigger] self@.videos[i]).is_ready() by {
            if i >= start.videos.len() {
                assert(self@.videos[i] == c@.items[i - start.videos.len()]);
            }
        }
        match kind {
            VideoKind::Vod => self.vods = n,
            VideoKind::Clip => self.clips = n,
        }
        if kind == VideoKind::Vod && self.kind.includes_clips() {
            self.stage = Stage::ChannelDir(VideoKind::Clip);
            return Action::CreateDir {
                root: self.clips_dir.clone(),
                channel: Some(self.channels[self.index].login.clone()),
            };
        }
        let ghost mid = self@;
        assert(self.report.total_vods + self.report.total_clips + self.vods + self.clips
            == self.videos.len());
        assert(self.index < self.channels.len());
        let done = ChannelCount {
            login: self.channels[self.index].login.clone(),
            vods: self.vods,
            clips: self.clips,
        };
        self.report.channels.push(done);
        self.report.total_vods = self.report.total_vods + self.vods;
        self.report.total_clips = self.report.total_clips + self.clips;
        self.index = self.index + 1;
        self.vods = 0;
        self.clips = 0;
        assert(self.report@.channels =~= mid.report.channels.push(done@));
        assert(self.report@.channels.drop_last() =~= mid.report.channels);
        self.enter_channel()
    }
}

} // verus!
