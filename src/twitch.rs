//! The platform's records and the requests and replies that carry them.

use vstd::prelude::*;
use crate::json::{
    array_elements, member_of, is_json, json_elements_of, json_members_of, json_valid, number_field,
    number_member, object_members, string_field, string_member, u64_field, u64_member,
};
use crate::util::{ExitCode, ExitMsg, outcome};

verus! {

/// A channel as the users endpoint describes it.
#[derive(Debug)]
pub struct Channel {
    pub id: String,
    pub login: String,
    pub display_name: String,
    pub broadcaster_type: String,
    pub description: String,
    pub view_count: u64,
    pub created_at: String,
}

/// A channel as plain values.
pub struct ChannelView {
    pub id: Seq<char>,
    pub login: Seq<char>,
    pub display_name: Seq<char>,
    pub broadcaster_type: Seq<char>,
    pub description: Seq<char>,
    pub view_count: u64,
    pub created_at: Seq<char>,
}

impl View for Channel {
    type V = ChannelView;

    open spec fn view(&self) -> ChannelView {
        ChannelView {
            id: self.id@,
            login: self.login@,
            display_name: self.display_name@,
            broadcaster_type: self.broadcaster_type@,
            description: self.description@,
            view_count: self.view_count,
            created_at: self.created_at@,
        }
    }
}

/// An archived broadcast.
#[derive(Debug)]
pub struct VodData {
    pub id: String,
    pub title: String,
    pub created_at: String,
    pub duration: String,
    pub view_count: u64,
    pub thumbnail_url: String,
    pub user_id: String,
    pub user_name: String,
    pub user_login: String,
}

/// A broadcast as plain values.
pub struct VodView {
    pub id: Seq<char>,
    pub title: Seq<char>,
    pub created_at: Seq<char>,
    pub duration: Seq<char>,
    pub view_count: u64,
    pub thumbnail_url: Seq<char>,
    pub user_id: Seq<char>,
    pub user_name: Seq<char>,
    pub user_login: Seq<char>,
}

impl View for VodData {
    type V = VodView;

    open spec fn view(&self) -> VodView {
        VodView {
            id: self.id@,
            title: self.title@,
            created_at: self.created_at@,
            duration: self.duration@,
            view_count: self.view_count,
            thumbnail_url: self.thumbnail_url@,
            user_id: self.user_id@,
            user_name: self.user_name@,
            user_login: self.user_login@,
        }
    }
}

/// A clip. Its duration in seconds is kept as the JSON number's text.
#[derive(Debug)]
pub struct ClipData {
    pub id: String,
    pub title: String,
    pub created_at: String,
    pub duration: String,
    pub view_count: u64,
    pub thumbnail_url: String,
    pub broadcaster_id: String,
    pub broadcaster_name: String,
    pub creator_id: String,
    pub creator_name: String,
}

/// A clip as plain values.
pub struct ClipView {
    pub id: Seq<char>,
    pub title: Seq<char>,
    pub created_at: Seq<char>,
    pub duration: Seq<char>,
    pub view_count: u64,
    pub thumbnail_url: Seq<char>,
    pub broadcaster_id: Seq<char>,
    pub broadcaster_name: Seq<char>,
    pub creator_id: Seq<char>,
    pub creator_name: Seq<char>,
}

impl View for ClipData {
    type V = ClipView;

    open spec fn view(&self) -> ClipView {
        ClipView {
            id: self.id@,
            title: self.title@,
            created_at: self.created_at@,
            duration: self.duration@,
            view_count: self.view_count,
            thumbnail_url: self.thumbnail_url@,
            broadcaster_id: self.broadcaster_id@,
            broadcaster_name: self.broadcaster_name@,
            creator_id: self.creator_id@,
            creator_name: self.creator_name@,
        }
    }
}

/// One item of a listing.
#[derive(Debug)]
pub enum VideoType {
    Vod(VodData),
    Clip(ClipData),
}

/// An item as plain values.
pub enum VideoView {
    Vod(VodView),
    Clip(ClipView),
}

impl View for VideoType {
    type V = VideoView;

    open spec fn view(&self) -> VideoView {
        match self {
            VideoType::Vod(v) => VideoView::Vod(v@),
            VideoType::Clip(c) => VideoView::Clip(c@),
        }
    }
}

impl VideoView {
    pub open spec fn thumbnail_url(self) -> Seq<char> {
        match self {
            VideoView::Vod(v) => v.thumbnail_url,
            VideoView::Clip(c) => c.thumbnail_url,
        }
    }

    /// An item may be downloaded once the platform has made its preview.
    pub open spec fn is_ready(self) -> bool {
        self.thumbnail_url().len() > 0
    }
}

impl VideoType {
    /// Whether the item may be downloaded: its thumbnail address is not empty.
    pub fn is_ready(&self) -> (r: bool)
        ensures
            r == self@.is_ready(),
    {
        match self {
            VideoType::Vod(v) => !v.thumbnail_url.as_str().is_empty(),
            VideoType::Clip(c) => !c.thumbnail_url.as_str().is_empty(),
        }
    }
}

/// Which listing an item comes from.
#[derive(Copy, Clone, Debug, PartialEq, Eq, Structural)]
pub enum VideoKind {
    Vod,
    Clip,
}

/// The channel that the JSON object `text` describes, when it has every field
/// with the right type.
pub open spec fn channel_of(text: Seq<char>) -> Option<ChannelView> {
    match json_members_of(text) {
        None => None,
        Some(m) => {
            if string_field(m, "id"@) is Some && string_field(m, "login"@) is Some
                && string_field(m, "display_name"@) is Some && string_field(
                m,
                "broadcaster_type"@,
            ) is Some && string_field(m, "description"@) is Some && u64_field(
                m,
                "view_count"@,
            ) is Some && string_field(m, "created_at"@) is Some {
                Some(
                    ChannelView {
                        id: string_field(m, "id"@)->0,
                        login: string_field(m, "login"@)->0,
                        display_name: string_field(m, "display_name"@)->0,
                        broadcaster_type: string_field(m, "broadcaster_type"@)->0,
                        description: string_field(m, "description"@)->0,
                        view_count: u64_field(m, "view_count"@)->0,
                        created_at: string_field(m, "created_at"@)->0,
                    },
                )
            } else {
                None
            }
        },
    }
}

/// The broadcast that the JSON object `text` describes.
pub open spec fn vod_of(text: Seq<char>) -> Option<VodView> {
    match json_members_of(text) {
        None => None,
        Some(m) => {
            if string_field(m, "id"@) is Some && string_field(m, "title"@) is Some
                && string_field(m, "created_at"@) is Some && string_field(m, "duration"@) is Some
                && u64_field(m, "view_count"@) is Some && string_field(m, "thumbnail_url"@) is Some
                && string_field(m, "user_id"@) is Some && string_field(m, "user_name"@) is Some
                && string_field(m, "user_login"@) is Some {
                Some(
                    VodView {
                        id: string_field(m, "id"@)->0,
                        title: string_field(m, "title"@)->0,
                        created_at: string_field(m, "created_at"@)->0,
                        duration: string_field(m, "duration"@)->0,
                        view_count: u64_field(m, "view_count"@)->0,
                        thumbnail_url: string_field(m, "thumbnail_url"@)->0,
                        user_id: string_field(m, "user_id"@)->0,
                        user_name: string_field(m, "user_name"@)->0,
                        user_login: string_field(m, "user_login"@)->0,
                    },
                )
            } else {
                None
            }
        },
    }
}

/// The clip that the JSON object `text` describes.
pub open spec fn clip_of(text: Seq<char>) -> Option<ClipView> {
    match json_members_of(text) {
        None => None,
        Some(m) => {
            if string_field(m, "id"@) is Some && string_field(m, "title"@) is Some
                && string_field(m, "created_at"@) is Some && number_field(m, "duration"@) is Some
                && u64_field(m, "view_count"@) is Some && string_field(m, "thumbnail_url"@) is Some
                && string_field(m, "broadcaster_id"@) is Some && string_field(
                m,
                "broadcaster_name"@,
            ) is Some && string_field(m, "creator_id"@) is Some && string_field(
                m,
                "creator_name"@,
            ) is Some {
                Some(
                    ClipView {
                        id: string_field(m, "id"@)->0,
                        title: string_field(m, "title"@)->0,
                        created_at: string_field(m, "created_at"@)->0,
                        duration: number_field(m, "duration"@)->0,
                        view_count: u64_field(m, "view_count"@)->0,
                        thumbnail_url: string_field(m, "thumbnail_url"@)->0,
                        broadcaster_id: string_field(m, "broadcaster_id"@)->0,
                        broadcaster_name: string_field(m, "broadcaster_name"@)->0,
                        creator_id: string_field(m, "creator_id"@)->0,
                        creator_name: string_field(m, "creator_name"@)->0,
                    },
                )
            } else {
                None
            }
        },
    }
}

/// An item of the listing `kind` read from the JSON object `text`.
pub open spec fn video_of(text: Seq<char>, kind: VideoKind) -> Option<VideoView> {
    match kind {
        VideoKind::Vod => match vod_of(text) {
            Some(v) => Some(VideoView::Vod(v)),
            None => None,
        },
        VideoKind::Clip => match clip_of(text) {
            Some(c) => Some(VideoView::Clip(c)),
            None => None,
        },
    }
}

/// Reads a channel record.
pub fn channel_from_json(text: &str) -> (r: Option<Channel>)
    ensures
        match r {
            Some(c) => channel_of(text@) == Some(c@),
            None => channel_of(text@) is None,
        },
{
    let m = object_members(text)?;
    Some(
        Channel {
            id: string_member(&m, "id")?,
            login: string_member(&m, "login")?,
            display_name: string_member(&m, "display_name")?,
            broadcaster_type: string_member(&m, "broadcaster_type")?,
            description: string_member(&m, "description")?,
            view_count: u64_member(&m, "view_count")?,
            created_at: string_member(&m, "created_at")?,
        },
    )
}

/// Reads a broadcast record.
pub fn vod_from_json(text: &str) -> (r: Option<VodData>)
    ensures
        match r {
            Some(v) => vod_of(text@) == Some(v@),
            None => vod_of(text@) is None,
        },
{
    let m = object_members(text)?;
    Some(
        VodData {
            id: string_member(&m, "id")?,
            title: string_member(&m, "title")?,
            created_at: string_member(&m, "created_at")?,
            duration: string_member(&m, "duration")?,
            view_count: u64_member(&m, "view_count")?,
            thumbnail_url: string_member(&m, "thumbnail_url")?,
            user_id: string_member(&m, "user_id")?,
            user_name: string_member(&m, "user_name")?,
            user_login: string_member(&m, "user_login")?,
        },
    )
}

/// Reads a clip record.
pub fn clip_from_json(text: &str) -> (r: Option<ClipData>)
    ensures
        match r {
            Some(c) => clip_of(text@) == Some(c@),
            None => clip_of(text@) is None,
        },
{
    let m = object_members(text)?;
    Some(
        ClipData {
            id: string_member(&m, "id")?,
            title: string_member(&m, "title")?,
            created_at: string_member(&m, "created_at")?,
            duration: number_member(&m, "duration")?,
            view_count: u64_member(&m, "view_count")?,
            thumbnail_url: string_member(&m, "thumbnail_url")?,
            broadcaster_id: string_member(&m, "broadcaster_id")?,
            broadcaster_name: string_member(&m, "broadcaster_name")?,
            creator_id: string_member(&m, "creator_id")?,
            creator_name: string_member(&m, "creator_name")?,
        },
    )
}

/// Reads an item of the listing `kind`.
pub fn video_from_json(text: &str, kind: VideoKind) -> (r: Option<VideoType>)
    ensures
        match r {
            Some(v) => video_of(text@, kind) == Some(v@),
            None => video_of(text@, kind) is None,
        },
{
    match kind {
        VideoKind::Vod => match vod_from_json(text) {
            Some(v) => Some(VideoType::Vod(v)),
            None => None,
        },
        VideoKind::Clip => match clip_from_json(text) {
            Some(c) => Some(VideoType::Clip(c)),
            None => None,
        },
    }
}

/// The items of the listing `kind` that the element texts describe, when
/// every one of them reads.
pub open spec fn videos_of(elements: Seq<Seq<char>>, kind: VideoKind) -> Option<Seq<VideoView>> {
    if forall|i: int| 0 <= i < elements.len() ==> (#[trigger] video_of(elements[i], kind)) is Some {
        Some(Seq::new(elements.len(), |i: int| video_of(elements[i], kind)->0))
    } else {
        None
    }
}

/// The channels that the element texts describe, when every one of them reads.
pub open spec fn channels_in(elements: Seq<Seq<char>>) -> Option<Seq<ChannelView>> {
    if forall|i: int| 0 <= i < elements.len() ==> (#[trigger] channel_of(elements[i])) is Some {
        Some(Seq::new(elements.len(), |i: int| channel_of(elements[i])->0))
    } else {
        None
    }
}

/// The views of a list of items.
pub open spec fn videos_view(v: Seq<VideoType>) -> Seq<VideoView> {
    v.map_values(|x: VideoType| x@)
}

/// The views of a list of channels.
pub open spec fn channels_view(v: Seq<Channel>) -> Seq<ChannelView> {
    v.map_values(|x: Channel| x@)
}

/// Reads every element as an item of the listing `kind`; `None` as soon as one
/// does not read.
pub fn videos_from_json(elements: &Vec<String>, kind: VideoKind) -> (r: Option<Vec<VideoType>>)
    ensures
        match r {
            Some(v) => videos_of(elements.deep_view(), kind) == Some(videos_view(v@)),
            None => videos_of(elements.deep_view(), kind) is None,
        },
{
    let ghost e = elements.deep_view();
    let mut out: Vec<VideoType> = Vec::new();
    let mut i: usize = 0;
    while i < elements.len()
        invariant
            i <= elements.len(),
            e == elements.deep_view(),
            out.len() == i,
            forall|j: int| 0 <= j < i ==> video_of(e[j], kind) == Some(#[trigger] out@[j]@),
        decreases elements.len() - i,
    {
        match video_from_json(elements[i].as_str(), kind) {
            Some(v) => out.push(v),
            None => {
                assert(video_of(e[i as int], kind) is None);
                return None;
            },
        }
        i = i + 1;
    }
    assert forall|j: int| 0 <= j < e.len() implies (#[trigger] video_of(e[j], kind)) is Some by {
        assert(video_of(e[j], kind) == Some(out@[j]@));
    }
    assert(Seq::new(e.len(), |j: int| video_of(e[j], kind)->0) =~= videos_view(out@));
    Some(out)
}

/// Reads every element as a channel; `None` as soon as one does not read.
pub fn channels_from_json(elements: &Vec<String>) -> (r: Option<Vec<Channel>>)
    ensures
        match r {
            Some(v) => channels_in(elements.deep_view()) == Some(channels_view(v@)),
            None => channels_in(elements.deep_view()) is None,
        },
{
    let ghost e = elements.deep_view();
    let mut out: Vec<Channel> = Vec::new();
    let mut i: usize = 0;
    while i < elements.len()
        invariant
            i <= elements.len(),
            e == elements.deep_view(),
            out.len() == i,
            forall|j: int| 0 <= j < i ==> channel_of(e[j]) == Some(#[trigger] out@[j]@),
        decreases elements.len() - i,
    {
        match channel_from_json(elements[i].as_str()) {
            Some(c) => out.push(c),
            None => {
                assert(channel_of(e[i as int]) is None);
                return None;
            },
        }
        i = i + 1;
    }
    assert forall|j: int| 0 <= j < e.len() implies (#[trigger] channel_of(e[j])) is Some by {
        assert(channel_of(e[j]) == Some(out@[j]@));
    }
    assert(Seq::new(e.len(), |j: int| channel_of(e[j])->0) =~= channels_view(out@));
    Some(out)
}

/// How one request to the platform ended.
#[derive(Debug)]
pub enum Reply {
    /// The platform could not be reached.
    NoConnection(String),
    /// It answered, but the body could not be read.
    Unreadable(String),
    /// It answered with this body.
    Body(String),
}

/// The address of the token exchange for a client's credentials.
pub open spec fn token_address(client_id: Seq<char>, client_secret: Seq<char>) -> Seq<char> {
    "https://id.twitch.tv/oauth2/token?client_id="@ + client_id + "&client_secret="@
        + client_secret + "&grant_type=client_credentials"@
}

/// Builds the address of the token exchange (sent as a POST).
pub fn token_url(client_id: &str, client_secret: &str) -> (r: String)
    ensures
        r@ == token_address(client_id@, client_secret@),
{
    let mut url = String::from_str("https://id.twitch.tv/oauth2/token?client_id=");
    url.append(client_id);
    url.append("&client_secret=");
    url.append(client_secret);
    url.append("&grant_type=client_credentials");
    url
}

/// The access token that a token reply body carries.
pub open spec fn access_token_of(body: Seq<char>) -> Option<Seq<char>> {
    match json_members_of(body) {
        Some(m) => string_field(m, "access_token"@),
        None => None,
    }
}

/// What the token exchange yields for each reply.
pub open spec fn token_outcome(reply: Reply) -> Result<Seq<char>, ExitCode> {
    match reply {
        Reply::NoConnection(_) => Err(ExitCode::NoConnection),
        Reply::Unreadable(_) => Err(ExitCode::CannotParseResponse),
        Reply::Body(b) => if !json_valid(b@) {
            Err(ExitCode::CannotParseResponse)
        } else {
            match access_token_of(b@) {
                Some(t) => Ok(t),
                None => Err(ExitCode::CannotFindAccessToken),
            }
        },
    }
}

/// Takes the access token out of the token exchange's reply.
pub fn get_access_token(reply: &Reply) -> (r: Result<String, ExitMsg>)
    ensures
        outcome(r) == token_outcome(*reply),
{
    match reply {
        Reply::NoConnection(why) => Err(
            ExitMsg::with_reason(
                ExitCode::NoConnection,
                "No response from Twitch for auth.",
                why.as_str(),
            ),
        ),
        Reply::Unreadable(why) => Err(
            ExitMsg::with_reason(
                ExitCode::CannotParseResponse,
                "Cannot read response from Twitch for auth.",
                why.as_str(),
            ),
        ),
        Reply::Body(body) => {
            if !is_json(body.as_str()) {
                return Err(
                    ExitMsg::new(
                        ExitCode::CannotParseResponse,
                        "Cannot parse response from Twitch for auth.",
                    ),
                );
            }
            let token = match object_members(body.as_str()) {
                Some(m) => string_member(&m, "access_token"),
                None => None,
            };
            match token {
                Some(t) => Ok(t),
                None => Err(
                    ExitMsg::new(
                        ExitCode::CannotFindAccessToken,
                        "Cannot read key \"access_token\" from response from Twitch for auth.",
                    ),
                ),
            }
        },
    }
}

/// A token reply that is JSON but has no string `access_token` member fails
/// with `CannotFindAccessToken`.
pub proof fn lemma_token_missing_field(body: String)
    requires
        json_valid(body@),
        access_token_of(body@) is None,
    ensures
        token_outcome(Reply::Body(body)) == Err::<Seq<char>, _>(ExitCode::CannotFindAccessToken),
{
}

/// `parts` with `sep` between each two of them.
pub open spec fn joined(parts: Seq<Seq<char>>, sep: Seq<char>) -> Seq<char>
    decreases parts.len(),
{
    if parts.len() == 0 {
        Seq::empty()
    } else if parts.len() == 1 {
        parts[0]
    } else {
        joined(parts.drop_last(), sep) + sep + parts.last()
    }
}

/// The address of one lookup of all `logins`, each as its own `login` parameter.
pub open spec fn channels_address(logins: Seq<Seq<char>>) -> Seq<char> {
    "https://api.twitch.tv/helix/users?login="@ + joined(logins, "&login="@)
}

/// Builds the channel lookup's address; an empty list is refused before any
/// request is made.
pub fn channels_url(logins: &Vec<String>) -> (r: Result<String, ExitMsg>)
    ensures
        outcome(r) == if logins.len() == 0 {
            Err(ExitCode::MissingConfigChannels)
        } else {
            Ok(channels_address(logins.deep_view()))
        },
{
    if logins.len() == 0 {
        return Err(
            ExitMsg::new(
                ExitCode::MissingConfigChannels,
                "Missing channel names in the config file.",
            ),
        );
    }
    let ghost names = logins.deep_view();
    let mut list = logins[0].clone();
    let mut i: usize = 1;
    assert(names.take(1).drop_last() =~= Seq::<Seq<char>>::empty());
    while i < logins.len()
        invariant
            1 <= i <= logins.len(),
            names == logins.deep_view(),
            list@ == joined(names.take(i as int), "&login="@),
        decreases logins.len() - i,
    {
        list.append("&login=");
        list.append(logins[i].as_str());
        assert(names.take(i + 1).drop_last() =~= names.take(i as int));
        i = i + 1;
    }
    assert(names.take(i as int) =~= names);
    let mut url = String::from_str("https://api.twitch.tv/helix/users?login=");
    url.append(list.as_str());
    Ok(url)
}

/// The channels that a lookup reply body lists under `data`.
pub open spec fn channels_of(body: Seq<char>) -> Option<Seq<ChannelView>> {
    match json_members_of(body) {
        Some(m) => match member_of(m, "data"@) {
            Some(d) => match json_elements_of(d) {
                Some(e) => channels_in(e),
                None => None,
            },
            None => None,
        },
        None => None,
    }
}

/// What the channel lookup yields for each reply: a body without a readable
/// `data` list is an error, never an empty result.
pub open spec fn channels_outcome(reply: Reply) -> Result<Seq<ChannelView>, ExitCode> {
    match reply {
        Reply::NoConnection(_) => Err(ExitCode::NoConnection),
        Reply::Unreadable(_) => Err(ExitCode::CannotParseResponse),
        Reply::Body(b) => match channels_of(b@) {
            Some(c) => Ok(c),
            None => Err(ExitCode::CannotParseResponse),
        },
    }
}

/// Reads the channels out of the lookup's reply.
pub fn get_channels(reply: &Reply) -> (r: Result<Vec<Channel>, ExitMsg>)
    ensures
        match r {
            Ok(v) => channels_outcome(*reply) == Ok::<_, ExitCode>(channels_view(v@)),
            Err(e) => channels_outcome(*reply) == Err::<Seq<ChannelView>, _>(e.code),
        },
{
    match reply {
        Reply::NoConnection(why) => Err(
            ExitMsg::with_reason(
                ExitCode::NoConnection,
                "No response from Twitch for channels.",
                why.as_str(),
            ),
        ),
        Reply::Unreadable(why) => Err(
            ExitMsg::with_reason(
                ExitCode::CannotParseResponse,
                "Cannot read response from Twitch for channels.",
                why.as_str(),
            ),
        ),
        Reply::Body(body) => {
            let found = match object_members(body.as_str()) {
                Some(m) => match crate::json::find_member(&m, &String::from_str("data")) {
                    Some(d) => match array_elements(d.as_str()) {
                        Some(e) => channels_from_json(&e),
                        None => None,
                    },
                    None => None,
                },
                None => None,
            };
            match found {
                Some(c) => Ok(c),
                None => Err(
                    ExitMsg::new(
                        ExitCode::CannotParseResponse,
                        "Cannot read key \"data\" from response from Twitch for channels.",
                    ),
                ),
            }
        },
    }
}

} // verus!
