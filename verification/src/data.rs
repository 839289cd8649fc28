//! The data sent by the CaptainFact API, and its conversion into records.
use crate::errors::{Error, Result};
use crate::model;
use crate::time::{chrono_rfc3339, parse_api_datetime, spec_api_datetime, Timestamp};
use vstd::prelude::*;

verus! {

/// The answer of the GraphQL index of videos.
#[derive(Clone, Debug)]
pub struct Data {
    pub data: Videos,
}

impl Data {
    /// The hash ids of the videos of the page, in order.
    pub fn hash_id(&self) -> (r: Vec<&String>)
        ensures
            r@.len() == self.data.videos.entries@.len(),
            forall|i: int|
                0 <= i < r@.len() ==> *#[trigger] r@[i] == self.data.videos.entries@[i].hash_id,
    {
        let entries = &self.data.videos.entries;
        let mut r: Vec<&String> = Vec::new();
        let mut i: usize = 0;
        while i < entries.len()
            invariant
                i <= entries@.len(),
                r@.len() == i,
                forall|k: int| 0 <= k < i ==> *#[trigger] r@[k] == entries@[k].hash_id,
            decreases entries@.len() - i,
        {
            r.push(&entries[i].hash_id);
            i += 1;
        }
        r
    }

    /// The number of pages of the index.
    pub fn total_page(&self) -> (r: u32)
        ensures
            r == self.data.videos.total_pages,
    {
        self.data.videos.total_pages
    }
}

/// The `videos` field of the index.
#[derive(Clone, Debug)]
pub struct Videos {
    pub videos: Entries,
}

/// One page of the index of videos.
#[derive(Clone, Debug)]
pub struct Entries {
    pub total_pages: u32,
    pub page_number: u32,
    pub entries: Vec<Video>,
}

/// A video of the index.
#[derive(Clone, Debug)]
pub struct Video {
    pub hash_id: String,
}

/// The messages received on the websocket after joining a channel.
#[derive(Clone, Debug)]
pub struct Debates(pub Vec<Debate>);

/// A message of a channel.
#[derive(Clone, Debug)]
pub enum Debate {
    String(Option<String>),
    Response(Response),
    PresenteState(PresenteState),
}

/// A reply to a request.
#[derive(Clone, Debug)]
pub struct Response {
    pub response: Content,
    pub status: String,
}

/// What a reply holds.
#[derive(Clone, Debug)]
pub enum Content {
    Video(DebateVideo),
    Statements(Vec<Statement>),
    Comments(Comments),
}

/// How many people watch a video.
#[derive(Clone, Debug)]
pub struct PresenteState {
    pub viewers: Count,
    pub users: Count,
}

/// A number of people.
#[derive(Clone, Debug)]
pub struct Count {
    pub count: usize,
}

/// The video of a debate.
#[derive(Clone, Debug)]
pub struct DebateVideo {
    pub hash_id: String,
    pub id: i32,
    pub is_partner: bool,
    pub is_subscribed: bool,
    pub language: Option<String>,
    pub posted_at: String,
    pub provider: String,
    pub provider_id: Option<String>,
    pub speakers: Vec<Speaker>,
    pub thumbnail: String,
    pub title: String,
    pub url: String,
    pub youtube_id: Option<String>,
    pub youtube_offset: i32,
}

/// A speaker of a video.
#[derive(Clone, Debug)]
pub struct Speaker {
    pub country: Option<String>,
    pub full_name: String,
    pub id: i32,
    pub picture: Option<String>,
    pub slug: Option<String>,
    pub title: Option<String>,
    pub wikidata_item_id: Option<String>,
}

/// A statement made in a video.
#[derive(Clone, Debug)]
pub struct Statement {
    pub id: i32,
    pub speaker_id: Option<i32>,
    pub video_id: i32,
    pub text: String,
    pub time: i32,
}

/// The comments of a video.
#[derive(Clone, Debug)]
pub struct Comments {
    pub comments: Vec<Comment>,
}

/// A comment on a statement.
#[derive(Clone, Debug)]
pub struct Comment {
    pub approve: Option<bool>,
    pub id: i32,
    pub inserted_at: String,
    pub is_reported: bool,
    pub reply_to_id: Option<i32>,
    pub score: Option<i32>,
    pub source: Option<Source>,
    pub statement_id: i32,
    pub text: Option<String>,
    pub user: Option<User>,
}

/// The source given by a comment.
#[derive(Clone, Debug)]
pub struct Source {
    pub language: Option<String>,
    pub site_name: Option<String>,
    pub title: Option<String>,
    pub url: String,
}

/// The author of a comment.
#[derive(Clone, Debug)]
pub struct User {
    pub achievements: Vec<i16>,
    pub id: i32,
    pub mini_picture_url: String,
    pub name: Option<String>,
    pub picture_url: String,
    pub registered_at: String,
    pub reputation: i32,
    pub speaker_id: Option<i32>,
    pub username: String,
}

/// The video that a message holds, if it is a reply holding one.
pub open spec fn video_in(d: Debate) -> Option<DebateVideo> {
    match d {
        Debate::Response(r) => match r.response {
            Content::Video(v) => Some(v),
            _ => None,
        },
        _ => None,
    }
}

/// The statements that a message holds, if it is a reply holding some.
pub open spec fn statements_in(d: Debate) -> Option<Vec<Statement>> {
    match d {
        Debate::Response(r) => match r.response {
            Content::Statements(s) => Some(s),
            _ => None,
        },
        _ => None,
    }
}

/// The comments that a message holds, if it is a reply holding some.
pub open spec fn comments_in(d: Debate) -> Option<Vec<Comment>> {
    match d {
        Debate::Response(r) => match r.response {
            Content::Comments(c) => Some(c.comments),
            _ => None,
        },
        _ => None,
    }
}

/// The video of the first message that holds one.
pub open spec fn first_video(s: Seq<Debate>) -> Option<DebateVideo>
    decreases s.len(),
{
    if s.len() == 0 {
        None
    } else if video_in(s[0]) is Some {
        video_in(s[0])
    } else {
        first_video(s.drop_first())
    }
}

/// The statements of the first message that holds some.
pub open spec fn first_statements(s: Seq<Debate>) -> Option<Vec<Statement>>
    decreases s.len(),
{
    if s.len() == 0 {
        None
    } else if statements_in(s[0]) is Some {
        statements_in(s[0])
    } else {
        first_statements(s.drop_first())
    }
}

/// The comments of the first message that holds some.
pub open spec fn first_comments(s: Seq<Debate>) -> Option<Vec<Comment>>
    decreases s.len(),
{
    if s.len() == 0 {
        None
    } else if comments_in(s[0]) is Some {
        comments_in(s[0])
    } else {
        first_comments(s.drop_first())
    }
}

/// The video kept for a channel is the one of its first reply holding a
/// video, whatever that video holds: where the message at `k` is a reply
/// holding `v` and no earlier message is a reply holding a video, the video
/// found is `v`.
pub proof fn law_first_video(s: Seq<Debate>, k: int, v: DebateVideo, status: String)
    requires
        0 <= k < s.len(),
        s[k] == Debate::Response(Response { response: Content::Video(v), status }),
        forall|j: int|
            0 <= j < k ==> !(#[trigger] s[j] matches Debate::Response(r) && r.response is Video),
    ensures
        first_video(s) == Some(v),
    decreases k,
{
    if k > 0 {
        assert(!(s[0] matches Debate::Response(r) && r.response is Video));
        assert forall|j: int| 0 <= j < k - 1 implies !(#[trigger] s.drop_first()[j] matches Debate::Response(
            r,
        ) && r.response is Video) by {
            assert(s.drop_first()[j] == s[j + 1]);
        }
        law_first_video(s.drop_first(), k - 1, v, status);
    }
}

/// No video is found in a channel exactly when none of its messages is a
/// reply holding a video.
pub proof fn law_no_video(s: Seq<Debate>)
    ensures
        first_video(s) is None <==> forall|j: int|
            0 <= j < s.len() ==> !(#[trigger] s[j] matches Debate::Response(r) && r.response is Video),
    decreases s.len(),
{
    if s.len() > 0 {
        law_no_video(s.drop_first());
        if first_video(s) is None {
            assert forall|j: int| 0 <= j < s.len() implies !(#[trigger] s[j] matches Debate::Response(r)
                && r.response is Video) by {
                if j > 0 {
                    assert(s[j] == s.drop_first()[j - 1]);
                }
            }
        } else if forall|j: int|
            0 <= j < s.len() ==> !(#[trigger] s[j] matches Debate::Response(r) && r.response is Video) {
            assert(!(s[0] matches Debate::Response(r) && r.response is Video));
            assert forall|j: int| 0 <= j < s.drop_first().len() implies !(#[trigger] s.drop_first()[j] matches Debate::Response(
                r,
            ) && r.response is Video) by {
                assert(s.drop_first()[j] == s[j + 1]);
            }
        }
    }
}

/// The statements kept for a channel are those of its first reply holding
/// statements: where the message at `k` is a reply holding `st` and no earlier
/// message is a reply holding statements, the statements found are `st`.
pub proof fn law_first_statements(s: Seq<Debate>, k: int, st: Vec<Statement>, status: String)
    requires
        0 <= k < s.len(),
        s[k] == Debate::Response(Response { response: Content::Statements(st), status }),
        forall|j: int|
            0 <= j < k ==> !(#[trigger] s[j] matches Debate::Response(r) && r.response is Statements),
    ensures
        first_statements(s) == Some(st),
    decreases k,
{
    if k > 0 {
        assert(!(s[0] matches Debate::Response(r) && r.response is Statements));
        assert forall|j: int| 0 <= j < k - 1 implies !(#[trigger] s.drop_first()[j] matches Debate::Response(
            r,
        ) && r.response is Statements) by {
            assert(s.drop_first()[j] == s[j + 1]);
        }
        law_first_statements(s.drop_first(), k - 1, st, status);
    }
}

/// No statements are found in a channel exactly when none of its messages is
/// a reply holding statements.
pub proof fn law_no_statements(s: Seq<Debate>)
    ensures
        first_statements(s) is None <==> forall|j: int|
            0 <= j < s.len() ==> !(#[trigger] s[j] matches Debate::Response(r) && r.response is Statements),
    decreases s.len(),
{
    if s.len() > 0 {
        law_no_statements(s.drop_first());
        if first_statements(s) is None {
            assert forall|j: int| 0 <= j < s.len() implies !(#[trigger] s[j] matches Debate::Response(r)
                && r.response is Statements) by {
                if j > 0 {
                    assert(s[j] == s.drop_first()[j - 1]);
                }
            }
        } else if forall|j: int|
            0 <= j < s.len() ==> !(#[trigger] s[j] matches Debate::Response(r) && r.response is Statements) {
            assert(!(s[0] matches Debate::Response(r) && r.response is Statements));
            assert forall|j: int| 0 <= j < s.drop_first().len() implies !(#[trigger] s.drop_first()[j] matches Debate::Response(
                r,
            ) && r.response is Statements) by {
                assert(s.drop_first()[j] == s[j + 1]);
            }
        }
    }
}

/// The comments kept for a channel are those of its first reply holding
/// comments: where the message at `k` is a reply holding `c` and no earlier
/// message is a reply holding comments, the comments found are `c.comments`.
pub proof fn law_first_comments(s: Seq<Debate>, k: int, c: Comments, status: String)
    requires
        0 <= k < s.len(),
        s[k] == Debate::Response(Response { response: Content::Comments(c), status }),
        forall|j: int|
            0 <= j < k ==> !(#[trigger] s[j] matches Debate::Response(r) && r.response is Comments),
    ensures
        first_comments(s) == Some(c.comments),
    decreases k,
{
    if k > 0 {
        assert(!(s[0] matches Debate::Response(r) && r.response is Comments));
        assert forall|j: int| 0 <= j < k - 1 implies !(#[trigger] s.drop_first()[j] matches Debate::Response(
            r,
        ) && r.response is Comments) by {
            assert(s.drop_first()[j] == s[j + 1]);
        }
        law_first_comments(s.drop_first(), k - 1, c, status);
    }
}

/// No comments are found in a channel exactly when none of its messages is a
/// reply holding comments.
pub proof fn law_no_comments(s: Seq<Debate>)
    ensures
        first_comments(s) is None <==> forall|j: int|
            0 <= j < s.len() ==> !(#[trigger] s[j] matches Debate::Response(r) && r.response is Comments),
    decreases s.len(),
{
    if s.len() > 0 {
        law_no_comments(s.drop_first());
        if first_comments(s) is None {
            assert forall|j: int| 0 <= j < s.len() implies !(#[trigger] s[j] matches Debate::Response(r)
                && r.response is Comments) by {
                if j > 0 {
                    assert(s[j] == s.drop_first()[j - 1]);
                }
            }
        } else if forall|j: int|
            0 <= j < s.len() ==> !(#[trigger] s[j] matches Debate::Response(r) && r.response is Comments) {
            assert(!(s[0] matches Debate::Response(r) && r.response is Comments));
            assert forall|j: int| 0 <= j < s.drop_first().len() implies !(#[trigger] s.drop_first()[j] matches Debate::Response(
                r,
            ) && r.response is Comments) by {
                assert(s.drop_first()[j] == s[j + 1]);
            }
        }
    }
}

impl Debates {
    /// The video of the first reply that holds one.
    pub fn video(&self) -> (r: Option<&DebateVideo>)
        ensures
            match r {
                Some(v) => first_video(self.0@) == Some(*v),
                None => first_video(self.0@) is None,
            },
    {
        let mut i: usize = 0;
        assert(self.0@.skip(0) =~= self.0@);
        while i < self.0.len()
            invariant
                i <= self.0@.len(),
                first_video(self.0@) == first_video(self.0@.skip(i as int)),
            decreases self.0@.len() - i,
        {
            if let Debate::Response(response) = &self.0[i] {
                if let Content::Video(video) = &response.response {
                    return Some(video);
                }
            }
            assert(self.0@.skip(i as int).drop_first() =~= self.0@.skip(i + 1));
            i += 1;
        }
        None
    }

    /// The statements of the first reply that holds some.
    pub fn statements(&self) -> (r: Option<&Vec<Statement>>)
        ensures
            match r {
                Some(s) => first_statements(self.0@) == Some(*s),
                None => first_statements(self.0@) is None,
            },
    {
        let mut i: usize = 0;
        assert(self.0@.skip(0) =~= self.0@);
        while i < self.0.len()
            invariant
                i <= self.0@.len(),
                first_statements(self.0@) == first_statements(self.0@.skip(i as int)),
            decreases self.0@.len() - i,
        {
            if let Debate::Response(response) = &self.0[i] {
                if let Content::Statements(statements) = &response.response {
                    return Some(statements);
                }
            }
            assert(self.0@.skip(i as int).drop_first() =~= self.0@.skip(i + 1));
            i += 1;
        }
        None
    }

    /// The comments of the first reply that holds some.
    pub fn comments(&self) -> (r: Option<&Vec<Comment>>)
        ensures
            match r {
                Some(c) => first_comments(self.0@) == Some(*c),
                None => first_comments(self.0@) is None,
            },
    {
        let mut i: usize = 0;
        assert(self.0@.skip(0) =~= self.0@);
        while i < self.0.len()
            invariant
                i <= self.0@.len(),
                first_comments(self.0@) == first_comments(self.0@.skip(i as int)),
            decreases self.0@.len() - i,
        {
            if let Debate::Response(response) = &self.0[i] {
                if let Content::Comments(comments) = &response.response {
                    return Some(&comments.comments);
                }
            }
            assert(self.0@.skip(i as int).drop_first() =~= self.0@.skip(i + 1));
            i += 1;
        }
        None
    }
}

/// The ids of the speakers, in order.
pub open spec fn speaker_ids(speakers: Seq<Speaker>) -> Seq<i32> {
    speakers.map_values(|s: Speaker| s.id)
}

impl DebateVideo {
    /// Whether `e` records this video, but for the publication date.
    pub open spec fn is_recorded_by(self, e: model::video::Entity) -> bool {
        &&& e.video_id == self.id
        &&& e.hash_id == self.hash_id
        &&& e.is_partner == self.is_partner
        &&& e.speaker_ids@ == speaker_ids(self.speakers@)
        &&& e.thumbnail == self.thumbnail
        &&& e.title == self.title
        &&& e.youtube_id == self.youtube_id
        &&& e.language == self.language
        &&& e.url == self.url
        &&& e.youtube_offset == self.youtube_offset
        &&& e.provider == self.provider
        &&& e.provider_id == self.provider_id
    }

    /// The record of the video, published at `posted_at`.
    pub fn into_entity(self, posted_at: Timestamp) -> (e: model::video::Entity)
        ensures
            self.is_recorded_by(e),
            e.posted_at == posted_at,
    {
        let mut ids: Vec<i32> = Vec::new();
        let mut i: usize = 0;
        while i < self.speakers.len()
            invariant
                i <= self.speakers@.len(),
                ids@ == speaker_ids(self.speakers@.take(i as int)),
            decreases self.speakers@.len() - i,
        {
            ids.push(self.speakers[i].id);
            assert(self.speakers@.take(i + 1) =~= self.speakers@.take(i as int).push(self.speakers@[i as int]));
            i += 1;
        }
        assert(self.speakers@.take(i as int) =~= self.speakers@);
        model::video::Entity {
            video_id: self.id,
            hash_id: self.hash_id,
            posted_at,
            is_partner: self.is_partner,
            speaker_ids: ids,
            thumbnail: self.thumbnail,
            title: self.title,
            youtube_id: self.youtube_id,
            language: self.language,
            url: self.url,
            youtube_offset: self.youtube_offset,
            provider: self.provider,
            provider_id: self.provider_id,
        }
    }

    /// The record of the video; its publication date is read as a relaxed
    /// RFC 3339 date with an offset, and the conversion fails where it cannot
    /// be read.
    pub fn try_into(self) -> (r: Result<model::video::Entity>)
        ensures
            r is Ok <==> chrono_rfc3339(self.posted_at@) is Some,
            r matches Ok(e) ==> self.is_recorded_by(e) && chrono_rfc3339(self.posted_at@) == Some(
                e.posted_at.parts(),
            ),
            r matches Err(e) ==> e is Date,
    {
        match crate::time::parse_rfc3339(self.posted_at.as_str()) {
            Ok(posted_at) => Ok(self.into_entity(posted_at)),
            Err(e) => Err(Error::Date(e)),
        }
    }
}

impl Speaker {
    /// The record of the speaker; the conversion always succeeds.
    pub fn try_into(self) -> (r: Result<model::speaker::Entity>)
        ensures
            r matches Ok(e) && {
                &&& e.speaker_id == self.id
                &&& e.full_name == self.full_name
                &&& e.slug == self.slug
                &&& e.country == self.country
                &&& e.picture == self.picture
                &&& e.title == self.title
                &&& e.wikidata_item_id == self.wikidata_item_id
            },
    {
        Ok(model::speaker::Entity {
            speaker_id: self.id,
            full_name: self.full_name,
            slug: self.slug,
            country: self.country,
            picture: self.picture,
            title: self.title,
            wikidata_item_id: self.wikidata_item_id,
        })
    }
}

impl Statement {
    /// The record of the statement; the conversion always succeeds.
    pub fn try_into(self) -> (r: Result<model::statement::Entity>)
        ensures
            r matches Ok(e) && {
                &&& e.statement_id == self.id
                &&& e.speaker_id == self.speaker_id
                &&& e.video_id == self.video_id
                &&& e.text == self.text
                &&& e.time == self.time
            },
    {
        Ok(model::statement::Entity {
            statement_id: self.id,
            speaker_id: self.speaker_id,
            video_id: self.video_id,
            text: self.text,
            time: self.time,
        })
    }
}

impl Source {
    /// The record of the source; the conversion always succeeds.
    pub fn try_into(self) -> (r: Result<model::source::Entity>)
        ensures
            r matches Ok(e) && {
                &&& e.url == self.url
                &&& e.language == self.language
                &&& e.site_name == self.site_name
                &&& e.title == self.title
            },
    {
        Ok(model::source::Entity {
            url: self.url,
            language: self.language,
            site_name: self.site_name,
            title: self.title,
        })
    }
}

/// The url of a source, if there is one.
pub open spec fn source_url(source: Option<Source>) -> Option<String> {
    match source {
        Some(s) => Some(s.url),
        None => None,
    }
}

/// The id of a user, if there is one.
pub open spec fn user_id(user: Option<User>) -> Option<i32> {
    match user {
        Some(u) => Some(u.id),
        None => None,
    }
}

impl Comment {
    /// Whether `e` records this comment, but for its date.
    pub open spec fn is_recorded_by(self, e: model::comment::Entity) -> bool {
        &&& e.comment_id == self.id
        &&& e.approve == self.approve
        &&& e.is_reported == self.is_reported
        &&& e.reply_to_id == self.reply_to_id
        &&& e.score == self.score
        &&& e.source_url == source_url(self.source)
        &&& e.statement_id == self.statement_id
        &&& e.text == self.text
        &&& e.user_id == user_id(self.user)
    }

    /// The record of the comment, posted at `inserted_at`.
    pub fn into_entity(self, inserted_at: Timestamp) -> (e: model::comment::Entity)
        ensures
            self.is_recorded_by(e),
            e.inserted_at == inserted_at,
    {
        let source_url = match self.source {
            Some(s) => Some(s.url),
            None => None,
        };
        let user_id = match self.user {
            Some(u) => Some(u.id),
            None => None,
        };
        model::comment::Entity {
            comment_id: self.id,
            approve: self.approve,
            inserted_at,
            is_reported: self.is_reported,
            reply_to_id: self.reply_to_id,
            score: self.score,
            source_url,
            statement_id: self.statement_id,
            text: self.text,
            user_id,
        }
    }

    /// The record of the comment; its date is read as a UTC date without an
    /// offset, and the conversion fails where it cannot be read.
    pub fn try_into(self) -> (r: Result<model::comment::Entity>)
        ensures
            r is Ok <==> spec_api_datetime(self.inserted_at@) is Some,
            r matches Ok(e) ==> self.is_recorded_by(e) && spec_api_datetime(self.inserted_at@)
                == Some(e.inserted_at.parts()),
            r matches Err(e) ==> e is Date,
    {
        match parse_api_datetime(self.inserted_at.as_str()) {
            Ok(inserted_at) => Ok(self.into_entity(inserted_at)),
            Err(e) => Err(Error::Date(e)),
        }
    }
}

impl User {
    /// Whether `e` records this user, but for the registration date.
    pub open spec fn is_recorded_by(self, e: model::user::Entity) -> bool {
        &&& e.user_id == self.id
        &&& e.achievements@ == self.achievements@
        &&& e.mini_picture_url == self.mini_picture_url
        &&& e.name == self.name
        &&& e.picture_url == self.picture_url
        &&& e.reputation == self.reputation
        &&& e.speaker_id == self.speaker_id
        &&& e.username == self.username
    }

    /// The record of the user, registered at `registered_at`.
    pub fn into_entity(self, registered_at: Timestamp) -> (e: model::user::Entity)
        ensures
            self.is_recorded_by(e),
            e.registered_at == registered_at,
    {
        model::user::Entity {
            user_id: self.id,
            achievements: self.achievements,
            mini_picture_url: self.mini_picture_url,
            name: self.name,
            picture_url: self.picture_url,
            registered_at,
            reputation: self.reputation,
            speaker_id: self.speaker_id,
            username: self.username,
        }
    }

    /// The record of the user; the registration date is read as a UTC date
    /// without an offset, and the conversion fails where it cannot be read.
    pub fn try_into(self) -> (r: Result<model::user::Entity>)
        ensures
            r is Ok <==> spec_api_datetime(self.registered_at@) is Some,
            r matches Ok(e) ==> self.is_recorded_by(e) && spec_api_datetime(self.registered_at@)
                == Some(e.registered_at.parts()),
            r matches Err(e) ==> e is Date,
    {
        match parse_api_datetime(self.registered_at.as_str()) {
            Ok(registered_at) => Ok(self.into_entity(registered_at)),
            Err(e) => Err(Error::Date(e)),
        }
    }
}

/// The record of a video copies each field of the video it is made from: its
/// id, hash id, partnership, the ids of its speakers in order, thumbnail,
/// title, YouTube id, language, url, YouTube offset, provider and provider id.
pub proof fn law_video_record(v: DebateVideo, e: model::video::Entity)
    requires
        v.is_recorded_by(e),
    ensures
        e.video_id == v.id,
        e.hash_id == v.hash_id,
        e.is_partner == v.is_partner,
        e.speaker_ids@.len() == v.speakers@.len(),
        forall|i: int| 0 <= i < v.speakers@.len() ==> e.speaker_ids@[i] == (#[trigger] v.speakers@[i]).id,
        e.thumbnail == v.thumbnail,
        e.title == v.title,
        e.youtube_id == v.youtube_id,
        e.language == v.language,
        e.url == v.url,
        e.youtube_offset == v.youtube_offset,
        e.provider == v.provider,
        e.provider_id == v.provider_id,
{
}

/// The record of a comment copies each field of the comment it is made from,
/// the url of its source and the id of its author, if it has them.
pub proof fn law_comment_record(c: Comment, e: model::comment::Entity)
    requires
        c.is_recorded_by(e),
    ensures
        e.comment_id == c.id,
        e.approve == c.approve,
        e.is_reported == c.is_reported,
        e.reply_to_id == c.reply_to_id,
        e.score == c.score,
        c.source is None ==> e.source_url is None,
        c.source matches Some(source) ==> e.source_url == Some(source.url),
        e.statement_id == c.statement_id,
        e.text == c.text,
        c.user is None ==> e.user_id is None,
        c.user matches Some(user) ==> e.user_id == Some(user.id),
{
}

/// The record of a user copies each field of the user it is made from.
pub proof fn law_user_record(u: User, e: model::user::Entity)
    requires
        u.is_recorded_by(e),
    ensures
        e.user_id == u.id,
        e.achievements@ == u.achievements@,
        e.mini_picture_url == u.mini_picture_url,
        e.name == u.name,
        e.picture_url == u.picture_url,
        e.reputation == u.reputation,
        e.speaker_id == u.speaker_id,
        e.username == u.username,
{
}

} // verus!
