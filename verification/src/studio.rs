//! The publish request that the upload pipeline consumes, and the projection
//! of a stored template onto it.

use vstd::prelude::*;
use crate::entity::{StudioEntity, StudioEntityView};

verus! {

/// Subtitle settings of a publish request.
#[derive(Debug, PartialEq, Eq)]
pub struct Subtitle {
    pub open: i8,
    pub lan: String,
}

/// The value of a [`Subtitle`].
pub ghost struct SubtitleView {
    pub open: i8,
    pub lan: Seq<char>,
}

impl View for Subtitle {
    type V = SubtitleView;

    open spec fn view(&self) -> SubtitleView {
        SubtitleView { open: self.open, lan: self.lan@ }
    }
}

impl SubtitleView {
    /// No subtitles: switched off, no language.
    pub open spec fn blank() -> SubtitleView {
        SubtitleView { open: 0, lan: Seq::empty() }
    }
}

impl Default for Subtitle {
    fn default() -> (blank: Self)
        ensures
            blank@ == SubtitleView::blank(),
    {
        Subtitle { open: 0, lan: String::new() }
    }
}

/// One uploaded video asset of a publish request.
#[derive(Debug, PartialEq, Eq)]
pub struct Video {
    pub title: Option<String>,
    pub filename: String,
    pub desc: String,
}

/// The value of a [`Video`].
pub ghost struct VideoView {
    pub title: Option<Seq<char>>,
    pub filename: Seq<char>,
    pub desc: Seq<char>,
}

impl View for Video {
    type V = VideoView;

    open spec fn view(&self) -> VideoView {
        VideoView {
            title: match self.title {
                Some(title) => Some(title@),
                None => None,
            },
            filename: self.filename@,
            desc: self.desc@,
        }
    }
}

/// One entry of an extended description.
#[derive(Debug, PartialEq, Eq)]
pub struct Credit {
    pub type_id: i8,
    pub raw_text: String,
    pub biz_id: Option<String>,
}

/// The value of a [`Credit`].
pub ghost struct CreditView {
    pub type_id: i8,
    pub raw_text: Seq<char>,
    pub biz_id: Option<Seq<char>>,
}

impl View for Credit {
    type V = CreditView;

    open spec fn view(&self) -> CreditView {
        CreditView {
            type_id: self.type_id,
            raw_text: self.raw_text@,
            biz_id: match self.biz_id {
                Some(biz_id) => Some(biz_id@),
                None => None,
            },
        }
    }
}

/// The publish request: what the upload pipeline needs to publish one
/// submission.
#[derive(Debug, PartialEq, Eq)]
pub struct Studio {
    pub copyright: u8,
    pub source: String,
    pub tid: u16,
    pub cover: String,
    pub title: String,
    pub desc_format_id: u32,
    pub desc: String,
    pub desc_v2: Option<Vec<Credit>>,
    pub dynamic: String,
    pub subtitle: Subtitle,
    pub tag: String,
    pub is_only_self: u8,
    pub videos: Vec<Video>,
    pub dtime: Option<u32>,
    pub open_subtitle: bool,
    pub interactive: u8,
    pub mission_id: Option<u32>,
    pub topic_detail: String,
    pub topic_id: Option<u32>,
    pub topic_name: String,
    pub dolby: u8,
    pub lossless_music: u8,
    pub no_reprint: u8,
    pub open_elec: u8,
    pub aid: Option<u64>,
    pub up_selection_reply: bool,
    pub up_close_reply: bool,
    pub up_close_danmu: bool,
}

/// The value of a [`Studio`].
pub ghost struct StudioView {
    pub copyright: u8,
    pub source: Seq<char>,
    pub tid: u16,
    pub cover: Seq<char>,
    pub title: Seq<char>,
    pub desc_format_id: u32,
    pub desc: Seq<char>,
    pub desc_v2: Option<Seq<CreditView>>,
    pub dynamic: Seq<char>,
    pub subtitle: SubtitleView,
    pub tag: Seq<char>,
    pub is_only_self: u8,
    pub videos: Seq<VideoView>,
    pub dtime: Option<u32>,
    pub open_subtitle: bool,
    pub interactive: u8,
    pub mission_id: Option<u32>,
    pub topic_detail: Seq<char>,
    pub topic_id: Option<u32>,
    pub topic_name: Seq<char>,
    pub dolby: u8,
    pub lossless_music: u8,
    pub no_reprint: u8,
    pub open_elec: u8,
    pub aid: Option<u64>,
    pub up_selection_reply: bool,
    pub up_close_reply: bool,
    pub up_close_danmu: bool,
}

impl View for Studio {
    type V = StudioView;

    open spec fn view(&self) -> StudioView {
        StudioView {
            copyright: self.copyright,
            source: self.source@,
            tid: self.tid,
            cover: self.cover@,
            title: self.title@,
            desc_format_id: self.desc_format_id,
            desc: self.desc@,
            desc_v2: match self.desc_v2 {
                Some(credits) => Some(credits@.map_values(|credit: Credit| credit@)),
                None => None,
            },
            dynamic: self.dynamic@,
            subtitle: self.subtitle@,
            tag: self.tag@,
            is_only_self: self.is_only_self,
            videos: self.videos@.map_values(|video: Video| video@),
            dtime: self.dtime,
            open_subtitle: self.open_subtitle,
            interactive: self.interactive,
            mission_id: self.mission_id,
            topic_detail: self.topic_detail@,
            topic_id: self.topic_id,
            topic_name: self.topic_name@,
            dolby: self.dolby,
            lossless_music: self.lossless_music,
            no_reprint: self.no_reprint,
            open_elec: self.open_elec,
            aid: self.aid,
            up_selection_reply: self.up_selection_reply,
            up_close_reply: self.up_close_reply,
            up_close_danmu: self.up_close_danmu,
        }
    }
}

impl StudioEntityView {
    /// The publish request of a template.
    ///
    /// Every publish field of the template is carried over as it is. What the
    /// template does not hold is fixed: description format `0`, no subtitles,
    /// no extended description, no videos, no published article. The
    /// template's identity, name and owner do not enter the request.
    pub open spec fn publish_request(self) -> StudioView {
        StudioView {
            copyright: self.copyright,
            source: self.source,
            tid: self.tid,
            cover: self.cover,
            title: self.title,
            desc_format_id: 0,
            desc: self.desc,
            desc_v2: None,
            dynamic: self.dynamic,
            subtitle: SubtitleView::blank(),
            tag: self.tag,
            is_only_self: self.is_only_self,
            videos: Seq::empty(),
            dtime: self.dtime,
            open_subtitle: false,
            interactive: self.interactive,
            mission_id: self.mission_id,
            topic_detail: self.topic_detail,
            topic_id: self.topic_id,
            topic_name: self.topic_name,
            dolby: self.dolby,
            lossless_music: self.lossless_music,
            no_reprint: self.no_reprint,
            open_elec: self.open_elec,
            aid: None,
            up_selection_reply: self.up_selection_reply,
            up_close_reply: self.up_close_reply,
            up_close_danmu: self.up_close_danmu,
        }
    }
}

impl StudioEntity {
    /// Turns the template into the publish request that the upload pipeline
    /// consumes. Defined for every template; the pipeline fills in the videos
    /// later.
    pub fn into_dto(self) -> (request: Studio)
        ensures
            request@ == self@.publish_request(),
    {
        let request = Studio {
            copyright: self.copyright,
            source: self.source,
            tid: self.tid,
            cover: self.cover,
            title: self.title,
            desc_format_id: 0,
            desc: self.desc,
            dynamic: self.dynamic,
            subtitle: Subtitle::default(),
            tag: self.tag,
            is_only_self: self.is_only_self,
            videos: Vec::new(),
            desc_v2: None,
            dtime: self.dtime,
            open_subtitle: false,
            interactive: self.interactive,
            mission_id: self.mission_id,
            topic_detail: self.topic_detail,
            topic_id: self.topic_id,
            topic_name: self.topic_name,
            dolby: self.dolby,
            lossless_music: self.lossless_music,
            no_reprint: self.no_reprint,
            open_elec: self.open_elec,
            aid: None,
            up_selection_reply: self.up_selection_reply,
            up_close_reply: self.up_close_reply,
            up_close_danmu: self.up_close_danmu,
        };
        assert(request@.videos =~= Seq::empty());
        request
    }
}

/// The projection is a function of the template's value: templates that agree
/// in every field have the same publish request.
pub proof fn lemma_projection_deterministic(a: StudioEntity, b: StudioEntity)
    requires
        a@ == b@,
    ensures
        a@.publish_request() == b@.publish_request(),
{
}

} // verus!
