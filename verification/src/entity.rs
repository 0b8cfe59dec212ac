//! The two row shapes that the store keeps, and their mathematical values.

use vstd::prelude::*;
use crate::rows::Identified;

verus! {

/// `copyright` of a work that the account made itself.
pub const COPYRIGHT_ORIGINAL: u8 = 1;

/// `copyright` of a work taken from elsewhere; `source` then names where from.
pub const COPYRIGHT_REPRINT: u8 = 2;

/// A streamer upload template: one reusable publish configuration of an
/// account.
///
/// A template whose `id` is `0` is transient: the store has not seen it yet.
/// Any other `id` was handed out by the store.
#[derive(Debug, PartialEq, Eq)]
pub struct StudioEntity {
    pub id: i64,
    pub template_name: String,
    pub user: i64,
    pub copyright: u8,
    pub source: String,
    pub tid: u16,
    pub cover: String,
    pub title: String,
    pub desc: String,
    pub dynamic: String,
    pub tag: String,
    pub is_only_self: u8,
    pub dtime: Option<u32>,
    pub interactive: u8,
    pub mission_id: Option<u32>,
    pub topic_detail: String,
    pub topic_id: Option<u32>,
    pub topic_name: String,
    pub dolby: u8,
    pub lossless_music: u8,
    pub no_reprint: u8,
    pub open_elec: u8,
    pub up_selection_reply: bool,
    pub up_close_reply: bool,
    pub up_close_danmu: bool,
}

/// The value of a [`StudioEntity`]: every field, text as a sequence of characters.
pub ghost struct StudioEntityView {
    pub id: i64,
    pub template_name: Seq<char>,
    pub user: i64,
    pub copyright: u8,
    pub source: Seq<char>,
    pub tid: u16,
    pub cover: Seq<char>,
    pub title: Seq<char>,
    pub desc: Seq<char>,
    pub dynamic: Seq<char>,
    pub tag: Seq<char>,
    pub is_only_self: u8,
    pub dtime: Option<u32>,
    pub interactive: u8,
    pub mission_id: Option<u32>,
    pub topic_detail: Seq<char>,
    pub topic_id: Option<u32>,
    pub topic_name: Seq<char>,
    pub dolby: u8,
    pub lossless_music: u8,
    pub no_reprint: u8,
    pub open_elec: u8,
    pub up_selection_reply: bool,
    pub up_close_reply: bool,
    pub up_close_danmu: bool,
}

impl View for StudioEntity {
    type V = StudioEntityView;

    open spec fn view(&self) -> StudioEntityView {
        StudioEntityView {
            id: self.id,
            template_name: self.template_name@,
            user: self.user,
            copyright: self.copyright,
            source: self.source@,
            tid: self.tid,
            cover: self.cover@,
            title: self.title@,
            desc: self.desc@,
            dynamic: self.dynamic@,
            tag: self.tag@,
            is_only_self: self.is_only_self,
            dtime: self.dtime,
            interactive: self.interactive,
            mission_id: self.mission_id,
            topic_detail: self.topic_detail@,
            topic_id: self.topic_id,
            topic_name: self.topic_name@,
            dolby: self.dolby,
            lossless_music: self.lossless_music,
            no_reprint: self.no_reprint,
            open_elec: self.open_elec,
            up_selection_reply: self.up_selection_reply,
            up_close_reply: self.up_close_reply,
            up_close_danmu: self.up_close_danmu,
        }
    }
}

impl Identified for StudioEntityView {
    open spec fn identity(&self) -> i64 {
        self.id
    }
}

impl StudioEntityView {
    /// The blank template: an original work, every flag off, nothing
    /// scheduled, no campaign or topic, all text empty, not yet stored.
    pub open spec fn blank() -> StudioEntityView {
        StudioEntityView {
            id: 0,
            template_name: Seq::empty(),
            user: 0,
            copyright: COPYRIGHT_ORIGINAL,
            source: Seq::empty(),
            tid: 0,
            cover: Seq::empty(),
            title: Seq::empty(),
            desc: Seq::empty(),
            dynamic: Seq::empty(),
            tag: Seq::empty(),
            is_only_self: 0,
            dtime: None,
            interactive: 0,
            mission_id: None,
            topic_detail: Seq::empty(),
            topic_id: None,
            topic_name: Seq::empty(),
            dolby: 0,
            lossless_music: 0,
            no_reprint: 0,
            open_elec: 0,
            up_selection_reply: false,
            up_close_reply: false,
            up_close_danmu: false,
        }
    }

    /// This template under another identity, all else unchanged.
    pub open spec fn with_id(self, id: i64) -> StudioEntityView {
        StudioEntityView { id, ..self }
    }
}

impl Default for StudioEntity {
    /// The blank template.
    fn default() -> (blank: Self)
        ensures
            blank@ == StudioEntityView::blank(),
    {
        StudioEntity {
            id: 0,
            template_name: String::new(),
            user: 0,
            copyright: COPYRIGHT_ORIGINAL,
            source: String::new(),
            tid: 0,
            cover: String::new(),
            title: String::new(),
            desc: String::new(),
            dynamic: String::new(),
            tag: String::new(),
            is_only_self: 0,
            dtime: None,
            interactive: 0,
            mission_id: None,
            topic_detail: String::new(),
            topic_id: None,
            topic_name: String::new(),
            dolby: 0,
            lossless_music: 0,
            no_reprint: 0,
            open_elec: 0,
            up_selection_reply: false,
            up_close_reply: false,
            up_close_danmu: false,
        }
    }
}

impl Clone for StudioEntity {
    fn clone(&self) -> (copy: Self)
        ensures
            copy == *self,
    {
        StudioEntity {
            id: self.id,
            template_name: self.template_name.clone(),
            user: self.user,
            copyright: self.copyright,
            source: self.source.clone(),
            tid: self.tid,
            cover: self.cover.clone(),
            title: self.title.clone(),
            desc: self.desc.clone(),
            dynamic: self.dynamic.clone(),
            tag: self.tag.clone(),
            is_only_self: self.is_only_self,
            dtime: self.dtime,
            interactive: self.interactive,
            mission_id: self.mission_id,
            topic_detail: self.topic_detail.clone(),
            topic_id: self.topic_id,
            topic_name: self.topic_name.clone(),
            dolby: self.dolby,
            lossless_music: self.lossless_music,
            no_reprint: self.no_reprint,
            open_elec: self.open_elec,
            up_selection_reply: self.up_selection_reply,
            up_close_reply: self.up_close_reply,
            up_close_danmu: self.up_close_danmu,
        }
    }
}

/// An upload record: one tracked attempt at an upload.
///
/// `identity` ties the record to the upload job and is set once, when the
/// record is created. `status` is a label whose vocabulary belongs to the
/// caller.
#[derive(Debug, PartialEq, Eq)]
pub struct UploadRecords {
    pub id: i64,
    pub identity: String,
    pub status: String,
}

/// The value of an [`UploadRecords`] row.
pub ghost struct UploadRecordsView {
    pub id: i64,
    pub identity: Seq<char>,
    pub status: Seq<char>,
}

impl View for UploadRecords {
    type V = UploadRecordsView;

    open spec fn view(&self) -> UploadRecordsView {
        UploadRecordsView { id: self.id, identity: self.identity@, status: self.status@ }
    }
}

impl Identified for UploadRecordsView {
    open spec fn identity(&self) -> i64 {
        self.id
    }
}

impl UploadRecordsView {
    /// This record under another identity, all else unchanged.
    pub open spec fn with_id(self, id: i64) -> UploadRecordsView {
        UploadRecordsView { id, ..self }
    }
}

impl Clone for UploadRecords {
    fn clone(&self) -> (copy: Self)
        ensures
            copy == *self,
    {
        UploadRecords {
            id: self.id,
            identity: self.identity.clone(),
            status: self.status.clone(),
        }
    }
}

} // verus!
