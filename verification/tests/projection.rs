use upload_store::{MemoryStreamers, Studio, StudioEntity, Subtitle, UploadStreamersRepository};

fn full_template() -> StudioEntity {
    StudioEntity {
        id: 7,
        template_name: "weekly".to_string(),
        user: 9001,
        copyright: 2,
        source: "https://example.org/live/1".to_string(),
        tid: 21,
        cover: "cover.png".to_string(),
        title: "Replay".to_string(),
        desc: "A replay".to_string(),
        dynamic: "now up".to_string(),
        tag: "live,replay".to_string(),
        is_only_self: 1,
        dtime: Some(1_700_000_000),
        interactive: 1,
        mission_id: Some(12),
        topic_detail: "detail".to_string(),
        topic_id: Some(34),
        topic_name: "topic".to_string(),
        dolby: 1,
        lossless_music: 1,
        no_reprint: 1,
        open_elec: 1,
        up_selection_reply: true,
        up_close_reply: true,
        up_close_danmu: true,
    }
}

#[test]
fn default_is_the_blank_template() {
    let blank = StudioEntity::default();
    assert_eq!(blank.id, 0);
    assert_eq!(blank.template_name, "");
    assert_eq!(blank.user, 0);
    assert_eq!(blank.copyright, 1);
    assert_eq!(blank.source, "");
    assert_eq!(blank.tid, 0);
    assert_eq!(blank.cover, "");
    assert_eq!(blank.title, "");
    assert_eq!(blank.desc, "");
    assert_eq!(blank.dynamic, "");
    assert_eq!(blank.tag, "");
    assert_eq!(blank.is_only_self, 0);
    assert_eq!(blank.dtime, None);
    assert_eq!(blank.interactive, 0);
    assert_eq!(blank.mission_id, None);
    assert_eq!(blank.topic_detail, "");
    assert_eq!(blank.topic_id, None);
    assert_eq!(blank.topic_name, "");
    assert_eq!(blank.dolby, 0);
    assert_eq!(blank.lossless_music, 0);
    assert_eq!(blank.no_reprint, 0);
    assert_eq!(blank.open_elec, 0);
    assert!(!blank.up_selection_reply);
    assert!(!blank.up_close_reply);
    assert!(!blank.up_close_danmu);
}

#[test]
fn default_copyright_is_original_not_zero() {
    assert_eq!(StudioEntity::default().copyright, upload_store::entity::COPYRIGHT_ORIGINAL);
    assert_eq!(upload_store::entity::COPYRIGHT_ORIGINAL, 1);
    assert_eq!(upload_store::entity::COPYRIGHT_REPRINT, 2);
}

#[test]
fn default_subtitle_is_off() {
    assert_eq!(Subtitle::default(), Subtitle { open: 0, lan: String::new() });
}

#[test]
fn projection_copies_every_publish_field() {
    let request = full_template().into_dto();
    let expected = Studio {
        copyright: 2,
        source: "https://example.org/live/1".to_string(),
        tid: 21,
        cover: "cover.png".to_string(),
        title: "Replay".to_string(),
        desc_format_id: 0,
        desc: "A replay".to_string(),
        desc_v2: None,
        dynamic: "now up".to_string(),
        subtitle: Subtitle { open: 0, lan: String::new() },
        tag: "live,replay".to_string(),
        is_only_self: 1,
        videos: vec![],
        dtime: Some(1_700_000_000),
        open_subtitle: false,
        interactive: 1,
        mission_id: Some(12),
        topic_detail: "detail".to_string(),
        topic_id: Some(34),
        topic_name: "topic".to_string(),
        dolby: 1,
        lossless_music: 1,
        no_reprint: 1,
        open_elec: 1,
        aid: None,
        up_selection_reply: true,
        up_close_reply: true,
        up_close_danmu: true,
    };
    assert_eq!(request, expected);
}

#[test]
fn projection_of_the_blank_template() {
    let request = StudioEntity::default().into_dto();
    assert_eq!(request.copyright, 1);
    assert_eq!(request.tid, 0);
    assert_eq!(request.desc_format_id, 0);
    assert_eq!(request.subtitle, Subtitle::default());
    assert_eq!(request.desc_v2, None);
    assert!(!request.open_subtitle);
    assert!(request.videos.is_empty());
    assert_eq!(request.aid, None);
    assert_eq!(request.dtime, None);
    assert_eq!(request.mission_id, None);
    assert_eq!(request.topic_id, None);
    assert_eq!(request.title, "");
}

#[test]
fn projection_fixes_what_the_template_lacks() {
    let request = full_template().into_dto();
    assert_eq!(request.desc_format_id, 0);
    assert_eq!(request.subtitle.open, 0);
    assert_eq!(request.subtitle.lan, "");
    assert!(request.desc_v2.is_none());
    assert!(!request.open_subtitle);
    assert_eq!(request.videos.len(), 0);
    assert!(request.aid.is_none());
}

#[test]
fn projection_is_deterministic() {
    let first = full_template().into_dto();
    let second = full_template().into_dto();
    assert_eq!(first, second);
    let copy = full_template().clone();
    assert_eq!(copy.into_dto(), first);
}

#[test]
fn projection_does_not_depend_on_identity_name_or_owner() {
    let mut other = full_template();
    other.id = 99;
    other.template_name = "other".to_string();
    other.user = 1;
    assert_eq!(other.into_dto(), full_template().into_dto());
}

#[test]
fn projection_differs_where_a_publish_field_differs() {
    let mut other = full_template();
    other.tid = 22;
    assert_ne!(other.into_dto(), full_template().into_dto());
    let mut untitled = full_template();
    untitled.title = String::new();
    assert_ne!(untitled.into_dto(), full_template().into_dto());
}

#[test]
fn stored_template_projects_to_its_publish_request() {
    let mut store = MemoryStreamers::new();
    let template = StudioEntity {
        template_name: "daily".to_string(),
        user: 42,
        tid: 171,
        title: "Stream".to_string(),
        ..StudioEntity::default()
    };
    let stored = store.create_streamer(template).unwrap();
    assert_eq!(stored.id, 1);
    let read = store.get_streamer_by_id(1).unwrap();
    assert_eq!(read, stored);
    assert_eq!(read.template_name, "daily");
    assert_eq!(read.user, 42);
    assert_eq!(read.tid, 171);
    assert_eq!(read.title, "Stream");
    let request = read.into_dto();
    assert_eq!(request.tid, 171);
    assert_eq!(request.desc_format_id, 0);
    assert_eq!(request.videos, vec![]);
    assert_eq!(request.title, "Stream");
    assert_eq!(request.copyright, 1);
}
