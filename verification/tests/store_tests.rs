use multimedia_management_service::container_meta::ContainerMeta;
use multimedia_management_service::error::ServiceError;
use multimedia_management_service::meta_store::MetadataStore;
use multimedia_management_service::model::Model;
use multimedia_management_service::track::{AudioTrack, SubtitleTrack, VideoTrack};

#[test]
fn psql_data_access_async_test_psql_data_access_methods_for_track() {
    let mut psql_data_access = Box::new(MetadataStore::new());

    let mut video_track = VideoTrack {
        id: uuid::Uuid::new_v4().as_u128(),
        container_meta_id: uuid::Uuid::new_v4().as_u128(),
        name: String::from("simple_video.h264"),
        media_type: String::from("h264"),
        width: 1280,
        height: 720,
        bit_rate: 1850,
        frame_rate: 60,
    };

    let mut result = psql_data_access.insert_video_track(&video_track);
    assert!(result.is_ok());

    result = psql_data_access.get_video_track_by_id(video_track.id);
    assert!(result.is_ok());
    let fetched = result.unwrap();
    assert_eq!(fetched.name, video_track.name);
    assert_eq!(fetched.container_meta_id, video_track.container_meta_id);
    assert_eq!(fetched.width, 1280);
    assert_eq!(fetched.height, 720);
    assert_eq!(fetched.bit_rate, 1850);
    assert_eq!(fetched.frame_rate, 60);

    video_track.name = String::from("simple_updated_video.h264");
    result = psql_data_access.update_video_track_by_id(video_track.id, &video_track);
    assert!(result.is_ok());
    assert_eq!(result.unwrap().name, "simple_updated_video.h264");

    let delete_result = psql_data_access.delete_video_track_by_id(video_track.id);
    assert!(delete_result.is_ok());
    assert_eq!(
        psql_data_access.get_video_track_by_id(video_track.id),
        Err(ServiceError::NotFoundError)
    );
}

#[test]
fn test_insert_duplicate_identifier_is_constraint_violation() {
    let mut store = MetadataStore::new();
    let mut track = AudioTrack::new();
    track.id = 42;
    track.media_type = String::from("aac");
    assert!(store.insert_audio_track(&track).is_ok());
    assert_eq!(
        store.insert_audio_track(&track),
        Err(ServiceError::PersistenceError)
    );
}

#[test]
fn test_get_and_update_missing_rows() {
    let mut store = MetadataStore::new();
    assert_eq!(
        store.get_container_meta_by_id(5),
        Err(ServiceError::NotFoundError)
    );
    assert_eq!(
        store.get_audio_track_by_id(5),
        Err(ServiceError::NotFoundError)
    );
    assert_eq!(
        store.get_subtitle_track_by_id(5),
        Err(ServiceError::NotFoundError)
    );
    let track = SubtitleTrack::new();
    assert_eq!(
        store.update_subtitle_track_by_id(5, &track),
        Err(ServiceError::NotFoundError)
    );
    // Deleting an absent row is not an error.
    assert!(store.delete_subtitle_track_by_id(5).is_ok());
}

#[test]
fn test_container_meta_crud() {
    let mut store = MetadataStore::new();
    let mut meta = ContainerMeta::new();
    meta.id = 77;
    meta.title = String::from("a title");
    meta.tags = vec![Some(String::from("one")), None, Some(String::from("two"))];
    meta.file_size_in_kb = 123;
    meta.duration = 9;
    assert!(store.insert_container_meta(&meta).is_ok());

    let fetched = store.get_container_meta_by_id(77).unwrap();
    assert_eq!(fetched.title, "a title");
    assert_eq!(
        fetched.tags,
        vec![Some(String::from("one")), None, Some(String::from("two"))]
    );
    assert_eq!(fetched.file_size_in_kb, 123);
    assert_eq!(fetched.duration, 9);

    let mut patch = ContainerMeta::new();
    patch.title = String::from("renamed");
    patch.duration = 11;
    let updated = store.update_container_meta_by_id(77, &patch).unwrap();
    assert_eq!(updated.id, 77);
    assert_eq!(updated.title, "renamed");
    assert_eq!(updated.duration, 11);

    assert!(store.delete_container_meta_by_id(77).is_ok());
    assert_eq!(
        store.get_container_meta_by_id(77),
        Err(ServiceError::NotFoundError)
    );
}
