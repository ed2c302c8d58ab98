use multimedia_management_service::delete_parameters::DeleteBlobParameters;
use multimedia_management_service::download_parameters::DownloadBlobParameters;
use multimedia_management_service::error::ServiceError;
use multimedia_management_service::model;
use multimedia_management_service::mutimedia_management_service::MutimediaManagementService;
use multimedia_management_service::upload_parameters::{UploadFileParameters, UploadMetaParameters};
use multimedia_management_service::uuid_text::uuid_string;
use multimedia_management_service::ModelType;

fn boxed(kind: &[u8; 4], payload: &[u8]) -> Vec<u8> {
    let mut b = Vec::new();
    b.extend_from_slice(&((payload.len() as u32) + 8).to_be_bytes());
    b.extend_from_slice(kind);
    b.extend_from_slice(payload);
    b
}

fn timed_header(kind: &[u8; 4], timescale: u32, duration: u32) -> Vec<u8> {
    let mut p = vec![0u8; 20];
    p[12..16].copy_from_slice(&timescale.to_be_bytes());
    p[16..20].copy_from_slice(&duration.to_be_bytes());
    boxed(kind, &p)
}

fn tkhd(width: u32, height: u32) -> Vec<u8> {
    let mut p = vec![0u8; 84];
    p[76..80].copy_from_slice(&(width << 16).to_be_bytes());
    p[80..84].copy_from_slice(&(height << 16).to_be_bytes());
    boxed(b"tkhd", &p)
}

fn hdlr(kind: &[u8; 4]) -> Vec<u8> {
    let mut p = vec![0u8; 12];
    p[8..12].copy_from_slice(kind);
    boxed(b"hdlr", &p)
}

fn stsd(entry: &[u8]) -> Vec<u8> {
    let mut p = vec![0u8; 8];
    p[7] = 1;
    p.extend_from_slice(entry);
    boxed(b"stsd", &p)
}

fn stsz_fixed(sample_size: u32, count: u32) -> Vec<u8> {
    let mut p = vec![0u8; 12];
    p[4..8].copy_from_slice(&sample_size.to_be_bytes());
    p[8..12].copy_from_slice(&count.to_be_bytes());
    boxed(b"stsz", &p)
}

fn desc(tag: u8, payload: &[u8]) -> Vec<u8> {
    let mut d = vec![tag, payload.len() as u8];
    d.extend_from_slice(payload);
    d
}

fn esds(avg_bitrate: u32, freq_index: u8, chan_cfg: u8) -> Vec<u8> {
    let asc0 = (2u8 << 3) | (freq_index >> 1);
    let asc1 = ((freq_index & 1) << 7) | (chan_cfg << 3);
    let si = desc(5, &[asc0, asc1]);
    let mut dc_payload = vec![0x40, 0x15, 0, 0, 0];
    dc_payload.extend_from_slice(&0u32.to_be_bytes());
    dc_payload.extend_from_slice(&avg_bitrate.to_be_bytes());
    dc_payload.extend_from_slice(&si);
    let dc = desc(4, &dc_payload);
    let mut es_payload = vec![0, 0, 0];
    es_payload.extend_from_slice(&dc);
    let es = desc(3, &es_payload);
    let mut p = vec![0u8; 4];
    p.extend_from_slice(&es);
    boxed(b"esds", &p)
}

fn trak(header: &[u8; 4], entry: Vec<u8>, extra_stbl: Vec<u8>) -> Vec<u8> {
    let mut stbl_payload = stsd(&entry);
    stbl_payload.extend_from_slice(&extra_stbl);
    let stbl = boxed(b"stbl", &stbl_payload);
    let minf = boxed(b"minf", &stbl);
    let mut mdia_payload = timed_header(b"mdhd", 1000, 10000);
    mdia_payload.extend_from_slice(&hdlr(header));
    mdia_payload.extend_from_slice(&minf);
    let mdia = boxed(b"mdia", &mdia_payload);
    let mut trak_payload = tkhd(1280, 720);
    trak_payload.extend_from_slice(&mdia);
    boxed(b"trak", &trak_payload)
}

fn video_trak() -> Vec<u8> {
    trak(b"vide", boxed(b"avc1", &[0u8; 8]), stsz_fixed(5685, 250))
}

fn audio_trak(avg_bitrate: u32, chan_cfg: u8) -> Vec<u8> {
    let mut entry_extra = vec![0u8; 28];
    entry_extra.extend_from_slice(&esds(avg_bitrate, 4, chan_cfg));
    trak(b"soun", boxed(b"mp4a", &entry_extra), Vec::new())
}

fn subtitle_trak() -> Vec<u8> {
    trak(b"text", boxed(b"tx3g", &[0u8; 8]), Vec::new())
}

fn container(traks: Vec<Vec<u8>>, total_len: usize) -> Vec<u8> {
    let mut moov_payload = timed_header(b"mvhd", 1000, 10000);
    for t in traks {
        moov_payload.extend_from_slice(&t);
    }
    let mut bytes = boxed(b"moov", &moov_payload);
    assert!(total_len >= bytes.len() + 8);
    let filler = total_len - bytes.len() - 8;
    bytes.extend_from_slice(&boxed(b"mdat", &vec![0u8; filler]));
    bytes
}

fn sample_file() -> Vec<u8> {
    container(vec![video_trak(), audio_trak(0, 2)], 65536)
}

#[test]
fn mutimedia_management_service_test_psql_data_access_methods_for_track() {
    let mut multi_media_management_service = MutimediaManagementService::new();

    let file_bytes = sample_file();

    let mut upload_file_parameters = UploadFileParameters::new();
    upload_file_parameters.blob_name = String::from("nature2.mp4");
    upload_file_parameters.file_name = String::from("assets/nature2.mp4");

    let mut upload_meta_parameters = UploadMetaParameters::new();
    upload_meta_parameters.title = String::from("Sample MP4 container file #001");
    upload_meta_parameters.description = String::from("A Sample MP4 container file");
    upload_meta_parameters.tags = vec![
        Some(String::from("nature")),
        Some(String::from("adventure")),
    ];

    // [C]reate
    let create_result = multi_media_management_service.upload_blob_from_bytes_and_create_metadata(
        &file_bytes,
        &upload_file_parameters,
        &upload_meta_parameters,
    );
    assert!(create_result.is_ok());
    let create_result_unwrapped = create_result.unwrap();

    // [R]ead
    let get_container_meta_result = multi_media_management_service
        .retrieve_metadata_by_id(&model::ModelType::ContainerMeta, create_result_unwrapped.id);
    assert!(get_container_meta_result.is_ok());
    let get_video_track_result = multi_media_management_service.retrieve_metadata_by_id(
        &model::ModelType::VideoTrack,
        create_result_unwrapped.video_track_id,
    );
    assert!(get_video_track_result.is_ok());
    let get_audio_track_result = multi_media_management_service.retrieve_metadata_by_id(
        &model::ModelType::AudioTrack,
        create_result_unwrapped.audio_track_id,
    );
    assert!(get_audio_track_result.is_ok());
    let get_subtitle_track_result = multi_media_management_service.retrieve_metadata_by_id(
        &model::ModelType::SubtitleTrack,
        create_result_unwrapped.subtitle_track_id,
    );
    assert!(get_subtitle_track_result.is_err());

    // Download
    let mut download_blob_parameters = DownloadBlobParameters::new();
    download_blob_parameters.container_meta_id = uuid_string(create_result_unwrapped.id);
    download_blob_parameters.file_name = upload_file_parameters.blob_name.clone();
    let download_result = multi_media_management_service
        .retrieve_bytes_from_blob_by_name(&download_blob_parameters);
    assert!(download_result.is_ok());
    let bytes = download_result.unwrap();
    assert!(bytes.len() > 0);
    assert_eq!(bytes, file_bytes);

    // [U]pdate
    let get_container_meta_result_unwrapped = get_container_meta_result.unwrap().unwrap();
    match get_container_meta_result_unwrapped {
        ModelType::ContainerMeta(container_meta) => {
            assert_eq!(container_meta.id, create_result_unwrapped.id);
        },
        ModelType::VideoTrack(_) => {
            panic!("expected a container row");
        },
        ModelType::AudioTrack(_) => {
            panic!("expected a container row");
        },
        ModelType::SubtitleTrack(_) => {
            panic!("expected a container row");
        },
    }
    match get_video_track_result.unwrap().unwrap() {
        ModelType::VideoTrack(video_track) => {
            let mut updated_video_track = video_track;
            updated_video_track.width = 1290;
            let update_result = multi_media_management_service
                .sql_data_access
                .update_video_track_by_id(create_result_unwrapped.video_track_id, &updated_video_track);
            assert!(update_result.is_ok());
            assert_eq!(update_result.unwrap().width, 1290);
        },
        _ => {
            panic!("expected a video row");
        },
    }

    // [D]elete
    let mut delete_blob_parameters = DeleteBlobParameters::new();
    delete_blob_parameters.container_meta_id = uuid_string(create_result_unwrapped.id);
    delete_blob_parameters.file_name = download_blob_parameters.file_name;
    let delete_result = multi_media_management_service
        .delete_blob_and_created_metadata_by_id(&delete_blob_parameters);
    assert!(delete_result.is_ok());
}

#[test]
fn test_round_trip_attributes() {
    // One video and one audio track, no subtitle: retrieval by the assigned
    // identifiers returns the parser's attributes field for field.
    let mut service = MutimediaManagementService::new();
    let file_bytes = sample_file();
    let meta = service
        .upload_blob_from_bytes_and_create_metadata(
            &file_bytes,
            &UploadFileParameters::new(),
            &UploadMetaParameters::new(),
        )
        .unwrap();
    assert_ne!(meta.id, 0);
    assert_ne!(meta.video_track_id, 0);
    assert_ne!(meta.audio_track_id, 0);
    assert_eq!(meta.subtitle_track_id, 0);

    match service
        .retrieve_metadata_by_id(&model::ModelType::VideoTrack, meta.video_track_id)
        .unwrap()
        .unwrap()
    {
        ModelType::VideoTrack(v) => {
            assert_eq!(v.id, meta.video_track_id);
            assert_eq!(v.container_meta_id, meta.id);
            assert_eq!(v.media_type, "h264");
            assert_eq!(v.width, 1280);
            assert_eq!(v.height, 720);
            assert_eq!(v.bit_rate, 1137);
            assert_eq!(v.frame_rate, 25);
        },
        _ => panic!("expected a video row"),
    }
    match service
        .retrieve_metadata_by_id(&model::ModelType::AudioTrack, meta.audio_track_id)
        .unwrap()
        .unwrap()
    {
        ModelType::AudioTrack(a) => {
            assert_eq!(a.id, meta.audio_track_id);
            assert_eq!(a.container_meta_id, meta.id);
            assert_eq!(a.media_type, "aac");
            assert_eq!(a.bit_rate, 0);
            assert_eq!(a.channel_config, "stereo");
            assert_eq!(a.sample_frequenz, 44100);
        },
        _ => panic!("expected an audio row"),
    }
}

#[test]
fn test_sentinel_invariant_across_fixtures() {
    // Fixtures with 0, 1, 2 and 3 track kinds: a track-id field is nil
    // exactly when no track row of that kind was created.
    let fixtures: Vec<Vec<Vec<u8>>> = vec![
        vec![],
        vec![video_trak()],
        vec![video_trak(), audio_trak(0, 2)],
        vec![video_trak(), audio_trak(0, 2), subtitle_trak()],
    ];
    for traks in fixtures {
        let expect_video = traks.len() >= 1;
        let expect_audio = traks.len() >= 2;
        let expect_subtitle = traks.len() >= 3;
        let file_bytes = container(traks, 65536);
        let mut service = MutimediaManagementService::new();
        let meta = service
            .upload_blob_from_bytes_and_create_metadata(
                &file_bytes,
                &UploadFileParameters::new(),
                &UploadMetaParameters::new(),
            )
            .unwrap();
        assert_eq!(meta.video_track_id != 0, expect_video);
        assert_eq!(meta.audio_track_id != 0, expect_audio);
        assert_eq!(meta.subtitle_track_id != 0, expect_subtitle);
        assert_eq!(
            service
                .retrieve_metadata_by_id(&model::ModelType::VideoTrack, meta.video_track_id)
                .is_ok(),
            expect_video
        );
        assert_eq!(
            service
                .retrieve_metadata_by_id(&model::ModelType::AudioTrack, meta.audio_track_id)
                .is_ok(),
            expect_audio
        );
        assert_eq!(
            service
                .retrieve_metadata_by_id(&model::ModelType::SubtitleTrack, meta.subtitle_track_id)
                .is_ok(),
            expect_subtitle
        );
    }
}

#[test]
fn test_cascading_delete() {
    let mut service = MutimediaManagementService::new();
    let file_bytes = container(
        vec![video_trak(), audio_trak(160_000, 2), subtitle_trak()],
        65536,
    );
    let mut upload_file_parameters = UploadFileParameters::new();
    upload_file_parameters.blob_name = String::from("all_kinds.mp4");
    let meta = service
        .upload_blob_from_bytes_and_create_metadata(
            &file_bytes,
            &upload_file_parameters,
            &UploadMetaParameters::new(),
        )
        .unwrap();
    assert_ne!(meta.video_track_id, 0);
    assert_ne!(meta.audio_track_id, 0);
    assert_ne!(meta.subtitle_track_id, 0);

    let mut delete_blob_parameters = DeleteBlobParameters::new();
    delete_blob_parameters.container_meta_id = uuid_string(meta.id);
    delete_blob_parameters.file_name = String::from("all_kinds.mp4");
    assert!(service
        .delete_blob_and_created_metadata_by_id(&delete_blob_parameters)
        .is_ok());

    assert_eq!(
        service
            .retrieve_metadata_by_id(&model::ModelType::ContainerMeta, meta.id)
            .unwrap_err(),
        ServiceError::NotFoundError
    );
    assert_eq!(
        service
            .retrieve_metadata_by_id(&model::ModelType::VideoTrack, meta.video_track_id)
            .unwrap_err(),
        ServiceError::NotFoundError
    );
    assert_eq!(
        service
            .retrieve_metadata_by_id(&model::ModelType::AudioTrack, meta.audio_track_id)
            .unwrap_err(),
        ServiceError::NotFoundError
    );
    assert_eq!(
        service
            .retrieve_metadata_by_id(&model::ModelType::SubtitleTrack, meta.subtitle_track_id)
            .unwrap_err(),
        ServiceError::NotFoundError
    );

    let mut download_blob_parameters = DownloadBlobParameters::new();
    download_blob_parameters.container_meta_id = uuid_string(meta.id);
    download_blob_parameters.file_name = String::from("all_kinds.mp4");
    assert_eq!(
        service
            .retrieve_bytes_from_blob_by_name(&download_blob_parameters)
            .unwrap_err(),
        ServiceError::BlobStoreError
    );
}

#[test]
fn test_delete_idempotence_boundary() {
    let mut service = MutimediaManagementService::new();
    let file_bytes = sample_file();
    let mut upload_file_parameters = UploadFileParameters::new();
    upload_file_parameters.blob_name = String::from("once.mp4");
    let meta = service
        .upload_blob_from_bytes_and_create_metadata(
            &file_bytes,
            &upload_file_parameters,
            &UploadMetaParameters::new(),
        )
        .unwrap();

    let mut delete_blob_parameters = DeleteBlobParameters::new();
    delete_blob_parameters.container_meta_id = uuid_string(meta.id);
    delete_blob_parameters.file_name = String::from("once.mp4");

    assert!(service
        .delete_blob_and_created_metadata_by_id(&delete_blob_parameters)
        .is_ok());
    assert_eq!(
        service.delete_blob_and_created_metadata_by_id(&delete_blob_parameters),
        Err(ServiceError::NotFoundError)
    );
}

#[test]
fn test_tag_order_preserved() {
    let mut service = MutimediaManagementService::new();
    let file_bytes = sample_file();
    let mut upload_meta_parameters = UploadMetaParameters::new();
    upload_meta_parameters.tags = vec![
        Some(String::from("nature")),
        None,
        Some(String::from("adventure")),
    ];
    let meta = service
        .upload_blob_from_bytes_and_create_metadata(
            &file_bytes,
            &UploadFileParameters::new(),
            &upload_meta_parameters,
        )
        .unwrap();
    assert_eq!(
        meta.tags,
        vec![
            Some(String::from("nature")),
            None,
            Some(String::from("adventure")),
        ]
    );
    match service
        .retrieve_metadata_by_id(&model::ModelType::ContainerMeta, meta.id)
        .unwrap()
        .unwrap()
    {
        ModelType::ContainerMeta(row) => {
            assert_eq!(
                row.tags,
                vec![
                    Some(String::from("nature")),
                    None,
                    Some(String::from("adventure")),
                ]
            );
            assert_eq!(row.date_time_created, row.date_time_updated);
        },
        _ => panic!("expected a container row"),
    }
}

#[test]
fn test_parse_failure_keeps_blob_and_no_metadata() {
    // The blob uploaded before the parse stays persisted when the parse
    // fails; no metadata row is created.
    let mut service = MutimediaManagementService::new();
    let junk = vec![1u8, 2, 3];
    let mut upload_file_parameters = UploadFileParameters::new();
    upload_file_parameters.blob_name = String::from("junk.bin");
    let result = service.upload_blob_from_bytes_and_create_metadata(
        &junk,
        &upload_file_parameters,
        &UploadMetaParameters::new(),
    );
    assert!(matches!(result, Err(ServiceError::ParseError(_))));
}
