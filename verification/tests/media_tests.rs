use gouda::media::{
    determine_file_extension_and_mime, determine_file_extension_from_data,
    determine_file_extension_with_path, join_path, outdated_step, replace_file_name, Asset,
    AssetInfo, AssetManager, MediaError, MediaEventAsset, OutdatedStep, PreviousDownload,
    RoomAttachmentAsset, RoomAvatarAsset, UserAvatarAsset,
};

const PNG: &[u8] = &[0x89, 0x50, 0x4E, 0x47, 0x0D, 0x0A, 0x1A, 0x0A, 0x00, 0x00, 0x00, 0x0D];

fn info(file: &str, url: &str) -> AssetInfo {
    AssetInfo { file: file.to_owned(), download_ts: 10, upstream_url: url.to_owned() }
}

#[test]
fn media_extension_from_data() {
    assert_eq!(determine_file_extension_from_data(PNG), Some("png".to_owned()));
    assert_eq!(determine_file_extension_from_data(&[0x00, 0x01]), None);
}

#[test]
fn media_extension_with_path() {
    assert_eq!(determine_file_extension_with_path(PNG, "photo.jpeg"), Some("jpeg".to_owned()));
    assert_eq!(determine_file_extension_with_path(PNG, "photo"), Some("png".to_owned()));
    assert_eq!(determine_file_extension_with_path(PNG, "archive.tar.gz"), Some("gz".to_owned()));
    assert_eq!(determine_file_extension_with_path(PNG, "notes."), Some("".to_owned()));
    assert_eq!(determine_file_extension_with_path(PNG, ".hidden"), Some("png".to_owned()));
    assert_eq!(determine_file_extension_with_path(&[0x00], ".hidden"), None);
    assert_eq!(determine_file_extension_with_path(PNG, "dir/photo.jpeg"), Some("jpeg".to_owned()));
}

#[test]
fn media_extension_and_mime() {
    assert_eq!(determine_file_extension_and_mime(PNG, "a/b"), (Some("png".to_owned()), "image/png".to_owned()));
    assert_eq!(
        determine_file_extension_and_mime(&[0x00], "a/b"),
        (None, "application/octet-stream".to_owned())
    );
    assert_eq!(
        determine_file_extension_and_mime(&[0x00], "a/b.unknownext"),
        (Some("unknownext".to_owned()), "application/octet-stream".to_owned())
    );
    assert_eq!(
        determine_file_extension_and_mime(&[0x00], "/home/u/notes.txt"),
        (Some("txt".to_owned()), "text/plain".to_owned())
    );
    assert_eq!(
        determine_file_extension_and_mime(PNG, "/x/a.b/file"),
        (Some("png".to_owned()), "image/png".to_owned())
    );
}

#[test]
fn media_paths() {
    assert_eq!(join_path("/data", "media"), "/data/media");
    assert_eq!(join_path("/data/", "media"), "/data/media");
    assert_eq!(join_path("", "media"), "media");
    assert_eq!(join_path("/data", "/abs"), "/abs");
    assert_eq!(replace_file_name("a/b/c_info.json", "c.png"), "a/b/c.png");
    assert_eq!(replace_file_name("c_info.json", "c.png"), "c.png");
}

#[test]
fn media_asset_manager_paths() {
    let manager = AssetManager::new("/root".to_owned(), "media/room_avatars".to_owned(), RoomAvatarAsset::new("!room:server".to_owned()));
    assert_eq!(manager.get_info_file_name(), Ok("!room:server_info.json".to_owned()));
    assert_eq!(manager.get_asset_file_name(Some("png")), Ok("!room:server.png".to_owned()));
    assert_eq!(manager.get_asset_file_name(None), Ok("!room:server".to_owned()));
    assert_eq!(manager.get_download_dir_relative(), "media/room_avatars");
    assert_eq!(manager.get_download_dir_absolute(), "/root/media/room_avatars");
    assert_eq!(manager.get_info_path_absolute(), Ok("/root/media/room_avatars/!room:server_info.json".to_owned()));
    assert_eq!(manager.get_info_path_relative(), Ok("media/room_avatars/!room:server_info.json".to_owned()));
    assert_eq!(manager.get_asset_path_absolute("x.png"), Ok("/root/media/room_avatars/x.png".to_owned()));
    assert_eq!(manager.get_asset_path_relative("x.png"), Ok("media/room_avatars/x.png".to_owned()));
    assert_eq!(manager.asset().id, "!room:server");
}

#[test]
fn media_attachment_without_id() {
    let manager = AssetManager::new("/root".to_owned(), "att".to_owned(), RoomAttachmentAsset::new(None));
    assert_eq!(manager.get_info_file_name(), Err(MediaError::AssetIdNotSpecified));
    assert!(manager.plan_storage(Some("png"), String::new(), 5).is_err());
    let mut asset = RoomAttachmentAsset::new(Some("f.txt".to_owned())).reply_to("$reply".to_owned());
    asset.record_sent_message("$event".to_owned());
    assert_eq!(asset.asset_id(), Ok("$event".to_owned()));
    assert_eq!(asset.reply_to, Some("$reply".to_owned()));
    assert_eq!(asset.download().err(), Some(MediaError::NotAllowed));
}

#[test]
fn media_previous_download() {
    let manager = AssetManager::new("/root".to_owned(), "avatars".to_owned(), UserAvatarAsset::new("@u:s".to_owned(), None));
    let stored = info("@u:s.png", "mxc://s/1");
    match manager.check_previous_download(&stored, Ok(true)) {
        PreviousDownload::Current(path) => assert_eq!(path, Ok("avatars/@u:s.png".to_owned())),
        PreviousDownload::Outdated => panic!("expected current"),
    }
    match manager.check_previous_download(&stored, Err(MediaError::NotFound)) {
        PreviousDownload::Current(path) => assert_eq!(path, Ok("avatars/@u:s.png".to_owned())),
        PreviousDownload::Outdated => panic!("expected current"),
    }
    assert!(matches!(manager.check_previous_download(&stored, Ok(false)), PreviousDownload::Outdated));
}

#[test]
fn media_plan_storage() {
    let manager = AssetManager::new("/root".to_owned(), "avatars".to_owned(), MediaEventAsset::new("$ev".to_owned(), None));
    let stored = manager.plan_storage(Some("jpg"), "mxc://s/2".to_owned(), 77).unwrap();
    assert_eq!(stored.info.file, "$ev.jpg");
    assert_eq!(stored.info.download_ts, 77);
    assert_eq!(stored.info.upstream_url, "mxc://s/2");
    assert_eq!(stored.info_path, "/root/avatars/$ev_info.json");
    assert_eq!(stored.asset_path, "/root/avatars/$ev.jpg");
    assert_eq!(stored.relative_path, "avatars/$ev.jpg");
}

#[test]
fn media_up_to_date_checks() {
    let room = RoomAvatarAsset::new("!r".to_owned());
    let stored = info("!r.png", "mxc://a");
    assert_eq!(room.is_up_to_date(&Some("mxc://a".to_owned()), &stored), Ok(true));
    assert_eq!(room.is_up_to_date(&Some("mxc://b".to_owned()), &stored), Ok(false));
    assert_eq!(room.is_up_to_date(&None, &stored), Ok(false));
    assert!(room.was_removed(&None));

    let user = UserAvatarAsset::new("@u".to_owned(), None);
    assert_eq!(user.is_up_to_date(&Ok(Some("mxc://a".to_owned())), &stored), Ok(true));
    assert_eq!(user.is_up_to_date(&Err(MediaError::UnableToGetAvatarUri), &stored), Err(MediaError::UnableToGetAvatarUri));
    assert!(user.was_removed(&Ok(None)));
    assert!(!user.was_removed(&Err(MediaError::UnableToGetAvatarUri)));

    let event = MediaEventAsset::new("$e".to_owned(), Some("file.gif".to_owned()));
    assert_eq!(event.is_up_to_date(&Ok("mxc://a".to_owned()), &stored), Ok(true));
    assert!(event.was_removed(&Err(MediaError::NotFound)));
    assert_eq!(event.downloaded_extension(PNG), Some("gif".to_owned()));
}

#[test]
fn media_user_avatar_uri_cache() {
    let mut user = UserAvatarAsset::new("@u".to_owned(), None);
    assert_eq!(user.cached_avatar_uri(), None);
    assert_eq!(user.record_avatar_uri(Err(())), Err(MediaError::UnableToGetAvatarUri));
    assert_eq!(user.cached_avatar_uri(), None);
    assert_eq!(user.record_avatar_uri(Ok(Some("mxc://x".to_owned()))), Ok(Some("mxc://x".to_owned())));
    assert_eq!(user.cached_avatar_uri(), Some(Some("mxc://x".to_owned())));
}

#[test]
fn media_outdated_step() {
    assert!(matches!(outdated_step(true), OutdatedStep::DeleteAndFail(MediaError::Removed)));
    assert!(matches!(outdated_step(false), OutdatedStep::Download));
}
