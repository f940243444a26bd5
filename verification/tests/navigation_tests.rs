use cargo_app::file_icons::{extension_of, file_icon, icon_for_filename};
use cargo_app::navigation::{
    delete_heading, drop_decision, is_visible, join_remote, protocol_icon, remote_dir_of,
    remote_parent, rename_answer, rename_enabled, rename_selection_end, sidebar_actions,
    single_item_actions, site_is_connected, sync_local_to_remote, sync_remote_to_local,
    visible_entries, DeleteHeading, DropDecision, SidebarActions, SyncCommand, SyncEvent,
};
use cargo_app::protocol::RemoteEntry;
use cargo_app::site_manager::SerializableProtocol;
use cargo_app::transfer::TransferDirection;

#[test]
fn remote_joins() {
    assert_eq!(join_remote("/home", "a"), "/home/a");
    assert_eq!(join_remote("/", "a"), "/a");
    assert_eq!(join_remote("/home/", "a"), "/home/a");
    assert_eq!(join_remote("", "a"), "/a");
}

#[test]
fn remote_parents() {
    assert_eq!(remote_parent("/"), None);
    assert_eq!(remote_parent("/a/b").as_deref(), Some("/a"));
    assert_eq!(remote_parent("/a").as_deref(), Some("/"));
    assert_eq!(remote_parent("a").as_deref(), Some("/"));
    assert_eq!(remote_parent("/a/b/").as_deref(), Some("/a"));
    assert_eq!(remote_parent("//").as_deref(), Some("/"));
    assert_eq!(remote_parent("").as_deref(), Some("/"));
    for dir in ["/", "/srv", "/srv/www", "rel", ""] {
        let child = join_remote(dir, "sub");
        let expected = if dir.is_empty() { "/" } else { dir };
        assert_eq!(remote_parent(&child).as_deref(), Some(expected));
    }
}

#[test]
fn remote_directory_of_file() {
    assert_eq!(remote_dir_of("/srv/www/index.html"), "/srv/www");
    assert_eq!(remote_dir_of("/index.html"), "/");
    assert_eq!(remote_dir_of("index.html"), "/");
}

fn entry(name: &str) -> RemoteEntry {
    RemoteEntry { name: name.to_string(), is_dir: false, size: 0, modified: None, permissions: None, owner: None }
}

#[test]
fn hidden_files() {
    assert!(is_visible("a", false));
    assert!(!is_visible(".a", false));
    assert!(is_visible(".a", true));
    assert!(is_visible("", false));
    let v = vec![entry(".git"), entry("src"), entry(".env"), entry("README")];
    let names: Vec<String> = visible_entries(v.clone(), false).into_iter().map(|e| e.name).collect();
    assert_eq!(names, vec!["src".to_string(), "README".to_string()]);
    assert_eq!(visible_entries(v, true).len(), 4);
}

#[test]
fn synchronized_browsing() {
    let enter = SyncEvent::EnterDir("docs".to_string());
    match sync_local_to_remote(&enter, false, true, true, "/srv") {
        SyncCommand::RemoteEnter(p) => assert_eq!(p, "/srv/docs"),
        other => panic!("unexpected {:?}", other),
    }
    assert!(matches!(sync_local_to_remote(&SyncEvent::Up, false, true, true, "/srv"), SyncCommand::RemoteUp));
    assert!(matches!(sync_local_to_remote(&enter, true, true, true, "/srv"), SyncCommand::Ignore));
    assert!(matches!(sync_local_to_remote(&enter, false, false, true, "/srv"), SyncCommand::Ignore));
    assert!(matches!(sync_local_to_remote(&enter, false, true, false, "/srv"), SyncCommand::Ignore));
    match sync_remote_to_local(&enter, false, true) {
        SyncCommand::LocalEnter(n) => assert_eq!(n, "docs"),
        other => panic!("unexpected {:?}", other),
    }
    assert!(matches!(sync_remote_to_local(&SyncEvent::Up, false, true), SyncCommand::LocalUp));
    assert!(matches!(sync_remote_to_local(&SyncEvent::Up, true, true), SyncCommand::Ignore));
}

#[test]
fn drops() {
    assert_eq!(drop_decision("left", "left", true), DropDecision::SamePanel);
    assert_eq!(drop_decision("left", "right", false), DropDecision::NotConnected);
    assert_eq!(drop_decision("left", "right", true), DropDecision::Transfer(TransferDirection::Upload));
    assert_eq!(drop_decision("right", "left", true), DropDecision::Transfer(TransferDirection::Download));
}

#[test]
fn rename_dialog() {
    assert_eq!(rename_selection_end("report.pdf"), 6);
    assert_eq!(rename_selection_end("README"), 6);
    assert_eq!(rename_selection_end("ä.txt"), 2);
    assert!(rename_enabled("b", "a"));
    assert!(!rename_enabled("a", "a"));
    assert!(!rename_enabled("", "a"));
    assert_eq!(rename_answer(true, "b", "a").as_deref(), Some("b"));
    assert_eq!(rename_answer(false, "b", "a"), None);
    assert_eq!(rename_answer(true, "a", "a"), None);
}

#[test]
fn delete_headings_and_menus() {
    match delete_heading(&vec!["a".to_string()]) {
        DeleteHeading::Single(n) => assert_eq!(n, "a"),
        _ => panic!(),
    }
    assert!(matches!(delete_heading(&vec!["a".to_string(), "b".to_string()]), DeleteHeading::Count(2)));
    assert!(single_item_actions(1) && !single_item_actions(2) && !single_item_actions(0));
    let c = Some("id1".to_string());
    assert!(site_is_connected("id1", &c) && !site_is_connected("id2", &c) && !site_is_connected("id1", &None));
    assert_eq!(sidebar_actions("id1", &c), SidebarActions { disconnect: true, edit: false, delete: false });
    assert_eq!(sidebar_actions("id2", &c), SidebarActions { disconnect: false, edit: true, delete: true });
    assert_eq!(protocol_icon(SerializableProtocol::Ftp), "cargo-ftp-symbolic");
    assert_eq!(protocol_icon(SerializableProtocol::Ftps), "cargo-ftps-symbolic");
    assert_eq!(protocol_icon(SerializableProtocol::Sftp), "cargo-sftp-symbolic");
}

#[test]
fn file_icons() {
    assert_eq!(extension_of("Photo.JPG"), "jpg");
    assert_eq!(extension_of("README"), "");
    assert_eq!(extension_of("a."), "");
    assert_eq!(icon_for_filename("Photo.JPG"), "image-x-generic-symbolic");
    assert_eq!(icon_for_filename("song.Mp3"), "audio-x-generic-symbolic");
    assert_eq!(icon_for_filename("clip.mkv"), "video-x-generic-symbolic");
    assert_eq!(icon_for_filename("paper.pdf"), "x-office-document-symbolic");
    assert_eq!(icon_for_filename("table.csv"), "x-office-spreadsheet-symbolic");
    assert_eq!(icon_for_filename("talk.key"), "x-office-presentation-symbolic");
    assert_eq!(icon_for_filename("plan.odg"), "x-office-drawing-symbolic");
    assert_eq!(icon_for_filename("archive.tar.gz"), "package-x-generic-symbolic");
    assert_eq!(icon_for_filename("font.woff2"), "font-x-generic-symbolic");
    assert_eq!(icon_for_filename("setup.exe"), "application-x-executable-symbolic");
    assert_eq!(icon_for_filename("libc.so"), "application-x-sharedlib-symbolic");
    assert_eq!(icon_for_filename("disk.iso"), "media-optical-symbolic");
    assert_eq!(icon_for_filename("cert.pem"), "application-certificate-symbolic");
    assert_eq!(icon_for_filename("ext.xpi"), "application-x-addon-symbolic");
    assert_eq!(icon_for_filename("bios.rom"), "application-x-firmware-symbolic");
    assert_eq!(icon_for_filename("feed.atom"), "application-rss+xml-symbolic");
    assert_eq!(icon_for_filename("me.vcf"), "x-office-address-book-symbolic");
    assert_eq!(icon_for_filename("cal.ics"), "x-office-calendar-symbolic");
    assert_eq!(icon_for_filename("main.rs"), "text-x-generic-symbolic");
    assert_eq!(icon_for_filename("README"), "text-x-generic-symbolic");
    assert_eq!(icon_for_filename("jpg"), "text-x-generic-symbolic");
    assert_eq!(file_icon("photos.jpg", true), "folder-symbolic");
    assert_eq!(file_icon("photos.jpg", false), "image-x-generic-symbolic");
}

#[test]
fn icon_depends_only_on_lowercase_extension() {
    assert_eq!(icon_for_filename("Holiday.Photo.JPG"), icon_for_filename("x.jpg"));
    assert_eq!(icon_for_filename("Holiday.Photo.JPG"), "image-x-generic-symbolic");
    assert_eq!(icon_for_filename("archive.tar.GZ"), icon_for_filename("x.gz"));
    assert_eq!(icon_for_filename("README"), "text-x-generic-symbolic");
    assert_eq!(icon_for_filename("Makefile"), "text-x-generic-symbolic");
}
