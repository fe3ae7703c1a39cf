use std::io::Read;

use image_host::archive::ArchiveBuilder;
use image_host::download::{
    delete_file_reply, delete_reply, download_file_reply, stored_file_path,
    DownloadAction,
    DownloadEvent, DownloadMode, DownloadSession,
};
use image_host::responses::{Reply, ReplyData};

const DIR: &str = "/root/image/goods/3";

fn unzip(bytes: &[u8]) -> Vec<(String, Vec<u8>)> {
    let mut archive = zip::ZipArchive::new(std::io::Cursor::new(bytes.to_vec())).unwrap();
    let mut out = Vec::new();
    for i in 0..archive.len() {
        let mut f = archive.by_index(i).unwrap();
        let mut data = Vec::new();
        f.read_to_end(&mut data).unwrap();
        out.push((f.name().unwrap().to_string(), data));
    }
    out
}

fn failure_msg(a: DownloadAction) -> String {
    match a {
        DownloadAction::Respond(Reply::Error(vo)) => {
            assert_eq!(vo.code, 500);
            vo.msg
        }
        _ => panic!("expected a failure reply"),
    }
}

fn opened(mode: DownloadMode) -> DownloadSession {
    let (mut s, a) = DownloadSession::start(mode, "goods", 3);
    match a {
        DownloadAction::OpenDir(p) => assert_eq!(p, DIR),
        _ => panic!("expected OpenDir"),
    }
    assert!(matches!(s.step(DownloadEvent::DirOpened), DownloadAction::NextEntry));
    s
}

#[test]
fn archive_holds_every_entry() {
    let mut s = opened(DownloadMode::Archive);
    assert!(matches!(s.step(DownloadEvent::Entry("a.png".to_string())), DownloadAction::NextEntry));
    assert!(matches!(s.step(DownloadEvent::Entry("b.jpg".to_string())), DownloadAction::NextEntry));
    match s.step(DownloadEvent::EntriesDone) {
        DownloadAction::ReadFile(p) => assert_eq!(p, "/root/image/goods/3/a.png"),
        _ => panic!("expected ReadFile"),
    }
    match s.step(DownloadEvent::FileRead(b"first image".to_vec())) {
        DownloadAction::ReadFile(p) => assert_eq!(p, "/root/image/goods/3/b.jpg"),
        _ => panic!("expected ReadFile"),
    }
    match s.step(DownloadEvent::FileRead(vec![1, 2, 3, 4, 5])) {
        DownloadAction::Respond(Reply::Attachment { data, filename }) => {
            assert_eq!(filename, "archive.zip");
            let entries = unzip(&data);
            assert_eq!(
                entries,
                vec![
                    ("a.png".to_string(), b"first image".to_vec()),
                    ("b.jpg".to_string(), vec![1, 2, 3, 4, 5]),
                ]
            );
        }
        _ => panic!("expected the archive"),
    }
}

#[test]
fn missing_directory_is_created_and_gives_empty_archive() {
    let (mut s, _) = DownloadSession::start(DownloadMode::Archive, "goods", 3);
    match s.step(DownloadEvent::DirOpenFailed("not found".to_string())) {
        DownloadAction::CreateDir(p) => assert_eq!(p, DIR),
        _ => panic!("expected CreateDir"),
    }
    match s.step(DownloadEvent::DirCreated) {
        DownloadAction::OpenDir(p) => assert_eq!(p, DIR),
        _ => panic!("expected OpenDir"),
    }
    assert!(matches!(s.step(DownloadEvent::DirOpened), DownloadAction::NextEntry));
    match s.step(DownloadEvent::EntriesDone) {
        DownloadAction::Respond(Reply::Attachment { data, filename }) => {
            assert_eq!(filename, "archive.zip");
            assert!(unzip(&data).is_empty());
        }
        _ => panic!("expected the archive"),
    }
}

#[test]
fn directory_failures() {
    let (mut s, _) = DownloadSession::start(DownloadMode::Archive, "goods", 3);
    s.step(DownloadEvent::DirOpenFailed("nf".to_string()));
    assert_eq!(failure_msg(s.step(DownloadEvent::DirCreateFailed("ro".to_string()))), "在创建目录时出错: ro");
    let (mut s, _) = DownloadSession::start(DownloadMode::Preview, "goods", 3);
    s.step(DownloadEvent::DirOpenFailed("nf".to_string()));
    s.step(DownloadEvent::DirCreated);
    assert_eq!(failure_msg(s.step(DownloadEvent::DirOpenFailed("again".to_string()))), "无法打开指定的目录: again");
    let mut s = opened(DownloadMode::Archive);
    assert_eq!(failure_msg(s.step(DownloadEvent::EntryFailed("io".to_string()))), "无法读取目录: io");
}

#[test]
fn archive_read_failure() {
    let mut s = opened(DownloadMode::Archive);
    s.step(DownloadEvent::Entry("a.png".to_string()));
    s.step(DownloadEvent::EntriesDone);
    assert_eq!(
        failure_msg(s.step(DownloadEvent::FileReadFailed("denied".to_string()))),
        "压缩文件时出错: denied"
    );
}

#[test]
fn preview_sends_first_entry() {
    let mut s = opened(DownloadMode::Preview);
    match s.step(DownloadEvent::Entry("cover.png".to_string())) {
        DownloadAction::ReadFile(p) => assert_eq!(p, "/root/image/goods/3/cover.png"),
        _ => panic!("expected ReadFile"),
    }
    match s.step(DownloadEvent::FileRead(vec![9, 9])) {
        DownloadAction::Respond(Reply::Attachment { data, filename }) => {
            assert_eq!(data, vec![9, 9]);
            assert_eq!(filename, "cover.png");
        }
        _ => panic!("expected the file"),
    }
}

#[test]
fn preview_of_empty_directory() {
    let mut s = opened(DownloadMode::Preview);
    assert_eq!(failure_msg(s.step(DownloadEvent::EntriesDone)), "目录为空");
    let mut s = opened(DownloadMode::Preview);
    s.step(DownloadEvent::Entry("x.png".to_string()));
    assert_eq!(failure_msg(s.step(DownloadEvent::FileReadFailed("gone".to_string()))), "读取文件失败: gone");
}

#[test]
fn single_file_download() {
    assert_eq!(stored_file_path("goods", 3, "x.png"), "/root/image/goods/3/x.png");
    match download_file_reply("x.png".to_string(), Ok(vec![1, 2])) {
        Reply::Attachment { data, filename } => {
            assert_eq!(data, vec![1, 2]);
            assert_eq!(filename, "x.png");
        }
        _ => panic!("expected the file"),
    }
    match download_file_reply("x.png".to_string(), Err("missing".to_string())) {
        Reply::Error(vo) => assert_eq!(vo.msg, "读取文件失败: missing"),
        _ => panic!("expected a failure"),
    }
}

#[test]
fn deletion_replies() {
    match delete_reply(Ok(())) {
        Reply::Json(vo) => {
            assert_eq!(vo.code, 200);
            assert_eq!(vo.msg, "目录删除成功");
            assert!(matches!(vo.data, ReplyData::Null));
        }
        _ => panic!("expected success"),
    }
    match delete_reply(Err("busy".to_string())) {
        Reply::Error(vo) => assert_eq!(vo.msg, "目录删除失败: busy"),
        _ => panic!("expected failure"),
    }
    match delete_file_reply(Ok(())) {
        Reply::Json(vo) => assert_eq!(vo.msg, "文件删除成功"),
        _ => panic!("expected success"),
    }
    match delete_file_reply(Err("no".to_string())) {
        Reply::Error(vo) => assert_eq!(vo.msg, "文件删除失败: no"),
        _ => panic!("expected failure"),
    }
}

#[test]
fn archive_builder_round_trip() {
    let b = ArchiveBuilder::new();
    let b = b.add_entry("one.txt", b"hello hello hello hello").unwrap();
    let b = b.add_entry("two.bin", &[0u8; 1000]).unwrap();
    let bytes = b.finish();
    assert_eq!(
        unzip(&bytes),
        vec![
            ("one.txt".to_string(), b"hello hello hello hello".to_vec()),
            ("two.bin".to_string(), vec![0u8; 1000]),
        ]
    );
}

#[test]
fn archive_entry_failure_is_reported_as_io_error() {
    let b = ArchiveBuilder::new();
    let long_name = "n".repeat(65536);
    let err = match b.add_entry(&long_name, b"x") {
        Ok(_) => panic!("a name of 65536 bytes cannot be recorded"),
        Err(e) => e,
    };
    assert_eq!(err, "i/o error: 无法写入文件: filename exceeded maximum size");
}

#[test]
fn longest_entry_name_is_accepted() {
    let b = ArchiveBuilder::new();
    let name = "n".repeat(65535);
    let b = match b.add_entry(&name, b"x") {
        Ok(b) => b,
        Err(e) => panic!("{}", e),
    };
    let entries = unzip(&b.finish());
    assert_eq!(entries.len(), 1);
    assert_eq!(entries[0].0.len(), 65535);
    // Multi-byte characters count by their UTF-8 length.
    let wide = "图".repeat(21846);
    assert!(ArchiveBuilder::new().add_entry(&wide, b"x").is_err());
    let wide = "图".repeat(21845);
    assert!(ArchiveBuilder::new().add_entry(&wide, b"x").is_ok());
}
