use image_host::responses::{Reply, ReplyData};
use image_host::upload::{UploadAction, UploadEvent, UploadSession};

const DIR: &str = "/root/image/avatar/1";

fn field(name: &str, len: usize) -> UploadEvent {
    UploadEvent::Field { file_name: name.to_string(), data: vec![7u8; len] }
}

fn names(list: &[&str]) -> Vec<String> {
    list.iter().map(|s| s.to_string()).collect()
}

fn started() -> UploadSession {
    let (mut s, a) = UploadSession::start("avatar", 1);
    match a {
        UploadAction::EnsureDir(p) => assert_eq!(p, DIR),
        _ => panic!("expected EnsureDir"),
    }
    assert!(matches!(s.step(UploadEvent::DirReady), UploadAction::NextField));
    s
}

fn failure_msg(a: UploadAction) -> String {
    match a {
        UploadAction::Respond(Reply::Error(vo)) => {
            assert_eq!(vo.code, 500);
            assert!(matches!(vo.data, ReplyData::Null));
            vo.msg
        }
        _ => panic!("expected a failure reply"),
    }
}

fn success_names(a: UploadAction) -> Vec<String> {
    match a {
        UploadAction::Respond(Reply::Json(vo)) => {
            assert_eq!(vo.code, 200);
            assert_eq!(vo.msg, "图片上传成功");
            match vo.data {
                ReplyData::Names(v) => v,
                ReplyData::Null => panic!("expected names"),
            }
        }
        _ => panic!("expected a success reply"),
    }
}

#[test]
fn upload_writes_accepted_files_and_lists_all() {
    let mut s = started();
    assert!(matches!(s.step(field("a.png", 10)), UploadAction::NextField));
    assert!(matches!(s.step(field("b.jpg", 20)), UploadAction::NextField));
    match s.step(UploadEvent::FieldsDone) {
        UploadAction::ListDir(p) => assert_eq!(p, DIR),
        _ => panic!("expected ListDir"),
    }
    match s.step(UploadEvent::DirListed(names(&["old.gif"]))) {
        UploadAction::WriteFile { path, data } => {
            assert_eq!(path, "/root/image/avatar/1/a.png");
            assert_eq!(data, vec![7u8; 10]);
        }
        _ => panic!("expected WriteFile"),
    }
    match s.step(UploadEvent::FileWritten) {
        UploadAction::WriteFile { path, data } => {
            assert_eq!(path, "/root/image/avatar/1/b.jpg");
            assert_eq!(data.len(), 20);
        }
        _ => panic!("expected WriteFile"),
    }
    let listed = success_names(s.step(UploadEvent::FileWritten));
    assert_eq!(listed, names(&["old.gif", "a.png", "b.jpg"]));
}

#[test]
fn upload_without_files_lists_directory() {
    let mut s = started();
    assert!(matches!(s.step(UploadEvent::FieldsDone), UploadAction::ListDir(_)));
    let listed = success_names(s.step(UploadEvent::DirListed(names(&["x.png", "y.png"]))));
    assert_eq!(listed, names(&["x.png", "y.png"]));
}

#[test]
fn non_image_is_refused() {
    let mut s = started();
    assert_eq!(failure_msg(s.step(field("notes.txt", 3))), "上传的文件不是图片");
}

#[test]
fn size_limit_is_200_kib() {
    let mut s = started();
    assert!(matches!(s.step(field("ok.png", 204800)), UploadAction::NextField));
    assert_eq!(failure_msg(s.step(field("big.png", 204801))), "文件大小超过200kb");
}

#[test]
fn fifth_file_is_refused() {
    let mut s = started();
    for n in ["1.png", "2.png", "3.png", "4.png"] {
        assert!(matches!(s.step(field(n, 1)), UploadAction::NextField));
    }
    assert_eq!(failure_msg(s.step(field("5.png", 1))), "上传的文件数量超过4个");
}

#[test]
fn directory_capacity_is_checked_after_listing() {
    let mut s = started();
    s.step(field("a.png", 1));
    s.step(field("b.png", 1));
    s.step(UploadEvent::FieldsDone);
    let listed = names(&["x.png", "y.png", "z.png"]);
    assert_eq!(failure_msg(s.step(UploadEvent::DirListed(listed))), "上传的文件数量超过4个");
}

#[test]
fn large_directory_refuses_upload() {
    let mut s = started();
    s.step(field("a.png", 1));
    s.step(UploadEvent::FieldsDone);
    let listed: Vec<String> = (0..256).map(|i| format!("{}.png", i)).collect();
    assert_eq!(failure_msg(s.step(UploadEvent::DirListed(listed))), "上传的文件数量超过4个");
}

#[test]
fn directory_can_be_filled_to_four() {
    let mut s = started();
    s.step(field("a.png", 1));
    s.step(UploadEvent::FieldsDone);
    let listed = names(&["x.png", "y.png", "z.png"]);
    assert!(matches!(s.step(UploadEvent::DirListed(listed)), UploadAction::WriteFile { .. }));
}

#[test]
fn directory_errors_are_reported() {
    let (mut s, _) = UploadSession::start("t", 2);
    assert_eq!(
        failure_msg(s.step(UploadEvent::DirCreateFailed("denied".to_string()))),
        "在创建目录时出错: denied"
    );
    let mut s = started();
    s.step(UploadEvent::FieldsDone);
    assert_eq!(failure_msg(s.step(UploadEvent::DirOpenFailed("gone".to_string()))), "无法打开指定的目录: gone");
    let mut s = started();
    s.step(UploadEvent::FieldsDone);
    assert_eq!(failure_msg(s.step(UploadEvent::DirReadFailed("io".to_string()))), "无法读取目录: io");
}

#[test]
fn field_and_write_errors_are_reported() {
    let mut s = started();
    assert_eq!(failure_msg(s.step(UploadEvent::FieldReadFailed("eof".to_string()))), "读取上传的文件失败: eof");
    let mut s = started();
    s.step(field("a.png", 1));
    s.step(UploadEvent::FieldsDone);
    s.step(UploadEvent::DirListed(vec![]));
    assert_eq!(failure_msg(s.step(UploadEvent::FileWriteFailed("full".to_string()))), "写入文件失败: full");
}
