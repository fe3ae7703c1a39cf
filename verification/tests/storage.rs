use std::collections::{BTreeMap, BTreeSet};
use std::io::Read;

use image_host::download::{
    delete_file_reply, delete_reply, download_file_reply, stored_file_path, DownloadAction,
    DownloadEvent, DownloadMode, DownloadSession,
};
use image_host::paths::dir_path;
use image_host::responses::Reply;
use image_host::upload::{UploadAction, UploadEvent, UploadSession};

/// An in-memory storage whose operations all succeed.
#[derive(Clone, Default, PartialEq, Debug)]
struct Storage {
    dirs: BTreeSet<String>,
    files: BTreeMap<String, Vec<u8>>,
}

impl Storage {
    fn entries(&self, dir: &str) -> Vec<String> {
        let prefix = format!("{}/", dir);
        self.files
            .keys()
            .filter_map(|p| p.strip_prefix(&prefix))
            .filter(|n| !n.contains('/'))
            .map(|n| n.to_string())
            .collect()
    }

    fn upload(&mut self, dir_type: &str, dir_id: u64, fields: &[(&str, &[u8])]) -> Reply {
        let (mut s, mut a) = UploadSession::start(dir_type, dir_id);
        let mut next = 0;
        loop {
            let e = match a {
                UploadAction::EnsureDir(p) => {
                    self.dirs.insert(p);
                    UploadEvent::DirReady
                }
                UploadAction::NextField => {
                    if next < fields.len() {
                        next += 1;
                        UploadEvent::Field {
                            file_name: fields[next - 1].0.to_string(),
                            data: fields[next - 1].1.to_vec(),
                        }
                    } else {
                        UploadEvent::FieldsDone
                    }
                }
                UploadAction::ListDir(p) => UploadEvent::DirListed(self.entries(&p)),
                UploadAction::WriteFile { path, data } => {
                    self.files.insert(path, data);
                    UploadEvent::FileWritten
                }
                UploadAction::Respond(r) => return r,
            };
            a = s.step(e);
        }
    }

    fn download(&mut self, mode: DownloadMode, dir_type: &str, dir_id: u64) -> Reply {
        let (mut s, mut a) = DownloadSession::start(mode, dir_type, dir_id);
        let mut listing: Vec<String> = Vec::new();
        loop {
            let e = match a {
                DownloadAction::OpenDir(p) => {
                    if self.dirs.contains(&p) {
                        listing = self.entries(&p);
                        listing.reverse();
                        DownloadEvent::DirOpened
                    } else {
                        DownloadEvent::DirOpenFailed("not found".to_string())
                    }
                }
                DownloadAction::CreateDir(p) => {
                    self.dirs.insert(p);
                    DownloadEvent::DirCreated
                }
                DownloadAction::NextEntry => match listing.pop() {
                    Some(n) => DownloadEvent::Entry(n),
                    None => DownloadEvent::EntriesDone,
                },
                DownloadAction::ReadFile(p) => match self.files.get(&p) {
                    Some(d) => DownloadEvent::FileRead(d.clone()),
                    None => DownloadEvent::FileReadFailed("not found".to_string()),
                },
                DownloadAction::Respond(r) => return r,
            };
            a = s.step(e);
        }
    }

    fn delete(&mut self, dir_type: &str, dir_id: u64) -> Reply {
        let dir = dir_path(dir_type, dir_id);
        let removed = if self.dirs.remove(&dir) {
            let prefix = format!("{}/", dir);
            self.files.retain(|p, _| !p.starts_with(&prefix));
            self.dirs.retain(|d| !d.starts_with(&prefix));
            Ok(())
        } else {
            Err("not found".to_string())
        };
        delete_reply(removed)
    }

    fn delete_file(&mut self, dir_type: &str, dir_id: u64, name: &str) -> Reply {
        let path = stored_file_path(dir_type, dir_id, name);
        let removed = match self.files.remove(&path) {
            Some(_) => Ok(()),
            None => Err("not found".to_string()),
        };
        delete_file_reply(removed)
    }

    fn download_file(&self, dir_type: &str, dir_id: u64, name: &str) -> Reply {
        let path = stored_file_path(dir_type, dir_id, name);
        let read = self.files.get(&path).cloned().ok_or_else(|| "not found".to_string());
        download_file_reply(name.to_string(), read)
    }
}

fn unzip(bytes: &[u8]) -> Vec<(String, Vec<u8>)> {
    let mut archive = zip::ZipArchive::new(std::io::Cursor::new(bytes.to_vec())).unwrap();
    let mut out = Vec::new();
    for i in 0..archive.len() {
        let mut f = archive.by_index(i).unwrap();
        let mut data = Vec::new();
        f.read_to_end(&mut data).unwrap();
        out.push((f.name().unwrap().to_string(), data));
    }
    out
}

fn archive_entries(r: Reply) -> Vec<(String, Vec<u8>)> {
    match r {
        Reply::Attachment { data, filename } => {
            assert_eq!(filename, "archive.zip");
            let mut v = unzip(&data);
            v.sort();
            v
        }
        _ => panic!("expected the archive"),
    }
}

#[test]
fn download_after_upload_gives_uploaded_files() {
    let mut fs = Storage::default();
    assert!(matches!(fs.upload("t", 1, &[("a.png", b"AAA"), ("b.gif", b"BB")]), Reply::Json(_)));
    assert_eq!(
        archive_entries(fs.download(DownloadMode::Archive, "t", 1)),
        vec![("a.png".to_string(), b"AAA".to_vec()), ("b.gif".to_string(), b"BB".to_vec())]
    );
}

#[test]
fn preview_after_single_upload() {
    let mut fs = Storage::default();
    fs.upload("t", 2, &[("only.webp", b"W")]);
    match fs.download(DownloadMode::Preview, "t", 2) {
        Reply::Attachment { data, filename } => {
            assert_eq!(filename, "only.webp");
            assert_eq!(data, b"W".to_vec());
        }
        _ => panic!("expected the file"),
    }
}

#[test]
fn download_file_after_upload_and_after_delete_file() {
    let mut fs = Storage::default();
    fs.upload("t", 3, &[("x.png", b"old")]);
    fs.upload("t", 3, &[("x.png", b"new")]);
    match fs.download_file("t", 3, "x.png") {
        Reply::Attachment { data, .. } => assert_eq!(data, b"new".to_vec()),
        _ => panic!("expected the file"),
    }
    assert!(matches!(fs.delete_file("t", 3, "x.png"), Reply::Json(_)));
    match fs.download_file("t", 3, "x.png") {
        Reply::Error(vo) => assert!(vo.msg.starts_with("读取文件失败: ")),
        _ => panic!("expected a failure"),
    }
}

#[test]
fn delete_then_download_and_delete_again() {
    let mut fs = Storage::default();
    fs.upload("t", 4, &[("a.png", b"A")]);
    assert!(matches!(fs.delete("t", 4), Reply::Json(_)));
    let after_first = fs.clone();
    match fs.delete("t", 4) {
        Reply::Error(vo) => assert!(vo.msg.starts_with("目录删除失败: ")),
        _ => panic!("expected a failure"),
    }
    assert_eq!(fs, after_first);
    assert!(archive_entries(fs.download(DownloadMode::Archive, "t", 4)).is_empty());
    assert!(fs.dirs.contains("/root/image/t/4"));
}

#[test]
fn delete_file_undoes_upload() {
    let mut fs = Storage::default();
    fs.upload("t", 5, &[("keep.png", b"K")]);
    let before = fs.files.clone();
    fs.upload("t", 5, &[("new.png", b"N")]);
    fs.delete_file("t", 5, "new.png");
    assert_eq!(fs.files, before);
}
