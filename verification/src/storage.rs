//! A model of the storage that the requests act on, and laws over
//! successive requests.
//!
//! The model holds the directories that exist and the regular files with
//! their contents. The `*_io` relations say how a driver that works on this
//! storage, and whose operations all succeed, answers an action of a
//! session. The run invariants show what a session has done to the storage
//! at each point; the laws at the end link one request to the next.
use vstd::prelude::*;
use crate::archive::{deflate_zip_archive, plain_component};
use crate::download::{
    DownloadAction, DownloadEvent, DownloadPhase, DownloadSession, download_step, entries_of,
    reads_file,
};
use crate::paths::file_path_of;
use crate::responses::{Reply, string_views};
use crate::upload::{
    UploadAction, UploadEvent, UploadPhase, UploadSession, responds_success, upload_step, writes_file,
};

verus! {

/// The storage: existing directories, and regular files by path.
pub struct Storage {
    pub dirs: Set<Seq<char>>,
    pub files: Map<Seq<char>, Seq<u8>>,
}

/// The names of the regular files directly inside `dir`.
pub open spec fn entries(fs: Storage, dir: Seq<char>) -> Set<Seq<char>> {
    Set::new(|n: Seq<char>| plain_component(n) && fs.files.contains_key(file_path_of(dir, n)))
}

/// `v` lists every name of `names` once, in some order.
pub open spec fn is_listing(v: Seq<Seq<char>>, names: Set<Seq<char>>) -> bool {
    v.no_duplicates() && v.to_set() == names
}

/// The contents of the files.
pub open spec fn contents_of(datas: Seq<Vec<u8>>) -> Seq<Seq<u8>> {
    datas.map_values(|d: Vec<u8>| d@)
}

/// `files` after the files `names[i]` of `dir` were written with
/// `datas[i]`, one after the other.
pub open spec fn stored(
    files: Map<Seq<char>, Seq<u8>>,
    dir: Seq<char>,
    names: Seq<Seq<char>>,
    datas: Seq<Seq<u8>>,
) -> Map<Seq<char>, Seq<u8>>
    decreases names.len(),
{
    if names.len() == 0 {
        files
    } else {
        stored(files, dir, names.drop_last(), datas.drop_last()).insert(
            file_path_of(dir, names.last()),
            datas.last(),
        )
    }
}

/// How the storage answers an upload action when every operation succeeds.
pub open spec fn upload_io(fs: Storage, a: UploadAction, e: UploadEvent, fs2: Storage) -> bool {
    match a {
        UploadAction::EnsureDir(p) => e is DirReady && fs2.files == fs.files && fs2.dirs == fs.dirs.insert(p@),
        UploadAction::NextField => (e is Field || e is FieldsDone) && fs2 == fs,
        UploadAction::ListDir(p) => (e matches UploadEvent::DirListed(v) && is_listing(string_views(v@), entries(fs, p@)))
            && fs2 == fs,
        UploadAction::WriteFile { path, data } => e is FileWritten && fs2.dirs == fs.dirs && fs2.files
            == fs.files.insert(path@, data@),
        UploadAction::Respond(_) => false,
    }
}

/// What an upload session with pending action `a` has done to the storage,
/// which was `fs0` when the request came.
pub open spec fn upload_run(s: UploadSession, a: UploadAction, fs0: Storage, fs: Storage) -> bool {
    match s.phase {
        UploadPhase::AwaitingDir => fs == fs0 && (a matches UploadAction::EnsureDir(p) && p@ == s.dir@),
        UploadPhase::Receiving => fs.files == fs0.files && fs.dirs == fs0.dirs.insert(s.dir@) && a is NextField,
        UploadPhase::Listing => fs.files == fs0.files && fs.dirs == fs0.dirs.insert(s.dir@) && (a matches UploadAction::ListDir(p) && p@ == s.dir@),
        UploadPhase::Writing => {
            &&& fs.dirs == fs0.dirs.insert(s.dir@)
            &&& is_listing(s.existing@, entries(fs0, s.dir@))
            &&& fs.files == stored(
                fs0.files,
                s.dir@,
                string_views(s.names@).take(s.written as int),
                contents_of(s.datas@).take(s.written as int),
            )
            &&& writes_file(s, s.written as int, a)
        },
        UploadPhase::Finished => false,
    }
}

/// A fresh upload session has done nothing to the storage.
pub proof fn law_upload_run_starts(s: UploadSession, a: UploadAction, fs0: Storage)
    requires
        s.phase is AwaitingDir,
        a matches UploadAction::EnsureDir(p) && p@ == s.dir@,
    ensures
        upload_run(s, a, fs0, fs0),
{
}

proof fn lemma_stored_step(
    files: Map<Seq<char>, Seq<u8>>,
    dir: Seq<char>,
    names: Seq<Seq<char>>,
    datas: Seq<Seq<u8>>,
    k: int,
)
    requires
        0 <= k < names.len(),
        names.len() == datas.len(),
    ensures
        stored(files, dir, names.take(k + 1), datas.take(k + 1)) == stored(files, dir, names.take(k), datas.take(k)).insert(
            file_path_of(dir, names[k]),
            datas[k],
        ),
{
    assert(names.take(k + 1).drop_last() =~= names.take(k));
    assert(datas.take(k + 1).drop_last() =~= datas.take(k));
}

/// Each step of an upload whose storage operations succeed keeps the run
/// invariant: the directory exists once it was ensured, and the files
/// written so far are the first accepted files with their contents.
pub proof fn law_upload_run_step(
    s: UploadSession,
    a: UploadAction,
    fs0: Storage,
    fs: Storage,
    e: UploadEvent,
    fs2: Storage,
    t: UploadSession,
    a2: UploadAction,
)
    requires
        s.wf(),
        upload_run(s, a, fs0, fs),
        upload_io(fs, a, e, fs2),
        upload_step(s, e, t, a2),
        !(a2 is Respond),
    ensures
        upload_run(t, a2, fs0, fs2),
{
    if s.phase is Listing {
        assert(string_views(s.names@).take(0) =~= Seq::<Seq<char>>::empty());
        assert(contents_of(s.datas@).take(0) =~= Seq::<Seq<u8>>::empty());
    }
    if s.phase is Writing {
        let w = s.written as int;
        lemma_stored_step(fs0.files, s.dir@, string_views(s.names@), contents_of(s.datas@), w);
    }
}

/// An upload whose storage operations all succeed and that is answered
/// with success leaves its directory in place, holds every accepted file
/// with its content (written in upload order), and lists the directory's
/// earlier entries followed by the uploaded names.
pub proof fn law_upload_run_success(
    s: UploadSession,
    a: UploadAction,
    fs0: Storage,
    fs: Storage,
    e: UploadEvent,
    fs2: Storage,
    t: UploadSession,
    a2: UploadAction,
)
    requires
        s.wf(),
        upload_run(s, a, fs0, fs),
        upload_io(fs, a, e, fs2),
        upload_step(s, e, t, a2),
        a2 matches UploadAction::Respond(r) && r is Json,
    ensures
        fs2.dirs == fs0.dirs.insert(s.dir@),
        fs2.files == stored(fs0.files, s.dir@, string_views(s.names@), contents_of(s.datas@)),
        exists|listed: Seq<Seq<char>>|
            is_listing(listed, entries(fs0, s.dir@)) && responds_success(a2, listed + string_views(s.names@)),
{
    if s.phase is Listing {
        let listed = match e {
            UploadEvent::DirListed(v) => string_views(v@),
            _ => Seq::empty(),
        };
        assert(string_views(s.names@) =~= Seq::<Seq<char>>::empty());
        assert(contents_of(s.datas@) =~= Seq::<Seq<u8>>::empty());
        assert(listed + string_views(s.names@) =~= listed);
        assert(is_listing(listed, entries(fs0, s.dir@)));
    } else {
        let w = s.written as int;
        lemma_stored_step(fs0.files, s.dir@, string_views(s.names@), contents_of(s.datas@), w);
        assert(string_views(s.names@).take(w + 1) =~= string_views(s.names@));
        assert(contents_of(s.datas@).take(w + 1) =~= contents_of(s.datas@));
        assert(is_listing(s.existing@, entries(fs0, s.dir@)));
    }
}

/// How the storage answers a download action when every operation succeeds
/// (opening a missing directory fails, and creating it succeeds).
pub open spec fn download_io(s: DownloadSession, fs: Storage, a: DownloadAction, e: DownloadEvent, fs2: Storage) -> bool {
    match a {
        DownloadAction::OpenDir(p) => fs2 == fs && if fs.dirs.contains(p@) {
            e is DirOpened
        } else {
            e is DirOpenFailed
        },
        DownloadAction::CreateDir(p) => e is DirCreated && fs2.files == fs.files && fs2.dirs == fs.dirs.insert(p@),
        DownloadAction::NextEntry => fs2 == fs && match e {
            DownloadEvent::Entry(n) => entries(fs, s.dir@).contains(n@) && !string_views(s.names@).contains(n@),
            DownloadEvent::EntriesDone => string_views(s.names@).to_set() == entries(fs, s.dir@),
            _ => false,
        },
        DownloadAction::ReadFile(p) => fs2 == fs && fs.files.contains_key(p@) && (e matches DownloadEvent::FileRead(
            d,
        ) && d@ == fs.files[p@]),
        DownloadAction::Respond(_) => false,
    }
}

/// The entries `(name, content)` of the files `names` of `dir`.
pub open spec fn files_entries(files: Map<Seq<char>, Seq<u8>>, dir: Seq<char>, names: Seq<Seq<char>>) -> Seq<(Seq<char>, Seq<u8>)> {
    Seq::new(names.len(), |i: int| (names[i], files[file_path_of(dir, names[i])]))
}

/// `bytes` is the archive of every file of `dir`, listed in some order,
/// with its content.
pub open spec fn archive_of_directory(bytes: Seq<u8>, fs: Storage, dir: Seq<char>) -> bool {
    exists|listed: Seq<Seq<char>>|
        is_listing(listed, entries(fs, dir)) && bytes == deflate_zip_archive(#[trigger] files_entries(fs.files, dir, listed))
}

/// What a download session with pending action `a` has seen of, and done
/// to, the storage, which was `fs0` when the request came.
pub open spec fn download_run(s: DownloadSession, a: DownloadAction, fs0: Storage, fs: Storage) -> bool {
    &&& fs.files == fs0.files
    &&& match s.phase {
        DownloadPhase::Opening => fs == fs0 && (a matches DownloadAction::OpenDir(p) && p@ == s.dir@),
        DownloadPhase::Creating => fs == fs0 && !fs0.dirs.contains(s.dir@) && (a matches DownloadAction::CreateDir(
            p,
        ) && p@ == s.dir@),
        DownloadPhase::Reopening => fs.dirs == fs0.dirs.insert(s.dir@) && (a matches DownloadAction::OpenDir(p)
            && p@ == s.dir@),
        DownloadPhase::Listing => {
            &&& fs.dirs == fs0.dirs.insert(s.dir@)
            &&& a is NextEntry
            &&& string_views(s.names@).no_duplicates()
            &&& forall|i: int| 0 <= i < s.names.len() ==> entries(fs, s.dir@).contains(#[trigger] s.names@[i]@)
            &&& s.mode is Preview ==> s.names.len() == 0
        },
        DownloadPhase::Reading => {
            &&& fs.dirs == fs0.dirs.insert(s.dir@)
            &&& reads_file(s, s.names@[s.read as int]@, a)
            &&& s.mode is Preview ==> entries(fs, s.dir@).contains(s.names@[0]@)
            &&& s.mode is Archive ==> {
                &&& is_listing(string_views(s.names@), entries(fs, s.dir@))
                &&& forall|j: int| 0 <= j < s.read ==> s.contents@[j] == fs.files[file_path_of(
                    s.dir@,
                    #[trigger] s.names@[j]@,
                )]
            }
        },
        DownloadPhase::Finished => false,
    }
}

/// A fresh download session has done nothing to the storage.
pub proof fn law_download_run_starts(s: DownloadSession, a: DownloadAction, fs0: Storage)
    requires
        s.phase is Opening,
        a matches DownloadAction::OpenDir(p) && p@ == s.dir@,
    ensures
        download_run(s, a, fs0, fs0),
{
}

/// Each step of a download whose storage operations succeed keeps the run
/// invariant: a missing directory is created, the listed names are distinct
/// entries of the directory, and the contents read are those of the files.
pub proof fn law_download_run_step(
    s: DownloadSession,
    a: DownloadAction,
    fs0: Storage,
    fs: Storage,
    e: DownloadEvent,
    fs2: Storage,
    t: DownloadSession,
    a2: DownloadAction,
)
    requires
        s.wf(),
        download_run(s, a, fs0, fs),
        download_io(s, fs, a, e, fs2),
        download_step(s, e, t, a2),
        !(a2 is Respond),
    ensures
        download_run(t, a2, fs0, fs2),
{
    match s.phase {
        DownloadPhase::Opening => {
            if fs0.dirs.contains(s.dir@) {
                assert(fs0.dirs.insert(s.dir@) =~= fs0.dirs);
            }
        },
        DownloadPhase::Listing => {
            match e {
                DownloadEvent::Entry(n) => {
                    if s.mode is Archive {
                        assert(string_views(t.names@) =~= string_views(s.names@).push(n@));
                        assert forall|i: int| 0 <= i < t.names.len() implies entries(fs2, t.dir@).contains(
                            #[trigger] t.names@[i]@,
                        ) by {
                            if i < s.names.len() {
                                assert(t.names@[i] == s.names@[i]);
                            }
                        }
                    }
                },
                _ => {},
            }
        },
        DownloadPhase::Reading => {
            if s.mode is Archive {
                let r = s.read as int;
                assert forall|j: int| 0 <= j < t.read implies t.contents@[j] == fs2.files[file_path_of(
                    t.dir@,
                    #[trigger] t.names@[j]@,
                )] by {
                    if j == r {
                        assert(t.contents@[j] == e->FileRead_0@);
                    }
                }
            }
        },
        _ => {},
    }
}

/// A directory download whose storage operations all succeed and that
/// sends an archive leaves the files as they were, leaves the directory in
/// place (creating it when it was missing), and sends the archive of every
/// file of the directory, in listing order, with its content.
pub proof fn law_download_run_archive(
    s: DownloadSession,
    a: DownloadAction,
    fs0: Storage,
    fs: Storage,
    e: DownloadEvent,
    fs2: Storage,
    t: DownloadSession,
    a2: DownloadAction,
)
    requires
        s.wf(),
        s.mode is Archive,
        download_run(s, a, fs0, fs),
        download_io(s, fs, a, e, fs2),
        download_step(s, e, t, a2),
        a2 matches DownloadAction::Respond(r) && r is Attachment,
    ensures
        fs2.files == fs0.files,
        fs2.dirs == fs0.dirs.insert(s.dir@),
        a2 matches DownloadAction::Respond(Reply::Attachment { data, filename }) && archive_of_directory(
            data@,
            fs2,
            s.dir@,
        ),
{
    if s.phase is Listing {
        let listed = Seq::<Seq<char>>::empty();
        assert(string_views(s.names@) =~= listed);
        assert(listed.to_set() =~= Set::<Seq<char>>::empty());
        assert(files_entries(fs2.files, s.dir@, listed) =~= Seq::<(Seq<char>, Seq<u8>)>::empty());
        assert(is_listing(listed, entries(fs2, s.dir@)));
    } else {
        let listed = string_views(s.names@);
        let r = s.read as int;
        let done = entries_of(listed.take(r), s.contents@);
        let whole = files_entries(fs2.files, s.dir@, listed);
        assert(e matches DownloadEvent::FileRead(d) && d@ == fs.files[file_path_of(s.dir@, s.names@[r]@)]);
        assert(done.push((listed[r], e->FileRead_0@)) =~= whole);
        assert(is_listing(listed, entries(fs2, s.dir@)));
    }
}

/// A preview whose storage operations all succeed sends one file of the
/// directory under its own name with its content, or, when the directory
/// holds no file, the failure "目录为空".
pub proof fn law_download_run_preview(
    s: DownloadSession,
    a: DownloadAction,
    fs0: Storage,
    fs: Storage,
    e: DownloadEvent,
    fs2: Storage,
    t: DownloadSession,
    a2: DownloadAction,
)
    requires
        s.wf(),
        s.mode is Preview,
        download_run(s, a, fs0, fs),
        download_io(s, fs, a, e, fs2),
        download_step(s, e, t, a2),
        a2 is Respond,
    ensures
        fs2.files == fs0.files,
        a2 matches DownloadAction::Respond(Reply::Attachment { data, filename }) ==> (entries(fs2, s.dir@).contains(filename@)
            && data@ == fs2.files[file_path_of(s.dir@, filename@)]),
        a2 matches DownloadAction::Respond(Reply::Error(_)) ==> entries(fs2, s.dir@) == Set::<Seq<char>>::empty(),
{
    if s.phase is Listing {
        assert(string_views(s.names@) =~= Seq::<Seq<char>>::empty());
        assert(string_views(s.names@).to_set() =~= Set::<Seq<char>>::empty());
    }
}

/// `path` lies inside the directory `dir` (at any depth).
pub open spec fn under(path: Seq<char>, dir: Seq<char>) -> bool {
    dir.len() + 1 <= path.len() && path.subrange(0, dir.len() + 1int) == dir + "/"@
}

/// How removing the directory `dir` with all it holds acts: it succeeds
/// exactly when the directory exists.
pub open spec fn delete_dir_io(fs: Storage, dir: Seq<char>, removed: bool, fs2: Storage) -> bool {
    &&& removed == fs.dirs.contains(dir)
    &&& if removed {
        &&& fs2.dirs == Set::new(|d: Seq<char>| fs.dirs.contains(d) && d != dir && !under(d, dir))
        &&& fs2.files == Map::new(
            |p: Seq<char>| fs.files.contains_key(p) && !under(p, dir),
            |p: Seq<char>| fs.files[p],
        )
    } else {
        fs2 == fs
    }
}

/// How removing the file at `path` acts: it succeeds exactly when the file
/// exists.
pub open spec fn delete_file_io(fs: Storage, path: Seq<char>, removed: bool, fs2: Storage) -> bool {
    &&& removed == fs.files.contains_key(path)
    &&& fs2.dirs == fs.dirs
    &&& fs2.files == fs.files.remove(path)
}

/// How reading the file at `path` acts: its content, or an error when there
/// is no such file.
pub open spec fn read_io(fs: Storage, path: Seq<char>, r: Result<Vec<u8>, String>) -> bool {
    match r {
        Ok(d) => fs.files.contains_key(path) && d@ == fs.files[path],
        Err(_) => !fs.files.contains_key(path),
    }
}

/// Two files of one directory have the same path only when they have the
/// same name.
pub proof fn lemma_file_path_injective(dir: Seq<char>, a: Seq<char>, b: Seq<char>)
    requires
        file_path_of(dir, a) == file_path_of(dir, b),
    ensures
        a == b,
{
    reveal_strlit("/");
    let pa = file_path_of(dir, a);
    let pb = file_path_of(dir, b);
    let k = dir.len() + 1;
    assert(pa.subrange(k as int, pa.len() as int) =~= a);
    assert(pb.subrange(k as int, pb.len() as int) =~= b);
}

/// `names[i]` is not written again after position `i`.
pub open spec fn last_write_of(names: Seq<Seq<char>>, i: int) -> bool {
    forall|j: int| i < j < names.len() ==> names[j] != names[i]
}

/// Writing the files `names` into `dir` adds exactly those names to the
/// entries of `dir`, and each file holds the content of its last write.
pub proof fn law_entries_after_upload(
    fs0: Storage,
    dirs: Set<Seq<char>>,
    dir: Seq<char>,
    names: Seq<Seq<char>>,
    datas: Seq<Seq<u8>>,
)
    requires
        names.len() == datas.len(),
        forall|i: int| 0 <= i < names.len() ==> plain_component(#[trigger] names[i]),
    ensures
        entries(Storage { dirs, files: stored(fs0.files, dir, names, datas) }, dir) == entries(fs0, dir).union(
            names.to_set(),
        ),
        forall|i: int|
            0 <= i < names.len() && last_write_of(names, i) ==> {
                &&& stored(fs0.files, dir, names, datas).contains_key(file_path_of(dir, #[trigger] names[i]))
                &&& stored(fs0.files, dir, names, datas)[file_path_of(dir, names[i])] == datas[i]
            },
    decreases names.len(),
{
    let fs = Storage { dirs, files: stored(fs0.files, dir, names, datas) };
    if names.len() == 0 {
        assert(names.to_set() =~= Set::<Seq<char>>::empty());
        assert(entries(fs, dir) =~= entries(fs0, dir).union(names.to_set()));
    } else {
        let pn = names.drop_last();
        let pd = datas.drop_last();
        law_entries_after_upload(fs0, dirs, dir, pn, pd);
        let prev = Storage { dirs, files: stored(fs0.files, dir, pn, pd) };
        let last = names.last();
        assert(plain_component(names[names.len() - 1]));
        assert(names.to_set() =~= pn.to_set().insert(last)) by {
            assert(names =~= pn.push(last));
            pn.lemma_push_to_set_commute(last);
        }
        assert forall|x: Seq<char>| #[trigger] entries(fs, dir).contains(x) <==> entries(fs0, dir).union(
            names.to_set(),
        ).contains(x) by {
            assert(entries(prev, dir).contains(x) == entries(fs0, dir).union(pn.to_set()).contains(x));
            if file_path_of(dir, x) == file_path_of(dir, last) {
                lemma_file_path_injective(dir, x, last);
            }
            assert(fs.files.contains_key(file_path_of(dir, x)) == (prev.files.contains_key(file_path_of(dir, x))
                || file_path_of(dir, x) == file_path_of(dir, last)));
        }
        assert(entries(fs, dir) =~= entries(fs0, dir).union(names.to_set()));
        assert forall|i: int|
            0 <= i < names.len() && last_write_of(names, i) implies {
                &&& fs.files.contains_key(file_path_of(dir, #[trigger] names[i]))
                &&& fs.files[file_path_of(dir, names[i])] == datas[i]
            } by {
            if i < names.len() - 1 {
                assert(pn[i] == names[i]);
                assert(pd[i] == datas[i]);
                assert(last_write_of(pn, i)) by {
                    assert forall|j: int| i < j < pn.len() implies pn[j] != pn[i] by {
                        assert(pn[j] == names[j]);
                    }
                }
                if file_path_of(dir, names[i]) == file_path_of(dir, last) {
                    lemma_file_path_injective(dir, names[i], last);
                }
            }
        }
    }
}

/// Upload, then download: when an upload of distinct names into a
/// directory that held no file succeeded (leaving `fs1`), the archive that
/// a download of that directory then sends holds exactly the uploaded
/// files, in some order, each with its uploaded content.
pub proof fn law_download_after_upload(
    fs0: Storage,
    fs1: Storage,
    dir: Seq<char>,
    names: Seq<Seq<char>>,
    datas: Seq<Seq<u8>>,
    bytes: Seq<u8>,
)
    requires
        entries(fs0, dir) == Set::<Seq<char>>::empty(),
        names.len() == datas.len(),
        names.no_duplicates(),
        forall|i: int| 0 <= i < names.len() ==> plain_component(#[trigger] names[i]),
        fs1.files == stored(fs0.files, dir, names, datas),
        archive_of_directory(bytes, fs1, dir),
    ensures
        exists|listed: Seq<Seq<char>>|
            is_listing(listed, names.to_set()) && bytes == deflate_zip_archive(#[trigger] files_entries(fs1.files, dir, listed)),
        forall|i: int| 0 <= i < names.len() ==> fs1.files[file_path_of(dir, #[trigger] names[i])] == datas[i],
{
    law_entries_after_upload(fs0, fs1.dirs, dir, names, datas);
    assert(fs1 == Storage { dirs: fs1.dirs, files: stored(fs0.files, dir, names, datas) });
    assert(entries(fs1, dir) =~= names.to_set());
    assert forall|i: int| 0 <= i < names.len() implies fs1.files[file_path_of(dir, #[trigger] names[i])] == datas[i] by {
        assert(last_write_of(names, i));
    }
}

/// Delete, then download: after a directory was removed, a download of it
/// sends the archive of no entry.
pub proof fn law_download_after_delete(fs: Storage, dir: Seq<char>, fs1: Storage, fs2: Storage, bytes: Seq<u8>)
    requires
        delete_dir_io(fs, dir, true, fs1),
        fs2.files == fs1.files,
        archive_of_directory(bytes, fs2, dir),
    ensures
        bytes == deflate_zip_archive(Seq::empty()),
{
    reveal_strlit("/");
    assert forall|n: Seq<char>| !#[trigger] entries(fs2, dir).contains(n) by {
        assert(under(file_path_of(dir, n), dir)) by {
            assert(file_path_of(dir, n).subrange(0, dir.len() + 1int) =~= dir + "/"@);
        }
    }
    let listed = choose|listed: Seq<Seq<char>>|
        is_listing(listed, entries(fs2, dir)) && bytes == deflate_zip_archive(#[trigger] files_entries(fs2.files, dir, listed));
    if listed.len() > 0 {
        assert(listed.to_set().contains(listed[0]));
    }
    assert(files_entries(fs2.files, dir, listed) =~= Seq::<(Seq<char>, Seq<u8>)>::empty());
}

/// Delete twice: after a directory was removed, removing it again fails and
/// changes nothing.
pub proof fn law_second_delete_fails(fs: Storage, dir: Seq<char>, fs1: Storage, removed: bool, fs2: Storage)
    requires
        delete_dir_io(fs, dir, true, fs1),
        delete_dir_io(fs1, dir, removed, fs2),
    ensures
        !removed,
        fs2 == fs1,
{
}

/// Upload, then preview: after one file was uploaded into a directory that
/// held no file, the preview sends that file under its name.
pub proof fn law_preview_after_upload(
    fs0: Storage,
    fs1: Storage,
    dir: Seq<char>,
    n: Seq<char>,
    d: Seq<u8>,
    filename: Seq<char>,
    data: Seq<u8>,
)
    requires
        entries(fs0, dir) == Set::<Seq<char>>::empty(),
        plain_component(n),
        fs1.files == stored(fs0.files, dir, seq![n], seq![d]),
        entries(fs1, dir).contains(filename),
        data == fs1.files[file_path_of(dir, filename)],
    ensures
        filename == n,
        data == d,
{
    law_entries_after_upload(fs0, fs1.dirs, dir, seq![n], seq![d]);
    assert(fs1 == Storage { dirs: fs1.dirs, files: stored(fs0.files, dir, seq![n], seq![d]) });
    assert(seq![n].to_set().contains(filename));
    assert(seq![n][0] == n);
    assert(last_write_of(seq![n], 0));
}

/// Upload, then single-file download: the stored file of a name holds the
/// content of the last upload of that name.
pub proof fn law_download_file_after_upload(
    fs0: Storage,
    fs1: Storage,
    dir: Seq<char>,
    names: Seq<Seq<char>>,
    datas: Seq<Seq<u8>>,
    i: int,
    r: Result<Vec<u8>, String>,
)
    requires
        names.len() == datas.len(),
        forall|k: int| 0 <= k < names.len() ==> plain_component(#[trigger] names[k]),
        0 <= i < names.len(),
        last_write_of(names, i),
        fs1.files == stored(fs0.files, dir, names, datas),
        read_io(fs1, file_path_of(dir, names[i]), r),
    ensures
        r matches Ok(content) && content@ == datas[i],
{
    law_entries_after_upload(fs0, fs1.dirs, dir, names, datas);
}

/// Delete a file, then download it: the read fails.
pub proof fn law_download_file_after_delete_file(
    fs: Storage,
    path: Seq<char>,
    fs1: Storage,
    r: Result<Vec<u8>, String>,
)
    requires
        delete_file_io(fs, path, true, fs1),
        read_io(fs1, path, r),
    ensures
        r is Err,
{
}

/// Upload one new file, then delete it: the files are as before the
/// upload.
pub proof fn law_delete_file_undoes_upload(
    fs0: Storage,
    fs1: Storage,
    dir: Seq<char>,
    n: Seq<char>,
    d: Seq<u8>,
    fs2: Storage,
)
    requires
        plain_component(n),
        !entries(fs0, dir).contains(n),
        fs1.files == stored(fs0.files, dir, seq![n], seq![d]),
        delete_file_io(fs1, file_path_of(dir, n), true, fs2),
    ensures
        fs2.files == fs0.files,
{
    let one = seq![n];
    let ds = seq![d];
    assert(one.drop_last() =~= Seq::<Seq<char>>::empty());
    assert(ds.drop_last() =~= Seq::<Seq<u8>>::empty());
    assert(!fs0.files.contains_key(file_path_of(dir, n)));
    assert(stored(fs0.files, dir, one.drop_last(), ds.drop_last()) == fs0.files);
    assert(one.last() == n && ds.last() == d);
    assert(fs1.files == fs0.files.insert(file_path_of(dir, n), d));
    assert(fs2.files =~= fs0.files);
}

} // verus!
