//! Downloads: the whole directory as a ZIP archive, its first entry as a
//! preview, or one named file; and the replies to deletions.
//!
//! The directory protocols are driven from outside like the upload: the
//! session asks for an action (`DownloadAction`) and is told what came of it
//! (`DownloadEvent`).
use vstd::prelude::*;
use crate::archive::{
    ArchiveBuilder, deflate_zip_archive, entry_name_too_long_failure, max_entry_name_bytes,
    path_final_component, plain_component, utf8_len,
};
use crate::paths::{dir_path, dir_path_of, file_path, file_path_of};
use crate::responses::{
    Failure, Reply, dir_deleted_message, dir_deleted_reply,
    file_deleted_message, file_deleted_reply, is_attachment_reply, is_failure_reply,
    is_success_reply, string_views,
};

verus! {

/// What a directory download sends.
pub enum DownloadMode {
    /// Every entry of the directory, packed into `archive.zip`.
    Archive,
    /// The first entry of the directory, as it is.
    Preview,
}

/// Where a directory download stands.
pub enum DownloadPhase {
    /// Waiting for the first attempt to open the directory.
    Opening,
    /// The directory could not be opened; waiting for its creation.
    Creating,
    /// Waiting for the second attempt to open the directory.
    Reopening,
    /// Reading the entries of the directory.
    Listing,
    /// Reading the files to send.
    Reading,
    /// A reply was given; nothing more happens.
    Finished,
}

/// What the driver reports back.
pub enum DownloadEvent {
    /// The directory was opened for listing.
    DirOpened,
    /// Opening the directory failed with this error text.
    DirOpenFailed(String),
    /// The directory was created.
    DirCreated,
    /// Creating the directory failed with this error text.
    DirCreateFailed(String),
    /// The name of the next entry of the directory.
    Entry(String),
    /// The directory has no more entries.
    EntriesDone,
    /// Reading the next entry failed with this error text.
    EntryFailed(String),
    /// The content of the file asked for.
    FileRead(Vec<u8>),
    /// Reading the file asked for failed with this error text.
    FileReadFailed(String),
}

/// What the driver is asked to do next.
pub enum DownloadAction {
    /// Open this directory for listing.
    OpenDir(String),
    /// Create this directory and its parents.
    CreateDir(String),
    /// Read the next entry of the opened directory.
    NextEntry,
    /// Read the whole file at this path.
    ReadFile(String),
    /// Answer the request; the session is over.
    Respond(Reply),
}

/// The state of one directory download.
pub struct DownloadSession {
    pub mode: DownloadMode,
    /// The storage directory.
    pub dir: String,
    pub phase: DownloadPhase,
    /// The entry names listed so far (for a preview, the first one).
    pub names: Vec<String>,
    /// How many files were read into the archive.
    pub read: usize,
    /// The contents of the files read so far.
    pub contents: Ghost<Seq<Seq<u8>>>,
    /// The archive being assembled, while files are read.
    pub archive: Option<ArchiveBuilder>,
}

/// The archive entries of the files `names` with contents `datas`.
pub open spec fn entries_of(names: Seq<Seq<char>>, datas: Seq<Seq<u8>>) -> Seq<(Seq<char>, Seq<u8>)> {
    Seq::new(names.len(), |i: int| (names[i], datas[i]))
}

/// The file name of the archive that a directory download sends.
pub open spec fn archive_file_name() -> Seq<char> {
    "archive.zip"@
}

/// `a` answers with the failure `f`.
pub open spec fn answers_failure(a: DownloadAction, f: Failure) -> bool {
    a matches DownloadAction::Respond(r) && is_failure_reply(r, f.message())
}

/// The message of a download whose archive failed with the error text `t`.
pub open spec fn archive_failure_message(t: Seq<char>) -> Seq<char> {
    "压缩文件时出错: "@ + t
}

/// `a` sends the archive of `entries` as `archive.zip`.
pub open spec fn answers_closed_archive(a: DownloadAction, entries: Seq<(Seq<char>, Seq<u8>)>) -> bool {
    a matches DownloadAction::Respond(r) && is_attachment_reply(r, deflate_zip_archive(entries), archive_file_name())
}

/// `a` asks to read the file `name` of the directory of `s`.
pub open spec fn reads_file(s: DownloadSession, name: Seq<char>, a: DownloadAction) -> bool {
    a matches DownloadAction::ReadFile(p) && p@ == file_path_of(s.dir@, name)
}

impl DownloadSession {
    /// The internal consistency of a session.
    pub open spec fn wf(self) -> bool {
        &&& self.mode is Archive ==> forall|i: int| 0 <= i < self.names.len() ==> plain_component(
            #[trigger] self.names@[i]@,
        )
        &&& self.phase is Reading ==> {
            &&& self.read < self.names.len()
            &&& self.contents@.len() == self.read
            &&& self.mode is Preview ==> self.names.len() == 1 && self.read == 0
            &&& self.mode is Archive ==> (self.archive matches Some(b) && b@ == entries_of(
                string_views(self.names@).take(self.read as int),
                self.contents@,
            ))
        }
    }

    /// Which events the session can take in its phase.
    pub open spec fn expects(self, e: DownloadEvent) -> bool {
        match self.phase {
            DownloadPhase::Opening => e is DirOpened || e is DirOpenFailed,
            DownloadPhase::Creating => e is DirCreated || e is DirCreateFailed,
            DownloadPhase::Reopening => e is DirOpened || e is DirOpenFailed,
            DownloadPhase::Listing => {
                ||| e is EntriesDone
                ||| e is EntryFailed
                ||| (e matches DownloadEvent::Entry(n) && (self.mode is Archive ==> plain_component(n@)))
            },
            DownloadPhase::Reading => e is FileRead || e is FileReadFailed,
            DownloadPhase::Finished => false,
        }
    }
}

/// One step of a directory download: from state `s` and event `e` to state
/// `t` and action `a`.
pub open spec fn download_step(s: DownloadSession, e: DownloadEvent, t: DownloadSession, a: DownloadAction) -> bool {
    &&& t.dir@ == s.dir@
    &&& t.mode == s.mode
    &&& match s.phase {
        DownloadPhase::Opening => match e {
            DownloadEvent::DirOpened => t.phase is Listing && t.names.len() == 0 && a is NextEntry,
            DownloadEvent::DirOpenFailed(_) => t.phase is Creating && (a matches DownloadAction::CreateDir(
                p,
            ) && p@ == s.dir@),
            _ => false,
        },
        DownloadPhase::Creating => match e {
            DownloadEvent::DirCreated => t.phase is Reopening && (a matches DownloadAction::OpenDir(p)
                && p@ == s.dir@),
            DownloadEvent::DirCreateFailed(d) => t.phase is Finished && answers_failure(
                a,
                Failure::CreateDir(d),
            ),
            _ => false,
        },
        DownloadPhase::Reopening => match e {
            DownloadEvent::DirOpened => t.phase is Listing && t.names.len() == 0 && a is NextEntry,
            DownloadEvent::DirOpenFailed(d) => t.phase is Finished && answers_failure(
                a,
                Failure::OpenDir(d),
            ),
            _ => false,
        },
        DownloadPhase::Listing => match e {
            DownloadEvent::EntryFailed(d) => t.phase is Finished && answers_failure(a, Failure::ReadDir(d)),
            DownloadEvent::Entry(n) => match s.mode {
                DownloadMode::Archive => {
                    &&& t.phase is Listing
                    &&& t.names@ == s.names@.push(n)
                    &&& a is NextEntry
                },
                DownloadMode::Preview => {
                    &&& t.phase is Reading
                    &&& t.names@ == seq![n]
                    &&& t.read == 0
                    &&& reads_file(s, n@, a)
                },
            },
            DownloadEvent::EntriesDone => match s.mode {
                DownloadMode::Archive => if s.names.len() == 0 {
                    t.phase is Finished && answers_closed_archive(a, Seq::empty())
                } else {
                    &&& t.phase is Reading
                    &&& t.names@ == s.names@
                    &&& t.read == 0
                    &&& reads_file(s, s.names@[0]@, a)
                },
                DownloadMode::Preview => t.phase is Finished && answers_failure(a, Failure::EmptyDir),
            },
            _ => false,
        },
        DownloadPhase::Reading => match e {
            DownloadEvent::FileReadFailed(d) => t.phase is Finished && match s.mode {
                DownloadMode::Archive => answers_failure(a, Failure::Archive(d)),
                DownloadMode::Preview => answers_failure(a, Failure::ReadFile(d)),
            },
            DownloadEvent::FileRead(data) => match s.mode {
                DownloadMode::Preview => t.phase is Finished && (a matches DownloadAction::Respond(r)
                    && is_attachment_reply(r, data@, s.names@[0]@)),
                DownloadMode::Archive => {
                    let done = entries_of(string_views(s.names@).take(s.read as int), s.contents@);
                    let name = s.names@[s.read as int]@;
                    if utf8_len(name) > max_entry_name_bytes() {
                        &&& t.phase is Finished
                        &&& a matches DownloadAction::Respond(r)
                        &&& is_failure_reply(r, archive_failure_message(entry_name_too_long_failure()))
                    } else if s.read + 1 == s.names.len() {
                        t.phase is Finished && answers_closed_archive(a, done.push((name, data@)))
                    } else {
                        &&& t.phase is Reading
                        &&& t.names@ == s.names@
                        &&& t.read == s.read + 1
                        &&& t.contents@ == s.contents@.push(data@)
                        &&& reads_file(s, s.names@[s.read + 1]@, a)
                    }
                },
            },
            _ => false,
        },
        DownloadPhase::Finished => false,
    }
}

/// `"压缩文件时出错: "` followed by `m`.
fn archive_failure(m: String) -> (a: DownloadAction)
    ensures
        answers_failure(a, Failure::Archive(m)),
{
    DownloadAction::Respond(Failure::Archive(m).into_reply())
}

impl DownloadSession {
    /// Starts a download of the directory of `dir_type` and `dir_id`; the
    /// first action is to open that directory.
    pub fn start(mode: DownloadMode, dir_type: &str, dir_id: u64) -> (r: (DownloadSession, DownloadAction))
        ensures
            r.0.wf(),
            r.0.mode == mode,
            r.0.phase is Opening,
            r.0.dir@ == dir_path_of(dir_type@, dir_id as nat),
            r.1 matches DownloadAction::OpenDir(p) && p@ == r.0.dir@,
    {
        let dir = dir_path(dir_type, dir_id);
        let target = dir.clone();
        let s = DownloadSession {
            mode,
            dir,
            phase: DownloadPhase::Opening,
            names: Vec::new(),
            read: 0,
            contents: Ghost(Seq::empty()),
            archive: None,
        };
        (s, DownloadAction::OpenDir(target))
    }

    fn finish(&mut self, f: Failure) -> (a: DownloadAction)
        ensures
            final(self).dir@ == old(self).dir@,
            final(self).mode == old(self).mode,
            final(self).phase is Finished,
            final(self).names@ == old(self).names@,
            answers_failure(a, f),
    {
        self.phase = DownloadPhase::Finished;
        self.archive = None;
        DownloadAction::Respond(f.into_reply())
    }

    fn send_archive(b: ArchiveBuilder) -> (a: DownloadAction)
        ensures
            answers_closed_archive(a, b@),
    {
        let data = b.finish();
        DownloadAction::Respond(Reply::Attachment { data, filename: String::from_str("archive.zip") })
    }

    fn on_entries_done(&mut self) -> (a: DownloadAction)
        requires
            old(self).wf(),
            old(self).phase is Listing,
        ensures
            final(self).wf(),
            download_step(*old(self), DownloadEvent::EntriesDone, *final(self), a),
    {
        match self.mode {
            DownloadMode::Preview => self.finish(Failure::EmptyDir),
            DownloadMode::Archive => {
                let b = ArchiveBuilder::new();
                if self.names.len() == 0 {
                    self.phase = DownloadPhase::Finished;
                    return Self::send_archive(b);
                }
                self.archive = Some(b);
                self.read = 0;
                self.contents = Ghost(Seq::empty());
                self.phase = DownloadPhase::Reading;
                proof {
                    assert(entries_of(string_views(self.names@).take(0), Seq::empty()) =~= Seq::empty());
                }
                let path = file_path(self.dir.as_str(), self.names[0].as_str());
                DownloadAction::ReadFile(path)
            },
        }
    }

    fn on_file_read(&mut self, data: Vec<u8>) -> (a: DownloadAction)
        requires
            old(self).wf(),
            old(self).phase is Reading,
        ensures
            final(self).wf(),
            download_step(*old(self), DownloadEvent::FileRead(data), *final(self), a),
    {
        match self.mode {
            DownloadMode::Preview => {
                self.phase = DownloadPhase::Finished;
                let filename = self.names[0].clone();
                DownloadAction::Respond(Reply::Attachment { data, filename })
            },
            DownloadMode::Archive => {
                let i: usize = self.read;
                let ghost s0 = *self;
                let ghost done = entries_of(string_views(self.names@).take(i as int), self.contents@);
                let ghost entries = done.push((self.names@[i as int]@, data@));
                let path = file_path(self.dir.as_str(), self.names[i].as_str());
                proof {
                    assert(plain_component(self.names@[i as int]@));
                }
                let name = match path_final_component(path.as_str()) {
                    Some(n) => n,
                    None => {
                        proof {
                            assert(file_path_of(self.dir@, self.names@[i as int]@) == path@);
                            assert(false);
                        }
                        return self.finish(Failure::EmptyDir);
                    },
                };
                proof {
                    assert(file_path_of(self.dir@, self.names@[i as int]@) == path@);
                }
                let b = match self.archive.take() {
                    Some(b) => b,
                    None => {
                        proof {
                            assert(false);
                        }
                        return self.finish(Failure::EmptyDir);
                    },
                };
                let b = match b.add_entry(name.as_str(), data.as_slice()) {
                    Ok(b) => b,
                    Err(m) => {
                        self.phase = DownloadPhase::Finished;
                        return archive_failure(m);
                    },
                };
                proof {
                    assert(entries =~= entries_of(
                        string_views(self.names@).take(i + 1),
                        self.contents@.push(data@),
                    ));
                }
                self.read = i + 1;
                self.contents = Ghost(self.contents@.push(data@));
                if self.read == self.names.len() {
                    self.phase = DownloadPhase::Finished;
                    return Self::send_archive(b);
                }
                self.archive = Some(b);
                let next = file_path(self.dir.as_str(), self.names[self.read].as_str());
                DownloadAction::ReadFile(next)
            },
        }
    }

    /// Takes the event `e` and returns the next action.
    pub fn step(&mut self, e: DownloadEvent) -> (a: DownloadAction)
        requires
            old(self).wf(),
            old(self).expects(e),
        ensures
            final(self).wf(),
            download_step(*old(self), e, *final(self), a),
    {
        match self.phase {
            DownloadPhase::Opening => match e {
                DownloadEvent::DirOpened => {
                    self.phase = DownloadPhase::Listing;
                    self.names = Vec::new();
                    DownloadAction::NextEntry
                },
                _ => {
                    self.phase = DownloadPhase::Creating;
                    DownloadAction::CreateDir(self.dir.clone())
                },
            },
            DownloadPhase::Creating => match e {
                DownloadEvent::DirCreated => {
                    self.phase = DownloadPhase::Reopening;
                    DownloadAction::OpenDir(self.dir.clone())
                },
                DownloadEvent::DirCreateFailed(d) => self.finish(Failure::CreateDir(d)),
                _ => {
                    assert(false);
                    DownloadAction::NextEntry
                },
            },
            DownloadPhase::Reopening => match e {
                DownloadEvent::DirOpened => {
                    self.phase = DownloadPhase::Listing;
                    self.names = Vec::new();
                    DownloadAction::NextEntry
                },
                DownloadEvent::DirOpenFailed(d) => self.finish(Failure::OpenDir(d)),
                _ => {
                    assert(false);
                    DownloadAction::NextEntry
                },
            },
            DownloadPhase::Listing => match e {
                DownloadEvent::EntryFailed(d) => self.finish(Failure::ReadDir(d)),
                DownloadEvent::EntriesDone => self.on_entries_done(),
                DownloadEvent::Entry(n) => match self.mode {
                    DownloadMode::Archive => {
                        let ghost old_names = self.names@;
                        self.names.push(n);
                        proof {
                            assert forall|i: int| 0 <= i < self.names.len() implies plain_component(
                                #[trigger] self.names@[i]@,
                            ) by {
                                if i < old_names.len() {
                                    assert(self.names@[i] == old_names[i]);
                                }
                            }
                        }
                        DownloadAction::NextEntry
                    },
                    DownloadMode::Preview => {
                        let path = file_path(self.dir.as_str(), n.as_str());
                        let mut v: Vec<String> = Vec::new();
                        v.push(n);
                        self.names = v;
                        self.read = 0;
                        self.contents = Ghost(Seq::empty());
                        self.phase = DownloadPhase::Reading;
                        DownloadAction::ReadFile(path)
                    },
                },
                _ => {
                    assert(false);
                    DownloadAction::NextEntry
                },
            },
            DownloadPhase::Reading => match e {
                DownloadEvent::FileRead(data) => self.on_file_read(data),
                DownloadEvent::FileReadFailed(d) => match self.mode {
                    DownloadMode::Archive => self.finish(Failure::Archive(d)),
                    DownloadMode::Preview => self.finish(Failure::ReadFile(d)),
                },
                _ => {
                    assert(false);
                    DownloadAction::NextEntry
                },
            },
            DownloadPhase::Finished => {
                assert(false);
                DownloadAction::NextEntry
            },
        }
    }
}

/// The path of the stored file `file_name` of `dir_type` and `dir_id`.
pub fn stored_file_path(dir_type: &str, dir_id: u64, file_name: &str) -> (p: String)
    ensures
        p@ == file_path_of(dir_path_of(dir_type@, dir_id as nat), file_name@),
{
    let dir = dir_path(dir_type, dir_id);
    file_path(dir.as_str(), file_name)
}

/// The answer to the download of one stored file, given what reading it
/// gave: the content as an attachment under the file's name, or the read
/// failure.
pub fn download_file_reply(file_name: String, read: Result<Vec<u8>, String>) -> (r: Reply)
    ensures
        match read {
            Ok(data) => is_attachment_reply(r, data@, file_name@),
            Err(d) => is_failure_reply(r, Failure::ReadFile(d).message()),
        },
{
    match read {
        Ok(data) => Reply::Attachment { data, filename: file_name },
        Err(d) => Failure::ReadFile(d).into_reply(),
    }
}

/// The answer to the removal of a whole storage directory, given what the
/// removal gave.
pub fn delete_reply(removed: Result<(), String>) -> (r: Reply)
    ensures
        match removed {
            Ok(()) => is_success_reply(r, dir_deleted_message(), None),
            Err(d) => is_failure_reply(r, Failure::DeleteDir(d).message()),
        },
{
    match removed {
        Ok(()) => dir_deleted_reply(),
        Err(d) => Failure::DeleteDir(d).into_reply(),
    }
}

/// The answer to the removal of one stored file, given what the removal
/// gave.
pub fn delete_file_reply(removed: Result<(), String>) -> (r: Reply)
    ensures
        match removed {
            Ok(()) => is_success_reply(r, file_deleted_message(), None),
            Err(d) => is_failure_reply(r, Failure::DeleteFile(d).message()),
        },
{
    match removed {
        Ok(()) => file_deleted_reply(),
        Err(d) => Failure::DeleteFile(d).into_reply(),
    }
}

/// The archive that a directory download sends holds every listed entry,
/// under its own name, in listing order, with the content that was read
/// for it; it is sent as `archive.zip`.
pub proof fn law_archive_holds_listed_files(s: DownloadSession, data: Vec<u8>, t: DownloadSession, a: DownloadAction)
    requires
        s.wf(),
        s.mode is Archive,
        s.phase is Reading,
        download_step(s, DownloadEvent::FileRead(data), t, a),
        a matches DownloadAction::Respond(r) && r is Attachment,
    ensures
        s.read + 1 == s.names.len(),
        a matches DownloadAction::Respond(Reply::Attachment { data: bytes, filename }) && {
            &&& filename@ == archive_file_name()
            &&& bytes@ == deflate_zip_archive(entries_of(string_views(s.names@), s.contents@.push(data@)))
        },
{
    let done = entries_of(string_views(s.names@).take(s.read as int), s.contents@);
    assert(done.push((s.names@[s.read as int]@, data@)) =~= entries_of(
        string_views(s.names@),
        s.contents@.push(data@),
    ));
}

/// An empty directory downloads as the archive of no entries.
pub proof fn law_empty_directory_archive(s: DownloadSession, t: DownloadSession, a: DownloadAction)
    requires
        s.mode is Archive,
        s.phase is Listing,
        s.names.len() == 0,
        download_step(s, DownloadEvent::EntriesDone, t, a),
    ensures
        answers_closed_archive(a, Seq::empty()),
{
}

/// Every file that a download reads is a listed entry of the storage
/// directory.
pub proof fn law_reads_stay_in_directory(s: DownloadSession, e: DownloadEvent, t: DownloadSession, a: DownloadAction)
    requires
        s.wf(),
        download_step(s, e, t, a),
        a is ReadFile,
    ensures
        t.phase is Reading,
        exists|i: int| 0 <= i < t.names.len() && reads_file(s, #[trigger] t.names@[i]@, a),
{
    if s.phase is Listing {
        assert(reads_file(s, t.names@[0]@, a));
    } else {
        assert(reads_file(s, t.names@[s.read + 1]@, a));
    }
}

/// A preview sends the first entry of the directory under its own name, and
/// an empty directory has no preview.
pub proof fn law_preview_is_first_entry(s: DownloadSession, e: DownloadEvent, t: DownloadSession, a: DownloadAction)
    requires
        s.wf(),
        s.mode is Preview,
        s.phase is Listing || s.phase is Reading,
        download_step(s, e, t, a),
    ensures
        s.phase is Listing && e is Entry ==> (e matches DownloadEvent::Entry(n) && reads_file(s, n@, a)),
        s.phase is Listing && e is EntriesDone ==> answers_failure(a, Failure::EmptyDir),
        s.phase is Reading && e is FileRead ==> (e matches DownloadEvent::FileRead(data) && a matches DownloadAction::Respond(r)
            && is_attachment_reply(r, data@, s.names@[0]@)),
{
}

/// A directory that cannot be opened is created and opened again; only
/// when that fails too is the download refused.
pub proof fn law_missing_directory_is_created(s: DownloadSession, d: String, t: DownloadSession, a: DownloadAction)
    requires
        s.phase is Opening,
        download_step(s, DownloadEvent::DirOpenFailed(d), t, a),
    ensures
        t.phase is Creating,
        a matches DownloadAction::CreateDir(p) && p@ == s.dir@,
{
}

/// A finished download takes no further event.
pub proof fn law_download_finished_is_final(s: DownloadSession, e: DownloadEvent)
    requires
        s.phase is Finished,
    ensures
        !s.expects(e),
{
}

/// Reading the files of a directory download never fails while the names
/// are at most 65535 bytes long in UTF-8, as every name that a Linux file
/// system stores is: the step either asks for the next file or sends the
/// archive.
pub proof fn law_ordinary_names_are_archived(s: DownloadSession, data: Vec<u8>, t: DownloadSession, a: DownloadAction)
    requires
        s.wf(),
        s.mode is Archive,
        s.phase is Reading,
        utf8_len(s.names@[s.read as int]@) <= max_entry_name_bytes(),
        download_step(s, DownloadEvent::FileRead(data), t, a),
    ensures
        a is ReadFile || (a matches DownloadAction::Respond(r) && r is Attachment),
{
}

} // verus!
