//! The upload protocol: which multipart fields are taken, when the
//! directory is listed, which files are written and what is answered.
//!
//! The session is driven from outside: it asks for an action to be carried
//! out (`UploadAction`) and is told what came of it (`UploadEvent`).
use vstd::prelude::*;
use crate::naming::{is_image_name, is_image_file_name};
use crate::paths::{dir_path, dir_path_of, file_path, file_path_of};
use crate::responses::{
    Failure, Reply, is_failure_reply, is_success_reply, string_views, upload_success_message,
    upload_success_reply,
};

verus! {

/// At most this many files are kept in one upload, and in one directory.
pub const MAX_FILES: usize = 4;

/// The largest accepted file, in bytes (200 KiB).
pub const MAX_FILE_BYTES: usize = 204800;

/// Where an upload stands.
pub enum UploadPhase {
    /// Waiting to hear that the storage directory exists.
    AwaitingDir,
    /// Taking multipart fields.
    Receiving,
    /// Waiting for the names already in the directory.
    Listing,
    /// Writing the accepted files one after the other.
    Writing,
    /// A reply was given; nothing more happens.
    Finished,
}

/// What the driver reports back.
pub enum UploadEvent {
    /// The storage directory exists (it existed or was created).
    DirReady,
    /// Creating the storage directory failed with this error text.
    DirCreateFailed(String),
    /// The next multipart field: its file name and content.
    Field { file_name: String, data: Vec<u8> },
    /// Reading the content of a field failed with this error text.
    FieldReadFailed(String),
    /// There are no more fields.
    FieldsDone,
    /// The names of the entries of the storage directory, in listing order.
    DirListed(Vec<String>),
    /// The storage directory could not be opened.
    DirOpenFailed(String),
    /// Reading an entry of the storage directory failed.
    DirReadFailed(String),
    /// The file asked for was written.
    FileWritten,
    /// Writing the file asked for failed.
    FileWriteFailed(String),
}

/// What the driver is asked to do next.
pub enum UploadAction {
    /// Create this directory (and its parents) unless it exists.
    EnsureDir(String),
    /// Read the next multipart field.
    NextField,
    /// List the entries of this directory.
    ListDir(String),
    /// Write `data` to the file at `path`.
    WriteFile { path: String, data: Vec<u8> },
    /// Answer the request; the session is over.
    Respond(Reply),
}

/// The state of one upload request.
pub struct UploadSession {
    /// The storage directory.
    pub dir: String,
    pub phase: UploadPhase,
    /// Names of the accepted files, in the order they came.
    pub names: Vec<String>,
    /// Contents of the accepted files, in the same order.
    pub datas: Vec<Vec<u8>>,
    /// Names listed in the directory, then those written so far.
    pub listed: Vec<String>,
    /// The names that the directory listing gave.
    pub existing: Ghost<Seq<Seq<char>>>,
    /// How many accepted files were written.
    pub written: usize,
}

/// A file may be kept when its name is an image name and it is at most
/// 200 KiB long.
pub open spec fn file_ok(name: Seq<char>, size: nat) -> bool {
    is_image_name(name) && size <= MAX_FILE_BYTES
}

/// Every file of the batch may be kept.
pub open spec fn batch_ok(names: Seq<String>, datas: Seq<Vec<u8>>) -> bool {
    forall|i: int| 0 <= i < names.len() ==> file_ok(#[trigger] names[i]@, datas[i]@.len())
}

/// The count check after listing: the entries already in the directory and
/// the accepted files together are at most four.
pub open spec fn room_for(listed_count: nat, uploaded: nat) -> bool {
    listed_count + uploaded <= MAX_FILES
}

/// `a` answers with the failure `f` (HTTP 500).
pub open spec fn responds_failure(a: UploadAction, f: Failure) -> bool {
    a matches UploadAction::Respond(r) && is_failure_reply(r, f.message())
}

/// `a` answers with a successful upload listing `names`.
pub open spec fn responds_success(a: UploadAction, names: Seq<Seq<char>>) -> bool {
    a matches UploadAction::Respond(r) && is_success_reply(r, upload_success_message(), Some(names))
}

/// `a` asks to write the accepted file number `i` of `s`.
pub open spec fn writes_file(s: UploadSession, i: int, a: UploadAction) -> bool {
    a matches UploadAction::WriteFile { path, data } && path@ == file_path_of(s.dir@, s.names@[i]@)
        && data@ == s.datas@[i]@
}

impl UploadSession {
    /// The internal consistency of a session.
    pub open spec fn wf(self) -> bool {
        &&& self.names.len() == self.datas.len()
        &&& self.phase is AwaitingDir ==> self.names.len() == 0
        &&& (self.phase is Receiving || self.phase is Listing || self.phase is Writing) ==> {
            &&& self.names.len() <= MAX_FILES
            &&& batch_ok(self.names@, self.datas@)
        }
        &&& self.phase is Writing ==> {
            &&& self.written < self.names.len()
            &&& room_for(self.existing@.len(), self.names.len() as nat)
            &&& string_views(self.listed@) == self.existing@ + string_views(self.names@).take(
                self.written as int,
            )
        }
    }

    /// Which events the session can take in its phase.
    pub open spec fn expects(self, e: UploadEvent) -> bool {
        match self.phase {
            UploadPhase::AwaitingDir => e is DirReady || e is DirCreateFailed,
            UploadPhase::Receiving => e is Field || e is FieldReadFailed || e is FieldsDone,
            UploadPhase::Listing => {
                ||| e is DirOpenFailed
                ||| e is DirReadFailed
                ||| e is DirListed
            },
            UploadPhase::Writing => e is FileWritten || e is FileWriteFailed,
            UploadPhase::Finished => false,
        }
    }

    /// The session that `start` creates.
    pub open spec fn initial(self, dir_type: Seq<char>, dir_id: nat) -> bool {
        &&& self.dir@ == dir_path_of(dir_type, dir_id)
        &&& self.phase is AwaitingDir
        &&& self.names.len() == 0
        &&& self.datas.len() == 0
    }
}

/// One step of the upload protocol: from state `s` and event `e` to state
/// `t` and action `a`.
pub open spec fn upload_step(s: UploadSession, e: UploadEvent, t: UploadSession, a: UploadAction) -> bool {
    &&& t.dir@ == s.dir@
    &&& match s.phase {
        UploadPhase::AwaitingDir => match e {
            UploadEvent::DirReady => {
                &&& t.phase is Receiving
                &&& t.names@ == s.names@
                &&& t.datas@ == s.datas@
                &&& a is NextField
            },
            UploadEvent::DirCreateFailed(d) => t.phase is Finished && responds_failure(
                a,
                Failure::CreateDir(d),
            ),
            _ => false,
        },
        UploadPhase::Receiving => match e {
            UploadEvent::Field { file_name, data } => {
                if !is_image_name(file_name@) {
                    t.phase is Finished && responds_failure(a, Failure::NotImage)
                } else if data@.len() > MAX_FILE_BYTES {
                    t.phase is Finished && responds_failure(a, Failure::TooLarge)
                } else if s.names.len() + 1 > MAX_FILES {
                    t.phase is Finished && responds_failure(a, Failure::TooMany)
                } else {
                    &&& t.phase is Receiving
                    &&& t.names@ == s.names@.push(file_name)
                    &&& t.datas@ == s.datas@.push(data)
                    &&& a is NextField
                }
            },
            UploadEvent::FieldReadFailed(d) => t.phase is Finished && responds_failure(
                a,
                Failure::ReadUpload(d),
            ),
            UploadEvent::FieldsDone => {
                &&& t.phase is Listing
                &&& t.names@ == s.names@
                &&& t.datas@ == s.datas@
                &&& a matches UploadAction::ListDir(p) && p@ == s.dir@
            },
            _ => false,
        },
        UploadPhase::Listing => match e {
            UploadEvent::DirOpenFailed(d) => t.phase is Finished && responds_failure(
                a,
                Failure::OpenDir(d),
            ),
            UploadEvent::DirReadFailed(d) => t.phase is Finished && responds_failure(
                a,
                Failure::ReadDir(d),
            ),
            UploadEvent::DirListed(v) => {
                if !room_for(v.len() as nat, s.names.len() as nat) {
                    t.phase is Finished && responds_failure(a, Failure::TooMany)
                } else if s.names.len() == 0 {
                    t.phase is Finished && responds_success(a, string_views(v@))
                } else {
                    &&& t.phase is Writing
                    &&& t.names@ == s.names@
                    &&& t.datas@ == s.datas@
                    &&& t.existing@ == string_views(v@)
                    &&& t.written == 0
                    &&& writes_file(s, 0, a)
                }
            },
            _ => false,
        },
        UploadPhase::Writing => match e {
            UploadEvent::FileWritten => {
                if s.written + 1 == s.names.len() {
                    t.phase is Finished && responds_success(
                        a,
                        s.existing@ + string_views(s.names@),
                    )
                } else {
                    &&& t.phase is Writing
                    &&& t.names@ == s.names@
                    &&& t.datas@ == s.datas@
                    &&& t.existing@ == s.existing@
                    &&& t.written == s.written + 1
                    &&& writes_file(s, s.written + 1, a)
                }
            },
            UploadEvent::FileWriteFailed(d) => t.phase is Finished && responds_failure(
                a,
                Failure::WriteFile(d),
            ),
            _ => false,
        },
        UploadPhase::Finished => false,
    }
}

impl UploadSession {
    /// Starts the upload into the directory of `dir_type` and `dir_id`; the
    /// first action is to make sure that directory exists.
    pub fn start(dir_type: &str, dir_id: u64) -> (r: (UploadSession, UploadAction))
        ensures
            r.0.wf(),
            r.0.initial(dir_type@, dir_id as nat),
            r.1 matches UploadAction::EnsureDir(p) && p@ == dir_path_of(dir_type@, dir_id as nat),
    {
        let dir = dir_path(dir_type, dir_id);
        let target = dir.clone();
        let s = UploadSession {
            dir,
            phase: UploadPhase::AwaitingDir,
            names: Vec::new(),
            datas: Vec::new(),
            listed: Vec::new(),
            existing: Ghost(Seq::empty()),
            written: 0,
        };
        (s, UploadAction::EnsureDir(target))
    }

    fn finish(&mut self, f: Failure) -> (a: UploadAction)
        ensures
            final(self).dir@ == old(self).dir@,
            final(self).phase is Finished,
            final(self).names.len() == final(self).datas.len(),
            responds_failure(a, f),
    {
        self.phase = UploadPhase::Finished;
        self.names = Vec::new();
        self.datas = Vec::new();
        UploadAction::Respond(f.into_reply())
    }

    fn on_field(&mut self, file_name: String, data: Vec<u8>) -> (a: UploadAction)
        requires
            old(self).wf(),
            old(self).phase is Receiving,
        ensures
            final(self).wf(),
            upload_step(*old(self), UploadEvent::Field { file_name, data }, *final(self), a),
    {
        if !is_image_file_name(file_name.as_str()) {
            return self.finish(Failure::NotImage);
        }
        if data.len() > MAX_FILE_BYTES {
            return self.finish(Failure::TooLarge);
        }
        let ghost old_names = self.names@;
        let ghost old_datas = self.datas@;
        self.names.push(file_name);
        self.datas.push(data);
        if self.names.len() > MAX_FILES {
            return self.finish(Failure::TooMany);
        }
        assert(batch_ok(self.names@, self.datas@)) by {
            assert forall|i: int| 0 <= i < self.names@.len() implies file_ok(
                #[trigger] self.names@[i]@,
                self.datas@[i]@.len(),
            ) by {
                if i < old_names.len() {
                    assert(self.names@[i] == old_names[i]);
                    assert(self.datas@[i] == old_datas[i]);
                }
            }
        }
        UploadAction::NextField
    }

    fn write_action(&self, i: usize) -> (a: UploadAction)
        requires
            i < self.names.len(),
            self.names.len() == self.datas.len(),
        ensures
            writes_file(*self, i as int, a),
    {
        let path = file_path(self.dir.as_str(), self.names[i].as_str());
        let data = self.datas[i].clone();
        assert(data@ =~= self.datas@[i as int]@);
        UploadAction::WriteFile { path, data }
    }

    fn on_listed(&mut self, entries: Vec<String>) -> (a: UploadAction)
        requires
            old(self).wf(),
            old(self).phase is Listing,
        ensures
            final(self).wf(),
            upload_step(*old(self), UploadEvent::DirListed(entries), *final(self), a),
    {
        if entries.len() > MAX_FILES - self.names.len() {
            return self.finish(Failure::TooMany);
        }
        if self.names.len() == 0 {
            self.phase = UploadPhase::Finished;
            return UploadAction::Respond(upload_success_reply(entries));
        }
        let ghost listed_views = string_views(entries@);
        self.existing = Ghost(listed_views);
        self.listed = entries;
        self.written = 0;
        self.phase = UploadPhase::Writing;
        assert(string_views(self.names@).take(0) =~= Seq::<Seq<char>>::empty());
        assert(self.existing@ + string_views(self.names@).take(0) =~= self.existing@);
        self.write_action(0)
    }

    fn on_written(&mut self) -> (a: UploadAction)
        requires
            old(self).wf(),
            old(self).phase is Writing,
        ensures
            final(self).wf(),
            upload_step(*old(self), UploadEvent::FileWritten, *final(self), a),
    {
        let i: usize = self.written;
        let name = self.names[i].clone();
        let ghost prev = self.listed@;
        self.listed.push(name);
        assert(string_views(self.listed@) =~= string_views(prev).push(self.names@[i as int]@));
        assert(string_views(self.names@).take(i + 1) =~= string_views(self.names@).take(i as int).push(
            self.names@[i as int]@,
        ));
        self.written = i + 1;
        if self.written == self.names.len() {
            assert(string_views(self.names@).take(self.names.len() as int) =~= string_views(self.names@));
            let mut out: Vec<String> = Vec::new();
            std::mem::swap(&mut out, &mut self.listed);
            self.phase = UploadPhase::Finished;
            return UploadAction::Respond(upload_success_reply(out));
        }
        self.write_action(self.written)
    }

    /// Takes the event `e` and returns the next action.
    pub fn step(&mut self, e: UploadEvent) -> (a: UploadAction)
        requires
            old(self).wf(),
            old(self).expects(e),
        ensures
            final(self).wf(),
            upload_step(*old(self), e, *final(self), a),
    {
        match self.phase {
            UploadPhase::AwaitingDir => match e {
                UploadEvent::DirReady => {
                    self.phase = UploadPhase::Receiving;
                    UploadAction::NextField
                },
                UploadEvent::DirCreateFailed(d) => self.finish(Failure::CreateDir(d)),
                _ => {
                    assert(false);
                    UploadAction::NextField
                },
            },
            UploadPhase::Receiving => match e {
                UploadEvent::Field { file_name, data } => self.on_field(file_name, data),
                UploadEvent::FieldReadFailed(d) => self.finish(Failure::ReadUpload(d)),
                UploadEvent::FieldsDone => {
                    self.phase = UploadPhase::Listing;
                    UploadAction::ListDir(self.dir.clone())
                },
                _ => {
                    assert(false);
                    UploadAction::NextField
                },
            },
            UploadPhase::Listing => match e {
                UploadEvent::DirListed(v) => self.on_listed(v),
                UploadEvent::DirOpenFailed(d) => self.finish(Failure::OpenDir(d)),
                UploadEvent::DirReadFailed(d) => self.finish(Failure::ReadDir(d)),
                _ => {
                    assert(false);
                    UploadAction::NextField
                },
            },
            UploadPhase::Writing => match e {
                UploadEvent::FileWritten => self.on_written(),
                UploadEvent::FileWriteFailed(d) => self.finish(Failure::WriteFile(d)),
                _ => {
                    assert(false);
                    UploadAction::NextField
                },
            },
            UploadPhase::Finished => {
                assert(false);
                UploadAction::NextField
            },
        }
    }
}

} // verus!

verus! {

/// Every file that an upload asks to write passes the checks: its name is
/// an image name, it is at most 200 KiB, and it goes into the session's
/// directory under that name.
pub proof fn law_written_files_pass_checks(s: UploadSession, e: UploadEvent, t: UploadSession, a: UploadAction)
    requires
        s.wf(),
        upload_step(s, e, t, a),
        a is WriteFile,
    ensures
        t.phase is Writing,
        a matches UploadAction::WriteFile { path, data } && {
            &&& data@.len() <= MAX_FILE_BYTES
            &&& exists|i: int| 0 <= i < s.names.len() && path@ == file_path_of(s.dir@, #[trigger] s.names@[i]@)
                && is_image_name(s.names@[i]@)
        },
{
    match s.phase {
        UploadPhase::Listing => {
            assert(file_ok(s.names@[0]@, s.datas@[0]@.len()));
        },
        UploadPhase::Writing => {
            let k: int = s.written + 1;
            assert(file_ok(s.names@[k]@, s.datas@[k]@.len()));
        },
        _ => {},
    }
}

/// Writing starts only once the whole upload was accepted: every file of
/// the batch passed the checks, there are at most four of them, and the
/// count check after listing passed.
pub proof fn law_writing_only_after_acceptance(s: UploadSession)
    requires
        s.wf(),
        s.phase is Writing,
    ensures
        s.names.len() <= MAX_FILES,
        forall|i: int| 0 <= i < s.names.len() ==> file_ok(#[trigger] s.names@[i]@, s.datas@[i]@.len()),
        room_for(s.existing@.len(), s.names.len() as nat),
{
}

/// An accepted upload leaves at most four files in the directory.
pub proof fn law_upload_total_capped(s: UploadSession)
    requires
        s.wf(),
        s.phase is Writing,
    ensures
        s.existing@.len() + s.names.len() <= MAX_FILES,
{
}

/// A field that is not an image, or too large, or one too many, ends the
/// upload with a failure before anything is written.
pub proof fn law_refused_field_ends_upload(s: UploadSession, file_name: String, data: Vec<u8>, t: UploadSession, a: UploadAction)
    requires
        s.wf(),
        s.phase is Receiving,
        upload_step(s, UploadEvent::Field { file_name, data }, t, a),
        !file_ok(file_name@, data@.len()) || s.names.len() == MAX_FILES,
    ensures
        t.phase is Finished,
        a matches UploadAction::Respond(r) && r is Error,
{
}

/// A finished upload takes no further event, so it never writes again.
pub proof fn law_finished_is_final(s: UploadSession, e: UploadEvent)
    requires
        s.phase is Finished,
    ensures
        !s.expects(e),
{
}

/// The success reply after the last write lists the names that were in the
/// directory, followed by every uploaded name in upload order.
pub proof fn law_success_lists_all_names(s: UploadSession, t: UploadSession, a: UploadAction)
    requires
        s.wf(),
        s.phase is Writing,
        upload_step(s, UploadEvent::FileWritten, t, a),
        a is Respond,
    ensures
        responds_success(a, s.existing@ + string_views(s.names@)),
{
}

} // verus!

verus! {

/// A file that an upload of `dir_type` and `dir_id` writes under the name
/// `n` is the stored file `n` of that type and id: the one that the
/// single-file download reads and the file deletion removes.
pub proof fn law_uploaded_file_is_stored_file(
    dir_type: Seq<char>,
    dir_id: nat,
    s: UploadSession,
    e: UploadEvent,
    t: UploadSession,
    a: UploadAction,
)
    requires
        s.wf(),
        s.dir@ == dir_path_of(dir_type, dir_id),
        upload_step(s, e, t, a),
        a is WriteFile,
    ensures
        a matches UploadAction::WriteFile { path, data } && exists|i: int|
            0 <= i < s.names.len() && path@ == file_path_of(dir_path_of(dir_type, dir_id), #[trigger] s.names@[i]@),
{
    law_written_files_pass_checks(s, e, t, a);
}

} // verus!

verus! {

/// One step of an upload as it happened: state before, event, state after,
/// action.
pub type UploadMove = (UploadSession, UploadEvent, UploadSession, UploadAction);

/// `m` is a run of the upload protocol: every step is a step of the
/// protocol from a consistent state, and each step starts where the last
/// one ended.
pub open spec fn upload_trace(m: Seq<UploadMove>) -> bool {
    &&& forall|i: int| 0 <= i < m.len() ==> (#[trigger] m[i]).0.wf() && upload_step(m[i].0, m[i].1, m[i].2, m[i].3)
    &&& forall|i: int| 0 <= i < m.len() - 1 ==> (#[trigger] m[i + 1]).0 == m[i].2
}

/// `e` reports no failed operation.
pub open spec fn no_io_failure(e: UploadEvent) -> bool {
    !(e is DirCreateFailed || e is FieldReadFailed || e is DirOpenFailed || e is DirReadFailed
        || e is FileWriteFailed)
}

/// The fields (name, size) that the events of `m` delivered, in order.
pub open spec fn trace_fields(m: Seq<UploadMove>) -> Seq<(Seq<char>, nat)>
    decreases m.len(),
{
    if m.len() == 0 {
        Seq::empty()
    } else {
        match m.last().1 {
            UploadEvent::Field { file_name, data } => trace_fields(m.drop_last()).push((file_name@, data@.len())),
            _ => trace_fields(m.drop_last()),
        }
    }
}

/// The names of the entries that the directory listing of `m` gave, if
/// the directory was listed.
pub open spec fn trace_listed(m: Seq<UploadMove>) -> Option<Seq<Seq<char>>>
    decreases m.len(),
{
    if m.len() == 0 {
        None
    } else {
        match m.last().1 {
            UploadEvent::DirListed(v) => Some(string_views(v@)),
            _ => trace_listed(m.drop_last()),
        }
    }
}

/// The rule of an upload: every field is an image of at most 200 KiB, there
/// are at most four of them, and the directory's entries and the fields
/// together are at most four.
pub open spec fn upload_accepted(fields: Seq<(Seq<char>, nat)>, listed: Option<Seq<Seq<char>>>) -> bool {
    &&& fields.len() <= MAX_FILES
    &&& forall|i: int| 0 <= i < fields.len() ==> file_ok((#[trigger] fields[i]).0, fields[i].1)
    &&& listed matches Some(k) && k.len() + fields.len() <= MAX_FILES
}

/// The names of `fields`, in order.
pub open spec fn field_names(fields: Seq<(Seq<char>, nat)>) -> Seq<Seq<char>> {
    fields.map_values(|f: (Seq<char>, nat)| f.0)
}

/// `r` answers a refused upload: the field is not an image, it is too
/// large, or there are too many files.
pub open spec fn is_refusal_reply(r: Reply) -> bool {
    ||| is_failure_reply(r, Failure::NotImage.message())
    ||| is_failure_reply(r, Failure::TooLarge.message())
    ||| is_failure_reply(r, Failure::TooMany.message())
}

/// The fields accepted into a session, as (name, size).
pub open spec fn session_fields(s: UploadSession) -> Seq<(Seq<char>, nat)> {
    Seq::new(s.names.len() as nat, |i: int| (s.names@[i]@, s.datas@[i]@.len()))
}

/// What the first `k` steps of a run have led to.
pub open spec fn run_prefix(m: Seq<UploadMove>, k: int) -> bool {
    let s = m[k].0;
    let p = m.take(k);
    &&& !(s.phase is Finished)
    &&& s.phase is AwaitingDir ==> trace_fields(p).len() == 0 && trace_listed(p) is None
    &&& (s.phase is Receiving || s.phase is Listing) ==> trace_fields(p) == session_fields(s) && trace_listed(p) is None
    &&& s.phase is Writing ==> trace_fields(p) == session_fields(s) && trace_listed(p) == Some(s.existing@)
}

proof fn lemma_run_prefix(m: Seq<UploadMove>, k: int)
    requires
        upload_trace(m),
        0 <= k < m.len(),
        m[0].0.phase is AwaitingDir,
        forall|i: int| 0 <= i < m.len() ==> no_io_failure(#[trigger] m[i].1),
    ensures
        run_prefix(m, k),
    decreases k,
{
    if k == 0 {
        assert(m.take(0) =~= Seq::<UploadMove>::empty());
    } else {
        lemma_run_prefix(m, k - 1);
        let j = k - 1;
        let s = m[j].0;
        let e = m[j].1;
        let t = m[j].2;
        assert(m[j + 1].0 == m[j].2);
        assert(m[k].0.wf() && upload_step(m[k].0, m[k].1, m[k].2, m[k].3));
        assert(m[j].0.wf() && upload_step(m[j].0, m[j].1, m[j].2, m[j].3));
        assert(no_io_failure(m[j].1));
        let p = m.take(k);
        let q = m.take(j);
        assert(p.drop_last() =~= q);
        assert(p.last() == m[j]);
        assert(p.len() > 0);
        let fq = trace_fields(q);
        let lq = trace_listed(q);
        assert(trace_fields(p) == match e {
            UploadEvent::Field { file_name, data } => fq.push((file_name@, data@.len())),
            _ => fq,
        });
        assert(trace_listed(p) == match e {
            UploadEvent::DirListed(v) => Some(string_views(v@)),
            _ => lq,
        });
        assert(!(t.phase is Finished));
        match s.phase {
            UploadPhase::AwaitingDir => {
                assert(t.names.len() == 0);
                assert(session_fields(t) =~= fq);
            },
            UploadPhase::Receiving => {
                match e {
                    UploadEvent::Field { file_name, data } => {
                        assert(session_fields(t) =~= session_fields(s).push((file_name@, data@.len())));
                    },
                    _ => {
                        assert(session_fields(t) =~= session_fields(s));
                    },
                }
            },
            UploadPhase::Listing => {
                match e {
                    UploadEvent::DirListed(v) => {
                        assert(session_fields(t) =~= session_fields(s));
                    },
                    _ => {},
                }
            },
            UploadPhase::Writing => {
                assert(session_fields(t) =~= session_fields(s));
            },
            UploadPhase::Finished => {},
        }
    }
}

/// The whole upload: a run from the start whose operations all succeed is
/// answered with success exactly when every field is an image of at most
/// 200 KiB, there are at most four fields, and the directory's entries and
/// the fields together are at most four. The success lists the entries that
/// were in the directory followed by the uploaded names; any other answer
/// says that a file is not an image, too large, or one too many.
pub proof fn law_upload_acceptance(m: Seq<UploadMove>)
    requires
        upload_trace(m),
        m.len() > 0,
        m[0].0.phase is AwaitingDir,
        forall|i: int| 0 <= i < m.len() ==> no_io_failure(#[trigger] m[i].1),
        m.last().3 is Respond,
    ensures
        m.last().3 matches UploadAction::Respond(r) && {
            let fields = trace_fields(m);
            let listed = trace_listed(m);
            &&& r is Json <==> upload_accepted(fields, listed)
            &&& upload_accepted(fields, listed) ==> is_success_reply(
                r,
                upload_success_message(),
                Some(listed->0 + field_names(fields)),
            )
            &&& !upload_accepted(fields, listed) ==> is_refusal_reply(r)
        },
{
    let k = m.len() - 1;
    lemma_run_prefix(m, k);
    let s = m[k].0;
    let e = m[k].1;
    assert(m[k].0.wf() && upload_step(m[k].0, m[k].1, m[k].2, m[k].3));
    assert(no_io_failure(m[k].1));
    assert(m.drop_last() =~= m.take(k));
    assert(m.last() == m[k]);
    let fs = session_fields(s);
    assert(field_names(fs) =~= string_views(s.names@));
    match e {
        UploadEvent::Field { file_name, data } => {
            assert(trace_listed(m) is None);
        },
        UploadEvent::DirListed(v) => {
            assert(trace_listed(m) == Some(string_views(v@)));
            assert(trace_fields(m) == fs);
            assert forall|i: int| 0 <= i < fs.len() implies file_ok((#[trigger] fs[i]).0, fs[i].1) by {
                assert(file_ok(s.names@[i]@, s.datas@[i]@.len()));
            }
            if s.names.len() == 0 {
                assert(string_views(v@) + field_names(fs) =~= string_views(v@));
            }
        },
        UploadEvent::FileWritten => {
            assert(trace_fields(m) == fs);
            assert forall|i: int| 0 <= i < fs.len() implies file_ok((#[trigger] fs[i]).0, fs[i].1) by {
                assert(file_ok(s.names@[i]@, s.datas@[i]@.len()));
            }
        },
        _ => {},
    }
}

} // verus!
