//! The bodies and replies that the service answers with.
use vstd::prelude::*;

verus! {

/// The `data` member of a JSON reply: `null` or a list of file names.
pub enum ReplyData {
    Null,
    Names(Vec<String>),
}

/// The JSON body of every non-file reply.
pub struct ResultVo {
    pub code: u16,
    pub msg: String,
    pub data: ReplyData,
}

/// What a request is answered with.
pub enum Reply {
    /// HTTP 200 with a JSON body.
    Json(ResultVo),
    /// HTTP 500 with a JSON body.
    Error(ResultVo),
    /// HTTP 200 with a file sent as an attachment under `filename`.
    Attachment { data: Vec<u8>, filename: String },
}

/// Why a request failed; the `String`s carry the text of the underlying
/// error.
pub enum Failure {
    CreateDir(String),
    ReadUpload(String),
    NotImage,
    TooLarge,
    TooMany,
    OpenDir(String),
    ReadDir(String),
    WriteFile(String),
    Archive(String),
    ReadFile(String),
    EmptyDir,
    DeleteDir(String),
    DeleteFile(String),
}

/// The views of a sequence of strings.
pub open spec fn string_views(v: Seq<String>) -> Seq<Seq<char>> {
    v.map_values(|s: String| s@)
}

impl Failure {
    /// The message that a failure is reported with.
    pub open spec fn message(self) -> Seq<char> {
        match self {
            Failure::CreateDir(d) => "在创建目录时出错: "@ + d@,
            Failure::ReadUpload(d) => "读取上传的文件失败: "@ + d@,
            Failure::NotImage => "上传的文件不是图片"@,
            Failure::TooLarge => "文件大小超过200kb"@,
            Failure::TooMany => "上传的文件数量超过4个"@,
            Failure::OpenDir(d) => "无法打开指定的目录: "@ + d@,
            Failure::ReadDir(d) => "无法读取目录: "@ + d@,
            Failure::WriteFile(d) => "写入文件失败: "@ + d@,
            Failure::Archive(d) => "压缩文件时出错: "@ + d@,
            Failure::ReadFile(d) => "读取文件失败: "@ + d@,
            Failure::EmptyDir => "目录为空"@,
            Failure::DeleteDir(d) => "目录删除失败: "@ + d@,
            Failure::DeleteFile(d) => "文件删除失败: "@ + d@,
        }
    }

    /// The reply to a failed request: HTTP 500, code 500, the message and
    /// `null` data.
    pub fn into_reply(self) -> (r: Reply)
        ensures
            is_failure_reply(r, self.message()),
    {
        let ghost m = self.message();
        let msg = match self {
            Failure::CreateDir(d) => prefixed("在创建目录时出错: ", d.as_str()),
            Failure::ReadUpload(d) => prefixed("读取上传的文件失败: ", d.as_str()),
            Failure::NotImage => String::from_str("上传的文件不是图片"),
            Failure::TooLarge => String::from_str("文件大小超过200kb"),
            Failure::TooMany => String::from_str("上传的文件数量超过4个"),
            Failure::OpenDir(d) => prefixed("无法打开指定的目录: ", d.as_str()),
            Failure::ReadDir(d) => prefixed("无法读取目录: ", d.as_str()),
            Failure::WriteFile(d) => prefixed("写入文件失败: ", d.as_str()),
            Failure::Archive(d) => prefixed("压缩文件时出错: ", d.as_str()),
            Failure::ReadFile(d) => prefixed("读取文件失败: ", d.as_str()),
            Failure::EmptyDir => String::from_str("目录为空"),
            Failure::DeleteDir(d) => prefixed("目录删除失败: ", d.as_str()),
            Failure::DeleteFile(d) => prefixed("文件删除失败: ", d.as_str()),
        };
        Reply::Error(ResultVo { code: 500, msg, data: ReplyData::Null })
    }
}

/// `prefix` followed by `detail`.
pub(crate) fn prefixed(prefix: &str, detail: &str) -> (s: String)
    ensures
        s@ == prefix@ + detail@,
{
    let mut s = String::from_str(prefix);
    s.append(detail);
    s
}

/// `r` is an HTTP 500 reply with code 500, message `msg` and `null` data.
pub open spec fn is_failure_reply(r: Reply, msg: Seq<char>) -> bool {
    r matches Reply::Error(vo) && vo.code == 500 && vo.msg@ == msg && vo.data is Null
}

/// `r` is an HTTP 200 JSON reply with code 200, message `msg` and data
/// `data` (`None` for `null`).
pub open spec fn is_success_reply(r: Reply, msg: Seq<char>, data: Option<Seq<Seq<char>>>) -> bool {
    &&& r matches Reply::Json(vo)
    &&& vo.code == 200
    &&& vo.msg@ == msg
    &&& match data {
        None => vo.data is Null,
        Some(names) => vo.data matches ReplyData::Names(v) && string_views(v@) == names,
    }
}

/// `r` sends `data` as an attachment named `filename`.
pub open spec fn is_attachment_reply(r: Reply, data: Seq<u8>, filename: Seq<char>) -> bool {
    r matches Reply::Attachment { data: d, filename: f } && d@ == data && f@ == filename
}

/// The message of a successful upload.
pub open spec fn upload_success_message() -> Seq<char> {
    "图片上传成功"@
}

/// The message of a removed directory.
pub open spec fn dir_deleted_message() -> Seq<char> {
    "目录删除成功"@
}

/// The message of a removed file.
pub open spec fn file_deleted_message() -> Seq<char> {
    "文件删除成功"@
}

/// The reply to a successful upload: the names now in the directory.
pub fn upload_success_reply(names: Vec<String>) -> (r: Reply)
    ensures
        is_success_reply(r, upload_success_message(), Some(string_views(names@))),
{
    Reply::Json(ResultVo {
        code: 200,
        msg: String::from_str("图片上传成功"),
        data: ReplyData::Names(names),
    })
}

/// The reply to a removed directory.
pub fn dir_deleted_reply() -> (r: Reply)
    ensures
        is_success_reply(r, dir_deleted_message(), None),
{
    Reply::Json(ResultVo { code: 200, msg: String::from_str("目录删除成功"), data: ReplyData::Null })
}

/// The reply to a removed file.
pub fn file_deleted_reply() -> (r: Reply)
    ensures
        is_success_reply(r, file_deleted_message(), None),
{
    Reply::Json(ResultVo { code: 200, msg: String::from_str("文件删除成功"), data: ReplyData::Null })
}

} // verus!
