use image_host::responses::{Failure, Reply, ReplyData, upload_success_reply};

fn failure_text(f: Failure) -> String {
    match f.into_reply() {
        Reply::Error(vo) => {
            assert_eq!(vo.code, 500);
            assert!(matches!(vo.data, ReplyData::Null));
            vo.msg
        }
        _ => panic!("not a failure reply"),
    }
}

#[test]
fn failure_messages() {
    assert_eq!(failure_text(Failure::CreateDir("denied".to_string())), "在创建目录时出错: denied");
    assert_eq!(failure_text(Failure::ReadUpload("eof".to_string())), "读取上传的文件失败: eof");
    assert_eq!(failure_text(Failure::NotImage), "上传的文件不是图片");
    assert_eq!(failure_text(Failure::TooLarge), "文件大小超过200kb");
    assert_eq!(failure_text(Failure::TooMany), "上传的文件数量超过4个");
    assert_eq!(failure_text(Failure::OpenDir("x".to_string())), "无法打开指定的目录: x");
    assert_eq!(failure_text(Failure::ReadDir("x".to_string())), "无法读取目录: x");
    assert_eq!(failure_text(Failure::WriteFile("full".to_string())), "写入文件失败: full");
    assert_eq!(failure_text(Failure::Archive("z".to_string())), "压缩文件时出错: z");
    assert_eq!(failure_text(Failure::ReadFile("gone".to_string())), "读取文件失败: gone");
    assert_eq!(failure_text(Failure::EmptyDir), "目录为空");
    assert_eq!(failure_text(Failure::DeleteDir("busy".to_string())), "目录删除失败: busy");
    assert_eq!(failure_text(Failure::DeleteFile("busy".to_string())), "文件删除失败: busy");
}

#[test]
fn upload_success_lists_names() {
    match upload_success_reply(vec!["a.png".to_string(), "b.jpg".to_string()]) {
        Reply::Json(vo) => {
            assert_eq!(vo.code, 200);
            assert_eq!(vo.msg, "图片上传成功");
            match vo.data {
                ReplyData::Names(v) => assert_eq!(v, vec!["a.png".to_string(), "b.jpg".to_string()]),
                ReplyData::Null => panic!("expected names"),
            }
        }
        _ => panic!("not a success reply"),
    }
}
