use imgupload::config::{MainConfig, TestProxySettings};
use imgupload::data_url::{decode_payload, image_data_url, split_data_url};
use imgupload::json::files_json;
use imgupload::messages::{no_images_message, too_many_images, MultipartFailure, IMAGE_SIZE_LIMIT, MAX_IMG_COUNT};
use imgupload::paths::{file_name, name_ext};
use imgupload::text::{chars_of, push_decimal, string_of, trim_start_matches};
use imgupload::upload::{
    crop_path, embedded_path, plan_entry, EntryFailure, EntryWork, plan_raw_save, remote_target, request_files, EntryPlan,
    RemoteTarget, SavePlan, UploadError,
};
use imgupload::vips::{
    crop_failure_message, crop_step, status_ok, CropStage, CropStep, GParamFlags, GThreadPriority,
    VipsBandFormat, VipsCoding, VipsDemandStyle, VipsImageType, VipsInterpretation,
};

fn chars(s: &str) -> Vec<char> {
    s.chars().collect()
}

fn text(cs: Option<Vec<char>>) -> Option<String> {
    cs.map(|v| v.into_iter().collect())
}

#[test]
fn decimal_numbers() {
    let mut s = String::from("n=");
    push_decimal(&mut s, 0);
    assert_eq!(s, "n=0");
    let mut s = String::new();
    push_decimal(&mut s, 1234567890);
    assert_eq!(s, "1234567890");
    let mut s = String::new();
    push_decimal(&mut s, u64::MAX);
    assert_eq!(s, "18446744073709551615");
}

#[test]
fn chars_and_strings() {
    assert_eq!(chars_of("aбв"), vec!['a', 'б', 'в']);
    assert_eq!(string_of(&['x', 'ы']), "xы");
    assert_eq!(string_of(&[]), "");
}

#[test]
fn trimming_repeated_prefix() {
    assert_eq!(trim_start_matches("abababc", "ab"), "c");
    assert_eq!(trim_start_matches("ababa", "ab"), "a");
    assert_eq!(trim_start_matches("xab", "ab"), "xab");
    assert_eq!(trim_start_matches("", "ab"), "");
}

#[test]
fn path_file_names() {
    assert_eq!(text(file_name(&chars("http://example.com/pics/cat.jpg"))), Some("cat.jpg".to_string()));
    assert_eq!(text(file_name(&chars("a/b/.//"))), Some("b".to_string()));
    assert_eq!(text(file_name(&chars("a/.."))), None);
    assert_eq!(text(file_name(&chars("/"))), None);
    assert_eq!(text(file_name(&chars("."))), None);
    assert_eq!(text(file_name(&chars(""))), None);
    assert_eq!(text(file_name(&chars("./x"))), Some("x".to_string()));
}

#[test]
fn name_extensions() {
    assert_eq!(text(name_ext(&chars("cat.jpg"))), Some("jpg".to_string()));
    assert_eq!(text(name_ext(&chars("a.tar.gz"))), Some("gz".to_string()));
    assert_eq!(text(name_ext(&chars(".bashrc"))), None);
    assert_eq!(text(name_ext(&chars("..foo"))), Some("foo".to_string()));
    assert_eq!(text(name_ext(&chars("foo."))), Some("".to_string()));
    assert_eq!(text(name_ext(&chars("readme"))), None);
}

#[test]
fn data_url_of_image() {
    assert_eq!(image_data_url("png", b"hello"), "data:image/png;base64,aGVsbG8=");
    assert_eq!(image_data_url("jpeg", b"hell"), "data:image/jpeg;base64,aGVsbA==");
    assert_eq!(image_data_url("gif", b"hel"), "data:image/gif;base64,aGVs");
    assert_eq!(image_data_url("", b""), "data:image/;base64,");
    assert_eq!(image_data_url("png", &[0xfb, 0xff]), "data:image/png;base64,+/8=");
}

#[test]
fn data_url_header_and_payload() {
    assert_eq!(split_data_url("data:image/png;base64,aGVsbG8=").unwrap(), Some(("png".to_string(), "aGVsbG8=")));
    assert_eq!(
        split_data_url("data:image/png;base64,data:image/png;base64,QQ==").unwrap(),
        Some(("png".to_string(), "QQ=="))
    );
    assert_eq!(split_data_url("data:image/png,abc").unwrap(), None);
    assert_eq!(split_data_url("data:image/PNG;base64,QQ==").unwrap(), None);
    assert_eq!(split_data_url("data:image\n;base64,QQ==").unwrap(), None);
    assert_eq!(
        split_data_url("data:image/x-icon;base64,data:imageXico;base64,QQ==").unwrap(),
        Some(("ico".to_string(), "data:image/x-icon;base64,data:imageXico;base64,QQ=="))
    );
}

#[test]
fn payload_decoding() {
    assert_eq!(decode_payload("aGVsbG8="), Some(b"hello".to_vec()));
    assert_eq!(decode_payload(""), Some(vec![]));
    assert_eq!(decode_payload("@@@@"), None);
    assert_eq!(decode_payload("aGVsbG8"), None);
    assert_eq!(decode_payload("QR=="), None);
    assert_eq!(decode_payload("QQ==QQ=="), None);
    assert_eq!(decode_payload("QUJD"), Some(b"ABC".to_vec()));
}

#[test]
fn embedded_entry_plan() {
    match plan_entry(3, "data:image/png;base64,aGVsbG8=").unwrap() {
        EntryPlan::Embedded { ext, data, file_name, crop_path } => {
            assert_eq!(ext, "png");
            assert_eq!(data, b"hello".to_vec());
            assert_eq!(file_name, "upload/byjson_3.png");
            assert_eq!(crop_path, "upload/crop.png");
        }
        other => panic!("unexpected plan {:?}", other),
    }
    match plan_entry(12, "data:image/;base64,QQ==").unwrap() {
        EntryPlan::Embedded { ext, data, file_name, crop_path } => {
            assert_eq!(ext, "");
            assert_eq!(data, b"A".to_vec());
            assert_eq!(file_name, "upload/byjson_12");
            assert_eq!(crop_path, "upload/crop");
        }
        other => panic!("unexpected plan {:?}", other),
    }
}

#[test]
fn failing_embedded_entries() {
    assert_eq!(plan_entry(0, "data:image/png,xyz").unwrap(), EntryPlan::NoHeader);
    assert_eq!(plan_entry(0, "data:image/png;base64,@@").unwrap(), EntryPlan::BadPayload);
}

#[test]
fn remote_entry_plan() {
    assert_eq!(
        plan_entry(1, "http://example.com/pics/cat.jpg").unwrap(),
        EntryPlan::Remote {
            url: "http://example.com/pics/cat.jpg".to_string(),
            target: RemoteTarget::Named {
                file_name: "upload/cat.jpg".to_string(),
                ext: "jpg".to_string(),
                crop_path: "upload/crop.jpg".to_string(),
            },
        }
    );
    assert_eq!(
        remote_target("https://example.com/"),
        RemoteTarget::Named {
            file_name: "upload/example.com".to_string(),
            ext: "com".to_string(),
            crop_path: "upload/crop.com".to_string(),
        }
    );
    assert_eq!(remote_target("http://example.com/readme"), RemoteTarget::NoExtension);
    assert_eq!(remote_target("http://x/.."), RemoteTarget::NoFileName);
}

#[test]
fn skipped_entries() {
    assert_eq!(plan_entry(2, "ftp://example.com/a.png").unwrap(), EntryPlan::Skipped);
    assert_eq!(plan_entry(2, "").unwrap(), EntryPlan::Skipped);
    assert_eq!(plan_entry(2, "data:image").unwrap(), EntryPlan::Skipped);
}

#[test]
fn data_url_round_trip() {
    let image: Vec<u8> = (0u8..=255).collect();
    let url = image_data_url("webp", &image);
    match plan_entry(7, &url).unwrap() {
        EntryPlan::Embedded { ext, data, file_name, .. } => {
            assert_eq!(ext, "webp");
            assert_eq!(data, image);
            assert_eq!(file_name, "upload/byjson_7.webp");
        }
        other => panic!("unexpected plan {:?}", other),
    }
}

#[test]
fn upper_case_extension_is_not_read_back() {
    let url = image_data_url("JPG", b"x");
    assert_eq!(plan_entry(0, &url).unwrap(), EntryPlan::NoHeader);
}

#[test]
fn paths_for_files() {
    assert_eq!(crop_path("png"), "upload/crop.png");
    assert_eq!(crop_path(""), "upload/crop");
    assert_eq!(embedded_path(0, "gif"), "upload/byjson_0.gif");
    assert_eq!(embedded_path(105, ""), "upload/byjson_105");
}

#[test]
fn request_files_member() {
    assert_eq!(
        request_files(r#"{"files": ["a", 1, "b"]}"#).unwrap(),
        Some(vec![Some("a".to_string()), None, Some("b".to_string())])
    );
    assert_eq!(request_files(r#"{"files": []}"#).unwrap(), Some(vec![]));
    assert_eq!(request_files(r#"{"other": ["a"]}"#).unwrap(), None);
    assert_eq!(request_files(r#"{"files": "a"}"#).unwrap(), None);
    assert_eq!(request_files(r#"["a"]"#).unwrap(), None);
    assert!(matches!(request_files("not json"), Err(UploadError::Json(_))));
}

#[test]
fn json_answer() {
    assert_eq!(files_json(&vec![]), "[]");
    assert_eq!(files_json(&vec!["a".to_string(), "b".to_string()]), r#"["a","b"]"#);
    assert_eq!(files_json(&vec!["q\"b\\s".to_string()]), r#"["q\"b\\s"]"#);
    assert_eq!(files_json(&vec!["\n\t\u{1}\u{1f}é".to_string()]), "[\"\\n\\t\\u0001\\u001fé\"]");
    let url = image_data_url("png", b"hello");
    assert_eq!(files_json(&vec![url.clone()]), format!("[\"{}\"]", url));
}

#[test]
fn raw_save_plans() {
    assert_eq!(
        plan_raw_save(Some("photo.JPG".to_string())),
        SavePlan::Save {
            path: "upload/photo.JPG".to_string(),
            ext: "JPG".to_string(),
            crop_path: "upload/crop.JPG".to_string(),
        }
    );
    assert_eq!(plan_raw_save(None), SavePlan::NoExtension);
    assert_eq!(plan_raw_save(Some(".hidden".to_string())), SavePlan::NoExtension);
    assert_eq!(plan_raw_save(Some("".to_string())), SavePlan::NoExtension);
    assert_eq!(
        plan_raw_save(Some("/tmp/a.png".to_string())),
        SavePlan::Save {
            path: "/tmp/a.png".to_string(),
            ext: "png".to_string(),
            crop_path: "upload/crop.png".to_string(),
        }
    );
}

#[test]
fn image_count_limit() {
    assert_eq!(MAX_IMG_COUNT, 25);
    assert_eq!(IMAGE_SIZE_LIMIT, 32 * 1024 * 1024);
    assert_eq!(too_many_images(25), None);
    assert_eq!(too_many_images(0), None);
    assert_eq!(
        too_many_images(26),
        Some("Нельзя загружать больше 26 изображений за один раз.".to_string())
    );
}

#[test]
fn multipart_messages() {
    assert_eq!(MultipartFailure::DataTooLarge.message(), "Размер файла слишком большой.");
    assert_eq!(MultipartFailure::DataType.message(), "Вы отправили не изображение.");
    assert_eq!(MultipartFailure::Other.message(), "Произошла ошибка при загрузке файла.");
    assert_eq!(no_images_message(), "Вы не отправили ни одного файла, загружать нечего.");
}

#[test]
fn proxy_configuration() {
    let none = MainConfig::from_settings(None, Some("u".to_string()), None);
    assert!(none.proxy.is_none());
    assert_eq!(none.proxy_auth(), None);
    let cfg = MainConfig::from_settings(Some("http://proxy:3128".to_string()), Some("u".to_string()), None);
    let p: &TestProxySettings = cfg.proxy.as_ref().unwrap();
    assert_eq!(p.proxy, "http://proxy:3128");
    assert_eq!(p.login, Some("u".to_string()));
    assert_eq!(p.password, None);
    assert_eq!(
        cfg.proxy_auth(),
        Some(("http://proxy:3128".to_string(), "u".to_string(), "".to_string()))
    );
}

#[test]
fn binding_constants() {
    assert_eq!(GThreadPriority::G_THREAD_PRIORITY_URGENT.code(), 3);
    assert_eq!(GThreadPriority::from_code(4), None);
    assert_eq!(GParamFlags::G_PARAM_DEPRECATED.code(), i32::MIN);
    assert_eq!(GParamFlags::from_code(1073741824), Some(GParamFlags::G_PARAM_EXPLICIT_NOTIFY));
    assert_eq!(VipsInterpretation::VIPS_INTERPRETATION_sRGB.code(), 22);
    assert_eq!(VipsInterpretation::from_code(11), None);
    assert_eq!(VipsInterpretation::from_code(-1), Some(VipsInterpretation::VIPS_INTERPRETATION_ERROR));
    assert_eq!(VipsCoding::from_code(6), Some(VipsCoding::VIPS_CODING_RAD));
    assert_eq!(VipsBandFormat::VIPS_FORMAT_DPCOMPLEX.code(), 9);
    assert_eq!(VipsImageType::from_code(7), Some(VipsImageType::VIPS_IMAGE_PARTIAL));
    assert_eq!(VipsDemandStyle::VIPS_DEMAND_STYLE_ANY.code(), 3);
    for v in -2..40 {
        if let Some(x) = VipsInterpretation::from_code(v) {
            assert_eq!(x.code(), v);
        }
    }
}

#[test]
fn crop_sequence() {
    assert_eq!(crop_step(CropStage::Loading, true), CropStep::Next(CropStage::Cropping));
    assert_eq!(crop_step(CropStage::Cropping, true), CropStep::Next(CropStage::Saving));
    assert_eq!(crop_step(CropStage::Saving, true), CropStep::Done);
    assert_eq!(
        crop_step(CropStage::Cropping, false),
        CropStep::Failed("Ошибка в процессе обрезки изображения!".to_string())
    );
    assert_eq!(crop_failure_message(CropStage::Loading), "Ошибка в процессе загрузки изображения!");
    assert_eq!(crop_failure_message(CropStage::Saving), "Ошибка в процессе сохранения изображения!");
    assert!(status_ok(0));
    assert!(!status_ok(-1));
    assert_eq!(imgupload::vips::PREVIEW_SIDE, 100);
}

#[test]
fn aborting_plans() {
    assert!(plan_entry(0, "data:image/png,xyz").unwrap().aborts());
    assert!(plan_entry(0, "data:image/png;base64,@@").unwrap().aborts());
    assert!(plan_entry(0, "http://example.com/readme").unwrap().aborts());
    assert!(!plan_entry(0, "http://example.com/a.png").unwrap().aborts());
    assert!(!plan_entry(0, "data:image/png;base64,QQ==").unwrap().aborts());
    assert!(!plan_entry(0, "ftp://x").unwrap().aborts());
}

#[test]
fn entry_work_order() {
    assert_eq!(plan_entry(0, "data:image/png;base64,QQ==").unwrap().work(), EntryWork::Store);
    assert_eq!(plan_entry(0, "http://example.com/a.png").unwrap().work(), EntryWork::Fetch);
    assert_eq!(
        plan_entry(0, "http://example.com/readme").unwrap().work(),
        EntryWork::FetchThenFail(EntryFailure::Missing)
    );
    assert_eq!(plan_entry(0, "ftp://x").unwrap().work(), EntryWork::Skip);
    assert_eq!(plan_entry(0, "data:image/png,xyz").unwrap().work(), EntryWork::Fail(EntryFailure::Missing));
    assert_eq!(
        plan_entry(0, "data:image/png;base64,@@").unwrap().work(),
        EntryWork::Fail(EntryFailure::Invalid)
    );
    assert_eq!(EntryFailure::Missing.message(), "called `Option::unwrap()` on a `None` value");
    assert_eq!(EntryFailure::Invalid.message(), "called `Result::unwrap()` on an `Err` value");
}
