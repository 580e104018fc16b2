use commanda::cache::ResponseCache;
use commanda::qr_code::{base64_fits, QrCodeError, QrCodeService};
use commanda::routes::{art_image_text, template_status};
use commanda::user::SystemUser;
use commanda::wallpaper::{bing_image_url, wallpaper_path, BingAnswerError, JsonValue};

#[test]
fn cache_answers_stored_value_while_fresh() {
    let mut cache: ResponseCache<u32> = ResponseCache::new();
    assert_eq!(cache.fresh(), None);
    assert_eq!(cache.fresh_at(0), None);
    cache.store(7);
    assert_eq!(cache.fresh(), Some(&7));
    assert_eq!(cache.fresh_at(0), Some(&7));
    assert_eq!(cache.fresh_at(599), Some(&7));
    assert_eq!(cache.fresh_at(600), None);
    cache.store(8);
    assert_eq!(cache.fresh_at(10), Some(&8));
}

fn archive(url: JsonValue) -> JsonValue {
    JsonValue::Object(vec![
        ("market".to_string(), JsonValue::Str("en-US".to_string())),
        (
            "images".to_string(),
            JsonValue::Array(vec![JsonValue::Object(vec![
                ("startdate".to_string(), JsonValue::Number("20260101".to_string())),
                ("url".to_string(), url),
            ])]),
        ),
    ])
}

#[test]
fn bing_address_from_archive() {
    let answer = archive(JsonValue::Str("/th?id=OHR.Example_1920x1080.jpg".to_string()));
    assert_eq!(bing_image_url(&answer), Ok("https://www.bing.com/th?id=OHR.Example_1920x1080.jpg".to_string()));
}

#[test]
fn bing_answer_without_url() {
    assert!(bing_image_url(&archive(JsonValue::Null)) == Err(BingAnswerError::MissingUrl));
    assert!(bing_image_url(&archive(JsonValue::Number("3".to_string()))) == Err(BingAnswerError::MissingUrl));
    assert!(bing_image_url(&JsonValue::Null) == Err(BingAnswerError::MissingUrl));
    let empty = JsonValue::Object(vec![("images".to_string(), JsonValue::Array(vec![]))]);
    assert!(bing_image_url(&empty) == Err(BingAnswerError::MissingUrl));
    let not_array = JsonValue::Object(vec![("images".to_string(), JsonValue::Bool(true))]);
    assert!(bing_image_url(&not_array) == Err(BingAnswerError::MissingUrl));
}

#[test]
fn desktop_wallpaper_paths() {
    assert_eq!(wallpaper_path("file:///usr/share/backgrounds/a.jpg", "file:///b.jpg"), "/usr/share/backgrounds/a.jpg");
    assert_eq!(wallpaper_path("", "file:///b.jpg"), "/b.jpg");
    assert_eq!(wallpaper_path("/plain/path.png", ""), "/plain/path.png");
    assert_eq!(wallpaper_path("", ""), "");
}

#[test]
fn base64_of_bytes() {
    assert_eq!(QrCodeService::to_base64(&b"hello".to_vec()), "aGVsbG8=");
    assert_eq!(QrCodeService::to_base64(&Vec::new()), "");
}

#[test]
fn qr_code_image_is_base64_png() {
    let mut svc = QrCodeService::new();
    let data = match svc.encode("http://192.168.0.10:8080") {
        Ok(d) => d,
        Err(_) => panic!("encoding failed"),
    };
    assert!(data.image.starts_with("iVBORw0KGgo"));
    let again = match svc.encode("something else") {
        Ok(d) => d,
        Err(_) => panic!("encoding failed"),
    };
    assert_eq!(again.image, data.image);
}

#[test]
fn qr_code_answers_kept_image_by_age() {
    let mut svc = QrCodeService::new();
    let first = svc.encode_at("http://10.0.0.1:8080", 0).expect("fits");
    let kept = svc.encode_at("http://10.0.0.2:8080", 599).expect("kept image");
    assert_eq!(kept.image, first.image);
    let renewed = svc.encode_at("http://10.0.0.2:8080", 600).expect("fits");
    assert_ne!(renewed.image, first.image);
    let mut other = QrCodeService::new();
    let direct = other.encode_at("http://10.0.0.2:8080", 0).expect("fits");
    assert_eq!(renewed.image, direct.image);
}

#[test]
fn base64_length_bound() {
    assert!(base64_fits(0));
    assert!(base64_fits(1_000_000));
    assert!(base64_fits(usize::MAX / 4 * 3));
    assert!(!base64_fits(usize::MAX));
}

#[test]
fn artwork_text_is_base64() {
    assert_eq!(art_image_text(&b"Man".to_vec()), "TWFu");
    assert_eq!(art_image_text(&b"Ma".to_vec()), "TWE=");
    assert_eq!(art_image_text(&vec![0xff, 0xfe, 0xfd, 0x00]), "//79AA==");
}

#[test]
fn template_statuses() {
    assert_eq!(template_status(false, false), 404);
    assert_eq!(template_status(true, true), 200);
    assert_eq!(template_status(true, false), 500);
}

#[test]
fn qr_code_refuses_long_messages() {
    let mut svc = QrCodeService::new();
    let long = "x".repeat(8000);
    assert!(matches!(svc.encode(&long), Err(QrCodeError::DataTooLong)));
    assert!(svc.encode("short").is_ok());
}

#[test]
fn user_records() {
    let u = SystemUser {
        username: "ana".to_string(),
        real_name: "Ana".to_string(),
        icon_file: "/var/lib/AccountsService/icons/ana".to_string(),
        account_type: 1,
        uid: 1000,
    };
    let d = u.duplicate();
    assert_eq!(d.username, "ana");
    assert_eq!(d.uid, 1000);
    assert_eq!(SystemUser::account_lookup_id(1000), 1000);
    assert_eq!(SystemUser::account_lookup_id(u64::MAX), -1);
}
