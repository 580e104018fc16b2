use commanda::routes::{
    asset_answer,
    is_process_dir, is_static_path, local_art_path, proc_root_path, route_page, template_asset_path, template_name,
    PageRequest,
};
use commanda::server::server_url;

#[test]
fn static_paths() {
    for p in ["static/x", "a.css", "b.js", "c.png", "d.svg", "favicon.ico", "font.woff2", "static/"] {
        assert!(is_static_path(p), "{p}");
    }
    for p in ["about", "index.html", "x.woff", "static", "css"] {
        assert!(!is_static_path(p), "{p}");
    }
}

#[test]
fn template_names() {
    assert_eq!(template_name("about"), "about.html");
    assert_eq!(template_name("about.html"), "about.html");
    assert_eq!(template_name(""), ".html");
    let once = template_name("x");
    assert_eq!(template_name(&once), once);
}

#[test]
fn page_routing() {
    match route_page("static/app.js") {
        PageRequest::Asset(p) => assert_eq!(p, "static/app.js"),
        PageRequest::Template(_) => panic!("expected an asset"),
    }
    match route_page("settings") {
        PageRequest::Template(t) => assert_eq!(t, "settings.html"),
        PageRequest::Asset(_) => panic!("expected a template"),
    }
}

#[test]
fn template_asset_paths() {
    assert_eq!(template_asset_path("404.html"), "templates/404.html");
}

#[test]
fn artwork_paths() {
    assert_eq!(local_art_path("file:///home/u/.cache/cover.jpg"), Some("/home/u/.cache/cover.jpg".to_string()));
    assert_eq!(local_art_path("https://example.org/c.jpg"), None);
    assert_eq!(local_art_path("file://file:///x"), Some("/x".to_string()));
}

#[test]
fn process_directories() {
    assert!(is_process_dir("1234"));
    assert!(is_process_dir(""));
    assert!(!is_process_dir("self"));
    assert!(!is_process_dir("12a"));
    assert_eq!(proc_root_path("1234", "/tmp/c.png"), "/proc/1234/root/tmp/c.png");
}

#[test]
fn server_addresses() {
    assert_eq!(server_url("192.168.0.10", 8080), "http://192.168.0.10:8080");
    assert_eq!(server_url("127.0.0.1", 0), "http://127.0.0.1:0");
    assert_eq!(server_url("::1", 65535), "http://::1:65535");
}

#[test]
fn asset_answers() {
    assert_eq!(asset_answer(true, "static/app.css"), (200, Some("text/css".to_string())));
    assert_eq!(asset_answer(true, "static/logo.png"), (200, Some("image/png".to_string())));
    assert_eq!(asset_answer(true, "static/blob"), (200, Some("application/octet-stream".to_string())));
    assert_eq!(asset_answer(false, "static/app.css"), (404, None));
}
