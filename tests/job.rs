use peoplebot::job::DownloadRequest;
use peoplebot::runner::{base_args, download_args, missing_deps, yt_dlp_storage_args};

#[test]
fn request_keeps_normalised_url() {
    let r = DownloadRequest::new("HTTPS://Example.com", true, 7u8).unwrap();
    assert_eq!(r.url, "https://example.com/");
    assert!(r.strip_audio);
    assert_eq!(r.sender, 7);
}

#[test]
fn request_rejects_relative_or_garbage() {
    assert!(DownloadRequest::new("not a url", false, ()).is_err());
    assert!(DownloadRequest::new("/relative/path", false, ()).is_err());
    assert!(DownloadRequest::new("", false, ()).is_err());
}

#[test]
fn storage_args_defaults_and_overrides() {
    let (h, t) = yt_dlp_storage_args(None, None);
    assert_eq!(h, "home:./out");
    assert_eq!(t, "temp:./tmp");
    let (h, t) = yt_dlp_storage_args(Some("/data"), Some("/scratch"));
    assert_eq!(h, "home:/data");
    assert_eq!(t, "temp:/scratch");
}

#[test]
fn fixed_flags() {
    let a = base_args();
    assert_eq!(a.len(), 16);
    assert_eq!(a[0], "--no-sponsorblock");
    assert_eq!(a[4], "--progress-delta");
    assert_eq!(a[5], "1");
    assert_eq!(a[15], r#"after_move:{"event":"moved","id":"%(id)s","path":%(filepath)j}"#);
}

#[test]
fn full_argument_list() {
    let a = download_args("https://x.y/v", false, None, Some("/t"));
    assert_eq!(a.len(), 23);
    assert_eq!(a[0], "https://x.y/v");
    assert_eq!(&a[17..], &["-P", "home:./out", "-P", "temp:/t", "-f", "bv*+ba/b"]);
    let r = DownloadRequest::new("https://x.y/v", true, ()).unwrap();
    let b = r.args(Some("/h"), None);
    assert_eq!(&b[17..], &["-P", "home:/h", "-P", "temp:./tmp", "-f", "bv"]);
}

#[test]
fn missing_dependency_report() {
    assert_eq!(missing_deps(true, true), None);
    assert_eq!(missing_deps(false, true), Some("missing deps: yt-dlp".to_string()));
    assert_eq!(missing_deps(true, false), Some("missing deps: ffmpeg".to_string()));
    assert_eq!(missing_deps(false, false), Some("missing deps: yt-dlp, ffmpeg".to_string()));
}
