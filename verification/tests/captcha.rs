use zju_connect_gui::backend::proxy::captcha::{
    accept_captcha_bytes, encode_captcha, CaptchaMonitor, CaptchaPoll, CAPTCHA_POLL_TIMEOUT,
};

#[test]
fn encode_captcha_uses_standard_base64() {
    assert_eq!(encode_captcha(b"hi"), "aGk=");
    assert_eq!(encode_captcha(&[]), "");
    assert_eq!(encode_captcha(&[0xfb, 0xff]), "+/8=");
}

#[test]
fn poll_for_stable_captcha_times_out_when_file_missing() {
    let mut poll = CaptchaPoll::new();
    let mut elapsed = 0;
    let mut read = false;
    while CaptchaPoll::within_timeout(elapsed) {
        elapsed += 500;
        read |= poll.observe(None);
    }
    assert!(!read);
    assert_eq!(elapsed, CAPTCHA_POLL_TIMEOUT);
}

#[test]
fn poll_for_stable_captcha_returns_bytes_when_size_stabilizes() {
    let mut poll = CaptchaPoll::new();
    assert!(!poll.observe(Some(3)));
    assert!(!poll.observe(Some(10)));
    assert!(poll.observe(Some(10)));
    assert_eq!(
        accept_captcha_bytes(b"finalbytes".to_vec()),
        Some(b"finalbytes".to_vec())
    );
    assert_eq!(accept_captcha_bytes(Vec::new()), None);
}

#[test]
fn empty_files_never_count_as_stable() {
    let mut poll = CaptchaPoll::new();
    assert!(!poll.observe(Some(0)));
    assert!(!poll.observe(Some(0)));
    assert_eq!(poll.stable_count, 0);
}

#[test]
fn monitor_reports_each_rewrite_once() {
    let mut monitor = CaptchaMonitor::new();
    assert!(!monitor.observe(0, Some((1, 0))));
    assert!(monitor.observe(5, Some((1, 0))));
    assert!(!monitor.observe(5, Some((1, 0))));
    assert!(monitor.observe(5, Some((2, 0))));
    assert!(monitor.observe(6, Some((2, 0))));
    assert!(monitor.observe(6, None));
    assert!(!monitor.observe(6, None));
}

#[test]
fn encode_captcha_matches_rfc4648_vectors() {
    assert_eq!(encode_captcha(b"f"), "Zg==");
    assert_eq!(encode_captcha(b"fo"), "Zm8=");
    assert_eq!(encode_captcha(b"foo"), "Zm9v");
    assert_eq!(encode_captcha(b"foob"), "Zm9vYg==");
    assert_eq!(encode_captcha(b"fooba"), "Zm9vYmE=");
    assert_eq!(encode_captcha(b"foobar"), "Zm9vYmFy");
    assert_eq!(encode_captcha(&[255, 254, 63, 0]), "//4/AA==");
}
