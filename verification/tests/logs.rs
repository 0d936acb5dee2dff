use zju_connect_gui::backend::proxy::logs::{
    classify_prompt, is_route_added, is_vpn_started, DetectedPrompt, LineBuffer,
    MAX_PENDING_BYTES,
};

#[test]
fn classify_sms_prompts() {
    assert_eq!(
        classify_prompt("Please enter SMS verification code"),
        Some(DetectedPrompt::Sms)
    );
    assert_eq!(classify_prompt("Enter sms code:"), Some(DetectedPrompt::Sms));
    assert_eq!(classify_prompt("请输入短信验证码"), Some(DetectedPrompt::Sms));
}

#[test]
fn classify_callback_prompt() {
    assert_eq!(
        classify_prompt("please paste the callback URL"),
        Some(DetectedPrompt::Callback)
    );
}

#[test]
fn classify_captcha_prompts() {
    assert_eq!(
        classify_prompt("graph check code please"),
        Some(DetectedPrompt::Captcha)
    );
    assert_eq!(
        classify_prompt("captcha required"),
        Some(DetectedPrompt::Captcha)
    );
    assert_eq!(
        classify_prompt("请输入图形验证码"),
        Some(DetectedPrompt::Captcha)
    );
}

#[test]
fn classify_returns_none_for_irrelevant_lines() {
    assert_eq!(classify_prompt("VPN client started"), None);
    assert_eq!(classify_prompt(""), None);
}

#[test]
fn classify_prefers_sms_over_captcha() {
    assert_eq!(classify_prompt("sms captcha"), None);
    assert_eq!(classify_prompt("Captcha for SMS code"), Some(DetectedPrompt::Sms));
}

#[test]
fn is_vpn_started_matches_substring() {
    assert!(is_vpn_started("[INFO] VPN client started successfully"));
    assert!(!is_vpn_started("starting VPN"));
}

#[test]
fn is_route_added_matches_substring() {
    assert!(is_route_added("[INFO] Add route to 10.0.0.0/8"));
    assert!(!is_route_added("removing route"));
}

/// Feeds `input` in chunks of `chunk` bytes, as the output reader does,
/// and returns the complete lines plus the flushed tail.
fn split_all(input: &[u8], chunk: usize) -> (Vec<String>, Vec<String>) {
    let mut buffer = LineBuffer::new();
    let mut lines = Vec::new();
    let mut partials = Vec::new();
    for piece in input.chunks(chunk) {
        for line in buffer.feed(piece) {
            lines.push(LineBuffer::line_text(&line));
        }
        if let Some(p) = buffer.pending_line() {
            partials.push(p);
        }
    }
    if let Some(tail) = buffer.pending_line() {
        lines.push(tail);
    }
    (lines, partials)
}

#[test]
fn consume_stream_splits_lines_and_flushes_tail() {
    let (lines, _) = split_all(b"first\nsecond\r\nthird", 32 * 1024);
    assert_eq!(lines, vec!["first", "second", "third"]);
}

#[test]
fn consume_stream_emits_partial_line_for_prompts() {
    let (lines, partials) = split_all(b"please enter sms code: ", 32 * 1024);
    assert_eq!(lines, vec!["please enter sms code: "]);
    assert!(!partials.is_empty());
}

#[test]
fn consume_stream_caps_unbounded_partial_buffer() {
    let input = vec![b'x'; MAX_PENDING_BYTES * 4];
    let (lines, _) = split_all(&input, 32 * 1024);
    let lengths: Vec<usize> = lines.iter().map(|l| l.len()).collect();
    assert_eq!(lengths, vec![MAX_PENDING_BYTES]);
}

#[test]
fn runs_of_line_breaks_separate_lines_within_a_chunk() {
    let input = b"a\r\nb\n\nc\rd";
    let (whole, _) = split_all(input, 100);
    assert_eq!(whole, vec!["a", "b", "c", "d"]);
    // A break run split across reads yields blank lines, which the
    // supervisor drops; the non-blank lines are the same.
    let (bytewise, _) = split_all(input, 1);
    let non_blank: Vec<String> = bytewise.into_iter().filter(|l| !l.trim().is_empty()).collect();
    assert_eq!(non_blank, whole);
}
