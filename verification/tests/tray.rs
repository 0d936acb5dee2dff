use zju_connect_gui::tray::{
    build_icon, rgba_to_argb, tool_tip_title, tray_unavailable_log, web_ui_url, TrayError,
};

#[test]
fn web_ui_url_carries_port_and_token() {
    assert_eq!(web_ui_url(19823, "abc"), "http://localhost:19823/?token=abc");
    assert_eq!(tool_tip_title(8080), "ZJU Connect - http://localhost:8080");
}

#[test]
fn pixels_rotate_from_rgba_to_argb() {
    assert_eq!(
        rgba_to_argb(vec![1, 2, 3, 4, 5, 6, 7, 8, 9]),
        vec![4, 1, 2, 3, 8, 5, 6, 7, 9]
    );
    assert_eq!(rgba_to_argb(Vec::new()), Vec::<u8>::new());
}

#[test]
fn undecodable_icons_are_reported() {
    match build_icon(b"not an image") {
        Err(TrayError::Icon(_)) => {}
        other => panic!("expected an icon error, got {other:?}"),
    }
    assert_eq!(
        TrayError::Build("x".into()).message(),
        "failed to build tray icon: x"
    );
    assert_eq!(
        tray_unavailable_log("no host"),
        "[tray] 系统托盘不可用：no host（退出需通过 Ctrl+C 或任务管理器）"
    );
}
