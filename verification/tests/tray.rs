use audetic::tray::{build_circle_icon, AudeticTray, StatusResponse, TrayPhase};

#[test]
fn phases_are_named_by_the_service() {
    assert_eq!(TrayPhase::from_api("idle"), TrayPhase::Idle);
    assert_eq!(TrayPhase::from_api("recording"), TrayPhase::Recording);
    assert_eq!(TrayPhase::from_api("processing"), TrayPhase::Processing);
    assert_eq!(TrayPhase::from_api("error"), TrayPhase::Error);
    assert_eq!(TrayPhase::from_api("Idle"), TrayPhase::Unknown);
    assert_eq!(TrayPhase::Unknown.label(), "Disconnected");
    assert_eq!(TrayPhase::Idle.icon_color(), (46, 204, 113));
    assert_eq!(TrayPhase::Processing.icon_color(), (243, 156, 18));
}

#[test]
fn tray_follows_the_status() {
    let mut tray = AudeticTray::new();
    assert_eq!(tray.title(), "Audetic (Disconnected)");
    tray.fetch_phase(Some(StatusResponse {
        phase: "error".to_string(),
        last_error: Some("no mic".to_string()),
    }));
    assert_eq!(tray.title(), "Audetic (Error)");
    assert_eq!(tray.tool_tip(), "Status: Error\nno mic");
    tray.fetch_phase(None);
    assert_eq!(tray.phase, TrayPhase::Unknown);
    assert_eq!(tray.tool_tip(), "Status: Disconnected");
}

#[test]
fn icon_is_a_disc() {
    let (r, g, b) = (1u8, 2u8, 3u8);
    let mut expected: Vec<u8> = Vec::new();
    let size = 32usize;
    let center = (size as f32 - 1.0) / 2.0;
    let radius = size as f32 * 0.38;
    for y in 0..size {
        for x in 0..size {
            let dx = x as f32 - center;
            let dy = y as f32 - center;
            if dx * dx + dy * dy <= radius * radius {
                expected.extend_from_slice(&[255, r, g, b]);
            } else {
                expected.extend_from_slice(&[0, 0, 0, 0]);
            }
        }
    }
    assert_eq!(build_circle_icon((r, g, b)), expected);
}
