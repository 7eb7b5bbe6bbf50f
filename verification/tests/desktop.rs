use eightvoice::hotkey::{invalid_hotkey, on_shortcut, toggle_recording, KeyState, RecordAction};
use eightvoice::inject::{
    inject, paste_strokes, typed, InjectError, InjectPlan, KeyFailure, KeyStroke, Modifier,
    PasteWrite, TypingEnd, TypingFailure,
};
use eightvoice::settings::{HotkeyMode, InjectionMode};
use eightvoice::shell::{
    hides_on_close, menu_action, toggle_widget, tray_click_toggles, ButtonState, MenuAction,
    MouseButton, WindowAction,
};
use eightvoice::state::AppState;
use eightvoice::tray::{idle_icon, render_icon, state_color, tooltip_text};

const STATES: [AppState; 5] = [
    AppState::Idle,
    AppState::Recording,
    AppState::Transcribing,
    AppState::Injecting,
    AppState::Error,
];

#[test]
fn empty_text_is_not_injected() {
    for mode in [InjectionMode::Auto, InjectionMode::Typing, InjectionMode::Paste] {
        assert_eq!(inject("", mode), InjectPlan::Nothing);
    }
}

#[test]
fn long_text_is_pasted() {
    let short = "ş".repeat(200);
    let long = "ş".repeat(201);
    assert_eq!(inject(&short, InjectionMode::Auto), InjectPlan::Type);
    assert_eq!(inject(&long, InjectionMode::Auto), InjectPlan::Paste);
    assert_eq!(inject(&long, InjectionMode::Typing), InjectPlan::Type);
    assert_eq!(inject("a", InjectionMode::Paste), InjectPlan::Paste);
}

#[test]
fn paste_puts_the_clipboard_back() {
    for old in [Some("eski".to_string()), None] {
        let write = PasteWrite::begin("yeni", Ok(old.clone())).unwrap();
        assert_eq!(write.text, "yeni");
        let keys = write.written(Ok(())).unwrap();
        let end = keys.struck(Ok(()));
        assert!(end.result.is_ok());
        assert_eq!(end.restore, old);
    }
    for (macos, modifier) in [(true, Modifier::Super), (false, Modifier::Control)] {
        assert_eq!(
            paste_strokes(macos),
            vec![KeyStroke::Press(modifier), KeyStroke::ClickV, KeyStroke::Release(modifier)]
        );
    }
}

#[test]
fn failed_paste_puts_the_clipboard_back() {
    for failure in [
        KeyFailure::NoKeyboard("x".to_string()),
        KeyFailure::Stroke("x".to_string()),
    ] {
        let write = PasteWrite::begin("yeni", Ok(Some("eski".to_string()))).unwrap();
        let end = write.written(Ok(())).unwrap().struck(Err(failure));
        assert!(end.result.is_err());
        assert_eq!(end.restore, Some("eski".to_string()));
    }
}

#[test]
fn failed_typing_is_pasted_under_wayland_alone() {
    assert!(matches!(typed(true, Ok(())), TypingEnd::Done));
    assert!(matches!(typed(false, Ok(())), TypingEnd::Done));
    for wayland in [true, false] {
        for (failure, message) in [
            (TypingFailure::NoKeyboard("x".to_string()), "Enigo başlatılamadı: x"),
            (TypingFailure::Text("x".to_string()), "Yazma hatası: x"),
        ] {
            match typed(wayland, Err(failure)) {
                TypingEnd::Done => panic!("not typed"),
                TypingEnd::Paste => assert!(wayland),
                TypingEnd::Failed(e) => {
                    assert!(!wayland);
                    assert_eq!(e.message(), message);
                }
            }
        }
    }
}

#[test]
fn without_permission_nothing_is_injected() {
    for plan in [InjectPlan::Paste, InjectPlan::Type] {
        assert_eq!(plan.permitted(true).unwrap(), plan);
        assert!(matches!(plan.permitted(false), Err(InjectError::Permission)));
    }
    assert_eq!(InjectPlan::Nothing.permitted(false).unwrap(), InjectPlan::Nothing);
    assert_eq!(InjectPlan::Nothing.permitted(true).unwrap(), InjectPlan::Nothing);
}

#[test]
fn injection_failures_have_their_reasons() {
    let e = PasteWrite::begin("t", Err("x".to_string())).unwrap_err();
    assert_eq!(e.message(), "Pano erişilemedi: x");
    let begin = || PasteWrite::begin("t", Ok(None)).unwrap();
    let e = begin().written(Err("x".to_string())).unwrap_err();
    assert_eq!(e.message(), "Panoya yazılamadı: x");
    let keys = || begin().written(Ok(())).unwrap();
    let e = keys()
        .struck(Err(KeyFailure::NoKeyboard("x".to_string())))
        .result
        .unwrap_err();
    assert_eq!(e.message(), "Enigo başlatılamadı: x");
    let e = keys()
        .struck(Err(KeyFailure::Stroke("x".to_string())))
        .result
        .unwrap_err();
    assert_eq!(e.message(), "x");
    assert_eq!(InjectError::Typing("x".to_string()).message(), "Yazma hatası: x");
    assert_eq!(
        InjectError::Permission.message(),
        "macOS Accessibility izni gerekli. System Settings → Privacy & Security → Accessibility → 8voice'u etkinleştirin."
    );
}

#[test]
fn push_to_talk_follows_the_keys() {
    for state in STATES {
        assert_eq!(
            on_shortcut(HotkeyMode::PushToTalk, KeyState::Pressed, state),
            RecordAction::Start
        );
        assert_eq!(
            on_shortcut(HotkeyMode::PushToTalk, KeyState::Released, state),
            RecordAction::Stop
        );
    }
}

#[test]
fn toggle_counts_the_press_alone() {
    let expected = [
        RecordAction::Start,
        RecordAction::Stop,
        RecordAction::Nothing,
        RecordAction::Nothing,
        RecordAction::Nothing,
    ];
    for (state, action) in STATES.into_iter().zip(expected) {
        assert_eq!(on_shortcut(HotkeyMode::Toggle, KeyState::Pressed, state), action);
        assert_eq!(
            on_shortcut(HotkeyMode::Toggle, KeyState::Released, state),
            RecordAction::Nothing
        );
        assert_eq!(toggle_recording(state), action);
    }
}

#[test]
fn invalid_hotkey_names_the_shortcut() {
    assert_eq!(invalid_hotkey("Foo+", "bad"), "Geçersiz kısayol 'Foo+': bad");
}

#[test]
fn menu_entries_are_found_by_their_id() {
    for action in [MenuAction::ToggleWidget, MenuAction::OpenSettings, MenuAction::Quit] {
        assert_eq!(menu_action(action.id()), Some(action));
    }
    assert_eq!(menu_action("widget"), Some(MenuAction::ToggleWidget));
    assert_eq!(menu_action("settings"), Some(MenuAction::OpenSettings));
    assert_eq!(menu_action("quit"), Some(MenuAction::Quit));
    assert_eq!(menu_action("main"), None);
    assert_eq!(MenuAction::ToggleWidget.label(), "Widget'ı göster/gizle");
    assert_eq!(MenuAction::OpenSettings.label(), "Ayarlar...");
    assert_eq!(MenuAction::Quit.label(), "Çıkış");
}

#[test]
fn windows_hide_instead_of_closing() {
    assert!(hides_on_close("main"));
    assert!(hides_on_close("widget"));
    assert!(!hides_on_close("dialog"));
}

#[test]
fn left_click_toggles_the_widget() {
    for button in [MouseButton::Left, MouseButton::Right, MouseButton::Middle] {
        for state in [ButtonState::Up, ButtonState::Down] {
            assert_eq!(
                tray_click_toggles(button, state),
                button == MouseButton::Left && state == ButtonState::Up
            );
        }
    }
    assert_eq!(toggle_widget(Some(true)), WindowAction::Hide);
    assert_eq!(toggle_widget(Some(false)), WindowAction::ShowAndFocus);
    assert_eq!(toggle_widget(None), WindowAction::ShowAndFocus);
}

#[test]
fn colors_and_tooltips_follow_the_state() {
    assert_eq!(state_color(AppState::Idle), [16, 185, 129]);
    assert_eq!(state_color(AppState::Recording), [239, 68, 68]);
    assert_eq!(state_color(AppState::Transcribing), [245, 158, 11]);
    assert_eq!(state_color(AppState::Injecting), [6, 182, 212]);
    assert_eq!(state_color(AppState::Error), [190, 18, 60]);
    assert_eq!(tooltip_text(AppState::Idle), "8voice — Hazır");
    assert_eq!(tooltip_text(AppState::Recording), "8voice — Kayıt yapıyor…");
    assert_eq!(tooltip_text(AppState::Transcribing), "8voice — Metne çevriliyor…");
    assert_eq!(tooltip_text(AppState::Injecting), "8voice — Yazılıyor…");
    assert_eq!(tooltip_text(AppState::Error), "8voice — Hata");
}

/// The signed distance to the edge of a rounded square, in pixels.
fn rounded_rect_sdf(x: f32, y: f32, cx: f32, cy: f32, w: f32, h: f32, r: f32) -> f32 {
    let dx = (x - cx).abs() - (w / 2.0 - r);
    let dy = (y - cy).abs() - (h / 2.0 - r);
    let outside = (dx.max(0.0)).hypot(dy.max(0.0));
    let inside = dx.max(dy).min(0.0);
    outside + inside - r
}

#[test]
fn icon_is_drawn_by_signed_distance() {
    for state in STATES {
        let color = state_color(state);
        let mut rgba: Vec<u8> = Vec::new();
        for y in 0..32 {
            for x in 0..32 {
                let px = x as f32 + 0.5;
                let py = y as f32 + 0.5;
                let dist = rounded_rect_sdf(px, py, 16.0, 16.0, 24.0, 24.0, 7.0);
                let (r, g, b, a) = if dist > 0.0 {
                    (0, 0, 0, 0)
                } else if dist > -2.5 {
                    (color[0], color[1], color[2], 255)
                } else {
                    let dx = px - 16.0;
                    let dy = py - 16.0;
                    if (dx * dx + dy * dy).sqrt() <= 5.0 {
                        (23, 23, 23, 255)
                    } else {
                        (255, 255, 255, 255)
                    }
                };
                rgba.extend_from_slice(&[r, g, b, a]);
            }
        }
        let icon = render_icon(state);
        assert_eq!(icon.rgba, rgba);
        assert_eq!((icon.width, icon.height), (32, 32));
    }
    assert_eq!(idle_icon().rgba, render_icon(AppState::Idle).rgba);
}

#[test]
fn states_look_different() {
    for a in STATES {
        for b in STATES {
            assert_eq!(render_icon(a).rgba == render_icon(b).rgba, a == b);
        }
    }
}
