use darkfi_net::editbox::{EditBox, KeyAction, KeyMods};

const NO_MODS: KeyMods = KeyMods { shift: false, ctrl: false, alt: false, logo: false };

#[test]
fn key_down_event_is_decoded() {
    let mut data = vec![1, 0, 2, 0, 0, 6];
    data.extend_from_slice(b"PageUp");
    data.extend_from_slice(&[0xFF, 0xFF]);
    let event = EditBox::decode_key_down(&data).unwrap();
    assert_eq!(event.mods, KeyMods { shift: true, ctrl: false, alt: true, logo: false });
    assert!(!event.repeat);
    assert_eq!(event.key, "PageUp");
    let mut data = vec![0, 1, 0, 1, 1, 1, b'a'];
    let event = EditBox::decode_key_down(&data).unwrap();
    assert_eq!(event.mods, KeyMods { shift: false, ctrl: true, alt: false, logo: true });
    assert!(event.repeat);
    assert_eq!(event.key, "a");
    data.pop();
    assert!(EditBox::decode_key_down(&data).is_none());
    assert!(EditBox::decode_key_down(&[0, 0, 0, 0]).is_none());
    assert!(EditBox::decode_key_down(&[0, 0, 0, 0, 0]).is_none());
    assert!(EditBox::decode_key_down(&[0, 0, 0, 0, 0, 1, 0xFF]).is_none());
    assert_eq!(EditBox::decode_key_down(&[0, 0, 0, 0, 0, 0]).unwrap().key, "");
}

#[test]
fn key_press_actions() {
    let edit_box = EditBox::new(3);
    assert_eq!(edit_box.scroll, 3);
    assert_eq!(edit_box.key_press("PageUp", NO_MODS, false), KeyAction::PageUp);
    assert_eq!(edit_box.key_press("PageDown", NO_MODS, false), KeyAction::PageDown);
    assert_eq!(edit_box.key_press("PageUp", NO_MODS, true), KeyAction::Ignore);
    assert_eq!(edit_box.key_press("PageDown", NO_MODS, true), KeyAction::Ignore);
    assert_eq!(edit_box.key_press("pageup", NO_MODS, false), KeyAction::Ignore);
    assert_eq!(edit_box.key_press("A", NO_MODS, false), KeyAction::Ignore);
    assert_eq!(edit_box.key_press("", NO_MODS, false), KeyAction::Ignore);
}
