use flack::shortcut::{shortcut_for, KeyCombination, Modifier, Platform, FOCUS_KEY};

#[test]
fn ctrl_k_on_ctrl_platforms() {
    for p in [Platform::Windows, Platform::Linux, Platform::Other] {
        let c = shortcut_for(p);
        assert_eq!(c, KeyCombination { modifier: Modifier::Ctrl, key: 'K' });
        assert_ne!(c.modifier, Modifier::Super);
    }
}

#[test]
fn super_k_on_macos() {
    let c = shortcut_for(Platform::MacOs);
    assert_eq!(c, KeyCombination { modifier: Modifier::Super, key: 'K' });
    assert_ne!(c.modifier, Modifier::Ctrl);
}

#[test]
fn focus_key_is_k() {
    assert_eq!(FOCUS_KEY, 'K');
}
