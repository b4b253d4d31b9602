use music_player::{transparent_titlebar, WindowStyle};

fn full() -> WindowStyle {
    WindowStyle { full_size_content: false, closable: true, miniaturizable: true, resizable: true }
}

#[test]
fn transparent_keeps_controls() {
    let look = transparent_titlebar(full(), true, false);
    assert!(look.style.full_size_content);
    assert!(look.style.closable && look.style.miniaturizable && look.style.resizable);
    assert!(!look.title_visible);
    assert!(look.titlebar_transparent);
}

#[test]
fn removing_toolbar_drops_controls() {
    let look = transparent_titlebar(full(), false, true);
    assert!(!look.style.full_size_content);
    assert!(!look.style.closable && !look.style.miniaturizable && !look.style.resizable);
    assert!(look.title_visible);
    assert!(!look.titlebar_transparent);
}
