use mnemnk_application::event::ApplicationEvent;

#[test]
fn text_joins_name_and_title() {
    let e = ApplicationEvent::new(
        1_700_000_000_000,
        "Editor".to_string(),
        "file.txt".to_string(),
        0,
        0,
        800,
        600,
    );
    assert_eq!(e.text(), "Editor file.txt");
    assert_eq!(e.name(), "Editor");
    assert_eq!(e.title(), "file.txt");
    assert_eq!(e.t(), 1_700_000_000_000);
    assert_eq!(e.x(), 0);
    assert_eq!(e.y(), 0);
    assert_eq!(e.width(), 800);
    assert_eq!(e.height(), 600);
}

#[test]
fn text_is_trimmed() {
    let no_title = ApplicationEvent::new(1, "Editor".to_string(), String::new(), 0, 0, 1, 1);
    assert_eq!(no_title.text(), "Editor");
    let no_name = ApplicationEvent::new(1, String::new(), "file.txt".to_string(), 0, 0, 1, 1);
    assert_eq!(no_name.text(), "file.txt");
    let neither = ApplicationEvent::new(1, String::new(), String::new(), 0, 0, 1, 1);
    assert_eq!(neither.text(), "");
    let padded = ApplicationEvent::new(1, "  Editor".to_string(), "a  b \n".to_string(), 0, 0, 1, 1);
    assert_eq!(padded.text(), "Editor a  b");
    assert_eq!(padded.name(), "  Editor");
    assert_eq!(padded.title(), "a  b \n");
}

#[test]
fn matching_looks_at_place_and_text_only() {
    let a = ApplicationEvent::new(1, "Editor".to_string(), "file.txt".to_string(), 1, 2, 3, 4);
    let later = ApplicationEvent::new(99, "Editor".to_string(), "file.txt".to_string(), 1, 2, 3, 4);
    assert!(a.matches(&later));
    let same_text = ApplicationEvent::new(1, "Editor file.txt".to_string(), String::new(), 1, 2, 3, 4);
    assert!(a.matches(&same_text));
    let moved_x = ApplicationEvent::new(1, "Editor".to_string(), "file.txt".to_string(), 9, 2, 3, 4);
    let moved_y = ApplicationEvent::new(1, "Editor".to_string(), "file.txt".to_string(), 1, 9, 3, 4);
    let wider = ApplicationEvent::new(1, "Editor".to_string(), "file.txt".to_string(), 1, 2, 9, 4);
    let higher = ApplicationEvent::new(1, "Editor".to_string(), "file.txt".to_string(), 1, 2, 3, 9);
    let retitled = ApplicationEvent::new(1, "Editor".to_string(), "file2.txt".to_string(), 1, 2, 3, 4);
    assert!(!a.matches(&moved_x));
    assert!(!a.matches(&moved_y));
    assert!(!a.matches(&wider));
    assert!(!a.matches(&higher));
    assert!(!a.matches(&retitled));
}

#[test]
fn clone_keeps_every_field() {
    let a = ApplicationEvent::new(7, "Editor".to_string(), "file.txt".to_string(), -1, -2, 3, 4);
    let b = a.clone();
    assert_eq!(a, b);
    assert_eq!(b.t(), 7);
    assert_eq!(b.x(), -1);
    assert_eq!(b.y(), -2);
    assert_eq!(b.text(), "Editor file.txt");
}
