use corg::ui::{App, Document, InputKey};

#[test]
fn document_new_keeps_fields() {
    let doc = Document::new("faye.md", "2019-08-28T19:04:07.450466Z", "abc");
    assert_eq!(doc.file_name, "faye.md");
    assert_eq!(doc.modified_at, "2019-08-28T19:04:07.450466Z");
    assert_eq!(doc.sha, "abc");
}

#[test]
fn new_app_starts_clean() {
    let app = App::new("file.md", vec![], vec![]);
    assert_eq!(app.title, "file.md");
    assert!(!app.should_quit);
    assert!(app.documents.is_empty());
    assert!(app.servers.is_empty());
    assert!(app.commands.is_empty());
    assert_eq!(app.input, "".to_string());
}

#[test]
fn demo_app_lists_hosts_and_documents() {
    let app = App::demo();
    assert_eq!(app.title, "file.md");
    assert_eq!(app.documents.len(), 4);
    assert_eq!(app.documents[0].file_name, "faye.md");
    assert_eq!(app.documents[3].file_name, "nginx.md");
    assert_eq!(app.servers.len(), 4);
    assert_eq!(app.servers[1].name, "microwave");
    assert_eq!(app.servers[1].fqdn, "microwave.futuregadgetlab.dev");
}

#[test]
fn q_key_quits() {
    let mut app = App::new("file.md", vec![], vec![]);
    app.on_key('a');
    assert!(!app.should_quit);
    app.on_key('q');
    assert!(app.should_quit);
    app.on_key('a');
    assert!(app.should_quit);
}

#[test]
fn typed_line_becomes_command_on_submit() {
    let mut app = App::new("file.md", vec![], vec![]);
    assert!(!app.on_input_key(InputKey::Char('l')));
    assert!(!app.on_input_key(InputKey::Char('s')));
    assert_eq!(app.input, "ls".to_string());
    assert!(!app.on_input_key(InputKey::Submit));
    assert_eq!(app.commands, vec!["ls".to_string()]);
    assert_eq!(app.input, "".to_string());
}

#[test]
fn backspace_drops_last_character() {
    let mut app = App::new("file.md", vec![], vec![]);
    app.on_input_key(InputKey::Char('a'));
    app.on_input_key(InputKey::Char('b'));
    app.on_input_key(InputKey::Backspace);
    assert_eq!(app.input, "a".to_string());
    app.on_input_key(InputKey::Backspace);
    app.on_input_key(InputKey::Backspace);
    assert_eq!(app.input, "".to_string());
}

#[test]
fn quit_key_ends_loop() {
    let mut app = App::new("file.md", vec![], vec![]);
    assert!(app.on_input_key(InputKey::Quit));
    assert!(!app.on_input_key(InputKey::Other));
}
