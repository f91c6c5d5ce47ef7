use corg::events::{Alignment, Event, Tag};
use corg::shell::{push_shell, ShellWriter};

fn transpile(events: &Vec<Event>) -> String {
    let mut out = String::new();
    push_shell(&mut out, events);
    out
}

fn h2_doc() -> Vec<Event> {
    vec![
        Event::Start(Tag::Header(2)),
        Event::Text("A".to_string()),
        Event::End(Tag::Header(2)),
        Event::Start(Tag::Paragraph),
        Event::Text("hello".to_string()),
        Event::End(Tag::Paragraph),
        Event::Start(Tag::Header(2)),
        Event::Text("B".to_string()),
        Event::End(Tag::Header(2)),
    ]
}

#[test]
fn same_events_twice_give_identical_output() {
    let events = h2_doc();
    let first = transpile(&events);
    let second = transpile(&events);
    assert_eq!(first, second);
}

#[test]
fn empty_document_emits_close_and_trailer_only() {
    let events: Vec<Event> = vec![];
    assert_eq!(transpile(&events), "\n}\n\n# - run doc: \n");
}

#[test]
fn consecutive_level_two_headings_close_between() {
    let out = transpile(&h2_doc());
    assert_eq!(
        out,
        "\n# - begin function:\nfunction a {\n\n# - paragraph:\ncorg_debug \"hello\"\n\n\
         }\n# - end function\n\n# - begin function:\nfunction b {\n\
         \n}\n\n# - run doc: \na\nb"
    );
}

#[test]
fn level_two_after_subsection_does_not_close() {
    let events = vec![
        Event::Start(Tag::Header(2)),
        Event::Text("A".to_string()),
        Event::End(Tag::Header(2)),
        Event::Start(Tag::Header(3)),
        Event::Text("sub".to_string()),
        Event::End(Tag::Header(3)),
        Event::Start(Tag::Header(2)),
        Event::Text("B".to_string()),
        Event::End(Tag::Header(2)),
    ];
    let out = transpile(&events);
    assert!(!out.contains("# - end function"));
    assert_eq!(
        out,
        "\n# - begin function:\nfunction a {\n\n# - start section:\n\
         \n# - begin function:\nfunction b {\n\n}\n\n# - run doc: \na\nb"
    );
}

#[test]
fn function_count_matches_level_two_headings() {
    let events = h2_doc();
    let mut writer = ShellWriter::new();
    writer.run(&events);
    assert_eq!(writer.corg_state.function_names, vec!["a".to_string(), "b".to_string()]);
    let out: String = writer.output.iter().collect();
    assert_eq!(out.matches("\n# - begin function:\n").count(), 2);
}

#[test]
fn duplicate_heading_names_are_both_recorded() {
    let events = vec![
        Event::Start(Tag::Header(2)),
        Event::Text("A".to_string()),
        Event::End(Tag::Header(2)),
        Event::Start(Tag::Header(2)),
        Event::Text("A".to_string()),
        Event::End(Tag::Header(2)),
    ];
    let mut writer = ShellWriter::new();
    writer.run(&events);
    assert_eq!(writer.corg_state.function_names, vec!["a".to_string(), "a".to_string()]);
    let out: String = writer.output.iter().collect();
    assert!(out.ends_with("\n# - run doc: \na\na"));
}

#[test]
fn level_one_heading_announces_and_records_nothing() {
    let events = vec![
        Event::Start(Tag::Header(1)),
        Event::Text("Title".to_string()),
        Event::End(Tag::Header(1)),
        Event::Start(Tag::Paragraph),
        Event::Text("hello".to_string()),
        Event::End(Tag::Paragraph),
    ];
    let mut writer = ShellWriter::new();
    writer.run(&events);
    assert!(writer.corg_state.function_names.is_empty());
    let out: String = writer.output.iter().collect();
    assert_eq!(
        out,
        "corg_announce \"Running Document: Title\"\n\n\
         \n# - paragraph:\ncorg_debug \"hello\"\n\n\n}\n\n# - run doc: \n"
    );
}

#[test]
fn heredoc_delimiter_is_padded_to_match_terminator() {
    let events = vec![
        Event::Start(Tag::CodeBlock("".to_string())),
        Event::Text("foo\ncat << \"EOF\"\nhello\nEOF\n".to_string()),
        Event::End(Tag::CodeBlock("".to_string())),
    ];
    let out = transpile(&events);
    assert_eq!(
        out,
        "# - begin code:\n\tfoo\n\tcat << \"\tEOF\"\n\thello\n\tEOF\n\n}\n\n# - run doc: \n"
    );
    // The rewritten declaration and the indented terminator line agree
    // character for character.
    assert!(out.contains("cat << \"\tEOF\""));
    assert!(out.contains("\n\tEOF\n"));
}

#[test]
fn single_quoted_heredoc_is_padded_too() {
    let events = vec![
        Event::Start(Tag::CodeBlock("sh".to_string())),
        Event::Text("cat << 'EOF'\nhi\nEOF".to_string()),
        Event::End(Tag::CodeBlock("sh".to_string())),
    ];
    assert_eq!(
        transpile(&events),
        "# - begin code:\n\tcat << '\tEOF'\n\thi\n\tEOF\n}\n\n# - run doc: \n"
    );
}

#[test]
fn code_block_after_text_starts_on_fresh_line() {
    let events = vec![
        Event::Text("x".to_string()),
        Event::Start(Tag::CodeBlock("rust ignore".to_string())),
        Event::Text("y".to_string()),
        Event::End(Tag::CodeBlock("rust ignore".to_string())),
    ];
    assert_eq!(transpile(&events), "x\n# - begin code:\n\ty\n}\n\n# - run doc: \n");
}

#[test]
fn footnote_references_reuse_numbers() {
    let events = vec![
        Event::FootnoteReference("x".to_string()),
        Event::FootnoteReference("y".to_string()),
        Event::FootnoteReference("x".to_string()),
    ];
    assert_eq!(
        transpile(&events),
        "# -- note:\n# x #1# -- note:\n# y #2# -- note:\n# x #1\n}\n\n# - run doc: \n"
    );
}

#[test]
fn footnote_numbers_go_past_nine() {
    let names = ["a", "b", "c", "d", "e", "f", "g", "h", "i", "j"];
    let mut events = Vec::new();
    for name in names.iter() {
        events.push(Event::FootnoteReference(name.to_string()));
    }
    let out = transpile(&events);
    assert!(out.contains("# j #10"));
}

#[test]
fn footnote_definition_assigns_number() {
    let events = vec![
        Event::Start(Tag::FootnoteDefinition("n".to_string())),
        Event::End(Tag::FootnoteDefinition("n".to_string())),
    ];
    assert_eq!(transpile(&events), "# n - 1\n\n}\n\n# - run doc: \n");
}

#[test]
fn rule_after_paragraph_stays_on_line() {
    let rule = "# **************************************************************************** #";
    let events = vec![
        Event::Start(Tag::Paragraph),
        Event::Text("p".to_string()),
        Event::End(Tag::Paragraph),
        Event::Start(Tag::Rule),
    ];
    assert_eq!(
        transpile(&events),
        format!("\n# - paragraph:\ncorg_debug \"p\"\n\n{}\n}}\n\n# - run doc: \n", rule)
    );
}

#[test]
fn rule_mid_line_gains_trailing_newline() {
    let rule = "# **************************************************************************** #";
    let events = vec![Event::Text("x".to_string()), Event::Start(Tag::Rule)];
    assert_eq!(transpile(&events), format!("x{}\n\n}}\n\n# - run doc: \n", rule));
}

#[test]
fn block_quote_emits_info_call() {
    let events = vec![
        Event::Start(Tag::BlockQuote),
        Event::Start(Tag::Paragraph),
        Event::Text("q".to_string()),
        Event::End(Tag::Paragraph),
        Event::End(Tag::BlockQuote),
    ];
    assert_eq!(
        transpile(&events),
        "# block quotecorg_info \n\n# - paragraph:\ncorg_debug \"q\"\n\n\n}\n\n# - run doc: \n"
    );
}

#[test]
fn lists_and_items_emit_markers() {
    let events = vec![
        Event::Start(Tag::List(None)),
        Event::Start(Tag::Item),
        Event::Text("x".to_string()),
        Event::End(Tag::Item),
        Event::End(Tag::List(None)),
    ];
    assert_eq!(transpile(&events), "# List (None)\n# -x\n}\n\n# - run doc: \n");
}

#[test]
fn ordered_list_markers() {
    let events = vec![
        Event::Start(Tag::List(Some(1))),
        Event::End(Tag::List(Some(1))),
        Event::Start(Tag::List(Some(3))),
        Event::End(Tag::List(Some(3))),
    ];
    assert_eq!(transpile(&events), "# List \n#\n}\n\n# - run doc: \n");
}

#[test]
fn leaf_events_pass_through() {
    let events = vec![
        Event::Text("t".to_string()),
        Event::SoftBreak,
        Event::HardBreak,
        Event::Code("c".to_string()),
        Event::Html("<b>".to_string()),
        Event::InlineHtml("<i>".to_string()),
        Event::TaskListMarker(true),
        Event::TaskListMarker(false),
    ];
    assert_eq!(
        transpile(&events),
        "t\n\n\n\n# IS THIS CALLED\nc<b><i>\n}\n\n# - run doc: \n"
    );
}

#[test]
fn tables_keep_cells_without_output() {
    let events = vec![
        Event::Start(Tag::Table(vec![Alignment::Left, Alignment::Unspecified])),
        Event::Start(Tag::TableHead),
        Event::Start(Tag::TableCell),
        Event::Text("h".to_string()),
        Event::End(Tag::TableCell),
        Event::End(Tag::TableHead),
        Event::Start(Tag::TableRow),
        Event::Start(Tag::TableCell),
        Event::Text("b".to_string()),
        Event::End(Tag::TableCell),
        Event::End(Tag::TableRow),
        Event::End(Tag::Table(vec![Alignment::Left, Alignment::Unspecified])),
    ];
    assert_eq!(transpile(&events), "hb\n}\n\n# - run doc: \n");
}
