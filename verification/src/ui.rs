//! The data behind the terminal browser: hosts, documents, and the
//! application state with its key handling. Drawing and raw-terminal I/O
//! live outside the library.

use crate::chars::{str_to_chars, string_from_chars};
use vstd::prelude::*;

verus! {

/// A host a script can be sent to.
#[derive(Debug)]
pub struct Host<'a> {
    pub name: &'a str,
    pub fqdn: &'a str,
    pub scheme: &'a str,
}

/// A document entry of the browser.
#[derive(Debug)]
pub struct Document<'a> {
    pub file_name: &'a str,
    pub modified_at: &'a str,
    pub sha: &'a str,
}

impl<'a> Document<'a> {
    pub fn new(file_name: &'a str, modified_at: &'a str, sha: &'a str) -> (r: Document<'a>)
        ensures
            r.file_name@ == file_name@,
            r.modified_at@ == modified_at@,
            r.sha@ == sha@,
    {
        Self { file_name, modified_at, sha }
    }
}

/// A selectable list.
#[derive(Debug)]
pub struct ListState<I> {
    pub items: Vec<I>,
    pub selected: usize,
}

/// One key event of the interactive loop, reduced to what the decisions
/// need; the terminal backend's events are mapped onto these.
#[derive(Debug, Clone, Copy, PartialEq, Eq)]
pub enum InputKey {
    Quit,
    Submit,
    Char(char),
    Backspace,
    Other,
}

/// The application state of the browser.
#[derive(Debug)]
pub struct App<'a> {
    pub title: &'a str,
    pub should_quit: bool,
    pub documents: Vec<Document<'a>>,
    pub servers: Vec<Host<'a>>,
    pub commands: Vec<String>,
    pub input: String,
}

impl<'a> App<'a> {
    /// The demo state: four hosts and four documents under a fixed title.
    pub fn demo() -> (r: App<'a>)
        ensures
            r.title@ == "file.md"@,
            r.should_quit == false,
            r.documents@.len() == 4,
            r.documents@[0].file_name@ == "faye.md"@,
            r.documents@[1].file_name@ == "janet.md"@,
            r.documents@[2].file_name@ == "microwave.md"@,
            r.documents@[3].file_name@ == "nginx.md"@,
            r.servers@.len() == 4,
            r.servers@[0].name@ == "faye"@,
            r.servers@[1].name@ == "microwave"@,
            r.servers@[2].name@ == "janet"@,
            r.servers@[3].name@ == "pdns"@,
            r.commands@ == Seq::<String>::empty(),
            r.input@ == Seq::<char>::empty(),
    {
        let mut servers: Vec<Host<'a>> = Vec::new();
        servers.push(Host { name: "faye", fqdn: "faye.futuregadgetlab.dev", scheme: "key" });
        servers.push(
            Host { name: "microwave", fqdn: "microwave.futuregadgetlab.dev", scheme: "key" },
        );
        servers.push(Host { name: "janet", fqdn: "janet.futuregadgetlab.dev", scheme: "key" });
        servers.push(Host { name: "pdns", fqdn: "pdns.futuregadgetlab.dev", scheme: "key" });

        let mut documents: Vec<Document<'a>> = Vec::new();
        documents.push(Document::new("faye.md", "2019-08-28T19:04:07.450466Z", "abc"));
        documents.push(Document::new("janet.md", "2019-08-16T12:02:07.321466Z", "abc"));
        documents.push(Document::new("microwave.md", "2019-08-14T17:33:24.101466Z", "abc"));
        documents.push(Document::new("nginx.md", "2019-08-14T17:33:24.101466Z", "abc"));

        Self::new("file.md", documents, servers)
    }

    pub fn new(title: &'a str, documents: Vec<Document<'a>>, servers: Vec<Host<'a>>) -> (r: App<
        'a,
    >)
        ensures
            r.title@ == title@,
            r.should_quit == false,
            r.documents == documents,
            r.servers == servers,
            r.commands@ == Seq::<String>::empty(),
            r.input@ == Seq::<char>::empty(),
    {
        Self {
            title,
            should_quit: false,
            documents,
            servers,
            commands: Vec::new(),
            input: String::new(),
        }
    }

    /// Records a key press: a lowercase q asks the application to quit, any
    /// other key changes nothing.
    pub fn on_key(&mut self, key: char)
        ensures
            final(self).should_quit == (key == 'q' || old(self).should_quit),
            final(self).title == old(self).title,
            final(self).documents == old(self).documents,
            final(self).servers == old(self).servers,
            final(self).commands == old(self).commands,
            final(self).input == old(self).input,
    {
        match key {
            'q' => self.should_quit = true,
            _ => (),
        }
    }

    /// Applies one key of the interactive loop: submit moves the typed line
    /// into the command list, a character extends the line, backspace drops
    /// its last character. Returns whether the loop must end.
    pub fn on_input_key(&mut self, key: InputKey) -> (quit: bool)
        ensures
            quit == (key is Quit),
            final(self).title == old(self).title,
            final(self).should_quit == old(self).should_quit,
            final(self).documents == old(self).documents,
            final(self).servers == old(self).servers,
            key matches InputKey::Submit ==> {
                &&& final(self).commands.deep_view() == old(self).commands.deep_view().push(old(self).input@)
                &&& final(self).input@ == Seq::<char>::empty()
            },
            key matches InputKey::Char(c) ==> {
                &&& final(self).input@ == old(self).input@ + seq![c]
                &&& final(self).commands == old(self).commands
            },
            key matches InputKey::Backspace ==> {
                &&& final(self).input@ == (if old(self).input@.len() > 0 {
                    old(self).input@.drop_last()
                } else {
                    old(self).input@
                })
                &&& final(self).commands == old(self).commands
            },
            key matches InputKey::Quit ==> {
                &&& final(self).commands == old(self).commands
                &&& final(self).input == old(self).input
            },
            key matches InputKey::Other ==> {
                &&& final(self).commands == old(self).commands
                &&& final(self).input == old(self).input
            },
    {
        match key {
            InputKey::Quit => true,
            InputKey::Submit => {
                let line = self.input.clone();
                self.input = String::new();
                self.commands.push(line);
                proof {
                    assert(self.commands.deep_view() =~~= old(self).commands.deep_view().push(
                        old(self).input@,
                    ));
                }
                false
            },
            InputKey::Char(c) => {
                let mut cs = str_to_chars(self.input.as_str());
                cs.push(c);
                self.input = string_from_chars(&cs);
                false
            },
            InputKey::Backspace => {
                let mut cs = str_to_chars(self.input.as_str());
                if cs.len() > 0 {
                    cs.pop();
                    proof {
                        assert(cs@ =~= old(self).input@.drop_last());
                    }
                }
                self.input = string_from_chars(&cs);
                false
            },
            InputKey::Other => false,
        }
    }
}

} // verus!
