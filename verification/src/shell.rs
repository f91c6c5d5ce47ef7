//! The document-to-script transpiler: a single pass over a sequence of
//! structural events that emits shell-script text. Level-2 headings open
//! shell functions, consecutive level-2 headings close the previous one,
//! code blocks are re-indented with a heredoc-delimiter rewrite, and a
//! trailer invokes every recorded function name in document order.
//!
//! The whole pass is specified by `step`, `run_st`, `run_out` and
//! `transpile_output`: the output is an exact character-level function of the
//! event sequence.

use crate::chars::{
    contains_chars, dec_chars, dec_rep, extend_vec, first_token, first_token_chars, indent_code,
    indent_line, join_nl, lemma_join_nl_push, lemma_split_lines_len, lower_of, lowercase,
    replace_all_chars, split_lines, split_lines_vec, str_to_chars, string_from_chars,
};
use crate::events::{Alignment, Event, EventS, Tag, TagS};
use vstd::prelude::*;
use vstd::string::{StrSliceExecFns, StringExecFns};

verus! {

/// Whether the current table section is the header or the body.
#[derive(Debug, PartialEq)]
pub enum TableState {
    Head,
    Body,
}

/// The function identifier derived from a heading text: its lowercase
/// equivalent with each space replaced by a hyphen. No other character is
/// sanitized.
pub open spec fn slug_of(text: Seq<char>) -> Seq<char> {
    lower_of(text).map_values(|c: char| if c == ' ' { '-' } else { c })
}

/// Spec-level mirror of `CorgHeader`.
#[verifier::ext_equal]
pub struct HeaderS {
    pub level: i32,
    pub close_before_start: bool,
    pub text: Option<Seq<char>>,
}

/// The slug of a header: derived from its text, empty while no text is known.
pub open spec fn header_slug(h: HeaderS) -> Seq<char> {
    match h.text {
        Some(t) => slug_of(t),
        None => Seq::<char>::empty(),
    }
}

/// A new header at `level` closes the previous scope exactly when both it and
/// the previous header are level 2. A level-2 heading after a deeper
/// subsection does not close the enclosing function: only consecutive level-2
/// headings force a close.
pub open spec fn spec_new_header(level: i32, prev: Option<HeaderS>) -> HeaderS {
    HeaderS {
        level,
        close_before_start: match prev {
            Some(p) => level == 2 && p.level == 2,
            None => false,
        },
        text: None,
    }
}

/// The text a header emits when it starts: the close of the previous function
/// if one is owed, then level-specific opening text.
pub open spec fn header_start_out(h: HeaderS) -> Seq<char> {
    (if h.close_before_start {
        "}\n# - end function\n"@
    } else {
        Seq::<char>::empty()
    }) + (if h.level == 1 {
        "corg_announce \"Running Document: "@
    } else if h.level == 2 {
        "\n# - begin function:\n"@
    } else {
        "\n# - start section:\n"@
    })
}

/// The text a header emits for its text leaf: level 1 closes the announce
/// statement, level 2 opens the shell function under the derived slug, other
/// levels emit nothing.
pub open spec fn header_write_out(level: i32, text: Seq<char>) -> Seq<char> {
    if level == 1 {
        text + "\"\n\n"@
    } else if level == 2 {
        "function "@ + slug_of(text) + " {\n"@
    } else {
        Seq::<char>::empty()
    }
}

/// A document heading: its level, whether it must close the previous function
/// before it starts, and its text once known.
#[derive(Debug, PartialEq)]
pub struct CorgHeader {
    pub level: i32,
    pub close_before_start: bool,
    pub text: Option<String>,
}

impl View for CorgHeader {
    type V = HeaderS;

    open spec fn view(&self) -> HeaderS {
        HeaderS {
            level: self.level,
            close_before_start: self.close_before_start,
            text: match self.text {
                Some(t) => Some(t@),
                None => None,
            },
        }
    }
}

impl DeepView for CorgHeader {
    type V = HeaderS;

    open spec fn deep_view(&self) -> HeaderS {
        self.view()
    }
}

impl Clone for CorgHeader {
    fn clone(&self) -> (r: Self)
        ensures
            r@ == self@,
    {
        CorgHeader {
            level: self.level,
            close_before_start: self.close_before_start,
            text: match &self.text {
                Some(t) => Some(t.clone()),
                None => None,
            },
        }
    }
}

impl CorgHeader {
    /// Builds a heading, deciding from the previous heading whether the
    /// previous function must be closed first (see `spec_new_header`).
    pub fn new(level: i32, previous_header: Option<CorgHeader>) -> (r: CorgHeader)
        ensures
            r@ == spec_new_header(level, previous_header.deep_view()),
    {
        let close_before_start = match &previous_header {
            Some(prev) => level == 2 && prev.level == 2,
            None => false,
        };
        CorgHeader { level, close_before_start, text: None }
    }

    /// Returns the identifier usable as a shell function name: the heading
    /// text lowercased with spaces replaced by hyphens.
    pub fn function_slug(&self) -> (r: String)
        ensures
            r@ == header_slug(self@),
    {
        match &self.text {
            Some(text) => {
                let lower = lowercase(text.as_str());
                let cs = str_to_chars(lower.as_str());
                let mut out: Vec<char> = Vec::new();
                let n = cs.len();
                let mut i: usize = 0;
                while i < n
                    invariant
                        i <= n,
                        n == cs@.len(),
                        out@.len() == i,
                        forall|k: int|
                            0 <= k < i ==> out@[k] == (if cs@[k] == ' ' {
                                '-'
                            } else {
                                cs@[k]
                            }),
                    decreases n - i,
                {
                    let c = cs[i];
                    if c == ' ' {
                        out.push('-');
                    } else {
                        out.push(c);
                    }
                    i = i + 1;
                }
                proof {
                    assert(out@ =~= cs@.map_values(|c: char| if c == ' ' { '-' } else { c }));
                }
                string_from_chars(&out)
            },
            None => String::new(),
        }
    }

    pub fn update_text(&mut self, text: Option<String>)
        ensures
            final(self).level == old(self).level,
            final(self).close_before_start == old(self).close_before_start,
            final(self)@.text == (match text {
                Some(t) => Some(t@),
                None => None::<Seq<char>>,
            }),
    {
        self.text = text
    }

    /// Returns the text for the start of this header, including the close of
    /// the previous function where one is owed.
    pub fn start_tag(&self) -> (r: String)
        ensures
            r@ == header_start_out(self@),
    {
        let mut output = String::new();
        if self.close_before_start {
            output.append("}\n# - end function\n");
        }
        match self.level {
            1 => output.append("corg_announce \"Running Document: "),
            2 => output.append("\n# - begin function:\n"),
            _ => output.append("\n# - start section:\n"),
        }
        proof {
            assert(output@ =~= header_start_out(self@));
        }
        output
    }

    /// Returns the body of a header for its text leaf, depending on level
    /// (see `header_write_out`).
    pub fn write_tag(&self, text: String) -> (r: String)
        ensures
            r@ == header_write_out(self@.level, text@),
    {
        let header = CorgHeader {
            level: self.level,
            close_before_start: self.close_before_start,
            text: Some(text.clone()),
        };
        match header.level {
            1 => {
                let mut out = text.clone();
                out.append("\"\n\n");
                out
            },
            2 => {
                let mut out = String::from_str("function ");
                let slug = header.function_slug();
                out.append(slug.as_str());
                out.append(" {\n");
                proof {
                    assert(out@ =~= header_write_out(self@.level, text@));
                }
                out
            },
            _ => String::new(),
        }
    }

    pub fn end_tag(&self) -> (r: String)
        ensures
            r@ == Seq::<char>::empty(),
    {
        String::new()
    }
}

/// The line-oriented code transform: each non-empty line gains one leading
/// tab, and a quoted heredoc delimiter gains the same tab inside its quotes
/// so the declaration still matches the indented terminator line exactly.
#[derive(Debug, PartialEq)]
pub struct CorgCode;

impl CorgCode {
    pub fn start_tag(&self) -> (r: String)
        ensures
            r@ == Seq::<char>::empty(),
    {
        String::new()
    }

    /// Indents the code text (see `indent_code`).
    pub fn write_tag(&self, text: String) -> (r: String)
        ensures
            r@ == indent_code(text@),
    {
        indent_code_exec(text.as_str())
    }

    pub fn end_tag(&self) -> (r: String)
        ensures
            r@ == Seq::<char>::empty(),
    {
        String::new()
    }
}

/// Re-indents code-block text: one tab before each non-empty line, the
/// heredoc rewrite on each line, lines re-joined with line feeds and no
/// trailing line feed.
fn indent_code_exec(text: &str) -> (r: String)
    ensures
        r@ == indent_code(text@),
{
    let chars = str_to_chars(text);
    let lines = split_lines_vec(&chars);
    let dq_pat = str_to_chars("<< \"EOF\"");
    let dq_rep = str_to_chars("<< \"\tEOF\"");
    let sq_pat = str_to_chars("<< 'EOF'");
    let sq_rep = str_to_chars("<< '\tEOF'");
    proof {
        reveal_strlit("<< \"EOF\"");
        reveal_strlit("<< 'EOF'");
    }
    let ghost mapped = split_lines(text@).map_values(|l: Seq<char>| indent_line(l));
    let mut out: Vec<char> = Vec::new();
    let n = lines.len();
    let mut k: usize = 0;
    while k < n
        invariant
            n == lines@.len(),
            lines.deep_view() == split_lines(text@),
            mapped == split_lines(text@).map_values(|l: Seq<char>| indent_line(l)),
            n == mapped.len(),
            dq_pat@ == "<< \"EOF\""@,
            dq_rep@ == "<< \"\tEOF\""@,
            sq_pat@ == "<< 'EOF'"@,
            sq_rep@ == "<< '\tEOF'"@,
            dq_pat@.len() >= 1,
            sq_pat@.len() >= 1,
            k <= n,
            out@ == join_nl(mapped.take(k as int)) + (if 0 < k < n {
                seq!['\n']
            } else {
                Seq::<char>::empty()
            }),
        decreases n - k,
    {
        let line = &lines[k];
        proof {
            assert(line@ =~= lines.deep_view()[k as int]);
        }
        let ghost pre = out@;
        if line.len() > 0 {
            out.push('\t');
        }
        if contains_chars(line, &dq_pat) {
            let rewritten = replace_all_chars(line, &dq_pat, &dq_rep);
            extend_vec(&mut out, &rewritten);
        } else if contains_chars(line, &sq_pat) {
            let rewritten = replace_all_chars(line, &sq_pat, &sq_rep);
            extend_vec(&mut out, &rewritten);
        } else {
            extend_vec(&mut out, line);
        }
        proof {
            assert(out@ =~= pre + indent_line(line@));
            assert(mapped[k as int] == indent_line(split_lines(text@)[k as int]));
            lemma_join_nl_push(mapped.take(k as int), mapped[k as int]);
            assert(mapped.take(k + 1) =~= mapped.take(k as int).push(mapped[k as int]));
        }
        if k + 1 < n {
            out.push('\n');
        }
        k = k + 1;
        assert(out@ =~= join_nl(mapped.take(k as int)) + (if 0 < k < n {
            seq!['\n']
        } else {
            Seq::<char>::empty()
        }));
    }
    proof {
        lemma_split_lines_len(text@);
        assert(mapped.take(n as int) =~= mapped);
        assert(out@ =~= indent_code(text@));
    }
    string_from_chars(&out)
}

/// A fenced code block; the info string's first token is retained as the
/// language hint but does not alter rendering.
#[derive(Debug, PartialEq)]
pub struct CorgCodeBlock {
    pub lang: String,
}

impl CorgCodeBlock {
    pub fn start_tag(&self) -> (r: String)
        ensures
            r@ == "# - begin code:\n"@,
    {
        String::from_str("# - begin code:\n")
    }

    /// Delegates to the code transform.
    pub fn write_tag(&self, text: String) -> (r: String)
        ensures
            r@ == indent_code(text@),
    {
        let corg_code = CorgCode {};
        corg_code.write_tag(text)
    }

    pub fn end_tag(&self) -> (r: String)
        ensures
            r@ == Seq::<char>::empty(),
    {
        String::new()
    }
}

/// A paragraph rendered as a logging call on its text.
#[derive(Debug, PartialEq)]
pub struct CorgParagraph;

impl CorgParagraph {
    pub fn start_tag(&self) -> (r: String)
        ensures
            r@ == "\n# - paragraph:\ncorg_debug \""@,
    {
        String::from_str("\n# - paragraph:\ncorg_debug \"")
    }

    pub fn write_tag(&self, text: String) -> (r: String)
        ensures
            r@ == text@,
    {
        text
    }

    pub fn end_tag(&self) -> (r: String)
        ensures
            r@ == "\"\n\n"@,
    {
        String::from_str("\"\n\n")
    }
}

/// Spec-level mirror of `CorgTag`.
#[verifier::ext_equal]
pub enum TagKindS {
    Header(HeaderS),
    CodeBlock(Seq<char>),
    Paragraph,
}

/// The active renderer: a closed union over the tag kinds that render text.
#[derive(Debug, PartialEq)]
pub enum CorgTag {
    Header(CorgHeader),
    CodeBlock(CorgCodeBlock),
    Paragraph(CorgParagraph),
}

impl View for CorgTag {
    type V = TagKindS;

    open spec fn view(&self) -> TagKindS {
        match self {
            CorgTag::Header(h) => TagKindS::Header(h@),
            CorgTag::CodeBlock(cb) => TagKindS::CodeBlock(cb.lang@),
            CorgTag::Paragraph(_) => TagKindS::Paragraph,
        }
    }
}

/// What a renderer emits when it starts.
pub open spec fn tag_start_out(t: TagKindS) -> Seq<char> {
    match t {
        TagKindS::Header(h) => header_start_out(h),
        TagKindS::CodeBlock(_) => "# - begin code:\n"@,
        TagKindS::Paragraph => "\n# - paragraph:\ncorg_debug \""@,
    }
}

/// What a renderer emits for a text leaf.
pub open spec fn tag_write_out(t: TagKindS, text: Seq<char>) -> Seq<char> {
    match t {
        TagKindS::Header(h) => header_write_out(h.level, text),
        TagKindS::CodeBlock(_) => indent_code(text),
        TagKindS::Paragraph => text,
    }
}

/// What a renderer, if any, emits for a text leaf; without one the text
/// passes through unchanged.
pub open spec fn opt_tag_write_out(t: Option<TagKindS>, text: Seq<char>) -> Seq<char> {
    match t {
        Some(tag) => tag_write_out(tag, text),
        None => text,
    }
}

/// What a renderer emits when it ends.
pub open spec fn tag_end_out(t: Option<TagKindS>) -> Seq<char> {
    match t {
        Some(TagKindS::Paragraph) => "\"\n\n"@,
        _ => Seq::<char>::empty(),
    }
}

impl CorgTag {
    pub fn start_tag(&self) -> (r: String)
        ensures
            r@ == tag_start_out(self@),
    {
        match self {
            CorgTag::Header(h) => h.start_tag(),
            CorgTag::CodeBlock(cb) => cb.start_tag(),
            CorgTag::Paragraph(p) => p.start_tag(),
        }
    }

    pub fn write_tag(&self, text: String) -> (r: String)
        ensures
            r@ == tag_write_out(self@, text@),
    {
        match self {
            CorgTag::Header(h) => h.write_tag(text),
            CorgTag::CodeBlock(cb) => cb.write_tag(text),
            CorgTag::Paragraph(p) => p.write_tag(text),
        }
    }

    pub fn end_tag(&self) -> (r: String)
        ensures
            r@ == tag_end_out(Some(self@)),
    {
        match self {
            CorgTag::Header(h) => h.end_tag(),
            CorgTag::CodeBlock(cb) => cb.end_tag(),
            CorgTag::Paragraph(p) => p.end_tag(),
        }
    }
}

/// Spec-level mirror of the meaningful state of `CorgStateManager`.
#[verifier::ext_equal]
pub struct CsmS {
    pub current_function_name: Option<Seq<char>>,
    pub function_names: Seq<Seq<char>>,
    pub corg_tag: Option<TagKindS>,
    pub header: Option<HeaderS>,
}

/// Whether the next text leaf names the pending level-2 function.
pub open spec fn spec_needs_push(m: CsmS) -> bool {
    &&& m.current_function_name is None
    &&& (m.header matches Some(h) && h.level == 2)
}

/// Recording a function name: the pending header receives its text, and the
/// derived slug becomes the current function name and joins the recorded
/// names. Without a pending header nothing changes.
pub open spec fn spec_push_function_name(m: CsmS, text: Seq<char>) -> CsmS {
    match m.header {
        None => m,
        Some(h) => {
            let h2 = HeaderS { level: h.level, close_before_start: h.close_before_start, text: Some(text) };
            CsmS {
                current_function_name: Some(header_slug(h2)),
                function_names: m.function_names.push(header_slug(h2)),
                corg_tag: m.corg_tag,
                header: Some(h2),
            }
        },
    }
}

/// Starting a heading: the new header (which consumes the previous one to
/// decide the closing) becomes both the current header and the active
/// renderer, and the current function name is cleared.
pub open spec fn spec_update_header(m: CsmS, level: i32) -> CsmS {
    let h = spec_new_header(level, m.header);
    CsmS {
        current_function_name: None,
        function_names: m.function_names,
        corg_tag: Some(TagKindS::Header(h)),
        header: Some(h),
    }
}

/// The single mutable context threaded through one transpile pass.
#[derive(Debug, PartialEq)]
pub struct CorgStateManager {
    pub current_function_name: Option<String>,
    pub current_heading_level: Option<i32>,
    pub inside_codeblock: bool,
    pub current_indentation: String,
    pub function_names: Vec<String>,
    pub corg_tag: Option<CorgTag>,
    pub header: Option<CorgHeader>,
    pub headers: Vec<CorgHeader>,
}

impl View for CorgStateManager {
    type V = CsmS;

    open spec fn view(&self) -> CsmS {
        CsmS {
            current_function_name: match self.current_function_name {
                Some(s) => Some(s@),
                None => None,
            },
            function_names: self.function_names.deep_view(),
            corg_tag: match self.corg_tag {
                Some(t) => Some(t@),
                None => None,
            },
            header: match self.header {
                Some(h) => Some(h@),
                None => None,
            },
        }
    }
}

impl CorgStateManager {
    /// Returns a new empty instance.
    pub fn new() -> (r: CorgStateManager)
        ensures
            r@.current_function_name is None,
            r@.function_names == Seq::<Seq<char>>::empty(),
            r@.corg_tag is None,
            r@.header is None,
            r.current_heading_level is None,
            r.inside_codeblock == false,
            r.current_indentation@ == Seq::<char>::empty(),
            r.headers@ == Seq::<CorgHeader>::empty(),
    {
        let r = CorgStateManager {
            current_function_name: None,
            current_heading_level: None,
            inside_codeblock: false,
            current_indentation: String::new(),
            function_names: Vec::new(),
            corg_tag: None,
            header: None,
            headers: Vec::new(),
        };
        proof {
            assert(r@.function_names =~~= Seq::<Seq<char>>::empty());
        }
        r
    }

    /// Records the function name derived from `function_name` against the
    /// current header, if any (see `spec_push_function_name`).
    pub fn push_function_name(&mut self, function_name: String)
        ensures
            final(self)@ == spec_push_function_name(old(self)@, function_name@),
            final(self).current_heading_level == old(self).current_heading_level,
            final(self).inside_codeblock == old(self).inside_codeblock,
            final(self).current_indentation == old(self).current_indentation,
            final(self).headers == old(self).headers,
    {
        let maybe_header = match &self.header {
            Some(h) => Some(h.clone()),
            None => None,
        };
        match maybe_header {
            Some(mut header) => {
                header.update_text(Some(function_name));
                self.current_function_name = Some(header.function_slug());
                self.function_names.push(header.function_slug());
                self.header = Some(header);
                proof {
                    assert(self@ =~~= spec_push_function_name(old(self)@, function_name@));
                }
            },
            None => {
                proof {
                    assert(self@ =~~= spec_push_function_name(old(self)@, function_name@));
                }
            },
        }
    }

    /// Makes `new_tag` the active renderer, replacing any previous one.
    pub fn update_tag(&mut self, new_tag: CorgTag)
        ensures
            final(self)@.corg_tag == Some(new_tag@),
            final(self)@.current_function_name == old(self)@.current_function_name,
            final(self)@.function_names == old(self)@.function_names,
            final(self)@.header == old(self)@.header,
            final(self).current_heading_level == old(self).current_heading_level,
            final(self).inside_codeblock == old(self).inside_codeblock,
            final(self).current_indentation == old(self).current_indentation,
            final(self).headers == old(self).headers,
    {
        self.corg_tag = Some(new_tag);
    }

    /// Starts a new heading at `level` (see `spec_update_header`).
    pub fn update_header(&mut self, level: i32)
        ensures
            final(self)@ == spec_update_header(old(self)@, level),
            final(self).current_heading_level == old(self).current_heading_level,
            final(self).inside_codeblock == old(self).inside_codeblock,
            final(self).current_indentation == old(self).current_indentation,
            final(self).headers == old(self).headers,
    {
        let previous_header = match &self.header {
            Some(h) => Some(h.clone()),
            None => None,
        };
        let corg_header = CorgHeader::new(level, previous_header);
        self.current_function_name = None;
        self.header = Some(corg_header.clone());
        self.update_tag(CorgTag::Header(corg_header));
        proof {
            assert(self@ =~~= spec_update_header(old(self)@, level));
        }
    }

    /// Whether the next text leaf must be recorded as a function name: a
    /// level-2 header is current and no name has been derived for it yet.
    pub fn needs_to_push_function_name(&self) -> (r: bool)
        ensures
            r == spec_needs_push(self@),
    {
        match (&self.header, &self.current_function_name) {
            (Some(header), None) => header.level == 2,
            _ => false,
        }
    }
}


/// Spec-level state of one transpile pass.
#[verifier::ext_equal]
pub struct StS {
    pub current_function_name: Option<Seq<char>>,
    pub function_names: Seq<Seq<char>>,
    pub corg_tag: Option<TagKindS>,
    pub header: Option<HeaderS>,
    pub end_newline: bool,
    pub table_head: bool,
    pub table_alignments: Seq<Alignment>,
    pub table_cell_index: nat,
    pub numbers: Seq<Seq<char>>,
}

/// How the "last byte written was a line feed" flag evolves over one written
/// piece: an empty piece leaves it, otherwise it holds exactly when the piece
/// ends with a line feed.
pub open spec fn upd_nl(nl: bool, s: Seq<char>) -> bool {
    if s.len() == 0 {
        nl
    } else {
        s.last() == '\n'
    }
}

/// The first index at which `name` occurs among `names` (meaningful when it
/// occurs).
pub open spec fn first_idx(names: Seq<Seq<char>>, name: Seq<char>) -> int
    decreases names.len(),
{
    if names.len() == 0 {
        0
    } else if names[0] == name {
        0
    } else {
        1 + first_idx(names.skip(1), name)
    }
}

/// The number assigned to footnote `name`: its first-seen position plus one;
/// a new name gets one past the count of names seen so far. Numbers are never
/// reused across names and stay stable for the whole pass.
pub open spec fn footnote_number_of(numbers: Seq<Seq<char>>, name: Seq<char>) -> nat {
    if numbers.contains(name) {
        (first_idx(numbers, name) + 1) as nat
    } else {
        numbers.len() + 1
    }
}

/// The recorded footnote names after meeting `name`: unchanged when already
/// known, else appended.
pub open spec fn footnote_insert(numbers: Seq<Seq<char>>, name: Seq<char>) -> Seq<Seq<char>> {
    if numbers.contains(name) {
        numbers
    } else {
        numbers.push(name)
    }
}

/// `spec_needs_push` over the pass state.
pub open spec fn spec_needs_push_st(st: StS) -> bool {
    &&& st.current_function_name is None
    &&& (st.header matches Some(h) && h.level == 2)
}

/// `spec_push_function_name` over the pass state.
pub open spec fn push_name_st(st: StS, text: Seq<char>) -> StS {
    match st.header {
        None => st,
        Some(h) => {
            let h2 = HeaderS {
                level: h.level,
                close_before_start: h.close_before_start,
                text: Some(text),
            };
            StS {
                current_function_name: Some(header_slug(h2)),
                function_names: st.function_names.push(header_slug(h2)),
                header: Some(h2),
                ..st
            }
        },
    }
}

/// One step of the pass: the state change and the emitted text.
#[verifier::ext_equal]
pub struct StepR {
    pub st: StS,
    pub out: Seq<char>,
}

/// The step for a scope-start event.
pub open spec fn step_start(st: StS, tag: TagS) -> StepR {
    match tag {
        TagS::Paragraph => {
            let out = "\n# - paragraph:\ncorg_debug \""@;
            StepR {
                st: StS {
                    corg_tag: Some(TagKindS::Paragraph),
                    end_newline: upd_nl(false, out),
                    ..st
                },
                out,
            }
        },
        TagS::Rule => {
            let rule = "# **************************************************************************** #"@;
            if st.end_newline {
                StepR { st: StS { end_newline: upd_nl(st.end_newline, rule), ..st }, out: rule }
            } else {
                StepR {
                    st: StS { end_newline: upd_nl(upd_nl(st.end_newline, rule), "\n"@), ..st },
                    out: rule + "\n"@,
                }
            }
        },
        TagS::Header(level) => {
            let h = spec_new_header(level, st.header);
            let out = header_start_out(h);
            StepR {
                st: StS {
                    current_function_name: None,
                    header: Some(h),
                    corg_tag: Some(TagKindS::Header(h)),
                    end_newline: upd_nl(true, out),
                    ..st
                },
                out,
            }
        },
        TagS::Table(aligns) => StepR {
            st: StS { table_alignments: aligns, ..st },
            out: Seq::<char>::empty(),
        },
        TagS::TableHead => StepR {
            st: StS { table_head: true, table_cell_index: 0, ..st },
            out: Seq::<char>::empty(),
        },
        TagS::TableRow => StepR {
            st: StS { table_cell_index: 0, ..st },
            out: Seq::<char>::empty(),
        },
        TagS::TableCell => StepR { st, out: Seq::<char>::empty() },
        TagS::BlockQuote => {
            if st.end_newline {
                let out = "# block quote"@ + "corg_info \n"@;
                StepR {
                    st: StS {
                        end_newline: upd_nl(upd_nl(st.end_newline, "# block quote"@), "corg_info \n"@),
                        ..st
                    },
                    out,
                }
            } else {
                let out = "# block quote"@ + "\ncorg_info \n"@;
                StepR {
                    st: StS {
                        end_newline: upd_nl(
                            upd_nl(st.end_newline, "# block quote"@),
                            "\ncorg_info \n"@,
                        ),
                        ..st
                    },
                    out,
                }
            }
        },
        TagS::CodeBlock(info) => {
            let pre = if !st.end_newline {
                "\n"@
            } else {
                Seq::<char>::empty()
            };
            let out = "# - begin code:\n"@;
            StepR {
                st: StS {
                    corg_tag: Some(TagKindS::CodeBlock(first_token(info))),
                    end_newline: upd_nl(true, out),
                    ..st
                },
                out: pre + out,
            }
        },
        TagS::List(maybe_start) => {
            match maybe_start {
                Some(start) => {
                    if start == 1 {
                        let out = if st.end_newline {
                            "# List \n"@
                        } else {
                            "\n# List\n"@
                        };
                        StepR { st: StS { end_newline: upd_nl(st.end_newline, out), ..st }, out }
                    } else {
                        let out = "#"@;
                        StepR { st: StS { end_newline: upd_nl(st.end_newline, out), ..st }, out }
                    }
                },
                None => {
                    let out = if st.end_newline {
                        "# List (None)\n"@
                    } else {
                        "\n# List (None)\n"@
                    };
                    StepR { st: StS { end_newline: upd_nl(st.end_newline, out), ..st }, out }
                },
            }
        },
        TagS::Item => {
            let out = if st.end_newline {
                "# -"@
            } else {
                "\n# -"@
            };
            StepR { st: StS { end_newline: upd_nl(st.end_newline, out), ..st }, out }
        },
        TagS::Emphasis => StepR { st, out: Seq::<char>::empty() },
        TagS::Strong => StepR { st, out: Seq::<char>::empty() },
        TagS::Strikethrough => StepR { st, out: Seq::<char>::empty() },
        TagS::Link(_, _, _) => StepR { st, out: Seq::<char>::empty() },
        TagS::Image(_, _, _) => StepR { st, out: Seq::<char>::empty() },
        TagS::FootnoteDefinition(name) => {
            let pre = if st.end_newline {
                "# "@
            } else {
                "\n# "@
            };
            let num = footnote_number_of(st.numbers, name);
            StepR {
                st: StS {
                    end_newline: upd_nl(
                        upd_nl(upd_nl(upd_nl(st.end_newline, pre), name), " - "@),
                        "\n"@,
                    ),
                    numbers: footnote_insert(st.numbers, name),
                    ..st
                },
                out: pre + name + " - "@ + dec_rep(num) + "\n"@,
            }
        },
        TagS::HtmlBlock => StepR { st, out: Seq::<char>::empty() },
    }
}

/// The step for a scope-end event.
pub open spec fn step_end(st: StS, tag: TagS) -> StepR {
    match tag {
        TagS::Paragraph | TagS::Header(_) | TagS::CodeBlock(_) => {
            let out = tag_end_out(st.corg_tag);
            StepR { st: StS { end_newline: upd_nl(st.end_newline, out), ..st }, out }
        },
        TagS::TableHead => StepR { st: StS { table_head: false, ..st }, out: Seq::<char>::empty() },
        TagS::TableCell => StepR {
            st: StS { table_cell_index: st.table_cell_index + 1, ..st },
            out: Seq::<char>::empty(),
        },
        _ => StepR { st, out: Seq::<char>::empty() },
    }
}

/// One step of the pass over an arbitrary event.
pub open spec fn step(st: StS, ev: EventS) -> StepR {
    match ev {
        EventS::Start(tag) => step_start(st, tag),
        EventS::End(tag) => step_end(st, tag),
        EventS::Text(text) => {
            let out = opt_tag_write_out(st.corg_tag, text);
            let st1 = if spec_needs_push_st(st) {
                push_name_st(st, text)
            } else {
                st
            };
            StepR { st: StS { end_newline: upd_nl(st.end_newline, out), ..st1 }, out }
        },
        EventS::Code(text) => {
            let out = "\n# IS THIS CALLED\n"@ + text;
            StepR {
                st: StS {
                    end_newline: upd_nl(upd_nl(st.end_newline, "\n# IS THIS CALLED\n"@), text),
                    ..st
                },
                out,
            }
        },
        EventS::Html(html) => StepR {
            st: StS { end_newline: upd_nl(st.end_newline, html), ..st },
            out: html,
        },
        EventS::InlineHtml(html) => StepR {
            st: StS { end_newline: upd_nl(st.end_newline, html), ..st },
            out: html,
        },
        EventS::SoftBreak => StepR { st: StS { end_newline: true, ..st }, out: "\n"@ },
        EventS::HardBreak => StepR {
            st: StS { end_newline: upd_nl(st.end_newline, "\n\n"@), ..st },
            out: "\n\n"@,
        },
        EventS::FootnoteReference(name) => {
            let num = footnote_number_of(st.numbers, name);
            StepR {
                st: StS {
                    end_newline: upd_nl(upd_nl(st.end_newline, "# -- note:\n# "@), name),
                    numbers: footnote_insert(st.numbers, name),
                    ..st
                },
                out: "# -- note:\n# "@ + name + " #"@ + dec_rep(num),
            }
        },
        EventS::TaskListMarker(_) => StepR { st, out: Seq::<char>::empty() },
    }
}

/// The state a pass starts in.
pub open spec fn init_st() -> StS {
    StS {
        current_function_name: None,
        function_names: Seq::<Seq<char>>::empty(),
        corg_tag: None,
        header: None,
        end_newline: true,
        table_head: true,
        table_alignments: Seq::<Alignment>::empty(),
        table_cell_index: 0,
        numbers: Seq::<Seq<char>>::empty(),
    }
}

/// The state after consuming `evs`.
pub open spec fn run_st(evs: Seq<EventS>) -> StS
    decreases evs.len(),
{
    if evs.len() == 0 {
        init_st()
    } else {
        step(run_st(evs.drop_last()), evs.last()).st
    }
}

/// The text emitted while consuming `evs`, before the trailer.
pub open spec fn run_out(evs: Seq<EventS>) -> Seq<char>
    decreases evs.len(),
{
    if evs.len() == 0 {
        Seq::<char>::empty()
    } else {
        run_out(evs.drop_last()) + step(run_st(evs.drop_last()), evs.last()).out
    }
}

/// The unconditional function close and the trailer: the label comment
/// followed by the recorded function names joined by line feeds.
pub open spec fn trailer_out(names: Seq<Seq<char>>) -> Seq<char> {
    "\n}\n"@ + "\n# - run doc: \n"@ + join_nl(names)
}

/// The whole output of one pass over `evs`: a function of the event sequence
/// alone.
pub open spec fn transpile_output(evs: Seq<EventS>) -> Seq<char> {
    run_out(evs) + trailer_out(run_st(evs).function_names)
}

proof fn lemma_first_idx_found(names: Seq<Seq<char>>, name: Seq<char>, i: int)
    requires
        0 <= i < names.len(),
        names[i] == name,
        forall|k: int| 0 <= k < i ==> names[k] != name,
    ensures
        names.contains(name),
        first_idx(names, name) == i,
    decreases i,
{
    assert(names[i] == name);
    if i > 0 {
        assert(forall|k: int| 0 <= k < i - 1 ==> names.skip(1)[k] == names[k + 1]);
        lemma_first_idx_found(names.skip(1), name, i - 1);
    }
}

/// The writer that drives one pass: it accumulates the emitted characters and
/// the bookkeeping state.
pub struct ShellWriter {
    /// Characters written so far.
    pub output: Vec<char>,
    /// Whether the last character written was a line feed.
    pub end_newline: bool,
    /// The heading, renderer and function-name bookkeeping.
    pub corg_state: CorgStateManager,
    pub table_state: TableState,
    pub table_alignments: Vec<Alignment>,
    pub table_cell_index: usize,
    /// Footnote names in first-seen order; a name's number is its index here
    /// plus one.
    pub numbers: Vec<String>,
}

impl ShellWriter {
    /// The spec-level state this writer is in.
    pub open spec fn st(&self) -> StS {
        StS {
            current_function_name: self.corg_state@.current_function_name,
            function_names: self.corg_state@.function_names,
            corg_tag: self.corg_state@.corg_tag,
            header: self.corg_state@.header,
            end_newline: self.end_newline,
            table_head: self.table_state is Head,
            table_alignments: self.table_alignments@,
            table_cell_index: self.table_cell_index as nat,
            numbers: self.numbers.deep_view(),
        }
    }

    pub fn new() -> (w: ShellWriter)
        ensures
            w.st() == init_st(),
            w.output@ == Seq::<char>::empty(),
    {
        let w = ShellWriter {
            output: Vec::new(),
            end_newline: true,
            corg_state: CorgStateManager::new(),
            table_state: TableState::Head,
            table_alignments: Vec::new(),
            table_cell_index: 0,
            numbers: Vec::new(),
        };
        proof {
            assert(w.st() =~~= init_st());
        }
        w
    }

    /// Writes a piece and tracks whether it ended with a line feed.
    fn write(&mut self, s: &str)
        ensures
            final(self).output@ == old(self).output@ + s@,
            final(self).end_newline == upd_nl(old(self).end_newline, s@),
            final(self).corg_state == old(self).corg_state,
            final(self).table_state == old(self).table_state,
            final(self).table_alignments == old(self).table_alignments,
            final(self).table_cell_index == old(self).table_cell_index,
            final(self).numbers == old(self).numbers,
    {
        let mut cs = str_to_chars(s);
        self.output.append(&mut cs);
        let n = s.unicode_len();
        if n > 0 {
            self.end_newline = s.get_char(n - 1) == '\n';
        }
    }

    /// Writes a piece without touching the line-feed flag, as the formatted
    /// number writes do.
    fn write_raw_str(&mut self, s: &str)
        ensures
            final(self).output@ == old(self).output@ + s@,
            final(self).end_newline == old(self).end_newline,
            final(self).corg_state == old(self).corg_state,
            final(self).table_state == old(self).table_state,
            final(self).table_alignments == old(self).table_alignments,
            final(self).table_cell_index == old(self).table_cell_index,
            final(self).numbers == old(self).numbers,
    {
        let mut cs = str_to_chars(s);
        self.output.append(&mut cs);
    }

    /// Writes already-computed characters without touching the line-feed
    /// flag.
    fn write_raw_chars(&mut self, piece: &Vec<char>)
        ensures
            final(self).output@ == old(self).output@ + piece@,
            final(self).end_newline == old(self).end_newline,
            final(self).corg_state == old(self).corg_state,
            final(self).table_state == old(self).table_state,
            final(self).table_alignments == old(self).table_alignments,
            final(self).table_cell_index == old(self).table_cell_index,
            final(self).numbers == old(self).numbers,
    {
        extend_vec(&mut self.output, piece);
    }

    /// Writes a line feed.
    fn write_newline(&mut self)
        ensures
            final(self).output@ == old(self).output@ + "\n"@,
            final(self).end_newline == true,
            final(self).corg_state == old(self).corg_state,
            final(self).table_state == old(self).table_state,
            final(self).table_alignments == old(self).table_alignments,
            final(self).table_cell_index == old(self).table_cell_index,
            final(self).numbers == old(self).numbers,
    {
        self.end_newline = true;
        let mut cs = str_to_chars("\n");
        self.output.append(&mut cs);
    }

    /// Looks up or assigns the number of footnote `name`: insert-on-first-use
    /// keeps lookups from ever missing.
    fn footnote_number(&mut self, name: &String) -> (num: usize)
        requires
            old(self).numbers@.len() < usize::MAX,
        ensures
            num as nat == footnote_number_of(old(self).numbers.deep_view(), name@),
            final(self).numbers.deep_view() == footnote_insert(
                old(self).numbers.deep_view(),
                name@,
            ),
            final(self).output == old(self).output,
            final(self).end_newline == old(self).end_newline,
            final(self).corg_state == old(self).corg_state,
            final(self).table_state == old(self).table_state,
            final(self).table_alignments == old(self).table_alignments,
            final(self).table_cell_index == old(self).table_cell_index,
            final(self).numbers@.len() <= old(self).numbers@.len() + 1,
    {
        let n = self.numbers.len();
        let mut i: usize = 0;
        while i < n
            invariant
                i <= n,
                n == self.numbers@.len(),
                self == old(self),
                forall|k: int| 0 <= k < i ==> self.numbers.deep_view()[k] != name@,
            decreases n - i,
        {
            if self.numbers[i] == *name {
                proof {
                    lemma_first_idx_found(self.numbers.deep_view(), name@, i as int);
                }
                return i + 1;
            }
            i = i + 1;
        }
        assert(!self.numbers.deep_view().contains(name@));
        self.numbers.push(name.clone());
        proof {
            assert(self.numbers.deep_view() =~~= footnote_insert(
                old(self).numbers.deep_view(),
                name@,
            ));
        }
        n + 1
    }
}


/// Joins the recorded function names with line feeds.
fn join_function_names(names: &Vec<String>) -> (r: String)
    ensures
        r@ == join_nl(names.deep_view()),
{
    let mut out: Vec<char> = Vec::new();
    let n = names.len();
    let mut k: usize = 0;
    proof {
        assert(names.deep_view().take(0) =~= Seq::<Seq<char>>::empty());
    }
    while k < n
        invariant
            k <= n,
            n == names@.len(),
            out@ == join_nl(names.deep_view().take(k as int)) + (if 0 < k < n {
                seq!['\n']
            } else {
                Seq::<char>::empty()
            }),
        decreases n - k,
    {
        let cs = str_to_chars(names[k].as_str());
        extend_vec(&mut out, &cs);
        proof {
            lemma_join_nl_push(names.deep_view().take(k as int), names.deep_view()[k as int]);
            assert(names.deep_view().take(k + 1) =~= names.deep_view().take(k as int).push(
                names.deep_view()[k as int],
            ));
        }
        if k + 1 < n {
            out.push('\n');
        }
        k = k + 1;
        assert(out@ =~= join_nl(names.deep_view().take(k as int)) + (if 0 < k < n {
            seq!['\n']
        } else {
            Seq::<char>::empty()
        }));
    }
    proof {
        assert(names.deep_view().take(n as int) =~= names.deep_view());
        assert(out@ =~= join_nl(names.deep_view()));
    }
    string_from_chars(&out)
}

impl ShellWriter {
    /// Handles a scope-start event (see `step_start`).
    fn start_tag(&mut self, tag: &Tag)
        requires
            old(self).numbers@.len() < usize::MAX,
        ensures
            final(self).st() == step_start(old(self).st(), tag@).st,
            final(self).output@ == old(self).output@ + step_start(old(self).st(), tag@).out,
            final(self).numbers@.len() <= old(self).numbers@.len() + 1,
            final(self).table_cell_index <= old(self).table_cell_index,
    {
        match tag {
            Tag::Paragraph => {
                self.corg_state.update_tag(CorgTag::Paragraph(CorgParagraph {  }));
                let output = match &self.corg_state.corg_tag {
                    Some(corg_tag) => corg_tag.start_tag(),
                    None => String::new(),
                };
                self.end_newline = false;
                self.write(output.as_str());
                proof {
                    assert(self.st() =~~= step_start(old(self).st(), tag@).st);
                }
            },
            Tag::Rule => {
                let rule_str =
                    "# **************************************************************************** #";
                if self.end_newline {
                    self.write(rule_str);
                } else {
                    self.write(rule_str);
                    self.write("\n");
                }
                proof {
                    assert(self.st() =~~= step_start(old(self).st(), tag@).st);
                    assert(self.output@ =~= old(self).output@ + step_start(
                        old(self).st(),
                        tag@,
                    ).out);
                }
            },
            Tag::Header(level) => {
                self.corg_state.update_header(*level);
                let output = match &self.corg_state.header {
                    Some(header) => header.start_tag(),
                    None => String::new(),
                };
                self.end_newline = true;
                self.write(output.as_str());
                proof {
                    assert(self.st() =~~= step_start(old(self).st(), tag@).st);
                }
            },
            Tag::Table(alignments) => {
                let mut copied: Vec<Alignment> = Vec::new();
                let n = alignments.len();
                let mut i: usize = 0;
                while i < n
                    invariant
                        i <= n,
                        n == alignments@.len(),
                        copied@ == alignments@.take(i as int),
                    decreases n - i,
                {
                    copied.push(alignments[i]);
                    i = i + 1;
                    assert(copied@ =~= alignments@.take(i as int));
                }
                assert(copied@ =~= alignments@);
                self.table_alignments = copied;
                proof {
                    assert(self.st() =~~= step_start(old(self).st(), tag@).st);
                    assert(self.output@ =~= old(self).output@ + step_start(
                        old(self).st(),
                        tag@,
                    ).out);
                }
            },
            Tag::TableHead => {
                self.table_state = TableState::Head;
                self.table_cell_index = 0;
                proof {
                    assert(self.st() =~~= step_start(old(self).st(), tag@).st);
                    assert(self.output@ =~= old(self).output@ + step_start(
                        old(self).st(),
                        tag@,
                    ).out);
                }
            },
            Tag::TableRow => {
                self.table_cell_index = 0;
                proof {
                    assert(self.st() =~~= step_start(old(self).st(), tag@).st);
                    assert(self.output@ =~= old(self).output@ + step_start(
                        old(self).st(),
                        tag@,
                    ).out);
                }
            },
            Tag::TableCell => {
                proof {
                    assert(self.st() =~~= step_start(old(self).st(), tag@).st);
                    assert(self.output@ =~= old(self).output@ + step_start(
                        old(self).st(),
                        tag@,
                    ).out);
                }
            },
            Tag::BlockQuote => {
                if self.end_newline {
                    self.write("# block quote");
                    self.write("corg_info \n");
                } else {
                    self.write("# block quote");
                    self.write("\ncorg_info \n");
                }
                proof {
                    assert(self.st() =~~= step_start(old(self).st(), tag@).st);
                    assert(self.output@ =~= old(self).output@ + step_start(
                        old(self).st(),
                        tag@,
                    ).out);
                }
            },
            Tag::CodeBlock(info) => {
                if !self.end_newline {
                    self.write_newline();
                }
                let info_chars = str_to_chars(info.as_str());
                let lang_chars = first_token_chars(&info_chars);
                let code_lang = string_from_chars(&lang_chars);
                self.corg_state.update_tag(CorgTag::CodeBlock(CorgCodeBlock { lang: code_lang }));
                let output = match &self.corg_state.corg_tag {
                    Some(code_block) => code_block.start_tag(),
                    None => String::new(),
                };
                self.write(output.as_str());
                proof {
                    assert(self.st() =~~= step_start(old(self).st(), tag@).st);
                    assert(self.output@ =~= old(self).output@ + step_start(
                        old(self).st(),
                        tag@,
                    ).out);
                }
            },
            Tag::List(maybe_start) => {
                match maybe_start {
                    Some(start) => {
                        if *start == 1 {
                            if self.end_newline {
                                self.write("# List \n");
                            } else {
                                self.write("\n# List\n");
                            }
                        } else {
                            self.write("#");
                        }
                    },
                    None => {
                        if self.end_newline {
                            self.write("# List (None)\n");
                        } else {
                            self.write("\n# List (None)\n");
                        }
                    },
                }
                proof {
                    assert(self.st() =~~= step_start(old(self).st(), tag@).st);
                }
            },
            Tag::Item => {
                if self.end_newline {
                    self.write("# -");
                } else {
                    self.write("\n# -");
                }
                proof {
                    assert(self.st() =~~= step_start(old(self).st(), tag@).st);
                }
            },
            Tag::Emphasis => {
                proof {
                    assert(self.st() =~~= step_start(old(self).st(), tag@).st);
                    assert(self.output@ =~= old(self).output@ + step_start(
                        old(self).st(),
                        tag@,
                    ).out);
                }
            },
            Tag::Strong => {
                proof {
                    assert(self.st() =~~= step_start(old(self).st(), tag@).st);
                    assert(self.output@ =~= old(self).output@ + step_start(
                        old(self).st(),
                        tag@,
                    ).out);
                }
            },
            Tag::Strikethrough => {
                proof {
                    assert(self.st() =~~= step_start(old(self).st(), tag@).st);
                    assert(self.output@ =~= old(self).output@ + step_start(
                        old(self).st(),
                        tag@,
                    ).out);
                }
            },
            Tag::Link(_, _, _) => {
                proof {
                    assert(self.st() =~~= step_start(old(self).st(), tag@).st);
                    assert(self.output@ =~= old(self).output@ + step_start(
                        old(self).st(),
                        tag@,
                    ).out);
                }
            },
            Tag::Image(_, _, _) => {
                proof {
                    assert(self.st() =~~= step_start(old(self).st(), tag@).st);
                    assert(self.output@ =~= old(self).output@ + step_start(
                        old(self).st(),
                        tag@,
                    ).out);
                }
            },
            Tag::FootnoteDefinition(name) => {
                if self.end_newline {
                    self.write("# ");
                } else {
                    self.write("\n# ");
                }
                self.write(name.as_str());
                self.write(" - ");
                let number = self.footnote_number(name);
                let digits = dec_chars(number);
                self.write_raw_chars(&digits);
                self.write("\n");
                proof {
                    assert(self.st() =~~= step_start(old(self).st(), tag@).st);
                    assert(self.output@ =~= old(self).output@ + step_start(
                        old(self).st(),
                        tag@,
                    ).out);
                }
            },
            Tag::HtmlBlock => {
                proof {
                    assert(self.st() =~~= step_start(old(self).st(), tag@).st);
                    assert(self.output@ =~= old(self).output@ + step_start(
                        old(self).st(),
                        tag@,
                    ).out);
                }
            },
        }
    }

    /// Handles a scope-end event (see `step_end`).
    fn end_tag(&mut self, tag: &Tag)
        requires
            old(self).table_cell_index < usize::MAX,
        ensures
            final(self).st() == step_end(old(self).st(), tag@).st,
            final(self).output@ == old(self).output@ + step_end(old(self).st(), tag@).out,
            final(self).numbers@.len() == old(self).numbers@.len(),
            final(self).table_cell_index <= old(self).table_cell_index + 1,
    {
        match tag {
            Tag::Paragraph | Tag::Header(_) | Tag::CodeBlock(_) => {
                let output = match &self.corg_state.corg_tag {
                    Some(corg_tag) => corg_tag.end_tag(),
                    None => String::new(),
                };
                self.write(output.as_str());
                proof {
                    assert(self.st() =~~= step_end(old(self).st(), tag@).st);
                }
            },
            Tag::TableHead => {
                self.table_state = TableState::Body;
                proof {
                    assert(self.st() =~~= step_end(old(self).st(), tag@).st);
                    assert(self.output@ =~= old(self).output@ + step_end(old(self).st(), tag@).out);
                }
            },
            Tag::TableCell => {
                self.table_cell_index = self.table_cell_index + 1;
                proof {
                    assert(self.st() =~~= step_end(old(self).st(), tag@).st);
                    assert(self.output@ =~= old(self).output@ + step_end(old(self).st(), tag@).out);
                }
            },
            _ => {
                proof {
                    assert(self.st() =~~= step_end(old(self).st(), tag@).st);
                    assert(self.output@ =~= old(self).output@ + step_end(old(self).st(), tag@).out);
                }
            },
        }
    }

    /// Dispatches one event (see `step`).
    fn handle_event(&mut self, ev: &Event)
        requires
            old(self).numbers@.len() < usize::MAX,
            old(self).table_cell_index < usize::MAX,
        ensures
            final(self).st() == step(old(self).st(), ev@).st,
            final(self).output@ == old(self).output@ + step(old(self).st(), ev@).out,
            final(self).numbers@.len() <= old(self).numbers@.len() + 1,
            final(self).table_cell_index <= old(self).table_cell_index + 1,
    {
        match ev {
            Event::Start(tag) => {
                self.start_tag(tag);
            },
            Event::End(tag) => {
                self.end_tag(tag);
            },
            Event::Text(text) => {
                let output = match &self.corg_state.corg_tag {
                    Some(corg_tag) => corg_tag.write_tag(text.clone()),
                    None => text.clone(),
                };
                if self.corg_state.needs_to_push_function_name() {
                    self.corg_state.push_function_name(text.clone());
                }
                self.write(output.as_str());
                proof {
                    assert(self.st() =~~= step(old(self).st(), ev@).st);
                }
            },
            Event::Code(text) => {
                self.write("\n# IS THIS CALLED\n");
                self.write(text.as_str());
                proof {
                    assert(self.st() =~~= step(old(self).st(), ev@).st);
                    assert(self.output@ =~= old(self).output@ + step(old(self).st(), ev@).out);
                }
            },
            Event::Html(html) => {
                self.write(html.as_str());
                proof {
                    assert(self.st() =~~= step(old(self).st(), ev@).st);
                }
            },
            Event::InlineHtml(html) => {
                self.write(html.as_str());
                proof {
                    assert(self.st() =~~= step(old(self).st(), ev@).st);
                }
            },
            Event::SoftBreak => {
                self.write_newline();
                proof {
                    assert(self.st() =~~= step(old(self).st(), ev@).st);
                }
            },
            Event::HardBreak => {
                self.write("\n\n");
                proof {
                    assert(self.st() =~~= step(old(self).st(), ev@).st);
                }
            },
            Event::FootnoteReference(name) => {
                self.write("# -- note:\n# ");
                self.write(name.as_str());
                let number = self.footnote_number(name);
                self.write_raw_str(" #");
                let digits = dec_chars(number);
                self.write_raw_chars(&digits);
                proof {
                    assert(self.st() =~~= step(old(self).st(), ev@).st);
                    assert(self.output@ =~= old(self).output@ + step(old(self).st(), ev@).out);
                }
            },
            Event::TaskListMarker(_) => {
                proof {
                    assert(self.st() =~~= step(old(self).st(), ev@).st);
                    assert(self.output@ =~= old(self).output@ + step(old(self).st(), ev@).out);
                }
            },
        }
    }

    /// Drives one pass over `events`: every event in order, then the
    /// unconditional function close and the trailer that invokes the recorded
    /// function names.
    pub fn run(&mut self, events: &Vec<Event>)
        requires
            old(self).st() == init_st(),
            old(self).output@ == Seq::<char>::empty(),
        ensures
            final(self).output@ == transpile_output(events.deep_view()),
    {
        let n = events.len();
        let mut i: usize = 0;
        proof {
            assert(events.deep_view().take(0) =~= Seq::<EventS>::empty());
            assert(self.numbers.deep_view().len() == self.numbers@.len());
            assert(self.numbers.deep_view().len() == 0);
        }
        while i < n
            invariant
                n == events@.len(),
                i <= n,
                self.st() == run_st(events.deep_view().take(i as int)),
                self.output@ == run_out(events.deep_view().take(i as int)),
                self.numbers@.len() <= i,
                self.table_cell_index <= i,
            decreases n - i,
        {
            let ev = &events[i];
            let ghost evs = events.deep_view();
            proof {
                assert(evs.take(i + 1).drop_last() =~= evs.take(i as int));
                assert(evs.take(i + 1).last() == evs[i as int]);
                assert(ev@ == evs[i as int]);
            }
            self.handle_event(ev);
            i = i + 1;
        }
        proof {
            assert(events.deep_view().take(n as int) =~= events.deep_view());
        }
        self.write("\n}\n");
        let function_names = join_function_names(&self.corg_state.function_names);
        let mut run_script_block = String::new();
        run_script_block.append("\n# - run doc: \n");
        run_script_block.append(function_names.as_str());
        self.write(run_script_block.as_str());
        proof {
            assert(self.output@ =~= transpile_output(events.deep_view()));
        }
    }
}

/// Consumes `events` exactly once, in order, and appends the generated shell
/// script to `s`: the rendered events, one unconditional function close, and
/// the trailer block that invokes every recorded function name, one per line,
/// in document order.
pub fn push_shell(s: &mut String, events: &Vec<Event>)
    ensures
        final(s)@ == old(s)@ + transpile_output(events.deep_view()),
{
    let mut writer = ShellWriter::new();
    writer.run(events);
    let tail = string_from_chars(&writer.output);
    s.append(tail.as_str());
}

} // verus!
