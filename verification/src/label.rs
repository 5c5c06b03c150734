//! Display labels for completion items. The analyzer sends source-shaped text
//! in a completion's `detail`; each label wraps the name and that detail in a
//! small parseable GreyCat fragment, so that the editor's syntax highlighting
//! applies, and points the displayed spans at the parts of it worth showing.

use vstd::prelude::*;
use vstd::utf8::encode_utf8;
use crate::text::{byte_len, lemma_byte_len_concat, lemma_space_is_one_byte, opt_text};

verus! {

/// The kind of an LSP completion item.
#[derive(Clone, Copy, Debug, PartialEq, Eq)]
pub enum CompletionKind {
    Text,
    Method,
    Function,
    Constructor,
    Field,
    Variable,
    Class,
    Interface,
    Module,
    Property,
    Unit,
    Value,
    Enum,
    Keyword,
    Snippet,
    Color,
    File,
    Reference,
    Folder,
    EnumMember,
    Constant,
    Struct,
    Event,
    Operator,
    TypeParameter,
    Other(i32),
}

/// What a label is made from: the item's name, its kind and its `detail`.
#[derive(Clone, Debug, PartialEq, Eq)]
pub struct Completion {
    pub label: String,
    pub detail: Option<String>,
    pub kind: Option<CompletionKind>,
}

/// A half-open range of byte offsets into a label's code.
#[derive(Clone, Copy, Debug, PartialEq, Eq)]
pub struct SpanRange {
    pub start: u32,
    pub end: u32,
}

/// One displayed piece of a label: a range of its code, or literal text.
#[derive(Clone, Debug, PartialEq, Eq)]
pub enum CodeLabelSpan {
    CodeRange(SpanRange),
    Literal { text: String, highlight_name: Option<String> },
}

/// The code to highlight, the spans to display, and the part of the
/// displayed text that filtering matches against.
#[derive(Clone, Debug, PartialEq, Eq)]
pub struct CodeLabel {
    pub code: String,
    pub spans: Vec<CodeLabelSpan>,
    pub filter_range: SpanRange,
}

/// A span, as the contracts speak of it.
pub enum SpanModel {
    Code(int, int),
    Literal(Seq<char>, Option<Seq<char>>),
}

/// A label, as the contracts speak of it.
pub struct LabelModel {
    pub code: Seq<char>,
    pub spans: Seq<SpanModel>,
    pub filter: (int, int),
}

impl View for CodeLabelSpan {
    type V = SpanModel;

    open spec fn view(&self) -> SpanModel {
        match self {
            CodeLabelSpan::CodeRange(r) => SpanModel::Code(r.start as int, r.end as int),
            CodeLabelSpan::Literal { text, highlight_name } => SpanModel::Literal(
                text@,
                match highlight_name {
                    Some(h) => Some(h@),
                    None => None,
                },
            ),
        }
    }
}

impl View for CodeLabel {
    type V = LabelModel;

    open spec fn view(&self) -> LabelModel {
        LabelModel {
            code: self.code@,
            spans: self.spans@.map_values(|s: CodeLabelSpan| s@),
            filter: (self.filter_range.start as int, self.filter_range.end as int),
        }
    }
}

/// Whether `s` begins with the character `c`.
pub open spec fn starts_with(s: Seq<char>, c: char) -> bool {
    s.len() > 0 && s[0] == c
}

/// The code that a label is built around, where one is built.
pub open spec fn label_code(kind: Option<CompletionKind>, name: Seq<char>, detail: Option<Seq<char>>) -> Option<Seq<char>> {
    match kind {
        Some(CompletionKind::Function) | Some(CompletionKind::Method) => match detail {
            Some(d) => if starts_with(d, '(') { Some("fn "@ + name + d) } else { None },
            None => None,
        },
        Some(CompletionKind::Class) => Some("type"@ + " "@ + name + " {}"@),
        Some(CompletionKind::Enum) => Some("enum"@ + " "@ + name + " {}"@),
        Some(CompletionKind::Field) | Some(CompletionKind::Constant) => match detail {
            Some(d) => if starts_with(d, ':') {
                Some("type _ { "@ + static_prefix(kind) + name + d + "; }"@)
            } else {
                None
            },
            None => None,
        },
        _ => None,
    }
}

/// `static ` for a constant (a static attribute), nothing for a field.
pub open spec fn static_prefix(kind: Option<CompletionKind>) -> Seq<char> {
    if kind == Some(CompletionKind::Constant) { "static "@ } else { ""@ }
}

/// The label shown for a completion item, or `None` where the item keeps
/// the editor's plain rendering.
///
/// - Functions and methods whose detail is an argument list `(args): Ret`
///   become `fn name(args): Ret`; the name and the signature are shown.
/// - Types and enums become `type Name {}` / `enum Name {}`; the name is
///   shown, followed by the home module (the detail), dimmed as a comment,
///   when there is one.
/// - Fields and constants whose detail is `: T` become
///   `type _ { name: T; }` / `type _ { static name: T; }`; the name and its
///   type are shown.
///
/// Offsets count UTF-8 bytes of the code, and filtering always covers the name.
pub open spec fn spec_label(kind: Option<CompletionKind>, name: Seq<char>, detail: Option<Seq<char>>) -> Option<LabelModel> {
    match label_code(kind, name, detail) {
        None => None,
        Some(code) => {
            let filter = (0int, byte_len(name) as int);
            match kind {
                Some(CompletionKind::Class) | Some(CompletionKind::Enum) => {
                    let keyword = if kind == Some(CompletionKind::Class) { "type"@ } else { "enum"@ };
                    let name_start: int = byte_len(keyword) as int + 1;
                    let name_end: int = name_start + byte_len(name);
                    let module = match detail { Some(d) => d, None => Seq::empty() };
                    let spans = if module.len() == 0 {
                        seq![SpanModel::Code(name_start, name_end)]
                    } else {
                        seq![
                            SpanModel::Code(name_start, name_end),
                            SpanModel::Literal("  "@, None),
                            SpanModel::Literal(module, Some("comment"@)),
                        ]
                    };
                    Some(LabelModel { code, spans, filter })
                },
                Some(CompletionKind::Field) | Some(CompletionKind::Constant) => {
                    let d = detail.unwrap();
                    let name_start: int = byte_len("type _ { "@) as int + byte_len(static_prefix(kind)) as int;
                    let name_end: int = name_start + byte_len(name);
                    let detail_end: int = name_end + byte_len(d);
                    Some(LabelModel {
                        code,
                        spans: seq![SpanModel::Code(name_start, name_end), SpanModel::Code(name_end, detail_end)],
                        filter,
                    })
                },
                _ => {
                    let name_start: int = byte_len("fn "@) as int;
                    let name_end: int = name_start + byte_len(name);
                    let detail_end: int = byte_len(code) as int;
                    Some(LabelModel {
                        code,
                        spans: seq![SpanModel::Code(name_start, name_end), SpanModel::Code(name_end, detail_end)],
                        filter,
                    })
                },
            }
        },
    }
}

/// The view of a completion's detail.
pub open spec fn detail_view(c: &Completion) -> Option<Seq<char>> {
    opt_text(c.detail)
}

/// Offsets within a label's code must fit in 32 bits: the code that would be
/// built for this completion is shorter than 4 GiB.
pub open spec fn label_fits(c: &Completion) -> bool {
    match label_code(c.kind, c.label@, detail_view(c)) {
        Some(code) => byte_len(code) <= u32::MAX,
        None => true,
    }
}

/// Whether a kind's label shows a signature or type after the name.
pub open spec fn shows_detail(kind: Option<CompletionKind>) -> bool {
    kind == Some(CompletionKind::Function) || kind == Some(CompletionKind::Method)
        || kind == Some(CompletionKind::Field) || kind == Some(CompletionKind::Constant)
}

proof fn lemma_middle_bytes(a: Seq<char>, b: Seq<char>, c: Seq<char>)
    ensures
        encode_utf8(a + b + c).subrange(byte_len(a) as int, (byte_len(a) + byte_len(b)) as int) == encode_utf8(b),
        byte_len(a + b + c) == byte_len(a) + byte_len(b) + byte_len(c),
{
    crate::text::lemma_encode_concat(a, b);
    crate::text::lemma_encode_concat(a + b, c);
    assert(encode_utf8(a + b + c) =~= encode_utf8(a) + encode_utf8(b) + encode_utf8(c));
    assert((encode_utf8(a) + encode_utf8(b) + encode_utf8(c)).subrange(
        byte_len(a) as int,
        (byte_len(a) + byte_len(b)) as int,
    ) =~= encode_utf8(b));
}

/// Every label shows the item's name first: its first span is exactly the
/// bytes of the name within the code, and filtering covers that name. Where
/// the label shows a signature or a type, its second span is exactly the bytes
/// of the detail, right after the name.
pub proof fn law_label_shows_name_then_detail(
    kind: Option<CompletionKind>,
    name: Seq<char>,
    detail: Option<Seq<char>>,
)
    requires
        spec_label(kind, name, detail) is Some,
    ensures
        ({
            let l = spec_label(kind, name, detail).unwrap();
            let bytes = encode_utf8(l.code);
            &&& l.filter == (0int, byte_len(name) as int)
            &&& l.spans.len() >= 1
            &&& l.spans[0] matches SpanModel::Code(s, e) && 0 <= s <= e <= bytes.len()
                && bytes.subrange(s, e) == encode_utf8(name)
            &&& shows_detail(kind) ==> {
                &&& l.spans.len() == 2
                &&& l.spans[1] matches SpanModel::Code(s, e) && 0 <= s <= e <= bytes.len()
                    && bytes.subrange(s, e) == encode_utf8(detail.unwrap())
                &&& l.spans[0]->Code_1 == l.spans[1]->Code_0
            }
        }),
{
    let l = spec_label(kind, name, detail).unwrap();
    match kind {
        Some(CompletionKind::Function) | Some(CompletionKind::Method) => {
            let d = detail.unwrap();
            lemma_middle_bytes("fn "@, name, d);
            lemma_middle_bytes("fn "@ + name, d, Seq::empty());
            assert("fn "@ + name + d + Seq::<char>::empty() =~= "fn "@ + name + d);
            crate::text::lemma_byte_len_concat("fn "@, name);
        },
        Some(CompletionKind::Class) | Some(CompletionKind::Enum) => {
            let keyword = if kind == Some(CompletionKind::Class) { "type"@ } else { "enum"@ };
            crate::text::lemma_space_is_one_byte();
            crate::text::lemma_byte_len_concat(keyword, " "@);
            lemma_middle_bytes(keyword + " "@, name, " {}"@);
        },
        _ => {
            let d = detail.unwrap();
            let p = "type _ { "@ + static_prefix(kind);
            crate::text::lemma_byte_len_concat("type _ { "@, static_prefix(kind));
            lemma_middle_bytes(p, name, d + "; }"@);
            assert(p + name + (d + "; }"@) =~= p + name + d + "; }"@);
            lemma_middle_bytes(p + name, d, "; }"@);
            crate::text::lemma_byte_len_concat(p, name);
        },
    }
}

/// A constant's label is a field's label with `static ` before the name: the
/// code gains that prefix and both spans move right by its length, while the
/// filtered name stays the same.
pub proof fn law_constant_is_static_field(name: Seq<char>, detail: Seq<char>)
    requires
        starts_with(detail, ':'),
    ensures
        ({
            let field = spec_label(Some(CompletionKind::Field), name, Some(detail)).unwrap();
            let constant = spec_label(Some(CompletionKind::Constant), name, Some(detail)).unwrap();
            let shift = byte_len("static "@) as int;
            &&& field.code == "type _ { "@ + name + detail + "; }"@
            &&& constant.code == "type _ { "@ + "static "@ + name + detail + "; }"@
            &&& constant.filter == field.filter
            &&& constant.spans.len() == 2 && field.spans.len() == 2
            &&& field.spans[0] matches SpanModel::Code(s0, e0) && constant.spans[0] == SpanModel::Code(s0 + shift, e0 + shift)
            &&& field.spans[1] matches SpanModel::Code(s1, e1) && constant.spans[1] == SpanModel::Code(s1 + shift, e1 + shift)
        }),
{
    reveal_strlit("");
    assert(""@ =~= Seq::<char>::empty());
    assert("type _ { "@ + ""@ =~= "type _ { "@);
    assert(byte_len(""@) == 0);
}

/// Types and enums alike show a non-empty detail (the home module) after the
/// name: two spaces, then the module dimmed as a comment; with no detail, or
/// an empty one, the name alone is shown. An enum's label is a type's label
/// with `enum` in place of `type`: same spans, same filter.
pub proof fn law_types_and_enums_show_module(name: Seq<char>, detail: Option<Seq<char>>)
    ensures
        ({
            let class = spec_label(Some(CompletionKind::Class), name, detail).unwrap();
            let en = spec_label(Some(CompletionKind::Enum), name, detail).unwrap();
            let name_start = 5int;
            let name_end = 5 + byte_len(name) as int;
            &&& spec_label(Some(CompletionKind::Class), name, detail) is Some
            &&& spec_label(Some(CompletionKind::Enum), name, detail) is Some
            &&& class.code == "type "@ + name + " {}"@
            &&& en.code == "enum "@ + name + " {}"@
            &&& en.spans == class.spans
            &&& en.filter == class.filter
            &&& class.filter == (0int, byte_len(name) as int)
            &&& class.spans[0] == SpanModel::Code(name_start, name_end)
            &&& (detail matches Some(m) && m.len() > 0) ==> {
                &&& class.spans.len() == 3
                &&& class.spans[1] == SpanModel::Literal("  "@, None)
                &&& class.spans[2] == SpanModel::Literal(detail.unwrap(), Some("comment"@))
            }
            &&& (detail is None || detail.unwrap().len() == 0) ==> class.spans.len() == 1
        }),
{
    reveal_strlit("type");
    reveal_strlit("enum");
    reveal_strlit(" ");
    reveal_strlit("type ");
    reveal_strlit("enum ");
    vstd::utf8::is_ascii_chars_encode_utf8("type"@);
    vstd::utf8::is_ascii_chars_encode_utf8("enum"@);
    assert("type"@ + " "@ =~= "type "@);
    assert("enum"@ + " "@ =~= "enum "@);
}

fn first_char_is(s: &str, c: char) -> (res: bool)
    ensures
        res == starts_with(s@, c),
{
    s.unicode_len() > 0 && s.get_char(0) == c
}

fn byte_len_u32(s: &str) -> (res: u32)
    requires
        byte_len(s@) <= u32::MAX,
    ensures
        res == byte_len(s@),
{
    s.len() as u32
}

/// Builds the display label for a completion item (see `spec_label`).
pub fn label_for_completion(completion: Completion) -> (res: Option<CodeLabel>)
    requires
        label_fits(&completion),
    ensures
        match res {
            Some(l) => spec_label(completion.kind, completion.label@, detail_view(&completion)) == Some(l@),
            None => spec_label(completion.kind, completion.label@, detail_view(&completion)) is None,
        },
{
    let kind = match completion.kind {
        Some(k) => k,
        None => return None,
    };
    let name = completion.label.as_str();
    let ghost d_view = detail_view(&completion);
    match kind {
        CompletionKind::Function | CompletionKind::Method => {
            let detail = match &completion.detail {
                Some(d) => d.as_str(),
                None => return None,
            };
            if !first_char_is(detail, '(') {
                return None;
            }
            let mut code = String::from_str("fn ");
            code.append(name);
            code.append(detail);
            proof {
                lemma_byte_len_concat("fn "@, name@);
                lemma_byte_len_concat("fn "@ + name@, detail@);
            }
            let name_start = byte_len_u32("fn ");
            let name_end = name_start + byte_len_u32(name);
            let detail_end = byte_len_u32(code.as_str());
            let mut spans: Vec<CodeLabelSpan> = Vec::new();
            spans.push(CodeLabelSpan::CodeRange(SpanRange { start: name_start, end: name_end }));
            spans.push(CodeLabelSpan::CodeRange(SpanRange { start: name_end, end: detail_end }));
            let label = CodeLabel { code, spans, filter_range: SpanRange { start: 0, end: byte_len_u32(name) } };
            assert(label@.spans =~= spec_label(completion.kind, completion.label@, d_view).unwrap().spans);
            Some(label)
        },
        CompletionKind::Class | CompletionKind::Enum => {
            let module: &str = match &completion.detail {
                Some(d) => d.as_str(),
                None => "",
            };
            proof {
                reveal_strlit("");
            }
            assert(module@ == match d_view { Some(d) => d, None => Seq::<char>::empty() });
            let keyword = if matches!(kind, CompletionKind::Class) { "type" } else { "enum" };
            let mut code = String::from_str(keyword);
            code.append(" ");
            code.append(name);
            code.append(" {}");
            proof {
                lemma_space_is_one_byte();
                lemma_byte_len_concat(keyword@, " "@);
                lemma_byte_len_concat(keyword@ + " "@, name@);
                lemma_byte_len_concat(keyword@ + " "@ + name@, " {}"@);
            }
            let name_start = byte_len_u32(keyword) + 1;
            let name_end = name_start + byte_len_u32(name);
            let mut spans: Vec<CodeLabelSpan> = Vec::new();
            spans.push(CodeLabelSpan::CodeRange(SpanRange { start: name_start, end: name_end }));
            if module.unicode_len() != 0 {
                spans.push(CodeLabelSpan::Literal { text: String::from_str("  "), highlight_name: None });
                spans.push(
                    CodeLabelSpan::Literal {
                        text: String::from_str(module),
                        highlight_name: Some(String::from_str("comment")),
                    },
                );
            }
            let label = CodeLabel { code, spans, filter_range: SpanRange { start: 0, end: byte_len_u32(name) } };
            assert(label@.spans =~= spec_label(completion.kind, completion.label@, d_view).unwrap().spans);
            Some(label)
        },
        CompletionKind::Field | CompletionKind::Constant => {
            let detail = match &completion.detail {
                Some(d) => d.as_str(),
                None => return None,
            };
            if !first_char_is(detail, ':') {
                return None;
            }
            let prefix = if matches!(kind, CompletionKind::Constant) { "static " } else { "" };
            assert(prefix@ == static_prefix(completion.kind));
            let mut code = String::from_str("type _ { ");
            code.append(prefix);
            code.append(name);
            code.append(detail);
            code.append("; }");
            proof {
                lemma_byte_len_concat("type _ { "@, prefix@);
                lemma_byte_len_concat("type _ { "@ + prefix@, name@);
                lemma_byte_len_concat("type _ { "@ + prefix@ + name@, detail@);
                lemma_byte_len_concat("type _ { "@ + prefix@ + name@ + detail@, "; }"@);
            }
            let prefix_len = byte_len_u32("type _ { ") + byte_len_u32(prefix);
            let name_start = prefix_len;
            let name_end = name_start + byte_len_u32(name);
            let detail_end = name_end + byte_len_u32(detail);
            let mut spans: Vec<CodeLabelSpan> = Vec::new();
            spans.push(CodeLabelSpan::CodeRange(SpanRange { start: name_start, end: name_end }));
            spans.push(CodeLabelSpan::CodeRange(SpanRange { start: name_end, end: detail_end }));
            let label = CodeLabel { code, spans, filter_range: SpanRange { start: 0, end: byte_len_u32(name) } };
            assert(label@.spans =~= spec_label(completion.kind, completion.label@, d_view).unwrap().spans);
            Some(label)
        },
        _ => None,
    }
}

} // verus!
