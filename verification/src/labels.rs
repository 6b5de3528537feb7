//! How completions and symbols of the language server are shown in the
//! editor. Positions are byte offsets into the UTF-8 text, held in 32 bits.

use crate::text::joined;
use vstd::prelude::*;
use vstd::string::*;
use vstd::utf8::encode_utf8;

verus! {

/// The kind of a completion, as the language server protocol names them.
#[derive(Clone, Copy, Debug, PartialEq, Eq)]
pub enum CompletionKind {
    Text,
    Method,
    Function,
    Constructor,
    Field,
    Variable,
    Class,
    Interface,
    Module,
    Property,
    Unit,
    Value,
    Enum,
    Keyword,
    Snippet,
    Color,
    File,
    Reference,
    Folder,
    EnumMember,
    Constant,
    Struct,
    Event,
    Operator,
    TypeParameter,
    Other(i32),
}

/// The kind of a symbol, as the language server protocol names them.
#[derive(Clone, Copy, Debug, PartialEq, Eq)]
pub enum SymbolKind {
    File,
    Module,
    Namespace,
    Package,
    Class,
    Method,
    Property,
    Field,
    Constructor,
    Enum,
    Interface,
    Function,
    Variable,
    Constant,
    String,
    Number,
    Boolean,
    Array,
    Object,
    Key,
    Null,
    EnumMember,
    Struct,
    Event,
    Operator,
    TypeParameter,
    Other(i32),
}

/// The bytes from `start` up to, not including, `end`.
#[derive(Clone, Copy, Debug, PartialEq, Eq, Structural)]
pub struct Range {
    pub start: u32,
    pub end: u32,
}

/// A piece of a label.
#[derive(Clone, Debug, PartialEq, Eq)]
pub enum CodeLabelSpan {
    /// A range of the label's code, highlighted as code.
    CodeRange(Range),
    /// Text of its own, highlighted under a name.
    Literal { text: String, highlight_name: Option<String> },
}

/// A label: code to highlight, the pieces to show, and the range of what is
/// shown that filtering goes by.
#[derive(Clone, Debug, PartialEq, Eq)]
pub struct CodeLabel {
    pub code: String,
    pub spans: Vec<CodeLabelSpan>,
    pub filter_range: Range,
}

/// A position held in 32 bits: the low 32 bits of `n`.
pub open spec fn position_spec(n: int) -> u32 {
    (n % 0x1_0000_0000) as u32
}

/// The place of the first byte `b` in `bytes`, and the length of `bytes`
/// where there is none.
pub open spec fn index_of_byte(bytes: Seq<u8>, b: u8) -> int
    decreases bytes.len(),
{
    if bytes.len() == 0 {
        0
    } else if bytes[0] == b {
        0
    } else {
        1 + index_of_byte(bytes.drop_first(), b)
    }
}

/// The length of a callable's name in its label: what stands before the
/// first opening parenthesis.
pub open spec fn name_len_spec(label: Seq<u8>) -> int {
    index_of_byte(label, 0x28)
}

/// The text put before a symbol's name to make code of it.
pub open spec fn symbol_prefix() -> Seq<char> {
    "let a = "@
}

/// The text put after a symbol's name: a call's parentheses for a method.
pub open spec fn symbol_suffix(kind: SymbolKind) -> Seq<char> {
    match kind {
        SymbolKind::Method => "()"@,
        _ => ""@,
    }
}

/// Whether `label` shows the callable whose completion text is `text`: the
/// whole text as code, filtered by the name.
pub open spec fn is_callable_label(label: CodeLabel, text: String) -> bool {
    let bytes = encode_utf8(text@);
    &&& label.code == text
    &&& label.spans@ == seq![
        CodeLabelSpan::CodeRange(Range { start: 0, end: position_spec(bytes.len() as int) }),
    ]
    &&& label.filter_range == Range { start: 0, end: position_spec(name_len_spec(bytes)) }
}

/// Whether `label` shows the field whose completion text is `text`: the
/// text itself, highlighted as a property.
pub open spec fn is_field_label(label: CodeLabel, text: String) -> bool {
    let bytes = encode_utf8(text@);
    &&& label.code@.len() == 0
    &&& label.spans@.len() == 1
    &&& label.spans@[0] matches CodeLabelSpan::Literal { text: shown, highlight_name }
    &&& shown == text
    &&& highlight_name is Some
    &&& highlight_name->0@ == "property"@
    &&& label.filter_range == Range { start: 0, end: position_spec(bytes.len() as int) }
}

/// Whether `label` shows the symbol `name` of kind `kind`: the name inside a
/// declaration, filtered by the whole name.
pub open spec fn is_symbol_label(label: CodeLabel, name: String, kind: SymbolKind) -> bool {
    let len = encode_utf8(name@).len() as int;
    &&& label.code@ == symbol_prefix() + name@ + symbol_suffix(kind)
    &&& label.spans@ == seq![
        CodeLabelSpan::CodeRange(Range { start: 8, end: position_spec(8 + len) }),
    ]
    &&& label.filter_range == Range { start: 0, end: position_spec(len) }
}

/// The low 32 bits of `n`.
pub fn position(n: usize) -> (r: u32)
    ensures
        r == position_spec(n as int),
{
    let wide: u64 = n as u64;
    (wide % 0x1_0000_0000) as u32
}

/// The number of bytes that `text` takes.
pub fn byte_len(text: &str) -> (r: usize)
    ensures
        r == encode_utf8(text@).len(),
{
    text.as_bytes().len()
}

/// The place of the first opening parenthesis in `label`, and the length of
/// `label` where there is none.
pub fn name_len(label: &str) -> (r: usize)
    ensures
        r == name_len_spec(encode_utf8(label@)),
{
    let bytes = label.as_bytes();
    let n = bytes.len();
    let mut i: usize = 0;
    proof {
        assert(bytes@.subrange(0, n as int) =~= bytes@);
    }
    while i < n
        invariant
            bytes@ == encode_utf8(label@),
            n == bytes@.len(),
            i <= n,
            name_len_spec(bytes@) == i + name_len_spec(bytes@.subrange(i as int, n as int)),
        decreases n - i,
    {
        if bytes[i] == 0x28 {
            assert(bytes@.subrange(i as int, n as int)[0] == bytes@[i as int]);
            return i;
        }
        proof {
            assert(bytes@.subrange(i as int, n as int).drop_first() =~= bytes@.subrange(
                i + 1,
                n as int,
            ));
        }
        i = i + 1;
    }
    i
}

/// The label of a completion: one for a method or a function, one for a
/// field, and none for any other kind or for a completion without a kind.
pub fn label_for_completion(label: String, kind: Option<CompletionKind>) -> (r: Option<CodeLabel>)
    ensures
        match kind {
            Some(CompletionKind::Method) | Some(CompletionKind::Function) => r is Some
                && is_callable_label(r->0, label),
            Some(CompletionKind::Field) => r is Some && is_field_label(r->0, label),
            _ => r is None,
        },
{
    match kind {
        Some(CompletionKind::Method) | Some(CompletionKind::Function) => {
            let len = byte_len(label.as_str());
            let name = name_len(label.as_str());
            let mut spans: Vec<CodeLabelSpan> = Vec::new();
            let end = position(len);
            spans.push(CodeLabelSpan::CodeRange(Range { start: 0, end }));
            let filter_range = Range { start: 0, end: position(name) };
            assert(spans@ =~= seq![CodeLabelSpan::CodeRange(Range { start: 0, end })]);
            Some(CodeLabel { code: label, spans, filter_range })
        },
        Some(CompletionKind::Field) => {
            let len = byte_len(label.as_str());
            let mut spans: Vec<CodeLabelSpan> = Vec::new();
            spans.push(
                CodeLabelSpan::Literal {
                    text: label,
                    highlight_name: Some(String::from_str("property")),
                },
            );
            Some(
                CodeLabel {
                    code: String::new(),
                    spans,
                    filter_range: Range { start: 0, end: position(len) },
                },
            )
        },
        _ => None,
    }
}

/// The label of a symbol.
pub fn label_for_symbol(name: String, kind: SymbolKind) -> (r: Option<CodeLabel>)
    ensures
        r is Some,
        is_symbol_label(r->0, name, kind),
{
    let suffix = match kind {
        SymbolKind::Method => "()",
        _ => "",
    };
    let len = byte_len(name.as_str());
    let mut code = joined("let a = ", name.as_str());
    code.append(suffix);
    let wide: u128 = 8 + len as u128;
    let end: u32 = (wide % 0x1_0000_0000) as u32;
    let mut spans: Vec<CodeLabelSpan> = Vec::new();
    spans.push(CodeLabelSpan::CodeRange(Range { start: 8, end }));
    assert(spans@ =~= seq![CodeLabelSpan::CodeRange(Range { start: 8, end })]);
    Some(CodeLabel { code, spans, filter_range: Range { start: 0, end: position(len) } })
}

} // verus!
