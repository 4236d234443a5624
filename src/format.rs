//! Format sniffer: classifies a model file by its extension, then by the
//! magic bytes that open its content.

use vstd::prelude::*;
use crate::checksum::{eq_ignore_ascii_case, same_ignoring_ascii_case};
use crate::paths::{extension, extension_of};

verus! {

/// Model artifact formats. `Unknown` keeps the extension that was seen.
#[derive(Clone, Debug, PartialEq, Eq)]
pub enum ModelFormat {
    GGUF,
    GGML,
    SafeTensors,
    PyTorch,
    TensorFlow,
    ONNX,
    Huggingface,
    Unknown(String),
}

/// A format as a mathematical value.
pub enum FormatView {
    GGUF,
    GGML,
    SafeTensors,
    PyTorch,
    TensorFlow,
    ONNX,
    Huggingface,
    Unknown(Seq<char>),
}

impl View for ModelFormat {
    type V = FormatView;

    open spec fn view(&self) -> FormatView {
        match self {
            ModelFormat::GGUF => FormatView::GGUF,
            ModelFormat::GGML => FormatView::GGML,
            ModelFormat::SafeTensors => FormatView::SafeTensors,
            ModelFormat::PyTorch => FormatView::PyTorch,
            ModelFormat::TensorFlow => FormatView::TensorFlow,
            ModelFormat::ONNX => FormatView::ONNX,
            ModelFormat::Huggingface => FormatView::Huggingface,
            ModelFormat::Unknown(e) => FormatView::Unknown(e@),
        }
    }
}

/// The four bytes `GGUF` that open a GGUF container.
pub open spec fn gguf_magic() -> Seq<u8> {
    seq![0x47u8, 0x47u8, 0x55u8, 0x46u8]
}

/// The four bytes `GGML` that open a GGML container.
pub open spec fn ggml_magic() -> Seq<u8> {
    seq![0x47u8, 0x47u8, 0x4du8, 0x4cu8]
}

pub open spec fn starts_with_bytes(content: Seq<u8>, magic: Seq<u8>) -> bool {
    content.len() >= magic.len() && content.subrange(0, magic.len() as int) == magic
}

/// The extension of a path, or the empty text where it has none.
pub open spec fn extension_or_empty(path: Seq<char>) -> Seq<char> {
    match extension_of(path) {
        Some(e) => e,
        None => Seq::empty(),
    }
}

/// The format named by an extension, compared without regard to ASCII case.
pub open spec fn format_of_extension(ext: Seq<char>) -> Option<FormatView> {
    if same_ignoring_ascii_case(ext, "gguf"@) {
        Some(FormatView::GGUF)
    } else if same_ignoring_ascii_case(ext, "ggml"@) {
        Some(FormatView::GGML)
    } else if same_ignoring_ascii_case(ext, "safetensors"@) {
        Some(FormatView::SafeTensors)
    } else if same_ignoring_ascii_case(ext, "pt"@) || same_ignoring_ascii_case(ext, "pth"@) {
        Some(FormatView::PyTorch)
    } else if same_ignoring_ascii_case(ext, "pb"@) {
        Some(FormatView::TensorFlow)
    } else if same_ignoring_ascii_case(ext, "onnx"@) {
        Some(FormatView::ONNX)
    } else {
        None
    }
}

/// Classification of a file: by extension first, then by magic bytes,
/// else `Unknown` with the extension seen.
pub open spec fn detect_format_spec(path: Seq<char>, content: Seq<u8>) -> FormatView {
    let ext = extension_or_empty(path);
    match format_of_extension(ext) {
        Some(f) => f,
        None => if starts_with_bytes(content, gguf_magic()) {
            FormatView::GGUF
        } else if starts_with_bytes(content, ggml_magic()) {
            FormatView::GGML
        } else {
            FormatView::Unknown(ext)
        },
    }
}

/// The file type recorded in metadata: the extension, or `unknown`.
pub open spec fn file_type_spec(path: Seq<char>) -> Seq<char> {
    match extension_of(path) {
        Some(e) => e,
        None => "unknown"@,
    }
}

fn has_prefix(content: &[u8], b0: u8, b1: u8, b2: u8, b3: u8) -> (r: bool)
    ensures
        r == starts_with_bytes(content@, seq![b0, b1, b2, b3]),
{
    if content.len() < 4 {
        return false;
    }
    let r = content[0] == b0 && content[1] == b1 && content[2] == b2 && content[3] == b3;
    assert(r ==> content@.subrange(0, 4) =~= seq![b0, b1, b2, b3]);
    assert(!r ==> content@.subrange(0, 4) != seq![b0, b1, b2, b3]) by {
        if content@.subrange(0, 4) == seq![b0, b1, b2, b3] {
            assert(content@.subrange(0, 4)[0] == b0);
            assert(content@.subrange(0, 4)[1] == b1);
            assert(content@.subrange(0, 4)[2] == b2);
            assert(content@.subrange(0, 4)[3] == b3);
        }
    }
    r
}

/// The extension of a path as an owned text, empty where it has none.
fn extension_text(path: &str) -> (r: String)
    ensures
        r@ == extension_or_empty(path@),
{
    match extension(path) {
        Some(e) => e.to_string(),
        None => String::new(),
    }
}

/// Classifies a model file from its path and its leading bytes.
pub fn detect_model_format(path: &str, content: &[u8]) -> (r: ModelFormat)
    ensures
        r@ == detect_format_spec(path@, content@),
{
    let ext = extension_text(path);
    let e = ext.as_str();
    if eq_ignore_ascii_case(e, "gguf") {
        ModelFormat::GGUF
    } else if eq_ignore_ascii_case(e, "ggml") {
        ModelFormat::GGML
    } else if eq_ignore_ascii_case(e, "safetensors") {
        ModelFormat::SafeTensors
    } else if eq_ignore_ascii_case(e, "pt") || eq_ignore_ascii_case(e, "pth") {
        ModelFormat::PyTorch
    } else if eq_ignore_ascii_case(e, "pb") {
        ModelFormat::TensorFlow
    } else if eq_ignore_ascii_case(e, "onnx") {
        ModelFormat::ONNX
    } else if has_prefix(content, 0x47, 0x47, 0x55, 0x46) {
        ModelFormat::GGUF
    } else if has_prefix(content, 0x47, 0x47, 0x4d, 0x4c) {
        ModelFormat::GGML
    } else {
        ModelFormat::Unknown(ext)
    }
}

/// The file type of a path: its extension, or `unknown` where it has none.
pub fn detect_file_type(path: &str) -> (r: String)
    ensures
        r@ == file_type_spec(path@),
{
    match extension(path) {
        Some(e) => e.to_string(),
        None => "unknown".to_string(),
    }
}

/// The extension decides before the content: a `.gguf` file is GGUF
/// whatever it holds; a file without an extension that opens with `GGUF` is
/// GGUF; a file whose extension and content are both unrecognised is
/// `Unknown` with that extension.
pub proof fn format_sniffing_order(path: Seq<char>, content: Seq<u8>)
    ensures
        extension_of(path) == Some("gguf"@) ==> detect_format_spec(path, content)
            == FormatView::GGUF,
        extension_of(path) == None::<Seq<char>> && starts_with_bytes(content, gguf_magic())
            ==> detect_format_spec(path, content) == FormatView::GGUF,
        format_of_extension(extension_or_empty(path)) == None::<FormatView> && !starts_with_bytes(
            content,
            gguf_magic(),
        ) && !starts_with_bytes(content, ggml_magic()) ==> detect_format_spec(path, content)
            == FormatView::Unknown(extension_or_empty(path)),
{
    if extension_of(path) == None::<Seq<char>> {
        reveal_strlit("gguf");
        reveal_strlit("ggml");
        reveal_strlit("safetensors");
        reveal_strlit("pt");
        reveal_strlit("pth");
        reveal_strlit("pb");
        reveal_strlit("onnx");
        assert(format_of_extension(Seq::<char>::empty()) == None::<FormatView>);
    }
    if extension_of(path) == Some("gguf"@) {
        assert(same_ignoring_ascii_case("gguf"@, "gguf"@));
    }
}

} // verus!
