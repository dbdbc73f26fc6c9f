use vstd::prelude::*;

use crate::config::{override_of, texts_contain};
use crate::error::FuseLlmError;
use crate::node::{kind_of, writable_of, FsNode, NodeKind, NodeView};
use crate::resolver::{children_spec, list_children};
use crate::settings::{
    conv_config_view, conv_settings_text, global_settings_text, global_view, model_settings_text,
    render_conversation_settings, render_global_settings, render_model_settings,
};
use crate::state::{history_text, FilesystemState};
use crate::text::text_bytes;
use vstd::utf8::encode_utf8;

verus! {

/// The longest name a directory entry may have, in UTF-8 bytes.
pub const MAX_NAME_LEN: usize = 255;

/// The largest write buffer a handle may assemble, in bytes.
pub const MAX_BUFFER_LEN: u64 = 16_777_216;

/// The target of a symbolic link, when it has one.
pub open spec fn link_target_spec(n: NodeView, st: FilesystemState) -> Option<Seq<char>> {
    match n {
        NodeView::ConversationsLatestSymlink => match st.latest_conversation {
            Some(l) => Some(l@),
            None => None,
        },
        NodeView::ModelDefaultSymlink => match st.config.default_model {
            Some(m) => Some(m@),
            None => None,
        },
        NodeView::SearchIndexDefaultSymlink => if st.search_indexes@.len() > 0 {
            Some(st.search_indexes@[0].id@)
        } else {
            None
        },
        _ => None,
    }
}

/// What reading a file yields, as text; none for a node that is not an
/// existing file.
pub open spec fn content_spec(n: NodeView, st: FilesystemState) -> Option<Seq<char>> {
    match n {
        NodeView::PromptFile { conv_id } => match st.conv_pos(conv_id) {
            Some(i) => Some(st.conversations@[i].latest_response@),
            None => None,
        },
        NodeView::HistoryFile { conv_id } => match st.conv_pos(conv_id) {
            Some(i) => Some(history_text(st.conversations@[i].history@)),
            None => None,
        },
        NodeView::ContextFile { conv_id } => match st.conv_pos(conv_id) {
            Some(i) => Some(st.conversations@[i].context@),
            None => None,
        },
        NodeView::ConversationModelFile { conv_id } => match st.conv_pos(conv_id) {
            Some(i) => Some(st.conversations@[i].config.model@ + "\n"@),
            None => None,
        },
        NodeView::ConversationSystemPromptFile { conv_id } => match st.conv_pos(conv_id) {
            Some(i) => Some(st.conversations@[i].config.system_prompt@ + "\n"@),
            None => None,
        },
        NodeView::ConversationSettingsFile { conv_id } => match st.conv_pos(conv_id) {
            Some(i) => Some(conv_settings_text(conv_config_view(st.conversations@[i].config))),
            None => None,
        },
        NodeView::GlobalSettingsFile => Some(global_settings_text(global_view(st.config))),
        NodeView::ConfigModelSettingsFile { name } => if texts_contain(st.config.models@, name) {
            Some(model_settings_text(override_of(st.config.model_configs@, name)))
        } else {
            None
        },
        NodeView::ModelFile { name } => if texts_contain(st.config.models@, name) {
            match st.model_reply(name) {
                Some(t) => Some(t),
                None => Some(Seq::empty()),
            }
        } else {
            None
        },
        NodeView::QueryFile { index_id } => match st.index_pos(index_id) {
            Some(i) => Some(st.search_indexes@[i].latest_query_result@),
            None => None,
        },
        NodeView::CorpusFile { index_id, file_name } => match st.index_pos(index_id) {
            Some(i) => if st.search_indexes@[i].corpus().contains(file_name) {
                Some(Seq::empty())
            } else {
                None
            },
            None => None,
        },
        _ => None,
    }
}

/// Whether a node currently exists.
pub open spec fn exists_spec(n: NodeView, st: FilesystemState) -> bool {
    match kind_of(n) {
        NodeKind::Directory => children_spec(n, st) is Some,
        NodeKind::File => content_spec(n, st) is Some,
        NodeKind::Symlink => true,
        NodeKind::Absent => false,
    }
}

/// The attributes the library decides for a node; times and owners are the
/// caller's.
#[derive(Debug, Clone, Copy, PartialEq, Eq, Structural)]
pub struct Attr {
    pub kind: NodeKind,
    /// Bytes of rendered content, bytes of a link target, or 0.
    pub size: u64,
    pub perm: u16,
    pub nlink: u32,
}

/// The size `getattr` reports.
pub open spec fn size_spec(n: NodeView, st: FilesystemState) -> int {
    match kind_of(n) {
        NodeKind::File => match content_spec(n, st) {
            Some(t) => encode_utf8(t).len() as int,
            None => 0,
        },
        NodeKind::Symlink => match link_target_spec(n, st) {
            Some(t) => encode_utf8(t).len() as int,
            None => 0,
        },
        _ => 0,
    }
}

/// Permission bits: directories 755, writable files 644, read-only files
/// 444, links 777.
pub open spec fn perm_spec(n: NodeView) -> u16 {
    match kind_of(n) {
        NodeKind::Directory => 0o755,
        NodeKind::Symlink => 0o777,
        _ => if writable_of(n) { 0o644 } else { 0o444 },
    }
}

/// The text of a link target.
pub fn link_target(node: &FsNode, st: &FilesystemState) -> (r: Option<String>)
    ensures
        r matches Some(t) ==> link_target_spec(node@, *st) == Some(t@),
        r is None ==> link_target_spec(node@, *st) is None,
{
    match node {
        FsNode::ConversationsLatestSymlink => match &st.latest_conversation {
            Some(l) => Some(l.clone()),
            None => None,
        },
        FsNode::ModelDefaultSymlink => match &st.config.default_model {
            Some(m) => Some(m.clone()),
            None => None,
        },
        FsNode::SearchIndexDefaultSymlink => if st.search_indexes.len() > 0 {
            Some(st.search_indexes[0].id.clone())
        } else {
            None
        },
        _ => None,
    }
}

/// Renders a file's content. None for a node that is not an existing file.
pub fn render_content(node: &FsNode, st: &FilesystemState) -> (r: Option<String>)
    requires
        st.wf(),
    ensures
        r matches Some(t) ==> content_spec(node@, *st) == Some(t@),
        r is None ==> content_spec(node@, *st) is None,
{
    match node {
        FsNode::PromptFile { conv_id } => match st.conversation_index(conv_id.as_str()) {
            Some(i) => Some(st.conversations[i].latest_response.clone()),
            None => None,
        },
        FsNode::HistoryFile { conv_id } => match st.conversation_index(conv_id.as_str()) {
            Some(i) => Some(st.conversations[i].format_history()),
            None => None,
        },
        FsNode::ContextFile { conv_id } => match st.conversation_index(conv_id.as_str()) {
            Some(i) => Some(st.conversations[i].context.clone()),
            None => None,
        },
        FsNode::ConversationModelFile { conv_id } => match st.conversation_index(conv_id.as_str()) {
            Some(i) => {
                let mut t = st.conversations[i].config.model.clone();
                t.append("\n");
                Some(t)
            },
            None => None,
        },
        FsNode::ConversationSystemPromptFile { conv_id } => match st.conversation_index(conv_id.as_str()) {
            Some(i) => {
                let mut t = st.conversations[i].config.system_prompt.clone();
                t.append("\n");
                Some(t)
            },
            None => None,
        },
        FsNode::ConversationSettingsFile { conv_id } => match st.conversation_index(conv_id.as_str()) {
            Some(i) => Some(render_conversation_settings(&st.conversations[i].config)),
            None => None,
        },
        FsNode::GlobalSettingsFile => Some(render_global_settings(&st.config)),
        FsNode::ConfigModelSettingsFile { name } => if st.config.has_model(name.as_str()) {
            Some(render_model_settings(&st.config.model_override(name.as_str())))
        } else {
            None
        },
        FsNode::ModelFile { name } => if st.config.has_model(name.as_str()) {
            match st.model_response(name.as_str()) {
                Some(t) => Some(t),
                None => Some(String::new()),
            }
        } else {
            None
        },
        FsNode::QueryFile { index_id } => match st.index_position(index_id.as_str()) {
            Some(i) => Some(st.search_indexes[i].latest_query_result.clone()),
            None => None,
        },
        FsNode::CorpusFile { index_id, file_name } => match st.index_position(index_id.as_str()) {
            Some(i) => match st.search_indexes[i].file_position(file_name.as_str()) {
                Some(j) => {
                    proof {
                        assert(crate::state::texts(st.search_indexes@[i as int].corpus_files@)[j as int] == file_name@);
                        assert(st.search_indexes@[i as int].corpus().contains(file_name@));
                    }
                    Some(String::new())
                },
                None => None,
            },
            None => None,
        },
        _ => None,
    }
}

/// The attributes of a node, or `NotFound` when it does not exist.
pub fn handle_getattr(node: &FsNode, st: &FilesystemState) -> (r: Result<Attr, FuseLlmError>)
    requires
        st.wf(),
    ensures
        r is Ok <==> exists_spec(node@, *st),
        r matches Ok(a) ==> a.kind == kind_of(node@) && a.size == size_spec(node@, *st) && a.perm == perm_spec(node@)
            && a.nlink == (if kind_of(node@) == NodeKind::Directory { 2u32 } else { 1u32 }),
        r matches Err(e) ==> e is NotFound,
{
    let kind = node.kind();
    let perm: u16 = match kind {
        NodeKind::Directory => 0o755,
        NodeKind::Symlink => 0o777,
        _ => if node.is_writable() { 0o644 } else { 0o444 },
    };
    match kind {
        NodeKind::Directory => {
            if list_children(node, st).is_none() {
                return Err(FuseLlmError::NotFound);
            }
            Ok(Attr { kind, size: 0, perm, nlink: 2 })
        },
        NodeKind::File => match render_content(node, st) {
            Some(t) => {
                let b = text_bytes(t.as_str());
                Ok(Attr { kind, size: b.len() as u64, perm, nlink: 1 })
            },
            None => Err(FuseLlmError::NotFound),
        },
        NodeKind::Symlink => {
            let size: u64 = match link_target(node, st) {
                Some(t) => text_bytes(t.as_str()).len() as u64,
                None => 0,
            };
            Ok(Attr { kind, size, perm, nlink: 1 })
        },
        NodeKind::Absent => Err(FuseLlmError::NotFound),
    }
}

/// The bytes of a range of a sequence, clamped to its end.
pub open spec fn clamp_range(b: Seq<u8>, offset: int, size: int) -> Seq<u8> {
    if offset >= b.len() {
        Seq::empty()
    } else if offset + size >= b.len() {
        b.skip(offset)
    } else {
        b.subrange(offset, offset + size)
    }
}

/// What `read(offset, size)` returns for a file.
pub open spec fn read_spec(n: NodeView, st: FilesystemState, offset: int, size: int) -> Option<Seq<u8>> {
    match content_spec(n, st) {
        Some(t) => Some(clamp_range(encode_utf8(t), offset, size)),
        None => None,
    }
}

/// A copy of the bytes `[offset, offset + size)` of `b`, clamped to its end.
pub fn slice_bytes(b: &Vec<u8>, offset: u64, size: u64) -> (r: Vec<u8>)
    ensures
        r@ == clamp_range(b@, offset as int, size as int),
{
    let mut out: Vec<u8> = Vec::new();
    if offset >= b.len() as u64 {
        return out;
    }
    let start = offset as usize;
    let end: usize = if size >= (b.len() - start) as u64 { b.len() } else { start + size as usize };
    let mut i: usize = start;
    while i < end
        invariant
            start <= i <= end <= b@.len(),
            out@ == b@.subrange(start as int, i as int),
        decreases end - i,
    {
        out.push(b[i]);
        i += 1;
        proof {
            assert(out@ =~= b@.subrange(start as int, i as int));
        }
    }
    proof {
        if offset + size >= b@.len() {
            assert(b@.subrange(start as int, end as int) =~= b@.skip(start as int));
        }
    }
    out
}

/// Reads a range of a file.
pub fn handle_read(node: &FsNode, st: &FilesystemState, offset: u64, size: u64) -> (r: Result<Vec<u8>, FuseLlmError>)
    requires
        st.wf(),
    ensures
        r matches Ok(b) ==> read_spec(node@, *st, offset as int, size as int) == Some(b@),
        r is Err ==> read_spec(node@, *st, offset as int, size as int) is None,
        r matches Err(e) ==> e is NotFound,
{
    match render_content(node, st) {
        Some(t) => {
            let b = text_bytes(t.as_str());
            Ok(slice_bytes(&b, offset, size))
        },
        None => Err(FuseLlmError::NotFound),
    }
}

/// The target of a link, `NotFound` when there is none to point at.
pub fn handle_readlink(node: &FsNode, st: &FilesystemState) -> (r: Result<String, FuseLlmError>)
    ensures
        r matches Ok(t) ==> link_target_spec(node@, *st) == Some(t@),
        r is Err ==> link_target_spec(node@, *st) is None,
        r matches Err(e) ==> e is NotFound,
{
    match link_target(node, st) {
        Some(t) => Ok(t),
        None => Err(FuseLlmError::NotFound),
    }
}

/// The size that `getattr` reports for a file is the length of what a read
/// from its start returns, however large the read.
pub proof fn law_size_matches_content(n: NodeView, st: FilesystemState, size: int)
    requires
        kind_of(n) == NodeKind::File,
        content_spec(n, st) is Some,
        size >= size_spec(n, st),
    ensures
        read_spec(n, st, 0, size) matches Some(b) && b.len() == size_spec(n, st),
{
    let t = content_spec(n, st)->Some_0;
    assert(encode_utf8(t).skip(0) =~= encode_utf8(t));
}

/// A name a new directory entry may take: not empty, at most
/// `MAX_NAME_LEN` bytes, without `/` or NUL, and not `.` or `..`.
pub open spec fn valid_name_spec(name: Seq<char>) -> bool {
    &&& 0 < name.len()
    &&& encode_utf8(name).len() <= MAX_NAME_LEN
    &&& forall|i: int| 0 <= i < name.len() ==> #[trigger] name[i] != '/' && name[i] != '\0'
    &&& name != "."@
    &&& name != ".."@
}

/// Checks a new entry's name.
pub fn valid_name(name: &str) -> (r: bool)
    ensures
        r == valid_name_spec(name@),
{
    let n = name.unicode_len();
    if n == 0 || text_bytes(name).len() > MAX_NAME_LEN {
        return false;
    }
    let mut i: usize = 0;
    while i < n
        invariant
            n == name@.len(),
            i <= n,
            forall|t: int| 0 <= t < i ==> #[trigger] name@[t] != '/' && name@[t] != '\0',
        decreases n - i,
    {
        let c = name.get_char(i);
        if c == '/' || c == '\0' {
            return false;
        }
        i += 1;
    }
    let dot = crate::text::same_text(name, ".");
    let dotdot = crate::text::same_text(name, "..");
    !dot && !dotdot
}

/// The buffer after a write of `data` at `offset`: bytes before the offset
/// stay (a gap is filled with zeros), the data replaces what it covers, and
/// bytes after it stay.
pub open spec fn spliced(buf: Seq<u8>, offset: int, data: Seq<u8>) -> Seq<u8> {
    let head = if offset <= buf.len() {
        buf.take(offset)
    } else {
        buf + Seq::new((offset - buf.len()) as nat, |i: int| 0u8)
    };
    let tail = if offset + data.len() < buf.len() {
        buf.skip(offset + data.len())
    } else {
        Seq::empty()
    };
    head + data + tail
}

/// Writes `data` into a buffer at `offset`.
pub fn splice_into(buf: &Vec<u8>, offset: u64, data: &[u8]) -> (r: Result<Vec<u8>, FuseLlmError>)
    ensures
        offset + data@.len() <= MAX_BUFFER_LEN ==> (r matches Ok(v) && v@ == spliced(buf@, offset as int, data@)),
        offset + data@.len() > MAX_BUFFER_LEN ==> (r matches Err(e) && e is InvalidInput),
{
    if offset > MAX_BUFFER_LEN || data.len() as u64 > MAX_BUFFER_LEN - offset {
        return Err(FuseLlmError::InvalidInput(crate::text::owned("write beyond the buffer limit")));
    }
    let off = offset as usize;
    let mut out: Vec<u8> = Vec::new();
    let mut i: usize = 0;
    let head_end: usize = if off <= buf.len() { off } else { buf.len() };
    while i < head_end
        invariant
            head_end <= buf@.len(),
            i <= head_end,
            out@ == buf@.take(i as int),
        decreases head_end - i,
    {
        out.push(buf[i]);
        i += 1;
        proof {
            assert(out@ =~= buf@.take(i as int));
        }
    }
    while i < off
        invariant
            head_end <= i <= off,
            head_end == (if off <= buf@.len() { off as int } else { buf@.len() as int }),
            out@ == buf@.take(head_end as int) + Seq::new((i - head_end) as nat, |k: int| 0u8),
        decreases off - i,
    {
        out.push(0u8);
        i += 1;
        proof {
            assert(out@ =~= buf@.take(head_end as int) + Seq::new((i - head_end) as nat, |k: int| 0u8));
        }
    }
    let ghost head = out@;
    proof {
        if off <= buf@.len() {
            assert(head =~= buf@.take(off as int));
        } else {
            assert(buf@.take(head_end as int) =~= buf@);
        }
    }
    let mut j: usize = 0;
    while j < data.len()
        invariant
            j <= data@.len(),
            out@ == head + data@.take(j as int),
        decreases data@.len() - j,
    {
        out.push(data[j]);
        j += 1;
        proof {
            assert(out@ =~= head + data@.take(j as int));
        }
    }
    proof {
        assert(data@.take(data@.len() as int) =~= data@);
    }
    let ghost mid = out@;
    let tail_start: usize = off + data.len();
    if tail_start < buf.len() {
        let mut k: usize = tail_start;
        proof {
            assert(out@ =~= mid + buf@.subrange(tail_start as int, k as int));
        }
        while k < buf.len()
            invariant
                tail_start <= k <= buf@.len(),
                tail_start == off + data@.len(),
                out@ == mid + buf@.subrange(tail_start as int, k as int),
            decreases buf@.len() - k,
        {
            out.push(buf[k]);
            k += 1;
            proof {
                assert(out@ =~= mid + buf@.subrange(tail_start as int, k as int));
            }
        }
        proof {
            assert(buf@.subrange(tail_start as int, buf@.len() as int) =~= buf@.skip(tail_start as int));
        }
    }
    proof {
        if tail_start >= buf@.len() {
            assert(out@ =~= mid + Seq::<u8>::empty());
        }
        assert(out@ =~= spliced(buf@, offset as int, data@));
    }
    Ok(out)
}

} // verus!
