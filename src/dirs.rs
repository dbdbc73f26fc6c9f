use vstd::prelude::*;

use crate::error::FuseLlmError;
use crate::handlers::{exists_spec, handle_getattr, handle_read, perm_spec, read_spec, size_spec, Attr};
use crate::node::{kind_of, FsNode, NodeKind, NodeView};
use crate::resolver::{children_spec, entries_view, list_children, resolve, resolve_spec};
use crate::state::FilesystemState;

verus! {

/// Lists a directory's children, `NotFound` when it is not an existing
/// directory.
pub fn handle_readdir(node: &FsNode, st: &FilesystemState) -> (r: Result<Vec<(String, FsNode)>, FuseLlmError>)
    requires
        st.wf(),
    ensures
        r matches Ok(v) ==> children_spec(node@, *st) == Some(entries_view(v@)),
        r is Err ==> children_spec(node@, *st) is None,
        r matches Err(e) ==> e is NotFound,
{
    match list_children(node, st) {
        Some(v) => Ok(v),
        None => Err(FuseLlmError::NotFound),
    }
}

/// The attributes of a structural directory, which always exists.
fn fixed_dir_attr() -> (r: Attr)
    ensures
        r.kind == NodeKind::Directory,
        r.size == 0,
        r.perm == 0o755,
        r.nlink == 2,
{
    Attr { kind: NodeKind::Directory, size: 0, perm: 0o755, nlink: 2 }
}

/// The root directory.
pub struct RootDirectory;

impl RootDirectory {
    /// The root's attributes.
    pub fn getattr() -> (r: Attr)
        ensures
            r.kind == NodeKind::Directory,
            r.size == 0,
            r.perm == 0o755,
            r.nlink == 2,
    {
        fixed_dir_attr()
    }

    /// Resolves a top-level name.
    pub fn lookup(name: &str, st: &FilesystemState) -> (r: FsNode)
        requires
            st.wf(),
        ensures
            r@ == resolve_spec(NodeView::Root, name@, *st),
    {
        resolve(&FsNode::Root, name, st)
    }

    /// The top-level directories.
    pub fn readdir(st: &FilesystemState) -> (r: Vec<(String, FsNode)>)
        requires
            st.wf(),
        ensures
            children_spec(NodeView::Root, *st) == Some(entries_view(r@)),
    {
        match list_children(&FsNode::Root, st) {
            Some(v) => v,
            None => Vec::new(),
        }
    }
}

/// `/models`.
pub struct ModelsDir;

impl ModelsDir {
    /// The directory's attributes.
    pub fn getattr() -> (r: Attr)
        ensures
            r.kind == NodeKind::Directory,
            r.size == 0,
            r.perm == 0o755,
            r.nlink == 2,
    {
        fixed_dir_attr()
    }

    /// The offered models, then `default`.
    pub fn readdir(st: &FilesystemState) -> (r: Vec<(String, FsNode)>)
        requires
            st.wf(),
        ensures
            children_spec(NodeView::ModelsDir, *st) == Some(entries_view(r@)),
    {
        match list_children(&FsNode::ModelsDir, st) {
            Some(v) => v,
            None => Vec::new(),
        }
    }
}

/// `/config`.
pub struct ConfigDir;

impl ConfigDir {
    /// The directory's attributes.
    pub fn getattr() -> (r: Attr)
        ensures
            r.kind == NodeKind::Directory,
            r.size == 0,
            r.perm == 0o755,
            r.nlink == 2,
    {
        fixed_dir_attr()
    }

    /// `models` and `settings`.
    pub fn readdir(st: &FilesystemState) -> (r: Vec<(String, FsNode)>)
        requires
            st.wf(),
        ensures
            children_spec(NodeView::ConfigDir, *st) == Some(entries_view(r@)),
    {
        match list_children(&FsNode::ConfigDir, st) {
            Some(v) => v,
            None => Vec::new(),
        }
    }
}

/// `/conversations`.
pub struct ConversationsDir;

impl ConversationsDir {
    /// The directory's attributes.
    pub fn getattr() -> (r: Attr)
        ensures
            r.kind == NodeKind::Directory,
            r.size == 0,
            r.perm == 0o755,
            r.nlink == 2,
    {
        fixed_dir_attr()
    }

    /// The conversations, then `latest`.
    pub fn readdir(st: &FilesystemState) -> (r: Vec<(String, FsNode)>)
        requires
            st.wf(),
        ensures
            children_spec(NodeView::ConversationsDir, *st) == Some(entries_view(r@)),
    {
        match list_children(&FsNode::ConversationsDir, st) {
            Some(v) => v,
            None => Vec::new(),
        }
    }
}

/// `/semantic_search`.
pub struct SemanticSearchDir;

impl SemanticSearchDir {
    /// The directory's attributes.
    pub fn getattr() -> (r: Attr)
        ensures
            r.kind == NodeKind::Directory,
            r.size == 0,
            r.perm == 0o755,
            r.nlink == 2,
    {
        fixed_dir_attr()
    }

    /// The indexes, then `default`.
    pub fn readdir(st: &FilesystemState) -> (r: Vec<(String, FsNode)>)
        requires
            st.wf(),
        ensures
            children_spec(NodeView::SemanticSearchDir, *st) == Some(entries_view(r@)),
    {
        match list_children(&FsNode::SemanticSearchDir, st) {
            Some(v) => v,
            None => Vec::new(),
        }
    }
}

/// A conversation's directory.
pub struct ConversationDir;

impl ConversationDir {
    /// The directory's attributes, `NotFound` for an unknown conversation.
    pub fn getattr(id: &str, st: &FilesystemState) -> (r: Result<Attr, FuseLlmError>)
        requires
            st.wf(),
        ensures
            r is Ok <==> st.conv_pos(id@) is Some,
            r matches Ok(a) ==> a.kind == NodeKind::Directory && a.size == 0 && a.perm == 0o755 && a.nlink == 2,
    {
        handle_getattr(&FsNode::ConversationDir { id: crate::text::owned(id) }, st)
    }

    /// `config`, `context`, `history` and `prompt`.
    pub fn readdir(id: &str, st: &FilesystemState) -> (r: Result<Vec<(String, FsNode)>, FuseLlmError>)
        requires
            st.wf(),
        ensures
            r matches Ok(v) ==> children_spec(NodeView::ConversationDir { id: id@ }, *st) == Some(entries_view(v@)),
            r is Err <==> st.conv_pos(id@) is None,
    {
        handle_readdir(&FsNode::ConversationDir { id: crate::text::owned(id) }, st)
    }
}

/// A search index's directory.
pub struct SearchIndexDir;

impl SearchIndexDir {
    /// The directory's attributes, `NotFound` for an unknown index.
    pub fn getattr(id: &str, st: &FilesystemState) -> (r: Result<Attr, FuseLlmError>)
        requires
            st.wf(),
        ensures
            r is Ok <==> st.index_pos(id@) is Some,
            r matches Ok(a) ==> a.kind == NodeKind::Directory && a.size == 0 && a.perm == 0o755 && a.nlink == 2,
    {
        handle_getattr(&FsNode::SearchIndexDir { index_id: crate::text::owned(id) }, st)
    }

    /// `corpus` and `query`.
    pub fn readdir(id: &str, st: &FilesystemState) -> (r: Result<Vec<(String, FsNode)>, FuseLlmError>)
        requires
            st.wf(),
        ensures
            r matches Ok(v) ==> children_spec(NodeView::SearchIndexDir { index_id: id@ }, *st) == Some(entries_view(v@)),
            r is Err <==> st.index_pos(id@) is None,
    {
        handle_readdir(&FsNode::SearchIndexDir { index_id: crate::text::owned(id) }, st)
    }
}

/// Reads a range of a file node of one family.
fn read_family(node: &FsNode, st: &FilesystemState, offset: u64, size: u64) -> (r: Result<Vec<u8>, FuseLlmError>)
    requires
        st.wf(),
    ensures
        r matches Ok(b) ==> read_spec(node@, *st, offset as int, size as int) == Some(b@),
        r is Err ==> read_spec(node@, *st, offset as int, size as int) is None,
{
    handle_read(node, st, offset, size)
}

/// A file of the `/config` tree.
pub struct ConfigFile;

impl ConfigFile {
    /// The file's attributes; its size is the rendered settings' length.
    pub fn getattr(node: &FsNode, st: &FilesystemState) -> (r: Result<Attr, FuseLlmError>)
        requires
            st.wf(),
        ensures
            r is Ok <==> exists_spec(node@, *st),
            crate::handlers::content_spec(node@, *st) matches Some(t) ==> (r matches Ok(a) && a.kind == NodeKind::File
                && a.size == vstd::utf8::encode_utf8(t).len()),
            r matches Ok(a) ==> a.kind == kind_of(node@) && a.size == size_spec(node@, *st) && a.perm == perm_spec(node@)
                && a.nlink == (if kind_of(node@) == NodeKind::Directory { 2u32 } else { 1u32 }),
    {
        handle_getattr(node, st)
    }

    /// Reads the rendered settings.
    pub fn read(node: &FsNode, st: &FilesystemState, offset: u64, size: u64) -> (r: Result<Vec<u8>, FuseLlmError>)
        requires
            st.wf(),
        ensures
            r matches Ok(b) ==> read_spec(node@, *st, offset as int, size as int) == Some(b@),
            r is Err ==> read_spec(node@, *st, offset as int, size as int) is None,
    {
        read_family(node, st, offset, size)
    }
}

/// A file of a conversation.
pub struct ConversationFile;

impl ConversationFile {
    /// The file's attributes; its size is the rendered content's length.
    pub fn getattr(node: &FsNode, st: &FilesystemState) -> (r: Result<Attr, FuseLlmError>)
        requires
            st.wf(),
        ensures
            r is Ok <==> exists_spec(node@, *st),
            crate::handlers::content_spec(node@, *st) matches Some(t) ==> (r matches Ok(a) && a.kind == NodeKind::File
                && a.size == vstd::utf8::encode_utf8(t).len()),
            r matches Ok(a) ==> a.kind == kind_of(node@) && a.size == size_spec(node@, *st) && a.perm == perm_spec(node@)
                && a.nlink == (if kind_of(node@) == NodeKind::Directory { 2u32 } else { 1u32 }),
    {
        handle_getattr(node, st)
    }

    /// Reads the rendered content.
    pub fn read(node: &FsNode, st: &FilesystemState, offset: u64, size: u64) -> (r: Result<Vec<u8>, FuseLlmError>)
        requires
            st.wf(),
        ensures
            r matches Ok(b) ==> read_spec(node@, *st, offset as int, size as int) == Some(b@),
            r is Err ==> read_spec(node@, *st, offset as int, size as int) is None,
    {
        read_family(node, st, offset, size)
    }
}

/// A model file under `/models`.
pub struct ModelFile;

impl ModelFile {
    /// The file's attributes; its size is the last reply's length.
    pub fn getattr(name: &str, st: &FilesystemState) -> (r: Result<Attr, FuseLlmError>)
        requires
            st.wf(),
        ensures
            r is Ok <==> crate::config::texts_contain(st.config.models@, name@),
            r matches Ok(a) ==> a.kind == kind_of(NodeView::ModelFile { name: name@ }) && a.size == size_spec(NodeView::ModelFile { name: name@ }, *st) && a.perm == perm_spec(NodeView::ModelFile { name: name@ })
                && a.nlink == (if kind_of(NodeView::ModelFile { name: name@ }) == NodeKind::Directory { 2u32 } else { 1u32 }),
    {
        handle_getattr(&FsNode::ModelFile { name: crate::text::owned(name) }, st)
    }

    /// Reads the model's last stateless reply.
    pub fn read(name: &str, st: &FilesystemState, offset: u64, size: u64) -> (r: Result<Vec<u8>, FuseLlmError>)
        requires
            st.wf(),
        ensures
            r matches Ok(b) ==> read_spec(NodeView::ModelFile { name: name@ }, *st, offset as int, size as int) == Some(b@),
            r is Err ==> !crate::config::texts_contain(st.config.models@, name@),
    {
        read_family(&FsNode::ModelFile { name: crate::text::owned(name) }, st, offset, size)
    }
}

/// The `query` file or a corpus file of an index.
pub struct SearchIndexFile;

impl SearchIndexFile {
    /// The file's attributes.
    pub fn getattr(node: &FsNode, st: &FilesystemState) -> (r: Result<Attr, FuseLlmError>)
        requires
            st.wf(),
        ensures
            r is Ok <==> exists_spec(node@, *st),
            crate::handlers::content_spec(node@, *st) matches Some(t) ==> (r matches Ok(a) && a.kind == NodeKind::File
                && a.size == vstd::utf8::encode_utf8(t).len()),
            r matches Ok(a) ==> a.kind == kind_of(node@) && a.size == size_spec(node@, *st) && a.perm == perm_spec(node@)
                && a.nlink == (if kind_of(node@) == NodeKind::Directory { 2u32 } else { 1u32 }),
    {
        handle_getattr(node, st)
    }

    /// Reads the file: the last query result, or nothing for a corpus file.
    pub fn read(node: &FsNode, st: &FilesystemState, offset: u64, size: u64) -> (r: Result<Vec<u8>, FuseLlmError>)
        requires
            st.wf(),
        ensures
            r matches Ok(b) ==> read_spec(node@, *st, offset as int, size as int) == Some(b@),
            r is Err ==> read_spec(node@, *st, offset as int, size as int) is None,
    {
        read_family(node, st, offset, size)
    }
}

/// The answer of a language-model request.
#[derive(Debug)]
pub struct LlmResponse {
    pub content: String,
}

} // verus!
