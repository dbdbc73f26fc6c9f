use vstd::prelude::*;

verus! {

/// Inode of the mount root.
pub const INO_ROOT: u64 = 1;
/// Inode of `/models`.
pub const INO_MODELS: u64 = 2;
/// Inode of `/config`.
pub const INO_CONFIG: u64 = 3;
/// Inode of `/conversations`.
pub const INO_CONVERSATIONS: u64 = 4;
/// Inode of `/semantic_search`.
pub const INO_SEMANTIC_SEARCH: u64 = 5;
/// Inode of `/config/settings`.
pub const INO_CONFIG_SETTINGS: u64 = 6;
/// Inode of `/config/models`.
pub const INO_CONFIG_MODELS_DIR: u64 = 7;
/// Inode of `/conversations/latest`.
pub const INO_CONVERSATIONS_LATEST: u64 = 8;
/// Inode of `/semantic_search/default`.
pub const INO_SEMANTIC_SEARCH_DEFAULT: u64 = 9;
/// Inode of `/models/default`.
pub const INO_MODELS_DEFAULT: u64 = 10;

/// Number of node kinds whose inodes are allocated at run time.
pub const DYNAMIC_KINDS: usize = 15;

/// Whether a node is a directory, a regular file or a symbolic link.
#[derive(Debug, Clone, Copy, PartialEq, Eq, Structural)]
pub enum NodeKind {
    Directory,
    File,
    Symlink,
    /// The sentinel for an unresolved name.
    Absent,
}

/// Every virtual file and directory of the mount, with the identifiers
/// that name it.
#[derive(Debug, Clone)]
pub enum FsNode {
    Root,
    ModelsDir,
    ConfigDir,
    ConversationsDir,
    SemanticSearchDir,
    ModelFile { name: String },
    ModelDefaultSymlink,
    GlobalSettingsFile,
    ConfigModelsDir,
    ConfigModelDir { name: String },
    ConfigModelSettingsFile { name: String },
    ConversationsLatestSymlink,
    ConversationDir { id: String },
    PromptFile { conv_id: String },
    HistoryFile { conv_id: String },
    ContextFile { conv_id: String },
    ConversationConfigDir { conv_id: String },
    ConversationModelFile { conv_id: String },
    ConversationSystemPromptFile { conv_id: String },
    ConversationSettingsFile { conv_id: String },
    SearchIndexDir { index_id: String },
    SearchIndexDefaultSymlink,
    CorpusDir { index_id: String },
    CorpusFile { index_id: String, file_name: String },
    QueryFile { index_id: String },
    NotFound,
}

/// The mathematical value of a node: its variant and the text of its fields.
pub enum NodeView {
    Root,
    ModelsDir,
    ConfigDir,
    ConversationsDir,
    SemanticSearchDir,
    ModelFile { name: Seq<char> },
    ModelDefaultSymlink,
    GlobalSettingsFile,
    ConfigModelsDir,
    ConfigModelDir { name: Seq<char> },
    ConfigModelSettingsFile { name: Seq<char> },
    ConversationsLatestSymlink,
    ConversationDir { id: Seq<char> },
    PromptFile { conv_id: Seq<char> },
    HistoryFile { conv_id: Seq<char> },
    ContextFile { conv_id: Seq<char> },
    ConversationConfigDir { conv_id: Seq<char> },
    ConversationModelFile { conv_id: Seq<char> },
    ConversationSystemPromptFile { conv_id: Seq<char> },
    ConversationSettingsFile { conv_id: Seq<char> },
    SearchIndexDir { index_id: Seq<char> },
    SearchIndexDefaultSymlink,
    CorpusDir { index_id: Seq<char> },
    CorpusFile { index_id: Seq<char>, file_name: Seq<char> },
    QueryFile { index_id: Seq<char> },
    NotFound,
}

impl View for FsNode {
    type V = NodeView;

    open spec fn view(&self) -> NodeView {
        match self {
            FsNode::Root => NodeView::Root,
            FsNode::ModelsDir => NodeView::ModelsDir,
            FsNode::ConfigDir => NodeView::ConfigDir,
            FsNode::ConversationsDir => NodeView::ConversationsDir,
            FsNode::SemanticSearchDir => NodeView::SemanticSearchDir,
            FsNode::ModelFile { name } => NodeView::ModelFile { name: name@ },
            FsNode::ModelDefaultSymlink => NodeView::ModelDefaultSymlink,
            FsNode::GlobalSettingsFile => NodeView::GlobalSettingsFile,
            FsNode::ConfigModelsDir => NodeView::ConfigModelsDir,
            FsNode::ConfigModelDir { name } => NodeView::ConfigModelDir { name: name@ },
            FsNode::ConfigModelSettingsFile { name } => NodeView::ConfigModelSettingsFile {
                name: name@,
            },
            FsNode::ConversationsLatestSymlink => NodeView::ConversationsLatestSymlink,
            FsNode::ConversationDir { id } => NodeView::ConversationDir { id: id@ },
            FsNode::PromptFile { conv_id } => NodeView::PromptFile { conv_id: conv_id@ },
            FsNode::HistoryFile { conv_id } => NodeView::HistoryFile { conv_id: conv_id@ },
            FsNode::ContextFile { conv_id } => NodeView::ContextFile { conv_id: conv_id@ },
            FsNode::ConversationConfigDir { conv_id } => NodeView::ConversationConfigDir {
                conv_id: conv_id@,
            },
            FsNode::ConversationModelFile { conv_id } => NodeView::ConversationModelFile {
                conv_id: conv_id@,
            },
            FsNode::ConversationSystemPromptFile { conv_id } =>
                NodeView::ConversationSystemPromptFile { conv_id: conv_id@ },
            FsNode::ConversationSettingsFile { conv_id } => NodeView::ConversationSettingsFile {
                conv_id: conv_id@,
            },
            FsNode::SearchIndexDir { index_id } => NodeView::SearchIndexDir {
                index_id: index_id@,
            },
            FsNode::SearchIndexDefaultSymlink => NodeView::SearchIndexDefaultSymlink,
            FsNode::CorpusDir { index_id } => NodeView::CorpusDir { index_id: index_id@ },
            FsNode::CorpusFile { index_id, file_name } => NodeView::CorpusFile {
                index_id: index_id@,
                file_name: file_name@,
            },
            FsNode::QueryFile { index_id } => NodeView::QueryFile { index_id: index_id@ },
            FsNode::NotFound => NodeView::NotFound,
        }
    }
}

/// The fixed inode of a structural node; none for nodes whose inode the
/// registry allocates, and none for the sentinel.
pub open spec fn fixed_inode_of(n: NodeView) -> Option<u64> {
    match n {
        NodeView::Root => Some(INO_ROOT),
        NodeView::ModelsDir => Some(INO_MODELS),
        NodeView::ConfigDir => Some(INO_CONFIG),
        NodeView::ConversationsDir => Some(INO_CONVERSATIONS),
        NodeView::SemanticSearchDir => Some(INO_SEMANTIC_SEARCH),
        NodeView::GlobalSettingsFile => Some(INO_CONFIG_SETTINGS),
        NodeView::ConfigModelsDir => Some(INO_CONFIG_MODELS_DIR),
        NodeView::ConversationsLatestSymlink => Some(INO_CONVERSATIONS_LATEST),
        NodeView::SearchIndexDefaultSymlink => Some(INO_SEMANTIC_SEARCH_DEFAULT),
        NodeView::ModelDefaultSymlink => Some(INO_MODELS_DEFAULT),
        _ => None,
    }
}

/// The structural node that owns a fixed inode.
pub open spec fn node_of_fixed_inode(ino: u64) -> Option<NodeView> {
    if ino == INO_ROOT {
        Some(NodeView::Root)
    } else if ino == INO_MODELS {
        Some(NodeView::ModelsDir)
    } else if ino == INO_CONFIG {
        Some(NodeView::ConfigDir)
    } else if ino == INO_CONVERSATIONS {
        Some(NodeView::ConversationsDir)
    } else if ino == INO_SEMANTIC_SEARCH {
        Some(NodeView::SemanticSearchDir)
    } else if ino == INO_CONFIG_SETTINGS {
        Some(NodeView::GlobalSettingsFile)
    } else if ino == INO_CONFIG_MODELS_DIR {
        Some(NodeView::ConfigModelsDir)
    } else if ino == INO_CONVERSATIONS_LATEST {
        Some(NodeView::ConversationsLatestSymlink)
    } else if ino == INO_SEMANTIC_SEARCH_DEFAULT {
        Some(NodeView::SearchIndexDefaultSymlink)
    } else if ino == INO_MODELS_DEFAULT {
        Some(NodeView::ModelDefaultSymlink)
    } else {
        None
    }
}

/// The allocation slot of a node whose inode is assigned at run time.
pub open spec fn dynamic_slot_of(n: NodeView) -> Option<int> {
    match n {
        NodeView::ModelFile { .. } => Some(0),
        NodeView::ConfigModelDir { .. } => Some(1),
        NodeView::ConfigModelSettingsFile { .. } => Some(2),
        NodeView::ConversationDir { .. } => Some(3),
        NodeView::PromptFile { .. } => Some(4),
        NodeView::HistoryFile { .. } => Some(5),
        NodeView::ContextFile { .. } => Some(6),
        NodeView::ConversationConfigDir { .. } => Some(7),
        NodeView::ConversationModelFile { .. } => Some(8),
        NodeView::ConversationSystemPromptFile { .. } => Some(9),
        NodeView::ConversationSettingsFile { .. } => Some(10),
        NodeView::SearchIndexDir { .. } => Some(11),
        NodeView::CorpusDir { .. } => Some(12),
        NodeView::CorpusFile { .. } => Some(13),
        NodeView::QueryFile { .. } => Some(14),
        _ => None,
    }
}

/// First inode of a slot's range.
pub open spec fn slot_base(slot: int) -> u64 {
    if slot == 0 { 1_000 }
    else if slot == 1 { 2_000 }
    else if slot == 2 { 3_000 }
    else if slot == 3 { 10_000 }
    else if slot == 4 { 20_000 }
    else if slot == 5 { 30_000 }
    else if slot == 6 { 40_000 }
    else if slot == 7 { 50_000 }
    else if slot == 8 { 60_000 }
    else if slot == 9 { 70_000 }
    else if slot == 10 { 80_000 }
    else if slot == 11 { 100_000 }
    else if slot == 12 { 150_000 }
    else if slot == 13 { 200_000 }
    else { 300_000 }
}

/// One past the last inode of a slot's range.
pub open spec fn slot_end(slot: int) -> u64 {
    if slot == 0 { 2_000 }
    else if slot == 1 { 3_000 }
    else if slot == 2 { 4_000 }
    else if slot == 3 { 20_000 }
    else if slot == 4 { 30_000 }
    else if slot == 5 { 40_000 }
    else if slot == 6 { 50_000 }
    else if slot == 7 { 60_000 }
    else if slot == 8 { 70_000 }
    else if slot == 9 { 80_000 }
    else if slot == 10 { 90_000 }
    else if slot == 11 { 150_000 }
    else if slot == 12 { 200_000 }
    else if slot == 13 { 300_000 }
    else { 400_000 }
}

/// The slot ranges are pairwise disjoint and lie above every fixed inode.
pub proof fn lemma_slot_ranges_disjoint(a: int, b: int, ino: u64)
    requires
        0 <= a < DYNAMIC_KINDS,
        0 <= b < DYNAMIC_KINDS,
        slot_base(a) <= ino < slot_end(a),
        slot_base(b) <= ino < slot_end(b),
    ensures
        a == b,
        node_of_fixed_inode(ino).is_none(),
{
}

/// The kind of a node.
pub open spec fn kind_of(n: NodeView) -> NodeKind {
    match n {
        NodeView::Root | NodeView::ModelsDir | NodeView::ConfigDir | NodeView::ConversationsDir
        | NodeView::SemanticSearchDir | NodeView::ConfigModelsDir | NodeView::ConfigModelDir { .. }
        | NodeView::ConversationDir { .. } | NodeView::ConversationConfigDir { .. }
        | NodeView::SearchIndexDir { .. } | NodeView::CorpusDir { .. } => NodeKind::Directory,
        NodeView::ModelDefaultSymlink | NodeView::ConversationsLatestSymlink
        | NodeView::SearchIndexDefaultSymlink => NodeKind::Symlink,
        NodeView::NotFound => NodeKind::Absent,
        _ => NodeKind::File,
    }
}

/// Whether writing to a file node is meaningful (every file but `history`).
pub open spec fn writable_of(n: NodeView) -> bool {
    kind_of(n) == NodeKind::File && !(n is HistoryFile)
}

/// The directory that holds a node; the root is its own parent.
pub open spec fn parent_of(n: NodeView) -> NodeView {
    match n {
        NodeView::Root | NodeView::ModelsDir | NodeView::ConfigDir | NodeView::ConversationsDir
        | NodeView::SemanticSearchDir => NodeView::Root,
        NodeView::ModelFile { .. } | NodeView::ModelDefaultSymlink => NodeView::ModelsDir,
        NodeView::GlobalSettingsFile | NodeView::ConfigModelsDir => NodeView::ConfigDir,
        NodeView::ConfigModelDir { .. } => NodeView::ConfigModelsDir,
        NodeView::ConfigModelSettingsFile { name } => NodeView::ConfigModelDir { name },
        NodeView::ConversationsLatestSymlink | NodeView::ConversationDir { .. } =>
            NodeView::ConversationsDir,
        NodeView::PromptFile { conv_id } | NodeView::HistoryFile { conv_id }
        | NodeView::ContextFile { conv_id } | NodeView::ConversationConfigDir { conv_id } =>
            NodeView::ConversationDir { id: conv_id },
        NodeView::ConversationModelFile { conv_id }
        | NodeView::ConversationSystemPromptFile { conv_id }
        | NodeView::ConversationSettingsFile { conv_id } =>
            NodeView::ConversationConfigDir { conv_id },
        NodeView::SearchIndexDir { .. } | NodeView::SearchIndexDefaultSymlink =>
            NodeView::SemanticSearchDir,
        NodeView::CorpusDir { index_id } | NodeView::QueryFile { index_id } =>
            NodeView::SearchIndexDir { index_id },
        NodeView::CorpusFile { index_id, .. } => NodeView::CorpusDir { index_id },
        NodeView::NotFound => NodeView::NotFound,
    }
}

impl FsNode {
    /// A copy of the node with the same view.
    pub fn duplicate(&self) -> (r: FsNode)
        ensures
            r@ == self@,
    {
        match self {
            FsNode::Root => FsNode::Root,
            FsNode::ModelsDir => FsNode::ModelsDir,
            FsNode::ConfigDir => FsNode::ConfigDir,
            FsNode::ConversationsDir => FsNode::ConversationsDir,
            FsNode::SemanticSearchDir => FsNode::SemanticSearchDir,
            FsNode::ModelFile { name } => FsNode::ModelFile { name: name.clone() },
            FsNode::ModelDefaultSymlink => FsNode::ModelDefaultSymlink,
            FsNode::GlobalSettingsFile => FsNode::GlobalSettingsFile,
            FsNode::ConfigModelsDir => FsNode::ConfigModelsDir,
            FsNode::ConfigModelDir { name } => FsNode::ConfigModelDir { name: name.clone() },
            FsNode::ConfigModelSettingsFile { name } => FsNode::ConfigModelSettingsFile {
                name: name.clone(),
            },
            FsNode::ConversationsLatestSymlink => FsNode::ConversationsLatestSymlink,
            FsNode::ConversationDir { id } => FsNode::ConversationDir { id: id.clone() },
            FsNode::PromptFile { conv_id } => FsNode::PromptFile { conv_id: conv_id.clone() },
            FsNode::HistoryFile { conv_id } => FsNode::HistoryFile { conv_id: conv_id.clone() },
            FsNode::ContextFile { conv_id } => FsNode::ContextFile { conv_id: conv_id.clone() },
            FsNode::ConversationConfigDir { conv_id } => FsNode::ConversationConfigDir {
                conv_id: conv_id.clone(),
            },
            FsNode::ConversationModelFile { conv_id } => FsNode::ConversationModelFile {
                conv_id: conv_id.clone(),
            },
            FsNode::ConversationSystemPromptFile { conv_id } =>
                FsNode::ConversationSystemPromptFile { conv_id: conv_id.clone() },
            FsNode::ConversationSettingsFile { conv_id } => FsNode::ConversationSettingsFile {
                conv_id: conv_id.clone(),
            },
            FsNode::SearchIndexDir { index_id } => FsNode::SearchIndexDir {
                index_id: index_id.clone(),
            },
            FsNode::SearchIndexDefaultSymlink => FsNode::SearchIndexDefaultSymlink,
            FsNode::CorpusDir { index_id } => FsNode::CorpusDir { index_id: index_id.clone() },
            FsNode::CorpusFile { index_id, file_name } => FsNode::CorpusFile {
                index_id: index_id.clone(),
                file_name: file_name.clone(),
            },
            FsNode::QueryFile { index_id } => FsNode::QueryFile { index_id: index_id.clone() },
            FsNode::NotFound => FsNode::NotFound,
        }
    }

    /// Whether two nodes name the same entity.
    pub fn same_as(&self, other: &FsNode) -> (r: bool)
        ensures
            r == (self@ == other@),
    {
        match self {
            FsNode::Root => match other {
                FsNode::Root => true,
                _ => false,
            },
            FsNode::ModelsDir => match other {
                FsNode::ModelsDir => true,
                _ => false,
            },
            FsNode::ConfigDir => match other {
                FsNode::ConfigDir => true,
                _ => false,
            },
            FsNode::ConversationsDir => match other {
                FsNode::ConversationsDir => true,
                _ => false,
            },
            FsNode::SemanticSearchDir => match other {
                FsNode::SemanticSearchDir => true,
                _ => false,
            },
            FsNode::ModelDefaultSymlink => match other {
                FsNode::ModelDefaultSymlink => true,
                _ => false,
            },
            FsNode::GlobalSettingsFile => match other {
                FsNode::GlobalSettingsFile => true,
                _ => false,
            },
            FsNode::ConfigModelsDir => match other {
                FsNode::ConfigModelsDir => true,
                _ => false,
            },
            FsNode::ConversationsLatestSymlink => match other {
                FsNode::ConversationsLatestSymlink => true,
                _ => false,
            },
            FsNode::SearchIndexDefaultSymlink => match other {
                FsNode::SearchIndexDefaultSymlink => true,
                _ => false,
            },
            FsNode::NotFound => match other {
                FsNode::NotFound => true,
                _ => false,
            },
            FsNode::ModelFile { name: a } => match other {
                FsNode::ModelFile { name: b } => a.eq(b),
                _ => false,
            },
            FsNode::ConfigModelDir { name: a } => match other {
                FsNode::ConfigModelDir { name: b } => a.eq(b),
                _ => false,
            },
            FsNode::ConfigModelSettingsFile { name: a } => match other {
                FsNode::ConfigModelSettingsFile { name: b } => a.eq(b),
                _ => false,
            },
            FsNode::ConversationDir { id: a } => match other {
                FsNode::ConversationDir { id: b } => a.eq(b),
                _ => false,
            },
            FsNode::PromptFile { conv_id: a } => match other {
                FsNode::PromptFile { conv_id: b } => a.eq(b),
                _ => false,
            },
            FsNode::HistoryFile { conv_id: a } => match other {
                FsNode::HistoryFile { conv_id: b } => a.eq(b),
                _ => false,
            },
            FsNode::ContextFile { conv_id: a } => match other {
                FsNode::ContextFile { conv_id: b } => a.eq(b),
                _ => false,
            },
            FsNode::ConversationConfigDir { conv_id: a } => match other {
                FsNode::ConversationConfigDir { conv_id: b } => a.eq(b),
                _ => false,
            },
            FsNode::ConversationModelFile { conv_id: a } => match other {
                FsNode::ConversationModelFile { conv_id: b } => a.eq(b),
                _ => false,
            },
            FsNode::ConversationSystemPromptFile { conv_id: a } => match other {
                FsNode::ConversationSystemPromptFile { conv_id: b } => a.eq(b),
                _ => false,
            },
            FsNode::ConversationSettingsFile { conv_id: a } => match other {
                FsNode::ConversationSettingsFile { conv_id: b } => a.eq(b),
                _ => false,
            },
            FsNode::SearchIndexDir { index_id: a } => match other {
                FsNode::SearchIndexDir { index_id: b } => a.eq(b),
                _ => false,
            },
            FsNode::CorpusDir { index_id: a } => match other {
                FsNode::CorpusDir { index_id: b } => a.eq(b),
                _ => false,
            },
            FsNode::QueryFile { index_id: a } => match other {
                FsNode::QueryFile { index_id: b } => a.eq(b),
                _ => false,
            },
            FsNode::CorpusFile { index_id: a, file_name: f } => match other {
                FsNode::CorpusFile { index_id: b, file_name: g } => a.eq(b) && f.eq(g),
                _ => false,
            },
        }
    }

    /// The fixed inode of a structural node. Nodes that carry an identifier
    /// get their inode from the registry and have none here.
    pub fn inode(&self) -> (r: Option<u64>)
        ensures
            r == fixed_inode_of(self@),
    {
        match self {
            FsNode::Root => Some(INO_ROOT),
            FsNode::ModelsDir => Some(INO_MODELS),
            FsNode::ConfigDir => Some(INO_CONFIG),
            FsNode::ConversationsDir => Some(INO_CONVERSATIONS),
            FsNode::SemanticSearchDir => Some(INO_SEMANTIC_SEARCH),
            FsNode::GlobalSettingsFile => Some(INO_CONFIG_SETTINGS),
            FsNode::ConfigModelsDir => Some(INO_CONFIG_MODELS_DIR),
            FsNode::ConversationsLatestSymlink => Some(INO_CONVERSATIONS_LATEST),
            FsNode::SearchIndexDefaultSymlink => Some(INO_SEMANTIC_SEARCH_DEFAULT),
            FsNode::ModelDefaultSymlink => Some(INO_MODELS_DEFAULT),
            _ => None,
        }
    }

    /// The fixed inode of the node's parent, when the parent is structural.
    pub fn parent_inode(&self) -> (r: Option<u64>)
        ensures
            r == fixed_inode_of(parent_of(self@)),
    {
        self.parent().inode()
    }

    /// The directory that holds this node.
    pub fn parent(&self) -> (r: FsNode)
        ensures
            r@ == parent_of(self@),
    {
        match self {
            FsNode::Root | FsNode::ModelsDir | FsNode::ConfigDir | FsNode::ConversationsDir
            | FsNode::SemanticSearchDir => FsNode::Root,
            FsNode::ModelFile { .. } | FsNode::ModelDefaultSymlink => FsNode::ModelsDir,
            FsNode::GlobalSettingsFile | FsNode::ConfigModelsDir => FsNode::ConfigDir,
            FsNode::ConfigModelDir { .. } => FsNode::ConfigModelsDir,
            FsNode::ConfigModelSettingsFile { name } => FsNode::ConfigModelDir {
                name: name.clone(),
            },
            FsNode::ConversationsLatestSymlink | FsNode::ConversationDir { .. } =>
                FsNode::ConversationsDir,
            FsNode::PromptFile { conv_id } | FsNode::HistoryFile { conv_id }
            | FsNode::ContextFile { conv_id } | FsNode::ConversationConfigDir { conv_id } =>
                FsNode::ConversationDir { id: conv_id.clone() },
            FsNode::ConversationModelFile { conv_id }
            | FsNode::ConversationSystemPromptFile { conv_id }
            | FsNode::ConversationSettingsFile { conv_id } => FsNode::ConversationConfigDir {
                conv_id: conv_id.clone(),
            },
            FsNode::SearchIndexDir { .. } | FsNode::SearchIndexDefaultSymlink =>
                FsNode::SemanticSearchDir,
            FsNode::CorpusDir { index_id } | FsNode::QueryFile { index_id } =>
                FsNode::SearchIndexDir { index_id: index_id.clone() },
            FsNode::CorpusFile { index_id, .. } => FsNode::CorpusDir {
                index_id: index_id.clone(),
            },
            FsNode::NotFound => FsNode::NotFound,
        }
    }

    /// Directory, file, symlink, or the sentinel.
    pub fn kind(&self) -> (r: NodeKind)
        ensures
            r == kind_of(self@),
    {
        match self {
            FsNode::Root | FsNode::ModelsDir | FsNode::ConfigDir | FsNode::ConversationsDir
            | FsNode::SemanticSearchDir | FsNode::ConfigModelsDir | FsNode::ConfigModelDir { .. }
            | FsNode::ConversationDir { .. } | FsNode::ConversationConfigDir { .. }
            | FsNode::SearchIndexDir { .. } | FsNode::CorpusDir { .. } => NodeKind::Directory,
            FsNode::ModelDefaultSymlink | FsNode::ConversationsLatestSymlink
            | FsNode::SearchIndexDefaultSymlink => NodeKind::Symlink,
            FsNode::NotFound => NodeKind::Absent,
            _ => NodeKind::File,
        }
    }

    /// Whether the node is a file that accepts writes.
    pub fn is_writable(&self) -> (r: bool)
        ensures
            r == writable_of(self@),
    {
        match self {
            FsNode::HistoryFile { .. } => false,
            _ => self.kind() == NodeKind::File,
        }
    }

    /// The allocation slot of a node whose inode is assigned at run time.
    pub fn dynamic_slot(&self) -> (r: Option<usize>)
        ensures
            r matches Some(s) ==> dynamic_slot_of(self@) == Some(s as int) && s < DYNAMIC_KINDS,
            r is None ==> dynamic_slot_of(self@) is None,
    {
        match self {
            FsNode::ModelFile { .. } => Some(0),
            FsNode::ConfigModelDir { .. } => Some(1),
            FsNode::ConfigModelSettingsFile { .. } => Some(2),
            FsNode::ConversationDir { .. } => Some(3),
            FsNode::PromptFile { .. } => Some(4),
            FsNode::HistoryFile { .. } => Some(5),
            FsNode::ContextFile { .. } => Some(6),
            FsNode::ConversationConfigDir { .. } => Some(7),
            FsNode::ConversationModelFile { .. } => Some(8),
            FsNode::ConversationSystemPromptFile { .. } => Some(9),
            FsNode::ConversationSettingsFile { .. } => Some(10),
            FsNode::SearchIndexDir { .. } => Some(11),
            FsNode::CorpusDir { .. } => Some(12),
            FsNode::CorpusFile { .. } => Some(13),
            FsNode::QueryFile { .. } => Some(14),
            _ => None,
        }
    }
}

/// The inode range `[base, end)` of an allocation slot.
pub fn slot_range(slot: usize) -> (r: (u64, u64))
    requires
        slot < DYNAMIC_KINDS,
    ensures
        r == (slot_base(slot as int), slot_end(slot as int)),
{
    if slot == 0 { (1_000, 2_000) }
    else if slot == 1 { (2_000, 3_000) }
    else if slot == 2 { (3_000, 4_000) }
    else if slot == 3 { (10_000, 20_000) }
    else if slot == 4 { (20_000, 30_000) }
    else if slot == 5 { (30_000, 40_000) }
    else if slot == 6 { (40_000, 50_000) }
    else if slot == 7 { (50_000, 60_000) }
    else if slot == 8 { (60_000, 70_000) }
    else if slot == 9 { (70_000, 80_000) }
    else if slot == 10 { (80_000, 90_000) }
    else if slot == 11 { (100_000, 150_000) }
    else if slot == 12 { (150_000, 200_000) }
    else if slot == 13 { (200_000, 300_000) }
    else { (300_000, 400_000) }
}

/// The structural node that owns a fixed inode.
pub fn fixed_node(ino: u64) -> (r: Option<FsNode>)
    ensures
        r matches Some(n) ==> node_of_fixed_inode(ino) == Some(n@),
        r is None ==> node_of_fixed_inode(ino) is None,
{
    if ino == INO_ROOT {
        Some(FsNode::Root)
    } else if ino == INO_MODELS {
        Some(FsNode::ModelsDir)
    } else if ino == INO_CONFIG {
        Some(FsNode::ConfigDir)
    } else if ino == INO_CONVERSATIONS {
        Some(FsNode::ConversationsDir)
    } else if ino == INO_SEMANTIC_SEARCH {
        Some(FsNode::SemanticSearchDir)
    } else if ino == INO_CONFIG_SETTINGS {
        Some(FsNode::GlobalSettingsFile)
    } else if ino == INO_CONFIG_MODELS_DIR {
        Some(FsNode::ConfigModelsDir)
    } else if ino == INO_CONVERSATIONS_LATEST {
        Some(FsNode::ConversationsLatestSymlink)
    } else if ino == INO_SEMANTIC_SEARCH_DEFAULT {
        Some(FsNode::SearchIndexDefaultSymlink)
    } else if ino == INO_MODELS_DEFAULT {
        Some(FsNode::ModelDefaultSymlink)
    } else {
        None
    }
}

} // verus!
