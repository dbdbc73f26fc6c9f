use vstd::prelude::*;

use crate::node::{FsNode, NodeView};
use crate::state::{conv_ids, index_ids, texts, Conversation, FilesystemState, SearchIndex};
use crate::text::{owned, same_text};

verus! {

/// The mathematical value of a listing: names and nodes.
pub open spec fn entries_view(v: Seq<(String, FsNode)>) -> Seq<(Seq<char>, NodeView)> {
    v.map_values(|e: (String, FsNode)| (e.0@, e.1@))
}

/// The kinds of children whose names come from the state.
pub enum DynamicKind {
    Model,
    ConfigModel,
    Conversation,
    Index,
}

/// The node of a dynamic child.
pub open spec fn dynamic_node(kind: DynamicKind, name: Seq<char>) -> NodeView {
    match kind {
        DynamicKind::Model => NodeView::ModelFile { name },
        DynamicKind::ConfigModel => NodeView::ConfigModelDir { name },
        DynamicKind::Conversation => NodeView::ConversationDir { id: name },
        DynamicKind::Index => NodeView::SearchIndexDir { index_id: name },
    }
}

/// Entries named after a list of names.
pub open spec fn named_entries(kind: DynamicKind, names: Seq<Seq<char>>) -> Seq<(Seq<char>, NodeView)> {
    names.map_values(|n: Seq<char>| (n, dynamic_node(kind, n)))
}

/// Entries of a corpus directory.
pub open spec fn corpus_entries(index: Seq<char>, names: Seq<Seq<char>>) -> Seq<(Seq<char>, NodeView)> {
    names.map_values(|n: Seq<char>| (n, NodeView::CorpusFile { index_id: index, file_name: n }))
}

/// The children of a directory, in listing order: entries named by the
/// state first, in the order they were created, then the fixed entries in
/// lexical order. None when the node is not an existing directory.
pub open spec fn children_spec(dir: NodeView, st: FilesystemState) -> Option<Seq<(Seq<char>, NodeView)>> {
    let models = texts(st.config.models@);
    let convs = conv_ids(st.conversations@);
    let indexes = index_ids(st.search_indexes@);
    match dir {
        NodeView::Root => Some(
            seq![
                ("config"@, NodeView::ConfigDir),
                ("conversations"@, NodeView::ConversationsDir),
                ("models"@, NodeView::ModelsDir),
                ("semantic_search"@, NodeView::SemanticSearchDir),
            ],
        ),
        NodeView::ModelsDir => Some(
            named_entries(DynamicKind::Model, models) + seq![("default"@, NodeView::ModelDefaultSymlink)],
        ),
        NodeView::ConfigDir => Some(
            seq![("models"@, NodeView::ConfigModelsDir), ("settings"@, NodeView::GlobalSettingsFile)],
        ),
        NodeView::ConfigModelsDir => Some(named_entries(DynamicKind::ConfigModel, models)),
        NodeView::ConfigModelDir { name } => if models.contains(name) {
            Some(seq![("settings"@, NodeView::ConfigModelSettingsFile { name })])
        } else {
            None
        },
        NodeView::ConversationsDir => Some(
            named_entries(DynamicKind::Conversation, convs) + seq![
                ("latest"@, NodeView::ConversationsLatestSymlink),
            ],
        ),
        NodeView::ConversationDir { id } => if convs.contains(id) {
            Some(
                seq![
                    ("config"@, NodeView::ConversationConfigDir { conv_id: id }),
                    ("context"@, NodeView::ContextFile { conv_id: id }),
                    ("history"@, NodeView::HistoryFile { conv_id: id }),
                    ("prompt"@, NodeView::PromptFile { conv_id: id }),
                ],
            )
        } else {
            None
        },
        NodeView::ConversationConfigDir { conv_id } => if convs.contains(conv_id) {
            Some(
                seq![
                    ("model"@, NodeView::ConversationModelFile { conv_id }),
                    ("settings"@, NodeView::ConversationSettingsFile { conv_id }),
                    ("system_prompt"@, NodeView::ConversationSystemPromptFile { conv_id }),
                ],
            )
        } else {
            None
        },
        NodeView::SemanticSearchDir => Some(
            named_entries(DynamicKind::Index, indexes) + seq![
                ("default"@, NodeView::SearchIndexDefaultSymlink),
            ],
        ),
        NodeView::SearchIndexDir { index_id } => if indexes.contains(index_id) {
            Some(
                seq![
                    ("corpus"@, NodeView::CorpusDir { index_id }),
                    ("query"@, NodeView::QueryFile { index_id }),
                ],
            )
        } else {
            None
        },
        NodeView::CorpusDir { index_id } => match st.index_pos(index_id) {
            Some(i) => Some(corpus_entries(index_id, texts(st.search_indexes@[i].corpus_files@))),
            None => None,
        },
        _ => None,
    }
}

/// `/models` lists every offered model once, and none under the name of
/// the `default` link.
pub proof fn law_models_listed_once(st: FilesystemState)
    requires
        st.wf(),
    ensures
        children_spec(NodeView::ModelsDir, st) matches Some(c) && forall|a: int, b: int|
            0 <= a < c.len() && 0 <= b < c.len() && a != b ==> (#[trigger] c[a]).0 != (#[trigger] c[b]).0,
{
    let names = texts(st.config.models@);
    let m = named_entries(DynamicKind::Model, names);
    let c = children_spec(NodeView::ModelsDir, st)->Some_0;
    assert forall|a: int, b: int| 0 <= a < c.len() && 0 <= b < c.len() && a != b implies (#[trigger] c[a]).0 != (#[trigger] c[b]).0 by {
        if a < m.len() {
            assert(c[a] == m[a]);
            assert(c[a].0 == names[a]);
        }
        if b < m.len() {
            assert(c[b] == m[b]);
            assert(c[b].0 == names[b]);
        }
        if a == m.len() {
            assert(c[a].0 == "default"@);
            assert(names[b] != "default"@) by {
                if names[b] == "default"@ {
                    assert(names.contains("default"@));
                }
            }
        }
        if b == m.len() {
            assert(c[b].0 == "default"@);
            assert(names[a] != "default"@) by {
                if names[a] == "default"@ {
                    assert(names.contains("default"@));
                }
            }
        }
    }
}

/// No listed child is the sentinel.
pub proof fn lemma_children_are_nodes(dir: NodeView, st: FilesystemState)
    ensures
        children_spec(dir, st) matches Some(c) ==> forall|k: int| 0 <= k < c.len() ==> !((#[trigger] c[k]).1 is NotFound),
{
    if let Some(c) = children_spec(dir, st) {
        assert forall|k: int| 0 <= k < c.len() implies !((#[trigger] c[k]).1 is NotFound) by {
            match dir {
                NodeView::ModelsDir => {
                    let m = named_entries(DynamicKind::Model, texts(st.config.models@));
                    if k < m.len() {
                        assert(c[k] == m[k]);
                    }
                },
                NodeView::ConversationsDir => {
                    let m = named_entries(DynamicKind::Conversation, conv_ids(st.conversations@));
                    if k < m.len() {
                        assert(c[k] == m[k]);
                    }
                },
                NodeView::SemanticSearchDir => {
                    let m = named_entries(DynamicKind::Index, index_ids(st.search_indexes@));
                    if k < m.len() {
                        assert(c[k] == m[k]);
                    }
                },
                _ => {},
            }
        }
    }
}

/// The node of the first entry with a given name.
pub open spec fn first_named(entries: Seq<(Seq<char>, NodeView)>, name: Seq<char>) -> Option<NodeView>
    decreases entries.len(),
{
    if entries.len() == 0 {
        None
    } else if entries[0].0 == name {
        Some(entries[0].1)
    } else {
        first_named(entries.skip(1), name)
    }
}

/// What a name resolves to under a directory: the first child of that name,
/// or the sentinel.
pub open spec fn resolve_spec(dir: NodeView, name: Seq<char>, st: FilesystemState) -> NodeView {
    match children_spec(dir, st) {
        Some(entries) => match first_named(entries, name) {
            Some(n) => n,
            None => NodeView::NotFound,
        },
        None => NodeView::NotFound,
    }
}

/// The first entry of a name exists exactly when some entry has that name.
pub proof fn lemma_first_named(entries: Seq<(Seq<char>, NodeView)>, name: Seq<char>)
    ensures
        first_named(entries, name) is None <==> forall|i: int| 0 <= i < entries.len() ==> (#[trigger] entries[i]).0 != name,
        first_named(entries, name) matches Some(n) ==> exists|i: int| 0 <= i < entries.len() && #[trigger] entries[i] == (name, n),
    decreases entries.len(),
{
    if entries.len() > 0 {
        lemma_first_named(entries.skip(1), name);
        if entries[0].0 != name {
            assert forall|i: int| 1 <= i < entries.len() implies entries[i] == entries.skip(1)[i - 1] by {}
            if first_named(entries.skip(1), name) is None {
                assert forall|i: int| 0 <= i < entries.len() implies (#[trigger] entries[i]).0 != name by {
                    if i > 0 {
                        assert(entries.skip(1)[i - 1] == entries[i]);
                    }
                }
            } else {
                let n = first_named(entries.skip(1), name)->Some_0;
                let j = choose|j: int| 0 <= j < entries.skip(1).len() && #[trigger] entries.skip(1)[j] == (name, n);
                assert(entries[j + 1] == (name, n));
                assert(entries[j + 1].0 == name);
            }
        } else {
            assert(entries[0] == (name, entries[0].1));
        }
    }
}

/// A name resolves to the sentinel exactly when no listing of the directory
/// shows a child of that name; otherwise it resolves to a listed child.
pub proof fn law_resolve_agrees_with_listing(dir: NodeView, name: Seq<char>, st: FilesystemState)
    ensures
        resolve_spec(dir, name, st) is NotFound <==> (children_spec(dir, st) matches Some(entries) ==> forall|i: int|
            0 <= i < entries.len() ==> (#[trigger] entries[i]).0 != name || entries[i].1 is NotFound),
        !(resolve_spec(dir, name, st) is NotFound) ==> (children_spec(dir, st) matches Some(entries) && exists|i: int|
            0 <= i < entries.len() && #[trigger] entries[i] == (name, resolve_spec(dir, name, st))),
{
    if let Some(entries) = children_spec(dir, st) {
        lemma_first_named(entries, name);
        if let Some(n) = first_named(entries, name) {
            let i = choose|i: int| 0 <= i < entries.len() && #[trigger] entries[i] == (name, n);
            if n is NotFound {
                assert(entries[i].0 == name && entries[i].1 is NotFound);
            }
        }
        if resolve_spec(dir, name, st) is NotFound && first_named(entries, name) is Some {
            let n = first_named(entries, name)->Some_0;
            let i = choose|i: int| 0 <= i < entries.len() && #[trigger] entries[i] == (name, n);
            assert(entries[i].1 is NotFound);
        }
    }
}

/// An entry of a listing.
fn entry(name: &str, node: FsNode) -> (r: (String, FsNode))
    ensures
        r.0@ == name@,
        r.1@ == node@,
{
    (owned(name), node)
}

/// Entries named after a list of names.
fn named_entries_of(kind: &DynamicKind, names: &Vec<String>) -> (r: Vec<(String, FsNode)>)
    ensures
        entries_view(r@) == named_entries(*kind, texts(names@)),
{
    let mut v: Vec<(String, FsNode)> = Vec::new();
    let mut i: usize = 0;
    while i < names.len()
        invariant
            i <= names@.len(),
            v@.len() == i,
            forall|j: int| 0 <= j < i ==> (#[trigger] v@[j]).0@ == names@[j]@ && v@[j].1@ == dynamic_node(*kind, names@[j]@),
        decreases names@.len() - i,
    {
        let n = &names[i];
        let node = match kind {
            DynamicKind::Model => FsNode::ModelFile { name: n.clone() },
            DynamicKind::ConfigModel => FsNode::ConfigModelDir { name: n.clone() },
            DynamicKind::Conversation => FsNode::ConversationDir { id: n.clone() },
            DynamicKind::Index => FsNode::SearchIndexDir { index_id: n.clone() },
        };
        v.push((n.clone(), node));
        i += 1;
    }
    proof {
        assert(entries_view(v@) =~= named_entries(*kind, texts(names@)));
    }
    v
}

/// The ids of the conversations.
fn conversation_names(c: &Vec<Conversation>) -> (r: Vec<String>)
    ensures
        texts(r@) == conv_ids(c@),
{
    let mut v: Vec<String> = Vec::new();
    let mut i: usize = 0;
    while i < c.len()
        invariant
            i <= c@.len(),
            v@.len() == i,
            forall|j: int| 0 <= j < i ==> (#[trigger] v@[j])@ == c@[j].id@,
        decreases c@.len() - i,
    {
        v.push(c[i].id.clone());
        i += 1;
    }
    proof {
        assert(texts(v@) =~= conv_ids(c@));
    }
    v
}

/// The ids of the indexes.
fn index_names(c: &Vec<SearchIndex>) -> (r: Vec<String>)
    ensures
        texts(r@) == index_ids(c@),
{
    let mut v: Vec<String> = Vec::new();
    let mut i: usize = 0;
    while i < c.len()
        invariant
            i <= c@.len(),
            v@.len() == i,
            forall|j: int| 0 <= j < i ==> (#[trigger] v@[j])@ == c@[j].id@,
        decreases c@.len() - i,
    {
        v.push(c[i].id.clone());
        i += 1;
    }
    proof {
        assert(texts(v@) =~= index_ids(c@));
    }
    v
}

/// The entries of a corpus directory.
fn corpus_entries_of(index: &String, names: &Vec<String>) -> (r: Vec<(String, FsNode)>)
    ensures
        entries_view(r@) == corpus_entries(index@, texts(names@)),
{
    let mut v: Vec<(String, FsNode)> = Vec::new();
    let mut i: usize = 0;
    while i < names.len()
        invariant
            i <= names@.len(),
            v@.len() == i,
            forall|j: int| 0 <= j < i ==> (#[trigger] v@[j]).0@ == names@[j]@ && v@[j].1@ == (NodeView::CorpusFile { index_id: index@, file_name: names@[j]@ }),
        decreases names@.len() - i,
    {
        let n = &names[i];
        v.push((n.clone(), FsNode::CorpusFile { index_id: index.clone(), file_name: n.clone() }));
        i += 1;
    }
    proof {
        assert(entries_view(v@) =~= corpus_entries(index@, texts(names@)));
    }
    v
}

/// Whether a list of texts holds a given one.
fn contains_text(names: &Vec<String>, name: &str) -> (r: bool)
    ensures
        r == texts(names@).contains(name@),
{
    let mut i: usize = 0;
    while i < names.len()
        invariant
            i <= names@.len(),
            forall|t: int| 0 <= t < i ==> (#[trigger] names@[t])@ != name@,
        decreases names@.len() - i,
    {
        if same_text(names[i].as_str(), name) {
            proof {
                assert(texts(names@)[i as int] == name@);
            }
            return true;
        }
        i += 1;
    }
    proof {
        if texts(names@).contains(name@) {
            let t = choose|t: int| 0 <= t < texts(names@).len() && texts(names@)[t] == name@;
            assert(names@[t]@ == name@);
        }
    }
    false
}

/// Lists the children of a directory, in listing order. None when the node
/// is not an existing directory.
pub fn list_children(dir: &FsNode, st: &FilesystemState) -> (r: Option<Vec<(String, FsNode)>>)
    requires
        st.wf(),
    ensures
        r matches Some(v) ==> children_spec(dir@, *st) == Some(entries_view(v@)),
        r is None ==> children_spec(dir@, *st) is None,
{
    match dir {
        FsNode::Root => {
            let v = vec![
                entry("config", FsNode::ConfigDir),
                entry("conversations", FsNode::ConversationsDir),
                entry("models", FsNode::ModelsDir),
                entry("semantic_search", FsNode::SemanticSearchDir),
            ];
            proof {
                assert(entries_view(v@) =~= children_spec(dir@, *st)->Some_0);
            }
            Some(v)
        },
        FsNode::ModelsDir => {
            let mut v = named_entries_of(&DynamicKind::Model, &st.config.models);
            let ghost head = entries_view(v@);
            v.push(entry("default", FsNode::ModelDefaultSymlink));
            proof {
                assert(entries_view(v@) =~= head + seq![("default"@, NodeView::ModelDefaultSymlink)]);
            }
            Some(v)
        },
        FsNode::ConfigDir => {
            let v = vec![entry("models", FsNode::ConfigModelsDir), entry("settings", FsNode::GlobalSettingsFile)];
            proof {
                assert(entries_view(v@) =~= children_spec(dir@, *st)->Some_0);
            }
            Some(v)
        },
        FsNode::ConfigModelsDir => Some(named_entries_of(&DynamicKind::ConfigModel, &st.config.models)),
        FsNode::ConfigModelDir { name } => {
            if !contains_text(&st.config.models, name.as_str()) {
                return None;
            }
            let v = vec![entry("settings", FsNode::ConfigModelSettingsFile { name: name.clone() })];
            proof {
                assert(entries_view(v@) =~= children_spec(dir@, *st)->Some_0);
            }
            Some(v)
        },
        FsNode::ConversationsDir => {
            let names = conversation_names(&st.conversations);
            let mut v = named_entries_of(&DynamicKind::Conversation, &names);
            let ghost head = entries_view(v@);
            v.push(entry("latest", FsNode::ConversationsLatestSymlink));
            proof {
                assert(entries_view(v@) =~= head + seq![("latest"@, NodeView::ConversationsLatestSymlink)]);
            }
            Some(v)
        },
        FsNode::ConversationDir { id } => {
            if st.conversation_index(id.as_str()).is_none() {
                return None;
            }
            let v = vec![
                entry("config", FsNode::ConversationConfigDir { conv_id: id.clone() }),
                entry("context", FsNode::ContextFile { conv_id: id.clone() }),
                entry("history", FsNode::HistoryFile { conv_id: id.clone() }),
                entry("prompt", FsNode::PromptFile { conv_id: id.clone() }),
            ];
            proof {
                assert(conv_ids(st.conversations@).contains(id@));
                assert(entries_view(v@) =~= children_spec(dir@, *st)->Some_0);
            }
            Some(v)
        },
        FsNode::ConversationConfigDir { conv_id } => {
            if st.conversation_index(conv_id.as_str()).is_none() {
                return None;
            }
            let v = vec![
                entry("model", FsNode::ConversationModelFile { conv_id: conv_id.clone() }),
                entry("settings", FsNode::ConversationSettingsFile { conv_id: conv_id.clone() }),
                entry("system_prompt", FsNode::ConversationSystemPromptFile { conv_id: conv_id.clone() }),
            ];
            proof {
                assert(conv_ids(st.conversations@).contains(conv_id@));
                assert(entries_view(v@) =~= children_spec(dir@, *st)->Some_0);
            }
            Some(v)
        },
        FsNode::SemanticSearchDir => {
            let names = index_names(&st.search_indexes);
            let mut v = named_entries_of(&DynamicKind::Index, &names);
            let ghost head = entries_view(v@);
            v.push(entry("default", FsNode::SearchIndexDefaultSymlink));
            proof {
                assert(entries_view(v@) =~= head + seq![("default"@, NodeView::SearchIndexDefaultSymlink)]);
            }
            Some(v)
        },
        FsNode::SearchIndexDir { index_id } => {
            if st.index_position(index_id.as_str()).is_none() {
                return None;
            }
            let v = vec![
                entry("corpus", FsNode::CorpusDir { index_id: index_id.clone() }),
                entry("query", FsNode::QueryFile { index_id: index_id.clone() }),
            ];
            proof {
                assert(index_ids(st.search_indexes@).contains(index_id@));
                assert(entries_view(v@) =~= children_spec(dir@, *st)->Some_0);
            }
            Some(v)
        },
        FsNode::CorpusDir { index_id } => {
            match st.index_position(index_id.as_str()) {
                Some(i) => Some(corpus_entries_of(index_id, &st.search_indexes[i].corpus_files)),
                None => None,
            }
        },
        _ => None,
    }
}

/// Resolves a name under a directory: the first listed child of that name,
/// or the sentinel.
pub fn resolve(dir: &FsNode, name: &str, st: &FilesystemState) -> (r: FsNode)
    requires
        st.wf(),
    ensures
        r@ == resolve_spec(dir@, name@, *st),
{
    match list_children(dir, st) {
        None => FsNode::NotFound,
        Some(v) => {
            let ghost ev = entries_view(v@);
            let mut i: usize = 0;
            proof {
                assert(ev.skip(0) =~= ev);
            }
            while i < v.len()
                invariant
                    i <= v@.len(),
                    ev == entries_view(v@),
                    children_spec(dir@, *st) == Some(ev),
                    first_named(ev.skip(i as int), name@) == first_named(ev, name@),
                decreases v@.len() - i,
            {
                proof {
                    assert(ev.skip(i as int)[0] == ev[i as int]);
                    assert(ev.skip(i as int).skip(1) =~= ev.skip(i + 1));
                }
                proof {
                    assert(ev[i as int] == (v@[i as int].0@, v@[i as int].1@));
                }
                if same_text(v[i].0.as_str(), name) {
                    proof {
                        assert(ev.skip(i as int)[0].0 == name@);
                        assert(first_named(ev.skip(i as int), name@) == Some(ev[i as int].1));
                    }
                    return v[i].1.duplicate();
                }
                i += 1;
            }
            proof {
                assert(ev.skip(i as int).len() == 0);
            }
            FsNode::NotFound
        },
    }
}

/// Walks a path left to right: the node reached by the completed
/// components, and the component being read. Empty components (`//`, a
/// leading or trailing `/`) are skipped.
pub open spec fn walk_path(p: Seq<char>, st: FilesystemState) -> (NodeView, Seq<char>)
    decreases p.len(),
{
    if p.len() == 0 {
        (NodeView::Root, Seq::empty())
    } else {
        let (n, w) = walk_path(p.drop_last(), st);
        if p.last() == '/' {
            if w.len() == 0 {
                (n, w)
            } else {
                (resolve_spec(n, w, st), Seq::empty())
            }
        } else {
            (n, w.push(p.last()))
        }
    }
}

/// The node a path names, resolving each `/`-separated component from the
/// root.
pub open spec fn resolve_path_spec(p: Seq<char>, st: FilesystemState) -> NodeView {
    let (n, w) = walk_path(p, st);
    if w.len() == 0 {
        n
    } else {
        resolve_spec(n, w, st)
    }
}

/// Resolves a path such as `/conversations/chat1/prompt` to its node.
pub fn resolve_path(path: &str, st: &FilesystemState) -> (r: FsNode)
    requires
        st.wf(),
    ensures
        r@ == resolve_path_spec(path@, *st),
{
    let n = path.unicode_len();
    let mut node = FsNode::Root;
    let mut start: usize = 0;
    let mut i: usize = 0;
    proof {
        assert(path@.take(0) =~= Seq::<char>::empty());
        assert(path@.subrange(0, 0) =~= Seq::<char>::empty());
    }
    while i < n
        invariant
            n == path@.len(),
            start <= i <= n,
            st.wf(),
            walk_path(path@.take(i as int), *st) == (node@, path@.subrange(start as int, i as int)),
        decreases n - i,
    {
        let c = path.get_char(i);
        proof {
            assert(path@.take(i + 1).drop_last() =~= path@.take(i as int));
            assert(path@.take(i + 1).last() == c);
        }
        if c == '/' {
            if start < i {
                let word = path.substring_char(start, i);
                node = resolve(&node, word, st);
            }
            start = i + 1;
            i += 1;
            proof {
                assert(path@.subrange(start as int, i as int) =~= Seq::<char>::empty());
            }
        } else {
            i += 1;
            proof {
                assert(path@.subrange(start as int, i as int) =~= path@.subrange(start as int, i - 1).push(c));
            }
        }
    }
    proof {
        assert(path@.take(n as int) =~= path@);
    }
    if start < n {
        let word = path.substring_char(start, n);
        resolve(&node, word, st)
    } else {
        node
    }
}

} // verus!
