use vstd::prelude::*;

use crate::config::{GlobalConfig, ModelConfig};
use crate::error::FuseLlmError;
use crate::handlers::{
    exists_spec, handle_getattr, handle_read, handle_readlink, link_target_spec, read_spec, splice_into,
    spliced, Attr,
};
use crate::node::{kind_of, writable_of, FsNode, NodeKind, NodeView};
use crate::registry::InodeRegistry;
use crate::resolver::{children_spec, list_children, resolve, resolve_spec};
use crate::chat::{conversation_request, messages_view, model_request};
use crate::handlers::valid_name;
use crate::settings::{apply_conversation_settings, apply_global_settings, apply_model_settings};
use crate::state::{error_marker, FilesystemState, Message, MessageRole};
use crate::text::{decoded_text, owned, same_text, strip_newline, text_from_bytes, without_newline};
use crate::wire::SearchRequest;

verus! {

/// One entry of a directory listing.
#[derive(Debug)]
pub struct DirEntry {
    pub inode: u64,
    pub name: String,
    pub file_type: NodeKind,
}

/// The mathematical value of a listing entry.
pub open spec fn dir_entry_view(e: DirEntry) -> (u64, Seq<char>, NodeKind) {
    (e.inode, e.name@, e.file_type)
}

/// An open file: the node and the bytes written through this handle.
#[derive(Debug)]
pub struct OpenFile {
    pub fh: u64,
    pub node: FsNode,
    pub buffer: Vec<u8>,
    /// A write or truncation happened, so closing the handle commits.
    pub written: bool,
}

/// An open directory: the listing taken when it was opened.
#[derive(Debug)]
pub struct DirListing {
    pub fh: u64,
    pub entries: Vec<DirEntry>,
}

/// Outside work the caller must perform, then report with `complete`.
#[derive(Debug)]
pub enum Action {
    /// Nothing to do.
    Nothing,
    /// Send a conversation's next request to the language model.
    Chat { conversation: String, model: String, config: ModelConfig, messages: Vec<Message> },
    /// Send a one-off prompt to a model.
    ModelQuery { model: String, config: ModelConfig, messages: Vec<Message> },
    /// Send a request to the search service.
    Search(SearchRequest),
}

/// What a namespace operation did.
#[derive(Debug)]
pub enum Outcome {
    /// The operation is complete.
    Done,
    /// A new entry exists, with its inode and attributes.
    Entry(u64, Attr),
    /// The operation waits for an outside request; `complete` commits it.
    Pending(Action),
}

/// The listing entries from a cookie on, each with the cookie that resumes
/// after it: entry `k` (from 0) carries cookie `k + 1`.
pub open spec fn page_spec<A>(entries: Seq<A>, offset: int) -> Seq<(int, A)> {
    if offset >= entries.len() {
        Seq::empty()
    } else {
        Seq::new((entries.len() - offset) as nat, |k: int| (offset + k + 1, entries[offset + k]))
    }
}

/// Paging never skips or repeats an entry: a caller that takes any prefix of
/// a page and resumes at the cookie of the last entry it took gets exactly
/// the rest of that page, and the first page holds every entry once, in
/// order.
pub proof fn law_pages_cover_listing<A>(entries: Seq<A>, offset: int, taken: int)
    requires
        0 <= offset,
        0 <= taken <= page_spec(entries, offset).len(),
    ensures
        page_spec(entries, offset).take(taken) + page_spec(entries, offset + taken) == page_spec(entries, offset),
        taken > 0 ==> page_spec(entries, offset)[taken - 1].0 == offset + taken,
        page_spec(entries, 0).len() == entries.len(),
        forall|j: int| 0 <= j < entries.len() ==> #[trigger] page_spec(entries, 0)[j] == (j + 1, entries[j]),
{
    let p = page_spec(entries, offset);
    let q = page_spec(entries, offset + taken);
    assert(p.take(taken) + q =~= p);
}

/// The engine behind the kernel callbacks: the state, the inode registry,
/// and the open handles.
pub struct FuseLlm {
    pub state: FilesystemState,
    pub registry: InodeRegistry,
    pub open_files: Vec<OpenFile>,
    pub listings: Vec<DirListing>,
    pub next_fh: u64,
}

/// The filesystem as the kernel adapter sees it.
pub type FuseLlmFs = FuseLlm;

impl FuseLlm {
    /// The engine invariant.
    pub open spec fn wf(&self) -> bool {
        self.state.wf() && self.registry.wf()
    }

    /// The node an inode names.
    pub open spec fn node_spec(&self, ino: u64) -> Option<NodeView> {
        self.registry.lookup_spec(ino)
    }

    /// The position of an open file handle.
    pub open spec fn file_pos(&self, fh: u64) -> Option<int> {
        if exists|i: int| self.first_handle_at(fh, i) {
            Some(choose|i: int| self.first_handle_at(fh, i))
        } else {
            None
        }
    }

    /// The handle at `i` is the first one numbered `fh`.
    pub open spec fn first_handle_at(&self, fh: u64, i: int) -> bool {
        &&& 0 <= i < self.open_files@.len()
        &&& self.open_files@[i].fh == fh
        &&& forall|j: int| 0 <= j < i ==> (#[trigger] self.open_files@[j]).fh != fh
    }

    /// A fresh engine over a configuration snapshot.
    pub fn new(config: GlobalConfig) -> (r: FuseLlm)
        requires
            config.models_ok(),
        ensures
            r.wf(),
            r.state.config == config,
            r.state.conversations@.len() == 0,
            r.state.search_indexes@.len() == 0,
    {
        FuseLlm {
            state: FilesystemState::new(config),
            registry: InodeRegistry::new(),
            open_files: Vec::new(),
            listings: Vec::new(),
            next_fh: 1,
        }
    }

    /// The node an inode names, `NotFound` when it names none.
    pub fn node_of(&self, ino: u64) -> (r: Result<FsNode, FuseLlmError>)
        requires
            self.wf(),
        ensures
            r matches Ok(n) ==> self.node_spec(ino) == Some(n@),
            r is Err ==> self.node_spec(ino) is None,
            r matches Err(e) ==> e is NotFound,
    {
        match self.registry.lookup_node(ino) {
            Some(n) => Ok(n),
            None => Err(FuseLlmError::NotFound),
        }
    }

    /// Looks a name up under a directory inode: the child's inode and
    /// attributes. `NotFound` when the directory is unknown, the name
    /// resolves to nothing or the child is gone; `Unsupported` only when the
    /// child's inode range is spent.
    pub fn lookup(&mut self, parent: u64, name: &str) -> (r: Result<(u64, Attr), FuseLlmError>)
        requires
            old(self).wf(),
        ensures
            final(self).wf(),
            final(self).state == old(self).state,
            r matches Ok((ino, a)) ==> old(self).node_spec(parent) matches Some(p) && final(self).node_spec(ino)
                == Some(resolve_spec(p, name@, old(self).state)) && !(resolve_spec(p, name@, old(self).state) is NotFound)
                && exists_spec(resolve_spec(p, name@, old(self).state), old(self).state)
                && a.size == crate::handlers::size_spec(resolve_spec(p, name@, old(self).state), old(self).state)
                && a.kind == kind_of(resolve_spec(p, name@, old(self).state))
                && a.perm == crate::handlers::perm_spec(resolve_spec(p, name@, old(self).state))
                && (old(self).node_spec(ino) == Some(resolve_spec(p, name@, old(self).state)) || !old(self).registry.issued(ino)),
            old(self).node_spec(parent) is None ==> r == Err::<(u64, Attr), FuseLlmError>(FuseLlmError::NotFound),
            old(self).node_spec(parent) matches Some(p) ==> (resolve_spec(p, name@, old(self).state) is NotFound || !exists_spec(
                resolve_spec(p, name@, old(self).state),
                old(self).state,
            )) ==> r == Err::<(u64, Attr), FuseLlmError>(FuseLlmError::NotFound),
            old(self).node_spec(parent) matches Some(p) ==> (!(resolve_spec(p, name@, old(self).state) is NotFound) && exists_spec(
                resolve_spec(p, name@, old(self).state),
                old(self).state,
            ) && old(self).registry.can_intern(resolve_spec(p, name@, old(self).state))) ==> r is Ok,
            r == Err::<(u64, Attr), FuseLlmError>(FuseLlmError::Unsupported) ==> (old(self).node_spec(parent) matches Some(p)
                && !old(self).registry.can_intern(resolve_spec(p, name@, old(self).state))),
            r matches Err(e) ==> e is NotFound || e is Unsupported,
    {
        let p = match self.node_of(parent) {
            Ok(p) => p,
            Err(e) => return Err(e),
        };
        let child = resolve(&p, name, &self.state);
        if child.kind() == NodeKind::Absent {
            return Err(FuseLlmError::NotFound);
        }
        let attr = match handle_getattr(&child, &self.state) {
            Ok(a) => a,
            Err(e) => return Err(e),
        };
        match self.registry.intern(&child) {
            Some(ino) => Ok((ino, attr)),
            None => Err(FuseLlmError::Unsupported),
        }
    }

    /// The attributes of an inode.
    pub fn getattr(&self, ino: u64) -> (r: Result<Attr, FuseLlmError>)
        requires
            self.wf(),
        ensures
            r is Ok <==> (self.node_spec(ino) matches Some(n) && exists_spec(n, self.state)),
            r matches Ok(a) ==> self.node_spec(ino) matches Some(n) && a.size == crate::handlers::size_spec(n, self.state)
                && a.kind == kind_of(n) && a.perm == crate::handlers::perm_spec(n)
                && a.nlink == (if kind_of(n) == NodeKind::Directory { 2u32 } else { 1u32 }),
            r matches Err(e) ==> e is NotFound,
    {
        let n = self.node_of(ino)?;
        handle_getattr(&n, &self.state)
    }

    /// Reads `size` bytes at `offset` of a file's rendered content.
    pub fn read(&self, ino: u64, offset: u64, size: u64) -> (r: Result<Vec<u8>, FuseLlmError>)
        requires
            self.wf(),
        ensures
            r matches Ok(b) ==> self.node_spec(ino) matches Some(n) && read_spec(n, self.state, offset as int, size as int)
                == Some(b@),
            r is Err ==> self.node_spec(ino) is None || read_spec(self.node_spec(ino)->Some_0, self.state, offset as int, size as int) is None,
            r matches Err(e) ==> e is NotFound,
    {
        let n = self.node_of(ino)?;
        handle_read(&n, &self.state, offset, size)
    }

    /// The target of a link.
    pub fn readlink(&self, ino: u64) -> (r: Result<String, FuseLlmError>)
        requires
            self.wf(),
        ensures
            r matches Ok(t) ==> self.node_spec(ino) matches Some(n) && link_target_spec(n, self.state) == Some(t@),
            r is Err ==> self.node_spec(ino) is None || link_target_spec(self.node_spec(ino)->Some_0, self.state) is None,
            r matches Err(e) ==> e is NotFound,
    {
        let n = self.node_of(ino)?;
        handle_readlink(&n, &self.state)
    }

    fn new_handle(&mut self) -> (r: u64)
        ensures
            final(self).state == old(self).state,
            final(self).registry == old(self).registry,
            final(self).open_files == old(self).open_files,
            final(self).listings == old(self).listings,
    {
        let fh = self.next_fh;
        self.next_fh = if self.next_fh < u64::MAX { self.next_fh + 1 } else { 1 };
        fh
    }

    /// Opens an existing file with an empty write buffer.
    pub fn open(&mut self, ino: u64) -> (r: Result<u64, FuseLlmError>)
        requires
            old(self).wf(),
        ensures
            final(self).wf(),
            final(self).state == old(self).state,
            r is Ok <==> (old(self).node_spec(ino) matches Some(n) && kind_of(n) == NodeKind::File && exists_spec(n, old(self).state)),
            r matches Ok(fh) ==> final(self).open_files@.len() == old(self).open_files@.len() + 1
                && final(self).open_files@.last().fh == fh
                && final(self).open_files@.last().buffer@.len() == 0
                && !final(self).open_files@.last().written
                && Some(final(self).open_files@.last().node@) == old(self).node_spec(ino),
            r matches Err(e) ==> e is NotFound || e is AccessDenied,
    {
        let n = self.node_of(ino)?;
        handle_getattr(&n, &self.state)?;
        if n.kind() != NodeKind::File {
            return Err(FuseLlmError::AccessDenied);
        }
        let fh = self.new_handle();
        self.open_files.push(OpenFile { fh, node: n, buffer: Vec::new(), written: false });
        Ok(fh)
    }

    /// The position of an open file handle.
    pub fn file_position(&self, fh: u64) -> (r: Option<usize>)
        ensures
            r matches Some(i) ==> self.file_pos(fh) == Some(i as int) && i < self.open_files@.len() && self.open_files@[i as int].fh == fh,
            r is None ==> self.file_pos(fh) is None,
    {
        let mut i: usize = 0;
        while i < self.open_files.len()
            invariant
                i <= self.open_files@.len(),
                forall|t: int| 0 <= t < i ==> (#[trigger] self.open_files@[t]).fh != fh,
            decreases self.open_files@.len() - i,
        {
            if self.open_files[i].fh == fh {
                proof {
                    assert(self.first_handle_at(fh, i as int));
                    let c = choose|c: int| self.first_handle_at(fh, c);
                    if c < i {
                        assert(self.open_files@[c].fh != fh);
                    } else if c > i {
                        assert(self.open_files@[i as int].fh != fh);
                    }
                }
                return Some(i);
            }
            i += 1;
        }
        proof {
            assert forall|c: int| !self.first_handle_at(fh, c) by {
                if 0 <= c < self.open_files@.len() {
                    assert(self.open_files@[c].fh != fh);
                }
            }
        }
        None
    }

    /// Writes into a handle's buffer at an offset; the message is committed
    /// when the handle is released. Returns the number of bytes accepted.
    pub fn write(&mut self, fh: u64, offset: u64, data: &[u8]) -> (r: Result<usize, FuseLlmError>)
        requires
            old(self).wf(),
        ensures
            final(self).wf(),
            final(self).state == old(self).state,
            final(self).registry == old(self).registry,
            old(self).file_pos(fh) is None ==> r == Err::<usize, FuseLlmError>(FuseLlmError::NotFound),
            old(self).file_pos(fh) matches Some(i) ==> !writable_of(old(self).open_files@[i].node@) ==> r
                == Err::<usize, FuseLlmError>(FuseLlmError::AccessDenied),
            old(self).file_pos(fh) matches Some(i) ==> writable_of(old(self).open_files@[i].node@) ==> offset + data@.len()
                > crate::handlers::MAX_BUFFER_LEN ==> (r matches Err(e) && e is InvalidInput),
            old(self).file_pos(fh) matches Some(i) ==> writable_of(old(self).open_files@[i].node@) ==> offset + data@.len()
                <= crate::handlers::MAX_BUFFER_LEN ==> (r == Ok::<usize, FuseLlmError>(data@.len() as usize)
                && final(self).open_files@.len() == old(self).open_files@.len()
                && final(self).open_files@[i].buffer@ == spliced(old(self).open_files@[i].buffer@, offset as int, data@)
                && final(self).open_files@[i].written && final(self).open_files@[i].node == old(self).open_files@[i].node
                && final(self).open_files@[i].fh == fh),
            r is Err ==> final(self).open_files == old(self).open_files,
            r matches Err(e) ==> e is NotFound || e is AccessDenied || e is InvalidInput,
    {
        let i = match self.file_position(fh) {
            Some(i) => i,
            None => return Err(FuseLlmError::NotFound),
        };
        if !self.open_files[i].node.is_writable() {
            return Err(FuseLlmError::AccessDenied);
        }
        let b = splice_into(&self.open_files[i].buffer, offset, data)?;
        self.open_files[i].buffer = b;
        self.open_files[i].written = true;
        proof {
            assert(self.open_files@[i as int].buffer@ == spliced(old(self).open_files@[i as int].buffer@, offset as int, data@));
        }
        Ok(data.len())
    }

    /// Empties a handle's buffer, as a truncation to zero does.
    pub fn truncate(&mut self, fh: u64) -> (r: Result<(), FuseLlmError>)
        requires
            old(self).wf(),
        ensures
            final(self).wf(),
            final(self).state == old(self).state,
            r is Ok <==> old(self).file_pos(fh) is Some,
            old(self).file_pos(fh) matches Some(i) ==> final(self).open_files@.len() == old(self).open_files@.len()
                && final(self).open_files@[i].buffer@.len() == 0 && final(self).open_files@[i].written
                && final(self).open_files@[i].node == old(self).open_files@[i].node,
            r matches Err(e) ==> e is NotFound,
    {
        let i = match self.file_position(fh) {
            Some(i) => i,
            None => return Err(FuseLlmError::NotFound),
        };
        self.open_files[i].buffer = Vec::new();
        self.open_files[i].written = true;
        Ok(())
    }

    /// Interns the nodes of a directory's children, in listing order.
    fn listing_entries(&mut self, dir_ino: u64, dir: &FsNode) -> (r: Result<Vec<DirEntry>, FuseLlmError>)
        requires
            old(self).wf(),
        ensures
            final(self).wf(),
            final(self).state == old(self).state,
            final(self).listings == old(self).listings,
            final(self).open_files == old(self).open_files,
            r is Ok ==> children_spec(dir@, old(self).state) is Some,
            children_spec(dir@, old(self).state) is None ==> r == Err::<Vec<DirEntry>, FuseLlmError>(FuseLlmError::NotFound),
            children_spec(dir@, old(self).state) matches Some(c) ==> old(self).registry.has_room(c.len() as int + 1) ==> r is Ok,
            r matches Ok(v) ==> v@.len() == children_spec(dir@, old(self).state)->Some_0.len() + 2
                && v@[0].name@ == "."@ && v@[0].inode == dir_ino && v@[1].name@ == ".."@
                && forall|k: int| 0 <= k < v@.len() - 2 ==> (#[trigger] v@[k + 2]).name@ == children_spec(dir@, old(self).state)->Some_0[k].0
                    && final(self).node_spec(v@[k + 2].inode) == Some(children_spec(dir@, old(self).state)->Some_0[k].1),
            r matches Err(e) ==> e is NotFound || e is Unsupported,
    {
        let children = match list_children(dir, &self.state) {
            Some(c) => c,
            None => return Err(FuseLlmError::NotFound),
        };
        let parent = dir.parent();
        let parent_ino = match self.registry.intern(&parent) {
            Some(i) => i,
            None => dir_ino,
        };
        let mut v: Vec<DirEntry> = vec![
            DirEntry { inode: dir_ino, name: crate::text::owned("."), file_type: NodeKind::Directory },
            DirEntry { inode: parent_ino, name: crate::text::owned(".."), file_type: NodeKind::Directory },
        ];
        let ghost cs = crate::resolver::entries_view(children@);
        let mut k: usize = 0;
        while k < children.len()
            invariant
                self.wf(),
                self.state == old(self).state,
                self.listings == old(self).listings,
                self.open_files == old(self).open_files,
                cs == crate::resolver::entries_view(children@),
                children_spec(dir@, old(self).state) == Some(cs),
                k <= children@.len(),
                old(self).registry.has_room(cs.len() as int + 1) ==> self.registry.has_room(cs.len() as int - k as int),
                v@.len() == k + 2,
                v@[0].name@ == "."@ && v@[0].inode == dir_ino && v@[1].name@ == ".."@,
                forall|t: int| 0 <= t < k ==> (#[trigger] v@[t + 2]).name@ == cs[t].0 && self.node_spec(v@[t + 2].inode) == Some(cs[t].1),
            decreases children@.len() - k,
        {
            let (name, node) = (&children[k].0, &children[k].1);
            let ghost before = self.registry;
            proof {
                if old(self).registry.has_room(cs.len() as int + 1) {
                    assert forall|m: int| 0 <= m <= cs.len() - k implies #[trigger] before.has_room(m) by {
                        assert forall|s: int| 0 <= s < crate::node::DYNAMIC_KINDS implies #[trigger] before.counter(s) + m <= crate::node::slot_end(s) by {
                            assert(before.counter(s) + (cs.len() - k) <= crate::node::slot_end(s));
                        }
                    }
                }
            }
            proof {
                assert(cs[k as int] == (name@, node@));
                crate::resolver::lemma_children_are_nodes(dir@, old(self).state);
                if old(self).registry.has_room(cs.len() as int + 1) {
                    assert(before.has_room(1));
                    before.lemma_room_allows_intern(node@);
                }
            }
            let ino = match self.registry.intern(node) {
                Some(i) => i,
                None => return Err(FuseLlmError::Unsupported),
            };
            proof {
                assert(cs[k as int] == (name@, node@));
                assert forall|t: int| 0 <= t < k implies (#[trigger] v@[t + 2]).name@ == cs[t].0 && self.node_spec(v@[t + 2].inode) == Some(cs[t].1) by {
                    if v@[t + 2].inode == ino {
                        assert(before.lookup_spec(ino) == Some(cs[t].1));
                        if crate::node::node_of_fixed_inode(ino) is None {
                            before.lemma_table_well_kinded(ino);
                        }
                        assert(before.issued(ino));
                        assert(self.node_spec(ino) == Some(node@));
                    }
                }
            }
            v.push(DirEntry { inode: ino, name: name.clone(), file_type: node.kind() });
            k += 1;
        }
        Ok(v)
    }

    /// Opens a directory: its listing is taken now, so that paging through
    /// it sees one consistent snapshot.
    pub fn opendir(&mut self, ino: u64) -> (r: Result<u64, FuseLlmError>)
        requires
            old(self).wf(),
        ensures
            final(self).wf(),
            final(self).state == old(self).state,
            r is Ok ==> (old(self).node_spec(ino) matches Some(n) && children_spec(n, old(self).state) is Some),
            r matches Ok(fh) ==> final(self).listings@.len() == old(self).listings@.len() + 1
                && final(self).listings@.last().fh == fh && final(self).listings@.drop_last() == old(self).listings@
                && final(self).listings@.last().entries@.len() == children_spec(old(self).node_spec(ino)->Some_0, old(self).state)->Some_0.len() + 2
                && final(self).listings@.last().entries@[0].name@ == "."@
                && final(self).listings@.last().entries@[0].inode == ino
                && final(self).listings@.last().entries@[1].name@ == ".."@
                && forall|k: int| 0 <= k < final(self).listings@.last().entries@.len() - 2 ==> (#[trigger] final(self).listings@.last().entries@[k + 2]).name@
                    == children_spec(old(self).node_spec(ino)->Some_0, old(self).state)->Some_0[k].0
                    && final(self).node_spec(final(self).listings@.last().entries@[k + 2].inode)
                    == Some(children_spec(old(self).node_spec(ino)->Some_0, old(self).state)->Some_0[k].1),
            old(self).node_spec(ino) is None ==> r == Err::<u64, FuseLlmError>(FuseLlmError::NotFound),
            old(self).node_spec(ino) matches Some(n) ==> children_spec(n, old(self).state) is None ==> r == Err::<u64, FuseLlmError>(FuseLlmError::NotFound),
            old(self).node_spec(ino) matches Some(n) ==> children_spec(n, old(self).state) matches Some(c) ==> old(self).registry.has_room(
                c.len() as int + 1,
            ) ==> r is Ok,
            r matches Err(e) ==> e is NotFound || e is Unsupported,
    {
        let n = self.node_of(ino)?;
        let entries = self.listing_entries(ino, &n)?;
        let fh = self.new_handle();
        self.listings.push(DirListing { fh, entries });
        proof {
            assert(self.listings@.drop_last() =~= old(self).listings@);
        }
        Ok(fh)
    }

    /// The entries of an open directory from a cookie on, each with its
    /// resume cookie.
    pub fn readdir(&self, fh: u64, offset: u64) -> (r: Result<Vec<(u64, DirEntry)>, FuseLlmError>)
        ensures
            r matches Ok(v) ==> exists|i: int| 0 <= i < self.listings@.len() && #[trigger] self.listings@[i].fh == fh
                && (forall|j: int| 0 <= j < i ==> (#[trigger] self.listings@[j]).fh != fh)
                && v@.map_values(|p: (u64, DirEntry)| (p.0 as int, dir_entry_view(p.1))) == page_spec(
                self.listings@[i].entries@.map_values(|e: DirEntry| dir_entry_view(e)),
                offset as int,
            ),
            r is Err ==> forall|i: int| 0 <= i < self.listings@.len() ==> (#[trigger] self.listings@[i]).fh != fh,
            r matches Err(e) ==> e is NotFound,
    {
        let mut i: usize = 0;
        while i < self.listings.len()
            invariant
                i <= self.listings@.len(),
                forall|t: int| 0 <= t < i ==> (#[trigger] self.listings@[t]).fh != fh,
            decreases self.listings@.len() - i,
        {
            if self.listings[i].fh == fh {
                let entries = &self.listings[i].entries;
                let ghost ev = entries@.map_values(|e: DirEntry| dir_entry_view(e));
                let mut out: Vec<(u64, DirEntry)> = Vec::new();
                if offset < entries.len() as u64 {
                    let start = offset as usize;
                    let mut k: usize = start;
                    while k < entries.len()
                        invariant
                            start <= k <= entries@.len(),
                            start == offset,
                            ev == entries@.map_values(|e: DirEntry| dir_entry_view(e)),
                            out@.len() == k - start,
                            forall|t: int| 0 <= t < k - start ==> (#[trigger] out@[t]).0 == start + t + 1 && dir_entry_view(out@[t].1) == ev[start + t],
                        decreases entries@.len() - k,
                    {
                        let e = &entries[k];
                        out.push(((k + 1) as u64, DirEntry { inode: e.inode, name: e.name.clone(), file_type: e.file_type }));
                        k += 1;
                    }
                }
                proof {
                    assert(out@.map_values(|p: (u64, DirEntry)| (p.0 as int, dir_entry_view(p.1))) =~= page_spec(ev, offset as int));
                }
                return Ok(out);
            }
            i += 1;
        }
        Err(FuseLlmError::NotFound)
    }

    /// Closes an open directory.
    pub fn releasedir(&mut self, fh: u64)
        requires
            old(self).wf(),
        ensures
            final(self).wf(),
            final(self).state == old(self).state,
            final(self).registry == old(self).registry,
            (forall|i: int| 0 <= i < old(self).listings@.len() ==> (#[trigger] old(self).listings@[i]).fh != fh) ==> final(self).listings
                == old(self).listings,
            (exists|i: int| 0 <= i < old(self).listings@.len() && (#[trigger] old(self).listings@[i]).fh == fh) ==> exists|i: int|
                0 <= i < old(self).listings@.len() && (#[trigger] old(self).listings@[i]).fh == fh
                && final(self).listings@ == old(self).listings@.remove(i),
    {
        let mut i: usize = 0;
        while i < self.listings.len()
            invariant
                i <= self.listings@.len(),
                self.wf(),
                self.state == old(self).state,
                self.registry == old(self).registry,
                self.listings == old(self).listings,
                forall|t: int| 0 <= t < i ==> (#[trigger] self.listings@[t]).fh != fh,
            decreases self.listings@.len() - i,
        {
            if self.listings[i].fh == fh {
                self.listings.remove(i);
                return;
            }
            i += 1;
        }
    }

    /// The node and text that releasing a handle commits: those of a handle
    /// that was written through and holds UTF-8 text.
    pub open spec fn committed_text(&self, fh: u64) -> Option<(NodeView, Seq<char>)> {
        match self.file_pos(fh) {
            Some(i) => if self.open_files@[i].written {
                match decoded_text(self.open_files@[i].buffer@) {
                    Some(t) => Some((self.open_files@[i].node@, t)),
                    None => None,
                }
            } else {
                None
            },
            None => None,
        }
    }

    /// Removes an open file handle and returns it.
    fn take_handle(&mut self, i: usize) -> (r: OpenFile)
        requires
            i < old(self).open_files@.len(),
        ensures
            r == old(self).open_files@[i as int],
            final(self).open_files@ == old(self).open_files@.remove(i as int),
            final(self).state == old(self).state,
            final(self).registry == old(self).registry,
            final(self).listings == old(self).listings,
    {
        self.open_files.remove(i)
    }

    /// What committing the text `t` written to node `n` does: the state
    /// moves from `before` to `after` and the commit returns `r`.
    pub open spec fn commit_spec(
        before: FilesystemState,
        after: FilesystemState,
        n: NodeView,
        t: Seq<char>,
        r: Result<Action, FuseLlmError>,
    ) -> bool {
        &&& (n matches NodeView::PromptFile { conv_id } ==> (
                before.conv_pos(conv_id) matches Some(c) ==> (before.conversations@[c].is_processing ==> r
                    == Err::<Action, FuseLlmError>(FuseLlmError::Busy)) && (!before.conversations@[c].is_processing ==> (r matches Ok(
                    Action::Chat { conversation, .. },
                ) && conversation@ == conv_id && after.conversations@[c].is_processing && messages_view(
                    after.conversations@[c].history@,
                ) == messages_view(before.conversations@[c].history@).push((MessageRole::User, without_newline(t)))))))
        &&& (n matches NodeView::PromptFile { conv_id } ==> (
                before.conv_pos(conv_id) is None ==> r == Err::<Action, FuseLlmError>(FuseLlmError::NotFound)))
        &&& (n matches NodeView::PromptFile { conv_id } ==> (r is Ok ==> (
                after.latest_conversation matches Some(l) && l@ == conv_id)))
        &&& (n matches NodeView::ContextFile { conv_id } ==> (
                before.conv_pos(conv_id) matches Some(c) ==> (r matches Ok(Action::Nothing) && after.only_conversation_changed(
                    before,
                    c,
                ) && after.conversations@[c].context@ == without_newline(t)
                    && after.conversations@[c].history == before.conversations@[c].history
                    && after.conversations@[c].latest_response == before.conversations@[c].latest_response)))
        &&& (n matches NodeView::ModelFile { name } ==> (r matches Ok(
                    Action::ModelQuery { model, config, messages },
                ) && model@ == name && config@ == crate::config::merged(
                    crate::config::merged(before.config.default_config@, crate::config::override_of(before.config.model_configs@, name)),
                    crate::config::ModelConfigView { temperature: None, system_prompt: None },
                ) && messages_view(messages@) == crate::chat::chat_messages_spec(config@, seq![(MessageRole::User, without_newline(t))])
                    && after == before))
        &&& (n matches NodeView::ConfigModelSettingsFile { name } ==> (r is Ok
                    <==> (crate::settings::toml_table(t) matches Some(doc) && crate::settings::model_settings_spec(
                    crate::config::override_of(before.config.model_configs@, name),
                    doc,
                ) matches Some(c) && crate::config::model_config_valid(c))))
        &&& (n matches NodeView::ConfigModelSettingsFile { name } ==> (r is Ok
                    ==> (crate::settings::toml_table(t) matches Some(doc) && crate::settings::model_settings_spec(
                    crate::config::override_of(before.config.model_configs@, name),
                    doc,
                ) == Some(crate::config::override_of(after.config.model_configs@, name)))))
        &&& (n matches NodeView::ConversationModelFile { conv_id } ==> (
                before.conv_pos(conv_id) matches Some(c) ==> ((without_newline(t).len() == 0 <==> (r matches Err(e) && e is InvalidInput))
                    && (r is Ok ==> after.only_conversation_changed(before, c)
                    && after.conversations@[c].config.model@ == without_newline(t)
                    && after.conversations@[c].config.system_prompt == before.conversations@[c].config.system_prompt))))
        &&& (n matches NodeView::ConversationSystemPromptFile { conv_id } ==> (
                before.conv_pos(conv_id) matches Some(c) ==> (r is Ok && after.only_conversation_changed(before, c)
                    && after.conversations@[c].config.system_prompt@ == without_newline(t)
                    && after.conversations@[c].config.model == before.conversations@[c].config.model)))
        &&& (n matches NodeView::ConversationSettingsFile { conv_id } ==> (
                before.conv_pos(conv_id) matches Some(c) ==> ((r is Ok <==> (crate::settings::toml_table(t) matches Some(doc)
                    && crate::settings::conv_settings_spec(crate::settings::conv_config_view(before.conversations@[c].config), doc) matches Some(g)
                    && crate::settings::conv_settings_valid(g))) && (r is Ok ==> (crate::settings::toml_table(t) matches Some(doc)
                    && crate::settings::conv_settings_spec(crate::settings::conv_config_view(before.conversations@[c].config), doc)
                    == Some(crate::settings::conv_config_view(after.conversations@[c].config)))))))
        &&& (n is GlobalSettingsFile ==> (r is Ok ==> (crate::settings::toml_table(t) matches Some(doc)
                    && crate::settings::global_settings_spec(crate::settings::global_view(before.config), doc)
                    == Some(crate::settings::global_view(after.config)))))
        &&& (n is GlobalSettingsFile || n is ConfigModelSettingsFile) ==> (r matches Err(e) ==> e is InvalidInput)
        &&& (n matches NodeView::CorpusFile { index_id, file_name } ==> (r matches Ok(
                    Action::Search(SearchRequest::Add { index_id: x, file_path: f, content: c }),
                ) && x@ == index_id && f@ == file_name && c@ == t && after == before))
        &&& (n matches NodeView::QueryFile { index_id } ==> (r matches Ok(
                    Action::Search(SearchRequest::Query { index_id: x, query_text: q }),
                ) && x@ == index_id && q@ == without_newline(t) && after == before))
        &&& (n is GlobalSettingsFile ==> (r is Ok <==> (
                crate::settings::toml_table(t) matches Some(doc) && crate::settings::global_settings_spec(
                    crate::settings::global_view(before.config),
                    doc,
                ) matches Some(g) && crate::config::model_config_valid(g.default_config) && crate::config::model_names_ok(g.models)
                    && before.config.valid_overrides())))
    }

    /// Closes a file handle. When something was written through it, the
    /// assembled buffer is committed according to the file: a prompt opens
    /// a turn and asks for a chat request, a context or configuration file
    /// is replaced, a model file, query file or corpus file asks for the
    /// corresponding outside request. A failed release changes no state.
    pub fn release(&mut self, fh: u64) -> (r: Result<Action, FuseLlmError>)
        requires
            old(self).wf(),
        ensures
            final(self).wf(),
            old(self).file_pos(fh) is None ==> r == Err::<Action, FuseLlmError>(FuseLlmError::NotFound),
            r is Err ==> final(self).state == old(self).state,
            old(self).file_pos(fh) matches Some(i) ==> !old(self).open_files@[i].written ==> (r matches Ok(Action::Nothing)
                && final(self).state == old(self).state),
            old(self).file_pos(fh) matches Some(i) ==> old(self).open_files@[i].written ==> decoded_text(
                old(self).open_files@[i].buffer@,
            ) is None ==> (r matches Err(e) && e is InvalidInput),
            old(self).committed_text(fh) matches Some((n, t)) ==> Self::commit_spec(old(self).state, final(self).state, n, t, r),
    {
        let i = match self.file_position(fh) {
            Some(i) => i,
            None => return Err(FuseLlmError::NotFound),
        };
        let h = self.take_handle(i);
        if !h.written {
            return Ok(Action::Nothing);
        }
        let text = match text_from_bytes(&h.buffer) {
            Some(t) => t,
            None => return Err(FuseLlmError::InvalidInput(owned("the data is not UTF-8 text"))),
        };
        match &h.node {
            FsNode::PromptFile { conv_id } => {
                let msg = strip_newline(text.as_str());
                let ghost old_state = self.state;
                self.state.begin_request(conv_id.as_str(), msg)?;
                proof {
                    let oc = old_state.conv_pos(conv_id@)->Some_0;
                    let a = crate::state::conv_ids(self.state.conversations@);
                    let b = crate::state::conv_ids(old_state.conversations@);
                    assert forall|j: int| 0 <= j < a.len() implies a[j] == b[j] by {
                        if j != oc {
                            assert(self.state.conversations@[j] == old_state.conversations@[j]);
                        }
                    }
                    assert(a =~= b);
                }
                let c = match self.state.conversation_index(conv_id.as_str()) {
                    Some(c) => c,
                    None => return Ok(Action::Nothing),
                };
                proof {
                    crate::state::lemma_position_of(crate::state::conv_ids(self.state.conversations@), conv_id@, c as int);
                    let oc = old_state.conv_pos(conv_id@)->Some_0;
                    assert(crate::state::conv_ids(self.state.conversations@)[oc] == conv_id@);
                    crate::state::lemma_position_of(crate::state::conv_ids(self.state.conversations@), conv_id@, oc);
                    assert(messages_view(self.state.conversations@[c as int].history@) =~= messages_view(
                        old_state.conversations@[c as int].history@,
                    ).push((MessageRole::User, without_newline(text@))));
                }
                let conv = &self.state.conversations[c];
                let (config, messages) = conversation_request(conv, &self.state.config);
                Ok(Action::Chat { conversation: conv_id.clone(), model: conv.config.model.clone(), config, messages })
            },
            FsNode::ContextFile { conv_id } => {
                let msg = strip_newline(text.as_str());
                self.state.set_context(conv_id.as_str(), msg)?;
                Ok(Action::Nothing)
            },
            FsNode::ModelFile { name } => {
                let msg = strip_newline(text.as_str());
                let (config, messages) = model_request(name.as_str(), msg.as_str(), &self.state.config);
                Ok(Action::ModelQuery { model: name.clone(), config, messages })
            },
            FsNode::QueryFile { index_id } => {
                let msg = strip_newline(text.as_str());
                Ok(Action::Search(SearchRequest::Query { index_id: index_id.clone(), query_text: msg }))
            },
            FsNode::CorpusFile { index_id, file_name } => Ok(
                Action::Search(SearchRequest::Add { index_id: index_id.clone(), file_path: file_name.clone(), content: text }),
            ),
            FsNode::GlobalSettingsFile => {
                let g = apply_global_settings(&self.state.config, text.as_str())?;
                self.state.replace_global_config(g)?;
                Ok(Action::Nothing)
            },
            FsNode::ConfigModelSettingsFile { name } => {
                let base = self.state.config.model_override(name.as_str());
                let c = apply_model_settings(&base, text.as_str())?;
                let ghost old_state = self.state;
                self.state.config.set_model_override(name.clone(), c);
                proof {
                    assert(crate::state::conv_ids(self.state.conversations@) == crate::state::conv_ids(old_state.conversations@));
                }
                Ok(Action::Nothing)
            },
            FsNode::ConversationModelFile { conv_id } => {
                let msg = strip_newline(text.as_str());
                if msg.unicode_len() == 0 {
                    return Err(FuseLlmError::InvalidInput(owned("the model name is empty")));
                }
                let c = match self.state.conversation_index(conv_id.as_str()) {
                    Some(c) => c,
                    None => return Err(FuseLlmError::NotFound),
                };
                let old_cfg = &self.state.conversations[c].config;
                let cfg = crate::state::ConversationConfig {
                    model: msg,
                    system_prompt: old_cfg.system_prompt.clone(),
                    temperature: crate::config::copy_temperature(&old_cfg.temperature),
                };
                self.state.set_conversation_config(conv_id.as_str(), cfg)?;
                Ok(Action::Nothing)
            },
            FsNode::ConversationSystemPromptFile { conv_id } => {
                let msg = strip_newline(text.as_str());
                let c = match self.state.conversation_index(conv_id.as_str()) {
                    Some(c) => c,
                    None => return Err(FuseLlmError::NotFound),
                };
                let old_cfg = &self.state.conversations[c].config;
                let cfg = crate::state::ConversationConfig {
                    model: old_cfg.model.clone(),
                    system_prompt: msg,
                    temperature: crate::config::copy_temperature(&old_cfg.temperature),
                };
                self.state.set_conversation_config(conv_id.as_str(), cfg)?;
                Ok(Action::Nothing)
            },
            FsNode::ConversationSettingsFile { conv_id } => {
                let c = match self.state.conversation_index(conv_id.as_str()) {
                    Some(c) => c,
                    None => return Err(FuseLlmError::NotFound),
                };
                let cfg = apply_conversation_settings(&self.state.conversations[c].config, text.as_str())?;
                self.state.set_conversation_config(conv_id.as_str(), cfg)?;
                Ok(Action::Nothing)
            },
            _ => Err(FuseLlmError::AccessDenied),
        }
    }

    /// Retires the inode of a node, if it has one.
    fn retire(&mut self, node: &FsNode)
        requires
            old(self).wf(),
        ensures
            final(self).wf(),
            final(self).state == old(self).state,
            forall|i: u64| old(self).registry.lookup_spec(i) != Some(node@) ==> #[trigger] final(self).registry.lookup_spec(i)
                == old(self).registry.lookup_spec(i),
            forall|i: u64| #[trigger] final(self).registry.issued(i) == old(self).registry.issued(i),
    {
        if node.inode().is_some() {
            return;
        }
        match self.registry.inode_of(node) {
            Some(ino) => self.registry.forget(ino),
            None => {},
        }
    }

    /// Commits what was written through a handle so far, as closing it
    /// would, and keeps the handle open with an empty buffer.
    pub fn fsync(&mut self, fh: u64) -> (r: Result<Action, FuseLlmError>)
        requires
            old(self).wf(),
        ensures
            final(self).wf(),
            old(self).file_pos(fh) is None ==> r == Err::<Action, FuseLlmError>(FuseLlmError::NotFound),
            r is Err ==> final(self).state == old(self).state,
            old(self).file_pos(fh) matches Some(i) ==> !old(self).open_files@[i].written ==> (r matches Ok(Action::Nothing)
                && final(self).state == old(self).state),
            old(self).file_pos(fh) matches Some(i) ==> old(self).open_files@[i].written ==> decoded_text(
                old(self).open_files@[i].buffer@,
            ) is None ==> (r matches Err(e) && e is InvalidInput),
            old(self).committed_text(fh) matches Some((n, t)) ==> Self::commit_spec(old(self).state, final(self).state, n, t, r),
            old(self).file_pos(fh) matches Some(i) ==> (final(self).open_files@.last().fh == fh
                && final(self).open_files@.last().buffer@.len() == 0 && !final(self).open_files@.last().written
                && final(self).open_files@.last().node@ == old(self).open_files@[i].node@),
    {
        let i = match self.file_position(fh) {
            Some(i) => i,
            None => return Err(FuseLlmError::NotFound),
        };
        let node = self.open_files[i].node.duplicate();
        let r = self.release(fh);
        self.open_files.push(OpenFile { fh, node, buffer: Vec::new(), written: false });
        r
    }

    /// Creates a directory: a conversation under `/conversations` at once,
    /// a search index under `/semantic_search` once the search service has
    /// created it. Elsewhere `AccessDenied`.
    pub fn mkdir(&mut self, parent: u64, name: &str) -> (r: Result<Outcome, FuseLlmError>)
        requires
            old(self).wf(),
        ensures
            final(self).wf(),
            old(self).node_spec(parent) is None ==> r == Err::<Outcome, FuseLlmError>(FuseLlmError::NotFound),
            r is Err ==> final(self).state == old(self).state,
            old(self).node_spec(parent) matches Some(p) ==> !(p is ConversationsDir || p is SemanticSearchDir) ==> (r matches Err(
                e,
            ) && e is AccessDenied),
            old(self).node_spec(parent) matches Some(p) ==> p is ConversationsDir ==> (r is Ok <==> (
            crate::handlers::valid_name_spec(name@) && name@ != "latest"@ && old(self).state.conv_pos(name@) is None)),
            old(self).node_spec(parent) matches Some(p) ==> p is ConversationsDir ==> r is Ok ==> final(self).state.conv_pos(name@) is Some
                && (final(self).state.latest_conversation matches Some(l) && l@ == name@),
            old(self).node_spec(parent) matches Some(p) ==> (p is ConversationsDir || p is SemanticSearchDir) ==> (r matches Err(e)
                ==> e is InvalidInput),
            r matches Ok(Outcome::Entry(ino, a)) ==> final(self).node_spec(ino) == Some(NodeView::ConversationDir { id: name@ })
                && (old(self).node_spec(ino) == Some(NodeView::ConversationDir { id: name@ }) || !old(self).registry.issued(ino))
                && a.kind == NodeKind::Directory,
            old(self).node_spec(parent) matches Some(p) ==> p is SemanticSearchDir ==> (r is Ok <==> (
            crate::handlers::valid_name_spec(name@) && name@ != "default"@ && old(self).state.index_pos(name@) is None)),
            old(self).node_spec(parent) matches Some(p) ==> p is SemanticSearchDir ==> r is Ok ==> (r matches Ok(
                Outcome::Pending(Action::Search(SearchRequest::CreateIndex { index_id })),
            ) && index_id@ == name@ && final(self).state == old(self).state),
    {
        let p = self.node_of(parent)?;
        match p {
            FsNode::ConversationsDir => {
                if !valid_name(name) || same_text(name, "latest") {
                    return Err(FuseLlmError::InvalidInput(owned("not a usable conversation name")));
                }
                self.state.create_conversation(owned(name))?;
                let node = FsNode::ConversationDir { id: owned(name) };
                proof {
                    let k = self.state.conversations@.len() - 1;
                    assert(crate::state::conv_ids(self.state.conversations@)[k] == name@);
                    crate::state::lemma_position_of(crate::state::conv_ids(self.state.conversations@), name@, k);
                }
                let attr = handle_getattr(&node, &self.state)?;
                match self.registry.intern(&node) {
                    Some(ino) => Ok(Outcome::Entry(ino, attr)),
                    None => Ok(Outcome::Done),
                }
            },
            FsNode::SemanticSearchDir => {
                if !valid_name(name) || same_text(name, "default") {
                    return Err(FuseLlmError::InvalidInput(owned("not a usable index name")));
                }
                if self.state.index_position(name).is_some() {
                    return Err(FuseLlmError::InvalidInput(owned("index already exists")));
                }
                Ok(Outcome::Pending(Action::Search(SearchRequest::CreateIndex { index_id: owned(name) })))
            },
            _ => Err(FuseLlmError::AccessDenied),
        }
    }

    /// Removes a directory: a conversation at once (refused with `Busy`
    /// while its request is out) and its inodes are retired; a search index
    /// once the search service has deleted it. Elsewhere `AccessDenied`.
    pub fn rmdir(&mut self, parent: u64, name: &str) -> (r: Result<Outcome, FuseLlmError>)
        requires
            old(self).wf(),
        ensures
            final(self).wf(),
            old(self).node_spec(parent) is None ==> r == Err::<Outcome, FuseLlmError>(FuseLlmError::NotFound),
            r is Err ==> final(self).state == old(self).state,
            old(self).node_spec(parent) matches Some(p) ==> !(p is ConversationsDir || p is SemanticSearchDir) ==> (r matches Err(
                e,
            ) && e is AccessDenied),
            old(self).node_spec(parent) matches Some(p) ==> p is ConversationsDir ==> (old(self).state.conv_pos(name@) is None
                ==> r == Err::<Outcome, FuseLlmError>(FuseLlmError::NotFound)),
            old(self).node_spec(parent) matches Some(p) ==> p is ConversationsDir ==> (old(self).state.conv_pos(name@) matches Some(
                c,
            ) ==> (old(self).state.conversations@[c].is_processing <==> r == Err::<Outcome, FuseLlmError>(FuseLlmError::Busy))),
            old(self).node_spec(parent) matches Some(p) ==> p is ConversationsDir ==> (old(self).state.conv_pos(name@) matches Some(c)
                ==> !old(self).state.conversations@[c].is_processing ==> (r matches Ok(Outcome::Done)
                && final(self).state.conversations@ == old(self).state.conversations@.remove(c))),
            old(self).node_spec(parent) matches Some(p) ==> p is ConversationsDir ==> r is Ok ==> final(self).state.conv_pos(name@) is None,
            old(self).node_spec(parent) matches Some(p) ==> p is SemanticSearchDir ==> (r is Ok <==> old(self).state.index_pos(name@) is Some),
            old(self).node_spec(parent) matches Some(p) ==> p is SemanticSearchDir ==> r is Ok ==> (r matches Ok(
                Outcome::Pending(Action::Search(SearchRequest::DeleteIndex { index_id })),
            ) && index_id@ == name@ && final(self).state == old(self).state),
    {
        let p = self.node_of(parent)?;
        match p {
            FsNode::ConversationsDir => {
                self.state.drop_conversation(name)?;
                let id = owned(name);
                self.retire(&FsNode::ConversationDir { id: id.clone() });
                self.retire(&FsNode::PromptFile { conv_id: id.clone() });
                self.retire(&FsNode::HistoryFile { conv_id: id.clone() });
                self.retire(&FsNode::ContextFile { conv_id: id.clone() });
                self.retire(&FsNode::ConversationConfigDir { conv_id: id.clone() });
                self.retire(&FsNode::ConversationModelFile { conv_id: id.clone() });
                self.retire(&FsNode::ConversationSystemPromptFile { conv_id: id.clone() });
                self.retire(&FsNode::ConversationSettingsFile { conv_id: id });
                Ok(Outcome::Done)
            },
            FsNode::SemanticSearchDir => {
                if self.state.index_position(name).is_none() {
                    return Err(FuseLlmError::NotFound);
                }
                Ok(Outcome::Pending(Action::Search(SearchRequest::DeleteIndex { index_id: owned(name) })))
            },
            _ => Err(FuseLlmError::AccessDenied),
        }
    }

    /// Creates a corpus file and opens it; its content is sent to the
    /// search service when the handle is released. Only corpus directories
    /// take new files.
    pub fn create(&mut self, parent: u64, name: &str) -> (r: Result<(u64, u64, Attr), FuseLlmError>)
        requires
            old(self).wf(),
        ensures
            final(self).wf(),
            final(self).state == old(self).state,
            old(self).node_spec(parent) is None ==> r == Err::<(u64, u64, Attr), FuseLlmError>(FuseLlmError::NotFound),
            old(self).node_spec(parent) matches Some(p) ==> !(p is CorpusDir) ==> r == Err::<(u64, u64, Attr), FuseLlmError>(FuseLlmError::AccessDenied),
            old(self).node_spec(parent) matches Some(NodeView::CorpusDir { index_id }) ==> (old(self).state.index_pos(index_id) is None
                <==> r == Err::<(u64, u64, Attr), FuseLlmError>(FuseLlmError::NotFound)),
            old(self).node_spec(parent) matches Some(NodeView::CorpusDir { index_id }) ==> old(self).state.index_pos(index_id) is Some
                ==> (!crate::handlers::valid_name_spec(name@) <==> (r matches Err(e) && e is InvalidInput)),
            old(self).node_spec(parent) matches Some(NodeView::CorpusDir { index_id }) ==> (old(self).state.index_pos(index_id) is Some
                && crate::handlers::valid_name_spec(name@) && old(self).registry.can_intern(
                NodeView::CorpusFile { index_id, file_name: name@ },
            )) ==> r is Ok,
            r matches Ok((ino, _, _)) ==> (old(self).node_spec(ino) is Some || !old(self).registry.issued(ino)),
            r matches Ok((ino, fh, a)) ==> (old(self).node_spec(parent) matches Some(NodeView::CorpusDir { index_id }) && final(self).node_spec(ino) == Some(NodeView::CorpusFile { index_id, file_name: name@ }) && final(self).file_pos(fh) is Some
                && final(self).open_files@.last().fh == fh && final(self).open_files@.last().written
                && final(self).open_files@.last().buffer@.len() == 0 && a.size == 0),
    {
        let p = self.node_of(parent)?;
        match p {
            FsNode::CorpusDir { index_id } => {
                if self.state.index_position(index_id.as_str()).is_none() {
                    return Err(FuseLlmError::NotFound);
                }
                if !valid_name(name) {
                    return Err(FuseLlmError::InvalidInput(owned("not a usable file name")));
                }
                let node = FsNode::CorpusFile { index_id: index_id.clone(), file_name: owned(name) };
                let ino = match self.registry.intern(&node) {
                    Some(i) => i,
                    None => return Err(FuseLlmError::Unsupported),
                };
                let fh = self.new_handle();
                self.open_files.push(OpenFile { fh, node, buffer: Vec::new(), written: true });
                proof {
                    let k = self.open_files@.len() - 1;
                    if !(self.file_pos(fh) is Some) {
                        assert(!self.first_handle_at(fh, k));
                        let j = choose|j: int| 0 <= j < k && (#[trigger] self.open_files@[j]).fh == fh;
                        assert(self.first_handle_at(fh, j) || exists|m: int| 0 <= m < j && (#[trigger] self.open_files@[m]).fh == fh);
                        lemma_first_handle_exists(*self, fh, j);
                    }
                }
                Ok((ino, fh, Attr { kind: NodeKind::File, size: 0, perm: 0o644, nlink: 1 }))
            },
            _ => Err(FuseLlmError::AccessDenied),
        }
    }

    /// Removes a name. A corpus file is removed once the search service has
    /// removed it; unlinking a prompt, context, query or model file clears
    /// what it reads. Elsewhere `AccessDenied`.
    pub fn unlink(&mut self, parent: u64, name: &str) -> (r: Result<Outcome, FuseLlmError>)
        requires
            old(self).wf(),
        ensures
            final(self).wf(),
            old(self).node_spec(parent) is None ==> r == Err::<Outcome, FuseLlmError>(FuseLlmError::NotFound),
            old(self).node_spec(parent) matches Some(p) ==> resolve_spec(p, name@, old(self).state) is NotFound ==> r
                == Err::<Outcome, FuseLlmError>(FuseLlmError::NotFound),
            old(self).node_spec(parent) matches Some(p) ==> (resolve_spec(p, name@, old(self).state) matches NodeView::CorpusFile {
                index_id,
                file_name,
            } ==> (r matches Ok(Outcome::Pending(Action::Search(SearchRequest::Remove { index_id: x, file_path: f })))
                && x@ == index_id && f@ == file_name && final(self).state == old(self).state)),
            old(self).node_spec(parent) matches Some(p) ==> (resolve_spec(p, name@, old(self).state) matches NodeView::PromptFile {
                conv_id,
            } ==> old(self).state.conv_pos(conv_id) is Some ==> (r matches Ok(Outcome::Done) && final(self).state.conv_pos(conv_id) matches Some(c)
                && final(self).state.conversations@[c].latest_response@.len() == 0)),
            old(self).node_spec(parent) matches Some(p) ==> (resolve_spec(p, name@, old(self).state) matches NodeView::ContextFile {
                conv_id,
            } ==> old(self).state.conv_pos(conv_id) matches Some(c) ==> (r matches Ok(Outcome::Done)
                && final(self).state.only_conversation_changed(old(self).state, c)
                && final(self).state.conversations@[c].context@.len() == 0)),
            old(self).node_spec(parent) matches Some(p) ==> (resolve_spec(p, name@, old(self).state) matches NodeView::QueryFile {
                index_id,
            } ==> old(self).state.index_pos(index_id) matches Some(i) ==> (r matches Ok(Outcome::Done)
                && final(self).state.only_index_changed(old(self).state, i)
                && final(self).state.search_indexes@[i].latest_query_result@.len() == 0)),
            old(self).node_spec(parent) matches Some(p) ==> (resolve_spec(p, name@, old(self).state) matches NodeView::ModelFile {
                name: m,
            } ==> (r matches Ok(Outcome::Done) && final(self).state.model_reply(m) == Some(Seq::<char>::empty()))),
            old(self).node_spec(parent) matches Some(p) ==> (!(resolve_spec(p, name@, old(self).state) is NotFound
                || resolve_spec(p, name@, old(self).state) is CorpusFile || resolve_spec(p, name@, old(self).state) is PromptFile
                || resolve_spec(p, name@, old(self).state) is ContextFile || resolve_spec(p, name@, old(self).state) is QueryFile
                || resolve_spec(p, name@, old(self).state) is ModelFile) ==> r == Err::<Outcome, FuseLlmError>(FuseLlmError::AccessDenied)),
            r is Err ==> final(self).state == old(self).state,
    {
        let p = self.node_of(parent)?;
        let child = resolve(&p, name, &self.state);
        match child {
            FsNode::NotFound => Err(FuseLlmError::NotFound),
            FsNode::CorpusFile { index_id, file_name } => Ok(
                Outcome::Pending(Action::Search(SearchRequest::Remove { index_id, file_path: file_name })),
            ),
            FsNode::PromptFile { conv_id } => {
                let ghost old_state = self.state;
                self.state.clear_response(conv_id.as_str())?;
                proof {
                    let oc = old_state.conv_pos(conv_id@)->Some_0;
                    let a = crate::state::conv_ids(self.state.conversations@);
                    let b = crate::state::conv_ids(old_state.conversations@);
                    assert forall|j: int| 0 <= j < a.len() implies a[j] == b[j] by {
                        if j != oc {
                            assert(self.state.conversations@[j] == old_state.conversations@[j]);
                        }
                    }
                    assert(a =~= b);
                }
                Ok(Outcome::Done)
            },
            FsNode::ContextFile { conv_id } => {
                self.state.set_context(conv_id.as_str(), String::new())?;
                Ok(Outcome::Done)
            },
            FsNode::QueryFile { index_id } => {
                self.state.set_query_result(index_id.as_str(), String::new())?;
                Ok(Outcome::Done)
            },
            FsNode::ModelFile { name } => {
                self.state.set_model_response(name, String::new());
                Ok(Outcome::Done)
            },
            _ => Err(FuseLlmError::AccessDenied),
        }
    }

    /// Commits the result of an outside request. A chat reply becomes the
    /// conversation's assistant turn, a failure its visible error; a search
    /// acknowledgement applies the index or corpus change, a refusal leaves
    /// the index and corpus as they were.
    pub fn complete(&mut self, action: &Action, reply: Result<String, String>) -> (r: Result<(), FuseLlmError>)
        requires
            old(self).wf(),
        ensures
            final(self).wf(),
            action matches Action::Chat { conversation, .. } ==> (old(self).state.conv_pos(conversation@) matches Some(c)
                ==> old(self).state.conversations@[c].is_processing ==> (final(self).state.only_conversation_changed(old(self).state, c)
                && final(self).state.latest_conversation == old(self).state.latest_conversation
                && final(self).state.conv_pos(conversation@) == Some(c)
                && !final(self).state.conversations@[c].is_processing
                && final(self).state.conversations@[c].context == old(self).state.conversations@[c].context
                && (reply matches Ok(a) ==> (r is Ok && final(self).state.conversations@[c].history@
                    == old(self).state.conversations@[c].history@.push(Message { role: MessageRole::Assistant, content: a })
                    && final(self).state.conversations@[c].latest_response@ == a@))
                && (reply matches Err(m) ==> (final(self).state.conversations@[c].history@
                    == old(self).state.conversations@[c].history@.drop_last()
                    && final(self).state.conversations@[c].latest_response@ == error_marker(m@))))),
            action matches Action::Chat { conversation, .. } ==> (old(self).state.conv_pos(conversation@) matches Some(c)
                ==> !old(self).state.conversations@[c].is_processing ==> final(self).state == old(self).state),
            action matches Action::Chat { conversation, .. } ==> old(self).state.conv_pos(conversation@) is None
                ==> final(self).state == old(self).state,
            action matches Action::Chat { .. } ==> (reply matches Err(m) ==> (r matches Err(FuseLlmError::LlmFailure(x)) && x@ == m@)),
            action matches Action::ModelQuery { model, .. } ==> (reply matches Ok(a) ==> (r is Ok && final(self).state.model_reply(
                model@,
            ) == Some(a@))),
            action matches Action::ModelQuery { model, .. } ==> (reply matches Err(m) ==> (r matches Err(FuseLlmError::LlmFailure(x))
                && x@ == m@ && final(self).state.model_reply(model@) == Some(error_marker(m@)))),
            action matches Action::ModelQuery { model, .. } ==> (final(self).state.conversations == old(self).state.conversations
                && final(self).state.search_indexes == old(self).state.search_indexes
                && final(self).state.config == old(self).state.config
                && final(self).state.latest_conversation == old(self).state.latest_conversation
                && forall|m: Seq<char>| m != model@ ==> #[trigger] final(self).state.model_reply(m) == old(self).state.model_reply(m)),
            action matches Action::Search(SearchRequest::Add { index_id, .. }) ==> (reply is Ok ==> (old(self).state.index_pos(index_id@) matches Some(i) ==> final(self).state.only_index_changed(old(self).state, i))),
            action matches Action::Search(SearchRequest::Remove { index_id, file_path }) ==> (reply is Ok ==> (old(self).state.index_pos(index_id@) matches Some(i) ==> old(self).state.search_indexes@[i].corpus().contains(file_path@) ==> final(self).state.only_index_changed(old(self).state, i))),
            action matches Action::Search(SearchRequest::Query { index_id, .. }) ==> (old(self).state.index_pos(index_id@) matches Some(i) ==> (final(self).state.only_index_changed(old(self).state, i)
                && final(self).state.search_indexes@[i].corpus_files == old(self).state.search_indexes@[i].corpus_files
                && (reply matches Err(m) ==> final(self).state.search_indexes@[i].latest_query_result@ == error_marker(m@)))),
            action matches Action::Search(req) ==> final(self).state.conversations == old(self).state.conversations,
            action matches Action::Search(SearchRequest::Add { index_id, file_path, .. }) ==> (reply is Ok ==> (old(self).state.index_pos(index_id@) matches Some(i) ==> r is Ok && final(self).state.search_indexes@[i].corpus()
                == old(self).state.search_indexes@[i].corpus().insert(file_path@))),
            action matches Action::Search(SearchRequest::Remove { index_id, file_path }) ==> (reply is Ok ==> (old(self).state.index_pos(index_id@) matches Some(i) ==> old(self).state.search_indexes@[i].corpus().contains(file_path@) ==> r
                is Ok && final(self).state.search_indexes@[i].corpus() == old(self).state.search_indexes@[i].corpus().remove(
                file_path@,
            ))),
            action matches Action::Search(SearchRequest::CreateIndex { index_id }) ==> (reply is Ok ==> (old(self).state.index_pos(
                index_id@,
            ) is None ==> r is Ok && final(self).state.index_pos(index_id@) is Some)),
            action matches Action::Search(SearchRequest::DeleteIndex { index_id }) ==> (reply is Ok ==> (old(self).state.index_pos(
                index_id@,
            ) is Some ==> r is Ok && final(self).state.index_pos(index_id@) is None)),
            action matches Action::Search(SearchRequest::Query { index_id, .. }) ==> (reply matches Ok(t) ==> (old(self).state.index_pos(index_id@) matches Some(i) ==> r is Ok && final(self).state.search_indexes@[i].latest_query_result@
                == t@)),
            action matches Action::Search(req) ==> (reply matches Err(m) ==> (r matches Err(FuseLlmError::SearchFailure(x))
                && x@ == m@)),
            action matches Action::Search(req) ==> (reply is Err ==> !(req is Query) ==> final(self).state == old(self).state),
    {
        match action {
            Action::Nothing => Ok(()),
            Action::Chat { conversation, .. } => {
                let ghost old_state = self.state;
                let failure = match &reply {
                    Ok(_) => None,
                    Err(m) => Some(m.clone()),
                };
                let done = self.state.end_request(conversation.as_str(), reply);
                proof {
                    if done is Ok {
                        let oc = old_state.conv_pos(conversation@)->Some_0;
                        let a = crate::state::conv_ids(self.state.conversations@);
                        let b = crate::state::conv_ids(old_state.conversations@);
                        assert forall|j: int| 0 <= j < a.len() implies a[j] == b[j] by {
                            if j != oc {
                                assert(self.state.conversations@[j] == old_state.conversations@[j]);
                            }
                        }
                        assert(a =~= b);
                    }
                }
                match failure {
                    Some(m) => Err(FuseLlmError::LlmFailure(m)),
                    None => done,
                }
            },
            Action::ModelQuery { model, .. } => match reply {
                Ok(a) => {
                    self.state.set_model_response(model.clone(), a);
                    Ok(())
                },
                Err(m) => {
                    let mut marker = owned("error: ");
                    marker.append(m.as_str());
                    self.state.set_model_response(model.clone(), marker);
                    Err(FuseLlmError::LlmFailure(m))
                },
            },
            Action::Search(req) => match reply {
                Err(m) => {
                    match req {
                        SearchRequest::Query { index_id, .. } => {
                            let mut marker = owned("error: ");
                            marker.append(m.as_str());
                            let _ = self.state.set_query_result(index_id.as_str(), marker);
                        },
                        SearchRequest::Add { index_id, file_path, .. } => {
                            self.retire(&FsNode::CorpusFile { index_id: index_id.clone(), file_name: file_path.clone() });
                        },
                        _ => {},
                    }
                    Err(FuseLlmError::SearchFailure(m))
                },
                Ok(data) => match req {
                    SearchRequest::CreateIndex { index_id } => {
                        let done = self.state.create_index(index_id.clone());
                        proof {
                            if done is Ok {
                                let k = self.state.search_indexes@.len() - 1;
                                assert(crate::state::index_ids(self.state.search_indexes@)[k] == index_id@);
                                assert(crate::state::index_ids(self.state.search_indexes@).contains(index_id@));
                            }
                        }
                        done
                    },
                    SearchRequest::DeleteIndex { index_id } => {
                        self.state.drop_index(index_id.as_str())?;
                        self.retire(&FsNode::SearchIndexDir { index_id: index_id.clone() });
                        self.retire(&FsNode::CorpusDir { index_id: index_id.clone() });
                        self.retire(&FsNode::QueryFile { index_id: index_id.clone() });
                        Ok(())
                    },
                    SearchRequest::Add { index_id, file_path, .. } => self.state.add_corpus_file(index_id.as_str(), file_path.clone()),
                    SearchRequest::Remove { index_id, file_path } => {
                        self.state.remove_corpus_file(index_id.as_str(), file_path.as_str())?;
                        self.retire(&FsNode::CorpusFile { index_id: index_id.clone(), file_name: file_path.clone() });
                        Ok(())
                    },
                    SearchRequest::Query { index_id, .. } => self.state.set_query_result(index_id.as_str(), data),
                },
            },
        }
    }
}

/// Some handle numbered `fh` is the first one so numbered.
pub proof fn lemma_first_handle_exists(e: FuseLlm, fh: u64, j: int)
    requires
        0 <= j < e.open_files@.len(),
        e.open_files@[j].fh == fh,
    ensures
        e.file_pos(fh) is Some,
    decreases j,
{
    if e.first_handle_at(fh, j) {
    } else {
        let m = choose|m: int| 0 <= m < j && (#[trigger] e.open_files@[m]).fh == fh;
        lemma_first_handle_exists(e, fh, m);
    }
}

} // verus!
