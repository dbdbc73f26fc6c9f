use vstd::prelude::*;

use crate::config::{GlobalConfig, Temperature};
use crate::error::FuseLlmError;
use crate::text::{owned, same_text};

verus! {

/// Who wrote a message.
#[derive(Debug, Clone, Copy, PartialEq, Eq, Structural)]
pub enum MessageRole {
    System,
    User,
    Assistant,
}

/// The roles of a conversation's participants.
pub type Role = MessageRole;

/// One message of a conversation.
#[derive(Debug, Clone)]
pub struct Message {
    pub role: MessageRole,
    pub content: String,
}

/// One entry of a conversation's history.
pub type HistoryEntry = Message;

/// How a role is written in a rendered transcript.
pub open spec fn role_label(r: MessageRole) -> Seq<char> {
    match r {
        MessageRole::System => "system"@,
        MessageRole::User => "user"@,
        MessageRole::Assistant => "assistant"@,
    }
}

/// The role of the turn at a position: users open, the assistant answers.
pub open spec fn turn_role(i: int) -> MessageRole {
    if i % 2 == 0 {
        MessageRole::User
    } else {
        MessageRole::Assistant
    }
}

/// One transcript line: `<role>: <content>` and a line feed.
pub open spec fn history_line(m: Message) -> Seq<char> {
    role_label(m.role) + ": "@ + m.content@ + "\n"@
}

/// The rendered transcript: one line per message, in order.
pub open spec fn history_text(h: Seq<Message>) -> Seq<char>
    decreases h.len(),
{
    if h.len() == 0 {
        Seq::empty()
    } else {
        history_text(h.drop_last()) + history_line(h.last())
    }
}

/// The text that a failed request leaves in place of a reply.
pub open spec fn error_marker(msg: Seq<char>) -> Seq<char> {
    "error: "@ + msg
}

/// The label of a role.
pub fn role_name(r: MessageRole) -> (s: &'static str)
    ensures
        s@ == role_label(r),
{
    match r {
        MessageRole::System => "system",
        MessageRole::User => "user",
        MessageRole::Assistant => "assistant",
    }
}

/// Settings owned by one conversation.
#[derive(Debug)]
pub struct ConversationConfig {
    /// The model the conversation talks to.
    pub model: String,
    /// The system prompt; empty means "inherit".
    pub system_prompt: String,
    /// The temperature; unset means "inherit".
    pub temperature: Option<Temperature>,
}

/// One stateful conversation.
#[derive(Debug)]
pub struct Conversation {
    pub id: String,
    /// Completed turns, plus the pending user turn while a request is out.
    pub history: Vec<Message>,
    /// Scratch text put in front of the next prompt.
    pub context: String,
    pub config: ConversationConfig,
    /// What `prompt` reads: the last reply, or an error marker.
    pub latest_response: String,
    /// A request for this conversation is outstanding.
    pub is_processing: bool,
    /// `latest_response` is the content of the last assistant turn.
    pub reply_shown: bool,
}

impl Conversation {
    /// The turns alternate user, assistant, user, ...
    pub open spec fn alternates(&self) -> bool {
        forall|i: int| 0 <= i < self.history@.len() ==> (#[trigger] self.history@[i]).role == turn_role(i)
    }

    /// The conversation invariant: turns alternate; a request is out exactly
    /// when a user turn waits for its answer; when no request is out and the
    /// last reply is shown, `latest_response` is that reply.
    pub open spec fn wf(&self) -> bool {
        &&& self.alternates()
        &&& self.is_processing <==> self.history@.len() % 2 == 1
        &&& !self.is_processing && self.history@.len() > 0 && self.reply_shown ==> self.latest_response@
            == self.history@.last().content@
    }

    /// A fresh conversation on the default model, with nothing said yet.
    pub fn new(id: String, global: &GlobalConfig) -> (r: Conversation)
        ensures
            r.wf(),
            r.id@ == id@,
            r.history@.len() == 0,
            r.context@.len() == 0,
            r.latest_response@.len() == 0,
            !r.is_processing,
            global.default_model matches Some(m) ==> r.config.model@ == m@,
            global.default_model is None ==> r.config.model@.len() == 0,
            r.config.system_prompt@.len() == 0,
            r.config.temperature is None,
    {
        let model = match &global.default_model {
            Some(m) => m.clone(),
            None => String::new(),
        };
        Conversation {
            id,
            history: Vec::new(),
            context: String::new(),
            config: ConversationConfig { model, system_prompt: String::new(), temperature: None },
            latest_response: String::new(),
            is_processing: false,
            reply_shown: true,
        }
    }

    /// The transcript: `user: ...` and `assistant: ...` lines in order.
    pub fn format_history(&self) -> (r: String)
        ensures
            r@ == history_text(self.history@),
    {
        let mut out = String::new();
        let mut i: usize = 0;
        while i < self.history.len()
            invariant
                i <= self.history@.len(),
                out@ == history_text(self.history@.take(i as int)),
            decreases self.history@.len() - i,
        {
            let m = &self.history[i];
            out.append(role_name(m.role));
            out.append(": ");
            out.append(m.content.as_str());
            out.append("\n");
            proof {
                let t = self.history@.take(i + 1);
                assert(t.drop_last() =~= self.history@.take(i as int));
                assert(t.last() == self.history@[i as int]);
            }
            i += 1;
        }
        proof {
            assert(self.history@.take(self.history@.len() as int) =~= self.history@);
        }
        out
    }

    /// Opens a turn: appends the user message and marks a request as out.
    /// Refused with `Busy` while another request is out.
    pub fn begin_turn(&mut self, prompt: String) -> (r: Result<(), FuseLlmError>)
        requires
            old(self).wf(),
        ensures
            final(self).wf(),
            old(self).is_processing ==> r == Err::<(), FuseLlmError>(FuseLlmError::Busy) && *final(self)
                == *old(self),
            !old(self).is_processing ==> r is Ok && final(self).is_processing && final(self).history@
                == old(self).history@.push(Message { role: MessageRole::User, content: prompt })
                && final(self).id == old(self).id && final(self).context == old(self).context
                && final(self).latest_response == old(self).latest_response,
    {
        if self.is_processing {
            return Err(FuseLlmError::Busy);
        }
        self.history.push(Message { role: MessageRole::User, content: prompt });
        self.is_processing = true;
        proof {
            assert forall|i: int| 0 <= i < self.history@.len() implies (#[trigger] self.history@[i]).role
                == turn_role(i) by {
                if i < self.history@.len() - 1 {
                    assert(self.history@[i] == old(self).history@[i]);
                }
            }
        }
        Ok(())
    }

    /// Closes the outstanding turn with the service's answer. A reply becomes
    /// the assistant turn and what `prompt` reads; a failure withdraws the
    /// user turn and leaves an error marker to read instead.
    pub fn complete_turn(&mut self, reply: Result<String, String>)
        requires
            old(self).wf(),
            old(self).is_processing,
        ensures
            final(self).wf(),
            !final(self).is_processing,
            final(self).id == old(self).id,
            final(self).context == old(self).context,
            reply matches Ok(a) ==> final(self).history@ == old(self).history@.push(
                Message { role: MessageRole::Assistant, content: a },
            ) && final(self).latest_response@ == a@ && final(self).reply_shown,
            reply matches Err(m) ==> final(self).history@ == old(self).history@.drop_last()
                && final(self).latest_response@ == error_marker(m@),
    {
        match reply {
            Ok(a) => {
                self.latest_response = a.clone();
                self.history.push(Message { role: MessageRole::Assistant, content: a });
                self.reply_shown = true;
                proof {
                    assert forall|i: int| 0 <= i < self.history@.len() implies (
                    #[trigger] self.history@[i]).role == turn_role(i) by {
                        if i < self.history@.len() - 1 {
                            assert(self.history@[i] == old(self).history@[i]);
                        }
                    }
                }
            },
            Err(m) => {
                let mut marker = owned("error: ");
                marker.append(m.as_str());
                self.latest_response = marker;
                self.history.pop();
                self.reply_shown = false;
                proof {
                    assert forall|i: int| 0 <= i < self.history@.len() implies (
                    #[trigger] self.history@[i]).role == turn_role(i) by {
                        assert(self.history@[i] == old(self).history@[i]);
                    }
                }
            },
        }
        self.is_processing = false;
    }

    /// Empties what `prompt` reads.
    pub fn clear_response(&mut self)
        requires
            old(self).wf(),
        ensures
            final(self).wf(),
            final(self).latest_response@.len() == 0,
            final(self).id == old(self).id,
            final(self).history == old(self).history,
            final(self).is_processing == old(self).is_processing,
    {
        self.latest_response = String::new();
        self.reply_shown = false;
    }
}

/// Every conversation's history alternates user and assistant turns, and,
/// once the request is answered, `prompt` reads the last assistant turn.
pub proof fn law_history_alternates(c: Conversation, i: int)
    requires
        c.wf(),
        0 <= i < c.history@.len(),
    ensures
        c.history@[i].role == (if i % 2 == 0 { MessageRole::User } else { MessageRole::Assistant }),
        !c.is_processing ==> c.history@.len() % 2 == 0,
        !c.is_processing && c.reply_shown ==> c.latest_response@ == c.history@.last().content@,
{
}

/// While a conversation's request is out there is exactly one unanswered
/// user turn, and opening another turn is refused and changes nothing: at
/// most one request per conversation is ever outstanding.
pub proof fn law_one_request_per_conversation(c: Conversation)
    requires
        c.wf(),
        c.is_processing,
    ensures
        c.history@.len() % 2 == 1,
        c.history@.last().role == MessageRole::User,
        forall|i: int| 0 <= i < c.history@.len() - 1 ==> (#[trigger] c.history@[i]).role == (if i % 2 == 0 {
            MessageRole::User
        } else {
            MessageRole::Assistant
        }),
{
    let n = c.history@.len() as int;
    assert(c.history@[n - 1].role == turn_role(n - 1));
}

/// A search index and the names of the documents in its corpus.
#[derive(Debug)]
pub struct SearchIndex {
    pub id: String,
    /// Corpus file names, in the order they were added.
    pub corpus_files: Vec<String>,
    /// What `query` reads.
    pub latest_query_result: String,
}

/// The texts of a list of strings.
pub open spec fn texts(v: Seq<String>) -> Seq<Seq<char>> {
    v.map_values(|s: String| s@)
}

/// No text occurs twice.
pub open spec fn distinct(keys: Seq<Seq<char>>) -> bool {
    forall|a: int, b: int| 0 <= a < keys.len() && 0 <= b < keys.len() && a != b ==> keys[a] != keys[b]
}

/// Appending a new key keeps the keys distinct.
pub proof fn lemma_distinct_push(keys: Seq<Seq<char>>, k: Seq<char>)
    requires
        distinct(keys),
        !keys.contains(k),
    ensures
        distinct(keys.push(k)),
{
    assert forall|a: int, b: int| 0 <= a < keys.len() + 1 && 0 <= b < keys.len() + 1 && a != b implies keys.push(k)[a]
        != keys.push(k)[b] by {
        if a == keys.len() {
            assert(keys[b] == keys.push(k)[b]);
        } else if b == keys.len() {
            assert(keys[a] == keys.push(k)[a]);
        }
    }
}

/// Removing a key keeps the keys distinct, and only that key goes.
pub proof fn lemma_distinct_remove(keys: Seq<Seq<char>>, i: int)
    requires
        distinct(keys),
        0 <= i < keys.len(),
    ensures
        distinct(keys.remove(i)),
        forall|k: Seq<char>| keys.remove(i).contains(k) <==> keys.contains(k) && k != keys[i],
{
    let r = keys.remove(i);
    assert forall|a: int, b: int| 0 <= a < r.len() && 0 <= b < r.len() && a != b implies r[a] != r[b] by {
        let oa = if a < i { a } else { a + 1 };
        let ob = if b < i { b } else { b + 1 };
        assert(r[a] == keys[oa]);
        assert(r[b] == keys[ob]);
    }
    assert forall|k: Seq<char>| r.contains(k) <==> keys.contains(k) && k != keys[i] by {
        if r.contains(k) {
            let a = choose|a: int| 0 <= a < r.len() && r[a] == k;
            let oa = if a < i { a } else { a + 1 };
            assert(keys[oa] == k);
        }
        if keys.contains(k) && k != keys[i] {
            let a = choose|a: int| 0 <= a < keys.len() && keys[a] == k;
            let ra = if a < i { a } else { a - 1 };
            assert(r[ra] == k);
        }
    }
}

impl SearchIndex {
    /// An index with an empty corpus and no query result.
    pub fn new(id: String) -> (r: SearchIndex)
        ensures
            r.id@ == id@,
            r.corpus_files@.len() == 0,
            r.latest_query_result@.len() == 0,
            r.wf(),
    {
        SearchIndex { id, corpus_files: Vec::new(), latest_query_result: String::new() }
    }

    /// Corpus names are distinct.
    pub open spec fn wf(&self) -> bool {
        distinct(texts(self.corpus_files@))
    }

    /// The corpus as a set of names.
    pub open spec fn corpus(&self) -> Set<Seq<char>> {
        texts(self.corpus_files@).to_set()
    }

    /// Position of a corpus file.
    pub fn file_position(&self, name: &str) -> (r: Option<usize>)
        ensures
            r matches Some(i) ==> i < self.corpus_files@.len() && self.corpus_files@[i as int]@ == name@,
            r is None ==> !texts(self.corpus_files@).contains(name@),
    {
        let mut i: usize = 0;
        while i < self.corpus_files.len()
            invariant
                i <= self.corpus_files@.len(),
                forall|t: int| 0 <= t < i ==> (#[trigger] self.corpus_files@[t])@ != name@,
            decreases self.corpus_files@.len() - i,
        {
            if same_text(self.corpus_files[i].as_str(), name) {
                return Some(i);
            }
            i += 1;
        }
        proof {
            if texts(self.corpus_files@).contains(name@) {
                let t = choose|t: int| 0 <= t < texts(self.corpus_files@).len() && texts(self.corpus_files@)[t] == name@;
                assert(self.corpus_files@[t]@ == name@);
            }
        }
        None
    }

    /// Adds a name to the corpus; a name already there stays once.
    pub fn add_file(&mut self, name: String)
        requires
            old(self).wf(),
        ensures
            final(self).wf(),
            final(self).corpus() == old(self).corpus().insert(name@),
            final(self).id == old(self).id,
            final(self).latest_query_result == old(self).latest_query_result,
    {
        match self.file_position(name.as_str()) {
            Some(i) => {
                proof {
                    assert(texts(self.corpus_files@)[i as int] == name@);
                    assert(texts(self.corpus_files@).contains(name@));
                    assert(self.corpus() =~= old(self).corpus().insert(name@));
                }
            },
            None => {
                let ghost n = name@;
                self.corpus_files.push(name);
                proof {
                    assert(texts(self.corpus_files@) =~= texts(old(self).corpus_files@).push(n));
                    lemma_distinct_push(texts(old(self).corpus_files@), n);
                    let os = texts(old(self).corpus_files@);
                    assert forall|x: Seq<char>| os.push(n).contains(x) <==> os.contains(x) || x == n by {
                        if os.push(n).contains(x) && x != n {
                            let t = choose|t: int| 0 <= t < os.push(n).len() && os.push(n)[t] == x;
                            assert(os[t] == x);
                        }
                        if os.contains(x) {
                            let t = choose|t: int| 0 <= t < os.len() && os[t] == x;
                            assert(os.push(n)[t] == x);
                        }
                        if x == n {
                            assert(os.push(n)[os.len() as int] == x);
                        }
                    }
                    assert(self.corpus() =~= old(self).corpus().insert(n));
                }
            },
        }
    }

    /// Removes a name from the corpus; false when it was not there.
    pub fn remove_file(&mut self, name: &str) -> (r: bool)
        requires
            old(self).wf(),
        ensures
            final(self).wf(),
            r == old(self).corpus().contains(name@),
            final(self).corpus() == old(self).corpus().remove(name@),
            final(self).id == old(self).id,
            final(self).latest_query_result == old(self).latest_query_result,
    {
        match self.file_position(name) {
            Some(i) => {
                self.corpus_files.remove(i);
                proof {
                    let ok = texts(old(self).corpus_files@);
                    assert(texts(self.corpus_files@) =~= ok.remove(i as int));
                    lemma_distinct_remove(ok, i as int);
                    assert(self.corpus() =~= old(self).corpus().remove(name@));
                }
                true
            },
            None => {
                proof {
                    assert(self.corpus() =~= old(self).corpus().remove(name@));
                }
                false
            },
        }
    }
}

/// The ids of a list of conversations.
pub open spec fn conv_ids(c: Seq<Conversation>) -> Seq<Seq<char>> {
    c.map_values(|x: Conversation| x.id@)
}

/// The ids of a list of indexes.
pub open spec fn index_ids(c: Seq<SearchIndex>) -> Seq<Seq<char>> {
    c.map_values(|x: SearchIndex| x.id@)
}

/// The model names of the stateless reply cache.
pub open spec fn model_keys(c: Seq<(String, String)>) -> Seq<Seq<char>> {
    c.map_values(|x: (String, String)| x.0@)
}

/// Where a key stands in a list of distinct keys.
pub open spec fn position_of(keys: Seq<Seq<char>>, k: Seq<char>) -> Option<int> {
    if keys.contains(k) {
        Some(choose|i: int| 0 <= i < keys.len() && keys[i] == k)
    } else {
        None
    }
}

/// Among distinct keys, a key's position is where it stands.
pub proof fn lemma_position_of(keys: Seq<Seq<char>>, k: Seq<char>, i: int)
    requires
        distinct(keys),
        0 <= i < keys.len(),
        keys[i] == k,
    ensures
        position_of(keys, k) == Some(i),
{
    assert(keys.contains(k));
}

/// Finds a key in a list of keyed items.
fn find_key(keys: Ghost<Seq<Seq<char>>>, names: &Vec<&str>, k: &str) -> (r: Option<usize>)
    requires
        keys@.len() == names@.len(),
        forall|i: int| 0 <= i < names@.len() ==> (#[trigger] names@[i])@ == keys@[i],
    ensures
        r matches Some(i) ==> i < keys@.len() && keys@[i as int] == k@,
        r is None ==> !keys@.contains(k@),
{
    let mut i: usize = 0;
    while i < names.len()
        invariant
            keys@.len() == names@.len(),
            forall|t: int| 0 <= t < names@.len() ==> (#[trigger] names@[t])@ == keys@[t],
            i <= names@.len(),
            forall|t: int| 0 <= t < i ==> keys@[t] != k@,
        decreases names@.len() - i,
    {
        if same_text(names[i], k) {
            return Some(i);
        }
        i += 1;
    }
    None
}

/// The single shared aggregate of everything the filesystem knows.
#[derive(Debug)]
pub struct FilesystemState {
    pub config: GlobalConfig,
    /// Conversations, in the order they were created.
    pub conversations: Vec<Conversation>,
    /// Search indexes, in the order they were created.
    pub search_indexes: Vec<SearchIndex>,
    /// The last stateless reply of each model.
    pub model_last_response: Vec<(String, String)>,
    /// The conversation that changed last.
    pub latest_conversation: Option<String>,
}

/// The live state of the filesystem.
pub type AppState = FilesystemState;

impl FilesystemState {
    /// The store invariant: keys are distinct and every record is well formed.
    pub open spec fn wf(&self) -> bool {
        &&& distinct(conv_ids(self.conversations@))
        &&& forall|i: int| 0 <= i < self.conversations@.len() ==> (#[trigger] self.conversations@[i]).wf()
        &&& distinct(index_ids(self.search_indexes@))
        &&& forall|i: int| 0 <= i < self.search_indexes@.len() ==> (#[trigger] self.search_indexes@[i]).wf()
        &&& distinct(model_keys(self.model_last_response@))
        &&& self.config.models_ok()
    }

    /// The position of a conversation.
    pub open spec fn conv_pos(&self, id: Seq<char>) -> Option<int> {
        position_of(conv_ids(self.conversations@), id)
    }

    /// The position of an index.
    pub open spec fn index_pos(&self, id: Seq<char>) -> Option<int> {
        position_of(index_ids(self.search_indexes@), id)
    }

    /// Only the conversation at `i` may differ, and it keeps its id.
    pub open spec fn only_conversation_changed(&self, before: FilesystemState, i: int) -> bool {
        &&& self.conversations@.len() == before.conversations@.len()
        &&& forall|j: int| 0 <= j < self.conversations@.len() && j != i ==> #[trigger] self.conversations@[j] == before.conversations@[j]
        &&& self.conversations@[i].id == before.conversations@[i].id
        &&& self.search_indexes == before.search_indexes
        &&& self.model_last_response == before.model_last_response
        &&& self.config == before.config
    }

    /// Only the index at `i` may differ, and it keeps its id.
    pub open spec fn only_index_changed(&self, before: FilesystemState, i: int) -> bool {
        &&& self.search_indexes@.len() == before.search_indexes@.len()
        &&& forall|j: int| 0 <= j < self.search_indexes@.len() && j != i ==> #[trigger] self.search_indexes@[j] == before.search_indexes@[j]
        &&& self.search_indexes@[i].id == before.search_indexes@[i].id
        &&& self.conversations == before.conversations
        &&& self.model_last_response == before.model_last_response
        &&& self.latest_conversation == before.latest_conversation
        &&& self.config == before.config
    }

    /// An empty store over a configuration snapshot.
    pub fn new(config: GlobalConfig) -> (r: FilesystemState)
        requires
            config.models_ok(),
        ensures
            r.wf(),
            r.config == config,
            r.conversations@.len() == 0,
            r.search_indexes@.len() == 0,
            r.model_last_response@.len() == 0,
            r.latest_conversation is None,
    {
        let r = FilesystemState {
            config,
            conversations: Vec::new(),
            search_indexes: Vec::new(),
            model_last_response: Vec::new(),
            latest_conversation: None,
        };
        proof {
            assert(conv_ids(r.conversations@) =~= Seq::empty());
            assert(index_ids(r.search_indexes@) =~= Seq::empty());
            assert(model_keys(r.model_last_response@) =~= Seq::empty());
        }
        r
    }

    /// The position of a conversation, by id.
    pub fn conversation_index(&self, id: &str) -> (r: Option<usize>)
        requires
            self.wf(),
        ensures
            r matches Some(i) ==> self.conv_pos(id@) == Some(i as int) && i < self.conversations@.len(),
            r is None ==> self.conv_pos(id@) is None,
    {
        let mut names: Vec<&str> = Vec::new();
        let mut i: usize = 0;
        while i < self.conversations.len()
            invariant
                i <= self.conversations@.len(),
                names@.len() == i,
                forall|t: int| 0 <= t < i ==> (#[trigger] names@[t])@ == conv_ids(self.conversations@)[t],
            decreases self.conversations@.len() - i,
        {
            names.push(self.conversations[i].id.as_str());
            i += 1;
        }
        let r = find_key(Ghost(conv_ids(self.conversations@)), &names, id);
        proof {
            if let Some(i) = r {
                lemma_position_of(conv_ids(self.conversations@), id@, i as int);
            }
        }
        r
    }

    /// The position of a search index, by id.
    pub fn index_position(&self, id: &str) -> (r: Option<usize>)
        requires
            self.wf(),
        ensures
            r matches Some(i) ==> self.index_pos(id@) == Some(i as int) && i < self.search_indexes@.len(),
            r is None ==> self.index_pos(id@) is None,
    {
        let mut names: Vec<&str> = Vec::new();
        let mut i: usize = 0;
        while i < self.search_indexes.len()
            invariant
                i <= self.search_indexes@.len(),
                names@.len() == i,
                forall|t: int| 0 <= t < i ==> (#[trigger] names@[t])@ == index_ids(self.search_indexes@)[t],
            decreases self.search_indexes@.len() - i,
        {
            names.push(self.search_indexes[i].id.as_str());
            i += 1;
        }
        let r = find_key(Ghost(index_ids(self.search_indexes@)), &names, id);
        proof {
            if let Some(i) = r {
                lemma_position_of(index_ids(self.search_indexes@), id@, i as int);
            }
        }
        r
    }

    /// Creates an empty conversation at the end of the list and makes it the
    /// latest one. An id already in use is refused.
    pub fn create_conversation(&mut self, id: String) -> (r: Result<usize, FuseLlmError>)
        requires
            old(self).wf(),
        ensures
            final(self).wf(),
            r is Ok ==> final(self).config == old(self).config && final(self).model_last_response == old(self).model_last_response,
            r matches Ok(i) ==> (old(self).config.default_model matches Some(m) ==> final(self).conversations@[i as int].config.model@ == m@)
                && (old(self).config.default_model is None ==> final(self).conversations@[i as int].config.model@.len() == 0)
                && final(self).conversations@[i as int].config.system_prompt@.len() == 0
                && final(self).conversations@[i as int].config.temperature is None
                && final(self).conversations@[i as int].context@.len() == 0
                && final(self).conversations@[i as int].latest_response@.len() == 0,
            old(self).conv_pos(id@) is Some <==> r is Err,
            r matches Err(e) ==> e is InvalidInput && *final(self) == *old(self),
            r matches Ok(i) ==> i == old(self).conversations@.len() && final(self).conversations@
                == old(self).conversations@.push(final(self).conversations@[i as int])
                && final(self).conversations@[i as int].id@ == id@
                && final(self).conversations@[i as int].history@.len() == 0
                && !final(self).conversations@[i as int].is_processing
                && (final(self).latest_conversation matches Some(l) && l@ == id@)
                && final(self).search_indexes == old(self).search_indexes,
    {
        if self.conversation_index(id.as_str()).is_some() {
            return Err(FuseLlmError::InvalidInput(owned("conversation already exists")));
        }
        let latest = id.clone();
        let c = Conversation::new(id, &self.config);
        let i = self.conversations.len();
        let ghost old_ids = conv_ids(self.conversations@);
        self.conversations.push(c);
        self.latest_conversation = Some(latest);
        proof {
            assert(conv_ids(self.conversations@) =~= old_ids.push(c.id@));
            lemma_distinct_push(old_ids, c.id@);
            assert forall|j: int| 0 <= j < self.conversations@.len() implies (#[trigger] self.conversations@[j]).wf() by {
                if j < i {
                    assert(self.conversations@[j] == old(self).conversations@[j]);
                }
            }
        }
        Ok(i)
    }

    /// Removes a conversation. Refused with `Busy` while its request is out.
    pub fn drop_conversation(&mut self, id: &str) -> (r: Result<(), FuseLlmError>)
        requires
            old(self).wf(),
        ensures
            final(self).wf(),
            old(self).conv_pos(id@) is None ==> r == Err::<(), FuseLlmError>(FuseLlmError::NotFound)
                && *final(self) == *old(self),
            old(self).conv_pos(id@) matches Some(i) ==> old(self).conversations@[i].is_processing ==> r
                == Err::<(), FuseLlmError>(FuseLlmError::Busy) && *final(self) == *old(self),
            old(self).conv_pos(id@) matches Some(i) ==> !old(self).conversations@[i].is_processing ==> r
                is Ok && final(self).conversations@ == old(self).conversations@.remove(i),
            r is Ok ==> final(self).conv_pos(id@) is None && final(self).search_indexes
                == old(self).search_indexes,
    {
        match self.conversation_index(id) {
            None => Err(FuseLlmError::NotFound),
            Some(i) => {
                if self.conversations[i].is_processing {
                    return Err(FuseLlmError::Busy);
                }
                let ghost old_ids = conv_ids(self.conversations@);
                self.conversations.remove(i);
                let clear = match &self.latest_conversation {
                    Some(l) => same_text(l.as_str(), id),
                    None => false,
                };
                if clear {
                    self.latest_conversation = None;
                }
                proof {
                    assert(conv_ids(self.conversations@) =~= old_ids.remove(i as int));
                    lemma_distinct_remove(old_ids, i as int);
                    assert forall|j: int| 0 <= j < self.conversations@.len() implies (#[trigger] self.conversations@[j]).wf() by {
                        if j < i {
                            assert(self.conversations@[j] == old(self).conversations@[j]);
                        } else {
                            assert(self.conversations@[j] == old(self).conversations@[j + 1]);
                        }
                    }
                }
                Ok(())
            },
        }
    }

    /// Opens a turn in a conversation and makes it the latest one. Refused
    /// with `Busy` while the conversation's request is out: at most one
    /// request per conversation is ever outstanding.
    pub fn begin_request(&mut self, id: &str, prompt: String) -> (r: Result<(), FuseLlmError>)
        requires
            old(self).wf(),
        ensures
            final(self).wf(),
            old(self).conv_pos(id@) is None ==> r == Err::<(), FuseLlmError>(FuseLlmError::NotFound)
                && *final(self) == *old(self),
            old(self).conv_pos(id@) matches Some(i) ==> old(self).conversations@[i].is_processing ==> r
                == Err::<(), FuseLlmError>(FuseLlmError::Busy) && *final(self) == *old(self),
            old(self).conv_pos(id@) matches Some(i) ==> !old(self).conversations@[i].is_processing ==> r
                is Ok && final(self).only_conversation_changed(*old(self), i)
                && final(self).conversations@[i].is_processing
                && final(self).conversations@[i].history@ == old(self).conversations@[i].history@.push(
                Message { role: MessageRole::User, content: prompt },
            ) && final(self).conversations@[i].context == old(self).conversations@[i].context
                && (final(self).latest_conversation matches Some(l) && l@ == id@),
    {
        match self.conversation_index(id) {
            None => Err(FuseLlmError::NotFound),
            Some(i) => {
                if self.conversations[i].is_processing {
                    return Err(FuseLlmError::Busy);
                }
                let ghost old_ids = conv_ids(self.conversations@);
                let _ = self.conversations[i].begin_turn(prompt);
                self.latest_conversation = Some(owned(id));
                proof {
                    assert(conv_ids(self.conversations@) =~= old_ids);
                }
                Ok(())
            },
        }
    }

    /// Commits the answer to a conversation's outstanding request.
    pub fn end_request(&mut self, id: &str, reply: Result<String, String>) -> (r: Result<(), FuseLlmError>)
        requires
            old(self).wf(),
        ensures
            final(self).wf(),
            final(self).latest_conversation == old(self).latest_conversation,
            old(self).conv_pos(id@) is None ==> r == Err::<(), FuseLlmError>(FuseLlmError::NotFound)
                && *final(self) == *old(self),
            old(self).conv_pos(id@) matches Some(i) ==> !old(self).conversations@[i].is_processing ==> r
                is Err && *final(self) == *old(self),
            old(self).conv_pos(id@) matches Some(i) ==> old(self).conversations@[i].is_processing ==> r
                is Ok && final(self).only_conversation_changed(*old(self), i)
                && !final(self).conversations@[i].is_processing
                && final(self).conversations@[i].context == old(self).conversations@[i].context && (reply matches Ok(a)
                ==> final(self).conversations@[i].history@ == old(self).conversations@[i].history@.push(
                Message { role: MessageRole::Assistant, content: a },
            ) && final(self).conversations@[i].latest_response@ == a@) && (reply matches Err(m)
                ==> final(self).conversations@[i].history@ == old(self).conversations@[i].history@.drop_last()
                && final(self).conversations@[i].latest_response@ == error_marker(m@)),
    {
        match self.conversation_index(id) {
            None => Err(FuseLlmError::NotFound),
            Some(i) => {
                if !self.conversations[i].is_processing {
                    return Err(FuseLlmError::InvalidInput(owned("no request is outstanding")));
                }
                let ghost old_ids = conv_ids(self.conversations@);
                self.conversations[i].complete_turn(reply);
                proof {
                    assert(conv_ids(self.conversations@) =~= old_ids);
                }
                Ok(())
            },
        }
    }

    /// Replaces a conversation's context and makes it the latest one.
    pub fn set_context(&mut self, id: &str, text: String) -> (r: Result<(), FuseLlmError>)
        requires
            old(self).wf(),
        ensures
            final(self).wf(),
            old(self).conv_pos(id@) is None ==> r == Err::<(), FuseLlmError>(FuseLlmError::NotFound)
                && *final(self) == *old(self),
            old(self).conv_pos(id@) matches Some(i) ==> r is Ok && final(self).only_conversation_changed(
                *old(self),
                i,
            ) && final(self).conversations@[i].context@ == text@
                && final(self).conversations@[i].history == old(self).conversations@[i].history
                && final(self).conversations@[i].is_processing == old(self).conversations@[i].is_processing
                && final(self).conversations@[i].latest_response == old(self).conversations@[i].latest_response,
    {
        match self.conversation_index(id) {
            None => Err(FuseLlmError::NotFound),
            Some(i) => {
                let ghost old_ids = conv_ids(self.conversations@);
                self.conversations[i].context = text;
                self.latest_conversation = Some(owned(id));
                proof {
                    assert(conv_ids(self.conversations@) =~= old_ids);
                }
                Ok(())
            },
        }
    }

    /// Empties what a conversation's `prompt` reads.
    pub fn clear_response(&mut self, id: &str) -> (r: Result<(), FuseLlmError>)
        requires
            old(self).wf(),
        ensures
            final(self).wf(),
            old(self).conv_pos(id@) is None ==> r == Err::<(), FuseLlmError>(FuseLlmError::NotFound)
                && *final(self) == *old(self),
            old(self).conv_pos(id@) matches Some(i) ==> r is Ok && final(self).only_conversation_changed(
                *old(self),
                i,
            ) && final(self).conversations@[i].latest_response@.len() == 0
                && final(self).conversations@[i].history == old(self).conversations@[i].history,
    {
        match self.conversation_index(id) {
            None => Err(FuseLlmError::NotFound),
            Some(i) => {
                let ghost old_ids = conv_ids(self.conversations@);
                self.conversations[i].clear_response();
                proof {
                    assert(conv_ids(self.conversations@) =~= old_ids);
                }
                Ok(())
            },
        }
    }

    /// Creates an empty index at the end of the list. An id already in use
    /// is refused.
    pub fn create_index(&mut self, id: String) -> (r: Result<(), FuseLlmError>)
        requires
            old(self).wf(),
        ensures
            final(self).wf(),
            old(self).index_pos(id@) is Some <==> r is Err,
            r matches Err(e) ==> e is InvalidInput && *final(self) == *old(self),
            r is Ok ==> final(self).search_indexes@.len() == old(self).search_indexes@.len() + 1
                && final(self).search_indexes@.drop_last() == old(self).search_indexes@
                && final(self).search_indexes@.last().id@ == id@
                && final(self).search_indexes@.last().corpus_files@.len() == 0
                && final(self).conversations == old(self).conversations,
    {
        if self.index_position(id.as_str()).is_some() {
            return Err(FuseLlmError::InvalidInput(owned("index already exists")));
        }
        let x = SearchIndex::new(id);
        let ghost old_ids = index_ids(self.search_indexes@);
        self.search_indexes.push(x);
        proof {
            assert(index_ids(self.search_indexes@) =~= old_ids.push(x.id@));
            lemma_distinct_push(old_ids, x.id@);
            assert(self.search_indexes@.drop_last() =~= old(self).search_indexes@);
            assert forall|j: int| 0 <= j < self.search_indexes@.len() implies (#[trigger] self.search_indexes@[j]).wf() by {
                if j < old(self).search_indexes@.len() {
                    assert(self.search_indexes@[j] == old(self).search_indexes@[j]);
                }
            }
        }
        Ok(())
    }

    /// Removes an index.
    pub fn drop_index(&mut self, id: &str) -> (r: Result<(), FuseLlmError>)
        requires
            old(self).wf(),
        ensures
            final(self).wf(),
            old(self).index_pos(id@) is None ==> r == Err::<(), FuseLlmError>(FuseLlmError::NotFound)
                && *final(self) == *old(self),
            old(self).index_pos(id@) matches Some(i) ==> r is Ok && final(self).search_indexes@
                == old(self).search_indexes@.remove(i),
            r is Ok ==> final(self).index_pos(id@) is None && final(self).conversations == old(self).conversations,
    {
        match self.index_position(id) {
            None => Err(FuseLlmError::NotFound),
            Some(i) => {
                let ghost old_ids = index_ids(self.search_indexes@);
                self.search_indexes.remove(i);
                proof {
                    assert(index_ids(self.search_indexes@) =~= old_ids.remove(i as int));
                    lemma_distinct_remove(old_ids, i as int);
                    assert forall|j: int| 0 <= j < self.search_indexes@.len() implies (#[trigger] self.search_indexes@[j]).wf() by {
                        if j < i {
                            assert(self.search_indexes@[j] == old(self).search_indexes@[j]);
                        } else {
                            assert(self.search_indexes@[j] == old(self).search_indexes@[j + 1]);
                        }
                    }
                }
                Ok(())
            },
        }
    }

    /// Records a document that the search service acknowledged.
    pub fn add_corpus_file(&mut self, index: &str, name: String) -> (r: Result<(), FuseLlmError>)
        requires
            old(self).wf(),
        ensures
            final(self).wf(),
            old(self).index_pos(index@) is None ==> r == Err::<(), FuseLlmError>(FuseLlmError::NotFound)
                && *final(self) == *old(self),
            old(self).index_pos(index@) matches Some(i) ==> r is Ok && final(self).only_index_changed(
                *old(self),
                i,
            ) && final(self).search_indexes@[i].corpus() == old(self).search_indexes@[i].corpus().insert(name@),
    {
        match self.index_position(index) {
            None => Err(FuseLlmError::NotFound),
            Some(i) => {
                let ghost old_ids = index_ids(self.search_indexes@);
                self.search_indexes[i].add_file(name);
                proof {
                    assert(index_ids(self.search_indexes@) =~= old_ids);
                }
                Ok(())
            },
        }
    }

    /// Forgets a document that the search service removed.
    pub fn remove_corpus_file(&mut self, index: &str, name: &str) -> (r: Result<(), FuseLlmError>)
        requires
            old(self).wf(),
        ensures
            final(self).wf(),
            old(self).index_pos(index@) is None ==> r == Err::<(), FuseLlmError>(FuseLlmError::NotFound)
                && *final(self) == *old(self),
            old(self).index_pos(index@) matches Some(i) ==> !old(self).search_indexes@[i].corpus().contains(name@) ==> r
                == Err::<(), FuseLlmError>(FuseLlmError::NotFound) && *final(self) == *old(self),
            old(self).index_pos(index@) matches Some(i) ==> old(self).search_indexes@[i].corpus().contains(name@) ==> r is Ok
                && final(self).only_index_changed(*old(self), i) && final(self).search_indexes@[i].corpus()
                == old(self).search_indexes@[i].corpus().remove(name@),
    {
        match self.index_position(index) {
            None => Err(FuseLlmError::NotFound),
            Some(i) => {
                let pos = self.search_indexes[i].file_position(name);
                if pos.is_none() {
                    return Err(FuseLlmError::NotFound);
                }
                proof {
                    let j = pos->Some_0 as int;
                    assert(texts(self.search_indexes@[i as int].corpus_files@)[j] == name@);
                    assert(self.search_indexes@[i as int].corpus().contains(name@));
                }
                let ghost old_ids = index_ids(self.search_indexes@);
                self.search_indexes[i].remove_file(name);
                proof {
                    assert(index_ids(self.search_indexes@) =~= old_ids);
                }
                Ok(())
            },
        }
    }

    /// Stores the result of the last query on an index.
    pub fn set_query_result(&mut self, index: &str, text: String) -> (r: Result<(), FuseLlmError>)
        requires
            old(self).wf(),
        ensures
            final(self).wf(),
            old(self).index_pos(index@) is None ==> r == Err::<(), FuseLlmError>(FuseLlmError::NotFound)
                && *final(self) == *old(self),
            old(self).index_pos(index@) matches Some(i) ==> r is Ok && final(self).only_index_changed(
                *old(self),
                i,
            ) && final(self).search_indexes@[i].latest_query_result@ == text@
                && final(self).search_indexes@[i].corpus_files == old(self).search_indexes@[i].corpus_files,
    {
        match self.index_position(index) {
            None => Err(FuseLlmError::NotFound),
            Some(i) => {
                let ghost old_ids = index_ids(self.search_indexes@);
                self.search_indexes[i].latest_query_result = text;
                proof {
                    assert(index_ids(self.search_indexes@) =~= old_ids);
                }
                Ok(())
            },
        }
    }

    /// The last stateless reply of a model.
    pub open spec fn model_reply(&self, model: Seq<char>) -> Option<Seq<char>> {
        match position_of(model_keys(self.model_last_response@), model) {
            Some(i) => Some(self.model_last_response@[i].1@),
            None => None,
        }
    }

    /// Looks up the last stateless reply of a model.
    pub fn model_response(&self, model: &str) -> (r: Option<String>)
        requires
            self.wf(),
        ensures
            r matches Some(t) ==> self.model_reply(model@) == Some(t@),
            r is None ==> self.model_reply(model@) is None,
    {
        match self.model_position(model) {
            Some(i) => Some(self.model_last_response[i].1.clone()),
            None => None,
        }
    }

    fn model_position(&self, model: &str) -> (r: Option<usize>)
        requires
            self.wf(),
        ensures
            r matches Some(i) ==> position_of(model_keys(self.model_last_response@), model@) == Some(i as int)
                && i < self.model_last_response@.len(),
            r is None ==> position_of(model_keys(self.model_last_response@), model@) is None,
    {
        let mut names: Vec<&str> = Vec::new();
        let mut i: usize = 0;
        while i < self.model_last_response.len()
            invariant
                i <= self.model_last_response@.len(),
                names@.len() == i,
                forall|t: int| 0 <= t < i ==> (#[trigger] names@[t])@ == model_keys(self.model_last_response@)[t],
            decreases self.model_last_response@.len() - i,
        {
            names.push(self.model_last_response[i].0.as_str());
            i += 1;
        }
        let r = find_key(Ghost(model_keys(self.model_last_response@)), &names, model);
        proof {
            if let Some(i) = r {
                lemma_position_of(model_keys(self.model_last_response@), model@, i as int);
            }
        }
        r
    }

    /// Stores the last stateless reply of a model.
    pub fn set_model_response(&mut self, model: String, text: String)
        requires
            old(self).wf(),
        ensures
            final(self).wf(),
            final(self).model_reply(model@) == Some(text@),
            forall|m: Seq<char>| m != model@ ==> #[trigger] final(self).model_reply(m) == old(self).model_reply(m),
            final(self).conversations == old(self).conversations,
            final(self).search_indexes == old(self).search_indexes,
            final(self).config == old(self).config,
            final(self).latest_conversation == old(self).latest_conversation,
    {
        let ghost old_keys = model_keys(self.model_last_response@);
        match self.model_position(model.as_str()) {
            Some(i) => {
                self.model_last_response[i].1 = text;
                proof {
                    assert(model_keys(self.model_last_response@) =~= old_keys);
                    lemma_position_of(old_keys, model@, i as int);
                    assert forall|m: Seq<char>| m != model@ implies #[trigger] self.model_reply(m) == old(self).model_reply(m) by {
                        if let Some(j) = position_of(old_keys, m) {
                            assert(j != i);
                        }
                    }
                }
            },
            None => {
                let ghost k = model@;
                self.model_last_response.push((model, text));
                proof {
                    let nk = model_keys(self.model_last_response@);
                    assert(nk =~= old_keys.push(k));
                    lemma_distinct_push(old_keys, k);
                    lemma_position_of(nk, k, old_keys.len() as int);
                    assert forall|m: Seq<char>| m != k implies #[trigger] self.model_reply(m) == old(self).model_reply(m) by {
                        if old_keys.contains(m) {
                            let j = choose|j: int| 0 <= j < old_keys.len() && old_keys[j] == m;
                            lemma_position_of(old_keys, m, j);
                            lemma_position_of(nk, m, j);
                        } else {
                            assert(!nk.contains(m)) by {
                                if nk.contains(m) {
                                    let j = choose|j: int| 0 <= j < nk.len() && nk[j] == m;
                                    assert(old_keys[j] == m);
                                }
                            }
                        }
                    }
                }
            },
        }
    }

    /// Installs a new configuration snapshot; an invalid one is refused and
    /// the old snapshot stays.
    pub fn replace_global_config(&mut self, config: GlobalConfig) -> (r: Result<(), FuseLlmError>)
        requires
            old(self).wf(),
        ensures
            final(self).wf(),
            r is Ok <==> config.valid(),
            r is Ok ==> final(self).config == config,
            r is Err ==> *final(self) == *old(self),
            final(self).conversations == old(self).conversations,
            final(self).search_indexes == old(self).search_indexes,
    {
        match config.validate() {
            Ok(()) => {
                self.config = config;
                Ok(())
            },
            Err(e) => Err(e),
        }
    }

    /// Replaces a conversation's configuration.
    pub fn set_conversation_config(&mut self, id: &str, config: ConversationConfig) -> (r: Result<(), FuseLlmError>)
        requires
            old(self).wf(),
        ensures
            final(self).wf(),
            old(self).conv_pos(id@) is None ==> r == Err::<(), FuseLlmError>(FuseLlmError::NotFound)
                && *final(self) == *old(self),
            old(self).conv_pos(id@) matches Some(i) ==> r is Ok && final(self).only_conversation_changed(
                *old(self),
                i,
            ) && final(self).conversations@[i].config == config
                && final(self).conversations@[i].history == old(self).conversations@[i].history
                && final(self).conversations@[i].context == old(self).conversations@[i].context
                && final(self).conversations@[i].latest_response == old(self).conversations@[i].latest_response,
    {
        match self.conversation_index(id) {
            None => Err(FuseLlmError::NotFound),
            Some(i) => {
                let ghost old_ids = conv_ids(self.conversations@);
                self.conversations[i].config = config;
                proof {
                    assert(conv_ids(self.conversations@) =~= old_ids);
                }
                Ok(())
            },
        }
    }
}

} // verus!
