//! One exchange of a chat: the user's message is answered with the help of
//! similar stored documents and of the chat's summary, the exchange is
//! stored, and the chat's summary is renewed.
//!
//! The exchange alternates calls to the model and to the databases with
//! decisions on what came back. The decisions are made here, by
//! [`MessageFlow::step`], which takes what the last call gave and names the
//! next call to make; the caller makes the calls.
use vstd::prelude::*;

use crate::database::chat_db_model::OMessage;
use crate::model_info::{empty_model_view, ModelInfo};
use crate::rag::generation::ASSISTANT_PREAMBLE;
use crate::rag::indexing::Document;
use crate::rag::retrieval::{contents_of, merge_contents};
use crate::text::seq_join;

verus! {

/// What a message needs: the user's text, the chat it belongs to and the
/// model that answers.
#[derive(Debug)]
pub struct OConfig {
    pub user_message: String,
    pub c_id: i64,
    pub model: ModelInfo,
}

impl Default for OConfig {
    /// An empty message for chat 0, answered by the empty model.
    fn default() -> (c: OConfig)
        ensures
            c.user_message@ == Seq::<char>::empty(),
            c.c_id == 0,
            c.model@ == empty_model_view(),
    {
        OConfig { user_message: String::new(), c_id: 0, model: ModelInfo::default() }
    }
}

/// The instruction under which the model summarizes an exchange.
pub const SUMMARY_PREAMBLE: &'static str = "You are an AI assistant designed to summarize conversations efficiently. Your task is to extract key points from the discussion while maintaining clarity and coherence. Focus on the most important details, omitting unnecessary repetitions. Format the summary logically, preserving the intent of the conversation. Ensure brevity while maintaining accuracy. If relevant, highlight any conclusions, decisions, or action points discussed.";

/// How many similar documents are looked up for a message.
pub const SIMILAR_DOCS_COUNT: usize = 3;

/// The text that the model summarizes after an exchange.
pub open spec fn exchange_prompt(user: Seq<char>, reply: Seq<char>) -> Seq<char> {
    "user:"@ + user + "\nAI:"@ + reply
}

/// The context that carries the retrieved documents.
pub open spec fn docs_context(docs: Seq<char>) -> Seq<char> {
    "information:\n"@ + docs
}

/// The text that the model summarizes holds the user's whole message and
/// the model's whole reply: it is `user:`, the message, a newline and
/// `AI:`, then the reply, and nothing else.
pub proof fn lemma_exchange_prompt_holds_whole_exchange(user: Seq<char>, reply: Seq<char>)
    ensures
        exchange_prompt(user, reply).len() == user.len() + reply.len() + 9,
        exchange_prompt(user, reply).subrange(0, 5) == seq!['u', 's', 'e', 'r', ':'],
        exchange_prompt(user, reply).subrange(5, 5 + user.len() as int) == user,
        exchange_prompt(user, reply).subrange(5 + user.len() as int, 9 + user.len() as int) == seq![
            '\n',
            'A',
            'I',
            ':',
        ],
        exchange_prompt(user, reply).subrange(
            9 + user.len() as int,
            exchange_prompt(user, reply).len() as int,
        ) == reply,
{
    reveal_strlit("user:");
    reveal_strlit("\nAI:");
    let p = exchange_prompt(user, reply);
    let n = user.len() as int;
    assert(p.subrange(0, 5) =~= seq!['u', 's', 'e', 'r', ':']);
    assert(p.subrange(5, 5 + n) =~= user);
    assert(p.subrange(5 + n, 9 + n) =~= seq!['\n', 'A', 'I', ':']);
    assert(p.subrange(9 + n, p.len() as int) =~= reply);
}

/// The context of the retrieved documents is `information:` and a newline,
/// then the whole joined documents, and nothing else.
pub proof fn lemma_docs_context_holds_all_docs(docs: Seq<char>)
    ensures
        docs_context(docs).len() == docs.len() + 13,
        docs_context(docs).subrange(0, 13) == seq![
            'i',
            'n',
            'f',
            'o',
            'r',
            'm',
            'a',
            't',
            'i',
            'o',
            'n',
            ':',
            '\n',
        ],
        docs_context(docs).subrange(13, docs_context(docs).len() as int) == docs,
{
    reveal_strlit("information:\n");
    let c = docs_context(docs);
    assert(c.subrange(0, 13) =~= seq![
        'i',
        'n',
        'f',
        'o',
        'r',
        'm',
        'a',
        't',
        'i',
        'o',
        'n',
        ':',
        '\n',
    ]);
    assert(c.subrange(13, c.len() as int) =~= docs);
}

/// The text that the model summarizes after the user wrote `user` and the
/// model replied `reply`: `user:<user>\nAI:<reply>`.
pub fn make_exchange_prompt(user: &str, reply: &str) -> (p: String)
    ensures
        p@ == exchange_prompt(user@, reply@),
{
    let mut p = "user:".to_owned();
    p.append(user);
    p.append("\nAI:");
    p.append(reply);
    p
}

/// The context that carries the retrieved documents: `information:\n<docs>`.
pub fn make_docs_context(docs: &str) -> (c: String)
    ensures
        c@ == docs_context(docs@),
{
    let mut c = "information:\n".to_owned();
    c.append(docs);
    c
}

/// Where an exchange stands: which call's outcome it waits for.
#[derive(Debug, Clone, Copy, PartialEq, Eq, Structural)]
pub enum MessagePhase {
    AwaitEmbedding,
    AwaitDocs,
    AwaitChatSummary,
    AwaitReply,
    AwaitInsert,
    AwaitRelate,
    AwaitSummary,
    AwaitSummaryStored,
    AwaitSummaryEmbedding,
    AwaitDocumentStored,
    Done,
}

/// How many calls at most are still to come from a phase.
pub open spec fn phase_rank(p: MessagePhase) -> nat {
    match p {
        MessagePhase::AwaitEmbedding => 10,
        MessagePhase::AwaitDocs => 9,
        MessagePhase::AwaitChatSummary => 8,
        MessagePhase::AwaitReply => 7,
        MessagePhase::AwaitInsert => 6,
        MessagePhase::AwaitRelate => 5,
        MessagePhase::AwaitSummary => 4,
        MessagePhase::AwaitSummaryStored => 3,
        MessagePhase::AwaitSummaryEmbedding => 2,
        MessagePhase::AwaitDocumentStored => 1,
        MessagePhase::Done => 0,
    }
}

/// The next call to make.
#[derive(Debug)]
pub enum MessageAction {
    /// Compute the embedding of the user's text.
    EmbedMessage { text: String },
    /// Look up at most `n_doc` stored documents similar to that embedding.
    SearchDocs { n_doc: usize },
    /// Read the summary of chat `c_id`.
    FetchChatSummary { c_id: i64 },
    /// Ask `model`, under `preamble` and with the `context` texts, to answer
    /// `prompt`, streaming the reply.
    StreamReply { model: String, preamble: String, context: Vec<String>, prompt: String },
    /// Store the exchange `message`.
    InsertMessage { message: OMessage },
    /// Relate message `m_id` to chat `c_id`.
    Relate { c_id: i64, m_id: i64 },
    /// Ask `model`, under `preamble`, to summarize `prompt`.
    Summarize { model: String, preamble: String, prompt: String },
    /// Set the summary of chat `c_id` to `summary`.
    StoreChatSummary { c_id: i64, summary: String },
    /// Compute the embedding of the summary `text`.
    EmbedSummary { text: String },
    /// Store the summary's embedding as a document.
    StoreSummaryDocument,
    /// The exchange is over; `ok` is false when the model could not answer.
    Finish { ok: bool },
}

/// What the last call gave.
#[derive(Debug)]
pub enum MessageEvent {
    /// The user's text has its embedding.
    MessageEmbedded,
    /// The similar documents, or `None` when the lookup failed.
    DocsFound(Option<Vec<Document>>),
    /// The chat's summary, or `None` when it could not be read.
    ChatSummaryFetched(Option<String>),
    /// The model's whole reply.
    ReplyStreamed(String),
    /// The model could not be asked.
    StreamFailed,
    /// The stored message as the database gives it back, or `None`.
    MessageInserted(Option<OMessage>),
    /// The message is related to the chat (or the attempt failed).
    Related,
    /// The model's summary of the exchange, or `None` when it failed.
    Summarized(Option<String>),
    /// The chat's summary is stored (or the attempt failed).
    ChatSummaryStored,
    /// The summary has its embedding.
    SummaryEmbedded,
    /// The summary's document is stored.
    SummaryDocumentStored,
}

/// The outcome that each phase waits for.
pub open spec fn accepts(p: MessagePhase, e: MessageEvent) -> bool {
    match p {
        MessagePhase::AwaitEmbedding => e is MessageEmbedded,
        MessagePhase::AwaitDocs => e is DocsFound,
        MessagePhase::AwaitChatSummary => e is ChatSummaryFetched,
        MessagePhase::AwaitReply => e is ReplyStreamed || e is StreamFailed,
        MessagePhase::AwaitInsert => e is MessageInserted,
        MessagePhase::AwaitRelate => e is Related,
        MessagePhase::AwaitSummary => e is Summarized,
        MessagePhase::AwaitSummaryStored => e is ChatSummaryStored,
        MessagePhase::AwaitSummaryEmbedding => e is SummaryEmbedded,
        MessagePhase::AwaitDocumentStored => e is SummaryDocumentStored,
        MessagePhase::Done => false,
    }
}

/// The texts of an optional answer, the empty text standing for `None`.
pub open spec fn text_or_empty(t: Option<String>) -> Seq<char> {
    match t {
        Some(s) => s@,
        None => Seq::empty(),
    }
}

/// The id of an optional stored message, 0 standing for `None`.
pub open spec fn id_or_zero(m: Option<OMessage>) -> i64 {
    match m {
        Some(m) => m@.id,
        None => 0,
    }
}

/// The joined contents of an optional list of documents, the empty text
/// standing for `None`.
pub open spec fn merged_or_empty(docs: Option<Vec<Document>>) -> Seq<char> {
    match docs {
        Some(d) => seq_join(contents_of(d@), "\n"@),
        None => Seq::empty(),
    }
}

/// The state of one exchange.
#[derive(Debug)]
pub struct MessageFlow {
    pub user_message: String,
    pub c_id: i64,
    pub model: String,
    pub phase: MessagePhase,
    /// The retrieved documents, joined.
    pub docs: String,
    /// The model's reply.
    pub reply: String,
    /// The summary of the exchange.
    pub summary: String,
}

impl MessageFlow {
    /// Starts the exchange of `config`: the first call computes the
    /// embedding of the user's text.
    pub fn start(config: OConfig) -> (res: (MessageFlow, MessageAction))
        ensures
            res.0.user_message@ == config.user_message@,
            res.0.c_id == config.c_id,
            res.0.model@ == config.model@.name,
            res.0.phase == MessagePhase::AwaitEmbedding,
            res.1 matches MessageAction::EmbedMessage { text } && text@ == config.user_message@,
    {
        let text = config.user_message.clone();
        let flow = MessageFlow {
            user_message: config.user_message,
            c_id: config.c_id,
            model: config.model.name,
            phase: MessagePhase::AwaitEmbedding,
            docs: String::new(),
            reply: String::new(),
            summary: String::new(),
        };
        (flow, MessageAction::EmbedMessage { text })
    }

    /// Takes the outcome of the last call and names the next one. The user's
    /// text, the chat and the model never change; each step moves the
    /// exchange one phase on, so an exchange ends after at most ten steps.
    pub fn step(&mut self, event: MessageEvent) -> (action: MessageAction)
        requires
            accepts(old(self).phase, event),
        ensures
            final(self).user_message@ == old(self).user_message@,
            final(self).c_id == old(self).c_id,
            final(self).model@ == old(self).model@,
            phase_rank(final(self).phase) < phase_rank(old(self).phase),
            (action is Finish) == (final(self).phase == MessagePhase::Done),
            !(event is DocsFound) ==> final(self).docs@ == old(self).docs@,
            !(event is ReplyStreamed) ==> final(self).reply@ == old(self).reply@,
            !(event is Summarized) ==> final(self).summary@ == old(self).summary@,
            match event {
                MessageEvent::MessageEmbedded => {
                    &&& final(self).phase == MessagePhase::AwaitDocs
                    &&& action matches MessageAction::SearchDocs { n_doc } && n_doc == SIMILAR_DOCS_COUNT
                },
                MessageEvent::DocsFound(d) => {
                    &&& final(self).phase == MessagePhase::AwaitChatSummary
                    &&& final(self).docs@ == merged_or_empty(d)
                    &&& action matches MessageAction::FetchChatSummary { c_id } && c_id == old(self).c_id
                },
                MessageEvent::ChatSummaryFetched(s) => {
                    &&& final(self).phase == MessagePhase::AwaitReply
                    &&& action matches MessageAction::StreamReply { model, preamble, context, prompt }
                        && model@ == old(self).model@
                        && preamble@ == ASSISTANT_PREAMBLE@
                        && context@.len() == 2
                        && context@[0]@ == text_or_empty(s)
                        && context@[1]@ == docs_context(old(self).docs@)
                        && prompt@ == old(self).user_message@
                },
                MessageEvent::ReplyStreamed(r) => {
                    &&& final(self).phase == MessagePhase::AwaitInsert
                    &&& final(self).reply@ == r@
                    &&& action matches MessageAction::InsertMessage { message }
                        && message@.message == old(self).user_message@
                        && message@.response == r@
                        && 0 <= message@.id <= crate::clock::LATEST_SECS
                },
                MessageEvent::StreamFailed => action matches MessageAction::Finish { ok } && !ok,
                MessageEvent::MessageInserted(m) => {
                    &&& final(self).phase == MessagePhase::AwaitRelate
                    &&& action matches MessageAction::Relate { c_id, m_id }
                        && c_id == old(self).c_id && m_id == id_or_zero(m)
                },
                MessageEvent::Related => {
                    &&& final(self).phase == MessagePhase::AwaitSummary
                    &&& action matches MessageAction::Summarize { model, preamble, prompt }
                        && model@ == old(self).model@
                        && preamble@ == SUMMARY_PREAMBLE@
                        && prompt@ == exchange_prompt(old(self).user_message@, old(self).reply@)
                },
                MessageEvent::Summarized(s) => {
                    &&& final(self).phase == MessagePhase::AwaitSummaryStored
                    &&& final(self).summary@ == text_or_empty(s)
                    &&& action matches MessageAction::StoreChatSummary { c_id, summary }
                        && c_id == old(self).c_id && summary@ == text_or_empty(s)
                },
                MessageEvent::ChatSummaryStored => {
                    &&& final(self).phase == MessagePhase::AwaitSummaryEmbedding
                    &&& action matches MessageAction::EmbedSummary { text } && text@ == old(self).summary@
                },
                MessageEvent::SummaryEmbedded => {
                    &&& final(self).phase == MessagePhase::AwaitDocumentStored
                    &&& action is StoreSummaryDocument
                },
                MessageEvent::SummaryDocumentStored => action matches MessageAction::Finish { ok } && ok,
            },
    {
        match event {
            MessageEvent::MessageEmbedded => {
                self.phase = MessagePhase::AwaitDocs;
                MessageAction::SearchDocs { n_doc: SIMILAR_DOCS_COUNT }
            },
            MessageEvent::DocsFound(d) => {
                self.docs = match d {
                    Some(docs) => merge_contents(&docs),
                    None => String::new(),
                };
                self.phase = MessagePhase::AwaitChatSummary;
                MessageAction::FetchChatSummary { c_id: self.c_id }
            },
            MessageEvent::ChatSummaryFetched(s) => {
                let summary = match s {
                    Some(s) => s,
                    None => String::new(),
                };
                let mut context: Vec<String> = Vec::new();
                context.push(summary);
                context.push(make_docs_context(self.docs.as_str()));
                self.phase = MessagePhase::AwaitReply;
                MessageAction::StreamReply {
                    model: self.model.clone(),
                    preamble: ASSISTANT_PREAMBLE.to_owned(),
                    context,
                    prompt: self.user_message.clone(),
                }
            },
            MessageEvent::ReplyStreamed(r) => {
                let mut message = OMessage::new();
                message.add_message(self.user_message.as_str());
                message.add_response(r.as_str());
                self.reply = r;
                self.phase = MessagePhase::AwaitInsert;
                MessageAction::InsertMessage { message }
            },
            MessageEvent::StreamFailed => {
                self.phase = MessagePhase::Done;
                MessageAction::Finish { ok: false }
            },
            MessageEvent::MessageInserted(m) => {
                let m_id = match m {
                    Some(m) => *m.id(),
                    None => 0,
                };
                self.phase = MessagePhase::AwaitRelate;
                MessageAction::Relate { c_id: self.c_id, m_id }
            },
            MessageEvent::Related => {
                self.phase = MessagePhase::AwaitSummary;
                MessageAction::Summarize {
                    model: self.model.clone(),
                    preamble: SUMMARY_PREAMBLE.to_owned(),
                    prompt: make_exchange_prompt(self.user_message.as_str(), self.reply.as_str()),
                }
            },
            MessageEvent::Summarized(s) => {
                self.summary = match s {
                    Some(s) => s,
                    None => String::new(),
                };
                self.phase = MessagePhase::AwaitSummaryStored;
                MessageAction::StoreChatSummary { c_id: self.c_id, summary: self.summary.clone() }
            },
            MessageEvent::ChatSummaryStored => {
                self.phase = MessagePhase::AwaitSummaryEmbedding;
                MessageAction::EmbedSummary { text: self.summary.clone() }
            },
            MessageEvent::SummaryEmbedded => {
                self.phase = MessagePhase::AwaitDocumentStored;
                MessageAction::StoreSummaryDocument
            },
            MessageEvent::SummaryDocumentStored => {
                self.phase = MessagePhase::Done;
                MessageAction::Finish { ok: true }
            },
        }
    }
}

} // verus!
