use chrono::TimeZone;
use omama_manager::chat::{MessageAction, MessageEvent, MessageFlow, MessagePhase, OConfig};
use omama_manager::database::chat_db_model::NEW_CHAT_NAME;
use omama_manager::database::queries::{
    chat_or_default, flatten_messages, message_or_default, relate_query, summary_from_rows,
};
use omama_manager::database::{OChat, OMessage, ODatabse};
use omama_manager::rag::indexing::DOCUMENT_ID_LEN;
use omama_manager::rag::{merge_contents, new_document_id, Document};
use omama_manager::service_utils::models_manager::EMBEDDING_MODEL_NAME;
use omama_manager::service_utils::{
    bundled_executable, group_local_models, local_model_info, locate_command, model_tag,
    models_to_json, parse_models_json, password_accepted, password_line, password_verdict,
    service_program, split_model_tag, OModelInfo, ServiceProgram, WrongPass,
};
use omama_manager::{ModelCategory, ModelInfo, ModelVariant};

fn strings(v: &[&str]) -> Vec<String> {
    v.iter().map(|s| s.to_string()).collect()
}

fn model(name: &str, sizes: &[&str]) -> ModelInfo {
    ModelInfo {
        name: name.to_string(),
        varients: sizes.iter().map(|s| ModelVariant::new(s, "1GB")).collect(),
        category: ModelCategory::Tool,
        summary_content: "summary".to_string(),
        readme_content: "readme".to_string(),
    }
}

fn sizes_of(m: &ModelInfo) -> Vec<String> {
    m.varients.iter().map(|v| v.token_size.clone()).collect()
}

//------------------------------ chat records --------------------------------

#[test]
fn chat_creation_date_has_date_shape() {
    let c = OChat::from_parts(1743076482, "c".to_owned(), "".to_owned());
    let t = c.get_time_creation();
    let b = t.as_bytes();
    assert_eq!(b.len(), 19);
    assert_eq!(b[4], b'-');
    assert_eq!(b[7], b'-');
    assert_eq!(b[10], b' ');
    assert_eq!(b[13], b':');
    assert_eq!(b[16], b':');
    assert!(t.starts_with("2025-03-2"));
}

#[test]
fn new_chat_is_named_new_chat() {
    let c = OChat::new();
    assert_eq!(c.name(), NEW_CHAT_NAME);
    assert_eq!(c.name(), "new chat");
    assert_eq!(c.summary(), "");
    assert!(*c.id() > 1_700_000_000_000);
}

#[test]
fn updating_chat_name_reads_back() {
    let mut o = OChat::from_parts(1743678992662, "new chat".to_owned(), "s".to_owned());
    o.update_name("new era of ducking");
    assert_eq!(o.name(), "new era of ducking");
    assert_eq!(*o.id(), 1743678992662);
    assert_eq!(o.summary(), "s");
}

#[test]
fn message_fields_read_back() {
    let mut m = OMessage::new();
    let id = *m.id();
    m.add_message("how are you?");
    m.add_response("am fine");
    assert_eq!(m.message(), "how are you?");
    assert_eq!(m.response(), "am fine");
    assert_eq!(*m.id(), id);
    assert!(id > 1_700_000_000);
}

#[test]
fn message_id_is_whole_seconds_of_clock() {
    assert_eq!(*OMessage::with_millis(1743076482649).id(), 1743076482);
    assert_eq!(*OMessage::with_millis(999).id(), 0);
    assert_eq!(*OMessage::with_millis(-1).id(), -1);
    assert_eq!(*OMessage::with_millis(-1000).id(), -1);
    assert_eq!(*OMessage::with_millis(-1001).id(), -2);
    assert_eq!(*OChat::with_id(42).id(), 42);
}

#[test]
fn defaults_are_empty() {
    let c = OChat::default();
    assert_eq!((*c.id(), c.name(), c.summary()), (0, "", ""));
    let m = OMessage::default();
    assert_eq!((*m.id(), m.message(), m.response()), (0, "", ""));
    let conf = OConfig::default();
    assert_eq!(conf.user_message, "");
    assert_eq!(conf.c_id, 0);
    assert_eq!(conf.model.name(), "");
    assert!(conf.model.varients.is_empty());
    assert_eq!(conf.model.category, ModelCategory::Other);
}

#[test]
fn database_names() {
    assert_eq!(ODatabse::Ochat.db_name(), "ochat");
    assert_eq!(ODatabse::Odoc.db_name(), "odoc");
}

//------------------------------ queries -------------------------------------

#[test]
fn summary_is_first_row_or_empty() {
    assert_eq!(summary_from_rows(strings(&["new world", "other"])), "new world");
    assert_eq!(summary_from_rows(vec![]), "");
}

#[test]
fn messages_are_flattened_in_order() {
    let rows = vec![
        vec![
            OMessage::from_parts(1, "a".into(), "x".into()),
            OMessage::from_parts(2, "b".into(), "y".into()),
        ],
        vec![],
        vec![OMessage::from_parts(3, "c".into(), "z".into())],
    ];
    let ms = flatten_messages(rows);
    let ids: Vec<i64> = ms.iter().map(|m| *m.id()).collect();
    assert_eq!(ids, vec![1, 2, 3]);
    assert_eq!(ms[2].message(), "c");
    assert!(flatten_messages(vec![]).is_empty());
}

#[test]
fn missing_records_become_defaults() {
    let c = chat_or_default(Some(OChat::from_parts(5, "Rust Chat".into(), "".into())));
    assert_eq!((*c.id(), c.name()), (5, "Rust Chat"));
    assert_eq!(*chat_or_default(None).id(), 0);
    let m = message_or_default(Some(OMessage::from_parts(7, "m".into(), "r".into())));
    assert_eq!(*m.id(), 7);
    assert_eq!(*message_or_default(None).id(), 0);
}

#[test]
fn relate_statement() {
    assert_eq!(
        relate_query("chat:1743076482649", "message:1743076482"),
        "RELATE chat:1743076482649 ->mess_chat -> message:1743076482;"
    );
}

//------------------------------ retrieval -----------------------------------

#[test]
fn merged_contents_one_per_line() {
    let d = |c: &str| Document::new("id".to_owned(), c.to_owned());
    assert_eq!(merge_contents(&vec![]), "");
    assert_eq!(merge_contents(&vec![d("eid saeed")]), "eid saeed");
    assert_eq!(
        merge_contents(&vec![d("hello,world"), d("chicken are so cute"), d("x")]),
        "hello,world\nchicken are so cute\nx"
    );
}

#[test]
fn documents_are_equal_by_id() {
    let a = Document::new("abc".to_owned(), "one".to_owned());
    let b = Document::new("abc".to_owned(), "two".to_owned());
    let c = Document::new("abd".to_owned(), "one".to_owned());
    assert!(a == b);
    assert!(a != c);
    assert!(a == a.clone());
}

#[test]
fn document_ids_are_twelve_url_safe_chars() {
    let id = new_document_id();
    assert_eq!(id.chars().count(), DOCUMENT_ID_LEN);
    assert_eq!(DOCUMENT_ID_LEN, 12);
    assert!(id.chars().all(|c| c.is_ascii_alphanumeric() || c == '_' || c == '-'));
    let d = Document::with_new_id("allawiii".to_owned());
    assert_eq!(d.content, "allawiii");
    assert_eq!(d.id.chars().count(), 12);
    assert_ne!(new_document_id(), new_document_id());
}

//------------------------------ models --------------------------------------

#[test]
fn model_tags() {
    assert_eq!(model_tag("qwen2.5", "0.5b"), "qwen2.5:0.5b");
    assert_eq!(
        split_model_tag("deepseek-r1:1.5b"),
        Some(("deepseek-r1".to_owned(), "1.5b".to_owned()))
    );
    assert_eq!(split_model_tag("a:b:c"), Some(("a".to_owned(), "b:c".to_owned())));
    assert_eq!(split_model_tag(":x"), Some(("".to_owned(), "x".to_owned())));
    assert_eq!(split_model_tag("noversion"), None);
}

#[test]
fn split_undoes_model_tag() {
    for (n, t) in [("qwen2.5", "0.5b"), ("llama3", "8b"), ("m", "a:b"), ("", "")] {
        assert_eq!(split_model_tag(&model_tag(n, t)), Some((n.to_owned(), t.to_owned())));
    }
}

#[test]
fn listing_local_models() {
    let tags = strings(&[
        "qwen2.5:0.5b",
        "nomic-embed-text:latest",
        "qwen2.5:1.5b",
        "llama3:8b",
        "qwen2.5:7b",
    ]);
    let groups = group_local_models(&tags);
    let view: Vec<(String, Vec<String>)> =
        groups.into_iter().map(|g| (g.name, g.token_sizes)).collect();
    assert_eq!(
        view,
        vec![
            ("qwen2.5".to_owned(), strings(&["0.5b", "1.5b", "7b"])),
            ("llama3".to_owned(), strings(&["8b"])),
        ]
    );
    assert!(!view.iter().any(|(n, _)| n.contains(EMBEDDING_MODEL_NAME)));
    assert!(group_local_models(&vec![]).is_empty());
    assert!(group_local_models(&strings(&["nomic-embed-text:latest"])).is_empty());
}

#[test]
fn local_model_keeps_installed_variants() {
    let known = model("qwen2.5", &["0.5b", "1.5b", "7b", "14b"]);
    let m = local_model_info(Some(known), &strings(&["7b", "0.5b"]));
    assert_eq!(m.name, "qwen2.5");
    assert_eq!(sizes_of(&m), strings(&["0.5b", "7b"]));
    assert_eq!(m.category, ModelCategory::Tool);
    assert_eq!(m.summary_content, "summary");
    assert_eq!(m.readme_content, "readme");
    let unknown = local_model_info(None, &strings(&["7b"]));
    assert_eq!(unknown.name, "");
    assert!(unknown.varients.is_empty());
    assert_eq!(unknown.category, ModelCategory::Other);
}

#[test]
fn model_record_is_kept_under_its_name() {
    let r = OModelInfo::from_model(model("llama3", &["8b"]));
    assert_eq!(r.id, "llama3");
    assert_eq!(r.model.name, "llama3");
    assert_eq!(ModelInfo::named("deepseek-r1:1.5b").name(), "deepseek-r1:1.5b");
}

//------------------------------ service -------------------------------------

#[test]
fn wrong_password_message() {
    let w = WrongPass::for_password("07894");
    assert_eq!(w, WrongPass("wrong password : 07894".to_owned()));
    assert_eq!(w.message(), "wrong password : 07894");
    assert_eq!(password_verdict(false, "07894"), Err(w));
    assert_eq!(password_verdict(true, "0788"), Ok(()));
    assert_eq!(password_line("0788"), "0788\n");
}

#[test]
fn password_acceptance() {
    assert!(password_accepted(false, Some(true)));
    assert!(!password_accepted(true, Some(true)));
    assert!(!password_accepted(false, Some(false)));
    assert!(!password_accepted(false, None));
}

#[test]
fn executable_locations() {
    assert_eq!(bundled_executable(true), "ollama-windows/ollama.exe");
    assert_eq!(bundled_executable(false), "Ollama.app/Contents/MacOS/Ollama");
    assert_eq!(locate_command(true), "where");
    assert_eq!(locate_command(false), "which");
}

#[test]
fn local_ollama_path() {
    // ollama_td's default download location is the directory of the running
    // executable, beside which the bundled ollama is looked for.
    let mut download = ollama_td::OllamaDownloadBuilder::new().unwrap().build().unwrap();
    let local = download.get_d_location().join(bundled_executable(false)).exists();
    println!("locally: {}", local);
}

//------------------------------ one exchange --------------------------------

#[test]
fn message_exchange_runs_in_order() {
    let conf = OConfig {
        user_message: "Tell me about the history of wars in short statement".to_string(),
        c_id: 1743076482649,
        model: ModelInfo::named("deepseek-r1:1.5b"),
    };
    let (mut flow, first) = MessageFlow::start(conf);
    assert!(matches!(first, MessageAction::EmbedMessage { ref text } if text == "Tell me about the history of wars in short statement"));
    assert!(matches!(flow.step(MessageEvent::MessageEmbedded), MessageAction::SearchDocs { n_doc: 3 }));
    let docs = vec![
        Document::new("a".into(), "wars".into()),
        Document::new("b".into(), "peace".into()),
    ];
    assert!(matches!(
        flow.step(MessageEvent::DocsFound(Some(docs))),
        MessageAction::FetchChatSummary { c_id: 1743076482649 }
    ));
    match flow.step(MessageEvent::ChatSummaryFetched(Some("new world".into()))) {
        MessageAction::StreamReply { model, preamble, context, prompt } => {
            assert_eq!(model, "deepseek-r1:1.5b");
            assert_eq!(preamble, "you are a perfect AI assistant in all disciplines.");
            assert_eq!(context, strings(&["new world", "information:\nwars\npeace"]));
            assert_eq!(prompt, "Tell me about the history of wars in short statement");
        }
        other => panic!("unexpected {:?}", other),
    }
    match flow.step(MessageEvent::ReplyStreamed("wars were many".into())) {
        MessageAction::InsertMessage { message } => {
            assert_eq!(message.message(), "Tell me about the history of wars in short statement");
            assert_eq!(message.response(), "wars were many");
        }
        other => panic!("unexpected {:?}", other),
    }
    let stored = OMessage::from_parts(1743076482, "m".into(), "r".into());
    assert!(matches!(
        flow.step(MessageEvent::MessageInserted(Some(stored))),
        MessageAction::Relate { c_id: 1743076482649, m_id: 1743076482 }
    ));
    match flow.step(MessageEvent::Related) {
        MessageAction::Summarize { model, prompt, .. } => {
            assert_eq!(model, "deepseek-r1:1.5b");
            assert_eq!(
                prompt,
                "user:Tell me about the history of wars in short statement\nAI:wars were many"
            );
        }
        other => panic!("unexpected {:?}", other),
    }
    match flow.step(MessageEvent::Summarized(None)) {
        MessageAction::StoreChatSummary { c_id, summary } => {
            assert_eq!(c_id, 1743076482649);
            assert_eq!(summary, "");
        }
        other => panic!("unexpected {:?}", other),
    }
    assert!(matches!(flow.step(MessageEvent::ChatSummaryStored), MessageAction::EmbedSummary { ref text } if text.is_empty()));
    assert!(matches!(flow.step(MessageEvent::SummaryEmbedded), MessageAction::StoreSummaryDocument));
    assert!(matches!(flow.step(MessageEvent::SummaryDocumentStored), MessageAction::Finish { ok: true }));
    assert_eq!(flow.phase, MessagePhase::Done);
}

#[test]
fn failed_reply_ends_the_exchange() {
    let conf = OConfig { user_message: "hi".into(), c_id: 1, model: ModelInfo::named("m") };
    let (mut flow, _) = MessageFlow::start(conf);
    flow.step(MessageEvent::MessageEmbedded);
    match flow.step(MessageEvent::DocsFound(None)) {
        MessageAction::FetchChatSummary { c_id } => assert_eq!(c_id, 1),
        other => panic!("unexpected {:?}", other),
    }
    match flow.step(MessageEvent::ChatSummaryFetched(None)) {
        MessageAction::StreamReply { context, .. } => {
            assert_eq!(context, strings(&["", "information:\n"]))
        }
        other => panic!("unexpected {:?}", other),
    }
    assert!(matches!(flow.step(MessageEvent::StreamFailed), MessageAction::Finish { ok: false }));
    assert_eq!(flow.phase, MessagePhase::Done);
}

#[test]
fn relate_uses_zero_when_insert_gives_nothing() {
    let conf = OConfig { user_message: "hi".into(), c_id: 9, model: ModelInfo::named("m") };
    let (mut flow, _) = MessageFlow::start(conf);
    flow.step(MessageEvent::MessageEmbedded);
    flow.step(MessageEvent::DocsFound(Some(vec![])));
    flow.step(MessageEvent::ChatSummaryFetched(Some("s".into())));
    flow.step(MessageEvent::ReplyStreamed("r".into()));
    assert!(matches!(
        flow.step(MessageEvent::MessageInserted(None)),
        MessageAction::Relate { c_id: 9, m_id: 0 }
    ));
}

#[test]
fn creation_date_is_local_time_of_the_id() {
    let expected = |secs: i64| {
        chrono::Local.timestamp_opt(secs, 0).unwrap().format("%Y-%m-%d %H:%M:%S").to_string()
    };
    let m = OMessage::from_parts(1743073118, "".to_owned(), "".to_owned());
    assert_eq!(m.get_time_creation(), expected(1743073118));
    let c = OChat::from_parts(1743076482649, "".to_owned(), "".to_owned());
    assert_eq!(c.get_time_creation(), expected(1743076482649));
    assert!(c.get_time_creation().starts_with('+'));
}

#[test]
fn models_json_reads_back_what_was_written() {
    let models = vec![model("qwen2.5", &["0.5b", "7b"]), model("llama3 \"x\"", &[])];
    let text = models_to_json(&models);
    let back = parse_models_json(&text).unwrap();
    assert_eq!(back.len(), 2);
    assert_eq!(back[0].name, "qwen2.5");
    assert_eq!(sizes_of(&back[0]), strings(&["0.5b", "7b"]));
    assert_eq!(back[0].varients[1].size, "1GB");
    assert_eq!(back[1].name, "llama3 \"x\"");
    assert_eq!(back[1].category, ModelCategory::Tool);
    assert_eq!(back[1].summary_content, "summary");
    assert!(text.contains("\"token_size\": \"0.5b\""));
    assert_eq!(models_to_json(&vec![]), "[]");
    assert!(parse_models_json("not json").is_none());
    assert!(parse_models_json("[]").unwrap().is_empty());
}

#[test]
fn service_program_choice() {
    assert_eq!(service_program(true, false), ServiceProgram::OnPath("ollama"));
    assert_eq!(
        service_program(false, true),
        ServiceProgram::BesideProgram("ollama-windows/ollama.exe")
    );
    assert_eq!(
        service_program(false, false),
        ServiceProgram::BesideProgram("Ollama.app/Contents/MacOS/Ollama")
    );
}
