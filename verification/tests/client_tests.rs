use input0::commands::llm::{preview_custom_prompt, preview_needs_clipboard};
use input0::llm::client::{
    api_error_message, build_system_prompt, clean_llm_output, clean_stripped, strip_thinking_blocks, check_reply_status, connection_reply, optimized_reply,
    safety_footer, vocabulary_verdict, HistoryEntry, LlmClient, OptimizeOptions,
};
use input0::llm::template::{render_clipboard, render_history, TemplateContext};

fn client() -> LlmClient {
    LlmClient::new("sk-test".to_string(), "https://api.example.com/v1".to_string(), None)
}

#[test]
fn request_target_and_credentials() {
    let c = client();
    assert_eq!(c.chat_url(), "https://api.example.com/v1/chat/completions");
    assert_eq!(c.authorization(), "Bearer sk-test");
}

#[test]
fn reply_errors_use_api_message_or_status() {
    assert_eq!(api_error_message(401, Some("Invalid API key".to_string())), "Invalid API key");
    assert_eq!(api_error_message(503, None), "API request failed (HTTP 503)");
    assert!(check_reply_status(200, None).is_ok());
    assert!(check_reply_status(204, None).is_ok());
    assert_eq!(check_reply_status(429, None).err().unwrap().message(), "API request failed (HTTP 429)");
    assert_eq!(
        check_reply_status(400, Some("bad model".to_string())).err().unwrap().message(),
        "bad model"
    );
}

#[test]
fn optimized_reply_cleans_first_choice() {
    assert_eq!(
        optimized_reply(Some(vec!["<think>hmm</think>Hello world.".to_string(), "other".to_string()]))
            .unwrap(),
        "Hello world."
    );
    assert_eq!(
        optimized_reply(None).err().unwrap().message(),
        "Response missing 'choices' field"
    );
    assert_eq!(
        optimized_reply(Some(vec![])).err().unwrap().message(),
        "Response contains empty 'choices' array"
    );
}

#[test]
fn vocabulary_and_connection_replies() {
    assert!(vocabulary_verdict(Some(vec!["  Yes, it is.".to_string()])).unwrap());
    assert!(!vocabulary_verdict(Some(vec!["no".to_string()])).unwrap());
    assert!(!vocabulary_verdict(Some(vec!["ye".to_string()])).unwrap());
    assert!(vocabulary_verdict(None).is_err());
    assert_eq!(
        connection_reply(Some(vec!["hi".to_string()]), "gpt-4o-mini").unwrap(),
        "Connected — model gpt-4o-mini is working"
    );
    assert!(connection_reply(Some(vec![]), "gpt-4o-mini").is_err());
}

#[test]
fn optimization_messages_follow_the_prompt_path() {
    let c = client();
    let history = vec![HistoryEntry { original: "raw".to_string(), corrected: "fixed".to_string() }];
    let msgs = c.optimize_messages("hello", "en", &history, false, &[], Some("Slack"), &[]);
    assert_eq!(msgs.len(), 3);
    assert_eq!(msgs[0].role, "system");
    assert_eq!(msgs[0].content, build_system_prompt("en", false, "", &[], &[]));
    assert_eq!(msgs[1].role, "user");
    assert!(msgs[1].content.contains("[Active application: Slack]"));
    assert_eq!(msgs[2].content, "<raw_transcript>\nhello\n</raw_transcript>");

    let opts = OptimizeOptions {
        language: "en",
        history: &history,
        text_structuring: false,
        structuring_prompt: "",
        vocabulary: &[],
        source_app: None,
        user_tags: &[],
        custom_prompt_enabled: true,
        custom_prompt: "Fix this: {{language}}",
        clipboard: None,
    };
    let msgs = c.optimize_messages_with_options("hello", &opts);
    assert_eq!(msgs.len(), 2, "the custom path sends no context message");
    assert!(msgs[0].content.starts_with("Fix this: en"));
    assert!(msgs[0].content.ends_with(safety_footer("en")));

    let v = c.vocabulary_check_messages("reakt", "React");
    assert_eq!(v[1].content, "Original: reakt\nCorrect: React");
    let h = c.connection_check_messages();
    assert_eq!(h.len(), 1);
    assert_eq!(h[0].content, "Hello");
}

#[test]
fn preview_uses_builtin_prompt_unless_custom_is_on() {
    let ctx = TemplateContext {
        clipboard: Some("clip"),
        vocabulary: &[],
        user_tags: &[],
        active_app: None,
        language: "en",
        history: &[],
    };
    assert_eq!(
        preview_custom_prompt("My {{clipboard}}", false, true, "", &ctx),
        build_system_prompt("en", true, "", &[], &[])
    );
    assert_eq!(
        preview_custom_prompt("   ", true, false, "", &ctx),
        build_system_prompt("en", false, "", &[], &[])
    );
    let out = preview_custom_prompt("My {{clipboard}}", true, false, "", &ctx);
    assert_eq!(out, format!("My clip\n\n{}", safety_footer("en")));
    assert!(preview_needs_clipboard("x {{clipboard}} y"));
    assert!(!preview_needs_clipboard("x {{vocabulary}} y"));
}

#[test]
fn history_and_clipboard_rendering() {
    let history: Vec<HistoryEntry> = (0..12)
        .map(|i| HistoryEntry { original: format!("o{}", i), corrected: format!("c{}", i) })
        .collect();
    let text = render_history(&history);
    assert!(text.starts_with("1. STT: o2 → Corrected: c2"));
    assert!(text.contains("10. STT: o11 → Corrected: c11"));
    assert!(!text.contains("o1 →"));
    assert_eq!(render_clipboard(None), "");
    assert_eq!(render_clipboard(Some("abc")), "abc");
}

#[test]
fn cleaning_without_reasoning_blocks() {
    let reply = "  ```\nfinal text\n```  ";
    assert_eq!(strip_thinking_blocks(reply), reply);
    assert_eq!(clean_stripped(reply), "final text");
    assert_eq!(clean_llm_output(reply), clean_stripped(reply));
    assert_eq!(clean_stripped("  plain text \n"), "plain text");
    let lead = clean_stripped("根据您给的内容整理如下：今天天气很好。");
    assert!(!lead.starts_with("根据您给的内容"));
    assert!(lead.contains("今天天气很好"));
}
