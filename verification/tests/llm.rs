use argusx::llm_cli::{
    env_var_names, env_var_names_for, prompt_from_input, repl_command, resolve_api_key,
    AnthropicProvider, BigmodelOpts, CommonOpts, Config, OpenaiProvider, ProviderCommand, ReplCommand,
};
use argusx::llm_output::{
    format_output, format_partial_output,
    format_markdown, format_partial_markdown, format_partial_text, format_text, ModelResponse,
    ModelUsage, OutputFormat, Part, PartDelta, PartialModelResponse, StreamAccumulator, TextPart,
};

fn text_response(content: &str, usage: Option<ModelUsage>) -> ModelResponse {
    ModelResponse { content: vec![Part::Text(TextPart { text: content.to_string() })], usage }
}

fn opts() -> CommonOpts {
    CommonOpts {
        api_key: None,
        interactive: false,
        file: None,
        output: OutputFormat::Text,
        stream: true,
        no_stream: false,
    }
}

#[test]
fn format_output_text_preserves_content() {
    for content in ["", "hello", "multi\nline ✓", "## Response"] {
        let output = format_text(&text_response(content, None));
        assert!(output.contains(content));
        assert_eq!(output, content);
    }
}

#[test]
fn format_output_markdown_contains_response() {
    for content in ["", "hello", "ünïcode text"] {
        let output = format_markdown(&text_response(content, None));
        assert!(output.contains("## Response"));
        assert!(output.contains(content));
        assert_eq!(output, format!("## Response\n\n{}", content));
    }
}

#[test]
fn format_output_markdown_with_usage() {
    for (content, input_tokens, output_tokens) in [("abc", 0u64, 9999u64), ("x y", 10, 20), ("", 12345, 7)] {
        let output = format_markdown(&text_response(content, Some(ModelUsage { input_tokens, output_tokens })));
        assert!(output.contains("**Usage:**"));
        assert!(output.contains(&format!("{} in", input_tokens)));
        assert!(output.contains(&format!("{} out", output_tokens)));
    }
    let output = format_markdown(&text_response("hi", Some(ModelUsage { input_tokens: 10, output_tokens: 20 })));
    assert_eq!(output, "## Response\n\nhi\n\n---\n\n**Usage:** 10 in, 20 out");
}

#[test]
fn text_skips_non_text_parts() {
    let response = ModelResponse {
        content: vec![
            Part::Text(TextPart { text: "a".to_string() }),
            Part::Other("image".to_string()),
            Part::Text(TextPart { text: "b".to_string() }),
        ],
        usage: None,
    };
    assert_eq!(format_text(&response), "ab");
}

#[test]
fn partial_formats() {
    let p = PartialModelResponse { delta: Some(PartDelta::Text("tok".to_string())), usage: None };
    assert_eq!(format_partial_text(&p), "tok");
    assert_eq!(format_partial_markdown(&p), "## Response\n\ntok");
    let q = PartialModelResponse {
        delta: Some(PartDelta::Other("tool".to_string())),
        usage: Some(ModelUsage { input_tokens: 1, output_tokens: 2 }),
    };
    assert_eq!(format_partial_text(&q), "");
    assert_eq!(format_partial_markdown(&q), "## Response\n\n\n\n---\n\n**Usage:** 1 in, 2 out");
}

#[test]
fn stream_accumulator_gathers_text_and_keeps_usage() {
    let mut acc = StreamAccumulator::new();
    let a = acc.on_chunk(&PartialModelResponse { delta: Some(PartDelta::Text("Hel".to_string())), usage: None }, false);
    assert_eq!(a.print.as_deref(), Some("Hel"));
    assert!(!a.recorded);
    let b = acc.on_chunk(&PartialModelResponse { delta: Some(PartDelta::Text(String::new())), usage: None }, false);
    assert!(b.print.is_none());
    let c = acc.on_chunk(
        &PartialModelResponse {
            delta: Some(PartDelta::Text("lo".to_string())),
            usage: Some(ModelUsage { input_tokens: 3, output_tokens: 4 }),
        },
        false,
    );
    assert!(c.recorded);
    let d = acc.on_chunk(&PartialModelResponse { delta: Some(PartDelta::Text("!".to_string())), usage: None }, false);
    assert!(!d.recorded);
    let response = acc.finish();
    assert_eq!(format_text(&response), "Hello");
    assert_eq!(response.usage, Some(ModelUsage { input_tokens: 3, output_tokens: 4 }));
}

#[test]
fn stream_without_usage_returns_all_text() {
    let mut acc = StreamAccumulator::new();
    acc.on_chunk(&PartialModelResponse { delta: Some(PartDelta::Text("a".to_string())), usage: None }, false);
    acc.on_chunk(&PartialModelResponse { delta: Some(PartDelta::Text("b".to_string())), usage: None }, false);
    let response = acc.finish();
    assert_eq!(format_text(&response), "ab");
    assert!(response.usage.is_none());
    let mut acc = StreamAccumulator::new();
    let r = acc.on_chunk(&PartialModelResponse { delta: None, usage: None }, true);
    assert!(r.recorded);
    acc.on_complete(text_response("done", None));
    assert_eq!(format_text(&acc.finish()), "done");
}

#[test]
fn api_key_prefers_the_command_line() {
    let config = Config { api_key: Some("env-key".to_string()), model: None };
    assert_eq!(config.get_api_key(Some("cli-key")).as_deref(), Some("cli-key"));
    assert_eq!(config.get_api_key(None).as_deref(), Some("env-key"));
    let mut o = opts();
    assert_eq!(resolve_api_key(&o, &config).as_deref(), Some("env-key"));
    o.api_key = Some("flag".to_string());
    assert_eq!(resolve_api_key(&o, &config).as_deref(), Some("flag"));
    let empty = Config { api_key: None, model: None };
    assert!(resolve_api_key(&opts(), &empty).is_none());
}

#[test]
fn env_var_names_are_upper_cased() {
    let names = env_var_names("bigmodel");
    assert_eq!(names.api_key, "BIGMODEL_API_KEY");
    assert_eq!(names.model, "BIGMODEL_MODEL");
    let names = env_var_names_for("X");
    assert_eq!(names.api_key, "X_API_KEY");
}

#[test]
fn streaming_can_be_turned_off() {
    let mut o = opts();
    assert!(o.stream_enabled());
    o.no_stream = true;
    assert!(!o.stream_enabled());
    o.no_stream = false;
    o.stream = false;
    assert!(!o.stream_enabled());
}

#[test]
fn repl_lines() {
    assert_eq!(repl_command("   \n"), ReplCommand::Skip);
    assert_eq!(repl_command("exit\n"), ReplCommand::Exit);
    assert_eq!(repl_command("  quit "), ReplCommand::Exit);
    assert_eq!(repl_command(" hello there \n"), ReplCommand::Prompt("hello there".to_string()));
    assert_eq!(repl_command("exits"), ReplCommand::Prompt("exits".to_string()));
}

#[test]
fn prompts_from_stdin_are_trimmed() {
    assert_eq!(prompt_from_input("  hi \n", true), "hi");
    assert_eq!(prompt_from_input("  hi \n", false), "  hi \n");
}

#[test]
fn providers_and_default_models() {
    assert_eq!(OpenaiProvider::new("k").name(), "openai");
    assert_eq!(AnthropicProvider::new("k").name(), "anthropic");
    let cmd = ProviderCommand::Bigmodel(BigmodelOpts { model: "glm-4".to_string(), common: opts() });
    assert!(matches!(cmd, ProviderCommand::Bigmodel(ref o) if o.common.stream_enabled()));
    assert_eq!(OutputFormat::default(), OutputFormat::Text);
}

#[test]
fn format_output_dispatches_text_and_markdown() {
    let r = text_response("hi", Some(ModelUsage { input_tokens: 1, output_tokens: 2 }));
    assert_eq!(format_output(&r, OutputFormat::Text).as_deref(), Some("hi"));
    assert_eq!(
        format_output(&r, OutputFormat::Markdown).as_deref(),
        Some("## Response\n\nhi\n\n---\n\n**Usage:** 1 in, 2 out")
    );
    assert!(format_output(&r, OutputFormat::Json).is_none());
    let p = PartialModelResponse { delta: Some(PartDelta::Text("x".to_string())), usage: None };
    assert_eq!(format_partial_output(&p, OutputFormat::Text).as_deref(), Some("x"));
    assert_eq!(format_partial_output(&p, OutputFormat::Markdown).as_deref(), Some("## Response\n\nx"));
    assert!(format_partial_output(&p, OutputFormat::Json).is_none());
}
