use llm_router::router::{
    classify_reply, create_classification_prompt, get_model_name, normalize_reply,
    resolve_category, route_from_reply, Model, CLASSIFIER_INSTRUCTION,
};

#[test]
fn reply_naming_tool_in_capitals_is_tool() {
    assert_eq!(classify_reply("The answer is TOOL."), Model::Tool);
}

#[test]
fn reply_coding_is_coding() {
    assert_eq!(classify_reply("coding"), Model::Coding);
    assert_eq!(classify_reply("  CODING \n"), Model::Coding);
}

#[test]
fn unrecognized_or_empty_reply_is_chat() {
    assert_eq!(classify_reply(""), Model::Chat);
    assert_eq!(classify_reply("banana"), Model::Chat);
    assert_eq!(classify_reply("chat"), Model::Chat);
}

#[test]
fn tool_wins_over_coding() {
    assert_eq!(resolve_category("coding or tool"), Model::Tool);
    assert_eq!(resolve_category("TOOL"), Model::Chat);
}

#[test]
fn failed_classification_is_chat() {
    assert_eq!(route_from_reply(None), Model::Chat);
    assert_eq!(route_from_reply(Some("tool")), Model::Tool);
}

#[test]
fn reply_is_trimmed_and_lowered() {
    assert_eq!(normalize_reply("  The Answer IS Tool \t\n"), "the answer is tool");
}

#[test]
fn model_names() {
    assert_eq!(get_model_name(&Model::Tool), "gpt-oss:20b");
    assert_eq!(get_model_name(&Model::Chat), "llama3.1:8b");
    assert_eq!(get_model_name(&Model::Coding), "gpt-oss:20b");
}

#[test]
fn classification_prompt_has_instruction_and_quoted_prompt() {
    let m = create_classification_prompt("write a sort");
    assert_eq!(m.len(), 2);
    assert_eq!(m[0].role, "system");
    assert_eq!(m[0].content, CLASSIFIER_INSTRUCTION);
    assert_eq!(m[1].role, "user");
    assert_eq!(m[1].content, "Categorize the following prompt: \"write a sort\"");
}
