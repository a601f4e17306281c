use conduit_ui::image::ImageLoad;
use conduit_ui::jsonl::{
    build_ask_user_updated_input, build_control_response_jsonl, build_exit_plan_updated_input,
    build_permission_allow_response, build_permission_deny_response, build_tool_result_jsonl,
    build_user_prompt_jsonl,
};
use serde_json::Value;

fn obj(pairs: Vec<(&str, Value)>) -> Value {
    let mut m = serde_json::Map::new();
    for (k, v) in pairs {
        m.insert(k.to_string(), v);
    }
    Value::Object(m)
}

fn s(t: &str) -> Value {
    Value::String(t.to_string())
}

fn line(v: &Value) -> String {
    let mut t = serde_json::to_string(v).unwrap();
    t.push('\n');
    t
}

#[test]
fn user_line_matches_serde_json_byte_for_byte() {
    let images = vec![
        ImageLoad::Loaded { data: "QUJD".to_string(), media_type: "image/png".to_string() },
        ImageLoad::Failed { path: "/x \"y\".png".to_string() },
    ];
    let prompt = "Quote \" backslash \\ newline \n tab \t é";
    let expected = obj(vec![
        ("type", s("user")),
        (
            "message",
            obj(vec![
                ("role", s("user")),
                (
                    "content",
                    Value::Array(vec![
                        obj(vec![("type", s("text")), ("text", s("Image 1:"))]),
                        obj(vec![
                            ("type", s("image")),
                            (
                                "source",
                                obj(vec![("type", s("base64")), ("media_type", s("image/png")), ("data", s("QUJD"))]),
                            ),
                        ]),
                        obj(vec![("type", s("text")), ("text", s("[Failed to load image: /x \"y\".png]"))]),
                        obj(vec![("type", s("text")), ("text", s(prompt))]),
                    ]),
                ),
            ]),
        ),
    ]);
    assert_eq!(build_user_prompt_jsonl(prompt, &images), line(&expected));
}

#[test]
fn empty_prompt_without_images_has_no_content() {
    assert_eq!(
        build_user_prompt_jsonl("", &Vec::new()),
        "{\"message\":{\"content\":[],\"role\":\"user\"},\"type\":\"user\"}\n"
    );
}

#[test]
fn tool_result_line_matches_serde_json() {
    let result = obj(vec![("ok", Value::Bool(true)), ("n", Value::from(3))]);
    let block = obj(vec![
        ("type", s("tool_result")),
        ("tool_use_id", s("toolu_1")),
        ("content", s("done \"now\"")),
        ("is_error", Value::Bool(false)),
    ]);
    let mut expected = obj(vec![
        ("type", s("user")),
        ("message", obj(vec![("role", s("user")), ("content", Value::Array(vec![block]))])),
    ]);
    assert_eq!(build_tool_result_jsonl("toolu_1", "done \"now\"", None), line(&expected));
    if let Value::Object(m) = &mut expected {
        m.insert("toolUseResult".to_string(), result.clone());
    }
    let text = serde_json::to_string(&result).unwrap();
    assert_eq!(build_tool_result_jsonl("toolu_1", "done \"now\"", Some(&text)), line(&expected));
}

#[test]
fn permission_answers_match_serde_json() {
    let input = obj(vec![("command", s("ls"))]);
    let input_text = serde_json::to_string(&input).unwrap();
    let allow = obj(vec![
        ("behavior", s("allow")),
        ("updatedInput", input.clone()),
        ("toolUseID", s("t1")),
    ]);
    assert_eq!(build_permission_allow_response(&input_text, Some("t1")), serde_json::to_string(&allow).unwrap());
    let allow_no_id = obj(vec![("behavior", s("allow")), ("updatedInput", input)]);
    assert_eq!(build_permission_allow_response(&input_text, None), serde_json::to_string(&allow_no_id).unwrap());
    let deny = obj(vec![("behavior", s("deny")), ("message", s("no")), ("toolUseID", s("t2"))]);
    assert_eq!(build_permission_deny_response("no", Some("t2")), serde_json::to_string(&deny).unwrap());
    let deny_no_id = obj(vec![("behavior", s("deny")), ("message", s("no"))]);
    assert_eq!(build_permission_deny_response("no", None), serde_json::to_string(&deny_no_id).unwrap());

    let response = build_permission_deny_response("no", None);
    let control = obj(vec![
        ("type", s("control_response")),
        (
            "response",
            obj(vec![("subtype", s("success")), ("request_id", s("r9")), ("response", deny_no_id)]),
        ),
    ]);
    assert_eq!(build_control_response_jsonl("r9", &response), line(&control));
}

#[test]
fn updated_inputs_match_serde_json() {
    let questions = Value::Array(vec![obj(vec![("question", s("Which?"))])]);
    let answers = vec![
        ("Which?".to_string(), "B".to_string()),
        ("Also?".to_string(), "yes".to_string()),
        ("Which?".to_string(), "C".to_string()),
    ];
    let expected = obj(vec![
        ("questions", questions.clone()),
        ("answers", obj(vec![("Which?", s("C")), ("Also?", s("yes"))])),
    ]);
    let q_text = serde_json::to_string(&questions).unwrap();
    assert_eq!(build_ask_user_updated_input(&q_text, &answers), serde_json::to_string(&expected).unwrap());
    let plan = obj(vec![("plan", s("1. do it"))]);
    assert_eq!(build_exit_plan_updated_input(Some("1. do it")), serde_json::to_string(&plan).unwrap());
    assert_eq!(build_exit_plan_updated_input(None), "null");
}
