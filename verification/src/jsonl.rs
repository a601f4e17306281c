//! The stream-JSON lines written to an agent's standard input: user prompts
//! with their images, tool results and control responses, and the JSON
//! values of permission answers and updated tool inputs. Strings are quoted
//! by serde_json; the objects are written with their keys in the order
//! serde_json writes them (sorted), compact, one line each.
use vstd::prelude::*;
use crate::image::{block_view, prompt_blocks, user_prompt_blocks, ContentBlock, ImageLoad};
use crate::text::{join_texts, join_with, push_str, string_from_str, views};

verus! {

/// A text as a JSON string literal, quotes and escapes included, as
/// `serde_json::to_string` writes it.
pub uninterp spec fn json_quoted(s: Seq<char>) -> Seq<char>;

/// The JSON object that maps each question to its answer, as
/// `serde_json::to_string` writes a `serde_json::Map` built from the pairs
/// in order.
pub uninterp spec fn json_string_map(pairs: Seq<(Seq<char>, Seq<char>)>) -> Seq<char>;

/// Quotes a text as a JSON string with `serde_json::to_string`, which
/// writes a string as one escaped literal and cannot fail on one; the
/// contract only names the result.
#[verifier::external_body]
pub(crate) fn json_string(s: &str) -> (r: String)
    ensures
        r@ == json_quoted(s@),
{
    match serde_json::to_string(s) {
        Ok(t) => t,
        Err(_) => String::new(),
    }
}

/// Writes the pairs as a JSON object of strings with `serde_json::to_string`
/// on a `serde_json::Map` collected from them (string keys, so writing
/// cannot fail); the contract only names the result.
#[verifier::external_body]
pub(crate) fn json_object_of_strings(pairs: &Vec<(String, String)>) -> (r: String)
    ensures
        r@ == json_string_map(pairs@.map_values(|p: (String, String)| (p.0@, p.1@))),
{
    let map: serde_json::Map<String, serde_json::Value> =
        pairs.iter().map(|p| (p.0.clone(), serde_json::Value::String(p.1.clone()))).collect();
    match serde_json::to_string(&map) {
        Ok(t) => t,
        Err(_) => String::new(),
    }
}

/// A content block as JSON: a text, or a base64 image with its media type.
pub open spec fn block_json(b: (bool, Seq<char>, Seq<char>)) -> Seq<char> {
    if b.0 {
        "{\"source\":{\"data\":"@ + json_quoted(b.1) + ",\"media_type\":"@ + json_quoted(b.2)
            + ",\"type\":\"base64\"},\"type\":\"image\"}"@
    } else {
        "{\"text\":"@ + json_quoted(b.1) + ",\"type\":\"text\"}"@
    }
}

/// A JSON array of the given JSON values.
pub open spec fn json_list(items: Seq<Seq<char>>) -> Seq<char> {
    "["@ + join_with(items, ","@) + "]"@
}

/// The line of a user message with the given content blocks.
pub open spec fn user_prompt_line(blocks: Seq<(bool, Seq<char>, Seq<char>)>) -> Seq<char> {
    "{\"message\":{\"content\":"@ + json_list(blocks.map_values(|b: (bool, Seq<char>, Seq<char>)| block_json(b)))
        + ",\"role\":\"user\"},\"type\":\"user\"}\n"@
}

fn block_json_text(b: &ContentBlock) -> (r: String)
    ensures
        r@ == block_json(block_view(*b)),
{
    match b {
        ContentBlock::Text { text } => {
            let mut s = string_from_str("{\"text\":");
            push_str(&mut s, json_string(text.as_str()).as_str());
            push_str(&mut s, ",\"type\":\"text\"}");
            s
        },
        ContentBlock::Image { media_type, data } => {
            let mut s = string_from_str("{\"source\":{\"data\":");
            push_str(&mut s, json_string(data.as_str()).as_str());
            push_str(&mut s, ",\"media_type\":");
            push_str(&mut s, json_string(media_type.as_str()).as_str());
            push_str(&mut s, ",\"type\":\"base64\"},\"type\":\"image\"}");
            s
        },
    }
}

/// The JSON line of a user message: the images first, then the prompt.
pub fn build_user_prompt_jsonl(prompt: &str, images: &Vec<ImageLoad>) -> (r: String)
    requires
        images@.len() < usize::MAX,
    ensures
        r@ == user_prompt_line(prompt_blocks(prompt@, images@)),
{
    let blocks = user_prompt_blocks(prompt, images);
    let ghost bv = blocks@.map_values(|b: ContentBlock| block_view(b));
    let mut parts: Vec<String> = Vec::new();
    let mut i: usize = 0;
    while i < blocks.len()
        invariant
            i <= blocks.len(),
            bv == blocks@.map_values(|b: ContentBlock| block_view(b)),
            views(parts@) == bv.take(i as int).map_values(|b: (bool, Seq<char>, Seq<char>)| block_json(b)),
        decreases blocks.len() - i,
    {
        let t = block_json_text(&blocks[i]);
        let ghost before = views(parts@);
        proof {
            assert(bv[i as int] == block_view(blocks@[i as int]));
            assert(bv.take(i + 1) =~= bv.take(i as int).push(bv[i as int]));
            assert(bv.take(i + 1).map_values(|b: (bool, Seq<char>, Seq<char>)| block_json(b)) =~= bv.take(
                i as int,
            ).map_values(|b: (bool, Seq<char>, Seq<char>)| block_json(b)).push(block_json(bv[i as int])));
        }
        parts.push(t);
        assert(views(parts@) =~= before.push(t@));
        i = i + 1;
    }
    assert(bv.take(blocks.len() as int) =~= bv);
    let list = join_texts(&parts, ",");
    let mut s = string_from_str("{\"message\":{\"content\":");
    push_str(&mut s, "[");
    push_str(&mut s, list.as_str());
    push_str(&mut s, "]");
    push_str(&mut s, ",\"role\":\"user\"},\"type\":\"user\"}\n");
    assert(s@ =~= user_prompt_line(prompt_blocks(prompt@, images@)));
    s
}

/// The line that answers a tool call; `tool_use_result` is the JSON of the
/// tool's structured result, when there is one.
pub open spec fn tool_result_line(tool_id: Seq<char>, content: Seq<char>, tool_use_result: Option<Seq<char>>) -> Seq<char> {
    "{\"message\":{\"content\":[{\"content\":"@ + json_quoted(content) + ",\"is_error\":false,\"tool_use_id\":"@
        + json_quoted(tool_id) + ",\"type\":\"tool_result\"}],\"role\":\"user\"},"@ + (match tool_use_result {
        Some(v) => "\"toolUseResult\":"@ + v + ","@,
        None => Seq::empty(),
    }) + "\"type\":\"user\"}\n"@
}

/// Writes the line that answers a tool call.
pub fn build_tool_result_jsonl(tool_id: &str, content: &str, tool_use_result: Option<&str>) -> (r: String)
    ensures
        r@ == tool_result_line(tool_id@, content@, match tool_use_result { Some(v) => Some(v@), None => None }),
{
    let mut s = string_from_str("{\"message\":{\"content\":[{\"content\":");
    push_str(&mut s, json_string(content).as_str());
    push_str(&mut s, ",\"is_error\":false,\"tool_use_id\":");
    push_str(&mut s, json_string(tool_id).as_str());
    push_str(&mut s, ",\"type\":\"tool_result\"}],\"role\":\"user\"},");
    match tool_use_result {
        Some(v) => {
            push_str(&mut s, "\"toolUseResult\":");
            push_str(&mut s, v);
            push_str(&mut s, ",");
        },
        None => {},
    }
    push_str(&mut s, "\"type\":\"user\"}\n");
    assert(s@ =~= tool_result_line(tool_id@, content@, match tool_use_result { Some(v) => Some(v@), None => None }));
    s
}

/// The line that answers a control request with the JSON `response`.
pub open spec fn control_response_line(request_id: Seq<char>, response: Seq<char>) -> Seq<char> {
    "{\"response\":{\"request_id\":"@ + json_quoted(request_id) + ",\"response\":"@ + response
        + ",\"subtype\":\"success\"},\"type\":\"control_response\"}\n"@
}

/// Writes the line that answers a control request.
pub fn build_control_response_jsonl(request_id: &str, response: &str) -> (r: String)
    ensures
        r@ == control_response_line(request_id@, response@),
{
    let mut s = string_from_str("{\"response\":{\"request_id\":");
    push_str(&mut s, json_string(request_id).as_str());
    push_str(&mut s, ",\"response\":");
    push_str(&mut s, response);
    push_str(&mut s, ",\"subtype\":\"success\"},\"type\":\"control_response\"}\n");
    s
}

/// Allowing a tool call: the JSON input it runs with, and the call's id
/// when known.
pub open spec fn allow_json(updated_input: Seq<char>, tool_use_id: Option<Seq<char>>) -> Seq<char> {
    "{\"behavior\":\"allow\","@ + (match tool_use_id {
        Some(i) => "\"toolUseID\":"@ + json_quoted(i) + ","@,
        None => Seq::empty(),
    }) + "\"updatedInput\":"@ + updated_input + "}"@
}

/// Writes the answer that allows a tool call.
pub fn build_permission_allow_response(updated_input: &str, tool_use_id: Option<&str>) -> (r: String)
    ensures
        r@ == allow_json(updated_input@, match tool_use_id { Some(i) => Some(i@), None => None }),
{
    let mut s = string_from_str("{\"behavior\":\"allow\",");
    match tool_use_id {
        Some(i) => {
            push_str(&mut s, "\"toolUseID\":");
            push_str(&mut s, json_string(i).as_str());
            push_str(&mut s, ",");
        },
        None => {},
    }
    push_str(&mut s, "\"updatedInput\":");
    push_str(&mut s, updated_input);
    push_str(&mut s, "}");
    assert(s@ =~= allow_json(updated_input@, match tool_use_id { Some(i) => Some(i@), None => None }));
    s
}

/// Denying a tool call, with a message for the agent.
pub open spec fn deny_json(message: Seq<char>, tool_use_id: Option<Seq<char>>) -> Seq<char> {
    "{\"behavior\":\"deny\",\"message\":"@ + json_quoted(message) + (match tool_use_id {
        Some(i) => ",\"toolUseID\":"@ + json_quoted(i),
        None => Seq::empty(),
    }) + "}"@
}

/// Writes the answer that denies a tool call.
pub fn build_permission_deny_response(message: &str, tool_use_id: Option<&str>) -> (r: String)
    ensures
        r@ == deny_json(message@, match tool_use_id { Some(i) => Some(i@), None => None }),
{
    let mut s = string_from_str("{\"behavior\":\"deny\",\"message\":");
    push_str(&mut s, json_string(message).as_str());
    match tool_use_id {
        Some(i) => {
            push_str(&mut s, ",\"toolUseID\":");
            push_str(&mut s, json_string(i).as_str());
        },
        None => {},
    }
    push_str(&mut s, "}");
    assert(s@ =~= deny_json(message@, match tool_use_id { Some(i) => Some(i@), None => None }));
    s
}

/// The tool input that carries the user's answers: the questions as the
/// agent asked them (JSON) and each answer, by question.
pub open spec fn ask_user_json(questions: Seq<char>, answers: Seq<(Seq<char>, Seq<char>)>) -> Seq<char> {
    "{\"answers\":"@ + json_string_map(answers) + ",\"questions\":"@ + questions + "}"@
}

/// Writes the tool input that carries the user's answers.
pub fn build_ask_user_updated_input(questions: &str, answers: &Vec<(String, String)>) -> (r: String)
    ensures
        r@ == ask_user_json(questions@, answers@.map_values(|p: (String, String)| (p.0@, p.1@))),
{
    let mut s = string_from_str("{\"answers\":");
    push_str(&mut s, json_object_of_strings(answers).as_str());
    push_str(&mut s, ",\"questions\":");
    push_str(&mut s, questions);
    push_str(&mut s, "}");
    s
}

/// The tool input that carries an approved plan; JSON null without one.
pub open spec fn exit_plan_json(plan: Option<Seq<char>>) -> Seq<char> {
    match plan {
        Some(p) => "{\"plan\":"@ + json_quoted(p) + "}"@,
        None => "null"@,
    }
}

/// Writes the tool input that carries an approved plan.
pub fn build_exit_plan_updated_input(plan: Option<&str>) -> (r: String)
    ensures
        r@ == exit_plan_json(match plan { Some(p) => Some(p@), None => None }),
{
    match plan {
        Some(p) => {
            let mut s = string_from_str("{\"plan\":");
            push_str(&mut s, json_string(p).as_str());
            push_str(&mut s, "}");
            s
        },
        None => string_from_str("null"),
    }
}

} // verus!
