use gemini_bridge::codec::parse;
use gemini_bridge::json::Json;
use gemini_bridge::reply::{find_text, read_reply, reply_text, NO_TEXT};

fn text(s: &str) -> Json {
    Json::Text(s.to_string())
}

fn object(members: Vec<(&str, Json)>) -> Json {
    Json::Object(members.into_iter().map(|(name, value)| (name.to_string(), value)).collect())
}

fn answer(part: Json) -> Json {
    object(vec![(
        "candidates",
        Json::Array(vec![object(vec![(
            "content",
            object(vec![("parts", Json::Array(vec![part]))]),
        )])]),
    )])
}

#[test]
fn well_formed_answer_yields_its_text() {
    let body = "{\"candidates\":[{\"content\":{\"parts\":[{\"text\":\"hello\"}]}}]}";
    assert_eq!(read_reply(body).unwrap(), "hello");
}

#[test]
fn answer_built_by_hand_yields_its_text() {
    let doc = answer(object(vec![("text", text("hello"))]));
    assert_eq!(find_text(&doc), Some("hello"));
    assert_eq!(reply_text(&doc), "hello");
}

#[test]
fn answer_with_more_around_yields_the_first_text() {
    let body = "{\"usage\":{\"tokens\":3},\"candidates\":[\
        {\"index\":0,\"content\":{\"role\":\"model\",\"parts\":[{\"text\":\"one\"},{\"text\":\"two\"}]}},\
        {\"index\":1,\"content\":{\"parts\":[{\"text\":\"three\"}]}}]}";
    assert_eq!(read_reply(body).unwrap(), "one");
}

#[test]
fn answer_text_is_unescaped() {
    let body = "{\"candidates\":[{\"content\":{\"parts\":[{\"text\":\"a\\\"b\\n\\u00e9\"}]}}]}";
    assert_eq!(read_reply(body).unwrap(), "a\"b\né");
}

#[test]
fn empty_text_is_a_text() {
    let doc = answer(object(vec![("text", text(""))]));
    assert_eq!(find_text(&doc), Some(""));
    assert_eq!(reply_text(&doc), "");
}

#[test]
fn fallback_is_the_fixed_sentence() {
    assert_eq!(NO_TEXT, "No text found in the response.");
}

#[test]
fn answer_without_the_path_yields_the_fallback() {
    assert_eq!(read_reply("{}").unwrap(), "No text found in the response.");
    assert_eq!(read_reply("{\"error\":{\"code\":400}}").unwrap(), NO_TEXT);
    assert_eq!(read_reply("null").unwrap(), NO_TEXT);
    assert_eq!(read_reply("[]").unwrap(), NO_TEXT);
    assert_eq!(read_reply("\"hello\"").unwrap(), NO_TEXT);
    assert_eq!(read_reply("3").unwrap(), NO_TEXT);
}

#[test]
fn answer_broken_at_each_step_yields_the_fallback() {
    let bodies = [
        "{\"candidates\":[]}",
        "{\"candidates\":{\"0\":{\"content\":{\"parts\":[{\"text\":\"x\"}]}}}}",
        "{\"candidates\":[null]}",
        "{\"candidates\":[{\"contents\":{\"parts\":[{\"text\":\"x\"}]}}]}",
        "{\"candidates\":[{\"content\":[{\"parts\":[{\"text\":\"x\"}]}]}]}",
        "{\"candidates\":[{\"content\":{\"parts\":[]}}]}",
        "{\"candidates\":[{\"content\":{\"parts\":{\"text\":\"x\"}}}]}",
        "{\"candidates\":[{\"content\":{\"parts\":[\"x\"]}}]}",
        "{\"candidates\":[{\"content\":{\"parts\":[{\"Text\":\"x\"}]}}]}",
    ];
    for body in bodies {
        let doc = parse(body).unwrap();
        assert_eq!(find_text(&doc), None, "{}", body);
        assert_eq!(reply_text(&doc), NO_TEXT, "{}", body);
        assert_eq!(read_reply(body).unwrap(), NO_TEXT, "{}", body);
    }
}

#[test]
fn text_that_is_no_string_yields_the_fallback() {
    for part in [Json::Null, Json::Bool(true), Json::Number, Json::Array(vec![text("x")])] {
        let doc = answer(object(vec![("text", part)]));
        assert_eq!(find_text(&doc), None);
        assert_eq!(reply_text(&doc), NO_TEXT);
    }
    let body = "{\"candidates\":[{\"content\":{\"parts\":[{\"text\":42}]}}]}";
    assert_eq!(read_reply(body).unwrap(), NO_TEXT);
}

#[test]
fn later_candidates_and_parts_are_not_looked_at() {
    let body = "{\"candidates\":[{\"content\":{\"parts\":[{},{\"text\":\"late\"}]}},\
        {\"content\":{\"parts\":[{\"text\":\"later\"}]}}]}";
    assert_eq!(read_reply(body).unwrap(), NO_TEXT);
}

#[test]
fn body_that_is_no_json_is_a_failure() {
    let failure = read_reply("<html>Service Unavailable</html>").unwrap_err();
    assert_eq!(failure.message, "expected value at line 1 column 1");
    let failure = read_reply("").unwrap_err();
    assert_eq!(failure.message, "EOF while parsing a value at line 1 column 0");
    let failure = read_reply("{\"candidates\":[{\"content\"").unwrap_err();
    assert_eq!(failure.message, "EOF while parsing an object at line 1 column 25");
}

#[test]
fn read_reply_agrees_with_parse_then_reply_text() {
    let bodies = [
        "{\"candidates\":[{\"content\":{\"parts\":[{\"text\":\"hello\"}]}}]}",
        "{\"candidates\":[]}",
        "not json",
        "{\"a\":",
    ];
    for body in bodies {
        match parse(body) {
            Ok(doc) => assert_eq!(read_reply(body).unwrap(), reply_text(&doc)),
            Err(failure) => assert_eq!(read_reply(body).unwrap_err(), failure),
        }
    }
}
