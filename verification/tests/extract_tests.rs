use image_infer::error::InferError;
use image_infer::extract::{extract_fenced_json, join_blocks, JSON_FENCE, JSON_FENCE_CONTENT};
use image_infer::file_op::FileOp;

fn file_op() -> FileOp {
    FileOp::new(
        "src/config.yaml".to_string(),
        "src/algorithm_config.yaml".to_string(),
        "src/images".to_string(),
    )
}

#[test]
fn test_read_json_from_markdown() {
    let markdown = "
               ```json
{
  \"result\": true,
  \"confidence\": 0.85
}
```

**理由:**

图片中存在多个明亮的光点，这些光点在夜间城市环境中非常具有烟火的特征。 尽管路灯的光线可能会造成干扰，但这些光点的亮度、分布和闪烁频率都指向烟火的可能性。  置信度为0.85，表示判断存在烟火的概率较高。
                ";

    let re = regex::Regex::new(JSON_FENCE).unwrap();
    let mut json_list = Vec::new();

    for cap in re.captures_iter(markdown) {
        if let Some(m) = cap.get(JSON_FENCE_CONTENT) {
            json_list.push(m.as_str().to_string());
        }
    }

    println!("提取的 JSON 内容:{}", json_list.concat());
    let extracted = file_op().parse_json_from_markdown(markdown).unwrap();
    assert_eq!(extracted, json_list.concat());
    assert_eq!(extracted, "{\n  \"result\": true,\n  \"confidence\": 0.85\n}");
}

#[test]
fn fence_pattern_is_the_documented_one() {
    assert_eq!(JSON_FENCE, r#"(?s)```json\s*\n(.*?)\n\s*```"#);
    assert_eq!(JSON_FENCE_CONTENT, 1);
    assert!(regex::Regex::new(JSON_FENCE).is_ok());
}

#[test]
fn answer_without_fenced_block_gives_empty_text() {
    assert_eq!(extract_fenced_json("no verdict here"), Ok(String::new()));
    assert_eq!(extract_fenced_json(""), Ok(String::new()));
    assert_eq!(extract_fenced_json("{\"result\":true}"), Ok(String::new()));
}

#[test]
fn fence_without_json_tag_is_no_block() {
    assert_eq!(extract_fenced_json("```\n{\"result\":true}\n```"), Ok(String::new()));
    assert_eq!(extract_fenced_json("```yaml\nresult: true\n```"), Ok(String::new()));
}

#[test]
fn unclosed_fence_is_no_block() {
    assert_eq!(extract_fenced_json("```json\n{\"result\":true}\n"), Ok(String::new()));
}

#[test]
fn content_on_the_line_of_the_fence_is_no_block() {
    assert_eq!(extract_fenced_json("```json {\"result\":true} ```"), Ok(String::new()));
}

#[test]
fn single_fenced_block_gives_its_content() {
    let answer = "```json\n{\"result\":true,\"confidence\":0.85}\n```";
    assert_eq!(
        extract_fenced_json(answer),
        Ok("{\"result\":true,\"confidence\":0.85}".to_string())
    );
}

#[test]
fn text_around_the_block_is_dropped() {
    let answer = "The image shows a street at night.\n```json\n{\"result\":false}\n```\nNo flames are visible.";
    assert_eq!(extract_fenced_json(answer), Ok("{\"result\":false}".to_string()));
}

#[test]
fn blank_space_after_the_tag_and_before_the_closing_fence_is_dropped() {
    let answer = "```json  \t\n{\"a\":1}\n   ```";
    assert_eq!(extract_fenced_json(answer), Ok("{\"a\":1}".to_string()));
}

#[test]
fn content_may_span_lines() {
    let answer = "```json\n{\n  \"a\": 1,\n  \"b\": [1,\n 2]\n}\n```";
    assert_eq!(
        extract_fenced_json(answer),
        Ok("{\n  \"a\": 1,\n  \"b\": [1,\n 2]\n}".to_string())
    );
}

#[test]
fn two_fenced_blocks_are_concatenated_without_separator() {
    let answer = "first\n```json\n{\"a\":1}\n```\nbetween\n```json\n{\"b\":2}\n```\nlast";
    assert_eq!(extract_fenced_json(answer), Ok("{\"a\":1}{\"b\":2}".to_string()));
}

#[test]
fn blocks_come_in_order_of_appearance() {
    let answer = "```json\nsecond?\n```\n```json\nfirst?\n```\n```json\nthird\n```";
    assert_eq!(extract_fenced_json(answer), Ok("second?first?third".to_string()));
}

#[test]
fn block_ends_at_the_first_closing_fence() {
    let answer = "```json\n{\"a\":1}\n```\ntrailing\n```";
    assert_eq!(extract_fenced_json(answer), Ok("{\"a\":1}".to_string()));
}

#[test]
fn extraction_does_not_validate() {
    let answer = "```json\nnot json at all\n```";
    assert_eq!(extract_fenced_json(answer), Ok("not json at all".to_string()));
}

#[test]
fn extraction_never_rejects_the_pattern() {
    for answer in ["", "x", "```json\n\n```", "```json\n{}\n```"] {
        assert_ne!(extract_fenced_json(answer), Err(InferError::PatternRejected));
    }
}

#[test]
fn empty_block_gives_empty_text() {
    assert_eq!(extract_fenced_json("```json\n\n```"), Ok(String::new()));
}

#[test]
fn join_blocks_skips_absent_groups() {
    let blocks = vec![Some("ab".to_string()), None, Some("cd".to_string())];
    assert_eq!(join_blocks(&blocks), "abcd");
}

#[test]
fn join_blocks_of_nothing_is_empty() {
    assert_eq!(join_blocks(&Vec::new()), "");
    assert_eq!(join_blocks(&vec![None, None]), "");
}

#[test]
fn join_blocks_keeps_order_and_inserts_nothing() {
    let blocks = vec![
        Some("{".to_string()),
        Some("".to_string()),
        Some("}".to_string()),
        Some(" 界".to_string()),
    ];
    assert_eq!(join_blocks(&blocks), "{} 界");
}
