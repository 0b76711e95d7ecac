use image_infer::error::InferError;
use image_infer::file_op::{
    collect_regular_files, copy_file_name, copy_with_file_name, numbered_file_name, plain_record,
    record_entry, record_verdict, rename_with_extension, FileOp, ImageBucket, ImageCopy, Rename, ResultRecord,
    RootEntry, RootListing, WalkedEntry, ALGORITHM_KEY, IMAGE_KEY, INDEX_WIDTH, RESULT_DIR,
    RESULT_KEY, RESULT_LOG,
};

fn file_op(image_path: &str) -> FileOp {
    FileOp::new(
        "src/config.yaml".to_string(),
        "src/algorithm_config.yaml".to_string(),
        image_path.to_string(),
    )
}

fn walked(path: &str, is_file: bool) -> WalkedEntry {
    WalkedEntry { path: path.to_string(), is_file }
}

fn bucket(name: &str, paths: &[&str]) -> ImageBucket {
    ImageBucket {
        algorithm_name: name.to_string(),
        image_paths: paths.iter().map(|p| p.to_string()).collect(),
    }
}

fn fenced(json: &str) -> String {
    format!("The verdict follows.\n```json\n{}\n```\n", json)
}

fn object(json: &str) -> serde_json::Map<String, serde_json::Value> {
    serde_json::from_str(json).unwrap()
}

#[test]
fn test_get_image_list() {
    let file_op = file_op("/home/pengwei/文档/武汉云测试/2025-04-29");
    let listing = RootListing { is_dir: false, entries: Vec::new() };
    let image_list = file_op.get_image_list(&listing);
    assert!(image_list.is_empty());
    for bucket in image_list {
        println!("Directory: {}", bucket.algorithm_name);
        for file in bucket.image_paths {
            println!("File: {}", file);
        }
    }
}

#[test]
fn test_rename_image() {
    let file_op = file_op("src/images");
    let listing = RootListing { is_dir: false, entries: Vec::new() };
    let image_list = file_op.get_image_list(&listing);
    assert!(file_op.rename_image(&image_list).is_empty());
}

#[test]
fn new_keeps_the_three_paths() {
    let file_op = FileOp::new("a".to_string(), "b".to_string(), "c".to_string());
    assert_eq!(file_op.config_path, "a");
    assert_eq!(file_op.algorithm_config_path, "b");
    assert_eq!(file_op.image_path, "c");
}

#[test]
fn result_area_is_fixed() {
    assert_eq!(RESULT_DIR, "result");
    assert_eq!(RESULT_LOG, "result/result.txt");
    assert_eq!(INDEX_WIDTH, 6);
    assert_eq!(ALGORITHM_KEY, "algorithm");
    assert_eq!(IMAGE_KEY, "image");
    assert_eq!(RESULT_KEY, "result");
}

#[test]
fn root_that_is_no_directory_has_no_buckets() {
    let listing = RootListing {
        is_dir: false,
        entries: vec![RootEntry {
            name: "fire".to_string(),
            is_dir: true,
            walked: vec![walked("images/fire/a.jpg", true)],
        }],
    };
    assert_eq!(file_op("images").get_image_list(&listing), Vec::new());
}

#[test]
fn empty_root_has_no_buckets() {
    let listing = RootListing { is_dir: true, entries: Vec::new() };
    assert_eq!(file_op("images").get_image_list(&listing), Vec::new());
}

#[test]
fn each_child_directory_is_a_bucket() {
    let listing = RootListing {
        is_dir: true,
        entries: vec![
            RootEntry {
                name: "smoke".to_string(),
                is_dir: true,
                walked: vec![
                    walked("images/smoke", false),
                    walked("images/smoke/z.jpg", true),
                    walked("images/smoke/night", false),
                    walked("images/smoke/night/a.jpg", true),
                ],
            },
            RootEntry { name: "notes.txt".to_string(), is_dir: false, walked: Vec::new() },
            RootEntry {
                name: "fire".to_string(),
                is_dir: true,
                walked: vec![walked("images/fire", false)],
            },
        ],
    };
    assert_eq!(
        file_op("images").get_image_list(&listing),
        vec![
            bucket("smoke", &["images/smoke/z.jpg", "images/smoke/night/a.jpg"]),
            bucket("fire", &[]),
        ]
    );
}

#[test]
fn files_directly_below_the_root_are_ignored() {
    let listing = RootListing {
        is_dir: true,
        entries: vec![RootEntry {
            name: "stray.jpg".to_string(),
            is_dir: false,
            walked: vec![walked("images/stray.jpg", true)],
        }],
    };
    assert_eq!(file_op("images").get_image_list(&listing), Vec::new());
}

#[test]
fn collect_regular_files_keeps_the_order_of_the_walk() {
    let entries = vec![
        walked("d", false),
        walked("d/2.jpg", true),
        walked("d/sub", false),
        walked("d/sub/1.jpg", true),
        walked("d/10.jpg", true),
    ];
    assert_eq!(collect_regular_files(&entries), vec!["d/2.jpg", "d/sub/1.jpg", "d/10.jpg"]);
    assert_eq!(collect_regular_files(&Vec::new()), Vec::<String>::new());
}

#[test]
fn numbered_file_name_fills_to_six_digits() {
    assert_eq!(numbered_file_name(0, "jpg"), "000000.jpg");
    assert_eq!(numbered_file_name(7, "png"), "000007.png");
    assert_eq!(numbered_file_name(42, "jpeg"), "000042.jpeg");
    assert_eq!(numbered_file_name(999_999, "jpg"), "999999.jpg");
}

#[test]
fn numbered_file_name_grows_beyond_six_digits() {
    assert_eq!(numbered_file_name(1_000_000, "jpg"), "1000000.jpg");
    assert_eq!(numbered_file_name(1_234_567, "png"), "1234567.png");
}

#[test]
fn numbered_file_name_matches_the_standard_formatting() {
    for index in [0usize, 1, 9, 10, 99, 100, 12_345, 99_999, 100_000, 999_999, 1_000_000, usize::MAX] {
        assert_eq!(numbered_file_name(index, "jpg"), format!("{:06}.{}", index, "jpg"));
    }
}

#[test]
fn numbered_file_name_with_empty_extension() {
    assert_eq!(numbered_file_name(3, ""), "000003.");
}

#[test]
fn rename_with_extension_moves_into_the_root() {
    assert_eq!(
        rename_with_extension("images", 5, "images/fire/cat.jpg", "jpg"),
        Rename {
            from: "images/fire/cat.jpg".to_string(),
            name: "000005.jpg".to_string(),
            to: "images/000005.jpg".to_string(),
        }
    );
}

#[test]
fn rename_image_counts_within_each_bucket() {
    let image_list = vec![
        bucket("fire", &["images/fire/b.jpg", "images/fire/a.PNG"]),
        bucket("smoke", &["images/smoke/x/c.jpeg"]),
    ];
    let plan = file_op("images").rename_image(&image_list);
    assert_eq!(
        plan,
        vec![
            Some(Rename {
                from: "images/fire/b.jpg".to_string(),
                name: "000000.jpg".to_string(),
                to: "images/000000.jpg".to_string(),
            }),
            Some(Rename {
                from: "images/fire/a.PNG".to_string(),
                name: "000001.PNG".to_string(),
                to: "images/000001.PNG".to_string(),
            }),
            Some(Rename {
                from: "images/smoke/x/c.jpeg".to_string(),
                name: "000000.jpeg".to_string(),
                to: "images/000000.jpeg".to_string(),
            }),
        ]
    );
}

#[test]
fn rename_image_has_nothing_for_a_path_without_extension() {
    let image_list = vec![bucket(
        "fire",
        &["images/fire/README", "images/fire/.hidden", "images/fire/a.tar.gz", "images/fire.d/b"],
    )];
    let plan = file_op("images").rename_image(&image_list);
    assert_eq!(plan.len(), 4);
    assert_eq!(plan[0], None);
    assert_eq!(plan[1], None);
    assert_eq!(plan[2].as_ref().unwrap().name, "000002.gz");
    assert_eq!(plan[3], None);
}

#[test]
fn rename_image_keeps_what_follows_the_final_dot() {
    let image_list = vec![bucket("fire", &["a.b.c", "trailing.", ".hidden.jpg"])];
    let plan = file_op("root").rename_image(&image_list);
    assert_eq!(plan[0].as_ref().unwrap().name, "000000.c");
    assert_eq!(plan[1].as_ref().unwrap().name, "000001.");
    assert_eq!(plan[2].as_ref().unwrap().name, "000002.jpg");
}

#[test]
fn rename_image_of_no_buckets_is_empty() {
    assert_eq!(file_op("images").rename_image(&Vec::new()), Vec::new());
    assert_eq!(file_op("images").rename_image(&vec![bucket("fire", &[])]), Vec::new());
}

#[test]
fn rename_image_agrees_with_the_standard_path_functions() {
    let paths = ["images/a/x.jpg", "y.png", "images/a/noext", "images/a/.git", "a/b/..", "/"];
    let plan = file_op("images").rename_image(&vec![bucket("a", &paths)]);
    for (i, path) in paths.iter().enumerate() {
        let expected = std::path::Path::new(path).extension().map(|ext| {
            let name = format!("{:06}.{}", i, ext.to_str().unwrap());
            Rename {
                from: path.to_string(),
                to: std::path::Path::new("images").join(&name).to_str().unwrap().to_string(),
                name,
            }
        });
        assert_eq!(plan[i], expected);
    }
}

fn documented_extension(path: &str) -> Option<String> {
    let name = std::path::Path::new(path).file_name()?.to_str()?.to_string();
    let dot = name.rfind('.')?;
    if dot == 0 {
        return None;
    }
    Some(name[dot + 1..].to_string())
}

#[test]
fn extension_is_what_follows_the_final_dot_of_the_file_name() {
    let paths = [
        "a.b", ".a", "a.", "...", "..a", "a..b", "a/.b.c", "a/b.c/", "a/b.c/.", "a/..", "",
        "/", ".", "a/.", "x.tar.gz", "dir.d/file", "dir.d/file.", "dir.d/.file", "/.x.y",
        "图.片.jpg", "a b.c d", "a\\b.c",
    ];
    for path in paths {
        let plan = file_op("r").rename_image(&vec![bucket("b", &[path])]);
        let expected = documented_extension(path).map(|ext| format!("000000.{}", ext));
        assert_eq!(plan[0].as_ref().map(|rename| rename.name.clone()), expected);
    }
}

#[test]
fn copy_file_name_joins_with_an_underscore() {
    assert_eq!(copy_file_name("fire", "a.jpg"), "fire_a.jpg");
    assert_eq!(copy_file_name("", "a.jpg"), "_a.jpg");
    assert_eq!(copy_file_name("smoke_v2", "000001.png"), "smoke_v2_000001.png");
}

#[test]
fn copy_with_file_name_goes_into_the_result_directory() {
    assert_eq!(
        copy_with_file_name("fire", "images/fire/a.jpg", "a.jpg"),
        ImageCopy { from: "images/fire/a.jpg".to_string(), to: "result/fire_a.jpg".to_string() }
    );
}

#[test]
fn plain_record_is_the_readable_block() {
    assert_eq!(
        plain_record("fire", "a.jpg", "no fire here"),
        ResultRecord {
            entry: "algorithm: fire image: a.jpg result:\nno fire here\n".to_string(),
            copy: None,
        }
    );
}

#[test]
fn structured_positive_verdict_is_logged_and_copied() {
    let outcome =
        file_op("images").save_inference_result("fire", "a.jpg", &fenced("{\"result\":true}"), true);
    let record = outcome.unwrap();
    assert!(record.entry.contains("\"algorithm\":\"fire\""));
    assert!(record.entry.contains("\"image\":\"a.jpg\""));
    assert_eq!(record.entry, "{\"algorithm\":\"fire\",\"image\":\"a.jpg\",\"result\":true}\n");
    assert_eq!(
        record.copy,
        Some(ImageCopy { from: "a.jpg".to_string(), to: "result/fire_a.jpg".to_string() })
    );
}

#[test]
fn structured_positive_verdict_copies_under_the_file_name_only() {
    let record = file_op("images")
        .save_inference_result("fire", "images/fire/night/a.jpg", &fenced("{\"result\":true}"), true)
        .unwrap();
    assert_eq!(
        record.copy,
        Some(ImageCopy {
            from: "images/fire/night/a.jpg".to_string(),
            to: "result/fire_a.jpg".to_string(),
        })
    );
}

#[test]
fn structured_negative_verdict_is_logged_and_not_copied() {
    let record = file_op("images")
        .save_inference_result("fire", "a.jpg", &fenced("{\"result\":false}"), true)
        .unwrap();
    assert_eq!(record.entry, "{\"algorithm\":\"fire\",\"image\":\"a.jpg\",\"result\":false}\n");
    assert_eq!(record.copy, None);
}

#[test]
fn verdict_without_boolean_result_is_not_copied() {
    for json in [
        "{}",
        "{\"result\":\"true\"}",
        "{\"result\":1}",
        "{\"result\":null}",
        "{\"result\":[true]}",
        "{\"Result\":true}",
        "{\"confidence\":0.85}",
    ] {
        let record =
            file_op("images").save_inference_result("fire", "a.jpg", &fenced(json), true).unwrap();
        assert_eq!(record.copy, None);
        assert!(record.entry.ends_with("}\n"));
        assert!(record.entry.contains("\"algorithm\":\"fire\""));
    }
}

#[test]
fn structured_record_keeps_auxiliary_fields() {
    let record = file_op("images")
        .save_inference_result(
            "fire",
            "a.jpg",
            &fenced("{\n  \"result\": true,\n  \"confidence\": 0.85\n}"),
            true,
        )
        .unwrap();
    assert_eq!(
        record.entry,
        "{\"algorithm\":\"fire\",\"confidence\":0.85,\"image\":\"a.jpg\",\"result\":true}\n"
    );
}

#[test]
fn structured_record_overwrites_provenance_fields() {
    let record = file_op("images")
        .save_inference_result(
            "fire",
            "a.jpg",
            &fenced("{\"algorithm\":\"smoke\",\"image\":17,\"result\":false}"),
            true,
        )
        .unwrap();
    assert_eq!(record.entry, "{\"algorithm\":\"fire\",\"image\":\"a.jpg\",\"result\":false}\n");
}

#[test]
fn structured_record_is_one_line() {
    let record = file_op("images")
        .save_inference_result(
            "fire",
            "dir/a\"b.jpg",
            &fenced("{\n\"note\": \"two\\nlines\",\n\"result\": false\n}"),
            true,
        )
        .unwrap();
    assert_eq!(record.entry.matches('\n').count(), 1);
    assert!(record.entry.ends_with('\n'));
    assert!(record.entry.contains("\"image\":\"dir/a\\\"b.jpg\""));
    let parsed: serde_json::Value = serde_json::from_str(record.entry.trim_end()).unwrap();
    assert_eq!(parsed["image"], serde_json::Value::String("dir/a\"b.jpg".to_string()));
    assert_eq!(parsed["note"], serde_json::Value::String("two\nlines".to_string()));
}

#[test]
fn structured_record_fails_without_a_block() {
    assert_eq!(
        file_op("images").save_inference_result("fire", "a.jpg", "there is fire", true),
        Err(InferError::ExtractionParseError)
    );
    assert_eq!(
        file_op("images").save_inference_result("fire", "a.jpg", "{\"result\":true}", true),
        Err(InferError::ExtractionParseError)
    );
}

#[test]
fn structured_record_fails_on_malformed_json() {
    for json in ["{\"result\":true", "{result:true}", "", "{\"result\":true} trailing"] {
        assert_eq!(
            file_op("images").save_inference_result("fire", "a.jpg", &fenced(json), true),
            Err(InferError::ExtractionParseError)
        );
    }
}

#[test]
fn structured_record_fails_on_json_that_is_no_object() {
    for json in ["[{\"result\":true}]", "true", "null", "\"result\"", "3"] {
        assert_eq!(
            file_op("images").save_inference_result("fire", "a.jpg", &fenced(json), true),
            Err(InferError::ExtractionParseError)
        );
    }
}

#[test]
fn structured_record_fails_on_two_blocks() {
    let answer = "```json\n{\"result\":true}\n```\nand\n```json\n{\"result\":false}\n```";
    assert_eq!(
        file_op("images").save_inference_result("fire", "a.jpg", answer, true),
        Err(InferError::ExtractionParseError)
    );
}

#[test]
fn two_blocks_that_join_to_an_object_are_recorded() {
    let answer = "```json\n{\"result\":\n```\nthen\n```json\ntrue}\n```";
    let record = file_op("images").save_inference_result("fire", "a.jpg", answer, true).unwrap();
    assert_eq!(record.entry, "{\"algorithm\":\"fire\",\"image\":\"a.jpg\",\"result\":true}\n");
}

#[test]
fn positive_verdict_for_a_path_without_file_name_fails() {
    for image in ["", "..", "images/..", "/"] {
        assert_eq!(
            file_op("images").save_inference_result("fire", image, &fenced("{\"result\":true}"), true),
            Err(InferError::FilesystemError)
        );
    }
}

#[test]
fn negative_verdict_for_a_path_without_file_name_is_recorded() {
    let record = file_op("images")
        .save_inference_result("fire", "..", &fenced("{\"result\":false}"), true)
        .unwrap();
    assert_eq!(record.entry, "{\"algorithm\":\"fire\",\"image\":\"..\",\"result\":false}\n");
    assert_eq!(record.copy, None);
}

#[test]
fn unstructured_record_keeps_the_answer_as_it_came() {
    let record =
        file_op("images").save_inference_result("fire", "a.jpg", "there is fire", false).unwrap();
    assert_eq!(record.entry, "algorithm: fire image: a.jpg result:\nthere is fire\n");
    assert_eq!(record.copy, None);
}

#[test]
fn unstructured_record_never_parses_and_never_copies() {
    for raw in [
        fenced("{\"result\":true}"),
        fenced("not json"),
        fenced("[1,2"),
        "```json\n{\"result\":true}\n```\n```json\n{\"result\":true}\n```".to_string(),
        String::new(),
    ] {
        let record = file_op("images").save_inference_result("fire", "..", &raw, false).unwrap();
        assert_eq!(record.entry, format!("algorithm: fire image: .. result:\n{}\n", raw));
        assert_eq!(record.copy, None);
    }
}

#[test]
fn record_entry_copies_only_a_positive_verdict() {
    assert_eq!(
        record_entry("line\n".to_string(), true, "fire", "images/fire/a.jpg"),
        Ok(ResultRecord {
            entry: "line\n".to_string(),
            copy: Some(ImageCopy {
                from: "images/fire/a.jpg".to_string(),
                to: "result/fire_a.jpg".to_string(),
            }),
        })
    );
    assert_eq!(
        record_entry("line\n".to_string(), false, "fire", "images/fire/a.jpg"),
        Ok(ResultRecord { entry: "line\n".to_string(), copy: None })
    );
}

#[test]
fn record_entry_fails_only_where_a_copy_is_due_and_no_file_is_named() {
    assert_eq!(
        record_entry("line\n".to_string(), true, "fire", "images/.."),
        Err(InferError::FilesystemError)
    );
    assert_eq!(
        record_entry(String::new(), false, "fire", "images/.."),
        Ok(ResultRecord { entry: String::new(), copy: None })
    );
}

#[test]
fn record_verdict_annotates_and_copies() {
    let outcome = record_verdict(object("{\"result\":true,\"boxes\":[[1,2],[3,4]]}"), "fire", "x/a.jpg");
    assert_eq!(
        outcome,
        Ok(ResultRecord {
            entry: "{\"algorithm\":\"fire\",\"boxes\":[[1,2],[3,4]],\"image\":\"x/a.jpg\",\"result\":true}\n"
                .to_string(),
            copy: Some(ImageCopy {
                from: "x/a.jpg".to_string(),
                to: "result/fire_a.jpg".to_string(),
            }),
        })
    );
}

#[test]
fn record_verdict_of_empty_object() {
    assert_eq!(
        record_verdict(serde_json::Map::new(), "fire", "a.jpg"),
        Ok(ResultRecord {
            entry: "{\"algorithm\":\"fire\",\"image\":\"a.jpg\"}\n".to_string(),
            copy: None,
        })
    );
}

#[test]
fn record_verdict_fails_only_for_a_positive_verdict_without_file_name() {
    assert_eq!(
        record_verdict(object("{\"result\":true}"), "fire", "images/.."),
        Err(InferError::FilesystemError)
    );
    assert!(record_verdict(object("{\"result\":false}"), "fire", "images/..").is_ok());
}

#[test]
fn parse_json_from_markdown_is_the_extractor() {
    let file_op = file_op("images");
    assert_eq!(file_op.parse_json_from_markdown(&fenced("{\"a\":1}")), Ok("{\"a\":1}".to_string()));
    assert_eq!(file_op.parse_json_from_markdown("nothing"), Ok(String::new()));
}
