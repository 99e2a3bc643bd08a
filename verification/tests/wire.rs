use gwasm_api::task::{GWasmBinary, TaskBuilder};
use gwasm_api::timeout::Timeout;

fn binary() -> GWasmBinary {
    GWasmBinary { js: b"j", wasm: b"w" }
}

#[test]
fn submission_exact_document() {
    let task = TaskBuilder::new("ws", binary())
        .name("t".to_string())
        .bid(2500)
        .timeout(Timeout::from_str("00:10:00").unwrap())
        .subtask_timeout(Timeout::from_str("00:05:00").unwrap())
        .push_subtask_data(vec![7])
        .build()
        .unwrap();
    assert_eq!(
        task.submission_json(),
"{\"type\":\"wasm\",\"name\":\"t\",\"bid\":2.500,\"timeout\":\"00:10:00\",\"subtask_timeout\":\"00:05:00\",\"options\":{\"js_name\":\"t.js\",\"wasm_name\":\"t.wasm\",\"input_dir\":\"ws/in\",\"output_dir\":\"ws/out\",\"subtasks\":{\"subtask_0\":{\"exec_args\":[\"in.txt\",\"in.wav\"],\"output_file_paths\":[\"in.wav\"]}}}}"
    );
}

#[test]
fn submission_two_subtasks_and_defaults() {
    let task = TaskBuilder::new("ws", binary())
        .push_subtask_data(vec![1])
        .push_subtask_data(vec![2])
        .build()
        .unwrap();
    assert_eq!(
        task.submission_json(),
"{\"type\":\"wasm\",\"name\":\"unknown\",\"bid\":1.000,\"timeout\":\"00:10:00\",\"subtask_timeout\":\"00:10:00\",\"options\":{\"js_name\":\"unknown.js\",\"wasm_name\":\"unknown.wasm\",\"input_dir\":\"ws/in\",\"output_dir\":\"ws/out\",\"subtasks\":{\"subtask_0\":{\"exec_args\":[\"in.txt\",\"in.wav\"],\"output_file_paths\":[\"in.wav\"]},\"subtask_1\":{\"exec_args\":[\"in.txt\",\"in.wav\"],\"output_file_paths\":[\"in.wav\"]}}}}"
    );
}

#[test]
fn submission_escapes_strings() {
    let task = TaskBuilder::new("dir", binary())
        .name("a\"b\\c\nd".to_string())
        .build()
        .unwrap();
    let doc = task.submission_json();
    assert!(doc.contains("\"name\":\"a\\\"b\\\\c\\u000ad\""));
    assert!(doc.contains("\"js_name\":\"a\\\"b\\\\c\\u000ad.js\""));
}

#[test]
fn submission_bid_fraction_digits() {
    for (bid, text) in [
        (1000u64, "\"bid\":1.000"),
        (1u64, "\"bid\":0.001"),
        (12345u64, "\"bid\":12.345"),
        (20u64, "\"bid\":0.020"),
    ] {
        let task = TaskBuilder::new("ws", binary()).bid(bid).build().unwrap();
        assert!(
            task.submission_json().contains(text),
            "bid {} should render as {}",
            bid,
            text
        );
    }
}
