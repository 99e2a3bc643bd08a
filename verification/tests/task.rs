use gwasm_api::error::Error;
use gwasm_api::task::{
    materialize, ComputedSubtask, GWasmBinary, StagingStep, Task, TaskBuilder,
};
use gwasm_api::timeout::Timeout;

fn sample_binary() -> GWasmBinary {
    GWasmBinary {
        js: b"js code",
        wasm: b"wasm code",
    }
}

fn sample_task(n_subtasks: usize) -> Task {
    let mut builder = TaskBuilder::new("ws", sample_binary())
        .name("t".to_string())
        .bid(2500)
        .timeout(Timeout::from_str("00:10:00").unwrap())
        .subtask_timeout(Timeout::from_str("00:05:00").unwrap());
    for i in 0..n_subtasks {
        builder = builder.push_subtask_data(vec![i as u8]);
    }
    builder.build().unwrap()
}

#[test]
fn build_fills_defaults() {
    let task = TaskBuilder::new("ws", sample_binary()).build().unwrap();
    assert_eq!(task.name(), "unknown");
    assert_eq!(task.bid(), 1000);
    assert_eq!(*task.timeout(), Timeout::from_str("00:10:00").unwrap());
    assert_eq!(*task.subtask_timeout(), Timeout::from_str("00:10:00").unwrap());
    assert_eq!(task.options().js_name(), "unknown.js");
    assert_eq!(task.options().wasm_name(), "unknown.wasm");
    assert_eq!(task.options().input_dir_path(), "ws/in");
    assert_eq!(task.options().output_dir_path(), "ws/out");
    assert!(task.options().subtasks().is_empty());
}

#[test]
fn build_names_subtasks_in_order() {
    let task = sample_task(3);
    let subtasks = task.options().subtasks();
    assert_eq!(subtasks.len(), 3);
    assert_eq!(subtasks[0].0, "subtask_0");
    assert_eq!(subtasks[1].0, "subtask_1");
    assert_eq!(subtasks[2].0, "subtask_2");
    for (_, st) in subtasks {
        assert_eq!(
            st.exec_args().iter().map(String::as_str).collect::<Vec<_>>(),
            vec!["in.txt", "in.wav"]
        );
        assert_eq!(
            st.output_file_paths()
                .iter()
                .map(String::as_str)
                .collect::<Vec<_>>(),
            vec!["in.wav"]
        );
    }
}

#[test]
fn staging_plan_exact_steps() {
    let builder = TaskBuilder::new("ws", sample_binary())
        .name("t".to_string())
        .push_subtask_data(vec![1])
        .push_subtask_data(vec![2, 3]);
    let plan = builder.staging_plan();
    assert_eq!(plan.len(), 10);
    let expect_dir = |step: &StagingStep, path: &str| match step {
        StagingStep::CreateDir(p) => assert_eq!(p, path),
        other => panic!("expected CreateDir({}), got {:?}", path, other),
    };
    let expect_file = |step: &StagingStep, path: &str, contents: &[u8]| match step {
        StagingStep::WriteFile(p, c) => {
            assert_eq!(p, path);
            assert_eq!(c.as_slice(), contents);
        }
        other => panic!("expected WriteFile({}), got {:?}", path, other),
    };
    expect_dir(&plan[0], "ws/in");
    expect_file(&plan[1], "ws/in/t.js", b"js code");
    expect_file(&plan[2], "ws/in/t.wasm", b"wasm code");
    expect_dir(&plan[3], "ws/out");
    expect_dir(&plan[4], "ws/in/subtask_0");
    expect_dir(&plan[5], "ws/out/subtask_0");
    expect_file(&plan[6], "ws/in/subtask_0/in.txt", &[1]);
    expect_dir(&plan[7], "ws/in/subtask_1");
    expect_dir(&plan[8], "ws/out/subtask_1");
    expect_file(&plan[9], "ws/in/subtask_1/in.txt", &[2, 3]);
}

#[test]
fn output_paths_follow_layout() {
    let task = sample_task(2);
    let paths = task.output_paths();
    assert_eq!(paths.len(), 2);
    assert_eq!(paths[0], vec!["ws/out/subtask_0/in.wav".to_string()]);
    assert_eq!(paths[1], vec!["ws/out/subtask_1/in.wav".to_string()]);
}

#[test]
fn materialize_keeps_every_subtask_in_order() {
    let task = sample_task(3);
    let opened: Vec<Vec<Option<i32>>> = vec![vec![Some(10)], vec![Some(20)], vec![Some(30)]];
    let computed = materialize(task, opened).unwrap();
    assert_eq!(computed.name, "t");
    assert_eq!(computed.bid, 2500);
    assert_eq!(computed.timeout, Timeout::from_str("00:10:00").unwrap());
    assert_eq!(
        computed.subtask_timeout,
        Timeout::from_str("00:05:00").unwrap()
    );
    assert_eq!(computed.subtasks.len(), 3);
    let values: Vec<i32> = computed
        .subtasks
        .iter()
        .map(|s: &ComputedSubtask<i32>| s.data[0].1)
        .collect();
    assert_eq!(values, vec![10, 20, 30]);
    for sub in &computed.subtasks {
        assert_eq!(sub.data.len(), 1);
        assert_eq!(sub.data[0].0, "in.wav");
    }
}

#[test]
fn materialize_empty_task_is_empty() {
    let task = TaskBuilder::new("ws", sample_binary()).build().unwrap();
    let computed = materialize::<i32>(task, Vec::new()).unwrap();
    assert!(computed.subtasks.is_empty());
}

#[test]
fn materialize_fails_on_any_missing_output() {
    // One missing handle among three present ones fails the whole
    // materialization, whichever subtask it belongs to.
    let opened: Vec<Vec<Option<i32>>> = vec![vec![Some(1)], vec![None], vec![Some(3)]];
    let r = materialize(sample_task(3), opened);
    assert!(matches!(r, Err(Error::OutputUnavailable)));

    let opened: Vec<Vec<Option<i32>>> = vec![vec![None], vec![Some(2)], vec![Some(3)]];
    let r = materialize(sample_task(3), opened);
    assert!(matches!(r, Err(Error::OutputUnavailable)));

    // A missing row fails it too.
    let opened: Vec<Vec<Option<i32>>> = vec![vec![Some(1)], vec![Some(2)]];
    let r = materialize(sample_task(3), opened);
    assert!(matches!(r, Err(Error::OutputUnavailable)));

    // A row with too few handles fails it too.
    let opened: Vec<Vec<Option<i32>>> = vec![vec![Some(1)], vec![], vec![Some(3)]];
    let r = materialize(sample_task(3), opened);
    assert!(matches!(r, Err(Error::OutputUnavailable)));
}
