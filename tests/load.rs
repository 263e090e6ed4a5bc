use ncnn_rs::cpath::to_c_bytes;
use ncnn_rs::error::{FileOp, ModelPart, NetError, TensorSide};
use ncnn_rs::load::{
    load_result, reader_load_result, tensor_c_name, tensor_result, BufferLoad, BufferStage,
    LoadAction,
};

fn start(part: ModelPart, temp: &str) -> BufferLoad {
    let (load, action) = BufferLoad::start_with_name(part, temp.to_string());
    assert_eq!(action, LoadAction::WriteFile { path: temp.to_string() });
    assert_eq!(load.stage, BufferStage::Writing);
    load
}

#[test]
fn load_not_exist_model() {
    // A missing file makes the native loader return a non-zero code.
    let path = "not_exist.param";
    assert!(to_c_bytes(path).is_ok());
    load_result(ModelPart::Param, path, -1).expect_err("Expected param to be not found");
}

#[test]
fn missing_topology_reports_its_path() {
    assert_eq!(
        load_result(ModelPart::Param, "not_exist.param", -1),
        Err(NetError::LoadFailed { part: ModelPart::Param, path: "not_exist.param".to_string() })
    );
}

#[test]
fn missing_weights_report_their_path() {
    assert_eq!(
        load_result(ModelPart::Model, "nope.bin", 1),
        Err(NetError::LoadFailed { part: ModelPart::Model, path: "nope.bin".to_string() })
    );
}

#[test]
fn zero_code_is_success() {
    assert_eq!(load_result(ModelPart::Model, "w.bin", 0), Ok(()));
}

#[test]
fn reader_load_codes() {
    assert_eq!(reader_load_result(0), Ok(()));
    assert_eq!(reader_load_result(-100), Err(NetError::ReaderLoadFailed));
}

#[test]
fn tensor_codes() {
    assert_eq!(tensor_result(TensorSide::Input, "data", 0), Ok(()));
    assert_eq!(
        tensor_result(TensorSide::Output, "nothing", -1),
        Err(NetError::TensorNotFound { side: TensorSide::Output, name: "nothing".to_string() })
    );
}

#[test]
fn buffer_load_success_runs_write_load_remove() {
    let mut load = start(ModelPart::Param, "/tmp/7.param");
    assert_eq!(
        load.written(Ok(())),
        LoadAction::CallLoader { part: ModelPart::Param, c_path: b"/tmp/7.param\0".to_vec() }
    );
    assert_eq!(load.loaded(0), LoadAction::RemoveFile { path: "/tmp/7.param".to_string() });
    assert_eq!(load.removed(Ok(())), LoadAction::Finish { result: Ok(()) });
    assert_eq!(load.stage, BufferStage::Done);
}

#[test]
fn buffer_load_failure_still_removes_the_file() {
    let mut load = start(ModelPart::Model, "/tmp/9.model");
    assert!(matches!(load.written(Ok(())), LoadAction::CallLoader { .. }));
    assert_eq!(load.loaded(-1), LoadAction::RemoveFile { path: "/tmp/9.model".to_string() });
    assert_eq!(
        load.removed(Ok(())),
        LoadAction::Finish {
            result: Err(NetError::LoadFailed {
                part: ModelPart::Model,
                path: "/tmp/9.model".to_string()
            })
        }
    );
}

#[test]
fn buffer_load_write_failure_still_removes_the_file() {
    let mut load = start(ModelPart::Param, "/tmp/1.param");
    assert_eq!(
        load.written(Err("disk full".to_string())),
        LoadAction::RemoveFile { path: "/tmp/1.param".to_string() }
    );
    assert_eq!(
        load.removed(Ok(())),
        LoadAction::Finish {
            result: Err(NetError::Io {
                op: FileOp::Write,
                path: "/tmp/1.param".to_string(),
                message: "disk full".to_string()
            })
        }
    );
    assert_eq!(load.stage, BufferStage::Done);
}

#[test]
fn model_write_failure_is_kept_when_removal_fails() {
    let mut load = start(ModelPart::Model, "/tmp/4.model");
    assert_eq!(
        load.written(Err("read-only file system".to_string())),
        LoadAction::RemoveFile { path: "/tmp/4.model".to_string() }
    );
    assert_eq!(
        load.removed(Err("not found".to_string())),
        LoadAction::Finish {
            result: Err(NetError::Io {
                op: FileOp::Write,
                path: "/tmp/4.model".to_string(),
                message: "read-only file system".to_string()
            })
        }
    );
    assert_eq!(load.stage, BufferStage::Done);
}

#[test]
fn param_write_failure_is_kept_when_removal_fails() {
    let mut load = start(ModelPart::Param, "/tmp/6.param");
    load.written(Err("no space".to_string()));
    assert!(matches!(
        load.removed(Err("not found".to_string())),
        LoadAction::Finish { result: Err(NetError::Io { op: FileOp::Write, .. }) }
    ));
}

#[test]
fn tensor_name_becomes_c_bytes() {
    assert_eq!(tensor_c_name(TensorSide::Input, "data"), Ok(b"data\0".to_vec()));
}

#[test]
fn tensor_name_with_nul_is_not_found() {
    assert_eq!(
        tensor_c_name(TensorSide::Output, "pro\0b"),
        Err(NetError::TensorNotFound { side: TensorSide::Output, name: "pro\0b".to_string() })
    );
    assert_eq!(
        tensor_c_name(TensorSide::Input, "\0"),
        Err(NetError::TensorNotFound { side: TensorSide::Input, name: "\0".to_string() })
    );
}

#[test]
fn removal_failure_takes_precedence_over_successful_load() {
    let mut load = start(ModelPart::Param, "/tmp/2.param");
    load.written(Ok(()));
    load.loaded(0);
    assert_eq!(
        load.removed(Err("denied".to_string())),
        LoadAction::Finish {
            result: Err(NetError::Io {
                op: FileOp::Remove,
                path: "/tmp/2.param".to_string(),
                message: "denied".to_string()
            })
        }
    );
}

#[test]
fn removal_failure_takes_precedence_over_failed_load() {
    let mut load = start(ModelPart::Model, "/tmp/3.model");
    load.written(Ok(()));
    load.loaded(5);
    assert!(matches!(
        load.removed(Err("busy".to_string())),
        LoadAction::Finish { result: Err(NetError::Io { op: FileOp::Remove, .. }) }
    ));
}

#[test]
fn temp_path_with_nul_is_removed_without_loading() {
    let mut load = start(ModelPart::Param, "/tmp/a\0b.param");
    assert_eq!(load.written(Ok(())), LoadAction::RemoveFile { path: "/tmp/a\0b.param".to_string() });
    assert_eq!(
        load.removed(Ok(())),
        LoadAction::Finish {
            result: Err(NetError::InvalidName { name: "/tmp/a\0b.param".to_string() })
        }
    );
}

#[test]
fn buffer_mode_matches_path_mode_on_same_code() {
    for code in [0, -1, 3] {
        let mut load = start(ModelPart::Param, "/tmp/5.param");
        let c_path = match load.written(Ok(())) {
            LoadAction::CallLoader { c_path, .. } => c_path,
            other => panic!("unexpected action {:?}", other),
        };
        assert_eq!(Ok(c_path), to_c_bytes("/tmp/5.param"));
        load.loaded(code);
        let buffered = match load.removed(Ok(())) {
            LoadAction::Finish { result } => result,
            other => panic!("unexpected action {:?}", other),
        };
        assert_eq!(buffered, load_result(ModelPart::Param, "/tmp/5.param", code));
    }
}

#[test]
fn fresh_buffer_load_writes_to_its_temp_file() {
    let (load, action) = BufferLoad::start(ModelPart::Model).unwrap();
    assert_eq!(action, LoadAction::WriteFile { path: load.temp.clone() });
    assert!(load.temp.starts_with("/tmp/") && load.temp.ends_with(".model"));
    assert_eq!(load.part, ModelPart::Model);
}
