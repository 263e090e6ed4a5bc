use vstd::prelude::*;
use vstd::string::{StringExecFns, StringSliceAdditionalSpecFns};
use vstd::utf8::encode_utf8;
use crate::cpath::{c_bytes, has_nul, to_c_bytes};
use crate::error::{ErrorModel, FileOp, ModelPart, NetError, TensorSide, io_view, result_view};
use crate::tempname::{fresh_temp_file_name, temp_path};

verus! {

/// What a native load of `part` from `path` means, given its return code:
/// zero is success, anything else a load failure naming the path.
pub open spec fn native_load(part: ModelPart, path: Seq<char>, code: i32) -> Result<(), ErrorModel> {
    if code == 0 {
        Ok(())
    } else {
        Err(ErrorModel::LoadFailed(part, path))
    }
}

/// The outcome of a path-mode load: a path that cannot cross the native
/// boundary is refused before any native call; otherwise the native return
/// code decides.
pub open spec fn path_mode(part: ModelPart, path: Seq<char>, code: i32) -> Result<(), ErrorModel> {
    if has_nul(encode_utf8(path)) {
        Err(ErrorModel::InvalidName(path))
    } else {
        native_load(part, path, code)
    }
}

/// Translates the return code of a native path-based load of `part`.
pub fn load_result(part: ModelPart, path: &str, code: i32) -> (r: Result<(), NetError>)
    ensures
        result_view(r) == native_load(part, path@, code),
{
    if code == 0 {
        Ok(())
    } else {
        Err(NetError::LoadFailed { part, path: String::from_str(path) })
    }
}

/// Translates the return code of a native load through a data reader.
pub fn reader_load_result(code: i32) -> (r: Result<(), NetError>)
    ensures
        result_view(r) == (if code == 0 {
            Ok(())
        } else {
            Err(ErrorModel::ReaderLoadFailed)
        }),
{
    if code == 0 {
        Ok(())
    } else {
        Err(NetError::ReaderLoadFailed)
    }
}

/// What a native call that binds or reads the tensor `name` means, given its
/// return code.
pub open spec fn native_tensor(side: TensorSide, name: Seq<char>, code: i32) -> Result<(), ErrorModel> {
    if code == 0 {
        Ok(())
    } else {
        Err(ErrorModel::TensorNotFound(side, name))
    }
}

/// The outcome of binding or reading a tensor by name: a name that cannot
/// cross the native boundary names no tensor of any topology and is "not
/// found" before any native call; otherwise the native return code decides.
pub open spec fn tensor_mode(side: TensorSide, name: Seq<char>, code: i32) -> Result<(), ErrorModel> {
    if has_nul(encode_utf8(name)) {
        Err(ErrorModel::TensorNotFound(side, name))
    } else {
        native_tensor(side, name, code)
    }
}

/// Turns a tensor name into the NUL-terminated bytes that the native API
/// takes. A name that holds a NUL byte names no tensor of any topology, and
/// is "not found" on the given side.
pub fn tensor_c_name(side: TensorSide, name: &str) -> (r: Result<Vec<u8>, NetError>)
    ensures
        match r {
            Ok(v) => !has_nul(name.spec_bytes()) && v@ == c_bytes(name.spec_bytes()),
            Err(e) => has_nul(name.spec_bytes()) && e@ == ErrorModel::TensorNotFound(side, name@),
        },
{
    match to_c_bytes(name) {
        Ok(v) => Ok(v),
        Err(_) => Err(NetError::TensorNotFound { side, name: String::from_str(name) }),
    }
}

/// Translates the return code of a native call that binds or reads a named
/// tensor: a non-zero code means the loaded topology has no such tensor.
pub fn tensor_result(side: TensorSide, name: &str, code: i32) -> (r: Result<(), NetError>)
    ensures
        result_view(r) == native_tensor(side, name@, code),
{
    if code == 0 {
        Ok(())
    } else {
        Err(NetError::TensorNotFound { side, name: String::from_str(name) })
    }
}

/// Where a buffer-mode load stands.
#[derive(Debug, PartialEq, Eq)]
pub enum BufferStage {
    /// Waiting for the buffer to be written to the temporary file.
    Writing,
    /// Waiting for the native loader to return.
    Loading,
    /// Waiting for the temporary file to be removed; holds the load's result.
    Removing { loaded: Result<(), NetError> },
    /// Nothing more to do.
    Done,
}

/// What a `BufferStage` says, over mathematical values.
pub enum StageModel {
    Writing,
    Loading,
    Removing(Result<(), ErrorModel>),
    Done,
}

pub open spec fn stage_view(s: BufferStage) -> StageModel {
    match s {
        BufferStage::Writing => StageModel::Writing,
        BufferStage::Loading => StageModel::Loading,
        BufferStage::Removing { loaded } => StageModel::Removing(result_view(loaded)),
        BufferStage::Done => StageModel::Done,
    }
}

/// The next thing the caller must do for a load in progress.
#[derive(Debug, PartialEq, Eq)]
pub enum LoadAction {
    /// Write the whole buffer to the file at `path`.
    WriteFile { path: String },
    /// Call the native path-based loader of `part` with these NUL-terminated bytes.
    CallLoader { part: ModelPart, c_path: Vec<u8> },
    /// Remove the file at `path`.
    RemoveFile { path: String },
    /// The load is over, with this result.
    Finish { result: Result<(), NetError> },
}

/// What a `LoadAction` says, over mathematical values.
pub enum ActionModel {
    WriteFile(Seq<char>),
    CallLoader(ModelPart, Seq<u8>),
    RemoveFile(Seq<char>),
    Finish(Result<(), ErrorModel>),
}

pub open spec fn action_view(a: LoadAction) -> ActionModel {
    match a {
        LoadAction::WriteFile { path } => ActionModel::WriteFile(path@),
        LoadAction::CallLoader { part, c_path } => ActionModel::CallLoader(part, c_path@),
        LoadAction::RemoveFile { path } => ActionModel::RemoveFile(path@),
        LoadAction::Finish { result } => ActionModel::Finish(result_view(result)),
    }
}

/// The step after the buffer was written (or failed to be) to `temp`. After a
/// failed write, which may have left part of the file behind, the file is
/// removed and the write's failure kept. A written file is handed to the
/// native loader by its path, unless that path cannot cross the native
/// boundary, in which case the file is removed straight away.
pub open spec fn after_write(part: ModelPart, temp: Seq<char>, written: Result<(), Seq<char>>) -> (
    StageModel,
    ActionModel,
) {
    match written {
        Err(m) => (
            StageModel::Removing(Err(ErrorModel::Io(FileOp::Write, temp, m))),
            ActionModel::RemoveFile(temp),
        ),
        Ok(()) => if has_nul(encode_utf8(temp)) {
            (
                StageModel::Removing(Err(ErrorModel::InvalidName(temp))),
                ActionModel::RemoveFile(temp),
            )
        } else {
            (StageModel::Loading, ActionModel::CallLoader(part, c_bytes(encode_utf8(temp))))
        },
    }
}

/// The step after the native loader returned `code`: whatever it returned,
/// the temporary file is removed next, and the load's result is kept.
pub open spec fn after_load(part: ModelPart, temp: Seq<char>, code: i32) -> (StageModel, ActionModel) {
    (StageModel::Removing(native_load(part, temp, code)), ActionModel::RemoveFile(temp))
}

/// Whether a result kept while the temporary file is removed is the failure
/// of writing the buffer.
pub open spec fn is_write_failure(loaded: Result<(), ErrorModel>) -> bool {
    loaded matches Err(ErrorModel::Io(FileOp::Write, _, _))
}

/// The step after the temporary file was removed (or failed to be): the load
/// ends. A failed write is reported as it is, whatever the removal gave.
/// After the loader ran, the load's result stands if the removal succeeded;
/// otherwise the removal's failure, the last step, takes precedence.
pub open spec fn after_remove(
    temp: Seq<char>,
    loaded: Result<(), ErrorModel>,
    removed: Result<(), Seq<char>>,
) -> (StageModel, ActionModel) {
    match removed {
        Ok(()) => (StageModel::Done, ActionModel::Finish(loaded)),
        Err(m) => if is_write_failure(loaded) {
            (StageModel::Done, ActionModel::Finish(loaded))
        } else {
            (StageModel::Done, ActionModel::Finish(Err(ErrorModel::Io(FileOp::Remove, temp, m))))
        },
    }
}

/// A load of a description from an in-memory buffer, bridged through a
/// temporary file and the native path-based loader. The caller performs each
/// action it hands out and reports the outcome back.
#[derive(Debug)]
pub struct BufferLoad {
    pub part: ModelPart,
    pub temp: String,
    pub stage: BufferStage,
}

impl BufferLoad {
    pub open spec fn stage_model(&self) -> StageModel {
        stage_view(self.stage)
    }

    /// Starts a buffer-mode load of `part` that uses the temporary file
    /// `temp`; the first action is to write the buffer there.
    pub fn start_with_name(part: ModelPart, temp: String) -> (r: (BufferLoad, LoadAction))
        ensures
            r.0.part == part,
            r.0.temp@ == temp@,
            r.0.stage_model() == StageModel::Writing,
            action_view(r.1) == ActionModel::WriteFile(temp@),
    {
        let path = temp.clone();
        (BufferLoad { part, temp, stage: BufferStage::Writing }, LoadAction::WriteFile { path })
    }

    /// Starts a buffer-mode load of `part` under a fresh, randomly named
    /// temporary file; fails, before any file is written, when no name can
    /// be drawn.
    pub fn start(part: ModelPart) -> (r: Result<(BufferLoad, LoadAction), NetError>)
        ensures
            match r {
                Ok((load, action)) => load.part == part && (exists|id: u64|
                    load.temp@ == temp_path(part, id as nat)) && load.stage_model()
                    == StageModel::Writing && action_view(action) == ActionModel::WriteFile(
                    load.temp@,
                ),
                Err(e) => e@ == ErrorModel::TempNameUnavailable,
            },
    {
        match fresh_temp_file_name(part) {
            Some(temp) => Ok(BufferLoad::start_with_name(part, temp)),
            None => Err(NetError::TempNameUnavailable),
        }
    }

    /// Takes in the outcome of writing the buffer to the temporary file.
    pub fn written(&mut self, outcome: Result<(), String>) -> (r: LoadAction)
        requires
            old(self).stage_model() == StageModel::Writing,
        ensures
            final(self).part == old(self).part,
            final(self).temp@ == old(self).temp@,
            (final(self).stage_model(), action_view(r)) == after_write(
                old(self).part,
                old(self).temp@,
                io_view(outcome),
            ),
    {
        match outcome {
            Err(message) => {
                self.stage = BufferStage::Removing {
                    loaded: Err(NetError::Io { op: FileOp::Write, path: self.temp.clone(), message }),
                };
                LoadAction::RemoveFile { path: self.temp.clone() }
            },
            Ok(()) => {
                match to_c_bytes(self.temp.as_str()) {
                    Ok(c_path) => {
                        self.stage = BufferStage::Loading;
                        LoadAction::CallLoader { part: self.part, c_path }
                    },
                    Err(e) => {
                        self.stage = BufferStage::Removing { loaded: Err(e) };
                        LoadAction::RemoveFile { path: self.temp.clone() }
                    },
                }
            },
        }
    }

    /// Takes in the return code of the native path-based loader.
    pub fn loaded(&mut self, code: i32) -> (r: LoadAction)
        requires
            old(self).stage_model() == StageModel::Loading,
        ensures
            final(self).part == old(self).part,
            final(self).temp@ == old(self).temp@,
            (final(self).stage_model(), action_view(r)) == after_load(
                old(self).part,
                old(self).temp@,
                code,
            ),
    {
        let loaded = load_result(self.part, self.temp.as_str(), code);
        self.stage = BufferStage::Removing { loaded };
        LoadAction::RemoveFile { path: self.temp.clone() }
    }

    /// Takes in the outcome of removing the temporary file.
    pub fn removed(&mut self, outcome: Result<(), String>) -> (r: LoadAction)
        requires
            old(self).stage_model() is Removing,
        ensures
            final(self).part == old(self).part,
            final(self).temp@ == old(self).temp@,
            (final(self).stage_model(), action_view(r)) == after_remove(
                old(self).temp@,
                old(self).stage_model()->Removing_0,
                io_view(outcome),
            ),
    {
        let mut stage = BufferStage::Done;
        std::mem::swap(&mut self.stage, &mut stage);
        match stage {
            BufferStage::Removing { loaded } => {
                let write_failed = match &loaded {
                    Err(NetError::Io { op: FileOp::Write, .. }) => true,
                    _ => false,
                };
                match outcome {
                    Err(message) if !write_failed => LoadAction::Finish {
                        result: Err(NetError::Io { op: FileOp::Remove, path: self.temp.clone(), message }),
                    },
                    _ => LoadAction::Finish { result: loaded },
                }
            },
            _ => {
                proof { assert(false); }
                LoadAction::Finish { result: Ok(()) }
            },
        }
    }
}

} // verus!
