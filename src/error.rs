use vstd::prelude::*;

verus! {

/// Which description of a network a load concerns.
#[derive(Debug, Clone, Copy, PartialEq, Eq, Structural)]
pub enum ModelPart {
    /// The topology ("param") description.
    Param,
    /// The weights ("model") description.
    Model,
}

/// Which filesystem step of a buffer-mode load failed.
#[derive(Debug, Clone, Copy, PartialEq, Eq, Structural)]
pub enum FileOp {
    /// Writing the buffer to its temporary file.
    Write,
    /// Removing the temporary file after the load attempt.
    Remove,
}

/// Which side of an extractor a tensor name was used on.
#[derive(Debug, Clone, Copy, PartialEq, Eq, Structural)]
pub enum TensorSide {
    Input,
    Output,
}

/// A structured failure of the binding layer.
#[derive(Debug, PartialEq, Eq)]
pub enum NetError {
    /// The text cannot cross the native boundary: it holds a NUL byte.
    InvalidName { name: String },
    /// The native loader reported failure for the description at `path`.
    LoadFailed { part: ModelPart, path: String },
    /// The native loader reported failure while reading from a data reader.
    ReaderLoadFailed,
    /// No name could be drawn for a buffer-mode load's temporary file: the
    /// operating system's random source could not be read.
    TempNameUnavailable,
    /// A filesystem step of a buffer-mode load failed.
    Io { op: FileOp, path: String, message: String },
    /// The loaded topology has no tensor of this name.
    TensorNotFound { side: TensorSide, name: String },
}

/// What a `NetError` says, over mathematical values.
pub enum ErrorModel {
    InvalidName(Seq<char>),
    LoadFailed(ModelPart, Seq<char>),
    ReaderLoadFailed,
    TempNameUnavailable,
    Io(FileOp, Seq<char>, Seq<char>),
    TensorNotFound(TensorSide, Seq<char>),
}

impl View for NetError {
    type V = ErrorModel;

    open spec fn view(&self) -> ErrorModel {
        match self {
            NetError::InvalidName { name } => ErrorModel::InvalidName(name@),
            NetError::LoadFailed { part, path } => ErrorModel::LoadFailed(*part, path@),
            NetError::ReaderLoadFailed => ErrorModel::ReaderLoadFailed,
            NetError::TempNameUnavailable => ErrorModel::TempNameUnavailable,
            NetError::Io { op, path, message } => ErrorModel::Io(*op, path@, message@),
            NetError::TensorNotFound { side, name } => ErrorModel::TensorNotFound(*side, name@),
        }
    }
}

/// The view of the result of a fallible operation of the binding layer.
pub open spec fn result_view(r: Result<(), NetError>) -> Result<(), ErrorModel> {
    match r {
        Ok(()) => Ok(()),
        Err(e) => Err(e@),
    }
}

/// The view of the outcome of a filesystem step, as reported by the caller:
/// success, or the failure's message.
pub open spec fn io_view(r: Result<(), String>) -> Result<(), Seq<char>> {
    match r {
        Ok(()) => Ok(()),
        Err(m) => Err(m@),
    }
}

} // verus!
