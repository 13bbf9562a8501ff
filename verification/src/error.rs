use vstd::prelude::*;

verus! {

/// Failure taxonomy of the clipboard service. Every failure is scoped to a
/// single operation; none is retried and none is fatal to the process.
#[derive(Debug)]
pub enum ClipboardError {
    /// The underlying native clipboard API failed; carries its message.
    NativeClipboard(String),
    /// A read asked for a format the clipboard does not currently hold.
    FormatNotPresent,
    /// A path cannot be represented as required by the storage layer.
    InvalidPath(String),
    /// A filesystem failure during cache write or size probing.
    Io(String),
    /// The background change watcher failed to start.
    WatcherInit(String),
}

impl ClipboardError {
    /// True exactly when the error reports an absent format.
    pub fn is_format_not_present(&self) -> (r: bool)
        ensures
            r == (self is FormatNotPresent),
    {
        match self {
            ClipboardError::FormatNotPresent => true,
            _ => false,
        }
    }
}

} // verus!
