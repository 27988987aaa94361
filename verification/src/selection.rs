use vstd::prelude::*;

verus! {

/// A rectangular sub-region of a monitor, as reported by the companion
/// application for a region selection.  `x` and `y` are the origin (they
/// may be negative in multi-monitor layouts), `width` and `height` the
/// extent.
#[derive(Debug, Clone, Copy, PartialEq, Eq, Structural)]
pub struct Geometry {
    pub x: i32,
    pub y: i32,
    pub width: u32,
    pub height: u32,
}

/// The companion application's answer to a selection query: exactly one
/// of a concrete selection, "nothing selected yet", or an internal error.
#[derive(Debug)]
pub enum IpcResponse {
    /// The user has pre-selected a source.  `geometry` is present only
    /// for a region selection.
    Selection { source_type: String, source_id: String, geometry: Option<Geometry> },
    /// No selection has been made or confirmed yet.
    NoSelection,
    /// The companion application reports an internal failure.
    Error { message: String },
}

/// Why a selection query could not be completed at the transport level.
/// Any of these is treated by the portal state machine exactly like
/// `IpcResponse::NoSelection`; they are kept apart for diagnostics only.
#[derive(Debug)]
pub enum TransportError {
    /// The companion application's endpoint could not be reached.
    Unreachable { detail: String },
    /// The exchange did not complete within the bounded timeout.
    TimedOut,
    /// The reply bytes did not decode as a selection response.
    Malformed,
}

/// Ghost mirror of `IpcResponse`, with strings as character sequences.
#[verifier::ext_equal]
pub ghost enum IpcResponseView {
    Selection { source_type: Seq<char>, source_id: Seq<char>, geometry: Option<Geometry> },
    NoSelection,
    Error { message: Seq<char> },
}

impl View for IpcResponse {
    type V = IpcResponseView;

    open spec fn view(&self) -> IpcResponseView {
        match self {
            IpcResponse::Selection { source_type, source_id, geometry } => IpcResponseView::Selection {
                source_type: source_type@,
                source_id: source_id@,
                geometry: *geometry,
            },
            IpcResponse::NoSelection => IpcResponseView::NoSelection,
            IpcResponse::Error { message } => IpcResponseView::Error { message: message@ },
        }
    }
}

} // verus!
