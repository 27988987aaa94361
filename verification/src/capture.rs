use vstd::prelude::*;

verus! {

/// A window that can be offered for capture.
#[derive(Debug, Clone)]
pub struct WindowInfo {
    /// Platform window handle.
    pub handle: isize,
    /// Window title.
    pub title: String,
}

/// A connected monitor.
#[derive(Debug, Clone)]
pub struct MonitorInfo {
    /// Platform monitor identifier.
    pub id: String,
    /// Human-readable name.
    pub name: String,
    /// Horizontal origin in the virtual desktop.
    pub x: i32,
    /// Vertical origin in the virtual desktop.
    pub y: i32,
    /// Width in pixels.
    pub width: u32,
    /// Height in pixels.
    pub height: u32,
}

/// A rectangular screen region to capture.
#[derive(Debug, Clone, Copy, PartialEq, Eq, Structural)]
pub struct CaptureRegion {
    pub x: i32,
    pub y: i32,
    pub width: u32,
    pub height: u32,
}

/// One captured frame of raw pixel data.
#[derive(Debug, Clone)]
pub struct CapturedFrame {
    pub width: u32,
    pub height: u32,
    pub data: Vec<u8>,
}

/// Receiving end of a capture stream.  The stub backends below never
/// start a capture, so no value of this type is produced by them.
#[derive(Debug)]
pub struct FrameReceiver {
    pub frames: Vec<CapturedFrame>,
}

/// Handle used to ask a running capture to stop.
#[derive(Debug)]
pub struct StopHandle {
    pub requested: bool,
}

/// Failure of a window or monitor enumeration.
#[derive(Debug)]
pub enum EnumerationError {
    /// Enumeration is not implemented for this platform.
    NotImplemented(String),
}

/// Failure to start a capture.
#[derive(Debug)]
pub enum CaptureError {
    /// Capture is not implemented for this platform.
    NotImplemented(String),
}

/// Window enumeration operations.
pub trait WindowEnumerator {
    /// List all visible, capturable windows.
    fn list_windows(&self) -> Result<Vec<WindowInfo>, EnumerationError>;
}

/// Monitor enumeration operations.
pub trait MonitorEnumerator {
    /// List all connected monitors.
    fn list_monitors(&self) -> Result<Vec<MonitorInfo>, EnumerationError>;
}

/// Capture operations.
pub trait CaptureBackend {
    /// Start capturing a window by its handle.
    fn start_window_capture(&self, window_handle: isize) -> Result<
        (FrameReceiver, StopHandle),
        CaptureError,
    >;

    /// Start capturing a screen region.
    fn start_region_capture(&self, region: CaptureRegion) -> Result<
        (FrameReceiver, StopHandle),
        CaptureError,
    >;

    /// Start capturing an entire display.
    fn start_display_capture(&self, monitor_id: String, width: u32, height: u32) -> Result<
        (FrameReceiver, StopHandle),
        CaptureError,
    >;
}

/// Visual highlight rendering.
pub trait HighlightProvider {
    /// Show a highlight border around the given area.
    fn show_highlight(&self, x: i32, y: i32, width: i32, height: i32);
}

/// Linux capture backend.  Enumeration and capture are stubs that report
/// `NotImplemented`; the portal path of this service does not need them.
#[derive(Debug)]
pub struct LinuxBackend;

impl LinuxBackend {
    /// Create a new Linux backend.
    pub fn new() -> (r: LinuxBackend) {
        LinuxBackend
    }

    /// Stub: Linux window enumeration always reports `NotImplemented`.
    pub fn list_windows(&self) -> (r: Result<Vec<WindowInfo>, EnumerationError>)
        ensures
            r is Err,
    {
        Err(EnumerationError::NotImplemented("Linux window enumeration is not implemented".to_owned()))
    }

    /// Stub: Linux monitor enumeration always reports `NotImplemented`.
    pub fn list_monitors(&self) -> (r: Result<Vec<MonitorInfo>, EnumerationError>)
        ensures
            r is Err,
    {
        Err(EnumerationError::NotImplemented("Linux monitor enumeration is not implemented".to_owned()))
    }

    /// Stub: Linux window capture always reports `NotImplemented`.
    pub fn start_window_capture(&self, _window_handle: isize) -> (r: Result<
        (FrameReceiver, StopHandle),
        CaptureError,
    >)
        ensures
            r is Err,
    {
        Err(CaptureError::NotImplemented("Linux window capture is not implemented".to_owned()))
    }

    /// Stub: Linux region capture always reports `NotImplemented`.
    pub fn start_region_capture(&self, _region: CaptureRegion) -> (r: Result<
        (FrameReceiver, StopHandle),
        CaptureError,
    >)
        ensures
            r is Err,
    {
        Err(CaptureError::NotImplemented("Linux region capture is not implemented".to_owned()))
    }

    /// Stub: Linux display capture always reports `NotImplemented`.
    pub fn start_display_capture(&self, _monitor_id: String, _width: u32, _height: u32) -> (r:
        Result<(FrameReceiver, StopHandle), CaptureError>)
        ensures
            r is Err,
    {
        Err(CaptureError::NotImplemented("Linux display capture is not implemented".to_owned()))
    }

    /// Stub: highlight rendering is not implemented on Linux; the
    /// request is ignored.
    pub fn show_highlight(&self, _x: i32, _y: i32, _width: i32, _height: i32) {
    }
}

impl Default for LinuxBackend {
    /// Same as `LinuxBackend::new`.
    fn default() -> (r: LinuxBackend) {
        LinuxBackend::new()
    }
}

impl WindowEnumerator for LinuxBackend {
    fn list_windows(&self) -> Result<Vec<WindowInfo>, EnumerationError> {
        LinuxBackend::list_windows(self)
    }
}

impl MonitorEnumerator for LinuxBackend {
    fn list_monitors(&self) -> Result<Vec<MonitorInfo>, EnumerationError> {
        LinuxBackend::list_monitors(self)
    }
}

impl CaptureBackend for LinuxBackend {
    fn start_window_capture(&self, window_handle: isize) -> Result<
        (FrameReceiver, StopHandle),
        CaptureError,
    > {
        LinuxBackend::start_window_capture(self, window_handle)
    }

    fn start_region_capture(&self, region: CaptureRegion) -> Result<
        (FrameReceiver, StopHandle),
        CaptureError,
    > {
        LinuxBackend::start_region_capture(self, region)
    }

    fn start_display_capture(&self, monitor_id: String, width: u32, height: u32) -> Result<
        (FrameReceiver, StopHandle),
        CaptureError,
    > {
        LinuxBackend::start_display_capture(self, monitor_id, width, height)
    }
}

impl HighlightProvider for LinuxBackend {
    fn show_highlight(&self, x: i32, y: i32, width: i32, height: i32) {
        LinuxBackend::show_highlight(self, x, y, width, height)
    }
}

/// macOS capture backend.  Enumeration and capture are stubs that report
/// `NotImplemented`.
#[derive(Debug)]
pub struct MacOSBackend;

impl MacOSBackend {
    /// Create a new macOS backend.
    pub fn new() -> (r: MacOSBackend) {
        MacOSBackend
    }

    /// Stub: macOS window enumeration always reports `NotImplemented`.
    pub fn list_windows(&self) -> (r: Result<Vec<WindowInfo>, EnumerationError>)
        ensures
            r is Err,
    {
        Err(EnumerationError::NotImplemented("macOS window enumeration is not implemented".to_owned()))
    }

    /// Stub: macOS monitor enumeration always reports `NotImplemented`.
    pub fn list_monitors(&self) -> (r: Result<Vec<MonitorInfo>, EnumerationError>)
        ensures
            r is Err,
    {
        Err(EnumerationError::NotImplemented("macOS monitor enumeration is not implemented".to_owned()))
    }

    /// Stub: macOS window capture always reports `NotImplemented`.
    pub fn start_window_capture(&self, _window_handle: isize) -> (r: Result<
        (FrameReceiver, StopHandle),
        CaptureError,
    >)
        ensures
            r is Err,
    {
        Err(CaptureError::NotImplemented("macOS window capture is not implemented".to_owned()))
    }

    /// Stub: macOS region capture always reports `NotImplemented`.
    pub fn start_region_capture(&self, _region: CaptureRegion) -> (r: Result<
        (FrameReceiver, StopHandle),
        CaptureError,
    >)
        ensures
            r is Err,
    {
        Err(CaptureError::NotImplemented("macOS region capture is not implemented".to_owned()))
    }

    /// Stub: macOS display capture always reports `NotImplemented`.
    pub fn start_display_capture(&self, _monitor_id: String, _width: u32, _height: u32) -> (r:
        Result<(FrameReceiver, StopHandle), CaptureError>)
        ensures
            r is Err,
    {
        Err(CaptureError::NotImplemented("macOS display capture is not implemented".to_owned()))
    }

    /// Stub: highlight rendering is not implemented on macOS; the
    /// request is ignored.
    pub fn show_highlight(&self, _x: i32, _y: i32, _width: i32, _height: i32) {
    }
}

impl Default for MacOSBackend {
    /// Same as `MacOSBackend::new`.
    fn default() -> (r: MacOSBackend) {
        MacOSBackend::new()
    }
}

impl WindowEnumerator for MacOSBackend {
    fn list_windows(&self) -> Result<Vec<WindowInfo>, EnumerationError> {
        MacOSBackend::list_windows(self)
    }
}

impl MonitorEnumerator for MacOSBackend {
    fn list_monitors(&self) -> Result<Vec<MonitorInfo>, EnumerationError> {
        MacOSBackend::list_monitors(self)
    }
}

impl CaptureBackend for MacOSBackend {
    fn start_window_capture(&self, window_handle: isize) -> Result<
        (FrameReceiver, StopHandle),
        CaptureError,
    > {
        MacOSBackend::start_window_capture(self, window_handle)
    }

    fn start_region_capture(&self, region: CaptureRegion) -> Result<
        (FrameReceiver, StopHandle),
        CaptureError,
    > {
        MacOSBackend::start_region_capture(self, region)
    }

    fn start_display_capture(&self, monitor_id: String, width: u32, height: u32) -> Result<
        (FrameReceiver, StopHandle),
        CaptureError,
    > {
        MacOSBackend::start_display_capture(self, monitor_id, width, height)
    }
}

impl HighlightProvider for MacOSBackend {
    fn show_highlight(&self, x: i32, y: i32, width: i32, height: i32) {
        MacOSBackend::show_highlight(self, x, y, width, height)
    }
}

/// The capture backend of the platform this service targets; the
/// service is a Linux desktop portal, so this is the Linux backend.
pub fn get_backend() -> (r: LinuxBackend) {
    LinuxBackend::new()
}

/// List all visible, capturable windows.  An enumeration failure reads
/// as an empty list by design; the Linux stub always fails, so the list
/// is empty.
pub fn list_windows() -> (r: Vec<WindowInfo>)
    ensures
        r@.len() == 0,
{
    let backend = get_backend();
    match backend.list_windows() {
        Ok(w) => w,
        Err(_) => Vec::new(),
    }
}

/// List all connected monitors.  An enumeration failure reads as an
/// empty list by design; the Linux stub always fails, so the list is
/// empty.
pub fn list_monitors() -> (r: Vec<MonitorInfo>)
    ensures
        r@.len() == 0,
{
    let backend = get_backend();
    match backend.list_monitors() {
        Ok(m) => m,
        Err(_) => Vec::new(),
    }
}

/// Show a highlight border around the given area (ignored by the stub
/// backend).
pub fn show_highlight(x: i32, y: i32, width: i32, height: i32) {
    let backend = get_backend();
    backend.show_highlight(x, y, width, height);
}

} // verus!
