use vstd::prelude::*;
use crate::options::{OptionValue, get_string, get_u32, spec_get_string, spec_get_u32};
use crate::selection::{Geometry, IpcResponse, TransportError};
use crate::session::{PortalState, SessionView, default_session};
use crate::text::str_eq;

verus! {

/// Broker status code: the request succeeded.
pub const PORTAL_RESPONSE_SUCCESS: u32 = 0;

/// Broker status code: the request was cancelled — by the user, or here
/// because no selection could be obtained.
pub const PORTAL_RESPONSE_CANCELLED: u32 = 1;

/// Broker status code reserved for other errors; callers must understand
/// it, but this backend never emits it.
pub const PORTAL_RESPONSE_OTHER_ERROR: u32 = 2;

/// Source type flag: a whole monitor.
pub const SOURCE_TYPE_MONITOR: u32 = 1;

/// Source type flag: a single window.
pub const SOURCE_TYPE_WINDOW: u32 = 2;

/// Source type flag: a virtual source (not offered by this backend).
pub const SOURCE_TYPE_VIRTUAL: u32 = 4;

/// Cursor mode flag: cursor hidden.
pub const CURSOR_MODE_HIDDEN: u32 = 1;

/// Cursor mode flag: cursor drawn into the frame.
pub const CURSOR_MODE_EMBEDDED: u32 = 2;

/// Cursor mode flag: cursor delivered as metadata.
pub const CURSOR_MODE_METADATA: u32 = 4;

/// Advertised capability: monitor and window sources, not virtual ones.
pub fn available_source_types() -> (r: u32)
    ensures
        r == 3u32,
{
    proof {
        assert((1u32 | 2u32) == 3u32) by (bit_vector);
    }
    SOURCE_TYPE_MONITOR | SOURCE_TYPE_WINDOW
}

/// Advertised capability: the embedded cursor mode only.
pub fn available_cursor_modes() -> (r: u32)
    ensures
        r == CURSOR_MODE_EMBEDDED,
{
    CURSOR_MODE_EMBEDDED
}

/// Advertised portal interface version.
pub fn version() -> (r: u32)
    ensures
        r == 4u32,
{
    4
}

/// The broker code a selection tag maps to: `"window"` maps to the
/// window code; `"monitor"`, `"region"` (a region is reported as its
/// full monitor, which the consumer crops) and every unknown tag map to
/// the monitor code.
pub open spec fn spec_source_type_code(tag: Seq<char>) -> u32 {
    if tag == "window"@ {
        SOURCE_TYPE_WINDOW
    } else {
        SOURCE_TYPE_MONITOR
    }
}

/// Maps a selection tag onto the broker's numeric source-type code.
pub fn source_type_code(tag: &str) -> (r: u32)
    ensures
        r == spec_source_type_code(tag@),
{
    proof {
        broadcast use vstd::string::group_string_axioms;

        reveal_strlit("monitor");
        reveal_strlit("window");
        reveal_strlit("region");
        assert("monitor"@.len() == 7);
        assert("window"@.len() == 6);
        assert("monitor"@ != "window"@);
        assert("region"@[0] == 'r');
        assert("window"@[0] == 'w');
        assert("region"@ != "window"@);
    }
    if str_eq(tag, "monitor") {
        SOURCE_TYPE_MONITOR
    } else if str_eq(tag, "window") {
        SOURCE_TYPE_WINDOW
    } else if str_eq(tag, "region") {
        SOURCE_TYPE_MONITOR
    } else {
        SOURCE_TYPE_MONITOR
    }
}

/// Law: every tag maps to the monitor code or the window code, and the
/// mapping is a function of the tag alone, so repeated calls agree.
pub proof fn lemma_source_code_in_range(tag: Seq<char>)
    ensures
        spec_source_type_code(tag) == SOURCE_TYPE_MONITOR || spec_source_type_code(tag)
            == SOURCE_TYPE_WINDOW,
{
}

/// The two's-complement reinterpretation of a 32-bit extent as a signed
/// pair member: values above `i32::MAX` wrap.
pub open spec fn spec_wrap_to_i32(u: u32) -> i32 {
    if u <= 0x7fff_ffff {
        u as i32
    } else {
        (u - 0x1_0000_0000) as i32
    }
}

/// Reinterprets a 32-bit extent as the signed value the broker's
/// `(i32, i32)` pairs carry.
pub fn wrap_to_i32(u: u32) -> (r: i32)
    ensures
        r == spec_wrap_to_i32(u),
{
    if u <= 0x7fff_ffff {
        u as i32
    } else {
        -((0xffff_ffffu32 - u) as i32) - 1
    }
}

/// One stream entry of the broker's reply.  The node id is always the
/// placeholder 0: it tells the consumer to resolve the identified source
/// to a real capture node downstream; this backend never produces a real
/// node id itself.
#[derive(Debug)]
pub struct StreamDescriptor {
    /// Placeholder capture node id, always 0.
    pub node_id: u32,
    /// The broker's numeric source-type code.
    pub source_type: u32,
    /// The opaque source identifier, passed through verbatim.
    pub id: String,
    /// Origin of the selected region, present only for region selections.
    pub position: Option<(i32, i32)>,
    /// Extent of the selected region, present only for region selections.
    pub size: Option<(i32, i32)>,
}

/// Ghost mirror of `StreamDescriptor`.
#[verifier::ext_equal]
pub ghost struct StreamDescriptorView {
    pub node_id: u32,
    pub source_type: u32,
    pub id: Seq<char>,
    pub position: Option<(i32, i32)>,
    pub size: Option<(i32, i32)>,
}

impl View for StreamDescriptor {
    type V = StreamDescriptorView;

    open spec fn view(&self) -> StreamDescriptorView {
        StreamDescriptorView {
            node_id: self.node_id,
            source_type: self.source_type,
            id: self.id@,
            position: self.position,
            size: self.size,
        }
    }
}

/// The descriptor built for a selection: placeholder node id 0, the
/// broker code of the tag, the source id verbatim, and, only when
/// geometry is present, its origin and extent as signed pairs.
pub open spec fn spec_descriptor(
    source_type: Seq<char>,
    source_id: Seq<char>,
    geometry: Option<Geometry>,
) -> StreamDescriptorView {
    StreamDescriptorView {
        node_id: 0,
        source_type: spec_source_type_code(source_type),
        id: source_id,
        position: match geometry {
            Some(g) => Some((g.x, g.y)),
            None => None,
        },
        size: match geometry {
            Some(g) => Some((spec_wrap_to_i32(g.width), spec_wrap_to_i32(g.height))),
            None => None,
        },
    }
}

/// What `Start` hands back to the bus layer: the broker status code and
/// the streams array — empty on cancellation, one descriptor on success.
#[derive(Debug)]
pub struct StartResponse {
    pub status: u32,
    pub streams: Vec<StreamDescriptor>,
}

/// Seeds a default session for `session_handle` and reports SUCCESS.
/// The application id is not validated in this scope: the broker has
/// already authorized the caller.
pub fn create_session(state: &mut PortalState, session_handle: &str) -> (status: u32)
    requires
        old(state).wf(),
    ensures
        status == PORTAL_RESPONSE_SUCCESS,
        final(state).wf(),
        final(state)@ == old(state)@.insert(session_handle@, default_session()),
        final(state)@[session_handle@] == default_session(),
        forall|k: Seq<char>|
            k != session_handle@ && old(state)@.contains_key(k) ==> final(state)@.contains_key(k)
                && final(state)@[k] == old(state)@[k],
{
    state.create(session_handle);
    PORTAL_RESPONSE_SUCCESS
}

/// The session fields a `SelectSources` call stores: each option falls
/// back to its documented default when it is absent or has the wrong
/// type (`types` to monitor|window, `cursor_mode` to embedded,
/// `persist_mode` to none, `restore_token` to no token).
pub open spec fn session_from_options(opts: Seq<(String, OptionValue)>) -> SessionView {
    SessionView {
        source_types: match spec_get_u32(opts, "types"@) {
            Some(v) => v,
            None => SOURCE_TYPE_MONITOR | SOURCE_TYPE_WINDOW,
        },
        cursor_mode: match spec_get_u32(opts, "cursor_mode"@) {
            Some(v) => v,
            None => CURSOR_MODE_EMBEDDED,
        },
        persist_mode: match spec_get_u32(opts, "persist_mode"@) {
            Some(v) => v,
            None => 0u32,
        },
        restore_token: spec_get_string(opts, "restore_token"@),
    }
}

/// Stores the preferences parsed from `options` for `session_handle`;
/// an unknown handle is a silent no-op.  The status is SUCCESS either
/// way; the second component says whether the handle was known, so the
/// bus layer can log the dropped update.
pub fn select_sources(
    state: &mut PortalState,
    session_handle: &str,
    options: &Vec<(String, OptionValue)>,
) -> (r: (u32, bool))
    requires
        old(state).wf(),
    ensures
        r.0 == PORTAL_RESPONSE_SUCCESS,
        r.1 == old(state)@.contains_key(session_handle@),
        final(state).wf(),
        old(state)@.contains_key(session_handle@) ==> final(state)@ == old(state)@.insert(
            session_handle@,
            session_from_options(options@),
        ),
        !old(state)@.contains_key(session_handle@) ==> final(state)@ == old(state)@,
        forall|k: Seq<char>|
            k != session_handle@ && old(state)@.contains_key(k) ==> final(state)@.contains_key(k)
                && final(state)@[k] == old(state)@[k],
{
    let source_types = match get_u32(options, "types") {
        Some(v) => v,
        None => SOURCE_TYPE_MONITOR | SOURCE_TYPE_WINDOW,
    };
    let cursor_mode = match get_u32(options, "cursor_mode") {
        Some(v) => v,
        None => CURSOR_MODE_EMBEDDED,
    };
    let persist_mode = match get_u32(options, "persist_mode") {
        Some(v) => v,
        None => 0,
    };
    let restore_token = get_string(options, "restore_token");
    let ghost stored = SessionView {
        source_types,
        cursor_mode,
        persist_mode,
        restore_token: match restore_token {
            Some(ref t) => Some(t@),
            None => None,
        },
    };
    proof {
        assert(stored =~= session_from_options(options@));
    }
    let found = state.update(session_handle, source_types, cursor_mode, persist_mode, restore_token);
    (PORTAL_RESPONSE_SUCCESS, found)
}

/// Maps the outcome of the selection query onto the broker's reply: a
/// concrete selection yields SUCCESS with exactly one stream descriptor;
/// no selection, a companion-side error and every transport failure all
/// yield CANCELLED with empty results.
pub fn start_response(outcome: &Result<IpcResponse, TransportError>) -> (r: StartResponse)
    ensures
        match outcome {
            Ok(IpcResponse::Selection { source_type, source_id, geometry }) => r.status
                == PORTAL_RESPONSE_SUCCESS && r.streams@.len() == 1 && r.streams@[0]@
                == spec_descriptor(source_type@, source_id@, *geometry),
            _ => r.status == PORTAL_RESPONSE_CANCELLED && r.streams@.len() == 0,
        },
{
    match outcome {
        Ok(IpcResponse::Selection { source_type, source_id, geometry }) => {
            let code = source_type_code(source_type.as_str());
            let position: Option<(i32, i32)> = match geometry {
                Some(g) => Some((g.x, g.y)),
                None => None,
            };
            let size: Option<(i32, i32)> = match geometry {
                Some(g) => Some((wrap_to_i32(g.width), wrap_to_i32(g.height))),
                None => None,
            };
            let descriptor = StreamDescriptor {
                node_id: 0,
                source_type: code,
                id: source_id.clone(),
                position,
                size,
            };
            let mut streams: Vec<StreamDescriptor> = Vec::new();
            streams.push(descriptor);
            StartResponse { status: PORTAL_RESPONSE_SUCCESS, streams }
        },
        _ => {
            StartResponse { status: PORTAL_RESPONSE_CANCELLED, streams: Vec::new() }
        },
    }
}

} // verus!

