//! The stateless facade over the native library.
//!
//! The native calls themselves cannot be made here; each operation that
//! needs one is split at the boundary.  The request half validates the
//! inputs and fixes, as plain values, exactly what may cross to the
//! native layer; the wrap half takes the raw outcome back and translates
//! the native null-or-reference convention into an option.  What lies
//! between — the call — is the caller's, and a failed validation yields
//! no request, so nothing truncated can ever reach the native layer.

use vstd::prelude::*;
use crate::enums::SDL3RendererType;
use crate::events::EventKind;
use crate::events::EventRecord;
use crate::events::spec_classify;
use crate::handles::SDL3RendererWrapper;
use crate::handles::SDL3WindowWrapper;
use crate::text::EmbeddedNulError;
use crate::text::find_nul;
use crate::text::has_nul;
use crate::text::is_first_nul;

verus! {

/// The native init flag that selects the video subsystem.
pub const INIT_VIDEO: u32 = 0x20;

/// The native window flag for a resizable window.
pub const WINDOW_RESIZABLE: u64 = 0x20;

/// The native window flag for a high-pixel-density window.
pub const WINDOW_HIGH_PIXEL_DENSITY: u64 = 0x2000;

/// The stateless set of operations over the native library.
pub struct SDL3Wrapper {}

/// A validated window-creation call: a title free of embedded nul
/// characters, pixel dimensions and a window flag bitset, all forwarded
/// to the native layer uninterpreted.
#[derive(Debug)]
pub struct WindowRequest {
    pub title: String,
    pub width: i32,
    pub height: i32,
    pub window_flags: u64,
}

/// A validated renderer-creation call: the non-null window reference the
/// renderer is created against, and the backend to select.
#[derive(Debug)]
pub struct RendererRequest {
    pub window_addr: usize,
    pub renderer_type: SDL3RendererType,
}

/// A validated metadata-registration call: three strings free of
/// embedded nul characters.
#[derive(Debug)]
pub struct MetadataRequest {
    pub app_name: String,
    pub app_version: String,
    pub app_identifier: String,
}

/// The error of a metadata-registration request: which of the three
/// strings holds an embedded nul, checked in argument order.
#[derive(Clone, Copy, Debug, PartialEq, Eq, Structural)]
pub enum MetadataError {
    NulInName(EmbeddedNulError),
    NulInVersion(EmbeddedNulError),
    NulInIdentifier(EmbeddedNulError),
}

impl SDL3Wrapper {
    /// Validates a window-creation call.  It succeeds exactly when the
    /// title is free of embedded nul characters, carrying every argument
    /// through unchanged; otherwise it reports the first nul and no
    /// request reaches the native layer.
    pub fn sdl_create_window_request(
        &self,
        title: &str,
        width: i32,
        height: i32,
        window_flags: u64,
    ) -> (r: Result<WindowRequest, EmbeddedNulError>)
        ensures
            r is Ok <==> !has_nul(title@),
            r matches Ok(req) ==> req.title@ == title@ && req.width == width && req.height
                == height && req.window_flags == window_flags,
            r matches Err(e) ==> is_first_nul(title@, e),
    {
        match find_nul(title) {
            Some(pos) => Err(EmbeddedNulError { pos }),
            None => Ok(
                WindowRequest {
                    title: title.to_owned(),
                    width,
                    height,
                    window_flags,
                },
            ),
        }
    }

    /// Translates the raw outcome of a native window creation: empty
    /// exactly on the null reference, and a handle wrapping the identical
    /// reference otherwise.
    pub fn sdl_wrap_window(&self, raw: usize) -> (r: Option<SDL3WindowWrapper>)
        ensures
            r is None <==> raw == 0,
            r matches Some(w) ==> w.addr() == raw,
    {
        let r = SDL3WindowWrapper::wrap(raw);
        proof {
            if raw != 0 {
                SDL3WindowWrapper::lemma_wrap_identity(raw);
            }
        }
        r
    }

    /// Prepares a renderer-creation call against `window`.  It always
    /// succeeds: the window reference is non-null by construction, and no
    /// backend identifier holds an embedded nul.
    pub fn sdl_create_renderer_request(
        &self,
        window: &SDL3WindowWrapper,
        renderer_type: SDL3RendererType,
    ) -> (r: RendererRequest)
        ensures
            r.window_addr == window.addr(),
            r.window_addr != 0,
            r.renderer_type == renderer_type,
    {
        RendererRequest { window_addr: window.raw(), renderer_type }
    }

    /// Translates the raw outcome of a native renderer creation: empty
    /// exactly on the null reference, and a handle wrapping the identical
    /// reference otherwise.
    pub fn sdl_wrap_renderer(&self, raw: usize) -> (r: Option<SDL3RendererWrapper>)
        ensures
            r is None <==> raw == 0,
            r matches Some(w) ==> w.addr() == raw,
    {
        let r = SDL3RendererWrapper::wrap(raw);
        proof {
            if raw != 0 {
                SDL3RendererWrapper::lemma_wrap_identity(raw);
            }
        }
        r
    }

    /// Validates a metadata-registration call.  It succeeds exactly when
    /// none of the three strings holds an embedded nul, carrying them
    /// through unchanged; otherwise it reports the first offending
    /// string, in argument order, and the position of its first nul.
    pub fn sdl_set_app_metadata_request(
        &self,
        app_name: &str,
        app_version: &str,
        app_identifier: &str,
    ) -> (r: Result<MetadataRequest, MetadataError>)
        ensures
            r is Ok <==> (!has_nul(app_name@) && !has_nul(app_version@) && !has_nul(
                app_identifier@,
            )),
            r matches Ok(req) ==> req.app_name@ == app_name@ && req.app_version@ == app_version@
                && req.app_identifier@ == app_identifier@,
            r matches Err(e) ==> match e {
                MetadataError::NulInName(n) => is_first_nul(app_name@, n),
                MetadataError::NulInVersion(n) => !has_nul(app_name@) && is_first_nul(
                    app_version@,
                    n,
                ),
                MetadataError::NulInIdentifier(n) => !has_nul(app_name@) && !has_nul(app_version@)
                    && is_first_nul(app_identifier@, n),
            },
    {
        if let Some(pos) = find_nul(app_name) {
            return Err(MetadataError::NulInName(EmbeddedNulError { pos }));
        }
        if let Some(pos) = find_nul(app_version) {
            return Err(MetadataError::NulInVersion(EmbeddedNulError { pos }));
        }
        if let Some(pos) = find_nul(app_identifier) {
            return Err(MetadataError::NulInIdentifier(EmbeddedNulError { pos }));
        }
        Ok(
            MetadataRequest {
                app_name: app_name.to_owned(),
                app_version: app_version.to_owned(),
                app_identifier: app_identifier.to_owned(),
            },
        )
    }

    /// Reads an event record's type tag as a typed enumeration value.
    pub fn sdl_get_sdl_event(&self, event: &EventRecord) -> (r: EventKind)
        ensures
            r == spec_classify(event.event_type),
    {
        if event.event_type == crate::events::EVENT_TYPE_QUIT {
            EventKind::Quit
        } else {
            EventKind::Other(event.event_type)
        }
    }
}

} // verus!
