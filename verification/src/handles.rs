//! Owned wrappers around non-null native references.
//!
//! A native reference is modelled as its address: a plain `usize`, where
//! `0` stands for the null reference.  Each wrapper owns exactly one
//! non-null reference; wrapping fails on null instead of producing a
//! null-holding instance, so the non-null invariant holds for every value
//! of these types.

use vstd::prelude::*;

verus! {

/// An owned, non-null reference to a native window resource.
pub struct SDL3WindowWrapper {
    window_addr: usize,
}

impl SDL3WindowWrapper {
    /// The wrapped native reference, as a plain address value.
    pub closed spec fn addr(self) -> usize {
        self.window_addr
    }

    #[verifier::type_invariant]
    closed spec fn non_null(self) -> bool {
        self.window_addr != 0
    }

    /// The wrapper that a successful wrap of `raw` yields.
    pub closed spec fn spec_wrap(raw: usize) -> Self {
        SDL3WindowWrapper { window_addr: raw }
    }

    /// Wraps a native window reference; fails exactly on the null reference.
    pub fn wrap(raw: usize) -> (r: Option<Self>)
        ensures
            r == (if raw == 0 {
                None::<Self>
            } else {
                Some(Self::spec_wrap(raw))
            }),
    {
        if raw == 0 {
            None
        } else {
            Some(SDL3WindowWrapper { window_addr: raw })
        }
    }

    /// Reads the wrapped reference back; it is never null.
    pub fn raw(&self) -> (r: usize)
        ensures
            r == self.addr(),
            r != 0,
    {
        proof {
            use_type_invariant(self);
        }
        self.window_addr
    }

    /// Gives the reference up for an explicit native destroy call,
    /// consuming the wrapper.
    pub fn into_raw(self) -> (r: usize)
        ensures
            r == self.addr(),
            r != 0,
    {
        proof {
            use_type_invariant(&self);
        }
        self.window_addr
    }

    /// Law: wrapping a non-null reference and reading it back yields the
    /// identical reference value.
    pub proof fn lemma_wrap_identity(raw: usize)
        requires
            raw != 0,
        ensures
            Self::spec_wrap(raw).addr() == raw,
    {
    }
}

/// An owned, non-null reference to a native renderer resource.
///
/// A renderer is created from a window and must not outlive it; the type
/// itself records only the non-null invariant.
pub struct SDL3RendererWrapper {
    renderer_addr: usize,
}

impl SDL3RendererWrapper {
    /// The wrapped native reference, as a plain address value.
    pub closed spec fn addr(self) -> usize {
        self.renderer_addr
    }

    #[verifier::type_invariant]
    closed spec fn non_null(self) -> bool {
        self.renderer_addr != 0
    }

    /// The wrapper that a successful wrap of `raw` yields.
    pub closed spec fn spec_wrap(raw: usize) -> Self {
        SDL3RendererWrapper { renderer_addr: raw }
    }

    /// Wraps a native renderer reference; fails exactly on the null reference.
    pub fn wrap(raw: usize) -> (r: Option<Self>)
        ensures
            r == (if raw == 0 {
                None::<Self>
            } else {
                Some(Self::spec_wrap(raw))
            }),
    {
        if raw == 0 {
            None
        } else {
            Some(SDL3RendererWrapper { renderer_addr: raw })
        }
    }

    /// Reads the wrapped reference back; it is never null.
    pub fn raw(&self) -> (r: usize)
        ensures
            r == self.addr(),
            r != 0,
    {
        proof {
            use_type_invariant(self);
        }
        self.renderer_addr
    }

    /// Law: wrapping a non-null reference and reading it back yields the
    /// identical reference value.
    pub proof fn lemma_wrap_identity(raw: usize)
        requires
            raw != 0,
        ensures
            Self::spec_wrap(raw).addr() == raw,
    {
    }
}

} // verus!
