//! Validation of strings that cross the native boundary.
//!
//! The native layer takes nul-terminated strings, so a string holding an
//! embedded nul character cannot be handed over faithfully: conversion
//! must fail instead of silently truncating.

use vstd::prelude::*;
use vstd::string::StrSliceExecFns;

verus! {

/// Whether `s` holds an embedded nul character.
pub open spec fn has_nul(s: Seq<char>) -> bool {
    exists|i: int| 0 <= i < s.len() && s[i] == '\0'
}

/// The error of converting a string with an embedded nul character to a
/// nul-terminated native string; `pos` is the position of the first nul.
#[derive(Clone, Copy, Debug, PartialEq, Eq, Structural)]
pub struct EmbeddedNulError {
    pub pos: usize,
}

/// Whether `e` reports the first nul character of `s` exactly.
pub open spec fn is_first_nul(s: Seq<char>, e: EmbeddedNulError) -> bool {
    &&& e.pos < s.len()
    &&& s[e.pos as int] == '\0'
    &&& forall|j: int| 0 <= j < e.pos ==> s[j] != '\0'
}

/// Finds the first nul character of `s`, if any.
pub fn find_nul(s: &str) -> (r: Option<usize>)
    ensures
        match r {
            Some(i) => is_first_nul(s@, EmbeddedNulError { pos: i }),
            None => !has_nul(s@),
        },
{
    let len: usize = s.unicode_len();
    let mut i: usize = 0;
    while i < len
        invariant
            i <= len,
            len == s@.len(),
            forall|j: int| 0 <= j < i ==> s@[j] != '\0',
        decreases len - i,
    {
        if s.get_char(i) == '\0' {
            return Some(i);
        }
        i = i + 1;
    }
    None
}

} // verus!
