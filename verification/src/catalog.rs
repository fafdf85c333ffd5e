//! The asset catalog: a read-only mapping from piece codes to drawable
//! vector-image handles, built once before any board is drawn.
//!
//! A handle is an opaque integer chosen by the embedder; the renderer only
//! stores it in the sprite primitives it emits. A code with no entry is a
//! documented degradation, not an error: squares holding such a piece are
//! rendered without a sprite.

use vstd::prelude::*;

use crate::piece::PieceCode;

verus! {

/// The mapping from piece codes to image handles.
#[derive(Clone, Debug)]
pub struct AssetCatalog {
    handles: Vec<Option<u64>>,
}

impl AssetCatalog {
    /// The catalog holds one slot per piece code.
    pub closed spec fn wf(self) -> bool {
        self.handles@.len() == 12
    }

    /// The handle registered for `code`, if any.
    pub closed spec fn lookup_spec(self, code: PieceCode) -> Option<u64> {
        self.handles@[code.index_spec()]
    }

    /// Creates an empty catalog, with no entry for any code.
    pub fn new() -> (c: AssetCatalog)
        ensures
            c.wf(),
            forall|code: PieceCode| c.lookup_spec(code) is None,
    {
        let mut handles: Vec<Option<u64>> = Vec::new();
        let mut i: usize = 0;
        while i < 12
            invariant
                i <= 12,
                handles@.len() == i,
                forall|j: int| 0 <= j < i ==> handles@[j] is None,
            decreases 12 - i,
        {
            handles.push(None);
            i = i + 1;
        }
        AssetCatalog { handles }
    }

    /// Registers `handle` for `code`, replacing any earlier entry for it and
    /// leaving every other code's entry unchanged.
    pub fn insert(&mut self, code: PieceCode, handle: u64)
        requires
            old(self).wf(),
        ensures
            final(self).wf(),
            final(self).lookup_spec(code) == Some(handle),
            forall|other: PieceCode|
                other != code ==> final(self).lookup_spec(other) == old(self).lookup_spec(other),
    {
        let i = code.index();
        self.handles.set(i, Some(handle));
    }

    /// Looks up the handle registered for `code`.
    pub fn lookup(&self, code: PieceCode) -> (r: Option<u64>)
        requires
            self.wf(),
        ensures
            r == self.lookup_spec(code),
    {
        let i = code.index();
        self.handles[i]
    }

    /// Registers `handle` under an asset file's base name, deriving the code
    /// from the name exactly as the piece codes spell theirs. A name that
    /// matches no code leaves the catalog unchanged and reports failure, so
    /// an unrelated file in the asset directory is skipped rather than fatal.
    pub fn insert_named(&mut self, name: &str, handle: u64) -> (recognized: bool)
        requires
            old(self).wf(),
        ensures
            final(self).wf(),
            recognized == (PieceCode::code_of_name_spec(name@) is Some),
            match PieceCode::code_of_name_spec(name@) {
                Some(code) => {
                    &&& final(self).lookup_spec(code) == Some(handle)
                    &&& forall|other: PieceCode|
                        other != code ==> final(self).lookup_spec(other) == old(
                            self,
                        ).lookup_spec(other)
                },
                None => *final(self) == *old(self),
            },
    {
        match PieceCode::from_code(name) {
            Some(code) => {
                self.insert(code, handle);
                true
            },
            None => false,
        }
    }
}

} // verus!
