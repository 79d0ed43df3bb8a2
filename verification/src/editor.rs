//! The sparse editor contract.
//!
//! An edit that can be realized as a handful of single-byte file patches is
//! returned as a [`ByteChanges`] list instead of a rewritten image.  A
//! [`SparseEditorOutput`] carries either such a patch list or a complete
//! replacement image, never both and never neither; the host refuses any
//! reply that breaks that rule when classifying it as a [`SparseEdit`].
//!
//! Patches are applied in list order; offsets need not be unique, and a
//! later write to the same offset wins.  A write past the end of the data
//! is ignored.

use vstd::prelude::*;
use vstd::seq_lib::seq_to_set_is_finite;

use crate::error::{Error, RemoteError};
use crate::frame::BinaryData;

verus! {

/// One byte patch: the file offset and the value to put there.
#[derive(Debug, Clone, Copy, PartialEq, Eq, Structural)]
pub struct ByteChange {
    pub offset: u64,
    pub new_value: u8,
}

/// An ordered list of byte patches.
#[derive(Debug, Clone, PartialEq, Eq)]
pub struct ByteChanges {
    pub changes: Vec<ByteChange>,
}

/// Whether an operation kept all metadata, image data and image quality.
#[derive(Debug, Clone, Copy, PartialEq, Eq, Structural)]
pub struct EditorOutputInfo {
    /// Operation is considered to be lossless.
    ///
    /// Operations are considered lossless when all metadata are kept, no
    /// image data is lost, and no image quality is lost.
    pub lossless: bool,
}

impl Default for EditorOutputInfo {
    fn default() -> (r: Self)
        ensures
            !r.lossless,
    {
        EditorOutputInfo { lossless: false }
    }
}

/// The request that carries the serialized operations to an editor worker.
#[derive(Debug, Clone, PartialEq, Eq)]
pub struct EditRequest {
    pub operations: BinaryData,
}

/// An editor's reply when a full rewrite was needed.
#[derive(Debug, Clone, Copy, PartialEq, Eq, Structural)]
pub struct CompleteEditorOutput {
    pub data: BinaryData,
    pub info: EditorOutputInfo,
}

impl CompleteEditorOutput {
    pub fn new(data: BinaryData) -> (r: Self)
        ensures
            r.data == data,
            !r.info.lossless,
    {
        Self { data, info: EditorOutputInfo::default() }
    }
}

/// Result of a sparse editor operation.
///
/// This either contains `byte_changes` or `data`, depending on whether a
/// sparse application of the operations was possible.
#[derive(Debug, Clone, PartialEq, Eq)]
pub struct SparseEditorOutput {
    pub byte_changes: Option<ByteChanges>,
    pub data: Option<BinaryData>,
    pub info: EditorOutputInfo,
}

impl SparseEditorOutput {
    /// Exactly one of the byte-patch list and the replacement data is
    /// present.  Both constructors establish this, and the host refuses any
    /// received value that lacks it.
    pub open spec fn spec_wf(self) -> bool {
        (self.byte_changes is Some) <==> (self.data is None)
    }

    /// A sparse reply: byte patches, which are lossless by definition.
    pub fn byte_changes(byte_changes: ByteChanges) -> (r: Self)
        ensures
            r.byte_changes == Some(byte_changes),
            r.data is None,
            r.info.lossless,
            r.spec_wf(),
    {
        SparseEditorOutput {
            byte_changes: Some(byte_changes),
            data: None,
            info: EditorOutputInfo { lossless: true },
        }
    }
}

/// A worker that only implements the complete flow has its reply wrapped as
/// a sparse output whose `data` field is set.
impl From<CompleteEditorOutput> for SparseEditorOutput {
    fn from(value: CompleteEditorOutput) -> (r: Self) {
        Self { byte_changes: None, data: Some(value.data), info: value.info }
    }
}

impl vstd::std_specs::convert::FromSpecImpl<CompleteEditorOutput> for SparseEditorOutput {
    open spec fn obeys_from_spec() -> bool {
        true
    }

    open spec fn from_spec(value: CompleteEditorOutput) -> Self {
        SparseEditorOutput { byte_changes: None, data: Some(value.data), info: value.info }
    }
}

/// One patch applied to in-memory data: a write past the end is ignored.
pub open spec fn spec_apply_one(data: Seq<u8>, c: ByteChange) -> Seq<u8> {
    if c.offset < data.len() {
        data.update(c.offset as int, c.new_value)
    } else {
        data
    }
}

/// A patch list applied to in-memory data, in list order.
pub open spec fn spec_apply_changes(data: Seq<u8>, changes: Seq<ByteChange>) -> Seq<u8>
    decreases changes.len(),
{
    if changes.len() == 0 {
        data
    } else {
        spec_apply_changes(spec_apply_one(data, changes.first()), changes.drop_first())
    }
}

/// The value the last patch at `off` writes, if any patch writes there.
pub open spec fn spec_last_write(changes: Seq<ByteChange>, off: int) -> Option<u8>
    decreases changes.len(),
{
    if changes.len() == 0 {
        None
    } else {
        match spec_last_write(changes.drop_first(), off) {
            Some(v) => Some(v),
            None => if changes.first().offset == off {
                Some(changes.first().new_value)
            } else {
                None
            },
        }
    }
}

/// The offsets a patch list names.
pub open spec fn spec_offsets(changes: Seq<ByteChange>) -> Set<int> {
    changes.map_values(|c: ByteChange| c.offset as int).to_set()
}

/// Applying a patch list edits each byte to the last value written there,
/// and leaves every other byte alone.
pub proof fn lemma_apply_changes_pointwise(data: Seq<u8>, changes: Seq<ByteChange>)
    ensures
        spec_apply_changes(data, changes).len() == data.len(),
        forall|i: int|
            0 <= i < data.len() ==> #[trigger] spec_apply_changes(data, changes)[i] == (
            match spec_last_write(changes, i) {
                Some(v) => v,
                None => data[i],
            }),
    decreases changes.len(),
{
    if changes.len() == 0 {
    } else {
        lemma_apply_changes_pointwise(spec_apply_one(data, changes.first()), changes.drop_first());
    }
}

/// A patch list with `n` entries mutates at most `n` bytes: every changed
/// byte lies at one of the at most `n` distinct offsets the list names.
pub proof fn lemma_byte_patch_bounded(data: Seq<u8>, changes: Seq<ByteChange>)
    ensures
        spec_apply_changes(data, changes).len() == data.len(),
        forall|i: int|
            0 <= i < data.len() && !spec_offsets(changes).contains(i)
                ==> #[trigger] spec_apply_changes(data, changes)[i] == data[i],
        spec_offsets(changes).finite(),
        spec_offsets(changes).len() <= changes.len(),
    decreases changes.len(),
{
    lemma_apply_changes_pointwise(data, changes);
    let offs = changes.map_values(|c: ByteChange| c.offset as int);
    seq_to_set_is_finite(offs);
    offs.lemma_cardinality_of_set();
    assert forall|i: int|
        0 <= i < data.len() && !spec_offsets(changes).contains(i) implies #[trigger] spec_apply_changes(
        data,
        changes,
    )[i] == data[i] by {
        lemma_last_write_offset(changes, i);
    }
}

/// A byte that no patch names keeps its value.
proof fn lemma_last_write_offset(changes: Seq<ByteChange>, off: int)
    requires
        !spec_offsets(changes).contains(off),
    ensures
        spec_last_write(changes, off) is None,
    decreases changes.len(),
{
    let offs = changes.map_values(|c: ByteChange| c.offset as int);
    if changes.len() > 0 {
        assert(offs[0] == changes.first().offset as int);
        assert(changes.drop_first().map_values(|c: ByteChange| c.offset as int)
            =~= offs.drop_first());
        assert forall|x: int| offs.drop_first().to_set().contains(x) implies offs.to_set().contains(
            x,
        ) by {
            let k = choose|k: int| 0 <= k < offs.drop_first().len() && offs.drop_first()[k] == x;
            assert(offs[k + 1] == x);
        }
        lemma_last_write_offset(changes.drop_first(), off);
    }
}

/// Applying the same patch list twice gives the same data as applying it
/// once.
pub proof fn lemma_byte_patch_idempotent(data: Seq<u8>, changes: Seq<ByteChange>)
    ensures
        spec_apply_changes(spec_apply_changes(data, changes), changes) == spec_apply_changes(
            data,
            changes,
        ),
{
    let once = spec_apply_changes(data, changes);
    lemma_apply_changes_pointwise(data, changes);
    lemma_apply_changes_pointwise(once, changes);
    assert(spec_apply_changes(once, changes) =~= once);
}

proof fn lemma_apply_changes_push(data: Seq<u8>, changes: Seq<ByteChange>, c: ByteChange)
    ensures
        spec_apply_changes(data, changes.push(c)) == spec_apply_one(
            spec_apply_changes(data, changes),
            c,
        ),
    decreases changes.len(),
{
    let pushed = changes.push(c);
    assert(pushed.len() == changes.len() + 1);
    if changes.len() == 0 {
        assert(pushed.first() == c);
        assert(pushed.drop_first() =~= Seq::<ByteChange>::empty());
        assert(spec_apply_changes(data, pushed) == spec_apply_changes(
            spec_apply_one(data, c),
            pushed.drop_first(),
        ));
        assert(spec_apply_changes(data, changes) == data);
    } else {
        assert(pushed.first() == changes.first());
        assert(pushed.drop_first() =~= changes.drop_first().push(c));
        lemma_apply_changes_push(spec_apply_one(data, changes.first()), changes.drop_first(), c);
        assert(spec_apply_changes(data, pushed) == spec_apply_changes(
            spec_apply_one(data, changes.first()),
            changes.drop_first().push(c),
        ));
        assert(spec_apply_changes(data, changes) == spec_apply_changes(
            spec_apply_one(data, changes.first()),
            changes.drop_first(),
        ));
    }
}

impl ByteChanges {
    /// Build a patch list from `(offset, new value)` pairs, in order.
    pub fn from_slice(changes: &[(u64, u8)]) -> (r: Self)
        ensures
            r.changes@.len() == changes@.len(),
            forall|i: int|
                0 <= i < changes@.len() ==> #[trigger] r.changes@[i] == (ByteChange {
                    offset: changes@[i].0,
                    new_value: changes@[i].1,
                }),
    {
        let mut out: Vec<ByteChange> = Vec::new();
        let n = changes.len();
        let mut i: usize = 0;
        while i < n
            invariant
                n == changes@.len(),
                i <= n,
                out@.len() == i,
                forall|k: int|
                    0 <= k < i ==> #[trigger] out@[k] == (ByteChange {
                        offset: changes@[k].0,
                        new_value: changes@[k].1,
                    }),
            decreases n - i,
        {
            let (offset, new_value) = changes[i];
            out.push(ByteChange { offset, new_value });
            i += 1;
        }
        ByteChanges { changes: out }
    }

    /// Apply the patches to in-memory data, in order; later writes to the
    /// same offset win, and writes past the end are ignored.
    pub fn apply(&self, data: &mut Vec<u8>)
        ensures
            final(data)@ == spec_apply_changes(old(data)@, self.changes@),
            final(data)@.len() == old(data)@.len(),
    {
        proof {
            lemma_apply_changes_pointwise(old(data)@, self.changes@);
            assert(self.changes@.take(0) =~= Seq::<ByteChange>::empty());
        }
        let n = self.changes.len();
        let mut i: usize = 0;
        while i < n
            invariant
                n == self.changes@.len(),
                i <= n,
                data@.len() == old(data)@.len(),
                data@ == spec_apply_changes(old(data)@, self.changes@.take(i as int)),
            decreases n - i,
        {
            let c = self.changes[i];
            if c.offset < data.len() as u64 {
                let off = c.offset as usize;
                data.set(off, c.new_value);
            }
            proof {
                lemma_apply_changes_push(old(data)@, self.changes@.take(i as int), self.changes@[
                i as int]);
                assert(self.changes@.take(i + 1) =~= self.changes@.take(i as int).push(
                    self.changes@[i as int],
                ));
            }
            i += 1;
        }
        proof {
            assert(self.changes@.take(n as int) =~= self.changes@);
        }
    }
}

/// An image change that is potentially sparse.
#[derive(Debug, Clone, PartialEq, Eq)]
pub enum SparseEdit {
    /// The operations can be applied to the image by only changing a few
    /// bytes.
    Sparse(ByteChanges),
    /// The operations require a complete rewrite of the image.
    Complete(BinaryData),
}

impl SparseEdit {
    /// Classify an editor's reply, refusing one that carries both a patch
    /// list and replacement data, or neither.
    pub fn try_from(value: SparseEditorOutput) -> (r: Result<Self, Error>)
        ensures
            r is Ok <==> value.spec_wf(),
            (match r {
                Ok(edit) => match edit {
                    SparseEdit::Sparse(bc) => value.byte_changes == Some(bc),
                    SparseEdit::Complete(d) => value.byte_changes is None && value.data == Some(
                        d,
                    ),
                },
                Err(e) => e matches Error::RemoteError(RemoteError::InternalLoaderError(m)) && (
                if value.byte_changes is Some {
                    m@ == "both 'byte_changes' and 'data' returned"@
                } else {
                    m@ == "neither 'byte_changes' nor 'data' returned"@
                }),
            }),
    {
        if value.byte_changes.is_some() && value.data.is_some() {
            Err(
                Error::RemoteError(
                    RemoteError::InternalLoaderError(
                        "both 'byte_changes' and 'data' returned".to_owned(),
                    ),
                ),
            )
        } else if let Some(byte_changes) = value.byte_changes {
            Ok(Self::Sparse(byte_changes))
        } else if let Some(data) = value.data {
            Ok(Self::Complete(data))
        } else {
            Err(
                Error::RemoteError(
                    RemoteError::InternalLoaderError(
                        "neither 'byte_changes' nor 'data' returned".to_owned(),
                    ),
                ),
            )
        }
    }
}

/// A finished complete edit: the new image and whether it was lossless.
#[derive(Debug, Clone, Copy, PartialEq, Eq, Structural)]
pub struct Edit {
    pub data: BinaryData,
    pub info: EditorOutputInfo,
}

impl Edit {
    pub fn new(data: BinaryData, info: EditorOutputInfo) -> (r: Self)
        ensures
            r.data == data,
            r.info == info,
    {
        Edit { data, info }
    }

    pub fn data(&self) -> (r: BinaryData)
        ensures
            r == self.data,
    {
        self.data
    }

    pub fn is_lossless(&self) -> (r: bool)
        ensures
            r == self.info.lossless,
    {
        self.info.lossless
    }
}

/// Whether an image could be changed via the chosen method.
#[must_use]
#[derive(Debug, Clone, Copy, PartialEq, Eq, Structural)]
pub enum EditOutcome {
    Changed,
    Unchanged,
}

} // verus!
