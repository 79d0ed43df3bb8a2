use glycin::{
    BinaryData, ByteChange, ByteChanges, CompleteEditorOutput, Edit, EditOutcome,
    EditorOutputInfo, Error, RemoteError, SparseEdit, SparseEditorOutput,
};

#[test]
fn byte_patch_application() {
    // SparseEditorOutput { byte_changes: [(12, 0x01)], data: None } applied to
    // data whose byte 12 is 0x08: byte 12 becomes 0x01, all others unchanged.
    let output = SparseEditorOutput::byte_changes(ByteChanges::from_slice(&[(12, 0x01)]));
    let edit = SparseEdit::try_from(output).unwrap();
    let changes = match edit {
        SparseEdit::Sparse(changes) => changes,
        SparseEdit::Complete(_) => panic!("expected sparse changes"),
    };

    let mut data: Vec<u8> = (0..20).map(|i| if i == 12 { 0x08 } else { i as u8 }).collect();
    let before = data.clone();
    changes.apply(&mut data);

    assert_eq!(data[12], 0x01);
    for i in 0..20 {
        if i != 12 {
            assert_eq!(data[i], before[i]);
        }
    }
}

#[test]
fn byte_patch_later_write_wins() {
    let changes = ByteChanges::from_slice(&[(1, 10), (1, 20), (3, 7)]);
    let mut data = vec![0u8; 4];
    changes.apply(&mut data);
    assert_eq!(data, vec![0, 20, 0, 7]);
}

#[test]
fn byte_patch_out_of_range_is_ignored() {
    let changes = ByteChanges::from_slice(&[(100, 10), (1, 3)]);
    let mut data = vec![0u8; 4];
    changes.apply(&mut data);
    assert_eq!(data, vec![0, 3, 0, 0]);
}

#[test]
fn byte_patch_reapplication_is_idempotent() {
    let changes = ByteChanges::from_slice(&[(0, 1), (2, 9), (0, 5), (9, 9)]);
    let mut data = vec![7u8; 8];
    changes.apply(&mut data);
    let once = data.clone();
    changes.apply(&mut data);
    assert_eq!(data, once);
}

#[test]
fn from_slice_keeps_order() {
    let changes = ByteChanges::from_slice(&[(5, 1), (2, 0)]);
    assert_eq!(changes.changes.len(), 2);
    assert_eq!(changes.changes[0], ByteChange { offset: 5, new_value: 1 });
    assert_eq!(changes.changes[1], ByteChange { offset: 2, new_value: 0 });
}

#[test]
fn sparse_output_constructors_carry_one_source() {
    let sparse = SparseEditorOutput::byte_changes(ByteChanges::from_slice(&[(0, 1)]));
    assert!(sparse.byte_changes.is_some());
    assert!(sparse.data.is_none());
    assert!(sparse.info.lossless);

    let complete = CompleteEditorOutput::new(BinaryData::new(9));
    assert!(!complete.info.lossless);
    let wrapped = SparseEditorOutput::from(complete);
    assert!(wrapped.byte_changes.is_none());
    assert_eq!(wrapped.data, Some(BinaryData::new(9)));
    assert!(!wrapped.info.lossless);
}

#[test]
fn classification_accepts_exactly_one_source() {
    let sparse = SparseEditorOutput::byte_changes(ByteChanges::from_slice(&[(4, 2)]));
    match SparseEdit::try_from(sparse).unwrap() {
        SparseEdit::Sparse(changes) => {
            assert_eq!(changes.changes, vec![ByteChange { offset: 4, new_value: 2 }]);
        },
        SparseEdit::Complete(_) => panic!("expected sparse changes"),
    }

    let complete = SparseEditorOutput {
        byte_changes: None,
        data: Some(BinaryData::new(11)),
        info: EditorOutputInfo::default(),
    };
    match SparseEdit::try_from(complete).unwrap() {
        SparseEdit::Complete(data) => assert_eq!(data, BinaryData::new(11)),
        SparseEdit::Sparse(_) => panic!("expected complete data"),
    }
}

#[test]
fn classification_rejects_both_sources() {
    let both = SparseEditorOutput {
        byte_changes: Some(ByteChanges::from_slice(&[(0, 0)])),
        data: Some(BinaryData::new(5)),
        info: EditorOutputInfo::default(),
    };
    match SparseEdit::try_from(both) {
        Err(Error::RemoteError(RemoteError::InternalLoaderError(msg))) => {
            assert_eq!(msg, "both 'byte_changes' and 'data' returned");
        },
        other => panic!("expected an internal loader error, got {:?}", other),
    }
}

#[test]
fn classification_rejects_neither_source() {
    let neither = SparseEditorOutput {
        byte_changes: None,
        data: None,
        info: EditorOutputInfo::default(),
    };
    match SparseEdit::try_from(neither) {
        Err(Error::RemoteError(RemoteError::InternalLoaderError(msg))) => {
            assert_eq!(msg, "neither 'byte_changes' nor 'data' returned");
        },
        other => panic!("expected an internal loader error, got {:?}", other),
    }
}

#[test]
fn edit_accessors() {
    let edit = Edit::new(BinaryData::new(3), EditorOutputInfo { lossless: true });
    assert_eq!(edit.data(), BinaryData::new(3));
    assert!(edit.is_lossless());
    assert_eq!(EditOutcome::Changed, EditOutcome::Changed);
    assert_ne!(EditOutcome::Changed, EditOutcome::Unchanged);
}
