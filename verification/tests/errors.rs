use btrfsutil_errors::{BtrfsUtilError, GlueError, LibError};

fn all_variants() -> Vec<LibError> {
    vec![
        LibError::Success,
        LibError::StopIteration,
        LibError::NoMemory,
        LibError::InvalidArgument,
        LibError::NotBtrfs,
        LibError::NotSubvolume,
        LibError::SubvolumeNotFound,
        LibError::OpenFailed,
        LibError::RmdirFailed,
        LibError::UnlinkFailed,
        LibError::StatFailed,
        LibError::StatfsFailed,
        LibError::SearchFailed,
        LibError::InoLookupFailed,
        LibError::SubvolGetflagsFailed,
        LibError::SubvolSetflagsFailed,
        LibError::SubvolCreateFailed,
        LibError::SnapCreateFailed,
        LibError::SnapDestroyFailed,
        LibError::DefaultSubvolFailed,
        LibError::SyncFailed,
        LibError::StartSyncFailed,
        LibError::WaitSyncFailed,
        LibError::GetSubvolInfoFailed,
        LibError::GetSubvolRootrefFailed,
        LibError::InoLookupUserFailed,
        LibError::FsInfoFailed,
    ]
}

#[test]
fn from_code_succeeds_on_every_valid_code() {
    let variants = all_variants();
    assert_eq!(variants.len(), 27);
    for (i, expected) in variants.iter().enumerate() {
        let code: u32 = i as u32;
        assert_eq!(LibError::try_from(code), Ok(*expected));
    }
}

#[test]
fn codes_cover_the_range_without_repeats() {
    let variants = all_variants();
    for (i, v) in variants.iter().enumerate() {
        let code: u32 = v.code();
        assert_eq!(code, i as u32);
    }
}

#[test]
fn from_code_fails_outside_the_range() {
    for code in [27u32, 28, 99, 1000, u32::MAX] {
        assert_eq!(
            LibError::try_from(code),
            Err(BtrfsUtilError::Glue(GlueError::UnknownErrno(code)))
        );
    }
}

#[test]
fn round_trip_through_code() {
    for v in all_variants() {
        assert_eq!(LibError::try_from(v.code()), Ok(v));
    }
}

#[test]
fn messages_are_nonempty_and_distinct() {
    let messages: Vec<String> = all_variants().iter().map(|v| v.message()).collect();
    for m in &messages {
        assert!(!m.is_empty());
    }
    for i in 0..messages.len() {
        for j in 0..messages.len() {
            if i != j {
                assert_ne!(messages[i], messages[j]);
            }
        }
    }
}

#[test]
fn exact_messages() {
    assert_eq!(LibError::Success.message(), "Success");
    assert_eq!(LibError::NotSubvolume.message(), "Not a Btrfs subvolume");
    assert_eq!(LibError::SearchFailed.message(), "Could not search B-tree");
    assert_eq!(
        LibError::FsInfoFailed.message(),
        "Could not get filesystem information"
    );
}

#[test]
fn success_scenario() {
    let v = LibError::try_from(0u32).unwrap();
    assert_eq!(v, LibError::Success);
    let described = v.strerror(Some(b"Success".to_vec()));
    assert_eq!(described, Ok("Success".to_string()));
    assert_eq!(LibError::try_from(4u32), Ok(LibError::NotBtrfs));
    assert_eq!(
        LibError::try_from(99u32),
        Err(BtrfsUtilError::Glue(GlueError::UnknownErrno(99)))
    );
}

#[test]
fn strerror_reports_a_null_description() {
    assert_eq!(
        LibError::OpenFailed.strerror(None),
        Err(BtrfsUtilError::Glue(GlueError::NullPointerReceived))
    );
}

#[test]
fn strerror_reports_bytes_that_are_not_text() {
    let bad: Vec<u8> = vec![0xff, 0xfe, 0x41];
    assert_eq!(
        LibError::OpenFailed.strerror(Some(bad)),
        Err(BtrfsUtilError::Glue(GlueError::Utf8Error))
    );
}

#[test]
fn strerror_decodes_what_the_lookup_returned() {
    let text = "No such subvolume: \u{00e9}tat";
    let r = LibError::SubvolumeNotFound.strerror(Some(text.as_bytes().to_vec()));
    assert_eq!(r, Ok(text.to_string()));
}

#[test]
fn native_error_wraps_into_the_shared_error() {
    let wrapped: BtrfsUtilError = LibError::SyncFailed.into();
    assert_eq!(wrapped, BtrfsUtilError::Lib(LibError::SyncFailed));
    assert_eq!(
        BtrfsUtilError::from(LibError::NotBtrfs),
        BtrfsUtilError::Lib(LibError::NotBtrfs)
    );
}
