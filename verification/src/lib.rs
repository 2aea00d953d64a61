//! Typed view of the error codes of the `libbtrfsutil` C library.
//!
//! The native library reports outcomes as small non-negative integers and
//! offers a lookup from a code to a constant, library-owned description
//! string. This crate mirrors those codes as a closed enumeration
//! ([`LibError`]), converts raw integers to variants fallibly
//! (`LibError::try_from`), carries a static one-line message for each variant
//! ([`LibError::message`]), and validates what the native lookup returns
//! ([`LibError::strerror`]). The foreign call itself crosses an FFI boundary
//! and lives with the caller; this crate only receives the bytes it produced.

use vstd::prelude::*;
use vstd::utf8::{decode_utf8, valid_utf8};

verus! {

/// Error code returned by the `libbtrfsutil` C library.
pub type LibErrorCode = u32;

/// Errors that can be raised by the `libbtrfsutil` C library itself.
///
/// The variants mirror the native library's error constants one to one:
/// [`code_of`] gives each variant its native code, and the mapping is a
/// bijection with the range `0 ..= 26` ([`lemma_round_trip`],
/// [`lemma_code_of_variant`]).
#[derive(Clone, Copy, Debug, PartialEq, Eq, Structural)]
pub enum LibError {
    /// Success
    Success,
    /// Stop iteration
    StopIteration,
    /// Cannot allocate memory
    NoMemory,
    /// Invalid argument
    InvalidArgument,
    /// Not a Btrfs filesystem
    NotBtrfs,
    /// Not a Btrfs subvolume
    NotSubvolume,
    /// Subvolume not found
    SubvolumeNotFound,
    /// Could not open
    OpenFailed,
    /// Could not rmdir
    RmdirFailed,
    /// Could not unlink
    UnlinkFailed,
    /// Could not stat
    StatFailed,
    /// Could not statfs
    StatfsFailed,
    /// Could not search B-tree
    SearchFailed,
    /// Could not lookup inode
    InoLookupFailed,
    /// Could not get subvolume flags
    SubvolGetflagsFailed,
    /// Could not set subvolume flags
    SubvolSetflagsFailed,
    /// Could not create subvolume
    SubvolCreateFailed,
    /// Could not create snapshot
    SnapCreateFailed,
    /// Could not destroy subvolume/snapshot
    SnapDestroyFailed,
    /// Could not set default subvolume
    DefaultSubvolFailed,
    /// Could not sync filesystem
    SyncFailed,
    /// Could not start filesystem sync
    StartSyncFailed,
    /// Could not wait for filesystem sync
    WaitSyncFailed,
    /// Could not get subvolume information with BTRFS_IOC_GET_SUBVOL_INFO
    GetSubvolInfoFailed,
    /// Could not get rootref information with BTRFS_IOC_GET_SUBVOL_ROOTREF
    GetSubvolRootrefFailed,
    /// Could not resolve subvolume path with BTRFS_IOC_INO_LOOKUP_USER
    InoLookupUserFailed,
    /// Could not get filesystem information
    FsInfoFailed,
}

/// Failures of the binding layer itself: a code with no variant, or a
/// malformed description from the native lookup.
#[derive(Clone, Copy, Debug, PartialEq, Eq, Structural)]
pub enum GlueError {
    /// The integer code matches no variant of [`LibError`].
    UnknownErrno(LibErrorCode),
    /// The native lookup returned no description at all.
    NullPointerReceived,
    /// The native lookup returned bytes that are not valid UTF-8.
    Utf8Error,
}

/// Any error this crate reports: a native error wrapped as a value, or a
/// failure of the binding layer.
#[derive(Clone, Copy, Debug, PartialEq, Eq, Structural)]
pub enum BtrfsUtilError {
    /// An error raised by the native library, carried as a typed value.
    Lib(LibError),
    /// A failure of the binding layer.
    Glue(GlueError),
}

/// The native integer code of a variant.
pub open spec fn code_of(e: LibError) -> LibErrorCode {
    match e {
        LibError::Success => 0,
        LibError::StopIteration => 1,
        LibError::NoMemory => 2,
        LibError::InvalidArgument => 3,
        LibError::NotBtrfs => 4,
        LibError::NotSubvolume => 5,
        LibError::SubvolumeNotFound => 6,
        LibError::OpenFailed => 7,
        LibError::RmdirFailed => 8,
        LibError::UnlinkFailed => 9,
        LibError::StatFailed => 10,
        LibError::StatfsFailed => 11,
        LibError::SearchFailed => 12,
        LibError::InoLookupFailed => 13,
        LibError::SubvolGetflagsFailed => 14,
        LibError::SubvolSetflagsFailed => 15,
        LibError::SubvolCreateFailed => 16,
        LibError::SnapCreateFailed => 17,
        LibError::SnapDestroyFailed => 18,
        LibError::DefaultSubvolFailed => 19,
        LibError::SyncFailed => 20,
        LibError::StartSyncFailed => 21,
        LibError::WaitSyncFailed => 22,
        LibError::GetSubvolInfoFailed => 23,
        LibError::GetSubvolRootrefFailed => 24,
        LibError::InoLookupUserFailed => 25,
        LibError::FsInfoFailed => 26,
    }
}

/// The variant assigned to a native code; meaningful for codes in
/// `0 ..= 26`, where it inverts [`code_of`].
pub open spec fn variant_of(code: LibErrorCode) -> LibError {
    if code == 0 {
        LibError::Success
    } else if code == 1 {
        LibError::StopIteration
    } else if code == 2 {
        LibError::NoMemory
    } else if code == 3 {
        LibError::InvalidArgument
    } else if code == 4 {
        LibError::NotBtrfs
    } else if code == 5 {
        LibError::NotSubvolume
    } else if code == 6 {
        LibError::SubvolumeNotFound
    } else if code == 7 {
        LibError::OpenFailed
    } else if code == 8 {
        LibError::RmdirFailed
    } else if code == 9 {
        LibError::UnlinkFailed
    } else if code == 10 {
        LibError::StatFailed
    } else if code == 11 {
        LibError::StatfsFailed
    } else if code == 12 {
        LibError::SearchFailed
    } else if code == 13 {
        LibError::InoLookupFailed
    } else if code == 14 {
        LibError::SubvolGetflagsFailed
    } else if code == 15 {
        LibError::SubvolSetflagsFailed
    } else if code == 16 {
        LibError::SubvolCreateFailed
    } else if code == 17 {
        LibError::SnapCreateFailed
    } else if code == 18 {
        LibError::SnapDestroyFailed
    } else if code == 19 {
        LibError::DefaultSubvolFailed
    } else if code == 20 {
        LibError::SyncFailed
    } else if code == 21 {
        LibError::StartSyncFailed
    } else if code == 22 {
        LibError::WaitSyncFailed
    } else if code == 23 {
        LibError::GetSubvolInfoFailed
    } else if code == 24 {
        LibError::GetSubvolRootrefFailed
    } else if code == 25 {
        LibError::InoLookupUserFailed
    } else {
        LibError::FsInfoFailed
    }
}

impl LibError {
    /// The native integer code of this variant.
    pub fn code(&self) -> (c: LibErrorCode)
        ensures
            c == code_of(*self),
    {
        match self {
            LibError::Success => 0,
            LibError::StopIteration => 1,
            LibError::NoMemory => 2,
            LibError::InvalidArgument => 3,
            LibError::NotBtrfs => 4,
            LibError::NotSubvolume => 5,
            LibError::SubvolumeNotFound => 6,
            LibError::OpenFailed => 7,
            LibError::RmdirFailed => 8,
            LibError::UnlinkFailed => 9,
            LibError::StatFailed => 10,
            LibError::StatfsFailed => 11,
            LibError::SearchFailed => 12,
            LibError::InoLookupFailed => 13,
            LibError::SubvolGetflagsFailed => 14,
            LibError::SubvolSetflagsFailed => 15,
            LibError::SubvolCreateFailed => 16,
            LibError::SnapCreateFailed => 17,
            LibError::SnapDestroyFailed => 18,
            LibError::DefaultSubvolFailed => 19,
            LibError::SyncFailed => 20,
            LibError::StartSyncFailed => 21,
            LibError::WaitSyncFailed => 22,
            LibError::GetSubvolInfoFailed => 23,
            LibError::GetSubvolRootrefFailed => 24,
            LibError::InoLookupUserFailed => 25,
            LibError::FsInfoFailed => 26,
        }
    }
}

impl LibError {
    /// The static one-line message of a variant: the text a caller gets
    /// without crossing the foreign boundary.
    pub open spec fn message_spec(self) -> Seq<char> {
        match self {
            LibError::Success => "Success"@,
            LibError::StopIteration => "Stop iteration"@,
            LibError::NoMemory => "Cannot allocate memory"@,
            LibError::InvalidArgument => "Invalid argument"@,
            LibError::NotBtrfs => "Not a Btrfs filesystem"@,
            LibError::NotSubvolume => "Not a Btrfs subvolume"@,
            LibError::SubvolumeNotFound => "Subvolume not found"@,
            LibError::OpenFailed => "Could not open"@,
            LibError::RmdirFailed => "Could not rmdir"@,
            LibError::UnlinkFailed => "Could not unlink"@,
            LibError::StatFailed => "Could not stat"@,
            LibError::StatfsFailed => "Could not statfs"@,
            LibError::SearchFailed => "Could not search B-tree"@,
            LibError::InoLookupFailed => "Could not lookup inode"@,
            LibError::SubvolGetflagsFailed => "Could not get subvolume flags"@,
            LibError::SubvolSetflagsFailed => "Could not set subvolume flags"@,
            LibError::SubvolCreateFailed => "Could not create subvolume"@,
            LibError::SnapCreateFailed => "Could not create snapshot"@,
            LibError::SnapDestroyFailed => "Could not destroy subvolume/snapshot"@,
            LibError::DefaultSubvolFailed => "Could not set default subvolume"@,
            LibError::SyncFailed => "Could not sync filesystem"@,
            LibError::StartSyncFailed => "Could not start filesystem sync"@,
            LibError::WaitSyncFailed => "Could not wait for filesystem sync"@,
            LibError::GetSubvolInfoFailed => "Could not get subvolume information with BTRFS_IOC_GET_SUBVOL_INFO"@,
            LibError::GetSubvolRootrefFailed => "Could not get rootref information with BTRFS_IOC_GET_SUBVOL_ROOTREF"@,
            LibError::InoLookupUserFailed => "Could not resolve subvolume path with BTRFS_IOC_INO_LOOKUP_USER"@,
            LibError::FsInfoFailed => "Could not get filesystem information"@,
        }
    }

    /// The static one-line message of this variant, usable when calling into
    /// the native library is undesirable or impossible.
    pub fn message(&self) -> (s: String)
        ensures
            s@ == self.message_spec(),
    {
        match self {
            LibError::Success => "Success".to_owned(),
            LibError::StopIteration => "Stop iteration".to_owned(),
            LibError::NoMemory => "Cannot allocate memory".to_owned(),
            LibError::InvalidArgument => "Invalid argument".to_owned(),
            LibError::NotBtrfs => "Not a Btrfs filesystem".to_owned(),
            LibError::NotSubvolume => "Not a Btrfs subvolume".to_owned(),
            LibError::SubvolumeNotFound => "Subvolume not found".to_owned(),
            LibError::OpenFailed => "Could not open".to_owned(),
            LibError::RmdirFailed => "Could not rmdir".to_owned(),
            LibError::UnlinkFailed => "Could not unlink".to_owned(),
            LibError::StatFailed => "Could not stat".to_owned(),
            LibError::StatfsFailed => "Could not statfs".to_owned(),
            LibError::SearchFailed => "Could not search B-tree".to_owned(),
            LibError::InoLookupFailed => "Could not lookup inode".to_owned(),
            LibError::SubvolGetflagsFailed => "Could not get subvolume flags".to_owned(),
            LibError::SubvolSetflagsFailed => "Could not set subvolume flags".to_owned(),
            LibError::SubvolCreateFailed => "Could not create subvolume".to_owned(),
            LibError::SnapCreateFailed => "Could not create snapshot".to_owned(),
            LibError::SnapDestroyFailed => "Could not destroy subvolume/snapshot".to_owned(),
            LibError::DefaultSubvolFailed => "Could not set default subvolume".to_owned(),
            LibError::SyncFailed => "Could not sync filesystem".to_owned(),
            LibError::StartSyncFailed => "Could not start filesystem sync".to_owned(),
            LibError::WaitSyncFailed => "Could not wait for filesystem sync".to_owned(),
            LibError::GetSubvolInfoFailed => "Could not get subvolume information with BTRFS_IOC_GET_SUBVOL_INFO".to_owned(),
            LibError::GetSubvolRootrefFailed => "Could not get rootref information with BTRFS_IOC_GET_SUBVOL_ROOTREF".to_owned(),
            LibError::InoLookupUserFailed => "Could not resolve subvolume path with BTRFS_IOC_INO_LOOKUP_USER".to_owned(),
            LibError::FsInfoFailed => "Could not get filesystem information".to_owned(),
        }
    }
}

/// Relies on `String::from_utf8`: it succeeds exactly on input that is valid
/// UTF-8, and then returns the string those bytes encode.
#[verifier::external_body]
fn utf8_to_string(bytes: Vec<u8>) -> (r: Option<String>)
    ensures
        r is Some <==> valid_utf8(bytes@),
        r matches Some(s) ==> s@ == decode_utf8(bytes@),
{
    String::from_utf8(bytes).ok()
}

impl LibError {
    /// The description that the native library's string lookup produced for
    /// this error, validated.
    ///
    /// The caller performs the foreign call (given a code, the native library
    /// returns a pointer to a constant description string, or null for an
    /// unrecognized code) and hands over the pointed-to bytes, or `None` for
    /// a null pointer. A null is reported as `NullPointerReceived`, bytes
    /// that are not valid UTF-8 as `Utf8Error`, and anything else is decoded
    /// and returned.
    pub fn strerror(&self, lookup: Option<Vec<u8>>) -> (r: Result<String, BtrfsUtilError>)
        ensures
            lookup is None ==> r == Err::<String, BtrfsUtilError>(
                BtrfsUtilError::Glue(GlueError::NullPointerReceived),
            ),
            lookup matches Some(bytes) ==> (if valid_utf8(bytes@) {
                r matches Ok(s) && s@ == decode_utf8(bytes@)
            } else {
                r == Err::<String, BtrfsUtilError>(BtrfsUtilError::Glue(GlueError::Utf8Error))
            }),
    {
        match lookup {
            None => Err(BtrfsUtilError::Glue(GlueError::NullPointerReceived)),
            Some(bytes) => match utf8_to_string(bytes) {
                Some(s) => Ok(s),
                None => Err(BtrfsUtilError::Glue(GlueError::Utf8Error)),
            },
        }
    }
}

impl From<LibError> for BtrfsUtilError {
    /// A native error, wrapped for callers that mix both error sources.
    fn from(e: LibError) -> Self {
        BtrfsUtilError::Lib(e)
    }
}

impl vstd::std_specs::convert::FromSpecImpl<LibError> for BtrfsUtilError {
    open spec fn obeys_from_spec() -> bool {
        true
    }

    open spec fn from_spec(e: LibError) -> Self {
        BtrfsUtilError::Lib(e)
    }
}

impl TryFrom<LibErrorCode> for LibError {
    type Error = BtrfsUtilError;

    /// The unique variant whose native code is `errno`, or
    /// `GlueError::UnknownErrno` for a code outside `0 ..= 26`.
    fn try_from(errno: LibErrorCode) -> Result<Self, Self::Error> {
        if errno > 26 {
            return Err(BtrfsUtilError::Glue(GlueError::UnknownErrno(errno)));
        }
        match errno {
            0 => Ok(LibError::Success),
            1 => Ok(LibError::StopIteration),
            2 => Ok(LibError::NoMemory),
            3 => Ok(LibError::InvalidArgument),
            4 => Ok(LibError::NotBtrfs),
            5 => Ok(LibError::NotSubvolume),
            6 => Ok(LibError::SubvolumeNotFound),
            7 => Ok(LibError::OpenFailed),
            8 => Ok(LibError::RmdirFailed),
            9 => Ok(LibError::UnlinkFailed),
            10 => Ok(LibError::StatFailed),
            11 => Ok(LibError::StatfsFailed),
            12 => Ok(LibError::SearchFailed),
            13 => Ok(LibError::InoLookupFailed),
            14 => Ok(LibError::SubvolGetflagsFailed),
            15 => Ok(LibError::SubvolSetflagsFailed),
            16 => Ok(LibError::SubvolCreateFailed),
            17 => Ok(LibError::SnapCreateFailed),
            18 => Ok(LibError::SnapDestroyFailed),
            19 => Ok(LibError::DefaultSubvolFailed),
            20 => Ok(LibError::SyncFailed),
            21 => Ok(LibError::StartSyncFailed),
            22 => Ok(LibError::WaitSyncFailed),
            23 => Ok(LibError::GetSubvolInfoFailed),
            24 => Ok(LibError::GetSubvolRootrefFailed),
            25 => Ok(LibError::InoLookupUserFailed),
            26 => Ok(LibError::FsInfoFailed),
            _ => Err(BtrfsUtilError::Glue(GlueError::UnknownErrno(errno))),
        }
    }
}

impl vstd::std_specs::convert::TryFromSpecImpl<LibErrorCode> for LibError {
    open spec fn obeys_try_from_spec() -> bool {
        true
    }

    open spec fn try_from_spec(errno: LibErrorCode) -> Result<Self, Self::Error> {
        if errno <= 26 {
            Ok(variant_of(errno))
        } else {
            Err(BtrfsUtilError::Glue(GlueError::UnknownErrno(errno)))
        }
    }
}

/// Every variant's native code lies in `0 ..= 26`.
pub proof fn lemma_code_in_range(e: LibError)
    ensures
        code_of(e) <= 26,
{
}

/// Converting a variant's own code back to a variant returns that variant:
/// [`variant_of`] is a left inverse of [`code_of`], so `try_from(code_of(e))`
/// is `Ok(e)` for every variant `e`.
pub proof fn lemma_round_trip(e: LibError)
    ensures
        variant_of(code_of(e)) == e,
{
}

/// Every code in `0 ..= 26` is the code of the variant assigned to it:
/// [`code_of`] is surjective onto `0 ..= 26`.
pub proof fn lemma_code_of_variant(code: LibErrorCode)
    requires
        code <= 26,
    ensures
        code_of(variant_of(code)) == code,
{
}

/// No two distinct variants share a native code: [`code_of`] is injective.
pub proof fn lemma_code_injective(a: LibError, b: LibError)
    requires
        code_of(a) == code_of(b),
    ensures
        a == b,
{
    lemma_round_trip(a);
    lemma_round_trip(b);
}

/// Every variant's static message is non-empty.
pub proof fn lemma_message_nonempty(e: LibError)
    ensures
        e.message_spec().len() > 0,
{
    reveal_strlit("Success");
    reveal_strlit("Stop iteration");
    reveal_strlit("Cannot allocate memory");
    reveal_strlit("Invalid argument");
    reveal_strlit("Not a Btrfs filesystem");
    reveal_strlit("Not a Btrfs subvolume");
    reveal_strlit("Subvolume not found");
    reveal_strlit("Could not open");
    reveal_strlit("Could not rmdir");
    reveal_strlit("Could not unlink");
    reveal_strlit("Could not stat");
    reveal_strlit("Could not statfs");
    reveal_strlit("Could not search B-tree");
    reveal_strlit("Could not lookup inode");
    reveal_strlit("Could not get subvolume flags");
    reveal_strlit("Could not set subvolume flags");
    reveal_strlit("Could not create subvolume");
    reveal_strlit("Could not create snapshot");
    reveal_strlit("Could not destroy subvolume/snapshot");
    reveal_strlit("Could not set default subvolume");
    reveal_strlit("Could not sync filesystem");
    reveal_strlit("Could not start filesystem sync");
    reveal_strlit("Could not wait for filesystem sync");
    reveal_strlit("Could not get subvolume information with BTRFS_IOC_GET_SUBVOL_INFO");
    reveal_strlit("Could not get rootref information with BTRFS_IOC_GET_SUBVOL_ROOTREF");
    reveal_strlit("Could not resolve subvolume path with BTRFS_IOC_INO_LOOKUP_USER");
    reveal_strlit("Could not get filesystem information");
}

/// No two distinct variants share a static message: a message identifies
/// its variant.
pub proof fn lemma_messages_distinct(a: LibError, b: LibError)
    requires
        a != b,
    ensures
        a.message_spec() != b.message_spec(),
{
    reveal_strlit("Success");
    reveal_strlit("Stop iteration");
    reveal_strlit("Cannot allocate memory");
    reveal_strlit("Invalid argument");
    reveal_strlit("Not a Btrfs filesystem");
    reveal_strlit("Not a Btrfs subvolume");
    reveal_strlit("Subvolume not found");
    reveal_strlit("Could not open");
    reveal_strlit("Could not rmdir");
    reveal_strlit("Could not unlink");
    reveal_strlit("Could not stat");
    reveal_strlit("Could not statfs");
    reveal_strlit("Could not search B-tree");
    reveal_strlit("Could not lookup inode");
    reveal_strlit("Could not get subvolume flags");
    reveal_strlit("Could not set subvolume flags");
    reveal_strlit("Could not create subvolume");
    reveal_strlit("Could not create snapshot");
    reveal_strlit("Could not destroy subvolume/snapshot");
    reveal_strlit("Could not set default subvolume");
    reveal_strlit("Could not sync filesystem");
    reveal_strlit("Could not start filesystem sync");
    reveal_strlit("Could not wait for filesystem sync");
    reveal_strlit("Could not get subvolume information with BTRFS_IOC_GET_SUBVOL_INFO");
    reveal_strlit("Could not get rootref information with BTRFS_IOC_GET_SUBVOL_ROOTREF");
    reveal_strlit("Could not resolve subvolume path with BTRFS_IOC_INO_LOOKUP_USER");
    reveal_strlit("Could not get filesystem information");
    // Unfold the message of each variant once, so that the case split over
    // the two variants sees a concrete literal on both sides.
    assert(LibError::Success.message_spec() == "Success"@);
    assert(LibError::StopIteration.message_spec() == "Stop iteration"@);
    assert(LibError::NoMemory.message_spec() == "Cannot allocate memory"@);
    assert(LibError::InvalidArgument.message_spec() == "Invalid argument"@);
    assert(LibError::NotBtrfs.message_spec() == "Not a Btrfs filesystem"@);
    assert(LibError::NotSubvolume.message_spec() == "Not a Btrfs subvolume"@);
    assert(LibError::SubvolumeNotFound.message_spec() == "Subvolume not found"@);
    assert(LibError::OpenFailed.message_spec() == "Could not open"@);
    assert(LibError::RmdirFailed.message_spec() == "Could not rmdir"@);
    assert(LibError::UnlinkFailed.message_spec() == "Could not unlink"@);
    assert(LibError::StatFailed.message_spec() == "Could not stat"@);
    assert(LibError::StatfsFailed.message_spec() == "Could not statfs"@);
    assert(LibError::SearchFailed.message_spec() == "Could not search B-tree"@);
    assert(LibError::InoLookupFailed.message_spec() == "Could not lookup inode"@);
    assert(LibError::SubvolGetflagsFailed.message_spec() == "Could not get subvolume flags"@);
    assert(LibError::SubvolSetflagsFailed.message_spec() == "Could not set subvolume flags"@);
    assert(LibError::SubvolCreateFailed.message_spec() == "Could not create subvolume"@);
    assert(LibError::SnapCreateFailed.message_spec() == "Could not create snapshot"@);
    assert(LibError::SnapDestroyFailed.message_spec() == "Could not destroy subvolume/snapshot"@);
    assert(LibError::DefaultSubvolFailed.message_spec() == "Could not set default subvolume"@);
    assert(LibError::SyncFailed.message_spec() == "Could not sync filesystem"@);
    assert(LibError::StartSyncFailed.message_spec() == "Could not start filesystem sync"@);
    assert(LibError::WaitSyncFailed.message_spec() == "Could not wait for filesystem sync"@);
    assert(LibError::GetSubvolInfoFailed.message_spec() == "Could not get subvolume information with BTRFS_IOC_GET_SUBVOL_INFO"@);
    assert(LibError::GetSubvolRootrefFailed.message_spec() == "Could not get rootref information with BTRFS_IOC_GET_SUBVOL_ROOTREF"@);
    assert(LibError::InoLookupUserFailed.message_spec() == "Could not resolve subvolume path with BTRFS_IOC_INO_LOOKUP_USER"@);
    assert(LibError::FsInfoFailed.message_spec() == "Could not get filesystem information"@);
    // Most pairs of messages already differ in length; the pairs of equal
    // length are told apart by one character.
    assert("Stop iteration"@[0] != "Could not open"@[0]);
    assert("Stop iteration"@[0] != "Could not stat"@[0]);
    assert("Could not open"@[10] != "Could not stat"@[10]);
    assert("Invalid argument"@[0] != "Could not unlink"@[0]);
    assert("Invalid argument"@[0] != "Could not statfs"@[0]);
    assert("Could not unlink"@[10] != "Could not statfs"@[10]);
    assert("Cannot allocate memory"@[0] != "Not a Btrfs filesystem"@[0]);
    assert("Cannot allocate memory"@[1] != "Could not lookup inode"@[1]);
    assert("Not a Btrfs filesystem"@[0] != "Could not lookup inode"@[0]);
    assert("Could not get subvolume flags"@[10] != "Could not set subvolume flags"@[10]);
    assert("Could not create snapshot"@[10] != "Could not sync filesystem"@[10]);
    assert("Could not set default subvolume"@[11] != "Could not start filesystem sync"@[11]);
    assert("Could not destroy subvolume/snapshot"@[10] != "Could not get filesystem information"@[10]);
}



} // verus!
