//! TurboOCI layers: the filesystem metadata that is unpacked beside their caches.

use crate::error;
use crate::error::{ErrorView, MicrosandboxError};
use crate::path;
use crate::path::FsPath;
use crate::text;
use vstd::prelude::*;
use vstd::utf8::*;

verus! {

/// The filesystem type that is looked for first.
pub const EROFS_FS_TYPE: &'static str = "erofs";

/// The filesystem type that is looked for next.
pub const EXT4_FS_TYPE: &'static str = "ext4";

/// The filesystem type that is taken where no metadata is found.
pub const DEFAULT_TURBO_OCI_FS_TYPE: &'static str = "ext4";

/// The file that holds the gzip index of a gzip-compressed layer.
pub const TURBO_OCI_GZIP_INDEX_FILENAME: &'static str = "gzip.meta";

/// Which filesystem metadata files a directory holds.
#[derive(Debug, Clone, Copy, PartialEq, Eq)]
pub struct FsMetaFiles {
    /// `erofs.fs.meta` is there.
    pub erofs: bool,
    /// `ext4.fs.meta` is there.
    pub ext4: bool,
}

/// The name of the metadata file of a filesystem type.
pub open spec fn fs_meta_name(fs_type: Seq<char>) -> Seq<char> {
    fs_type + ".fs.meta"@
}

/// The metadata file of a filesystem type in a directory.
pub open spec fn fs_meta_file(dir: Seq<u8>, fs_type: Seq<char>) -> Seq<u8> {
    path::joined(dir, encode_utf8(fs_meta_name(fs_type)))
}

/// A kernel that lists its filesystems in this text supports erofs.
pub open spec fn lists_erofs(filesystems: Option<Seq<char>>) -> bool {
    filesystems matches Some(content) && text::occurs_in(content, "\terofs\n"@)
}

/// The filesystem type whose metadata is used: the first in order of priority whose file is there,
/// but for erofs where the kernel does not support it; else the default.
pub open spec fn detected_fs_type(
    files: FsMetaFiles,
    filesystems: Option<Seq<char>>,
) -> Seq<char> {
    if files.erofs && lists_erofs(filesystems) {
        EROFS_FS_TYPE@
    } else if files.ext4 {
        EXT4_FS_TYPE@
    } else {
        DEFAULT_TURBO_OCI_FS_TYPE@
    }
}

/// The path of the metadata file of a filesystem type in a directory.
pub fn fs_meta_path(dir: &FsPath, fs_type: &str) -> (r: FsPath)
    ensures
        r@ == fs_meta_file(dir@, fs_type@),
{
    let mut name = fs_type.to_owned();
    name.append(".fs.meta");
    dir.join(name.as_str())
}

/// Whether the kernel supports erofs, by the content of `/proc/filesystems`: `None` where it could
/// not be read.
pub fn is_erofs_supported(filesystems: &Option<String>) -> (r: bool)
    ensures
        r == lists_erofs(text::opt_text(*filesystems)),
{
    match filesystems {
        Some(content) => text::contains_text(content.as_str(), "\terofs\n"),
        None => false,
    }
}

/// The filesystem metadata file to use in a directory that holds the given files.
///
/// `erofs.fs.meta` comes before `ext4.fs.meta`. It is passed over where the kernel does not support
/// erofs. Where none is found, the answer is `ext4.fs.meta`.
pub fn detect_fs_meta_in_dir(
    dir: &FsPath,
    files: FsMetaFiles,
    filesystems: &Option<String>,
) -> (r: FsPath)
    ensures
        r@ == fs_meta_file(dir@, detected_fs_type(files, text::opt_text(*filesystems))),
        r@ == path::joined(
            dir@,
            encode_utf8(
                if files.erofs && (filesystems matches Some(content) && text::occurs_in(
                    content@,
                    "\terofs\n"@,
                )) {
                    "erofs.fs.meta"@
                } else {
                    "ext4.fs.meta"@
                },
            ),
        ),
{
    proof {
        law_metadata_file_is_named(dir@, files, text::opt_text(*filesystems));
    }
    if files.erofs && is_erofs_supported(filesystems) {
        return fs_meta_path(dir, EROFS_FS_TYPE);
    }
    if files.ext4 {
        return fs_meta_path(dir, EXT4_FS_TYPE);
    }
    fs_meta_path(dir, DEFAULT_TURBO_OCI_FS_TYPE)
}

/// Whether a directory holds any filesystem metadata file.
pub fn has_fs_meta(files: FsMetaFiles) -> (r: bool)
    ensures
        r == (files.erofs || files.ext4),
{
    files.erofs || files.ext4
}

/// How unpacking the metadata archive of a TurboOCI layer ended. The texts are the host's.
#[derive(Debug, PartialEq, Eq)]
pub enum ExtractOutcome {
    /// The target directory could not be made.
    DirFailed(String),
    /// The archive could not be unpacked.
    UnpackFailed(String),
    /// The task that unpacks did not run to its end.
    TaskFailed(String),
    /// Everything was unpacked.
    Unpacked,
}

/// What unpacking comes to.
pub open spec fn extract_result(target_dir: Seq<u8>, outcome: ExtractOutcome) -> Result<
    (),
    ErrorView,
> {
    match outcome {
        ExtractOutcome::DirFailed(reason) => Err(
            ErrorView::Other(
                "failed to create dir "@ + text::bytes_text(target_dir) + ": "@ + reason@,
            ),
        ),
        ExtractOutcome::UnpackFailed(reason) => Err(
            ErrorView::Other("failed to unpack turboOCIv1 archive: "@ + reason@),
        ),
        ExtractOutcome::TaskFailed(reason) => Err(
            ErrorView::Other("task join error in extract_turbo_oci_metadata: "@ + reason@),
        ),
        ExtractOutcome::Unpacked => Ok(()),
    }
}

/// The result of unpacking the metadata archive of a TurboOCI layer into a directory.
pub fn extract_turbo_oci_metadata(target_dir: &FsPath, outcome: &ExtractOutcome) -> (r: Result<
    (),
    MicrosandboxError,
>)
    ensures
        error::result_view(r) == extract_result(target_dir@, *outcome),
{
    match outcome {
        ExtractOutcome::DirFailed(reason) => {
            let mut message = "failed to create dir ".to_owned();
            message.append(target_dir.to_string_lossy().as_str());
            message.append(": ");
            message.append(reason.as_str());
            Err(MicrosandboxError::Other(message))
        },
        ExtractOutcome::UnpackFailed(reason) => {
            let mut message = "failed to unpack turboOCIv1 archive: ".to_owned();
            message.append(reason.as_str());
            Err(MicrosandboxError::Other(message))
        },
        ExtractOutcome::TaskFailed(reason) => {
            let mut message = "task join error in extract_turbo_oci_metadata: ".to_owned();
            message.append(reason.as_str());
            Err(MicrosandboxError::Other(message))
        },
        ExtractOutcome::Unpacked => Ok(()),
    }
}

/// The erofs metadata is used exactly where its file is there and the kernel supports erofs.
pub proof fn law_erofs_is_used_where_it_can_be(
    files: FsMetaFiles,
    filesystems: Option<Seq<char>>,
)
    ensures
        detected_fs_type(files, filesystems) == EROFS_FS_TYPE@ <==> files.erofs && lists_erofs(
            filesystems,
        ),
{
    reveal_strlit("erofs");
    reveal_strlit("ext4");
    assert(EROFS_FS_TYPE@.len() != EXT4_FS_TYPE@.len());
}

/// Whatever is found, the answer is the erofs or the ext4 metadata, and it is that of ext4 where
/// nothing is found.
pub proof fn law_detection_falls_back_to_ext4(
    files: FsMetaFiles,
    filesystems: Option<Seq<char>>,
)
    ensures
        ({
            let fs_type = detected_fs_type(files, filesystems);
            fs_type == EROFS_FS_TYPE@ || fs_type == EXT4_FS_TYPE@
        }),
        !files.erofs && !files.ext4 ==> detected_fs_type(files, filesystems) == EXT4_FS_TYPE@,
        !lists_erofs(filesystems) ==> detected_fs_type(files, filesystems) == EXT4_FS_TYPE@,
{
}

/// The metadata file that is used is `erofs.fs.meta` exactly where that file is there and the
/// kernel's list has erofs on a line of its own, and `ext4.fs.meta` in every other case.
pub proof fn law_metadata_file_is_named(
    dir: Seq<u8>,
    files: FsMetaFiles,
    filesystems: Option<Seq<char>>,
)
    ensures
        fs_meta_file(dir, detected_fs_type(files, filesystems)) == path::joined(
            dir,
            encode_utf8(
                if files.erofs && (filesystems matches Some(content) && text::occurs_in(
                    content,
                    "\terofs\n"@,
                )) {
                    "erofs.fs.meta"@
                } else {
                    "ext4.fs.meta"@
                },
            ),
        ),
{
    reveal_strlit("erofs");
    reveal_strlit("ext4");
    reveal_strlit(".fs.meta");
    reveal_strlit("erofs.fs.meta");
    reveal_strlit("ext4.fs.meta");
    assert("erofs"@ + ".fs.meta"@ =~= "erofs.fs.meta"@);
    assert("ext4"@ + ".fs.meta"@ =~= "ext4.fs.meta"@);
}

/// The metadata file that is used is there wherever a usable one is: it is only made up where
/// neither `ext4.fs.meta` nor, with a kernel that supports it, `erofs.fs.meta` was found.
pub proof fn law_metadata_file_is_there(files: FsMetaFiles, filesystems: Option<Seq<char>>)
    requires
        files.ext4 || (files.erofs && lists_erofs(filesystems)),
    ensures
        detected_fs_type(files, filesystems) == "erofs"@ ==> files.erofs && lists_erofs(
            filesystems,
        ),
        detected_fs_type(files, filesystems) == "ext4"@ ==> files.ext4,
        detected_fs_type(files, filesystems) == "erofs"@ || detected_fs_type(files, filesystems)
            == "ext4"@,
{
    reveal_strlit("erofs");
    reveal_strlit("ext4");
    assert("erofs"@.len() != "ext4"@.len());
}

/// A kernel supports erofs exactly where its list can be read and has the name between a tab and
/// the end of a line.
pub proof fn law_erofs_stands_on_its_own_line(filesystems: Option<Seq<char>>)
    ensures
        lists_erofs(filesystems) <==> filesystems is Some && exists|
            before: Seq<char>,
            after: Seq<char>,
        |
            filesystems->0 == #[trigger] (before + "\terofs\n"@ + after),
{
    if let Some(content) = filesystems {
        text::law_occurring_is_standing_between(content, "\terofs\n"@);
    }
}

/// Unpacking succeeds exactly where everything was unpacked. Each failure is told with what failed
/// and the host's reason.
pub proof fn law_unpacking_is_told(target_dir: Seq<u8>, outcome: ExtractOutcome)
    ensures
        extract_result(target_dir, outcome) is Ok <==> outcome is Unpacked,
        outcome matches ExtractOutcome::DirFailed(reason) ==> extract_result(target_dir, outcome)
            == Err::<(), ErrorView>(
            ErrorView::Other(
                "failed to create dir "@ + text::bytes_text(target_dir) + ": "@ + reason@,
            ),
        ),
        outcome matches ExtractOutcome::UnpackFailed(reason) ==> extract_result(
            target_dir,
            outcome,
        ) == Err::<(), ErrorView>(
            ErrorView::Other("failed to unpack turboOCIv1 archive: "@ + reason@),
        ),
        outcome matches ExtractOutcome::TaskFailed(reason) ==> extract_result(target_dir, outcome)
            == Err::<(), ErrorView>(
            ErrorView::Other("task join error in extract_turbo_oci_metadata: "@ + reason@),
        ),
{
}

} // verus!
