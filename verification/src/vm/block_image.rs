//! Block images: sparse files with a filesystem, for use as a microVM's root filesystem.

use crate::error::{ErrorView, MicrosandboxError};
use crate::path::FsPath;
use crate::vm::loop_device::{LoopDevice, LoopDeviceView};
use vstd::prelude::*;

verus! {

/// The size of a block image in GiB where none is asked for.
pub const DEFAULT_BLOCK_IMAGE_SIZE_GIB: u64 = 20;

/// The filesystem of a block image where none is asked for.
pub const DEFAULT_FILESYSTEM_TYPE: &'static str = "ext4";

/// A block image: a sparse file that holds a filesystem and is shown to the guest as a disk.
#[derive(Debug, PartialEq, Eq)]
pub struct BlockImage {
    pub(crate) path: FsPath,
    pub(crate) size_gib: u64,
    pub(crate) filesystem: String,
    pub(crate) loop_device: Option<LoopDevice>,
}

/// Collects what a [`BlockImage`] is to be like.
#[derive(Debug, PartialEq, Eq)]
pub struct BlockImageBuilder {
    path: Option<FsPath>,
    size_gib: Option<u64>,
    filesystem: Option<String>,
}

/// A [`BlockImage`] by its contents.
pub struct ImageView {
    /// Where the image's file is.
    pub path: Seq<u8>,
    /// Its size in GiB.
    pub size_gib: u64,
    /// Its filesystem type.
    pub filesystem: Seq<char>,
    /// The device it is attached to.
    pub loop_device: Option<LoopDeviceView>,
}

/// A [`BlockImageBuilder`] by its contents.
pub struct BuilderView {
    pub path: Option<Seq<u8>>,
    pub size_gib: Option<u64>,
    pub filesystem: Option<Seq<char>>,
}

impl View for BlockImage {
    type V = ImageView;

    open(crate) spec fn view(&self) -> ImageView {
        ImageView {
            path: self.path@,
            size_gib: self.size_gib,
            filesystem: self.filesystem@,
            loop_device: match self.loop_device {
                Some(device) => Some(device@),
                None => None,
            },
        }
    }
}

impl View for BlockImageBuilder {
    type V = BuilderView;

    closed spec fn view(&self) -> BuilderView {
        BuilderView {
            path: match self.path {
                Some(path) => Some(path@),
                None => None,
            },
            size_gib: self.size_gib,
            filesystem: crate::text::opt_text(self.filesystem),
        }
    }
}

/// A builder that was told nothing.
pub open spec fn empty_builder() -> BuilderView {
    BuilderView { path: None, size_gib: None, filesystem: None }
}

/// What a builder comes to: the path is required, the size and the filesystem have defaults, and
/// the image is not attached.
pub open spec fn built(builder: BuilderView) -> Result<ImageView, ErrorView> {
    match builder.path {
        Some(path) => Ok(
            ImageView {
                path,
                size_gib: match builder.size_gib {
                    Some(size) => size,
                    None => DEFAULT_BLOCK_IMAGE_SIZE_GIB,
                },
                filesystem: match builder.filesystem {
                    Some(filesystem) => filesystem,
                    None => DEFAULT_FILESYSTEM_TYPE@,
                },
                loop_device: None,
            },
        ),
        None => Err(ErrorView::BlockImageError("block image path is required"@)),
    }
}

/// A result by the contents of its image or its error.
pub open spec fn image_result_view(r: Result<BlockImage, MicrosandboxError>) -> Result<
    ImageView,
    ErrorView,
> {
    match r {
        Ok(image) => Ok(image@),
        Err(e) => Err(e@),
    }
}

impl BlockImage {
    /// Starts on a block image.
    pub fn builder() -> (r: BlockImageBuilder)
        ensures
            r@ == empty_builder(),
    {
        BlockImageBuilder::default()
    }

    /// Where the image's file is.
    pub fn path(&self) -> (r: &FsPath)
        ensures
            r@ == self@.path,
    {
        &self.path
    }

    /// The size of the image in GiB.
    pub fn size_gib(&self) -> (r: u64)
        ensures
            r == self@.size_gib,
    {
        self.size_gib
    }

    /// The filesystem type of the image.
    pub fn filesystem(&self) -> (r: &str)
        ensures
            r@ == self@.filesystem,
    {
        self.filesystem.as_str()
    }

    /// Where the device is to which the image is attached, if it is.
    pub fn loop_device_path(&self) -> (r: Option<&FsPath>)
        ensures
            match r {
                Some(path) => self@.loop_device matches Some(device) && path@ == device.path,
                None => self@.loop_device is None,
            },
    {
        match &self.loop_device {
            Some(device) => Some(device.path()),
            None => None,
        }
    }
}

impl Default for BlockImageBuilder {
    fn default() -> (r: BlockImageBuilder)
        ensures
            r@ == empty_builder(),
    {
        BlockImageBuilder { path: None, size_gib: None, filesystem: None }
    }
}

impl BlockImageBuilder {
    /// Sets where the image's file will be.
    pub fn path(self, path: FsPath) -> (r: BlockImageBuilder)
        ensures
            r@ == (BuilderView { path: Some(path@), ..self@ }),
    {
        BlockImageBuilder {
            path: Some(path),
            size_gib: self.size_gib,
            filesystem: self.filesystem,
        }
    }

    /// Sets the size of the image in GiB.
    pub fn size_gib(self, size: u64) -> (r: BlockImageBuilder)
        ensures
            r@ == (BuilderView { size_gib: Some(size), ..self@ }),
    {
        BlockImageBuilder {
            path: self.path,
            size_gib: Some(size),
            filesystem: self.filesystem,
        }
    }

    /// Sets the filesystem type of the image, such as `ext4` or `xfs`.
    pub fn filesystem(self, filesystem: &str) -> (r: BlockImageBuilder)
        ensures
            r@ == (BuilderView { filesystem: Some(filesystem@), ..self@ }),
    {
        BlockImageBuilder {
            path: self.path,
            size_gib: self.size_gib,
            filesystem: Some(filesystem.to_owned()),
        }
    }

    /// Makes the image. It is an error not to have set the path.
    pub fn build(self) -> (r: Result<BlockImage, MicrosandboxError>)
        ensures
            image_result_view(r) == built(self@),
    {
        match self.path {
            None => Err(
                MicrosandboxError::BlockImageError("block image path is required".to_owned()),
            ),
            Some(path) => Ok(
                BlockImage {
                    path,
                    size_gib: self.size_gib.unwrap_or(DEFAULT_BLOCK_IMAGE_SIZE_GIB),
                    filesystem: match self.filesystem {
                        Some(filesystem) => filesystem,
                        None => DEFAULT_FILESYSTEM_TYPE.to_owned(),
                    },
                    loop_device: None,
                },
            ),
        }
    }
}

/// A builder gives an image exactly where its path was set.
pub proof fn law_build_needs_only_a_path(builder: BuilderView)
    ensures
        built(builder) is Ok <==> builder.path is Some,
{
}

/// Of two settings of one thing the last counts, and settings of different things do not meet:
/// in whatever order path, size and filesystem are set, the image is the same.
pub proof fn law_builder_settings_are_independent(
    builder: BuilderView,
    path: Seq<u8>,
    size: u64,
    filesystem: Seq<char>,
)
    ensures
        ({
            let set = BuilderView {
                path: Some(path),
                size_gib: Some(size),
                filesystem: Some(filesystem),
            };
            let last_path = BuilderView {
                path: Some(path),
                ..BuilderView {
                    size_gib: Some(size),
                    ..BuilderView { filesystem: Some(filesystem), ..builder }
                }
            };
            let last_filesystem = BuilderView {
                filesystem: Some(filesystem),
                ..BuilderView {
                    size_gib: Some(size),
                    ..BuilderView { path: Some(path), ..builder }
                }
            };
            &&& last_path == set
            &&& last_filesystem == set
            &&& built(set) == Ok::<ImageView, ErrorView>(
                ImageView { path, size_gib: size, filesystem, loop_device: None },
            )
        }),
{
}

/// An image is what its builder was told: the path, the size and the filesystem as they were set,
/// a size of 20 GiB and an ext4 filesystem where they were not, and no device.
pub proof fn law_image_is_what_was_asked_for(builder: BuilderView)
    ensures
        builder.path matches Some(path) ==> {
            &&& built(builder) is Ok
            &&& built(builder)->Ok_0.path == path
            &&& builder.size_gib matches Some(size) ==> built(builder)->Ok_0.size_gib == size
            &&& builder.size_gib is None ==> built(builder)->Ok_0.size_gib == 20
            &&& builder.filesystem matches Some(filesystem) ==> built(builder)->Ok_0.filesystem
                == filesystem
            &&& builder.filesystem is None ==> built(builder)->Ok_0.filesystem == "ext4"@
            &&& built(builder)->Ok_0.loop_device is None
        },
        builder.path is None ==> built(builder) == Err::<ImageView, ErrorView>(
            ErrorView::BlockImageError("block image path is required"@),
        ),
        empty_builder().path is None && empty_builder().size_gib is None
            && empty_builder().filesystem is None,
{
}

/// Builders that were told different things make different images.
pub proof fn law_builders_are_told_apart(builder: BuilderView, other: BuilderView)
    requires
        builder.path is Some,
        builder.size_gib is Some,
        builder.filesystem is Some,
        other.path is Some,
        other.size_gib is Some,
        other.filesystem is Some,
        built(builder) == built(other),
    ensures
        builder == other,
{
}

} // verus!
