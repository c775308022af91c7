//! Making, opening, detaching and removing block images.
//!
//! Each operation goes step by step: an event says what the host has done, and the action that
//! comes back says what it is to do next.

use crate::error;
use crate::error::{ErrorView, MicrosandboxError};
use crate::host;
use crate::host::{
    CommandAction, CommandActionView, CommandEvent, CommandLine, CommandOutcome, CommandView,
};
use crate::path;
use crate::path::FsPath;
use crate::text;
use crate::vm::block_image;
use crate::vm::block_image::{BlockImage, ImageView};
use crate::vm::loop_device;
use crate::vm::loop_device::{AttachAction, LoopDevice};
use vstd::prelude::*;
use vstd::utf8::*;

verus! {

/// What making the file of an image has come to.
#[derive(Debug, PartialEq, Eq)]
pub enum SparseFileEvent {
    /// Nothing was done yet.
    Begin,
    /// It was seen whether the file is there.
    Probed(bool),
    /// An earlier file was removed, or the host said why not.
    Removed(Result<(), String>),
    /// The command that was asked for has run.
    Ran(CommandOutcome),
}

/// What making the file of an image does next.
#[derive(Debug, PartialEq, Eq)]
pub enum SparseFileAction {
    /// See whether this file is there.
    ProbeExists(FsPath),
    /// Remove this file.
    RemoveFile(FsPath),
    /// Run this.
    Run(CommandLine),
    /// It is over.
    Finish(Result<(), MicrosandboxError>),
}

/// A [`SparseFileAction`] by its contents.
pub enum SparseFileActionView {
    ProbeExists(Seq<u8>),
    RemoveFile(Seq<u8>),
    Run(CommandView),
    Finish(Result<(), ErrorView>),
}

impl View for SparseFileAction {
    type V = SparseFileActionView;

    open spec fn view(&self) -> SparseFileActionView {
        match self {
            SparseFileAction::ProbeExists(path) => SparseFileActionView::ProbeExists(path@),
            SparseFileAction::RemoveFile(path) => SparseFileActionView::RemoveFile(path@),
            SparseFileAction::Run(command) => SparseFileActionView::Run(command@),
            SparseFileAction::Finish(r) => SparseFileActionView::Finish(error::result_view(*r)),
        }
    }
}

/// What making an image has come to.
#[derive(Debug, PartialEq, Eq)]
pub enum CreateEvent {
    /// Nothing was done yet.
    Begin,
    /// It was seen whether the directory that the file will be in is there.
    ParentProbed(bool),
    /// Something about the file was done.
    SparseFile(SparseFileEvent),
    /// Something about the loop device was done.
    Attach(CommandEvent),
    /// Something about the filesystem was done.
    Format(CommandEvent),
}

/// What making an image does next.
#[derive(Debug, PartialEq, Eq)]
pub enum CreateAction {
    /// See whether this directory is there.
    ProbeParent(FsPath),
    /// Do this for the file.
    SparseFile(SparseFileAction),
    /// Run this to attach the file.
    Attach(CommandLine),
    /// Run this to make the filesystem.
    Format(CommandLine),
    /// It is over.
    Finish(Result<(), MicrosandboxError>),
}

/// A [`CreateAction`] by its contents.
pub enum CreateActionView {
    ProbeParent(Seq<u8>),
    SparseFile(SparseFileActionView),
    Attach(CommandView),
    Format(CommandView),
    Finish(Result<(), ErrorView>),
}

impl View for CreateAction {
    type V = CreateActionView;

    open spec fn view(&self) -> CreateActionView {
        match self {
            CreateAction::ProbeParent(path) => CreateActionView::ProbeParent(path@),
            CreateAction::SparseFile(action) => CreateActionView::SparseFile(action@),
            CreateAction::Attach(command) => CreateActionView::Attach(command@),
            CreateAction::Format(command) => CreateActionView::Format(command@),
            CreateAction::Finish(r) => CreateActionView::Finish(error::result_view(*r)),
        }
    }
}

/// The command that makes a sparse file of an image's size.
pub open spec fn truncate_command(image: ImageView) -> CommandView {
    CommandView {
        program: "truncate"@,
        args: seq![
            encode_utf8("-s"@),
            encode_utf8(text::decimal(image.size_gib as nat) + "G"@),
            image.path,
        ],
    }
}

/// The program that makes a filesystem.
pub open spec fn mkfs_program(filesystem: Seq<char>) -> Seq<char> {
    "mkfs."@ + filesystem
}

/// The command that makes an image's filesystem on a device.
pub open spec fn mkfs_command(filesystem: Seq<char>, device_path: Seq<u8>) -> CommandView {
    CommandView { program: mkfs_program(filesystem), args: seq![device_path] }
}

/// What is said of an image that is used without being attached.
pub open spec fn not_attached() -> ErrorView {
    ErrorView::BlockImageError("loop device not attached"@)
}

/// What making the file of an image does next: an earlier file goes, then the new one is made.
pub open spec fn sparse_file_step(image: ImageView, event: SparseFileEvent) -> SparseFileActionView {
    match event {
        SparseFileEvent::Begin => SparseFileActionView::ProbeExists(image.path),
        SparseFileEvent::Probed(exists) => if exists {
            SparseFileActionView::RemoveFile(image.path)
        } else {
            SparseFileActionView::Run(truncate_command(image))
        },
        SparseFileEvent::Removed(removed) => match removed {
            Ok(_) => SparseFileActionView::Run(truncate_command(image)),
            Err(reason) => SparseFileActionView::Finish(Err(ErrorView::Io(reason@))),
        },
        SparseFileEvent::Ran(outcome) => SparseFileActionView::Finish(
            host::command_result(outcome@, "truncate"@, "truncate failed"@),
        ),
    }
}

/// What attaching an image does next: the image has the device once it is attached.
pub open spec fn attach_loop_step(image: ImageView, event: CommandEvent) -> (
    ImageView,
    CommandActionView,
) {
    match event {
        CommandEvent::Begin => (
            image,
            CommandActionView::Run(loop_device::attach_command(image.path)),
        ),
        CommandEvent::Ran(outcome) => match loop_device::attached_device(outcome@) {
            Ok(device) => (
                ImageView { loop_device: Some(device), ..image },
                CommandActionView::Finish(Ok(())),
            ),
            Err(e) => (image, CommandActionView::Finish(Err(e))),
        },
    }
}

/// What making an image's filesystem does next.
pub open spec fn format_step(image: ImageView, event: CommandEvent) -> CommandActionView {
    match image.loop_device {
        None => CommandActionView::Finish(Err(not_attached())),
        Some(device) => match event {
            CommandEvent::Begin => CommandActionView::Run(
                mkfs_command(image.filesystem, device.path),
            ),
            CommandEvent::Ran(outcome) => CommandActionView::Finish(
                host::command_result(
                    outcome@,
                    mkfs_program(image.filesystem),
                    mkfs_program(image.filesystem) + " failed"@,
                ),
            ),
        },
    }
}

/// The step of making an image that a step of its filesystem is.
pub open spec fn create_format_action(action: CommandActionView) -> CreateActionView {
    match action {
        CommandActionView::Run(command) => CreateActionView::Format(command),
        CommandActionView::Finish(r) => CreateActionView::Finish(r),
    }
}

/// The step of making an image that a step of its loop device is; once it is attached, the
/// filesystem follows.
pub open spec fn create_attach_action(
    image: ImageView,
    action: CommandActionView,
) -> CreateActionView {
    match action {
        CommandActionView::Run(command) => CreateActionView::Attach(command),
        CommandActionView::Finish(Err(e)) => CreateActionView::Finish(Err(e)),
        CommandActionView::Finish(Ok(_)) => create_format_action(
            format_step(image, CommandEvent::Begin),
        ),
    }
}

/// The step of making an image that a step of its file is; once the file is there, it is attached.
pub open spec fn create_file_action(
    image: ImageView,
    action: SparseFileActionView,
) -> CreateActionView {
    match action {
        SparseFileActionView::Finish(Err(e)) => CreateActionView::Finish(Err(e)),
        SparseFileActionView::Finish(Ok(_)) => create_attach_action(
            image,
            attach_loop_step(image, CommandEvent::Begin).1,
        ),
        _ => CreateActionView::SparseFile(action),
    }
}

/// What is said of a directory that is not there.
pub open spec fn parent_missing(directory: Seq<u8>) -> ErrorView {
    ErrorView::BlockImageError(
        "parent directory does not exist: "@ + text::bytes_text(directory),
    )
}

/// What making an image does next: the directory that its path lies in has to be there; then come
/// the file, the loop device and the filesystem.
pub open spec fn create_step(image: ImageView, event: CreateEvent) -> (
    ImageView,
    CreateActionView,
) {
    match event {
        CreateEvent::Begin => (
            image,
            match path::parent_of(image.path) {
                Some(directory) => CreateActionView::ProbeParent(directory),
                None => create_file_action(image, sparse_file_step(image, SparseFileEvent::Begin)),
            },
        ),
        CreateEvent::ParentProbed(exists) => (
            image,
            match path::parent_of(image.path) {
                Some(directory) if !exists => CreateActionView::Finish(
                    Err(parent_missing(directory)),
                ),
                _ => create_file_action(image, sparse_file_step(image, SparseFileEvent::Begin)),
            },
        ),
        CreateEvent::SparseFile(event) => (
            image,
            create_file_action(image, sparse_file_step(image, event)),
        ),
        CreateEvent::Attach(event) => {
            let (attached, action) = attach_loop_step(image, event);
            (attached, create_attach_action(attached, action))
        },
        CreateEvent::Format(event) => (image, create_format_action(format_step(image, event))),
    }
}

impl BlockImage {
    /// Makes the image: a sparse file, attached to a loop device, with a filesystem on it.
    ///
    /// It fails where the directory of the file is not there, and where making the file, attaching
    /// it or making the filesystem fails.
    pub fn create(&mut self, event: CreateEvent) -> (r: CreateAction)
        ensures
            (final(self)@, r@) == create_step(old(self)@, event),
    {
        match event {
            CreateEvent::Begin => match self.path.parent() {
                Some(directory) => CreateAction::ProbeParent(directory),
                None => {
                    let action = self.create_sparse_file(SparseFileEvent::Begin);
                    self.after_sparse_file(action)
                },
            },
            CreateEvent::ParentProbed(exists) => {
                if !exists {
                    if let Some(directory) = self.path.parent() {
                        let mut message = "parent directory does not exist: ".to_owned();
                        message.append(directory.to_string_lossy().as_str());
                        return CreateAction::Finish(
                            Err(MicrosandboxError::BlockImageError(message)),
                        );
                    }
                }
                let action = self.create_sparse_file(SparseFileEvent::Begin);
                self.after_sparse_file(action)
            },
            CreateEvent::SparseFile(event) => {
                let action = self.create_sparse_file(event);
                self.after_sparse_file(action)
            },
            CreateEvent::Attach(event) => {
                let action = self.attach_loop(event);
                self.after_attach(action)
            },
            CreateEvent::Format(event) => Self::after_format(self.format_filesystem(event)),
        }
    }

    fn after_sparse_file(&mut self, action: SparseFileAction) -> (r: CreateAction)
        ensures
            final(self)@ == old(self)@,
            r@ == create_file_action(old(self)@, action@),
    {
        match action {
            SparseFileAction::Finish(Err(e)) => CreateAction::Finish(Err(e)),
            SparseFileAction::Finish(Ok(_)) => {
                let action = self.attach_loop(CommandEvent::Begin);
                self.after_attach(action)
            },
            other => CreateAction::SparseFile(other),
        }
    }

    fn after_attach(&self, action: CommandAction) -> (r: CreateAction)
        ensures
            r@ == create_attach_action(self@, action@),
    {
        match action {
            CommandAction::Run(command) => CreateAction::Attach(command),
            CommandAction::Finish(Err(e)) => CreateAction::Finish(Err(e)),
            CommandAction::Finish(Ok(_)) => Self::after_format(
                self.format_filesystem(CommandEvent::Begin),
            ),
        }
    }

    fn after_format(action: CommandAction) -> (r: CreateAction)
        ensures
            r@ == create_format_action(action@),
    {
        match action {
            CommandAction::Run(command) => CreateAction::Format(command),
            CommandAction::Finish(r) => CreateAction::Finish(r),
        }
    }

    /// Makes a sparse file of the image's size at its path, in place of one that is there.
    pub fn create_sparse_file(&self, event: SparseFileEvent) -> (r: SparseFileAction)
        ensures
            r@ == sparse_file_step(self@, event),
    {
        match event {
            SparseFileEvent::Begin => SparseFileAction::ProbeExists(self.path.clone()),
            SparseFileEvent::Probed(exists) => if exists {
                SparseFileAction::RemoveFile(self.path.clone())
            } else {
                SparseFileAction::Run(self.truncate())
            },
            SparseFileEvent::Removed(removed) => match removed {
                Ok(_) => SparseFileAction::Run(self.truncate()),
                Err(reason) => SparseFileAction::Finish(Err(MicrosandboxError::Io(reason))),
            },
            SparseFileEvent::Ran(outcome) => SparseFileAction::Finish(
                host::check_command(&outcome, "truncate", "truncate failed"),
            ),
        }
    }

    fn truncate(&self) -> (r: CommandLine)
        ensures
            r@ == truncate_command(self@),
    {
        let mut size = text::decimal_text(self.size_gib);
        size.append("G");
        let mut args: Vec<Vec<u8>> = Vec::new();
        args.push("-s".as_bytes_vec());
        args.push(size.as_str().as_bytes_vec());
        args.push(self.path.to_bytes());
        let command = CommandLine { program: "truncate".to_owned(), args };
        assert(command@.args =~= truncate_command(self@).args);
        command
    }

    /// Attaches the image to a loop device.
    pub fn attach_loop(&mut self, event: CommandEvent) -> (r: CommandAction)
        ensures
            (final(self)@, r@) == attach_loop_step(old(self)@, event),
    {
        match LoopDevice::attach(&self.path, event) {
            AttachAction::Run(command) => CommandAction::Run(command),
            AttachAction::Finish(Ok(device)) => {
                self.loop_device = Some(device);
                CommandAction::Finish(Ok(()))
            },
            AttachAction::Finish(Err(e)) => CommandAction::Finish(Err(e)),
        }
    }

    /// Makes the image's filesystem on the device that it is attached to.
    pub fn format_filesystem(&self, event: CommandEvent) -> (r: CommandAction)
        ensures
            r@ == format_step(self@, event),
            r matches CommandAction::Run(command) ==> {
                &&& command.program@ == "mkfs."@ + self@.filesystem
                &&& command.args@.len() == 1
                &&& self@.loop_device matches Some(device) && command.args@[0]@ == device.path
            },
    {
        let mut mkfs = "mkfs.".to_owned();
        mkfs.append(self.filesystem.as_str());
        match &self.loop_device {
            None => CommandAction::Finish(
                Err(MicrosandboxError::BlockImageError("loop device not attached".to_owned())),
            ),
            Some(device) => match event {
                CommandEvent::Begin => {
                    let mut args: Vec<Vec<u8>> = Vec::new();
                    args.push(device.path().to_bytes());
                    let command = CommandLine { program: mkfs, args };
                    assert(command@.args =~= mkfs_command(
                        self@.filesystem,
                        device@.path,
                    ).args);
                    CommandAction::Run(command)
                },
                CommandEvent::Ran(outcome) => {
                    let mut complaint = mkfs.clone();
                    complaint.append(" failed");
                    CommandAction::Finish(
                        host::check_command(&outcome, mkfs.as_str(), complaint.as_str()),
                    )
                },
            },
        }
    }
}

/// What opening an image does next.
#[derive(Debug, PartialEq, Eq)]
pub enum OpenAction {
    /// Run this and come back with [`CommandEvent::Ran`].
    Run(CommandLine),
    /// It is over: the image, or why there is none.
    Finish(Result<BlockImage, MicrosandboxError>),
}

/// What removing an image has come to.
#[derive(Debug, PartialEq, Eq)]
pub enum RemoveEvent {
    /// Nothing was done yet.
    Begin,
    /// It was seen whether the file is there.
    Probed(bool),
    /// The file was removed, or the host said why not.
    Removed(Result<(), String>),
}

/// What removing an image does next.
#[derive(Debug, PartialEq, Eq)]
pub enum RemoveAction {
    /// See whether this file is there.
    ProbeExists(FsPath),
    /// Remove this file.
    RemoveFile(FsPath),
    /// It is over.
    Finish(Result<(), MicrosandboxError>),
}

/// A [`RemoveAction`] by its contents.
pub enum RemoveActionView {
    ProbeExists(Seq<u8>),
    RemoveFile(Seq<u8>),
    Finish(Result<(), ErrorView>),
}

impl View for RemoveAction {
    type V = RemoveActionView;

    open spec fn view(&self) -> RemoveActionView {
        match self {
            RemoveAction::ProbeExists(path) => RemoveActionView::ProbeExists(path@),
            RemoveAction::RemoveFile(path) => RemoveActionView::RemoveFile(path@),
            RemoveAction::Finish(r) => RemoveActionView::Finish(error::result_view(*r)),
        }
    }
}

/// The image that opening the file at `path` gives. Its size and its filesystem are not looked at.
pub open spec fn opened_image(path: Seq<u8>, outcome: host::OutcomeView) -> Result<
    ImageView,
    ErrorView,
> {
    match loop_device::attached_device(outcome) {
        Ok(device) => Ok(
            ImageView {
                path,
                size_gib: 0,
                filesystem: Seq::empty(),
                loop_device: Some(device),
            },
        ),
        Err(e) => Err(e),
    }
}

/// What detaching an image does next: it has no device any more once that has succeeded.
pub open spec fn detach_loop_step(image: ImageView, event: CommandEvent) -> (
    ImageView,
    CommandActionView,
) {
    match image.loop_device {
        None => (image, CommandActionView::Finish(Ok(()))),
        Some(device) => {
            let action = loop_device::detach_step(device, event);
            if action == CommandActionView::Finish(Ok(())) {
                (ImageView { loop_device: None, ..image }, action)
            } else {
                (image, action)
            }
        },
    }
}

/// What is said of an image that is to be removed and is still attached.
pub open spec fn still_attached() -> ErrorView {
    ErrorView::BlockImageError(
        "cannot remove block image: loop device is still attached, call detach_loop() first"@,
    )
}

/// What removing an image does next: a file that is there goes, unless the image is attached.
pub open spec fn remove_step(image: ImageView, event: RemoveEvent) -> RemoveActionView {
    match event {
        RemoveEvent::Begin => RemoveActionView::ProbeExists(image.path),
        RemoveEvent::Probed(exists) => if !exists {
            RemoveActionView::Finish(Ok(()))
        } else if image.loop_device is Some {
            RemoveActionView::Finish(Err(still_attached()))
        } else {
            RemoveActionView::RemoveFile(image.path)
        },
        RemoveEvent::Removed(removed) => match removed {
            Ok(_) => RemoveActionView::Finish(Ok(())),
            Err(reason) => RemoveActionView::Finish(Err(ErrorView::Io(reason@))),
        },
    }
}

impl BlockImage {
    /// Attaches the image file that exists at `path`, without making or formatting anything.
    pub fn from_existing(path: FsPath, event: CommandEvent) -> (r: OpenAction)
        ensures
            match event {
                CommandEvent::Begin => r matches OpenAction::Run(command) && command@
                    == loop_device::attach_command(path@),
                CommandEvent::Ran(outcome) => r matches OpenAction::Finish(image)
                    && block_image::image_result_view(image) == opened_image(path@, outcome@),
            },
    {
        match LoopDevice::attach(&path, event) {
            AttachAction::Run(command) => OpenAction::Run(command),
            AttachAction::Finish(Ok(device)) => OpenAction::Finish(
                Ok(
                    BlockImage {
                        path,
                        size_gib: 0,
                        filesystem: String::new(),
                        loop_device: Some(device),
                    },
                ),
            ),
            AttachAction::Finish(Err(e)) => OpenAction::Finish(Err(e)),
        }
    }

    /// Detaches the image from its loop device, if it is attached.
    pub fn detach_loop(&mut self, event: CommandEvent) -> (r: CommandAction)
        ensures
            (final(self)@, r@) == detach_loop_step(old(self)@, event),
    {
        let action = match &self.loop_device {
            None => CommandAction::Finish(Ok(())),
            Some(device) => device.detach(event),
        };
        if let CommandAction::Finish(Ok(_)) = action {
            self.loop_device = None;
        }
        action
    }

    /// Removes the image's file, if it is there. An image that is still attached is not removed.
    pub fn remove(&self, event: RemoveEvent) -> (r: RemoveAction)
        ensures
            r@ == remove_step(self@, event),
    {
        match event {
            RemoveEvent::Begin => RemoveAction::ProbeExists(self.path.clone()),
            RemoveEvent::Probed(exists) => {
                if !exists {
                    RemoveAction::Finish(Ok(()))
                } else if self.loop_device.is_some() {
                    RemoveAction::Finish(
                        Err(
                            MicrosandboxError::BlockImageError(
                                "cannot remove block image: loop device is still attached, call detach_loop() first".to_owned(),
                            ),
                        ),
                    )
                } else {
                    RemoveAction::RemoveFile(self.path.clone())
                }
            },
            RemoveEvent::Removed(removed) => match removed {
                Ok(_) => RemoveAction::Finish(Ok(())),
                Err(reason) => RemoveAction::Finish(Err(MicrosandboxError::Io(reason))),
            },
        }
    }
}

/// The directory that an image's path lies in is looked at first. Where it is not there, making the
/// image ends at once: nothing more is asked of the host, and the image is as it was.
pub proof fn law_missing_parent_touches_nothing(image: ImageView)
    requires
        path::parent_of(image.path) is Some,
    ensures
        create_step(image, CreateEvent::Begin) == (
            image,
            CreateActionView::ProbeParent(path::parent_of(image.path)->0),
        ),
        create_step(image, CreateEvent::ParentProbed(false)) == (
            image,
            CreateActionView::Finish(Err(parent_missing(path::parent_of(image.path)->0))),
        ),
{
}

/// Where everything succeeds, making an image goes in order: the directory is looked at, an earlier
/// file goes, the sparse file is made, it is attached, and the filesystem is made on the device
/// that attaching printed. In the end the image has that device.
pub proof fn law_create_goes_in_order(
    image: ImageView,
    truncated: CommandOutcome,
    attached: CommandOutcome,
    formatted: CommandOutcome,
)
    requires
        host::succeeded(truncated@),
        host::succeeded(attached@),
        host::succeeded(formatted@),
    ensures
        ({
            let device = loop_device::printed_device(attached@);
            let made = ImageView {
                loop_device: Some(loop_device::LoopDeviceView { path: device, owned: true }),
                ..image
            };
            let removed: Result<(), String> = Ok(());
            &&& create_step(image, CreateEvent::Begin) == (
                image,
                match path::parent_of(image.path) {
                    Some(directory) => CreateActionView::ProbeParent(directory),
                    None => CreateActionView::SparseFile(
                        SparseFileActionView::ProbeExists(image.path),
                    ),
                },
            )
            &&& create_step(image, CreateEvent::ParentProbed(true)) == (
                image,
                CreateActionView::SparseFile(SparseFileActionView::ProbeExists(image.path)),
            )
            &&& create_step(image, CreateEvent::SparseFile(SparseFileEvent::Probed(true))) == (
                image,
                CreateActionView::SparseFile(SparseFileActionView::RemoveFile(image.path)),
            )
            &&& create_step(image, CreateEvent::SparseFile(SparseFileEvent::Probed(false))) == (
                image,
                CreateActionView::SparseFile(SparseFileActionView::Run(truncate_command(image))),
            )
            &&& create_step(image, CreateEvent::SparseFile(SparseFileEvent::Removed(removed))) == (
                image,
                CreateActionView::SparseFile(SparseFileActionView::Run(truncate_command(image))),
            )
            &&& create_step(image, CreateEvent::SparseFile(SparseFileEvent::Ran(truncated))) == (
                image,
                CreateActionView::Attach(loop_device::attach_command(image.path)),
            )
            &&& create_step(image, CreateEvent::Attach(CommandEvent::Ran(attached))) == (
                made,
                CreateActionView::Format(mkfs_command(image.filesystem, device)),
            )
            &&& create_step(made, CreateEvent::Format(CommandEvent::Ran(formatted))) == (
                made,
                CreateActionView::Finish(Ok(())),
            )
        }),
{
}

/// A step of making an image that fails is the last: the failure of a command ends it with that
/// command's error, and what follows in the order is not asked for.
pub proof fn law_create_stops_at_a_failure(image: ImageView, outcome: CommandOutcome)
    requires
        !host::succeeded(outcome@),
    ensures
        create_step(image, CreateEvent::SparseFile(SparseFileEvent::Ran(outcome))) == (
            image,
            CreateActionView::Finish(
                Err(host::command_error(outcome@, "truncate"@, "truncate failed"@)),
            ),
        ),
        create_step(image, CreateEvent::Attach(CommandEvent::Ran(outcome))) == (
            image,
            CreateActionView::Finish(
                Err(host::command_error(outcome@, "losetup"@, "losetup failed"@)),
            ),
        ),
        image.loop_device is Some ==> create_step(
            image,
            CreateEvent::Format(CommandEvent::Ran(outcome)),
        ) == (
            image,
            CreateActionView::Finish(
                Err(
                    host::command_error(
                        outcome@,
                        mkfs_program(image.filesystem),
                        mkfs_program(image.filesystem) + " failed"@,
                    ),
                ),
            ),
        ),
{
}

/// An image that is attached keeps its file: removing it is refused as long as it is.
pub proof fn law_attached_image_is_not_removed(image: ImageView)
    requires
        image.loop_device is Some,
    ensures
        remove_step(image, RemoveEvent::Probed(true)) == RemoveActionView::Finish(
            Err(still_attached()),
        ),
{
}

/// Removing an image whose file is not there succeeds and does nothing.
pub proof fn law_absent_image_is_removed(image: ImageView)
    ensures
        remove_step(image, RemoveEvent::Probed(false)) == RemoveActionView::Finish(Ok(())),
{
}

/// Detaching undoes attaching: the image is what it was without a device, and its file can be
/// removed.
pub proof fn law_detached_image_can_be_removed(
    image: ImageView,
    attached: CommandOutcome,
    detached: CommandOutcome,
)
    requires
        image.loop_device is None,
        host::succeeded(attached@),
        host::succeeded(detached@),
    ensures
        ({
            let (with_device, _) = attach_loop_step(image, CommandEvent::Ran(attached));
            let (without, action) = detach_loop_step(with_device, CommandEvent::Ran(detached));
            &&& detach_loop_step(with_device, CommandEvent::Begin) == (
                with_device,
                CommandActionView::Run(
                    loop_device::detach_command(loop_device::printed_device(attached@)),
                ),
            )
            &&& action == CommandActionView::Finish(Ok(()))
            &&& without == image
            &&& remove_step(without, RemoveEvent::Probed(true)) == RemoveActionView::RemoveFile(
                image.path,
            )
        }),
{
}

/// Making the file of an image runs `truncate -s <size>G` on the image's own path, with the image's
/// own size in decimal.
pub proof fn law_file_is_made_in_the_images_size(image: ImageView)
    ensures
        sparse_file_step(image, SparseFileEvent::Probed(false)) == SparseFileActionView::Run(
            CommandView {
                program: "truncate"@,
                args: seq![
                    encode_utf8("-s"@),
                    encode_utf8(text::decimal(image.size_gib as nat) + "G"@),
                    image.path,
                ],
            },
        ),
        sparse_file_step(image, SparseFileEvent::Removed(Ok(()))) == sparse_file_step(
            image,
            SparseFileEvent::Probed(false),
        ),
{
}

/// Images of different sizes have their files made by different commands.
pub proof fn law_sizes_are_told_apart(image: ImageView, other: ImageView)
    requires
        sparse_file_step(image, SparseFileEvent::Probed(false)) == sparse_file_step(
            other,
            SparseFileEvent::Probed(false),
        ),
    ensures
        image.size_gib == other.size_gib,
        image.path == other.path,
{
    let a = text::decimal(image.size_gib as nat);
    let b = text::decimal(other.size_gib as nat);
    let args = truncate_command(image).args;
    let other_args = truncate_command(other).args;
    assert(args[1] == other_args[1]);
    assert(args[2] == other_args[2]);
    path::law_path_text_is_kept(a + "G"@);
    path::law_path_text_is_kept(b + "G"@);
    reveal_strlit("G");
    assert((a + "G"@).drop_last() =~= a);
    assert((b + "G"@).drop_last() =~= b);
    text::law_decimal_reads_back(image.size_gib as nat);
    text::law_decimal_reads_back(other.size_gib as nat);
}

/// A file that is there already is removed before the new one is made, and it is the image's own. A
/// file that cannot be removed ends it with the host's reason, and so does a failure of `truncate`.
pub proof fn law_earlier_file_goes_first(
    image: ImageView,
    reason: String,
    outcome: CommandOutcome,
)
    ensures
        sparse_file_step(image, SparseFileEvent::Begin) == SparseFileActionView::ProbeExists(
            image.path,
        ),
        sparse_file_step(image, SparseFileEvent::Probed(true)) == SparseFileActionView::RemoveFile(
            image.path,
        ),
        sparse_file_step(image, SparseFileEvent::Removed(Err(reason)))
            == SparseFileActionView::Finish(Err(ErrorView::Io(reason@))),
        sparse_file_step(image, SparseFileEvent::Ran(outcome)) == SparseFileActionView::Finish(
            Ok(()),
        ) <==> outcome@ matches host::OutcomeView::Exited { success: true, .. },
        outcome@ matches host::OutcomeView::Exited { success: false, stderr, .. }
            ==> sparse_file_step(image, SparseFileEvent::Ran(outcome))
            == SparseFileActionView::Finish(
            Err(
                ErrorView::BlockImageError(
                    "truncate failed"@ + ": "@ + text::trimmed(text::bytes_text(stderr)),
                ),
            ),
        ),
        outcome@ matches host::OutcomeView::NotStarted(why) ==> sparse_file_step(
            image,
            SparseFileEvent::Ran(outcome),
        ) == SparseFileActionView::Finish(
            Err(
                ErrorView::BlockImageError("failed to execute "@ + "truncate"@ + ": "@ + why),
            ),
        ),
{
}

/// An image is formatted by the program `mkfs.` with the image's own filesystem type behind it, on
/// the device that the image is attached to and on nothing else. An image that is not attached is
/// not formatted.
pub proof fn law_format_makes_the_images_filesystem(image: ImageView, event: CommandEvent)
    ensures
        image.loop_device matches Some(device) ==> format_step(image, CommandEvent::Begin)
            == CommandActionView::Run(
            CommandView { program: "mkfs."@ + image.filesystem, args: seq![device.path] },
        ),
        image.loop_device is None ==> format_step(image, event) == CommandActionView::Finish(
            Err(ErrorView::BlockImageError("loop device not attached"@)),
        ),
{
}

/// Images with different filesystem types are formatted by different programs, and images on
/// different devices with different arguments.
pub proof fn law_filesystems_are_told_apart(image: ImageView, other: ImageView)
    requires
        image.loop_device is Some,
        other.loop_device is Some,
        format_step(image, CommandEvent::Begin) == format_step(other, CommandEvent::Begin),
    ensures
        image.filesystem == other.filesystem,
        image.loop_device->0.path == other.loop_device->0.path,
{
    let start = "mkfs."@;
    law_format_makes_the_images_filesystem(image, CommandEvent::Begin);
    law_format_makes_the_images_filesystem(other, CommandEvent::Begin);
    assert(start + image.filesystem == start + other.filesystem);
    assert(image.filesystem =~= (start + image.filesystem).skip(start.len() as int));
    assert(other.filesystem =~= (start + other.filesystem).skip(start.len() as int));
    let args = seq![image.loop_device->0.path];
    let other_args = seq![other.loop_device->0.path];
    assert(args[0] == other_args[0]);
}

/// Formatting succeeds exactly where the program does. Else it is told why it did not, under the
/// program's name.
pub proof fn law_formatting_is_decided_by_mkfs(image: ImageView, outcome: CommandOutcome)
    requires
        image.loop_device is Some,
    ensures
        ({
            let action = format_step(image, CommandEvent::Ran(outcome));
            let program = "mkfs."@ + image.filesystem;
            &&& action == CommandActionView::Finish(Ok(())) <==> (outcome@
                matches host::OutcomeView::Exited { success: true, .. })
            &&& outcome@ matches host::OutcomeView::Exited { success: false, stderr, .. }
                ==> action == CommandActionView::Finish(
                Err(
                    ErrorView::BlockImageError(
                        program + " failed"@ + ": "@ + text::trimmed(text::bytes_text(stderr)),
                    ),
                ),
            )
            &&& outcome@ matches host::OutcomeView::NotStarted(reason) ==> action
                == CommandActionView::Finish(
                Err(
                    ErrorView::BlockImageError(
                        "failed to execute "@ + program + ": "@ + reason,
                    ),
                ),
            )
        }),
{
}

/// Attaching an image gives it the device that `losetup` printed for its own file and changes
/// nothing else about it; a failure leaves the image as it was.
pub proof fn law_attaching_changes_the_device_alone(image: ImageView, outcome: CommandOutcome)
    ensures
        attach_loop_step(image, CommandEvent::Begin) == (
            image,
            CommandActionView::Run(
                CommandView {
                    program: "losetup"@,
                    args: seq![encode_utf8("-f"@), encode_utf8("--show"@), image.path],
                },
            ),
        ),
        ({
            let (after, action) = attach_loop_step(image, CommandEvent::Ran(outcome));
            &&& after.path == image.path
            &&& after.size_gib == image.size_gib
            &&& after.filesystem == image.filesystem
            &&& outcome@ matches host::OutcomeView::Exited { success: true, stdout, .. } ==> {
                &&& action == CommandActionView::Finish(Ok(()))
                &&& after.loop_device is Some
                &&& after.loop_device->0.owned
                &&& after.loop_device->0.path == encode_utf8(
                    text::trimmed(text::bytes_text(stdout)),
                )
            }
            &&& !(outcome@ matches host::OutcomeView::Exited { success: true, .. }) ==> after
                == image && action is Finish && action != CommandActionView::Finish(Ok(()))
        }),
{
}

/// Making an image goes through all of its steps with the image's own path, size and filesystem:
/// its directory is looked at, its file made, the file attached, and its filesystem made on the
/// device that was printed. Only after the last of them it has succeeded.
pub proof fn law_create_runs_these_commands(
    image: ImageView,
    truncated: CommandOutcome,
    attached: CommandOutcome,
    formatted: CommandOutcome,
)
    requires
        truncated@ matches host::OutcomeView::Exited { success: true, .. },
        attached@ matches host::OutcomeView::Exited { success: true, .. },
        formatted@ matches host::OutcomeView::Exited { success: true, .. },
    ensures
        ({
            let device = encode_utf8(text::trimmed(text::bytes_text(attached@->stdout)));
            let (after_probe, probed) = create_step(
                image,
                CreateEvent::SparseFile(SparseFileEvent::Probed(false)),
            );
            let (after_file, file_made) = create_step(
                image,
                CreateEvent::SparseFile(SparseFileEvent::Ran(truncated)),
            );
            let (made, device_given) = create_step(
                image,
                CreateEvent::Attach(CommandEvent::Ran(attached)),
            );
            let (ended, result) = create_step(
                made,
                CreateEvent::Format(CommandEvent::Ran(formatted)),
            );
            &&& after_probe == image
            &&& probed == CreateActionView::SparseFile(
                SparseFileActionView::Run(
                    CommandView {
                        program: "truncate"@,
                        args: seq![
                            encode_utf8("-s"@),
                            encode_utf8(text::decimal(image.size_gib as nat) + "G"@),
                            image.path,
                        ],
                    },
                ),
            )
            &&& after_file == image
            &&& file_made == CreateActionView::Attach(
                CommandView {
                    program: "losetup"@,
                    args: seq![encode_utf8("-f"@), encode_utf8("--show"@), image.path],
                },
            )
            &&& device_given == CreateActionView::Format(
                CommandView { program: "mkfs."@ + image.filesystem, args: seq![device] },
            )
            &&& made.path == image.path
            &&& made.size_gib == image.size_gib
            &&& made.filesystem == image.filesystem
            &&& made.loop_device == Some(
                loop_device::LoopDeviceView { path: device, owned: true },
            )
            &&& ended == made
            &&& result == CreateActionView::Finish(Ok(()))
        }),
{
}

/// A directory that is not there is told by its name.
pub proof fn law_missing_parent_is_told(directory: Seq<u8>)
    ensures
        parent_missing(directory) == ErrorView::BlockImageError(
            "parent directory does not exist: "@ + text::bytes_text(directory),
        ),
{
}

/// Opening an image file attaches that file. The image has its path and the printed device; a
/// failure to attach is a failure to open.
pub proof fn law_opened_image_is_the_file_attached(path: Seq<u8>, outcome: host::OutcomeView)
    ensures
        opened_image(path, outcome) is Ok <==> outcome matches host::OutcomeView::Exited {
            success: true,
            ..
        },
        outcome matches host::OutcomeView::Exited { success: true, stdout, .. } ==> {
            let image = opened_image(path, outcome)->Ok_0;
            &&& image.path == path
            &&& image.size_gib == 0
            &&& image.filesystem.len() == 0
            &&& image.loop_device is Some
            &&& image.loop_device->0.owned
            &&& image.loop_device->0.path == encode_utf8(text::trimmed(text::bytes_text(stdout)))
        },
        opened_image(path, outcome) matches Err(e) ==> loop_device::attached_device(outcome)
            == Err::<loop_device::LoopDeviceView, ErrorView>(e),
{
}

/// Detaching an image takes its device from it once that was detached, or was never to be, and
/// changes nothing else; as long as it is not done, the image keeps its device.
pub proof fn law_detaching_takes_the_device_alone(image: ImageView, event: CommandEvent)
    ensures
        ({
            let (after, action) = detach_loop_step(image, event);
            &&& after.path == image.path
            &&& after.size_gib == image.size_gib
            &&& after.filesystem == image.filesystem
            &&& after.loop_device is None <==> image.loop_device is None || action
                == CommandActionView::Finish(Ok(()))
            &&& after.loop_device is Some ==> after.loop_device == image.loop_device
            &&& image.loop_device matches Some(device) ==> action == loop_device::detach_step(
                device,
                event,
            )
            &&& image.loop_device is None ==> action == CommandActionView::Finish(Ok(()))
        }),
{
}

/// Removing an image looks at its own file and removes that. It is refused, in these words, for an
/// image that is attached and whose file is there; a file that cannot be removed is told with the
/// host's reason.
pub proof fn law_removing_is_of_the_images_file(image: ImageView, reason: String)
    ensures
        remove_step(image, RemoveEvent::Begin) == RemoveActionView::ProbeExists(image.path),
        remove_step(image, RemoveEvent::Probed(false)) == RemoveActionView::Finish(Ok(())),
        image.loop_device is None ==> remove_step(image, RemoveEvent::Probed(true))
            == RemoveActionView::RemoveFile(image.path),
        image.loop_device is Some ==> remove_step(image, RemoveEvent::Probed(true))
            == RemoveActionView::Finish(
            Err(
                ErrorView::BlockImageError(
                    "cannot remove block image: loop device is still attached, call detach_loop() first"@,
                ),
            ),
        ),
        remove_step(image, RemoveEvent::Removed(Ok(()))) == RemoveActionView::Finish(Ok(())),
        remove_step(image, RemoveEvent::Removed(Err(reason))) == RemoveActionView::Finish(
            Err(ErrorView::Io(reason@)),
        ),
{
}

/// The views of the steps show what the host is asked for.
pub proof fn law_lifecycle_views_keep_everything(
    sparse: SparseFileAction,
    create: CreateAction,
    remove: RemoveAction,
)
    ensures
        sparse matches SparseFileAction::ProbeExists(path) ==> sparse@
            == SparseFileActionView::ProbeExists(path@),
        sparse matches SparseFileAction::RemoveFile(path) ==> sparse@
            == SparseFileActionView::RemoveFile(path@),
        sparse matches SparseFileAction::Run(line) ==> sparse@ == SparseFileActionView::Run(line@),
        sparse matches SparseFileAction::Finish(Ok(_)) ==> sparse@ == SparseFileActionView::Finish(
            Ok(()),
        ),
        sparse matches SparseFileAction::Finish(Err(e)) ==> sparse@ == SparseFileActionView::Finish(
            Err(e@),
        ),
        create matches CreateAction::ProbeParent(path) ==> create@ == CreateActionView::ProbeParent(
            path@,
        ),
        create matches CreateAction::SparseFile(action) ==> create@ == CreateActionView::SparseFile(
            action@,
        ),
        create matches CreateAction::Attach(line) ==> create@ == CreateActionView::Attach(line@),
        create matches CreateAction::Format(line) ==> create@ == CreateActionView::Format(line@),
        create matches CreateAction::Finish(Ok(_)) ==> create@ == CreateActionView::Finish(Ok(())),
        create matches CreateAction::Finish(Err(e)) ==> create@ == CreateActionView::Finish(
            Err(e@),
        ),
        remove matches RemoveAction::ProbeExists(path) ==> remove@ == RemoveActionView::ProbeExists(
            path@,
        ),
        remove matches RemoveAction::RemoveFile(path) ==> remove@ == RemoveActionView::RemoveFile(
            path@,
        ),
        remove matches RemoveAction::Finish(Ok(_)) ==> remove@ == RemoveActionView::Finish(Ok(())),
        remove matches RemoveAction::Finish(Err(e)) ==> remove@ == RemoveActionView::Finish(
            Err(e@),
        ),
{
}

/// Making an image takes up what its parts give, whatever it is: what a part asks for is asked for,
/// a failure of a part is the failure of the whole, and nothing but the success of a part leads to
/// the next one.
pub proof fn law_create_takes_up_its_parts(
    image: ImageView,
    file: SparseFileEvent,
    event: CommandEvent,
)
    ensures
        ({
            let (after, action) = create_step(image, CreateEvent::SparseFile(file));
            &&& after == image
            &&& match sparse_file_step(image, file) {
                SparseFileActionView::Finish(Ok(_)) => action == CreateActionView::Attach(
                    CommandView {
                        program: "losetup"@,
                        args: seq![encode_utf8("-f"@), encode_utf8("--show"@), image.path],
                    },
                ),
                SparseFileActionView::Finish(Err(e)) => action == CreateActionView::Finish(Err(e)),
                asked => action == CreateActionView::SparseFile(asked),
            }
        }),
        ({
            let (after, action) = create_step(image, CreateEvent::Attach(event));
            let (attached, part) = attach_loop_step(image, event);
            &&& after == attached
            &&& match part {
                CommandActionView::Run(command) => action == CreateActionView::Attach(command),
                CommandActionView::Finish(Err(e)) => action == CreateActionView::Finish(Err(e)),
                CommandActionView::Finish(Ok(_)) => attached.loop_device matches Some(device)
                    && action == CreateActionView::Format(
                    CommandView { program: "mkfs."@ + image.filesystem, args: seq![device.path] },
                ),
            }
        }),
        ({
            let (after, action) = create_step(image, CreateEvent::Format(event));
            &&& after == image
            &&& match format_step(image, event) {
                CommandActionView::Run(command) => action == CreateActionView::Format(command),
                CommandActionView::Finish(r) => action == CreateActionView::Finish(r),
            }
        }),
{
}

} // verus!
