//! Loop devices, and other block devices that are used as they are.

use crate::error::{ErrorView, MicrosandboxError};
use crate::host;
use crate::host::{
    CommandAction, CommandActionView, CommandEvent, CommandLine, CommandOutcome, CommandView,
    OutcomeView,
};
use crate::path::FsPath;
use crate::text;
use vstd::prelude::*;
use vstd::utf8::*;

verus! {

/// A block device: a loop device over a file, or a device that exists by itself.
#[derive(Debug, PartialEq, Eq)]
pub struct LoopDevice {
    device_path: FsPath,
    owned: bool,
}

/// A [`LoopDevice`] by its contents.
pub struct LoopDeviceView {
    /// Where the device is.
    pub path: Seq<u8>,
    /// Whether the device was attached here and is to be detached here.
    pub owned: bool,
}

impl View for LoopDevice {
    type V = LoopDeviceView;

    closed spec fn view(&self) -> LoopDeviceView {
        LoopDeviceView { path: self.device_path@, owned: self.owned }
    }
}

/// What attaching a loop device does next.
#[derive(Debug, PartialEq, Eq)]
pub enum AttachAction {
    /// Run this and come back with [`CommandEvent::Ran`].
    Run(CommandLine),
    /// It is done: the device, or why there is none.
    Finish(Result<LoopDevice, MicrosandboxError>),
}

/// The command that attaches a file to a free loop device and prints the device.
pub open spec fn attach_command(backing_file: Seq<u8>) -> CommandView {
    CommandView {
        program: "losetup"@,
        args: seq![encode_utf8("-f"@), encode_utf8("--show"@), backing_file],
    }
}

/// The command that detaches a loop device.
pub open spec fn detach_command(device_path: Seq<u8>) -> CommandView {
    CommandView { program: "losetup"@, args: seq![encode_utf8("-d"@), device_path] }
}

/// The device that attaching printed: its standard output without surrounding white space.
pub open spec fn printed_device(outcome: OutcomeView) -> Seq<u8> {
    encode_utf8(text::trimmed(text::bytes_text(outcome->stdout)))
}

/// The device that attaching gives.
pub open spec fn attached_device(outcome: OutcomeView) -> Result<LoopDeviceView, ErrorView> {
    if host::succeeded(outcome) {
        Ok(LoopDeviceView { path: printed_device(outcome), owned: true })
    } else {
        Err(host::command_error(outcome, "losetup"@, "losetup failed"@))
    }
}

/// A result by the contents of its device or its error.
pub open spec fn device_result_view(r: Result<LoopDevice, MicrosandboxError>) -> Result<
    LoopDeviceView,
    ErrorView,
> {
    match r {
        Ok(device) => Ok(device@),
        Err(e) => Err(e@),
    }
}

/// What detaching a device does next. A device that was not attached here is left alone.
pub open spec fn detach_step(device: LoopDeviceView, event: CommandEvent) -> CommandActionView {
    if !device.owned {
        CommandActionView::Finish(Ok(()))
    } else {
        match event {
            CommandEvent::Begin => CommandActionView::Run(detach_command(device.path)),
            CommandEvent::Ran(outcome) => CommandActionView::Finish(
                host::command_result(outcome@, "losetup -d"@, "losetup -d failed"@),
            ),
        }
    }
}

impl LoopDevice {
    /// Attaches a file to a loop device with `losetup`.
    pub fn attach(backing_file: &FsPath, event: CommandEvent) -> (r: AttachAction)
        ensures
            match event {
                CommandEvent::Begin => r matches AttachAction::Run(command) && command@
                    == attach_command(backing_file@),
                CommandEvent::Ran(outcome) => r matches AttachAction::Finish(device)
                    && device_result_view(device) == attached_device(outcome@),
            },
    {
        match event {
            CommandEvent::Begin => {
                let mut args: Vec<Vec<u8>> = Vec::new();
                args.push("-f".as_bytes_vec());
                args.push("--show".as_bytes_vec());
                args.push(backing_file.to_bytes());
                let command = CommandLine { program: "losetup".to_owned(), args };
                assert(command@.args =~= attach_command(backing_file@).args);
                AttachAction::Run(command)
            },
            CommandEvent::Ran(outcome) => match &outcome {
                CommandOutcome::Exited { success: true, stdout, .. } => {
                    let printed = text::lossy_text(stdout.as_slice());
                    let device_path = FsPath::from_text(printed.trim());
                    AttachAction::Finish(Ok(LoopDevice { device_path, owned: true }))
                },
                _ => AttachAction::Finish(
                    Err(host::command_failure(&outcome, "losetup", "losetup failed")),
                ),
            },
        }
    }

    /// Stands for a block device that exists already, such as an OverlayBD device. It is never
    /// detached.
    pub fn from_existing(device_path: FsPath) -> (r: LoopDevice)
        ensures
            r@ == (LoopDeviceView { path: device_path@, owned: false }),
    {
        LoopDevice { device_path, owned: false }
    }

    /// Where the device is.
    pub fn path(&self) -> (r: &FsPath)
        ensures
            r@ == self@.path,
    {
        &self.device_path
    }

    /// Whether the device was attached here.
    pub fn is_owned(&self) -> (r: bool)
        ensures
            r == self@.owned,
    {
        self.owned
    }

    /// Detaches the device, if it was attached here.
    pub fn detach(&self, event: CommandEvent) -> (r: CommandAction)
        ensures
            r@ == detach_step(self@, event),
    {
        if !self.owned {
            return CommandAction::Finish(Ok(()));
        }
        match event {
            CommandEvent::Begin => {
                let mut args: Vec<Vec<u8>> = Vec::new();
                args.push("-d".as_bytes_vec());
                args.push(self.device_path.to_bytes());
                let command = CommandLine { program: "losetup".to_owned(), args };
                assert(command@.args =~= detach_command(self@.path).args);
                CommandAction::Run(command)
            },
            CommandEvent::Ran(outcome) => CommandAction::Finish(
                host::check_command(&outcome, "losetup -d", "losetup -d failed"),
            ),
        }
    }
}

/// A device that was not attached here is never touched: detaching it succeeds at once.
pub proof fn law_existing_device_is_left_alone(device_path: Seq<u8>, event: CommandEvent)
    ensures
        detach_step(LoopDeviceView { path: device_path, owned: false }, event)
            == CommandActionView::Finish(Ok(())),
{
}

/// What was attached is what is detached: the device that `losetup` printed.
pub proof fn law_attached_device_is_detached(attached: OutcomeView)
    requires
        host::succeeded(attached),
    ensures
        attached_device(attached) matches Ok(device) && detach_step(device, CommandEvent::Begin)
            == CommandActionView::Run(detach_command(printed_device(attached))),
{
}

/// Attaching runs `losetup -f --show` on the file itself; detaching runs `losetup -d` on the device
/// itself, if it was attached here.
pub proof fn law_losetup_is_run_on_file_and_device(backing_file: Seq<u8>, device_path: Seq<u8>)
    ensures
        attach_command(backing_file).program == "losetup"@,
        attach_command(backing_file).args == seq![
            encode_utf8("-f"@),
            encode_utf8("--show"@),
            backing_file,
        ],
        detach_step(LoopDeviceView { path: device_path, owned: true }, CommandEvent::Begin)
            == CommandActionView::Run(
            CommandView { program: "losetup"@, args: seq![encode_utf8("-d"@), device_path] },
        ),
{
}

/// Attaching gives a device exactly where `losetup` succeeded: the one that it printed, without the
/// white space around it, to be detached here. Else it is told why there is none.
pub proof fn law_attaching_gives_what_was_printed(outcome: OutcomeView)
    ensures
        attached_device(outcome) is Ok <==> outcome matches OutcomeView::Exited {
            success: true,
            ..
        },
        outcome matches OutcomeView::Exited { success: true, stdout, .. } ==> attached_device(
            outcome,
        ) == Ok::<LoopDeviceView, ErrorView>(
            LoopDeviceView {
                path: encode_utf8(text::trimmed(text::bytes_text(stdout))),
                owned: true,
            },
        ),
        outcome matches OutcomeView::Exited { success: false, stderr, .. } ==> attached_device(
            outcome,
        ) == Err::<LoopDeviceView, ErrorView>(
            ErrorView::BlockImageError(
                "losetup failed"@ + ": "@ + text::trimmed(text::bytes_text(stderr)),
            ),
        ),
        outcome matches OutcomeView::NotStarted(reason) ==> attached_device(outcome) == Err::<
            LoopDeviceView,
            ErrorView,
        >(ErrorView::BlockImageError("failed to execute "@ + "losetup"@ + ": "@ + reason)),
{
}

/// Detaching a device that was attached here succeeds exactly where `losetup -d` does. Else it is
/// told why it did not.
pub proof fn law_detaching_is_decided_by_losetup(device_path: Seq<u8>, outcome: CommandOutcome)
    ensures
        ({
            let device = LoopDeviceView { path: device_path, owned: true };
            let action = detach_step(device, CommandEvent::Ran(outcome));
            &&& action == CommandActionView::Finish(Ok(())) <==> (outcome@
                matches OutcomeView::Exited { success: true, .. })
            &&& outcome@ matches OutcomeView::Exited { success: false, stderr, .. } ==> action
                == CommandActionView::Finish(
                Err(
                    ErrorView::BlockImageError(
                        "losetup -d failed"@ + ": "@ + text::trimmed(text::bytes_text(stderr)),
                    ),
                ),
            )
            &&& outcome@ matches OutcomeView::NotStarted(reason) ==> action
                == CommandActionView::Finish(
                Err(
                    ErrorView::BlockImageError(
                        "failed to execute "@ + "losetup -d"@ + ": "@ + reason,
                    ),
                ),
            )
        }),
{
}

} // verus!
