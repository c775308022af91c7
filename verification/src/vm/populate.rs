//! Filling a block image with the contents of layers.
//!
//! The image is mounted, the layers are copied into it from the bottom up, permissions are
//! restored, and the image is unmounted whatever became of the copying.

use crate::error;
use crate::error::{ErrorView, MicrosandboxError};
use crate::host;
use crate::host::{
    CommandAction, CommandActionView, CommandEvent, CommandLine, CommandOutcome, CommandView,
    OutcomeView,
};
use crate::path::FsPath;
use crate::text;
use crate::vm::block_image::{BlockImage, ImageView};
use crate::vm::lifecycle;
use crate::vm::permissions;
use vstd::prelude::*;
use vstd::utf8::*;

verus! {

/// The command that mounts a device.
pub open spec fn mount_command(device_path: Seq<u8>, target: Seq<u8>) -> CommandView {
    CommandView { program: "mount"@, args: seq![device_path, target] }
}

/// The command that unmounts what is mounted at a directory.
pub open spec fn unmount_command(target: Seq<u8>) -> CommandView {
    CommandView { program: "umount"@, args: seq![target] }
}

/// The command that copies the contents of a layer, with their attributes, into a directory.
pub open spec fn copy_command(layer: Seq<u8>, target: Seq<u8>) -> CommandView {
    CommandView {
        program: "cp"@,
        args: seq![encode_utf8("-a"@), layer + encode_utf8("/."@), target],
    }
}

/// What mounting an image does next.
pub open spec fn mount_step(
    image: ImageView,
    target: Seq<u8>,
    event: CommandEvent,
) -> CommandActionView {
    match image.loop_device {
        None => CommandActionView::Finish(Err(lifecycle::not_attached())),
        Some(device) => match event {
            CommandEvent::Begin => CommandActionView::Run(mount_command(device.path, target)),
            CommandEvent::Ran(outcome) => CommandActionView::Finish(
                host::command_result(outcome@, "mount"@, "mount failed"@),
            ),
        },
    }
}

/// What unmounting does next.
pub open spec fn unmount_step(target: Seq<u8>, event: CommandEvent) -> CommandActionView {
    match event {
        CommandEvent::Begin => CommandActionView::Run(unmount_command(target)),
        CommandEvent::Ran(outcome) => CommandActionView::Finish(unmount_result(outcome@)),
    }
}

/// What unmounting comes to.
pub open spec fn unmount_result(outcome: OutcomeView) -> Result<(), ErrorView> {
    host::command_result(outcome, "umount"@, "umount failed"@)
}

/// What is said of a layer that is not there.
pub open spec fn layer_missing(layer: Seq<u8>) -> ErrorView {
    ErrorView::BlockImageError("layer not found: "@ + text::bytes_text(layer))
}

/// What is said of a layer that could not be copied.
pub open spec fn copy_error(layer: Seq<u8>, outcome: OutcomeView) -> ErrorView {
    host::command_error(outcome, "cp"@, "cp failed for layer "@ + text::bytes_text(layer))
}

/// The copying of layers into a mounted image.
pub struct CopyView {
    /// Where the image is mounted.
    pub mount_point: Seq<u8>,
    /// The layers, from the bottom up.
    pub layers: Seq<Seq<u8>>,
    /// How many of them were copied.
    pub copied: nat,
}

/// What is to be filled, and with what.
pub struct FillView {
    /// The device that the image is attached to.
    pub device: Option<Seq<u8>>,
    /// The layers, from the bottom up.
    pub layers: Seq<Seq<u8>>,
}

/// What the host is to do next to fill an image.
#[derive(Debug)]
pub enum PopulateAction {
    /// Make an empty directory to mount the image at. It goes when the filling is over.
    MakeMountPoint { then: MountPointPending },
    /// Run this to mount the image.
    Mount { command: CommandLine, then: MountPending },
    /// See whether this layer is there.
    ProbeLayer { layer: FsPath, then: LayerProbePending },
    /// Run this to copy a layer.
    CopyLayer { command: CommandLine, then: LayerCopyPending },
    /// Restore the permissions of everything under this directory.
    RestorePermissions { mount_point: FsPath, then: RestorePending },
    /// Run this to unmount the image.
    Unmount { command: CommandLine, then: UnmountPending },
    /// It is over.
    Finish(Result<(), MicrosandboxError>),
}

/// A [`PopulateAction`] by its contents, with what is known so far.
pub enum PopulateActionView {
    MakeMountPoint { fill: FillView },
    Mount { command: CommandView, copy: CopyView },
    ProbeLayer { layer: Seq<u8>, copy: CopyView },
    CopyLayer { command: CommandView, copy: CopyView },
    RestorePermissions { mount_point: Seq<u8>, unmounts: Seq<u8> },
    Unmount { command: CommandView, failure: Option<ErrorView> },
    Finish(Result<(), ErrorView>),
}

/// The layers that are being copied, and where to.
#[derive(Debug)]
struct Copying {
    mount_point: FsPath,
    layers: Vec<FsPath>,
    copied: usize,
}

impl Copying {
    spec fn state(self) -> CopyView {
        CopyView {
            mount_point: self.mount_point@,
            layers: permissions::paths_view(self.layers@),
            copied: self.copied as nat,
        }
    }

    #[verifier::type_invariant]
    spec fn is_within(self) -> bool {
        self.copied <= self.layers@.len()
    }
}

/// The directory to mount at is being made.
#[derive(Debug)]
pub struct MountPointPending {
    device: Option<FsPath>,
    layers: Vec<FsPath>,
}

/// The image is being mounted.
#[derive(Debug)]
pub struct MountPending {
    copying: Copying,
}

/// A layer is being looked for.
#[derive(Debug)]
pub struct LayerProbePending {
    copying: Copying,
}

/// A layer is being copied.
#[derive(Debug)]
pub struct LayerCopyPending {
    copying: Copying,
}

/// Permissions are being restored.
#[derive(Debug)]
pub struct RestorePending {
    mount_point: FsPath,
}

/// The image is being unmounted.
#[derive(Debug)]
pub struct UnmountPending {
    failure: Option<MicrosandboxError>,
}

impl View for MountPointPending {
    type V = FillView;

    closed spec fn view(&self) -> FillView {
        FillView {
            device: match self.device {
                Some(device) => Some(device@),
                None => None,
            },
            layers: permissions::paths_view(self.layers@),
        }
    }
}

impl View for MountPending {
    type V = CopyView;

    closed spec fn view(&self) -> CopyView {
        self.copying.state()
    }
}

impl View for LayerProbePending {
    type V = CopyView;

    closed spec fn view(&self) -> CopyView {
        self.copying.state()
    }
}

impl View for LayerCopyPending {
    type V = CopyView;

    closed spec fn view(&self) -> CopyView {
        self.copying.state()
    }
}

impl View for RestorePending {
    type V = Seq<u8>;

    closed spec fn view(&self) -> Seq<u8> {
        self.mount_point@
    }
}

impl View for UnmountPending {
    type V = Option<ErrorView>;

    closed spec fn view(&self) -> Option<ErrorView> {
        match self.failure {
            Some(e) => Some(e@),
            None => None,
        }
    }
}

impl LayerProbePending {
    #[verifier::type_invariant]
    spec fn has_layer(self) -> bool {
        self@.copied < self@.layers.len()
    }
}

impl LayerCopyPending {
    #[verifier::type_invariant]
    spec fn has_layer(self) -> bool {
        self@.copied < self@.layers.len()
    }
}

impl View for PopulateAction {
    type V = PopulateActionView;

    open spec fn view(&self) -> PopulateActionView {
        match self {
            PopulateAction::MakeMountPoint { then } => PopulateActionView::MakeMountPoint {
                fill: then@,
            },
            PopulateAction::Mount { command, then } => PopulateActionView::Mount {
                command: command@,
                copy: then@,
            },
            PopulateAction::ProbeLayer { layer, then } => PopulateActionView::ProbeLayer {
                layer: layer@,
                copy: then@,
            },
            PopulateAction::CopyLayer { command, then } => PopulateActionView::CopyLayer {
                command: command@,
                copy: then@,
            },
            PopulateAction::RestorePermissions {
                mount_point,
                then,
            } => PopulateActionView::RestorePermissions {
                mount_point: mount_point@,
                unmounts: then@,
            },
            PopulateAction::Unmount { command, then } => PopulateActionView::Unmount {
                command: command@,
                failure: then@,
            },
            PopulateAction::Finish(r) => PopulateActionView::Finish(error::result_view(*r)),
        }
    }
}

/// What filling an image does first: nothing where there are no layers.
pub open spec fn populate_step(image: ImageView, layers: Seq<Seq<u8>>) -> PopulateActionView {
    if layers.len() == 0 {
        PopulateActionView::Finish(Ok(()))
    } else {
        PopulateActionView::MakeMountPoint {
            fill: FillView {
                device: match image.loop_device {
                    Some(device) => Some(device.path),
                    None => None,
                },
                layers,
            },
        }
    }
}

/// What follows once the directory to mount at was made, or could not be: the device of the image
/// that is filled is mounted there, if the image has one.
pub open spec fn mount_point_step(
    fill: FillView,
    made: Result<Seq<u8>, Seq<char>>,
) -> PopulateActionView {
    match made {
        Err(reason) => PopulateActionView::Finish(
            Err(ErrorView::BlockImageError("failed to create mount point: "@ + reason)),
        ),
        Ok(mount_point) => match fill.device {
            Some(device) => PopulateActionView::Mount {
                command: mount_command(device, mount_point),
                copy: CopyView { mount_point, layers: fill.layers, copied: 0 },
            },
            None => PopulateActionView::Finish(Err(lifecycle::not_attached())),
        },
    }
}

/// What follows once so many layers were copied: the next one, or the permissions.
pub open spec fn next_step(copy: CopyView) -> PopulateActionView {
    if copy.copied < copy.layers.len() {
        PopulateActionView::ProbeLayer { layer: copy.layers[copy.copied as int], copy }
    } else {
        PopulateActionView::RestorePermissions {
            mount_point: copy.mount_point,
            unmounts: copy.mount_point,
        }
    }
}

/// What follows once the image was mounted, or could not be.
pub open spec fn mounted_step(copy: CopyView, outcome: OutcomeView) -> PopulateActionView {
    match host::command_result(outcome, "mount"@, "mount failed"@) {
        Ok(_) => next_step(copy),
        Err(e) => PopulateActionView::Finish(Err(e)),
    }
}

/// The unmounting that follows, with the failure that it will report.
pub open spec fn then_unmount(
    mount_point: Seq<u8>,
    failure: Option<ErrorView>,
) -> PopulateActionView {
    PopulateActionView::Unmount { command: unmount_command(mount_point), failure }
}

/// What follows once it was seen whether the next layer is there.
pub open spec fn probed_step(copy: CopyView, exists: bool) -> PopulateActionView {
    let layer = copy.layers[copy.copied as int];
    if exists {
        PopulateActionView::CopyLayer { command: copy_command(layer, copy.mount_point), copy }
    } else {
        then_unmount(copy.mount_point, Some(layer_missing(layer)))
    }
}

/// What follows once the next layer was copied, or could not be.
pub open spec fn copied_step(copy: CopyView, outcome: OutcomeView) -> PopulateActionView {
    if host::succeeded(outcome) {
        next_step(CopyView { copied: copy.copied + 1, ..copy })
    } else {
        then_unmount(
            copy.mount_point,
            Some(copy_error(copy.layers[copy.copied as int], outcome)),
        )
    }
}

/// What filling an image comes to once it was unmounted, or could not be: an earlier failure comes
/// first.
pub open spec fn unmounted_step(
    failure: Option<ErrorView>,
    outcome: OutcomeView,
) -> PopulateActionView {
    match failure {
        Some(e) => PopulateActionView::Finish(Err(e)),
        None => PopulateActionView::Finish(unmount_result(outcome)),
    }
}

impl Copying {
    fn proceed(self) -> (r: PopulateAction)
        ensures
            r@ == next_step(self.state()),
    {
        if self.copied < self.layers.len() {
            let layer = self.layers[self.copied].clone();
            PopulateAction::ProbeLayer { layer, then: LayerProbePending { copying: self } }
        } else {
            let mount_point = self.mount_point.clone();
            PopulateAction::RestorePermissions {
                mount_point,
                then: RestorePending { mount_point: self.mount_point },
            }
        }
    }
}

/// Asks for the unmounting.
fn unmount_now(mount_point: FsPath, failure: Option<MicrosandboxError>) -> (r: PopulateAction)
    ensures
        r@ == then_unmount(
            mount_point@,
            match failure {
                Some(e) => Some(e@),
                None => None,
            },
        ),
{
    let command = unmount_line(&mount_point);
    PopulateAction::Unmount { command, then: UnmountPending { failure } }
}

fn mount_line(device_path: &FsPath, target: &FsPath) -> (r: CommandLine)
    ensures
        r@ == mount_command(device_path@, target@),
{
    let mut args: Vec<Vec<u8>> = Vec::new();
    args.push(device_path.to_bytes());
    args.push(target.to_bytes());
    let command = CommandLine { program: "mount".to_owned(), args };
    assert(command@.args =~= mount_command(device_path@, target@).args);
    command
}

fn unmount_line(target: &FsPath) -> (r: CommandLine)
    ensures
        r@ == unmount_command(target@),
{
    let mut args: Vec<Vec<u8>> = Vec::new();
    args.push(target.to_bytes());
    let command = CommandLine { program: "umount".to_owned(), args };
    assert(command@.args =~= unmount_command(target@).args);
    command
}

fn copy_line(layer: &FsPath, target: &FsPath) -> (r: CommandLine)
    ensures
        r@ == copy_command(layer@, target@),
{
    let mut source: Vec<u8> = layer.to_bytes();
    let contents: Vec<u8> = "/.".as_bytes_vec();
    source.extend_from_slice(contents.as_slice());
    assert(source@ =~= layer@ + encode_utf8("/."@));
    let mut args: Vec<Vec<u8>> = Vec::new();
    args.push("-a".as_bytes_vec());
    args.push(source);
    args.push(target.to_bytes());
    let command = CommandLine { program: "cp".to_owned(), args };
    assert(command@.args =~= copy_command(layer@, target@).args);
    command
}

impl BlockImage {
    /// Fills the image with the contents of layers, the base layer first and the top layer last.
    pub fn populate_from_layers(&self, layers: Vec<FsPath>) -> (r: PopulateAction)
        ensures
            r@ == populate_step(self@, permissions::paths_view(layers@)),
    {
        if layers.len() == 0 {
            return PopulateAction::Finish(Ok(()));
        }
        let device: Option<FsPath> = match &self.loop_device {
            Some(device) => Some(device.path().clone()),
            None => None,
        };
        PopulateAction::MakeMountPoint { then: MountPointPending { device, layers } }
    }

    /// Mounts the image at a directory.
    pub fn mount(&self, target: &FsPath, event: CommandEvent) -> (r: CommandAction)
        ensures
            r@ == mount_step(self@, target@, event),
    {
        match &self.loop_device {
            None => CommandAction::Finish(
                Err(MicrosandboxError::BlockImageError("loop device not attached".to_owned())),
            ),
            Some(device) => match event {
                CommandEvent::Begin => CommandAction::Run(mount_line(device.path(), target)),
                CommandEvent::Ran(outcome) => CommandAction::Finish(
                    host::check_command(&outcome, "mount", "mount failed"),
                ),
            },
        }
    }

    /// Unmounts the image from a directory.
    pub fn unmount(&self, target: &FsPath, event: CommandEvent) -> (r: CommandAction)
        ensures
            r@ == unmount_step(target@, event),
    {
        match event {
            CommandEvent::Begin => CommandAction::Run(unmount_line(target)),
            CommandEvent::Ran(outcome) => CommandAction::Finish(
                host::check_command(&outcome, "umount", "umount failed"),
            ),
        }
    }
}

impl MountPointPending {
    /// Goes on with the directory to mount at, or with the reason why there is none.
    pub fn resume(self, made: Result<FsPath, String>) -> (r: PopulateAction)
        ensures
            r@ == mount_point_step(
                self@,
                match made {
                    Ok(path) => Ok(path@),
                    Err(reason) => Err(reason@),
                },
            ),
    {
        match made {
            Err(reason) => {
                let mut message = "failed to create mount point: ".to_owned();
                message.append(reason.as_str());
                PopulateAction::Finish(Err(MicrosandboxError::BlockImageError(message)))
            },
            Ok(mount_point) => match self.device {
                Some(device) => {
                    let command = mount_line(&device, &mount_point);
                    PopulateAction::Mount {
                        command,
                        then: MountPending {
                            copying: Copying { mount_point, layers: self.layers, copied: 0 },
                        },
                    }
                },
                None => PopulateAction::Finish(
                    Err(MicrosandboxError::BlockImageError("loop device not attached".to_owned())),
                ),
            },
        }
    }
}

impl MountPending {
    /// Goes on once the image was mounted, or could not be.
    pub fn resume(self, outcome: CommandOutcome) -> (r: PopulateAction)
        ensures
            r@ == mounted_step(self@, outcome@),
    {
        match host::check_command(&outcome, "mount", "mount failed") {
            Ok(_) => self.copying.proceed(),
            Err(e) => PopulateAction::Finish(Err(e)),
        }
    }
}

impl LayerProbePending {
    /// Goes on once it was seen whether the layer is there.
    pub fn resume(self, exists: bool) -> (r: PopulateAction)
        ensures
            r@ == probed_step(self@, exists),
    {
        proof {
            use_type_invariant(&self);
        }
        let copying = self.copying;
        let layer = copying.layers[copying.copied].clone();
        if exists {
            let command = copy_line(&layer, &copying.mount_point);
            PopulateAction::CopyLayer { command, then: LayerCopyPending { copying } }
        } else {
            let mut message = "layer not found: ".to_owned();
            message.append(layer.to_string_lossy().as_str());
            unmount_now(copying.mount_point, Some(MicrosandboxError::BlockImageError(message)))
        }
    }
}

impl LayerCopyPending {
    /// Goes on once the layer was copied, or could not be.
    pub fn resume(self, outcome: CommandOutcome) -> (r: PopulateAction)
        ensures
            r@ == copied_step(self@, outcome@),
    {
        proof {
            use_type_invariant(&self);
        }
        let copying = self.copying;
        assert(copying.copied < copying.layers.len());
        let mut complaint = "cp failed for layer ".to_owned();
        complaint.append(copying.layers[copying.copied].to_string_lossy().as_str());
        match host::check_command(&outcome, "cp", complaint.as_str()) {
            Ok(_) => {
                let Copying { mount_point, layers, copied } = copying;
                Copying { mount_point, layers, copied: copied + 1 }.proceed()
            },
            Err(e) => unmount_now(copying.mount_point, Some(e)),
        }
    }
}

impl RestorePending {
    /// Goes on once permissions were restored.
    pub fn resume(self) -> (r: PopulateAction)
        ensures
            r@ == then_unmount(self@, None),
    {
        unmount_now(self.mount_point, None)
    }
}

impl UnmountPending {
    /// Ends with the first failure, if there was one.
    pub fn resume(self, outcome: CommandOutcome) -> (r: PopulateAction)
        ensures
            r@ == unmounted_step(self@, outcome@),
    {
        match self.failure {
            Some(e) => PopulateAction::Finish(Err(e)),
            None => PopulateAction::Finish(
                host::check_command(&outcome, "umount", "umount failed"),
            ),
        }
    }
}

/// What the host answers for one layer: whether it is there, and how copying it ended.
pub struct LayerAnswer {
    pub exists: bool,
    pub copied: OutcomeView,
}

/// How many layers are still to be copied when a step is asked for.
pub open spec fn layers_left(action: PopulateActionView) -> nat {
    match action {
        PopulateActionView::ProbeLayer { copy, .. } => if copy.copied < copy.layers.len() {
            (copy.layers.len() - copy.copied) as nat
        } else {
            0
        },
        _ => 0,
    }
}

/// Where the steps lead from one on, when the host answers for each layer as given, up to the
/// unmounting.
pub open spec fn led_to(action: PopulateActionView, answers: Seq<LayerAnswer>) -> PopulateActionView
    decreases layers_left(action),
{
    match action {
        PopulateActionView::ProbeLayer { copy, .. } => if copy.copied < copy.layers.len() {
            match probed_step(copy, answers[copy.copied as int].exists) {
                PopulateActionView::CopyLayer { .. } => led_to(
                    copied_step(copy, answers[copy.copied as int].copied),
                    answers,
                ),
                other => other,
            }
        } else {
            action
        },
        PopulateActionView::RestorePermissions { unmounts, .. } => then_unmount(unmounts, None),
        _ => action,
    }
}

/// The commands that copy layers on the way, in order.
pub open spec fn copies_asked(action: PopulateActionView, answers: Seq<LayerAnswer>) -> Seq<
    CommandView,
>
    decreases layers_left(action),
{
    match action {
        PopulateActionView::ProbeLayer { copy, .. } => if copy.copied < copy.layers.len() {
            match probed_step(copy, answers[copy.copied as int].exists) {
                PopulateActionView::CopyLayer { command, .. } => seq![command] + copies_asked(
                    copied_step(copy, answers[copy.copied as int].copied),
                    answers,
                ),
                _ => Seq::empty(),
            }
        } else {
            Seq::empty()
        },
        _ => Seq::empty(),
    }
}

/// The first failure among the layers from a position on.
pub open spec fn first_failure(
    layers: Seq<Seq<u8>>,
    answers: Seq<LayerAnswer>,
    from: nat,
) -> Option<ErrorView>
    decreases layers.len() - from,
{
    if from >= layers.len() {
        None
    } else if !answers[from as int].exists {
        Some(layer_missing(layers[from as int]))
    } else if !host::succeeded(answers[from as int].copied) {
        Some(copy_error(layers[from as int], answers[from as int].copied))
    } else {
        first_failure(layers, answers, from + 1)
    }
}

/// Once the image is mounted, every way leads to its being unmounted, whatever the host answers for
/// the layers, and the first failure among them is what is reported then.
pub proof fn law_mounted_image_is_unmounted(copy: CopyView, answers: Seq<LayerAnswer>)
    ensures
        led_to(next_step(copy), answers) == then_unmount(
            copy.mount_point,
            first_failure(copy.layers, answers, copy.copied),
        ),
    decreases copy.layers.len() - copy.copied,
{
    reveal_with_fuel(led_to, 2);
    if copy.copied < copy.layers.len() {
        law_mounted_image_is_unmounted(CopyView { copied: copy.copied + 1, ..copy }, answers);
    }
}

/// Layers are copied in order, from the bottom up, without gaps: what is asked for is the copying
/// of the next layers one after another, and of all of them where nothing fails.
pub proof fn law_layers_are_copied_in_order(copy: CopyView, answers: Seq<LayerAnswer>)
    requires
        copy.copied <= copy.layers.len(),
    ensures
        ({
            let asked = copies_asked(next_step(copy), answers);
            &&& copy.copied + asked.len() <= copy.layers.len()
            &&& forall|i: int|
                0 <= i < asked.len() ==> #[trigger] asked[i] == copy_command(
                    copy.layers[copy.copied + i],
                    copy.mount_point,
                )
            &&& first_failure(copy.layers, answers, copy.copied) is None ==> copy.copied
                + asked.len() == copy.layers.len()
        }),
    decreases copy.layers.len() - copy.copied,
{
    reveal_with_fuel(copies_asked, 2);
    if copy.copied < copy.layers.len() {
        let next = CopyView { copied: copy.copied + 1, ..copy };
        law_layers_are_copied_in_order(next, answers);
        let asked = copies_asked(next_step(copy), answers);
        let later = copies_asked(next_step(next), answers);
        let answer = answers[copy.copied as int];
        if answer.exists && host::succeeded(answer.copied) {
            let command = copy_command(copy.layers[copy.copied as int], copy.mount_point);
            assert(asked == seq![command] + later);
            assert forall|i: int| 0 <= i < asked.len() implies #[trigger] asked[i] == copy_command(
                copy.layers[copy.copied + i],
                copy.mount_point,
            ) by {
                if i > 0 {
                    assert(asked[i] == later[i - 1]);
                }
            }
        }
    }
}

/// Filling an image succeeds exactly where every layer was copied and the image was unmounted; else
/// the first failure is reported.
pub proof fn law_first_failure_is_reported(
    copy: CopyView,
    answers: Seq<LayerAnswer>,
    unmounted: OutcomeView,
)
    ensures
        unmounted_step(first_failure(copy.layers, answers, copy.copied), unmounted)
            == PopulateActionView::Finish(Ok(())) <==> first_failure(
            copy.layers,
            answers,
            copy.copied,
        ) is None && host::succeeded(unmounted),
        first_failure(copy.layers, answers, copy.copied) matches Some(e) ==> unmounted_step(
            first_failure(copy.layers, answers, copy.copied),
            unmounted,
        ) == PopulateActionView::Finish(Err(e)),
{
}

/// Without layers nothing is asked of the host.
pub proof fn law_no_layers_touch_nothing(image: ImageView, layers: Seq<Seq<u8>>)
    requires
        layers.len() == 0,
    ensures
        populate_step(image, layers) == PopulateActionView::Finish(Ok(())),
{
}

/// What is mounted is the image that is filled: its own device, at the directory that was made for
/// it, with all of the layers still to be copied.
pub proof fn law_filled_image_is_mounted(
    image: ImageView,
    layers: Seq<Seq<u8>>,
    mount_point: Seq<u8>,
)
    requires
        layers.len() > 0,
        image.loop_device is Some,
    ensures
        populate_step(image, layers) matches PopulateActionView::MakeMountPoint { fill }
            && mount_point_step(fill, Ok(mount_point)) == (PopulateActionView::Mount {
            command: mount_command(image.loop_device->0.path, mount_point),
            copy: CopyView { mount_point, layers, copied: 0 },
        }),
{
}

/// An image that is not attached is not mounted: filling it fails and runs no command.
pub proof fn law_detached_image_is_not_mounted(
    image: ImageView,
    layers: Seq<Seq<u8>>,
    mount_point: Seq<u8>,
)
    requires
        layers.len() > 0,
        image.loop_device is None,
    ensures
        populate_step(image, layers) matches PopulateActionView::MakeMountPoint { fill }
            && mount_point_step(fill, Ok(mount_point)) == PopulateActionView::Finish(
            Err(lifecycle::not_attached()),
        ),
{
}

/// Mounting runs `mount` on the image's own device and the directory; unmounting runs `umount` on
/// the directory; copying a layer runs `cp -a` on `<layer>/.`, its contents, and the directory.
pub proof fn law_filling_runs_these_commands(
    image: ImageView,
    layer: Seq<u8>,
    target: Seq<u8>,
    copy: CopyView,
    event: CommandEvent,
)
    requires
        copy.copied < copy.layers.len(),
        copy.layers[copy.copied as int] == layer,
        copy.mount_point == target,
    ensures
        image.loop_device matches Some(device) ==> mount_step(image, target, CommandEvent::Begin)
            == CommandActionView::Run(
            CommandView { program: "mount"@, args: seq![device.path, target] },
        ),
        image.loop_device is None ==> mount_step(image, target, event) == CommandActionView::Finish(
            Err(ErrorView::BlockImageError("loop device not attached"@)),
        ),
        unmount_step(target, CommandEvent::Begin) == CommandActionView::Run(
            CommandView { program: "umount"@, args: seq![target] },
        ),
        then_unmount(target, None) == (PopulateActionView::Unmount {
            command: CommandView { program: "umount"@, args: seq![target] },
            failure: None,
        }),
        probed_step(copy, true) == (PopulateActionView::CopyLayer {
            command: CommandView {
                program: "cp"@,
                args: seq![encode_utf8("-a"@), layer + encode_utf8("/."@), target],
            },
            copy,
        }),
{
}

/// Different layers are copied by different commands, and to different directories too.
pub proof fn law_layers_are_told_apart(
    layer: Seq<u8>,
    target: Seq<u8>,
    other: Seq<u8>,
    other_target: Seq<u8>,
)
    requires
        copy_command(layer, target) == copy_command(other, other_target),
    ensures
        layer == other,
        target == other_target,
{
    let args = copy_command(layer, target).args;
    let other_args = copy_command(other, other_target).args;
    assert(args[1] == other_args[1]);
    assert(args[2] == other_args[2]);
    let end = encode_utf8("/."@);
    assert((layer + end).len() == layer.len() + end.len());
    assert((other + end).len() == other.len() + end.len());
    assert(layer =~= (layer + end).take(layer.len() as int));
    assert(other =~= (other + end).take(other.len() as int));
}

/// What is filled is the image's own device with all of the layers that were given, in their order.
/// A directory that could not be made is told with the host's reason.
pub proof fn law_filling_starts_from_what_was_given(
    image: ImageView,
    layers: Seq<Seq<u8>>,
    mount_point: Seq<u8>,
    reason: Seq<char>,
)
    ensures
        layers.len() == 0 ==> populate_step(image, layers) == PopulateActionView::Finish(Ok(())),
        layers.len() > 0 ==> (populate_step(image, layers)
            matches PopulateActionView::MakeMountPoint { fill } && {
            &&& fill.layers == layers
            &&& fill.device is Some <==> image.loop_device is Some
            &&& image.loop_device matches Some(device) ==> fill.device == Some(device.path)
            &&& mount_point_step(fill, Err(reason)) == PopulateActionView::Finish(
                Err(ErrorView::BlockImageError("failed to create mount point: "@ + reason)),
            )
            &&& image.loop_device matches Some(device) ==> mount_point_step(fill, Ok(mount_point))
                == (PopulateActionView::Mount {
                command: CommandView { program: "mount"@, args: seq![device.path, mount_point] },
                copy: CopyView { mount_point, layers, copied: 0 },
            })
            &&& image.loop_device is None ==> mount_point_step(fill, Ok(mount_point))
                == PopulateActionView::Finish(
                Err(ErrorView::BlockImageError("loop device not attached"@)),
            )
        }),
{
}

/// Copying starts exactly where mounting succeeded, with the first layer; else it is told why the
/// image could not be mounted, and nothing more is done. Nothing was mounted, so nothing is
/// unmounted.
pub proof fn law_mounting_decides(copy: CopyView, outcome: OutcomeView)
    ensures
        outcome matches OutcomeView::Exited { success: true, .. } ==> mounted_step(copy, outcome)
            == next_step(copy),
        outcome matches OutcomeView::Exited { success: false, stderr, .. } ==> mounted_step(
            copy,
            outcome,
        ) == PopulateActionView::Finish(
            Err(
                ErrorView::BlockImageError(
                    "mount failed"@ + ": "@ + text::trimmed(text::bytes_text(stderr)),
                ),
            ),
        ),
        outcome matches OutcomeView::NotStarted(reason) ==> mounted_step(copy, outcome)
            == PopulateActionView::Finish(
            Err(ErrorView::BlockImageError("failed to execute "@ + "mount"@ + ": "@ + reason)),
        ),
{
}

/// The layer that is looked at next is the first that was not copied yet. Once there is none,
/// permissions are restored where the image is mounted, and that is what is unmounted then.
pub proof fn law_next_layer_is_the_first_left(copy: CopyView)
    ensures
        copy.copied < copy.layers.len() ==> next_step(copy) == (PopulateActionView::ProbeLayer {
            layer: copy.layers[copy.copied as int],
            copy,
        }),
        copy.copied >= copy.layers.len() ==> next_step(copy) == (
        PopulateActionView::RestorePermissions {
            mount_point: copy.mount_point,
            unmounts: copy.mount_point,
        }),
{
}

/// A layer that was copied counts as copied, and the next follows. A layer that is not there, or
/// could not be copied, is told by its name, and the image is unmounted from where it is mounted.
pub proof fn law_copying_decides(copy: CopyView, outcome: OutcomeView)
    requires
        copy.copied < copy.layers.len(),
    ensures
        ({
            let layer = text::bytes_text(copy.layers[copy.copied as int]);
            let unmount = CommandView { program: "umount"@, args: seq![copy.mount_point] };
            &&& probed_step(copy, false) == (PopulateActionView::Unmount {
                command: unmount,
                failure: Some(ErrorView::BlockImageError("layer not found: "@ + layer)),
            })
            &&& outcome matches OutcomeView::Exited { success: true, .. } ==> copied_step(
                copy,
                outcome,
            ) == next_step(
                CopyView {
                    mount_point: copy.mount_point,
                    layers: copy.layers,
                    copied: copy.copied + 1,
                },
            )
            &&& outcome matches OutcomeView::Exited { success: false, stderr, .. } ==> copied_step(
                copy,
                outcome,
            ) == (PopulateActionView::Unmount {
                command: unmount,
                failure: Some(
                    ErrorView::BlockImageError(
                        "cp failed for layer "@ + layer + ": "@ + text::trimmed(
                            text::bytes_text(stderr),
                        ),
                    ),
                ),
            })
            &&& outcome matches OutcomeView::NotStarted(reason) ==> copied_step(copy, outcome) == (
            PopulateActionView::Unmount {
                command: unmount,
                failure: Some(
                    ErrorView::BlockImageError(
                        "failed to execute "@ + "cp"@ + ": "@ + reason,
                    ),
                ),
            })
        }),
{
}

/// A failure of the copying is what is reported, whatever became of the unmounting. Else filling
/// succeeds exactly where `umount` does, and it is told why it did not.
pub proof fn law_unmounting_decides_last(failure: ErrorView, outcome: OutcomeView)
    ensures
        unmounted_step(Some(failure), outcome) == PopulateActionView::Finish(Err(failure)),
        outcome matches OutcomeView::Exited { success: true, .. } ==> unmounted_step(None, outcome)
            == PopulateActionView::Finish(Ok(())),
        outcome matches OutcomeView::Exited { success: false, stderr, .. } ==> unmounted_step(
            None,
            outcome,
        ) == PopulateActionView::Finish(
            Err(
                ErrorView::BlockImageError(
                    "umount failed"@ + ": "@ + text::trimmed(text::bytes_text(stderr)),
                ),
            ),
        ),
        outcome matches OutcomeView::NotStarted(reason) ==> unmounted_step(None, outcome)
            == PopulateActionView::Finish(
            Err(ErrorView::BlockImageError("failed to execute "@ + "umount"@ + ": "@ + reason)),
        ),
{
}

/// Mounting and unmounting by themselves report as they do on the way of filling an image.
pub proof fn law_mounting_alone_reports_the_same(
    image: ImageView,
    copy: CopyView,
    outcome: CommandOutcome,
)
    requires
        image.loop_device is Some,
    ensures
        mount_step(image, copy.mount_point, CommandEvent::Ran(outcome)) matches
            CommandActionView::Finish(r) && (r matches Err(e) ==> mounted_step(copy, outcome@)
            == PopulateActionView::Finish(Err(e))) && (r is Ok ==> mounted_step(copy, outcome@)
            == next_step(copy)),
        unmount_step(copy.mount_point, CommandEvent::Ran(outcome)) matches
            CommandActionView::Finish(r) && unmounted_step(None, outcome@)
            == PopulateActionView::Finish(r),
{
}

/// The view of a step shows what the host is asked for and what goes on from there.
pub proof fn law_populate_view_keeps_everything(action: PopulateAction)
    ensures
        action matches PopulateAction::MakeMountPoint { then } ==> action@ == (
        PopulateActionView::MakeMountPoint { fill: then@ }),
        action matches PopulateAction::Mount { command, then } ==> action@ == (
        PopulateActionView::Mount { command: command@, copy: then@ }),
        action matches PopulateAction::ProbeLayer { layer, then } ==> action@ == (
        PopulateActionView::ProbeLayer { layer: layer@, copy: then@ }),
        action matches PopulateAction::CopyLayer { command, then } ==> action@ == (
        PopulateActionView::CopyLayer { command: command@, copy: then@ }),
        action matches PopulateAction::RestorePermissions { mount_point, then } ==> action@ == (
        PopulateActionView::RestorePermissions { mount_point: mount_point@, unmounts: then@ }),
        action matches PopulateAction::Unmount { command, then } ==> action@ == (
        PopulateActionView::Unmount { command: command@, failure: then@ }),
        action matches PopulateAction::Finish(Ok(_)) ==> action@ == PopulateActionView::Finish(
            Ok(()),
        ),
        action matches PopulateAction::Finish(Err(e)) ==> action@ == PopulateActionView::Finish(
            Err(e@),
        ),
{
}

} // verus!
