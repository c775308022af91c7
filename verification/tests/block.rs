use microsandbox_core::error::MicrosandboxError;
use microsandbox_core::host::{CommandAction, CommandEvent, CommandLine, CommandOutcome};
use microsandbox_core::path::FsPath;
use microsandbox_core::vm::lifecycle::{
    CreateAction, CreateEvent, OpenAction, RemoveAction, RemoveEvent,
    SparseFileAction, SparseFileEvent,
};
use microsandbox_core::vm::loop_device::AttachAction;
use microsandbox_core::vm::{
    BlockImage, BlockImageBuilder, LoopDevice, DEFAULT_BLOCK_IMAGE_SIZE_GIB,
    DEFAULT_FILESYSTEM_TYPE,
};

fn path(text: &str) -> FsPath {
    FsPath::from_text(text)
}

fn command(program: &str, args: &[&str]) -> CommandLine {
    CommandLine {
        program: program.to_string(),
        args: args.iter().map(|arg| arg.as_bytes().to_vec()).collect(),
    }
}

fn exited(success: bool, stdout: &str, stderr: &str) -> CommandOutcome {
    CommandOutcome::Exited {
        success,
        stdout: stdout.as_bytes().to_vec(),
        stderr: stderr.as_bytes().to_vec(),
    }
}

fn not_started(reason: &str) -> CommandOutcome {
    CommandOutcome::NotStarted(reason.to_string())
}

fn block_error(text: &str) -> MicrosandboxError {
    MicrosandboxError::BlockImageError(text.to_string())
}

fn image(path_text: &str) -> BlockImage {
    BlockImage::builder().path(path(path_text)).build().unwrap()
}

fn attached(path_text: &str, device: &str) -> BlockImage {
    let mut made = image(path_text);
    let action = made.attach_loop(CommandEvent::Ran(exited(true, device, "")));
    assert_eq!(action, CommandAction::Finish(Ok(())));
    made
}

#[test]
fn test_block_image_builder_defaults() {
    let path = FsPath::from_text("/tmp/test.img");
    let image = BlockImage::builder().path(path.clone()).build().unwrap();

    assert_eq!(image.path(), &path);
    assert_eq!(image.size_gib(), DEFAULT_BLOCK_IMAGE_SIZE_GIB);
    assert_eq!(image.filesystem(), DEFAULT_FILESYSTEM_TYPE);
}

#[test]
fn test_block_image_builder_custom() {
    let path = FsPath::from_text("/tmp/custom.img");
    let image = BlockImage::builder()
        .path(path.clone())
        .size_gib(100)
        .filesystem("ext3")
        .build()
        .unwrap();

    assert_eq!(image.path(), &path);
    assert_eq!(image.size_gib(), 100);
    assert_eq!(image.filesystem(), "ext3");
}

#[test]
fn test_block_image_builder_missing_path() {
    let result = BlockImage::builder().size_gib(20).build();

    assert!(result.is_err());
    assert!(matches!(
        result,
        Err(MicrosandboxError::BlockImageError(msg)) if msg.contains("path is required")
    ));
}

#[test]
fn test_loop_device_from_existing() {
    let device_path = FsPath::from_text("/dev/sda1");
    let loop_device = LoopDevice::from_existing(device_path.clone());

    assert_eq!(loop_device.path(), &device_path);
    assert!(!loop_device.is_owned());
}

#[test]
fn test_loop_device_detach_unowned() {
    let loop_device = LoopDevice::from_existing(FsPath::from_text("/dev/fake_device"));

    let result = loop_device.detach(CommandEvent::Begin);
    assert_eq!(result, CommandAction::Finish(Ok(())));
}

#[test]
fn test_block_image_create() {
    let image_path = path("/images/test.img");
    let mut image = BlockImage::builder()
        .path(image_path.clone())
        .size_gib(1)
        .build()
        .unwrap();

    assert_eq!(
        image.create(CreateEvent::Begin),
        CreateAction::ProbeParent(path("/images"))
    );
    assert_eq!(
        image.create(CreateEvent::ParentProbed(true)),
        CreateAction::SparseFile(SparseFileAction::ProbeExists(image_path.clone()))
    );
    let truncate = command("truncate", &["-s", "1G", "/images/test.img"]);
    assert_eq!(
        image.create(CreateEvent::SparseFile(SparseFileEvent::Probed(false))),
        CreateAction::SparseFile(SparseFileAction::Run(truncate))
    );
    let losetup = command("losetup", &["-f", "--show", "/images/test.img"]);
    assert_eq!(
        image.create(CreateEvent::SparseFile(SparseFileEvent::Ran(exited(true, "", "")))),
        CreateAction::Attach(losetup)
    );
    assert!(image.loop_device_path().is_none());
    assert_eq!(
        image.create(CreateEvent::Attach(CommandEvent::Ran(exited(true, "/dev/loop7\n", "")))),
        CreateAction::Format(command("mkfs.ext4", &["/dev/loop7"]))
    );
    assert_eq!(image.loop_device_path(), Some(&path("/dev/loop7")));
    assert_eq!(
        image.create(CreateEvent::Format(CommandEvent::Ran(exited(true, "", "")))),
        CreateAction::Finish(Ok(()))
    );

    assert_eq!(
        image.detach_loop(CommandEvent::Begin),
        CommandAction::Run(command("losetup", &["-d", "/dev/loop7"]))
    );
    assert!(image.loop_device_path().is_some());
    assert_eq!(
        image.detach_loop(CommandEvent::Ran(exited(true, "", ""))),
        CommandAction::Finish(Ok(()))
    );
    assert!(image.loop_device_path().is_none());
    assert_eq!(image.remove(RemoveEvent::Begin), RemoveAction::ProbeExists(image_path.clone()));
    assert_eq!(image.remove(RemoveEvent::Probed(true)), RemoveAction::RemoveFile(image_path));
    assert_eq!(image.remove(RemoveEvent::Removed(Ok(()))), RemoveAction::Finish(Ok(())));
}

#[test]
fn test_block_image_create_parent_not_exists() {
    let mut image = image("/non/existent/parent/test.img");

    assert_eq!(
        image.create(CreateEvent::Begin),
        CreateAction::ProbeParent(path("/non/existent/parent"))
    );
    let result = image.create(CreateEvent::ParentProbed(false));

    assert!(matches!(
        &result,
        CreateAction::Finish(Err(MicrosandboxError::BlockImageError(msg)))
            if msg.contains("parent directory does not exist")
    ));
    assert_eq!(
        result,
        CreateAction::Finish(Err(block_error(
            "parent directory does not exist: /non/existent/parent"
        )))
    );
}

#[test]
fn test_block_image_remove_nonexistent() {
    let image = image("/tmp/nonexistent.img");

    assert_eq!(
        image.remove(RemoveEvent::Begin),
        RemoveAction::ProbeExists(path("/tmp/nonexistent.img"))
    );
    let result = image.remove(RemoveEvent::Probed(false));
    assert_eq!(result, RemoveAction::Finish(Ok(())));
}

#[test]
fn builder_defaults_are_twenty_gib_of_ext4() {
    let made = image("/tmp/a.img");
    assert_eq!(made.size_gib(), 20);
    assert_eq!(made.filesystem(), "ext4");
    assert!(made.loop_device_path().is_none());
}

#[test]
fn builder_settings_are_independent_of_their_order() {
    let one = BlockImage::builder()
        .path(path("/a"))
        .size_gib(3)
        .filesystem("xfs")
        .build();
    let other = BlockImageBuilder::default()
        .filesystem("ext3")
        .filesystem("xfs")
        .size_gib(9)
        .size_gib(3)
        .path(path("/b"))
        .path(path("/a"))
        .build();
    assert_eq!(one, other);
}

#[test]
fn builder_without_path_says_so() {
    assert_eq!(
        BlockImageBuilder::default().build(),
        Err(block_error("block image path is required"))
    );
}

#[test]
fn attach_asks_for_losetup_and_takes_the_printed_device() {
    let file = path("/images/a.img");
    assert_eq!(
        LoopDevice::attach(&file, CommandEvent::Begin),
        AttachAction::Run(command("losetup", &["-f", "--show", "/images/a.img"]))
    );
    let action = LoopDevice::attach(
        &file,
        CommandEvent::Ran(exited(true, "\u{2003} \t/dev/loop12 \r\n\u{3000}", "ignored")),
    );
    match action {
        AttachAction::Finish(Ok(device)) => {
            assert_eq!(device.path(), &path("/dev/loop12"));
            assert!(device.is_owned());
            assert_eq!(
                device.detach(CommandEvent::Begin),
                CommandAction::Run(command("losetup", &["-d", "/dev/loop12"]))
            );
        }
        other => panic!("{:?}", other),
    }
}

#[test]
fn attach_keeps_white_space_inside_and_replaces_invalid_bytes() {
    let outcome = CommandOutcome::Exited {
        success: true,
        stdout: b" /dev/a b\xff\n".to_vec(),
        stderr: Vec::new(),
    };
    match LoopDevice::attach(&path("/x"), CommandEvent::Ran(outcome)) {
        AttachAction::Finish(Ok(device)) => assert_eq!(device.path(), &path("/dev/a b\u{fffd}")),
        other => panic!("{:?}", other),
    }
}

#[test]
fn attach_reports_failures() {
    let file = path("/images/a.img");
    assert_eq!(
        LoopDevice::attach(&file, CommandEvent::Ran(not_started("No such file or directory"))),
        AttachAction::Finish(Err(block_error(
            "failed to execute losetup: No such file or directory"
        )))
    );
    assert_eq!(
        LoopDevice::attach(&file, CommandEvent::Ran(exited(false, "/dev/loop1", "\n  no device\n"))),
        AttachAction::Finish(Err(block_error("losetup failed: no device")))
    );
}

#[test]
fn detach_reports_failures() {
    let made = attached("/images/a.img", "/dev/loop3\n");
    let mut made = made;
    assert_eq!(
        made.detach_loop(CommandEvent::Ran(not_started("gone"))),
        CommandAction::Finish(Err(block_error("failed to execute losetup -d: gone")))
    );
    assert_eq!(
        made.detach_loop(CommandEvent::Ran(exited(false, "", "busy\n"))),
        CommandAction::Finish(Err(block_error("losetup -d failed: busy")))
    );
    assert_eq!(made.loop_device_path(), Some(&path("/dev/loop3")));
}

#[test]
fn detaching_a_detached_image_does_nothing() {
    let mut made = image("/a");
    assert_eq!(made.detach_loop(CommandEvent::Begin), CommandAction::Finish(Ok(())));
    assert_eq!(made, image("/a"));
}

#[test]
fn create_replaces_an_earlier_file() {
    let mut made = image("/images/a.img");
    assert_eq!(
        made.create(CreateEvent::ParentProbed(true)),
        CreateAction::SparseFile(SparseFileAction::ProbeExists(path("/images/a.img")))
    );
    assert_eq!(
        made.create(CreateEvent::SparseFile(SparseFileEvent::Probed(true))),
        CreateAction::SparseFile(SparseFileAction::RemoveFile(path("/images/a.img")))
    );
    assert_eq!(
        made.create(CreateEvent::SparseFile(SparseFileEvent::Removed(Ok(())))),
        CreateAction::SparseFile(SparseFileAction::Run(command(
            "truncate",
            &["-s", "20G", "/images/a.img"]
        )))
    );
}

#[test]
fn create_stops_where_the_earlier_file_stays() {
    let mut made = image("/images/a.img");
    assert_eq!(
        made.create(CreateEvent::SparseFile(SparseFileEvent::Removed(Err(
            "Permission denied (os error 13)".to_string()
        )))),
        CreateAction::Finish(Err(MicrosandboxError::Io(
            "Permission denied (os error 13)".to_string()
        )))
    );
}

#[test]
fn create_stops_at_each_failing_command() {
    let mut made = image("/images/a.img");
    assert_eq!(
        made.create(CreateEvent::SparseFile(SparseFileEvent::Ran(exited(false, "", " full ")))),
        CreateAction::Finish(Err(block_error("truncate failed: full")))
    );
    assert_eq!(
        made.create(CreateEvent::SparseFile(SparseFileEvent::Ran(not_started("x")))),
        CreateAction::Finish(Err(block_error("failed to execute truncate: x")))
    );
    assert_eq!(
        made.create(CreateEvent::Attach(CommandEvent::Ran(exited(false, "", "none")))),
        CreateAction::Finish(Err(block_error("losetup failed: none")))
    );
    assert_eq!(
        made.create(CreateEvent::Format(CommandEvent::Begin)),
        CreateAction::Finish(Err(block_error("loop device not attached")))
    );
    let mut made = attached("/images/a.img", "/dev/loop0");
    assert_eq!(
        made.create(CreateEvent::Format(CommandEvent::Ran(exited(false, "", "bad\n")))),
        CreateAction::Finish(Err(block_error("mkfs.ext4 failed: bad")))
    );
    assert_eq!(
        made.create(CreateEvent::Format(CommandEvent::Ran(not_started("y")))),
        CreateAction::Finish(Err(block_error("failed to execute mkfs.ext4: y")))
    );
}

#[test]
fn create_writes_large_sizes_in_decimal() {
    let made = BlockImage::builder()
        .path(path("/a"))
        .size_gib(u64::MAX)
        .build()
        .unwrap();
    assert_eq!(
        made.create_sparse_file(SparseFileEvent::Probed(false)),
        SparseFileAction::Run(command("truncate", &["-s", "18446744073709551615G", "/a"]))
    );
}

#[test]
fn from_existing_attaches_and_formats_nothing() {
    assert_eq!(
        BlockImage::from_existing(path("/images/old.img"), CommandEvent::Begin),
        OpenAction::Run(command("losetup", &["-f", "--show", "/images/old.img"]))
    );
    match BlockImage::from_existing(
        path("/images/old.img"),
        CommandEvent::Ran(exited(true, "/dev/loop9\n", "")),
    ) {
        OpenAction::Finish(Ok(opened)) => {
            assert_eq!(opened.path(), &path("/images/old.img"));
            assert_eq!(opened.size_gib(), 0);
            assert_eq!(opened.filesystem(), "");
            assert_eq!(opened.loop_device_path(), Some(&path("/dev/loop9")));
        }
        other => panic!("{:?}", other),
    }
    assert_eq!(
        BlockImage::from_existing(path("/x"), CommandEvent::Ran(exited(false, "", "no\n"))),
        OpenAction::Finish(Err(block_error("losetup failed: no")))
    );
}

#[test]
fn an_attached_image_is_not_removed() {
    let made = attached("/images/a.img", "/dev/loop0");
    assert_eq!(
        made.remove(RemoveEvent::Probed(true)),
        RemoveAction::Finish(Err(block_error(
            "cannot remove block image: loop device is still attached, call detach_loop() first"
        )))
    );
    assert_eq!(made.remove(RemoveEvent::Probed(false)), RemoveAction::Finish(Ok(())));
}

#[test]
fn a_file_that_stays_is_reported() {
    assert_eq!(
        image("/a").remove(RemoveEvent::Removed(Err("denied".to_string()))),
        RemoveAction::Finish(Err(MicrosandboxError::Io("denied".to_string())))
    );
}

#[test]
fn paths_need_not_be_utf8() {
    let raw = FsPath::from_bytes(b"/images/\xfe.img".to_vec());
    let mut made = BlockImage::builder().path(raw.clone()).build().unwrap();
    assert_eq!(made.path(), &raw);
    match made.create(CreateEvent::SparseFile(SparseFileEvent::Probed(false))) {
        CreateAction::SparseFile(SparseFileAction::Run(line)) => {
            assert_eq!(line.args[2], b"/images/\xfe.img".to_vec());
        }
        other => panic!("{:?}", other),
    }
    let mut elsewhere = BlockImage::builder()
        .path(FsPath::from_bytes(b"/no/\xfe/a.img".to_vec()))
        .build()
        .unwrap();
    assert_eq!(
        elsewhere.create(CreateEvent::ParentProbed(false)),
        CreateAction::Finish(Err(block_error("parent directory does not exist: /no/\u{fffd}")))
    );
}

#[test]
fn a_bare_name_lies_in_the_working_directory() {
    let mut bare = image("a.img");
    assert_eq!(bare.create(CreateEvent::Begin), CreateAction::ProbeParent(path(".")));
    assert_eq!(
        bare.create(CreateEvent::ParentProbed(true)),
        CreateAction::SparseFile(SparseFileAction::ProbeExists(path("a.img")))
    );
}

#[test]
fn a_path_without_a_parent_is_not_held_up() {
    let mut root = image("/");
    let probe = || CreateAction::SparseFile(SparseFileAction::ProbeExists(path("/")));
    assert_eq!(root.create(CreateEvent::Begin), probe());
    assert_eq!(root.create(CreateEvent::ParentProbed(false)), probe());
}
