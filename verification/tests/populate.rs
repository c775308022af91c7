use microsandbox_core::error::MicrosandboxError;
use microsandbox_core::host::{CommandAction, CommandEvent, CommandLine, CommandOutcome};
use microsandbox_core::path::FsPath;
use microsandbox_core::vm::permissions::{permission_bits, FileKind, WalkAction};
use microsandbox_core::vm::populate::PopulateAction;
use microsandbox_core::vm::BlockImage;

const FILE: FileKind = FileKind { is_dir: false, is_symlink: false };
const DIRECTORY: FileKind = FileKind { is_dir: true, is_symlink: false };

fn path(text: &str) -> FsPath {
    FsPath::from_text(text)
}

fn command(program: &str, args: &[&str]) -> CommandLine {
    CommandLine {
        program: program.to_string(),
        args: args.iter().map(|arg| arg.as_bytes().to_vec()).collect(),
    }
}

fn exited(success: bool, stderr: &str) -> CommandOutcome {
    CommandOutcome::Exited { success, stdout: Vec::new(), stderr: stderr.as_bytes().to_vec() }
}

fn block_error(text: &str) -> MicrosandboxError {
    MicrosandboxError::BlockImageError(text.to_string())
}

fn attached() -> BlockImage {
    let mut image = BlockImage::builder().path(path("/images/a.img")).build().unwrap();
    let printed = CommandOutcome::Exited {
        success: true,
        stdout: b"/dev/loop4\n".to_vec(),
        stderr: Vec::new(),
    };
    assert_eq!(
        image.attach_loop(CommandEvent::Ran(printed)),
        CommandAction::Finish(Ok(()))
    );
    image
}

/// Fills an image and answers each step from the given lists; gives back what was asked, in words.
fn populate(
    image: &BlockImage,
    layers: &[&str],
    present: &[bool],
    copies: &[CommandOutcome],
    unmounted: CommandOutcome,
) -> (Vec<String>, Result<(), MicrosandboxError>) {
    fn words(line: &CommandLine) -> String {
        let mut all = vec![line.program.clone()];
        for arg in &line.args {
            all.push(String::from_utf8(arg.clone()).unwrap());
        }
        all.join(" ")
    }
    fn copy_of(outcome: &CommandOutcome) -> CommandOutcome {
        match outcome {
            CommandOutcome::NotStarted(reason) => CommandOutcome::NotStarted(reason.clone()),
            CommandOutcome::Exited { success, stdout, stderr } => CommandOutcome::Exited {
                success: *success,
                stdout: stdout.clone(),
                stderr: stderr.clone(),
            },
        }
    }
    let mut asked = Vec::new();
    let mut probed = 0;
    let mut copied = 0;
    let mut action =
        image.populate_from_layers(layers.iter().map(|layer| path(layer)).collect());
    loop {
        action = match action {
            PopulateAction::MakeMountPoint { then } => {
                asked.push("mkdir".to_string());
                then.resume(Ok(path("/mnt/x")))
            }
            PopulateAction::Mount { command, then } => {
                asked.push(words(&command));
                then.resume(exited(true, ""))
            }
            PopulateAction::ProbeLayer { layer, then } => {
                asked.push(format!("probe {}", layer.to_string_lossy()));
                probed += 1;
                then.resume(present[probed - 1])
            }
            PopulateAction::CopyLayer { command, then } => {
                asked.push(words(&command));
                copied += 1;
                then.resume(copy_of(&copies[copied - 1]))
            }
            PopulateAction::RestorePermissions { mount_point, then } => {
                asked.push(format!("restore {}", mount_point.to_string_lossy()));
                then.resume()
            }
            PopulateAction::Unmount { command, then } => {
                asked.push(words(&command));
                then.resume(copy_of(&unmounted))
            }
            PopulateAction::Finish(result) => return (asked, result),
        };
    }
}

#[test]
fn test_block_image_populate_from_layers() {
    let image = attached();
    let (asked, result) = populate(
        &image,
        &["/tmp/layer1", "/tmp/layer2"],
        &[true, true],
        &[exited(true, ""), exited(true, "")],
        exited(true, ""),
    );
    assert_eq!(result, Ok(()));
    assert_eq!(
        asked,
        vec![
            "mkdir",
            "mount /dev/loop4 /mnt/x",
            "probe /tmp/layer1",
            "cp -a /tmp/layer1/. /mnt/x",
            "probe /tmp/layer2",
            "cp -a /tmp/layer2/. /mnt/x",
            "restore /mnt/x",
            "umount /mnt/x",
        ]
    );
}

#[test]
fn a_layer_need_not_be_utf8() {
    let image = attached();
    let layer = FsPath::from_bytes(b"/l/\xff".to_vec());
    let probe = match image.populate_from_layers(vec![layer.clone()]) {
        PopulateAction::MakeMountPoint { then } => match then.resume(Ok(path("/m"))) {
            PopulateAction::Mount { then, .. } => then.resume(exited(true, "")),
            other => panic!("{:?}", other),
        },
        other => panic!("{:?}", other),
    };
    let copy = match probe {
        PopulateAction::ProbeLayer { layer: probed, then } => {
            assert_eq!(probed, layer);
            then.resume(true)
        }
        other => panic!("{:?}", other),
    };
    match copy {
        PopulateAction::CopyLayer { command, .. } => {
            assert_eq!(command.program, "cp");
            assert_eq!(
                command.args,
                vec![b"-a".to_vec(), b"/l/\xff/.".to_vec(), b"/m".to_vec()]
            );
        }
        other => panic!("{:?}", other),
    }
}

#[test]
fn no_layers_ask_for_nothing() {
    let image = BlockImage::builder().path(path("/a")).build().unwrap();
    let (asked, result) = populate(&image, &[], &[], &[], exited(true, ""));
    assert!(asked.is_empty());
    assert_eq!(result, Ok(()));
}

#[test]
fn a_missing_layer_ends_the_copying_and_is_unmounted() {
    let image = attached();
    let (asked, result) = populate(
        &image,
        &["/l/1", "/l/2", "/l/3"],
        &[true, false],
        &[exited(true, "")],
        exited(false, "target is busy"),
    );
    assert_eq!(result, Err(block_error("layer not found: /l/2")));
    assert_eq!(
        asked,
        vec![
            "mkdir",
            "mount /dev/loop4 /mnt/x",
            "probe /l/1",
            "cp -a /l/1/. /mnt/x",
            "probe /l/2",
            "umount /mnt/x",
        ]
    );
}

#[test]
fn a_failed_copy_ends_the_copying_and_is_unmounted() {
    let image = attached();
    let (asked, result) = populate(
        &image,
        &["/l/1", "/l/2"],
        &[true, true],
        &[exited(false, "no space left\n")],
        exited(true, ""),
    );
    assert_eq!(result, Err(block_error("cp failed for layer /l/1: no space left")));
    assert_eq!(asked.last().map(|line| line.as_str()), Some("umount /mnt/x"));
    assert_eq!(asked.len(), 5);
    let (_, result) = populate(
        &image,
        &["/l/1"],
        &[true],
        &[CommandOutcome::NotStarted("no cp".to_string())],
        exited(true, ""),
    );
    assert_eq!(result, Err(block_error("failed to execute cp: no cp")));
}

#[test]
fn a_failed_unmount_is_reported_last() {
    let image = attached();
    let (_, result) = populate(
        &image,
        &["/l/1"],
        &[true],
        &[exited(true, "")],
        exited(false, " target is busy\n"),
    );
    assert_eq!(result, Err(block_error("umount failed: target is busy")));
}

#[test]
fn mounting_needs_a_mount_point_a_device_and_success() {
    let image = attached();
    match image.populate_from_layers(vec![path("/l")]) {
        PopulateAction::MakeMountPoint { then } => {
            match then.resume(Err("disk full".to_string())) {
                PopulateAction::Finish(result) => assert_eq!(
                    result,
                    Err(block_error("failed to create mount point: disk full"))
                ),
                other => panic!("{:?}", other),
            }
        }
        other => panic!("{:?}", other),
    }

    let detached = BlockImage::builder().path(path("/a")).build().unwrap();
    let (asked, result) = populate(&detached, &["/l"], &[], &[], exited(true, ""));
    assert_eq!(asked, vec!["mkdir"]);
    assert_eq!(result, Err(block_error("loop device not attached")));

    match image.populate_from_layers(vec![path("/l")]) {
        PopulateAction::MakeMountPoint { then } => match then.resume(Ok(path("/m"))) {
            PopulateAction::Mount { then, .. } => match then.resume(exited(false, "wrong fs\n")) {
                PopulateAction::Finish(result) => {
                    assert_eq!(result, Err(block_error("mount failed: wrong fs")))
                }
                other => panic!("{:?}", other),
            },
            other => panic!("{:?}", other),
        },
        other => panic!("{:?}", other),
    }
}

#[test]
fn mount_and_unmount_stand_alone() {
    let image = attached();
    assert_eq!(
        image.mount(&path("/m"), CommandEvent::Begin),
        CommandAction::Run(command("mount", &["/dev/loop4", "/m"]))
    );
    assert_eq!(
        image.unmount(&path("/m"), CommandEvent::Begin),
        CommandAction::Run(command("umount", &["/m"]))
    );
    assert_eq!(
        image.unmount(
            &path("/m"),
            CommandEvent::Ran(CommandOutcome::NotStarted("gone".to_string()))
        ),
        CommandAction::Finish(Err(block_error("failed to execute umount: gone")))
    );
}

#[test]
fn permission_bits_are_read_from_the_third_field() {
    assert_eq!(permission_bits(b"0:0:0755"), Some(0o755));
    assert_eq!(permission_bits(b"1000:1000:100644"), Some(0o644));
    assert_eq!(permission_bits(b"0:0:4755:extra"), Some(0o4755));
    assert_eq!(permission_bits(b"::7777"), Some(0o7777));
    assert_eq!(permission_bits(b"a:b:+17"), Some(0o17));
    assert_eq!(permission_bits(b"0:0:37777777777"), Some(0o7777));
    assert_eq!(permission_bits(b"\xff:\xff:0600"), Some(0o600));
}

#[test]
fn permission_bits_are_absent_where_nothing_is_asked() {
    let attributes: [&[u8]; 13] = [
        b"", b"0", b"0:0", b"0:0:", b"0:0:+", b"0:0:+-7", b"0:0:-7", b"0:0:0", b"0:0:10000",
        b"0:0:0788", b"0:0: 755", b"0:0:40000000000", b"0:0:7\xff",
    ];
    for attribute in attributes {
        assert_eq!(permission_bits(attribute), None);
        assert_eq!(permission_bits(attribute), standard_bits(attribute));
    }
}

fn standard_bits(attribute: &[u8]) -> Option<u32> {
    let text = String::from_utf8_lossy(attribute);
    let mode = u32::from_str_radix(text.split(':').nth(2)?, 8).ok()?;
    Some(mode & 0o7777).filter(|bits| *bits != 0)
}

#[test]
fn permission_bits_agree_with_the_standard_parser() {
    let alphabet: [u8; 8] = [b':', b'0', b'7', b'8', b'+', b'-', 0xe2, b'3'];
    let mut attribute = Vec::new();
    for code in 0..(8u32.pow(6)) {
        attribute.clear();
        let mut rest = code;
        for _ in 0..6 {
            attribute.push(alphabet[(rest % 8) as usize]);
            rest /= 8;
        }
        assert_eq!(permission_bits(&attribute), standard_bits(&attribute));
    }
}

#[test]
fn a_tree_is_walked_in_order_and_links_are_not_followed() {
    let image = attached();
    let mut visited = Vec::new();
    let mut set = Vec::new();
    let mut listed = Vec::new();
    let mut action = image.restore_permissions_from_xattr(path("/m"));
    loop {
        action = match action {
            WalkAction::Inspect { path, then } => {
                let name = path.to_string_lossy();
                visited.push(name.clone());
                then.resume(match name.as_str() {
                    "/m" | "/m/b" => Some(DIRECTORY),
                    "/m/c" => Some(FileKind { is_dir: true, is_symlink: true }),
                    "/m/gone" => None,
                    _ => Some(FILE),
                })
            }
            WalkAction::ReadAttribute { path, then } => {
                then.resume(match path.to_string_lossy().as_str() {
                    "/m/b" => Some(b"0:0:040700".to_vec()),
                    "/m/b/1" => Some(b"0:0:0644".to_vec()),
                    "/m/b/2" => Some(b"nonsense".to_vec()),
                    _ => None,
                })
            }
            WalkAction::SetPermissions { path, mode, then } => {
                set.push((path.to_string_lossy(), mode));
                then.resume()
            }
            WalkAction::ListDirectory { path: directory, then } => {
                let name = directory.to_string_lossy();
                listed.push(name.clone());
                then.resume(match name.as_str() {
                    "/m" => Some(vec![
                        path("/m/a"),
                        path("/m/b"),
                        path("/m/gone"),
                        path("/m/c"),
                        path("/m/d"),
                    ]),
                    _ => Some(vec![path("/m/b/1"), path("/m/b/2")]),
                })
            }
            WalkAction::Finish => break,
        };
    }
    assert_eq!(
        visited,
        vec!["/m", "/m/a", "/m/b", "/m/b/1", "/m/b/2", "/m/gone", "/m/c", "/m/d"]
    );
    assert_eq!(listed, vec!["/m", "/m/b"]);
    assert_eq!(set, vec![("/m/b".to_string(), 0o700), ("/m/b/1".to_string(), 0o644)]);
}

#[test]
fn a_directory_that_cannot_be_listed_is_passed_over() {
    let image = attached();
    match image.restore_permissions_from_xattr(path("/m")) {
        WalkAction::Inspect { then, .. } => match then.resume(Some(DIRECTORY)) {
            WalkAction::ReadAttribute { then, .. } => match then.resume(None) {
                WalkAction::ListDirectory { then, .. } => {
                    assert!(matches!(then.resume(None), WalkAction::Finish));
                }
                other => panic!("{:?}", other),
            },
            other => panic!("{:?}", other),
        },
        other => panic!("{:?}", other),
    }
}
