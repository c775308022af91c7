use microsandbox_core::error::MicrosandboxError;
use microsandbox_core::oci::config::{
    config_parse_error, config_serialize_error, update_overlaybd_config_upper,
    validate_overlaybd_config, ConfigFault, OverlayBDConfig, OverlayBDConfigLower,
    OverlayBDConfigUpper,
};
use microsandbox_core::oci::image::{
    check_turbo_oci, construct_repo_blob_url, is_gzip_layer_type, is_overlaybd_image,
    missing_annotation, Annotations, ImageManifest, LayerDescriptor, MissingAnnotation, Reference,
};
use microsandbox_core::oci::layout::{image_dir_for_digest, layer_cache_dir, overlaybd_image_dir};
use microsandbox_core::oci::turbo::{
    detect_fs_meta_in_dir, extract_turbo_oci_metadata, fs_meta_path, has_fs_meta,
    is_erofs_supported, ExtractOutcome, FsMetaFiles,
};
use microsandbox_core::oci::write::{write_overlaybd_config, WriteAction};
use microsandbox_core::path::FsPath;

const BLOB_DIGEST: &str = "containerd.io/snapshot/overlaybd/blob-digest";
const BLOB_SIZE: &str = "containerd.io/snapshot/overlaybd/blob-size";
const TURBO_DIGEST: &str = "containerd.io/snapshot/overlaybd/turbo-oci/target-digest";
const TURBO_MEDIA_TYPE: &str = "containerd.io/snapshot/overlaybd/turbo-oci/target-media-type";
const FAST_DIGEST: &str = "containerd.io/snapshot/overlaybd/fastoci/target-digest";
const FAST_MEDIA_TYPE: &str = "containerd.io/snapshot/overlaybd/fastoci/target-media-type";
const OCI_GZIP: &str = "application/vnd.oci.image.layer.v1.tar+gzip";

const UBUNTU: &str = "b68304d63fad7718";

fn path(text: &str) -> FsPath {
    FsPath::from_text(text)
}

fn annotations(entries: &[(&str, &str)]) -> Annotations {
    let mut made = Annotations::new();
    for (name, value) in entries {
        made.insert(name.to_string(), value.to_string());
    }
    made
}

fn layer(entries: &[(&str, &str)]) -> LayerDescriptor {
    LayerDescriptor { annotations: Some(annotations(entries)) }
}

fn ubuntu() -> Reference {
    Reference {
        registry: "docker.io".to_string(),
        repository: "library/ubuntu".to_string(),
        db_key: "docker.io/library/ubuntu:latest".to_string(),
    }
}

fn lower() -> OverlayBDConfigLower {
    OverlayBDConfigLower {
        gzip_index: None,
        file: None,
        digest: None,
        target_file: None,
        target_digest: None,
        size: None,
        dir: None,
    }
}

fn some(text: &str) -> Option<String> {
    Some(text.to_string())
}

fn config(url: Option<&str>, lowers: Option<Vec<OverlayBDConfigLower>>) -> OverlayBDConfig {
    OverlayBDConfig {
        repo_blob_url: url.map(|text| text.to_string()),
        lowers,
        upper: None,
        result_file: None,
    }
}

fn other(text: &str) -> MicrosandboxError {
    MicrosandboxError::Other(text.to_string())
}

#[test]
fn a_config_needs_a_layer() {
    let fault = Err(ConfigFault::NoLayers);
    assert_eq!(validate_overlaybd_config(&config(Some("u"), None)), fault);
    assert_eq!(validate_overlaybd_config(&config(Some("u"), Some(Vec::new()))), fault);
    let mut upper_only = config(None, None);
    upper_only.upper = Some(OverlayBDConfigUpper {
        data: "d".to_string(),
        index: "i".to_string(),
        vsize: None,
    });
    assert_eq!(validate_overlaybd_config(&upper_only), Ok(()));
    assert_eq!(
        ConfigFault::NoLayers.message(),
        "invalid OverlayBD config: upper and lowers must not both be empty"
    );
}

#[test]
fn a_lower_is_of_one_kind() {
    let both = OverlayBDConfigLower { digest: some("a"), target_digest: some("b"), ..lower() };
    let fine = OverlayBDConfigLower { dir: some("/d"), ..lower() };
    let fault = ConfigFault::BothDigests { lower: 1 };
    assert_eq!(
        validate_overlaybd_config(&config(None, Some(vec![fine, both]))),
        Err(fault)
    );
    assert_eq!(
        fault.message(),
        "invalid OverlayBD config: lower[1] has both 'digest' (standard) and 'target_digest' (TurboOCI)"
    );
}

#[test]
fn a_lower_is_identified() {
    let nothing =
        OverlayBDConfigLower { gzip_index: some("g"), target_file: some("t"), size: Some(1), ..lower() };
    let fault = ConfigFault::NoIdentity { lower: 0 };
    assert_eq!(
        validate_overlaybd_config(&config(Some("u"), Some(vec![nothing]))),
        Err(fault)
    );
    assert_eq!(
        fault.message(),
        "invalid OverlayBD config: lower[0] has no identifying fields (digest, target_digest, file, or dir)"
    );
    for fine in [
        OverlayBDConfigLower { digest: some("a"), ..lower() },
        OverlayBDConfigLower { target_digest: some("a"), ..lower() },
        OverlayBDConfigLower { file: some("a"), ..lower() },
        OverlayBDConfigLower { dir: some("a"), ..lower() },
    ] {
        assert_eq!(validate_overlaybd_config(&config(Some("u"), Some(vec![fine]))), Ok(()));
    }
}

#[test]
fn a_remote_lower_needs_the_repository() {
    let fault = ConfigFault::NoRepository { lower: 10 };
    let mut lowers = Vec::new();
    for _ in 0..10 {
        lowers.push(OverlayBDConfigLower { file: some("f"), ..lower() });
    }
    lowers.push(OverlayBDConfigLower { target_digest: some("t"), ..lower() });
    lowers.push(lower());
    assert_eq!(validate_overlaybd_config(&config(None, Some(lowers))), Err(fault));
    assert_eq!(
        fault.message(),
        "invalid OverlayBD config: lower[10] uses remote fields but repo_blob_url is not set"
    );
}

#[test]
fn an_upper_is_set_and_nothing_else_changes() {
    let before = config(Some("u"), Some(vec![OverlayBDConfigLower { dir: some("/d"), ..lower() }]));
    let after = update_overlaybd_config_upper(before, &path("/rw/data.lsmt"), &path("/rw/index.lsmt"), 256)
        .unwrap();
    let upper = OverlayBDConfigUpper {
        data: "/rw/data.lsmt".to_string(),
        index: "/rw/index.lsmt".to_string(),
        vsize: Some(256),
    };
    assert_eq!(after.upper, Some(upper));
    assert_eq!(after.repo_blob_url, some("u"));
    assert_eq!(after.lowers, Some(vec![OverlayBDConfigLower { dir: some("/d"), ..lower() }]));
    assert_eq!(after.result_file, None);
    assert_eq!(validate_overlaybd_config(&after), Ok(()));

    let again = update_overlaybd_config_upper(after, &path("/x"), &path("/y"), 5).unwrap();
    assert_eq!(again.upper.map(|upper| (upper.data, upper.vsize)), Some(("/x".to_string(), Some(5))));
}

#[test]
fn a_size_that_does_not_fit_is_refused() {
    let update = |vsize| {
        update_overlaybd_config_upper(config(None, None), &path("/x"), &path("/y"), vsize)
            .map(|updated| updated.upper.unwrap().vsize)
    };
    let refused = |size: &str| {
        Err(other(&format!(
            "invalid OverlayBD config: upper vsize of {} GiB does not fit in 32 bits",
            size
        )))
    };
    assert_eq!(update(4294967295), Ok(Some(u32::MAX)));
    assert_eq!(update(4294967296), refused("4294967296"));
    assert_eq!(update((7 << 32) + 5), refused("30064771077"));
    assert_eq!(update(u64::MAX), refused("18446744073709551615"));
}

#[test]
fn stored_configs_that_fail_are_reported() {
    assert_eq!(config_parse_error("EOF"), other("failed to parse OverlayBD config: EOF"));
    assert_eq!(config_serialize_error("x"), other("failed to serialize OverlayBD config: x"));
}

#[test]
fn annotations_keep_the_last_value() {
    let made = annotations(&[("a", "1"), ("b", "2"), ("a", "3")]);
    assert_eq!(made.get("a"), Some(&"3".to_string()));
    assert_eq!(made.get("b"), Some(&"2".to_string()));
    assert_eq!(made.get("c"), None);
    assert!(made.contains_key("a"));
    assert!(!made.contains_key(""));
    assert_eq!(made.clone().get("a"), Some(&"3".to_string()));
}

#[test]
fn turbo_oci_comes_before_fastoci() {
    let both = annotations(&[
        (FAST_DIGEST, "fast"),
        (FAST_MEDIA_TYPE, "fast-type"),
        (TURBO_DIGEST, "turbo"),
    ]);
    assert_eq!(check_turbo_oci(&both), (true, Some(&"turbo".to_string()), None));
    let turbo = annotations(&[(TURBO_DIGEST, "turbo"), (TURBO_MEDIA_TYPE, "type")]);
    assert_eq!(
        check_turbo_oci(&turbo),
        (true, Some(&"turbo".to_string()), Some(&"type".to_string()))
    );
    let fast = annotations(&[
        (FAST_DIGEST, "fast"),
        (FAST_MEDIA_TYPE, "fast-type"),
        (TURBO_MEDIA_TYPE, "type"),
    ]);
    assert_eq!(
        check_turbo_oci(&fast),
        (true, Some(&"fast".to_string()), Some(&"fast-type".to_string()))
    );
    let neither = annotations(&[(TURBO_MEDIA_TYPE, "type"), (BLOB_DIGEST, "d")]);
    assert_eq!(check_turbo_oci(&neither), (false, None, None));
}

#[test]
fn gzip_media_types_are_known() {
    assert!(is_gzip_layer_type(OCI_GZIP));
    assert!(is_gzip_layer_type("application/vnd.docker.image.rootfs.diff.tar.gzip"));
    assert!(!is_gzip_layer_type("application/vnd.oci.image.layer.v1.tar"));
    assert!(!is_gzip_layer_type("application/vnd.oci.image.layer.v1.tar+gzip "));
    assert!(!is_gzip_layer_type(""));
}

#[test]
fn blob_urls_name_the_host() {
    assert_eq!(
        construct_repo_blob_url(&ubuntu()),
        "https://registry-1.docker.io/v2/library/ubuntu/blobs"
    );
    let elsewhere = Reference {
        registry: "registry.example.com:5000".to_string(),
        repository: "a/b".to_string(),
        db_key: String::new(),
    };
    assert_eq!(
        construct_repo_blob_url(&elsewhere),
        "https://registry.example.com:5000/v2/a/b/blobs"
    );
}

#[test]
fn overlaybd_images_are_recognised() {
    let standard = layer(&[(BLOB_DIGEST, "d"), (BLOB_SIZE, "1")]);
    let half = layer(&[(BLOB_DIGEST, "d")]);
    let bare = LayerDescriptor { annotations: None };
    let image = |layers: Vec<LayerDescriptor>| is_overlaybd_image(&ImageManifest { layers });
    assert!(!image(vec![]));
    assert!(image(vec![standard.clone()]));
    assert!(image(vec![standard.clone(), standard.clone()]));
    assert!(!image(vec![standard.clone(), half]));
    assert!(!image(vec![bare, standard]));
}

#[test]
fn missing_annotations_are_found_up_to_a_bad_size() {
    let standard = layer(&[(BLOB_DIGEST, "d"), (BLOB_SIZE, "1")]);
    let turbo = layer(&[(TURBO_DIGEST, "t")]);
    let missing = |layers: Vec<LayerDescriptor>| missing_annotation(&ImageManifest { layers });
    assert_eq!(missing(vec![]), None);
    assert_eq!(missing(vec![standard.clone(), turbo.clone()]), None);
    assert_eq!(
        missing(vec![turbo.clone(), LayerDescriptor { annotations: None }]),
        Some(MissingAnnotation::Annotations)
    );
    assert_eq!(
        missing(vec![layer(&[(BLOB_SIZE, "1")])]),
        Some(MissingAnnotation::BlobDigest)
    );
    assert_eq!(
        missing(vec![layer(&[(BLOB_DIGEST, "d")])]),
        Some(MissingAnnotation::BlobSize)
    );
    let bad = layer(&[(BLOB_DIGEST, "d"), (BLOB_SIZE, "many")]);
    assert_eq!(missing(vec![bad, LayerDescriptor { annotations: None }]), None);
}

#[test]
fn image_directories_are_named_by_the_hash_of_the_key() {
    assert_eq!(
        overlaybd_image_dir(&path("/home/u/.microsandbox"), &ubuntu()),
        path(&format!("/home/u/.microsandbox/overlaybd/{}", UBUNTU))
    );
    assert_eq!(
        layer_cache_dir(&path("/data/"), &ubuntu(), 12),
        path(&format!("/data/overlaybd/{}/cache/12", UBUNTU))
    );
    let nameless = Reference { db_key: String::new(), ..ubuntu() };
    assert_eq!(
        overlaybd_image_dir(&path(""), &nameless),
        path("overlaybd/e3b0c44298fc1c14")
    );
    assert_eq!(
        image_dir_for_digest(&path("/d"), &[0x00, 0x1f, 0xa0, 0xff, 0x09, 0x90, 0x5c, 0xe3, 0x77]),
        path("/d/overlaybd/001fa0ff09905ce3")
    );
}

#[test]
fn erofs_support_is_read_from_the_list_of_filesystems() {
    assert!(is_erofs_supported(&some("nodev\tsysfs\n\terofs\n\text4\n")));
    assert!(is_erofs_supported(&some("\terofs\n")));
    assert!(!is_erofs_supported(&some("nodev\tsysfs\n\text4\n")));
    assert!(!is_erofs_supported(&some("\terofs")));
    assert!(!is_erofs_supported(&some("nodev\terofs2\n")));
    assert!(!is_erofs_supported(&some("")));
    assert!(!is_erofs_supported(&None));
}

#[test]
fn fs_meta_is_detected_in_order_of_priority() {
    let with = some("\terofs\n");
    let without = some("\text4\n");
    let detect = |erofs, ext4, listed: &Option<String>| {
        detect_fs_meta_in_dir(&path("/c/0"), FsMetaFiles { erofs, ext4 }, listed).to_string_lossy()
    };
    assert_eq!(detect(true, true, &with), "/c/0/erofs.fs.meta");
    assert_eq!(detect(true, false, &with), "/c/0/erofs.fs.meta");
    assert_eq!(detect(true, true, &without), "/c/0/ext4.fs.meta");
    assert_eq!(detect(true, false, &None), "/c/0/ext4.fs.meta");
    assert_eq!(detect(false, true, &with), "/c/0/ext4.fs.meta");
    assert_eq!(detect(false, false, &with), "/c/0/ext4.fs.meta");
    assert_eq!(fs_meta_path(&path("/c/"), "erofs"), path("/c/erofs.fs.meta"));
}

#[test]
fn any_fs_meta_counts() {
    assert!(has_fs_meta(FsMetaFiles { erofs: true, ext4: false }));
    assert!(has_fs_meta(FsMetaFiles { erofs: false, ext4: true }));
    assert!(!has_fs_meta(FsMetaFiles { erofs: false, ext4: false }));
}

#[test]
fn extraction_failures_are_reported() {
    let target = path("/c/0");
    let text = |reason: &str| reason.to_string();
    assert_eq!(extract_turbo_oci_metadata(&target, &ExtractOutcome::Unpacked), Ok(()));
    assert_eq!(
        extract_turbo_oci_metadata(&target, &ExtractOutcome::DirFailed(text("denied"))),
        Err(other("failed to create dir /c/0: denied"))
    );
    assert_eq!(
        extract_turbo_oci_metadata(&target, &ExtractOutcome::UnpackFailed(text("bad gzip"))),
        Err(other("failed to unpack turboOCIv1 archive: bad gzip"))
    );
    assert_eq!(
        extract_turbo_oci_metadata(&target, &ExtractOutcome::TaskFailed(text("panicked"))),
        Err(other("task join error in extract_turbo_oci_metadata: panicked"))
    );
}

/// Makes a configuration on a host where everything works and the given files are found.
fn write(
    home: &FsPath,
    layers: Vec<LayerDescriptor>,
    files: FsMetaFiles,
    filesystems: Option<String>,
) -> (Vec<String>, Option<OverlayBDConfig>, Result<FsPath, MicrosandboxError>) {
    let mut asked = Vec::new();
    let mut written = None;
    let mut action = write_overlaybd_config(home.clone(), ubuntu(), ImageManifest { layers });
    loop {
        action = match action {
            WriteAction::CreateLayerDir { dir, then } => {
                asked.push(format!("mkdir {}", dir.to_string_lossy()));
                then.resume(Ok(()))
            }
            WriteAction::ProbeFsMeta { dir, then } => {
                asked.push(format!("probe {}", dir.to_string_lossy()));
                then.resume(files, filesystems.clone())
            }
            WriteAction::CreateImageDir { dir, then } => {
                asked.push(format!("mkdir {}", dir.to_string_lossy()));
                then.resume(Ok(()))
            }
            WriteAction::Serialize { then } => {
                let made = then.config();
                let mut copies = Vec::new();
                for lower in made.lowers.as_ref().unwrap() {
                    copies.push(OverlayBDConfigLower {
                        gzip_index: lower.gzip_index.clone(),
                        file: lower.file.clone(),
                        digest: lower.digest.clone(),
                        target_file: lower.target_file.clone(),
                        target_digest: lower.target_digest.clone(),
                        size: lower.size,
                        dir: lower.dir.clone(),
                    });
                }
                assert!(made.upper.is_none());
                written = Some(OverlayBDConfig {
                    repo_blob_url: made.repo_blob_url.clone(),
                    lowers: Some(copies),
                    upper: None,
                    result_file: made.result_file.clone(),
                });
                then.resume(Ok("{}".to_string()))
            }
            WriteAction::WriteFile { path, json, then } => {
                asked.push(format!("write {} {}", path.to_string_lossy(), json));
                then.resume(Ok(()))
            }
            WriteAction::Finish(result) => return (asked, written, result),
        };
    }
}

#[test]
fn a_config_lists_the_layers_in_order() {
    let layers = vec![
        layer(&[(BLOB_DIGEST, "sha256:a"), (BLOB_SIZE, "+4096")]),
        layer(&[
            (BLOB_DIGEST, "sha256:b"),
            (BLOB_SIZE, "not read"),
            (TURBO_DIGEST, "sha256:c"),
            (TURBO_MEDIA_TYPE, OCI_GZIP),
        ]),
        layer(&[(FAST_DIGEST, "sha256:d"), (FAST_MEDIA_TYPE, "plain")]),
    ];
    let files = FsMetaFiles { erofs: true, ext4: true };
    let (asked, written, result) = write(&path("/h"), layers, files, some("\terofs\n"));

    let base = format!("/h/overlaybd/{}", UBUNTU);
    assert_eq!(
        asked,
        vec![
            format!("mkdir {}/cache/0", base),
            format!("mkdir {}/cache/1", base),
            format!("probe {}/cache/1", base),
            format!("mkdir {}/cache/2", base),
            format!("probe {}/cache/2", base),
            format!("mkdir {}", base),
            format!("write {}/config.v1.json {{}}", base),
        ]
    );
    assert_eq!(result, Ok(path(&format!("{}/config.v1.json", base))));
    let written = written.unwrap();
    assert_eq!(
        written.repo_blob_url,
        some("https://registry-1.docker.io/v2/library/ubuntu/blobs")
    );
    assert!(written.result_file.as_ref().unwrap().starts_with(&format!("{}/", base)));
    assert_eq!(
        written.lowers,
        Some(vec![
            OverlayBDConfigLower {
                digest: some("sha256:a"),
                size: Some(4096),
                dir: Some(format!("{}/cache/0", base)),
                ..lower()
            },
            OverlayBDConfigLower {
                gzip_index: Some(format!("{}/cache/1/gzip.meta", base)),
                file: Some(format!("{}/cache/1/erofs.fs.meta", base)),
                target_digest: some("sha256:c"),
                dir: Some(format!("{}/cache/1", base)),
                ..lower()
            },
            OverlayBDConfigLower {
                file: Some(format!("{}/cache/2/erofs.fs.meta", base)),
                target_digest: some("sha256:d"),
                dir: Some(format!("{}/cache/2", base)),
                ..lower()
            },
        ])
    );
    assert_eq!(validate_overlaybd_config(&written), Ok(()));
}

#[test]
fn a_config_without_layers_is_written_and_refused() {
    let files = FsMetaFiles { erofs: false, ext4: false };
    let (asked, _, result) = write(&path("/h"), Vec::new(), files, None);
    assert_eq!(asked.len(), 2);
    assert_eq!(
        result,
        Err(other("invalid OverlayBD config: upper and lowers must not both be empty"))
    );
}

#[test]
fn sizes_that_are_no_numbers_are_reported() {
    let files = FsMetaFiles { erofs: false, ext4: false };
    for (size, reason) in [
        ("", "cannot parse integer from empty string"),
        ("12k", "invalid digit found in string"),
        ("-", "invalid digit found in string"),
        (" 1", "invalid digit found in string"),
        ("9223372036854775808", "number too large to fit in target type"),
        ("-9223372036854775809", "number too small to fit in target type"),
    ] {
        let layers = vec![layer(&[(BLOB_DIGEST, "d"), (BLOB_SIZE, size)])];
        let (asked, written, result) = write(&path("/h"), layers, files, None);
        assert_eq!(asked.len(), 1);
        assert_eq!(written, None);
        assert_eq!(
            result,
            Err(other(&format!("failed to parse overlaybd blob-size: {}", reason)))
        );
    }
    for (size, value) in [
        ("-9223372036854775808", i64::MIN),
        ("9223372036854775807", i64::MAX),
        ("-0", 0),
        ("007", 7),
    ] {
        let layers = vec![layer(&[(BLOB_DIGEST, "d"), (BLOB_SIZE, size)])];
        let (_, written, result) = write(&path("/h"), layers, files, None);
        assert!(result.is_ok());
        assert_eq!(written.unwrap().lowers.unwrap()[0].size, Some(value));
    }
}

#[test]
fn a_home_that_is_not_utf8_is_kept_in_paths_and_replaced_in_text() {
    let home = FsPath::from_bytes(b"/h\xff".to_vec());
    let layers = vec![layer(&[(BLOB_DIGEST, "d"), (BLOB_SIZE, "1")])];
    let files = FsMetaFiles { erofs: false, ext4: false };
    let (_, written, result) = write(&home, layers, files, None);
    let mut expected = b"/h\xff/overlaybd/".to_vec();
    expected.extend_from_slice(UBUNTU.as_bytes());
    expected.extend_from_slice(b"/config.v1.json");
    assert_eq!(result, Ok(FsPath::from_bytes(expected)));
    assert_eq!(
        written.unwrap().lowers.unwrap()[0].dir,
        Some(format!("/h\u{fffd}/overlaybd/{}/cache/0", UBUNTU))
    );
}

#[test]
fn a_host_that_refuses_ends_the_config() {
    let manifest = || ImageManifest {
        layers: vec![layer(&[(BLOB_DIGEST, "d"), (BLOB_SIZE, "1")])],
    };
    let io = |text: &str| MicrosandboxError::Io(text.to_string());
    let first = |created: Result<(), String>| {
        match write_overlaybd_config(path("/h"), ubuntu(), manifest()) {
            WriteAction::CreateLayerDir { then, .. } => then.resume(created),
            other => panic!("{:?}", other),
        }
    };
    match first(Err("denied".to_string())) {
        WriteAction::Finish(result) => assert_eq!(result, Err(io("denied"))),
        other => panic!("{:?}", other),
    }
    let second = |created: Result<(), String>| match first(Ok(())) {
        WriteAction::CreateImageDir { then, .. } => then.resume(created),
        other => panic!("{:?}", other),
    };
    match second(Err("full".to_string())) {
        WriteAction::Finish(result) => assert_eq!(result, Err(io("full"))),
        other => panic!("{:?}", other),
    }
    let third = |json: Result<String, String>| match second(Ok(())) {
        WriteAction::Serialize { then } => then.resume(json),
        other => panic!("{:?}", other),
    };
    match third(Err("odd".to_string())) {
        WriteAction::Finish(result) => {
            assert_eq!(result, Err(other("failed to serialize OverlayBD config: odd")))
        }
        other => panic!("{:?}", other),
    }
    match third(Ok("{}".to_string())) {
        WriteAction::WriteFile { then, .. } => match then.resume(Err("read-only".to_string())) {
            WriteAction::Finish(result) => assert_eq!(result, Err(io("read-only"))),
            other => panic!("{:?}", other),
        },
        other => panic!("{:?}", other),
    }
}

#[test]
fn layers_do_not_share_a_cache() {
    let dirs: Vec<FsPath> =
        (0..120).map(|i| layer_cache_dir(&path("/h"), &ubuntu(), i)).collect();
    for (i, dir) in dirs.iter().enumerate() {
        assert!(!dirs[..i].contains(dir));
    }
}
