//! Making the configuration of an OverlayBD image, one step of the host's at a time.
//!
//! Each step names what the host is to do next and carries what is known so far. The host's answer
//! goes to `resume`, which gives the next step.

use crate::error::{ErrorView, MicrosandboxError};
use crate::oci::config;
use crate::oci::config::{
    ConfigFault, ConfigView, LowerView, OverlayBDConfig, OverlayBDConfigLower,
};
use crate::oci::image;
use crate::oci::image::{AnnotationMap, Annotations, ImageManifest, Reference};
use crate::oci::layout;
use crate::oci::turbo;
use crate::oci::turbo::FsMetaFiles;
use crate::path;
use crate::path::FsPath;
use crate::text;
use vstd::prelude::*;
use vstd::utf8::*;

verus! {

/// The lower layer that a TurboOCI layer gives, with its cache in `dir` and the metadata of the
/// given filesystem type.
pub open spec fn turbo_lower(
    annotations: AnnotationMap,
    dir: Seq<u8>,
    fs_type: Seq<char>,
) -> LowerView {
    LowerView {
        gzip_index: match image::turbo_oci_media_type(annotations) {
            Some(media_type) => if image::is_gzip_media_type(media_type) {
                Some(
                    text::bytes_text(
                        path::joined(dir, encode_utf8(turbo::TURBO_OCI_GZIP_INDEX_FILENAME@)),
                    ),
                )
            } else {
                None
            },
            None => None,
        },
        file: Some(text::bytes_text(turbo::fs_meta_file(dir, fs_type))),
        digest: None,
        target_file: None,
        target_digest: image::turbo_oci_target(annotations),
        size: None,
        dir: Some(text::bytes_text(dir)),
    }
}

/// The lower layer that a standard layer gives, with its cache in `dir`.
pub open spec fn standard_lower(annotations: AnnotationMap, dir: Seq<u8>) -> LowerView {
    LowerView {
        gzip_index: None,
        file: None,
        digest: image::lookup(annotations, image::OVERLAYBD_BLOB_DIGEST_ANNOTATION@),
        target_file: None,
        target_digest: None,
        size: text::parsed_i64(annotations[image::OVERLAYBD_BLOB_SIZE_ANNOTATION@]),
        dir: Some(text::bytes_text(dir)),
    }
}

/// The lower layer that a layer gives.
pub open spec fn lower_for(annotations: AnnotationMap, dir: Seq<u8>, fs_type: Seq<char>) -> LowerView {
    if image::is_turbo_oci(annotations) {
        turbo_lower(annotations, dir, fs_type)
    } else {
        standard_lower(annotations, dir)
    }
}

/// A configuration in the making.
pub struct DraftView {
    /// The data directory.
    pub home: Seq<u8>,
    /// The registry of the image.
    pub registry: Seq<char>,
    /// The repository of the image.
    pub repository: Seq<char>,
    /// The digest of the image's key.
    pub digest: Seq<u8>,
    /// The image's layers.
    pub layers: Seq<Option<AnnotationMap>>,
    /// What the layers that were looked at so far gave.
    pub lowers: Seq<LowerView>,
}

/// The draft of an image of which no layer was looked at yet.
pub open spec fn empty_draft(
    home: Seq<u8>,
    reference: Reference,
    layers: Seq<Option<AnnotationMap>>,
) -> DraftView {
    DraftView {
        home,
        registry: reference.registry@,
        repository: reference.repository@,
        digest: layout::key_digest(reference),
        layers,
        lowers: Seq::empty(),
    }
}

/// The annotations of the layer that is looked at next.
pub open spec fn current_annotations(draft: DraftView) -> AnnotationMap {
    draft.layers[draft.lowers.len() as int]->0
}

/// The cache directory of the layer that is looked at next.
pub open spec fn current_dir(draft: DraftView) -> Seq<u8> {
    layout::layer_dir(draft.home, draft.digest, draft.lowers.len())
}

/// A draft with one more lower layer.
pub open spec fn with_lower(draft: DraftView, lower: LowerView) -> DraftView {
    DraftView { lowers: draft.lowers.push(lower), ..draft }
}

/// A lower layer is what the layer at position `i` gives, with the erofs or the ext4 metadata.
pub open spec fn is_lower_of(draft: DraftView, i: int, lower: LowerView) -> bool {
    let dir = layout::layer_dir(draft.home, draft.digest, i as nat);
    &&& image::is_usable_layer(draft.layers[i])
    &&& !image::has_bad_size(draft.layers[i])
    &&& {
        ||| lower == lower_for(draft.layers[i]->0, dir, turbo::EROFS_FS_TYPE@)
        ||| lower == lower_for(draft.layers[i]->0, dir, turbo::EXT4_FS_TYPE@)
    }
}

/// The layers can be read, and the lower layers are what the first of them gave, in order.
pub open spec fn is_sound_draft(draft: DraftView) -> bool {
    &&& draft.lowers.len() <= draft.layers.len()
    &&& image::is_readable(draft.layers)
    &&& forall|i: int|
        0 <= i < draft.lowers.len() ==> is_lower_of(draft, i, #[trigger] draft.lowers[i])
}

/// The configuration that a draft comes to.
pub open spec fn drafted_config(draft: DraftView) -> ConfigView {
    ConfigView {
        repo_blob_url: Some(image::repo_blob_url(draft.registry, draft.repository)),
        lowers: Some(draft.lowers),
        upper: None,
        result_file: Some(
            text::bytes_text(
                path::joined(
                    layout::image_dir(draft.home, draft.digest),
                    encode_utf8(layout::OVERLAYBD_RESULT_FILENAME@),
                ),
            ),
        ),
    }
}

/// The file for the configuration that a draft comes to.
pub open spec fn config_file(draft: DraftView) -> Seq<u8> {
    path::joined(
        layout::image_dir(draft.home, draft.digest),
        encode_utf8(layout::OVERLAYBD_CONFIG_FILENAME@),
    )
}

/// The lower layer that the layer at position `i` gives has the fields of its kind and no other:
/// a TurboOCI layer a target digest and a metadata file, a standard layer a digest and a size.
pub proof fn law_lower_has_one_kind(draft: DraftView, i: int, lower: LowerView)
    requires
        0 <= i < draft.layers.len(),
        is_lower_of(draft, i, lower),
    ensures
        config::is_of_one_kind(lower),
        config::is_identified(lower),
        config::is_remote(lower),
        image::is_turbo_oci(draft.layers[i]->0) ==> lower.target_digest is Some && lower.file is Some
            && lower.digest is None && lower.size is None,
        !image::is_turbo_oci(draft.layers[i]->0) ==> lower.digest is Some && lower.size is Some
            && lower.target_digest is None && lower.file is None && lower.gzip_index is None,
{
}

/// A draft comes to a valid configuration exactly where the image has a layer.
pub proof fn law_drafted_config_is_valid(draft: DraftView)
    requires
        is_sound_draft(draft),
        draft.lowers.len() == draft.layers.len(),
    ensures
        config::is_valid_config(drafted_config(draft)) <==> draft.layers.len() > 0,
        config::lower_count(drafted_config(draft)) == draft.layers.len(),
        forall|i: int|
            0 <= i < draft.layers.len() ==> config::is_sound_lower(
                drafted_config(draft),
                #[trigger] config::lower_at(drafted_config(draft), i),
            ),
{
    let made = drafted_config(draft);
    assert forall|i: int| 0 <= i < config::lower_count(made) implies config::is_sound_lower(
        made,
        #[trigger] config::lower_at(made, i),
    ) by {
        assert(config::lower_at(made, i) == draft.lowers[i]);
        law_lower_has_one_kind(draft, i, draft.lowers[i]);
    }
}

/// A configuration in the making.
#[derive(Debug)]
struct ConfigDraft {
    home: FsPath,
    reference: Reference,
    manifest: ImageManifest,
    lowers: Vec<OverlayBDConfigLower>,
}

impl ConfigDraft {
    spec fn state(self) -> DraftView {
        DraftView {
            home: self.home@,
            registry: self.reference.registry@,
            repository: self.reference.repository@,
            digest: layout::key_digest(self.reference),
            layers: self.manifest@,
            lowers: config::lowers_view(self.lowers@),
        }
    }

    #[verifier::type_invariant]
    spec fn is_sound(self) -> bool {
        is_sound_draft(self.state())
    }
}

/// What the host is to do next for a configuration.
#[derive(Debug)]
pub enum WriteAction {
    /// Make this directory and its parents.
    CreateLayerDir { dir: FsPath, then: LayerDirPending },
    /// See which filesystem metadata files this directory holds and which filesystems the kernel
    /// lists.
    ProbeFsMeta { dir: FsPath, then: FsMetaPending },
    /// Make this directory and its parents.
    CreateImageDir { dir: FsPath, then: ImageDirPending },
    /// Serialize the configuration.
    Serialize { then: SerializePending },
    /// Write this text to this file.
    WriteFile { path: FsPath, json: String, then: WritePending },
    /// It is done: the path of the configuration, or why there is none.
    Finish(Result<FsPath, MicrosandboxError>),
}

/// The directory of a layer is being made.
#[derive(Debug)]
pub struct LayerDirPending {
    draft: ConfigDraft,
}

/// The filesystem metadata of a TurboOCI layer is being looked for.
#[derive(Debug)]
pub struct FsMetaPending {
    draft: ConfigDraft,
}

/// The directory of the image is being made.
#[derive(Debug)]
pub struct ImageDirPending {
    draft: ConfigDraft,
}

/// The configuration is being serialized.
#[derive(Debug)]
pub struct SerializePending {
    config: OverlayBDConfig,
    path: FsPath,
}

/// The configuration is being written.
#[derive(Debug)]
pub struct WritePending {
    config: OverlayBDConfig,
    path: FsPath,
}

/// A configuration that is made, and the file that it goes to.
pub struct MadeView {
    pub config: ConfigView,
    pub path: Seq<u8>,
}

/// A [`WriteAction`] by its contents, with what is known so far.
pub enum WriteActionView {
    CreateLayerDir { dir: Seq<u8>, draft: DraftView },
    ProbeFsMeta { dir: Seq<u8>, draft: DraftView },
    CreateImageDir { dir: Seq<u8>, draft: DraftView },
    Serialize { made: MadeView },
    WriteFile { path: Seq<u8>, json: Seq<char>, made: MadeView },
    Finish(Result<Seq<u8>, ErrorView>),
}

impl View for LayerDirPending {
    type V = DraftView;

    closed spec fn view(&self) -> DraftView {
        self.draft.state()
    }
}

impl View for FsMetaPending {
    type V = DraftView;

    closed spec fn view(&self) -> DraftView {
        self.draft.state()
    }
}

impl View for ImageDirPending {
    type V = DraftView;

    closed spec fn view(&self) -> DraftView {
        self.draft.state()
    }
}

impl View for SerializePending {
    type V = MadeView;

    closed spec fn view(&self) -> MadeView {
        MadeView { config: self.config@, path: self.path@ }
    }
}

impl View for WritePending {
    type V = MadeView;

    closed spec fn view(&self) -> MadeView {
        MadeView { config: self.config@, path: self.path@ }
    }
}

impl View for WriteAction {
    type V = WriteActionView;

    open spec fn view(&self) -> WriteActionView {
        match self {
            WriteAction::CreateLayerDir { dir, then } => WriteActionView::CreateLayerDir {
                dir: dir@,
                draft: then@,
            },
            WriteAction::ProbeFsMeta { dir, then } => WriteActionView::ProbeFsMeta {
                dir: dir@,
                draft: then@,
            },
            WriteAction::CreateImageDir { dir, then } => WriteActionView::CreateImageDir {
                dir: dir@,
                draft: then@,
            },
            WriteAction::Serialize { then } => WriteActionView::Serialize { made: then@ },
            WriteAction::WriteFile { path, json, then } => WriteActionView::WriteFile {
                path: path@,
                json: json@,
                made: then@,
            },
            WriteAction::Finish(r) => WriteActionView::Finish(
                match r {
                    Ok(path) => Ok(path@),
                    Err(e) => Err(e@),
                },
            ),
        }
    }
}

/// A configuration that comes from a draft: apart from the number of its layers nothing can be
/// wrong with it.
pub open spec fn is_drafted(made: ConfigView) -> bool {
    &&& made.upper is None
    &&& forall|i: int|
        0 <= i < config::lower_count(made) ==> config::is_sound_lower(
            made,
            #[trigger] config::lower_at(made, i),
        )
}

impl LayerDirPending {
    #[verifier::type_invariant]
    spec fn has_layer(self) -> bool {
        self@.lowers.len() < self@.layers.len()
    }
}

impl FsMetaPending {
    #[verifier::type_invariant]
    spec fn has_turbo_layer(self) -> bool {
        &&& self@.lowers.len() < self@.layers.len()
        &&& image::is_turbo_oci(current_annotations(self@))
    }
}

impl ImageDirPending {
    #[verifier::type_invariant]
    spec fn has_all_layers(self) -> bool {
        self@.lowers.len() == self@.layers.len()
    }
}

impl SerializePending {
    #[verifier::type_invariant]
    spec fn is_drafted(self) -> bool {
        is_drafted(self.config@)
    }
}

impl WritePending {
    #[verifier::type_invariant]
    spec fn is_drafted(self) -> bool {
        is_drafted(self.config@)
    }
}

/// What follows once a draft has come so far: the next layer's directory, or the image's where
/// every layer was looked at.
pub open spec fn next_step(draft: DraftView) -> WriteActionView {
    if draft.lowers.len() < draft.layers.len() {
        WriteActionView::CreateLayerDir { dir: current_dir(draft), draft }
    } else {
        WriteActionView::CreateImageDir { dir: layout::image_dir(draft.home, draft.digest), draft }
    }
}

/// What follows once a layer's directory was made, or could not be: a TurboOCI layer needs to know
/// its metadata file first; a standard layer is settled, unless its size is no number.
pub open spec fn layer_dir_step(
    draft: DraftView,
    created: Result<(), Seq<char>>,
) -> WriteActionView {
    let annotations = current_annotations(draft);
    match created {
        Err(reason) => WriteActionView::Finish(Err(ErrorView::Io(reason))),
        Ok(_) => if image::is_turbo_oci(annotations) {
            WriteActionView::ProbeFsMeta { dir: current_dir(draft), draft }
        } else if image::has_bad_size(Some(annotations)) {
            WriteActionView::Finish(Err(bad_size_error(annotations)))
        } else {
            next_step(with_lower(draft, standard_lower(annotations, current_dir(draft))))
        },
    }
}

/// What follows once it is known which metadata files a TurboOCI layer has and which filesystems
/// the kernel lists.
pub open spec fn fs_meta_step(
    draft: DraftView,
    files: FsMetaFiles,
    filesystems: Option<Seq<char>>,
) -> WriteActionView {
    next_step(
        with_lower(
            draft,
            turbo_lower(
                current_annotations(draft),
                current_dir(draft),
                turbo::detected_fs_type(files, filesystems),
            ),
        ),
    )
}

/// What follows once the image's directory was made, or could not be.
pub open spec fn image_dir_step(
    draft: DraftView,
    created: Result<(), Seq<char>>,
) -> WriteActionView {
    match created {
        Err(reason) => WriteActionView::Finish(Err(ErrorView::Io(reason))),
        Ok(_) => WriteActionView::Serialize {
            made: MadeView { config: drafted_config(draft), path: config_file(draft) },
        },
    }
}

/// What follows once the configuration was serialized, or could not be.
pub open spec fn serialized_step(
    made: MadeView,
    json: Result<Seq<char>, Seq<char>>,
) -> WriteActionView {
    match json {
        Err(reason) => WriteActionView::Finish(
            Err(ErrorView::Other("failed to serialize OverlayBD config: "@ + reason)),
        ),
        Ok(json) => WriteActionView::WriteFile { path: made.path, json, made },
    }
}

/// What it comes to once the configuration was written, or could not be: it has to be valid, and
/// nothing else can be wrong with it than that it lists no layer.
pub open spec fn written_step(made: MadeView, written: Result<(), Seq<char>>) -> WriteActionView {
    match written {
        Err(reason) => WriteActionView::Finish(Err(ErrorView::Io(reason))),
        Ok(_) => if config::is_valid_config(made.config) {
            WriteActionView::Finish(Ok(made.path))
        } else {
            WriteActionView::Finish(
                Err(ErrorView::Other(config::fault_text(ConfigFault::NoLayers))),
            )
        },
    }
}

impl ConfigDraft {
    fn proceed(self) -> (r: WriteAction)
        ensures
            r@ == next_step(self.state()),
    {
        proof {
            use_type_invariant(&self);
        }
        if self.lowers.len() < self.manifest.layers.len() {
            let dir = layout::layer_cache_dir(&self.home, &self.reference, self.lowers.len());
            WriteAction::CreateLayerDir { dir, then: LayerDirPending { draft: self } }
        } else {
            let dir = layout::overlaybd_image_dir(&self.home, &self.reference);
            WriteAction::CreateImageDir { dir, then: ImageDirPending { draft: self } }
        }
    }

    fn add(self, lower: OverlayBDConfigLower) -> (r: ConfigDraft)
        requires
            self.state().lowers.len() < self.state().layers.len(),
            is_lower_of(self.state(), self.state().lowers.len() as int, lower@),
        ensures
            r.state() == with_lower(self.state(), lower@),
    {
        proof {
            use_type_invariant(&self);
        }
        let ghost before = self.state();
        let ConfigDraft { home, reference, manifest, lowers } = self;
        let mut lowers = lowers;
        lowers.push(lower);
        proof {
            assert(config::lowers_view(lowers@) =~= before.lowers.push(lower@));
            let after = with_lower(before, lower@);
            assert forall|i: int| 0 <= i < after.lowers.len() implies is_lower_of(
                after,
                i,
                #[trigger] after.lowers[i],
            ) by {
                if i < before.lowers.len() {
                    assert(is_lower_of(before, i, before.lowers[i]));
                }
            }
        }
        ConfigDraft { home, reference, manifest, lowers }
    }
}

/// Starts on the configuration of an OverlayBD image.
///
/// The manifest has to say of each layer what the configuration needs, as that of an OverlayBD
/// image does.
pub fn write_overlaybd_config(
    microsandbox_home: FsPath,
    reference: Reference,
    manifest: ImageManifest,
) -> (r: WriteAction)
    requires
        image::is_readable(manifest@),
    ensures
        r@ == next_step(empty_draft(microsandbox_home@, reference, manifest@)),
{
    let lowers: Vec<OverlayBDConfigLower> = Vec::new();
    assert(config::lowers_view(lowers@) =~= Seq::empty());
    let draft = ConfigDraft { home: microsandbox_home, reference, manifest, lowers };
    draft.proceed()
}

/// The lower layer for a TurboOCI layer: its target's digest, its metadata file and, where the
/// target is gzip-compressed, the gzip index.
fn make_turbo_lower(
    annotations: &Annotations,
    dir: &FsPath,
    files: FsMetaFiles,
    filesystems: &Option<String>,
) -> (r: OverlayBDConfigLower)
    requires
        image::is_turbo_oci(annotations@),
    ensures
        r@ == turbo_lower(
            annotations@,
            dir@,
            turbo::detected_fs_type(files, text::opt_text(*filesystems)),
        ),
{
    let (_, target_digest, media_type) = image::check_turbo_oci(annotations);
    let target_digest: Option<String> = match target_digest {
        Some(digest) => Some(digest.clone()),
        None => None,
    };
    let gzip_index: Option<String> = match media_type {
        Some(media_type) => if image::is_gzip_layer_type(media_type.as_str()) {
            Some(dir.join(turbo::TURBO_OCI_GZIP_INDEX_FILENAME).to_string_lossy())
        } else {
            None
        },
        None => None,
    };
    let file = turbo::detect_fs_meta_in_dir(dir, files, filesystems);
    OverlayBDConfigLower {
        gzip_index,
        file: Some(file.to_string_lossy()),
        digest: None,
        target_file: None,
        target_digest,
        size: None,
        dir: Some(dir.to_string_lossy()),
    }
}

/// The lower layer for a standard layer: its digest and its size.
fn make_standard_lower(annotations: &Annotations, dir: &FsPath) -> (r: Result<
    OverlayBDConfigLower,
    MicrosandboxError,
>)
    requires
        image::is_overlaybd_layer(Some(annotations@)),
    ensures
        match r {
            Ok(lower) => text::parsed_i64(
                annotations@[image::OVERLAYBD_BLOB_SIZE_ANNOTATION@],
            ) is Some && lower@ == standard_lower(annotations@, dir@),
            Err(e) => text::parsed_i64(
                annotations@[image::OVERLAYBD_BLOB_SIZE_ANNOTATION@],
            ) is None && e@ == bad_size_error(annotations@),
        },
{
    let digest: String = annotations.get(image::OVERLAYBD_BLOB_DIGEST_ANNOTATION).unwrap().clone();
    let size = annotations.get(image::OVERLAYBD_BLOB_SIZE_ANNOTATION).unwrap();
    match text::parse_i64(size.as_str()) {
        Ok(size) => Ok(
            OverlayBDConfigLower {
                gzip_index: None,
                file: None,
                digest: Some(digest),
                target_file: None,
                target_digest: None,
                size: Some(size),
                dir: Some(dir.to_string_lossy()),
            },
        ),
        Err(reason) => {
            let mut message = "failed to parse overlaybd blob-size: ".to_owned();
            message.append(reason.as_str());
            Err(MicrosandboxError::Other(message))
        },
    }
}

/// What a standard layer whose size is no number is reported as.
pub open spec fn bad_size_error(annotations: AnnotationMap) -> ErrorView {
    ErrorView::Other(
        "failed to parse overlaybd blob-size: "@ + text::i64_error_text(
            annotations[image::OVERLAYBD_BLOB_SIZE_ANNOTATION@],
        ),
    )
}

impl LayerDirPending {
    /// Goes on once the layer's directory was made, or says why it was not.
    ///
    /// A TurboOCI layer needs to know its metadata file first. A standard layer is settled, unless
    /// its size is no number.
    pub fn resume(self, created: Result<(), String>) -> (r: WriteAction)
        ensures
            r@ == layer_dir_step(self@, text::done_view(created)),
    {
        proof {
            use_type_invariant(&self);
            use_type_invariant(&self.draft);
        }
        if let Err(reason) = created {
            return WriteAction::Finish(Err(MicrosandboxError::Io(reason)));
        }
        let draft = self.draft;
        let i: usize = draft.lowers.len();
        let ghost state = draft.state();
        proof {
            assert(state.layers[i as int] == draft.manifest.layers@[i as int]@);
            assert forall|j: int| 0 <= j < i implies !image::has_bad_size(
                #[trigger] state.layers[j],
            ) by {
                assert(is_lower_of(state, j, state.lowers[j]));
            }
            assert(image::is_usable_layer(state.layers[i as int]));
        }
        let dir = layout::layer_cache_dir(&draft.home, &draft.reference, i);
        match &draft.manifest.layers[i].annotations {
            Some(annotations) => {
                if image::check_turbo_oci(annotations).0 {
                    return WriteAction::ProbeFsMeta { dir, then: FsMetaPending { draft } };
                }
                match make_standard_lower(annotations, &dir) {
                    Ok(lower) => draft.add(lower).proceed(),
                    Err(e) => WriteAction::Finish(Err(e)),
                }
            },
            None => {
                assert(false);
                draft.proceed()
            },
        }
    }
}

impl FsMetaPending {
    /// Goes on once it is known which metadata files the layer's directory holds and what the
    /// kernel lists as its filesystems, if that could be read.
    pub fn resume(self, files: FsMetaFiles, filesystems: Option<String>) -> (r: WriteAction)
        ensures
            r@ == fs_meta_step(self@, files, text::opt_text(filesystems)),
            draft_shown(r@) matches Some(draft) && draft.lowers.len() == self@.lowers.len() + 1
                && draft.lowers.last().file == Some(
                text::bytes_text(
                    path::joined(
                        current_dir(self@),
                        encode_utf8(
                            if files.erofs && (filesystems matches Some(content)
                                && text::occurs_in(content@, "\terofs\n"@)) {
                                "erofs.fs.meta"@
                            } else {
                                "ext4.fs.meta"@
                            },
                        ),
                    ),
                ),
            ),
    {
        proof {
            use_type_invariant(&self);
            use_type_invariant(&self.draft);
        }
        let draft = self.draft;
        let i: usize = draft.lowers.len();
        let ghost state = draft.state();
        proof {
            assert(state.layers[i as int] == draft.manifest.layers@[i as int]@);
            assert forall|j: int| 0 <= j < i implies !image::has_bad_size(
                #[trigger] state.layers[j],
            ) by {
                assert(is_lower_of(state, j, state.lowers[j]));
            }
            assert(image::is_usable_layer(state.layers[i as int]));
        }
        let dir = layout::layer_cache_dir(&draft.home, &draft.reference, i);
        match &draft.manifest.layers[i].annotations {
            Some(annotations) => {
                proof {
                    law_turbo_layer_names_its_metadata(
                        state,
                        files,
                        text::opt_text(filesystems),
                    );
                }
                let lower = make_turbo_lower(annotations, &dir, files, &filesystems);
                draft.add(lower).proceed()
            },
            None => {
                assert(false);
                draft.proceed()
            },
        }
    }
}

impl ImageDirPending {
    /// Goes on once the image's directory was made, or says why it was not.
    pub fn resume(self, created: Result<(), String>) -> (r: WriteAction)
        ensures
            r@ == image_dir_step(self@, text::done_view(created)),
            is_sound_draft(self@),
            self@.lowers.len() == self@.layers.len(),
    {
        proof {
            use_type_invariant(&self);
            use_type_invariant(&self.draft);
        }
        if let Err(reason) = created {
            return WriteAction::Finish(Err(MicrosandboxError::Io(reason)));
        }
        let ghost state = self@;
        let ConfigDraft { home, reference, manifest, lowers } = self.draft;
        let image_dir = layout::overlaybd_image_dir(&home, &reference);
        let made = OverlayBDConfig {
            repo_blob_url: Some(image::construct_repo_blob_url(&reference)),
            lowers: Some(lowers),
            upper: None,
            result_file: Some(
                image_dir.join(layout::OVERLAYBD_RESULT_FILENAME).to_string_lossy(),
            ),
        };
        let path = image_dir.join(layout::OVERLAYBD_CONFIG_FILENAME);
        proof {
            assert(made@ == drafted_config(state));
            law_drafted_config_is_valid(state);
        }
        WriteAction::Serialize { then: SerializePending { config: made, path } }
    }
}

impl SerializePending {
    /// The configuration to serialize.
    pub fn config(&self) -> (r: &OverlayBDConfig)
        ensures
            r@ == self@.config,
    {
        &self.config
    }

    /// Goes on with the serialized configuration, or with the reason why there is none.
    pub fn resume(self, json: Result<String, String>) -> (r: WriteAction)
        ensures
            r@ == serialized_step(self@, text::given_view(json)),
    {
        proof {
            use_type_invariant(&self);
        }
        match json {
            Err(reason) => WriteAction::Finish(
                Err(config::config_serialize_error(reason.as_str())),
            ),
            Ok(json) => {
                let path = self.path.clone();
                WriteAction::WriteFile {
                    path,
                    json,
                    then: WritePending { config: self.config, path: self.path },
                }
            },
        }
    }
}

impl WritePending {
    /// Ends with the path of the configuration once it was written and found valid. It is valid
    /// exactly where it lists a layer.
    pub fn resume(self, written: Result<(), String>) -> (r: WriteAction)
        ensures
            r@ == written_step(self@, text::done_view(written)),
            config::is_valid_config(self@.config) <==> config::lower_count(self@.config) > 0,
    {
        proof {
            use_type_invariant(&self);
        }
        if let Err(reason) = written {
            return WriteAction::Finish(Err(MicrosandboxError::Io(reason)));
        }
        match config::validate_overlaybd_config(&self.config) {
            Ok(_) => WriteAction::Finish(Ok(self.path)),
            Err(fault) => {
                proof {
                    if config::has_a_layer(self.config@) {
                        let i = choose|i: int|
                            #![trigger config::lower_fault(self.config@, i)]
                            0 <= i < config::lower_count(self.config@) && config::lower_fault(
                                self.config@,
                                i,
                            ) == Some(fault);
                        assert(config::is_sound_lower(
                            self.config@,
                            config::lower_at(self.config@, i),
                        ));
                    }
                }
                WriteAction::Finish(Err(MicrosandboxError::Other(fault.message())))
            },
        }
    }
}

/// What the host answers for one layer: whether its directory was made, which metadata files are
/// there and which filesystems the kernel lists.
pub struct LayerReply {
    pub created: Result<(), Seq<char>>,
    pub files: FsMetaFiles,
    pub filesystems: Option<Seq<char>>,
}

/// How many layers are still to be looked at when a step is asked for.
pub open spec fn layers_left(action: WriteActionView) -> nat {
    match action {
        WriteActionView::CreateLayerDir { draft, .. } => if draft.lowers.len()
            < draft.layers.len() {
            (draft.layers.len() - draft.lowers.len()) as nat
        } else {
            0
        },
        _ => 0,
    }
}

/// What follows a layer's directory when the host answers for the layer as given.
pub open spec fn after_layer(draft: DraftView, reply: LayerReply) -> WriteActionView {
    match layer_dir_step(draft, reply.created) {
        WriteActionView::ProbeFsMeta { draft, .. } => fs_meta_step(
            draft,
            reply.files,
            reply.filesystems,
        ),
        other => other,
    }
}

/// Where the steps lead from one on, when the host answers for each layer as given, up to the
/// image's directory.
pub open spec fn led_to(action: WriteActionView, replies: Seq<LayerReply>) -> WriteActionView
    decreases layers_left(action),
{
    match action {
        WriteActionView::CreateLayerDir { draft, .. } => if draft.lowers.len()
            < draft.layers.len() {
            led_to(after_layer(draft, replies[draft.lowers.len() as int]), replies)
        } else {
            action
        },
        _ => action,
    }
}

/// The directories that the host is asked to make for layers on the way, in order.
pub open spec fn dirs_asked(action: WriteActionView, replies: Seq<LayerReply>) -> Seq<Seq<u8>>
    decreases layers_left(action),
{
    match action {
        WriteActionView::CreateLayerDir { dir, draft } => if draft.lowers.len()
            < draft.layers.len() {
            seq![dir] + dirs_asked(
                after_layer(draft, replies[draft.lowers.len() as int]),
                replies,
            )
        } else {
            Seq::empty()
        },
        _ => Seq::empty(),
    }
}

/// The lower layers that the layers of a draft give, in the order of the manifest: each from its
/// own annotations, with its own cache directory and the filesystem type that is detected there.
pub open spec fn lowers_for(draft: DraftView, replies: Seq<LayerReply>) -> Seq<LowerView> {
    Seq::new(
        draft.layers.len(),
        |i: int|
            lower_for(
                draft.layers[i]->0,
                layout::layer_dir(draft.home, draft.digest, i as nat),
                turbo::detected_fs_type(replies[i].files, replies[i].filesystems),
            ),
    )
}

/// The first failure among the layers from a position on: a directory that could not be made, or
/// a size that is no number.
pub open spec fn first_failure(
    layers: Seq<Option<AnnotationMap>>,
    replies: Seq<LayerReply>,
    from: nat,
) -> Option<ErrorView>
    decreases layers.len() - from,
{
    if from >= layers.len() {
        None
    } else {
        match replies[from as int].created {
            Err(reason) => Some(ErrorView::Io(reason)),
            Ok(_) => if image::has_bad_size(Some(layers[from as int]->0)) {
                Some(bad_size_error(layers[from as int]->0))
            } else {
                first_failure(layers, replies, from + 1)
            },
        }
    }
}

/// Every layer of the image becomes one lower layer, in the order of the manifest, and nothing else
/// about the draft changes; or the first failure among the layers ends it.
pub proof fn law_layers_become_lowers_in_order(draft: DraftView, replies: Seq<LayerReply>)
    requires
        draft.lowers.len() <= draft.layers.len(),
        draft.lowers == lowers_for(draft, replies).take(draft.lowers.len() as int),
    ensures
        led_to(next_step(draft), replies) == match first_failure(
            draft.layers,
            replies,
            draft.lowers.len(),
        ) {
            Some(e) => WriteActionView::Finish(Err(e)),
            None => WriteActionView::CreateImageDir {
                dir: layout::image_dir(draft.home, draft.digest),
                draft: DraftView { lowers: lowers_for(draft, replies), ..draft },
            },
        },
    decreases draft.layers.len() - draft.lowers.len(),
{
    reveal_with_fuel(led_to, 2);
    let n = draft.lowers.len();
    let all = lowers_for(draft, replies);
    if n < draft.layers.len() {
        let next = with_lower(draft, all[n as int]);
        assert(lowers_for(next, replies) =~= all);
        assert(next.lowers =~= all.take(n as int + 1));
        law_layers_become_lowers_in_order(next, replies);
        assert(all[n as int] == lower_for(
            current_annotations(draft),
            current_dir(draft),
            turbo::detected_fs_type(replies[n as int].files, replies[n as int].filesystems),
        ));
    } else {
        assert(all.take(n as int) =~= all);
    }
}

/// A directory is asked for each layer, in order, up to the first failure.
pub proof fn law_layer_dirs_are_asked_in_order(draft: DraftView, replies: Seq<LayerReply>)
    requires
        draft.lowers.len() <= draft.layers.len(),
    ensures
        ({
            let dirs = dirs_asked(next_step(draft), replies);
            &&& draft.lowers.len() + dirs.len() <= draft.layers.len()
            &&& forall|i: int|
                0 <= i < dirs.len() ==> #[trigger] dirs[i] == layout::layer_dir(
                    draft.home,
                    draft.digest,
                    (draft.lowers.len() + i) as nat,
                )
            &&& first_failure(draft.layers, replies, draft.lowers.len()) is None
                ==> draft.lowers.len() + dirs.len() == draft.layers.len()
        }),
    decreases draft.layers.len() - draft.lowers.len(),
{
    reveal_with_fuel(dirs_asked, 2);
    if draft.lowers.len() < draft.layers.len() {
        let reply = replies[draft.lowers.len() as int];
        let annotations = current_annotations(draft);
        let dirs = dirs_asked(next_step(draft), replies);
        let goes_on = reply.created is Ok && !image::has_bad_size(Some(annotations));
        if goes_on {
            let next = with_lower(
                draft,
                lower_for(
                    annotations,
                    current_dir(draft),
                    turbo::detected_fs_type(reply.files, reply.filesystems),
                ),
            );
            law_layer_dirs_are_asked_in_order(next, replies);
            let later = dirs_asked(next_step(next), replies);
            assert(dirs == seq![current_dir(draft)] + later);
            assert forall|i: int| 0 <= i < dirs.len() implies #[trigger] dirs[i]
                == layout::layer_dir(
                draft.home,
                draft.digest,
                (draft.lowers.len() + i) as nat,
            ) by {
                if i > 0 {
                    assert(dirs[i] == later[i - 1]);
                }
            }
        } else {
            assert(dirs =~= seq![current_dir(draft)]);
        }
    }
}

/// Where every step succeeds, the configuration that was made from the draft is what is serialized,
/// its file is what is written, and the answer is that file, unless the image has no layer.
pub proof fn law_config_is_written_to_its_file(draft: DraftView, json: Seq<char>)
    requires
        is_sound_draft(draft),
        draft.lowers.len() == draft.layers.len(),
    ensures
        ({
            let made = MadeView { config: drafted_config(draft), path: config_file(draft) };
            &&& image_dir_step(draft, Ok(())) == WriteActionView::Serialize { made }
            &&& serialized_step(made, Ok(json)) == WriteActionView::WriteFile {
                path: config_file(draft),
                json,
                made,
            }
            &&& written_step(made, Ok(())) == if draft.layers.len() > 0 {
                WriteActionView::Finish(Ok(config_file(draft)))
            } else {
                WriteActionView::Finish(
                    Err(ErrorView::Other(config::fault_text(ConfigFault::NoLayers))),
                )
            }
        }),
{
    law_drafted_config_is_valid(draft);
}

/// The draft that a step carries, where it carries one.
pub open spec fn draft_shown(action: WriteActionView) -> Option<DraftView> {
    match action {
        WriteActionView::CreateLayerDir { draft, .. } => Some(draft),
        WriteActionView::ProbeFsMeta { draft, .. } => Some(draft),
        WriteActionView::CreateImageDir { draft, .. } => Some(draft),
        _ => None,
    }
}

/// `after` is `before` with one more lower layer, and nothing else about it differs.
pub open spec fn adds_one_lower(before: DraftView, after: DraftView) -> bool {
    &&& after.home == before.home
    &&& after.registry == before.registry
    &&& after.repository == before.repository
    &&& after.digest == before.digest
    &&& after.layers == before.layers
    &&& after.lowers.len() == before.lowers.len() + 1
    &&& after.lowers.drop_last() == before.lowers
}

/// The lower layer of a TurboOCI layer names as its file the metadata in the layer's own cache
/// directory: `erofs.fs.meta` exactly where that is there and the kernel lists erofs, and
/// `ext4.fs.meta` in every other case.
pub proof fn law_turbo_layer_names_its_metadata(
    draft: DraftView,
    files: FsMetaFiles,
    filesystems: Option<Seq<char>>,
)
    ensures
        ({
            let dir = layout::layer_dir(draft.home, draft.digest, draft.lowers.len());
            let name = if files.erofs && (filesystems matches Some(content) && text::occurs_in(
                content,
                "\terofs\n"@,
            )) {
                "erofs.fs.meta"@
            } else {
                "ext4.fs.meta"@
            };
            draft_shown(fs_meta_step(draft, files, filesystems)) matches Some(after)
                && adds_one_lower(draft, after) && after.lowers.last().file == Some(
                text::bytes_text(path::joined(dir, encode_utf8(name))),
            )
        }),
{
    let dir = layout::layer_dir(draft.home, draft.digest, draft.lowers.len());
    turbo::law_metadata_file_is_named(dir, files, filesystems);
    let after = draft_shown(fs_meta_step(draft, files, filesystems))->0;
    assert(after.lowers.drop_last() =~= draft.lowers);
}

/// The lower layer of a TurboOCI layer gives, besides its metadata file, the digest of its target
/// and the layer's own cache directory, and `gzip.meta` in that directory exactly where the
/// target's media type is that of a gzip-compressed layer. Digest and media type are read under the
/// current names where the current digest is there, else under the legacy names. It has neither the
/// digest nor the size of a standard layer.
pub proof fn law_turbo_layer_gives_its_target(
    draft: DraftView,
    files: FsMetaFiles,
    filesystems: Option<Seq<char>>,
)
    requires
        image::is_turbo_oci(current_annotations(draft)),
    ensures
        ({
            let annotations = draft.layers[draft.lowers.len() as int]->0;
            let dir = layout::layer_dir(draft.home, draft.digest, draft.lowers.len());
            let current = "containerd.io/snapshot/overlaybd/turbo-oci/target-digest"@;
            let (digest, media_type) = if annotations.dom().contains(current) {
                (current, "containerd.io/snapshot/overlaybd/turbo-oci/target-media-type"@)
            } else {
                (
                    "containerd.io/snapshot/overlaybd/fastoci/target-digest"@,
                    "containerd.io/snapshot/overlaybd/fastoci/target-media-type"@,
                )
            };
            let is_gzip = annotations.dom().contains(media_type) && (annotations[media_type]
                == "application/vnd.oci.image.layer.v1.tar+gzip"@ || annotations[media_type]
                == "application/vnd.docker.image.rootfs.diff.tar.gzip"@);
            draft_shown(fs_meta_step(draft, files, filesystems)) matches Some(after) && {
                let lower = after.lowers.last();
                &&& lower.target_digest == Some(annotations[digest])
                &&& lower.dir == Some(text::bytes_text(dir))
                &&& lower.gzip_index is Some <==> is_gzip
                &&& is_gzip ==> lower.gzip_index == Some(
                    text::bytes_text(path::joined(dir, encode_utf8("gzip.meta"@))),
                )
                &&& lower.digest is None
                &&& lower.target_file is None
                &&& lower.size is None
            }
        }),
{
}

/// A standard layer is settled once its directory was made: its lower layer gives the digest, the
/// size and the layer's own cache directory, and nothing that a TurboOCI layer has.
pub proof fn law_standard_layer_gives_digest_and_size(draft: DraftView, size: i64)
    requires
        ({
            let annotations = current_annotations(draft);
            &&& !image::is_turbo_oci(annotations)
            &&& annotations.dom().contains("containerd.io/snapshot/overlaybd/blob-digest"@)
            &&& annotations.dom().contains("containerd.io/snapshot/overlaybd/blob-size"@)
            &&& text::signed_decimal(annotations["containerd.io/snapshot/overlaybd/blob-size"@])
                == Some(size as int)
        }),
    ensures
        ({
            let annotations = draft.layers[draft.lowers.len() as int]->0;
            let dir = layout::layer_dir(draft.home, draft.digest, draft.lowers.len());
            draft_shown(layer_dir_step(draft, Ok(()))) matches Some(after) && adds_one_lower(
                draft,
                after,
            ) && {
                let lower = after.lowers.last();
                &&& lower.digest == Some(
                    annotations["containerd.io/snapshot/overlaybd/blob-digest"@],
                )
                &&& lower.size == Some(size)
                &&& lower.dir == Some(text::bytes_text(dir))
                &&& lower.gzip_index is None
                &&& lower.file is None
                &&& lower.target_file is None
                &&& lower.target_digest is None
            }
        }),
{
    let after = draft_shown(layer_dir_step(draft, Ok(())))->0;
    assert(after.lowers.drop_last() =~= draft.lowers);
}

/// Once a layer's directory was made, a TurboOCI layer is looked into, at its own directory, and
/// nothing is settled yet. A standard layer whose size is no number ends it with std's reason, and
/// so does a directory that could not be made, with the host's.
pub proof fn law_layer_directory_decides(draft: DraftView, reason: Seq<char>)
    ensures
        image::is_turbo_oci(current_annotations(draft)) ==> layer_dir_step(draft, Ok(())) == (
        WriteActionView::ProbeFsMeta {
            dir: layout::layer_dir(draft.home, draft.digest, draft.lowers.len()),
            draft,
        }),
        image::has_bad_size(Some(current_annotations(draft))) ==> layer_dir_step(draft, Ok(()))
            == WriteActionView::Finish(
            Err(
                ErrorView::Other(
                    "failed to parse overlaybd blob-size: "@ + text::i64_error_text(
                        current_annotations(
                            draft,
                        )["containerd.io/snapshot/overlaybd/blob-size"@],
                    ),
                ),
            ),
        ),
        layer_dir_step(draft, Err(reason)) == WriteActionView::Finish(Err(ErrorView::Io(reason))),
        image_dir_step(draft, Err(reason)) == WriteActionView::Finish(Err(ErrorView::Io(reason))),
        current_annotations(draft) == draft.layers[draft.lowers.len() as int]->0,
{
}

/// The directory that is asked for next is that of the first layer that was not looked at yet, and
/// that of the image once there is none.
pub proof fn law_next_directory_is_the_next_layers(draft: DraftView)
    ensures
        draft.lowers.len() < draft.layers.len() ==> next_step(draft) == (
        WriteActionView::CreateLayerDir {
            dir: layout::layer_dir(draft.home, draft.digest, draft.lowers.len()),
            draft,
        }),
        draft.lowers.len() >= draft.layers.len() ==> next_step(draft) == (
        WriteActionView::CreateImageDir {
            dir: layout::image_dir(draft.home, draft.digest),
            draft,
        }),
{
}

/// A configuration starts from what was given, with no layer looked at.
pub proof fn law_draft_starts_from_what_was_given(
    home: Seq<u8>,
    reference: Reference,
    layers: Seq<Option<AnnotationMap>>,
)
    ensures
        ({
            let draft = empty_draft(home, reference, layers);
            &&& draft.home == home
            &&& draft.registry == reference.registry@
            &&& draft.repository == reference.repository@
            &&& draft.digest == layout::key_digest(reference)
            &&& draft.layers == layers
            &&& draft.lowers.len() == 0
        }),
{
}

/// The configuration that is made has the address of the image's repository, every lower layer of
/// the draft in its place and no upper layer. It goes to `config.v1.json` in the image's directory,
/// beside the file for the result.
pub proof fn law_made_config_is_spelled_out(draft: DraftView)
    requires
        draft.digest.len() >= 8,
    ensures
        ({
            let image = "overlaybd/"@ + layout::short_hash(draft.digest);
            image_dir_step(draft, Ok(())) matches WriteActionView::Serialize { made } && {
                &&& made.config.repo_blob_url == Some(
                    "https://"@ + (if draft.registry == "docker.io"@ {
                        "registry-1.docker.io"@
                    } else {
                        draft.registry
                    }) + "/v2/"@ + draft.repository + "/blobs"@,
                )
                &&& made.config.lowers == Some(draft.lowers)
                &&& made.config.upper is None
                &&& made.config.result_file == Some(
                    text::bytes_text(
                        path::opened(draft.home) + encode_utf8(image + "/result"@),
                    ),
                )
                &&& made.path == path::opened(draft.home) + encode_utf8(
                    image + "/config.v1.json"@,
                )
            }
        }),
{
    reveal_strlit("overlaybd/");
    reveal_strlit("result");
    reveal_strlit("/result");
    reveal_strlit("config.v1.json");
    reveal_strlit("/config.v1.json");
    let name = layout::short_hash(draft.digest);
    let image = "overlaybd/"@ + name;
    let start = path::opened(draft.home);
    layout::law_directories_are_spelled_out(draft.home, draft.digest, 0);
    layout::law_image_dir_name_is_safe(draft.digest);
    assert(text::is_hex_digit(name[15]));
    path::law_relative_texts_add_up(start, image, "result"@);
    path::law_relative_texts_add_up(start, image, "config.v1.json"@);
    assert(image + seq!['/'] + "result"@ =~= image + "/result"@);
    assert(image + seq!['/'] + "config.v1.json"@ =~= image + "/config.v1.json"@);
}

/// What was serialized is what is written, to the file that was decided on. The answer is that file
/// exactly where it was written and the configuration has an upper or a lower layer and is
/// otherwise valid. Each failure is told with the host's reason.
pub proof fn law_writing_is_told(made: MadeView, json: Seq<char>, reason: Seq<char>)
    ensures
        serialized_step(made, Ok(json)) == (WriteActionView::WriteFile {
            path: made.path,
            json,
            made,
        }),
        serialized_step(made, Err(reason)) == WriteActionView::Finish(
            Err(ErrorView::Other("failed to serialize OverlayBD config: "@ + reason)),
        ),
        written_step(made, Err(reason)) == WriteActionView::Finish(Err(ErrorView::Io(reason))),
        written_step(made, Ok(())) == WriteActionView::Finish(Ok(made.path))
            <==> config::is_valid_config(made.config),
        !config::is_valid_config(made.config) ==> written_step(made, Ok(()))
            == WriteActionView::Finish(
            Err(
                ErrorView::Other(
                    "invalid OverlayBD config: upper and lowers must not both be empty"@,
                ),
            ),
        ),
{
}

/// The view of a step shows what the host is asked for and what goes on from there.
pub proof fn law_write_view_keeps_everything(action: WriteAction)
    ensures
        action matches WriteAction::CreateLayerDir { dir, then } ==> action@ == (
        WriteActionView::CreateLayerDir { dir: dir@, draft: then@ }),
        action matches WriteAction::ProbeFsMeta { dir, then } ==> action@ == (
        WriteActionView::ProbeFsMeta { dir: dir@, draft: then@ }),
        action matches WriteAction::CreateImageDir { dir, then } ==> action@ == (
        WriteActionView::CreateImageDir { dir: dir@, draft: then@ }),
        action matches WriteAction::Serialize { then } ==> action@ == (WriteActionView::Serialize {
            made: then@,
        }),
        action matches WriteAction::WriteFile { path, json, then } ==> action@ == (
        WriteActionView::WriteFile { path: path@, json: json@, made: then@ }),
        action matches WriteAction::Finish(Ok(path)) ==> action@ == WriteActionView::Finish(
            Ok(path@),
        ),
        action matches WriteAction::Finish(Err(e)) ==> action@ == WriteActionView::Finish(Err(e@)),
{
}

} // verus!
