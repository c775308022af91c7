//! The backing store configuration of an OverlayBD device (`config.v1.json`).

use crate::error::{ErrorView, MicrosandboxError};
use crate::path;
use crate::path::FsPath;
use crate::text;
use vstd::prelude::*;
use vstd::utf8::*;

verus! {

/// The configuration from which the overlaybd-tcmu service makes a block device.
#[derive(Debug, PartialEq, Eq)]
pub struct OverlayBDConfig {
    /// Where the blobs of a remote image are found: the service appends `/<digest>`.
    pub repo_blob_url: Option<String>,
    /// The lower layers, from the bottom up.
    pub lowers: Option<Vec<OverlayBDConfigLower>>,
    /// The writable layer; absent on a read-only image.
    pub upper: Option<OverlayBDConfigUpper>,
    /// The file in which the service reports whether the device came up.
    pub result_file: Option<String>,
}

/// One lower layer of an OverlayBD device.
#[derive(Debug, PartialEq, Eq)]
pub struct OverlayBDConfigLower {
    /// The gzip index of a gzip-compressed TurboOCI layer.
    pub gzip_index: Option<String>,
    /// The filesystem metadata of a TurboOCI layer, or the commit file of a local layer.
    pub file: Option<String>,
    /// The digest of a standard remote layer.
    pub digest: Option<String>,
    /// The local file that holds the layer's blob.
    pub target_file: Option<String>,
    /// The digest of the layer that a TurboOCI layer stands for.
    pub target_digest: Option<String>,
    /// The size of a standard remote layer in bytes.
    pub size: Option<i64>,
    /// The cache directory of the layer.
    pub dir: Option<String>,
}

/// The writable layer of an OverlayBD device.
#[derive(Debug, PartialEq, Eq)]
pub struct OverlayBDConfigUpper {
    /// The writable data file.
    pub data: String,
    /// The writable index file.
    pub index: String,
    /// The virtual size of the disk in GiB.
    pub vsize: Option<u32>,
}

/// An [`OverlayBDConfig`] by its contents.
pub struct ConfigView {
    pub repo_blob_url: Option<Seq<char>>,
    pub lowers: Option<Seq<LowerView>>,
    pub upper: Option<UpperView>,
    pub result_file: Option<Seq<char>>,
}

/// An [`OverlayBDConfigLower`] by its contents.
pub struct LowerView {
    pub gzip_index: Option<Seq<char>>,
    pub file: Option<Seq<char>>,
    pub digest: Option<Seq<char>>,
    pub target_file: Option<Seq<char>>,
    pub target_digest: Option<Seq<char>>,
    pub size: Option<i64>,
    pub dir: Option<Seq<char>>,
}

/// An [`OverlayBDConfigUpper`] by its contents.
pub struct UpperView {
    pub data: Seq<char>,
    pub index: Seq<char>,
    pub vsize: Option<nat>,
}

impl View for OverlayBDConfigLower {
    type V = LowerView;

    open spec fn view(&self) -> LowerView {
        LowerView {
            gzip_index: text::opt_text(self.gzip_index),
            file: text::opt_text(self.file),
            digest: text::opt_text(self.digest),
            target_file: text::opt_text(self.target_file),
            target_digest: text::opt_text(self.target_digest),
            size: self.size,
            dir: text::opt_text(self.dir),
        }
    }
}

impl View for OverlayBDConfigUpper {
    type V = UpperView;

    open spec fn view(&self) -> UpperView {
        UpperView {
            data: self.data@,
            index: self.index@,
            vsize: match self.vsize {
                Some(vsize) => Some(vsize as nat),
                None => None,
            },
        }
    }
}

/// A list of lower layers by their contents.
pub open spec fn lowers_view(lowers: Seq<OverlayBDConfigLower>) -> Seq<LowerView> {
    Seq::new(lowers.len(), |i: int| lowers[i]@)
}

impl View for OverlayBDConfig {
    type V = ConfigView;

    open spec fn view(&self) -> ConfigView {
        ConfigView {
            repo_blob_url: text::opt_text(self.repo_blob_url),
            lowers: match self.lowers {
                Some(lowers) => Some(lowers_view(lowers@)),
                None => None,
            },
            upper: match self.upper {
                Some(upper) => Some(upper@),
                None => None,
            },
            result_file: text::opt_text(self.result_file),
        }
    }
}

/// What is wrong with a configuration.
#[derive(Debug, Clone, Copy, PartialEq, Eq)]
pub enum ConfigFault {
    /// There is neither a lower nor an upper layer.
    NoLayers,
    /// A lower layer is both a standard and a TurboOCI layer.
    BothDigests { lower: usize },
    /// A lower layer has nothing that identifies it.
    NoIdentity { lower: usize },
    /// A lower layer is remote and the repository's address is missing.
    NoRepository { lower: usize },
}

/// A lower layer at position `i` of a configuration's list.
pub open spec fn lower_at(config: ConfigView, i: int) -> LowerView {
    config.lowers->0[i]
}

/// How many lower layers a configuration lists.
pub open spec fn lower_count(config: ConfigView) -> nat {
    match config.lowers {
        Some(lowers) => lowers.len(),
        None => 0,
    }
}

/// The image has at least one layer.
pub open spec fn has_a_layer(config: ConfigView) -> bool {
    config.upper is Some || lower_count(config) > 0
}

/// A lower layer is not both a standard and a TurboOCI layer.
pub open spec fn is_of_one_kind(lower: LowerView) -> bool {
    !(lower.digest is Some && lower.target_digest is Some)
}

/// A lower layer has something that identifies it.
pub open spec fn is_identified(lower: LowerView) -> bool {
    lower.digest is Some || lower.target_digest is Some || lower.file is Some || lower.dir is Some
}

/// A lower layer is fetched from the repository.
pub open spec fn is_remote(lower: LowerView) -> bool {
    lower.digest is Some || lower.target_digest is Some
}

/// Nothing is wrong with a lower layer of a configuration.
pub open spec fn is_sound_lower(config: ConfigView, lower: LowerView) -> bool {
    &&& is_of_one_kind(lower)
    &&& is_identified(lower)
    &&& is_remote(lower) ==> config.repo_blob_url is Some
}

/// Nothing is wrong with a configuration.
pub open spec fn is_valid_config(config: ConfigView) -> bool {
    &&& has_a_layer(config)
    &&& forall|i: int|
        0 <= i < lower_count(config) ==> is_sound_lower(config, #[trigger] lower_at(config, i))
}

/// The first thing that is wrong with the lower layer at position `i`.
pub open spec fn lower_fault(config: ConfigView, i: int) -> Option<ConfigFault> {
    let lower = lower_at(config, i);
    if !is_of_one_kind(lower) {
        Some(ConfigFault::BothDigests { lower: i as usize })
    } else if !is_identified(lower) {
        Some(ConfigFault::NoIdentity { lower: i as usize })
    } else if is_remote(lower) && config.repo_blob_url is None {
        Some(ConfigFault::NoRepository { lower: i as usize })
    } else {
        None
    }
}

/// `fault` is the first thing that is wrong with a configuration: that it has no layer, or what is
/// wrong with the lowest layer that is not sound.
pub open spec fn is_first_fault(config: ConfigView, fault: ConfigFault) -> bool {
    if has_a_layer(config) {
        exists|i: int|
            #![trigger lower_fault(config, i)]
            {
                &&& 0 <= i < lower_count(config)
                &&& lower_fault(config, i) == Some(fault)
                &&& forall|j: int| 0 <= j < i ==> #[trigger] lower_fault(config, j) is None
            }
    } else {
        fault == ConfigFault::NoLayers
    }
}

/// What a configuration's fault is reported as.
pub open spec fn fault_text(fault: ConfigFault) -> Seq<char> {
    match fault {
        ConfigFault::NoLayers =>
            "invalid OverlayBD config: upper and lowers must not both be empty"@,
        ConfigFault::BothDigests { lower } => "invalid OverlayBD config: lower["@ + text::decimal(
            lower as nat,
        ) + "] has both 'digest' (standard) and 'target_digest' (TurboOCI)"@,
        ConfigFault::NoIdentity { lower } => "invalid OverlayBD config: lower["@ + text::decimal(
            lower as nat,
        ) + "] has no identifying fields (digest, target_digest, file, or dir)"@,
        ConfigFault::NoRepository { lower } => "invalid OverlayBD config: lower["@ + text::decimal(
            lower as nat,
        ) + "] uses remote fields but repo_blob_url is not set"@,
    }
}

impl ConfigFault {
    /// The fault in words.
    pub fn message(&self) -> (r: String)
        ensures
            r@ == fault_text(*self),
    {
        match *self {
            ConfigFault::NoLayers =>
                "invalid OverlayBD config: upper and lowers must not both be empty".to_owned(),
            ConfigFault::BothDigests { lower } => lower_message(
                lower,
                "] has both 'digest' (standard) and 'target_digest' (TurboOCI)",
            ),
            ConfigFault::NoIdentity { lower } => lower_message(
                lower,
                "] has no identifying fields (digest, target_digest, file, or dir)",
            ),
            ConfigFault::NoRepository { lower } => lower_message(
                lower,
                "] uses remote fields but repo_blob_url is not set",
            ),
        }
    }
}

/// A complaint about one lower layer.
fn lower_message(lower: usize, complaint: &str) -> (r: String)
    ensures
        r@ == "invalid OverlayBD config: lower["@ + text::decimal(lower as nat) + complaint@,
{
    let mut message = "invalid OverlayBD config: lower[".to_owned();
    message.append(text::decimal_text(lower as u64).as_str());
    message.append(complaint);
    message
}

/// Checks that a configuration can be served:
///
/// - there is an upper layer or at least one lower layer;
/// - no lower layer has both a `digest` (standard) and a `target_digest` (TurboOCI);
/// - every lower layer has a `digest`, a `target_digest`, a `file` or a `dir`;
/// - where a lower layer has a `digest` or a `target_digest`, `repo_blob_url` is set.
pub fn validate_overlaybd_config(config: &OverlayBDConfig) -> (r: Result<(), ConfigFault>)
    ensures
        r is Ok <==> is_valid_config(config@),
        r matches Err(fault) ==> is_first_fault(config@, fault),
{
    let count: usize = match &config.lowers {
        Some(lowers) => lowers.len(),
        None => 0,
    };
    assert(count == lower_count(config@));
    if config.upper.is_none() && count == 0 {
        return Err(ConfigFault::NoLayers);
    }
    if let Some(lowers) = &config.lowers {
        let mut i: usize = 0;
        while i < lowers.len()
            invariant
                i <= lowers.len(),
                has_a_layer(config@),
                config.lowers == Some(*lowers),
                lowers.len() == lower_count(config@),
                forall|j: int| 0 <= j < i ==> #[trigger] lower_fault(config@, j) is None,
            decreases lowers.len() - i,
        {
            let lower = &lowers[i];
            assert(lower_at(config@, i as int) == lower@);
            let has_digest = lower.digest.is_some();
            let has_target_digest = lower.target_digest.is_some();
            let has_file = lower.file.is_some();
            let has_dir = lower.dir.is_some();
            let ghost fault = lower_fault(config@, i as int);
            if has_digest && has_target_digest {
                assert(fault == Some(ConfigFault::BothDigests { lower: i }));
                assert(!is_sound_lower(config@, lower_at(config@, i as int)));
                return Err(ConfigFault::BothDigests { lower: i });
            }
            if !has_digest && !has_target_digest && !has_file && !has_dir {
                assert(fault == Some(ConfigFault::NoIdentity { lower: i }));
                assert(!is_sound_lower(config@, lower_at(config@, i as int)));
                return Err(ConfigFault::NoIdentity { lower: i });
            }
            if (has_digest || has_target_digest) && config.repo_blob_url.is_none() {
                assert(fault == Some(ConfigFault::NoRepository { lower: i }));
                assert(!is_sound_lower(config@, lower_at(config@, i as int)));
                return Err(ConfigFault::NoRepository { lower: i });
            }
            assert(fault is None);
            i += 1;
        }
        assert forall|j: int| 0 <= j < lower_count(config@) implies is_sound_lower(
            config@,
            #[trigger] lower_at(config@, j),
        ) by {
            assert(lower_fault(config@, j) is None);
        }
    }
    Ok(())
}

/// A configuration with its writable layer set: the paths as text and the size in GiB. Everything
/// else stays as it is.
pub open spec fn with_upper(
    config: ConfigView,
    data_path: Seq<u8>,
    index_path: Seq<u8>,
    vsize: nat,
) -> ConfigView {
    ConfigView {
        upper: Some(
            UpperView {
                data: text::bytes_text(data_path),
                index: text::bytes_text(index_path),
                vsize: Some(vsize),
            },
        ),
        ..config
    }
}

/// What is said of a virtual size that a configuration cannot hold.
pub open spec fn too_large_error(vsize: nat) -> ErrorView {
    ErrorView::Other(
        "invalid OverlayBD config: upper vsize of "@ + text::decimal(vsize)
            + " GiB does not fit in 32 bits"@,
    )
}

/// Gives a configuration the writable layer whose data and index files are named, with a virtual
/// size of `vsize` GiB. It is an error if the size does not fit in the 32 bits that a
/// configuration has for it.
pub fn update_overlaybd_config_upper(
    config: OverlayBDConfig,
    data_path: &FsPath,
    index_path: &FsPath,
    vsize: u64,
) -> (r: Result<OverlayBDConfig, MicrosandboxError>)
    ensures
        r is Ok <==> vsize <= u32::MAX,
        r matches Ok(updated) ==> updated@ == with_upper(
            config@,
            data_path@,
            index_path@,
            vsize as nat,
        ),
        r matches Err(e) ==> e@ == too_large_error(vsize as nat),
        r matches Ok(updated) ==> {
            &&& updated.repo_blob_url == config.repo_blob_url
            &&& updated.lowers == config.lowers
            &&& updated.result_file == config.result_file
            &&& updated.upper matches Some(upper) && upper.data@ == text::bytes_text(data_path@)
                && upper.index@ == text::bytes_text(index_path@) && upper.vsize == Some(
                vsize as u32,
            )
        },
{
    if vsize > u32::MAX as u64 {
        let mut message = "invalid OverlayBD config: upper vsize of ".to_owned();
        message.append(text::decimal_text(vsize).as_str());
        message.append(" GiB does not fit in 32 bits");
        return Err(MicrosandboxError::Other(message));
    }
    Ok(
        OverlayBDConfig {
            repo_blob_url: config.repo_blob_url,
            lowers: config.lowers,
            upper: Some(
                OverlayBDConfigUpper {
                    data: data_path.to_string_lossy(),
                    index: index_path.to_string_lossy(),
                    vsize: Some(vsize as u32),
                },
            ),
            result_file: config.result_file,
        },
    )
}

/// The error for a stored configuration that does not parse.
pub fn config_parse_error(reason: &str) -> (r: MicrosandboxError)
    ensures
        r@ == ErrorView::Other("failed to parse OverlayBD config: "@ + reason@),
{
    let mut message = "failed to parse OverlayBD config: ".to_owned();
    message.append(reason);
    MicrosandboxError::Other(message)
}

/// The error for a configuration that does not serialize.
pub fn config_serialize_error(reason: &str) -> (r: MicrosandboxError)
    ensures
        r@ == ErrorView::Other("failed to serialize OverlayBD config: "@ + reason@),
{
    let mut message = "failed to serialize OverlayBD config: ".to_owned();
    message.append(reason);
    MicrosandboxError::Other(message)
}

/// A valid configuration stays valid when it gets a writable layer.
pub proof fn law_upper_keeps_config_valid(
    config: ConfigView,
    data_path: Seq<u8>,
    index_path: Seq<u8>,
    vsize: nat,
)
    requires
        is_valid_config(config),
    ensures
        is_valid_config(with_upper(config, data_path, index_path, vsize)),
{
    let updated = with_upper(config, data_path, index_path, vsize);
    assert forall|i: int| 0 <= i < lower_count(updated) implies is_sound_lower(
        updated,
        #[trigger] lower_at(updated, i),
    ) by {
        assert(lower_at(updated, i) == lower_at(config, i));
    }
}

/// A writable layer alone makes an image: a configuration that lists no lower layer is valid once
/// it has an upper one.
pub proof fn law_upper_alone_is_valid(
    config: ConfigView,
    data_path: Seq<u8>,
    index_path: Seq<u8>,
    vsize: nat,
)
    requires
        lower_count(config) == 0,
    ensures
        is_valid_config(with_upper(config, data_path, index_path, vsize)),
{
}

/// Setting the writable layer again replaces it: only the last one counts.
pub proof fn law_last_upper_counts(
    config: ConfigView,
    first_data: Seq<u8>,
    first_index: Seq<u8>,
    first_vsize: nat,
    data_path: Seq<u8>,
    index_path: Seq<u8>,
    vsize: nat,
)
    ensures
        with_upper(
            with_upper(config, first_data, first_index, first_vsize),
            data_path,
            index_path,
            vsize,
        ) == with_upper(config, data_path, index_path, vsize),
{
}

/// Setting the writable layer keeps the repository's address, every lower layer in its place and
/// the result file, and sets the three things that were given: the data file, the index file and
/// the size.
pub proof fn law_upper_changes_nothing_else(
    config: ConfigView,
    data_path: Seq<u8>,
    index_path: Seq<u8>,
    vsize: nat,
)
    ensures
        ({
            let updated = with_upper(config, data_path, index_path, vsize);
            &&& updated.repo_blob_url == config.repo_blob_url
            &&& updated.lowers is Some <==> config.lowers is Some
            &&& config.lowers matches Some(lowers) ==> updated.lowers->0.len() == lowers.len() && (
            forall|i: int|
                0 <= i < lowers.len() ==> #[trigger] updated.lowers->0[i] == lowers[i])
            &&& updated.result_file == config.result_file
            &&& updated.upper is Some
            &&& updated.upper->0.data == text::bytes_text(data_path)
            &&& updated.upper->0.index == text::bytes_text(index_path)
            &&& updated.upper->0.vsize == Some(vsize)
        }),
{
}

/// Two writable layers that differ in a file named by text or in their size make different
/// configurations: nothing of what was given is lost.
pub proof fn law_uppers_are_told_apart(
    config: ConfigView,
    data: Seq<char>,
    index: Seq<char>,
    vsize: nat,
    other_data: Seq<char>,
    other_index: Seq<char>,
    other_vsize: nat,
)
    requires
        with_upper(config, encode_utf8(data), encode_utf8(index), vsize) == with_upper(
            config,
            encode_utf8(other_data),
            encode_utf8(other_index),
            other_vsize,
        ),
    ensures
        data == other_data,
        index == other_index,
        vsize == other_vsize,
{
    path::law_path_text_is_kept(data);
    path::law_path_text_is_kept(index);
    path::law_path_text_is_kept(other_data);
    path::law_path_text_is_kept(other_index);
    law_upper_changes_nothing_else(config, encode_utf8(data), encode_utf8(index), vsize);
    law_upper_changes_nothing_else(
        config,
        encode_utf8(other_data),
        encode_utf8(other_index),
        other_vsize,
    );
}

/// A size that does not fit is told with the number that was asked for.
pub proof fn law_refused_size_is_told(vsize: nat)
    ensures
        too_large_error(vsize) == ErrorView::Other(
            "invalid OverlayBD config: upper vsize of "@ + text::decimal(vsize)
                + " GiB does not fit in 32 bits"@,
        ),
{
}

/// A configuration is valid exactly where it has an upper or a lower layer, and each lower layer
/// has at most one of the two digests, has a digest, a target digest, a file or a directory, and
/// has no digest of either sort unless the repository's address is set.
pub proof fn law_validity_is_the_four_rules(config: ConfigView)
    ensures
        is_valid_config(config) <==> {
            &&& config.upper is Some || (config.lowers matches Some(lowers) && lowers.len() > 0)
            &&& config.lowers matches Some(lowers) ==> forall|i: int|
                0 <= i < lowers.len() ==> {
                    let lower = #[trigger] lowers[i];
                    &&& lower.digest is None || lower.target_digest is None
                    &&& lower.digest is Some || lower.target_digest is Some || lower.file is Some
                        || lower.dir is Some
                    &&& config.repo_blob_url is None ==> lower.digest is None
                        && lower.target_digest is None
                }
        },
{
    if is_valid_config(config) {
        if let Some(lowers) = config.lowers {
            assert forall|i: int| 0 <= i < lowers.len() implies {
                let lower = #[trigger] lowers[i];
                &&& lower.digest is None || lower.target_digest is None
                &&& lower.digest is Some || lower.target_digest is Some || lower.file is Some
                    || lower.dir is Some
                &&& config.repo_blob_url is None ==> lower.digest is None
                    && lower.target_digest is None
            } by {
                assert(is_sound_lower(config, lower_at(config, i)));
            }
        }
    }
}

/// A lower layer that breaks none of the rules on lower layers.
pub open spec fn keeps_the_rules(config: ConfigView, i: int) -> bool {
    let lower = config.lowers->0[i];
    &&& lower.digest is None || lower.target_digest is None
    &&& lower.digest is Some || lower.target_digest is Some || lower.file is Some || lower.dir
        is Some
    &&& config.repo_blob_url is None ==> lower.digest is None && lower.target_digest is None
}

/// The fault that is reported is there, and it is the first: a fault of a lower layer is that of
/// the layer it names, every layer before that one keeps the rules, and of two faults of one layer
/// the rule that comes first is the one reported.
pub proof fn law_reported_fault_is_the_first(config: ConfigView, fault: ConfigFault)
    requires
        is_first_fault(config, fault),
        lower_count(config) <= usize::MAX,
    ensures
        fault is NoLayers <==> config.upper is None && (config.lowers matches Some(lowers)
            ==> lowers.len() == 0),
        fault matches ConfigFault::BothDigests { lower } ==> {
            &&& lower < config.lowers->0.len()
            &&& config.lowers->0[lower as int].digest is Some
            &&& config.lowers->0[lower as int].target_digest is Some
            &&& forall|j: int| 0 <= j < lower ==> #[trigger] keeps_the_rules(config, j)
        },
        fault matches ConfigFault::NoIdentity { lower } ==> {
            &&& lower < config.lowers->0.len()
            &&& config.lowers->0[lower as int].digest is None
            &&& config.lowers->0[lower as int].target_digest is None
            &&& config.lowers->0[lower as int].file is None
            &&& config.lowers->0[lower as int].dir is None
            &&& forall|j: int| 0 <= j < lower ==> #[trigger] keeps_the_rules(config, j)
        },
        fault matches ConfigFault::NoRepository { lower } ==> {
            &&& lower < config.lowers->0.len()
            &&& config.repo_blob_url is None
            &&& config.lowers->0[lower as int].digest is Some
                <==> config.lowers->0[lower as int].target_digest is None
            &&& forall|j: int| 0 <= j < lower ==> #[trigger] keeps_the_rules(config, j)
        },
{
    if has_a_layer(config) {
        let i = choose|i: int|
            #![trigger lower_fault(config, i)]
            {
                &&& 0 <= i < lower_count(config)
                &&& lower_fault(config, i) == Some(fault)
                &&& forall|j: int| 0 <= j < i ==> #[trigger] lower_fault(config, j) is None
            };
        assert forall|j: int| 0 <= j < i implies #[trigger] keeps_the_rules(config, j) by {
            assert(lower_fault(config, j) is None);
        }
    }
}

/// Each fault is reported in its own words, with the place of the layer that has it.
pub proof fn law_faults_are_told(lower: usize)
    ensures
        fault_text(ConfigFault::NoLayers)
            == "invalid OverlayBD config: upper and lowers must not both be empty"@,
        fault_text(ConfigFault::BothDigests { lower }) == "invalid OverlayBD config: lower["@
            + text::decimal(lower as nat)
            + "] has both 'digest' (standard) and 'target_digest' (TurboOCI)"@,
        fault_text(ConfigFault::NoIdentity { lower }) == "invalid OverlayBD config: lower["@
            + text::decimal(lower as nat)
            + "] has no identifying fields (digest, target_digest, file, or dir)"@,
        fault_text(ConfigFault::NoRepository { lower }) == "invalid OverlayBD config: lower["@
            + text::decimal(lower as nat) + "] uses remote fields but repo_blob_url is not set"@,
{
}

/// The view of an optional text is that text.
pub open spec fn shows(shown: Option<Seq<char>>, text: Option<String>) -> bool {
    match text {
        Some(s) => shown == Some(s@),
        None => shown is None,
    }
}

/// The views of a configuration and of its layers show each field as it is.
pub proof fn law_config_views_keep_everything(config: OverlayBDConfig, i: int)
    ensures
        shows(config@.repo_blob_url, config.repo_blob_url),
        shows(config@.result_file, config.result_file),
        config.upper is Some <==> config@.upper is Some,
        config.upper matches Some(upper) ==> {
            &&& config@.upper->0.data == upper.data@
            &&& config@.upper->0.index == upper.index@
            &&& upper.vsize is Some <==> config@.upper->0.vsize is Some
            &&& upper.vsize matches Some(vsize) ==> config@.upper->0.vsize->0 == vsize
        },
        config.lowers is Some <==> config@.lowers is Some,
        config.lowers matches Some(lowers) ==> config@.lowers->0.len() == lowers@.len(),
        config.lowers matches Some(lowers) ==> 0 <= i < lowers@.len() ==> {
            let shown = config@.lowers->0[i];
            &&& shows(shown.gzip_index, lowers@[i].gzip_index)
            &&& shows(shown.file, lowers@[i].file)
            &&& shows(shown.digest, lowers@[i].digest)
            &&& shows(shown.target_file, lowers@[i].target_file)
            &&& shows(shown.target_digest, lowers@[i].target_digest)
            &&& shown.size == lowers@[i].size
            &&& shows(shown.dir, lowers@[i].dir)
        },
{
}

} // verus!
