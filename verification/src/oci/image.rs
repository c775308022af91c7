//! What an image's manifest says about its layers, and where its blobs are.

use crate::text;
use vstd::prelude::*;

verus! {

/// The annotation with the digest of a standard OverlayBD layer.
pub const OVERLAYBD_BLOB_DIGEST_ANNOTATION: &'static str = "containerd.io/snapshot/overlaybd/blob-digest";

/// The annotation with the size of a standard OverlayBD layer in bytes.
pub const OVERLAYBD_BLOB_SIZE_ANNOTATION: &'static str = "containerd.io/snapshot/overlaybd/blob-size";

/// The annotation with the digest of the layer that a TurboOCI layer stands for.
pub const TURBO_OCI_DIGEST_ANNOTATION: &'static str =
    "containerd.io/snapshot/overlaybd/turbo-oci/target-digest";

/// The annotation with the media type of the layer that a TurboOCI layer stands for.
pub const TURBO_OCI_MEDIA_TYPE_ANNOTATION: &'static str =
    "containerd.io/snapshot/overlaybd/turbo-oci/target-media-type";

/// The legacy name of [`TURBO_OCI_DIGEST_ANNOTATION`].
pub const FAST_OCI_DIGEST_ANNOTATION: &'static str =
    "containerd.io/snapshot/overlaybd/fastoci/target-digest";

/// The legacy name of [`TURBO_OCI_MEDIA_TYPE_ANNOTATION`].
pub const FAST_OCI_MEDIA_TYPE_ANNOTATION: &'static str =
    "containerd.io/snapshot/overlaybd/fastoci/target-media-type";

/// Annotations by name.
pub type AnnotationMap = Map<Seq<char>, Seq<char>>;

/// What a list of annotations says.
pub open spec fn entries_map(entries: Seq<(String, String)>) -> AnnotationMap
    decreases entries.len(),
{
    if entries.len() == 0 {
        Map::empty()
    } else {
        entries_map(entries.drop_last()).insert(entries.last().0@, entries.last().1@)
    }
}

/// The value of an annotation, if it is there.
pub open spec fn lookup(annotations: AnnotationMap, name: Seq<char>) -> Option<Seq<char>> {
    if annotations.contains_key(name) {
        Some(annotations[name])
    } else {
        None
    }
}

proof fn lemma_entry_at(entries: Seq<(String, String)>, i: int)
    requires
        0 <= i < entries.len(),
        forall|j: int| i < j < entries.len() ==> (#[trigger] entries[j]).0@ != entries[i].0@,
    ensures
        lookup(entries_map(entries), entries[i].0@) == Some(entries[i].1@),
    decreases entries.len(),
{
    if i < entries.len() - 1 {
        assert(entries[entries.len() - 1].0@ != entries[i].0@);
        lemma_entry_at(entries.drop_last(), i);
    }
}

proof fn lemma_no_entry(entries: Seq<(String, String)>, name: Seq<char>)
    requires
        forall|j: int| 0 <= j < entries.len() ==> (#[trigger] entries[j]).0@ != name,
    ensures
        lookup(entries_map(entries), name) is None,
    decreases entries.len(),
{
    if entries.len() > 0 {
        assert(entries[entries.len() - 1].0@ != name);
        lemma_no_entry(entries.drop_last(), name);
    }
}

proof fn lemma_entry_replaced(entries: Seq<(String, String)>, i: int, entry: (String, String))
    requires
        0 <= i < entries.len(),
        entry.0@ == entries[i].0@,
        has_distinct_names(entries),
    ensures
        entries_map(entries.update(i, entry)) == entries_map(entries).insert(entry.0@, entry.1@),
    decreases entries.len(),
{
    let shorter = entries.drop_last();
    let replaced = entries.update(i, entry);
    if i == entries.len() - 1 {
        assert(replaced.drop_last() =~= shorter);
    } else {
        assert(replaced.drop_last() =~= shorter.update(i, entry));
        lemma_entry_replaced(shorter, i, entry);
        assert(entries[entries.len() - 1].0@ != entries[i].0@);
    }
    assert(entries_map(replaced) =~= entries_map(entries).insert(entry.0@, entry.1@));
}

/// Two lists hold the same texts.
spec fn same_entries(a: Seq<(String, String)>, b: Seq<(String, String)>) -> bool {
    &&& a.len() == b.len()
    &&& forall|i: int|
        #![trigger a[i]]
        #![trigger b[i]]
        0 <= i < a.len() ==> a[i].0@ == b[i].0@ && a[i].1@ == b[i].1@
}

proof fn lemma_same_entries(a: Seq<(String, String)>, b: Seq<(String, String)>)
    requires
        same_entries(a, b),
    ensures
        entries_map(a) == entries_map(b),
        has_distinct_names(b) ==> has_distinct_names(a),
    decreases a.len(),
{
    if a.len() > 0 {
        lemma_same_entries(a.drop_last(), b.drop_last());
        assert(a.last().0@ == b[b.len() - 1].0@);
    }
}

/// No name occurs twice in a list of annotations.
pub open spec fn has_distinct_names(entries: Seq<(String, String)>) -> bool {
    forall|i: int, j: int|
        0 <= i < j < entries.len() ==> (#[trigger] entries[i]).0@ != (#[trigger] entries[j]).0@
}

/// The annotations of a descriptor: texts by name, each name once.
#[derive(Debug)]
pub struct Annotations {
    entries: Vec<(String, String)>,
}

/// Where a name stands in a list of annotations.
fn position(entries: &Vec<(String, String)>, name: &str) -> (r: Option<usize>)
    ensures
        match r {
            Some(i) => i < entries@.len() && entries@[i as int].0@ == name@,
            None => forall|j: int| 0 <= j < entries@.len() ==> (#[trigger] entries@[j]).0@ != name@,
        },
{
    let mut i: usize = 0;
    while i < entries.len()
        invariant
            i <= entries.len(),
            forall|j: int| 0 <= j < i ==> (#[trigger] entries@[j]).0@ != name@,
        decreases entries.len() - i,
    {
        if text::same_text(entries[i].0.as_str(), name) {
            return Some(i);
        }
        i += 1;
    }
    None
}

impl View for Annotations {
    type V = AnnotationMap;

    closed spec fn view(&self) -> AnnotationMap {
        entries_map(self.entries@)
    }
}

impl Clone for Annotations {
    fn clone(&self) -> (r: Annotations)
        ensures
            r@ == self@,
    {
        proof {
            use_type_invariant(self);
        }
        let mut entries: Vec<(String, String)> = Vec::new();
        for i in 0..self.entries.len()
            invariant
                same_entries(entries@, self.entries@.take(i as int)),
        {
            let entry = &self.entries[i];
            entries.push((entry.0.clone(), entry.1.clone()));
        }
        proof {
            assert(self.entries@.take(self.entries@.len() as int) =~= self.entries@);
            lemma_same_entries(entries@, self.entries@);
        }
        Annotations { entries }
    }
}

impl Annotations {
    #[verifier::type_invariant]
    spec fn names_are_distinct(self) -> bool {
        has_distinct_names(self.entries@)
    }

    /// No annotations.
    pub fn new() -> (r: Annotations)
        ensures
            r@ == Map::<Seq<char>, Seq<char>>::empty(),
    {
        Annotations { entries: Vec::new() }
    }

    /// Sets an annotation, in place of an earlier one of that name.
    pub fn insert(&mut self, name: String, value: String)
        ensures
            final(self)@ == old(self)@.insert(name@, value@),
    {
        proof {
            use_type_invariant(&*self);
        }
        let mut entries: Vec<(String, String)> = Vec::new();
        std::mem::swap(&mut entries, &mut self.entries);
        let ghost before = entries@;
        match position(&entries, name.as_str()) {
            Some(i) => {
                proof {
                    lemma_entry_replaced(before, i as int, (name, value));
                }
                entries.set(i, (name, value));
            },
            None => {
                entries.push((name, value));
                assert(entries@.drop_last() =~= before);
            },
        }
        self.entries = entries;
    }

    /// The value of an annotation, if it is there.
    pub fn get(&self, name: &str) -> (r: Option<&String>)
        ensures
            text::opt_ref_text(r) == lookup(self@, name@),
    {
        proof {
            use_type_invariant(self);
        }
        match position(&self.entries, name) {
            Some(i) => {
                proof {
                    lemma_entry_at(self.entries@, i as int);
                }
                Some(&self.entries[i].1)
            },
            None => {
                proof {
                    lemma_no_entry(self.entries@, name@);
                }
                None
            },
        }
    }

    /// Whether an annotation is there.
    pub fn contains_key(&self, name: &str) -> (r: bool)
        ensures
            r == self@.contains_key(name@),
    {
        self.get(name).is_some()
    }
}

/// One layer of an image, as its manifest describes it.
#[derive(Debug, Clone)]
pub struct LayerDescriptor {
    /// The layer's annotations, where it has any.
    pub annotations: Option<Annotations>,
}

impl View for LayerDescriptor {
    type V = Option<AnnotationMap>;

    open spec fn view(&self) -> Option<AnnotationMap> {
        match self.annotations {
            Some(annotations) => Some(annotations@),
            None => None,
        }
    }
}

/// The part of an image's manifest that describes its layers.
#[derive(Debug, Clone)]
pub struct ImageManifest {
    /// The layers, from the bottom up.
    pub layers: Vec<LayerDescriptor>,
}

impl View for ImageManifest {
    type V = Seq<Option<AnnotationMap>>;

    open spec fn view(&self) -> Seq<Option<AnnotationMap>> {
        Seq::new(self.layers@.len(), |i: int| self.layers@[i]@)
    }
}

/// An image reference: what of it the crate reads.
#[derive(Debug, Clone, PartialEq, Eq)]
pub struct Reference {
    /// The name of the registry.
    pub registry: String,
    /// The name of the repository within the registry.
    pub repository: String,
    /// The key under which the image is known to the database.
    pub db_key: String,
}

/// A layer is a TurboOCI layer.
pub open spec fn is_turbo_oci(annotations: AnnotationMap) -> bool {
    annotations.contains_key(TURBO_OCI_DIGEST_ANNOTATION@) || annotations.contains_key(
        FAST_OCI_DIGEST_ANNOTATION@,
    )
}

/// The digest of the layer that a TurboOCI layer stands for; the current annotation comes before
/// the legacy one.
pub open spec fn turbo_oci_target(annotations: AnnotationMap) -> Option<Seq<char>> {
    if annotations.contains_key(TURBO_OCI_DIGEST_ANNOTATION@) {
        lookup(annotations, TURBO_OCI_DIGEST_ANNOTATION@)
    } else {
        lookup(annotations, FAST_OCI_DIGEST_ANNOTATION@)
    }
}

/// The media type of the layer that a TurboOCI layer stands for, from the same set of annotations
/// as its digest.
pub open spec fn turbo_oci_media_type(annotations: AnnotationMap) -> Option<Seq<char>> {
    if annotations.contains_key(TURBO_OCI_DIGEST_ANNOTATION@) {
        lookup(annotations, TURBO_OCI_MEDIA_TYPE_ANNOTATION@)
    } else if annotations.contains_key(FAST_OCI_DIGEST_ANNOTATION@) {
        lookup(annotations, FAST_OCI_MEDIA_TYPE_ANNOTATION@)
    } else {
        None
    }
}

/// Tells whether a layer is a TurboOCI layer, and gives the digest and the media type of the
/// layer that it stands for. The current `turbo-oci` annotations come first, then the legacy
/// `fastoci` ones.
pub fn check_turbo_oci(annotations: &Annotations) -> (r: (
    bool,
    Option<&String>,
    Option<&String>,
))
    ensures
        r.0 == is_turbo_oci(annotations@),
        text::opt_ref_text(r.1) == turbo_oci_target(annotations@),
        text::opt_ref_text(r.2) == turbo_oci_media_type(annotations@),
        r.0 == r.1 is Some,
{
    if let Some(digest) = annotations.get(TURBO_OCI_DIGEST_ANNOTATION) {
        return (true, Some(digest), annotations.get(TURBO_OCI_MEDIA_TYPE_ANNOTATION));
    }
    if let Some(digest) = annotations.get(FAST_OCI_DIGEST_ANNOTATION) {
        return (true, Some(digest), annotations.get(FAST_OCI_MEDIA_TYPE_ANNOTATION));
    }
    (false, None, None)
}

/// The media types of gzip-compressed layers.
pub open spec fn is_gzip_media_type(media_type: Seq<char>) -> bool {
    ||| media_type == "application/vnd.oci.image.layer.v1.tar+gzip"@
    ||| media_type == "application/vnd.docker.image.rootfs.diff.tar.gzip"@
}

/// Whether a media type is that of a gzip-compressed layer.
pub fn is_gzip_layer_type(media_type: &str) -> (r: bool)
    ensures
        r == is_gzip_media_type(media_type@),
{
    text::same_text(media_type, "application/vnd.oci.image.layer.v1.tar+gzip")
        || text::same_text(media_type, "application/vnd.docker.image.rootfs.diff.tar.gzip")
}

/// The host that serves a registry.
pub open spec fn registry_host(registry: Seq<char>) -> Seq<char> {
    if registry == "docker.io"@ {
        "registry-1.docker.io"@
    } else {
        registry
    }
}

/// Where the blobs of a repository are.
pub open spec fn repo_blob_url(registry: Seq<char>, repository: Seq<char>) -> Seq<char> {
    "https://"@ + registry_host(registry) + "/v2/"@ + repository + "/blobs"@
}

/// The address of the blobs of an image's repository. For example,
/// `docker.io/library/ubuntu:latest` gives `https://registry-1.docker.io/v2/library/ubuntu/blobs`.
pub fn construct_repo_blob_url(reference: &Reference) -> (r: String)
    ensures
        r@ == repo_blob_url(reference.registry@, reference.repository@),
{
    let host: &str = if text::same_text(reference.registry.as_str(), "docker.io") {
        "registry-1.docker.io"
    } else {
        reference.registry.as_str()
    };
    let mut url = "https://".to_owned();
    url.append(host);
    url.append("/v2/");
    url.append(reference.repository.as_str());
    url.append("/blobs");
    url
}

/// A layer carries the annotations of a standard OverlayBD layer.
pub open spec fn is_overlaybd_layer(layer: Option<AnnotationMap>) -> bool {
    layer matches Some(annotations) && annotations.contains_key(OVERLAYBD_BLOB_DIGEST_ANNOTATION@)
        && annotations.contains_key(OVERLAYBD_BLOB_SIZE_ANNOTATION@)
}

/// An image has layers, and each of them is an OverlayBD layer.
pub open spec fn describes_overlaybd_image(layers: Seq<Option<AnnotationMap>>) -> bool {
    &&& layers.len() > 0
    &&& forall|i: int| 0 <= i < layers.len() ==> is_overlaybd_layer(#[trigger] layers[i])
}

/// Whether a manifest describes an OverlayBD image: it has layers, and every one of them has both
/// the `blob-digest` and the `blob-size` annotation. TurboOCI images have them too.
pub fn is_overlaybd_image(manifest: &ImageManifest) -> (r: bool)
    ensures
        r == describes_overlaybd_image(manifest@),
        r <==> manifest.layers@.len() > 0 && forall|i: int|
            0 <= i < manifest.layers@.len() ==> ((#[trigger] manifest.layers@[i]).annotations
                matches Some(annotations) && annotations@.contains_key(
                "containerd.io/snapshot/overlaybd/blob-digest"@,
            ) && annotations@.contains_key("containerd.io/snapshot/overlaybd/blob-size"@)),
{
    if manifest.layers.len() == 0 {
        return false;
    }
    let mut i: usize = 0;
    while i < manifest.layers.len()
        invariant
            i <= manifest.layers.len(),
            forall|j: int| 0 <= j < i ==> is_overlaybd_layer(#[trigger] manifest@[j]),
        decreases manifest.layers.len() - i,
    {
        let marked = match &manifest.layers[i].annotations {
            Some(annotations) => annotations.contains_key(OVERLAYBD_BLOB_DIGEST_ANNOTATION)
                && annotations.contains_key(OVERLAYBD_BLOB_SIZE_ANNOTATION),
            None => false,
        };
        assert(manifest@[i as int] == manifest.layers@[i as int]@);
        assert(marked == is_overlaybd_layer(manifest@[i as int]));
        if !marked {
            return false;
        }
        i += 1;
    }
    assert forall|j: int| 0 <= j < manifest.layers@.len() implies is_overlaybd_layer(
        (#[trigger] manifest.layers@[j])@,
    ) by {
        assert(manifest@[j] == manifest.layers@[j]@);
    }
    true
}

/// A layer says what a configuration needs to know of it: that it is a TurboOCI layer, or the
/// digest and the size of a standard one.
pub open spec fn is_usable_layer(layer: Option<AnnotationMap>) -> bool {
    layer matches Some(annotations) && (is_turbo_oci(annotations) || is_overlaybd_layer(layer))
}

/// A standard layer gives its size, and the size is no number.
pub open spec fn has_bad_size(layer: Option<AnnotationMap>) -> bool {
    layer matches Some(annotations) && !is_turbo_oci(annotations) && is_overlaybd_layer(layer)
        && text::parsed_i64(annotations[OVERLAYBD_BLOB_SIZE_ANNOTATION@]) is None
}

/// Every layer up to the first one with a bad size is usable.
pub open spec fn is_readable(layers: Seq<Option<AnnotationMap>>) -> bool {
    forall|i: int|
        #![trigger is_usable_layer(layers[i])]
        0 <= i < layers.len() && (forall|j: int| 0 <= j < i ==> !has_bad_size(#[trigger] layers[j]))
            ==> is_usable_layer(layers[i])
}

/// What a layer lacks that a configuration cannot do without.
#[derive(Debug, Clone, Copy, PartialEq, Eq)]
pub enum MissingAnnotation {
    /// The layer has no annotations at all.
    Annotations,
    /// A standard layer has no `blob-digest`.
    BlobDigest,
    /// A standard layer has no `blob-size`.
    BlobSize,
}

/// The first thing that a layer lacks.
pub open spec fn lacks(layer: Option<AnnotationMap>) -> Option<MissingAnnotation> {
    match layer {
        None => Some(MissingAnnotation::Annotations),
        Some(annotations) => if is_turbo_oci(annotations) {
            None
        } else if !annotations.contains_key(OVERLAYBD_BLOB_DIGEST_ANNOTATION@) {
            Some(MissingAnnotation::BlobDigest)
        } else if !annotations.contains_key(OVERLAYBD_BLOB_SIZE_ANNOTATION@) {
            Some(MissingAnnotation::BlobSize)
        } else {
            None
        },
    }
}

/// Looks for a layer that lacks an annotation which a configuration cannot do without. The search
/// ends at the first layer whose size is no number: nothing is read beyond it.
pub fn missing_annotation(manifest: &ImageManifest) -> (r: Option<MissingAnnotation>)
    ensures
        r is None <==> is_readable(manifest@),
        r matches Some(what) ==> exists|i: int|
            #![trigger manifest@[i]]
            {
                &&& 0 <= i < manifest@.len()
                &&& lacks(manifest@[i]) == Some(what)
                &&& forall|j: int|
                    0 <= j < i ==> is_usable_layer(#[trigger] manifest@[j]) && !has_bad_size(
                        manifest@[j],
                    )
            },
{
    let mut i: usize = 0;
    while i < manifest.layers.len()
        invariant
            i <= manifest.layers.len(),
            forall|j: int|
                0 <= j < i ==> is_usable_layer(#[trigger] manifest@[j]) && !has_bad_size(
                    manifest@[j],
                ),
        decreases manifest.layers.len() - i,
    {
        assert(manifest@[i as int] == manifest.layers@[i as int]@);
        match &manifest.layers[i].annotations {
            None => {
                assert(!is_usable_layer(manifest@[i as int]));
                return Some(MissingAnnotation::Annotations);
            },
            Some(annotations) => {
                if !check_turbo_oci(annotations).0 {
                    if !annotations.contains_key(OVERLAYBD_BLOB_DIGEST_ANNOTATION) {
                        assert(!is_usable_layer(manifest@[i as int]));
                        return Some(MissingAnnotation::BlobDigest);
                    }
                    match annotations.get(OVERLAYBD_BLOB_SIZE_ANNOTATION) {
                        None => {
                            assert(!is_usable_layer(manifest@[i as int]));
                            return Some(MissingAnnotation::BlobSize);
                        },
                        Some(size) => {
                            if text::parse_i64(size.as_str()).is_err() {
                                assert(has_bad_size(manifest@[i as int]));
                                assert(is_readable(manifest@));
                                return None;
                            }
                        },
                    }
                }
            },
        }
        i += 1;
    }
    None
}

/// The manifest of an OverlayBD image is readable: every layer says what a configuration needs.
pub proof fn law_overlaybd_image_is_readable(layers: Seq<Option<AnnotationMap>>)
    requires
        describes_overlaybd_image(layers),
    ensures
        is_readable(layers),
        forall|i: int| 0 <= i < layers.len() ==> is_usable_layer(#[trigger] layers[i]),
{
}

/// Where a layer has both sets of annotations, the current one alone is read.
pub proof fn law_turbo_oci_comes_before_fastoci(annotations: AnnotationMap)
    requires
        annotations.contains_key(TURBO_OCI_DIGEST_ANNOTATION@),
    ensures
        is_turbo_oci(annotations),
        turbo_oci_target(annotations) == Some(annotations[TURBO_OCI_DIGEST_ANNOTATION@]),
        turbo_oci_media_type(annotations) == lookup(
            annotations,
            TURBO_OCI_MEDIA_TYPE_ANNOTATION@,
        ),
{
}

/// A manifest describes an OverlayBD image exactly where it has a layer and every layer carries
/// the blob digest and the blob size. What else the layers carry does not matter.
pub proof fn law_two_annotations_make_an_overlaybd_image(layers: Seq<Option<AnnotationMap>>)
    ensures
        describes_overlaybd_image(layers) <==> layers.len() > 0 && forall|i: int|
            0 <= i < layers.len() ==> ((#[trigger] layers[i]) matches Some(annotations)
                && annotations.contains_key("containerd.io/snapshot/overlaybd/blob-digest"@)
                && annotations.contains_key("containerd.io/snapshot/overlaybd/blob-size"@)),
{
}

/// The annotations of `more` are those of `fewer` and perhaps others, or other values.
pub open spec fn has_all_names_of(
    more: Option<AnnotationMap>,
    fewer: Option<AnnotationMap>,
) -> bool {
    fewer matches Some(annotations) ==> more is Some && annotations.dom().subset_of(more->0.dom())
}

/// Annotating the layers of an OverlayBD image further, as TurboOCI does, leaves it an OverlayBD
/// image.
pub proof fn law_more_annotations_keep_an_overlaybd_image(
    layers: Seq<Option<AnnotationMap>>,
    annotated: Seq<Option<AnnotationMap>>,
)
    requires
        describes_overlaybd_image(layers),
        annotated.len() == layers.len(),
        forall|i: int|
            0 <= i < layers.len() ==> has_all_names_of(annotated[i], #[trigger] layers[i]),
    ensures
        describes_overlaybd_image(annotated),
{
    assert forall|i: int| 0 <= i < annotated.len() implies is_overlaybd_layer(
        #[trigger] annotated[i],
    ) by {
        assert(is_overlaybd_layer(layers[i]));
        assert(has_all_names_of(annotated[i], layers[i]));
    }
}

/// Image by image the answers add up: the layers of two OverlayBD images together are those of one,
/// and an image with a layer that is none is none.
pub proof fn law_overlaybd_images_are_layer_by_layer(
    lower: Seq<Option<AnnotationMap>>,
    upper: Seq<Option<AnnotationMap>>,
)
    requires
        lower.len() > 0,
        upper.len() > 0,
    ensures
        describes_overlaybd_image(lower + upper) <==> describes_overlaybd_image(lower)
            && describes_overlaybd_image(upper),
{
    let all = lower + upper;
    if describes_overlaybd_image(all) {
        assert forall|i: int| 0 <= i < lower.len() implies is_overlaybd_layer(#[trigger] lower[i]) by {
            assert(all[i] == lower[i]);
        }
        assert forall|i: int| 0 <= i < upper.len() implies is_overlaybd_layer(#[trigger] upper[i]) by {
            assert(all[lower.len() + i] == upper[i]);
        }
    }
}

/// A layer is a TurboOCI layer exactly where it names the digest of its target, under the current
/// or the legacy name. The digest and the media type are what stands under the current names where
/// the current digest is there, and under the legacy names else.
pub proof fn law_turbo_oci_is_read_from_its_annotations(annotations: AnnotationMap)
    ensures
        ({
            let current = "containerd.io/snapshot/overlaybd/turbo-oci/target-digest"@;
            let current_type = "containerd.io/snapshot/overlaybd/turbo-oci/target-media-type"@;
            let legacy = "containerd.io/snapshot/overlaybd/fastoci/target-digest"@;
            let legacy_type = "containerd.io/snapshot/overlaybd/fastoci/target-media-type"@;
            &&& is_turbo_oci(annotations) <==> annotations.dom().contains(current)
                || annotations.dom().contains(legacy)
            &&& turbo_oci_target(annotations) is Some <==> is_turbo_oci(annotations)
            &&& annotations.dom().contains(current) ==> {
                &&& turbo_oci_target(annotations) == Some(annotations[current])
                &&& turbo_oci_media_type(annotations) is Some <==> annotations.dom().contains(
                    current_type,
                )
                &&& turbo_oci_media_type(annotations) matches Some(media_type) ==> media_type
                    == annotations[current_type]
            }
            &&& !annotations.dom().contains(current) && annotations.dom().contains(legacy) ==> {
                &&& turbo_oci_target(annotations) == Some(annotations[legacy])
                &&& turbo_oci_media_type(annotations) is Some <==> annotations.dom().contains(
                    legacy_type,
                )
                &&& turbo_oci_media_type(annotations) matches Some(media_type) ==> media_type
                    == annotations[legacy_type]
            }
            &&& !is_turbo_oci(annotations) ==> turbo_oci_media_type(annotations) is None
        }),
{
}

/// An annotation is found with the value it was last set to, whatever else is set.
pub proof fn law_annotation_is_found_as_set(
    annotations: AnnotationMap,
    name: Seq<char>,
    value: Seq<char>,
    other: Seq<char>,
)
    ensures
        lookup(annotations.insert(name, value), name) == Some(value),
        other != name ==> lookup(annotations.insert(name, value), other) == lookup(
            annotations,
            other,
        ),
        lookup(Map::<Seq<char>, Seq<char>>::empty(), name) is None,
{
}

/// There are two media types of gzip-compressed layers, that of OCI and that of Docker.
pub proof fn law_two_media_types_are_gzip(media_type: Seq<char>)
    ensures
        is_gzip_media_type(media_type) <==> media_type
            == "application/vnd.oci.image.layer.v1.tar+gzip"@ || media_type
            == "application/vnd.docker.image.rootfs.diff.tar.gzip"@,
{
}

/// The address of a repository's blobs names the registry's host and the repository. Docker's
/// registry is served by a host of another name; any other registry is its own host.
pub proof fn law_blob_url_names_host_and_repository(registry: Seq<char>, repository: Seq<char>)
    ensures
        registry != "docker.io"@ ==> repo_blob_url(registry, repository) == "https://"@ + registry
            + "/v2/"@ + repository + "/blobs"@,
        repo_blob_url("docker.io"@, repository) == "https://"@ + "registry-1.docker.io"@ + "/v2/"@
            + repository + "/blobs"@,
{
}

/// Repositories of one registry have different addresses.
pub proof fn law_repositories_have_their_own_urls(
    registry: Seq<char>,
    repository: Seq<char>,
    other: Seq<char>,
)
    requires
        repo_blob_url(registry, repository) == repo_blob_url(registry, other),
    ensures
        repository == other,
{
    let start = "https://"@ + registry_host(registry) + "/v2/"@;
    let end = "/blobs"@;
    let a = start + repository + end;
    let b = start + other + end;
    assert(a == b);
    assert(a.len() == start.len() + repository.len() + end.len());
    assert(b.len() == start.len() + other.len() + end.len());
    assert(repository =~= a.subrange(start.len() as int, (start.len() + repository.len()) as int));
    assert(other =~= b.subrange(start.len() as int, (start.len() + other.len()) as int));
}

/// What a layer lacks is told in order: annotations at all, then, where it is no TurboOCI layer,
/// the blob digest, then the blob size.
pub proof fn law_lacking_is_told_in_order(layer: Option<AnnotationMap>)
    ensures
        ({
            let digest = "containerd.io/snapshot/overlaybd/blob-digest"@;
            let size = "containerd.io/snapshot/overlaybd/blob-size"@;
            &&& layer is None <==> lacks(layer) == Some(MissingAnnotation::Annotations)
            &&& lacks(layer) == Some(MissingAnnotation::BlobDigest) <==> layer is Some
                && !is_turbo_oci(layer->0) && !layer->0.dom().contains(digest)
            &&& lacks(layer) == Some(MissingAnnotation::BlobSize) <==> layer is Some
                && !is_turbo_oci(layer->0) && layer->0.dom().contains(digest)
                && !layer->0.dom().contains(size)
            &&& lacks(layer) is None <==> is_usable_layer(layer)
        }),
{
}

/// A size is bad exactly where a standard layer gives one that is no number.
pub proof fn law_bad_size_is_no_number(layer: Option<AnnotationMap>)
    ensures
        ({
            let digest = "containerd.io/snapshot/overlaybd/blob-digest"@;
            let size = "containerd.io/snapshot/overlaybd/blob-size"@;
            has_bad_size(layer) <==> layer is Some && !is_turbo_oci(layer->0)
                && layer->0.dom().contains(digest) && layer->0.dom().contains(size)
                && text::parsed_i64(layer->0[size]) is None
        }),
{
}

/// A manifest cannot be read exactly where a layer lacks something and no layer before it has a
/// bad size.
pub proof fn law_unreadable_manifest_lacks_something(layers: Seq<Option<AnnotationMap>>)
    ensures
        !is_readable(layers) <==> exists|i: int|
            #![trigger layers[i]]
            {
                &&& 0 <= i < layers.len()
                &&& lacks(layers[i]) is Some
                &&& forall|j: int| 0 <= j < i ==> !has_bad_size(#[trigger] layers[j])
            },
{
    if !is_readable(layers) {
        let i = choose|i: int|
            #![trigger is_usable_layer(layers[i])]
            0 <= i < layers.len() && (forall|j: int|
                0 <= j < i ==> !has_bad_size(#[trigger] layers[j])) && !is_usable_layer(layers[i]);
        law_lacking_is_told_in_order(layers[i]);
    }
    if is_readable(layers) {
        assert forall|i: int| 0 <= i < layers.len() && (forall|j: int|
            0 <= j < i ==> !has_bad_size(#[trigger] layers[j])) implies lacks(
            #[trigger] layers[i],
        ) is None by {
            assert(is_usable_layer(layers[i]));
            law_lacking_is_told_in_order(layers[i]);
        }
    }
}

/// The views of a manifest and its layers show every layer's annotations in their place.
pub proof fn law_manifest_view_keeps_layers(manifest: ImageManifest, i: int)
    requires
        0 <= i < manifest.layers@.len(),
    ensures
        manifest@.len() == manifest.layers@.len(),
        manifest.layers@[i].annotations is None <==> manifest@[i] is None,
        manifest.layers@[i].annotations matches Some(annotations) ==> manifest@[i] == Some(
            annotations@,
        ),
{
}

} // verus!
