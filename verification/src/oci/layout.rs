//! Where the files of an OverlayBD image are kept.

use crate::oci::image::Reference;
use crate::path;
use crate::path::FsPath;
use crate::text;
use vstd::prelude::*;
use vstd::utf8::*;

verus! {

/// The directory under the data directory that holds the OverlayBD images.
pub const OVERLAYBD_SUBDIR: &'static str = "overlaybd";

/// The directory under an image's directory that holds the layers' caches.
pub const OVERLAYBD_CACHE_SUBDIR: &'static str = "cache";

/// The file under an image's directory that holds its configuration.
pub const OVERLAYBD_CONFIG_FILENAME: &'static str = "config.v1.json";

/// The file under an image's directory in which the device service reports its result.
pub const OVERLAYBD_RESULT_FILENAME: &'static str = "result";

/// The SHA-256 digest of a byte string.
pub uninterp spec fn sha256(data: Seq<u8>) -> Seq<u8>;

/// `sha2::Sha256::digest`: the SHA-256 digest of the bytes, which is 32 bytes long. The digest
/// itself is only named.
#[verifier::external_body]
fn sha256_digest(data: &[u8]) -> (r: Vec<u8>)
    ensures
        r@ == sha256(data@),
        r@.len() == 32,
{
    <sha2::Sha256 as sha2::Digest>::digest(data).to_vec()
}

/// The name of an image's directory: the first sixteen hexadecimal digits of its digest.
pub open spec fn short_hash(digest: Seq<u8>) -> Seq<char> {
    text::hex(digest).take(16)
}

/// The directory of the image whose key has the given digest.
pub open spec fn image_dir(home: Seq<u8>, digest: Seq<u8>) -> Seq<u8> {
    path::joined(
        path::joined(home, encode_utf8(OVERLAYBD_SUBDIR@)),
        encode_utf8(short_hash(digest)),
    )
}

/// The cache directory of one layer of the image whose key has the given digest.
pub open spec fn layer_dir(home: Seq<u8>, digest: Seq<u8>, layer_index: nat) -> Seq<u8> {
    path::joined(
        path::joined(image_dir(home, digest), encode_utf8(OVERLAYBD_CACHE_SUBDIR@)),
        encode_utf8(text::decimal(layer_index)),
    )
}

/// The digest of an image's key.
pub open spec fn key_digest(reference: Reference) -> Seq<u8> {
    sha256(encode_utf8(reference.db_key@))
}

/// The directory for an image whose key has the given digest:
/// `<microsandbox_home>/overlaybd/<first sixteen hexadecimal digits>`.
pub fn image_dir_for_digest(microsandbox_home: &FsPath, digest: &[u8]) -> (r: FsPath)
    requires
        digest@.len() >= 8,
    ensures
        r@ == image_dir(microsandbox_home@, digest@),
{
    let hash = text::hex_text(digest);
    proof {
        text::law_hex_is_hex_digits(digest@);
    }
    let short: &str = hash.as_str().substring_char(0, 16);
    assert(short@ =~= short_hash(digest@));
    microsandbox_home.join(OVERLAYBD_SUBDIR).join(short)
}

/// The base directory of an OverlayBD image's configuration and cache:
/// `<microsandbox_home>/overlaybd/<reference_hash>`.
///
/// The image's key is hashed with SHA-256, and the first sixteen hexadecimal digits of the hash
/// name the directory.
pub fn overlaybd_image_dir(microsandbox_home: &FsPath, reference: &Reference) -> (r: FsPath)
    ensures
        r@ == image_dir(microsandbox_home@, key_digest(*reference)),
        key_digest(*reference).len() == 32,
{
    let digest: Vec<u8> = sha256_digest(reference.db_key.as_str().as_bytes());
    image_dir_for_digest(microsandbox_home, digest.as_slice())
}

/// The cache directory of one layer of an OverlayBD image:
/// `<microsandbox_home>/overlaybd/<reference_hash>/cache/<layer_index>`.
pub fn layer_cache_dir(
    microsandbox_home: &FsPath,
    reference: &Reference,
    layer_index: usize,
) -> (r: FsPath)
    ensures
        r@ == layer_dir(microsandbox_home@, key_digest(*reference), layer_index as nat),
        key_digest(*reference).len() == 32,
{
    overlaybd_image_dir(microsandbox_home, reference).join(OVERLAYBD_CACHE_SUBDIR).join(
        text::decimal_text(layer_index as u64).as_str(),
    )
}

/// The directory of an image has a name of sixteen hexadecimal digits, whatever its key holds.
pub proof fn law_image_dir_name_is_safe(digest: Seq<u8>)
    requires
        digest.len() >= 8,
    ensures
        short_hash(digest).len() == 16,
        forall|i: int| 0 <= i < 16 ==> text::is_hex_digit(#[trigger] short_hash(digest)[i]),
{
    text::law_hex_is_hex_digits(digest);
    assert forall|i: int| 0 <= i < 16 implies text::is_hex_digit(#[trigger] short_hash(digest)[i]) by {
        assert(short_hash(digest)[i] == text::hex(digest)[i]);
    }
}

/// No two layers of an image share a cache directory.
pub proof fn law_layer_dirs_are_distinct(home: Seq<u8>, digest: Seq<u8>, i: nat, j: nat)
    requires
        i != j,
    ensures
        layer_dir(home, digest, i) != layer_dir(home, digest, j),
{
    let base = path::joined(image_dir(home, digest), encode_utf8(OVERLAYBD_CACHE_SUBDIR@));
    lemma_decimal_is_relative(i);
    lemma_decimal_is_relative(j);
    let start = if base.len() > 0 && base.last() != path::SEPARATOR {
        base.push(path::SEPARATOR)
    } else {
        base
    };
    let a = encode_utf8(text::decimal(i));
    let b = encode_utf8(text::decimal(j));
    assert(layer_dir(home, digest, i) == start + a);
    assert(layer_dir(home, digest, j) == start + b);
    if start + a == start + b {
        assert(a =~= (start + a).skip(start.len() as int));
        assert(b =~= (start + b).skip(start.len() as int));
        encode_utf8_decode_utf8(text::decimal(i));
        encode_utf8_decode_utf8(text::decimal(j));
        text::law_decimal_reads_back(i);
        text::law_decimal_reads_back(j);
    }
}

proof fn lemma_decimal_is_relative(n: nat)
    ensures
        encode_utf8(text::decimal(n)).len() > 0,
        encode_utf8(text::decimal(n))[0] != path::SEPARATOR,
{
    text::law_decimal_reads_back(n);
    let digits = text::decimal(n);
    assert forall|i: int| 0 <= i < digits.len() implies '\0' <= #[trigger] digits[i] <= '\u{7f}' by {
        assert(text::is_decimal_digit(digits[i]));
    }
    is_ascii_chars_encode_utf8(digits);
    assert(text::is_decimal_digit(digits[0]));
}

/// Under a data directory that is named by text, the directories of an image and of its layers
/// are named by text too: the parts in order, one separator between them.
pub proof fn law_directories_as_text(home: Seq<char>, digest: Seq<u8>, layer_index: nat)
    ensures
        text::bytes_text(image_dir(encode_utf8(home), digest)) == path::joined_text(
            path::joined_text(home, OVERLAYBD_SUBDIR@),
            short_hash(digest),
        ),
        text::bytes_text(layer_dir(encode_utf8(home), digest, layer_index)) == path::joined_text(
            path::joined_text(
                path::joined_text(
                    path::joined_text(home, OVERLAYBD_SUBDIR@),
                    short_hash(digest),
                ),
                OVERLAYBD_CACHE_SUBDIR@,
            ),
            text::decimal(layer_index),
        ),
{
    let images = path::joined_text(home, OVERLAYBD_SUBDIR@);
    let image = path::joined_text(images, short_hash(digest));
    let caches = path::joined_text(image, OVERLAYBD_CACHE_SUBDIR@);
    let cache = path::joined_text(caches, text::decimal(layer_index));
    path::law_joined_paths_are_joined_texts(home, OVERLAYBD_SUBDIR@);
    path::law_joined_paths_are_joined_texts(images, short_hash(digest));
    path::law_joined_paths_are_joined_texts(image, OVERLAYBD_CACHE_SUBDIR@);
    path::law_joined_paths_are_joined_texts(caches, text::decimal(layer_index));
    path::law_path_text_is_kept(image);
    path::law_path_text_is_kept(cache);
}

/// An image's directory depends on its key and on nothing else of its reference.
pub proof fn law_key_alone_names_the_image(reference: Reference, other: Reference)
    ensures
        key_digest(reference) == sha256(encode_utf8(reference.db_key@)),
        reference.db_key@ == other.db_key@ ==> key_digest(reference) == key_digest(other),
{
}

proof fn lemma_hex_prefix(bytes: Seq<u8>, count: int)
    requires
        0 <= count <= bytes.len(),
    ensures
        text::hex(bytes).len() == 2 * bytes.len(),
        text::hex(bytes).take(2 * count) == text::hex(bytes.take(count)),
    decreases bytes.len(),
{
    text::law_hex_is_hex_digits(bytes);
    if count == bytes.len() {
        assert(bytes.take(count) =~= bytes);
        assert(text::hex(bytes).take(2 * count) =~= text::hex(bytes));
    } else {
        let shorter = bytes.drop_last();
        lemma_hex_prefix(shorter, count);
        assert(shorter.take(count) =~= bytes.take(count));
        assert(text::hex(bytes).take(2 * count) =~= text::hex(shorter).take(2 * count));
    }
}

/// The name of an image's directory tells the first eight bytes of the digest, in order and two
/// digits for each, and nothing more.
pub proof fn law_name_tells_the_first_bytes(digest: Seq<u8>, i: int)
    requires
        digest.len() >= 8,
        0 <= i < 8,
    ensures
        short_hash(digest).len() == 16,
        digest[i] == 16 * text::hex_digit_value(short_hash(digest)[2 * i]) + text::hex_digit_value(
            short_hash(digest)[2 * i + 1],
        ),
{
    lemma_hex_prefix(digest, 8);
    text::law_hex_tells_the_bytes(digest.take(8), i);
    text::law_hex_is_hex_digits(digest.take(8));
}

/// The directories of an image and of its layers are spelled out under the data directory, whatever
/// that is: `overlaybd/<name>` and `overlaybd/<name>/cache/<index>`.
pub proof fn law_directories_are_spelled_out(home: Seq<u8>, digest: Seq<u8>, layer_index: nat)
    requires
        digest.len() >= 8,
    ensures
        image_dir(home, digest) == path::opened(home) + encode_utf8(
            "overlaybd/"@ + short_hash(digest),
        ),
        layer_dir(home, digest, layer_index) == path::opened(home) + encode_utf8(
            "overlaybd/"@ + short_hash(digest) + "/cache/"@ + text::decimal(layer_index),
        ),
{
    reveal_strlit("overlaybd");
    reveal_strlit("overlaybd/");
    reveal_strlit("cache");
    reveal_strlit("/cache/");
    let start = path::opened(home);
    let name = short_hash(digest);
    let index = text::decimal(layer_index);
    let slash = seq!['/'];
    law_image_dir_name_is_safe(digest);
    assert(text::is_hex_digit(name[0]) && text::is_hex_digit(name[15]));
    text::law_decimal_reads_back(layer_index);
    assert(text::is_decimal_digit(index[0]));
    path::law_relative_text_is_put_behind(home, "overlaybd"@);
    path::law_relative_texts_add_up(start, "overlaybd"@, name);
    assert("overlaybd"@ + slash + name =~= "overlaybd/"@ + name);
    let image = "overlaybd/"@ + name;
    path::law_relative_texts_add_up(start, image, "cache"@);
    let caches = image + slash + "cache"@;
    path::law_relative_texts_add_up(start, caches, index);
    assert(caches + slash + index =~= image + "/cache/"@ + index);
}

} // verus!
