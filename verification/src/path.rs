//! Paths on the host, as the bytes that the operating system sees.

use crate::text;
use vstd::prelude::*;
use vstd::utf8::*;

verus! {

/// The byte that separates the components of a path.
pub const SEPARATOR: u8 = 47;

/// What joining `part` to `base` gives: `part` alone where it is absolute, else the two with one
/// separator between them, unless `base` is empty or ends in one.
pub open spec fn joined(base: Seq<u8>, part: Seq<u8>) -> Seq<u8> {
    if part.len() > 0 && part[0] == SEPARATOR {
        part
    } else if base.len() > 0 && base.last() != SEPARATOR {
        base.push(SEPARATOR) + part
    } else {
        base + part
    }
}

/// The byte that names the directory a path starts from.
pub const CURRENT_DIRECTORY: u8 = 46;

/// A path without separators at its end, nor components `.` that follow another component there.
/// They add nothing to it. The root stays as it is.
pub open spec fn without_tail(path: Seq<u8>) -> Seq<u8>
    decreases path.len(),
{
    if path.len() > 1 && (path.last() == SEPARATOR || (path.last() == CURRENT_DIRECTORY && path[
        path.len() - 2] == SEPARATOR)) {
        without_tail(path.drop_last())
    } else {
        path
    }
}

/// A path up to its last separator; empty where it has none.
pub open spec fn upto_separator(path: Seq<u8>) -> Seq<u8>
    decreases path.len(),
{
    if path.len() == 0 || path.last() == SEPARATOR {
        path
    } else {
        upto_separator(path.drop_last())
    }
}

/// The directory that a path lies in: the path without its last component. A single component lies
/// in the working directory. The root and the empty path lie in no directory.
pub open spec fn parent_of(path: Seq<u8>) -> Option<Seq<u8>> {
    let whole = without_tail(path);
    if whole.len() == 0 || whole.last() == SEPARATOR {
        None
    } else if upto_separator(whole).len() == 0 {
        Some(seq![CURRENT_DIRECTORY])
    } else {
        Some(without_tail(upto_separator(whole)))
    }
}

/// A path on the host. It need not be UTF-8.
#[derive(Debug, PartialEq, Eq)]
pub struct FsPath {
    bytes: Vec<u8>,
}

impl View for FsPath {
    type V = Seq<u8>;

    closed spec fn view(&self) -> Seq<u8> {
        self.bytes@
    }
}

impl Clone for FsPath {
    fn clone(&self) -> (r: FsPath)
        ensures
            r@ == self@,
    {
        FsPath { bytes: self.bytes.clone() }
    }
}

impl FsPath {
    /// The path that the given bytes name.
    pub fn from_bytes(bytes: Vec<u8>) -> (r: FsPath)
        ensures
            r@ == bytes@,
    {
        FsPath { bytes }
    }

    /// The path that the given text names.
    pub fn from_text(text: &str) -> (r: FsPath)
        ensures
            r@ == encode_utf8(text@),
    {
        FsPath { bytes: text.as_bytes_vec() }
    }

    /// The bytes of the path.
    pub fn as_bytes(&self) -> (r: &Vec<u8>)
        ensures
            r@ == self@,
    {
        &self.bytes
    }

    /// A copy of the bytes of the path.
    pub fn to_bytes(&self) -> (r: Vec<u8>)
        ensures
            r@ == self@,
    {
        self.bytes.clone()
    }

    /// The path with `part` adjoined to it.
    pub fn join(&self, part: &str) -> (r: FsPath)
        ensures
            r@ == joined(self@, encode_utf8(part@)),
    {
        let tail: Vec<u8> = part.as_bytes_vec();
        if tail.len() > 0 && tail[0] == SEPARATOR {
            return FsPath { bytes: tail };
        }
        let mut bytes: Vec<u8> = self.bytes.clone();
        if bytes.len() > 0 && bytes[bytes.len() - 1] != SEPARATOR {
            bytes.push(SEPARATOR);
        }
        bytes.extend_from_slice(tail.as_slice());
        assert(bytes@ =~= joined(self@, encode_utf8(part@)));
        FsPath { bytes }
    }

    /// The directory that the path lies in, if it lies in one: the path without its last component,
    /// or `.` where that is all there is.
    pub fn parent(&self) -> (r: Option<FsPath>)
        ensures
            match r {
                Some(directory) => parent_of(self@) == Some(directory@),
                None => parent_of(self@) is None,
            },
    {
        let ghost path = self.bytes@;
        assert(path.take(path.len() as int) =~= path);
        let whole: usize = self.tail_start(self.bytes.len());
        if whole == 0 || self.bytes[whole - 1] == SEPARATOR {
            return None;
        }
        let mut end: usize = whole;
        while end > 0 && self.bytes[end - 1] != SEPARATOR
            invariant
                end <= whole <= self.bytes@.len(),
                upto_separator(self.bytes@.take(end as int)) == upto_separator(
                    self.bytes@.take(whole as int),
                ),
            decreases end,
        {
            assert(self.bytes@.take(end as int).drop_last() =~= self.bytes@.take(end - 1));
            end -= 1;
        }
        if end == 0 {
            return Some(FsPath { bytes: vec![CURRENT_DIRECTORY] });
        }
        let kept: usize = self.tail_start(end);
        let mut bytes: Vec<u8> = self.bytes.clone();
        bytes.truncate(kept);
        Some(FsPath { bytes })
    }

    /// Where the tail begins that adds nothing to the first `end` bytes of the path.
    fn tail_start(&self, end: usize) -> (r: usize)
        requires
            end <= self@.len(),
        ensures
            r <= end,
            self@.take(r as int) == without_tail(self@.take(end as int)),
    {
        let mut at: usize = end;
        while at > 1 && (self.bytes[at - 1] == SEPARATOR || (self.bytes[at - 1] == CURRENT_DIRECTORY
            && self.bytes[at - 2] == SEPARATOR))
            invariant
                at <= end <= self.bytes@.len(),
                without_tail(self.bytes@.take(at as int)) == without_tail(
                    self.bytes@.take(end as int),
                ),
            decreases at,
        {
            assert(self.bytes@.take(at as int).drop_last() =~= self.bytes@.take(at - 1));
            at -= 1;
        }
        at
    }

    /// The path as text, with replacement characters for what is not UTF-8.
    pub fn to_string_lossy(&self) -> (r: String)
        ensures
            r@ == text::bytes_text(self@),
    {
        text::lossy_text(self.bytes.as_slice())
    }
}

/// [`joined`] on text.
pub open spec fn joined_text(base: Seq<char>, part: Seq<char>) -> Seq<char> {
    if part.len() > 0 && part[0] == '/' {
        part
    } else if base.len() > 0 && base.last() != '/' {
        base.push('/') + part
    } else {
        base + part
    }
}

/// The encoding of two texts one after the other is that of the one, then that of the other.
pub proof fn lemma_encode_concat(a: Seq<char>, b: Seq<char>)
    ensures
        encode_utf8(a + b) == encode_utf8(a) + encode_utf8(b),
    decreases a.len(),
{
    if a.len() == 0 {
        assert(a + b =~= b);
        assert(encode_utf8(a) + encode_utf8(b) =~= encode_utf8(b));
    } else {
        lemma_encode_concat(a.drop_first(), b);
        assert((a + b).drop_first() =~= a.drop_first() + b);
        assert(encode_utf8(a + b) =~= encode_utf8(a) + encode_utf8(b));
    }
}

/// The first and the last byte of a character's encoding are the separator only where the
/// character is `/`, whose encoding is that byte alone.
proof fn lemma_encode_char(c: char)
    ensures
        encode_scalar(c as u32).len() > 0,
        encode_scalar(c as u32).first() == SEPARATOR <==> c == '/',
        encode_scalar(c as u32).last() == SEPARATOR <==> c == '/',
        c == '/' ==> encode_scalar(c as u32) == seq![SEPARATOR],
{
    let v: u32 = c as u32;
    char_is_scalar(c);
    assert(v <= 0x7f ==> (v & 0x7f) as u8 == v) by (bit_vector);
    assert((0xc0u8 | ((v >> 6) & 0x1f) as u8) >= 0xc0) by (bit_vector);
    assert((0xe0u8 | ((v >> 12) & 0x0f) as u8) >= 0xe0) by (bit_vector);
    assert((0xf0u8 | ((v >> 18) & 0x7) as u8) >= 0xf0) by (bit_vector);
    assert((0x80u8 | (v & 0x3f) as u8) >= 0x80) by (bit_vector);
    assert(c == '/' ==> encode_scalar(v) =~= seq![SEPARATOR]);
}

proof fn lemma_encode_one(c: char)
    ensures
        encode_utf8(seq![c]) == encode_scalar(c as u32),
{
    reveal_with_fuel(encode_utf8, 2);
    let one = seq![c];
    assert(one.drop_first() =~= Seq::empty());
    assert(encode_utf8(one) =~= encode_scalar(c as u32));
}

/// The encoding of a text begins and ends with the separator exactly where the text does.
pub proof fn lemma_encode_ends(text: Seq<char>)
    requires
        text.len() > 0,
    ensures
        encode_utf8(text).len() > 0,
        encode_utf8(text).first() == SEPARATOR <==> text.first() == '/',
        encode_utf8(text).last() == SEPARATOR <==> text.last() == '/',
{
    lemma_encode_char(text.first());
    lemma_encode_char(text.last());
    let init = text.drop_last();
    let end = seq![text.last()];
    assert(text =~= init + end);
    lemma_encode_concat(init, end);
    lemma_encode_one(text.last());
}

/// Joining paths that are text is joining the texts.
pub proof fn law_joined_paths_are_joined_texts(base: Seq<char>, part: Seq<char>)
    ensures
        joined(encode_utf8(base), encode_utf8(part)) == encode_utf8(joined_text(base, part)),
{
    if part.len() > 0 {
        lemma_encode_ends(part);
    }
    if base.len() > 0 {
        lemma_encode_ends(base);
        let slash = seq!['/'];
        lemma_encode_char('/');
        lemma_encode_one('/');
        lemma_encode_concat(base, slash);
        assert(base.push('/') =~= base + slash);
        assert(encode_utf8(base).push(SEPARATOR) =~= encode_utf8(base) + seq![SEPARATOR]);
        lemma_encode_concat(base.push('/'), part);
    }
    lemma_encode_concat(base, part);
}

proof fn lemma_upto_separator(start: Seq<u8>, name: Seq<u8>)
    requires
        start.len() > 0,
        start.last() == SEPARATOR,
        !name.contains(SEPARATOR),
    ensures
        upto_separator(start + name) == start,
    decreases name.len(),
{
    if name.len() == 0 {
        assert(start + name =~= start);
    } else {
        assert(name.contains(name.last()));
        assert forall|byte: u8| name.drop_last().contains(byte) implies name.contains(byte) by {
            let i = choose|i: int| 0 <= i < name.len() - 1 && name.drop_last()[i] == byte;
            assert(name[i] == byte);
        }
        lemma_upto_separator(start, name.drop_last());
        assert((start + name).drop_last() =~= start + name.drop_last());
    }
}

/// What a name is joined to is where the joined path lies: the parent of `base/name` is `base`.
pub proof fn law_joined_name_lies_in_its_base(base: Seq<u8>, name: Seq<u8>)
    requires
        base.len() > 0,
        name.len() > 0,
        !name.contains(SEPARATOR),
        name != seq![CURRENT_DIRECTORY],
    ensures
        parent_of(joined(base, name)) == Some(without_tail(base)),
{
    let start = if base.last() != SEPARATOR {
        base.push(SEPARATOR)
    } else {
        base
    };
    let path = start + name;
    assert(name.contains(name.last()));
    assert(name.contains(name[0]));
    assert(joined(base, name) =~= path);
    assert(without_tail(path) == path) by {
        if name.len() > 1 {
            assert(name.contains(name[name.len() - 2]));
        } else if name.last() == CURRENT_DIRECTORY {
            assert(name =~= seq![CURRENT_DIRECTORY]);
        }
    }
    lemma_upto_separator(start, name);
    assert(base.push(SEPARATOR).drop_last() =~= base);
}

/// The text of a path that was given as text is that text.
pub proof fn law_path_text_is_kept(path: Seq<char>)
    ensures
        text::bytes_text(encode_utf8(path)) == path,
{
    encode_utf8_valid_utf8(path);
    encode_utf8_decode_utf8(path);
}

/// A joined path is the base, then the part, with a separator between them and never one more than
/// is needed; a part that starts with a separator stands alone, and so does one that is joined to
/// nothing.
pub proof fn law_joining_separates_once(base: Seq<u8>, part: Seq<u8>)
    ensures
        ({
            let path = joined(base, part);
            let added = path.len() - base.len() - part.len();
            if (part.len() > 0 && part[0] == 47u8) || base.len() == 0 {
                path == part
            } else {
                &&& base.is_prefix_of(path)
                &&& part.is_suffix_of(path)
                &&& path[path.len() - part.len() - 1] == 47u8
                &&& added == if base.last() == 47u8 {
                    0int
                } else {
                    1
                }
            }
        }),
{
    assert(base.len() == 0 ==> base + part =~= part);
}

/// A name alone lies in the working directory, `.`.
pub proof fn law_bare_name_lies_in_working_directory(name: Seq<u8>)
    requires
        name.len() > 0,
        !name.contains(47u8),
    ensures
        parent_of(name) == Some(seq![46u8]),
{
    assert(name.contains(name.last()));
    assert(name.len() > 1 ==> name.contains(name[name.len() - 2]));
    assert(without_tail(name) == name);
    lemma_no_separator(name);
}

proof fn lemma_no_separator(name: Seq<u8>)
    requires
        !name.contains(SEPARATOR),
    ensures
        upto_separator(name) == Seq::<u8>::empty(),
    decreases name.len(),
{
    if name.len() > 0 {
        assert(name.contains(name.last()));
        assert forall|byte: u8| name.drop_last().contains(byte) implies name.contains(byte) by {
            let i = choose|i: int| 0 <= i < name.len() - 1 && name.drop_last()[i] == byte;
            assert(name[i] == byte);
        }
        lemma_no_separator(name.drop_last());
    }
}

/// The root and the empty path lie in no directory.
pub proof fn law_root_has_no_parent()
    ensures
        parent_of(seq![47u8]) is None,
        parent_of(Seq::<u8>::empty()) is None,
{
}

/// A name that is put into a directory with a separator lies in that directory, whether that is the
/// root or any path that does not end in a separator or a component `.` behind one.
pub proof fn law_entry_lies_in_its_directory(directory: Seq<u8>, name: Seq<u8>)
    requires
        directory.len() > 0,
        directory.last() != 47u8,
        directory.len() > 1 && directory.last() == 46u8 ==> directory[directory.len() - 2] != 47u8,
        name.len() > 0,
        !name.contains(47u8),
        name != seq![46u8],
    ensures
        parent_of(directory + seq![47u8] + name) == Some(directory),
        parent_of(seq![47u8] + name) == Some(seq![47u8]),
{
    assert(name.contains(name[0]));
    law_joined_name_lies_in_its_base(directory, name);
    assert(directory.push(SEPARATOR) + name =~= directory + seq![47u8] + name);
    law_joined_name_lies_in_its_base(seq![47u8], name);
}

/// Separators and `.` at the end of a path do not change where it lies.
pub proof fn law_tail_changes_no_parent(path: Seq<u8>)
    requires
        path.len() > 0,
    ensures
        parent_of(path.push(47u8)) == parent_of(path),
        parent_of(path.push(47u8).push(46u8)) == parent_of(path),
{
    let slashed = path.push(47u8);
    assert(slashed.drop_last() =~= path);
    assert(slashed.push(46u8).drop_last() =~= slashed);
    assert(without_tail(slashed) == without_tail(path));
    assert(without_tail(slashed.push(46u8)) == without_tail(slashed));
}

/// A directory's path as a start for what is in it: with a separator at its end, unless it is
/// empty.
pub open spec fn opened(directory: Seq<u8>) -> Seq<u8> {
    if directory.len() > 0 && directory.last() != 47u8 {
        directory + seq![47u8]
    } else {
        directory
    }
}

/// Joining a relative text to a path puts it behind the path and one separator.
pub proof fn law_relative_text_is_put_behind(base: Seq<u8>, part: Seq<char>)
    requires
        part.len() > 0,
        part[0] != '/',
    ensures
        joined(base, encode_utf8(part)) == opened(base) + encode_utf8(part),
{
    lemma_encode_ends(part);
    assert(base.push(SEPARATOR) =~= base + seq![47u8]);
}

/// Joining a relative text to a path that ends in text extends that text.
pub proof fn law_relative_texts_add_up(start: Seq<u8>, text: Seq<char>, part: Seq<char>)
    requires
        text.len() > 0,
        text.last() != '/',
        part.len() > 0,
        part[0] != '/',
    ensures
        joined(start + encode_utf8(text), encode_utf8(part)) == start + encode_utf8(
            text + seq!['/'] + part,
        ),
{
    let base = start + encode_utf8(text);
    lemma_encode_ends(text);
    law_relative_text_is_put_behind(base, part);
    lemma_encode_char('/');
    lemma_encode_one('/');
    lemma_encode_concat(text, seq!['/']);
    lemma_encode_concat(text + seq!['/'], part);
    assert(base + seq![47u8] + encode_utf8(part) =~= start + (encode_utf8(text) + seq![47u8]
        + encode_utf8(part)));
}

} // verus!
