//! Restoring the permissions that the layers of an image carry in extended attributes.

use crate::path::FsPath;
use crate::vm::block_image::BlockImage;
use vstd::arithmetic::power::*;
use vstd::prelude::*;

verus! {

/// The extended attribute in which a layer's file keeps its owner and mode: `uid:gid:mode`, with
/// the mode in octal, such as `0:0:0755`.
pub const XATTR_NAME: &'static str = "user.containers.override_stat";

/// The byte between the fields of the attribute.
pub const FIELD_SEPARATOR: u8 = 58;

/// How many bytes come before the first separator, or in all where there is none.
pub open spec fn first_separator(bytes: Seq<u8>) -> nat
    decreases bytes.len(),
{
    if bytes.len() == 0 || bytes[0] == FIELD_SEPARATOR {
        0
    } else {
        1 + first_separator(bytes.drop_first())
    }
}

/// The field at position `n`, counted from zero, if there are so many.
pub open spec fn field(bytes: Seq<u8>, n: nat) -> Option<Seq<u8>>
    decreases n,
{
    let end = first_separator(bytes) as int;
    if n == 0 {
        Some(bytes.take(end))
    } else if end >= bytes.len() {
        None
    } else {
        field(bytes.skip(end + 1), (n - 1) as nat)
    }
}

/// Whether a byte is an octal digit.
pub open spec fn is_octal_digit(byte: u8) -> bool {
    48 <= byte <= 55
}

/// The number that a string of octal digits stands for.
pub open spec fn octal_value(digits: Seq<u8>) -> nat
    decreases digits.len(),
{
    if digits.len() == 0 {
        0
    } else {
        8 * octal_value(digits.drop_last()) + (digits.last() - 48) as nat
    }
}

/// The number that octal digits and nothing else stand for, if it fits in a `u32`.
pub open spec fn octal_digits(digits: Seq<u8>) -> Option<u32> {
    if digits.len() > 0 && (forall|i: int|
        0 <= i < digits.len() ==> is_octal_digit(#[trigger] digits[i])) && octal_value(digits)
        <= u32::MAX {
        Some(octal_value(digits) as u32)
    } else {
        None
    }
}

/// The number that a text stands for in octal: an optional plus sign, then digits.
pub open spec fn octal_number(number: Seq<u8>) -> Option<u32> {
    if number.len() > 0 && number[0] == 43 {
        octal_digits(number.drop_first())
    } else {
        octal_digits(number)
    }
}

/// The permission bits that an attribute asks for: the lower twelve bits of the mode in its third
/// field. An attribute without such a number, or with none of these bits set, asks for nothing.
pub open spec fn asked_permissions(attribute: Seq<u8>) -> Option<u32> {
    match field(attribute, 2) {
        Some(number) => match octal_number(number) {
            Some(mode) => if mode % 0o10000 != 0 {
                Some((mode % 0o10000) as u32)
            } else {
                None
            },
            None => None,
        },
        None => None,
    }
}

proof fn lemma_first_separator_bound(bytes: Seq<u8>)
    ensures
        first_separator(bytes) <= bytes.len(),
    decreases bytes.len(),
{
    if bytes.len() > 0 && bytes[0] != FIELD_SEPARATOR {
        lemma_first_separator_bound(bytes.drop_first());
    }
}

/// Finds the first separator from a position on, or the end.
fn find_separator(bytes: &[u8], from: usize) -> (r: usize)
    requires
        from <= bytes@.len(),
    ensures
        from <= r <= bytes@.len(),
        r == from + first_separator(bytes@.skip(from as int)),
{
    let mut at: usize = from;
    proof {
        lemma_first_separator_bound(bytes@.skip(from as int));
    }
    while at < bytes.len() && bytes[at] != FIELD_SEPARATOR
        invariant
            from <= at <= bytes@.len(),
            at + first_separator(bytes@.skip(at as int)) == from + first_separator(
                bytes@.skip(from as int),
            ),
        decreases bytes@.len() - at,
    {
        assert(bytes@.skip(at as int).drop_first() =~= bytes@.skip(at + 1));
        at += 1;
    }
    at
}

proof fn lemma_octal_prefix(digits: Seq<u8>, upto: int)
    requires
        0 <= upto <= digits.len(),
    ensures
        octal_value(digits.take(upto)) <= octal_value(digits),
    decreases digits.len() - upto,
{
    if upto == digits.len() {
        assert(digits.take(upto) =~= digits);
    } else {
        lemma_octal_prefix(digits, upto + 1);
        assert(digits.take(upto + 1).drop_last() =~= digits.take(upto));
    }
}

/// Reads octal digits.
fn read_octal(bytes: &[u8], from: usize, to: usize) -> (r: Option<u32>)
    requires
        from <= to <= bytes@.len(),
    ensures
        r == octal_digits(bytes@.subrange(from as int, to as int)),
{
    let ghost digits = bytes@.subrange(from as int, to as int);
    if from == to {
        return None;
    }
    let mut value: u32 = 0;
    let mut at: usize = from;
    assert(digits.take(0) =~= Seq::empty());
    while at < to
        invariant
            from <= at <= to <= bytes@.len(),
            digits == bytes@.subrange(from as int, to as int),
            value == octal_value(digits.take(at - from)),
            forall|i: int| 0 <= i < at - from ==> is_octal_digit(#[trigger] digits[i]),
        decreases to - at,
    {
        let byte: u8 = bytes[at];
        assert(digits[at - from] == byte);
        if byte < 48 || byte > 55 {
            assert(!is_octal_digit(digits[at - from]));
            return None;
        }
        let digit: u32 = (byte - 48) as u32;
        proof {
            assert(digits.take(at - from + 1).drop_last() =~= digits.take(at - from));
            assert(digits.take(at - from + 1).last() == byte);
            lemma_octal_prefix(digits, at - from + 1);
        }
        if value > (u32::MAX - digit) / 8 {
            return None;
        }
        value = value * 8 + digit;
        at += 1;
    }
    assert(digits.take(to - from) =~= digits);
    Some(value)
}

/// The permission bits that an attribute `uid:gid:mode` asks for, if it asks for any.
pub fn permission_bits(attribute: &[u8]) -> (r: Option<u32>)
    ensures
        r == asked_permissions(attribute@),
{
    let ghost whole = attribute@;
    proof {
        reveal_with_fuel(field, 3);
        assert(whole.skip(0) =~= whole);
    }
    let first: usize = find_separator(attribute, 0);
    if first == attribute.len() {
        return None;
    }
    let second: usize = find_separator(attribute, first + 1);
    if second == attribute.len() {
        return None;
    }
    let third: usize = find_separator(attribute, second + 1);
    let start: usize = second + 1;
    let ghost number = whole.subrange(start as int, third as int);
    proof {
        let tail = whole.skip(first + 1);
        assert(tail.skip(first_separator(tail) as int + 1) =~= whole.skip(second + 1));
        assert(whole.skip(second + 1).take(third - second - 1) =~= number);
        assert(field(whole, 2) == Some(number));
    }
    let read = if start < third && attribute[start] == 43 {
        assert(number.drop_first() =~= whole.subrange(start + 1, third as int));
        read_octal(attribute, start + 1, third)
    } else {
        read_octal(attribute, start, third)
    };
    assert(read == octal_number(number));
    match read {
        Some(mode) => {
            let bits: u32 = mode & 0o7777;
            assert(mode & 0o7777 == mode % 0o10000) by (bit_vector);
            if bits != 0 {
                Some(bits)
            } else {
                None
            }
        },
        None => None,
    }
}

/// Permissions that are asked for are permission bits, and at least one of them.
pub proof fn law_permissions_are_permission_bits(attribute: Seq<u8>)
    ensures
        asked_permissions(attribute) matches Some(bits) ==> 0 < bits <= 0o7777,
{
}

/// What kind of file a path names.
#[derive(Debug, Clone, Copy, PartialEq, Eq)]
pub struct FileKind {
    /// It is a directory.
    pub is_dir: bool,
    /// It is a symbolic link.
    pub is_symlink: bool,
}

/// What the host is to do next to restore permissions.
#[derive(Debug)]
pub enum WalkAction {
    /// See what kind of file this is, without following a link.
    Inspect { path: FsPath, then: InspectPending },
    /// Read the attribute [`XATTR_NAME`] of this file.
    ReadAttribute { path: FsPath, then: AttributePending },
    /// Set the permissions of this file.
    SetPermissions { path: FsPath, mode: u32, then: PermissionsPending },
    /// List the entries of this directory.
    ListDirectory { path: FsPath, then: ListPending },
    /// Everything was visited.
    Finish,
}

/// A file is being looked at.
#[derive(Debug)]
pub struct InspectPending {
    path: FsPath,
    rest: Vec<FsPath>,
}

/// The attribute of a file is being read.
#[derive(Debug)]
pub struct AttributePending {
    path: FsPath,
    kind: FileKind,
    rest: Vec<FsPath>,
}

/// The permissions of a file are being set.
#[derive(Debug)]
pub struct PermissionsPending {
    path: FsPath,
    kind: FileKind,
    rest: Vec<FsPath>,
}

/// A directory is being listed.
#[derive(Debug)]
pub struct ListPending {
    rest: Vec<FsPath>,
}

/// The paths that are still to be visited, in the order in which they will be.
pub open spec fn visiting_order(rest: Seq<FsPath>) -> Seq<Seq<u8>> {
    Seq::new(rest.len(), |i: int| rest[rest.len() - 1 - i]@)
}

/// A list of paths by their bytes.
pub open spec fn paths_view(paths: Seq<FsPath>) -> Seq<Seq<u8>> {
    Seq::new(paths.len(), |i: int| paths[i]@)
}

/// Where a walk stands: at a file, with more to visit after it.
pub struct WalkView {
    /// The file.
    pub path: Seq<u8>,
    /// What is visited after it and what is under it, in order.
    pub rest: Seq<Seq<u8>>,
}

/// A [`WalkAction`] by its contents, with where the walk stands.
pub enum WalkActionView {
    Inspect { path: Seq<u8>, at: WalkView },
    ReadAttribute { path: Seq<u8>, at: WalkView, kind: FileKind },
    SetPermissions { path: Seq<u8>, mode: u32, at: WalkView, kind: FileKind },
    ListDirectory { path: Seq<u8>, rest: Seq<Seq<u8>> },
    Finish,
}

impl View for InspectPending {
    type V = WalkView;

    closed spec fn view(&self) -> WalkView {
        WalkView { path: self.path@, rest: visiting_order(self.rest@) }
    }
}

impl View for AttributePending {
    type V = WalkView;

    closed spec fn view(&self) -> WalkView {
        WalkView { path: self.path@, rest: visiting_order(self.rest@) }
    }
}

impl AttributePending {
    /// What kind of file the attribute is read of.
    pub closed spec fn kind_view(self) -> FileKind {
        self.kind
    }
}

impl View for PermissionsPending {
    type V = WalkView;

    closed spec fn view(&self) -> WalkView {
        WalkView { path: self.path@, rest: visiting_order(self.rest@) }
    }
}

impl PermissionsPending {
    /// What kind of file the permissions are set of.
    pub closed spec fn kind_view(self) -> FileKind {
        self.kind
    }
}

impl View for ListPending {
    type V = Seq<Seq<u8>>;

    closed spec fn view(&self) -> Seq<Seq<u8>> {
        visiting_order(self.rest@)
    }
}

impl View for WalkAction {
    type V = WalkActionView;

    open spec fn view(&self) -> WalkActionView {
        match self {
            WalkAction::Inspect { path, then } => WalkActionView::Inspect {
                path: path@,
                at: then@,
            },
            WalkAction::ReadAttribute { path, then } => WalkActionView::ReadAttribute {
                path: path@,
                at: then@,
                kind: then.kind_view(),
            },
            WalkAction::SetPermissions { path, mode, then } => WalkActionView::SetPermissions {
                path: path@,
                mode: *mode,
                at: then@,
                kind: then.kind_view(),
            },
            WalkAction::ListDirectory { path, then } => WalkActionView::ListDirectory {
                path: path@,
                rest: then@,
            },
            WalkAction::Finish => WalkActionView::Finish,
        }
    }
}

/// What follows when these are still to be visited: the first of them is looked at.
pub open spec fn visit_step(order: Seq<Seq<u8>>) -> WalkActionView {
    if order.len() == 0 {
        WalkActionView::Finish
    } else {
        WalkActionView::Inspect {
            path: order.first(),
            at: WalkView { path: order.first(), rest: order.drop_first() },
        }
    }
}

/// What follows when a file's permissions are settled: a directory is listed, but not through a
/// symbolic link.
pub open spec fn enter_step(at: WalkView, kind: FileKind) -> WalkActionView {
    if kind.is_dir && !kind.is_symlink {
        WalkActionView::ListDirectory { path: at.path, rest: at.rest }
    } else {
        visit_step(at.rest)
    }
}

/// What follows when a file was looked at: its attribute is read, or it is skipped where it could
/// not be looked at.
pub open spec fn inspected_step(at: WalkView, kind: Option<FileKind>) -> WalkActionView {
    match kind {
        Some(kind) => WalkActionView::ReadAttribute { path: at.path, at, kind },
        None => visit_step(at.rest),
    }
}

/// What follows when a file's attribute was read: the permissions that it asks for are set.
pub open spec fn attribute_step(
    at: WalkView,
    kind: FileKind,
    attribute: Option<Seq<u8>>,
) -> WalkActionView {
    match asked_of(attribute) {
        Some(mode) => WalkActionView::SetPermissions { path: at.path, mode, at, kind },
        None => enter_step(at, kind),
    }
}

/// The permission bits that a file's attribute asks for, where it has the attribute.
pub open spec fn asked_of(attribute: Option<Seq<u8>>) -> Option<u32> {
    match attribute {
        Some(value) => asked_permissions(value),
        None => None,
    }
}

/// What follows when a directory was listed: its entries come before anything else.
pub open spec fn listed_step(
    rest: Seq<Seq<u8>>,
    entries: Option<Seq<Seq<u8>>>,
) -> WalkActionView {
    match entries {
        Some(entries) => visit_step(entries + rest),
        None => visit_step(rest),
    }
}

fn visit(rest: Vec<FsPath>) -> (r: WalkAction)
    ensures
        r@ == visit_step(visiting_order(rest@)),
{
    let mut rest = rest;
    let ghost order = visiting_order(rest@);
    match rest.pop() {
        None => WalkAction::Finish,
        Some(path) => {
            let copy = path.clone();
            assert(visiting_order(rest@) =~= order.drop_first());
            WalkAction::Inspect { path: copy, then: InspectPending { path, rest } }
        },
    }
}

fn enter(path: FsPath, kind: FileKind, rest: Vec<FsPath>) -> (r: WalkAction)
    ensures
        r@ == enter_step(WalkView { path: path@, rest: visiting_order(rest@) }, kind),
{
    if kind.is_dir && !kind.is_symlink {
        WalkAction::ListDirectory { path, then: ListPending { rest } }
    } else {
        visit(rest)
    }
}

impl BlockImage {
    /// Restores the permissions of everything under a directory from the attributes that the
    /// layers carry.
    pub fn restore_permissions_from_xattr(&self, mount_point: FsPath) -> (r: WalkAction)
        ensures
            r@ == visit_step(seq![mount_point@]),
    {
        let mut rest: Vec<FsPath> = Vec::new();
        rest.push(mount_point);
        assert(visiting_order(rest@) =~= seq![mount_point@]);
        visit(rest)
    }
}

impl InspectPending {
    /// Goes on with the kind of the file; `None` where it could not be looked at, and then it is
    /// skipped.
    pub fn resume(self, kind: Option<FileKind>) -> (r: WalkAction)
        ensures
            r@ == inspected_step(self@, kind),
    {
        match kind {
            None => visit(self.rest),
            Some(kind) => {
                let copy = self.path.clone();
                WalkAction::ReadAttribute {
                    path: copy,
                    then: AttributePending { path: self.path, kind, rest: self.rest },
                }
            },
        }
    }
}

impl AttributePending {
    /// Goes on with the attribute of the file; `None` where there is none or it could not be read.
    pub fn resume(self, attribute: Option<Vec<u8>>) -> (r: WalkAction)
        ensures
            r@ == attribute_step(
                self@,
                self.kind_view(),
                match attribute {
                    Some(value) => Some(value@),
                    None => None,
                },
            ),
            attribute matches Some(value) ==> field(value@, 2) matches Some(number)
                ==> octal_number(number) matches Some(m) ==> m % 0o10000 != 0 ==> (r
                matches WalkAction::SetPermissions { path, mode, .. } && path@ == self@.path && mode
                == m % 0o10000),
    {
        let asked: Option<u32> = match attribute {
            Some(value) => permission_bits(value.as_slice()),
            None => None,
        };
        match asked {
            Some(mode) => {
                let copy = self.path.clone();
                WalkAction::SetPermissions {
                    path: copy,
                    mode,
                    then: PermissionsPending { path: self.path, kind: self.kind, rest: self.rest },
                }
            },
            None => enter(self.path, self.kind, self.rest),
        }
    }
}

impl PermissionsPending {
    /// Goes on once the permissions were set, or could not be: that stops nothing.
    pub fn resume(self) -> (r: WalkAction)
        ensures
            r@ == enter_step(self@, self.kind_view()),
    {
        enter(self.path, self.kind, self.rest)
    }
}

impl ListPending {
    /// Goes on with the entries of the directory, in order, before anything else; `None` where it
    /// could not be listed.
    pub fn resume(self, entries: Option<Vec<FsPath>>) -> (r: WalkAction)
        ensures
            r@ == listed_step(
                self@,
                match entries {
                    Some(entries) => Some(paths_view(entries@)),
                    None => None,
                },
            ),
    {
        let mut rest = self.rest;
        let ghost before = rest@;
        match entries {
            None => visit(rest),
            Some(entries) => {
                let mut entries = entries;
                let ghost listed = entries@;
                while entries.len() > 0
                    invariant
                        entries@ == listed.take(entries@.len() as int),
                        entries@.len() <= listed.len(),
                        visiting_order(rest@) == paths_view(listed.skip(entries@.len() as int))
                            + visiting_order(before),
                    decreases entries@.len(),
                {
                    let ghost n = entries@.len() as int;
                    let ghost order = visiting_order(rest@);
                    if let Some(path) = entries.pop() {
                        rest.push(path);
                        proof {
                            assert(path == listed[n - 1]);
                            assert(entries@ =~= listed.take(n - 1));
                            assert(visiting_order(rest@) =~= seq![path@] + order);
                            assert(paths_view(listed.skip(n - 1)) =~= seq![path@] + paths_view(
                                listed.skip(n),
                            ));
                            assert(visiting_order(rest@) =~= paths_view(listed.skip(n - 1))
                                + visiting_order(before));
                        }
                    }
                }
                assert(listed.skip(0) =~= listed);
                visit(rest)
            },
        }
    }
}

/// A file as the host shows it, with what is under it.
pub struct FileNode {
    /// Where it is.
    pub path: Seq<u8>,
    /// What kind of file it is, where it can be looked at.
    pub kind: Option<FileKind>,
    /// Its attribute, where it has one that can be read.
    pub attribute: Option<Seq<u8>>,
    /// Its entries, where it can be listed.
    pub entries: Option<Seq<FileNode>>,
}

/// Something that the host is asked to do on a walk.
pub enum WalkDeed {
    /// Look at this file.
    Inspect(Seq<u8>),
    /// Read the attribute of this file.
    ReadAttribute(Seq<u8>),
    /// Give this file these permissions.
    SetPermissions(Seq<u8>, u32),
    /// List this directory.
    ListDirectory(Seq<u8>),
}

/// The paths of files.
pub open spec fn node_paths(nodes: Seq<FileNode>) -> Seq<Seq<u8>> {
    nodes.map_values(|node: FileNode| node.path)
}

/// What the host answers when it is asked for the entries of a directory.
pub open spec fn entry_paths(node: FileNode) -> Option<Seq<Seq<u8>>> {
    match node.entries {
        Some(entries) => Some(node_paths(entries)),
        None => None,
    }
}

/// The entries of a file, none where it cannot be listed.
pub open spec fn entries_of(node: FileNode) -> Seq<FileNode> {
    match node.entries {
        Some(entries) => entries,
        None => Seq::empty(),
    }
}

/// How many files there are, with everything under them.
pub open spec fn file_count(nodes: Seq<FileNode>) -> nat
    decreases nodes,
{
    if nodes.len() == 0 {
        0
    } else {
        1 + match nodes[0].entries {
            Some(entries) => file_count(entries),
            None => 0,
        } + file_count(nodes.drop_first())
    }
}

/// What restoring the permissions of files means: each file in order, and everything under a file
/// before the next one. A file that cannot be looked at is passed over. Of every other the
/// attribute is read and the permissions that it asks for are set; then a directory, unless it is
/// a symbolic link, is listed and its entries are dealt with in the same way.
pub open spec fn restoring(nodes: Seq<FileNode>) -> Seq<WalkDeed>
    decreases nodes,
{
    if nodes.len() == 0 {
        Seq::empty()
    } else {
        let node = nodes[0];
        let below = match nodes[0].entries {
            Some(entries) => restoring(entries),
            None => Seq::empty(),
        };
        seq![WalkDeed::Inspect(node.path)] + match node.kind {
            None => Seq::empty(),
            Some(kind) => seq![WalkDeed::ReadAttribute(node.path)] + match asked_of(
                node.attribute,
            ) {
                Some(mode) => seq![WalkDeed::SetPermissions(node.path, mode)],
                None => Seq::empty(),
            } + if kind.is_dir && !kind.is_symlink {
                seq![WalkDeed::ListDirectory(node.path)] + below
            } else {
                Seq::empty()
            },
        } + restoring(nodes.drop_first())
    }
}

proof fn lemma_file_count_concat(a: Seq<FileNode>, b: Seq<FileNode>)
    ensures
        file_count(a + b) == file_count(a) + file_count(b),
    decreases a.len(),
{
    if a.len() == 0 {
        assert(a + b =~= b);
    } else {
        lemma_file_count_concat(a.drop_first(), b);
        assert((a + b).drop_first() =~= a.drop_first() + b);
    }
}

/// There are fewer files left once the first of them is replaced by its entries.
pub proof fn lemma_file_count_step(nodes: Seq<FileNode>)
    requires
        nodes.len() > 0,
    ensures
        file_count(nodes.drop_first()) < file_count(nodes),
        file_count(entries_of(nodes[0]) + nodes.drop_first()) < file_count(nodes),
{
    lemma_file_count_concat(entries_of(nodes[0]), nodes.drop_first());
}

proof fn lemma_restoring_concat(a: Seq<FileNode>, b: Seq<FileNode>)
    ensures
        restoring(a + b) == restoring(a) + restoring(b),
    decreases a.len(),
{
    if a.len() == 0 {
        assert(a + b =~= b);
        assert(restoring(a) + restoring(b) =~= restoring(b));
    } else {
        lemma_restoring_concat(a.drop_first(), b);
        assert((a + b).drop_first() =~= a.drop_first() + b);
        assert(restoring(a + b) =~= restoring(a) + restoring(b));
    }
}

/// What the host is asked to do from a step on, when the files that are still to be visited are
/// `nodes` and the host answers for each as it is.
pub open spec fn deeds(action: WalkActionView, nodes: Seq<FileNode>) -> Seq<WalkDeed>
    decreases file_count(nodes), 1nat,
{
    match action {
        WalkActionView::Inspect { path, at } => if nodes.len() > 0 {
            proof {
                lemma_file_count_step(nodes);
            }
            let node = nodes[0];
            seq![WalkDeed::Inspect(path)] + match inspected_step(at, node.kind) {
                WalkActionView::ReadAttribute {
                    path,
                    at,
                    kind,
                } => seq![WalkDeed::ReadAttribute(path)] + match attribute_step(
                    at,
                    kind,
                    node.attribute,
                ) {
                    WalkActionView::SetPermissions {
                        path,
                        mode,
                        at,
                        kind,
                    } => seq![WalkDeed::SetPermissions(path, mode)] + deeds_below(
                        enter_step(at, kind),
                        nodes,
                    ),
                    other => deeds_below(other, nodes),
                },
                other => deeds(other, nodes.drop_first()),
            }
        } else {
            Seq::empty()
        },
        _ => Seq::empty(),
    }
}

/// What the host is asked to do from a step on that follows the first of the files `nodes`: the
/// listing of it, or the next file.
pub open spec fn deeds_below(action: WalkActionView, nodes: Seq<FileNode>) -> Seq<WalkDeed>
    decreases file_count(nodes), 0nat,
{
    if nodes.len() > 0 {
        proof {
            lemma_file_count_step(nodes);
        }
        match action {
            WalkActionView::ListDirectory { path, rest } => seq![WalkDeed::ListDirectory(path)]
                + deeds(
                listed_step(rest, entry_paths(nodes[0])),
                entries_of(nodes[0]) + nodes.drop_first(),
            ),
            other => deeds(other, nodes.drop_first()),
        }
    } else {
        Seq::empty()
    }
}

/// A walk over files does what restoring their permissions means, and then ends: it comes to each
/// file once, to a directory before its entries, sets exactly the permissions that are asked for,
/// and does not go through symbolic links.
pub proof fn law_walk_restores_everything(nodes: Seq<FileNode>)
    ensures
        deeds(visit_step(node_paths(nodes)), nodes) == restoring(nodes),
    decreases file_count(nodes),
{
    if nodes.len() > 0 {
        let node = nodes[0];
        let later = nodes.drop_first();
        lemma_file_count_step(nodes);
        law_walk_restores_everything(later);
        law_walk_restores_everything(entries_of(node) + later);
        lemma_restoring_concat(entries_of(node), later);
        assert(node_paths(nodes).drop_first() =~= node_paths(later));
        assert(node_paths(entries_of(node) + later) =~= node_paths(entries_of(node)) + node_paths(
            later,
        ));
        assert(Seq::<FileNode>::empty() + later =~= later);
        reveal_with_fuel(deeds, 3);
        reveal_with_fuel(deeds_below, 3);
        assert(restoring(entries_of(node)) == match node.entries {
            Some(entries) => restoring(entries),
            None => Seq::empty(),
        });
        assert(deeds(visit_step(node_paths(nodes)), nodes) =~= restoring(nodes));
    }
}

/// The number that octal digits stand for, each digit at its place.
pub open spec fn place_value(digits: Seq<u8>) -> int
    decreases digits.len(),
{
    if digits.len() == 0 {
        0
    } else {
        (digits[0] - 48) * pow(8, (digits.len() - 1) as nat) + place_value(digits.drop_first())
    }
}

/// The digits of a mode: what follows a plus sign, where there is one.
pub open spec fn mode_digits(number: Seq<u8>) -> Seq<u8> {
    if number.len() > 0 && number[0] == 43u8 {
        number.drop_first()
    } else {
        number
    }
}

/// A mode is written as octal digits, at least one and nothing else, for a number of 32 bits.
pub open spec fn is_octal_mode(number: Seq<u8>) -> bool {
    let digits = mode_digits(number);
    &&& digits.len() > 0
    &&& forall|i: int| 0 <= i < digits.len() ==> 48u8 <= #[trigger] digits[i] <= 55u8
    &&& place_value(digits) <= 0xffff_ffff
}

proof fn lemma_leading_digit(digits: Seq<u8>)
    requires
        digits.len() > 0,
        forall|i: int| 0 <= i < digits.len() ==> is_octal_digit(#[trigger] digits[i]),
    ensures
        octal_value(digits) == (digits[0] - 48) * pow(8, (digits.len() - 1) as nat) + octal_value(
            digits.drop_first(),
        ),
    decreases digits.len(),
{
    reveal(pow);
    reveal_with_fuel(octal_value, 2);
    let first: int = digits[0] - 48;
    assert(is_octal_digit(digits[0]));
    if digits.len() == 1 {
        assert(digits.drop_last() =~= Seq::empty());
        assert(digits.drop_first() =~= Seq::empty());
        assert(pow(8, 0) == 1);
        assert(first * 1 == first);
    } else {
        let shorter = digits.drop_last();
        assert forall|i: int| 0 <= i < shorter.len() implies is_octal_digit(
            #[trigger] shorter[i],
        ) by {
            assert(is_octal_digit(digits[i]));
        }
        lemma_leading_digit(shorter);
        assert(shorter.drop_first() =~= digits.drop_first().drop_last());
        assert(digits.drop_first().last() == digits.last());
        let power = pow(8, (digits.len() - 2) as nat);
        assert(pow(8, (digits.len() - 1) as nat) == 8 * power);
        assert(8 * (first * power) == first * (8 * power)) by (nonlinear_arith);
    }
}

proof fn lemma_place_value(digits: Seq<u8>)
    requires
        forall|i: int| 0 <= i < digits.len() ==> is_octal_digit(#[trigger] digits[i]),
    ensures
        octal_value(digits) == place_value(digits),
    decreases digits.len(),
{
    if digits.len() > 0 {
        lemma_leading_digit(digits);
        assert forall|i: int| 0 <= i < digits.drop_first().len() implies is_octal_digit(
            #[trigger] digits.drop_first()[i],
        ) by {
            assert(is_octal_digit(digits[i + 1]));
        }
        lemma_place_value(digits.drop_first());
    }
}

/// A text is read as an octal number exactly where it is written as one, and then as the number
/// that its digits stand for at their places.
pub proof fn law_octal_is_read_by_place(number: Seq<u8>)
    ensures
        octal_number(number) is Some <==> is_octal_mode(number),
        octal_number(number) matches Some(m) ==> m == place_value(mode_digits(number)),
{
    let digits = mode_digits(number);
    if forall|i: int| 0 <= i < digits.len() ==> is_octal_digit(#[trigger] digits[i]) {
        lemma_place_value(digits);
    }
    if is_octal_mode(number) {
        assert forall|i: int| 0 <= i < digits.len() implies is_octal_digit(
            #[trigger] digits[i],
        ) by {
            assert(48u8 <= digits[i] <= 55u8);
        }
        lemma_place_value(digits);
    }
    if octal_number(number) is Some {
        assert forall|i: int| 0 <= i < digits.len() implies 48u8 <= #[trigger] digits[i]
            <= 55u8 by {
            assert(is_octal_digit(digits[i]));
        }
    }
}

proof fn lemma_separator_behind(start: Seq<u8>, rest: Seq<u8>)
    requires
        !start.contains(FIELD_SEPARATOR),
        rest.len() == 0 || rest[0] == FIELD_SEPARATOR,
    ensures
        first_separator(start + rest) == start.len(),
    decreases start.len(),
{
    if start.len() > 0 {
        assert(start.contains(start[0]));
        assert forall|byte: u8| start.drop_first().contains(byte) implies start.contains(byte) by {
            let i = choose|i: int| 0 <= i < start.len() - 1 && start.drop_first()[i] == byte;
            assert(start[i + 1] == byte);
        }
        lemma_separator_behind(start.drop_first(), rest);
        assert((start + rest).drop_first() =~= start.drop_first() + rest);
    } else {
        assert(start + rest =~= rest);
    }
}

/// The third field of an attribute is what stands behind its second colon, up to the next colon or
/// the end.
pub proof fn law_third_field_stands_behind_two_colons(
    uid: Seq<u8>,
    gid: Seq<u8>,
    number: Seq<u8>,
    rest: Seq<u8>,
)
    requires
        !uid.contains(58u8),
        !gid.contains(58u8),
        !number.contains(58u8),
        rest.len() == 0 || rest[0] == 58u8,
    ensures
        field(uid + seq![58u8] + gid + seq![58u8] + number + rest, 2) == Some(number),
{
    reveal_with_fuel(field, 3);
    let colon = seq![58u8];
    let last = number + rest;
    let middle = gid + (colon + last);
    let whole = uid + (colon + middle);
    assert(whole =~= uid + colon + gid + colon + number + rest);
    lemma_separator_behind(uid, colon + middle);
    lemma_separator_behind(gid, colon + last);
    lemma_separator_behind(number, rest);
    assert(whole.skip(uid.len() as int + 1) =~= middle);
    assert(middle.skip(gid.len() as int + 1) =~= last);
    assert(last.take(number.len() as int) =~= number);
}

/// An attribute with fewer than two colons has no third field.
pub proof fn law_third_field_needs_two_colons(uid: Seq<u8>, gid: Seq<u8>)
    requires
        !uid.contains(58u8),
        !gid.contains(58u8),
    ensures
        field(uid, 2) is None,
        field(uid + seq![58u8] + gid, 2) is None,
{
    reveal_with_fuel(field, 3);
    let none = Seq::<u8>::empty();
    let colon = seq![58u8];
    lemma_separator_behind(uid, none);
    assert(uid + none =~= uid);
    let whole = uid + (colon + gid);
    assert(whole =~= uid + colon + gid);
    lemma_separator_behind(uid, colon + gid);
    lemma_separator_behind(gid, none);
    assert(gid + none =~= gid);
    assert(whole.skip(uid.len() as int + 1) =~= gid);
}

/// A file whose attribute is `uid:gid:mode` with an octal mode gets exactly the lower twelve bits of
/// that mode as its permissions, all of them and no others, unless they are all zero: then, and
/// where the third field is no octal mode, its permissions stay as they are.
pub proof fn law_file_gets_the_mode_of_its_attribute(
    at: WalkView,
    kind: FileKind,
    uid: Seq<u8>,
    gid: Seq<u8>,
    number: Seq<u8>,
    rest: Seq<u8>,
)
    requires
        !uid.contains(58u8),
        !gid.contains(58u8),
        !number.contains(58u8),
        rest.len() == 0 || rest[0] == 58u8,
    ensures
        ({
            let attribute = uid + seq![58u8] + gid + seq![58u8] + number + rest;
            let bits = place_value(mode_digits(number)) % 0o10000;
            let action = attribute_step(at, kind, Some(attribute));
            if is_octal_mode(number) && bits != 0 {
                action matches WalkActionView::SetPermissions { path, mode, at: then, kind: known }
                    && path == at.path && mode == bits && then == at && known == kind
            } else {
                action == enter_step(at, kind)
            }
        }),
{
    law_third_field_stands_behind_two_colons(uid, gid, number, rest);
    law_octal_is_read_by_place(number);
}

/// A file without the attribute, or with one that has fewer than three fields, keeps its
/// permissions.
pub proof fn law_file_without_mode_keeps_its_permissions(
    at: WalkView,
    kind: FileKind,
    uid: Seq<u8>,
    gid: Seq<u8>,
)
    requires
        !uid.contains(58u8),
        !gid.contains(58u8),
    ensures
        attribute_step(at, kind, None) == enter_step(at, kind),
        attribute_step(at, kind, Some(uid)) == enter_step(at, kind),
        attribute_step(at, kind, Some(uid + seq![58u8] + gid)) == enter_step(at, kind),
{
    law_third_field_needs_two_colons(uid, gid);
}

/// A walk goes on file by file. Every file that can be looked at has its attribute read. A file is
/// entered exactly where it is a directory and no symbolic link, whether or not its permissions
/// were set; else, and where it cannot be looked at, the next file that is left follows, and the
/// walk ends where none is. The entries of a directory come before the files that were left, in the
/// order in which they were listed.
pub proof fn law_walk_goes_on(
    at: WalkView,
    kind: FileKind,
    entries: Seq<Seq<u8>>,
    order: Seq<Seq<u8>>,
)
    ensures
        inspected_step(at, Some(kind)) == (WalkActionView::ReadAttribute {
            path: at.path,
            at,
            kind,
        }),
        inspected_step(at, None) == visit_step(at.rest),
        enter_step(at, kind) == (WalkActionView::ListDirectory { path: at.path, rest: at.rest })
            <==> kind.is_dir && !kind.is_symlink,
        !(kind.is_dir && !kind.is_symlink) ==> enter_step(at, kind) == visit_step(at.rest),
        listed_step(at.rest, Some(entries)) == visit_step(entries + at.rest),
        listed_step(at.rest, None) == visit_step(at.rest),
        order.len() == 0 ==> visit_step(order) is Finish,
        order.len() > 0 ==> visit_step(order) == (WalkActionView::Inspect {
            path: order[0],
            at: WalkView { path: order[0], rest: order.skip(1) },
        }),
{
    assert(order.len() > 0 ==> order.skip(1) =~= order.drop_first());
}

/// The views of paths and of the steps of a walk show them as they are.
pub proof fn law_walk_views_keep_everything(action: WalkAction, paths: Seq<FsPath>)
    ensures
        paths_view(paths).len() == paths.len(),
        forall|i: int| 0 <= i < paths.len() ==> #[trigger] paths_view(paths)[i] == paths[i]@,
        visiting_order(paths).len() == paths.len(),
        forall|i: int|
            0 <= i < paths.len() ==> #[trigger] visiting_order(paths)[i] == paths[paths.len() - 1
                - i]@,
        action matches WalkAction::Inspect { path, then } ==> action@ == (WalkActionView::Inspect {
            path: path@,
            at: then@,
        }),
        action matches WalkAction::ReadAttribute { path, then } ==> action@ == (
        WalkActionView::ReadAttribute { path: path@, at: then@, kind: then.kind_view() }),
        action matches WalkAction::SetPermissions { path, mode, then } ==> action@ == (
        WalkActionView::SetPermissions { path: path@, mode, at: then@, kind: then.kind_view() }),
        action matches WalkAction::ListDirectory { path, then } ==> action@ == (
        WalkActionView::ListDirectory { path: path@, rest: then@ }),
        action is Finish <==> action@ is Finish,
{
}

/// The attribute that is read is the one in which layers keep owner and mode.
pub proof fn law_attribute_is_override_stat()
    ensures
        XATTR_NAME@ == "user.containers.override_stat"@,
{
}

} // verus!
