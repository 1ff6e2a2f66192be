//! A typed command builder for an external directory-mirroring tool.
//!
//! The library turns a structured description of a copy operation into the
//! flat, ordered list of command-line tokens that the tool accepts, and
//! classifies the tool's numeric exit status. The heart of it is an algebra
//! of flag families: closed sets of named options that can be combined
//! (a union on their boolean presence, concatenation or recursive union on
//! auxiliary data), decomposed back into their atomic parts, and serialized
//! to tokens in a fixed canonical order.

pub mod exit_codes;
pub mod filter;
pub mod logging;
pub mod numfmt;
pub mod performance;
pub mod properties;

use vstd::prelude::*;

verus! {

use crate::exit_codes::ErrExitCode;
use crate::filter::Filter;
use crate::logging::LoggingOptions;
use crate::numfmt::{push_decimal, spec_decimal};
use crate::performance::{PerformanceOptions, RetrySettings};
use crate::properties::{DirectoryProperties, FileProperties};

/// For enums that allow several atomic variants to be joined into a single
/// combined variant.
///
/// Decomposition is specified against the deep view so that a family whose
/// combined variant carries owned auxiliary data (a list of patterns, say)
/// can return fresh copies of that data.
pub trait MultipleVariant: Sized + DeepView {
    /// The atomic components of this value, in the family's canonical order.
    spec fn spec_single_variants(&self) -> Seq<<Self as DeepView>::V>;

    /// Gets each variant in a multiple-variant.
    fn single_variants(&self) -> (r: Vec<Self>)
        ensures
            r.deep_view() == self.spec_single_variants(),
    ;
}

/// The presence vector of the file attribute family: which atomic file
/// attributes a combined value holds.
#[derive(Debug, Clone, Copy, PartialEq, Eq, Structural)]
pub struct FileAttributeSet {
    pub read_only: bool,
    pub archive: bool,
    pub system: bool,
    pub hidden: bool,
    pub compressed: bool,
    pub not_content_indexed: bool,
    pub encrypted: bool,
    pub temporary: bool,
}

impl FileAttributeSet {
    /// The set with no attribute present.
    pub open spec fn spec_empty() -> FileAttributeSet {
        FileAttributeSet {
            read_only: false,
            archive: false,
            system: false,
            hidden: false,
            compressed: false,
            not_content_indexed: false,
            encrypted: false,
            temporary: false,
        }
    }

    /// The set with every attribute present.
    pub open spec fn spec_full() -> FileAttributeSet {
        FileAttributeSet {
            read_only: true,
            archive: true,
            system: true,
            hidden: true,
            compressed: true,
            not_content_indexed: true,
            encrypted: true,
            temporary: true,
        }
    }

    /// The union of two sets: an attribute is present when it is present in
    /// either operand.
    pub open spec fn union(self, other: FileAttributeSet) -> FileAttributeSet {
        FileAttributeSet {
            read_only: self.read_only || other.read_only,
            archive: self.archive || other.archive,
            system: self.system || other.system,
            hidden: self.hidden || other.hidden,
            compressed: self.compressed || other.compressed,
            not_content_indexed: self.not_content_indexed || other.not_content_indexed,
            encrypted: self.encrypted || other.encrypted,
            temporary: self.temporary || other.temporary,
        }
    }

    /// The canonical letters of the present attributes, in declaration order.
    pub open spec fn letters(self) -> Seq<char> {
        let r = Seq::<char>::empty();
        let r = if self.read_only { r + "R"@ } else { r };
        let r = if self.archive { r + "A"@ } else { r };
        let r = if self.system { r + "S"@ } else { r };
        let r = if self.hidden { r + "H"@ } else { r };
        let r = if self.compressed { r + "C"@ } else { r };
        let r = if self.not_content_indexed { r + "N"@ } else { r };
        let r = if self.encrypted { r + "E"@ } else { r };
        let r = if self.temporary { r + "T"@ } else { r };
        r
    }
}

/// The file attribute family.
///
/// A value is either one atomic attribute or a combined set of them. The
/// family serializes to a run of letters in declaration order, which other
/// options embed in their own tokens.
#[allow(non_camel_case_types)]
#[derive(Debug, Clone, Copy, PartialEq, Eq, Structural)]
pub enum FileAttributes {
    READ_ONLY,
    ARCHIVE,
    SYSTEM,
    HIDDEN,
    COMPRESSED,
    NOT_CONTENT_INDEXED,
    ENCRYPTED,
    TEMPORARY,
    _MULTIPLE(FileAttributeSet),
}

impl DeepView for FileAttributes {
    type V = FileAttributes;

    open spec fn deep_view(&self) -> FileAttributes {
        *self
    }
}

impl FileAttributes {
    /// The presence vector this value stands for.
    pub open spec fn as_set(self) -> FileAttributeSet {
        match self {
            FileAttributes::READ_ONLY => FileAttributeSet {
                read_only: true,
                ..FileAttributeSet::spec_empty()
            },
            FileAttributes::ARCHIVE => FileAttributeSet {
                archive: true,
                ..FileAttributeSet::spec_empty()
            },
            FileAttributes::SYSTEM => FileAttributeSet {
                system: true,
                ..FileAttributeSet::spec_empty()
            },
            FileAttributes::HIDDEN => FileAttributeSet {
                hidden: true,
                ..FileAttributeSet::spec_empty()
            },
            FileAttributes::COMPRESSED => FileAttributeSet {
                compressed: true,
                ..FileAttributeSet::spec_empty()
            },
            FileAttributes::NOT_CONTENT_INDEXED => FileAttributeSet {
                not_content_indexed: true,
                ..FileAttributeSet::spec_empty()
            },
            FileAttributes::ENCRYPTED => FileAttributeSet {
                encrypted: true,
                ..FileAttributeSet::spec_empty()
            },
            FileAttributes::TEMPORARY => FileAttributeSet {
                temporary: true,
                ..FileAttributeSet::spec_empty()
            },
            FileAttributes::_MULTIPLE(s) => s,
        }
    }

    /// What combining two values yields: the combined variant holding the
    /// union of both presence vectors.
    pub open spec fn spec_combine(a: FileAttributes, b: FileAttributes) -> FileAttributes {
        FileAttributes::_MULTIPLE(a.as_set().union(b.as_set()))
    }

    /// The atomic values present in a set, in declaration order.
    pub open spec fn set_variants(s: FileAttributeSet) -> Seq<FileAttributes> {
        let r = Seq::<FileAttributes>::empty();
        let r = if s.read_only { r.push(FileAttributes::READ_ONLY) } else { r };
        let r = if s.archive { r.push(FileAttributes::ARCHIVE) } else { r };
        let r = if s.system { r.push(FileAttributes::SYSTEM) } else { r };
        let r = if s.hidden { r.push(FileAttributes::HIDDEN) } else { r };
        let r = if s.compressed { r.push(FileAttributes::COMPRESSED) } else { r };
        let r = if s.not_content_indexed { r.push(FileAttributes::NOT_CONTENT_INDEXED) } else { r };
        let r = if s.encrypted { r.push(FileAttributes::ENCRYPTED) } else { r };
        let r = if s.temporary { r.push(FileAttributes::TEMPORARY) } else { r };
        r
    }

    /// The presence vector this value stands for.
    fn to_set(self) -> (r: FileAttributeSet)
        ensures
            r == self.as_set(),
    {
        let none = FileAttributeSet {
            read_only: false,
            archive: false,
            system: false,
            hidden: false,
            compressed: false,
            not_content_indexed: false,
            encrypted: false,
            temporary: false,
        };
        match self {
            FileAttributes::READ_ONLY => FileAttributeSet { read_only: true, ..none },
            FileAttributes::ARCHIVE => FileAttributeSet { archive: true, ..none },
            FileAttributes::SYSTEM => FileAttributeSet { system: true, ..none },
            FileAttributes::HIDDEN => FileAttributeSet { hidden: true, ..none },
            FileAttributes::COMPRESSED => FileAttributeSet { compressed: true, ..none },
            FileAttributes::NOT_CONTENT_INDEXED => FileAttributeSet {
                not_content_indexed: true,
                ..none
            },
            FileAttributes::ENCRYPTED => FileAttributeSet { encrypted: true, ..none },
            FileAttributes::TEMPORARY => FileAttributeSet { temporary: true, ..none },
            FileAttributes::_MULTIPLE(s) => s,
        }
    }

    /// Combines two values into the union of their attributes.
    pub fn combine(self, rhs: FileAttributes) -> (r: FileAttributes)
        ensures
            r == FileAttributes::spec_combine(self, rhs),
    {
        let a = self.to_set();
        let b = rhs.to_set();
        FileAttributes::_MULTIPLE(
            FileAttributeSet {
                read_only: a.read_only || b.read_only,
                archive: a.archive || b.archive,
                system: a.system || b.system,
                hidden: a.hidden || b.hidden,
                compressed: a.compressed || b.compressed,
                not_content_indexed: a.not_content_indexed || b.not_content_indexed,
                encrypted: a.encrypted || b.encrypted,
                temporary: a.temporary || b.temporary,
            },
        )
    }

    /// Renders the canonical letter run for this value, as other options
    /// embed it in their tokens.
    pub fn to_letters(&self) -> (r: String)
        ensures
            r@ == self.as_set().letters(),
    {
        let s = self.to_set();
        let mut r = String::new();
        if s.read_only {
            r.append("R");
        }
        if s.archive {
            r.append("A");
        }
        if s.system {
            r.append("S");
        }
        if s.hidden {
            r.append("H");
        }
        if s.compressed {
            r.append("C");
        }
        if s.not_content_indexed {
            r.append("N");
        }
        if s.encrypted {
            r.append("E");
        }
        if s.temporary {
            r.append("T");
        }
        r
    }

    /// Returns a variant containing all available file attributes.
    pub fn all() -> (r: FileAttributes)
        ensures
            r == FileAttributes::_MULTIPLE(FileAttributeSet::spec_full()),
    {
        FileAttributes::_MULTIPLE(
            FileAttributeSet {
                read_only: true,
                archive: true,
                system: true,
                hidden: true,
                compressed: true,
                not_content_indexed: true,
                encrypted: true,
                temporary: true,
            },
        )
    }

    /// Returns a variant containing no file attributes.
    pub fn none() -> (r: FileAttributes)
        ensures
            r == FileAttributes::_MULTIPLE(FileAttributeSet::spec_empty()),
    {
        FileAttributes::_MULTIPLE(
            FileAttributeSet {
                read_only: false,
                archive: false,
                system: false,
                hidden: false,
                compressed: false,
                not_content_indexed: false,
                encrypted: false,
                temporary: false,
            },
        )
    }
}

/// Builds the atomic values present in a set, in declaration order.
fn set_variants_vec(s: FileAttributeSet) -> (r: Vec<FileAttributes>)
    ensures
        r@ == FileAttributes::set_variants(s),
{
    let mut r: Vec<FileAttributes> = Vec::new();
    if s.read_only {
        r.push(FileAttributes::READ_ONLY);
    }
    if s.archive {
        r.push(FileAttributes::ARCHIVE);
    }
    if s.system {
        r.push(FileAttributes::SYSTEM);
    }
    if s.hidden {
        r.push(FileAttributes::HIDDEN);
    }
    if s.compressed {
        r.push(FileAttributes::COMPRESSED);
    }
    if s.not_content_indexed {
        r.push(FileAttributes::NOT_CONTENT_INDEXED);
    }
    if s.encrypted {
        r.push(FileAttributes::ENCRYPTED);
    }
    if s.temporary {
        r.push(FileAttributes::TEMPORARY);
    }
    r
}

impl MultipleVariant for FileAttributes {
    open spec fn spec_single_variants(&self) -> Seq<FileAttributes> {
        match *self {
            FileAttributes::_MULTIPLE(s) => FileAttributes::set_variants(s),
            v => seq![v],
        }
    }

    fn single_variants(&self) -> (r: Vec<FileAttributes>) {
        match *self {
            FileAttributes::_MULTIPLE(s) => {
                let r = set_variants_vec(s);
                proof {
                    assert(r.deep_view() =~= r@);
                }
                r
            },
            v => {
                let mut r: Vec<FileAttributes> = Vec::new();
                r.push(v);
                proof {
                    assert(r@ =~= seq![v]);
                    assert(r.deep_view() =~= r@);
                }
                r
            },
        }
    }
}

/// Combining file attributes is commutative: both orders yield the combined
/// variant holding the same union of presence vectors.
pub proof fn lemma_file_attributes_combine_commutative(a: FileAttributes, b: FileAttributes)
    ensures
        FileAttributes::spec_combine(a, b) == FileAttributes::spec_combine(b, a),
{
}

/// Combining file attributes is associative.
pub proof fn lemma_file_attributes_combine_associative(
    a: FileAttributes,
    b: FileAttributes,
    c: FileAttributes,
)
    ensures
        FileAttributes::spec_combine(FileAttributes::spec_combine(a, b), c)
            == FileAttributes::spec_combine(a, FileAttributes::spec_combine(b, c)),
{
}

/// Combining an atomic file attribute with itself and decomposing yields
/// that single attribute exactly once.
pub proof fn lemma_file_attributes_combine_idempotent(a: FileAttributes)
    requires
        !(a is _MULTIPLE),
    ensures
        FileAttributes::spec_combine(a, a).spec_single_variants() == seq![a],
{
    assert(FileAttributes::spec_combine(a, a).spec_single_variants() =~= seq![a]);
}

/// Serialization and decomposition are functions of the presence vector
/// alone: two values standing for the same set produce the same letter run
/// and the same decomposition, however they were combined.
pub proof fn lemma_file_attributes_canonical(a: FileAttributes, b: FileAttributes)
    requires
        a.as_set() == b.as_set(),
    ensures
        a.as_set().letters() == b.as_set().letters(),
        a.spec_single_variants() == b.spec_single_variants(),
{
    assert(a.spec_single_variants() =~= FileAttributes::set_variants(a.as_set()));
    assert(b.spec_single_variants() =~= FileAttributes::set_variants(b.as_set()));
}

/// Combining all atomic file attributes yields the same decomposition as
/// the `all` constructor: each of the eight atomic attributes exactly once,
/// in declaration order.
pub proof fn lemma_file_attributes_all_round_trip()
    ensures
        FileAttributes::spec_combine(
            FileAttributes::spec_combine(
                FileAttributes::spec_combine(
                    FileAttributes::spec_combine(
                        FileAttributes::spec_combine(
                            FileAttributes::spec_combine(
                                FileAttributes::spec_combine(
                                    FileAttributes::READ_ONLY,
                                    FileAttributes::ARCHIVE,
                                ),
                                FileAttributes::SYSTEM,
                            ),
                            FileAttributes::HIDDEN,
                        ),
                        FileAttributes::COMPRESSED,
                    ),
                    FileAttributes::NOT_CONTENT_INDEXED,
                ),
                FileAttributes::ENCRYPTED,
            ),
            FileAttributes::TEMPORARY,
        ) == FileAttributes::_MULTIPLE(FileAttributeSet::spec_full()),
        FileAttributes::_MULTIPLE(FileAttributeSet::spec_full()).spec_single_variants() == seq![
            FileAttributes::READ_ONLY,
            FileAttributes::ARCHIVE,
            FileAttributes::SYSTEM,
            FileAttributes::HIDDEN,
            FileAttributes::COMPRESSED,
            FileAttributes::NOT_CONTENT_INDEXED,
            FileAttributes::ENCRYPTED,
            FileAttributes::TEMPORARY,
        ],
{
    assert(FileAttributes::_MULTIPLE(FileAttributeSet::spec_full()).spec_single_variants() =~= seq![
        FileAttributes::READ_ONLY,
        FileAttributes::ARCHIVE,
        FileAttributes::SYSTEM,
        FileAttributes::HIDDEN,
        FileAttributes::COMPRESSED,
        FileAttributes::NOT_CONTENT_INDEXED,
        FileAttributes::ENCRYPTED,
        FileAttributes::TEMPORARY,
    ]);
}

/// Copy strategies, one token each.
#[allow(non_camel_case_types)]
#[derive(Debug, Clone, Copy, PartialEq, Eq, Structural)]
pub enum CopyMode {
    /// Restartable mode: an interrupted file copy can resume where it
    /// stopped. Corresponds to the `/z` option.
    RESTARTABLE_MODE,
    /// Backup mode: access-control settings that would block access are
    /// overridden. Corresponds to the `/b` option.
    BACKUP_MODE,
    /// Restartable mode, falling back to backup mode when access is denied.
    /// Corresponds to the `/zb` option.
    RESTARTABLE_MODE_BACKUP_MODE_FALLBACK,
}

impl CopyMode {
    /// The command token for this copy strategy.
    pub open spec fn spec_token(self) -> Seq<char> {
        match self {
            CopyMode::RESTARTABLE_MODE => "/z"@,
            CopyMode::BACKUP_MODE => "/b"@,
            CopyMode::RESTARTABLE_MODE_BACKUP_MODE_FALLBACK => "/zb"@,
        }
    }

    /// Renders the token for this copy strategy.
    pub fn to_token(&self) -> (r: String)
        ensures
            r@ == self.spec_token(),
    {
        match self {
            CopyMode::RESTARTABLE_MODE => String::from_str("/z"),
            CopyMode::BACKUP_MODE => String::from_str("/b"),
            CopyMode::RESTARTABLE_MODE_BACKUP_MODE_FALLBACK => String::from_str("/zb"),
        }
    }
}

/// Move strategies: delete sources after they are copied.
#[allow(non_camel_case_types)]
#[derive(Debug, Clone, Copy, PartialEq, Eq, Structural)]
pub enum Move {
    /// Moves files only. Corresponds to the `/mov` option.
    FILES,
    /// Moves files and directories. Corresponds to the `/move` option.
    FILES_AND_DIRS,
}

impl Move {
    /// The command token for this move strategy.
    pub open spec fn spec_token(self) -> Seq<char> {
        match self {
            Move::FILES => "/mov"@,
            Move::FILES_AND_DIRS => "/move"@,
        }
    }

    /// Renders the token for this move strategy.
    pub fn to_token(&self) -> (r: String)
        ensures
            r@ == self.spec_token(),
    {
        match self {
            Move::FILES => String::from_str("/mov"),
            Move::FILES_AND_DIRS => String::from_str("/move"),
        }
    }
}

/// The union of two optional attribute sets: an absent operand contributes
/// nothing.
pub open spec fn union_opt_attrs(
    a: Option<FileAttributeSet>,
    b: Option<FileAttributeSet>,
) -> Option<FileAttributeSet> {
    match (a, b) {
        (Some(x), Some(y)) => Some(x.union(y)),
        (Some(x), None) => Some(x),
        (None, o) => o,
    }
}

/// The abstract value of a post-copy action: which attribute sets are added
/// to and removed from copied files. The combined variant's two halves are
/// kept apart; they never merge with each other.
#[derive(Debug, Clone, Copy, PartialEq, Eq, Structural)]
pub enum PostCopyModel {
    Add(FileAttributeSet),
    Rmv(FileAttributeSet),
    Both(FileAttributeSet, FileAttributeSet),
}

impl PostCopyModel {
    /// The attribute set this action adds, when it has an adding half.
    pub open spec fn add_half(self) -> Option<FileAttributeSet> {
        match self {
            PostCopyModel::Add(a) => Some(a),
            PostCopyModel::Rmv(_) => None,
            PostCopyModel::Both(a, _) => Some(a),
        }
    }

    /// The attribute set this action removes, when it has a removing half.
    pub open spec fn rmv_half(self) -> Option<FileAttributeSet> {
        match self {
            PostCopyModel::Add(_) => None,
            PostCopyModel::Rmv(r) => Some(r),
            PostCopyModel::Both(_, r) => Some(r),
        }
    }

    /// What combining two actions yields: each half is the union of the
    /// operands' halves. A value of the family always has at least one
    /// half, so the result does too; the final arm is never taken for
    /// values of the family.
    pub open spec fn combine(a: PostCopyModel, b: PostCopyModel) -> PostCopyModel {
        match (
            union_opt_attrs(a.add_half(), b.add_half()),
            union_opt_attrs(a.rmv_half(), b.rmv_half()),
        ) {
            (Some(x), Some(y)) => PostCopyModel::Both(x, y),
            (Some(x), None) => PostCopyModel::Add(x),
            (None, Some(y)) => PostCopyModel::Rmv(y),
            (None, None) => PostCopyModel::Add(FileAttributeSet::spec_empty()),
        }
    }

    /// The atomic components of an action: the adding half, then the
    /// removing half.
    pub open spec fn components(self) -> Seq<PostCopyModel> {
        match self {
            PostCopyModel::Both(x, y) => seq![PostCopyModel::Add(x), PostCopyModel::Rmv(y)],
            m => seq![m],
        }
    }

    /// The tokens an action serializes to: the adding half first.
    pub open spec fn tokens(self) -> Seq<Seq<char>> {
        match self {
            PostCopyModel::Add(x) => seq!["/a+:"@ + x.letters()],
            PostCopyModel::Rmv(y) => seq!["/a-:"@ + y.letters()],
            PostCopyModel::Both(x, y) => seq![
                "/a+:"@ + x.letters(),
                "/a-:"@ + y.letters(),
            ],
        }
    }
}

/// What attributes to add to or remove from copied files.
#[derive(Debug, Clone, Copy, PartialEq, Eq, Structural)]
pub enum PostCopyActions {
    /// Adds the specified attributes to copied files.
    /// Corresponds to the `/a+` option.
    AddAttribsToFiles(FileAttributes),
    /// Removes the specified attributes from copied files.
    /// Corresponds to the `/a-` option.
    RmvAttribsFromFiles(FileAttributes),
    _MULTIPLE(FileAttributes, FileAttributes),
}

impl DeepView for PostCopyActions {
    type V = PostCopyModel;

    open spec fn deep_view(&self) -> PostCopyModel {
        match *self {
            PostCopyActions::AddAttribsToFiles(a) => PostCopyModel::Add(a.as_set()),
            PostCopyActions::RmvAttribsFromFiles(r) => PostCopyModel::Rmv(r.as_set()),
            PostCopyActions::_MULTIPLE(a, r) => PostCopyModel::Both(a.as_set(), r.as_set()),
        }
    }
}

impl PostCopyActions {
    /// Combines two actions into one that adds the union of what both add
    /// and removes the union of what both remove.
    ///
    /// Combining an adding half and a removing half that are both the
    /// explicit no-attributes value is a caller error, so that input is
    /// excluded here rather than serialized as a meaningless pair of tokens.
    pub fn combine(self, rhs: PostCopyActions) -> (r: PostCopyActions)
        requires
            PostCopyModel::combine(self.deep_view(), rhs.deep_view()) != PostCopyModel::Both(
                FileAttributeSet::spec_empty(),
                FileAttributeSet::spec_empty(),
            ),
        ensures
            r.deep_view() == PostCopyModel::combine(self.deep_view(), rhs.deep_view()),
    {
        let (add_a, rmv_a): (Option<FileAttributes>, Option<FileAttributes>) = match self {
            PostCopyActions::_MULTIPLE(x, y) => (Some(x), Some(y)),
            PostCopyActions::AddAttribsToFiles(x) => (Some(x), None),
            PostCopyActions::RmvAttribsFromFiles(y) => (None, Some(y)),
        };
        let (add_b, rmv_b): (Option<FileAttributes>, Option<FileAttributes>) = match rhs {
            PostCopyActions::_MULTIPLE(x, y) => (Some(x), Some(y)),
            PostCopyActions::AddAttribsToFiles(x) => (Some(x), None),
            PostCopyActions::RmvAttribsFromFiles(y) => (None, Some(y)),
        };
        let add: Option<FileAttributes> = match (add_a, add_b) {
            (Some(x), Some(y)) => Some(x.combine(y)),
            (Some(x), None) => Some(x),
            (None, o) => o,
        };
        let rmv: Option<FileAttributes> = match (rmv_a, rmv_b) {
            (Some(x), Some(y)) => Some(x.combine(y)),
            (Some(x), None) => Some(x),
            (None, o) => o,
        };
        match (add, rmv) {
            (Some(x), Some(y)) => PostCopyActions::_MULTIPLE(x, y),
            (Some(x), None) => PostCopyActions::AddAttribsToFiles(x),
            (None, Some(y)) => PostCopyActions::RmvAttribsFromFiles(y),
            (None, None) => vstd::pervasive::unreached(),
        }
    }

    /// Renders the tokens for this action: the adding half first.
    pub fn to_tokens(&self) -> (r: Vec<String>)
        ensures
            r.deep_view() == self.deep_view().tokens(),
    {
        let mut r: Vec<String> = Vec::new();
        match self {
            PostCopyActions::AddAttribsToFiles(a) => {
                r.push(String::from_str("/a+:").concat(a.to_letters().as_str()));
            },
            PostCopyActions::RmvAttribsFromFiles(y) => {
                r.push(String::from_str("/a-:").concat(y.to_letters().as_str()));
            },
            PostCopyActions::_MULTIPLE(a, y) => {
                r.push(String::from_str("/a+:").concat(a.to_letters().as_str()));
                r.push(String::from_str("/a-:").concat(y.to_letters().as_str()));
            },
        }
        proof {
            assert(r.deep_view() =~= self.deep_view().tokens());
        }
        r
    }
}

impl MultipleVariant for PostCopyActions {
    open spec fn spec_single_variants(&self) -> Seq<PostCopyModel> {
        self.deep_view().components()
    }

    fn single_variants(&self) -> (r: Vec<PostCopyActions>) {
        match *self {
            PostCopyActions::_MULTIPLE(a, y) => {
                let mut r: Vec<PostCopyActions> = Vec::new();
                r.push(PostCopyActions::AddAttribsToFiles(a));
                r.push(PostCopyActions::RmvAttribsFromFiles(y));
                proof {
                    assert(r.deep_view() =~= self.deep_view().components());
                }
                r
            },
            v => {
                let mut r: Vec<PostCopyActions> = Vec::new();
                r.push(v);
                proof {
                    assert(r.deep_view() =~= self.deep_view().components());
                }
                r
            },
        }
    }
}

/// Combining post-copy actions is commutative.
pub proof fn lemma_post_copy_combine_commutative(a: PostCopyModel, b: PostCopyModel)
    ensures
        PostCopyModel::combine(a, b) == PostCopyModel::combine(b, a),
{
}

/// Combining post-copy actions is associative.
#[verifier::rlimit(100)]
pub proof fn lemma_post_copy_combine_associative(
    a: PostCopyModel,
    b: PostCopyModel,
    c: PostCopyModel,
)
    ensures
        PostCopyModel::combine(PostCopyModel::combine(a, b), c) == PostCopyModel::combine(
            a,
            PostCopyModel::combine(b, c),
        ),
{
    let ab = PostCopyModel::combine(a, b);
    let bc = PostCopyModel::combine(b, c);
    assert(ab.add_half() == union_opt_attrs(a.add_half(), b.add_half()));
    assert(ab.rmv_half() == union_opt_attrs(a.rmv_half(), b.rmv_half()));
    assert(bc.add_half() == union_opt_attrs(b.add_half(), c.add_half()));
    assert(bc.rmv_half() == union_opt_attrs(b.rmv_half(), c.rmv_half()));
    assert(union_opt_attrs(ab.add_half(), c.add_half())
        == union_opt_attrs(a.add_half(), bc.add_half()));
    assert(union_opt_attrs(ab.rmv_half(), c.rmv_half())
        == union_opt_attrs(a.rmv_half(), bc.rmv_half()));
}

/// Combining an atomic action with itself and decomposing yields that
/// single action exactly once.
pub proof fn lemma_post_copy_combine_idempotent(a: PostCopyModel)
    requires
        !(a is Both),
    ensures
        PostCopyModel::combine(a, a).components() == seq![a],
{
    assert(PostCopyModel::combine(a, a).components() =~= seq![a]);
}

/// The presence vector of the filesystem option family.
#[derive(Debug, Clone, Copy, PartialEq, Eq, Structural)]
pub struct FilesystemOptionSet {
    pub fat_file_names: bool,
    pub assume_fat_file_times: bool,
    pub disable_long_paths: bool,
}

/// Filesystem options, each serialized to one token.
#[allow(non_camel_case_types)]
#[derive(Debug, Clone, Copy, PartialEq, Eq, Structural)]
pub enum FilesystemOptions {
    /// Creates destination files using short FAT file names only.
    /// Corresponds to the `/fat` option.
    FAT_FILE_NAMES,
    /// Assumes FAT file times (two-second precision).
    /// Corresponds to the `/fft` option.
    ASSUME_FAT_FILE_TIMES,
    /// Turns off support for paths longer than 256 characters.
    /// Corresponds to the `/256` option.
    DISABLE_LONG_PATHS,
    _MULTIPLE(FilesystemOptionSet),
}

impl FilesystemOptions {
    /// The presence vector this value stands for.
    pub open spec fn as_set(self) -> FilesystemOptionSet {
        match self {
            FilesystemOptions::FAT_FILE_NAMES => FilesystemOptionSet {
                fat_file_names: true,
                assume_fat_file_times: false,
                disable_long_paths: false,
            },
            FilesystemOptions::ASSUME_FAT_FILE_TIMES => FilesystemOptionSet {
                fat_file_names: false,
                assume_fat_file_times: true,
                disable_long_paths: false,
            },
            FilesystemOptions::DISABLE_LONG_PATHS => FilesystemOptionSet {
                fat_file_names: false,
                assume_fat_file_times: false,
                disable_long_paths: true,
            },
            FilesystemOptions::_MULTIPLE(s) => s,
        }
    }

    /// The tokens this value serializes to, in declaration order.
    pub open spec fn spec_tokens(self) -> Seq<Seq<char>> {
        let s = self.as_set();
        let r = Seq::<Seq<char>>::empty();
        let r = if s.fat_file_names { r.push("/fat"@) } else { r };
        let r = if s.assume_fat_file_times { r.push("/fft"@) } else { r };
        let r = if s.disable_long_paths { r.push("/256"@) } else { r };
        r
    }

    /// The presence vector this value stands for.
    fn to_set(self) -> (r: FilesystemOptionSet)
        ensures
            r == self.as_set(),
    {
        match self {
            FilesystemOptions::FAT_FILE_NAMES => FilesystemOptionSet {
                fat_file_names: true,
                assume_fat_file_times: false,
                disable_long_paths: false,
            },
            FilesystemOptions::ASSUME_FAT_FILE_TIMES => FilesystemOptionSet {
                fat_file_names: false,
                assume_fat_file_times: true,
                disable_long_paths: false,
            },
            FilesystemOptions::DISABLE_LONG_PATHS => FilesystemOptionSet {
                fat_file_names: false,
                assume_fat_file_times: false,
                disable_long_paths: true,
            },
            FilesystemOptions::_MULTIPLE(s) => s,
        }
    }

    /// Renders the tokens for this value, in declaration order.
    pub fn to_tokens(&self) -> (r: Vec<String>)
        ensures
            r.deep_view() == self.spec_tokens(),
    {
        let s = self.to_set();
        let mut r: Vec<String> = Vec::new();
        if s.fat_file_names {
            r.push(String::from_str("/fat"));
        }
        if s.assume_fat_file_times {
            r.push(String::from_str("/fft"));
        }
        if s.disable_long_paths {
            r.push(String::from_str("/256"));
        }
        proof {
            assert(r.deep_view() =~= self.spec_tokens());
        }
        r
    }
}

/// Declares the standard library's I/O error type so that it can stand in
/// signatures and fields. The library only stores such a value and hands it
/// back; it never inspects one.
#[verifier::external_type_specification]
#[verifier::external_body]
pub struct ExIoError(std::io::Error);

/// An error that can occur during command execution.
#[derive(Debug)]
pub enum Error {
    /// The tool ran and its exit status includes a failure condition.
    ExitCode(ErrExitCode),
    /// The child process could not be spawned.
    IoError(std::io::Error),
}

impl From<ErrExitCode> for Error {
    fn from(error: ErrExitCode) -> (r: Error) {
        Error::ExitCode(error)
    }
}

impl vstd::std_specs::convert::FromSpecImpl<ErrExitCode> for Error {
    open spec fn obeys_from_spec() -> bool {
        true
    }

    open spec fn from_spec(t: ErrExitCode) -> Error {
        Error::ExitCode(t)
    }
}

/// The tokens of the recursion and mirror block. When empty-directory
/// copying, removal of entries missing from the source, and overwriting of
/// destination security settings are all requested at once, the dedicated
/// mirror flag is emitted together with the empty-directory flag; otherwise
/// the empty-directory flag (or, without it, the plain recursion flag) is
/// emitted, and the purge flag independently of it.
pub open spec fn spec_recursion_tokens(
    empty_dir_copy: bool,
    remove_not_in_src: bool,
    overwrite_security: bool,
) -> Seq<Seq<char>> {
    if empty_dir_copy && remove_not_in_src && overwrite_security {
        seq!["/mir"@, "/e"@]
    } else {
        let r = if empty_dir_copy { seq!["/e"@] } else { seq!["/s"@] };
        let r = if remove_not_in_src { r.push("/purge"@) } else { r };
        r
    }
}

/// The command builder: one record holding the whole description of a copy
/// operation, consumed by [`RobocopyCommandBuilder::build`].
#[derive(Debug, Clone)]
pub struct RobocopyCommandBuilder {
    /// The source path.
    pub source: String,
    /// The destination path.
    pub destination: String,
    /// The file or files to be copied; wildcards are supported.
    pub files: Vec<String>,
    /// The copy strategy.
    pub copy_mode: Option<CopyMode>,
    /// Copies using unbuffered input and output, recommended for large
    /// files. Corresponds to the `/j` option.
    pub unbuffered: bool,
    /// Copies subdirectories including empty ones. Corresponds to the `/e`
    /// option.
    pub empty_dir_copy: bool,
    /// Deletes destination files and directories that no longer exist in
    /// the source. Corresponds to the `/purge` option.
    pub remove_files_and_dirs_not_in_src: bool,
    /// Copies only the top levels of the source tree, to the given depth.
    /// Corresponds to the `/lev` option.
    pub only_copy_top_n_levels: Option<usize>,
    /// Creates the directory tree and zero-length files only. Corresponds
    /// to the `/create` option.
    pub structure_and_size_zero_files_only: bool,
    /// Which file properties to copy. Corresponds to the `/copy` option.
    pub copy_file_properties: Option<FileProperties>,
    /// What to copy in directories. Corresponds to the `/dcopy` option.
    pub copy_dir_properties: Option<DirectoryProperties>,
    /// The filter options.
    pub filter: Option<Filter>,
    /// The filesystem options.
    pub filesystem_options: Option<FilesystemOptions>,
    /// The performance options.
    pub performance_options: Option<PerformanceOptions>,
    /// The retry options.
    pub retry_settings: Option<RetrySettings>,
    /// The logging options.
    pub logging: Option<LoggingOptions>,
    /// Moves files or directories instead of copying.
    pub mv: Option<Move>,
    /// What attributes to add to or remove from copied files.
    pub post_copy_actions: Option<PostCopyActions>,
    /// Overwrites the destination directory's security settings when
    /// mirroring; it takes effect only together with empty-directory
    /// copying and removal of entries missing from the source.
    pub overwrite_destination_dir_sec_settings_when_mirror: bool,
}

impl RobocopyCommandBuilder {
    /// The leading tokens: the two paths, the file patterns in given
    /// order, the copy-mode token, and the unbuffered toggle.
    pub open spec fn head_tokens(self) -> Seq<Seq<char>> {
        let r = seq![self.source@, self.destination@] + self.files.deep_view();
        let r = match self.copy_mode {
            Some(m) => r.push(m.spec_token()),
            None => r,
        };
        let r = if self.unbuffered { r.push("/j"@) } else { r };
        r
    }

    /// The depth, structure and property tokens.
    pub open spec fn shape_tokens(self) -> Seq<Seq<char>> {
        let r = Seq::<Seq<char>>::empty();
        let r = match self.only_copy_top_n_levels {
            Some(n) => r.push("/lev:"@ + spec_decimal(n as nat)),
            None => r,
        };
        let r = if self.structure_and_size_zero_files_only { r.push("/create"@) } else { r };
        let r = match self.copy_file_properties {
            Some(p) => r.push(p.spec_token()),
            None => r,
        };
        let r = match self.copy_dir_properties {
            Some(p) => r.push(p.spec_token()),
            None => r,
        };
        r
    }

    /// The filter, filesystem, performance and retry tokens.
    pub open spec fn option_tokens(self) -> Seq<Seq<char>> {
        let r = Seq::<Seq<char>>::empty();
        let r = match self.filter {
            Some(f) => r + f.spec_tokens(),
            None => r,
        };
        let r = match self.filesystem_options {
            Some(o) => r + o.spec_tokens(),
            None => r,
        };
        let r = match self.performance_options {
            Some(o) => r + o.spec_tokens(),
            None => r,
        };
        let r = match self.retry_settings {
            Some(s) => r + s.spec_tokens(),
            None => r,
        };
        r
    }

    /// The logging, move and post-copy-action tokens.
    pub open spec fn tail_tokens(self) -> Seq<Seq<char>> {
        let r = Seq::<Seq<char>>::empty();
        let r = match self.logging {
            Some(l) => r + l.spec_tokens(),
            None => r,
        };
        let r = match self.mv {
            Some(m) => r.push(m.spec_token()),
            None => r,
        };
        let r = match self.post_copy_actions {
            Some(p) => r + p.deep_view().tokens(),
            None => r,
        };
        r
    }

    /// The complete token sequence of the command, in the fixed precedence
    /// order: paths and patterns, copy mode and buffering, the recursion
    /// and mirror block, depth and properties, the option groups, and the
    /// logging, move and post-copy tail.
    pub open spec fn spec_build(self) -> Seq<Seq<char>> {
        self.head_tokens() + spec_recursion_tokens(
            self.empty_dir_copy,
            self.remove_files_and_dirs_not_in_src,
            self.overwrite_destination_dir_sec_settings_when_mirror,
        ) + self.shape_tokens() + self.option_tokens() + self.tail_tokens()
    }

    /// Appends the leading tokens.
    #[verifier::rlimit(100)]
    fn push_head_tokens(&self, r: &mut Vec<String>)
        ensures
            final(r).deep_view() == old(r).deep_view() + self.head_tokens(),
    {
        let ghost g0 = r.deep_view();
        r.push(self.source.clone());
        r.push(self.destination.clone());
        proof {
            assert(r.deep_view() =~= g0 + seq![self.source@, self.destination@]);
        }
        crate::filter::push_patterns(r, &self.files);
        let ghost g2 = r.deep_view();
        proof {
            assert(g2 =~= g0 + (seq![self.source@, self.destination@] + self.files.deep_view()));
        }
        if let Some(m) = &self.copy_mode {
            r.push(m.to_token());
        }
        let ghost g3 = r.deep_view();
        proof {
            assert(g3 =~= (match self.copy_mode {
                Some(m) => g2.push(m.spec_token()),
                None => g2,
            }));
        }
        if self.unbuffered {
            r.push(String::from_str("/j"));
        }
        proof {
            assert(r.deep_view() =~= (if self.unbuffered {
                g3.push("/j"@)
            } else {
                g3
            }));
            assert(r.deep_view() =~= g0 + self.head_tokens());
        }
    }

    /// Appends the recursion and mirror block.
    fn push_recursion_tokens(&self, r: &mut Vec<String>)
        ensures
            final(r).deep_view() == old(r).deep_view() + spec_recursion_tokens(
                self.empty_dir_copy,
                self.remove_files_and_dirs_not_in_src,
                self.overwrite_destination_dir_sec_settings_when_mirror,
            ),
    {
        let ghost g0 = r.deep_view();
        if self.empty_dir_copy && self.remove_files_and_dirs_not_in_src
            && self.overwrite_destination_dir_sec_settings_when_mirror {
            r.push(String::from_str("/mir"));
            r.push(String::from_str("/e"));
        } else {
            if self.empty_dir_copy {
                r.push(String::from_str("/e"));
            } else {
                r.push(String::from_str("/s"));
            }
            if self.remove_files_and_dirs_not_in_src {
                r.push(String::from_str("/purge"));
            }
        }
        proof {
            assert(r.deep_view() =~= g0 + spec_recursion_tokens(
                self.empty_dir_copy,
                self.remove_files_and_dirs_not_in_src,
                self.overwrite_destination_dir_sec_settings_when_mirror,
            ));
        }
    }

    /// Appends the depth, structure and property tokens.
    #[verifier::rlimit(100)]
    fn push_shape_tokens(&self, r: &mut Vec<String>)
        ensures
            final(r).deep_view() == old(r).deep_view() + self.shape_tokens(),
    {
        let ghost g0 = r.deep_view();
        if let Some(n) = self.only_copy_top_n_levels {
            let mut t = String::from_str("/lev:");
            push_decimal(&mut t, n as u128);
            r.push(t);
        }
        let ghost g1 = r.deep_view();
        proof {
            assert(g1 =~= (match self.only_copy_top_n_levels {
                Some(n) => g0.push("/lev:"@ + spec_decimal(n as nat)),
                None => g0,
            }));
        }
        if self.structure_and_size_zero_files_only {
            r.push(String::from_str("/create"));
        }
        let ghost g2 = r.deep_view();
        proof {
            assert(g2 =~= (if self.structure_and_size_zero_files_only {
                g1.push("/create"@)
            } else {
                g1
            }));
        }
        if let Some(p) = &self.copy_file_properties {
            r.push(p.to_token());
        }
        let ghost g3 = r.deep_view();
        proof {
            assert(g3 =~= (match self.copy_file_properties {
                Some(p) => g2.push(p.spec_token()),
                None => g2,
            }));
        }
        if let Some(p) = &self.copy_dir_properties {
            r.push(p.to_token());
        }
        proof {
            assert(r.deep_view() =~= (match self.copy_dir_properties {
                Some(p) => g3.push(p.spec_token()),
                None => g3,
            }));
            assert(r.deep_view() =~= g0 + self.shape_tokens());
        }
    }

    /// Appends the filter, filesystem, performance and retry tokens.
    #[verifier::rlimit(100)]
    fn push_option_tokens(&self, r: &mut Vec<String>)
        ensures
            final(r).deep_view() == old(r).deep_view() + self.option_tokens(),
    {
        let ghost g0 = r.deep_view();
        if let Some(f) = &self.filter {
            let mut t = f.to_tokens();
            r.append(&mut t);
        }
        let ghost g1 = r.deep_view();
        proof {
            assert(g1 =~= (match self.filter {
                Some(f) => g0 + f.spec_tokens(),
                None => g0,
            }));
        }
        if let Some(o) = &self.filesystem_options {
            let mut t = o.to_tokens();
            r.append(&mut t);
        }
        let ghost g2 = r.deep_view();
        proof {
            assert(g2 =~= (match self.filesystem_options {
                Some(o) => g1 + o.spec_tokens(),
                None => g1,
            }));
        }
        if let Some(o) = &self.performance_options {
            let mut t = o.to_tokens();
            r.append(&mut t);
        }
        let ghost g3 = r.deep_view();
        proof {
            assert(g3 =~= (match self.performance_options {
                Some(o) => g2 + o.spec_tokens(),
                None => g2,
            }));
        }
        if let Some(s) = &self.retry_settings {
            let mut t = s.to_tokens();
            r.append(&mut t);
        }
        proof {
            assert(r.deep_view() =~= (match self.retry_settings {
                Some(s) => g3 + s.spec_tokens(),
                None => g3,
            }));
            assert(r.deep_view() =~= g0 + self.option_tokens());
        }
    }

    /// Appends the logging, move and post-copy-action tokens.
    #[verifier::rlimit(100)]
    fn push_tail_tokens(&self, r: &mut Vec<String>)
        ensures
            final(r).deep_view() == old(r).deep_view() + self.tail_tokens(),
    {
        let ghost g0 = r.deep_view();
        if let Some(l) = &self.logging {
            let mut t = l.to_tokens();
            r.append(&mut t);
        }
        let ghost g1 = r.deep_view();
        proof {
            assert(g1 =~= (match self.logging {
                Some(l) => g0 + l.spec_tokens(),
                None => g0,
            }));
        }
        if let Some(m) = &self.mv {
            r.push(m.to_token());
        }
        let ghost g2 = r.deep_view();
        proof {
            assert(g2 =~= (match self.mv {
                Some(m) => g1.push(m.spec_token()),
                None => g1,
            }));
        }
        if let Some(p) = &self.post_copy_actions {
            let mut t = p.to_tokens();
            r.append(&mut t);
        }
        proof {
            assert(r.deep_view() =~= (match self.post_copy_actions {
                Some(p) => g2 + p.deep_view().tokens(),
                None => g2,
            }));
            assert(r.deep_view() =~= g0 + self.tail_tokens());
        }
    }

    /// Builds the complete, ordered token sequence of the command. The
    /// builder is never rejected: out-of-range values are clamped where
    /// they are serialized.
    pub fn build(&self) -> (r: Vec<String>)
        ensures
            r.deep_view() == self.spec_build(),
    {
        let mut r: Vec<String> = Vec::new();
        self.push_head_tokens(&mut r);
        self.push_recursion_tokens(&mut r);
        self.push_shape_tokens(&mut r);
        self.push_option_tokens(&mut r);
        self.push_tail_tokens(&mut r);
        proof {
            assert(r.deep_view() =~= self.spec_build());
        }
        r
    }
}

impl Default for RobocopyCommandBuilder {
    /// The builder with nothing set: both paths name the current
    /// directory.
    fn default() -> (r: RobocopyCommandBuilder)
        ensures
            r.source@ == "."@,
            r.destination@ == "."@,
            r.files@.len() == 0,
            r.copy_mode is None,
            !r.unbuffered,
            !r.empty_dir_copy,
            !r.remove_files_and_dirs_not_in_src,
            r.only_copy_top_n_levels is None,
            !r.structure_and_size_zero_files_only,
            r.copy_file_properties is None,
            r.copy_dir_properties is None,
            r.filter is None,
            r.filesystem_options is None,
            r.performance_options is None,
            r.retry_settings is None,
            r.logging is None,
            r.mv is None,
            r.post_copy_actions is None,
            !r.overwrite_destination_dir_sec_settings_when_mirror,
    {
        RobocopyCommandBuilder {
            source: String::from_str("."),
            destination: String::from_str("."),
            files: Vec::new(),
            copy_mode: None,
            unbuffered: false,
            empty_dir_copy: false,
            remove_files_and_dirs_not_in_src: false,
            only_copy_top_n_levels: None,
            structure_and_size_zero_files_only: false,
            copy_file_properties: None,
            copy_dir_properties: None,
            filter: None,
            filesystem_options: None,
            performance_options: None,
            retry_settings: None,
            logging: None,
            mv: None,
            post_copy_actions: None,
            overwrite_destination_dir_sec_settings_when_mirror: false,
        }
    }
}

/// When empty-directory copying, removal of entries missing from the
/// source, and overwriting of destination security settings are all
/// requested, the recursion block consists of the dedicated mirror flag
/// followed by the empty-directory flag, and holds neither a separate
/// purge flag nor the plain recursion flag.
pub proof fn lemma_recursion_tokens_mirror()
    ensures
        spec_recursion_tokens(true, true, true) == seq!["/mir"@, "/e"@],
        !spec_recursion_tokens(true, true, true).contains("/purge"@),
        !spec_recursion_tokens(true, true, true).contains("/s"@),
{
    reveal_strlit("/mir");
    reveal_strlit("/e");
    reveal_strlit("/purge");
    reveal_strlit("/s");
    let r = spec_recursion_tokens(true, true, true);
    assert(r =~= seq!["/mir"@, "/e"@]);
    assert("/mir"@.len() == 4);
    assert("/e"@.len() == 2);
    assert("/purge"@.len() == 6);
    assert("/s"@.len() == 2);
    assert("/e"@[1] != "/s"@[1]);
    assert forall|i: int| 0 <= i < r.len() implies r[i] != "/purge"@ && r[i] != "/s"@ by {
        assert(r[i] == "/mir"@ || r[i] == "/e"@);
    }
}

/// Without the full mirror combination, the block emits the plain
/// recursion flag (empty-directory copying being off) and then the purge
/// flag, in that order.
pub proof fn lemma_recursion_tokens_non_mirror()
    ensures
        spec_recursion_tokens(false, true, false) == seq!["/s"@, "/purge"@],
{
    assert(spec_recursion_tokens(false, true, false) =~= seq!["/s"@, "/purge"@]);
}

/// A builder with the full mirror combination assembles to a token
/// sequence that carries the mirror flag and the empty-directory flag.
pub proof fn lemma_build_mirror_tokens(b: RobocopyCommandBuilder)
    requires
        b.empty_dir_copy,
        b.remove_files_and_dirs_not_in_src,
        b.overwrite_destination_dir_sec_settings_when_mirror,
    ensures
        b.spec_build().contains("/mir"@),
        b.spec_build().contains("/e"@),
{
    let h = b.head_tokens();
    let m = spec_recursion_tokens(true, true, true);
    let n = h.len() as int;
    assert(b.spec_build()[n] == "/mir"@);
    assert(b.spec_build()[n + 1] == "/e"@);
}

} // verus!
