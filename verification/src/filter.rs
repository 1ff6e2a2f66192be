//! The filter families: which files and directories the copy passes over,
//! and which exceptions pierce those filters. All of them are gathered by
//! the [`Filter`] struct.

use vstd::prelude::*;
use crate::{FileAttributeSet, FileAttributes, MultipleVariant, union_opt_attrs};
use crate::numfmt::spec_decimal;
use crate::numfmt::push_decimal;
use vstd::seq_lib::lemma_multiset_commutative;

verus! {

/// Appends a copy of each pattern in `v` to `r`.
pub(crate) fn push_patterns(r: &mut Vec<String>, v: &Vec<String>)
    ensures
        final(r).deep_view() == old(r).deep_view() + v.deep_view(),
{
    let mut i: usize = 0;
    while i < v.len()
        invariant
            i <= v.len(),
            r.deep_view() =~= old(r).deep_view() + v.deep_view().subrange(0, i as int),
        decreases v.len() - i,
    {
        let ghost pre = r.deep_view();
        let c = v[i].clone();
        r.push(c);
        proof {
            assert(r.deep_view() =~= pre.push(v.deep_view()[i as int]));
            assert(v.deep_view().subrange(0, i as int + 1) =~= v.deep_view().subrange(
                0,
                i as int,
            ).push(v.deep_view()[i as int]));
            assert(r.deep_view() =~= old(r).deep_view() + v.deep_view().subrange(
                0,
                i as int + 1,
            ));
        }
        i = i + 1;
    }
    proof {
        assert(v.deep_view().subrange(0, v.len() as int) =~= v.deep_view());
    }
}

/// A fresh copy of a pattern list, character for character.
fn clone_patterns(v: &Vec<String>) -> (r: Vec<String>)
    ensures
        r.deep_view() == v.deep_view(),
{
    let mut r: Vec<String> = Vec::new();
    push_patterns(&mut r, v);
    proof {
        assert(r.deep_view() =~= v.deep_view());
    }
    r
}

/// The abstract value of a file exclusion filter: the variant shape with
/// attribute values abstracted to presence vectors and pattern lists to
/// sequences of character strings.
#[allow(non_camel_case_types)]
#[verifier::ext_equal]
pub enum FileExclusionModel {
    Attributes(FileAttributeSet),
    PathOrName(Seq<Seq<char>>),
    CHANGED,
    OLDER,
    NEWER,
    JUNCTION_POINTS,
    Combined(FileExclusionSetModel),
}

/// The abstract contents of a combined file exclusion filter.
#[verifier::ext_equal]
pub struct FileExclusionSetModel {
    pub attributes: Option<FileAttributeSet>,
    pub path_or_name: Seq<Seq<char>>,
    pub changed: bool,
    pub older: bool,
    pub newer: bool,
    pub junction_points: bool,
}

impl FileExclusionSetModel {
    /// The contents with nothing present.
    pub open spec fn spec_empty() -> FileExclusionSetModel {
        FileExclusionSetModel {
            attributes: None,
            path_or_name: Seq::<Seq<char>>::empty(),
            changed: false,
            older: false,
            newer: false,
            junction_points: false,
        }
    }

    /// The union of two contents: flags by disjunction, attribute sets by
    /// their own union, pattern lists by concatenation in operand order.
    pub open spec fn union(self, other: FileExclusionSetModel) -> FileExclusionSetModel {
        FileExclusionSetModel {
            attributes: union_opt_attrs(self.attributes, other.attributes),
            path_or_name: self.path_or_name + other.path_or_name,
            changed: self.changed || other.changed,
            older: self.older || other.older,
            newer: self.newer || other.newer,
            junction_points: self.junction_points || other.junction_points,
        }
    }

    /// The atomic components of the contents, in canonical order: the flags
    /// in declaration order, then the attribute filter, then the pattern
    /// filter; an empty pattern list contributes nothing.
    pub open spec fn components(self) -> Seq<FileExclusionModel> {
        let r = Seq::<FileExclusionModel>::empty();
        let r = if self.changed { r.push(FileExclusionModel::CHANGED) } else { r };
        let r = if self.older { r.push(FileExclusionModel::OLDER) } else { r };
        let r = if self.newer { r.push(FileExclusionModel::NEWER) } else { r };
        let r = if self.junction_points { r.push(FileExclusionModel::JUNCTION_POINTS) } else { r };
        let r = match self.attributes {
            Some(a) => r.push(FileExclusionModel::Attributes(a)),
            None => r,
        };
        let r = if self.path_or_name.len() > 0 {
            r.push(FileExclusionModel::PathOrName(self.path_or_name))
        } else {
            r
        };
        r
    }

    /// The tokens of the contents: one per component, in component order,
    /// with the pattern list spelled out after its `/xf` token.
    pub open spec fn tokens(self) -> Seq<Seq<char>> {
        let r = Seq::<Seq<char>>::empty();
        let r = if self.changed { r.push("/xc"@) } else { r };
        let r = if self.older { r.push("/xo"@) } else { r };
        let r = if self.newer { r.push("/xn"@) } else { r };
        let r = if self.junction_points { r.push("/xjf"@) } else { r };
        let r = match self.attributes {
            Some(a) => r.push("/xa:"@ + a.letters()),
            None => r,
        };
        let r = if self.path_or_name.len() > 0 {
            r.push("/xf"@) + self.path_or_name
        } else {
            r
        };
        r
    }
}

impl FileExclusionModel {
    /// The contents this value stands for.
    pub open spec fn as_set(self) -> FileExclusionSetModel {
        match self {
            FileExclusionModel::Attributes(a) => FileExclusionSetModel {
                attributes: Some(a),
                ..FileExclusionSetModel::spec_empty()
            },
            FileExclusionModel::PathOrName(v) => FileExclusionSetModel {
                path_or_name: v,
                ..FileExclusionSetModel::spec_empty()
            },
            FileExclusionModel::CHANGED => FileExclusionSetModel {
                changed: true,
                ..FileExclusionSetModel::spec_empty()
            },
            FileExclusionModel::OLDER => FileExclusionSetModel {
                older: true,
                ..FileExclusionSetModel::spec_empty()
            },
            FileExclusionModel::NEWER => FileExclusionSetModel {
                newer: true,
                ..FileExclusionSetModel::spec_empty()
            },
            FileExclusionModel::JUNCTION_POINTS => FileExclusionSetModel {
                junction_points: true,
                ..FileExclusionSetModel::spec_empty()
            },
            FileExclusionModel::Combined(s) => s,
        }
    }

    /// What combining two values yields: the combined variant holding the
    /// union of both contents.
    pub open spec fn combine(a: FileExclusionModel, b: FileExclusionModel) -> FileExclusionModel {
        FileExclusionModel::Combined(a.as_set().union(b.as_set()))
    }

    /// The atomic components of this value.
    pub open spec fn components(self) -> Seq<FileExclusionModel> {
        match self {
            FileExclusionModel::Combined(s) => s.components(),
            m => seq![m],
        }
    }

    /// The tokens this value serializes to.
    pub open spec fn tokens(self) -> Seq<Seq<char>> {
        match self {
            FileExclusionModel::Attributes(a) => seq!["/xa:"@ + a.letters()],
            FileExclusionModel::PathOrName(v) => seq!["/xf"@] + v,
            FileExclusionModel::CHANGED => seq!["/xc"@],
            FileExclusionModel::OLDER => seq!["/xo"@],
            FileExclusionModel::NEWER => seq!["/xn"@],
            FileExclusionModel::JUNCTION_POINTS => seq!["/xjf"@],
            FileExclusionModel::Combined(s) => s.tokens(),
        }
    }
}

/// The contents of a combined file exclusion filter.
#[derive(Debug, Clone)]
pub struct FileExclusionSet {
    pub attributes: Option<FileAttributes>,
    pub path_or_name: Vec<String>,
    pub changed: bool,
    pub older: bool,
    pub newer: bool,
    pub junction_points: bool,
}

impl DeepView for FileExclusionSet {
    type V = FileExclusionSetModel;

    open spec fn deep_view(&self) -> FileExclusionSetModel {
        FileExclusionSetModel {
            attributes: match self.attributes {
                Some(a) => Some(a.as_set()),
                None => None,
            },
            path_or_name: self.path_or_name.deep_view(),
            changed: self.changed,
            older: self.older,
            newer: self.newer,
            junction_points: self.junction_points,
        }
    }
}

/// Filters out files that match the variant.
#[allow(non_camel_case_types)]
#[derive(Debug, Clone)]
pub enum FileExclusionFilter {
    /// Excludes files for which any of the specified attributes are set.
    /// Corresponds to the `/xa` option.
    Attributes(FileAttributes),
    /// Excludes files that match the specified names or paths; wildcards
    /// are supported. Corresponds to the `/xf` option.
    PathOrName(Vec<String>),
    /// Excludes existing files with the same timestamp but different sizes.
    /// Corresponds to the `/xc` option.
    CHANGED,
    /// Excludes source files older than their destination counterpart.
    /// Corresponds to the `/xo` option.
    OLDER,
    /// Excludes source files newer than their destination counterpart.
    /// Corresponds to the `/xn` option.
    NEWER,
    /// Excludes junction points for files. Corresponds to the `/xjf` option.
    JUNCTION_POINTS,
    _MULTIPLE(FileExclusionSet),
}

impl DeepView for FileExclusionFilter {
    type V = FileExclusionModel;

    open spec fn deep_view(&self) -> FileExclusionModel {
        match self {
            FileExclusionFilter::Attributes(a) => FileExclusionModel::Attributes(a.as_set()),
            FileExclusionFilter::PathOrName(v) => FileExclusionModel::PathOrName(v.deep_view()),
            FileExclusionFilter::CHANGED => FileExclusionModel::CHANGED,
            FileExclusionFilter::OLDER => FileExclusionModel::OLDER,
            FileExclusionFilter::NEWER => FileExclusionModel::NEWER,
            FileExclusionFilter::JUNCTION_POINTS => FileExclusionModel::JUNCTION_POINTS,
            FileExclusionFilter::_MULTIPLE(s) => FileExclusionModel::Combined(s.deep_view()),
        }
    }
}

impl FileExclusionFilter {
    /// The contents this value stands for.
    fn to_set(self) -> (r: FileExclusionSet)
        ensures
            r.deep_view() == self.deep_view().as_set(),
    {
        let ghost m = self.deep_view();
        let none = FileExclusionSet {
            attributes: None,
            path_or_name: Vec::new(),
            changed: false,
            older: false,
            newer: false,
            junction_points: false,
        };
        let r = match self {
            FileExclusionFilter::Attributes(a) => FileExclusionSet {
                attributes: Some(a),
                ..none
            },
            FileExclusionFilter::PathOrName(v) => FileExclusionSet { path_or_name: v, ..none },
            FileExclusionFilter::CHANGED => FileExclusionSet { changed: true, ..none },
            FileExclusionFilter::OLDER => FileExclusionSet { older: true, ..none },
            FileExclusionFilter::NEWER => FileExclusionSet { newer: true, ..none },
            FileExclusionFilter::JUNCTION_POINTS => FileExclusionSet {
                junction_points: true,
                ..none
            },
            FileExclusionFilter::_MULTIPLE(s) => s,
        };
        proof {
            assert(r.deep_view() =~= m.as_set());
        }
        r
    }

    /// Combines two filters into the union of what they exclude: flags are
    /// merged, attribute filters are unioned, and pattern lists are
    /// concatenated in operand order without deduplication.
    pub fn combine(self, rhs: FileExclusionFilter) -> (r: FileExclusionFilter)
        ensures
            r.deep_view() == FileExclusionModel::combine(self.deep_view(), rhs.deep_view()),
    {
        let ghost ma = self.deep_view();
        let ghost mb = rhs.deep_view();
        let a = self.to_set();
        let b = rhs.to_set();
        let attributes: Option<FileAttributes> = match (a.attributes, b.attributes) {
            (Some(x), Some(y)) => Some(x.combine(y)),
            (Some(x), None) => Some(x),
            (None, o) => o,
        };
        let mut path_or_name = a.path_or_name;
        let mut tail = b.path_or_name;
        path_or_name.append(&mut tail);
        proof {
            assert(path_or_name.deep_view() =~= ma.as_set().path_or_name
                + mb.as_set().path_or_name);
        }
        let r = FileExclusionFilter::_MULTIPLE(
            FileExclusionSet {
                attributes,
                path_or_name,
                changed: a.changed || b.changed,
                older: a.older || b.older,
                newer: a.newer || b.newer,
                junction_points: a.junction_points || b.junction_points,
            },
        );
        proof {
            assert(r.deep_view() =~= FileExclusionModel::combine(ma, mb));
        }
        r
    }

    /// Renders the tokens for this filter, in canonical order.
    pub fn to_tokens(&self) -> (r: Vec<String>)
        ensures
            r.deep_view() == self.deep_view().tokens(),
    {
        let mut r: Vec<String> = Vec::new();
        match self {
            FileExclusionFilter::Attributes(a) => {
                r.push(String::from_str("/xa:").concat(a.to_letters().as_str()));
                proof {
                    assert(r.deep_view() =~= self.deep_view().tokens());
                }
            },
            FileExclusionFilter::PathOrName(v) => {
                r.push(String::from_str("/xf"));
                proof {
                    assert(r.deep_view() =~= seq!["/xf"@]);
                }
                push_patterns(&mut r, v);
                proof {
                    assert(r.deep_view() =~= self.deep_view().tokens());
                }
            },
            FileExclusionFilter::CHANGED => {
                r.push(String::from_str("/xc"));
                proof {
                    assert(r.deep_view() =~= self.deep_view().tokens());
                }
            },
            FileExclusionFilter::OLDER => {
                r.push(String::from_str("/xo"));
                proof {
                    assert(r.deep_view() =~= self.deep_view().tokens());
                }
            },
            FileExclusionFilter::NEWER => {
                r.push(String::from_str("/xn"));
                proof {
                    assert(r.deep_view() =~= self.deep_view().tokens());
                }
            },
            FileExclusionFilter::JUNCTION_POINTS => {
                r.push(String::from_str("/xjf"));
                proof {
                    assert(r.deep_view() =~= self.deep_view().tokens());
                }
            },
            FileExclusionFilter::_MULTIPLE(s) => {
                if s.changed {
                    r.push(String::from_str("/xc"));
                }
                if s.older {
                    r.push(String::from_str("/xo"));
                }
                if s.newer {
                    r.push(String::from_str("/xn"));
                }
                if s.junction_points {
                    r.push(String::from_str("/xjf"));
                }
                match &s.attributes {
                    Some(a) => {
                        r.push(String::from_str("/xa:").concat(a.to_letters().as_str()));
                    },
                    None => {},
                }
                let ghost before = r.deep_view();
                proof {
                    let m = s.deep_view();
                    let p = Seq::<Seq<char>>::empty();
                    let p = if m.changed { p.push("/xc"@) } else { p };
                    let p = if m.older { p.push("/xo"@) } else { p };
                    let p = if m.newer { p.push("/xn"@) } else { p };
                    let p = if m.junction_points { p.push("/xjf"@) } else { p };
                    let p = match m.attributes {
                        Some(a) => p.push("/xa:"@ + a.letters()),
                        None => p,
                    };
                    assert(before =~= p);
                }
                if s.path_or_name.len() > 0 {
                    r.push(String::from_str("/xf"));
                    proof {
                        assert(r.deep_view() =~= before.push("/xf"@));
                    }
                    push_patterns(&mut r, &s.path_or_name);
                }
                proof {
                    assert(r.deep_view() =~= self.deep_view().tokens());
                }
            },
        }
        r
    }
}

impl MultipleVariant for FileExclusionFilter {
    open spec fn spec_single_variants(&self) -> Seq<FileExclusionModel> {
        self.deep_view().components()
    }

    fn single_variants(&self) -> (r: Vec<FileExclusionFilter>) {
        match self {
            FileExclusionFilter::_MULTIPLE(s) => {
                let mut r: Vec<FileExclusionFilter> = Vec::new();
                if s.changed {
                    r.push(FileExclusionFilter::CHANGED);
                }
                if s.older {
                    r.push(FileExclusionFilter::OLDER);
                }
                if s.newer {
                    r.push(FileExclusionFilter::NEWER);
                }
                if s.junction_points {
                    r.push(FileExclusionFilter::JUNCTION_POINTS);
                }
                match &s.attributes {
                    Some(a) => {
                        r.push(FileExclusionFilter::Attributes(*a));
                    },
                    None => {},
                }
                if s.path_or_name.len() > 0 {
                    r.push(FileExclusionFilter::PathOrName(clone_patterns(&s.path_or_name)));
                }
                proof {
                    assert(r.deep_view() =~= self.deep_view().components());
                }
                r
            },
            FileExclusionFilter::Attributes(a) => {
                let mut r: Vec<FileExclusionFilter> = Vec::new();
                r.push(FileExclusionFilter::Attributes(*a));
                proof {
                    assert(r.deep_view() =~= self.deep_view().components());
                }
                r
            },
            FileExclusionFilter::PathOrName(v) => {
                let mut r: Vec<FileExclusionFilter> = Vec::new();
                r.push(FileExclusionFilter::PathOrName(clone_patterns(v)));
                proof {
                    assert(r.deep_view() =~= self.deep_view().components());
                }
                r
            },
            FileExclusionFilter::CHANGED => {
                let mut r: Vec<FileExclusionFilter> = Vec::new();
                r.push(FileExclusionFilter::CHANGED);
                proof {
                    assert(r.deep_view() =~= self.deep_view().components());
                }
                r
            },
            FileExclusionFilter::OLDER => {
                let mut r: Vec<FileExclusionFilter> = Vec::new();
                r.push(FileExclusionFilter::OLDER);
                proof {
                    assert(r.deep_view() =~= self.deep_view().components());
                }
                r
            },
            FileExclusionFilter::NEWER => {
                let mut r: Vec<FileExclusionFilter> = Vec::new();
                r.push(FileExclusionFilter::NEWER);
                proof {
                    assert(r.deep_view() =~= self.deep_view().components());
                }
                r
            },
            FileExclusionFilter::JUNCTION_POINTS => {
                let mut r: Vec<FileExclusionFilter> = Vec::new();
                r.push(FileExclusionFilter::JUNCTION_POINTS);
                proof {
                    assert(r.deep_view() =~= self.deep_view().components());
                }
                r
            },
        }
    }
}

/// The abstract value of a directory exclusion filter.
#[allow(non_camel_case_types)]
#[verifier::ext_equal]
pub enum DirectoryExclusionModel {
    PathOrName(Seq<Seq<char>>),
    JUNCTION_POINTS,
    _BOTH(Seq<Seq<char>>),
}

impl DirectoryExclusionModel {
    /// Whether junction points are excluded.
    pub open spec fn junction(self) -> bool {
        match self {
            DirectoryExclusionModel::PathOrName(_) => false,
            DirectoryExclusionModel::JUNCTION_POINTS => true,
            DirectoryExclusionModel::_BOTH(_) => true,
        }
    }

    /// The excluded name and path patterns.
    pub open spec fn paths(self) -> Seq<Seq<char>> {
        match self {
            DirectoryExclusionModel::PathOrName(v) => v,
            DirectoryExclusionModel::JUNCTION_POINTS => Seq::<Seq<char>>::empty(),
            DirectoryExclusionModel::_BOTH(v) => v,
        }
    }

    /// What combining two values yields: junction exclusion is kept when
    /// either operand has it, and pattern lists concatenate in operand
    /// order.
    pub open spec fn combine(
        a: DirectoryExclusionModel,
        b: DirectoryExclusionModel,
    ) -> DirectoryExclusionModel {
        if a.junction() || b.junction() {
            DirectoryExclusionModel::_BOTH(a.paths() + b.paths())
        } else {
            DirectoryExclusionModel::PathOrName(a.paths() + b.paths())
        }
    }

    /// The atomic components of this value: the junction exclusion first,
    /// then the pattern filter; an empty pattern list contributes nothing
    /// to a combined value.
    pub open spec fn components(self) -> Seq<DirectoryExclusionModel> {
        match self {
            DirectoryExclusionModel::_BOTH(v) => if v.len() > 0 {
                seq![
                    DirectoryExclusionModel::JUNCTION_POINTS,
                    DirectoryExclusionModel::PathOrName(v),
                ]
            } else {
                seq![DirectoryExclusionModel::JUNCTION_POINTS]
            },
            m => seq![m],
        }
    }

    /// The tokens this value serializes to: one per component, with the
    /// pattern list spelled out after its `/xd` token.
    pub open spec fn tokens(self) -> Seq<Seq<char>> {
        match self {
            DirectoryExclusionModel::PathOrName(v) => seq!["/xd"@] + v,
            DirectoryExclusionModel::JUNCTION_POINTS => seq!["/xjd"@],
            DirectoryExclusionModel::_BOTH(v) => if v.len() > 0 {
                seq!["/xjd"@, "/xd"@] + v
            } else {
                seq!["/xjd"@]
            },
        }
    }
}

/// Filters out directories that match the variant.
#[allow(non_camel_case_types)]
#[derive(Debug, Clone)]
pub enum DirectoryExclusionFilter {
    /// Excludes directories that match the specified names and paths.
    /// Corresponds to the `/xd` option.
    PathOrName(Vec<String>),
    /// Excludes junction points for directories. Corresponds to the `/xjd`
    /// option.
    JUNCTION_POINTS,
    _BOTH(Vec<String>),
}

impl DeepView for DirectoryExclusionFilter {
    type V = DirectoryExclusionModel;

    open spec fn deep_view(&self) -> DirectoryExclusionModel {
        match self {
            DirectoryExclusionFilter::PathOrName(v) => DirectoryExclusionModel::PathOrName(
                v.deep_view(),
            ),
            DirectoryExclusionFilter::JUNCTION_POINTS => DirectoryExclusionModel::JUNCTION_POINTS,
            DirectoryExclusionFilter::_BOTH(v) => DirectoryExclusionModel::_BOTH(v.deep_view()),
        }
    }
}

impl DirectoryExclusionFilter {
    /// Combines two filters into the union of what they exclude.
    pub fn combine(self, rhs: DirectoryExclusionFilter) -> (r: DirectoryExclusionFilter)
        ensures
            r.deep_view() == DirectoryExclusionModel::combine(self.deep_view(), rhs.deep_view()),
    {
        let ghost ma = self.deep_view();
        let ghost mb = rhs.deep_view();
        let mut junction = false;
        let mut paths: Vec<String> = match self {
            DirectoryExclusionFilter::PathOrName(v) => v,
            DirectoryExclusionFilter::JUNCTION_POINTS => {
                junction = true;
                Vec::new()
            },
            DirectoryExclusionFilter::_BOTH(v) => {
                junction = true;
                v
            },
        };
        proof {
            assert(paths.deep_view() =~= ma.paths());
        }
        match rhs {
            DirectoryExclusionFilter::PathOrName(mut v) => {
                paths.append(&mut v);
            },
            DirectoryExclusionFilter::JUNCTION_POINTS => {
                junction = true;
            },
            DirectoryExclusionFilter::_BOTH(mut v) => {
                junction = true;
                paths.append(&mut v);
            },
        }
        proof {
            assert(paths.deep_view() =~= ma.paths() + mb.paths());
        }
        if junction {
            DirectoryExclusionFilter::_BOTH(paths)
        } else {
            DirectoryExclusionFilter::PathOrName(paths)
        }
    }

    /// Renders the tokens for this filter, in canonical order.
    pub fn to_tokens(&self) -> (r: Vec<String>)
        ensures
            r.deep_view() == self.deep_view().tokens(),
    {
        let mut r: Vec<String> = Vec::new();
        match self {
            DirectoryExclusionFilter::PathOrName(v) => {
                r.push(String::from_str("/xd"));
                proof {
                    assert(r.deep_view() =~= seq!["/xd"@]);
                }
                push_patterns(&mut r, v);
                proof {
                    assert(r.deep_view() =~= self.deep_view().tokens());
                }
            },
            DirectoryExclusionFilter::JUNCTION_POINTS => {
                r.push(String::from_str("/xjd"));
                proof {
                    assert(r.deep_view() =~= self.deep_view().tokens());
                }
            },
            DirectoryExclusionFilter::_BOTH(v) => {
                r.push(String::from_str("/xjd"));
                if v.len() > 0 {
                    r.push(String::from_str("/xd"));
                    proof {
                        assert(r.deep_view() =~= seq!["/xjd"@, "/xd"@]);
                    }
                    push_patterns(&mut r, v);
                }
                proof {
                    assert(r.deep_view() =~= self.deep_view().tokens());
                }
            },
        }
        r
    }
}

impl MultipleVariant for DirectoryExclusionFilter {
    open spec fn spec_single_variants(&self) -> Seq<DirectoryExclusionModel> {
        self.deep_view().components()
    }

    fn single_variants(&self) -> (r: Vec<DirectoryExclusionFilter>) {
        match self {
            DirectoryExclusionFilter::PathOrName(v) => {
                let mut r: Vec<DirectoryExclusionFilter> = Vec::new();
                r.push(DirectoryExclusionFilter::PathOrName(clone_patterns(v)));
                proof {
                    assert(r.deep_view() =~= self.deep_view().components());
                }
                r
            },
            DirectoryExclusionFilter::JUNCTION_POINTS => {
                let mut r: Vec<DirectoryExclusionFilter> = Vec::new();
                r.push(DirectoryExclusionFilter::JUNCTION_POINTS);
                proof {
                    assert(r.deep_view() =~= self.deep_view().components());
                }
                r
            },
            DirectoryExclusionFilter::_BOTH(v) => {
                let mut r: Vec<DirectoryExclusionFilter> = Vec::new();
                r.push(DirectoryExclusionFilter::JUNCTION_POINTS);
                if v.len() > 0 {
                    r.push(DirectoryExclusionFilter::PathOrName(clone_patterns(v)));
                }
                proof {
                    assert(r.deep_view() =~= self.deep_view().components());
                }
                r
            },
        }
    }
}

/// The presence vector of the file-and-directory exclusion family.
#[derive(Debug, Clone, Copy, PartialEq, Eq, Structural)]
pub struct FileAndDirectoryExclusionSet {
    pub extra: bool,
    pub lonely: bool,
    pub junction_points: bool,
}

/// Filters out files and directories that match the variant.
#[allow(non_camel_case_types)]
#[derive(Debug, Clone, Copy, PartialEq, Eq, Structural)]
pub enum FileAndDirectoryExclusionFilter {
    /// Excludes extra files and directories present in the destination but
    /// not the source. Corresponds to the `/xx` option.
    EXTRA,
    /// Excludes lonely files and directories present in the source but not
    /// the destination. Corresponds to the `/xl` option.
    LONELY,
    /// Excludes junction points, which are normally included by default.
    /// Corresponds to the `/xj` option.
    JUNCTION_POINTS,
    _MULTIPLE(FileAndDirectoryExclusionSet),
}

impl DeepView for FileAndDirectoryExclusionFilter {
    type V = FileAndDirectoryExclusionFilter;

    open spec fn deep_view(&self) -> FileAndDirectoryExclusionFilter {
        *self
    }
}

impl FileAndDirectoryExclusionFilter {
    /// The presence vector this value stands for.
    pub open spec fn as_set(self) -> FileAndDirectoryExclusionSet {
        match self {
            FileAndDirectoryExclusionFilter::EXTRA => FileAndDirectoryExclusionSet {
                extra: true,
                lonely: false,
                junction_points: false,
            },
            FileAndDirectoryExclusionFilter::LONELY => FileAndDirectoryExclusionSet {
                extra: false,
                lonely: true,
                junction_points: false,
            },
            FileAndDirectoryExclusionFilter::JUNCTION_POINTS => FileAndDirectoryExclusionSet {
                extra: false,
                lonely: false,
                junction_points: true,
            },
            FileAndDirectoryExclusionFilter::_MULTIPLE(s) => s,
        }
    }

    /// What combining two values yields: the combined variant holding the
    /// union of both presence vectors.
    pub open spec fn spec_combine(
        a: FileAndDirectoryExclusionFilter,
        b: FileAndDirectoryExclusionFilter,
    ) -> FileAndDirectoryExclusionFilter {
        let x = a.as_set();
        let y = b.as_set();
        FileAndDirectoryExclusionFilter::_MULTIPLE(
            FileAndDirectoryExclusionSet {
                extra: x.extra || y.extra,
                lonely: x.lonely || y.lonely,
                junction_points: x.junction_points || y.junction_points,
            },
        )
    }

    /// The atomic values present in a set, in declaration order.
    pub open spec fn set_variants(
        s: FileAndDirectoryExclusionSet,
    ) -> Seq<FileAndDirectoryExclusionFilter> {
        let r = Seq::<FileAndDirectoryExclusionFilter>::empty();
        let r = if s.extra { r.push(FileAndDirectoryExclusionFilter::EXTRA) } else { r };
        let r = if s.lonely { r.push(FileAndDirectoryExclusionFilter::LONELY) } else { r };
        let r = if s.junction_points {
            r.push(FileAndDirectoryExclusionFilter::JUNCTION_POINTS)
        } else {
            r
        };
        r
    }

    /// The tokens this value serializes to, in declaration order.
    pub open spec fn spec_tokens(self) -> Seq<Seq<char>> {
        let s = self.as_set();
        let r = Seq::<Seq<char>>::empty();
        let r = if s.extra { r.push("/xx"@) } else { r };
        let r = if s.lonely { r.push("/xl"@) } else { r };
        let r = if s.junction_points { r.push("/xj"@) } else { r };
        r
    }

    /// The presence vector this value stands for.
    fn to_set(self) -> (r: FileAndDirectoryExclusionSet)
        ensures
            r == self.as_set(),
    {
        match self {
            FileAndDirectoryExclusionFilter::EXTRA => FileAndDirectoryExclusionSet {
                extra: true,
                lonely: false,
                junction_points: false,
            },
            FileAndDirectoryExclusionFilter::LONELY => FileAndDirectoryExclusionSet {
                extra: false,
                lonely: true,
                junction_points: false,
            },
            FileAndDirectoryExclusionFilter::JUNCTION_POINTS => FileAndDirectoryExclusionSet {
                extra: false,
                lonely: false,
                junction_points: true,
            },
            FileAndDirectoryExclusionFilter::_MULTIPLE(s) => s,
        }
    }

    /// Combines two filters into the union of what they exclude.
    pub fn combine(
        self,
        rhs: FileAndDirectoryExclusionFilter,
    ) -> (r: FileAndDirectoryExclusionFilter)
        ensures
            r == FileAndDirectoryExclusionFilter::spec_combine(self, rhs),
    {
        let a = self.to_set();
        let b = rhs.to_set();
        FileAndDirectoryExclusionFilter::_MULTIPLE(
            FileAndDirectoryExclusionSet {
                extra: a.extra || b.extra,
                lonely: a.lonely || b.lonely,
                junction_points: a.junction_points || b.junction_points,
            },
        )
    }

    /// Renders the tokens for this filter, in declaration order.
    pub fn to_tokens(&self) -> (r: Vec<String>)
        ensures
            r.deep_view() == self.spec_tokens(),
    {
        let s = self.to_set();
        let mut r: Vec<String> = Vec::new();
        if s.extra {
            r.push(String::from_str("/xx"));
        }
        if s.lonely {
            r.push(String::from_str("/xl"));
        }
        if s.junction_points {
            r.push(String::from_str("/xj"));
        }
        proof {
            assert(r.deep_view() =~= self.spec_tokens());
        }
        r
    }
}

impl MultipleVariant for FileAndDirectoryExclusionFilter {
    open spec fn spec_single_variants(&self) -> Seq<FileAndDirectoryExclusionFilter> {
        match *self {
            FileAndDirectoryExclusionFilter::_MULTIPLE(s) => {
                FileAndDirectoryExclusionFilter::set_variants(s)
            },
            v => seq![v],
        }
    }

    fn single_variants(&self) -> (r: Vec<FileAndDirectoryExclusionFilter>) {
        match *self {
            FileAndDirectoryExclusionFilter::_MULTIPLE(s) => {
                let mut r: Vec<FileAndDirectoryExclusionFilter> = Vec::new();
                if s.extra {
                    r.push(FileAndDirectoryExclusionFilter::EXTRA);
                }
                if s.lonely {
                    r.push(FileAndDirectoryExclusionFilter::LONELY);
                }
                if s.junction_points {
                    r.push(FileAndDirectoryExclusionFilter::JUNCTION_POINTS);
                }
                proof {
                    assert(r@ =~= FileAndDirectoryExclusionFilter::set_variants(s));
                    assert(r.deep_view() =~= r@);
                }
                r
            },
            v => {
                let mut r: Vec<FileAndDirectoryExclusionFilter> = Vec::new();
                r.push(v);
                proof {
                    assert(r@ =~= seq![v]);
                    assert(r.deep_view() =~= r@);
                }
                r
            },
        }
    }
}

/// The presence vector of the file exclusion exception family.
#[derive(Debug, Clone, Copy, PartialEq, Eq, Structural)]
pub struct FileExclusionFilterExceptionSet {
    pub modified: bool,
    pub same: bool,
    pub tweaked: bool,
}

/// Includes files despite the filters that match the variant.
#[allow(non_camel_case_types)]
#[derive(Debug, Clone, Copy, PartialEq, Eq, Structural)]
pub enum FileExclusionFilterException {
    /// Includes modified files (differing change times). Corresponds to the
    /// `/im` option.
    MODIFIED,
    /// Includes files identical in name, size, times and attributes.
    /// Corresponds to the `/is` option.
    SAME,
    /// Includes files with the same name, size and times but different
    /// attributes. Corresponds to the `/it` option.
    TWEAKED,
    _MULTIPLE(FileExclusionFilterExceptionSet),
}

impl DeepView for FileExclusionFilterException {
    type V = FileExclusionFilterException;

    open spec fn deep_view(&self) -> FileExclusionFilterException {
        *self
    }
}

impl FileExclusionFilterException {
    /// The presence vector this value stands for.
    pub open spec fn as_set(self) -> FileExclusionFilterExceptionSet {
        match self {
            FileExclusionFilterException::MODIFIED => FileExclusionFilterExceptionSet {
                modified: true,
                same: false,
                tweaked: false,
            },
            FileExclusionFilterException::SAME => FileExclusionFilterExceptionSet {
                modified: false,
                same: true,
                tweaked: false,
            },
            FileExclusionFilterException::TWEAKED => FileExclusionFilterExceptionSet {
                modified: false,
                same: false,
                tweaked: true,
            },
            FileExclusionFilterException::_MULTIPLE(s) => s,
        }
    }

    /// What combining two values yields: the combined variant holding the
    /// union of both presence vectors.
    pub open spec fn spec_combine(
        a: FileExclusionFilterException,
        b: FileExclusionFilterException,
    ) -> FileExclusionFilterException {
        let x = a.as_set();
        let y = b.as_set();
        FileExclusionFilterException::_MULTIPLE(
            FileExclusionFilterExceptionSet {
                modified: x.modified || y.modified,
                same: x.same || y.same,
                tweaked: x.tweaked || y.tweaked,
            },
        )
    }

    /// The atomic values present in a set, in declaration order.
    pub open spec fn set_variants(
        s: FileExclusionFilterExceptionSet,
    ) -> Seq<FileExclusionFilterException> {
        let r = Seq::<FileExclusionFilterException>::empty();
        let r = if s.modified { r.push(FileExclusionFilterException::MODIFIED) } else { r };
        let r = if s.same { r.push(FileExclusionFilterException::SAME) } else { r };
        let r = if s.tweaked { r.push(FileExclusionFilterException::TWEAKED) } else { r };
        r
    }

    /// The tokens this value serializes to, in declaration order.
    pub open spec fn spec_tokens(self) -> Seq<Seq<char>> {
        let s = self.as_set();
        let r = Seq::<Seq<char>>::empty();
        let r = if s.modified { r.push("/im"@) } else { r };
        let r = if s.same { r.push("/is"@) } else { r };
        let r = if s.tweaked { r.push("/it"@) } else { r };
        r
    }

    /// The presence vector this value stands for.
    fn to_set(self) -> (r: FileExclusionFilterExceptionSet)
        ensures
            r == self.as_set(),
    {
        match self {
            FileExclusionFilterException::MODIFIED => FileExclusionFilterExceptionSet {
                modified: true,
                same: false,
                tweaked: false,
            },
            FileExclusionFilterException::SAME => FileExclusionFilterExceptionSet {
                modified: false,
                same: true,
                tweaked: false,
            },
            FileExclusionFilterException::TWEAKED => FileExclusionFilterExceptionSet {
                modified: false,
                same: false,
                tweaked: true,
            },
            FileExclusionFilterException::_MULTIPLE(s) => s,
        }
    }

    /// Combines two exceptions into the union of what they include.
    pub fn combine(self, rhs: FileExclusionFilterException) -> (r: FileExclusionFilterException)
        ensures
            r == FileExclusionFilterException::spec_combine(self, rhs),
    {
        let a = self.to_set();
        let b = rhs.to_set();
        FileExclusionFilterException::_MULTIPLE(
            FileExclusionFilterExceptionSet {
                modified: a.modified || b.modified,
                same: a.same || b.same,
                tweaked: a.tweaked || b.tweaked,
            },
        )
    }

    /// Renders the tokens for this exception, in declaration order.
    pub fn to_tokens(&self) -> (r: Vec<String>)
        ensures
            r.deep_view() == self.spec_tokens(),
    {
        let s = self.to_set();
        let mut r: Vec<String> = Vec::new();
        if s.modified {
            r.push(String::from_str("/im"));
        }
        if s.same {
            r.push(String::from_str("/is"));
        }
        if s.tweaked {
            r.push(String::from_str("/it"));
        }
        proof {
            assert(r.deep_view() =~= self.spec_tokens());
        }
        r
    }
}

impl MultipleVariant for FileExclusionFilterException {
    open spec fn spec_single_variants(&self) -> Seq<FileExclusionFilterException> {
        match *self {
            FileExclusionFilterException::_MULTIPLE(s) => {
                FileExclusionFilterException::set_variants(s)
            },
            v => seq![v],
        }
    }

    fn single_variants(&self) -> (r: Vec<FileExclusionFilterException>) {
        match *self {
            FileExclusionFilterException::_MULTIPLE(s) => {
                let mut r: Vec<FileExclusionFilterException> = Vec::new();
                if s.modified {
                    r.push(FileExclusionFilterException::MODIFIED);
                }
                if s.same {
                    r.push(FileExclusionFilterException::SAME);
                }
                if s.tweaked {
                    r.push(FileExclusionFilterException::TWEAKED);
                }
                proof {
                    assert(r@ =~= FileExclusionFilterException::set_variants(s));
                    assert(r.deep_view() =~= r@);
                }
                r
            },
            v => {
                let mut r: Vec<FileExclusionFilterException> = Vec::new();
                r.push(v);
                proof {
                    assert(r@ =~= seq![v]);
                    assert(r.deep_view() =~= r@);
                }
                r
            },
        }
    }
}

/// Handles all filter options supported by the tool.
#[derive(Debug, Clone)]
pub struct Filter {
    /// Copies only files with the archive attribute set, and resets it.
    /// Corresponds to the `/m` option.
    pub handle_archive_and_reset: bool,
    /// Includes only files for which any of the specified attributes are
    /// set. Corresponds to the `/ia` option.
    pub include_only_files_with_any_of_these_attribs: Option<FileAttributes>,
    /// Filters out which files to copy.
    pub file_exclusion_filter: Option<FileExclusionFilter>,
    /// Filters out which directories to copy.
    pub directory_exclusion_filter: Option<DirectoryExclusionFilter>,
    /// Filters out which files and directories to copy.
    pub file_and_directory_exclusion_filter: Option<FileAndDirectoryExclusionFilter>,
    /// Includes files despite the filters.
    pub file_exclusion_filter_exceptions: Option<FileExclusionFilterException>,
    /// The maximum file size: bigger files are excluded. Corresponds to the
    /// `/max` option.
    pub max_size: Option<u128>,
    /// The minimum file size: smaller files are excluded. Corresponds to
    /// the `/min` option.
    pub min_size: Option<u128>,
    /// The maximum file age, as days or a date: older files are excluded.
    /// Corresponds to the `/maxage` option.
    pub max_age: Option<String>,
    /// The minimum file age: newer files are excluded. Corresponds to the
    /// `/minage` option.
    pub min_age: Option<String>,
    /// The maximum last access date: files unused since it are excluded.
    /// Corresponds to the `/maxlad` option.
    pub max_last_access_date: Option<String>,
    /// The minimum last access date: files used since it are excluded.
    /// Corresponds to the `/minlad` option.
    pub min_last_access_date: Option<String>,
}

impl Filter {
    /// The filter with nothing set.
    pub open spec fn spec_default() -> Filter {
        Filter {
            handle_archive_and_reset: false,
            include_only_files_with_any_of_these_attribs: None,
            file_exclusion_filter: None,
            directory_exclusion_filter: None,
            file_and_directory_exclusion_filter: None,
            file_exclusion_filter_exceptions: None,
            max_size: None,
            min_size: None,
            max_age: None,
            min_age: None,
            max_last_access_date: None,
            min_last_access_date: None,
        }
    }

    /// The leading filter tokens: archive handling and attribute inclusion.
    pub open spec fn head_tokens(self) -> Seq<Seq<char>> {
        let r = Seq::<Seq<char>>::empty();
        let r = if self.handle_archive_and_reset { r.push("/m"@) } else { r };
        let r = match self.include_only_files_with_any_of_these_attribs {
            Some(a) => r.push("/ia:"@ + a.as_set().letters()),
            None => r,
        };
        r
    }

    /// The tokens of the four exclusion families, in the fixed order.
    pub open spec fn exclusion_tokens(self) -> Seq<Seq<char>> {
        let r = Seq::<Seq<char>>::empty();
        let r = match self.file_exclusion_filter {
            Some(f) => r + f.deep_view().tokens(),
            None => r,
        };
        let r = match self.directory_exclusion_filter {
            Some(f) => r + f.deep_view().tokens(),
            None => r,
        };
        let r = match self.file_and_directory_exclusion_filter {
            Some(f) => r + f.spec_tokens(),
            None => r,
        };
        let r = match self.file_exclusion_filter_exceptions {
            Some(f) => r + f.spec_tokens(),
            None => r,
        };
        r
    }

    /// The size, age and last-access bound tokens, in the fixed order.
    pub open spec fn bound_tokens(self) -> Seq<Seq<char>> {
        let r = Seq::<Seq<char>>::empty();
        let r = match self.max_size {
            Some(n) => r.push("/max:"@ + spec_decimal(n as nat)),
            None => r,
        };
        let r = match self.min_size {
            Some(n) => r.push("/min:"@ + spec_decimal(n as nat)),
            None => r,
        };
        let r = match self.max_age {
            Some(s) => r.push("/maxage:"@ + s@),
            None => r,
        };
        let r = match self.min_age {
            Some(s) => r.push("/minage:"@ + s@),
            None => r,
        };
        let r = match self.max_last_access_date {
            Some(s) => r.push("/maxlad:"@ + s@),
            None => r,
        };
        let r = match self.min_last_access_date {
            Some(s) => r.push("/minlad:"@ + s@),
            None => r,
        };
        r
    }

    /// The tokens a filter serializes to, in the fixed order: archive
    /// handling, attribute inclusion, the four exclusion families, then
    /// the size, age and last-access bounds.
    pub open spec fn spec_tokens(self) -> Seq<Seq<char>> {
        self.head_tokens() + self.exclusion_tokens() + self.bound_tokens()
    }

    /// Appends the leading filter tokens.
    #[verifier::rlimit(100)]
    fn push_head_tokens(&self, r: &mut Vec<String>)
        ensures
            final(r).deep_view() == old(r).deep_view() + self.head_tokens(),
    {
        let ghost g0 = r.deep_view();
        if self.handle_archive_and_reset {
            r.push(String::from_str("/m"));
        }
        let ghost g1 = r.deep_view();
        proof {
            assert(g1 =~= (if self.handle_archive_and_reset {
                g0.push("/m"@)
            } else {
                g0
            }));
        }
        if let Some(a) = &self.include_only_files_with_any_of_these_attribs {
            r.push(String::from_str("/ia:").concat(a.to_letters().as_str()));
        }
        proof {
            assert(r.deep_view() =~= (match self.include_only_files_with_any_of_these_attribs {
                Some(a) => g1.push("/ia:"@ + a.as_set().letters()),
                None => g1,
            }));
            assert(r.deep_view() =~= g0 + self.head_tokens());
        }
    }

    /// Appends the tokens of the four exclusion families.
    #[verifier::rlimit(100)]
    fn push_exclusion_tokens(&self, r: &mut Vec<String>)
        ensures
            final(r).deep_view() == old(r).deep_view() + self.exclusion_tokens(),
    {
        let ghost g0 = r.deep_view();
        if let Some(f) = &self.file_exclusion_filter {
            let mut t = f.to_tokens();
            r.append(&mut t);
        }
        let ghost g1 = r.deep_view();
        proof {
            assert(g1 =~= (match self.file_exclusion_filter {
                Some(f) => g0 + f.deep_view().tokens(),
                None => g0,
            }));
        }
        if let Some(f) = &self.directory_exclusion_filter {
            let mut t = f.to_tokens();
            r.append(&mut t);
        }
        let ghost g2 = r.deep_view();
        proof {
            assert(g2 =~= (match self.directory_exclusion_filter {
                Some(f) => g1 + f.deep_view().tokens(),
                None => g1,
            }));
        }
        if let Some(f) = &self.file_and_directory_exclusion_filter {
            let mut t = f.to_tokens();
            r.append(&mut t);
        }
        let ghost g3 = r.deep_view();
        proof {
            assert(g3 =~= (match self.file_and_directory_exclusion_filter {
                Some(f) => g2 + f.spec_tokens(),
                None => g2,
            }));
        }
        if let Some(f) = &self.file_exclusion_filter_exceptions {
            let mut t = f.to_tokens();
            r.append(&mut t);
        }
        proof {
            assert(r.deep_view() =~= (match self.file_exclusion_filter_exceptions {
                Some(f) => g3 + f.spec_tokens(),
                None => g3,
            }));
            assert(r.deep_view() =~= g0 + self.exclusion_tokens());
        }
    }

    /// Appends the size, age and last-access bound tokens.
    #[verifier::rlimit(100)]
    fn push_bound_tokens(&self, r: &mut Vec<String>)
        ensures
            final(r).deep_view() == old(r).deep_view() + self.bound_tokens(),
    {
        let ghost g0 = r.deep_view();
        if let Some(n) = self.max_size {
            let mut t = String::from_str("/max:");
            push_decimal(&mut t, n);
            r.push(t);
        }
        let ghost g1 = r.deep_view();
        proof {
            assert(g1 =~= (match self.max_size {
                Some(n) => g0.push("/max:"@ + spec_decimal(n as nat)),
                None => g0,
            }));
        }
        if let Some(n) = self.min_size {
            let mut t = String::from_str("/min:");
            push_decimal(&mut t, n);
            r.push(t);
        }
        let ghost g2 = r.deep_view();
        proof {
            assert(g2 =~= (match self.min_size {
                Some(n) => g1.push("/min:"@ + spec_decimal(n as nat)),
                None => g1,
            }));
        }
        if let Some(s) = &self.max_age {
            r.push(String::from_str("/maxage:").concat(s.as_str()));
        }
        let ghost g3 = r.deep_view();
        proof {
            assert(g3 =~= (match self.max_age {
                Some(s) => g2.push("/maxage:"@ + s@),
                None => g2,
            }));
        }
        if let Some(s) = &self.min_age {
            r.push(String::from_str("/minage:").concat(s.as_str()));
        }
        let ghost g4 = r.deep_view();
        proof {
            assert(g4 =~= (match self.min_age {
                Some(s) => g3.push("/minage:"@ + s@),
                None => g3,
            }));
        }
        if let Some(s) = &self.max_last_access_date {
            r.push(String::from_str("/maxlad:").concat(s.as_str()));
        }
        let ghost g5 = r.deep_view();
        proof {
            assert(g5 =~= (match self.max_last_access_date {
                Some(s) => g4.push("/maxlad:"@ + s@),
                None => g4,
            }));
        }
        if let Some(s) = &self.min_last_access_date {
            r.push(String::from_str("/minlad:").concat(s.as_str()));
        }
        proof {
            assert(r.deep_view() =~= (match self.min_last_access_date {
                Some(s) => g5.push("/minlad:"@ + s@),
                None => g5,
            }));
            assert(r.deep_view() =~= g0 + self.bound_tokens());
        }
    }

    /// Renders the tokens for this filter, in the fixed order.
    pub fn to_tokens(&self) -> (r: Vec<String>)
        ensures
            r.deep_view() == self.spec_tokens(),
    {
        let mut r: Vec<String> = Vec::new();
        self.push_head_tokens(&mut r);
        self.push_exclusion_tokens(&mut r);
        self.push_bound_tokens(&mut r);
        proof {
            assert(r.deep_view() =~= self.spec_tokens());
        }
        r
    }
}

impl Default for Filter {
    /// The filter with nothing set.
    fn default() -> (r: Filter)
        ensures
            r == Filter::spec_default(),
    {
        Filter {
            handle_archive_and_reset: false,
            include_only_files_with_any_of_these_attribs: None,
            file_exclusion_filter: None,
            directory_exclusion_filter: None,
            file_and_directory_exclusion_filter: None,
            file_exclusion_filter_exceptions: None,
            max_size: None,
            min_size: None,
            max_age: None,
            min_age: None,
            max_last_access_date: None,
            min_last_access_date: None,
        }
    }
}

/// Combining file exclusion filters is commutative in everything but the
/// order of the concatenated pattern lists: the flags and the attribute
/// filter agree, and the patterns agree as a multiset.
pub proof fn lemma_file_exclusion_combine_commutative(a: FileExclusionModel, b: FileExclusionModel)
    ensures
        FileExclusionModel::combine(a, b).as_set().attributes == FileExclusionModel::combine(
            b,
            a,
        ).as_set().attributes,
        FileExclusionModel::combine(a, b).as_set().changed == FileExclusionModel::combine(
            b,
            a,
        ).as_set().changed,
        FileExclusionModel::combine(a, b).as_set().older == FileExclusionModel::combine(
            b,
            a,
        ).as_set().older,
        FileExclusionModel::combine(a, b).as_set().newer == FileExclusionModel::combine(
            b,
            a,
        ).as_set().newer,
        FileExclusionModel::combine(a, b).as_set().junction_points == FileExclusionModel::combine(
            b,
            a,
        ).as_set().junction_points,
        FileExclusionModel::combine(a, b).as_set().path_or_name.to_multiset()
            == FileExclusionModel::combine(b, a).as_set().path_or_name.to_multiset(),
{
    broadcast use vstd::multiset::group_multiset_axioms;

    lemma_multiset_commutative(a.as_set().path_or_name, b.as_set().path_or_name);
    lemma_multiset_commutative(b.as_set().path_or_name, a.as_set().path_or_name);
    assert(a.as_set().path_or_name.to_multiset().add(b.as_set().path_or_name.to_multiset())
        =~= b.as_set().path_or_name.to_multiset().add(a.as_set().path_or_name.to_multiset()));
}

/// For two atomic flags, combining is commutative outright: with at most
/// one pattern list in play, no concatenation order can differ.
pub proof fn lemma_file_exclusion_combine_commutative_atomic(
    a: FileExclusionModel,
    b: FileExclusionModel,
)
    requires
        !(a is PathOrName),
        !(a is Combined),
        !(b is PathOrName),
        !(b is Combined),
    ensures
        FileExclusionModel::combine(a, b) == FileExclusionModel::combine(b, a),
{
    assert(FileExclusionModel::combine(a, b) =~~= FileExclusionModel::combine(b, a));
}

/// Combining file exclusion filters is associative.
pub proof fn lemma_file_exclusion_combine_associative(
    a: FileExclusionModel,
    b: FileExclusionModel,
    c: FileExclusionModel,
)
    ensures
        FileExclusionModel::combine(FileExclusionModel::combine(a, b), c)
            == FileExclusionModel::combine(a, FileExclusionModel::combine(b, c)),
{
    assert(FileExclusionModel::combine(FileExclusionModel::combine(a, b), c)
        =~~= FileExclusionModel::combine(a, FileExclusionModel::combine(b, c)));
}

/// Combining an atomic file exclusion flag with itself and decomposing
/// yields that single flag exactly once.
pub proof fn lemma_file_exclusion_combine_idempotent(a: FileExclusionModel)
    requires
        !(a is PathOrName),
        !(a is Combined),
    ensures
        FileExclusionModel::combine(a, a).components() == seq![a],
{
    assert(FileExclusionModel::combine(a, a).components() =~= seq![a]);
}

/// Combining directory exclusion filters is commutative in everything but
/// the order of the concatenated pattern lists.
pub proof fn lemma_directory_exclusion_combine_commutative(
    a: DirectoryExclusionModel,
    b: DirectoryExclusionModel,
)
    ensures
        DirectoryExclusionModel::combine(a, b).junction() == DirectoryExclusionModel::combine(
            b,
            a,
        ).junction(),
        DirectoryExclusionModel::combine(a, b).paths().to_multiset()
            == DirectoryExclusionModel::combine(b, a).paths().to_multiset(),
{
    broadcast use vstd::multiset::group_multiset_axioms;

    lemma_multiset_commutative(a.paths(), b.paths());
    lemma_multiset_commutative(b.paths(), a.paths());
    assert(a.paths().to_multiset().add(b.paths().to_multiset()) =~= b.paths().to_multiset().add(
        a.paths().to_multiset(),
    ));
}

/// Combining directory exclusion filters is associative.
pub proof fn lemma_directory_exclusion_combine_associative(
    a: DirectoryExclusionModel,
    b: DirectoryExclusionModel,
    c: DirectoryExclusionModel,
)
    ensures
        DirectoryExclusionModel::combine(DirectoryExclusionModel::combine(a, b), c)
            == DirectoryExclusionModel::combine(a, DirectoryExclusionModel::combine(b, c)),
{
    assert(DirectoryExclusionModel::combine(DirectoryExclusionModel::combine(a, b), c)
        =~~= DirectoryExclusionModel::combine(a, DirectoryExclusionModel::combine(b, c)));
}

/// Combining the junction exclusion with itself and decomposing yields
/// that single flag exactly once.
pub proof fn lemma_directory_exclusion_combine_idempotent()
    ensures
        DirectoryExclusionModel::combine(
            DirectoryExclusionModel::JUNCTION_POINTS,
            DirectoryExclusionModel::JUNCTION_POINTS,
        ).components() == seq![DirectoryExclusionModel::JUNCTION_POINTS],
{
    assert(DirectoryExclusionModel::combine(
        DirectoryExclusionModel::JUNCTION_POINTS,
        DirectoryExclusionModel::JUNCTION_POINTS,
    ).components() =~= seq![DirectoryExclusionModel::JUNCTION_POINTS]);
}

/// Combining file-and-directory exclusion filters is commutative.
pub proof fn lemma_file_and_directory_exclusion_combine_commutative(
    a: FileAndDirectoryExclusionFilter,
    b: FileAndDirectoryExclusionFilter,
)
    ensures
        FileAndDirectoryExclusionFilter::spec_combine(a, b)
            == FileAndDirectoryExclusionFilter::spec_combine(b, a),
{
}

/// Combining file-and-directory exclusion filters is associative.
pub proof fn lemma_file_and_directory_exclusion_combine_associative(
    a: FileAndDirectoryExclusionFilter,
    b: FileAndDirectoryExclusionFilter,
    c: FileAndDirectoryExclusionFilter,
)
    ensures
        FileAndDirectoryExclusionFilter::spec_combine(
            FileAndDirectoryExclusionFilter::spec_combine(a, b),
            c,
        ) == FileAndDirectoryExclusionFilter::spec_combine(
            a,
            FileAndDirectoryExclusionFilter::spec_combine(b, c),
        ),
{
}

/// Combining an atomic file-and-directory exclusion flag with itself and
/// decomposing yields that single flag exactly once.
pub proof fn lemma_file_and_directory_exclusion_combine_idempotent(
    a: FileAndDirectoryExclusionFilter,
)
    requires
        !(a is _MULTIPLE),
    ensures
        FileAndDirectoryExclusionFilter::spec_combine(a, a).spec_single_variants() == seq![a],
{
    assert(FileAndDirectoryExclusionFilter::spec_combine(a, a).spec_single_variants()
        =~= seq![a]);
}

/// Serialization and decomposition of file-and-directory exclusion filters
/// are functions of the presence vector alone.
pub proof fn lemma_file_and_directory_exclusion_canonical(
    a: FileAndDirectoryExclusionFilter,
    b: FileAndDirectoryExclusionFilter,
)
    requires
        a.as_set() == b.as_set(),
    ensures
        a.spec_tokens() == b.spec_tokens(),
        a.spec_single_variants() == b.spec_single_variants(),
{
    assert(a.spec_single_variants() =~= FileAndDirectoryExclusionFilter::set_variants(a.as_set()));
    assert(b.spec_single_variants() =~= FileAndDirectoryExclusionFilter::set_variants(b.as_set()));
}

/// Combining file exclusion exceptions is commutative.
pub proof fn lemma_file_exclusion_exception_combine_commutative(
    a: FileExclusionFilterException,
    b: FileExclusionFilterException,
)
    ensures
        FileExclusionFilterException::spec_combine(a, b)
            == FileExclusionFilterException::spec_combine(b, a),
{
}

/// Combining file exclusion exceptions is associative.
pub proof fn lemma_file_exclusion_exception_combine_associative(
    a: FileExclusionFilterException,
    b: FileExclusionFilterException,
    c: FileExclusionFilterException,
)
    ensures
        FileExclusionFilterException::spec_combine(
            FileExclusionFilterException::spec_combine(a, b),
            c,
        ) == FileExclusionFilterException::spec_combine(
            a,
            FileExclusionFilterException::spec_combine(b, c),
        ),
{
}

/// Combining an atomic file exclusion exception with itself and decomposing
/// yields that single exception exactly once.
pub proof fn lemma_file_exclusion_exception_combine_idempotent(a: FileExclusionFilterException)
    requires
        !(a is _MULTIPLE),
    ensures
        FileExclusionFilterException::spec_combine(a, a).spec_single_variants() == seq![a],
{
    assert(FileExclusionFilterException::spec_combine(a, a).spec_single_variants() =~= seq![a]);
}

/// Serialization and decomposition of file exclusion exceptions are
/// functions of the presence vector alone.
pub proof fn lemma_file_exclusion_exception_canonical(
    a: FileExclusionFilterException,
    b: FileExclusionFilterException,
)
    requires
        a.as_set() == b.as_set(),
    ensures
        a.spec_tokens() == b.spec_tokens(),
        a.spec_single_variants() == b.spec_single_variants(),
{
    assert(a.spec_single_variants() =~= FileExclusionFilterException::set_variants(a.as_set()));
    assert(b.spec_single_variants() =~= FileExclusionFilterException::set_variants(b.as_set()));
}

} // verus!
