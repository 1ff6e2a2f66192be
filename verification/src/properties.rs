//! File and directory property families: which properties of a copied entry
//! are carried over. Each family is a closed set of atomic flags with a
//! combining union, a decomposition, and one serialized token.

use vstd::prelude::*;
use crate::MultipleVariant;

verus! {

/// The presence vector of the file property family: which atomic file
/// properties a combined value holds.
#[derive(Debug, Clone, Copy, PartialEq, Eq, Structural)]
pub struct FilePropertySet {
    pub data: bool,
    pub attributes: bool,
    pub time_stamps: bool,
    pub ntfs_access_control_list: bool,
    pub owner_info: bool,
    pub auditing_info: bool,
}

impl FilePropertySet {
    /// The set with no property present.
    pub open spec fn spec_empty() -> FilePropertySet {
        FilePropertySet {
            data: false,
            attributes: false,
            time_stamps: false,
            ntfs_access_control_list: false,
            owner_info: false,
            auditing_info: false,
        }
    }

    /// The set with every property present.
    pub open spec fn spec_full() -> FilePropertySet {
        FilePropertySet {
            data: true,
            attributes: true,
            time_stamps: true,
            ntfs_access_control_list: true,
            owner_info: true,
            auditing_info: true,
        }
    }

    /// The union of two sets: a property is present when it is present in
    /// either operand.
    pub open spec fn union(self, other: FilePropertySet) -> FilePropertySet {
        FilePropertySet {
            data: self.data || other.data,
            attributes: self.attributes || other.attributes,
            time_stamps: self.time_stamps || other.time_stamps,
            ntfs_access_control_list: self.ntfs_access_control_list
                || other.ntfs_access_control_list,
            owner_info: self.owner_info || other.owner_info,
            auditing_info: self.auditing_info || other.auditing_info,
        }
    }

    /// The canonical letters of the present properties, in declaration order.
    pub open spec fn letters(self) -> Seq<char> {
        let r = Seq::<char>::empty();
        let r = if self.data { r + "D"@ } else { r };
        let r = if self.attributes { r + "A"@ } else { r };
        let r = if self.time_stamps { r + "T"@ } else { r };
        let r = if self.ntfs_access_control_list { r + "S"@ } else { r };
        let r = if self.owner_info { r + "O"@ } else { r };
        let r = if self.auditing_info { r + "U"@ } else { r };
        r
    }
}

/// The file property family.
///
/// A value is either one atomic property or a combined set of them; the
/// combined form serializes to a single `/copy:` token whose letters follow
/// the declaration order.
#[allow(non_camel_case_types)]
#[derive(Debug, Clone, Copy, PartialEq, Eq, Structural)]
pub enum FileProperties {
    DATA,
    ATTRIBUTES,
    TIME_STAMPS,
    NTFS_ACCESS_CONTROL_LIST,
    OWNER_INFO,
    AUDITING_INFO,
    _MULTIPLE(FilePropertySet),
}

impl DeepView for FileProperties {
    type V = FileProperties;

    open spec fn deep_view(&self) -> FileProperties {
        *self
    }
}

impl FileProperties {
    /// The presence vector this value stands for.
    pub open spec fn as_set(self) -> FilePropertySet {
        match self {
            FileProperties::DATA => FilePropertySet { data: true, ..FilePropertySet::spec_empty() },
            FileProperties::ATTRIBUTES => FilePropertySet {
                attributes: true,
                ..FilePropertySet::spec_empty()
            },
            FileProperties::TIME_STAMPS => FilePropertySet {
                time_stamps: true,
                ..FilePropertySet::spec_empty()
            },
            FileProperties::NTFS_ACCESS_CONTROL_LIST => FilePropertySet {
                ntfs_access_control_list: true,
                ..FilePropertySet::spec_empty()
            },
            FileProperties::OWNER_INFO => FilePropertySet {
                owner_info: true,
                ..FilePropertySet::spec_empty()
            },
            FileProperties::AUDITING_INFO => FilePropertySet {
                auditing_info: true,
                ..FilePropertySet::spec_empty()
            },
            FileProperties::_MULTIPLE(s) => s,
        }
    }

    /// What combining two values yields: the combined variant holding the
    /// union of both presence vectors.
    pub open spec fn spec_combine(a: FileProperties, b: FileProperties) -> FileProperties {
        FileProperties::_MULTIPLE(a.as_set().union(b.as_set()))
    }

    /// The atomic values present in a set, in declaration order.
    pub open spec fn set_variants(s: FilePropertySet) -> Seq<FileProperties> {
        let r = Seq::<FileProperties>::empty();
        let r = if s.data { r.push(FileProperties::DATA) } else { r };
        let r = if s.attributes { r.push(FileProperties::ATTRIBUTES) } else { r };
        let r = if s.time_stamps { r.push(FileProperties::TIME_STAMPS) } else { r };
        let r = if s.ntfs_access_control_list {
            r.push(FileProperties::NTFS_ACCESS_CONTROL_LIST)
        } else {
            r
        };
        let r = if s.owner_info { r.push(FileProperties::OWNER_INFO) } else { r };
        let r = if s.auditing_info { r.push(FileProperties::AUDITING_INFO) } else { r };
        r
    }

    /// The `/copy:` token this value serializes to.
    pub open spec fn spec_token(self) -> Seq<char> {
        "/copy:"@ + self.as_set().letters()
    }

    /// The presence vector this value stands for.
    fn to_set(self) -> (r: FilePropertySet)
        ensures
            r == self.as_set(),
    {
        let none = FilePropertySet {
            data: false,
            attributes: false,
            time_stamps: false,
            ntfs_access_control_list: false,
            owner_info: false,
            auditing_info: false,
        };
        match self {
            FileProperties::DATA => FilePropertySet { data: true, ..none },
            FileProperties::ATTRIBUTES => FilePropertySet { attributes: true, ..none },
            FileProperties::TIME_STAMPS => FilePropertySet { time_stamps: true, ..none },
            FileProperties::NTFS_ACCESS_CONTROL_LIST => FilePropertySet {
                ntfs_access_control_list: true,
                ..none
            },
            FileProperties::OWNER_INFO => FilePropertySet { owner_info: true, ..none },
            FileProperties::AUDITING_INFO => FilePropertySet { auditing_info: true, ..none },
            FileProperties::_MULTIPLE(s) => s,
        }
    }

    /// Combines two values into the union of their properties.
    pub fn combine(self, rhs: FileProperties) -> (r: FileProperties)
        ensures
            r == FileProperties::spec_combine(self, rhs),
    {
        let a = self.to_set();
        let b = rhs.to_set();
        FileProperties::_MULTIPLE(
            FilePropertySet {
                data: a.data || b.data,
                attributes: a.attributes || b.attributes,
                time_stamps: a.time_stamps || b.time_stamps,
                ntfs_access_control_list: a.ntfs_access_control_list
                    || b.ntfs_access_control_list,
                owner_info: a.owner_info || b.owner_info,
                auditing_info: a.auditing_info || b.auditing_info,
            },
        )
    }

    /// Renders the letters of the present properties, in declaration order.
    fn letters_string(s: FilePropertySet) -> (r: String)
        ensures
            r@ == s.letters(),
    {
        let mut r = String::new();
        if s.data {
            r.append("D");
        }
        if s.attributes {
            r.append("A");
        }
        if s.time_stamps {
            r.append("T");
        }
        if s.ntfs_access_control_list {
            r.append("S");
        }
        if s.owner_info {
            r.append("O");
        }
        if s.auditing_info {
            r.append("U");
        }
        r
    }

    /// Renders the `/copy:` token for this value.
    pub fn to_token(&self) -> (r: String)
        ensures
            r@ == self.spec_token(),
    {
        let s = self.to_set();
        let r = String::from_str("/copy:");
        let r = r.concat(FileProperties::letters_string(s).as_str());
        r
    }

    /// Returns a variant containing all available file properties.
    pub fn all() -> (r: FileProperties)
        ensures
            r == FileProperties::_MULTIPLE(FilePropertySet::spec_full()),
    {
        FileProperties::_MULTIPLE(
            FilePropertySet {
                data: true,
                attributes: true,
                time_stamps: true,
                ntfs_access_control_list: true,
                owner_info: true,
                auditing_info: true,
            },
        )
    }

    /// Returns a variant containing no file properties.
    pub fn none() -> (r: FileProperties)
        ensures
            r == FileProperties::_MULTIPLE(FilePropertySet::spec_empty()),
    {
        FileProperties::_MULTIPLE(
            FilePropertySet {
                data: false,
                attributes: false,
                time_stamps: false,
                ntfs_access_control_list: false,
                owner_info: false,
                auditing_info: false,
            },
        )
    }
}

impl MultipleVariant for FileProperties {
    open spec fn spec_single_variants(&self) -> Seq<FileProperties> {
        match *self {
            FileProperties::_MULTIPLE(s) => FileProperties::set_variants(s),
            v => seq![v],
        }
    }

    fn single_variants(&self) -> (r: Vec<FileProperties>) {
        match *self {
            FileProperties::_MULTIPLE(s) => {
                let mut r: Vec<FileProperties> = Vec::new();
                if s.data {
                    r.push(FileProperties::DATA);
                }
                if s.attributes {
                    r.push(FileProperties::ATTRIBUTES);
                }
                if s.time_stamps {
                    r.push(FileProperties::TIME_STAMPS);
                }
                if s.ntfs_access_control_list {
                    r.push(FileProperties::NTFS_ACCESS_CONTROL_LIST);
                }
                if s.owner_info {
                    r.push(FileProperties::OWNER_INFO);
                }
                if s.auditing_info {
                    r.push(FileProperties::AUDITING_INFO);
                }
                proof {
                    assert(r.deep_view() =~= r@);
                }
                r
            },
            v => {
                let mut r: Vec<FileProperties> = Vec::new();
                r.push(v);
                proof {
                    assert(r@ =~= seq![v]);
                    assert(r.deep_view() =~= r@);
                }
                r
            },
        }
    }
}

/// The presence vector of the directory property family.
#[derive(Debug, Clone, Copy, PartialEq, Eq, Structural)]
pub struct DirectoryPropertySet {
    pub data: bool,
    pub attributes: bool,
    pub time_stamps: bool,
}

impl DirectoryPropertySet {
    /// The set with no property present.
    pub open spec fn spec_empty() -> DirectoryPropertySet {
        DirectoryPropertySet { data: false, attributes: false, time_stamps: false }
    }

    /// The set with every property present.
    pub open spec fn spec_full() -> DirectoryPropertySet {
        DirectoryPropertySet { data: true, attributes: true, time_stamps: true }
    }

    /// The union of two sets: a property is present when it is present in
    /// either operand.
    pub open spec fn union(self, other: DirectoryPropertySet) -> DirectoryPropertySet {
        DirectoryPropertySet {
            data: self.data || other.data,
            attributes: self.attributes || other.attributes,
            time_stamps: self.time_stamps || other.time_stamps,
        }
    }

    /// The canonical letters of the present properties, in declaration order.
    pub open spec fn letters(self) -> Seq<char> {
        let r = Seq::<char>::empty();
        let r = if self.data { r + "D"@ } else { r };
        let r = if self.attributes { r + "A"@ } else { r };
        let r = if self.time_stamps { r + "T"@ } else { r };
        r
    }
}

/// The directory property family: what is carried over for directories,
/// serialized to a single `/dcopy:` token.
#[allow(non_camel_case_types)]
#[derive(Debug, Clone, Copy, PartialEq, Eq, Structural)]
pub enum DirectoryProperties {
    DATA,
    ATTRIBUTES,
    TIME_STAMPS,
    _MULTIPLE(DirectoryPropertySet),
}

impl DeepView for DirectoryProperties {
    type V = DirectoryProperties;

    open spec fn deep_view(&self) -> DirectoryProperties {
        *self
    }
}

impl DirectoryProperties {
    /// The presence vector this value stands for.
    pub open spec fn as_set(self) -> DirectoryPropertySet {
        match self {
            DirectoryProperties::DATA => DirectoryPropertySet {
                data: true,
                ..DirectoryPropertySet::spec_empty()
            },
            DirectoryProperties::ATTRIBUTES => DirectoryPropertySet {
                attributes: true,
                ..DirectoryPropertySet::spec_empty()
            },
            DirectoryProperties::TIME_STAMPS => DirectoryPropertySet {
                time_stamps: true,
                ..DirectoryPropertySet::spec_empty()
            },
            DirectoryProperties::_MULTIPLE(s) => s,
        }
    }

    /// What combining two values yields: the combined variant holding the
    /// union of both presence vectors.
    pub open spec fn spec_combine(
        a: DirectoryProperties,
        b: DirectoryProperties,
    ) -> DirectoryProperties {
        DirectoryProperties::_MULTIPLE(a.as_set().union(b.as_set()))
    }

    /// The atomic values present in a set, in declaration order.
    pub open spec fn set_variants(s: DirectoryPropertySet) -> Seq<DirectoryProperties> {
        let r = Seq::<DirectoryProperties>::empty();
        let r = if s.data { r.push(DirectoryProperties::DATA) } else { r };
        let r = if s.attributes { r.push(DirectoryProperties::ATTRIBUTES) } else { r };
        let r = if s.time_stamps { r.push(DirectoryProperties::TIME_STAMPS) } else { r };
        r
    }

    /// The `/dcopy:` token this value serializes to.
    pub open spec fn spec_token(self) -> Seq<char> {
        "/dcopy:"@ + self.as_set().letters()
    }

    /// The presence vector this value stands for.
    fn to_set(self) -> (r: DirectoryPropertySet)
        ensures
            r == self.as_set(),
    {
        match self {
            DirectoryProperties::DATA => DirectoryPropertySet {
                data: true,
                attributes: false,
                time_stamps: false,
            },
            DirectoryProperties::ATTRIBUTES => DirectoryPropertySet {
                data: false,
                attributes: true,
                time_stamps: false,
            },
            DirectoryProperties::TIME_STAMPS => DirectoryPropertySet {
                data: false,
                attributes: false,
                time_stamps: true,
            },
            DirectoryProperties::_MULTIPLE(s) => s,
        }
    }

    /// Combines two values into the union of their properties.
    pub fn combine(self, rhs: DirectoryProperties) -> (r: DirectoryProperties)
        ensures
            r == DirectoryProperties::spec_combine(self, rhs),
    {
        let a = self.to_set();
        let b = rhs.to_set();
        DirectoryProperties::_MULTIPLE(
            DirectoryPropertySet {
                data: a.data || b.data,
                attributes: a.attributes || b.attributes,
                time_stamps: a.time_stamps || b.time_stamps,
            },
        )
    }

    /// Renders the letters of the present properties, in declaration order.
    fn letters_string(s: DirectoryPropertySet) -> (r: String)
        ensures
            r@ == s.letters(),
    {
        let mut r = String::new();
        if s.data {
            r.append("D");
        }
        if s.attributes {
            r.append("A");
        }
        if s.time_stamps {
            r.append("T");
        }
        r
    }

    /// Renders the `/dcopy:` token for this value.
    pub fn to_token(&self) -> (r: String)
        ensures
            r@ == self.spec_token(),
    {
        let s = self.to_set();
        let r = String::from_str("/dcopy:");
        let r = r.concat(DirectoryProperties::letters_string(s).as_str());
        r
    }

    /// Returns a variant containing all available directory properties.
    pub fn all() -> (r: DirectoryProperties)
        ensures
            r == DirectoryProperties::_MULTIPLE(DirectoryPropertySet::spec_full()),
    {
        DirectoryProperties::_MULTIPLE(
            DirectoryPropertySet { data: true, attributes: true, time_stamps: true },
        )
    }

    /// Returns a variant containing no directory properties.
    pub fn none() -> (r: DirectoryProperties)
        ensures
            r == DirectoryProperties::_MULTIPLE(DirectoryPropertySet::spec_empty()),
    {
        DirectoryProperties::_MULTIPLE(
            DirectoryPropertySet { data: false, attributes: false, time_stamps: false },
        )
    }
}

impl MultipleVariant for DirectoryProperties {
    open spec fn spec_single_variants(&self) -> Seq<DirectoryProperties> {
        match *self {
            DirectoryProperties::_MULTIPLE(s) => DirectoryProperties::set_variants(s),
            v => seq![v],
        }
    }

    fn single_variants(&self) -> (r: Vec<DirectoryProperties>) {
        match *self {
            DirectoryProperties::_MULTIPLE(s) => {
                let mut r: Vec<DirectoryProperties> = Vec::new();
                if s.data {
                    r.push(DirectoryProperties::DATA);
                }
                if s.attributes {
                    r.push(DirectoryProperties::ATTRIBUTES);
                }
                if s.time_stamps {
                    r.push(DirectoryProperties::TIME_STAMPS);
                }
                proof {
                    assert(r.deep_view() =~= r@);
                }
                r
            },
            v => {
                let mut r: Vec<DirectoryProperties> = Vec::new();
                r.push(v);
                proof {
                    assert(r@ =~= seq![v]);
                    assert(r.deep_view() =~= r@);
                }
                r
            },
        }
    }
}

/// Combining file properties is commutative: both orders yield the combined
/// variant holding the same union of presence vectors.
pub proof fn lemma_file_properties_combine_commutative(a: FileProperties, b: FileProperties)
    ensures
        FileProperties::spec_combine(a, b) == FileProperties::spec_combine(b, a),
{
}

/// Combining file properties is associative.
pub proof fn lemma_file_properties_combine_associative(
    a: FileProperties,
    b: FileProperties,
    c: FileProperties,
)
    ensures
        FileProperties::spec_combine(FileProperties::spec_combine(a, b), c)
            == FileProperties::spec_combine(a, FileProperties::spec_combine(b, c)),
{
}

/// Combining an atomic file property with itself and decomposing yields that
/// single property exactly once.
pub proof fn lemma_file_properties_combine_idempotent(a: FileProperties)
    requires
        !(a is _MULTIPLE),
    ensures
        FileProperties::spec_combine(a, a).spec_single_variants() == seq![a],
{
    assert(FileProperties::spec_combine(a, a).spec_single_variants() =~= seq![a]);
}

/// Serialization and decomposition are functions of the presence vector
/// alone: two values standing for the same set produce the same token and
/// the same decomposition, however they were combined.
pub proof fn lemma_file_properties_canonical(a: FileProperties, b: FileProperties)
    requires
        a.as_set() == b.as_set(),
    ensures
        a.spec_token() == b.spec_token(),
        a.spec_single_variants() == b.spec_single_variants(),
{
    assert(a.spec_single_variants() =~= FileProperties::set_variants(a.as_set()));
    assert(b.spec_single_variants() =~= FileProperties::set_variants(b.as_set()));
}

/// Combining all atomic file properties yields the same decomposition as the
/// `all` constructor: each of the six atomic properties exactly once, in
/// declaration order.
pub proof fn lemma_file_properties_all_round_trip()
    ensures
        FileProperties::spec_combine(
            FileProperties::spec_combine(
                FileProperties::spec_combine(
                    FileProperties::spec_combine(
                        FileProperties::spec_combine(
                            FileProperties::DATA,
                            FileProperties::ATTRIBUTES,
                        ),
                        FileProperties::TIME_STAMPS,
                    ),
                    FileProperties::NTFS_ACCESS_CONTROL_LIST,
                ),
                FileProperties::OWNER_INFO,
            ),
            FileProperties::AUDITING_INFO,
        ) == FileProperties::_MULTIPLE(FilePropertySet::spec_full()),
        FileProperties::_MULTIPLE(FilePropertySet::spec_full()).spec_single_variants() == seq![
            FileProperties::DATA,
            FileProperties::ATTRIBUTES,
            FileProperties::TIME_STAMPS,
            FileProperties::NTFS_ACCESS_CONTROL_LIST,
            FileProperties::OWNER_INFO,
            FileProperties::AUDITING_INFO,
        ],
{
    assert(FileProperties::_MULTIPLE(FilePropertySet::spec_full()).spec_single_variants() =~= seq![
        FileProperties::DATA,
        FileProperties::ATTRIBUTES,
        FileProperties::TIME_STAMPS,
        FileProperties::NTFS_ACCESS_CONTROL_LIST,
        FileProperties::OWNER_INFO,
        FileProperties::AUDITING_INFO,
    ]);
}

/// Combining directory properties is commutative.
pub proof fn lemma_directory_properties_combine_commutative(
    a: DirectoryProperties,
    b: DirectoryProperties,
)
    ensures
        DirectoryProperties::spec_combine(a, b) == DirectoryProperties::spec_combine(b, a),
{
}

/// Combining directory properties is associative.
pub proof fn lemma_directory_properties_combine_associative(
    a: DirectoryProperties,
    b: DirectoryProperties,
    c: DirectoryProperties,
)
    ensures
        DirectoryProperties::spec_combine(DirectoryProperties::spec_combine(a, b), c)
            == DirectoryProperties::spec_combine(a, DirectoryProperties::spec_combine(b, c)),
{
}

/// Combining an atomic directory property with itself and decomposing yields
/// that single property exactly once.
pub proof fn lemma_directory_properties_combine_idempotent(a: DirectoryProperties)
    requires
        !(a is _MULTIPLE),
    ensures
        DirectoryProperties::spec_combine(a, a).spec_single_variants() == seq![a],
{
    assert(DirectoryProperties::spec_combine(a, a).spec_single_variants() =~= seq![a]);
}

/// Serialization and decomposition of directory properties are functions of
/// the presence vector alone.
pub proof fn lemma_directory_properties_canonical(a: DirectoryProperties, b: DirectoryProperties)
    requires
        a.as_set() == b.as_set(),
    ensures
        a.spec_token() == b.spec_token(),
        a.spec_single_variants() == b.spec_single_variants(),
{
    assert(a.spec_single_variants() =~= DirectoryProperties::set_variants(a.as_set()));
    assert(b.spec_single_variants() =~= DirectoryProperties::set_variants(b.as_set()));
}

/// Combining all atomic directory properties yields the same decomposition
/// as the `all` constructor: each of the three atomic properties exactly
/// once, in declaration order.
pub proof fn lemma_directory_properties_all_round_trip()
    ensures
        DirectoryProperties::spec_combine(
            DirectoryProperties::spec_combine(
                DirectoryProperties::DATA,
                DirectoryProperties::ATTRIBUTES,
            ),
            DirectoryProperties::TIME_STAMPS,
        ) == DirectoryProperties::_MULTIPLE(DirectoryPropertySet::spec_full()),
        DirectoryProperties::_MULTIPLE(
            DirectoryPropertySet::spec_full(),
        ).spec_single_variants() == seq![
            DirectoryProperties::DATA,
            DirectoryProperties::ATTRIBUTES,
            DirectoryProperties::TIME_STAMPS,
        ],
{
    assert(DirectoryProperties::_MULTIPLE(
        DirectoryPropertySet::spec_full(),
    ).spec_single_variants() =~= seq![
        DirectoryProperties::DATA,
        DirectoryProperties::ATTRIBUTES,
        DirectoryProperties::TIME_STAMPS,
    ]);
}

} // verus!
