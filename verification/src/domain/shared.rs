//! Identifiers and timestamps shared by every part of the domain.
use vstd::prelude::*;

verus! {

/// The characters of `nanoid::alphabet::SAFE`: ASCII letters, digits, `_` and `-`.
pub open spec fn is_id_alphabet_char(c: char) -> bool {
    ||| c == '_'
    ||| c == '-'
    ||| ('0' <= c && c <= '9')
    ||| ('a' <= c && c <= 'z')
    ||| ('A' <= c && c <= 'Z')
}

/// What a freshly generated identifier looks like: eight characters of the URL-safe alphabet.
pub open spec fn is_generated_id(s: Seq<char>) -> bool {
    &&& s.len() == 8
    &&& forall|i: int| 0 <= i < s.len() ==> is_id_alphabet_char(#[trigger] s[i])
}

/// Calls `nanoid::format` with the crate's default random source, its URL-safe
/// alphabet and size eight: the expansion of `nanoid!(8)`. Its source keeps
/// drawing random bytes and pushes a character of the alphabet for each byte
/// that indexes it, and returns as soon as the text holds eight of them. So the
/// result is eight characters of `alphabet::SAFE`; which ones is chance and is
/// not stated.
#[verifier::external_body]
fn random_id_text() -> (r: String)
    ensures
        is_generated_id(r@),
{
    nanoid::format(nanoid::rngs::default, &nanoid::alphabet::SAFE, 8)
}

/// A generated identifier is never blank: none of its characters is white space.
pub proof fn lemma_generated_id_not_blank(s: Seq<char>)
    requires
        is_generated_id(s),
    ensures
        !crate::strings::is_blank(s),
{
    assert(is_id_alphabet_char(s[0]));
    assert(!crate::strings::is_white_space(s[0]));
}

/// The instants that `time::OffsetDateTime` can hold in any build of the `time`
/// crate: from -9999-01-01 00:00:00 to 9999-12-31 23:59:59.999999999 UTC, in
/// nanoseconds since the Unix epoch.
pub open spec fn timestamp_in_range(unix_nanos: int) -> bool {
    -377705116800 * 1000000000 <= unix_nanos <= 253402300799 * 1000000000 + 999999999
}

/// What `Display` for `time::OffsetDateTime` writes for the UTC instant that
/// lies `unix_nanos` nanoseconds after the Unix epoch.
pub uninterp spec fn utc_date_time_text(unix_nanos: int) -> Seq<char>;

/// Builds the UTC instant with `time::OffsetDateTime::from_unix_timestamp_nanos`
/// and renders it with its `Display`. The conversion fails only outside the
/// range the `requires` excludes. The text is named, not described: it is a
/// function of the instant alone (UTC, no local offset).
#[verifier::external_body]
fn render_utc_instant(unix_nanos: i128) -> (r: String)
    requires
        timestamp_in_range(unix_nanos as int),
    ensures
        r@ == utc_date_time_text(unix_nanos as int),
{
    match time::OffsetDateTime::from_unix_timestamp_nanos(unix_nanos) {
        Ok(instant) => instant.to_string(),
        Err(_) => String::new(),
    }
}

/// An instant, in nanoseconds since the Unix epoch (UTC).
#[derive(Clone, Copy, Debug, PartialEq, Eq, Hash, PartialOrd, Ord)]
pub struct Timestamp {
    unix_nanos: i128,
}

impl Timestamp {
    #[verifier::type_invariant]
    spec fn in_range(self) -> bool {
        timestamp_in_range(self.unix_nanos as int)
    }

    /// Nanoseconds since the Unix epoch.
    pub closed spec fn nanos(self) -> int {
        self.unix_nanos as int
    }

    pub fn from_unix_nanos(unix_nanos: i128) -> (t: Timestamp)
        requires
            timestamp_in_range(unix_nanos as int),
        ensures
            t.nanos() == unix_nanos,
    {
        Timestamp { unix_nanos }
    }

    pub fn unix_epoch() -> (t: Timestamp)
        ensures
            t.nanos() == 0,
    {
        Timestamp { unix_nanos: 0 }
    }

    pub fn unix_nanos(&self) -> (n: i128)
        ensures
            n == self.nanos(),
    {
        self.unix_nanos
    }

    /// Whether `self` lies strictly before `other`.
    pub fn is_before(&self, other: &Timestamp) -> (b: bool)
        ensures
            b == (self.nanos() < other.nanos()),
    {
        self.unix_nanos < other.unix_nanos
    }

    /// The instant as `Display` for `time::OffsetDateTime` writes it.
    pub fn to_text(&self) -> (r: String)
        ensures
            r@ == utc_date_time_text(self.nanos()),
    {
        proof {
            use_type_invariant(self);
        }
        render_utc_instant(self.unix_nanos)
    }
}

/// Identifier of the slug that names a task workspace.
#[derive(Clone, Debug, PartialEq, Eq, Hash, PartialOrd, Ord)]
pub struct TaskSlug(String);

impl View for TaskSlug {
    type V = Seq<char>;

    closed spec fn view(&self) -> Seq<char> {
        self.0@
    }
}

impl TaskSlug {
    /// A fresh random identifier.
    pub fn generate() -> (r: Self)
        ensures
            is_generated_id(r@),
    {
        TaskSlug(random_id_text())
    }

    pub fn from_string(value: &str) -> (r: Self)
        ensures
            r@ == value@,
    {
        TaskSlug(value.to_owned())
    }

    pub fn from(value: &str) -> (r: Self)
        ensures
            r@ == value@,
    {
        TaskSlug(value.to_owned())
    }

    pub fn from_owned(value: String) -> (r: Self)
        ensures
            r@ == value@,
    {
        TaskSlug(value)
    }

    pub fn as_str(&self) -> (r: &str)
        ensures
            r@ == self@,
    {
        self.0.as_str()
    }

    /// The identifier's text, as `Display` writes it.
    pub fn to_string(&self) -> (r: String)
        ensures
            r@ == self@,
    {
        self.0.clone()
    }

    pub fn duplicate(&self) -> (r: Self)
        ensures
            r@ == self@,
    {
        TaskSlug(self.0.clone())
    }

    pub fn same_as(&self, other: &Self) -> (r: bool)
        ensures
            r == (self@ == other@),
    {
        self.0 == other.0
    }
}

/// Identifier of a repository in the catalog.
#[derive(Clone, Debug, PartialEq, Eq, Hash, PartialOrd, Ord)]
pub struct RepoId(String);

impl View for RepoId {
    type V = Seq<char>;

    closed spec fn view(&self) -> Seq<char> {
        self.0@
    }
}

impl RepoId {
    /// A fresh random identifier.
    pub fn generate() -> (r: Self)
        ensures
            is_generated_id(r@),
    {
        RepoId(random_id_text())
    }

    pub fn from_string(value: &str) -> (r: Self)
        ensures
            r@ == value@,
    {
        RepoId(value.to_owned())
    }

    pub fn from(value: &str) -> (r: Self)
        ensures
            r@ == value@,
    {
        RepoId(value.to_owned())
    }

    pub fn from_owned(value: String) -> (r: Self)
        ensures
            r@ == value@,
    {
        RepoId(value)
    }

    pub fn as_str(&self) -> (r: &str)
        ensures
            r@ == self@,
    {
        self.0.as_str()
    }

    /// The identifier's text, as `Display` writes it.
    pub fn to_string(&self) -> (r: String)
        ensures
            r@ == self@,
    {
        self.0.clone()
    }

    pub fn duplicate(&self) -> (r: Self)
        ensures
            r@ == self@,
    {
        RepoId(self.0.clone())
    }

    pub fn same_as(&self, other: &Self) -> (r: bool)
        ensures
            r == (self@ == other@),
    {
        self.0 == other.0
    }
}

/// Identifier of a group of repositories in the catalog.
#[derive(Clone, Debug, PartialEq, Eq, Hash, PartialOrd, Ord)]
pub struct RepoGroupId(String);

impl View for RepoGroupId {
    type V = Seq<char>;

    closed spec fn view(&self) -> Seq<char> {
        self.0@
    }
}

impl RepoGroupId {
    /// A fresh random identifier.
    pub fn generate() -> (r: Self)
        ensures
            is_generated_id(r@),
    {
        RepoGroupId(random_id_text())
    }

    pub fn from_string(value: &str) -> (r: Self)
        ensures
            r@ == value@,
    {
        RepoGroupId(value.to_owned())
    }

    pub fn from(value: &str) -> (r: Self)
        ensures
            r@ == value@,
    {
        RepoGroupId(value.to_owned())
    }

    pub fn from_owned(value: String) -> (r: Self)
        ensures
            r@ == value@,
    {
        RepoGroupId(value)
    }

    pub fn as_str(&self) -> (r: &str)
        ensures
            r@ == self@,
    {
        self.0.as_str()
    }

    /// The identifier's text, as `Display` writes it.
    pub fn to_string(&self) -> (r: String)
        ensures
            r@ == self@,
    {
        self.0.clone()
    }

    pub fn duplicate(&self) -> (r: Self)
        ensures
            r@ == self@,
    {
        RepoGroupId(self.0.clone())
    }

    pub fn same_as(&self, other: &Self) -> (r: bool)
        ensures
            r == (self@ == other@),
    {
        self.0 == other.0
    }
}

/// Identifier of a skill in the registry.
#[derive(Clone, Debug, PartialEq, Eq, Hash, PartialOrd, Ord)]
pub struct SkillId(String);

impl View for SkillId {
    type V = Seq<char>;

    closed spec fn view(&self) -> Seq<char> {
        self.0@
    }
}

impl SkillId {
    /// A fresh random identifier.
    pub fn generate() -> (r: Self)
        ensures
            is_generated_id(r@),
    {
        SkillId(random_id_text())
    }

    pub fn from_string(value: &str) -> (r: Self)
        ensures
            r@ == value@,
    {
        SkillId(value.to_owned())
    }

    pub fn from(value: &str) -> (r: Self)
        ensures
            r@ == value@,
    {
        SkillId(value.to_owned())
    }

    pub fn from_owned(value: String) -> (r: Self)
        ensures
            r@ == value@,
    {
        SkillId(value)
    }

    pub fn as_str(&self) -> (r: &str)
        ensures
            r@ == self@,
    {
        self.0.as_str()
    }

    /// The identifier's text, as `Display` writes it.
    pub fn to_string(&self) -> (r: String)
        ensures
            r@ == self@,
    {
        self.0.clone()
    }

    pub fn duplicate(&self) -> (r: Self)
        ensures
            r@ == self@,
    {
        SkillId(self.0.clone())
    }

    pub fn same_as(&self, other: &Self) -> (r: bool)
        ensures
            r == (self@ == other@),
    {
        self.0 == other.0
    }
}

/// Identifier of a source that skills are imported from.
#[derive(Clone, Debug, PartialEq, Eq, Hash, PartialOrd, Ord)]
pub struct SkillSourceId(String);

impl View for SkillSourceId {
    type V = Seq<char>;

    closed spec fn view(&self) -> Seq<char> {
        self.0@
    }
}

impl SkillSourceId {
    /// A fresh random identifier.
    pub fn generate() -> (r: Self)
        ensures
            is_generated_id(r@),
    {
        SkillSourceId(random_id_text())
    }

    pub fn from_string(value: &str) -> (r: Self)
        ensures
            r@ == value@,
    {
        SkillSourceId(value.to_owned())
    }

    pub fn from(value: &str) -> (r: Self)
        ensures
            r@ == value@,
    {
        SkillSourceId(value.to_owned())
    }

    pub fn from_owned(value: String) -> (r: Self)
        ensures
            r@ == value@,
    {
        SkillSourceId(value)
    }

    pub fn as_str(&self) -> (r: &str)
        ensures
            r@ == self@,
    {
        self.0.as_str()
    }

    /// The identifier's text, as `Display` writes it.
    pub fn to_string(&self) -> (r: String)
        ensures
            r@ == self@,
    {
        self.0.clone()
    }

    pub fn duplicate(&self) -> (r: Self)
        ensures
            r@ == self@,
    {
        SkillSourceId(self.0.clone())
    }

    pub fn same_as(&self, other: &Self) -> (r: bool)
        ensures
            r == (self@ == other@),
    {
        self.0 == other.0
    }
}

/// Identifier of a version of a skill.
#[derive(Clone, Debug, PartialEq, Eq, Hash, PartialOrd, Ord)]
pub struct SkillVersion(String);

impl View for SkillVersion {
    type V = Seq<char>;

    closed spec fn view(&self) -> Seq<char> {
        self.0@
    }
}

impl SkillVersion {
    /// A fresh random identifier.
    pub fn generate() -> (r: Self)
        ensures
            is_generated_id(r@),
    {
        SkillVersion(random_id_text())
    }

    pub fn from_string(value: &str) -> (r: Self)
        ensures
            r@ == value@,
    {
        SkillVersion(value.to_owned())
    }

    pub fn from(value: &str) -> (r: Self)
        ensures
            r@ == value@,
    {
        SkillVersion(value.to_owned())
    }

    pub fn from_owned(value: String) -> (r: Self)
        ensures
            r@ == value@,
    {
        SkillVersion(value)
    }

    pub fn as_str(&self) -> (r: &str)
        ensures
            r@ == self@,
    {
        self.0.as_str()
    }

    /// The identifier's text, as `Display` writes it.
    pub fn to_string(&self) -> (r: String)
        ensures
            r@ == self@,
    {
        self.0.clone()
    }

    pub fn duplicate(&self) -> (r: Self)
        ensures
            r@ == self@,
    {
        SkillVersion(self.0.clone())
    }

    pub fn same_as(&self, other: &Self) -> (r: bool)
        ensures
            r == (self@ == other@),
    {
        self.0 == other.0
    }
}

/// Identifier of a skill mounted into a task.
#[derive(Clone, Debug, PartialEq, Eq, Hash, PartialOrd, Ord)]
pub struct MountId(String);

impl View for MountId {
    type V = Seq<char>;

    closed spec fn view(&self) -> Seq<char> {
        self.0@
    }
}

impl MountId {
    /// A fresh random identifier.
    pub fn generate() -> (r: Self)
        ensures
            is_generated_id(r@),
    {
        MountId(random_id_text())
    }

    pub fn from_string(value: &str) -> (r: Self)
        ensures
            r@ == value@,
    {
        MountId(value.to_owned())
    }

    pub fn from(value: &str) -> (r: Self)
        ensures
            r@ == value@,
    {
        MountId(value.to_owned())
    }

    pub fn from_owned(value: String) -> (r: Self)
        ensures
            r@ == value@,
    {
        MountId(value)
    }

    pub fn as_str(&self) -> (r: &str)
        ensures
            r@ == self@,
    {
        self.0.as_str()
    }

    /// The identifier's text, as `Display` writes it.
    pub fn to_string(&self) -> (r: String)
        ensures
            r@ == self@,
    {
        self.0.clone()
    }

    pub fn duplicate(&self) -> (r: Self)
        ensures
            r@ == self@,
    {
        MountId(self.0.clone())
    }

    pub fn same_as(&self, other: &Self) -> (r: bool)
        ensures
            r == (self@ == other@),
    {
        self.0 == other.0
    }
}

/// Identifier of a knowledge entry.
#[derive(Clone, Debug, PartialEq, Eq, Hash, PartialOrd, Ord)]
pub struct KnowledgeId(String);

impl View for KnowledgeId {
    type V = Seq<char>;

    closed spec fn view(&self) -> Seq<char> {
        self.0@
    }
}

impl KnowledgeId {
    /// A fresh random identifier.
    pub fn generate() -> (r: Self)
        ensures
            is_generated_id(r@),
    {
        KnowledgeId(random_id_text())
    }

    pub fn from_string(value: &str) -> (r: Self)
        ensures
            r@ == value@,
    {
        KnowledgeId(value.to_owned())
    }

    pub fn from(value: &str) -> (r: Self)
        ensures
            r@ == value@,
    {
        KnowledgeId(value.to_owned())
    }

    pub fn from_owned(value: String) -> (r: Self)
        ensures
            r@ == value@,
    {
        KnowledgeId(value)
    }

    pub fn as_str(&self) -> (r: &str)
        ensures
            r@ == self@,
    {
        self.0.as_str()
    }

    /// The identifier's text, as `Display` writes it.
    pub fn to_string(&self) -> (r: String)
        ensures
            r@ == self@,
    {
        self.0.clone()
    }

    pub fn duplicate(&self) -> (r: Self)
        ensures
            r@ == self@,
    {
        KnowledgeId(self.0.clone())
    }

    pub fn same_as(&self, other: &Self) -> (r: bool)
        ensures
            r == (self@ == other@),
    {
        self.0 == other.0
    }
}

/// Identifier of a knowledge candidate of a task.
#[derive(Clone, Debug, PartialEq, Eq, Hash, PartialOrd, Ord)]
pub struct KnowledgeCandidateId(String);

impl View for KnowledgeCandidateId {
    type V = Seq<char>;

    closed spec fn view(&self) -> Seq<char> {
        self.0@
    }
}

impl KnowledgeCandidateId {
    /// A fresh random identifier.
    pub fn generate() -> (r: Self)
        ensures
            is_generated_id(r@),
    {
        KnowledgeCandidateId(random_id_text())
    }

    pub fn from_string(value: &str) -> (r: Self)
        ensures
            r@ == value@,
    {
        KnowledgeCandidateId(value.to_owned())
    }

    pub fn from(value: &str) -> (r: Self)
        ensures
            r@ == value@,
    {
        KnowledgeCandidateId(value.to_owned())
    }

    pub fn from_owned(value: String) -> (r: Self)
        ensures
            r@ == value@,
    {
        KnowledgeCandidateId(value)
    }

    pub fn as_str(&self) -> (r: &str)
        ensures
            r@ == self@,
    {
        self.0.as_str()
    }

    /// The identifier's text, as `Display` writes it.
    pub fn to_string(&self) -> (r: String)
        ensures
            r@ == self@,
    {
        self.0.clone()
    }

    pub fn duplicate(&self) -> (r: Self)
        ensures
            r@ == self@,
    {
        KnowledgeCandidateId(self.0.clone())
    }

    pub fn same_as(&self, other: &Self) -> (r: bool)
        ensures
            r == (self@ == other@),
    {
        self.0 == other.0
    }
}

} // verus!
