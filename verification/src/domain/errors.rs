//! The errors the domain reports, and the text each one reads as.
use vstd::prelude::*;
use vstd::string::StringExecFns;

verus! {

/// The kind of entity an error is about.
#[derive(Clone, Copy, Debug, PartialEq, Eq)]
pub enum EntityKind {
    Task,
    Skill,
    Knowledge,
    KnowledgeCandidate,
    Repo,
    RepoGroup,
    Mount,
    /// A kind named by its own text, which the message shows as it is.
    Other(&'static str),
}

/// The input field an error is about.
#[derive(Clone, Copy, Debug, PartialEq, Eq)]
pub enum FieldKind {
    Slug,
    Title,
    Template,
    Tags,
    Name,
    Url,
    Path,
    Status,
    Timestamp,
    Other(&'static str),
}

#[derive(Clone, Debug, PartialEq, Eq)]
pub enum DomainError {
    NotFound { entity: EntityKind, slug: String },
    AlreadyExists { entity: EntityKind, slug: String },
    InvalidInput { field: FieldKind, reason: String },
    Conflict { entity: EntityKind, reason: String },
    PersistenceFailed { operation: &'static str, detail: String },
}

/// What `format!("{:?}", s)` writes for a `&str`: the text in double quotes,
/// escaped as `str::escape_debug` does.
pub uninterp spec fn str_debug_text(s: Seq<char>) -> Seq<char>;

/// `Debug` for `&str`, through `format!`. Its output is named, not described:
/// it depends on the text alone.
#[verifier::external_body]
fn quoted_debug_text(s: &str) -> (r: String)
    ensures
        r@ == str_debug_text(s@),
{
    format!("{:?}", s)
}

/// The name an entity kind reads as in messages: the variant's name, or the
/// text of `Other`.
pub open spec fn entity_kind_text(e: EntityKind) -> Seq<char> {
    match e {
        EntityKind::Task => "Task"@,
        EntityKind::Skill => "Skill"@,
        EntityKind::Knowledge => "Knowledge"@,
        EntityKind::KnowledgeCandidate => "KnowledgeCandidate"@,
        EntityKind::Repo => "Repo"@,
        EntityKind::RepoGroup => "RepoGroup"@,
        EntityKind::Mount => "Mount"@,
        EntityKind::Other(name) => name@,
    }
}

/// A field kind as `Debug` writes it.
pub open spec fn field_kind_text(f: FieldKind) -> Seq<char> {
    match f {
        FieldKind::Slug => "Slug"@,
        FieldKind::Title => "Title"@,
        FieldKind::Template => "Template"@,
        FieldKind::Tags => "Tags"@,
        FieldKind::Name => "Name"@,
        FieldKind::Url => "Url"@,
        FieldKind::Path => "Path"@,
        FieldKind::Status => "Status"@,
        FieldKind::Timestamp => "Timestamp"@,
        FieldKind::Other(name) => "Other("@ + str_debug_text(name@) + ")"@,
    }
}

/// The message of a domain error.
pub open spec fn domain_error_text(e: DomainError) -> Seq<char> {
    match e {
        DomainError::NotFound { entity, slug } => entity_kind_text(entity) + " not found: "@ + slug@,
        DomainError::AlreadyExists { entity, slug } => entity_kind_text(entity)
            + " already exists: "@ + slug@,
        DomainError::InvalidInput { field, reason } => "invalid input for "@ + field_kind_text(field)
            + ": "@ + reason@,
        DomainError::Conflict { entity, reason } => entity_kind_text(entity) + " conflict: "@
            + reason@,
        DomainError::PersistenceFailed { operation, detail } => "persistence error during "@
            + operation@ + ": "@ + detail@,
    }
}

impl EntityKind {
    pub fn push_text(&self, out: &mut String)
        ensures
            final(out)@ == old(out)@ + entity_kind_text(*self),
    {
        match self {
            EntityKind::Task => out.append("Task"),
            EntityKind::Skill => out.append("Skill"),
            EntityKind::Knowledge => out.append("Knowledge"),
            EntityKind::KnowledgeCandidate => out.append("KnowledgeCandidate"),
            EntityKind::Repo => out.append("Repo"),
            EntityKind::RepoGroup => out.append("RepoGroup"),
            EntityKind::Mount => out.append("Mount"),
            EntityKind::Other(name) => out.append(name),
        }
    }
}

impl FieldKind {
    pub fn push_text(&self, out: &mut String)
        ensures
            final(out)@ == old(out)@ + field_kind_text(*self),
    {
        match self {
            FieldKind::Slug => out.append("Slug"),
            FieldKind::Title => out.append("Title"),
            FieldKind::Template => out.append("Template"),
            FieldKind::Tags => out.append("Tags"),
            FieldKind::Name => out.append("Name"),
            FieldKind::Url => out.append("Url"),
            FieldKind::Path => out.append("Path"),
            FieldKind::Status => out.append("Status"),
            FieldKind::Timestamp => out.append("Timestamp"),
            FieldKind::Other(name) => {
                out.append("Other(");
                let quoted = quoted_debug_text(name);
                out.append(quoted.as_str());
                out.append(")");
                assert(final(out)@ =~= old(out)@ + field_kind_text(*self));
            },
        }
    }
}

impl DomainError {
    /// The error's message, as `Display` writes it.
    pub fn to_string(&self) -> (r: String)
        ensures
            r@ == domain_error_text(*self),
    {
        let mut out = String::new();
        match self {
            DomainError::NotFound { entity, slug } => {
                entity.push_text(&mut out);
                out.append(" not found: ");
                out.append(slug.as_str());
            },
            DomainError::AlreadyExists { entity, slug } => {
                entity.push_text(&mut out);
                out.append(" already exists: ");
                out.append(slug.as_str());
            },
            DomainError::InvalidInput { field, reason } => {
                out.append("invalid input for ");
                field.push_text(&mut out);
                out.append(": ");
                out.append(reason.as_str());
            },
            DomainError::Conflict { entity, reason } => {
                entity.push_text(&mut out);
                out.append(" conflict: ");
                out.append(reason.as_str());
            },
            DomainError::PersistenceFailed { operation, detail } => {
                out.append("persistence error during ");
                out.append(operation);
                out.append(": ");
                out.append(detail.as_str());
            },
        }
        assert(out@ =~= domain_error_text(*self));
        out
    }
}

} // verus!
