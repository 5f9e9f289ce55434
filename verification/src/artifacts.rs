//! Options, results and repository metadata of Cloudflare Artifacts.

use vstd::prelude::*;
use vstd::string::*;

use crate::json::{
    bool_json, bool_value, fields_of, lemma_object_view, number_json, number_value,
    optional_field, push_member, push_optional, shape_json, string_json,
    string_value, JsonMember, JsonValue, JsonView, RuntimeShape,
};

verus! {

/// The text of an optional string.
pub open spec fn opt_text(s: Option<String>) -> Option<Seq<char>> {
    match s {
        Some(t) => Some(t@),
        None => None,
    }
}

// ---------------------------------------------------------------------------
// Creating a repository

/// Options used when creating an Artifacts repository.
#[derive(Debug, Clone)]
pub struct ArtifactsCreateOptions {
    pub read_only: Option<bool>,
    pub description: Option<String>,
    pub set_default_branch: Option<String>,
}

impl Default for ArtifactsCreateOptions {
    fn default() -> (r: Self)
        ensures
            r.read_only is None,
            r.description is None,
            r.set_default_branch is None,
    {
        ArtifactsCreateOptions { read_only: None, description: None, set_default_branch: None }
    }
}

impl ArtifactsCreateOptions {
    /// Options with every field left to the service's defaults.
    pub fn new() -> (r: Self)
        ensures
            r.read_only is None,
            r.description is None,
            r.set_default_branch is None,
    {
        ArtifactsCreateOptions { read_only: None, description: None, set_default_branch: None }
    }

    /// Sets whether the repository is read-only.
    pub fn read_only(self, read_only: bool) -> (r: Self)
        ensures
            r.read_only == Some(read_only),
            r.description == self.description,
            r.set_default_branch == self.set_default_branch,
    {
        ArtifactsCreateOptions { read_only: Some(read_only), ..self }
    }

    /// Sets the repository's description.
    pub fn description(self, description: &str) -> (r: Self)
        ensures
            opt_text(r.description) == Some(description@),
            r.read_only == self.read_only,
            r.set_default_branch == self.set_default_branch,
    {
        ArtifactsCreateOptions { description: Some(String::from_str(description)), ..self }
    }

    /// Sets the name of the repository's default branch.
    pub fn default_branch(self, branch: &str) -> (r: Self)
        ensures
            opt_text(r.set_default_branch) == Some(branch@),
            r.read_only == self.read_only,
            r.description == self.description,
    {
        ArtifactsCreateOptions { set_default_branch: Some(String::from_str(branch)), ..self }
    }
}

impl RuntimeShape for ArtifactsCreateOptions {
    /// `{ readOnly?, description?, setDefaultBranch? }`, absent fields left out.
    open spec fn shape(&self) -> JsonView {
        JsonView::Object(
            optional_field("readOnly"@, bool_value(self.read_only)) + optional_field(
                "description"@,
                string_value(self.description),
            ) + optional_field("setDefaultBranch"@, string_value(self.set_default_branch)),
        )
    }

    fn runtime_shape(&self) -> (r: JsonValue) {
        let mut ms: Vec<JsonMember> = Vec::new();
        assert(fields_of(ms@) =~= seq![]);
        push_optional(&mut ms, "readOnly", bool_json(self.read_only));
        push_optional(&mut ms, "description", string_json(&self.description));
        push_optional(&mut ms, "setDefaultBranch", string_json(&self.set_default_branch));
        proof {
            lemma_object_view(ms);
        }
        JsonValue::Object(ms)
    }
}

// ---------------------------------------------------------------------------
// Importing a repository

/// Parameters for importing an external Git repository into Artifacts.
#[derive(Debug, Clone)]
pub struct ArtifactsImportParams {
    pub source: ArtifactsImportSource,
    pub target: ArtifactsImportTarget,
}

impl ArtifactsImportParams {
    /// Imports the repository at `url` into a new repository called `name`.
    pub fn new(url: &str, name: &str) -> (r: Self)
        ensures
            r.source.url@ == url@,
            r.source.branch is None,
            r.source.depth is None,
            r.target.name@ == name@,
            r.target.opts is None,
    {
        ArtifactsImportParams {
            source: ArtifactsImportSource::new(url),
            target: ArtifactsImportTarget::new(name),
        }
    }
}

impl RuntimeShape for ArtifactsImportParams {
    /// `{ source, target }`.
    open spec fn shape(&self) -> JsonView {
        JsonView::Object(seq![("source"@, self.source.shape()), ("target"@, self.target.shape())])
    }

    fn runtime_shape(&self) -> (r: JsonValue) {
        let mut ms: Vec<JsonMember> = Vec::new();
        assert(fields_of(ms@) =~= seq![]);
        push_member(&mut ms, "source", self.source.runtime_shape());
        push_member(&mut ms, "target", self.target.runtime_shape());
        proof {
            lemma_object_view(ms);
            assert(fields_of(ms@) =~= seq![
                ("source"@, self.source.shape()),
                ("target"@, self.target.shape()),
            ]);
        }
        JsonValue::Object(ms)
    }
}

/// Source settings for an Artifacts repository import.
#[derive(Debug, Clone)]
pub struct ArtifactsImportSource {
    pub url: String,
    pub branch: Option<String>,
    pub depth: Option<u32>,
}

impl ArtifactsImportSource {
    /// Imports from the HTTPS Git remote at `url`.
    pub fn new(url: &str) -> (r: Self)
        ensures
            r.url@ == url@,
            r.branch is None,
            r.depth is None,
    {
        ArtifactsImportSource { url: String::from_str(url), branch: None, depth: None }
    }

    /// Imports only `branch`.
    pub fn branch(self, branch: &str) -> (r: Self)
        ensures
            r.url == self.url,
            opt_text(r.branch) == Some(branch@),
            r.depth == self.depth,
    {
        ArtifactsImportSource { branch: Some(String::from_str(branch)), ..self }
    }

    /// Imports only the last `depth` commits.
    pub fn depth(self, depth: u32) -> (r: Self)
        ensures
            r.url == self.url,
            r.branch == self.branch,
            r.depth == Some(depth),
    {
        ArtifactsImportSource { depth: Some(depth), ..self }
    }
}

impl RuntimeShape for ArtifactsImportSource {
    /// `{ url, branch?, depth? }`.
    open spec fn shape(&self) -> JsonView {
        JsonView::Object(
            seq![("url"@, JsonView::Str(self.url@))] + optional_field(
                "branch"@,
                string_value(self.branch),
            ) + optional_field("depth"@, number_value(self.depth)),
        )
    }

    fn runtime_shape(&self) -> (r: JsonValue) {
        let mut ms: Vec<JsonMember> = Vec::new();
        assert(fields_of(ms@) =~= seq![]);
        push_member(&mut ms, "url", JsonValue::String(self.url.clone()));
        assert(fields_of(ms@) =~= seq![("url"@, JsonView::Str(self.url@))]);
        push_optional(&mut ms, "branch", string_json(&self.branch));
        push_optional(&mut ms, "depth", number_json(self.depth));
        proof {
            lemma_object_view(ms);
        }
        JsonValue::Object(ms)
    }
}

/// Target settings for an Artifacts repository import.
#[derive(Debug, Clone)]
pub struct ArtifactsImportTarget {
    pub name: String,
    pub opts: Option<ArtifactsImportTargetOptions>,
}

impl ArtifactsImportTarget {
    /// Imports into a new repository called `name`.
    pub fn new(name: &str) -> (r: Self)
        ensures
            r.name@ == name@,
            r.opts is None,
    {
        ArtifactsImportTarget { name: String::from_str(name), opts: None }
    }

    /// Sets the options of the new repository.
    pub fn options(self, options: ArtifactsImportTargetOptions) -> (r: Self)
        ensures
            r.name == self.name,
            r.opts == Some(options),
    {
        ArtifactsImportTarget { opts: Some(options), ..self }
    }
}

impl RuntimeShape for ArtifactsImportTarget {
    /// `{ name, opts? }`.
    open spec fn shape(&self) -> JsonView {
        JsonView::Object(
            seq![("name"@, JsonView::Str(self.name@))] + optional_field(
                "opts"@,
                match self.opts {
                    Some(o) => Some(o.shape()),
                    None => None,
                },
            ),
        )
    }

    fn runtime_shape(&self) -> (r: JsonValue) {
        let mut ms: Vec<JsonMember> = Vec::new();
        assert(fields_of(ms@) =~= seq![]);
        push_member(&mut ms, "name", JsonValue::String(self.name.clone()));
        assert(fields_of(ms@) =~= seq![("name"@, JsonView::Str(self.name@))]);
        push_optional(&mut ms, "opts", shape_json(&self.opts));
        proof {
            lemma_object_view(ms);
        }
        JsonValue::Object(ms)
    }
}

/// Options applied to the target of an Artifacts repository import.
#[derive(Debug, Clone)]
pub struct ArtifactsImportTargetOptions {
    pub description: Option<String>,
    pub read_only: Option<bool>,
}

impl Default for ArtifactsImportTargetOptions {
    fn default() -> (r: Self)
        ensures
            r.description is None,
            r.read_only is None,
    {
        ArtifactsImportTargetOptions { description: None, read_only: None }
    }
}

impl ArtifactsImportTargetOptions {
    /// Options with every field left to the service's defaults.
    pub fn new() -> (r: Self)
        ensures
            r.description is None,
            r.read_only is None,
    {
        ArtifactsImportTargetOptions { description: None, read_only: None }
    }

    /// Sets the new repository's description.
    pub fn description(self, description: &str) -> (r: Self)
        ensures
            opt_text(r.description) == Some(description@),
            r.read_only == self.read_only,
    {
        ArtifactsImportTargetOptions { description: Some(String::from_str(description)), ..self }
    }

    /// Sets whether the new repository is read-only.
    pub fn read_only(self, read_only: bool) -> (r: Self)
        ensures
            r.description == self.description,
            r.read_only == Some(read_only),
    {
        ArtifactsImportTargetOptions { read_only: Some(read_only), ..self }
    }
}

impl RuntimeShape for ArtifactsImportTargetOptions {
    /// `{ description?, readOnly? }`.
    open spec fn shape(&self) -> JsonView {
        JsonView::Object(
            optional_field("description"@, string_value(self.description)) + optional_field(
                "readOnly"@,
                bool_value(self.read_only),
            ),
        )
    }

    fn runtime_shape(&self) -> (r: JsonValue) {
        let mut ms: Vec<JsonMember> = Vec::new();
        assert(fields_of(ms@) =~= seq![]);
        push_optional(&mut ms, "description", string_json(&self.description));
        push_optional(&mut ms, "readOnly", bool_json(self.read_only));
        proof {
            lemma_object_view(ms);
        }
        JsonValue::Object(ms)
    }
}

// ---------------------------------------------------------------------------
// Listing repositories

/// Pagination options for listing Artifacts repositories.
#[derive(Debug, Clone)]
pub struct ArtifactsListOptions {
    pub limit: Option<u32>,
    pub cursor: Option<String>,
}

impl Default for ArtifactsListOptions {
    fn default() -> (r: Self)
        ensures
            r.limit is None,
            r.cursor is None,
    {
        ArtifactsListOptions { limit: None, cursor: None }
    }
}

impl ArtifactsListOptions {
    /// Options with every field left to the service's defaults.
    pub fn new() -> (r: Self)
        ensures
            r.limit is None,
            r.cursor is None,
    {
        ArtifactsListOptions { limit: None, cursor: None }
    }

    /// Sets the page size.
    pub fn limit(self, limit: u32) -> (r: Self)
        ensures
            r.limit == Some(limit),
            r.cursor == self.cursor,
    {
        ArtifactsListOptions { limit: Some(limit), ..self }
    }

    /// Continues from the cursor a previous page returned.
    pub fn cursor(self, cursor: &str) -> (r: Self)
        ensures
            r.limit == self.limit,
            opt_text(r.cursor) == Some(cursor@),
    {
        ArtifactsListOptions { cursor: Some(String::from_str(cursor)), ..self }
    }
}

impl RuntimeShape for ArtifactsListOptions {
    /// `{ limit?, cursor? }`.
    open spec fn shape(&self) -> JsonView {
        JsonView::Object(
            optional_field("limit"@, number_value(self.limit)) + optional_field(
                "cursor"@,
                string_value(self.cursor),
            ),
        )
    }

    fn runtime_shape(&self) -> (r: JsonValue) {
        let mut ms: Vec<JsonMember> = Vec::new();
        assert(fields_of(ms@) =~= seq![]);
        push_optional(&mut ms, "limit", number_json(self.limit));
        push_optional(&mut ms, "cursor", string_json(&self.cursor));
        proof {
            lemma_object_view(ms);
        }
        JsonValue::Object(ms)
    }
}

// ---------------------------------------------------------------------------
// Results

/// Metadata and the initial token returned when a repository is created,
/// imported, or forked.
#[derive(Debug, Clone)]
pub struct ArtifactsCreateRepoResult {
    pub id: String,
    pub name: String,
    pub description: Option<String>,
    pub default_branch: String,
    pub remote: String,
    pub token: String,
    pub token_expires_at: String,
}

/// Metadata for an Artifacts repository. `remote` is absent from the
/// entries of a repository listing.
#[derive(Debug, Clone)]
pub struct ArtifactsRepoInfo {
    pub id: String,
    pub name: String,
    pub description: Option<String>,
    pub default_branch: String,
    pub created_at: String,
    pub updated_at: String,
    pub last_push_at: Option<String>,
    pub source: Option<String>,
    pub read_only: bool,
    pub remote: Option<String>,
    pub status: Option<ArtifactsRepoStatus>,
}

/// State of an asynchronous Artifacts repository operation.
#[derive(Debug, Clone, Copy, PartialEq, Eq)]
pub enum ArtifactsRepoStatus {
    Ready,
    Importing,
    Forking,
    Unknown,
}

/// A page of Artifacts repositories.
#[derive(Debug, Clone)]
pub struct ArtifactsRepoListResult {
    pub repos: Vec<ArtifactsRepoInfo>,
    pub total: u32,
    pub cursor: Option<String>,
}

/// Scope assigned to an Artifacts repository token.
#[derive(Debug, Clone, Copy, PartialEq, Eq)]
pub enum ArtifactsTokenScope {
    Read,
    Write,
}

/// State of an Artifacts repository token.
#[derive(Debug, Clone, Copy, PartialEq, Eq)]
pub enum ArtifactsTokenState {
    Active,
    Expired,
    Revoked,
    Unknown,
}

/// A newly-created Artifacts repository token.
#[derive(Debug, Clone)]
pub struct ArtifactsCreateTokenResult {
    pub id: String,
    pub plaintext: String,
    pub scope: ArtifactsTokenScope,
    pub expires_at: String,
}

/// Metadata for an Artifacts repository token; the plaintext token is not included.
#[derive(Debug, Clone)]
pub struct ArtifactsTokenInfo {
    pub id: String,
    pub scope: ArtifactsTokenScope,
    pub state: ArtifactsTokenState,
    pub created_at: String,
    pub expires_at: String,
}

/// Tokens belonging to an Artifacts repository.
#[derive(Debug, Clone)]
pub struct ArtifactsTokenListResult {
    pub tokens: Vec<ArtifactsTokenInfo>,
    pub total: u32,
}

// ---------------------------------------------------------------------------
// A repository

/// One Artifacts repository, by the metadata that its handle reports.
#[derive(Debug, Clone)]
pub struct ArtifactsRepo {
    id: String,
    name: String,
    description: Option<String>,
    default_branch: String,
    created_at: String,
    updated_at: String,
    last_push_at: Option<String>,
    source: Option<String>,
    read_only: bool,
    remote: String,
}

impl ArtifactsRepo {
    /// The repository described by `info`, reachable at `remote`.
    pub fn from_info(info: ArtifactsRepoInfo, remote: String) -> (r: Self)
        ensures
            r.spec_id() == info.id,
            r.spec_name() == info.name,
            r.spec_description() == info.description,
            r.spec_default_branch() == info.default_branch,
            r.spec_created_at() == info.created_at,
            r.spec_updated_at() == info.updated_at,
            r.spec_last_push_at() == info.last_push_at,
            r.spec_source() == info.source,
            r.spec_read_only() == info.read_only,
            r.spec_remote() == remote,
    {
        ArtifactsRepo {
            id: info.id,
            name: info.name,
            description: info.description,
            default_branch: info.default_branch,
            created_at: info.created_at,
            updated_at: info.updated_at,
            last_push_at: info.last_push_at,
            source: info.source,
            read_only: info.read_only,
            remote,
        }
    }

    pub closed spec fn spec_id(&self) -> String {
        self.id
    }

    pub closed spec fn spec_name(&self) -> String {
        self.name
    }

    pub closed spec fn spec_description(&self) -> Option<String> {
        self.description
    }

    pub closed spec fn spec_default_branch(&self) -> String {
        self.default_branch
    }

    pub closed spec fn spec_created_at(&self) -> String {
        self.created_at
    }

    pub closed spec fn spec_updated_at(&self) -> String {
        self.updated_at
    }

    pub closed spec fn spec_last_push_at(&self) -> Option<String> {
        self.last_push_at
    }

    pub closed spec fn spec_source(&self) -> Option<String> {
        self.source
    }

    pub closed spec fn spec_read_only(&self) -> bool {
        self.read_only
    }

    pub closed spec fn spec_remote(&self) -> String {
        self.remote
    }

    /// The repository's ID.
    pub fn id(&self) -> (r: String)
        ensures
            r == self.spec_id(),
    {
        self.id.clone()
    }

    /// The repository's name.
    pub fn name(&self) -> (r: String)
        ensures
            r == self.spec_name(),
    {
        self.name.clone()
    }

    /// The repository's description, if it has one.
    pub fn description(&self) -> (r: Option<String>)
        ensures
            r == self.spec_description(),
    {
        self.description.clone()
    }

    /// The name of the repository's default branch.
    pub fn default_branch(&self) -> (r: String)
        ensures
            r == self.spec_default_branch(),
    {
        self.default_branch.clone()
    }

    /// When the repository was created.
    pub fn created_at(&self) -> (r: String)
        ensures
            r == self.spec_created_at(),
    {
        self.created_at.clone()
    }

    /// When the repository was last updated.
    pub fn updated_at(&self) -> (r: String)
        ensures
            r == self.spec_updated_at(),
    {
        self.updated_at.clone()
    }

    /// When the repository was last pushed to, if ever.
    pub fn last_push_at(&self) -> (r: Option<String>)
        ensures
            r == self.spec_last_push_at(),
    {
        self.last_push_at.clone()
    }

    /// The remote the repository was imported or forked from, if any.
    pub fn source(&self) -> (r: Option<String>)
        ensures
            r == self.spec_source(),
    {
        self.source.clone()
    }

    /// Whether the repository is read-only.
    pub fn read_only(&self) -> (r: bool)
        ensures
            r == self.spec_read_only(),
    {
        self.read_only
    }

    /// The repository's Git remote URL.
    pub fn remote(&self) -> (r: String)
        ensures
            r == self.spec_remote(),
    {
        self.remote.clone()
    }
}

// ---------------------------------------------------------------------------
// Forking and history

/// Options used when forking an Artifacts repository.
#[derive(Debug, Clone)]
pub struct ArtifactsForkOptions {
    pub description: Option<String>,
    pub read_only: Option<bool>,
    pub default_branch_only: Option<bool>,
}

impl Default for ArtifactsForkOptions {
    fn default() -> (r: Self)
        ensures
            r.description is None,
            r.read_only is None,
            r.default_branch_only is None,
    {
        ArtifactsForkOptions { description: None, read_only: None, default_branch_only: None }
    }
}

impl ArtifactsForkOptions {
    /// Options with every field left to the service's defaults.
    pub fn new() -> (r: Self)
        ensures
            r.description is None,
            r.read_only is None,
            r.default_branch_only is None,
    {
        ArtifactsForkOptions { description: None, read_only: None, default_branch_only: None }
    }

    /// Sets the fork's description.
    pub fn description(self, description: &str) -> (r: Self)
        ensures
            opt_text(r.description) == Some(description@),
            r.read_only == self.read_only,
            r.default_branch_only == self.default_branch_only,
    {
        ArtifactsForkOptions { description: Some(String::from_str(description)), ..self }
    }

    /// Sets whether the fork is read-only.
    pub fn read_only(self, read_only: bool) -> (r: Self)
        ensures
            r.description == self.description,
            r.read_only == Some(read_only),
            r.default_branch_only == self.default_branch_only,
    {
        ArtifactsForkOptions { read_only: Some(read_only), ..self }
    }

    /// Sets whether only the default branch is forked.
    pub fn default_branch_only(self, default_branch_only: bool) -> (r: Self)
        ensures
            r.description == self.description,
            r.read_only == self.read_only,
            r.default_branch_only == Some(default_branch_only),
    {
        ArtifactsForkOptions { default_branch_only: Some(default_branch_only), ..self }
    }
}

impl RuntimeShape for ArtifactsForkOptions {
    /// `{ description?, readOnly?, defaultBranchOnly? }`.
    open spec fn shape(&self) -> JsonView {
        JsonView::Object(
            optional_field("description"@, string_value(self.description)) + optional_field(
                "readOnly"@,
                bool_value(self.read_only),
            ) + optional_field("defaultBranchOnly"@, bool_value(self.default_branch_only)),
        )
    }

    fn runtime_shape(&self) -> (r: JsonValue) {
        let mut ms: Vec<JsonMember> = Vec::new();
        assert(fields_of(ms@) =~= seq![]);
        push_optional(&mut ms, "description", string_json(&self.description));
        push_optional(&mut ms, "readOnly", bool_json(self.read_only));
        push_optional(&mut ms, "defaultBranchOnly", bool_json(self.default_branch_only));
        proof {
            lemma_object_view(ms);
        }
        JsonValue::Object(ms)
    }
}

/// Options used when reading an Artifacts repository's commit history.
#[derive(Debug, Clone)]
pub struct ArtifactsLogOptions {
    pub git_ref: Option<String>,
    pub limit: Option<u32>,
    pub offset: Option<u32>,
}

impl Default for ArtifactsLogOptions {
    fn default() -> (r: Self)
        ensures
            r.git_ref is None,
            r.limit is None,
            r.offset is None,
    {
        ArtifactsLogOptions { git_ref: None, limit: None, offset: None }
    }
}

impl ArtifactsLogOptions {
    /// Options with every field left to the service's defaults.
    pub fn new() -> (r: Self)
        ensures
            r.git_ref is None,
            r.limit is None,
            r.offset is None,
    {
        ArtifactsLogOptions { git_ref: None, limit: None, offset: None }
    }

    /// Reads the history of `git_ref` (sent to the runtime as `ref`).
    pub fn git_ref(self, git_ref: &str) -> (r: Self)
        ensures
            opt_text(r.git_ref) == Some(git_ref@),
            r.limit == self.limit,
            r.offset == self.offset,
    {
        ArtifactsLogOptions { git_ref: Some(String::from_str(git_ref)), ..self }
    }

    /// Reads at most `limit` commits.
    pub fn limit(self, limit: u32) -> (r: Self)
        ensures
            r.git_ref == self.git_ref,
            r.limit == Some(limit),
            r.offset == self.offset,
    {
        ArtifactsLogOptions { limit: Some(limit), ..self }
    }

    /// Skips the first `offset` commits.
    pub fn offset(self, offset: u32) -> (r: Self)
        ensures
            r.git_ref == self.git_ref,
            r.limit == self.limit,
            r.offset == Some(offset),
    {
        ArtifactsLogOptions { offset: Some(offset), ..self }
    }
}

impl RuntimeShape for ArtifactsLogOptions {
    /// `{ ref?, limit?, offset? }`.
    open spec fn shape(&self) -> JsonView {
        JsonView::Object(
            optional_field("ref"@, string_value(self.git_ref)) + optional_field(
                "limit"@,
                number_value(self.limit),
            ) + optional_field("offset"@, number_value(self.offset)),
        )
    }

    fn runtime_shape(&self) -> (r: JsonValue) {
        let mut ms: Vec<JsonMember> = Vec::new();
        assert(fields_of(ms@) =~= seq![]);
        push_optional(&mut ms, "ref", string_json(&self.git_ref));
        push_optional(&mut ms, "limit", number_json(self.limit));
        push_optional(&mut ms, "offset", number_json(self.offset));
        proof {
            lemma_object_view(ms);
        }
        JsonValue::Object(ms)
    }
}

} // verus!
