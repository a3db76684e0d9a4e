//! The commands, their arguments, and the API names of their option values.
use vstd::prelude::*;

verus! {

/// A parsed command line.
#[derive(Debug)]
pub struct Cli {
    pub command: Command,
}

/// The top-level commands.
#[derive(Debug)]
pub enum Command {
    /// Authentication commands
    Auth { subcommand: AuthCommand },
    /// Search commands
    Search { subcommand: SearchCommand },
    /// Ask Zhida
    Ask(AskArgs),
    /// Show Zhihu hot list
    Hot(HotArgs),
    /// Query daily free quota usage
    Quota(QuotaArgs),
    /// Zhihu user data commands (contents, followees, collections, favlists)
    User { subcommand: UserCommand },
    /// Knowledge base commands
    Kb { subcommand: KbCommand },
    /// PDF parse commands
    Pdf { subcommand: PdfCommand },
    /// PPT generation commands
    Ppt { subcommand: PptCommand },
}

/// Arguments of `ask`.
#[derive(Debug)]
pub struct AskArgs {
    /// User query
    pub query: String,
    /// Model tier
    pub model: ModelTier,
    /// Stream output
    pub stream: bool,
}

/// Arguments of `hot`.
#[derive(Debug)]
pub struct HotArgs {
    /// Number of results to return
    pub limit: i32,
}

/// Arguments of `quota`.
#[derive(Debug)]
pub struct QuotaArgs {
    /// API IDs to filter; empty for all
    pub ids: Vec<String>,
}

/// The `user` subcommands.
#[derive(Debug)]
pub enum UserCommand {
    /// List the user's created contents
    Contents {
        content_type: UserContentType,
        offset: i64,
        limit: i64,
        sort_field: SortField,
        sort_order: SortOrder,
        oauth_token: Option<String>,
    },
    /// List the users the user follows
    Followees { offset: i64, limit: i64, oauth_token: Option<String> },
    /// List the user's recently collected contents
    Collections { limit: i64, oauth_token: Option<String> },
    /// List the user's favlists
    Favlists { limit: i64, oauth_token: Option<String> },
    /// List the contents of a favlist
    FavlistContents { favlist_url_token: i64, offset: i64, limit: i64, oauth_token: Option<String> },
}

/// The `auth` subcommands.
#[derive(Debug)]
pub enum AuthCommand {
    /// Interactive login
    Login,
    /// Set access secret directly
    SetSecret { secret: String },
    /// Show authentication status
    Status,
}

/// The `search` subcommands.
#[derive(Debug)]
pub enum SearchCommand {
    /// Search within Zhihu
    Zhihu { query: String, count: i32 },
    /// Search the whole web
    Global { query: String, count: i32, filter: Option<String>, db: SearchDb },
}

/// The `kb` subcommands.
#[derive(Debug)]
pub enum KbCommand {
    /// List knowledge bases you created or subscribed
    List { scope: KbScope },
    /// List the contents of a knowledge base
    Items { kb_id: String, cursor: Option<String>, limit: i32 },
    /// Upload a file to a knowledge base (your default one when `kb_id` is absent)
    Upload { file: String, kb_id: Option<String> },
    /// RAG search across knowledge bases and/or recall scopes
    Search { query: String, kb_ids: Vec<String>, scopes: Vec<RecallScope>, limit: i32 },
}

/// The `pdf` subcommands.
#[derive(Debug)]
pub enum PdfCommand {
    /// Upload a PDF file and get a file_id
    Upload { file: String },
    /// Create a PDF parse task from a file_id
    Task { file_id: String, idempotency_key: Option<String> },
    /// Query a PDF parse task status
    Status { task_id: String },
    /// Upload, create a task, and wait for the parse result
    Parse { file: String, timeout_secs: u64, idempotency_key: Option<String> },
}

/// The `ppt` subcommands.
#[derive(Debug)]
pub enum PptCommand {
    /// Create a PPT generation task from a Zhihu answer/article URL
    Task { resource_url: String, pages: i32, idempotency_key: Option<String> },
    /// Query a PPT generation task status
    Status { task_id: String },
    /// Create a task and wait for the PPTX download link
    Generate { resource_url: String, pages: i32, timeout_secs: u64, idempotency_key: Option<String> },
}

/// The creator-data subcommands.
#[derive(Debug)]
pub enum CreatorCommand {
    /// Full text of one of the user's contents
    Detail { content_url: String },
    /// Comments on one of the user's contents
    Comments { content_url: String, offset: i64, limit: i64, order: CommentOrder },
    /// Statistics of the user's account
    AccountStats {
        content_type: CreatorContentType,
        start_date: Option<String>,
        end_date: Option<String>,
    },
    /// Statistics of one content
    ContentStats { content_url: String, start_date: Option<String>, end_date: Option<String> },
}

/// The question subcommands.
#[derive(Debug)]
pub enum QuestionCommand {
    /// Recommended questions, on a topic when `query` is given
    Recommend { query: Option<String>, count: i32 },
    /// Answers of a question
    Answers { question_url: String, offset: i64, limit: i64 },
}

/// The Zhida model tier.
#[derive(Debug, Clone, Copy, PartialEq, Eq)]
pub enum ModelTier {
    Fast,
    Thinking,
    Agent,
}

impl ModelTier {
    /// The name the API uses for this value.
    pub open spec fn spec_api_name(&self) -> Seq<char> {
        match self {
            ModelTier::Fast => "zhida-fast-1p5"@,
            ModelTier::Thinking => "zhida-thinking-1p5"@,
            ModelTier::Agent => "zhida-agent"@,
        }
    }

    /// The name the API uses for this value.
    pub fn api_name(&self) -> (r: &'static str)
        ensures
            r@ == self.spec_api_name(),
    {
        match self {
            ModelTier::Fast => "zhida-fast-1p5",
            ModelTier::Thinking => "zhida-thinking-1p5",
            ModelTier::Agent => "zhida-agent",
        }
    }
}

impl Default for ModelTier {
    fn default() -> (r: Self)
        ensures
            r == ModelTier::Fast,
    {
        ModelTier::Fast
    }
}

/// The index database of a global search.
#[derive(Debug, Clone, Copy, PartialEq, Eq)]
pub enum SearchDb {
    All,
    Realtime,
    Static,
}

impl SearchDb {
    /// The name the API uses for this value.
    pub open spec fn spec_api_name(&self) -> Seq<char> {
        match self {
            SearchDb::All => "all"@,
            SearchDb::Realtime => "realtime"@,
            SearchDb::Static => "static"@,
        }
    }

    /// The name the API uses for this value.
    pub fn api_name(&self) -> (r: &'static str)
        ensures
            r@ == self.spec_api_name(),
    {
        match self {
            SearchDb::All => "all",
            SearchDb::Realtime => "realtime",
            SearchDb::Static => "static",
        }
    }
}

impl Default for SearchDb {
    fn default() -> (r: Self)
        ensures
            r == SearchDb::All,
    {
        SearchDb::All
    }
}

/// The kind of user content to list.
#[derive(Debug, Clone, Copy, PartialEq, Eq)]
pub enum UserContentType {
    All,
    Answer,
    Article,
    Zvideo,
    Pin,
    Question,
}

impl UserContentType {
    /// The name the API uses for this value.
    pub open spec fn spec_api_name(&self) -> Seq<char> {
        match self {
            UserContentType::All => "all"@,
            UserContentType::Answer => "answer"@,
            UserContentType::Article => "article"@,
            UserContentType::Zvideo => "zvideo"@,
            UserContentType::Pin => "pin"@,
            UserContentType::Question => "question"@,
        }
    }

    /// The name the API uses for this value.
    pub fn api_name(&self) -> (r: &'static str)
        ensures
            r@ == self.spec_api_name(),
    {
        match self {
            UserContentType::All => "all",
            UserContentType::Answer => "answer",
            UserContentType::Article => "article",
            UserContentType::Zvideo => "zvideo",
            UserContentType::Pin => "pin",
            UserContentType::Question => "question",
        }
    }
}

impl Default for UserContentType {
    fn default() -> (r: Self)
        ensures
            r == UserContentType::All,
    {
        UserContentType::All
    }
}

/// The field that user contents are sorted by.
#[derive(Debug, Clone, Copy, PartialEq, Eq)]
pub enum SortField {
    Ts,
    LikeCount,
}

impl SortField {
    /// The name the API uses for this value.
    pub open spec fn spec_api_name(&self) -> Seq<char> {
        match self {
            SortField::Ts => "ts"@,
            SortField::LikeCount => "like_count"@,
        }
    }

    /// The name the API uses for this value.
    pub fn api_name(&self) -> (r: &'static str)
        ensures
            r@ == self.spec_api_name(),
    {
        match self {
            SortField::Ts => "ts",
            SortField::LikeCount => "like_count",
        }
    }
}

impl Default for SortField {
    fn default() -> (r: Self)
        ensures
            r == SortField::Ts,
    {
        SortField::Ts
    }
}

/// The order that user contents are sorted in.
#[derive(Debug, Clone, Copy, PartialEq, Eq)]
pub enum SortOrder {
    Desc,
    Asc,
}

impl SortOrder {
    /// The name the API uses for this value.
    pub open spec fn spec_api_name(&self) -> Seq<char> {
        match self {
            SortOrder::Desc => "desc"@,
            SortOrder::Asc => "asc"@,
        }
    }

    /// The name the API uses for this value.
    pub fn api_name(&self) -> (r: &'static str)
        ensures
            r@ == self.spec_api_name(),
    {
        match self {
            SortOrder::Desc => "desc",
            SortOrder::Asc => "asc",
        }
    }
}

impl Default for SortOrder {
    fn default() -> (r: Self)
        ensures
            r == SortOrder::Desc,
    {
        SortOrder::Desc
    }
}

/// Which knowledge bases to list, by the user's relation to them.
#[derive(Debug, Clone, Copy, PartialEq, Eq)]
pub enum KbScope {
    All,
    Created,
    Subscribed,
}

impl KbScope {
    /// The name the API uses for this value.
    pub open spec fn spec_api_name(&self) -> Seq<char> {
        match self {
            KbScope::All => "all"@,
            KbScope::Created => "created"@,
            KbScope::Subscribed => "subscribed"@,
        }
    }

    /// The name the API uses for this value.
    pub fn api_name(&self) -> (r: &'static str)
        ensures
            r@ == self.spec_api_name(),
    {
        match self {
            KbScope::All => "all",
            KbScope::Created => "created",
            KbScope::Subscribed => "subscribed",
        }
    }
}

impl Default for KbScope {
    fn default() -> (r: Self)
        ensures
            r == KbScope::All,
    {
        KbScope::All
    }
}

/// A recall scope of a knowledge base search.
#[derive(Debug, Clone, Copy, PartialEq, Eq)]
pub enum RecallScope {
    Personal,
    Subscription,
    Public,
}

impl RecallScope {
    /// The name the API uses for this value.
    pub open spec fn spec_api_name(&self) -> Seq<char> {
        match self {
            RecallScope::Personal => "personal"@,
            RecallScope::Subscription => "subscription"@,
            RecallScope::Public => "public"@,
        }
    }

    /// The name the API uses for this value.
    pub fn api_name(&self) -> (r: &'static str)
        ensures
            r@ == self.spec_api_name(),
    {
        match self {
            RecallScope::Personal => "personal",
            RecallScope::Subscription => "subscription",
            RecallScope::Public => "public",
        }
    }
}

/// The order that content comments are listed in.
#[derive(Debug, Clone, Copy, PartialEq, Eq)]
pub enum CommentOrder {
    Score,
    Reverse,
    Ascending,
}

impl CommentOrder {
    /// The name the API uses for this value.
    pub open spec fn spec_api_name(&self) -> Seq<char> {
        match self {
            CommentOrder::Score => "score"@,
            CommentOrder::Reverse => "reverse"@,
            CommentOrder::Ascending => "ascending"@,
        }
    }

    /// The name the API uses for this value.
    pub fn api_name(&self) -> (r: &'static str)
        ensures
            r@ == self.spec_api_name(),
    {
        match self {
            CommentOrder::Score => "score",
            CommentOrder::Reverse => "reverse",
            CommentOrder::Ascending => "ascending",
        }
    }
}

/// The kind of content that creator statistics cover.
#[derive(Debug, Clone, Copy, PartialEq, Eq)]
pub enum CreatorContentType {
    All,
    Answer,
    Article,
    Pin,
    Zvideo,
}

impl CreatorContentType {
    /// The name the API uses for this value.
    pub open spec fn spec_api_name(&self) -> Seq<char> {
        match self {
            CreatorContentType::All => "all"@,
            CreatorContentType::Answer => "answer"@,
            CreatorContentType::Article => "article"@,
            CreatorContentType::Pin => "pin"@,
            CreatorContentType::Zvideo => "zvideo"@,
        }
    }

    /// The name the API uses for this value.
    pub fn api_name(&self) -> (r: &'static str)
        ensures
            r@ == self.spec_api_name(),
    {
        match self {
            CreatorContentType::All => "all",
            CreatorContentType::Answer => "answer",
            CreatorContentType::Article => "article",
            CreatorContentType::Pin => "pin",
            CreatorContentType::Zvideo => "zvideo",
        }
    }
}

} // verus!
