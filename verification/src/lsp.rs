//! The types of the protocol's messages: the lifecycle of a session, the
//! capabilities of clients and servers, the synchronisation of documents
//! and the notifications about files.

use vstd::prelude::*;
use vstd::string::*;
use crate::lsp::basic::{
    CreateFile, DeleteFile, Diagnostic, DiagnosticTag, DocumentSelector, GlobPattern, Location,
    LocationLink,
    MarkdownClientCapabilities, MarkupContent, PositionEncodingKind, Range,
    RegularExpressionsClientCapabilities, RenameFile, TextDocumentEdit, TextDocumentIdentifier,
    TextDocumentItem, TextDocumentPositionParams, VersionedTextDocumentIdentifier, WorkspaceEdit,
};
use crate::lsp::progress::{ProgressToken, WorkDoneProgressOptions, WorkDoneProgressParams};
use crate::uri::Uri;
use crate::wire::{Json, JsonView, Wire};

pub mod basic;
pub mod edits;
pub mod forms;
pub mod progress;
pub mod workspace_folders;

verus! {

/// Any JSON value, carried through as it came.
#[verifier::external_type_specification]
#[verifier::external_body]
pub struct ExJsonValue(serde_json::Value);

/// `Clone::clone` of `serde_json::Value`; nothing is stated of the copy.
pub assume_specification[ <serde_json::Value as Clone>::clone ](
    json: &serde_json::Value,
) -> serde_json::Value
;

/// Any JSON value.
pub type LSPAny = serde_json::Value;

/// A JSON array of any values.
pub type LSPArray = Vec<serde_json::Value>;

pub type DidChangeConfigurationClientCapabilities = DynamicRegistrationClientCapabilities;

pub type ExecuteCommandClientCapabilities = DynamicRegistrationClientCapabilities;

#[derive(Debug, Clone, PartialEq, Eq)]
pub struct CancelParams {
    /// The request id to cancel.
    pub id: NumberOrString,
}

#[derive(Debug, Clone, PartialEq, Eq)]
pub enum DocumentChanges {
    Edits(Vec<TextDocumentEdit>),
    Operations(Vec<DocumentChangeOperation>),
}

#[derive(Debug, Clone, PartialEq, Eq)]
pub enum DocumentChangeOperation {
    Op(ResourceOp),
    Edit(TextDocumentEdit),
}

#[derive(Debug, Clone, PartialEq, Eq)]
pub enum ResourceOp {
    Create(CreateFile),
    Rename(RenameFile),
    Delete(DeleteFile),
}

#[derive(Debug, Default, Clone, PartialEq, Eq)]
pub struct ConfigurationParams {
    pub items: Vec<ConfigurationItem>,
}

#[derive(Debug, Default, Clone, PartialEq, Eq)]
pub struct ConfigurationItem {
    /// The scope to get the configuration section for.
    pub scope_uri: Option<Uri>,
    /// The configuration section asked for.
    pub section: Option<String>,
}

#[derive(Debug, Clone, PartialEq, Eq)]
pub struct ClientInfo {
    /// The name of the client as defined by the client.
    pub name: String,
    /// The client's version as defined by the client.
    pub version: Option<String>,
}

#[derive(Debug, Clone, Copy, PartialEq, Eq)]
pub struct InitializedParams {
}

#[derive(Debug, Clone, PartialEq, Eq)]
pub struct GenericRegistrationOptions {
    pub text_document_registration_options: TextDocumentRegistrationOptions,
    pub options: GenericOptions,
    pub static_registration_options: StaticRegistrationOptions,
}

#[derive(Debug, Clone, PartialEq, Eq)]
pub struct GenericOptions {
    pub work_done_progress_options: WorkDoneProgressOptions,
}

#[derive(Debug, Clone, PartialEq, Eq)]
pub struct GenericParams {
    pub text_document_position_params: TextDocumentPositionParams,
    pub work_done_progress_params: WorkDoneProgressParams,
    pub partial_result_params: PartialResultParams,
}

#[derive(Debug, Default, Clone, Copy, PartialEq, Eq)]
pub struct DynamicRegistrationClientCapabilities {
    pub dynamic_registration: Option<bool>,
}

#[derive(Debug, Default, Clone, Copy, PartialEq, Eq)]
pub struct GotoCapability {
    pub dynamic_registration: Option<bool>,
    pub link_support: Option<bool>,
}

#[derive(Debug, Default, Clone, PartialEq, Eq)]
pub struct SymbolKindCapability {
    pub value_set: Option<Vec<SymbolKind>>,
}

#[derive(Debug, Default, Clone, PartialEq, Eq)]
pub struct TextDocumentSyncClientCapabilities {
    pub dynamic_registration: Option<bool>,
    pub will_save: Option<bool>,
    pub will_save_wait_until: Option<bool>,
    pub did_save: Option<bool>,
}

#[derive(Debug, Default, Clone, PartialEq, Eq)]
pub struct PublishDiagnosticsClientCapabilities {
    /// Whether the clients accepts diagnostics with related information.
    pub related_information: Option<bool>,
    pub tag_support: Option<TagSupport<DiagnosticTag>>,
    /// Whether the client interprets the version property of the
    /// `textDocument/publishDiagnostics` notification's parameter.
    pub version_support: Option<bool>,
    pub code_description_support: Option<bool>,
    pub data_support: Option<bool>,
}

#[derive(Debug, Default, Clone, PartialEq, Eq)]
pub struct TagSupport<T> {
    pub value_set: Vec<T>,
}

#[derive(Debug, Default, Clone, PartialEq, Eq)]
pub struct GeneralClientCapabilities {
    pub regular_expressions: Option<RegularExpressionsClientCapabilities>,
    pub markdown: Option<MarkdownClientCapabilities>,
    /// Client capability that signals how the client handles stale requests
    /// (e.g.
    pub stale_request_support: Option<StaleRequestSupportClientCapabilities>,
    pub position_encodings: Option<Vec<PositionEncodingKind>>,
}

/// Client capability that signals how the client handles stale requests (e.g.
#[derive(Debug, Default, Clone, PartialEq, Eq)]
pub struct StaleRequestSupportClientCapabilities {
    /// The client will actively cancel the request.
    pub cancel: bool,
    /// The list of requests for which the client will retry the request if it
    /// receives a response with error code `ContentModified`
    pub retry_on_content_modified: Vec<String>,
}

#[derive(Debug, Default, Clone, PartialEq, Eq)]
pub struct ServerInfo {
    /// The name of the server as defined by the server.
    pub name: String,
    /// The servers's version as defined by the server.
    pub version: Option<String>,
}

#[derive(Debug, Default, Clone, PartialEq, Eq)]
pub struct InitializeError {
    /// Indicates whether the client execute the following retry logic:
    pub retry: bool,
}

/// Defines how the host (editor) should sync document changes to the language
/// server.
#[derive(Debug, Clone, Copy, PartialEq, Eq)]
pub struct TextDocumentSyncKind(i32);

impl View for TextDocumentSyncKind {
    type V = int;

    closed spec fn view(&self) -> int {
        self.0 as int
    }
}

impl TextDocumentSyncKind {
    /// Documents should not be synced at all.
    pub fn none() -> (code: Self)
        ensures
            code@ == 0,
    {
        TextDocumentSyncKind(0)
    }

    /// Documents are synced by always sending the full content of the
    /// document.
    pub fn full() -> (code: Self)
        ensures
            code@ == 1,
    {
        TextDocumentSyncKind(1)
    }

    /// Documents are synced by sending the full content on open. After that
    /// only incremental updates to the document are sent.
    pub fn incremental() -> (code: Self)
        ensures
            code@ == 2,
    {
        TextDocumentSyncKind(2)
    }

    /// The value that a number stands for on the wire, also where the
    /// number has no name.
    pub fn new(value: i32) -> (code: Self)
        ensures
            code@ == value,
    {
        TextDocumentSyncKind(value)
    }

    /// The number that stands for the value on the wire.
    pub fn value(&self) -> (n: i32)
        ensures
            n == self@,
    {
        self.0
    }
}

/// Execute command options.
#[derive(Debug, Default, Clone, PartialEq, Eq)]
pub struct ExecuteCommandOptions {
    /// The commands to be executed on the server
    pub commands: Vec<String>,
    pub work_done_progress_options: WorkDoneProgressOptions,
}

/// Save options.
#[derive(Debug, Default, Clone, PartialEq, Eq)]
pub struct SaveOptions {
    /// The client is supposed to include the content on save.
    pub include_text: Option<bool>,
}

#[derive(Debug, Clone, PartialEq, Eq)]
pub enum TextDocumentSyncSaveOptions {
    Supported(bool),
    SaveOptions(SaveOptions),
}

impl From<SaveOptions> for TextDocumentSyncSaveOptions {
    fn from(from: SaveOptions) -> (made: Self) {
        TextDocumentSyncSaveOptions::SaveOptions(from)
    }
}

impl vstd::std_specs::convert::FromSpecImpl<SaveOptions> for TextDocumentSyncSaveOptions {
    open spec fn obeys_from_spec() -> bool {
        true
    }

    open spec fn from_spec(from: SaveOptions) -> Self {
        TextDocumentSyncSaveOptions::SaveOptions(from)
    }
}

impl From<bool> for TextDocumentSyncSaveOptions {
    fn from(from: bool) -> (made: Self) {
        TextDocumentSyncSaveOptions::Supported(from)
    }
}

impl vstd::std_specs::convert::FromSpecImpl<bool> for TextDocumentSyncSaveOptions {
    open spec fn obeys_from_spec() -> bool {
        true
    }

    open spec fn from_spec(from: bool) -> Self {
        TextDocumentSyncSaveOptions::Supported(from)
    }
}

#[derive(Debug, Default, Clone, PartialEq, Eq)]
pub struct TextDocumentSyncOptions {
    /// Open and close notifications are sent to the server.
    pub open_close: Option<bool>,
    /// Change notifications are sent to the server.
    pub change: Option<TextDocumentSyncKind>,
    /// Will save notifications are sent to the server.
    pub will_save: Option<bool>,
    /// Will save wait until requests are sent to the server.
    pub will_save_wait_until: Option<bool>,
    /// Save notifications are sent to the server.
    pub save: Option<TextDocumentSyncSaveOptions>,
}

#[derive(Debug, Clone, PartialEq, Eq, PartialOrd, Ord)]
pub enum OneOf<A, B> {
    Left(A),
    Right(B),
}

#[derive(Debug, Clone, PartialEq, Eq)]
pub enum TextDocumentSyncCapability {
    Kind(TextDocumentSyncKind),
    Options(TextDocumentSyncOptions),
}

impl From<TextDocumentSyncOptions> for TextDocumentSyncCapability {
    fn from(from: TextDocumentSyncOptions) -> (made: Self) {
        TextDocumentSyncCapability::Options(from)
    }
}

impl vstd::std_specs::convert::FromSpecImpl<TextDocumentSyncOptions> for TextDocumentSyncCapability {
    open spec fn obeys_from_spec() -> bool {
        true
    }

    open spec fn from_spec(from: TextDocumentSyncOptions) -> Self {
        TextDocumentSyncCapability::Options(from)
    }
}

impl From<TextDocumentSyncKind> for TextDocumentSyncCapability {
    fn from(from: TextDocumentSyncKind) -> (made: Self) {
        TextDocumentSyncCapability::Kind(from)
    }
}

impl vstd::std_specs::convert::FromSpecImpl<TextDocumentSyncKind> for TextDocumentSyncCapability {
    open spec fn obeys_from_spec() -> bool {
        true
    }

    open spec fn from_spec(from: TextDocumentSyncKind) -> Self {
        TextDocumentSyncCapability::Kind(from)
    }
}

#[derive(Debug, Clone, PartialEq, Eq)]
pub enum ImplementationProviderCapability {
    Simple(bool),
    Options(StaticTextDocumentRegistrationOptions),
}

impl From<StaticTextDocumentRegistrationOptions> for ImplementationProviderCapability {
    fn from(from: StaticTextDocumentRegistrationOptions) -> (made: Self) {
        ImplementationProviderCapability::Options(from)
    }
}

impl vstd::std_specs::convert::FromSpecImpl<StaticTextDocumentRegistrationOptions> for ImplementationProviderCapability {
    open spec fn obeys_from_spec() -> bool {
        true
    }

    open spec fn from_spec(from: StaticTextDocumentRegistrationOptions) -> Self {
        ImplementationProviderCapability::Options(from)
    }
}

impl From<bool> for ImplementationProviderCapability {
    fn from(from: bool) -> (made: Self) {
        ImplementationProviderCapability::Simple(from)
    }
}

impl vstd::std_specs::convert::FromSpecImpl<bool> for ImplementationProviderCapability {
    open spec fn obeys_from_spec() -> bool {
        true
    }

    open spec fn from_spec(from: bool) -> Self {
        ImplementationProviderCapability::Simple(from)
    }
}

#[derive(Debug, Clone, PartialEq, Eq)]
pub enum TypeDefinitionProviderCapability {
    Simple(bool),
    Options(StaticTextDocumentRegistrationOptions),
}

impl From<StaticTextDocumentRegistrationOptions> for TypeDefinitionProviderCapability {
    fn from(from: StaticTextDocumentRegistrationOptions) -> (made: Self) {
        TypeDefinitionProviderCapability::Options(from)
    }
}

impl vstd::std_specs::convert::FromSpecImpl<StaticTextDocumentRegistrationOptions> for TypeDefinitionProviderCapability {
    open spec fn obeys_from_spec() -> bool {
        true
    }

    open spec fn from_spec(from: StaticTextDocumentRegistrationOptions) -> Self {
        TypeDefinitionProviderCapability::Options(from)
    }
}

impl From<bool> for TypeDefinitionProviderCapability {
    fn from(from: bool) -> (made: Self) {
        TypeDefinitionProviderCapability::Simple(from)
    }
}

impl vstd::std_specs::convert::FromSpecImpl<bool> for TypeDefinitionProviderCapability {
    open spec fn obeys_from_spec() -> bool {
        true
    }

    open spec fn from_spec(from: bool) -> Self {
        TypeDefinitionProviderCapability::Simple(from)
    }
}

/// General parameters to to register for a capability.
#[derive(Debug, Clone, PartialEq, Eq)]
pub struct Registration {
    /// The id used to register the request.
    pub id: String,
    /// The method / capability to register for.
    pub method: String,
    /// Options necessary for the registration.
    pub register_options: Option<serde_json::Value>,
}

#[derive(Debug, Clone, PartialEq, Eq)]
pub struct RegistrationParams {
    pub registrations: Vec<Registration>,
}

#[derive(Debug, Default, Clone, PartialEq, Eq)]
pub struct TextDocumentRegistrationOptions {
    /// A document selector to identify the scope of the registration.
    pub document_selector: Option<DocumentSelector>,
}

#[derive(Debug, Clone, PartialEq, Eq)]
pub enum DeclarationCapability {
    Simple(bool),
    RegistrationOptions(DeclarationRegistrationOptions),
    Options(DeclarationOptions),
}

#[derive(Debug, Clone, PartialEq, Eq)]
pub struct DeclarationRegistrationOptions {
    pub declaration_options: DeclarationOptions,
    pub text_document_registration_options: TextDocumentRegistrationOptions,
    pub static_registration_options: StaticRegistrationOptions,
}

#[derive(Debug, Clone, PartialEq, Eq)]
pub struct DeclarationOptions {
    pub work_done_progress_options: WorkDoneProgressOptions,
}

#[derive(Debug, Default, Clone, PartialEq, Eq)]
pub struct StaticRegistrationOptions {
    pub id: Option<String>,
}

#[derive(Debug, Default, Clone, PartialEq, Eq)]
pub struct DocumentFormattingOptions {
    pub work_done_progress_options: WorkDoneProgressOptions,
}

#[derive(Debug, Clone, PartialEq, Eq)]
pub struct DocumentRangeFormattingOptions {
    pub work_done_progress_options: WorkDoneProgressOptions,
}

#[derive(Debug, Clone, PartialEq, Eq)]
pub struct DefinitionOptions {
    pub work_done_progress_options: WorkDoneProgressOptions,
}

#[derive(Debug, Clone, PartialEq, Eq)]
pub struct DocumentSymbolOptions {
    /// A human-readable string that is shown when multiple outlines trees are
    /// shown for the same document.
    pub label: Option<String>,
    pub work_done_progress_options: WorkDoneProgressOptions,
}

#[derive(Debug, Clone, PartialEq, Eq)]
pub struct DocumentSymbolRegistrationOptions {
    pub text_document_registration_options: TextDocumentRegistrationOptions,
    pub document_symbol_options: DocumentSymbolOptions,
}

#[derive(Debug, Clone, PartialEq, Eq)]
pub struct ReferenceOptions {
    pub work_done_progress_options: WorkDoneProgressOptions,
}

#[derive(Debug, Clone, PartialEq, Eq)]
pub struct DocumentHighlightOptions {
    pub work_done_progress_options: WorkDoneProgressOptions,
}

#[derive(Debug, Clone, PartialEq, Eq)]
pub struct WorkspaceSymbolOptions {
    pub work_done_progress_options: WorkDoneProgressOptions,
    pub resolve_provider: Option<bool>,
}

#[derive(Debug, Clone, PartialEq, Eq)]
pub struct StaticTextDocumentRegistrationOptions {
    /// A document selector to identify the scope of the registration.
    pub document_selector: Option<DocumentSelector>,
    pub id: Option<String>,
}

/// General parameters to unregister a capability.
#[derive(Debug, Clone, PartialEq, Eq)]
pub struct Unregistration {
    /// The id used to unregister the request or notification.
    pub id: String,
    /// The method / capability to unregister for.
    pub method: String,
}

#[derive(Debug, Clone, PartialEq, Eq)]
pub struct UnregistrationParams {
    pub unregisterations: Vec<Unregistration>,
}

#[derive(Debug, Clone, PartialEq, Eq)]
pub struct DidChangeConfigurationParams {
    /// The actual changed settings
    pub settings: serde_json::Value,
}

#[derive(Debug, Clone, PartialEq, Eq)]
pub struct DidOpenTextDocumentParams {
    /// The document that was opened.
    pub text_document: TextDocumentItem,
}

#[derive(Debug, Clone, PartialEq, Eq)]
pub struct DidChangeTextDocumentParams {
    /// The document that did change.
    pub text_document: VersionedTextDocumentIdentifier,
    /// The actual content changes.
    pub content_changes: Vec<TextDocumentContentChangeEvent>,
}

/// An event describing a change to a text document.
#[derive(Debug, Clone, PartialEq, Eq)]
pub struct TextDocumentContentChangeEvent {
    /// The range of the document that changed.
    pub range: Option<Range>,
    /// The length of the range that got replaced.
    pub range_length: Option<u32>,
    /// The new text of the document.
    pub text: String,
}

/// Describe options to be used when registering for text document change
/// events.
#[derive(Debug, Clone, PartialEq, Eq)]
pub struct TextDocumentChangeRegistrationOptions {
    /// A document selector to identify the scope of the registration.
    pub document_selector: Option<DocumentSelector>,
    /// How documents are synced to the server.
    pub sync_kind: TextDocumentSyncKind,
}

/// The parameters send in a will save text document notification.
#[derive(Debug, Clone, PartialEq, Eq)]
pub struct WillSaveTextDocumentParams {
    /// The document that will be saved.
    pub text_document: TextDocumentIdentifier,
    /// The [`TextDocumentSaveReason`].
    pub reason: TextDocumentSaveReason,
}

/// Represents reasons why a text document is saved.
#[derive(Debug, Clone, Copy, PartialEq, Eq)]
pub struct TextDocumentSaveReason(i32);

impl View for TextDocumentSaveReason {
    type V = int;

    closed spec fn view(&self) -> int {
        self.0 as int
    }
}

impl TextDocumentSaveReason {
    /// Manually triggered, e.g. by the user pressing save, by starting
    /// debugging, or by an API call.
    pub fn manual() -> (code: Self)
        ensures
            code@ == 1,
    {
        TextDocumentSaveReason(1)
    }

    /// Automatic after a delay.
    pub fn after_delay() -> (code: Self)
        ensures
            code@ == 2,
    {
        TextDocumentSaveReason(2)
    }

    /// When the editor lost focus.
    pub fn focus_out() -> (code: Self)
        ensures
            code@ == 3,
    {
        TextDocumentSaveReason(3)
    }

    /// The value that a number stands for on the wire, also where the
    /// number has no name.
    pub fn new(value: i32) -> (code: Self)
        ensures
            code@ == value,
    {
        TextDocumentSaveReason(value)
    }

    /// The number that stands for the value on the wire.
    pub fn value(&self) -> (n: i32)
        ensures
            n == self@,
    {
        self.0
    }
}

#[derive(Debug, Clone, PartialEq, Eq)]
pub struct DidCloseTextDocumentParams {
    /// The document that was closed.
    pub text_document: TextDocumentIdentifier,
}

#[derive(Debug, Clone, PartialEq, Eq)]
pub struct DidSaveTextDocumentParams {
    /// The document that was saved.
    pub text_document: TextDocumentIdentifier,
    /// Optional the content when saved.
    pub text: Option<String>,
}

#[derive(Debug, Clone, PartialEq, Eq)]
pub struct TextDocumentSaveRegistrationOptions {
    /// The client is supposed to include the content on save.
    pub include_text: Option<bool>,
    pub text_document_registration_options: TextDocumentRegistrationOptions,
}

#[derive(Debug, Default, Clone, Copy, PartialEq, Eq)]
pub struct DidChangeWatchedFilesClientCapabilities {
    pub dynamic_registration: Option<bool>,
    pub relative_pattern_support: Option<bool>,
}

#[derive(Debug, Clone, PartialEq, Eq)]
pub struct DidChangeWatchedFilesParams {
    /// The actual file events.
    pub changes: Vec<FileEvent>,
}

/// The file event type.
#[derive(Debug, Clone, Copy, PartialEq, Eq, Hash)]
pub struct FileChangeType(i32);

impl View for FileChangeType {
    type V = int;

    closed spec fn view(&self) -> int {
        self.0 as int
    }
}

impl FileChangeType {
    /// The file got created.
    pub fn created() -> (code: Self)
        ensures
            code@ == 1,
    {
        FileChangeType(1)
    }

    /// The file got changed.
    pub fn changed() -> (code: Self)
        ensures
            code@ == 2,
    {
        FileChangeType(2)
    }

    /// The file got deleted.
    pub fn deleted() -> (code: Self)
        ensures
            code@ == 3,
    {
        FileChangeType(3)
    }

    /// The value that a number stands for on the wire, also where the
    /// number has no name.
    pub fn new(value: i32) -> (code: Self)
        ensures
            code@ == value,
    {
        FileChangeType(value)
    }

    /// The number that stands for the value on the wire.
    pub fn value(&self) -> (n: i32)
        ensures
            n == self@,
    {
        self.0
    }
}

/// An event describing a file change.
#[derive(Debug, Clone, PartialEq, Eq, Hash)]
pub struct FileEvent {
    /// The file's URI.
    pub uri: Uri,
    /// The change type.
    pub typ: FileChangeType,
}

impl FileEvent {
    /// The event that the file at `uri` changed in the given way.
    pub fn new(uri: Uri, typ: FileChangeType) -> (made: Self)
        ensures
            made == (FileEvent { uri, typ }),
    {
        FileEvent { uri, typ }
    }
}

/// Describe options to be used when registered for text document change
/// events.
#[derive(Debug, Clone, PartialEq, Eq)]
pub struct DidChangeWatchedFilesRegistrationOptions {
    /// The watchers to register.
    pub watchers: Vec<FileSystemWatcher>,
}

#[derive(Debug, Clone, PartialEq, Eq)]
pub struct FileSystemWatcher {
    /// The glob pattern to watch.
    pub glob_pattern: GlobPattern,
    /// The kind of events of interest.
    pub kind: Option<WatchKind>,
}

#[derive(Debug, Clone, PartialEq, Eq)]
pub struct PublishDiagnosticsParams {
    pub uri: Uri,
    /// An array of diagnostic information items.
    pub diagnostics: Vec<Diagnostic>,
    /// Optional the version number of the document the diagnostics are
    /// published for.
    pub version: Option<i32>,
}

impl PublishDiagnosticsParams {
    /// The diagnostics of one version of the document at `uri`.
    pub fn new(uri: Uri, diagnostics: Vec<Diagnostic>, version: Option<i32>) -> (made: Self)
        ensures
            made == (PublishDiagnosticsParams { uri, diagnostics, version }),
    {
        PublishDiagnosticsParams { uri, diagnostics, version }
    }
}

#[derive(Debug, Clone, PartialEq, Eq)]
pub enum Documentation {
    String(String),
    MarkupContent(MarkupContent),
}

/// `MarkedString` can be used to render human readable text.
#[derive(Debug, Clone, PartialEq, Eq)]
pub enum MarkedString {
    String(String),
    LanguageString(LanguageString),
}

#[derive(Debug, Clone, PartialEq, Eq)]
pub struct LanguageString {
    pub language: String,
    pub value: String,
}

impl MarkedString {
    /// The marked string that is plain markdown.
    pub fn from_markdown(markdown: String) -> (made: Self)
        ensures
            made == MarkedString::String(markdown),
    {
        MarkedString::String(markdown)
    }

    /// The marked string that is a block of code in a language.
    pub fn from_language_code(language: String, code_block: String) -> (made: Self)
        ensures
            made == MarkedString::LanguageString(LanguageString { language, value: code_block }),
    {
        MarkedString::LanguageString(LanguageString { language, value: code_block })
    }
}

#[derive(Debug, Clone, PartialEq, Eq)]
pub struct GotoDefinitionParams {
    pub text_document_position_params: TextDocumentPositionParams,
    pub work_done_progress_params: WorkDoneProgressParams,
    pub partial_result_params: PartialResultParams,
}

/// `GotoDefinition` response can be single location, or multiple Locations or
/// a link.
#[derive(Debug, Clone, PartialEq, Eq)]
pub enum GotoDefinitionResponse {
    Scalar(Location),
    Array(Vec<Location>),
    Link(Vec<LocationLink>),
}

impl From<Location> for GotoDefinitionResponse {
    fn from(from: Location) -> (made: Self) {
        GotoDefinitionResponse::Scalar(from)
    }
}

impl vstd::std_specs::convert::FromSpecImpl<Location> for GotoDefinitionResponse {
    open spec fn obeys_from_spec() -> bool {
        true
    }

    open spec fn from_spec(from: Location) -> Self {
        GotoDefinitionResponse::Scalar(from)
    }
}

impl From<Vec<Location>> for GotoDefinitionResponse {
    fn from(from: Vec<Location>) -> (made: Self) {
        GotoDefinitionResponse::Array(from)
    }
}

impl vstd::std_specs::convert::FromSpecImpl<Vec<Location>> for GotoDefinitionResponse {
    open spec fn obeys_from_spec() -> bool {
        true
    }

    open spec fn from_spec(from: Vec<Location>) -> Self {
        GotoDefinitionResponse::Array(from)
    }
}

impl From<Vec<LocationLink>> for GotoDefinitionResponse {
    fn from(from: Vec<LocationLink>) -> (made: Self) {
        GotoDefinitionResponse::Link(from)
    }
}

impl vstd::std_specs::convert::FromSpecImpl<Vec<LocationLink>> for GotoDefinitionResponse {
    open spec fn obeys_from_spec() -> bool {
        true
    }

    open spec fn from_spec(from: Vec<LocationLink>) -> Self {
        GotoDefinitionResponse::Link(from)
    }
}

#[derive(Debug, Default, Clone, PartialEq, Eq)]
pub struct ExecuteCommandParams {
    /// The identifier of the actual command handler.
    pub command: String,
    /// Arguments that the command should be invoked with.
    pub arguments: Vec<serde_json::Value>,
    pub work_done_progress_params: WorkDoneProgressParams,
}

/// Execute command registration options.
#[derive(Debug, Clone, PartialEq, Eq)]
pub struct ExecuteCommandRegistrationOptions {
    /// The commands to be executed on the server
    pub commands: Vec<String>,
    pub execute_command_options: ExecuteCommandOptions,
}

#[derive(Debug, Clone, PartialEq, Eq)]
pub struct ApplyWorkspaceEditResponse {
    /// Indicates whether the edit was applied or not.
    pub applied: bool,
    /// An optional textual description for why the edit was not applied.
    pub failure_reason: Option<String>,
    /// Depending on the client's failure handling strategy `failedChange`
    /// might contain the index of the change that failed.
    pub failed_change: Option<u32>,
}

/// A parameter literal used to pass a partial result token.
#[derive(Debug, Default, Clone, PartialEq, Eq)]
pub struct PartialResultParams {
    pub partial_result_token: Option<ProgressToken>,
}

#[derive(Debug, Clone, PartialEq, Eq, Hash)]
pub enum NumberOrString {
    Number(i32),
    String(String),
}

impl From<String> for NumberOrString {
    fn from(from: String) -> (made: Self) {
        NumberOrString::String(from)
    }
}

impl vstd::std_specs::convert::FromSpecImpl<String> for NumberOrString {
    open spec fn obeys_from_spec() -> bool {
        true
    }

    open spec fn from_spec(from: String) -> Self {
        NumberOrString::String(from)
    }
}

impl From<i32> for NumberOrString {
    fn from(from: i32) -> (made: Self) {
        NumberOrString::Number(from)
    }
}

impl vstd::std_specs::convert::FromSpecImpl<i32> for NumberOrString {
    open spec fn obeys_from_spec() -> bool {
        true
    }

    open spec fn from_spec(from: i32) -> Self {
        NumberOrString::Number(from)
    }
}

impl NumberOrString {
    /// The string that holds the characters of `text`.
    pub fn from_text(text: &str) -> (made: Self)
        ensures
            made matches NumberOrString::String(s) && s@ == text@,
    {
        NumberOrString::String(String::from_str(text))
    }
}

impl From<&str> for NumberOrString {
    fn from(from: &str) -> (made: Self) {
        NumberOrString::from_text(from)
    }
}

impl vstd::std_specs::convert::FromSpecImpl<&str> for NumberOrString {
    open spec fn obeys_from_spec() -> bool {
        false
    }

    open spec fn from_spec(from: &str) -> Self {
        arbitrary()
    }
}

/// A symbol kind.
#[derive(Debug, Clone, Copy, PartialEq, Eq)]
pub struct SymbolKind(i32);

impl View for SymbolKind {
    type V = int;

    closed spec fn view(&self) -> int {
        self.0 as int
    }
}

impl SymbolKind {
    pub fn file() -> (code: Self)
        ensures
            code@ == 1,
    {
        SymbolKind(1)
    }

    pub fn module() -> (code: Self)
        ensures
            code@ == 2,
    {
        SymbolKind(2)
    }

    pub fn namespace() -> (code: Self)
        ensures
            code@ == 3,
    {
        SymbolKind(3)
    }

    pub fn package() -> (code: Self)
        ensures
            code@ == 4,
    {
        SymbolKind(4)
    }

    pub fn class() -> (code: Self)
        ensures
            code@ == 5,
    {
        SymbolKind(5)
    }

    pub fn method() -> (code: Self)
        ensures
            code@ == 6,
    {
        SymbolKind(6)
    }

    pub fn property() -> (code: Self)
        ensures
            code@ == 7,
    {
        SymbolKind(7)
    }

    pub fn field() -> (code: Self)
        ensures
            code@ == 8,
    {
        SymbolKind(8)
    }

    pub fn constructor() -> (code: Self)
        ensures
            code@ == 9,
    {
        SymbolKind(9)
    }

    pub fn enum_() -> (code: Self)
        ensures
            code@ == 10,
    {
        SymbolKind(10)
    }

    pub fn interface() -> (code: Self)
        ensures
            code@ == 11,
    {
        SymbolKind(11)
    }

    pub fn function() -> (code: Self)
        ensures
            code@ == 12,
    {
        SymbolKind(12)
    }

    pub fn variable() -> (code: Self)
        ensures
            code@ == 13,
    {
        SymbolKind(13)
    }

    pub fn constant() -> (code: Self)
        ensures
            code@ == 14,
    {
        SymbolKind(14)
    }

    pub fn string() -> (code: Self)
        ensures
            code@ == 15,
    {
        SymbolKind(15)
    }

    pub fn number() -> (code: Self)
        ensures
            code@ == 16,
    {
        SymbolKind(16)
    }

    pub fn boolean() -> (code: Self)
        ensures
            code@ == 17,
    {
        SymbolKind(17)
    }

    pub fn array() -> (code: Self)
        ensures
            code@ == 18,
    {
        SymbolKind(18)
    }

    pub fn object() -> (code: Self)
        ensures
            code@ == 19,
    {
        SymbolKind(19)
    }

    pub fn key() -> (code: Self)
        ensures
            code@ == 20,
    {
        SymbolKind(20)
    }

    pub fn null() -> (code: Self)
        ensures
            code@ == 21,
    {
        SymbolKind(21)
    }

    pub fn enum_member() -> (code: Self)
        ensures
            code@ == 22,
    {
        SymbolKind(22)
    }

    pub fn struct_() -> (code: Self)
        ensures
            code@ == 23,
    {
        SymbolKind(23)
    }

    pub fn event() -> (code: Self)
        ensures
            code@ == 24,
    {
        SymbolKind(24)
    }

    pub fn operator() -> (code: Self)
        ensures
            code@ == 25,
    {
        SymbolKind(25)
    }

    pub fn type_parameter() -> (code: Self)
        ensures
            code@ == 26,
    {
        SymbolKind(26)
    }

    /// The value that a number stands for on the wire, also where the
    /// number has no name.
    pub fn new(value: i32) -> (code: Self)
        ensures
            code@ == value,
    {
        SymbolKind(value)
    }

    /// The number that stands for the value on the wire.
    pub fn value(&self) -> (n: i32)
        ensures
            n == self@,
    {
        self.0
    }
}

/// Symbol tags are extra annotations that tweak the rendering of a symbol.
#[derive(Debug, Clone, PartialEq, Eq)]
pub struct SymbolTag(i32);

impl View for SymbolTag {
    type V = int;

    closed spec fn view(&self) -> int {
        self.0 as int
    }
}

impl SymbolTag {
    /// Render a symbol as obsolete, usually using a strike-out.
    pub fn deprecated() -> (code: Self)
        ensures
            code@ == 1,
    {
        SymbolTag(1)
    }

    /// The value that a number stands for on the wire, also where the
    /// number has no name.
    pub fn new(value: i32) -> (code: Self)
        ensures
            code@ == value,
    {
        SymbolTag(value)
    }

    /// The number that stands for the value on the wire.
    pub fn value(&self) -> (n: i32)
        ensures
            n == self@,
    {
        self.0
    }
}
/// The kinds of change to files that a watcher can ask for, as a set of
/// flags.
#[derive(Debug, PartialEq, Eq)]
pub struct WatchKind {
    bits: u8,
}

impl Clone for WatchKind {
    fn clone(&self) -> (copy: Self)
        ensures
            copy@ == self@,
    {
        proof {
            use_type_invariant(self);
        }
        WatchKind { bits: self.bits }
    }
}

impl Copy for WatchKind {

}

impl View for WatchKind {
    type V = u8;

    closed spec fn view(&self) -> u8 {
        self.bits
    }
}

/// The bits of all the kinds together.
pub open spec fn watch_kind_mask() -> u8 {
    7
}

impl WatchKind {
    /// No bit is set that is the flag of no kind.
    #[verifier::type_invariant]
    spec fn well_formed(self) -> bool {
        self.bits <= 7
    }

    /// Interested in create events.
    pub fn create() -> (kind: Self)
        ensures
            kind@ == 1,
    {
        WatchKind { bits: 1 }
    }

    /// Interested in change events.
    pub fn change() -> (kind: Self)
        ensures
            kind@ == 2,
    {
        WatchKind { bits: 2 }
    }

    /// Interested in delete events.
    pub fn delete() -> (kind: Self)
        ensures
            kind@ == 4,
    {
        WatchKind { bits: 4 }
    }

    /// The flags as a number.
    pub fn bits(&self) -> (bits: u8)
        ensures
            bits == self@,
            bits <= 7,
    {
        proof {
            use_type_invariant(self);
        }
        self.bits
    }

    /// The set of kinds whose flags are the bits that are set in `bits`,
    /// unless a bit is set that is the flag of no kind.
    pub fn from_bits(bits: u8) -> (r: Option<Self>)
        ensures
            r is Some <==> bits & !watch_kind_mask() == 0,
            r is Some <==> bits <= 7,
            r is Some ==> r->Some_0@ == bits,
    {
        assert((bits & !7u8 == 0) <==> bits <= 7) by (bit_vector);
        if bits & !7u8 == 0 {
            Some(WatchKind { bits })
        } else {
            None
        }
    }

    /// The kinds of either set.
    pub fn union(self, other: Self) -> (both: Self)
        ensures
            both@ == self@ | other@,
    {
        proof {
            use_type_invariant(self);
            use_type_invariant(other);
            let a = self.bits;
            let b = other.bits;
            assert(a <= 7 && b <= 7 ==> a | b <= 7) by (bit_vector);
        }
        WatchKind { bits: self.bits | other.bits }
    }

    /// Whether every kind of `other` is in this set.
    pub fn contains(&self, other: Self) -> (all: bool)
        ensures
            all == (self@ & other@ == other@),
    {
        self.bits & other.bits == other.bits
    }
}

impl core::ops::BitOr for WatchKind {
    type Output = WatchKind;

    fn bitor(self, other: WatchKind) -> (both: WatchKind)
        ensures
            both@ == self@ | other@,
    {
        self.union(other)
    }
}

impl vstd::std_specs::ops::BitOrSpecImpl for WatchKind {
    open spec fn obeys_bitor_spec() -> bool {
        true
    }

    open spec fn bitor_req(self, other: WatchKind) -> bool {
        true
    }

    closed spec fn bitor_spec(self, other: WatchKind) -> WatchKind {
        WatchKind { bits: self.bits | other.bits }
    }
}

impl Wire for WatchKind {
    open spec fn wire(&self) -> JsonView {
        JsonView::Number(self@ as int)
    }

    open spec fn readable(v: JsonView) -> bool {
        v matches JsonView::Number(n) && 0 <= n <= 7
    }

    open spec fn normal(v: JsonView) -> JsonView {
        v
    }

    fn to_value(&self) -> (v: Json) {
        self.bits.to_value()
    }

    fn from_value(v: &Json) -> (r: Option<Self>) {
        match u8::from_value(v) {
            Some(bits) => WatchKind::from_bits(bits),
            None => None,
        }
    }
}

/// The parameters of a request to apply an edit to the workspace.
#[derive(Debug, Clone, PartialEq, Eq)]
pub struct ApplyWorkspaceEditParams {
    /// An optional label of the workspace edit.
    pub label: Option<String>,
    /// The edits to apply.
    pub edit: WorkspaceEdit,
}

} // verus!
