//! The basic structures of the protocol: positions and ranges, documents
//! and their identifiers, edits, locations, diagnostics, commands, markup
//! and the changes to files of a workspace.

use vstd::prelude::*;
use vstd::string::*;
use crate::lsp::workspace_folders::WorkspaceFolder;
use crate::lsp::{DocumentChanges, NumberOrString, OneOf};
use crate::uri::Uri;
use crate::wire::{Json, JsonView, Wire};

verus! {

#[derive(Debug, Default, Clone, PartialEq, Eq)]
pub struct RegularExpressionsClientCapabilities {
    /// The engine's name.
    pub engine: String,
    /// The engine's version
    pub version: Option<String>,
}

/// Position in a text document expressed as zero-based line and character
/// offset.
#[derive(Debug, Clone, Copy, Default, PartialEq, Eq, PartialOrd, Ord, Hash)]
pub struct Position {
    /// Line position in a document (zero-based).
    pub line: u32,
    /// Character offset on a line in a document (zero-based).
    pub character: u32,
}

impl Position {
    /// The position at a line and a character offset.
    pub fn new(line: u32, character: u32) -> (made: Self)
        ensures
            made == (Position { line, character }),
    {
        Position { line, character }
    }
}

/// A type indicating how positions are encoded, specifically what column
/// offsets mean.
#[derive(Debug, Clone, PartialEq, Eq, PartialOrd, Hash)]
pub struct PositionEncodingKind(String);

impl View for PositionEncodingKind {
    type V = Seq<char>;

    closed spec fn view(&self) -> Seq<char> {
        self.0@
    }
}

impl PositionEncodingKind {
    /// Character offsets count UTF-8 code units.
    pub fn utf8() -> (kind: Self)
        ensures
            kind@ == "utf-8"@,
    {
        PositionEncodingKind::new("utf-8")
    }

    /// Character offsets count UTF-16 code units. This is the default,
    /// which every server supports.
    pub fn utf16() -> (kind: Self)
        ensures
            kind@ == "utf-16"@,
    {
        PositionEncodingKind::new("utf-16")
    }

    /// Character offsets count UTF-32 code units, which are Unicode code
    /// points.
    pub fn utf32() -> (kind: Self)
        ensures
            kind@ == "utf-32"@,
    {
        PositionEncodingKind::new("utf-32")
    }

    /// The kind with the given tag.
    pub fn new(tag: &str) -> (kind: Self)
        ensures
            kind@ == tag@,
    {
        PositionEncodingKind(String::from_str(tag))
    }

    /// The tag of the kind.
    pub fn as_str(&self) -> (tag: &str)
        ensures
            tag@ == self@,
    {
        self.0.as_str()
    }
}

impl From<String> for PositionEncodingKind {
    fn from(from: String) -> (made: Self) {
        PositionEncodingKind(from)
    }
}

impl vstd::std_specs::convert::FromSpecImpl<String> for PositionEncodingKind {
    open spec fn obeys_from_spec() -> bool {
        true
    }

    closed spec fn from_spec(from: String) -> Self {
        PositionEncodingKind(from)
    }
}

impl From<&'static str> for PositionEncodingKind {
    fn from(from: &'static str) -> (made: Self) {
        PositionEncodingKind::new(from)
    }
}

impl vstd::std_specs::convert::FromSpecImpl<&'static str> for PositionEncodingKind {
    open spec fn obeys_from_spec() -> bool {
        false
    }

    open spec fn from_spec(from: &'static str) -> Self {
        arbitrary()
    }
}


/// A range in a text document expressed as (zero-based) start and end
/// positions.
#[derive(Debug, Default, Clone, Copy, PartialEq, Eq, Hash)]
pub struct Range {
    /// The range's start position.
    pub start: Position,
    /// The range's end position.
    pub end: Position,
}

impl Range {
    /// The range from `start` to `end`, which it does not include.
    pub fn new(start: Position, end: Position) -> (made: Self)
        ensures
            made == (Range { start, end }),
    {
        Range { start, end }
    }
}

/// An item to transfer a text document from the client to the server.
#[derive(Debug, Clone, PartialEq, Eq)]
pub struct TextDocumentItem {
    /// The text document's URI.
    pub uri: Uri,
    /// The text document's language identifier.
    pub language_id: String,
    /// The version number of this document (it will strictly increase after
    /// each change, including undo/redo).
    pub version: i32,
    /// The content of the opened text document.
    pub text: String,
}

impl TextDocumentItem {
    /// The item for a document with its language, version and text.
    pub fn new(uri: Uri, language_id: String, version: i32, text: String) -> (made: Self)
        ensures
            made == (TextDocumentItem { uri, language_id, version, text }),
    {
        TextDocumentItem { uri, language_id, version, text }
    }
}

/// Text documents are identified using a URI.
#[derive(Debug, Clone, PartialEq, Eq)]
pub struct TextDocumentIdentifier {
    /// The text document's URI.
    pub uri: Uri,
}

impl TextDocumentIdentifier {
    /// The identifier of the document at `uri`.
    pub fn new(uri: Uri) -> (made: Self)
        ensures
            made == (TextDocumentIdentifier { uri }),
    {
        TextDocumentIdentifier { uri }
    }
}

#[derive(Debug, Clone, PartialEq, Eq)]
pub struct VersionedTextDocumentIdentifier {
    /// The text document's URI.
    pub uri: Uri,
    /// The version number of this document.
    pub version: i32,
}

impl VersionedTextDocumentIdentifier {
    /// The identifier of one version of the document at `uri`.
    pub fn new(uri: Uri, version: i32) -> (made: Self)
        ensures
            made == (VersionedTextDocumentIdentifier { uri, version }),
    {
        VersionedTextDocumentIdentifier { uri, version }
    }
}

#[derive(Debug, Clone, PartialEq, Eq)]
pub struct OptionalVersionedTextDocumentIdentifier {
    /// The text document's URI.
    pub uri: Uri,
    /// The version number of this document.
    pub version: Option<i32>,
}

impl OptionalVersionedTextDocumentIdentifier {
    /// The identifier of one version of the document at `uri`.
    pub fn new(uri: Uri, version: i32) -> (made: Self)
        ensures
            made == (OptionalVersionedTextDocumentIdentifier { uri, version: Some(version) }),
    {
        OptionalVersionedTextDocumentIdentifier { uri, version: Some(version) }
    }
}

/// A parameter literal used in requests to pass a text document and a
/// position inside that document.
#[derive(Debug, Clone, PartialEq, Eq)]
pub struct TextDocumentPositionParams {
    /// The text document.
    pub text_document: TextDocumentIdentifier,
    /// The position inside the text document.
    pub position: Position,
}

impl TextDocumentPositionParams {
    /// A position inside a document.
    pub fn new(text_document: TextDocumentIdentifier, position: Position) -> (made: Self)
        ensures
            made == (TextDocumentPositionParams { text_document, position }),
    {
        TextDocumentPositionParams { text_document, position }
    }
}

/// A relative pattern is a helper to construct glob patterns that are matched
/// relatively to a base URI.
#[derive(Debug, Clone, PartialEq, Eq, PartialOrd, Ord)]
pub struct RelativePattern {
    /// A workspace folder or a base URI to which this pattern will be matched
    /// against relatively.
    pub base_uri: OneOf<WorkspaceFolder, Uri>,
    /// The actual glob pattern.
    pub pattern: Pattern,
}

/// The glob pattern.
#[derive(Debug, Clone, PartialEq, Eq, PartialOrd, Ord)]
pub enum GlobPattern {
    String(Pattern),
    Relative(RelativePattern),
}

impl From<Pattern> for GlobPattern {
    fn from(from: Pattern) -> (made: Self) {
        GlobPattern::String(from)
    }
}

impl vstd::std_specs::convert::FromSpecImpl<Pattern> for GlobPattern {
    open spec fn obeys_from_spec() -> bool {
        true
    }

    open spec fn from_spec(from: Pattern) -> Self {
        GlobPattern::String(from)
    }
}

impl From<RelativePattern> for GlobPattern {
    fn from(from: RelativePattern) -> (made: Self) {
        GlobPattern::Relative(from)
    }
}

impl vstd::std_specs::convert::FromSpecImpl<RelativePattern> for GlobPattern {
    open spec fn obeys_from_spec() -> bool {
        true
    }

    open spec fn from_spec(from: RelativePattern) -> Self {
        GlobPattern::Relative(from)
    }
}

/// A document filter denotes a document through properties like language,
/// schema or pattern.
#[derive(Debug, Clone, PartialEq, Eq)]
pub struct DocumentFilter {
    /// A language id, like `typescript`.
    pub language: Option<String>,
    /// A Uri [scheme](#Uri.scheme), like `file` or `untitled`.
    pub scheme: Option<String>,
    /// A glob pattern, like `*.{ts,js}`.
    pub pattern: Option<String>,
}

/// A string value used as a snippet is a template which allows to insert text
/// and to control the editor cursor when insertion happens.
#[derive(Debug, Clone, PartialEq, Eq)]
pub enum StringValue {
    Snippet(String),
}

/// A textual edit applicable to a text document.
#[derive(Debug, Default, Clone, PartialEq, Eq)]
pub struct TextEdit {
    /// The range of the text document to be manipulated.
    pub range: Range,
    /// The string to be inserted.
    pub new_text: String,
}

impl TextEdit {
    /// The edit that puts `new_text` in place of `range`.
    pub fn new(range: Range, new_text: String) -> (made: Self)
        ensures
            made == (TextEdit { range, new_text }),
    {
        TextEdit { range, new_text }
    }
}

/// Additional information that describes document changes.
#[derive(Debug, Clone, PartialEq, Eq)]
pub struct ChangeAnnotation {
    /// A human-readable string describing the actual change.
    pub label: String,
    /// A flag which indicates that user confirmation is needed before
    /// applying the change.
    pub needs_confirmation: Option<bool>,
    /// A human-readable string which is rendered less prominent in the user
    /// interface.
    pub description: Option<String>,
}

#[derive(Debug, Clone, PartialEq, Eq)]
pub struct AnnotatedTextEdit {
    pub text_edit: TextEdit,
    /// The actual annotation
    pub annotation_id: ChangeAnnotationIdentifier,
}

/// An interactive text edit.
#[derive(Debug, Clone, PartialEq, Eq)]
pub struct SnippetTextEdit {
    /// The range of the text document to be manipulated.
    pub range: Range,
    /// The snippet to be inserted.
    pub snippet: StringValue,
    /// The actual identifier of the snippet edit.
    pub annotation_id: Option<ChangeAnnotationIdentifier>,
}

/// Describes textual changes on a single text document.
#[derive(Debug, Clone, PartialEq, Eq)]
pub struct TextDocumentEdit {
    /// The text document to change.
    pub text_document: OptionalVersionedTextDocumentIdentifier,
    /// The edits to be applied.
    pub edits: Vec<OneOf<TextEdit, AnnotatedTextEdit>>,
}

/// Represents a location inside a resource, such as a line inside a text
/// file.
#[derive(Debug, Clone, PartialEq, Eq, Hash)]
pub struct Location {
    pub uri: Uri,
    pub range: Range,
}

impl Location {
    /// A range inside the resource at `uri`.
    pub fn new(uri: Uri, range: Range) -> (made: Self)
        ensures
            made == (Location { uri, range }),
    {
        Location { uri, range }
    }
}

/// Represents a link between a source and a target location.
#[derive(Debug, Clone, PartialEq, Eq)]
pub struct LocationLink {
    /// Span of the origin of this link.
    pub origin_selection_range: Option<Range>,
    /// The target resource identifier of this link.
    pub target_uri: Uri,
    /// The full target range of this link.
    pub target_range: Range,
    /// The span of this link.
    pub target_selection_range: Range,
}

/// Represents a diagnostic, such as a compiler error or warning.
#[derive(Debug, Clone, PartialEq, Eq)]
pub struct Diagnostic {
    /// The range at which the message applies.
    pub range: Range,
    /// The diagnostic's severity.
    pub severity: Option<DiagnosticSeverity>,
    /// The diagnostic's code.
    pub code: Option<NumberOrString>,
    /// An optional property to describe the error code.
    pub code_description: Option<CodeDescription>,
    /// A human-readable string describing the source of this diagnostic, e.g.
    pub source: Option<String>,
    /// The diagnostic's message.
    pub message: String,
    /// An array of related diagnostic information, e.g.
    pub related_information: Option<Vec<DiagnosticRelatedInformation>>,
    /// Additional metadata about the diagnostic.
    pub tags: Option<Vec<DiagnosticTag>>,
    /// A data entry field that is preserved between a
    /// `textDocument/publishDiagnostics` notification and
    /// `textDocument/codeAction` request.
    pub data: Option<serde_json::Value>,
}

impl Diagnostic {
    /// A diagnostic without a description of its code and without data.
    pub fn new(
        range: Range,
        severity: Option<DiagnosticSeverity>,
        code: Option<NumberOrString>,
        source: Option<String>,
        message: String,
        related_information: Option<Vec<DiagnosticRelatedInformation>>,
        tags: Option<Vec<DiagnosticTag>>,
    ) -> (made: Self)
        ensures
            made == (Diagnostic {
                range,
                severity,
                code,
                code_description: None,
                source,
                message,
                related_information,
                tags,
                data: None,
            }),
    {
        Diagnostic {
            range,
            severity,
            code,
            code_description: None,
            source,
            message,
            related_information,
            tags,
            data: None,
        }
    }

    /// A diagnostic that holds a range and a message only.
    pub fn new_simple(range: Range, message: String) -> (made: Self)
        ensures
            made == (Diagnostic {
                range,
                severity: None,
                code: None,
                code_description: None,
                source: None,
                message,
                related_information: None,
                tags: None,
                data: None,
            }),
    {
        Diagnostic::new(range, None, None, None, message, None, None)
    }

    /// A diagnostic with a severity and a number as its code.
    pub fn new_with_code_number(
        range: Range,
        severity: DiagnosticSeverity,
        code_number: i32,
        source: Option<String>,
        message: String,
    ) -> (made: Self)
        ensures
            made == (Diagnostic {
                range,
                severity: Some(severity),
                code: Some(NumberOrString::Number(code_number)),
                code_description: None,
                source,
                message,
                related_information: None,
                tags: None,
                data: None,
            }),
    {
        let code = Some(NumberOrString::Number(code_number));
        Diagnostic::new(range, Some(severity), code, source, message, None, None)
    }
}

#[derive(Debug, Clone, Copy, PartialEq, Eq, PartialOrd, Ord)]
pub struct DiagnosticSeverity(i32);

impl View for DiagnosticSeverity {
    type V = int;

    closed spec fn view(&self) -> int {
        self.0 as int
    }
}

impl DiagnosticSeverity {
    /// Reports an error.
    pub fn error() -> (code: Self)
        ensures
            code@ == 1,
    {
        DiagnosticSeverity(1)
    }

    /// Reports a warning.
    pub fn warning() -> (code: Self)
        ensures
            code@ == 2,
    {
        DiagnosticSeverity(2)
    }

    /// Reports information.
    pub fn information() -> (code: Self)
        ensures
            code@ == 3,
    {
        DiagnosticSeverity(3)
    }

    /// Reports a hint.
    pub fn hint() -> (code: Self)
        ensures
            code@ == 4,
    {
        DiagnosticSeverity(4)
    }

    /// The value that a number stands for on the wire, also where the
    /// number has no name.
    pub fn new(value: i32) -> (code: Self)
        ensures
            code@ == value,
    {
        DiagnosticSeverity(value)
    }

    /// The number that stands for the value on the wire.
    pub fn value(&self) -> (n: i32)
        ensures
            n == self@,
    {
        self.0
    }
}

/// The diagnostic tags.
#[derive(Debug, Clone, PartialEq, Eq)]
pub struct DiagnosticTag(i32);

impl View for DiagnosticTag {
    type V = int;

    closed spec fn view(&self) -> int {
        self.0 as int
    }
}

impl DiagnosticTag {
    /// Unused or unnecessary code. Clients are allowed to render diagnostics
    /// with this tag faded out instead of having an error squiggle.
    pub fn unnecessary() -> (code: Self)
        ensures
            code@ == 1,
    {
        DiagnosticTag(1)
    }

    /// Deprecated or obsolete code. Clients are allowed to render diagnostics
    /// with this tag strike through.
    pub fn deprecated() -> (code: Self)
        ensures
            code@ == 2,
    {
        DiagnosticTag(2)
    }

    /// The value that a number stands for on the wire, also where the
    /// number has no name.
    pub fn new(value: i32) -> (code: Self)
        ensures
            code@ == value,
    {
        DiagnosticTag(value)
    }

    /// The number that stands for the value on the wire.
    pub fn value(&self) -> (n: i32)
        ensures
            n == self@,
    {
        self.0
    }
}

/// Represents a related message and source code location for a diagnostic.
#[derive(Debug, Clone, PartialEq, Eq)]
pub struct DiagnosticRelatedInformation {
    /// The location of this related diagnostic information.
    pub location: Location,
    /// The message of this related diagnostic information.
    pub message: String,
}

/// Structure to capture a description for an error code.
#[derive(Debug, Clone, PartialEq, Eq)]
pub struct CodeDescription {
    /// A URI to open with more information about the diagnostic error.
    pub href: Uri,
}

/// Represents a reference to a command.
#[derive(Debug, Default, Clone, PartialEq, Eq)]
pub struct Command {
    /// Title of the command, like `save`.
    pub title: String,
    /// The identifier of the actual command handler.
    pub command: String,
    /// Arguments that the command handler should be invoked with.
    pub arguments: Option<Vec<serde_json::Value>>,
}

impl Command {
    /// The command with a title, the identifier of its handler and its arguments.
    pub fn new(title: String, command: String, arguments: Option<Vec<serde_json::Value>>) -> (made: Self)
        ensures
            made == (Command { title, command, arguments }),
    {
        Command { title, command, arguments }
    }
}

#[derive(Debug, Clone, PartialEq, Eq)]
pub enum MarkupKind {
    PlainText,
    Markdown,
}

/// A `MarkupContent` literal represents a string value whose content can be
/// represented in different formats.
#[derive(Debug, Clone, PartialEq, Eq)]
pub struct MarkupContent {
    /// The type of the Markup.
    pub kind: MarkupKind,
    /// The content itself
    pub value: String,
}

#[derive(Debug, Default, Clone, PartialEq, Eq)]
pub struct MarkdownClientCapabilities {
    /// The name of the parser.
    pub parser: String,
    /// The version of the parser.
    pub version: Option<String>,
    pub allowed_tags: Option<Vec<String>>,
}

/// Options to create a file.
#[derive(Debug, Clone, PartialEq, Eq)]
pub struct CreateFileOptions {
    /// Overwrite existing file.
    pub overwrite: Option<bool>,
    /// Ignore if exists.
    pub ignore_if_exists: Option<bool>,
}

/// Create file operation
#[derive(Debug, Clone, PartialEq, Eq)]
pub struct CreateFile {
    /// The resource to create.
    pub uri: Uri,
    /// Additional options
    pub options: Option<CreateFileOptions>,
    /// An optional annotation identifier describing the operation.
    pub annotation_id: Option<ChangeAnnotationIdentifier>,
}

/// Rename file options
#[derive(Debug, Clone, PartialEq, Eq)]
pub struct RenameFileOptions {
    /// Overwrite target if existing.
    pub overwrite: Option<bool>,
    /// Ignores if target exists.
    pub ignore_if_exists: Option<bool>,
}

/// Rename file operation
#[derive(Debug, Clone, PartialEq, Eq)]
pub struct RenameFile {
    /// The old (existing) location.
    pub old_uri: Uri,
    /// The new location.
    pub new_uri: Uri,
    /// Rename options.
    pub options: Option<RenameFileOptions>,
    /// An optional annotation identifier describing the operation.
    pub annotation_id: Option<ChangeAnnotationIdentifier>,
}

/// Delete file options
#[derive(Debug, Clone, PartialEq, Eq)]
pub struct DeleteFileOptions {
    /// Delete the content recursively if a folder is denoted.
    pub recursive: Option<bool>,
    /// Ignore the operation if the file doesn't exist.
    pub ignore_if_not_exists: Option<bool>,
}

/// Delete file operation
#[derive(Debug, Clone, PartialEq, Eq)]
pub struct DeleteFile {
    /// The file to delete.
    pub uri: Uri,
    /// Delete options.
    pub options: Option<DeleteFileOptions>,
    /// An optional annotation identifier describing the operation.
    pub annotation_id: Option<ChangeAnnotationIdentifier>,
}

#[derive(Debug, Default, Clone, PartialEq, Eq)]
pub struct WorkspaceEditClientCapabilities {
    pub document_changes: Option<bool>,
    pub resource_operations: Option<Vec<ResourceOperationKind>>,
    /// The failure handling strategy of a client if applying the workspace
    /// edit fails.
    pub failure_handling: Option<FailureHandlingKind>,
    pub normalizes_line_endings: Option<bool>,
    pub change_annotation_support: Option<ChangeAnnotationWorkspaceEditClientCapabilities>,
    pub metadata_support: Option<bool>,
    pub snippet_edit_support: Option<bool>,
}

#[derive(Debug, Default, Clone, PartialEq, Eq)]
pub struct ChangeAnnotationWorkspaceEditClientCapabilities {
    /// Whether the client groups edits with equal labels into tree nodes, for
    /// instance all edits labelled with "Changes in Strings" would be a tree
    /// node.
    pub groups_on_label: Option<bool>,
}

#[derive(Debug, Clone, Copy, PartialEq, Eq)]
pub enum ResourceOperationKind {
    Create,
    Rename,
    Delete,
}

#[derive(Debug, Clone, Copy, PartialEq, Eq)]
pub enum FailureHandlingKind {
    /// Applying the workspace change is simply aborted if one of the changes
    /// provided fails.
    Abort,
    /// All operations are executed transactionally.
    Transactional,
    /// If the workspace edit contains only textual file changes they are
    /// executed transactionally.
    TextOnlyTransactional,
    /// The client tries to undo the operations already executed.
    Undo,
}

#[derive(Debug, Default, Clone, Copy, PartialEq, Eq)]
pub enum TraceValue {
    /// The server should not send any `$/logTrace` notification
    #[default]
    Off,
    /// The server should not add the 'verbose' field in the `LogTraceParams`
    Messages,
    Verbose,
}
impl Wire for DiagnosticTag {
    open spec fn wire(&self) -> JsonView {
        JsonView::Number(self@)
    }

    open spec fn readable(v: JsonView) -> bool {
        i32::readable(v)
    }

    open spec fn normal(v: JsonView) -> JsonView {
        v
    }

    fn to_value(&self) -> (v: Json) {
        self.0.to_value()
    }

    fn from_value(v: &Json) -> (r: Option<Self>) {
        match i32::from_value(v) {
            Some(n) => Some(DiagnosticTag(n)),
            None => None,
        }
    }
}

/// Changes to many resources of a workspace. No resource stands twice in
/// `changes`, and no identifier twice in `change_annotations`.
#[derive(Debug, Default, Clone, PartialEq, Eq)]
pub struct WorkspaceEdit {
    /// Holds changes to existing resources.
    pub changes: Option<Vec<(Uri, Vec<TextEdit>)>>,
    /// Edits of versioned documents, or such edits mixed with the creating,
    /// renaming and deleting of files and folders.
    pub document_changes: Option<DocumentChanges>,
    /// The change annotations that edits and file operations refer to.
    pub change_annotations: Option<Vec<(ChangeAnnotationIdentifier, ChangeAnnotation)>>,
}

/// Whether no resource stands twice in the changes.
pub open spec fn distinct_resources(changes: Seq<(Uri, Vec<TextEdit>)>) -> bool {
    forall|i: int, j: int| 0 <= i < j < changes.len() ==> changes[i].0@ != changes[j].0@
}

/// Whether no identifier stands twice in the annotations.
pub open spec fn distinct_annotations(
    annotations: Seq<(ChangeAnnotationIdentifier, ChangeAnnotation)>,
) -> bool {
    forall|i: int, j: int| 0 <= i < j < annotations.len() ==> annotations[i].0@ != annotations[j].0@
}

impl WorkspaceEdit {
    /// Whether the two tables of the edit are maps.
    pub open spec fn wf(&self) -> bool {
        &&& self.changes matches Some(changes) ==> distinct_resources(changes@)
        &&& self.change_annotations matches Some(annotations) ==> distinct_annotations(
            annotations@,
        )
    }

    /// The edit that holds the given changes to existing resources and
    /// nothing else.
    pub fn new(changes: Vec<(Uri, Vec<TextEdit>)>) -> (made: Self)
        requires
            distinct_resources(changes@),
        ensures
            made.wf(),
            made == (WorkspaceEdit {
                changes: Some(changes),
                document_changes: None,
                change_annotations: None,
            }),
    {
        WorkspaceEdit { changes: Some(changes), document_changes: None, change_annotations: None }
    }

    /// Whether no resource stands twice in `changes`.
    pub fn has_distinct_resources(changes: &Vec<(Uri, Vec<TextEdit>)>) -> (distinct: bool)
        ensures
            distinct == distinct_resources(changes@),
    {
        let n = changes.len();
        let mut j: usize = 0;
        while j < n
            invariant
                n == changes@.len(),
                j <= n,
                forall|a: int, b: int| 0 <= a < b < j ==> changes@[a].0@ != changes@[b].0@,
            decreases n - j,
        {
            let mut i: usize = 0;
            while i < j
                invariant
                    n == changes@.len(),
                    i <= j < n,
                    forall|a: int| 0 <= a < i ==> changes@[a].0@ != changes@[j as int].0@,
                decreases j - i,
            {
                if crate::text::str_eq(changes[i].0.as_str(), changes[j].0.as_str()) {
                    return false;
                }
                i = i + 1;
            }
            j = j + 1;
        }
        true
    }
}

/// A pattern of file names, in the syntax of globs.
pub type Pattern = String;

/// A document selector is the combination of one or many document filters.
pub type DocumentSelector = Vec<DocumentFilter>;

/// An identifier referring to a change annotation managed by a workspace
/// edit.
pub type ChangeAnnotationIdentifier = String;

} // verus!
