//! The wire forms of edits: positions, ranges and text edits, the
//! operations on files, and the edits of a whole workspace.

use vstd::prelude::*;
use vstd::string::*;
use crate::lsp::basic::{
    AnnotatedTextEdit, ChangeAnnotation, CreateFile, CreateFileOptions, DeleteFile,
    DeleteFileOptions, OptionalVersionedTextDocumentIdentifier, Position, Range, RenameFile,
    RenameFileOptions, TextDocumentEdit, TextEdit, WorkspaceEdit,
};
use crate::lsp::{DocumentChangeOperation, DocumentChanges, OneOf, ResourceOp};
use crate::text::str_eq;
use crate::uri::{is_uri, Uri};
use crate::wire::{
    field, get, get_opt, has, lemma_object_view, may_have, member, member_of, members_view,
    nullable_field, opt_field, opt_wire, put, put_nullable, put_opt, read, read_opt, Json,
    JsonView, Wire,
};

verus! {

impl Wire for Position {
    open spec fn wire(&self) -> JsonView {
        JsonView::Object(
            field("line"@, self.line.wire()) + field("character"@, self.character.wire()),
        )
    }

    open spec fn readable(v: JsonView) -> bool {
        &&& v matches JsonView::Object(m)
        &&& has::<u32>(m, "line"@)
        &&& has::<u32>(m, "character"@)
    }

    open spec fn normal(v: JsonView) -> JsonView {
        JsonView::Object(
            field("line"@, read::<u32>(v->Object_0, "line"@)) + field(
                "character"@,
                read::<u32>(v->Object_0, "character"@),
            ),
        )
    }

    fn to_value(&self) -> (v: Json) {
        let mut members: Vec<(String, Json)> = Vec::new();
        put(&mut members, "line", &self.line);
        put(&mut members, "character", &self.character);
        proof {
            lemma_object_view(members);
        }
        Json::Object(members)
    }

    fn from_value(v: &Json) -> (r: Option<Self>) {
        match v {
            Json::Object(members) => {
                proof {
                    lemma_object_view(*members);
                }
                let line = match get::<u32>(members, "line") {
                    Some(line) => line,
                    None => {
                        return None;
                    },
                };
                let character = match get::<u32>(members, "character") {
                    Some(character) => character,
                    None => {
                        return None;
                    },
                };
                Some(Position { line, character })
            },
            _ => None,
        }
    }
}

impl Wire for Range {
    open spec fn wire(&self) -> JsonView {
        JsonView::Object(field("start"@, self.start.wire()) + field("end"@, self.end.wire()))
    }

    open spec fn readable(v: JsonView) -> bool {
        &&& v matches JsonView::Object(m)
        &&& has::<Position>(m, "start"@)
        &&& has::<Position>(m, "end"@)
    }

    open spec fn normal(v: JsonView) -> JsonView {
        JsonView::Object(
            field("start"@, read::<Position>(v->Object_0, "start"@)) + field(
                "end"@,
                read::<Position>(v->Object_0, "end"@),
            ),
        )
    }

    fn to_value(&self) -> (v: Json) {
        let mut members: Vec<(String, Json)> = Vec::new();
        put(&mut members, "start", &self.start);
        put(&mut members, "end", &self.end);
        proof {
            lemma_object_view(members);
        }
        Json::Object(members)
    }

    fn from_value(v: &Json) -> (r: Option<Self>) {
        match v {
            Json::Object(members) => {
                proof {
                    lemma_object_view(*members);
                }
                let start = match get::<Position>(members, "start") {
                    Some(start) => start,
                    None => {
                        return None;
                    },
                };
                let end = match get::<Position>(members, "end") {
                    Some(end) => end,
                    None => {
                        return None;
                    },
                };
                Some(Range { start, end })
            },
            _ => None,
        }
    }
}

/// The members of a text edit.
pub open spec fn text_edit_members(range: JsonView, new_text: JsonView) -> Seq<
    (Seq<char>, JsonView),
> {
    field("range"@, range) + field("newText"@, new_text)
}

/// Whether the members hold what a text edit needs.
pub open spec fn text_edit_readable(m: Seq<(Seq<char>, JsonView)>) -> bool {
    has::<Range>(m, "range"@) && has::<String>(m, "newText"@)
}

/// The members of the text edit that `m` is read as.
pub open spec fn text_edit_normal(m: Seq<(Seq<char>, JsonView)>) -> Seq<(Seq<char>, JsonView)> {
    text_edit_members(read::<Range>(m, "range"@), read::<String>(m, "newText"@))
}

fn put_text_edit(members: &mut Vec<(String, Json)>, edit: &TextEdit)
    ensures
        members_view(final(members)@) == members_view(old(members)@) + text_edit_members(
            edit.range.wire(),
            edit.new_text.wire(),
        ),
{
    put(members, "range", &edit.range);
    put(members, "newText", &edit.new_text);
    assert(members_view(members@) =~= members_view(old(members)@) + text_edit_members(
        edit.range.wire(),
        edit.new_text.wire(),
    ));
}

fn get_text_edit(members: &Vec<(String, Json)>) -> (r: Option<TextEdit>)
    ensures
        r is Some <==> text_edit_readable(members_view(members@)),
        r is Some ==> text_edit_members(r->Some_0.range.wire(), r->Some_0.new_text.wire())
            == text_edit_normal(members_view(members@)),
{
    let range = match get::<Range>(members, "range") {
        Some(range) => range,
        None => {
            return None;
        },
    };
    let new_text = match get::<String>(members, "newText") {
        Some(new_text) => new_text,
        None => {
            return None;
        },
    };
    Some(TextEdit { range, new_text })
}

impl Wire for TextEdit {
    open spec fn wire(&self) -> JsonView {
        JsonView::Object(text_edit_members(self.range.wire(), self.new_text.wire()))
    }

    open spec fn readable(v: JsonView) -> bool {
        v matches JsonView::Object(m) && text_edit_readable(m)
    }

    open spec fn normal(v: JsonView) -> JsonView {
        JsonView::Object(text_edit_normal(v->Object_0))
    }

    fn to_value(&self) -> (v: Json) {
        let mut members: Vec<(String, Json)> = Vec::new();
        put_text_edit(&mut members, self);
        proof {
            lemma_object_view(members);
        }
        Json::Object(members)
    }

    fn from_value(v: &Json) -> (r: Option<Self>) {
        match v {
            Json::Object(members) => {
                proof {
                    lemma_object_view(*members);
                }
                get_text_edit(members)
            },
            _ => None,
        }
    }
}

impl Wire for Uri {
    open spec fn wire(&self) -> JsonView {
        JsonView::String(self@)
    }

    open spec fn readable(v: JsonView) -> bool {
        v matches JsonView::String(text) && is_uri(text)
    }

    open spec fn normal(v: JsonView) -> JsonView {
        v
    }

    fn to_value(&self) -> (v: Json) {
        Json::String(String::from_str(self.as_str()))
    }

    fn from_value(v: &Json) -> (r: Option<Self>) {
        match v {
            Json::String(text) => match Uri::from_str(text.as_str()) {
                Ok(uri) => Some(uri),
                Err(_) => None,
            },
            _ => None,
        }
    }
}

impl Wire for AnnotatedTextEdit {
    open spec fn wire(&self) -> JsonView {
        JsonView::Object(
            text_edit_members(self.text_edit.range.wire(), self.text_edit.new_text.wire())
                + field("annotationId"@, self.annotation_id.wire()),
        )
    }

    open spec fn readable(v: JsonView) -> bool {
        &&& v matches JsonView::Object(m)
        &&& text_edit_readable(m)
        &&& has::<String>(m, "annotationId"@)
    }

    open spec fn normal(v: JsonView) -> JsonView {
        JsonView::Object(
            text_edit_normal(v->Object_0) + field(
                "annotationId"@,
                read::<String>(v->Object_0, "annotationId"@),
            ),
        )
    }

    fn to_value(&self) -> (v: Json) {
        let mut members: Vec<(String, Json)> = Vec::new();
        put_text_edit(&mut members, &self.text_edit);
        put(&mut members, "annotationId", &self.annotation_id);
        proof {
            lemma_object_view(members);
        }
        Json::Object(members)
    }

    fn from_value(v: &Json) -> (r: Option<Self>) {
        match v {
            Json::Object(members) => {
                proof {
                    lemma_object_view(*members);
                }
                let text_edit = match get_text_edit(members) {
                    Some(text_edit) => text_edit,
                    None => {
                        return None;
                    },
                };
                let annotation_id = match get::<String>(members, "annotationId") {
                    Some(annotation_id) => annotation_id,
                    None => {
                        return None;
                    },
                };
                Some(AnnotatedTextEdit { text_edit, annotation_id })
            },
            _ => None,
        }
    }
}

impl Wire for OptionalVersionedTextDocumentIdentifier {
    open spec fn wire(&self) -> JsonView {
        JsonView::Object(
            field("uri"@, self.uri.wire()) + nullable_field("version"@, opt_wire(self.version)),
        )
    }

    open spec fn readable(v: JsonView) -> bool {
        &&& v matches JsonView::Object(m)
        &&& has::<Uri>(m, "uri"@)
        &&& may_have::<i32>(m, "version"@)
    }

    open spec fn normal(v: JsonView) -> JsonView {
        JsonView::Object(
            field("uri"@, read::<Uri>(v->Object_0, "uri"@)) + nullable_field(
                "version"@,
                read_opt::<i32>(v->Object_0, "version"@),
            ),
        )
    }

    fn to_value(&self) -> (v: Json) {
        let mut members: Vec<(String, Json)> = Vec::new();
        put(&mut members, "uri", &self.uri);
        put_nullable(&mut members, "version", &self.version);
        proof {
            lemma_object_view(members);
        }
        Json::Object(members)
    }

    fn from_value(v: &Json) -> (r: Option<Self>) {
        match v {
            Json::Object(members) => {
                proof {
                    lemma_object_view(*members);
                }
                let uri = match get::<Uri>(members, "uri") {
                    Some(uri) => uri,
                    None => {
                        return None;
                    },
                };
                let version = match get_opt::<i32>(members, "version") {
                    Some(version) => version,
                    None => {
                        return None;
                    },
                };
                Some(OptionalVersionedTextDocumentIdentifier { uri, version })
            },
            _ => None,
        }
    }
}

impl Wire for TextDocumentEdit {
    open spec fn wire(&self) -> JsonView {
        JsonView::Object(
            field("textDocument"@, self.text_document.wire()) + field("edits"@, self.edits.wire()),
        )
    }

    open spec fn readable(v: JsonView) -> bool {
        &&& v matches JsonView::Object(m)
        &&& has::<OptionalVersionedTextDocumentIdentifier>(m, "textDocument"@)
        &&& has::<Vec<OneOf<TextEdit, AnnotatedTextEdit>>>(m, "edits"@)
    }

    open spec fn normal(v: JsonView) -> JsonView {
        JsonView::Object(
            field(
                "textDocument"@,
                read::<OptionalVersionedTextDocumentIdentifier>(v->Object_0, "textDocument"@),
            ) + field(
                "edits"@,
                read::<Vec<OneOf<TextEdit, AnnotatedTextEdit>>>(v->Object_0, "edits"@),
            ),
        )
    }

    fn to_value(&self) -> (v: Json) {
        let mut members: Vec<(String, Json)> = Vec::new();
        put(&mut members, "textDocument", &self.text_document);
        put(&mut members, "edits", &self.edits);
        proof {
            lemma_object_view(members);
        }
        Json::Object(members)
    }

    fn from_value(v: &Json) -> (r: Option<Self>) {
        match v {
            Json::Object(members) => {
                proof {
                    lemma_object_view(*members);
                }
                let text_document = match get::<OptionalVersionedTextDocumentIdentifier>(
                    members,
                    "textDocument",
                ) {
                    Some(text_document) => text_document,
                    None => {
                        return None;
                    },
                };
                let edits = match get::<Vec<OneOf<TextEdit, AnnotatedTextEdit>>>(
                    members,
                    "edits",
                ) {
                    Some(edits) => edits,
                    None => {
                        return None;
                    },
                };
                Some(TextDocumentEdit { text_document, edits })
            },
            _ => None,
        }
    }
}

impl Wire for CreateFileOptions {
    open spec fn wire(&self) -> JsonView {
        JsonView::Object(
            opt_field("overwrite"@, opt_wire(self.overwrite)) + opt_field(
                "ignoreIfExists"@,
                opt_wire(self.ignore_if_exists),
            ),
        )
    }

    open spec fn readable(v: JsonView) -> bool {
        &&& v matches JsonView::Object(m)
        &&& may_have::<bool>(m, "overwrite"@)
        &&& may_have::<bool>(m, "ignoreIfExists"@)
    }

    open spec fn normal(v: JsonView) -> JsonView {
        JsonView::Object(
            opt_field("overwrite"@, read_opt::<bool>(v->Object_0, "overwrite"@)) + opt_field(
                "ignoreIfExists"@,
                read_opt::<bool>(v->Object_0, "ignoreIfExists"@),
            ),
        )
    }

    fn to_value(&self) -> (v: Json) {
        let mut members: Vec<(String, Json)> = Vec::new();
        put_opt(&mut members, "overwrite", &self.overwrite);
        put_opt(&mut members, "ignoreIfExists", &self.ignore_if_exists);
        proof {
            lemma_object_view(members);
        }
        Json::Object(members)
    }

    fn from_value(v: &Json) -> (r: Option<Self>) {
        match v {
            Json::Object(members) => {
                proof {
                    lemma_object_view(*members);
                }
                let overwrite = match get_opt::<bool>(members, "overwrite") {
                    Some(overwrite) => overwrite,
                    None => {
                        return None;
                    },
                };
                let ignore_if_exists = match get_opt::<bool>(members, "ignoreIfExists") {
                    Some(ignore_if_exists) => ignore_if_exists,
                    None => {
                        return None;
                    },
                };
                Some(CreateFileOptions { overwrite, ignore_if_exists })
            },
            _ => None,
        }
    }
}

impl Wire for RenameFileOptions {
    open spec fn wire(&self) -> JsonView {
        JsonView::Object(
            opt_field("overwrite"@, opt_wire(self.overwrite)) + opt_field(
                "ignoreIfExists"@,
                opt_wire(self.ignore_if_exists),
            ),
        )
    }

    open spec fn readable(v: JsonView) -> bool {
        &&& v matches JsonView::Object(m)
        &&& may_have::<bool>(m, "overwrite"@)
        &&& may_have::<bool>(m, "ignoreIfExists"@)
    }

    open spec fn normal(v: JsonView) -> JsonView {
        JsonView::Object(
            opt_field("overwrite"@, read_opt::<bool>(v->Object_0, "overwrite"@)) + opt_field(
                "ignoreIfExists"@,
                read_opt::<bool>(v->Object_0, "ignoreIfExists"@),
            ),
        )
    }

    fn to_value(&self) -> (v: Json) {
        let mut members: Vec<(String, Json)> = Vec::new();
        put_opt(&mut members, "overwrite", &self.overwrite);
        put_opt(&mut members, "ignoreIfExists", &self.ignore_if_exists);
        proof {
            lemma_object_view(members);
        }
        Json::Object(members)
    }

    fn from_value(v: &Json) -> (r: Option<Self>) {
        match v {
            Json::Object(members) => {
                proof {
                    lemma_object_view(*members);
                }
                let overwrite = match get_opt::<bool>(members, "overwrite") {
                    Some(overwrite) => overwrite,
                    None => {
                        return None;
                    },
                };
                let ignore_if_exists = match get_opt::<bool>(members, "ignoreIfExists") {
                    Some(ignore_if_exists) => ignore_if_exists,
                    None => {
                        return None;
                    },
                };
                Some(RenameFileOptions { overwrite, ignore_if_exists })
            },
            _ => None,
        }
    }
}

impl Wire for DeleteFileOptions {
    open spec fn wire(&self) -> JsonView {
        JsonView::Object(
            opt_field("recursive"@, opt_wire(self.recursive)) + opt_field(
                "ignoreIfNotExists"@,
                opt_wire(self.ignore_if_not_exists),
            ),
        )
    }

    open spec fn readable(v: JsonView) -> bool {
        &&& v matches JsonView::Object(m)
        &&& may_have::<bool>(m, "recursive"@)
        &&& may_have::<bool>(m, "ignoreIfNotExists"@)
    }

    open spec fn normal(v: JsonView) -> JsonView {
        JsonView::Object(
            opt_field("recursive"@, read_opt::<bool>(v->Object_0, "recursive"@)) + opt_field(
                "ignoreIfNotExists"@,
                read_opt::<bool>(v->Object_0, "ignoreIfNotExists"@),
            ),
        )
    }

    fn to_value(&self) -> (v: Json) {
        let mut members: Vec<(String, Json)> = Vec::new();
        put_opt(&mut members, "recursive", &self.recursive);
        put_opt(&mut members, "ignoreIfNotExists", &self.ignore_if_not_exists);
        proof {
            lemma_object_view(members);
        }
        Json::Object(members)
    }

    fn from_value(v: &Json) -> (r: Option<Self>) {
        match v {
            Json::Object(members) => {
                proof {
                    lemma_object_view(*members);
                }
                let recursive = match get_opt::<bool>(members, "recursive") {
                    Some(recursive) => recursive,
                    None => {
                        return None;
                    },
                };
                let ignore_if_not_exists = match get_opt::<bool>(members, "ignoreIfNotExists") {
                    Some(ignore_if_not_exists) => ignore_if_not_exists,
                    None => {
                        return None;
                    },
                };
                Some(DeleteFileOptions { recursive, ignore_if_not_exists })
            },
            _ => None,
        }
    }
}

/// The members of the creation of a file.
pub open spec fn create_file_members(op: CreateFile) -> Seq<(Seq<char>, JsonView)> {
    field("uri"@, op.uri.wire())
        + opt_field("options"@, opt_wire(op.options))
        + opt_field("annotationId"@, opt_wire(op.annotation_id))
}

/// Whether the members hold what the creation of a file needs.
pub open spec fn create_file_readable(m: Seq<(Seq<char>, JsonView)>) -> bool {
    &&& has::<Uri>(m, "uri"@)
    &&& may_have::<CreateFileOptions>(m, "options"@)
    &&& may_have::<String>(m, "annotationId"@)
}

/// The members of the creation of a file that `m` is read as.
pub open spec fn create_file_normal(m: Seq<(Seq<char>, JsonView)>) -> Seq<(Seq<char>, JsonView)> {
    field("uri"@, read::<Uri>(m, "uri"@))
        + opt_field("options"@, read_opt::<CreateFileOptions>(m, "options"@))
        + opt_field("annotationId"@, read_opt::<String>(m, "annotationId"@))
}

fn put_create_file(members: &mut Vec<(String, Json)>, op: &CreateFile)
    ensures
        members_view(final(members)@) == members_view(old(members)@) + create_file_members(*op),
{
    put(members, "uri", &op.uri);
    put_opt(members, "options", &op.options);
    put_opt(members, "annotationId", &op.annotation_id);
    assert(members_view(members@) =~= members_view(old(members)@) + create_file_members(*op));
}

fn get_create_file(members: &Vec<(String, Json)>) -> (r: Option<CreateFile>)
    ensures
        r is Some <==> create_file_readable(members_view(members@)),
        r is Some ==> create_file_members(r->Some_0) == create_file_normal(members_view(members@)),
{
    let uri = match get::<Uri>(members, "uri") {
        Some(uri) => uri,
        None => {
            return None;
        },
    };
    let options = match get_opt::<CreateFileOptions>(members, "options") {
        Some(options) => options,
        None => {
            return None;
        },
    };
    let annotation_id = match get_opt::<String>(members, "annotationId") {
        Some(annotation_id) => annotation_id,
        None => {
            return None;
        },
    };
    Some(CreateFile { uri, options, annotation_id })
}

impl Wire for CreateFile {
    open spec fn wire(&self) -> JsonView {
        JsonView::Object(create_file_members(*self))
    }

    open spec fn readable(v: JsonView) -> bool {
        v matches JsonView::Object(m) && create_file_readable(m)
    }

    open spec fn normal(v: JsonView) -> JsonView {
        JsonView::Object(create_file_normal(v->Object_0))
    }

    fn to_value(&self) -> (v: Json) {
        let mut members: Vec<(String, Json)> = Vec::new();
        put_create_file(&mut members, self);
        proof {
            lemma_object_view(members);
        }
        Json::Object(members)
    }

    fn from_value(v: &Json) -> (r: Option<Self>) {
        match v {
            Json::Object(members) => {
                proof {
                    lemma_object_view(*members);
                }
                get_create_file(members)
            },
            _ => None,
        }
    }
}

/// The members of the renaming of a file.
pub open spec fn rename_file_members(op: RenameFile) -> Seq<(Seq<char>, JsonView)> {
    field("oldUri"@, op.old_uri.wire())
        + field("newUri"@, op.new_uri.wire())
        + opt_field("options"@, opt_wire(op.options))
        + opt_field("annotationId"@, opt_wire(op.annotation_id))
}

/// Whether the members hold what the renaming of a file needs.
pub open spec fn rename_file_readable(m: Seq<(Seq<char>, JsonView)>) -> bool {
    &&& has::<Uri>(m, "oldUri"@)
    &&& has::<Uri>(m, "newUri"@)
    &&& may_have::<RenameFileOptions>(m, "options"@)
    &&& may_have::<String>(m, "annotationId"@)
}

/// The members of the renaming of a file that `m` is read as.
pub open spec fn rename_file_normal(m: Seq<(Seq<char>, JsonView)>) -> Seq<(Seq<char>, JsonView)> {
    field("oldUri"@, read::<Uri>(m, "oldUri"@))
        + field("newUri"@, read::<Uri>(m, "newUri"@))
        + opt_field("options"@, read_opt::<RenameFileOptions>(m, "options"@))
        + opt_field("annotationId"@, read_opt::<String>(m, "annotationId"@))
}

fn put_rename_file(members: &mut Vec<(String, Json)>, op: &RenameFile)
    ensures
        members_view(final(members)@) == members_view(old(members)@) + rename_file_members(*op),
{
    put(members, "oldUri", &op.old_uri);
    put(members, "newUri", &op.new_uri);
    put_opt(members, "options", &op.options);
    put_opt(members, "annotationId", &op.annotation_id);
    assert(members_view(members@) =~= members_view(old(members)@) + rename_file_members(*op));
}

fn get_rename_file(members: &Vec<(String, Json)>) -> (r: Option<RenameFile>)
    ensures
        r is Some <==> rename_file_readable(members_view(members@)),
        r is Some ==> rename_file_members(r->Some_0) == rename_file_normal(members_view(members@)),
{
    let old_uri = match get::<Uri>(members, "oldUri") {
        Some(old_uri) => old_uri,
        None => {
            return None;
        },
    };
    let new_uri = match get::<Uri>(members, "newUri") {
        Some(new_uri) => new_uri,
        None => {
            return None;
        },
    };
    let options = match get_opt::<RenameFileOptions>(members, "options") {
        Some(options) => options,
        None => {
            return None;
        },
    };
    let annotation_id = match get_opt::<String>(members, "annotationId") {
        Some(annotation_id) => annotation_id,
        None => {
            return None;
        },
    };
    Some(RenameFile { old_uri, new_uri, options, annotation_id })
}

impl Wire for RenameFile {
    open spec fn wire(&self) -> JsonView {
        JsonView::Object(rename_file_members(*self))
    }

    open spec fn readable(v: JsonView) -> bool {
        v matches JsonView::Object(m) && rename_file_readable(m)
    }

    open spec fn normal(v: JsonView) -> JsonView {
        JsonView::Object(rename_file_normal(v->Object_0))
    }

    fn to_value(&self) -> (v: Json) {
        let mut members: Vec<(String, Json)> = Vec::new();
        put_rename_file(&mut members, self);
        proof {
            lemma_object_view(members);
        }
        Json::Object(members)
    }

    fn from_value(v: &Json) -> (r: Option<Self>) {
        match v {
            Json::Object(members) => {
                proof {
                    lemma_object_view(*members);
                }
                get_rename_file(members)
            },
            _ => None,
        }
    }
}

/// The members of the deletion of a file.
pub open spec fn delete_file_members(op: DeleteFile) -> Seq<(Seq<char>, JsonView)> {
    field("uri"@, op.uri.wire())
        + opt_field("options"@, opt_wire(op.options))
        + opt_field("annotationId"@, opt_wire(op.annotation_id))
}

/// Whether the members hold what the deletion of a file needs.
pub open spec fn delete_file_readable(m: Seq<(Seq<char>, JsonView)>) -> bool {
    &&& has::<Uri>(m, "uri"@)
    &&& may_have::<DeleteFileOptions>(m, "options"@)
    &&& may_have::<String>(m, "annotationId"@)
}

/// The members of the deletion of a file that `m` is read as.
pub open spec fn delete_file_normal(m: Seq<(Seq<char>, JsonView)>) -> Seq<(Seq<char>, JsonView)> {
    field("uri"@, read::<Uri>(m, "uri"@))
        + opt_field("options"@, read_opt::<DeleteFileOptions>(m, "options"@))
        + opt_field("annotationId"@, read_opt::<String>(m, "annotationId"@))
}

fn put_delete_file(members: &mut Vec<(String, Json)>, op: &DeleteFile)
    ensures
        members_view(final(members)@) == members_view(old(members)@) + delete_file_members(*op),
{
    put(members, "uri", &op.uri);
    put_opt(members, "options", &op.options);
    put_opt(members, "annotationId", &op.annotation_id);
    assert(members_view(members@) =~= members_view(old(members)@) + delete_file_members(*op));
}

fn get_delete_file(members: &Vec<(String, Json)>) -> (r: Option<DeleteFile>)
    ensures
        r is Some <==> delete_file_readable(members_view(members@)),
        r is Some ==> delete_file_members(r->Some_0) == delete_file_normal(members_view(members@)),
{
    let uri = match get::<Uri>(members, "uri") {
        Some(uri) => uri,
        None => {
            return None;
        },
    };
    let options = match get_opt::<DeleteFileOptions>(members, "options") {
        Some(options) => options,
        None => {
            return None;
        },
    };
    let annotation_id = match get_opt::<String>(members, "annotationId") {
        Some(annotation_id) => annotation_id,
        None => {
            return None;
        },
    };
    Some(DeleteFile { uri, options, annotation_id })
}

impl Wire for DeleteFile {
    open spec fn wire(&self) -> JsonView {
        JsonView::Object(delete_file_members(*self))
    }

    open spec fn readable(v: JsonView) -> bool {
        v matches JsonView::Object(m) && delete_file_readable(m)
    }

    open spec fn normal(v: JsonView) -> JsonView {
        JsonView::Object(delete_file_normal(v->Object_0))
    }

    fn to_value(&self) -> (v: Json) {
        let mut members: Vec<(String, Json)> = Vec::new();
        put_delete_file(&mut members, self);
        proof {
            lemma_object_view(members);
        }
        Json::Object(members)
    }

    fn from_value(v: &Json) -> (r: Option<Self>) {
        match v {
            Json::Object(members) => {
                proof {
                    lemma_object_view(*members);
                }
                get_delete_file(members)
            },
            _ => None,
        }
    }
}

/// The name that tells the operations on files apart on the wire.
pub open spec fn operation_tag(op: ResourceOp) -> Seq<char> {
    match op {
        ResourceOp::Create(_) => "create"@,
        ResourceOp::Rename(_) => "rename"@,
        ResourceOp::Delete(_) => "delete"@,
    }
}

impl Wire for ResourceOp {
    open spec fn wire(&self) -> JsonView {
        JsonView::Object(
            field("kind"@, JsonView::String(operation_tag(*self))) + match self {
                ResourceOp::Create(op) => create_file_members(*op),
                ResourceOp::Rename(op) => rename_file_members(*op),
                ResourceOp::Delete(op) => delete_file_members(*op),
            },
        )
    }

    open spec fn readable(v: JsonView) -> bool {
        &&& v matches JsonView::Object(m)
        &&& member_of(m, "kind"@) matches Some(JsonView::String(tag))
        &&& {
            ||| tag == "create"@ && create_file_readable(m)
            ||| tag == "rename"@ && rename_file_readable(m)
            ||| tag == "delete"@ && delete_file_readable(m)
        }
    }

    open spec fn normal(v: JsonView) -> JsonView {
        let m = v->Object_0;
        let tag = member_of(m, "kind"@)->0->String_0;
        JsonView::Object(
            field("kind"@, JsonView::String(tag)) + if tag == "create"@ {
                create_file_normal(m)
            } else if tag == "rename"@ {
                rename_file_normal(m)
            } else {
                delete_file_normal(m)
            },
        )
    }

    fn to_value(&self) -> (v: Json) {
        let mut members: Vec<(String, Json)> = Vec::new();
        match self {
            ResourceOp::Create(op) => {
                put(&mut members, "kind", &String::from_str("create"));
                put_create_file(&mut members, op);
            },
            ResourceOp::Rename(op) => {
                put(&mut members, "kind", &String::from_str("rename"));
                put_rename_file(&mut members, op);
            },
            ResourceOp::Delete(op) => {
                put(&mut members, "kind", &String::from_str("delete"));
                put_delete_file(&mut members, op);
            },
        }
        proof {
            lemma_object_view(members);
            assert(members_view(members@) =~= self.wire()->Object_0);
        }
        Json::Object(members)
    }

    fn from_value(v: &Json) -> (r: Option<Self>) {
        match v {
            Json::Object(members) => {
                proof {
                    lemma_object_view(*members);
                    reveal_strlit("create");
                    reveal_strlit("rename");
                    reveal_strlit("delete");
                    assert("create"@ != "rename"@) by {
                        assert("create"@[0] == 'c');
                        assert("rename"@[0] == 'r');
                    }
                    assert("create"@ != "delete"@) by {
                        assert("create"@[0] == 'c');
                        assert("delete"@[0] == 'd');
                    }
                    assert("rename"@ != "delete"@) by {
                        assert("rename"@[0] == 'r');
                        assert("delete"@[0] == 'd');
                    }
                }
                let tag = match member(members, "kind") {
                    Some(Json::String(tag)) => tag,
                    _ => {
                        return None;
                    },
                };
                if str_eq(tag.as_str(), "create") {
                    match get_create_file(members) {
                        Some(op) => Some(ResourceOp::Create(op)),
                        None => None,
                    }
                } else if str_eq(tag.as_str(), "rename") {
                    match get_rename_file(members) {
                        Some(op) => Some(ResourceOp::Rename(op)),
                        None => None,
                    }
                } else if str_eq(tag.as_str(), "delete") {
                    match get_delete_file(members) {
                        Some(op) => Some(ResourceOp::Delete(op)),
                        None => None,
                    }
                } else {
                    None
                }
            },
            _ => None,
        }
    }
}

impl Wire for DocumentChangeOperation {
    open spec fn wire(&self) -> JsonView {
        match self {
            DocumentChangeOperation::Op(op) => op.wire(),
            DocumentChangeOperation::Edit(edit) => edit.wire(),
        }
    }

    open spec fn readable(v: JsonView) -> bool {
        ResourceOp::readable(v) || TextDocumentEdit::readable(v)
    }

    open spec fn normal(v: JsonView) -> JsonView {
        if ResourceOp::readable(v) {
            ResourceOp::normal(v)
        } else {
            TextDocumentEdit::normal(v)
        }
    }

    fn to_value(&self) -> (v: Json) {
        match self {
            DocumentChangeOperation::Op(op) => op.to_value(),
            DocumentChangeOperation::Edit(edit) => edit.to_value(),
        }
    }

    fn from_value(v: &Json) -> (r: Option<Self>) {
        match ResourceOp::from_value(v) {
            Some(op) => Some(DocumentChangeOperation::Op(op)),
            None => match TextDocumentEdit::from_value(v) {
                Some(edit) => Some(DocumentChangeOperation::Edit(edit)),
                None => None,
            },
        }
    }
}

impl Wire for DocumentChanges {
    open spec fn wire(&self) -> JsonView {
        match self {
            DocumentChanges::Edits(edits) => edits.wire(),
            DocumentChanges::Operations(operations) => operations.wire(),
        }
    }

    open spec fn readable(v: JsonView) -> bool {
        Vec::<TextDocumentEdit>::readable(v) || Vec::<DocumentChangeOperation>::readable(v)
    }

    open spec fn normal(v: JsonView) -> JsonView {
        if Vec::<TextDocumentEdit>::readable(v) {
            Vec::<TextDocumentEdit>::normal(v)
        } else {
            Vec::<DocumentChangeOperation>::normal(v)
        }
    }

    fn to_value(&self) -> (v: Json) {
        match self {
            DocumentChanges::Edits(edits) => edits.to_value(),
            DocumentChanges::Operations(operations) => operations.to_value(),
        }
    }

    fn from_value(v: &Json) -> (r: Option<Self>) {
        match Vec::<TextDocumentEdit>::from_value(v) {
            Some(edits) => Some(DocumentChanges::Edits(edits)),
            None => match Vec::<DocumentChangeOperation>::from_value(v) {
                Some(operations) => Some(DocumentChanges::Operations(operations)),
                None => None,
            },
        }
    }
}

impl Wire for ChangeAnnotation {
    open spec fn wire(&self) -> JsonView {
        JsonView::Object(
            field("label"@, self.label.wire()) + opt_field(
                "needsConfirmation"@,
                opt_wire(self.needs_confirmation),
            ) + opt_field("description"@, opt_wire(self.description)),
        )
    }

    open spec fn readable(v: JsonView) -> bool {
        &&& v matches JsonView::Object(m)
        &&& has::<String>(m, "label"@)
        &&& may_have::<bool>(m, "needsConfirmation"@)
        &&& may_have::<String>(m, "description"@)
    }

    open spec fn normal(v: JsonView) -> JsonView {
        let m = v->Object_0;
        JsonView::Object(
            field("label"@, read::<String>(m, "label"@)) + opt_field(
                "needsConfirmation"@,
                read_opt::<bool>(m, "needsConfirmation"@),
            ) + opt_field("description"@, read_opt::<String>(m, "description"@)),
        )
    }

    fn to_value(&self) -> (v: Json) {
        let mut members: Vec<(String, Json)> = Vec::new();
        put(&mut members, "label", &self.label);
        put_opt(&mut members, "needsConfirmation", &self.needs_confirmation);
        put_opt(&mut members, "description", &self.description);
        proof {
            lemma_object_view(members);
        }
        Json::Object(members)
    }

    fn from_value(v: &Json) -> (r: Option<Self>) {
        match v {
            Json::Object(members) => {
                proof {
                    lemma_object_view(*members);
                }
                let label = match get::<String>(members, "label") {
                    Some(label) => label,
                    None => {
                        return None;
                    },
                };
                let needs_confirmation = match get_opt::<bool>(members, "needsConfirmation") {
                    Some(needs_confirmation) => needs_confirmation,
                    None => {
                        return None;
                    },
                };
                let description = match get_opt::<String>(members, "description") {
                    Some(description) => description,
                    None => {
                        return None;
                    },
                };
                Some(ChangeAnnotation { label, needs_confirmation, description })
            },
            _ => None,
        }
    }
}

/// A type whose values name the members of an object.
pub trait Key: Sized {
    /// The name that stands for the key.
    spec fn key_text(&self) -> Seq<char>;

    /// Whether a name can be read as a key.
    spec fn key_ok(text: Seq<char>) -> bool;

    /// Writes the key as a name.
    fn to_key(&self) -> (name: String)
        ensures
            name@ == self.key_text(),
    ;

    /// Reads a name as a key.
    fn from_key(name: &str) -> (r: Option<Self>)
        ensures
            r is Some <==> Self::key_ok(name@),
            r is Some ==> r->Some_0.key_text() == name@,
    ;
}

impl Key for String {
    open spec fn key_text(&self) -> Seq<char> {
        self@
    }

    open spec fn key_ok(text: Seq<char>) -> bool {
        true
    }

    fn to_key(&self) -> (name: String) {
        self.clone()
    }

    fn from_key(name: &str) -> (r: Option<Self>) {
        Some(String::from_str(name))
    }
}

impl Key for Uri {
    open spec fn key_text(&self) -> Seq<char> {
        self@
    }

    open spec fn key_ok(text: Seq<char>) -> bool {
        is_uri(text)
    }

    fn to_key(&self) -> (name: String) {
        String::from_str(self.as_str())
    }

    fn from_key(name: &str) -> (r: Option<Self>) {
        match Uri::from_str(name) {
            Ok(uri) => Some(uri),
            Err(_) => None,
        }
    }
}

/// The members that the entries of a table are.
pub open spec fn table_members<K: Key, V: Wire>(entries: Seq<(K, V)>) -> Seq<
    (Seq<char>, JsonView),
> {
    Seq::new(entries.len(), |i: int| (entries[i].0.key_text(), entries[i].1.wire()))
}

/// The members with each value in its normal form.
pub open spec fn table_normal<V: Wire>(m: Seq<(Seq<char>, JsonView)>) -> Seq<
    (Seq<char>, JsonView),
> {
    Seq::new(m.len(), |i: int| (m[i].0, V::normal(m[i].1)))
}

impl<K: Key, V: Wire> Wire for Vec<(K, V)> {
    open spec fn wire(&self) -> JsonView {
        JsonView::Object(table_members(self@))
    }

    open spec fn readable(v: JsonView) -> bool {
        v matches JsonView::Object(m) && forall|i: int|
            0 <= i < m.len() ==> K::key_ok((#[trigger] m[i]).0) && V::readable(m[i].1)
    }

    open spec fn normal(v: JsonView) -> JsonView {
        JsonView::Object(table_normal::<V>(v->Object_0))
    }

    fn to_value(&self) -> (v: Json) {
        let mut members: Vec<(String, Json)> = Vec::new();
        let n = self.len();
        let mut i: usize = 0;
        while i < n
            invariant
                n == self@.len(),
                i <= n,
                members@.len() == i,
                forall|j: int|
                    0 <= j < i ==> (#[trigger] members@[j]).0@ == self@[j].0.key_text()
                        && members@[j].1@ == self@[j].1.wire(),
            decreases n - i,
        {
            members.push((self[i].0.to_key(), self[i].1.to_value()));
            i = i + 1;
        }
        proof {
            lemma_object_view(members);
            assert(members_view(members@) =~= table_members(self@));
        }
        Json::Object(members)
    }

    fn from_value(v: &Json) -> (r: Option<Self>) {
        match v {
            Json::Object(members) => {
                let ghost m = members_view(members@);
                proof {
                    lemma_object_view(*members);
                }
                let mut out: Vec<(K, V)> = Vec::new();
                let n = members.len();
                let mut i: usize = 0;
                while i < n
                    invariant
                        n == members@.len(),
                        i <= n,
                        m == members_view(members@),
                        m.len() == n,
                        v@ == JsonView::Object(m),
                        out@.len() == i,
                        forall|j: int|
                            0 <= j < i ==> K::key_ok((#[trigger] m[j]).0) && V::readable(m[j].1),
                        forall|j: int|
                            0 <= j < i ==> (#[trigger] out@[j]).0.key_text() == m[j].0
                                && out@[j].1.wire() == V::normal(m[j].1),
                    decreases n - i,
                {
                    proof {
                        assert(m[i as int] == (members@[i as int].0@, members@[i as int].1@));
                    }
                    let key = match K::from_key(members[i].0.as_str()) {
                        Some(key) => key,
                        None => {
                            proof {
                                assert(!K::key_ok(m[i as int].0));
                                assert(v@->Object_0 == m);
                                assert(!(forall|j: int|
                                    0 <= j < m.len() ==> K::key_ok((#[trigger] m[j]).0)
                                        && V::readable(m[j].1)));
                                assert(!Vec::<(K, V)>::readable(v@));
                            }
                            return None;
                        },
                    };
                    let value = match V::from_value(&members[i].1) {
                        Some(value) => value,
                        None => {
                            proof {
                                assert(!V::readable(m[i as int].1));
                                assert(v@->Object_0 == m);
                                assert(!(forall|j: int|
                                    0 <= j < m.len() ==> K::key_ok((#[trigger] m[j]).0)
                                        && V::readable(m[j].1)));
                                assert(!Vec::<(K, V)>::readable(v@));
                            }
                            return None;
                        },
                    };
                    out.push((key, value));
                    i = i + 1;
                }
                proof {
                    assert(table_members(out@) =~= table_normal::<V>(m));
                }
                Some(out)
            },
            _ => None,
        }
    }
}

impl Wire for WorkspaceEdit {
    open spec fn wire(&self) -> JsonView {
        JsonView::Object(
            opt_field("changes"@, opt_wire(self.changes)) + opt_field(
                "documentChanges"@,
                opt_wire(self.document_changes),
            ) + opt_field("changeAnnotations"@, opt_wire(self.change_annotations)),
        )
    }

    open spec fn readable(v: JsonView) -> bool {
        &&& v matches JsonView::Object(m)
        &&& may_have::<Vec<(Uri, Vec<TextEdit>)>>(m, "changes"@)
        &&& may_have::<DocumentChanges>(m, "documentChanges"@)
        &&& may_have::<Vec<(String, ChangeAnnotation)>>(m, "changeAnnotations"@)
    }

    open spec fn normal(v: JsonView) -> JsonView {
        let m = v->Object_0;
        JsonView::Object(
            opt_field("changes"@, read_opt::<Vec<(Uri, Vec<TextEdit>)>>(m, "changes"@))
                + opt_field("documentChanges"@, read_opt::<DocumentChanges>(m, "documentChanges"@))
                + opt_field(
                "changeAnnotations"@,
                read_opt::<Vec<(String, ChangeAnnotation)>>(m, "changeAnnotations"@),
            ),
        )
    }

    fn to_value(&self) -> (v: Json) {
        let mut members: Vec<(String, Json)> = Vec::new();
        put_opt(&mut members, "changes", &self.changes);
        put_opt(&mut members, "documentChanges", &self.document_changes);
        put_opt(&mut members, "changeAnnotations", &self.change_annotations);
        proof {
            lemma_object_view(members);
        }
        Json::Object(members)
    }

    fn from_value(v: &Json) -> (r: Option<Self>) {
        match v {
            Json::Object(members) => {
                proof {
                    lemma_object_view(*members);
                }
                let changes = match get_opt::<Vec<(Uri, Vec<TextEdit>)>>(members, "changes") {
                    Some(changes) => changes,
                    None => {
                        return None;
                    },
                };
                let document_changes = match get_opt::<DocumentChanges>(
                    members,
                    "documentChanges",
                ) {
                    Some(document_changes) => document_changes,
                    None => {
                        return None;
                    },
                };
                let change_annotations = match get_opt::<Vec<(String, ChangeAnnotation)>>(
                    members,
                    "changeAnnotations",
                ) {
                    Some(change_annotations) => change_annotations,
                    None => {
                        return None;
                    },
                };
                Some(WorkspaceEdit { changes, document_changes, change_annotations })
            },
            _ => None,
        }
    }
}

} // verus!
