use ls_types::lsp::basic::{
    AnnotatedTextEdit, ChangeAnnotation, CreateFile, CreateFileOptions, DeleteFile,
    DeleteFileOptions, Diagnostic, DiagnosticSeverity, DiagnosticTag, GlobPattern,
    OptionalVersionedTextDocumentIdentifier, Position, PositionEncodingKind, Range, RenameFile,
    RelativePattern, ResourceOperationKind, TextDocumentEdit, TextEdit, WorkspaceEdit,
};
use ls_types::lsp::forms::Unreadable;
use ls_types::lsp::progress::WorkDoneProgressOptions;
use ls_types::lsp::workspace_folders::WorkspaceFolder;
use ls_types::lsp::{
    DocumentChangeOperation, DocumentChanges, FileChangeType, FileEvent, GotoDefinitionResponse,
    LanguageString, MarkedString, NumberOrString, OneOf, ResourceOp, SaveOptions, SymbolKind,
    TagSupport, TextDocumentSyncSaveOptions, WatchKind,
};
use ls_types::uri::Uri;
use ls_types::wire::{Json, Wire};

fn to_serde(v: &Json) -> serde_json::Value {
    match v {
        Json::Null => serde_json::Value::Null,
        Json::Bool(b) => serde_json::Value::Bool(*b),
        Json::Number(n) => serde_json::Value::from(*n),
        Json::String(s) => serde_json::Value::String(s.clone()),
        Json::Array(items) => serde_json::Value::Array(items.iter().map(to_serde).collect()),
        Json::Object(members) => {
            let mut map = serde_json::Map::new();
            for (name, value) in members {
                map.insert(name.clone(), to_serde(value));
            }
            serde_json::Value::Object(map)
        }
    }
}

fn from_serde(v: &serde_json::Value) -> Json {
    match v {
        serde_json::Value::Null => Json::Null,
        serde_json::Value::Bool(b) => Json::Bool(*b),
        serde_json::Value::Number(n) => Json::Number(n.as_i64().unwrap()),
        serde_json::Value::String(s) => Json::String(s.clone()),
        serde_json::Value::Array(items) => Json::Array(items.iter().map(from_serde).collect()),
        serde_json::Value::Object(map) => Json::Object(
            map.iter()
                .map(|(name, value)| (name.clone(), from_serde(value)))
                .collect(),
        ),
    }
}

fn parse(text: &str) -> Json {
    from_serde(&serde_json::from_str::<serde_json::Value>(text).unwrap())
}

fn test_serialization<T>(ms: &T, expected: &str)
where
    T: Wire + PartialEq + std::fmt::Debug,
{
    let json_str = serde_json::to_string(&to_serde(&ms.to_value())).unwrap();
    assert_eq!(&json_str, expected);
    let deserialized = T::from_value(&parse(&json_str)).unwrap();
    assert_eq!(&deserialized, ms);
}

#[test]
fn one_of() {
    test_serialization(&OneOf::<bool, ()>::Left(true), r"true");
    test_serialization(&OneOf::<String, ()>::Left("abcd".into()), r#""abcd""#);
    test_serialization(
        &OneOf::<String, WorkDoneProgressOptions>::Right(WorkDoneProgressOptions {
            work_done_progress: Some(false),
        }),
        r#"{"workDoneProgress":false}"#,
    );
}

#[test]
fn number_or_string() {
    test_serialization(&NumberOrString::Number(123), r"123");

    test_serialization(&NumberOrString::String("abcd".into()), r#""abcd""#);
}

#[test]
fn marked_string() {
    test_serialization(&MarkedString::from_markdown("xxx".into()), r#""xxx""#);

    test_serialization(
        &MarkedString::from_language_code("lang".into(), "code".into()),
        r#"{"language":"lang","value":"code"}"#,
    );
}

#[test]
fn language_string() {
    test_serialization(
        &LanguageString {
            language: "LL".into(),
            value: "VV".into(),
        },
        r#"{"language":"LL","value":"VV"}"#,
    );
}

#[test]
fn workspace_edit() {
    test_serialization(
        &WorkspaceEdit {
            changes: Some(vec![].into_iter().collect()),
            document_changes: None,
            ..Default::default()
        },
        r#"{"changes":{}}"#,
    );

    test_serialization(
        &WorkspaceEdit {
            changes: None,
            document_changes: None,
            ..Default::default()
        },
        r"{}",
    );

    test_serialization(
        &WorkspaceEdit {
            changes: Some(
                vec![(Uri::from_str("file://test").unwrap(), vec![])]
                    .into_iter()
                    .collect(),
            ),
            document_changes: None,
            ..Default::default()
        },
        r#"{"changes":{"file://test":[]}}"#,
    );
}

#[test]
fn test_watch_kind() {
    test_serialization(&WatchKind::create(), "1");
    test_serialization(&(WatchKind::create() | WatchKind::change()), "3");
    test_serialization(
        &(WatchKind::create() | WatchKind::change() | WatchKind::delete()),
        "7",
    );
}

#[test]
fn test_resource_operation_kind() {
    test_serialization(
        &vec![
            ResourceOperationKind::Create,
            ResourceOperationKind::Rename,
            ResourceOperationKind::Delete,
        ],
        r#"["create","rename","delete"]"#,
    );
}

#[test]
fn one_of_reads_the_left_type_first() {
    let read = OneOf::<NumberOrString, String>::from_value(&parse(r#""abcd""#));
    assert_eq!(read, Some(OneOf::Left(NumberOrString::String("abcd".into()))));
    assert_eq!(OneOf::<bool, ()>::from_value(&parse("null")), Some(OneOf::Right(())));
    assert_eq!(OneOf::<bool, ()>::from_value(&parse("1")), None);
}

#[test]
fn number_or_string_rejects_other_shapes() {
    assert_eq!(NumberOrString::from_value(&parse("true")), None);
    assert_eq!(NumberOrString::from_value(&parse("[]")), None);
    assert_eq!(NumberOrString::from_value(&parse("2147483648")), None);
    assert_eq!(
        NumberOrString::from_value(&parse("-2147483648")),
        Some(NumberOrString::Number(i32::MIN))
    );
}

#[test]
fn language_string_needs_both_members() {
    assert_eq!(LanguageString::from_value(&parse(r#"{"language":"LL"}"#)), None);
    assert_eq!(LanguageString::from_value(&parse(r#"{"value":"VV"}"#)), None);
    assert_eq!(
        LanguageString::from_value(&parse(r#"{"language":"LL","value":7}"#)),
        None
    );
    assert_eq!(
        LanguageString::from_value(&parse(r#"{"value":"VV","language":"LL","more":1}"#)),
        Some(LanguageString {
            language: "LL".into(),
            value: "VV".into()
        })
    );
}

#[test]
fn progress_options_leave_out_an_unset_flag() {
    test_serialization(&WorkDoneProgressOptions { work_done_progress: None }, "{}");
    test_serialization(
        &WorkDoneProgressOptions {
            work_done_progress: Some(true),
        },
        r#"{"workDoneProgress":true}"#,
    );
    assert_eq!(
        WorkDoneProgressOptions::from_value(&parse(r#"{"workDoneProgress":null}"#)),
        Some(WorkDoneProgressOptions { work_done_progress: None })
    );
    assert_eq!(
        WorkDoneProgressOptions::from_value(&parse(r#"{"workDoneProgress":"yes"}"#)),
        None
    );
    assert_eq!(WorkDoneProgressOptions::from_value(&parse("true")), None);
}

#[test]
fn resource_operation_kind_reads_its_three_names_only() {
    assert_eq!(
        ResourceOperationKind::from_value(&parse(r#""rename""#)),
        Some(ResourceOperationKind::Rename)
    );
    assert_eq!(ResourceOperationKind::from_value(&parse(r#""Create""#)), None);
    assert_eq!(ResourceOperationKind::from_value(&parse("1")), None);
}

#[test]
fn watch_kind_bits() {
    assert_eq!(WatchKind::create().bits(), 1);
    assert_eq!(WatchKind::change().bits(), 2);
    assert_eq!(WatchKind::delete().bits(), 4);
    assert_eq!(WatchKind::from_bits(0).map(|k| k.bits()), Some(0));
    assert_eq!(WatchKind::from_bits(5), Some(WatchKind::create().union(WatchKind::delete())));
    assert_eq!(WatchKind::from_bits(7).map(|k| k.bits()), Some(7));
    assert_eq!(WatchKind::from_bits(8), None);
    assert_eq!(WatchKind::from_bits(255), None);
    assert!(WatchKind::from_bits(6).unwrap().contains(WatchKind::delete()));
    assert!(!WatchKind::from_bits(6).unwrap().contains(WatchKind::create()));
    assert_eq!(WatchKind::from_value(&parse("8")), None);
    assert_eq!(WatchKind::from_value(&parse("-1")), None);
    assert_eq!(WatchKind::from_value(&parse("256")), None);
}

#[test]
fn tag_support_compat() {
    let none: Result<Option<TagSupport<DiagnosticTag>>, Unreadable> = Ok(None);
    assert_eq!(TagSupport::<DiagnosticTag>::deserialize_compat(&parse("null")), none);
    assert_eq!(TagSupport::<DiagnosticTag>::deserialize_compat(&parse("false")), none);
    assert_eq!(
        TagSupport::<DiagnosticTag>::deserialize_compat(&parse("true")),
        Ok(Some(TagSupport { value_set: vec![] }))
    );
    assert_eq!(
        TagSupport::<DiagnosticTag>::deserialize_compat(&parse(r#"{"valueSet":[1,2]}"#)),
        Ok(Some(TagSupport {
            value_set: vec![DiagnosticTag::unnecessary(), DiagnosticTag::deprecated()]
        }))
    );
    assert_eq!(
        TagSupport::<DiagnosticTag>::deserialize_compat(&parse(r#"{"valueSet":["x"]}"#)),
        Err(Unreadable)
    );
    assert_eq!(
        TagSupport::<DiagnosticTag>::deserialize_compat(&parse("3")),
        Err(Unreadable)
    );
    test_serialization(
        &TagSupport {
            value_set: vec![DiagnosticTag::deprecated()],
        },
        r#"{"valueSet":[2]}"#,
    );
}

#[test]
fn constructors_fill_their_fields() {
    let start = Position::new(1, 2);
    let end = Position::new(3, 4);
    assert_eq!(start, Position { line: 1, character: 2 });
    let range = Range::new(start, end);
    assert_eq!(range, Range { start, end });
    let edit = TextEdit::new(range, "text".into());
    assert_eq!(edit.range, range);
    assert_eq!(edit.new_text, "text");
    assert_eq!(PositionEncodingKind::new("utf-7").as_str(), "utf-7");
    assert_eq!(PositionEncodingKind::utf8().as_str(), "utf-8");
    assert_eq!(PositionEncodingKind::utf16().as_str(), "utf-16");
    assert_eq!(PositionEncodingKind::utf32().as_str(), "utf-32");
    assert_eq!(
        PositionEncodingKind::from(String::from("utf-16")),
        PositionEncodingKind::utf16()
    );
    assert_eq!(PositionEncodingKind::from("utf-8"), PositionEncodingKind::utf8());
    assert_eq!(NumberOrString::from("seven"), NumberOrString::String("seven".into()));
    assert_eq!(NumberOrString::from_text("x"), NumberOrString::String("x".into()));
    assert_eq!(NumberOrString::from(7), NumberOrString::Number(7));
    assert_eq!(
        NumberOrString::from(String::from("seven")),
        NumberOrString::String("seven".into())
    );
}

#[test]
fn codes_have_their_numbers() {
    assert_eq!(DiagnosticSeverity::error().value(), 1);
    assert_eq!(DiagnosticSeverity::warning().value(), 2);
    assert_eq!(DiagnosticSeverity::information().value(), 3);
    assert_eq!(DiagnosticSeverity::hint().value(), 4);
    assert_eq!(DiagnosticTag::unnecessary().value(), 1);
    assert_eq!(DiagnosticTag::deprecated().value(), 2);
    assert_eq!(SymbolKind::file().value(), 1);
    assert_eq!(SymbolKind::enum_().value(), 10);
    assert_eq!(SymbolKind::struct_().value(), 23);
    assert_eq!(SymbolKind::type_parameter().value(), 26);
    assert_eq!(SymbolKind::new(99).value(), 99);
    assert_eq!(DiagnosticSeverity::new(2), DiagnosticSeverity::warning());
}

#[test]
fn diagnostics_are_built_without_code_description_and_data() {
    let range = Range::new(Position::new(0, 0), Position::new(0, 5));
    let simple = Diagnostic::new_simple(range, "message".into());
    assert_eq!(simple.range, range);
    assert_eq!(simple.message, "message");
    assert_eq!(simple.severity, None);
    assert_eq!(simple.code, None);
    assert_eq!(simple.code_description, None);
    assert_eq!(simple.source, None);
    assert_eq!(simple.related_information, None);
    assert_eq!(simple.tags, None);
    assert_eq!(simple.data, None);
    let coded = Diagnostic::new_with_code_number(
        range,
        DiagnosticSeverity::warning(),
        17,
        Some("lint".into()),
        "message".into(),
    );
    assert_eq!(coded.severity, Some(DiagnosticSeverity::warning()));
    assert_eq!(coded.code, Some(NumberOrString::Number(17)));
    assert_eq!(coded.source, Some("lint".into()));
    assert_eq!(coded.data, None);
}

#[test]
fn workspace_edit_holds_its_changes() {
    let uri = Uri::from_str("file://test").unwrap();
    let changes = vec![(uri.clone(), vec![])];
    assert!(WorkspaceEdit::has_distinct_resources(&changes));
    let edit = WorkspaceEdit::new(changes);
    assert_eq!(edit.changes, Some(vec![(uri.clone(), vec![])]));
    assert_eq!(edit.document_changes, None);
    assert_eq!(edit.change_annotations, None);
    let twice = vec![(uri.clone(), vec![]), (uri, vec![])];
    assert!(!WorkspaceEdit::has_distinct_resources(&twice));
}

fn uri(text: &str) -> Uri {
    Uri::from_str(text).unwrap()
}

fn edit(text: &str) -> TextEdit {
    TextEdit::new(Range::new(Position::new(1, 2), Position::new(3, 4)), text.into())
}

const EDIT: &str =
    r#"{"newText":"x","range":{"end":{"character":4,"line":3},"start":{"character":2,"line":1}}}"#;

#[test]
fn a_text_edit_is_an_object_of_its_range_and_text() {
    test_serialization(&edit("x"), EDIT);
    assert_eq!(TextEdit::from_value(&parse(r#"{"newText":"x"}"#)), None);
    assert_eq!(
        TextEdit::from_value(&parse(
            r#"{"newText":"x","range":{"start":{"line":-1,"character":0},"end":{"line":0,"character":0}}}"#
        )),
        None
    );
    assert_eq!(
        Position::from_value(&parse(r#"{"line":4294967295,"character":0}"#)),
        Some(Position::new(u32::MAX, 0))
    );
    assert_eq!(Position::from_value(&parse(r#"{"line":4294967296,"character":0}"#)), None);
}

#[test]
fn an_annotated_edit_holds_the_members_of_its_edit() {
    test_serialization(
        &OneOf::<AnnotatedTextEdit, ()>::Left(AnnotatedTextEdit {
            text_edit: edit("x"),
            annotation_id: "a1".into(),
        }),
        r#"{"annotationId":"a1","newText":"x","range":{"end":{"character":4,"line":3},"start":{"character":2,"line":1}}}"#,
    );
    let read = OneOf::<TextEdit, AnnotatedTextEdit>::from_value(&parse(
        r#"{"annotationId":"a1","newText":"x","range":{"end":{"character":4,"line":3},"start":{"character":2,"line":1}}}"#,
    ));
    assert_eq!(read, Some(OneOf::Left(edit("x"))));
}

#[test]
fn a_document_without_a_version_writes_null() {
    test_serialization(
        &OptionalVersionedTextDocumentIdentifier {
            uri: uri("file:///a"),
            version: None,
        },
        r#"{"uri":"file:///a","version":null}"#,
    );
    test_serialization(
        &OptionalVersionedTextDocumentIdentifier::new(uri("file:///a"), 7),
        r#"{"uri":"file:///a","version":7}"#,
    );
    assert_eq!(
        OptionalVersionedTextDocumentIdentifier::from_value(&parse(r#"{"uri":"file:///a"}"#)),
        Some(OptionalVersionedTextDocumentIdentifier {
            uri: uri("file:///a"),
            version: None
        })
    );
    assert_eq!(
        OptionalVersionedTextDocumentIdentifier::from_value(&parse(r#"{"uri":"no uri"}"#)),
        None
    );
}

#[test]
fn operations_on_files_are_told_apart_by_their_kind() {
    test_serialization(
        &ResourceOp::Create(CreateFile {
            uri: uri("file:///new"),
            options: Some(CreateFileOptions {
                overwrite: Some(true),
                ignore_if_exists: None,
            }),
            annotation_id: None,
        }),
        r#"{"kind":"create","options":{"overwrite":true},"uri":"file:///new"}"#,
    );
    test_serialization(
        &ResourceOp::Rename(RenameFile {
            old_uri: uri("file:///old"),
            new_uri: uri("file:///new"),
            options: None,
            annotation_id: Some("a1".into()),
        }),
        r#"{"annotationId":"a1","kind":"rename","newUri":"file:///new","oldUri":"file:///old"}"#,
    );
    test_serialization(
        &ResourceOp::Delete(DeleteFile {
            uri: uri("file:///old"),
            options: Some(DeleteFileOptions {
                recursive: Some(false),
                ignore_if_not_exists: Some(true),
            }),
            annotation_id: None,
        }),
        r#"{"kind":"delete","options":{"ignoreIfNotExists":true,"recursive":false},"uri":"file:///old"}"#,
    );
    assert_eq!(ResourceOp::from_value(&parse(r#"{"uri":"file:///new"}"#)), None);
    assert_eq!(
        ResourceOp::from_value(&parse(r#"{"kind":"move","uri":"file:///new"}"#)),
        None
    );
    assert_eq!(
        ResourceOp::from_value(&parse(r#"{"kind":"rename","uri":"file:///new"}"#)),
        None
    );
}

#[test]
fn document_changes_are_edits_or_operations() {
    let text_edit = TextDocumentEdit {
        text_document: OptionalVersionedTextDocumentIdentifier::new(uri("file:///a"), 1),
        edits: vec![OneOf::Left(edit("x"))],
    };
    let edit_text = format!(
        r#"{{"edits":[{EDIT}],"textDocument":{{"uri":"file:///a","version":1}}}}"#
    );
    test_serialization(
        &DocumentChanges::Edits(vec![text_edit.clone()]),
        &format!("[{edit_text}]"),
    );
    let delete = ResourceOp::Delete(DeleteFile {
        uri: uri("file:///old"),
        options: None,
        annotation_id: None,
    });
    test_serialization(
        &DocumentChanges::Operations(vec![
            DocumentChangeOperation::Edit(text_edit),
            DocumentChangeOperation::Op(delete),
        ]),
        &format!(r#"[{edit_text},{{"kind":"delete","uri":"file:///old"}}]"#),
    );
    assert_eq!(
        DocumentChanges::from_value(&parse("[]")),
        Some(DocumentChanges::Edits(vec![]))
    );
    assert_eq!(DocumentChanges::from_value(&parse("{}")), None);
}

#[test]
fn a_workspace_edit_with_everything() {
    let whole = WorkspaceEdit {
        changes: Some(vec![
            (uri("file:///b"), vec![edit("x")]),
            (uri("file:///a"), vec![]),
        ]),
        document_changes: Some(DocumentChanges::Operations(vec![])),
        change_annotations: Some(vec![(
            "a1".to_string(),
            ChangeAnnotation {
                label: "Rename".into(),
                needs_confirmation: Some(true),
                description: None,
            },
        )]),
    };
    let text = serde_json::to_string(&to_serde(&whole.to_value())).unwrap();
    assert_eq!(
        text,
        format!(
            r#"{{"changeAnnotations":{{"a1":{{"label":"Rename","needsConfirmation":true}}}},"changes":{{"file:///a":[],"file:///b":[{EDIT}]}},"documentChanges":[]}}"#
        )
    );
    let read = WorkspaceEdit::from_value(&whole.to_value()).unwrap();
    assert_eq!(read.changes, whole.changes);
    assert_eq!(read.document_changes, Some(DocumentChanges::Edits(vec![])));
    assert_eq!(read.change_annotations, whole.change_annotations);
    assert_eq!(
        WorkspaceEdit::from_value(&parse(r#"{"changes":{"no uri":[]}}"#)),
        None
    );
    assert_eq!(
        WorkspaceEdit::from_value(&parse(r#"{"changes":null,"more":1}"#)),
        Some(WorkspaceEdit::default())
    );
}

#[test]
fn choices_are_made_from_their_parts() {
    assert_eq!(
        GlobPattern::from(String::from("**/*.rs")),
        GlobPattern::String("**/*.rs".into())
    );
    let relative = RelativePattern {
        base_uri: OneOf::Left(WorkspaceFolder {
            uri: uri("file:///work"),
            name: "work".into(),
        }),
        pattern: "*.rs".into(),
    };
    assert_eq!(GlobPattern::from(relative.clone()), GlobPattern::Relative(relative));
    assert_eq!(
        TextDocumentSyncSaveOptions::from(true),
        TextDocumentSyncSaveOptions::Supported(true)
    );
    assert_eq!(
        TextDocumentSyncSaveOptions::from(SaveOptions { include_text: Some(true) }),
        TextDocumentSyncSaveOptions::SaveOptions(SaveOptions { include_text: Some(true) })
    );
    let location = ls_types::lsp::basic::Location::new(
        uri("file:///a"),
        Range::new(Position::new(0, 0), Position::new(0, 1)),
    );
    assert_eq!(
        GotoDefinitionResponse::from(vec![location.clone()]),
        GotoDefinitionResponse::Array(vec![location.clone()])
    );
    assert_eq!(
        GotoDefinitionResponse::from(location.clone()),
        GotoDefinitionResponse::Scalar(location)
    );
    let event = FileEvent::new(uri("file:///a"), FileChangeType::changed());
    assert_eq!(event.uri, uri("file:///a"));
    assert_eq!(event.typ.value(), 2);
}
