use notes_api::controllers::{
    build_created_note, create_note_record, create_note_reply, delete_all_notes_reply,
    delete_note_reply, get_note_by_id_reply, list_notes_reply, note_target,
};
use notes_api::models::{Note, UpdateNote};
use notes_api::reply::{Body, DbError, HttpReply, Reply};

fn note(id: &str) -> Note {
    build_created_note(
        UpdateNote { title: None, content: Some("c".to_string()), tags: None, categories: None },
        id.to_string(),
        "c".to_string(),
        "u".to_string(),
    )
}

fn db_error() -> DbError {
    DbError { display: "e".to_string(), debug: "E".to_string() }
}

#[test]
fn created_note_defaults_lists() {
    let n = note("x");
    assert_eq!(n.tags, Some(vec![]));
    assert_eq!(n.categories, Some(vec![]));
    assert_eq!(n.content, Some("c".to_string()));
    let info = UpdateNote {
        title: Some("T".to_string()),
        content: None,
        tags: Some(vec!["a".to_string(), "b".to_string()]),
        categories: Some(vec!["k".to_string()]),
    };
    let fresh = create_note_record(info);
    assert_eq!(fresh.tags, Some(vec!["a".to_string(), "b".to_string()]));
    assert_eq!(fresh.categories, Some(vec!["k".to_string()]));
    assert_eq!(fresh.title, Some("T".to_string()));
    assert!(uuid::Uuid::parse_str(&fresh.id).is_ok());
    assert_eq!(create_note_reply(fresh.clone(), Ok(())).body, Body::Json(Reply::Note(fresh)));
    assert_eq!(create_note_reply(note("x"), Err(db_error())).status, 500);
}

#[test]
fn older_lookups() {
    assert!(note_target("nope").is_err());
    assert_eq!(note_target("F9168C5ECEB24FAAB6BF329BF39FA1E4"), Ok("f9168c5e-ceb2-4faa-b6bf-329bf39fa1e4".to_string()));
    assert_eq!(get_note_by_id_reply(Ok(None)).status, 404);
    assert_eq!(list_notes_reply(vec![Err(db_error()), Ok(note("a"))]).body, Body::Json(Reply::Notes(vec![note("a")])));
}

#[test]
fn older_delete_messages() {
    assert_eq!(delete_note_reply(Ok(Some(note("a")))), HttpReply {
        status: 200,
        body: Body::Json(Reply::MessageAndNote {
            message: "Nota deletada com sucesso!".to_string(),
            field: "nota".to_string(),
            note: note("a"),
        }),
    });
    assert_eq!(
        delete_note_reply(Ok(None)).body,
        Body::Json(Reply::Message("Oopss! Nota não encontrada. Verifique o ID informado.".to_string()))
    );
    assert_eq!(
        delete_note_reply(Err(db_error())).body,
        Body::Json(Reply::Message(
            "Oopss! Ocorreu um erro ao deletar a nota. Verifique o ID informado.".to_string()
        ))
    );
    assert_eq!(
        delete_all_notes_reply(Ok(12)).body,
        Body::Json(Reply::Message("12 notas foram excluídas com sucesso.".to_string()))
    );
    assert_eq!(delete_all_notes_reply(Err(db_error())).status, 500);
}
