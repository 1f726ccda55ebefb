use currency::dispatch::{
    answer, handle_dmd, handle_get, lookup_plan, refuse, Body, DocumentPlan, Plan, Query, Refusal,
    Response, Status, ACTION_MISSING, ACTION_NOT_FOUND, CURRENCY_NOT_FOUND, DOCUMENT_DIR,
    FILE_NOT_FOUND, INVALID_KEY, INVALID_PATH,
};
use currency::query::{Rows, SchemaDescriptor};
use currency::record::{Record, Scalar};
use currency::snapshot::Snapshot;

fn rate(code: &str, rate: &str) -> Record {
    let mut record = Record::new();
    record.insert("code".to_string(), Scalar::Text(code.to_string()));
    record.insert("rate".to_string(), Scalar::Number(rate.to_string()));
    record
}

fn rates() -> Snapshot {
    Snapshot::new(vec![rate("USD", "1.0"), rate("EUR", "0.9")])
}

fn params(pairs: &[(&str, &str)]) -> Record {
    let mut record = Record::new();
    for (name, value) in pairs {
        record.insert(name.to_string(), Scalar::Text(value.to_string()));
    }
    record
}

#[test]
fn status_codes() {
    assert_eq!(Status::Success.code(), 200);
    assert_eq!(Status::NotFound.code(), 404);
    assert_eq!(Status::NotAcceptable.code(), 406);
}

#[test]
fn messages_read_as_served() {
    assert_eq!(ACTION_MISSING, "action missing");
    assert_eq!(ACTION_NOT_FOUND, "action not found");
    assert_eq!(INVALID_KEY, "invalid key");
    assert_eq!(CURRENCY_NOT_FOUND, "Currency not found");
    assert_eq!(FILE_NOT_FOUND, "File not found");
    assert_eq!(INVALID_PATH, "Invalid path");
    assert_eq!(DOCUMENT_DIR, "$POPATH/../projects/portfolio_6");
}

#[test]
fn handle_get_without_action_is_refused() {
    assert_eq!(handle_get(&Record::new()), Plan::Refuse(Refusal::ActionMissing));
    assert_eq!(
        handle_get(&params(&[("key", "{\"code\":\"USD\"}")])),
        Plan::Refuse(Refusal::ActionMissing)
    );
}

#[test]
fn handle_get_unknown_action_is_refused() {
    for action in ["", "getrows", "GetRows", "getRowsX", "delete", " getRow"] {
        assert_eq!(
            handle_get(&params(&[("action", action)])),
            Plan::Refuse(Refusal::ActionNotFound)
        );
    }
}

#[test]
fn handle_get_action_that_is_no_text_is_not_found() {
    let mut payload = Record::new();
    payload.insert("action".to_string(), Scalar::Number("1".to_string()));
    assert_eq!(handle_get(&payload), Plan::Refuse(Refusal::ActionNotFound));
}

#[test]
fn handle_get_rows_and_meta_run() {
    assert_eq!(handle_get(&params(&[("action", "getRows")])), Plan::Run(Query::Rows));
    assert_eq!(handle_get(&params(&[("action", "getMeta")])), Plan::Run(Query::Meta));
    assert_eq!(
        handle_get(&params(&[("key", "ignored"), ("action", "getRows")])),
        Plan::Run(Query::Rows)
    );
}

#[test]
fn handle_get_row_asks_for_the_envelope() {
    let payload = params(&[("action", "getRow"), ("key", "{\"code\":\"EUR\"}")]);
    assert_eq!(
        handle_get(&payload),
        Plan::Decode { envelope: "{\"code\":\"EUR\"}".to_string() }
    );
}

#[test]
fn handle_get_row_without_key_is_invalid() {
    assert_eq!(
        handle_get(&params(&[("action", "getRow")])),
        Plan::Refuse(Refusal::InvalidKey)
    );
    let mut payload = params(&[("action", "getRow")]);
    payload.insert("key".to_string(), Scalar::Null);
    assert_eq!(handle_get(&payload), Plan::Refuse(Refusal::InvalidKey));
}

#[test]
fn lookup_plan_reads_the_code() {
    let envelope = params(&[("code", "EUR")]);
    assert_eq!(lookup_plan(Some(&envelope)), Ok(Query::Row { code: "EUR".to_string() }));
    let wordy = params(&[("kind", "currency"), ("code", "USD")]);
    assert_eq!(lookup_plan(Some(&wordy)), Ok(Query::Row { code: "USD".to_string() }));
}

#[test]
fn lookup_plan_without_code_is_invalid() {
    assert_eq!(lookup_plan(None), Err(Refusal::InvalidKey));
    assert_eq!(lookup_plan(Some(&Record::new())), Err(Refusal::InvalidKey));
    let mut numbered = Record::new();
    numbered.insert("code".to_string(), Scalar::Number("840".to_string()));
    assert_eq!(lookup_plan(Some(&numbered)), Err(Refusal::InvalidKey));
}

#[test]
fn refusals_carry_status_and_words() {
    assert_eq!(
        refuse(Refusal::ActionMissing),
        Response { status: Status::NotFound, body: Body::Message("action missing") }
    );
    assert_eq!(
        refuse(Refusal::ActionNotFound),
        Response { status: Status::NotFound, body: Body::Message("action not found") }
    );
    assert_eq!(
        refuse(Refusal::InvalidKey),
        Response { status: Status::NotAcceptable, body: Body::Message("invalid key") }
    );
    assert_eq!(Refusal::InvalidKey.status(), Status::NotAcceptable);
    assert_eq!(Refusal::ActionMissing.message(), "action missing");
}

#[test]
fn answer_rows() {
    let snapshot = rates();
    let response = answer(&Query::Rows, &snapshot);
    assert_eq!(response.status, Status::Success);
    assert_eq!(
        response.body,
        Body::Rows(Rows { rows: &vec![rate("USD", "1.0"), rate("EUR", "0.9")], total: 2 })
    );
}

#[test]
fn answer_row_found() {
    let snapshot = rates();
    let response = answer(&Query::Row { code: "EUR".to_string() }, &snapshot);
    assert_eq!(response, Response { status: Status::Success, body: Body::Row(&rate("EUR", "0.9")) });
}

#[test]
fn answer_row_missing_is_not_acceptable() {
    let snapshot = rates();
    let response = answer(&Query::Row { code: "GBP".to_string() }, &snapshot);
    assert_eq!(
        response,
        Response { status: Status::NotAcceptable, body: Body::Message("Currency not found") }
    );
    assert_eq!(response.status.code(), 406);
}

#[test]
fn answer_meta() {
    let snapshot = rates();
    let response = answer(&Query::Meta, &snapshot);
    assert_eq!(response.status, Status::Success);
    assert_eq!(
        response.body,
        Body::Meta(Some(SchemaDescriptor {
            name: "currency".to_string(),
            title: "Currency".to_string(),
            id_column: "code".to_string(),
            primary_key: Vec::new(),
            columns: vec!["code".to_string(), "rate".to_string()],
        }))
    );
}

#[test]
fn answer_meta_on_empty_snapshot_succeeds() {
    let snapshot = Snapshot::new(Vec::new());
    let response = answer(&Query::Meta, &snapshot);
    assert_eq!(response, Response { status: Status::Success, body: Body::Meta(None) });
}

#[test]
fn handle_dmd_names_the_document() {
    assert_eq!(
        handle_dmd(&params(&[("dmd", "rates.json")])),
        DocumentPlan::Read {
            dir: "$POPATH/../projects/portfolio_6",
            name: "rates.json".to_string(),
        }
    );
}

#[test]
fn handle_dmd_without_name_is_not_found() {
    assert_eq!(handle_dmd(&Record::new()), DocumentPlan::Reply("File not found"));
    assert_eq!(
        handle_dmd(&params(&[("action", "getRows")])),
        DocumentPlan::Reply("File not found")
    );
    let mut payload = Record::new();
    payload.insert("dmd".to_string(), Scalar::Bool(false));
    assert_eq!(handle_dmd(&payload), DocumentPlan::Reply("File not found"));
}
