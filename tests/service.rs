use helados::helado::{list_to_json, Helado};
use helados::response::{status_line, Status};
use helados::service::{
    complete, dispatch, handle_get_all_request, Answer, Command, Outcome, Step, CREATE_TABLE,
};

fn helado(id: Option<i32>, sabor: &str, precio: &str) -> Helado {
    Helado { id, sabor: sabor.to_string(), precio: precio.to_string() }
}

#[test]
fn create_runs_insert_without_id() {
    let step = dispatch("POST /helados HTTP/1.1\r\n\r\n", Some(helado(Some(9), "fresa", "2.00")));
    assert_eq!(
        step,
        Step::Run(Command::Insert { sabor: "fresa".to_string(), precio: "2.00".to_string() })
    );
    let answer = complete(&Command::Insert { sabor: "fresa".to_string(), precio: "2.00".to_string() }, Outcome::Executed(1));
    assert_eq!(answer, Answer::Created);
    assert_eq!(
        answer.to_http(),
        "HTTP/1.1 200 OK\r\nContent-Type: application/json\r\n\r\nHelado created"
    );
}

#[test]
fn malformed_body_on_create_or_update_is_internal_error() {
    assert_eq!(dispatch("POST /helados HTTP/1.1\r\n\r\n{oops", None), Step::Reply(Answer::Error));
    assert_eq!(dispatch("PUT /helados/3 HTTP/1.1\r\n\r\n{oops", None), Step::Reply(Answer::Error));
    assert_eq!(
        Answer::Error.to_http(),
        "HTTP/1.1 500 INTERNAL SERVER ERROR\r\n\r\nError"
    );
}

#[test]
fn non_integer_identifier_is_internal_error() {
    let h = helado(None, "a", "1");
    assert_eq!(dispatch("GET /helados/abc HTTP/1.1", None), Step::Reply(Answer::Error));
    assert_eq!(dispatch("PUT /helados/abc HTTP/1.1", Some(h)), Step::Reply(Answer::Error));
    assert_eq!(dispatch("DELETE /helados/abc HTTP/1.1", None), Step::Reply(Answer::Error));
}

#[test]
fn read_one_of_missing_id_is_not_found() {
    assert_eq!(dispatch("GET /helados/5 HTTP/1.1", None), Step::Run(Command::SelectOne { id: 5 }));
    let answer = complete(&Command::SelectOne { id: 5 }, Outcome::Fetched(None));
    assert_eq!(answer, Answer::NoSuchFlavor);
    assert_eq!(answer.status(), Status::NotFound);
    assert_eq!(answer.to_http(), "HTTP/1.1 404 NOT FOUND\r\n\r\nhelado not found");
}

#[test]
fn update_of_missing_id_reports_success() {
    let step = dispatch("PUT /helados/77 HTTP/1.1\r\n\r\nx", Some(helado(None, "limon", "1.10")));
    let cmd = Command::Update { id: 77, sabor: "limon".to_string(), precio: "1.10".to_string() };
    assert_eq!(step, Step::Run(cmd.clone()));
    let answer = complete(&cmd, Outcome::Executed(0));
    assert_eq!(answer, Answer::Updated);
    assert_eq!(
        answer.to_http(),
        "HTTP/1.1 200 OK\r\nContent-Type: application/json\r\n\r\nHelado updated"
    );
}

#[test]
fn delete_missing_and_present() {
    assert_eq!(dispatch("DELETE /helados/4 HTTP/1.1", None), Step::Run(Command::Remove { id: 4 }));
    let missing = complete(&Command::Remove { id: 4 }, Outcome::Executed(0));
    assert_eq!(missing.to_http(), "HTTP/1.1 404 NOT FOUND\r\n\r\nHelado not found");
    let present = complete(&Command::Remove { id: 4 }, Outcome::Executed(1));
    assert_eq!(present, Answer::Deleted);
    assert_eq!(
        present.to_http(),
        "HTTP/1.1 200 OK\r\nContent-Type: application/json\r\n\r\nHelado deleted"
    );
    let after = complete(&Command::SelectAll, Outcome::Listed(vec![helado(Some(3), "a", "1")]));
    match after {
        Answer::All(hs) => assert!(hs.iter().all(|h| h.id != Some(4))),
        _ => panic!("listing expected"),
    }
}

#[test]
fn round_trip_vanilla() {
    let create = dispatch(
        "POST /helados HTTP/1.1\r\n\r\n{\"sabor\":\"vanilla\",\"precio\":\"3.50\"}",
        Some(helado(None, "vanilla", "3.50")),
    );
    assert_eq!(
        create,
        Step::Run(Command::Insert { sabor: "vanilla".to_string(), precio: "3.50".to_string() })
    );
    assert_eq!(dispatch("GET /helados HTTP/1.1", None), Step::Run(Command::SelectAll));
    let listed = complete(&Command::SelectAll, Outcome::Listed(vec![helado(Some(1), "vanilla", "3.50")]));
    assert_eq!(
        listed.to_http(),
        "HTTP/1.1 200 OK\r\nContent-Type: application/json\r\n\r\n[{\"id\":1,\"sabor\":\"vanilla\",\"precio\":\"3.50\"}]"
    );
    assert_eq!(dispatch("GET /helados/1 HTTP/1.1", None), Step::Run(Command::SelectOne { id: 1 }));
    let found = complete(&Command::SelectOne { id: 1 }, Outcome::Fetched(Some(helado(Some(1), "vanilla", "3.50"))));
    assert_eq!(found, Answer::Found(helado(Some(1), "vanilla", "3.50")));
    assert_eq!(found.body(), "{\"id\":1,\"sabor\":\"vanilla\",\"precio\":\"3.50\"}");
}

#[test]
fn empty_table_lists_empty_array() {
    assert_eq!(handle_get_all_request(), Step::Run(Command::SelectAll));
    let answer = complete(&Command::SelectAll, Outcome::Listed(Vec::new()));
    assert_eq!(answer, Answer::All(Vec::new()));
    assert_eq!(answer.to_http(), "HTTP/1.1 200 OK\r\nContent-Type: application/json\r\n\r\n[]");
}

#[test]
fn store_failure_is_internal_error() {
    assert_eq!(complete(&Command::SelectAll, Outcome::Failed), Answer::Error);
    assert_eq!(complete(&Command::Remove { id: 1 }, Outcome::Failed), Answer::Error);
    assert_eq!(complete(&Command::Insert { sabor: String::new(), precio: String::new() }, Outcome::Failed), Answer::Error);
}

#[test]
fn mismatched_report_is_internal_error() {
    assert_eq!(complete(&Command::SelectAll, Outcome::Executed(1)), Answer::Error);
    assert_eq!(complete(&Command::Remove { id: 1 }, Outcome::Fetched(None)), Answer::Error);
}

#[test]
fn unknown_route_is_not_found() {
    let step = dispatch("PATCH /helados/1 HTTP/1.1", None);
    assert_eq!(step, Step::Reply(Answer::NoRoute));
    assert_eq!(Answer::NoRoute.to_http(), "HTTP/1.1 404 NOT FOUND\r\n\r\n404 Not Found");
}

#[test]
fn json_escapes_text_and_writes_null_id() {
    let h = helado(None, "dulce \"de\" leche", "a\\b\n");
    assert_eq!(h.to_json(), "{\"id\":null,\"sabor\":\"dulce \\\"de\\\" leche\",\"precio\":\"a\\\\b\\n\"}");
}

#[test]
fn json_writes_negative_and_extreme_ids() {
    assert_eq!(helado(Some(-305), "x", "y").to_json(), "{\"id\":-305,\"sabor\":\"x\",\"precio\":\"y\"}");
    assert_eq!(helado(Some(i32::MIN), "", "").to_json(), "{\"id\":-2147483648,\"sabor\":\"\",\"precio\":\"\"}");
    assert_eq!(helado(Some(0), "", "").to_json(), "{\"id\":0,\"sabor\":\"\",\"precio\":\"\"}");
}

#[test]
fn json_list_separates_with_commas() {
    let hs = vec![helado(Some(1), "a", "1"), helado(Some(2), "b", "2")];
    assert_eq!(
        list_to_json(&hs),
        "[{\"id\":1,\"sabor\":\"a\",\"precio\":\"1\"},{\"id\":2,\"sabor\":\"b\",\"precio\":\"2\"}]"
    );
}

#[test]
fn statements_are_parameterised() {
    assert_eq!(Command::SelectAll.statement(), "SELECT * FROM helados");
    assert_eq!(
        Command::Update { id: 1, sabor: String::new(), precio: String::new() }.statement(),
        "UPDATE helados SET sabor = $1, precio = $2 WHERE id = $3"
    );
    assert_eq!(Command::Remove { id: 1 }.statement(), "DELETE FROM helados WHERE id = $1");
    assert!(CREATE_TABLE.starts_with("CREATE TABLE IF NOT EXISTS helados"));
    assert_eq!(status_line(Status::NotFound), "HTTP/1.1 404 NOT FOUND\r\n\r\n");
}
