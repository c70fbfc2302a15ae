use users_api::handlers::{
    check_user, create_user_after_lookup, create_user_begin, create_user_reply, delete_user_query,
    delete_user_reply, get_all_users_query, get_all_users_reply, get_user_query, get_user_reply,
    update_user_begin, update_user_reply, DbError, InputError, Step, UserPayload,
};
use users_api::render::{BodyFormat, Reply};
use users_api::user::{user_from_row, Column, Row, User};

const JSON: &str = "application/json";
const HTML: &str = "text/html";

fn payload(nome: &str, login: &str, senha: &str) -> UserPayload {
    UserPayload {
        nome: Some(nome.to_string()),
        login: Some(login.to_string()),
        senha: Some(senha.to_string()),
    }
}

fn row_of(u: &User) -> Row {
    let col = |n: &str, v: &str| Column { name: n.to_string(), value: Some(v.to_string()) };
    Row { columns: vec![col("nome", &u.nome), col("login", &u.login), col("senha", &u.senha)] }
}

fn db_error() -> DbError {
    DbError { message: "connection lost".to_string() }
}

/// Runs a create against an in-memory table; the lookup and the insert act
/// on the table as the statements would.
fn create(table: &mut Vec<User>, p: &UserPayload, accept: &str) -> Reply {
    match create_user_begin(p, accept) {
        Step::Respond(r) => r,
        Step::Fetch(sql) => {
            let user = check_user(p).unwrap();
            assert_eq!(sql, format!("select * from usuario where login='{}'", user.login));
            let rows: Vec<Row> = table.iter().filter(|u| u.login == user.login).map(row_of).collect();
            match create_user_after_lookup(&user, &Ok(rows), accept) {
                Step::Respond(r) => r,
                Step::Execute(sql) => {
                    assert_eq!(
                        sql,
                        format!(
                            "insert into usuario (nome, login, senha) values ('{}', '{}', '{}')",
                            user.nome, user.login, user.senha
                        )
                    );
                    table.push(user);
                    create_user_reply(&Ok(1), accept)
                }
                Step::Fetch(_) => panic!("unexpected query"),
            }
        }
        Step::Execute(_) => panic!("unexpected statement"),
    }
}

fn read_one(table: &Vec<User>, login: &str, accept: &str) -> Reply {
    let mut l = login.to_string();
    users_api::sanitize::sanitize_user_input(&mut l);
    assert_eq!(get_user_query(login), format!("select * from usuario where login='{}'", l));
    let rows: Vec<Row> = table.iter().filter(|u| u.login == l).map(row_of).collect();
    get_user_reply(&Ok(rows), accept)
}

fn delete(table: &mut Vec<User>, login: &str, accept: &str) -> Reply {
    let mut l = login.to_string();
    users_api::sanitize::sanitize_user_input(&mut l);
    assert_eq!(delete_user_query(login), format!("delete from usuario where login='{}'", l));
    let before = table.len();
    table.retain(|u| u.login != l);
    delete_user_reply(&Ok((before - table.len()) as u64), accept)
}

#[test]
fn create_read_delete_scenario() {
    let mut table = Vec::new();
    let r = create(&mut table, &payload("Ana", "ana1", "pw"), JSON);
    assert_eq!(r.status, 400);
    assert_eq!(r.format, BodyFormat::Json);
    assert_eq!(r.body, "{\"status_msg\":\"user created successfully\",\"error\":null}");

    let r = read_one(&table, "ana1", JSON);
    assert_eq!(r.status, 200);
    assert_eq!(r.format, BodyFormat::Json);
    assert_eq!(r.body, "{\"nome\":\"Ana\",\"login\":\"ana1\",\"senha\":\"pw\"}");

    let r = delete(&mut table, "ana1", JSON);
    assert_eq!(r.body, "{\"status_msg\":\"user deleted successfully\",\"error\":null}");
    let r = delete(&mut table, "ana1", JSON);
    assert_eq!(r.body, "{\"status_msg\":\"could not delete user\",\"error\":\"user not found\"}");
    assert!(table.is_empty());
}

#[test]
fn second_create_with_same_login_conflicts() {
    let mut table = Vec::new();
    create(&mut table, &payload("Ana", "ana1", "pw"), JSON);
    let r = create(&mut table, &payload("Other", "ana1", "x"), JSON);
    assert_eq!(r.status, 400);
    assert_eq!(
        r.body,
        "{\"status_msg\":\"could not create user\",\"error\":\"login already in use, please try a different one\"}"
    );
    assert_eq!(table.len(), 1);
    assert_eq!(table[0].nome, "Ana");
}

#[test]
fn created_user_reads_back_as_html() {
    let mut table = Vec::new();
    create(&mut table, &payload("Bia", "bia", "secret"), HTML);
    let r = read_one(&table, "bia", HTML);
    assert_eq!(r.status, 200);
    assert_eq!(r.format, BodyFormat::Html);
    assert_eq!(
        r.body,
        "<!DOCTYPE html>\n                            <html>\n                                <h1> nome: Bia<br>login: bia<br>senha: secret<br> </h1>\n                            </html>\n                        "
    );
}

#[test]
fn quoted_login_round_trips_through_the_table() {
    let mut table = Vec::new();
    create(&mut table, &payload("O'Neil", "o'neil", "pw"), JSON);
    assert_eq!(table[0].login, "o\\'neil");
    let r = read_one(&table, "o'neil", JSON);
    assert_eq!(r.body, "{\"nome\":\"O\\\\'Neil\",\"login\":\"o\\\\'neil\",\"senha\":\"pw\"}");
}

#[test]
fn length_boundaries() {
    let n50 = "n".repeat(50);
    let n51 = "n".repeat(51);
    let l30 = "l".repeat(30);
    let l31 = "l".repeat(31);
    assert!(check_user(&payload(&n50, &l30, &l30)).is_ok());
    assert_eq!(check_user(&payload(&n51, "a", "b")).unwrap_err(), InputError::TooLong);
    assert_eq!(check_user(&payload("a", &l31, "b")).unwrap_err(), InputError::TooLong);
    assert_eq!(check_user(&payload("a", "b", &l31)).unwrap_err(), InputError::TooLong);
    // characters, not bytes, are counted
    assert!(check_user(&payload(&"é".repeat(50), "a", "b")).is_ok());
    // the limit applies to the sanitized text
    let q29 = format!("{}'", "q".repeat(29));
    assert_eq!(check_user(&payload("a", &q29, "b")).unwrap_err(), InputError::TooLong);

    let mut table = Vec::new();
    let r = create(&mut table, &payload(&n51, "a", "b"), JSON);
    assert_eq!(
        r.body,
        "{\"status_msg\":\"could not create user\",\"error\":\"'nome' must not be longer than 50 characters, 'login' and 'senha' must not be longer than 30 characters\"}"
    );
    assert!(table.is_empty());
    let r = create(&mut table, &payload(&n50, &l30, &l30), JSON);
    assert_eq!(r.body, "{\"status_msg\":\"user created successfully\",\"error\":null}");
}

#[test]
fn body_without_string_fields_is_refused() {
    let p = UserPayload { nome: Some("a".to_string()), login: None, senha: Some("b".to_string()) };
    assert_eq!(check_user(&p).unwrap_err(), InputError::Shape);
    match create_user_begin(&p, JSON) {
        Step::Respond(r) => {
            assert_eq!(r.status, 400);
            assert_eq!(
                r.body,
                "{\"status_msg\":\"could not create user\",\"error\":\"expected json with fields 'nome', 'login' and 'senha' with a string value\"}"
            );
        }
        _ => panic!("expected a response"),
    }
    match update_user_begin("a", &p, JSON) {
        Step::Respond(r) => assert!(r.body.contains("could not update user")),
        _ => panic!("expected a response"),
    }
}

#[test]
fn create_database_failures_are_server_errors() {
    let u = check_user(&payload("a", "b", "c")).unwrap();
    match create_user_after_lookup(&u, &Err(db_error()), JSON) {
        Step::Respond(r) => {
            assert_eq!(r.status, 500);
            assert_eq!(r.body, "{\"status_msg\":\"could not create user\",\"error\":\"internal server error\"}");
        }
        _ => panic!("expected a response"),
    }
    let r = create_user_reply(&Err(db_error()), JSON);
    assert_eq!(r.status, 500);
}

#[test]
fn update_statement_and_outcomes() {
    match update_user_begin("o'ld", &payload("N", "new'", "s"), JSON) {
        Step::Execute(sql) => assert_eq!(
            sql,
            "update usuario set nome = 'N', login = 'new\\'', senha = 's' where login = 'o\\'ld'"
        ),
        _ => panic!("expected a statement"),
    }
    let r = update_user_reply(&Ok(0), JSON);
    assert_eq!(r.status, 400);
    assert_eq!(r.body, "{\"status_msg\":\"could not update user\",\"error\":\"user not found\"}");
    let r = update_user_reply(&Ok(1), JSON);
    assert_eq!(r.body, "{\"status_msg\":\"user updated successfully\",\"error\":null}");
    let r = update_user_reply(&Err(db_error()), HTML);
    assert_eq!(r.status, 500);
    assert_eq!(r.format, BodyFormat::Html);
}

#[test]
fn delete_of_missing_login_changes_nothing() {
    let mut table = Vec::new();
    create(&mut table, &payload("Ana", "ana1", "pw"), JSON);
    let r = delete(&mut table, "nobody", HTML);
    assert_eq!(r.status, 400);
    assert!(r.body.contains("<h1> could not delete user </h1>"));
    assert!(r.body.contains("<p1> user not found </p1>"));
    assert_eq!(table.len(), 1);
    assert_eq!(delete_user_reply(&Err(db_error()), JSON).status, 500);
}

#[test]
fn read_one_outcomes() {
    let r = get_user_reply(&Ok(vec![]), JSON);
    assert_eq!(r.status, 400);
    assert_eq!(r.body, "{\"status_msg\":\"user not found\",\"error\":null}");
    let r = get_user_reply(&Err(db_error()), JSON);
    assert_eq!(r.status, 500);
    assert_eq!(
        r.body,
        "{\"status_msg\":\"could not retrieve user from database\",\"error\":\"internal server error\"}"
    );
    let partial = Row { columns: vec![Column { name: "nome".to_string(), value: None }] };
    let r = get_user_reply(&Ok(vec![partial.clone()]), JSON);
    assert_eq!(r.status, 500);
    assert_eq!(r.body, "{\"status_msg\":\"could not get user\",\"error\":\"internal server error\"}");
    let r = get_user_reply(&Ok(vec![partial]), HTML);
    assert_eq!(r.status, 200);
    assert!(r.body.contains("<h1> nome: |null|<br> </h1>"));
}

#[test]
fn read_all_outcomes() {
    assert_eq!(get_all_users_query(), "select * from usuario");
    let a = User { nome: "A".to_string(), login: "a".to_string(), senha: "1".to_string() };
    let b = User { nome: "B".to_string(), login: "b".to_string(), senha: "2".to_string() };
    let broken = Row { columns: vec![Column { name: "id".to_string(), value: Some("7".to_string()) }] };
    let rows = vec![row_of(&a), broken, row_of(&b)];
    let r = get_all_users_reply(&Ok(rows.clone()), JSON);
    assert_eq!(r.status, 200);
    assert_eq!(
        r.body,
        "[{\"nome\":\"A\",\"login\":\"a\",\"senha\":\"1\"},{\"nome\":\"B\",\"login\":\"b\",\"senha\":\"2\"}]"
    );
    let r = get_all_users_reply(&Ok(rows), HTML);
    assert!(r.body.contains(
        "<h1> nome: A<br>login: a<br>senha: 1<br><br>id: 7<br><br>nome: B<br>login: b<br>senha: 2<br><br> </h1>"
    ));
    assert_eq!(get_all_users_reply(&Ok(vec![]), JSON).body, "{\"status_msg\":\"user not found\",\"error\":null}");
    assert_eq!(get_all_users_reply(&Err(db_error()), JSON).status, 500);
}

#[test]
fn user_json_escapes_fields() {
    let u = User { nome: "say \"x\"".to_string(), login: "l".to_string(), senha: "s".to_string() };
    assert_eq!(u.to_json(), "{\"nome\":\"say \\\"x\\\"\",\"login\":\"l\",\"senha\":\"s\"}");
    let found = user_from_row(&row_of(&u)).unwrap();
    assert_eq!(found.nome, u.nome);
}
