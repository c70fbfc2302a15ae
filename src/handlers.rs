use vstd::prelude::*;
use crate::render::{
    gen_status_response, server_error_detail, status_reply, expects_json, negotiate_format,
    BodyFormat, Reply, ReplyView, STATUS_OK,
};
use crate::sanitize::{escaped, sanitize_user_input};
use crate::user::{
    listing_page_text, opt_text, row_lines, row_page, rows_lines, rows_page, rows_view,
    user_from_row, user_json_text, user_of_row, users_json_text, users_to_json, Row, RowView,
    User, UserView,
};

verus! {

/// The most characters a user's `nome` may have once sanitized.
pub const MAX_NOME_LEN: usize = 50;

/// The most characters a user's `login` or `senha` may have once sanitized.
pub const MAX_LOGIN_LEN: usize = 30;

/// A failure reported by the database backend, whatever its cause.
#[derive(Clone, Debug)]
pub struct DbError {
    pub message: String,
}

/// The fields of a request body: each is present where the body held a
/// string under that key.
#[derive(Clone, Debug)]
pub struct UserPayload {
    pub nome: Option<String>,
    pub login: Option<String>,
    pub senha: Option<String>,
}

/// The mathematical value of a request body.
pub struct PayloadView {
    pub nome: Option<Seq<char>>,
    pub login: Option<Seq<char>>,
    pub senha: Option<Seq<char>>,
}

impl View for UserPayload {
    type V = PayloadView;

    open spec fn view(&self) -> PayloadView {
        PayloadView {
            nome: opt_text(self.nome),
            login: opt_text(self.login),
            senha: opt_text(self.senha),
        }
    }
}

/// Why a request body does not give a user.
#[derive(Clone, Copy, Debug, PartialEq, Eq, Structural)]
pub enum InputError {
    /// A field is missing or is not a string.
    Shape,
    /// A sanitized field is longer than its limit.
    TooLong,
}

/// The user a request body gives: its three fields sanitized, within their
/// length limits.
pub open spec fn checked_user(p: PayloadView) -> Result<UserView, InputError> {
    match (p.nome, p.login, p.senha) {
        (Some(n), Some(l), Some(s)) => {
            let u = UserView { nome: escaped(n), login: escaped(l), senha: escaped(s) };
            if u.nome.len() > MAX_NOME_LEN || u.login.len() > MAX_LOGIN_LEN || u.senha.len()
                > MAX_LOGIN_LEN {
                Err(InputError::TooLong)
            } else {
                Ok(u)
            }
        },
        _ => Err(InputError::Shape),
    }
}

/// Sanitizes the three fields of a request body and checks their lengths.
pub fn check_user(p: &UserPayload) -> (r: Result<User, InputError>)
    ensures
        match r {
            Ok(u) => checked_user(p@) == Ok::<UserView, InputError>(u@),
            Err(e) => checked_user(p@) == Err::<UserView, InputError>(e),
        },
{
    match (&p.nome, &p.login, &p.senha) {
        (Some(n), Some(l), Some(s)) => {
            let mut nome = n.clone();
            let mut login = l.clone();
            let mut senha = s.clone();
            sanitize_user_input(&mut nome);
            sanitize_user_input(&mut login);
            sanitize_user_input(&mut senha);
            if nome.as_str().unicode_len() > MAX_NOME_LEN || login.as_str().unicode_len()
                > MAX_LOGIN_LEN || senha.as_str().unicode_len() > MAX_LOGIN_LEN {
                Err(InputError::TooLong)
            } else {
                Ok(User { nome, login, senha })
            }
        },
        _ => Err(InputError::Shape),
    }
}

/// The statement that reads the users with a login (already sanitized).
pub open spec fn select_by_login_sql(login: Seq<char>) -> Seq<char> {
    "select * from usuario where login='"@ + login + "'"@
}

/// The statement that reads every user.
pub open spec fn select_all_sql() -> Seq<char> {
    "select * from usuario"@
}

/// The statement that adds a user (fields already sanitized).
pub open spec fn insert_sql(u: UserView) -> Seq<char> {
    "insert into usuario (nome, login, senha) values ('"@ + u.nome + "', '"@ + u.login + "', '"@
        + u.senha + "')"@
}

/// The statement that replaces every field of the user with a login.
pub open spec fn update_sql(u: UserView, login: Seq<char>) -> Seq<char> {
    "update usuario set nome = '"@ + u.nome + "', login = '"@ + u.login + "', senha = '"@
        + u.senha + "' where login = '"@ + login + "'"@
}

/// The statement that removes the user with a login.
pub open spec fn delete_sql(login: Seq<char>) -> Seq<char> {
    "delete from usuario where login='"@ + login + "'"@
}

fn sql_with_login(head: &str, login: &str) -> (r: String)
    ensures
        r@ == head@ + login@ + "'"@,
{
    let mut sql = String::from_str(head);
    sql.append(login);
    sql.append("'");
    sql
}

fn sanitized(s: &str) -> (r: String)
    ensures
        r@ == escaped(s@),
{
    let mut t = String::from_str(s);
    sanitize_user_input(&mut t);
    t
}

/// What a handler does next: answer the client, or run a query or a
/// statement and hand its outcome to the handler's next step.
#[derive(Clone, Debug)]
pub enum Step {
    Respond(Reply),
    Fetch(String),
    Execute(String),
}

/// The mathematical value of a step.
pub enum StepView {
    Respond(ReplyView),
    Fetch(Seq<char>),
    Execute(Seq<char>),
}

impl View for Step {
    type V = StepView;

    open spec fn view(&self) -> StepView {
        match self {
            Step::Respond(r) => StepView::Respond(r@),
            Step::Fetch(q) => StepView::Fetch(q@),
            Step::Execute(q) => StepView::Execute(q@),
        }
    }
}

/// The rows a query returned, or `None` where it failed.
pub open spec fn fetched(r: Result<Vec<Row>, DbError>) -> Option<Seq<RowView>> {
    match r {
        Ok(rows) => Some(rows_view(rows@)),
        Err(_) => None,
    }
}

/// The number of rows a statement affected, or `None` where it failed.
pub open spec fn affected(r: Result<u64, DbError>) -> Option<u64> {
    match r {
        Ok(n) => Some(n),
        Err(_) => None,
    }
}

/// The query that reads the user whose login is given in the path.
pub fn get_user_query(login: &str) -> (r: String)
    ensures
        r@ == select_by_login_sql(escaped(login@)),
{
    let l = sanitized(login);
    sql_with_login("select * from usuario where login='", l.as_str())
}

/// The response to a read of one user, given what the query returned.
pub open spec fn read_one_reply(found: Option<Seq<RowView>>, accept: Seq<char>) -> ReplyView {
    match found {
        None => status_reply("could not retrieve user from database"@, server_error_detail(), accept),
        Some(rows) => if rows.len() == 0 {
            status_reply("user not found"@, Seq::empty(), accept)
        } else if expects_json(accept) {
            match user_of_row(rows[0]) {
                Some(u) => ReplyView { status: STATUS_OK, format: BodyFormat::Json, body: user_json_text(u) },
                None => status_reply("could not get user"@, server_error_detail(), accept),
            }
        } else {
            ReplyView { status: STATUS_OK, format: BodyFormat::Html, body: listing_page_text(row_lines(rows[0])) }
        },
    }
}

/// Answers a read of one user: the first row found, as a JSON user or as an
/// HTML listing of its columns.
pub fn get_user_reply(found: &Result<Vec<Row>, DbError>, accept: &str) -> (r: Reply)
    ensures
        r@ == read_one_reply(fetched(*found), accept@),
{
    proof {
        reveal_strlit("");
        assert(""@ =~= Seq::<char>::empty());
    }
    match found {
        Err(_) => gen_status_response("could not retrieve user from database", "internal server error", accept),
        Ok(rows) => {
            assert(rows_view(rows@).len() == rows@.len());
            if rows.len() == 0 {
                gen_status_response("user not found", "", accept)
            } else {
                assert(rows_view(rows@)[0] == rows@[0]@);
                match negotiate_format(accept) {
                    BodyFormat::Json => match user_from_row(&rows[0]) {
                        Some(u) => Reply { status: STATUS_OK, format: BodyFormat::Json, body: u.to_json() },
                        None => gen_status_response("could not get user", "internal server error", accept),
                    },
                    BodyFormat::Html => Reply { status: STATUS_OK, format: BodyFormat::Html, body: row_page(&rows[0]) },
                }
            }
        },
    }
}

/// The query that reads every user.
pub fn get_all_users_query() -> (r: String)
    ensures
        r@ == select_all_sql(),
{
    String::from_str("select * from usuario")
}

/// The response to a read of every user, given what the query returned.
pub open spec fn read_all_reply(found: Option<Seq<RowView>>, accept: Seq<char>) -> ReplyView {
    match found {
        None => status_reply("could not retrieve users from database"@, server_error_detail(), accept),
        Some(rows) => if rows.len() == 0 {
            status_reply("user not found"@, Seq::empty(), accept)
        } else if expects_json(accept) {
            ReplyView { status: STATUS_OK, format: BodyFormat::Json, body: users_json_text(rows) }
        } else {
            ReplyView { status: STATUS_OK, format: BodyFormat::Html, body: listing_page_text(rows_lines(rows)) }
        },
    }
}

/// Answers a read of every user: a JSON array of the rows that describe a
/// user, or an HTML listing of every row.
pub fn get_all_users_reply(found: &Result<Vec<Row>, DbError>, accept: &str) -> (r: Reply)
    ensures
        r@ == read_all_reply(fetched(*found), accept@),
{
    proof {
        reveal_strlit("");
        assert(""@ =~= Seq::<char>::empty());
    }
    match found {
        Err(_) => gen_status_response("could not retrieve users from database", "internal server error", accept),
        Ok(rows) => {
            assert(rows_view(rows@).len() == rows@.len());
            if rows.len() == 0 {
                gen_status_response("user not found", "", accept)
            } else {
                match negotiate_format(accept) {
                    BodyFormat::Json => Reply { status: STATUS_OK, format: BodyFormat::Json, body: users_to_json(rows) },
                    BodyFormat::Html => Reply { status: STATUS_OK, format: BodyFormat::Html, body: rows_page(rows) },
                }
            }
        },
    }
}

/// The detail given when a request body lacks a string field.
pub open spec fn shape_detail() -> Seq<char> {
    "expected json with fields 'nome', 'login' and 'senha' with a string value"@
}

/// The detail given when a field is over its length limit.
pub open spec fn too_long_detail() -> Seq<char> {
    "'nome' must not be longer than 50 characters, 'login' and 'senha' must not be longer than 30 characters"@
}

/// The detail given when a login is taken.
pub open spec fn conflict_detail() -> Seq<char> {
    "login already in use, please try a different one"@
}

/// The response to a request body that gives no user.
pub open spec fn input_error_reply(status_msg: Seq<char>, e: InputError, accept: Seq<char>) -> ReplyView {
    match e {
        InputError::Shape => status_reply(status_msg, shape_detail(), accept),
        InputError::TooLong => status_reply(status_msg, too_long_detail(), accept),
    }
}

fn input_error_response(status_msg: &str, e: InputError, accept: &str) -> (r: Reply)
    ensures
        r@ == input_error_reply(status_msg@, e, accept@),
{
    match e {
        InputError::Shape => gen_status_response(
            status_msg,
            "expected json with fields 'nome', 'login' and 'senha' with a string value",
            accept,
        ),
        InputError::TooLong => gen_status_response(
            status_msg,
            "'nome' must not be longer than 50 characters, 'login' and 'senha' must not be longer than 30 characters",
            accept,
        ),
    }
}

/// The first step of a create: check the body, then look its login up.
pub open spec fn create_begin(p: PayloadView, accept: Seq<char>) -> StepView {
    match checked_user(p) {
        Err(e) => StepView::Respond(input_error_reply("could not create user"@, e, accept)),
        Ok(u) => StepView::Fetch(select_by_login_sql(u.login)),
    }
}

/// Starts a create: a body without a valid user is answered at once;
/// otherwise the rows with the new login are read.
pub fn create_user_begin(p: &UserPayload, accept: &str) -> (r: Step)
    ensures
        r@ == create_begin(p@, accept@),
{
    match check_user(p) {
        Err(e) => Step::Respond(input_error_response("could not create user", e, accept)),
        Ok(u) => Step::Fetch(sql_with_login("select * from usuario where login='", u.login.as_str())),
    }
}

/// The second step of a create, given how many rows hold the login.
pub open spec fn create_after_lookup(u: UserView, found: Option<nat>, accept: Seq<char>) -> StepView {
    match found {
        None => StepView::Respond(status_reply("could not create user"@, server_error_detail(), accept)),
        Some(n) => if n == 0 {
            StepView::Execute(insert_sql(u))
        } else {
            StepView::Respond(status_reply("could not create user"@, conflict_detail(), accept))
        },
    }
}

/// Goes on with a create once the login was looked up: a taken login is
/// refused, a free one is inserted.
pub fn create_user_after_lookup(u: &User, found: &Result<Vec<Row>, DbError>, accept: &str) -> (r: Step)
    ensures
        r@ == create_after_lookup(
            u@,
            match *found {
                Ok(rows) => Some(rows@.len()),
                Err(_) => None,
            },
            accept@,
        ),
{
    match found {
        Err(_) => Step::Respond(gen_status_response("could not create user", "internal server error", accept)),
        Ok(rows) => {
            if rows.len() == 0 {
                let mut sql = String::from_str("insert into usuario (nome, login, senha) values ('");
                sql.append(u.nome.as_str());
                sql.append("', '");
                sql.append(u.login.as_str());
                sql.append("', '");
                sql.append(u.senha.as_str());
                sql.append("')");
                Step::Execute(sql)
            } else {
                Step::Respond(gen_status_response(
                    "could not create user",
                    "login already in use, please try a different one",
                    accept,
                ))
            }
        },
    }
}

/// The response to a create, given how the insert went.
pub open spec fn create_reply(done: Option<u64>, accept: Seq<char>) -> ReplyView {
    match done {
        None => status_reply("could not create user"@, server_error_detail(), accept),
        Some(_) => status_reply("user created successfully"@, Seq::empty(), accept),
    }
}

/// Answers a create once the insert ran.
pub fn create_user_reply(done: &Result<u64, DbError>, accept: &str) -> (r: Reply)
    ensures
        r@ == create_reply(affected(*done), accept@),
{
    proof {
        reveal_strlit("");
        assert(""@ =~= Seq::<char>::empty());
    }
    match done {
        Err(_) => gen_status_response("could not create user", "internal server error", accept),
        Ok(_) => gen_status_response("user created successfully", "", accept),
    }
}

/// The first step of an update of the user whose login is given in the path.
pub open spec fn update_begin(login: Seq<char>, p: PayloadView, accept: Seq<char>) -> StepView {
    match checked_user(p) {
        Err(e) => StepView::Respond(input_error_reply("could not update user"@, e, accept)),
        Ok(u) => StepView::Execute(update_sql(u, escaped(login))),
    }
}

/// Starts an update: a body without a valid user is answered at once;
/// otherwise the fields of the user with the path's login are replaced.
pub fn update_user_begin(login: &str, p: &UserPayload, accept: &str) -> (r: Step)
    ensures
        r@ == update_begin(login@, p@, accept@),
{
    match check_user(p) {
        Err(e) => Step::Respond(input_error_response("could not update user", e, accept)),
        Ok(u) => {
            let target = sanitized(login);
            let mut sql = String::from_str("update usuario set nome = '");
            sql.append(u.nome.as_str());
            sql.append("', login = '");
            sql.append(u.login.as_str());
            sql.append("', senha = '");
            sql.append(u.senha.as_str());
            sql.append("' where login = '");
            sql.append(target.as_str());
            sql.append("'");
            Step::Execute(sql)
        },
    }
}

/// The response to an update, given how many rows it changed.
pub open spec fn update_reply(done: Option<u64>, accept: Seq<char>) -> ReplyView {
    match done {
        None => status_reply("could not update user"@, server_error_detail(), accept),
        Some(n) => if n == 0 {
            status_reply("could not update user"@, "user not found"@, accept)
        } else {
            status_reply("user updated successfully"@, Seq::empty(), accept)
        },
    }
}

/// Answers an update once its statement ran: no row changed means no such user.
pub fn update_user_reply(done: &Result<u64, DbError>, accept: &str) -> (r: Reply)
    ensures
        r@ == update_reply(affected(*done), accept@),
{
    proof {
        reveal_strlit("");
        assert(""@ =~= Seq::<char>::empty());
    }
    match done {
        Err(_) => gen_status_response("could not update user", "internal server error", accept),
        Ok(n) => {
            if *n == 0 {
                gen_status_response("could not update user", "user not found", accept)
            } else {
                gen_status_response("user updated successfully", "", accept)
            }
        },
    }
}

/// The statement that removes the user whose login is given in the path.
pub fn delete_user_query(login: &str) -> (r: String)
    ensures
        r@ == delete_sql(escaped(login@)),
{
    let l = sanitized(login);
    sql_with_login("delete from usuario where login='", l.as_str())
}

/// The response to a delete, given how many rows it removed.
pub open spec fn delete_reply(done: Option<u64>, accept: Seq<char>) -> ReplyView {
    match done {
        None => status_reply("could not delete user"@, server_error_detail(), accept),
        Some(n) => if n == 0 {
            status_reply("could not delete user"@, "user not found"@, accept)
        } else {
            status_reply("user deleted successfully"@, Seq::empty(), accept)
        },
    }
}

/// Answers a delete once its statement ran: no row removed means no such user.
pub fn delete_user_reply(done: &Result<u64, DbError>, accept: &str) -> (r: Reply)
    ensures
        r@ == delete_reply(affected(*done), accept@),
{
    proof {
        reveal_strlit("");
        assert(""@ =~= Seq::<char>::empty());
    }
    match done {
        Err(_) => gen_status_response("could not delete user", "internal server error", accept),
        Ok(n) => {
            if *n == 0 {
                gen_status_response("could not delete user", "user not found", accept)
            } else {
                gen_status_response("user deleted successfully", "", accept)
            }
        },
    }
}

} // verus!
