use vstd::prelude::*;
use crate::render::{json_quote, json_string_literal};

verus! {

/// The view of an optional text value.
pub open spec fn opt_text(o: Option<String>) -> Option<Seq<char>> {
    match o {
        Some(s) => Some(s@),
        None => None,
    }
}

/// A registered user: display name, unique login and password.
#[derive(Clone, Debug)]
pub struct User {
    pub nome: String,
    pub login: String,
    pub senha: String,
}

/// The mathematical value of a user.
pub struct UserView {
    pub nome: Seq<char>,
    pub login: Seq<char>,
    pub senha: Seq<char>,
}

impl View for User {
    type V = UserView;

    open spec fn view(&self) -> UserView {
        UserView { nome: self.nome@, login: self.login@, senha: self.senha@ }
    }
}

/// One column of a result row: its name and its value as text, `None` where
/// the value is null or not text.
#[derive(Clone, Debug)]
pub struct Column {
    pub name: String,
    pub value: Option<String>,
}

/// The mathematical value of a column.
pub type ColumnView = (Seq<char>, Option<Seq<char>>);

impl View for Column {
    type V = ColumnView;

    open spec fn view(&self) -> ColumnView {
        (self.name@, opt_text(self.value))
    }
}

/// A result row, columns in the order the backend gave them.
#[derive(Clone, Debug)]
pub struct Row {
    pub columns: Vec<Column>,
}

/// The mathematical value of a row.
pub type RowView = Seq<ColumnView>;

impl View for Row {
    type V = RowView;

    open spec fn view(&self) -> RowView {
        self.columns@.map_values(|c: Column| c@)
    }
}

/// The views of a sequence of rows.
pub open spec fn rows_view(rows: Seq<Row>) -> Seq<RowView> {
    rows.map_values(|r: Row| r@)
}

/// The text value of the last column called `name`; `None` where there is
/// no such column or its value is null.
pub open spec fn column_value(cols: RowView, name: Seq<char>) -> Option<Seq<char>>
    decreases cols.len(),
{
    if cols.len() == 0 {
        None
    } else if cols.last().0 == name {
        cols.last().1
    } else {
        column_value(cols.drop_last(), name)
    }
}

/// The user a row describes, where it has text in the columns `nome`,
/// `login` and `senha`.
pub open spec fn user_of_row(cols: RowView) -> Option<UserView> {
    match (column_value(cols, "nome"@), column_value(cols, "login"@), column_value(cols, "senha"@)) {
        (Some(nome), Some(login), Some(senha)) => Some(UserView { nome, login, senha }),
        _ => None,
    }
}

/// The row the user table holds for a user.
pub open spec fn user_row(u: UserView) -> RowView {
    seq![("nome"@, Some(u.nome)), ("login"@, Some(u.login)), ("senha"@, Some(u.senha))]
}

/// Looks up the text value of the last column of `row` called `name`.
pub fn column_text(row: &Row, name: &str) -> (r: Option<String>)
    ensures
        opt_text(r) == column_value(row@, name@),
{
    let mut found: Option<String> = None;
    let mut i: usize = 0;
    while i < row.columns.len()
        invariant
            i <= row.columns@.len(),
            opt_text(found) == column_value(row@.subrange(0, i as int), name@),
        decreases row.columns@.len() - i,
    {
        let c = &row.columns[i];
        assert(row@.subrange(0, i + 1).drop_last() == row@.subrange(0, i as int));
        if crate::render::text_eq(c.name.as_str(), name) {
            found = match &c.value {
                Some(v) => Some(v.clone()),
                None => None,
            };
        }
        i = i + 1;
    }
    assert(row@.subrange(0, i as int) == row@);
    found
}

/// Reads a user from a row: each of `nome`, `login` and `senha` must hold text.
pub fn user_from_row(row: &Row) -> (r: Option<User>)
    ensures
        match r {
            Some(u) => user_of_row(row@) == Some(u@),
            None => user_of_row(row@) is None,
        },
{
    let nome = column_text(row, "nome");
    let login = column_text(row, "login");
    let senha = column_text(row, "senha");
    match (nome, login, senha) {
        (Some(nome), Some(login), Some(senha)) => Some(User { nome, login, senha }),
        _ => None,
    }
}

/// The JSON object of a user: `{"nome":...,"login":...,"senha":...}`.
pub open spec fn user_json_text(u: UserView) -> Seq<char> {
    "{\"nome\":"@ + json_string_literal(u.nome) + ",\"login\":"@ + json_string_literal(u.login)
        + ",\"senha\":"@ + json_string_literal(u.senha) + "}"@
}

impl User {
    /// The user as compact JSON text, fields in declaration order.
    pub fn to_json(&self) -> (r: String)
        ensures
            r@ == user_json_text(self@),
    {
        let mut text = String::from_str("{\"nome\":");
        let q = json_quote(self.nome.as_str());
        text.append(q.as_str());
        text.append(",\"login\":");
        let q = json_quote(self.login.as_str());
        text.append(q.as_str());
        text.append(",\"senha\":");
        let q = json_quote(self.senha.as_str());
        text.append(q.as_str());
        text.append("}");
        text
    }
}

/// The users that can be read from rows, in row order.
pub open spec fn users_of_rows(rows: Seq<RowView>) -> Seq<UserView>
    decreases rows.len(),
{
    if rows.len() == 0 {
        Seq::empty()
    } else {
        match user_of_row(rows.last()) {
            Some(u) => users_of_rows(rows.drop_last()).push(u),
            None => users_of_rows(rows.drop_last()),
        }
    }
}

/// The JSON objects of users, separated by commas.
pub open spec fn users_json_items(us: Seq<UserView>) -> Seq<char>
    decreases us.len(),
{
    if us.len() == 0 {
        Seq::empty()
    } else if us.len() == 1 {
        user_json_text(us[0])
    } else {
        users_json_items(us.drop_last()) + ","@ + user_json_text(us.last())
    }
}

/// The JSON array of the users that can be read from rows.
pub open spec fn users_json_text(rows: Seq<RowView>) -> Seq<char> {
    "["@ + users_json_items(users_of_rows(rows)) + "]"@
}

/// Renders the JSON array of every user that can be read from `rows`;
/// rows that do not describe a user are left out.
pub fn users_to_json(rows: &Vec<Row>) -> (r: String)
    ensures
        r@ == users_json_text(rows_view(rows@)),
{
    let ghost rv = rows_view(rows@);
    let mut items = String::new();
    let mut count: usize = 0;
    let mut i: usize = 0;
    while i < rows.len()
        invariant
            i <= rows@.len(),
            rv == rows_view(rows@),
            count <= i,
            count == users_of_rows(rv.subrange(0, i as int)).len(),
            items@ == users_json_items(users_of_rows(rv.subrange(0, i as int))),
        decreases rows@.len() - i,
    {
        let ghost before = users_of_rows(rv.subrange(0, i as int));
        assert(rv.subrange(0, i + 1).drop_last() == rv.subrange(0, i as int));
        assert(rv.subrange(0, i + 1).last() == rows@[i as int]@);
        match user_from_row(&rows[i]) {
            Some(u) => {
                let text = u.to_json();
                if count > 0 {
                    items.append(",");
                }
                items.append(text.as_str());
                assert(before.push(u@).drop_last() == before);
                count = count + 1;
            },
            None => {},
        }
        i = i + 1;
    }
    assert(rv.subrange(0, i as int) == rv);
    let mut out = String::from_str("[");
    out.append(items.as_str());
    out.append("]");
    out
}

/// The text of one column: `name: value<br>`, with `|null|` for a missing value.
pub open spec fn column_line(c: ColumnView) -> Seq<char> {
    c.0 + ": "@ + match c.1 {
        Some(v) => v,
        None => "|null|"@,
    } + "<br>"@
}

/// The text of a row: its columns' lines in column order.
pub open spec fn row_lines(cols: RowView) -> Seq<char>
    decreases cols.len(),
{
    if cols.len() == 0 {
        Seq::empty()
    } else {
        row_lines(cols.drop_last()) + column_line(cols.last())
    }
}

/// The text of several rows, each followed by a line break.
pub open spec fn rows_lines(rows: Seq<RowView>) -> Seq<char>
    decreases rows.len(),
{
    if rows.len() == 0 {
        Seq::empty()
    } else {
        rows_lines(rows.drop_last()) + row_lines(rows.last()) + "<br>"@
    }
}

/// The HTML document that shows a listing.
pub open spec fn listing_page_text(text: Seq<char>) -> Seq<char> {
    "<!DOCTYPE html>\n                            <html>\n                                <h1> "@
        + text + " </h1>\n                            </html>\n                        "@
}

/// Appends the text of a row to `out`.
pub fn append_row_lines(out: &mut String, row: &Row)
    ensures
        final(out)@ == old(out)@ + row_lines(row@),
{
    let mut i: usize = 0;
    while i < row.columns.len()
        invariant
            i <= row.columns@.len(),
            out@ == old(out)@ + row_lines(row@.subrange(0, i as int)),
        decreases row.columns@.len() - i,
    {
        let c = &row.columns[i];
        assert(row@.subrange(0, i + 1).drop_last() == row@.subrange(0, i as int));
        assert(row@.subrange(0, i + 1).last() == c@);
        out.append(c.name.as_str());
        out.append(": ");
        match &c.value {
            Some(v) => out.append(v.as_str()),
            None => out.append("|null|"),
        }
        out.append("<br>");
        i = i + 1;
    }
    assert(row@.subrange(0, i as int) == row@);
}

/// Renders the HTML document that lists one row.
pub fn row_page(row: &Row) -> (r: String)
    ensures
        r@ == listing_page_text(row_lines(row@)),
{
    let mut text = String::new();
    append_row_lines(&mut text, row);
    wrap_listing(&text)
}

/// Renders the HTML document that lists every row, each followed by a line break.
pub fn rows_page(rows: &Vec<Row>) -> (r: String)
    ensures
        r@ == listing_page_text(rows_lines(rows_view(rows@))),
{
    let ghost rv = rows_view(rows@);
    let mut text = String::new();
    let mut i: usize = 0;
    while i < rows.len()
        invariant
            i <= rows@.len(),
            rv == rows_view(rows@),
            text@ == rows_lines(rv.subrange(0, i as int)),
        decreases rows@.len() - i,
    {
        assert(rv.subrange(0, i + 1).drop_last() == rv.subrange(0, i as int));
        assert(rv.subrange(0, i + 1).last() == rows@[i as int]@);
        append_row_lines(&mut text, &rows[i]);
        text.append("<br>");
        i = i + 1;
    }
    assert(rv.subrange(0, i as int) == rv);
    wrap_listing(&text)
}

fn wrap_listing(text: &String) -> (r: String)
    ensures
        r@ == listing_page_text(text@),
{
    let mut page = String::from_str(
        "<!DOCTYPE html>\n                            <html>\n                                <h1> ",
    );
    page.append(text.as_str());
    page.append(" </h1>\n                            </html>\n                        ");
    page
}

} // verus!
