//! The user table as the statements of the handlers see it, and what holds
//! of the handlers across several requests.
//!
//! A table is a sequence of users, fields as the statements carry them.
//! `select_by_login_sql(l)` reads the rows of `matching(t, l)`,
//! `insert_sql(u)` appends `u`, `delete_sql(l)` leaves `without(t, l)` and
//! reports as many affected rows as `matching(t, l)` holds, and
//! `update_sql(v, l)` leaves `replaced(t, l, v)`, with the same count.
use vstd::prelude::*;
use crate::handlers::{
    checked_user, conflict_detail, create_after_lookup, create_begin, delete_reply,
    input_error_reply, insert_sql, read_one_reply, select_by_login_sql, update_begin, update_reply,
    InputError, PayloadView, StepView, MAX_LOGIN_LEN, MAX_NOME_LEN,
};
use crate::render::{expects_json, status_reply, BodyFormat, ReplyView, STATUS_OK};
use crate::sanitize::{escaped, lemma_escaped_no_quote};
use crate::user::{column_value, listing_page_text, row_lines, user_json_text, user_of_row, user_row, RowView, UserView};

verus! {

/// The users of `t` whose login is `login`, in table order.
pub open spec fn matching(t: Seq<UserView>, login: Seq<char>) -> Seq<UserView>
    decreases t.len(),
{
    if t.len() == 0 {
        Seq::empty()
    } else if t.last().login == login {
        matching(t.drop_last(), login).push(t.last())
    } else {
        matching(t.drop_last(), login)
    }
}

/// The users of `t` whose login is not `login`.
pub open spec fn without(t: Seq<UserView>, login: Seq<char>) -> Seq<UserView>
    decreases t.len(),
{
    if t.len() == 0 {
        Seq::empty()
    } else if t.last().login == login {
        without(t.drop_last(), login)
    } else {
        without(t.drop_last(), login).push(t.last())
    }
}

/// `t` with every user whose login is `login` replaced by `v`.
pub open spec fn replaced(t: Seq<UserView>, login: Seq<char>, v: UserView) -> Seq<UserView>
    decreases t.len(),
{
    if t.len() == 0 {
        Seq::empty()
    } else {
        replaced(t.drop_last(), login, v).push(if t.last().login == login { v } else { t.last() })
    }
}

/// The rows the table holds for a sequence of users.
pub open spec fn table_rows(us: Seq<UserView>) -> Seq<RowView> {
    us.map_values(|u: UserView| user_row(u))
}

proof fn lemma_no_match_untouched(t: Seq<UserView>, login: Seq<char>, v: UserView)
    requires
        matching(t, login).len() == 0,
    ensures
        without(t, login) == t,
        replaced(t, login, v) == t,
    decreases t.len(),
{
    if t.len() > 0 {
        if t.last().login == login {
            assert(matching(t, login).len() == matching(t.drop_last(), login).len() + 1);
        }
        lemma_no_match_untouched(t.drop_last(), login, v);
        assert(t.drop_last().push(t.last()) == t);
    }
}

proof fn lemma_user_row_reads_back(u: UserView)
    ensures
        user_of_row(user_row(u)) == Some(u),
        row_lines(user_row(u)) == "nome: "@ + u.nome + "<br>"@ + "login: "@ + u.login + "<br>"@
            + "senha: "@ + u.senha + "<br>"@,
{
    reveal_strlit("nome");
    reveal_strlit("login");
    reveal_strlit("senha");
    reveal_strlit(": ");
    reveal_strlit("nome: ");
    reveal_strlit("login: ");
    reveal_strlit("senha: ");
    assert("nome"@ + ": "@ =~= "nome: "@);
    assert("login"@ + ": "@ =~= "login: "@);
    assert("senha"@ + ": "@ =~= "senha: "@);
    let r = user_row(u);
    assert(r.drop_last().drop_last().drop_last() =~= Seq::<(Seq<char>, Option<Seq<char>>)>::empty());
    assert("nome"@.len() == 4 && "login"@.len() == 5 && "senha"@.len() == 5);
    assert("nome"@ != "login"@);
    assert("nome"@ != "senha"@);
    assert("login"@[0] == 'l' && "senha"@[0] == 's');
    assert("login"@ != "senha"@);
    assert(r.last() == ("senha"@, Some(u.senha)));
    assert(r.drop_last().last() == ("login"@, Some(u.login)));
    assert(r.drop_last().drop_last().last() == ("nome"@, Some(u.nome)));
    assert(column_value(r.drop_last().drop_last(), "nome"@) == Some(u.nome));
    assert(column_value(r.drop_last(), "nome"@) == Some(u.nome));
    assert(column_value(r, "nome"@) == Some(u.nome));
    assert(column_value(r.drop_last(), "login"@) == Some(u.login));
    assert(column_value(r, "login"@) == Some(u.login));
    assert(column_value(r, "senha"@) == Some(u.senha));
    let a = "nome: "@ + u.nome + "<br>"@;
    let b = "login: "@ + u.login + "<br>"@;
    let c = "senha: "@ + u.senha + "<br>"@;
    assert(row_lines(r.drop_last().drop_last().drop_last()) =~= Seq::<char>::empty());
    assert(row_lines(r.drop_last().drop_last()) =~= a);
    assert(row_lines(r.drop_last()) =~= a + b);
    assert(row_lines(r) =~= a + b + c);
}

/// Once a create has inserted a user under a login, a second create whose
/// body has the same login is refused with the conflict response, against
/// the table the insert left: the login is never silently overwritten.
pub proof fn lemma_login_stays_unique(
    table: Seq<UserView>,
    first: PayloadView,
    second: PayloadView,
    accept: Seq<char>,
)
    requires
        checked_user(first) is Ok,
        checked_user(second) is Ok,
        second.login == first.login,
    ensures
        ({
            let u = checked_user(first)->Ok_0;
            let v = checked_user(second)->Ok_0;
            &&& matching(table, u.login).len() == 0 ==> create_after_lookup(u, Some(0), accept)
                == StepView::Execute(insert_sql(u))
            &&& create_begin(second, accept) == StepView::Fetch(select_by_login_sql(u.login))
            &&& create_after_lookup(v, Some(matching(table.push(u), v.login).len()), accept)
                == StepView::Respond(status_reply("could not create user"@, conflict_detail(), accept))
        }),
{
    let u = checked_user(first)->Ok_0;
    assert(table.push(u).drop_last() == table);
}

/// A user created from a body can be read back under the body's login, once
/// the login was free: as the JSON object of the stored fields, or as the
/// HTML listing of its three columns. The stored fields are the body's
/// fields sanitized, which is the body's fields themselves where they hold
/// no quote.
pub proof fn lemma_created_user_reads_back(table: Seq<UserView>, p: PayloadView, accept: Seq<char>)
    requires
        checked_user(p) is Ok,
        matching(table, escaped(p.login->0)).len() == 0,
    ensures
        ({
            let u = checked_user(p)->Ok_0;
            let found = Some(table_rows(matching(table.push(u), escaped(p.login->0))));
            &&& u == UserView {
                nome: escaped(p.nome->0),
                login: escaped(p.login->0),
                senha: escaped(p.senha->0),
            }
            &&& create_begin(p, accept) == StepView::Fetch(select_by_login_sql(escaped(p.login->0)))
            &&& create_after_lookup(u, Some(0), accept) == StepView::Execute(insert_sql(u))
            &&& read_one_reply(found, accept) == if expects_json(accept) {
                ReplyView { status: STATUS_OK, format: BodyFormat::Json, body: user_json_text(u) }
            } else {
                ReplyView {
                    status: STATUS_OK,
                    format: BodyFormat::Html,
                    body: listing_page_text(
                        "nome: "@ + u.nome + "<br>"@ + "login: "@ + u.login + "<br>"@ + "senha: "@
                            + u.senha + "<br>"@,
                    ),
                }
            }
            &&& (forall|j: int| 0 <= j < p.nome->0.len() ==> p.nome->0[j] != '\'') ==> u.nome
                == p.nome->0
            &&& (forall|j: int| 0 <= j < p.login->0.len() ==> p.login->0[j] != '\'') ==> u.login
                == p.login->0
            &&& (forall|j: int| 0 <= j < p.senha->0.len() ==> p.senha->0[j] != '\'') ==> u.senha
                == p.senha->0
        }),
{
    let u = checked_user(p)->Ok_0;
    let t2 = table.push(u);
    assert(t2.drop_last() == table);
    assert(matching(t2, u.login) =~= seq![u]);
    let rows = table_rows(matching(t2, u.login));
    assert(rows.len() == 1);
    assert(rows[0] == user_row(u));
    lemma_user_row_reads_back(u);
    if forall|j: int| 0 <= j < p.nome->0.len() ==> p.nome->0[j] != '\'' {
        lemma_escaped_no_quote(p.nome->0);
    }
    if forall|j: int| 0 <= j < p.login->0.len() ==> p.login->0[j] != '\'' {
        lemma_escaped_no_quote(p.login->0);
    }
    if forall|j: int| 0 <= j < p.senha->0.len() ==> p.senha->0[j] != '\'' {
        lemma_escaped_no_quote(p.senha->0);
    }
}

/// A body with three string fields gives a user exactly when the sanitized
/// `nome` has at most 50 characters and the sanitized `login` and `senha` at
/// most 30 each; otherwise the create and the update are refused with the
/// length response.
pub proof fn lemma_length_limits(p: PayloadView, login: Seq<char>, accept: Seq<char>)
    requires
        p.nome is Some,
        p.login is Some,
        p.senha is Some,
    ensures
        (checked_user(p) is Ok) <==> (escaped(p.nome->0).len() <= 50 && escaped(p.login->0).len()
            <= 30 && escaped(p.senha->0).len() <= 30),
        !(checked_user(p) is Ok) ==> create_begin(p, accept) == StepView::Respond(
            input_error_reply("could not create user"@, InputError::TooLong, accept),
        ),
        !(checked_user(p) is Ok) ==> update_begin(login, p, accept)
            == StepView::Respond(input_error_reply("could not update user"@, InputError::TooLong, accept)),
{
    assert(MAX_NOME_LEN == 50 && MAX_LOGIN_LEN == 30);
}

/// A delete or an update of a login that no user has leaves the table as it
/// was, changes no row, and is answered with the not-found response.
pub proof fn lemma_missing_login_untouched(
    table: Seq<UserView>,
    login: Seq<char>,
    v: UserView,
    accept: Seq<char>,
)
    requires
        matching(table, escaped(login)).len() == 0,
    ensures
        without(table, escaped(login)) == table,
        replaced(table, escaped(login), v) == table,
        delete_reply(Some(matching(table, escaped(login)).len() as u64), accept) == status_reply(
            "could not delete user"@,
            "user not found"@,
            accept,
        ),
        update_reply(Some(matching(table, escaped(login)).len() as u64), accept) == status_reply(
            "could not update user"@,
            "user not found"@,
            accept,
        ),
{
    lemma_no_match_untouched(table, escaped(login), v);
}

} // verus!
