use users_backend::error::StoreError;
use users_backend::handlers::{
    add_user, after_read, after_write, begin, delete_user, get_users, update_user, Followup,
    Request, Step,
};
use users_backend::response::{Body, Response};
use users_backend::statement::{Param, Statement};
use users_backend::user::User;

fn payload(name: &str, email: &str) -> User {
    User::new(name.to_string(), email.to_string())
}

fn failed(message: &str) -> StoreError {
    StoreError::new(message.to_string())
}

#[test]
fn add_user_inserts_name_and_email_then_lists() {
    let step = add_user(payload("Ann", "ann@x.com"));
    assert_eq!(
        step,
        Step::Write {
            statement: Statement::InsertUser {
                name: "Ann".to_string(),
                email: "ann@x.com".to_string()
            },
            then: Followup::ListUsers,
        }
    );
}

#[test]
fn add_user_drops_the_id_of_the_payload() {
    let with_id = User { id: Some(5), name: "Ann".to_string(), email: "ann@x.com".to_string() };
    assert_eq!(add_user(with_id), add_user(payload("Ann", "ann@x.com")));
}

#[test]
fn get_users_reads_the_table() {
    assert_eq!(get_users(), Step::Read { statement: Statement::SelectUsers });
}

#[test]
fn update_user_takes_the_id_of_the_path() {
    let user = User { id: Some(9), name: "Ann B".to_string(), email: "annb@x.com".to_string() };
    assert_eq!(
        update_user(1, user),
        Step::Write {
            statement: Statement::UpdateUser {
                id: 1,
                name: "Ann B".to_string(),
                email: "annb@x.com".to_string()
            },
            then: Followup::ListUsers,
        }
    );
}

#[test]
fn delete_user_deletes_and_answers_without_a_list() {
    assert_eq!(
        delete_user(4),
        Step::Write { statement: Statement::DeleteUser { id: 4 }, then: Followup::NoContent }
    );
}

#[test]
fn begin_routes_each_request_to_its_handler() {
    assert_eq!(
        begin(Request::AddUser { user: payload("a", "b") }),
        add_user(payload("a", "b"))
    );
    assert_eq!(begin(Request::GetUsers), get_users());
    assert_eq!(
        begin(Request::UpdateUser { id: 3, user: payload("a", "b") }),
        update_user(3, payload("a", "b"))
    );
    assert_eq!(begin(Request::DeleteUser { id: 3 }), delete_user(3));
}

#[test]
fn the_first_statement_binds_the_text_and_never_splices_it() {
    let probe = "'; DROP TABLE users; --";
    let plain = match add_user(payload("Ann", "ann@x.com")) {
        Step::Write { statement, .. } => statement,
        other => panic!("unexpected step {other:?}"),
    };
    let probing = match add_user(payload(probe, probe)) {
        Step::Write { statement, .. } => statement,
        other => panic!("unexpected step {other:?}"),
    };
    assert_eq!(probing.sql(), plain.sql());
    assert_eq!(probing.sql(), "INSERT INTO users (name, email) VALUES ($1, $2)");
    assert_eq!(
        probing.params(),
        vec![Param::Text(probe.to_string()), Param::Text(probe.to_string())]
    );
}

#[test]
fn a_failed_write_ends_with_500_and_the_text() {
    for then in [Followup::ListUsers, Followup::NoContent] {
        assert_eq!(
            after_write(then, Err(failed("db error"))),
            Step::Done {
                response: Response { status: 500, body: Body::Text("db error".to_string()) }
            }
        );
    }
}

#[test]
fn a_write_that_went_through_is_followed_by_the_list() {
    for count in [0, 1, 2, u64::MAX] {
        assert_eq!(
            after_write(Followup::ListUsers, Ok(count)),
            Step::Read { statement: Statement::SelectUsers }
        );
    }
}

#[test]
fn a_delete_that_went_through_ends_with_204_whatever_it_matched() {
    for count in [0, 1, 7] {
        assert_eq!(
            after_write(Followup::NoContent, Ok(count)),
            Step::Done { response: Response { status: 204, body: Body::Empty } }
        );
    }
}

#[test]
fn a_read_ends_with_200_and_the_rows() {
    let users = vec![
        User { id: Some(2), name: "b".to_string(), email: "b@x.com".to_string() },
        User { id: Some(1), name: "a".to_string(), email: "a@x.com".to_string() },
    ];
    assert_eq!(
        after_read(Ok(users.clone())),
        Response { status: 200, body: Body::Users(users) }
    );
    assert_eq!(after_read(Ok(vec![])), Response { status: 200, body: Body::Users(vec![]) });
}

#[test]
fn a_failed_read_ends_with_500_and_the_text() {
    assert_eq!(
        after_read(Err(failed("connection closed"))),
        Response { status: 500, body: Body::Text("connection closed".to_string()) }
    );
}
