use dino_park_lookout::dispatch::{Action, Dispatch, Event, Stage, Turn};
use dino_park_lookout::error::UpdateError;
use dino_park_lookout::notification::Flow;
use dino_park_lookout::plan::{plan_bulk, plan_delete, plan_update, targets};
use dino_park_lookout::request::{join, Body, Method, Part, Reply, Request, Target};
use dino_park_lookout::settings::DinoParkSettings;

fn settings(groups: bool) -> DinoParkSettings {
    let optional = |url: &str| if groups { Some(String::from(url)) } else { None };
    DinoParkSettings {
        search_update_endpoint: String::from("http://search/update"),
        orgchart_update_endpoint: String::from("http://orgchart/update"),
        groups_update_endpoint: optional("http://groups/update"),
        search_bulk_endpoint: String::from("http://search/bulk"),
        orgchart_bulk_endpoint: String::from("http://orgchart/bulk"),
        groups_bulk_endpoint: optional("http://groups/bulk"),
        search_delete_endpoint: String::from("http://search/delete"),
        orgchart_delete_endpoint: String::from("http://orgchart/delete"),
        picture_delete_endpoint: String::from("http://pictures/delete"),
        groups_delete_endpoint: optional("http://groups/delete"),
        uuid_by_user_id_endpoint: String::from("http://orgchart/uuid"),
    }
}

fn post(target: Target, url: &str, body: Body) -> Request {
    Request { target, method: Method::Post, url: String::from(url), body }
}

fn data(text: &str) -> Body {
    Body::Form(Part {
        name: String::from("data"),
        file_name: String::from("data"),
        mime: String::from("application/json"),
        text: String::from(text),
    })
}

#[test]
fn join_puts_one_slash_between() {
    assert_eq!(join("http://orgchart/delete", "u1"), "http://orgchart/delete/u1");
    assert_eq!(join("http://orgchart/delete/", "u1"), "http://orgchart/delete//u1");
    assert_eq!(join("", ""), "/");
    assert_eq!(join("a", "b/c"), "a/b/c");
}

#[test]
fn update_goes_to_orgchart_and_search() {
    let json = || Body::Json(String::from("{\"a\":1}"));
    assert_eq!(
        plan_update(&settings(false), &String::from("{\"a\":1}")),
        vec![
            post(Target::Orgchart, "http://orgchart/update", json()),
            post(Target::Search, "http://search/update", json()),
        ]
    );
}

#[test]
fn update_goes_to_groups_where_configured() {
    let json = || Body::Json(String::from("{\"a\":1}"));
    assert_eq!(
        plan_update(&settings(true), &String::from("{\"a\":1}")),
        vec![
            post(Target::Orgchart, "http://orgchart/update", json()),
            post(Target::Search, "http://search/update", json()),
            post(Target::Groups, "http://groups/update", json()),
        ]
    );
}

#[test]
fn delete_goes_to_three_services() {
    assert_eq!(
        plan_delete(&settings(false), &String::from("u1")),
        vec![
            post(Target::Orgchart, "http://orgchart/delete/u1", Body::Empty),
            post(Target::Search, "http://search/delete/u1", Body::Empty),
            post(Target::Pictures, "http://pictures/delete/u1", Body::Empty),
        ]
    );
}

#[test]
fn delete_goes_to_groups_by_delete_where_configured() {
    assert_eq!(
        plan_delete(&settings(true), &String::from("u1")),
        vec![
            post(Target::Orgchart, "http://orgchart/delete/u1", Body::Empty),
            post(Target::Search, "http://search/delete/u1", Body::Empty),
            post(Target::Pictures, "http://pictures/delete/u1", Body::Empty),
            Request {
                target: Target::Groups,
                method: Method::Delete,
                url: String::from("http://groups/delete/u1"),
                body: Body::Empty,
            },
        ]
    );
}

#[test]
fn bulk_goes_out_as_a_data_part() {
    assert_eq!(
        plan_bulk(&settings(false), &String::from("[{},{}]")),
        vec![
            post(Target::Orgchart, "http://orgchart/bulk", data("[{},{}]")),
            post(Target::Search, "http://search/bulk", data("[{},{}]")),
        ]
    );
    assert_eq!(
        plan_bulk(&settings(true), &String::from("[]")),
        vec![
            post(Target::Orgchart, "http://orgchart/bulk", data("[]")),
            post(Target::Search, "http://search/bulk", data("[]")),
            post(Target::Groups, "http://groups/bulk", data("[]")),
        ]
    );
}

#[test]
fn targets_follow_the_plan() {
    assert_eq!(
        targets(&plan_delete(&settings(true), &String::from("u"))),
        vec![Target::Orgchart, Target::Search, Target::Pictures, Target::Groups]
    );
    assert_eq!(
        targets(&plan_update(&settings(false), &String::from("{}"))),
        vec![Target::Orgchart, Target::Search]
    );
    assert_eq!(targets(&vec![]), vec![]);
}

#[test]
fn only_2xx_is_an_acknowledgement() {
    assert!(Reply::Status(200).acknowledged());
    assert!(Reply::Status(204).acknowledged());
    assert!(Reply::Status(299).acknowledged());
    assert!(!Reply::Status(199).acknowledged());
    assert!(!Reply::Status(300).acknowledged());
    assert!(!Reply::Status(404).acknowledged());
    assert!(!Reply::Status(500).acknowledged());
    assert!(!Reply::Status(0).acknowledged());
    assert!(!Reply::Failed(String::from("200")).acknowledged());
}

fn sending(flow: Flow, pending: Vec<Target>) -> Dispatch {
    Dispatch { flow, stage: Stage::Sending, id: String::from("id"), pending }
}

#[test]
fn acknowledged_calls_leave_no_failures() {
    let dp = settings(false);
    let all = vec![Target::Orgchart, Target::Search, Target::Pictures];
    let replies = vec![Reply::Status(200), Reply::Status(201), Reply::Status(204)];
    let turn = sending(Flow::Delete, all).step(&dp, Event::Replies(replies));
    assert_eq!(turn, Turn { action: Action::Finish(Ok(())), failures: vec![] });
    let turn = sending(Flow::Upsert, vec![]).step(&dp, Event::Replies(vec![]));
    assert_eq!(turn, Turn { action: Action::Finish(Ok(())), failures: vec![] });
}

#[test]
fn failures_are_tagged_with_the_service_in_order() {
    let dp = settings(false);
    let all = vec![Target::Orgchart, Target::Search, Target::Pictures, Target::Groups];
    let replies = vec![
        Reply::Status(500),
        Reply::Status(200),
        Reply::Failed(String::from("timed out")),
        Reply::Status(404),
    ];
    assert_eq!(
        sending(Flow::Delete, all).step(&dp, Event::Replies(replies)).failures,
        vec![
            UpdateError::OrgchartDelete(Reply::Status(500)),
            UpdateError::PicturesDelete(Reply::Failed(String::from("timed out"))),
            UpdateError::GroupsDelete(Reply::Status(404)),
        ]
    );
}

#[test]
fn failures_of_a_push_are_update_errors() {
    let dp = settings(false);
    let all = || vec![Target::Orgchart, Target::Search, Target::Groups];
    let replies = || {
        vec![
            Reply::Failed(String::from("a")),
            Reply::Failed(String::from("b")),
            Reply::Failed(String::from("c")),
        ]
    };
    let expected = vec![
        UpdateError::OrgchartUpdate(Reply::Failed(String::from("a"))),
        UpdateError::SearchUpdate(Reply::Failed(String::from("b"))),
        UpdateError::GroupsUpdate(Reply::Failed(String::from("c"))),
    ];
    assert_eq!(sending(Flow::Upsert, all()).step(&dp, Event::Replies(replies())).failures, expected);
    assert_eq!(sending(Flow::Bulk, all()).step(&dp, Event::Replies(replies())).failures, expected);
}

#[test]
fn unacknowledged_picture_push_is_a_plain_failure() {
    let dp = settings(false);
    let turn = sending(Flow::Upsert, vec![Target::Pictures])
        .step(&dp, Event::Replies(vec![Reply::Status(500)]));
    assert_eq!(
        turn,
        Turn { action: Action::Finish(Err(UpdateError::Other)), failures: vec![UpdateError::Other] }
    );
}
