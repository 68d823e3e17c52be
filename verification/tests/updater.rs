use dino_park_lookout::bulk::Bulk;
use dino_park_lookout::dispatch::{Action, Stage};
use dino_park_lookout::notification::{Flow, Notification, Operation};
use dino_park_lookout::settings::DinoParkSettings;
use dino_park_lookout::updater::{InternalUpdater, Round, UpdateMessage, Work};

fn settings() -> DinoParkSettings {
    DinoParkSettings {
        search_update_endpoint: String::from("http://search/update"),
        orgchart_update_endpoint: String::from("http://orgchart/update"),
        groups_update_endpoint: None,
        search_bulk_endpoint: String::from("http://search/bulk"),
        orgchart_bulk_endpoint: String::from("http://orgchart/bulk"),
        groups_bulk_endpoint: None,
        search_delete_endpoint: String::from("http://search/delete"),
        orgchart_delete_endpoint: String::from("http://orgchart/delete"),
        picture_delete_endpoint: String::from("http://pictures/delete"),
        groups_delete_endpoint: None,
        uuid_by_user_id_endpoint: String::from("http://orgchart/uuid"),
    }
}

fn notification(operation: Operation, id: &str) -> Notification {
    Notification { operation, id: String::from(id), time: 0 }
}

fn message(operation: Operation, id: &str) -> UpdateMessage {
    UpdateMessage::Notification(notification(operation, id))
}

#[test]
fn new_keeps_the_settings() {
    assert_eq!(InternalUpdater::new(settings()).dino_park_settings, settings());
}

#[test]
fn empty_backlog_is_no_work() {
    let round = InternalUpdater::new(settings()).run(vec![]);
    assert_eq!(round, Round { work: vec![], stopped: false });
}

#[test]
fn each_operation_goes_its_way() {
    let backlog = vec![
        message(Operation::Create, "a"),
        message(Operation::Update, "b"),
        message(Operation::Delete, "c"),
        message(Operation::Unknown, "d"),
        UpdateMessage::Bulk(Bulk {}),
    ];
    let round = InternalUpdater::new(settings()).run(backlog);
    assert_eq!(
        round,
        Round {
            work: vec![
                Work::Update(notification(Operation::Create, "a")),
                Work::Update(notification(Operation::Update, "b")),
                Work::Delete(notification(Operation::Delete, "c")),
                Work::Delete(notification(Operation::Unknown, "d")),
                Work::Bulk,
            ],
            stopped: false,
        }
    );
}

#[test]
fn same_notification_twice_is_dispatched_twice() {
    let backlog = vec![message(Operation::Update, "a"), message(Operation::Update, "a")];
    let round = InternalUpdater::new(settings()).run(backlog);
    assert_eq!(
        round.work,
        vec![
            Work::Update(notification(Operation::Update, "a")),
            Work::Update(notification(Operation::Update, "a")),
        ]
    );
    assert!(!round.stopped);
}

#[test]
fn stop_ends_the_round_and_leaves_the_rest() {
    let backlog = vec![
        message(Operation::Update, "a"),
        UpdateMessage::Stop,
        message(Operation::Delete, "b"),
        UpdateMessage::Bulk(Bulk {}),
        UpdateMessage::Stop,
    ];
    let round = InternalUpdater::new(settings()).run(backlog);
    assert_eq!(
        round,
        Round { work: vec![Work::Update(notification(Operation::Update, "a"))], stopped: true }
    );
}

#[test]
fn stop_alone_is_no_work() {
    let round = InternalUpdater::new(settings()).run(vec![UpdateMessage::Stop]);
    assert_eq!(round, Round { work: vec![], stopped: true });
}

#[test]
fn only_bulk_work_is_detached() {
    assert!(Work::Bulk.detached());
    assert!(!Work::Delete(notification(Operation::Delete, "a")).detached());
    assert!(!Work::Update(notification(Operation::Update, "a")).detached());
}

#[test]
fn work_starts_its_flow() {
    let updater = InternalUpdater::new(settings());
    let (dispatch, action) = updater.start(&Work::Delete(notification(Operation::Unknown, "a")));
    assert_eq!(dispatch.flow, Flow::Delete);
    assert_eq!(dispatch.stage, Stage::Resolving);
    assert_eq!(action, Action::Resolve(String::from("http://orgchart/uuid/a")));

    let (dispatch, action) = updater.start(&Work::Update(notification(Operation::Create, "b")));
    assert_eq!(dispatch.flow, Flow::Upsert);
    assert_eq!(dispatch.stage, Stage::FetchingActive);
    assert_eq!(action, Action::FetchActive(String::from("b")));

    let (dispatch, action) = updater.start(&Work::Bulk);
    assert_eq!(dispatch.flow, Flow::Bulk);
    assert_eq!(dispatch.stage, Stage::Opening);
    assert_eq!(dispatch.id, "");
    assert_eq!(action, Action::OpenPages);
}
