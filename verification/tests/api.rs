use money_map::common::api_result::ApiResult;
use money_map::common::database::DB;
use money_map::common::mm_result::{MMError, MMErrorKind};
use money_map::controllers::accounts_controller::AccountsController;
use money_map::controllers::money_map_users_controller::MoneyMapUsersController;
use money_map::controllers::money_maps_controller::MoneyMapsController;
use money_map::common::config::Config;
use money_map::dao::dao_manager::DAOManager;
use money_map::dao::money_map_dao::{document_to_model, MoneyMapDAO};
use money_map::dao::user_dao::UserDAO;
use money_map::models::account_model::AccountModel;
use money_map::models::money_map_model::MoneyMapModel;
use money_map::models::money_map_user_model::InMoneyMapUserModel;
use money_map::models::user_model::UserModel;
use money_map::store::collection::Store;
use money_map::store::document::{Document, EmbeddedDocument, Scalar, Value};
use money_map::store::object_id::ObjectId;

const U1: &str = "000000000000000000000000";
const U2: &str = "000000000000000000000001";
const MAP0: &str = "000000000000000000000000";

fn test_config() -> Config {
    Config::new("localhost", 6767)
}

fn user(first: &str, email: &str) -> UserModel {
    UserModel {
        id: None,
        first_name: Some(first.to_owned()),
        last_name: Some("Tester".to_owned()),
        email: Some(email.to_owned()),
        password: Some("secret-hash".to_owned()),
    }
}

/// A store seeded with two users whose identifiers read back as `U1`, `U2`.
fn seeded_store() -> Store {
    let mut store = Store::new();
    let dao = UserDAO::new();
    dao.create(&mut store, &user("Ada", "ada@example.com")).expect("seed user");
    dao.create(&mut store, &user("Ben", "ben@example.com")).expect("seed user");
    store
}

fn session(uid: &str) -> Result<String, MMError> {
    Ok(uid.to_owned())
}

fn map_payload(name: &str) -> MoneyMapModel {
    MoneyMapModel { id: None, name: Some(name.to_owned()), users: None }
}

fn account_payload(name: &str, kind: &str) -> AccountModel {
    AccountModel {
        id: None,
        money_map_id: None,
        name: Some(name.to_owned()),
        account_type: Some(kind.to_owned()),
    }
}

#[test]
fn create_money_map_seeds_exactly_one_owner() {
    let store = seeded_store();
    let mut mm = MoneyMapsController::new(DAOManager::new(DB::with_database(store)), test_config());
    match mm.create(session(U1), Some(map_payload("Household"))) {
        ApiResult::Success { result } => {
            let id = result.id.expect("created map carries its identifier");
            assert_eq!(id.value, 0);
            assert_eq!(result.name.as_deref(), Some("Household"));
            let users = result.users.expect("owner details joined on");
            assert_eq!(users.len(), 1);
            assert!(users[0].owner);
            let owner = users[0].user.as_ref().expect("owner user details");
            assert_eq!(owner.email.as_deref(), Some("ada@example.com"));
            assert_eq!(owner.id, Some(ObjectId { value: 0 }));
        },
        _ => panic!("expected Success"),
    }
}

#[test]
fn created_map_visible_to_owner_with_one_owner_record() {
    let store = seeded_store();
    let mut mm = MoneyMapsController::new(DAOManager::new(DB::with_database(store)), test_config());
    match mm.create(session(U1), Some(map_payload("Household"))) {
        ApiResult::Success { .. } => {},
        _ => panic!("expected Success"),
    }
    let store = mm.dao_manager.db.database.take().expect("store back");
    let dao = MoneyMapDAO::new();
    let map_id = ObjectId::with_string(MAP0).expect("map id");
    let filter = money_map::controllers::scope::mm_scope_filter(map_id, U1);
    let found = dao.find_one(&store, &filter).expect("owner sees the map");
    let users = found.users.expect("membership list read back");
    assert_eq!(users.len(), 1);
    assert!(users[0].owner);
    assert_eq!(users[0].user.as_ref().unwrap().id, Some(ObjectId { value: 0 }));
}

#[test]
fn non_member_cannot_observe_a_map() {
    let store = seeded_store();
    let mut mm = MoneyMapsController::new(DAOManager::new(DB::with_database(store)), test_config());
    match mm.create(session(U1), Some(map_payload("Household"))) {
        ApiResult::Success { .. } => {},
        _ => panic!("expected Success"),
    }
    let store = mm.dao_manager.db.database.take().expect("store back");
    let mut accounts = AccountsController::new(
        DAOManager::new(DB::with_database(store)),
        test_config(),
    );
    // A non-member gets the same answer an absent map would give.
    match accounts.create(session(U2), MAP0.to_owned(), Some(account_payload("Checking", "savings"))) {
        ApiResult::Failure { msg } => assert_eq!(msg, "Unable to find money map."),
        _ => panic!("expected Failure"),
    }
    // A map id that was never assigned gives the very same message.
    match accounts.create(
        session(U2),
        "00000000000000000000ffff".to_owned(),
        Some(account_payload("Checking", "savings")),
    ) {
        ApiResult::Failure { msg } => assert_eq!(msg, "Unable to find money map."),
        _ => panic!("expected Failure"),
    }
}

#[test]
fn malformed_map_id_is_reported() {
    let store = seeded_store();
    let mut accounts = AccountsController::new(
        DAOManager::new(DB::with_database(store)),
        test_config(),
    );
    match accounts.create(session(U1), "xyz".to_owned(), Some(account_payload("Checking", "savings"))) {
        ApiResult::Failure { msg } => assert_eq!(msg, "Failed to find money map. Invalid ID."),
        _ => panic!("expected Failure"),
    }
}

#[test]
fn invalid_account_payload_is_echoed_and_changes_nothing() {
    let store = seeded_store();
    let mut mm = MoneyMapsController::new(DAOManager::new(DB::with_database(store)), test_config());
    match mm.create(session(U1), Some(map_payload("Household"))) {
        ApiResult::Success { .. } => {},
        _ => panic!("expected Success"),
    }
    let store = mm.dao_manager.db.database.take().expect("store back");
    let docs_before = store.accounts.documents.len();
    let mut accounts = AccountsController::new(
        DAOManager::new(DB::with_database(store)),
        test_config(),
    );
    let incomplete = AccountModel {
        id: None,
        money_map_id: None,
        name: None,
        account_type: Some("savings".to_owned()),
    };
    match accounts.create(session(U1), MAP0.to_owned(), Some(incomplete)) {
        ApiResult::Invalid { validation, request } => {
            assert!(!validation.errors.is_empty());
            assert_eq!(validation.errors[0].0, "name");
            assert_eq!(validation.errors[0].1, "Name is required.");
            assert_eq!(request.name, None);
            assert_eq!(request.account_type.as_deref(), Some("savings"));
        },
        _ => panic!("expected Invalid"),
    }
    let store = accounts.dao_manager.db.database.take().expect("store back");
    assert_eq!(store.accounts.documents.len(), docs_before);
}

#[test]
fn member_creates_account_under_the_map() {
    let store = seeded_store();
    let mut mm = MoneyMapsController::new(DAOManager::new(DB::with_database(store)), test_config());
    match mm.create(session(U1), Some(map_payload("Household"))) {
        ApiResult::Success { .. } => {},
        _ => panic!("expected Success"),
    }
    let store = mm.dao_manager.db.database.take().expect("store back");
    let mut accounts = AccountsController::new(
        DAOManager::new(DB::with_database(store)),
        test_config(),
    );
    match accounts.create(session(U1), MAP0.to_owned(), Some(account_payload("Checking", "savings"))) {
        ApiResult::Success { result } => {
            assert_eq!(result.id, Some(ObjectId { value: 0 }));
            assert_eq!(result.money_map_id, Some(ObjectId { value: 0 }));
            assert_eq!(result.name.as_deref(), Some("Checking"));
            assert_eq!(result.account_type.as_deref(), Some("savings"));
        },
        _ => panic!("expected Success"),
    }
    let store = accounts.dao_manager.db.database.take().expect("store back");
    assert_eq!(store.accounts.documents.len(), 1);
}

#[test]
fn delete_is_soft_and_hides_the_map() {
    let store = seeded_store();
    let mut mm = MoneyMapsController::new(DAOManager::new(DB::with_database(store)), test_config());
    match mm.create(session(U1), Some(map_payload("Household"))) {
        ApiResult::Success { .. } => {},
        _ => panic!("expected Success"),
    }
    match mm.delete(MAP0) {
        ApiResult::Success { result } => assert_eq!(result, "Successfully deleted money map"),
        _ => panic!("expected Success"),
    }
    // The document is still physically present...
    assert_eq!(
        mm.dao_manager.db.database.as_ref().unwrap().money_maps.documents.len(),
        1,
    );
    // ...but no scoped read returns it any more.
    match mm.find(session(U1)) {
        ApiResult::Success { result } => assert!(result.is_empty()),
        _ => panic!("expected Success"),
    }
    // Deleting it again modifies nothing and fails.
    match mm.delete(MAP0) {
        ApiResult::Failure { msg } => assert_eq!(msg, "Unable to delete money map"),
        _ => panic!("expected Failure"),
    }
    // Deleting an id that was never assigned also fails.
    match mm.delete("00000000000000000000ffff") {
        ApiResult::Failure { msg } => assert_eq!(msg, "Unable to delete money map"),
        _ => panic!("expected Failure"),
    }
    // A malformed id is its own failure.
    match mm.delete("not-an-id") {
        ApiResult::Failure { msg } => assert_eq!(msg, "Malformed ID"),
        _ => panic!("expected Failure"),
    }
}

#[test]
fn update_is_idempotent_on_the_stored_state() {
    let store = seeded_store();
    let mut mm = MoneyMapsController::new(DAOManager::new(DB::with_database(store)), test_config());
    match mm.create(session(U1), Some(map_payload("Household"))) {
        ApiResult::Success { .. } => {},
        _ => panic!("expected Success"),
    }
    let mut store = mm.dao_manager.db.database.take().expect("store back");
    let dao = MoneyMapDAO::new();
    let map_id = ObjectId::with_string(MAP0).expect("map id");
    let filter = money_map::controllers::scope::by_id_filter(map_id);
    let mut fetched = dao.find_one(&store, &filter).expect("map on file");
    fetched.name = Some("Shared budget".to_owned());
    let once = dao.update(&mut store, &fetched).expect("first update");
    assert_eq!(once.name.as_deref(), Some("Shared budget"));
    let first_doc_count = store.money_maps.documents.len();
    let twice = dao.update(&mut store, &once).expect("second update");
    assert_eq!(twice.name.as_deref(), Some("Shared budget"));
    assert_eq!(store.money_maps.documents.len(), first_doc_count);
    let reread = dao.find_one(&store, &filter).expect("map still on file");
    assert_eq!(reread.name.as_deref(), Some("Shared budget"));
}

#[test]
fn update_of_an_absent_map_fails() {
    let mut store = seeded_store();
    let dao = MoneyMapDAO::new();
    let ghost_map = MoneyMapModel {
        id: Some(ObjectId { value: 77 }),
        name: Some("Nobody".to_owned()),
        users: None,
    };
    match dao.update(&mut store, &ghost_map) {
        Err(e) => {
            assert_eq!(e.get_message(), "Unable to save money map");
            assert_eq!(e.get_kind(), MMErrorKind::DAO);
        },
        Ok(_) => panic!("expected Err"),
    }
}

#[test]
fn membership_listing_is_scoped_to_members() {
    let store = seeded_store();
    let mut mm = MoneyMapsController::new(DAOManager::new(DB::with_database(store)), test_config());
    match mm.create(session(U1), Some(map_payload("Household"))) {
        ApiResult::Success { .. } => {},
        _ => panic!("expected Success"),
    }
    let store = mm.dao_manager.db.database.take().expect("store back");
    let users_controller = MoneyMapUsersController::new(
        DAOManager::new(DB::with_database(store)),
        test_config(),
    );
    match users_controller.find(session(U1), MAP0) {
        ApiResult::Success { result } => {
            assert_eq!(result.len(), 1);
            assert!(result[0].owner);
            let detail = result[0].user.as_ref().expect("joined user details");
            assert_eq!(detail.first_name.as_deref(), Some("Ada"));
            assert_eq!(detail.email.as_deref(), Some("ada@example.com"));
        },
        _ => panic!("expected Success"),
    }
    match users_controller.find(session(U2), MAP0) {
        ApiResult::Failure { msg } => assert_eq!(msg, "Unable to find money map."),
        _ => panic!("expected Failure"),
    }
    match users_controller.find(session(U1), "zzz") {
        ApiResult::Failure { msg } => assert_eq!(msg, "Failed to find money map. Invalid ID."),
        _ => panic!("expected Failure"),
    }
}

#[test]
fn membership_add_validates_and_does_not_persist() {
    let store = seeded_store();
    let mut mm = MoneyMapsController::new(DAOManager::new(DB::with_database(store)), test_config());
    match mm.create(session(U1), Some(map_payload("Household"))) {
        ApiResult::Success { .. } => {},
        _ => panic!("expected Success"),
    }
    let store = mm.dao_manager.db.database.take().expect("store back");
    let users_controller = MoneyMapUsersController::new(
        DAOManager::new(DB::with_database(store)),
        test_config(),
    );
    // A payload referencing an unknown user is invalid and echoed back.
    let unknown = InMoneyMapUserModel { email: Some("nobody@example.com".to_owned()) };
    match users_controller.add(session(U1), MAP0.to_owned(), Some(unknown)) {
        ApiResult::Invalid { validation, request } => {
            assert_eq!(validation.errors.len(), 1);
            assert_eq!(validation.errors[0].0, "email");
            assert_eq!(request.email.as_deref(), Some("nobody@example.com"));
        },
        _ => panic!("expected Invalid"),
    }
    // A valid payload is authorized and validated, then reported unsupported.
    let known = InMoneyMapUserModel { email: Some("ben@example.com".to_owned()) };
    match users_controller.add(session(U1), MAP0.to_owned(), Some(known)) {
        ApiResult::Failure { msg } => assert_eq!(msg, "Money map user updates are not supported"),
        _ => panic!("expected Failure"),
    }
    // A non-member cannot even observe the map.
    let known2 = InMoneyMapUserModel { email: Some("ben@example.com".to_owned()) };
    match users_controller.add(session(U2), MAP0.to_owned(), Some(known2)) {
        ApiResult::Failure { msg } => assert_eq!(msg, "Unable to find money map."),
        _ => panic!("expected Failure"),
    }
    match users_controller.delete(MAP0, U2) {
        ApiResult::Failure { msg } => assert_eq!(msg, "Money map user updates are not supported"),
        _ => panic!("expected Failure"),
    }
}

#[test]
fn find_lists_only_the_callers_maps() {
    let store = seeded_store();
    let mut mm = MoneyMapsController::new(DAOManager::new(DB::with_database(store)), test_config());
    match mm.create(session(U1), Some(map_payload("Household"))) {
        ApiResult::Success { .. } => {},
        _ => panic!("expected Success"),
    }
    match mm.create(session(U2), Some(map_payload("Travel"))) {
        ApiResult::Success { .. } => {},
        _ => panic!("expected Success"),
    }
    match mm.find(session(U1)) {
        ApiResult::Success { result } => {
            assert_eq!(result.len(), 1);
            assert_eq!(result[0].name.as_deref(), Some("Household"));
            let users = result[0].users.as_ref().expect("joined users");
            assert_eq!(users.len(), 1);
            assert_eq!(
                users[0].user.as_ref().unwrap().email.as_deref(),
                Some("ada@example.com"),
            );
        },
        _ => panic!("expected Success"),
    }
}

#[test]
fn session_and_connection_failures_are_reported() {
    let store = seeded_store();
    let mut mm = MoneyMapsController::new(DAOManager::new(DB::with_database(store)), test_config());
    match mm.find(Err(MMError::new("bad token", MMErrorKind::Auth))) {
        ApiResult::Failure { msg } => assert_eq!(msg, "Unable to retrieve session data."),
        _ => panic!("expected Failure"),
    }
    let mut disconnected = MoneyMapsController::new(
        DAOManager::new(DB::disconnected()),
        test_config(),
    );
    match disconnected.find(session(U1)) {
        ApiResult::Failure { msg } => assert_eq!(msg, "Unable to interact with database"),
        _ => panic!("expected Failure"),
    }
    match disconnected.create(session(U1), Some(map_payload("Household"))) {
        ApiResult::Failure { msg } => assert_eq!(msg, "Unable to interact with database"),
        _ => panic!("expected Failure"),
    }
    match disconnected.delete(MAP0) {
        ApiResult::Failure { msg } => assert_eq!(msg, "Unable to interact with database"),
        _ => panic!("expected Failure"),
    }
    match mm.create(session(U1), None) {
        ApiResult::Failure { msg } => assert_eq!(msg, "Invalid format. Unable to parse data."),
        _ => panic!("expected Failure"),
    }
}

#[test]
fn invalid_money_map_payload_is_rejected_without_side_effect() {
    let store = seeded_store();
    let docs_before = store.money_maps.documents.len();
    let mut mm = MoneyMapsController::new(DAOManager::new(DB::with_database(store)), test_config());
    let nameless = MoneyMapModel { id: None, name: None, users: None };
    match mm.create(session(U1), Some(nameless)) {
        ApiResult::Invalid { validation, request } => {
            assert_eq!(validation.errors.len(), 1);
            assert_eq!(validation.errors[0].0, "name");
            assert_eq!(validation.errors[0].1, "Name is required.");
            assert_eq!(request.name, None);
        },
        _ => panic!("expected Invalid"),
    }
    let empty_name = MoneyMapModel { id: None, name: Some(String::new()), users: None };
    match mm.create(session(U1), Some(empty_name)) {
        ApiResult::Invalid { validation, .. } => {
            assert_eq!(validation.errors.len(), 1);
        },
        _ => panic!("expected Invalid"),
    }
    let store = mm.dao_manager.db.database.take().expect("store back");
    assert_eq!(store.money_maps.documents.len(), docs_before);
}

#[test]
fn cross_entity_validation_degrades_without_a_connection() {
    let manager = DAOManager::new(DB::disconnected());
    let payload = InMoneyMapUserModel { email: Some("ada@example.com".to_owned()) };
    let report = payload.validate(&manager);
    assert!(!report.is_valid());
    assert_eq!(report.errors[0].0, "email");
    assert_eq!(report.errors[0].1, "Unable to validate user.");
    let empty = InMoneyMapUserModel { email: None };
    let report = empty.validate(&manager);
    assert!(!report.is_valid());
    assert_eq!(report.errors[0].1, "Email is required.");
}

#[test]
fn mapper_skips_malformed_membership_elements() {
    let mut doc = Document::new();
    doc.set("name".to_owned(), Value::Scalar(Scalar::Str("Household".to_owned())));
    let mut good = EmbeddedDocument::new();
    good.push_field("user_id".to_owned(), Scalar::Str(U1.to_owned()));
    good.push_field("owner".to_owned(), Scalar::Bool(true));
    let mut missing_user_id = EmbeddedDocument::new();
    missing_user_id.push_field("owner".to_owned(), Scalar::Bool(false));
    let mut malformed_user_id = EmbeddedDocument::new();
    malformed_user_id.push_field("user_id".to_owned(), Scalar::Str("zzz".to_owned()));
    let mut no_owner_flag = EmbeddedDocument::new();
    no_owner_flag.push_field("user_id".to_owned(), Scalar::Str(U2.to_owned()));
    doc.set(
        "users".to_owned(),
        Value::Array(vec![good, missing_user_id, malformed_user_id, no_owner_flag]),
    );
    let model = document_to_model(&doc);
    assert_eq!(model.id, None);
    assert_eq!(model.name.as_deref(), Some("Household"));
    let users = model.users.expect("users array mapped");
    assert_eq!(users.len(), 2);
    assert!(users[0].owner);
    assert_eq!(users[0].user.as_ref().unwrap().id, Some(ObjectId { value: 0 }));
    assert!(!users[1].owner);
    assert_eq!(users[1].user.as_ref().unwrap().id, Some(ObjectId { value: 1 }));
}

#[test]
fn mapper_defaults_mismatched_fields() {
    let mut doc = Document::new();
    doc.set("name".to_owned(), Value::Scalar(Scalar::Bool(true)));
    let model = document_to_model(&doc);
    assert_eq!(model.id, None);
    assert_eq!(model.name, None);
    assert!(model.users.is_none());
}

#[test]
fn manager_reports_the_missing_connection() {
    let manager = DAOManager::new(DB::disconnected());
    match manager.get_money_map_dao() {
        Err(e) => {
            assert_eq!(e.get_message(), "Error: database connection not established");
            assert_eq!(e.get_kind(), MMErrorKind::Database);
        },
        Ok(_) => panic!("expected Err"),
    }
    assert!(manager.get_user_dao().is_err());
    assert!(manager.get_account_dao().is_err());
    assert!(manager.get_money_map_user_dao().is_err());
    assert!(manager.get_account_statement_dao().is_err());
    assert!(manager.get_transaction_dao().is_err());
    let connected = DAOManager::new(DB::with_database(Store::new()));
    assert!(connected.get_money_map_dao().is_ok());
    assert!(connected.get_user_dao().is_ok());
    assert!(connected.get_account_dao().is_ok());
    assert!(connected.get_money_map_user_dao().is_ok());
    assert!(connected.get_account_statement_dao().is_ok());
    assert!(connected.get_transaction_dao().is_ok());
}

#[test]
fn model_accessors_round_trip() {
    let mut map = MoneyMapModel { id: None, name: Some("Household".to_owned()), users: None };
    assert_eq!(map.get_id(), None);
    assert_eq!(map.get_name().as_deref(), Some("Household"));
    assert!(map.get_users().is_none());
    map.set_id(ObjectId { value: 42 });
    assert_eq!(map.get_id(), Some(ObjectId { value: 42 }));
    let member = money_map::models::money_map_model::MoneyMapUserModel::new(
        money_map::models::user_model::OutUserModel {
            id: Some(ObjectId { value: 7 }),
            first_name: Some("Ada".to_owned()),
            last_name: None,
            email: None,
        },
        true,
    );
    map.set_users(Some(vec![member]));
    let users = map.get_users().expect("users set");
    assert_eq!(users.len(), 1);
    assert!(users[0].owner);
    assert_eq!(users[0].user.as_ref().unwrap().first_name.as_deref(), Some("Ada"));
}

#[test]
fn cross_entity_validation_accepts_a_known_email() {
    let manager = DAOManager::new(DB::with_database(seeded_store()));
    let payload = InMoneyMapUserModel { email: Some("ada@example.com".to_owned()) };
    assert!(payload.validate(&manager).is_valid());
    let unknown = InMoneyMapUserModel { email: Some("nobody@example.com".to_owned()) };
    let report = unknown.validate(&manager);
    assert!(!report.is_valid());
    assert_eq!(report.errors[0].1, "Unable to find a user with this email address.");
}
