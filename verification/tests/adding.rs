use rust_clean_architecture_v1::entities::items::Items;
use rust_clean_architecture_v1::models::error::{APIError, IntoErrorResponse};
use rust_clean_architecture_v1::models::item::{Category, Item, StaffAdding};
use rust_clean_architecture_v1::repositories::items::{ItemsRepository, StoreError};
use rust_clean_architecture_v1::repositories::staff::generated_id;
use rust_clean_architecture_v1::time_helper::{IntoTimerHelper, TimerHelper, Timestamp};
use rust_clean_architecture_v1::usecases::adding::Request;
use rust_clean_architecture_v1::usecases::staff::StaffUsecase;
use std::sync::{Arc, Mutex};

/// A store that answers from a script and keeps a list of what it was asked.
struct ScriptedStore {
    by_name: Result<Items, StoreError>,
    inserted: Result<i32, StoreError>,
    by_id: Result<Items, StoreError>,
    asked: Mutex<Vec<Request>>,
}

impl ScriptedStore {
    fn new(
        by_name: Result<Items, StoreError>,
        inserted: Result<i32, StoreError>,
        by_id: Result<Items, StoreError>,
    ) -> Arc<ScriptedStore> {
        Arc::new(ScriptedStore { by_name, inserted, by_id, asked: Mutex::new(Vec::new()) })
    }

    fn asked(&self) -> Vec<Request> {
        std::mem::take(&mut *self.asked.lock().unwrap())
    }
}

impl ItemsRepository for ScriptedStore {
    fn find_by_name(&self, name: String) -> Result<Items, StoreError> {
        self.asked.lock().unwrap().push(Request::FindByName(name));
        self.by_name.clone()
    }

    fn insert(&self, item: Items) -> Result<i32, StoreError> {
        self.asked.lock().unwrap().push(Request::Insert(item));
        self.inserted.clone()
    }

    fn find_by_id(&self, id: i32) -> Result<Items, StoreError> {
        self.asked.lock().unwrap().push(Request::FindById(id));
        self.by_id.clone()
    }
}

/// A store that keeps its rows in memory and numbers them from 1.
struct MemoryStore {
    rows: Mutex<Vec<Items>>,
}

impl ItemsRepository for MemoryStore {
    fn find_by_name(&self, name: String) -> Result<Items, StoreError> {
        let rows = self.rows.lock().unwrap();
        rows.iter().find(|row| row.name == name).cloned().ok_or(StoreError::RowNotFound)
    }

    fn insert(&self, item: Items) -> Result<i32, StoreError> {
        let mut rows = self.rows.lock().unwrap();
        let id = rows.len() as i32 + 1;
        rows.push(Items { id: Some(id), ..item });
        generated_id(&rows[rows.len() - 1])
    }

    fn find_by_id(&self, id: i32) -> Result<Items, StoreError> {
        let rows = self.rows.lock().unwrap();
        rows.iter().find(|row| row.id == Some(id)).cloned().ok_or(StoreError::RowNotFound)
    }
}

/// A clock that stands still at noon of the first day.
struct Noon;

const NOON: Timestamp = Timestamp { secs: 43_200, nanos: 500 };

impl IntoTimerHelper for Noon {
    fn now(&self) -> Timestamp {
        NOON
    }
}

fn epoch() -> Timestamp {
    Timestamp { secs: 0, nanos: 0 }
}

fn stored(id: Option<i32>, name: &str, category: &str) -> Items {
    Items {
        id,
        name: name.to_string(),
        category: category.to_string(),
        created_at: epoch(),
        updated_at: epoch(),
    }
}

fn request(name: &str, category: Category) -> StaffAdding {
    StaffAdding { name: name.to_string(), category }
}

fn not_found<T>() -> Result<T, StoreError> {
    Err(StoreError::RowNotFound)
}

#[test]
fn adding_test() {
    let timer_helper = TimerHelper::Mock.creation();

    let req = StaffAdding { name: "wooden staff".to_string(), category: Category::Staff };

    let items_repository_mock = ScriptedStore::new(
        Err(StoreError::RowNotFound),
        Ok(1),
        {
            let t = TimerHelper::Mock.creation();
            Ok(Items {
                id: Some(1),
                name: "wooden staff".to_string(),
                category: Category::Staff.to_string(),
                created_at: t.now(),
                updated_at: t.now(),
            })
        },
    );

    let staff_usecase =
        StaffUsecase::creation(Arc::clone(&items_repository_mock), Arc::clone(&timer_helper));

    let result = match staff_usecase.adding(req.clone()) {
        Ok(r) => r,
        Err(_) => panic!("adding error"),
    };

    let id = match Some(result.id) {
        Some(i) => i,
        None => panic!("id is None"),
    };

    assert_eq!(result.id, id);
    assert_eq!(result.name, "wooden staff");

    // The store was asked once for the name, then to take the entity that the
    // request and the clock give, then once for the id that it made.
    assert_eq!(
        items_repository_mock.asked(),
        vec![
            Request::FindByName(req.name.clone()),
            Request::Insert(Items::new(
                req.name.clone(),
                Category::Staff.to_string(),
                Arc::clone(&timer_helper),
            )),
            Request::FindById(1),
        ]
    );
}

#[test]
fn a_taken_name_is_refused_and_never_inserted() {
    let store = ScriptedStore::new(Ok(stored(Some(4), "X", "Sword")), Ok(1), not_found());
    let usecase = StaffUsecase::creation(Arc::clone(&store), TimerHelper::Mock.creation());

    let outcome = usecase.adding(request("X", Category::Staff));

    assert_eq!(outcome, Err(APIError::ItemAlreadyExists("X".to_string())));
    let asked = store.asked();
    assert!(!asked.iter().any(|request| matches!(request, Request::Insert(_))));
    assert_eq!(asked, vec![Request::FindByName("X".to_string())]);
}

#[test]
fn a_taken_name_is_refused_whatever_row_the_store_shows() {
    let store = ScriptedStore::new(Ok(stored(None, "other", "Bow")), Ok(1), not_found());
    let usecase = StaffUsecase::creation(Arc::clone(&store), TimerHelper::Mock.creation());

    let outcome = usecase.adding(request("X", Category::Sword));

    assert_eq!(outcome, Err(APIError::ItemAlreadyExists("X".to_string())));
}

#[test]
fn an_early_failure_asks_the_store_nothing_more() {
    let store = ScriptedStore::new(Ok(stored(Some(1), "oak", "Staff")), Ok(2), not_found());
    let usecase = StaffUsecase::creation(Arc::clone(&store), TimerHelper::Mock.creation());

    assert!(usecase.adding(request("oak", Category::Staff)).is_err());

    let asked = store.asked();
    assert_eq!(asked.len(), 1);
    assert!(!asked.iter().any(|request| matches!(request, Request::Insert(_))));
    assert!(!asked.iter().any(|request| matches!(request, Request::FindById(_))));
}

#[test]
fn the_way_through_gives_the_stored_item() {
    let store =
        ScriptedStore::new(not_found(), Ok(1), Ok(stored(Some(1), "wooden staff", "Staff")));
    let usecase = StaffUsecase::creation(Arc::clone(&store), TimerHelper::Mock.creation());

    let outcome = usecase.adding(request("wooden staff", Category::Staff));

    assert_eq!(
        outcome,
        Ok(Item { id: 1, name: "wooden staff".to_string(), category: Category::Staff })
    );
    assert_eq!(
        store.asked(),
        vec![
            Request::FindByName("wooden staff".to_string()),
            Request::Insert(Items {
                id: None,
                name: "wooden staff".to_string(),
                category: "Staff".to_string(),
                created_at: epoch(),
                updated_at: epoch(),
            }),
            Request::FindById(1),
        ]
    );
}

#[test]
fn the_item_shown_is_the_row_that_the_store_shows() {
    let store = ScriptedStore::new(not_found(), Ok(3), Ok(stored(Some(9), "iron", "Sword")));
    let usecase = StaffUsecase::creation(Arc::clone(&store), TimerHelper::Mock.creation());

    let outcome = usecase.adding(request("wooden staff", Category::Staff));

    assert_eq!(outcome, Ok(Item { id: 9, name: "iron".to_string(), category: Category::Sword }));
    assert_eq!(store.asked()[2], Request::FindById(3));
}

#[test]
fn an_empty_store_numbers_the_first_item_one() {
    let store = Arc::new(MemoryStore { rows: Mutex::new(Vec::new()) });
    let usecase = StaffUsecase::creation(Arc::clone(&store), TimerHelper::Mock.creation());

    let created = usecase.adding(request("wooden staff", Category::Staff)).unwrap();

    assert_eq!(created.id, 1);
    assert_eq!(created.name, "wooden staff");
    assert_eq!(created.category.to_string(), "Staff");
    assert_eq!(store.rows.lock().unwrap().len(), 1);
}

#[test]
fn a_store_holds_a_name_once() {
    let store = Arc::new(MemoryStore { rows: Mutex::new(Vec::new()) });
    let usecase = StaffUsecase::creation(Arc::clone(&store), TimerHelper::Mock.creation());

    assert!(usecase.adding(request("wooden staff", Category::Staff)).is_ok());
    let second = usecase.adding(request("wooden staff", Category::Sword));
    let other = usecase.adding(request("iron sword", Category::Sword));

    assert_eq!(second, Err(APIError::ItemAlreadyExists("wooden staff".to_string())));
    assert_eq!(
        other,
        Ok(Item { id: 2, name: "iron sword".to_string(), category: Category::Sword })
    );
    assert_eq!(store.rows.lock().unwrap().len(), 2);
}

#[test]
fn a_failed_search_by_name_does_not_stop_the_insert() {
    let store = ScriptedStore::new(
        Err(StoreError::Failure("PoolTimedOut".to_string())),
        Ok(5),
        Ok(stored(Some(5), "oak", "Staff")),
    );
    let usecase = StaffUsecase::creation(Arc::clone(&store), TimerHelper::Mock.creation());

    let outcome = usecase.adding(request("oak", Category::Staff));

    assert_eq!(outcome, Ok(Item { id: 5, name: "oak".to_string(), category: Category::Staff }));
    assert_eq!(store.asked().len(), 3);
}

#[test]
fn a_failed_insert_is_reported_with_its_cause() {
    let cause = StoreError::Failure("Io(Kind(ConnectionReset))".to_string());
    let store = ScriptedStore::new(not_found(), Err(cause.clone()), not_found());
    let usecase = StaffUsecase::creation(Arc::clone(&store), TimerHelper::Mock.creation());

    let outcome = usecase.adding(request("oak", Category::Staff));

    assert_eq!(outcome, Err(APIError::AddingItemError(cause)));
    let asked = store.asked();
    assert_eq!(asked.len(), 2);
    assert!(!asked.iter().any(|request| matches!(request, Request::FindById(_))));
}

#[test]
fn an_insert_without_an_id_is_a_failure_of_the_store() {
    let inserted = generated_id(&stored(None, "oak", "Staff"));
    assert_eq!(inserted, Err(StoreError::RowNotFound));

    let store = ScriptedStore::new(not_found(), inserted, Ok(stored(Some(0), "oak", "Staff")));
    let usecase = StaffUsecase::creation(Arc::clone(&store), TimerHelper::Mock.creation());

    let outcome = usecase.adding(request("oak", Category::Staff));

    assert_eq!(outcome, Err(APIError::AddingItemError(StoreError::RowNotFound)));
    assert_eq!(outcome.unwrap_err().error().status_code, 500);
    assert_eq!(store.asked().len(), 2);
}

#[test]
fn a_row_that_cannot_be_shown_is_reported_by_its_id() {
    let store = ScriptedStore::new(not_found(), Ok(7), not_found());
    let usecase = StaffUsecase::creation(Arc::clone(&store), TimerHelper::Mock.creation());

    let outcome = usecase.adding(request("oak", Category::Staff));

    assert_eq!(outcome, Err(APIError::ItemNotFound(7)));
    assert_eq!(store.asked()[2], Request::FindById(7));
}

#[test]
fn a_failed_search_by_id_is_reported_by_the_id_too() {
    let store = ScriptedStore::new(
        not_found(),
        Ok(-3),
        Err(StoreError::Failure("PoolClosed".to_string())),
    );
    let usecase = StaffUsecase::creation(Arc::clone(&store), TimerHelper::Mock.creation());

    assert_eq!(usecase.adding(request("oak", Category::Sword)), Err(APIError::ItemNotFound(-3)));
}

#[test]
fn a_stored_word_that_is_no_category_is_reported() {
    let store = ScriptedStore::new(not_found(), Ok(2), Ok(stored(Some(2), "yew", "Bow")));
    let usecase = StaffUsecase::creation(Arc::clone(&store), TimerHelper::Mock.creation());

    let outcome = usecase.adding(request("yew", Category::Staff));

    assert_eq!(outcome, Err(APIError::InvalidCategory("Bow".to_string())));
}

#[test]
fn a_shown_row_without_an_id_is_a_lost_row() {
    let store = ScriptedStore::new(not_found(), Ok(2), Ok(stored(None, "yew", "Staff")));
    let usecase = StaffUsecase::creation(Arc::clone(&store), TimerHelper::Mock.creation());

    assert_eq!(usecase.adding(request("yew", Category::Staff)), Err(APIError::ItemNotFound(2)));

    let store = ScriptedStore::new(not_found(), Ok(2), Ok(stored(None, "yew", "staff")));
    let usecase = StaffUsecase::creation(Arc::clone(&store), TimerHelper::Mock.creation());

    assert_eq!(
        usecase.adding(request("yew", Category::Staff)),
        Err(APIError::InvalidCategory("staff".to_string()))
    );
}

#[test]
fn the_new_entity_is_stamped_by_the_clock_of_the_use_case() {
    let store = ScriptedStore::new(not_found(), Ok(1), Ok(stored(Some(1), "oak", "Staff")));
    let usecase = StaffUsecase::creation(Arc::clone(&store), Arc::new(Noon));

    assert!(usecase.adding(request("oak", Category::Sword)).is_ok());

    assert_eq!(
        store.asked()[1],
        Request::Insert(Items {
            id: None,
            name: "oak".to_string(),
            category: "Sword".to_string(),
            created_at: NOON,
            updated_at: NOON,
        })
    );
}
