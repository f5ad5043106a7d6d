use rust_clean_architecture_v1::entities::items::Items;
use rust_clean_architecture_v1::models::error::APIError;
use rust_clean_architecture_v1::models::item::{Category, Item, StaffAdding};
use rust_clean_architecture_v1::repositories::items::StoreError;
use rust_clean_architecture_v1::repositories::staff::generated_id;
use rust_clean_architecture_v1::time_helper::{IntoTimerHelper, TimerHelper, Timestamp};
use std::sync::Arc;

struct Later;

impl IntoTimerHelper for Later {
    fn now(&self) -> Timestamp {
        Timestamp { secs: 1_431_648_000, nanos: 999_999_999 }
    }
}

fn epoch() -> Timestamp {
    Timestamp { secs: 0, nanos: 0 }
}

fn row(id: Option<i32>, name: &str, category: &str) -> Items {
    Items {
        id,
        name: name.to_string(),
        category: category.to_string(),
        created_at: epoch(),
        updated_at: epoch(),
    }
}

#[test]
fn a_category_is_written_as_its_name() {
    assert_eq!(Category::Staff.to_string(), "Staff");
    assert_eq!(Category::Sword.to_string(), "Sword");
}

#[test]
fn a_category_survives_being_written_and_read() {
    for category in [Category::Staff, Category::Sword] {
        let written = category.to_string();
        let read = row(Some(1), "any", &written).get_category();

        assert_eq!(read, Some(category));
        assert_eq!(read.unwrap().to_string(), written);
    }
}

#[test]
fn only_the_exact_word_is_a_category() {
    for word in ["", "staff", "STAFF", "Staff ", " Staff", "Staffs", "Staf", "sword", "Bow", "Staff\0"] {
        assert_eq!(row(Some(1), "any", word).get_category(), None, "{:?}", word);
    }
}

#[test]
fn a_word_that_is_no_category_lets_no_item_out() {
    for word in ["", "staff", "Bow", "Sword and Staff"] {
        assert_eq!(
            row(Some(1), "any", word).to_model(),
            Err(APIError::InvalidCategory(word.to_string()))
        );
    }
}

#[test]
fn a_stored_row_is_shown_as_its_item() {
    assert_eq!(
        row(Some(41), "wooden staff", "Staff").to_model(),
        Ok(Item { id: 41, name: "wooden staff".to_string(), category: Category::Staff })
    );
    assert_eq!(
        row(Some(-2), "", "Sword").to_model(),
        Ok(Item { id: -2, name: String::new(), category: Category::Sword })
    );
}

#[test]
fn a_new_entity_has_no_id_and_one_stamp() {
    let entity = Items::new("oak".to_string(), "Staff".to_string(), Arc::new(Later));

    assert_eq!(
        entity,
        Items {
            id: None,
            name: "oak".to_string(),
            category: "Staff".to_string(),
            created_at: Timestamp { secs: 1_431_648_000, nanos: 999_999_999 },
            updated_at: Timestamp { secs: 1_431_648_000, nanos: 999_999_999 },
        }
    );
}

#[test]
fn a_new_entity_keeps_whatever_word_it_is_given() {
    let entity = Items::new(String::new(), "Bow".to_string(), TimerHelper::Mock.creation());

    assert_eq!(entity, row(None, "", "Bow"));
    assert_eq!(entity.get_category(), None);
}

#[test]
fn an_entity_is_stamped_at_the_instant_given() {
    let at = Timestamp { secs: -1, nanos: 1_999_999_999 };
    let entity = Items::stamped("oak".to_string(), "Sword".to_string(), at);

    assert_eq!(entity.id, None);
    assert_eq!(entity.name, "oak");
    assert_eq!(entity.category, "Sword");
    assert_eq!(entity.created_at, at);
    assert_eq!(entity.updated_at, at);
}

#[test]
fn a_request_becomes_an_unsaved_entity() {
    let request = StaffAdding { name: "iron sword".to_string(), category: Category::Sword };

    assert_eq!(request.to_entity(TimerHelper::Mock.creation()), row(None, "iron sword", "Sword"));
}

#[test]
fn an_item_becomes_an_unsaved_entity_and_leaves_its_id_behind() {
    let item = Item { id: 77, name: "wooden staff".to_string(), category: Category::Staff };

    assert_eq!(item.to_entity(TimerHelper::Mock.creation()), row(None, "wooden staff", "Staff"));
}

#[test]
fn the_generated_id_is_read_from_the_row() {
    assert_eq!(generated_id(&row(Some(1), "oak", "Staff")), Ok(1));
    assert_eq!(generated_id(&row(Some(i32::MIN), "oak", "Bow")), Ok(i32::MIN));
    assert_eq!(generated_id(&row(Some(0), "oak", "Staff")), Ok(0));
    assert_eq!(generated_id(&row(None, "oak", "Staff")), Err(StoreError::RowNotFound));
}

#[test]
fn a_copy_equals_what_it_was_made_from() {
    let entity = row(Some(3), "oak", "Staff");
    let item = Item { id: 3, name: "oak".to_string(), category: Category::Staff };
    let request = StaffAdding { name: "oak".to_string(), category: Category::Sword };

    assert_eq!(entity.clone(), entity);
    assert_eq!(item.clone(), item);
    assert_eq!(request.clone(), request);
}
