use kakeibo_app::calendar::Date;
use kakeibo_app::models::Category;
use kakeibo_app::models::ExpenseCategory;
use kakeibo_app::models::IncomeCategory;
use kakeibo_app::models::Item;
use kakeibo_app::services::io::read_data_or_create_new_data;
use kakeibo_app::services::io::read_data_or_panic;
use kakeibo_app::services::io::StoreContent;
use kakeibo_app::services::io::StoreError;

fn book() -> Vec<Item> {
    vec![
        Item::new(
            "給与".to_string(),
            Category::Income(IncomeCategory::Salary),
            100000,
            Date::from_ymd_opt(2023, 1, 1).unwrap(),
        ),
        Item::new(
            "食費".to_string(),
            Category::Expense(ExpenseCategory::Food),
            2000,
            Date::from_ymd_opt(2023, 2, 1).unwrap(),
        ),
    ]
}

#[test]
fn a_missing_store_starts_a_new_book() {
    assert_eq!(read_data_or_create_new_data(StoreContent::Missing), Ok((Vec::new(), true)));
}

#[test]
fn a_malformed_store_cannot_be_added_to() {
    assert_eq!(read_data_or_create_new_data(StoreContent::Malformed), Err(StoreError::Malformed));
}

#[test]
fn a_store_with_entries_is_taken_as_it_is() {
    assert_eq!(read_data_or_create_new_data(StoreContent::Entries(book())), Ok((book(), false)));
}

#[test]
fn an_empty_store_can_be_added_to() {
    assert_eq!(
        read_data_or_create_new_data(StoreContent::Entries(Vec::new())),
        Ok((Vec::new(), false))
    );
}

#[test]
fn a_missing_store_cannot_be_reported_on() {
    assert_eq!(read_data_or_panic(StoreContent::Missing), Err(StoreError::CannotOpen));
}

#[test]
fn a_malformed_store_cannot_be_reported_on() {
    assert_eq!(read_data_or_panic(StoreContent::Malformed), Err(StoreError::Malformed));
}

#[test]
fn an_empty_store_cannot_be_reported_on() {
    assert_eq!(read_data_or_panic(StoreContent::Entries(Vec::new())), Err(StoreError::NoData));
}

#[test]
fn a_store_with_entries_is_reported_on() {
    assert_eq!(read_data_or_panic(StoreContent::Entries(book())), Ok(book()));
}

#[test]
fn store_errors_name_what_was_wrong() {
    assert_eq!(StoreError::CannotOpen.message(), "ファイルをオープンできませんでした");
    assert_eq!(StoreError::Malformed.message(), "デシリアライズに失敗しました");
    assert_eq!(StoreError::NoData.message(), "データが存在しません");
}
