use kakeibo_app::calendar::Date;
use kakeibo_app::models::Category;
use kakeibo_app::models::ExpenseCategory;
use kakeibo_app::models::IncomeCategory;
use kakeibo_app::models::InvalidCategory;
use kakeibo_app::models::Item;

fn salary() -> Item {
    Item::new(
        String::from("給与"),
        Category::Income(IncomeCategory::Salary),
        100000,
        Date::from_ymd_opt(2023, 1, 15).unwrap(),
    )
}

fn food() -> Item {
    Item::new(
        String::from("食費"),
        Category::Expense(ExpenseCategory::Food),
        5000,
        Date::from_ymd_opt(2023, 1, 1).unwrap(),
    )
}

#[test]
fn get_category_names_each_pair() {
    assert_eq!(Item::get_category(0, 0), Ok(Category::Income(IncomeCategory::Salary)));
    assert_eq!(Item::get_category(0, 1), Ok(Category::Income(IncomeCategory::Bonus)));
    assert_eq!(Item::get_category(0, 2), Ok(Category::Income(IncomeCategory::Other)));
    assert_eq!(Item::get_category(1, 0), Ok(Category::Expense(ExpenseCategory::Food)));
    assert_eq!(Item::get_category(1, 1), Ok(Category::Expense(ExpenseCategory::Hobby)));
    assert_eq!(Item::get_category(1, 2), Ok(Category::Expense(ExpenseCategory::Other)));
}

#[test]
fn get_category_gives_six_different_categories() {
    let mut seen: Vec<Category> = Vec::new();
    for register_type in 0..=1u8 {
        for category_type in 0..=2u8 {
            let category = Item::get_category(register_type, category_type).unwrap();
            assert!(!seen.contains(&category));
            assert_eq!(Item::get_category(register_type, category_type), Ok(category));
            seen.push(category);
        }
    }
    assert_eq!(seen.len(), 6);
}

#[test]
fn get_category_refuses_codes_above_two() {
    for register_type in 0..=1u8 {
        for category_type in 3..=255u8 {
            assert_eq!(
                Item::get_category(register_type, category_type),
                Err(InvalidCategory::CategoryType)
            );
        }
    }
    assert_eq!(InvalidCategory::CategoryType.message(), "不正なカテゴリ種別です");
}

#[test]
fn get_category_refuses_register_types_above_one() {
    assert_eq!(Item::get_category(2, 1), Err(InvalidCategory::RegisterType));
    assert_eq!(Item::get_category(255, 0), Err(InvalidCategory::RegisterType));
    for register_type in 2..=255u8 {
        for category_type in 0..=255u8 {
            assert_eq!(
                Item::get_category(register_type, category_type),
                Err(InvalidCategory::RegisterType)
            );
        }
    }
    assert_eq!(InvalidCategory::RegisterType.message(), "不正な登録種別です");
}

#[test]
fn get_category_never_books_an_unknown_register_type_as_expense() {
    for register_type in 2..=255u8 {
        for category_type in 0..=2u8 {
            assert!(Item::get_category(register_type, category_type).is_err());
        }
    }
}

#[test]
fn item_keeps_what_it_was_made_of() {
    let item = salary();
    assert_eq!(item.name(), "給与");
    assert_eq!(item.category(), Category::Income(IncomeCategory::Salary));
    assert_eq!(item.price(), 100000);
    assert_eq!(item.date(), Date::from_ymd_opt(2023, 1, 15).unwrap());
}

#[test]
fn item_gives_year_and_month() {
    let item = salary();
    assert_eq!(item.get_year(), 2023);
    assert_eq!(item.get_month(), 1);
}

#[test]
fn item_gives_first_day_of_its_month() {
    assert_eq!(salary().get_first_day(), Date::from_ymd_opt(2023, 1, 1).unwrap());
    let leap_day = Item::new(
        String::from("うるう日"),
        Category::Expense(ExpenseCategory::Other),
        1,
        Date::from_ymd_opt(2024, 2, 29).unwrap(),
    );
    assert_eq!(leap_day.get_first_day(), Date::from_ymd_opt(2024, 2, 1).unwrap());
}

#[test]
fn price_for_summary_is_signed_by_category() {
    assert_eq!(salary().get_price_for_summary(), 100000);
    assert_eq!(food().get_price_for_summary(), -5000);
}

#[test]
fn price_for_summary_keeps_the_magnitude_of_large_amounts() {
    let date = Date::from_ymd_opt(2023, 1, 1).unwrap();
    let income = Item::new(String::new(), Category::Income(IncomeCategory::Other), u32::MAX, date);
    let expense =
        Item::new(String::new(), Category::Expense(ExpenseCategory::Other), u32::MAX, date);
    assert_eq!(income.get_price_for_summary(), 4294967295);
    assert_eq!(expense.get_price_for_summary(), -4294967295);
    let half = Item::new(String::new(), Category::Expense(ExpenseCategory::Food), 2147483648, date);
    assert_eq!(half.get_price_for_summary(), -2147483648);
}

#[test]
fn price_for_summary_of_nothing_is_zero() {
    let date = Date::from_ymd_opt(2023, 1, 1).unwrap();
    let income = Item::new(String::new(), Category::Income(IncomeCategory::Bonus), 0, date);
    let expense = Item::new(String::new(), Category::Expense(ExpenseCategory::Hobby), 0, date);
    assert_eq!(income.get_price_for_summary(), 0);
    assert_eq!(expense.get_price_for_summary(), 0);
}

#[test]
fn price_for_summary_has_the_sign_of_the_category() {
    let date = Date::from_ymd_opt(2023, 1, 1).unwrap();
    for price in [1u32, 2, 999, 65536, u32::MAX] {
        for register_type in 0..=1u8 {
            for category_type in 0..=2u8 {
                let category = Item::get_category(register_type, category_type).unwrap();
                let item = Item::new(String::new(), category, price, date);
                let signed = item.get_price_for_summary();
                assert_eq!(signed.unsigned_abs(), u64::from(price));
                assert_eq!(signed > 0, matches!(category, Category::Income(_)));
                assert_eq!(signed < 0, matches!(category, Category::Expense(_)));
            }
        }
    }
}
