use kakeibo_app::calendar::Date;
use kakeibo_app::models::Category;
use kakeibo_app::models::ExpenseCategory;
use kakeibo_app::models::IncomeCategory;
use kakeibo_app::models::Item;
use kakeibo_app::services::io::StoreContent;
use kakeibo_app::services::io::StoreError;
use kakeibo_app::services::summarize::format_date;
use kakeibo_app::services::summarize::format_line;
use kakeibo_app::services::summarize::format_price;
use kakeibo_app::services::summarize::format_table;
use kakeibo_app::services::summarize::get_filtered_data;
use kakeibo_app::services::summarize::get_target_dates;
use kakeibo_app::services::summarize::monthly_totals;
use kakeibo_app::services::summarize::run;
use kakeibo_app::services::summarize::summarize_data;
use std::collections::BTreeMap;
use std::collections::BTreeSet;

fn get_test_data() -> Vec<Item> {
    vec![
        Item::new(
            "新年会".to_string(),
            Category::Expense(ExpenseCategory::Food),
            5000,
            Date::from_ymd_opt(2022, 1, 10).unwrap(),
        ),
        Item::new(
            "給料".to_string(),
            Category::Income(IncomeCategory::Salary),
            300000,
            Date::from_ymd_opt(2022, 1, 20).unwrap(),
        ),
        Item::new(
            "旅行".to_string(),
            Category::Expense(ExpenseCategory::Hobby),
            100000,
            Date::from_ymd_opt(2022, 1, 30).unwrap(),
        ),
        Item::new(
            "外食".to_string(),
            Category::Expense(ExpenseCategory::Food),
            3000,
            Date::from_ymd_opt(2022, 2, 15).unwrap(),
        ),
        Item::new(
            "歓迎会".to_string(),
            Category::Expense(ExpenseCategory::Other),
            10000,
            Date::from_ymd_opt(2022, 4, 15).unwrap(),
        ),
    ]
}

fn entry(category: Category, price: u32, year: i32, month: u32, day: u32) -> Item {
    Item::new(String::new(), category, price, Date::from_ymd_opt(year, month, day).unwrap())
}

#[test]
fn test_get_target_dates() {
    let test_data = get_test_data();
    let mut expected = BTreeSet::new();
    expected.insert((2022, 1));
    expected.insert((2022, 2));
    expected.insert((2022, 4));

    assert_eq!(get_target_dates(&test_data), expected);
}

#[test]
fn test_get_filtered_data() {
    let test_data = get_test_data();
    let first_date = Date::from_ymd_opt(2022, 4, 20).unwrap();
    let expected = vec![&test_data[4]];

    assert_eq!(get_filtered_data(&test_data, first_date), expected);
}

#[test]
fn test_summarize_data() {
    let data = get_test_data();
    let test_data = vec![&data[0], &data[1], &data[2]];
    let expected: i128 =
        data[0..=2].iter().map(|item| i128::from(item.get_price_for_summary())).sum();

    assert_eq!(summarize_data(&test_data), expected);
}

#[test]
fn test_format_date() {
    let date = Date::from_ymd_opt(2022, 4, 20).unwrap();
    let expected = "2022/4";

    assert_eq!(format_date(date), expected);
}

#[test]
fn test_format_price() {
    assert_eq!(format_price(1000), "+1000");
    assert_eq!(format_price(-1000), "-1000");
}

#[test]
fn format_price_writes_zero_without_a_sign() {
    assert_eq!(format_price(0), "0");
}

#[test]
fn format_price_writes_the_sign_first() {
    for price in [1i128, 9, 10, 195000, 4294967295, i128::MAX] {
        assert!(format_price(price).starts_with('+'));
        assert_eq!(format_price(price), format!("+{}", price));
    }
    for price in [-1i128, -9, -10, -3000, -4294967295, i128::MIN] {
        assert!(format_price(price).starts_with('-'));
        assert_eq!(format_price(price), format!("{}", price));
    }
}

#[test]
fn format_date_writes_no_leading_zero() {
    assert_eq!(format_date(Date::from_ymd_opt(2022, 1, 31).unwrap()), "2022/1");
    assert_eq!(format_date(Date::from_ymd_opt(2022, 12, 1).unwrap()), "2022/12");
    assert_eq!(format_date(Date::from_ymd_opt(987, 6, 5).unwrap()), "987/6");
    assert_eq!(format_date(Date::from_ymd_opt(-44, 3, 15).unwrap()), "-44/3");
}

#[test]
fn format_line_reads_as_the_report_does() {
    assert_eq!(format_line(2022, 1, 195000), "2022/1の収支は+195000円でした");
    assert_eq!(format_line(2022, 2, -3000), "2022/2の収支は-3000円でした");
    assert_eq!(format_line(2022, 3, 0), "2022/3の収支は0円でした");
}

#[test]
fn summarize_data_of_january_is_the_net_balance() {
    let data = get_test_data();
    let january = vec![&data[0], &data[1], &data[2]];
    assert_eq!(summarize_data(&january), 195000);
    assert_eq!(format_price(summarize_data(&january)), "+195000");
}

#[test]
fn summarize_data_of_nothing_is_zero() {
    let nothing: Vec<&Item> = Vec::new();
    assert_eq!(summarize_data(&nothing), 0);
}

#[test]
fn summarize_data_goes_beyond_what_32_bits_hold() {
    let income = entry(Category::Income(IncomeCategory::Bonus), u32::MAX, 2022, 1, 1);
    let expense = entry(Category::Expense(ExpenseCategory::Hobby), u32::MAX, 2022, 1, 1);
    assert_eq!(summarize_data(&vec![&income, &income, &income]), 12884901885);
    assert_eq!(summarize_data(&vec![&expense, &expense, &expense]), -12884901885);
    assert_eq!(summarize_data(&vec![&income, &expense]), 0);
}

#[test]
fn get_filtered_data_keeps_the_order_of_the_book() {
    let data = get_test_data();
    let january = Date::from_ymd_opt(2022, 1, 1).unwrap();
    assert_eq!(get_filtered_data(&data, january), vec![&data[0], &data[1], &data[2]]);
}

#[test]
fn get_filtered_data_ignores_the_day() {
    let data = get_test_data();
    for day in 1..=28 {
        let date = Date::from_ymd_opt(2022, 2, day).unwrap();
        assert_eq!(get_filtered_data(&data, date), vec![&data[3]]);
    }
}

#[test]
fn get_filtered_data_tells_years_apart() {
    let data = vec![
        entry(Category::Income(IncomeCategory::Salary), 1, 2021, 1, 10),
        entry(Category::Income(IncomeCategory::Salary), 2, 2022, 1, 10),
        entry(Category::Income(IncomeCategory::Salary), 4, 2022, 2, 10),
    ];
    let date = Date::from_ymd_opt(2022, 1, 10).unwrap();
    assert_eq!(get_filtered_data(&data, date), vec![&data[1]]);
    let empty = Date::from_ymd_opt(2022, 3, 10).unwrap();
    assert_eq!(get_filtered_data(&data, empty), Vec::<&Item>::new());
}

#[test]
fn get_target_dates_of_nothing_is_empty() {
    assert_eq!(get_target_dates(&Vec::new()), BTreeSet::new());
}

#[test]
fn get_target_dates_holds_each_month_once() {
    let data = vec![
        entry(Category::Income(IncomeCategory::Salary), 1, 2022, 12, 31),
        entry(Category::Income(IncomeCategory::Salary), 1, 2022, 12, 1),
        entry(Category::Income(IncomeCategory::Salary), 1, 2021, 12, 1),
    ];
    let months: Vec<(i32, u32)> = get_target_dates(&data).into_iter().collect();
    assert_eq!(months, vec![(2021, 12), (2022, 12)]);
}

#[test]
fn monthly_totals_of_the_book() {
    let mut expected: BTreeMap<(i32, u32), i128> = BTreeMap::new();
    expected.insert((2022, 1), 195000);
    expected.insert((2022, 2), -3000);
    expected.insert((2022, 4), -10000);
    assert_eq!(monthly_totals(&get_test_data()), expected);
}

#[test]
fn monthly_totals_reports_a_month_that_nets_to_zero() {
    let data = vec![
        entry(Category::Income(IncomeCategory::Other), 700, 2022, 3, 1),
        entry(Category::Expense(ExpenseCategory::Other), 700, 2022, 3, 31),
    ];
    let mut expected: BTreeMap<(i32, u32), i128> = BTreeMap::new();
    expected.insert((2022, 3), 0);
    assert_eq!(monthly_totals(&data), expected);
    assert_eq!(format_table(&monthly_totals(&data)), vec!["2022/3の収支は0円でした"]);
}

#[test]
fn format_table_runs_from_the_earliest_month() {
    let mut table: BTreeMap<(i32, u32), i128> = BTreeMap::new();
    table.insert((2022, 10), 1);
    table.insert((2022, 9), -2);
    table.insert((2021, 12), 3);
    table.insert((-1, 1), 0);
    assert_eq!(
        format_table(&table),
        vec![
            "-1/1の収支は0円でした",
            "2021/12の収支は+3円でした",
            "2022/9の収支は-2円でした",
            "2022/10の収支は+1円でした",
        ]
    );
    assert_eq!(format_table(&BTreeMap::new()), Vec::<String>::new());
}

#[test]
fn run_reports_the_book_month_by_month() {
    let lines = run(StoreContent::Entries(get_test_data())).unwrap();
    assert_eq!(
        lines,
        vec![
            "2022/1の収支は+195000円でした",
            "2022/2の収支は-3000円でした",
            "2022/4の収支は-10000円でした",
        ]
    );
}

#[test]
fn run_puts_the_months_in_order_whatever_the_order_of_the_book() {
    let mut data = get_test_data();
    data.reverse();
    let lines = run(StoreContent::Entries(data)).unwrap();
    assert_eq!(
        lines,
        vec![
            "2022/1の収支は+195000円でした",
            "2022/2の収支は-3000円でした",
            "2022/4の収支は-10000円でした",
        ]
    );
}

#[test]
fn run_gives_the_same_report_twice() {
    let first = run(StoreContent::Entries(get_test_data()));
    let second = run(StoreContent::Entries(get_test_data()));
    assert_eq!(first, second);
}

#[test]
fn run_refuses_a_store_without_entries() {
    assert_eq!(run(StoreContent::Entries(Vec::new())), Err(StoreError::NoData));
    assert_eq!(StoreError::NoData.message(), "データが存在しません");
}

#[test]
fn run_refuses_a_store_that_gave_nothing() {
    assert_eq!(run(StoreContent::Missing), Err(StoreError::CannotOpen));
    assert_eq!(run(StoreContent::Malformed), Err(StoreError::Malformed));
}
