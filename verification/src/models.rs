//! The entries of the book.
//!
//! An [`Item`] is one entry: a name, a category, an amount and a date. The
//! amount is kept without a sign; whether it counts for or against the
//! balance follows from the category.

use crate::calendar::Date;
use crate::calendar::Ymd;
use vstd::prelude::*;

verus! {

/// The kinds of income.
#[derive(Debug, Clone, Copy, PartialEq, Eq)]
pub enum IncomeCategory {
    Salary,
    Bonus,
    Other,
}

/// The kinds of expense.
#[derive(Debug, Clone, Copy, PartialEq, Eq)]
pub enum ExpenseCategory {
    Food,
    Hobby,
    Other,
}

/// What an entry is booked under: a kind of income or a kind of expense.
#[derive(Debug, Clone, Copy, PartialEq, Eq)]
pub enum Category {
    Income(IncomeCategory),
    Expense(ExpenseCategory),
}

/// Why a registration type and a category code name no category.
#[derive(Debug, Clone, Copy, PartialEq, Eq)]
pub enum InvalidCategory {
    /// The registration type is neither income (0) nor expense (1).
    RegisterType,
    /// The category code is none of the three kinds (0, 1, 2).
    CategoryType,
}

impl InvalidCategory {
    /// The text of [`InvalidCategory::message`].
    pub open spec fn message_text(self) -> Seq<char> {
        match self {
            InvalidCategory::RegisterType => "不正な登録種別です"@,
            InvalidCategory::CategoryType => "不正なカテゴリ種別です"@,
        }
    }

    /// What to tell the user.
    pub fn message(&self) -> (r: &'static str)
        ensures
            r@ == self.message_text(),
    {
        match self {
            InvalidCategory::RegisterType => "不正な登録種別です",
            InvalidCategory::CategoryType => "不正なカテゴリ種別です",
        }
    }
}

/// The category that a registration type and a category code name.
///
/// Registration type 0 is income and 1 is expense; no other registration
/// type names anything. The code picks the kind: 0, 1 or 2, in the order in
/// which the kinds are declared; no other code names anything. Where both
/// are out of range, the error is the one of the registration type.
pub open spec fn classify(register_type: u8, category_type: u8) -> Result<
    Category,
    InvalidCategory,
> {
    if register_type > 1 {
        Err(InvalidCategory::RegisterType)
    } else if category_type > 2 {
        Err(InvalidCategory::CategoryType)
    } else if register_type == 0 {
        Ok(
            Category::Income(
                if category_type == 0 {
                    IncomeCategory::Salary
                } else if category_type == 1 {
                    IncomeCategory::Bonus
                } else {
                    IncomeCategory::Other
                },
            ),
        )
    } else {
        Ok(
            Category::Expense(
                if category_type == 0 {
                    ExpenseCategory::Food
                } else if category_type == 1 {
                    ExpenseCategory::Hobby
                } else {
                    ExpenseCategory::Other
                },
            ),
        )
    }
}

/// A registration type of 0 or 1 with a category code of 0, 1 or 2 names a
/// category, and two different such pairs name two different categories. A
/// registration type above 1 names none, and neither does a code above 2,
/// whatever the other number is.
pub proof fn lemma_classify_distinct(
    register_type: u8,
    category_type: u8,
    other_register_type: u8,
    other_category_type: u8,
)
    ensures
        register_type > 1 ==> classify(register_type, category_type) is Err,
        category_type > 2 ==> classify(register_type, category_type) is Err,
        register_type <= 1 && category_type <= 2 ==> classify(register_type, category_type) is Ok,
        register_type == 0 && category_type <= 2 ==> classify(register_type, category_type)
            matches Ok(Category::Income(_)),
        register_type == 1 && category_type <= 2 ==> classify(register_type, category_type)
            matches Ok(Category::Expense(_)),
        register_type <= 1 && other_register_type <= 1 && category_type <= 2
            && other_category_type <= 2 && (register_type != other_register_type || category_type
            != other_category_type) ==> classify(register_type, category_type) != classify(
            other_register_type,
            other_category_type,
        ),
{
}

/// What an [`Item`] stands for.
pub struct Entry {
    pub name: Seq<char>,
    pub category: Category,
    pub price: u32,
    pub date: Ymd,
}

impl Entry {
    /// What the entry adds to the balance: its amount if it is income, the
    /// negated amount if it is an expense.
    pub open spec fn signed_amount(self) -> int {
        match self.category {
            Category::Income(_) => self.price as int,
            Category::Expense(_) => -(self.price as int),
        }
    }

    /// The month that the entry is booked in, as year and month.
    pub open spec fn month_key(self) -> (i32, u32) {
        self.date.month_key()
    }
}

/// The signed amount of an entry has the entry's amount as its magnitude.
/// Where the amount is not zero, the signed amount is positive exactly for
/// income and negative exactly for expenses.
pub proof fn lemma_signed_amount_sign(entry: Entry)
    ensures
        vstd::math::abs(entry.signed_amount()) == entry.price,
        entry.price > 0 ==> (entry.signed_amount() > 0 <==> entry.category is Income),
        entry.price > 0 ==> (entry.signed_amount() < 0 <==> entry.category is Expense),
        entry.price == 0 ==> entry.signed_amount() == 0,
{
}

/// One entry of the book.
#[derive(Debug, PartialEq, Eq)]
pub struct Item {
    name: String,
    category: Category,
    price: u32,
    date: Date,
}

impl View for Item {
    type V = Entry;

    closed spec fn view(&self) -> Entry {
        Entry { name: self.name@, category: self.category, price: self.price, date: self.date@ }
    }
}

impl DeepView for Item {
    type V = Entry;

    open spec fn deep_view(&self) -> Entry {
        self@
    }
}

impl Item {
    /// The entry with the given name, category, amount and date.
    pub fn new(name: String, category: Category, price: u32, date: Date) -> (r: Item)
        ensures
            r@ == (Entry { name: name@, category, price, date: date@ }),
    {
        Item { name, category, price, date }
    }

    /// The category that a registration type and a category code name, or
    /// the error where one of the two is out of range.
    pub fn get_category(register_type: u8, category_type: u8) -> (r: Result<
        Category,
        InvalidCategory,
    >)
        ensures
            r == classify(register_type, category_type),
    {
        match register_type {
            0 => match category_type {
                0 => Ok(Category::Income(IncomeCategory::Salary)),
                1 => Ok(Category::Income(IncomeCategory::Bonus)),
                2 => Ok(Category::Income(IncomeCategory::Other)),
                _ => Err(InvalidCategory::CategoryType),
            },
            1 => match category_type {
                0 => Ok(Category::Expense(ExpenseCategory::Food)),
                1 => Ok(Category::Expense(ExpenseCategory::Hobby)),
                2 => Ok(Category::Expense(ExpenseCategory::Other)),
                _ => Err(InvalidCategory::CategoryType),
            },
            _ => Err(InvalidCategory::RegisterType),
        }
    }

    /// The entry's name.
    pub fn name(&self) -> (r: &str)
        ensures
            r@ == self@.name,
    {
        self.name.as_str()
    }

    /// The entry's category.
    pub fn category(&self) -> (r: Category)
        ensures
            r == self@.category,
    {
        self.category
    }

    /// The entry's amount, without a sign.
    pub fn price(&self) -> (r: u32)
        ensures
            r == self@.price,
    {
        self.price
    }

    /// The entry's date.
    pub fn date(&self) -> (r: Date)
        ensures
            r@ == self@.date,
    {
        self.date
    }

    /// The year of the entry's date.
    pub fn get_year(&self) -> (r: i32)
        ensures
            r == self@.date.year,
    {
        self.date.year()
    }

    /// The month of the entry's date, from 1 to 12.
    pub fn get_month(&self) -> (r: u32)
        ensures
            r == self@.date.month,
            1 <= r <= 12,
    {
        self.date.month()
    }

    /// The first day of the month that the entry is booked in.
    pub fn get_first_day(&self) -> (r: Date)
        ensures
            r@ == (Ymd { year: self@.date.year, month: self@.date.month, day: 1 }),
    {
        self.date.first_day_of_month()
    }

    /// What the entry adds to the balance: the amount for income, the
    /// negated amount for an expense.
    pub fn get_price_for_summary(&self) -> (r: i64)
        ensures
            r == self@.signed_amount(),
    {
        match self.category {
            Category::Income(_) => self.price as i64,
            Category::Expense(_) => -(self.price as i64),
        }
    }
}

} // verus!
