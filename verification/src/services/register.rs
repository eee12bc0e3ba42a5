//! Registering an entry.
//!
//! A registration asks five questions, one after the other: the
//! registration type, the name, the category code, the amount, and the date.
//! Each answer is a line that the user typed. The first answer that cannot
//! be used ends the registration with an error; nothing is asked twice. With
//! the five answers the entry is made, and it is added behind the entries
//! that the store held.

use crate::calendar::parsed_date;
use crate::calendar::Date;
use crate::calendar::Ymd;
use crate::models::classify;
use crate::models::Entry;
use crate::models::InvalidCategory;
use crate::models::Item;
use crate::services::io::book_to_extend;
use crate::services::io::read_data_or_create_new_data;
use crate::services::io::Found;
use crate::services::io::StoreContent;
use crate::services::io::StoreError;
use crate::services::validate::checked_category_type;
use crate::services::validate::checked_register_type;
use crate::services::validate::InputValidator;
use crate::services::validate::ValidationError;
use crate::text::parse_unsigned;
use crate::text::parsed_unsigned;
use crate::text::trim;
use crate::text::trimmed;
use vstd::prelude::*;

verus! {

/// Why a registration ended without an entry.
#[derive(Debug, Clone, Copy, PartialEq, Eq)]
pub enum RegisterError {
    /// The registration type is not a number from 0 to 255.
    RegisterTypeNotNumeric,
    /// The category code is not a number from 0 to 255.
    CategoryTypeNotNumeric,
    /// The amount is not a number that fits in 32 bits.
    PriceNotNumeric,
    /// The date is not written as year, month and day.
    DateNotValid,
    /// A code is a number but picks none of the choices.
    Validation(ValidationError),
    /// The registration type and the category code name no category.
    Category(InvalidCategory),
    /// The store cannot be added to.
    Store(StoreError),
    /// The registration was handed something that it did not wait for.
    UnexpectedInput,
}

impl RegisterError {
    /// The text of [`RegisterError::message`].
    pub open spec fn message_text(self) -> Seq<char> {
        match self {
            RegisterError::RegisterTypeNotNumeric => "登録種別は数値で入力してください"@,
            RegisterError::CategoryTypeNotNumeric => "カテゴリ種別は数値で入力してください"@,
            RegisterError::PriceNotNumeric => "金額は数値で入力してください"@,
            RegisterError::DateNotValid => "日付はyyyy-mm-ddの形式で入力してください"@,
            RegisterError::Validation(e) => e.message_text(),
            RegisterError::Category(e) => e.message_text(),
            RegisterError::Store(e) => e.message_text(),
            RegisterError::UnexpectedInput => "入力の順序が不正です"@,
        }
    }

    /// What to tell the user.
    pub fn message(&self) -> (r: &'static str)
        ensures
            r@ == self.message_text(),
    {
        match self {
            RegisterError::RegisterTypeNotNumeric => "登録種別は数値で入力してください",
            RegisterError::CategoryTypeNotNumeric => "カテゴリ種別は数値で入力してください",
            RegisterError::PriceNotNumeric => "金額は数値で入力してください",
            RegisterError::DateNotValid => "日付はyyyy-mm-ddの形式で入力してください",
            RegisterError::Validation(e) => e.message(),
            RegisterError::Category(e) => e.message(),
            RegisterError::Store(e) => e.message(),
            RegisterError::UnexpectedInput => "入力の順序が不正です",
        }
    }
}

/// The registration type that `text` writes: a number from 0 to 255 that is
/// 0 (income) or 1 (expense).
pub open spec fn register_type_of(text: Seq<char>) -> Result<u8, RegisterError> {
    match parsed_unsigned(text, 255) {
        None => Err(RegisterError::RegisterTypeNotNumeric),
        Some(code) => match checked_register_type(code as u8) {
            Err(e) => Err(RegisterError::Validation(e)),
            Ok(_) => Ok(code as u8),
        },
    }
}

/// The category code that `text` writes: a number from 0 to 255 that is 0,
/// 1 or 2.
pub open spec fn category_type_of(register_type: u8, text: Seq<char>) -> Result<
    u8,
    RegisterError,
> {
    match parsed_unsigned(text, 255) {
        None => Err(RegisterError::CategoryTypeNotNumeric),
        Some(code) => match checked_category_type(register_type, code as u8) {
            Err(e) => Err(RegisterError::Validation(e)),
            Ok(_) => Ok(code as u8),
        },
    }
}

/// The amount that `text` writes: a number that fits in 32 bits.
pub open spec fn price_of(text: Seq<char>) -> Result<u32, RegisterError> {
    match parsed_unsigned(text, u32::MAX as nat) {
        None => Err(RegisterError::PriceNotNumeric),
        Some(price) => Ok(price as u32),
    }
}

/// The date that `line` writes.
pub open spec fn date_of(line: Seq<char>) -> Result<Ymd, RegisterError> {
    match parsed_date(line) {
        None => Err(RegisterError::DateNotValid),
        Some((year, month, day)) => Ok(Ymd { year, month, day }),
    }
}

/// Reads a registration type from a text without white space around it.
pub fn parse_register_type(text: &str) -> (r: Result<u8, RegisterError>)
    ensures
        r == register_type_of(text@),
{
    match parse_unsigned(text, 255) {
        None => Err(RegisterError::RegisterTypeNotNumeric),
        Some(code) => {
            let register_type = code as u8;
            match InputValidator::validate_register_type(register_type) {
                Err(e) => Err(RegisterError::Validation(e)),
                Ok(_) => Ok(register_type),
            }
        },
    }
}

/// Reads a category code from a text without white space around it.
pub fn parse_category_type(register_type: u8, text: &str) -> (r: Result<u8, RegisterError>)
    ensures
        r == category_type_of(register_type, text@),
{
    match parse_unsigned(text, 255) {
        None => Err(RegisterError::CategoryTypeNotNumeric),
        Some(code) => {
            let category_type = code as u8;
            match InputValidator::validate_category_type(register_type, category_type) {
                Err(e) => Err(RegisterError::Validation(e)),
                Ok(_) => Ok(category_type),
            }
        },
    }
}

/// Reads an amount from a text without white space around it.
pub fn parse_price(text: &str) -> (r: Result<u32, RegisterError>)
    ensures
        r == price_of(text@),
{
    match parse_unsigned(text, u32::MAX) {
        None => Err(RegisterError::PriceNotNumeric),
        Some(price) => Ok(price),
    }
}

/// The registration type that the user typed in `line`.
pub fn input_register_type(line: &str) -> (r: Result<u8, RegisterError>)
    ensures
        r == register_type_of(trimmed(line@)),
{
    parse_register_type(trim(line))
}

/// The name that the user typed in `line`: the line without the white space
/// at its ends. An empty name is a name.
pub fn input_name(line: &str) -> (r: String)
    ensures
        r@ == trimmed(line@),
{
    trim(line).to_owned()
}

/// The category code that the user typed in `line`.
pub fn input_category_type(register_type: u8, line: &str) -> (r: Result<u8, RegisterError>)
    ensures
        r == category_type_of(register_type, trimmed(line@)),
{
    parse_category_type(register_type, trim(line))
}

/// The amount that the user typed in `line`.
pub fn input_price(line: &str) -> (r: Result<u32, RegisterError>)
    ensures
        r == price_of(trimmed(line@)),
{
    parse_price(trim(line))
}

/// The date that the user typed in `line`.
pub fn input_date(line: &str) -> (r: Result<Date, RegisterError>)
    ensures
        match (r, date_of(line@)) {
            (Ok(date), Ok(ymd)) => date@ == ymd,
            (Err(e), Err(expected)) => e == expected,
            _ => false,
        },
{
    match Date::parse(line) {
        Some(date) => Ok(date),
        None => Err(RegisterError::DateNotValid),
    }
}

/// The entry that the answers make, for the category that the registration
/// type and the category code name.
pub open spec fn entry_of(
    register_type: u8,
    name: Seq<char>,
    category_type: u8,
    price: u32,
    date: Ymd,
) -> Result<Entry, RegisterError> {
    match classify(register_type, category_type) {
        Ok(category) => Ok(Entry { name, category, price, date }),
        Err(e) => Err(RegisterError::Category(e)),
    }
}

/// Makes the entry from the five answers.
pub fn make_item(register_type: u8, name: String, category_type: u8, price: u32, date: Date) -> (r:
    Result<Item, RegisterError>)
    ensures
        match (r, entry_of(register_type, name@, category_type, price, date@)) {
            (Ok(item), Ok(entry)) => item@ == entry,
            (Err(e), Err(expected)) => e == expected,
            _ => false,
        },
{
    match Item::get_category(register_type, category_type) {
        Ok(category) => Ok(Item::new(name, category, price, date)),
        Err(e) => Err(RegisterError::Category(e)),
    }
}

/// A registration under way: what it has been told so far, and with that
/// what it waits for.
#[derive(Debug, PartialEq, Eq)]
pub enum Registration {
    /// Waits for the line with the registration type.
    RegisterType,
    /// Waits for the line with the name.
    Name { register_type: u8 },
    /// Waits for the line with the category code.
    CategoryType { register_type: u8, name: String },
    /// Waits for the line with the amount.
    Price { register_type: u8, name: String, category_type: u8 },
    /// Waits for the line with the date.
    Date { register_type: u8, name: String, category_type: u8, price: u32 },
    /// Has made the entry and waits for what the store holds.
    Store { item: Item },
    /// Is done: `data` is what the store is to hold now, and `created` says
    /// whether the store is new.
    Done { data: Vec<Item>, created: bool },
}

/// What a registration is handed.
#[derive(Debug, PartialEq, Eq)]
pub enum Input {
    /// A line that the user typed, with the end of the line.
    Line(String),
    /// What the caller found where the store should be.
    Store(StoreContent),
}

/// What a [`Registration`] stands for.
pub enum Progress {
    RegisterType,
    Name { register_type: u8 },
    CategoryType { register_type: u8, name: Seq<char> },
    Price { register_type: u8, name: Seq<char>, category_type: u8 },
    Date { register_type: u8, name: Seq<char>, category_type: u8, price: u32 },
    Store { item: Entry },
    Done { data: Seq<Entry>, created: bool },
}

/// What an [`Input`] stands for.
pub enum Given {
    Line(Seq<char>),
    Store(Found),
}

impl View for Registration {
    type V = Progress;

    open spec fn view(&self) -> Progress {
        match *self {
            Registration::RegisterType => Progress::RegisterType,
            Registration::Name { register_type } => Progress::Name { register_type },
            Registration::CategoryType { register_type, name } => Progress::CategoryType {
                register_type,
                name: name@,
            },
            Registration::Price { register_type, name, category_type } => Progress::Price {
                register_type,
                name: name@,
                category_type,
            },
            Registration::Date { register_type, name, category_type, price } => Progress::Date {
                register_type,
                name: name@,
                category_type,
                price,
            },
            Registration::Store { item } => Progress::Store { item: item@ },
            Registration::Done { data, created } => Progress::Done {
                data: data.deep_view(),
                created,
            },
        }
    }
}

impl View for Input {
    type V = Given;

    open spec fn view(&self) -> Given {
        match *self {
            Input::Line(line) => Given::Line(line@),
            Input::Store(found) => Given::Store(found@),
        }
    }
}

/// The next state of a registration, or the error that ends it.
///
/// A line answers the question that the registration waits for. The entry is
/// made when the date has come: from the answers, with the category that the
/// registration type and the category code name. What the store held comes
/// last; the entry goes behind the entries that it held. Anything that the
/// registration does not wait for is an error, and a registration that is
/// done waits for nothing.
pub open spec fn next(progress: Progress, given: Given) -> Result<Progress, RegisterError> {
    match (progress, given) {
        (Progress::RegisterType, Given::Line(line)) => match register_type_of(trimmed(line)) {
            Ok(register_type) => Ok(Progress::Name { register_type }),
            Err(e) => Err(e),
        },
        (Progress::Name { register_type }, Given::Line(line)) => Ok(
            Progress::CategoryType { register_type, name: trimmed(line) },
        ),
        (Progress::CategoryType { register_type, name }, Given::Line(line)) => match category_type_of(
            register_type,
            trimmed(line),
        ) {
            Ok(category_type) => Ok(Progress::Price { register_type, name, category_type }),
            Err(e) => Err(e),
        },
        (Progress::Price { register_type, name, category_type }, Given::Line(line)) => match price_of(
            trimmed(line),
        ) {
            Ok(price) => Ok(Progress::Date { register_type, name, category_type, price }),
            Err(e) => Err(e),
        },
        (
            Progress::Date { register_type, name, category_type, price },
            Given::Line(line),
        ) => match date_of(line) {
            Ok(date) => match entry_of(register_type, name, category_type, price, date) {
                Ok(item) => Ok(Progress::Store { item }),
                Err(e) => Err(e),
            },
            Err(e) => Err(e),
        },
        (Progress::Store { item }, Given::Store(found)) => match book_to_extend(found) {
            Ok((entries, created)) => Ok(Progress::Done { data: entries.push(item), created }),
            Err(e) => Err(RegisterError::Store(e)),
        },
        _ => Err(RegisterError::UnexpectedInput),
    }
}

/// The lines to show the user before the registration reads its next line.
pub open spec fn prompt_text(progress: Progress) -> Seq<Seq<char>> {
    match progress {
        Progress::RegisterType => seq!["登録種別を入力してください (0:収入, 1:支出)"@],
        Progress::Name { .. } => seq!["品目名を入力してください"@],
        Progress::CategoryType { register_type, .. } => if register_type == 0 {
            seq!["カテゴリを入力してください"@, "(0:給与, 1:ボーナス, 2:その他)"@]
        } else if register_type == 1 {
            seq!["カテゴリを入力してください"@, "(0:食費, 1:趣味, 2:その他)"@]
        } else {
            seq!["カテゴリを入力してください"@]
        },
        Progress::Price { .. } => seq!["金額を入力してください"@],
        Progress::Date { .. } => seq!["日付を入力してください"@],
        Progress::Store { .. } => seq![],
        Progress::Done { .. } => seq![],
    }
}

impl Registration {
    /// A registration that has been told nothing yet.
    pub fn new() -> (r: Registration)
        ensures
            r@ == Progress::RegisterType,
    {
        Registration::RegisterType
    }

    /// The lines to show the user before the next line is read. The kinds
    /// that the category codes stand for are those of the registration type:
    /// of income for 0, of expense for 1. A registration type that is
    /// neither has no kinds to show.
    pub fn prompt(&self) -> (r: Vec<&'static str>)
        ensures
            r.deep_view() == prompt_text(self@),
    {
        let mut lines: Vec<&'static str> = Vec::new();
        match self {
            Registration::RegisterType => {
                lines.push("登録種別を入力してください (0:収入, 1:支出)");
            },
            Registration::Name { .. } => {
                lines.push("品目名を入力してください");
            },
            Registration::CategoryType { register_type, .. } => {
                lines.push("カテゴリを入力してください");
                if *register_type == 0 {
                    lines.push("(0:給与, 1:ボーナス, 2:その他)");
                } else if *register_type == 1 {
                    lines.push("(0:食費, 1:趣味, 2:その他)");
                }
            },
            Registration::Price { .. } => {
                lines.push("金額を入力してください");
            },
            Registration::Date { .. } => {
                lines.push("日付を入力してください");
            },
            Registration::Store { .. } => {},
            Registration::Done { .. } => {},
        }
        lines
    }
}

/// Takes a registration one step on: hands it a line that the user typed,
/// or what the store held, and answers with the state that follows or with
/// the error that ends the registration.
pub fn run(state: Registration, input: Input) -> (r: Result<Registration, RegisterError>)
    ensures
        match (r, next(state@, input@)) {
            (Ok(following), Ok(progress)) => following@ == progress,
            (Err(e), Err(expected)) => e == expected,
            _ => false,
        },
{
    match (state, input) {
        (Registration::RegisterType, Input::Line(line)) => {
            match input_register_type(line.as_str()) {
                Ok(register_type) => Ok(Registration::Name { register_type }),
                Err(e) => Err(e),
            }
        },
        (Registration::Name { register_type }, Input::Line(line)) => {
            let name = input_name(line.as_str());
            Ok(Registration::CategoryType { register_type, name })
        },
        (Registration::CategoryType { register_type, name }, Input::Line(line)) => {
            match input_category_type(register_type, line.as_str()) {
                Ok(category_type) => Ok(Registration::Price { register_type, name, category_type }),
                Err(e) => Err(e),
            }
        },
        (Registration::Price { register_type, name, category_type }, Input::Line(line)) => {
            match input_price(line.as_str()) {
                Ok(price) => Ok(Registration::Date { register_type, name, category_type, price }),
                Err(e) => Err(e),
            }
        },
        (Registration::Date { register_type, name, category_type, price }, Input::Line(line)) => {
            match input_date(line.as_str()) {
                Ok(date) => match make_item(register_type, name, category_type, price, date) {
                    Ok(item) => Ok(Registration::Store { item }),
                    Err(e) => Err(e),
                },
                Err(e) => Err(e),
            }
        },
        (Registration::Store { item }, Input::Store(found)) => {
            match read_data_or_create_new_data(found) {
                Ok((data, created)) => {
                    let ghost held = data.deep_view();
                    let mut data = data;
                    data.push(item);
                    assert(data.deep_view() =~= held.push(item@));
                    Ok(Registration::Done { data, created })
                },
                Err(e) => Err(RegisterError::Store(e)),
            }
        },
        _ => Err(RegisterError::UnexpectedInput),
    }
}

} // verus!
