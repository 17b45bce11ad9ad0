use std::cell::RefCell;

use bank_account::account::{Account, AccountError};
use bank_account::calendar::Calendar;
use bank_account::printer::RecordingPrinter;
use bank_account::repository::{InMemoryTransactionRepository, TransactionsRepository};
use bank_account::statement::HEADER;

/// A calendar that hands out the given dates in turn, then keeps the last one.
struct ScriptedCalendar {
    dates: Vec<String>,
    next: RefCell<usize>,
}

impl ScriptedCalendar {
    fn new(dates: &[&str]) -> Self {
        ScriptedCalendar {
            dates: dates.iter().map(|d| d.to_string()).collect(),
            next: RefCell::new(0),
        }
    }

    fn calls(&self) -> usize {
        *self.next.borrow()
    }
}

impl Calendar for ScriptedCalendar {
    fn today(&self) -> String {
        let mut next = self.next.borrow_mut();
        let i = (*next).min(self.dates.len() - 1);
        *next += 1;
        self.dates[i].clone()
    }
}

type TestAccount = Account<RecordingPrinter, InMemoryTransactionRepository, ScriptedCalendar>;

fn account_with_dates(dates: &[&str]) -> TestAccount {
    Account::new(
        RecordingPrinter::new(),
        InMemoryTransactionRepository::new(),
        ScriptedCalendar::new(dates),
    )
}

fn printed(account: &TestAccount) -> Vec<String> {
    account.printer.lines().clone()
}

#[test]
fn it_works() {
    assert!(true)
}

#[test]
fn new_bank_account_statement() {
    let mut account = account_with_dates(&[]);
    account.print_statement();
    assert_eq!(printed(&account), vec!["Date       || Amount || Balance"]);
}

#[test]
fn bank_account_statement_with_a_deposit() {
    let mut account = account_with_dates(&["15/04/2025"]);
    account.deposit(100);
    account.print_statement();
    assert_eq!(
        printed(&account),
        vec!["Date       || Amount || Balance", "15/04/2025 || 100    || 100    "]
    );
}

#[test]
fn bank_account_statement_with_two_deposits() {
    let mut account = account_with_dates(&["15/04/2025"]);
    account.deposit(100);
    account.deposit(200);
    account.print_statement();
    assert_eq!(
        printed(&account),
        vec![
            "Date       || Amount || Balance",
            "15/04/2025 || 200    || 300    ",
            "15/04/2025 || 100    || 100    ",
        ]
    );
}

#[test]
fn bank_account_statement_with_two_deposits_on_different_days() {
    let mut account = account_with_dates(&["15/04/2025", "16/04/2025"]);
    account.deposit(100);
    account.deposit(200);
    account.print_statement();
    assert_eq!(account.calendar.calls(), 2);
    assert_eq!(
        printed(&account),
        vec![
            "Date       || Amount || Balance",
            "16/04/2025 || 200    || 300    ",
            "15/04/2025 || 100    || 100    ",
        ]
    );
}

#[test]
fn statement_has_one_line_per_deposit_plus_header() {
    let mut account = account_with_dates(&["01/01/2024"]);
    for amount in [5u64, 10, 15, 20, 25] {
        account.deposit(amount);
    }
    account.print_statement();
    let lines = printed(&account);
    assert_eq!(lines.len(), 6);
    assert_eq!(lines[0], HEADER);
}

#[test]
fn running_balance_is_sum_of_earlier_deposits() {
    let mut account = account_with_dates(&["01/01/2024"]);
    account.deposit(7);
    account.deposit(30);
    account.deposit(1000);
    account.print_statement();
    assert_eq!(
        printed(&account),
        vec![
            "Date       || Amount || Balance",
            "01/01/2024 || 1000    || 1037    ",
            "01/01/2024 || 30    || 37    ",
            "01/01/2024 || 7    || 7    ",
        ]
    );
}

#[test]
fn lines_come_newest_first() {
    let mut account = account_with_dates(&["a", "b", "c"]);
    account.deposit(1);
    account.deposit(2);
    account.deposit(3);
    account.print_statement();
    assert_eq!(
        printed(&account),
        vec![
            "Date       || Amount || Balance",
            "c || 3    || 6    ",
            "b || 2    || 3    ",
            "a || 1    || 1    ",
        ]
    );
}

#[test]
fn printing_twice_gives_the_same_lines() {
    let mut account = account_with_dates(&["15/04/2025", "16/04/2025"]);
    account.deposit(100);
    account.deposit(200);
    account.print_statement();
    let first = printed(&account);
    account.print_statement();
    let both = printed(&account);
    assert_eq!(both.len(), 2 * first.len());
    assert_eq!(both[first.len()..].to_vec(), first);
}

#[test]
fn zero_and_largest_amounts_are_rendered_in_full() {
    let mut account = account_with_dates(&["d"]);
    account.deposit(0);
    account.deposit(u64::MAX);
    account.deposit(u64::MAX);
    account.print_statement();
    assert_eq!(
        printed(&account),
        vec![
            "Date       || Amount || Balance",
            "d || 18446744073709551615    || 36893488147419103230    ",
            "d || 18446744073709551615    || 18446744073709551615    ",
            "d || 0    || 0    ",
        ]
    );
}

#[test]
fn deposit_on_uses_the_given_date() {
    let mut account = account_with_dates(&["never"]);
    account.deposit_on("29/02/2024".to_string(), 42);
    account.print_statement();
    assert_eq!(account.calendar.calls(), 0);
    assert_eq!(
        printed(&account),
        vec!["Date       || Amount || Balance", "29/02/2024 || 42    || 42    "]
    );
}

#[test]
fn withdraw_is_unsupported_and_changes_nothing() {
    let mut account = account_with_dates(&["15/04/2025"]);
    account.deposit(100);
    assert_eq!(account.withdraw(50), Err(AccountError::UnsupportedOperation));
    assert_eq!(account.transactions_repository.all().len(), 1);
    account.print_statement();
    assert_eq!(
        printed(&account),
        vec!["Date       || Amount || Balance", "15/04/2025 || 100    || 100    "]
    );
}
