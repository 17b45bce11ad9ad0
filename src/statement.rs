//! Rendering of an account history into the lines of a statement.
use vstd::prelude::*;
use crate::decimal::{append_decimal, decimal};
use crate::transaction::{views, Transaction, TransactionView};

verus! {

/// The first line of every statement.
pub const HEADER: &'static str = "Date       || Amount || Balance";

/// What stands between the date and the amount of a line.
pub const DATE_SEPARATOR: &'static str = " || ";

/// What stands between the amount and the balance of a line.
pub const AMOUNT_SEPARATOR: &'static str = "    || ";

/// The padding that ends every line after the balance.
pub const BALANCE_PADDING: &'static str = "    ";

/// The sum of the amounts of `h`.
pub open spec fn amount_sum(h: Seq<TransactionView>) -> nat
    decreases h.len(),
{
    if h.len() == 0 {
        0
    } else {
        amount_sum(h.drop_last()) + h.last().amount()
    }
}

/// The statement line of a transaction dated `date` moving `amount`,
/// after which the balance is `balance`.
pub open spec fn line_text(date: Seq<char>, amount: nat, balance: nat) -> Seq<char> {
    date + DATE_SEPARATOR@ + decimal(amount) + AMOUNT_SEPARATOR@ + decimal(balance)
        + BALANCE_PADDING@
}

/// The line of the `i`-th transaction of `h` (oldest first), whose balance is
/// the sum of the amounts of the first `i + 1` transactions.
pub open spec fn entry_line(h: Seq<TransactionView>, i: int) -> Seq<char> {
    line_text(h[i].date(), h[i].amount(), amount_sum(h.take(i + 1)))
}

/// The line of each transaction of `h`, oldest first.
pub open spec fn body(h: Seq<TransactionView>) -> Seq<Seq<char>> {
    Seq::new(h.len(), |i: int| entry_line(h, i))
}

/// The statement of history `h`: the header, then the lines of the
/// transactions, most recent first.
pub open spec fn statement(h: Seq<TransactionView>) -> Seq<Seq<char>> {
    seq![HEADER@] + body(h).reverse()
}

/// The text of each string of `v`, in the same order.
pub open spec fn texts(v: Seq<String>) -> Seq<Seq<char>> {
    v.map_values(|s: String| s@)
}

/// The sum of `n` amounts is at most `n` times the largest amount.
proof fn lemma_amount_sum_bound(h: Seq<TransactionView>)
    ensures
        amount_sum(h) <= h.len() * (u64::MAX as nat),
    decreases h.len(),
{
    if h.len() > 0 {
        lemma_amount_sum_bound(h.drop_last());
        assert(h.last().amount() <= u64::MAX);
    }
}

/// The statement line of a transaction dated `date` moving `amount`, after
/// which the balance is `balance`.
pub fn format_line(date: &String, amount: u64, balance: u128) -> (r: String)
    ensures
        r@ == line_text(date@, amount as nat, balance as nat),
{
    let mut s = date.clone();
    s.append(DATE_SEPARATOR);
    append_decimal(&mut s, amount as u128);
    s.append(AMOUNT_SEPARATOR);
    append_decimal(&mut s, balance);
    s.append(BALANCE_PADDING);
    s
}

/// The lines of a statement of `history` (oldest first): the header, then one
/// line per transaction, most recent first, each with the balance after it.
pub fn statement_lines(history: &Vec<Transaction>) -> (r: Vec<String>)
    ensures
        texts(r@) == statement(views(history@)),
{
    let ghost h = views(history@);
    let mut lines: Vec<String> = Vec::new();
    let mut total: u128 = 0;
    let mut i: usize = 0;
    while i < history.len()
        invariant
            h == views(history@),
            i <= history@.len(),
            total == amount_sum(h.take(i as int)),
            texts(lines@) == body(h).take(i as int),
        decreases history@.len() - i,
    {
        proof {
            lemma_amount_sum_bound(h.take(i as int));
            assert((i as nat) * (u64::MAX as nat) + (u64::MAX as nat) <= u128::MAX) by (nonlinear_arith)
                requires
                    i < 0x1_0000_0000_0000_0000nat,
            ;
            assert(h.take(i + 1).drop_last() =~= h.take(i as int));
        }
        let t = &history[i];
        total = total + t.amount() as u128;
        let line = format_line(t.date(), t.amount(), total);
        let ghost before = lines@;
        lines.push(line);
        proof {
            assert(texts(lines@) =~= texts(before).push(line@));
            assert(body(h).take(i + 1) =~= body(h).take(i as int).push(entry_line(h, i as int)));
        }
        i = i + 1;
    }
    assert(body(h).take(i as int) =~= body(h));
    let mut r: Vec<String> = Vec::new();
    r.push(String::from_str(HEADER));
    let mut k: usize = lines.len();
    while k > 0
        invariant
            k <= lines@.len(),
            texts(lines@) == body(h),
            texts(r@) == seq![HEADER@] + body(h).reverse().take(lines@.len() - k),
        decreases k,
    {
        k = k - 1;
        let ghost before = r@;
        r.push(lines[k].clone());
        proof {
            assert(texts(r@) =~= texts(before).push(lines@[k as int]@));
            assert(body(h).reverse().take(lines@.len() - k) =~= body(h).reverse().take(
                lines@.len() - k - 1,
            ).push(body(h)[k as int]));
        }
    }
    assert(body(h).reverse().take(lines@.len() as int) =~= body(h).reverse());
    r
}

/// A statement has one line per transaction besides the header, and the
/// header comes first.
pub proof fn lemma_statement_shape(h: Seq<TransactionView>)
    ensures
        statement(h).len() == h.len() + 1,
        statement(h)[0] == HEADER@,
{
}

/// The statement of an empty history is the header alone.
pub proof fn lemma_empty_statement()
    ensures
        statement(Seq::<TransactionView>::empty()) == seq![HEADER@],
{
    assert(statement(Seq::<TransactionView>::empty()) =~= seq![HEADER@]);
}

/// The line of the `i`-th transaction (counting from one, oldest first)
/// shows as balance the sum of the first `i` amounts, which is the balance of
/// the line before it plus that transaction's amount.
pub proof fn lemma_running_balance(h: Seq<TransactionView>, i: int)
    requires
        1 <= i <= h.len(),
    ensures
        statement(h)[h.len() - i + 1] == line_text(
            h[i - 1].date(),
            h[i - 1].amount(),
            amount_sum(h.take(i)),
        ),
        amount_sum(h.take(i)) == amount_sum(h.take(i - 1)) + h[i - 1].amount(),
{
    assert(h.take(i).drop_last() =~= h.take(i - 1));
}

/// The transaction lines come in reverse order of recording: the line right
/// below the header is that of the most recent transaction, and the `j`-th
/// line below the header is that of the `j`-th most recent one.
pub proof fn lemma_newest_first(h: Seq<TransactionView>)
    ensures
        forall|j: int| 0 <= j < h.len() ==> #[trigger] statement(h)[j + 1] == entry_line(h, h.len() - 1 - j),
        h.len() > 0 ==> statement(h)[1] == entry_line(h, h.len() - 1),
{
}

/// Recording transaction `t` puts its line right below the header, with
/// the balance grown by its amount, and keeps the earlier lines below it in
/// the same order.
pub proof fn lemma_statement_after_record(h: Seq<TransactionView>, t: TransactionView)
    ensures
        statement(h.push(t)) == seq![
            HEADER@,
            line_text(t.date(), t.amount(), amount_sum(h) + t.amount()),
        ] + statement(h).drop_first(),
{
    let g = h.push(t);
    assert(g.take(g.len() as int) =~= g);
    assert(g.drop_last() =~= h);
    assert forall|i: int| 0 <= i < h.len() implies entry_line(g, i) == entry_line(h, i) by {
        assert(g.take(i + 1) =~= h.take(i + 1));
    }
    assert(body(g) =~= body(h).push(entry_line(g, h.len() as int)));
    assert(statement(g) =~= seq![
        HEADER@,
        line_text(t.date(), t.amount(), amount_sum(h) + t.amount()),
    ] + statement(h).drop_first());
}

} // verus!
