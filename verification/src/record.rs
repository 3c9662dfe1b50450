//! Logged opportunities, and the rows that they take in the database.

use crate::digits::{decimal, decimal_u64, law_decimal_reads_back};
use crate::number::Real;
use crate::quote::Dex;
use crate::text::joined;
use vstd::prelude::*;
use vstd::string::*;

verus! {

/// Makes the table of opportunities where there is none yet.
pub const SCHEMA_SQL: &'static str = "CREATE TABLE IF NOT EXISTS opportunities (
            id INTEGER PRIMARY KEY AUTOINCREMENT,
            ts TEXT NOT NULL,
            dex_buy TEXT NOT NULL,
            price_buy REAL NOT NULL,
            dex_sell TEXT NOT NULL,
            price_sell REAL NOT NULL,
            trade_size_weth REAL NOT NULL,
            gross_profit_usdc REAL NOT NULL,
            gas_cost_usdc REAL NOT NULL,
            net_profit_usdc REAL NOT NULL,
            tx_estimated_gas INTEGER,
            notes TEXT
        );";

/// Adds a row to the table. The values are those of `Opportunity::row`, in that order.
pub const INSERT_SQL: &'static str =
    "INSERT INTO opportunities (ts, dex_buy, price_buy, dex_sell, price_sell, trade_size_weth, gross_profit_usdc, gas_cost_usdc, net_profit_usdc, tx_estimated_gas, notes)
         VALUES (?1,?2,?3,?4,?5,?6,?7,?8,?9,?10,?11)";

/// Reads the time and the net profit of the row that was added last.
pub const LAST_ROW_SQL: &'static str =
    "SELECT ts, net_profit_usdc FROM opportunities ORDER BY id DESC LIMIT 1";

/// An opportunity worth logging.
pub struct Opportunity {
    pub ts: String,
    pub dex_buy: Dex,
    pub price_buy: Real,
    pub dex_sell: Dex,
    pub price_sell: Real,
    pub trade_size_weth: Real,
    pub gross: Real,
    pub gas_usdc: Real,
    pub net: Real,
    pub tx_gas: Option<u64>,
    pub notes: Option<String>,
}

/// A value of a database row.
pub enum SqlValue {
    Text(String),
    Number(Real),
    Count(u64),
    Null,
}

/// A value of a database row, as a contract sees it.
pub enum SqlValueView {
    Text(Seq<char>),
    Number(Real),
    Count(u64),
    Null,
}

impl View for SqlValue {
    type V = SqlValueView;

    open spec fn view(&self) -> SqlValueView {
        match self {
            SqlValue::Text(s) => SqlValueView::Text(s@),
            SqlValue::Number(x) => SqlValueView::Number(*x),
            SqlValue::Count(n) => SqlValueView::Count(*n),
            SqlValue::Null => SqlValueView::Null,
        }
    }
}

/// How the gas of a swap is noted in a record.
pub open spec fn gas_note(gas: Option<u64>) -> Seq<char> {
    match gas {
        Some(g) => "gas_est=Some("@ + decimal(g as nat) + ")"@,
        None => "gas_est=None"@,
    }
}

/// How the gas of a swap is noted in a record.
pub fn gas_notes(gas: Option<u64>) -> (r: String)
    ensures
        r@ == gas_note(gas),
        gas matches Some(g) ==> r@ == "gas_est=Some("@ + decimal(g as nat) + ")"@,
        gas is None ==> r@ == "gas_est=None"@,
{
    match gas {
        Some(g) => {
            let number = decimal_u64(g);
            joined("gas_est=Some(", number.as_str()).concat(")")
        },
        None => String::from_str("gas_est=None"),
    }
}

impl Opportunity {
    /// The values of the row, column by column.
    pub open spec fn spec_row(self) -> Seq<SqlValueView> {
        seq![
            SqlValueView::Text(self.ts@),
            SqlValueView::Text(self.dex_buy.spec_name()),
            SqlValueView::Number(self.price_buy),
            SqlValueView::Text(self.dex_sell.spec_name()),
            SqlValueView::Number(self.price_sell),
            SqlValueView::Number(self.trade_size_weth),
            SqlValueView::Number(self.gross),
            SqlValueView::Number(self.gas_usdc),
            SqlValueView::Number(self.net),
            match self.tx_gas {
                Some(g) => SqlValueView::Count(g),
                None => SqlValueView::Null,
            },
            match self.notes {
                Some(s) => SqlValueView::Text(s@),
                None => SqlValueView::Null,
            },
        ]
    }

    /// The values of the row that logs the opportunity, in the order of `INSERT_SQL`.
    pub fn row(&self) -> (r: Vec<SqlValue>)
        ensures
            r@.len() == self.spec_row().len(),
            forall|i: int| 0 <= i < r@.len() ==> #[trigger] r@[i]@ == self.spec_row()[i],
            r@.len() == 11,
            r@[0] matches SqlValue::Text(s) && s@ == self.ts@,
            r@[1] matches SqlValue::Text(s) && s@ == (if self.dex_buy is First {
                "DEX1"@
            } else {
                "DEX2"@
            }),
            r@[2] == SqlValue::Number(self.price_buy),
            r@[3] matches SqlValue::Text(s) && s@ == (if self.dex_sell is First {
                "DEX1"@
            } else {
                "DEX2"@
            }),
            r@[4] == SqlValue::Number(self.price_sell),
            r@[5] == SqlValue::Number(self.trade_size_weth),
            r@[6] == SqlValue::Number(self.gross),
            r@[7] == SqlValue::Number(self.gas_usdc),
            r@[8] == SqlValue::Number(self.net),
            self.tx_gas matches Some(g) ==> r@[9] == SqlValue::Count(g),
            self.tx_gas is None ==> r@[9] is Null,
            self.notes matches Some(n) ==> (r@[10] matches SqlValue::Text(s) && s@ == n@),
            self.notes is None ==> r@[10] is Null,
    {
        let mut row: Vec<SqlValue> = Vec::new();
        row.push(SqlValue::Text(self.ts.clone()));
        row.push(SqlValue::Text(String::from_str(self.dex_buy.name())));
        row.push(SqlValue::Number(self.price_buy));
        row.push(SqlValue::Text(String::from_str(self.dex_sell.name())));
        row.push(SqlValue::Number(self.price_sell));
        row.push(SqlValue::Number(self.trade_size_weth));
        row.push(SqlValue::Number(self.gross));
        row.push(SqlValue::Number(self.gas_usdc));
        row.push(SqlValue::Number(self.net));
        row.push(
            match self.tx_gas {
                Some(g) => SqlValue::Count(g),
                None => SqlValue::Null,
            },
        );
        row.push(
            match &self.notes {
                Some(s) => SqlValue::Text(s.clone()),
                None => SqlValue::Null,
            },
        );
        row
    }
}

/// Each value of a row is the field that its column is named after, whatever the others hold: a
/// row gives every number of the opportunity back.
pub proof fn law_row_gives_the_fields_back(o: Opportunity)
    ensures
        o.spec_row().len() == 11,
        o.spec_row()[0] == SqlValueView::Text(o.ts@),
        o.spec_row()[1] == SqlValueView::Text(
            if o.dex_buy is First {
                "DEX1"@
            } else {
                "DEX2"@
            },
        ),
        o.spec_row()[2] == SqlValueView::Number(o.price_buy),
        o.spec_row()[3] == SqlValueView::Text(
            if o.dex_sell is First {
                "DEX1"@
            } else {
                "DEX2"@
            },
        ),
        o.spec_row()[4] == SqlValueView::Number(o.price_sell),
        o.spec_row()[5] == SqlValueView::Number(o.trade_size_weth),
        o.spec_row()[6] == SqlValueView::Number(o.gross),
        o.spec_row()[7] == SqlValueView::Number(o.gas_usdc),
        o.spec_row()[8] == SqlValueView::Number(o.net),
        o.tx_gas matches Some(g) ==> o.spec_row()[9] == SqlValueView::Count(g),
        o.tx_gas is None ==> o.spec_row()[9] is Null,
        o.notes matches Some(n) ==> o.spec_row()[10] == SqlValueView::Text(n@),
        o.notes is None ==> o.spec_row()[10] is Null,
{
}

/// A row changes in a column exactly where the opportunity changes in the field: two
/// opportunities with the same row have the same numbers.
pub proof fn law_rows_are_unambiguous(a: Opportunity, b: Opportunity)
    requires
        a.spec_row() == b.spec_row(),
    ensures
        a.ts@ == b.ts@,
        a.dex_buy == b.dex_buy,
        a.dex_sell == b.dex_sell,
        a.price_buy == b.price_buy,
        a.price_sell == b.price_sell,
        a.trade_size_weth == b.trade_size_weth,
        a.gross == b.gross,
        a.gas_usdc == b.gas_usdc,
        a.net == b.net,
        a.tx_gas == b.tx_gas,
{
    law_row_gives_the_fields_back(a);
    law_row_gives_the_fields_back(b);
    reveal_strlit("DEX1");
    reveal_strlit("DEX2");
    assert("DEX1"@[3] != "DEX2"@[3]);
}

/// A value of a row is seen as what it is.
pub proof fn law_values_are_seen_as_they_are(s: String, x: Real, n: u64)
    ensures
        SqlValue::Text(s)@ == SqlValueView::Text(s@),
        SqlValue::Number(x)@ == SqlValueView::Number(x),
        SqlValue::Count(n)@ == SqlValueView::Count(n),
        SqlValue::Null@ is Null,
{
}

/// The note tells the gas: two notes are the same only for the same gas.
pub proof fn law_notes_are_unambiguous(a: Option<u64>, b: Option<u64>)
    requires
        gas_note(a) == gas_note(b),
    ensures
        a == b,
{
    reveal_strlit("gas_est=Some(");
    reveal_strlit("gas_est=None");
    reveal_strlit(")");
    let front = "gas_est=Some("@;
    let back = ")"@;
    match (a, b) {
        (Some(x), Some(y)) => {
            let s = gas_note(a);
            let dx = decimal(x as nat);
            let dy = decimal(y as nat);
            assert(s.subrange(front.len() as int, s.len() - 1) =~= dx);
            assert(s.subrange(front.len() as int, s.len() - 1) =~= dy);
            law_decimal_reads_back(x as nat);
            law_decimal_reads_back(y as nat);
        },
        (Some(_), None) => {
            assert(gas_note(a)[8] == 'S');
            assert(gas_note(b)[8] == 'N');
        },
        (None, Some(_)) => {
            assert(gas_note(a)[8] == 'N');
            assert(gas_note(b)[8] == 'S');
        },
        (None, None) => {},
    }
}

} // verus!
