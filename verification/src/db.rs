//! Trusted access to SQLite through rusqlite, and the verified decimal
//! encoding used to bind numeric parameters as text.

use vstd::prelude::*;

verus! {

#[verifier::external_type_specification]
#[verifier::external_body]
pub struct ExConnection(rusqlite::Connection);

/// Relies on `rusqlite::Connection::open`: opens (or creates) the SQLite
/// database behind the path. Success depends on the disk, so only the
/// shape is fixed; a failure carries the underlying cause as text.
#[verifier::external_body]
pub(crate) fn open_connection(path: &str) -> Result<rusqlite::Connection, String> {
    rusqlite::Connection::open(path).map_err(|e| e.to_string())
}

/// Relies on `rusqlite::Connection::query_row`: runs the statement with
/// the two bound text parameters and hands back the first row's first
/// column as an integer. What comes back depends on the database file,
/// so nothing is promised of the value.
#[verifier::external_body]
pub(crate) fn query_single_i64(
    conn: &rusqlite::Connection,
    sql: &str,
    p1: &str,
    p2: &str,
) -> Result<i64, String> {
    conn.query_row(sql, [p1, p2], |row| row.get::<_, i64>(0)).map_err(|e| e.to_string())
}

/// Relies on `rusqlite::Connection::execute`: runs the statement with
/// the given positional text parameters and hands back the number of
/// rows changed. The outcome depends on the database file, so nothing is
/// promised of the value.
#[verifier::external_body]
pub(crate) fn execute_sql(
    conn: &rusqlite::Connection,
    sql: &str,
    params: &Vec<String>,
) -> Result<usize, String> {
    conn.execute(sql, rusqlite::params_from_iter(params.iter())).map_err(|e| e.to_string())
}

pub open spec fn dec_digit_char(d: int) -> char {
    if d == 0 {
        '0'
    } else if d == 1 {
        '1'
    } else if d == 2 {
        '2'
    } else if d == 3 {
        '3'
    } else if d == 4 {
        '4'
    } else if d == 5 {
        '5'
    } else if d == 6 {
        '6'
    } else if d == 7 {
        '7'
    } else if d == 8 {
        '8'
    } else {
        '9'
    }
}

/// The decimal digits of a nonnegative integer, most significant first.
pub open spec fn spec_nat_digits(n: int) -> Seq<char>
    decreases n,
{
    if n < 10 {
        seq![dec_digit_char(n)]
    } else {
        spec_nat_digits(n / 10).push(dec_digit_char(n % 10))
    }
}

/// The decimal rendering of a signed integer: its digits, preceded by
/// `-` when negative.
pub open spec fn spec_i64_string(v: int) -> Seq<char> {
    if v < 0 {
        seq!['-'] + spec_nat_digits(-v)
    } else {
        spec_nat_digits(v)
    }
}

/// The one-character string for a decimal digit.
fn digit_str(d: u64) -> (r: &'static str)
    requires
        d < 10,
    ensures
        r@ == seq![dec_digit_char(d as int)],
{
    proof {
        reveal_strlit("0");
        reveal_strlit("1");
        reveal_strlit("2");
        reveal_strlit("3");
        reveal_strlit("4");
        reveal_strlit("5");
        reveal_strlit("6");
        reveal_strlit("7");
        reveal_strlit("8");
        reveal_strlit("9");
    }
    match d {
        0 => "0",
        1 => "1",
        2 => "2",
        3 => "3",
        4 => "4",
        5 => "5",
        6 => "6",
        7 => "7",
        8 => "8",
        _ => "9",
    }
}

/// The decimal digits of a nonnegative value, most significant first.
fn nat_digits_string(n: u64) -> (r: String)
    ensures
        r@ == spec_nat_digits(n as int),
    decreases n,
{
    if n < 10 {
        String::from_str(digit_str(n))
    } else {
        let mut s = nat_digits_string(n / 10);
        s.append(digit_str(n % 10));
        proof {
            assert(s@ =~= spec_nat_digits((n / 10) as int).push(dec_digit_char((n % 10) as int)));
        }
        s
    }
}

/// Renders a value in decimal, with `-` ahead of a negative one.
pub(crate) fn i64_to_string(v: i64) -> (r: String)
    ensures
        r@ == spec_i64_string(v as int),
{
    if v < 0 {
        let magnitude: u64 = if v == i64::MIN {
            9_223_372_036_854_775_808u64
        } else {
            (-v) as u64
        };
        proof {
            assert(magnitude as int == -(v as int));
            reveal_strlit("-");
        }
        let mut s = String::from_str("-");
        let digits = nat_digits_string(magnitude);
        s.append(digits.as_str());
        proof {
            assert(s@ =~= seq!['-'] + spec_nat_digits(magnitude as int));
        }
        s
    } else {
        nat_digits_string(v as u64)
    }
}

} // verus!
