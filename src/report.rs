//! The wallets to look up, and the one line of output that each of them gets.
use crate::rpc::FetchError;
use vstd::prelude::*;
use vstd::string::StringExecFns;

verus! {

/// What a run looks up: the wallets, in order and possibly repeated, and the
/// endpoint that answers for them.
pub struct Config {
    pub wallets: Vec<String>,
    pub rpc_url: String,
}

/// Where a line of output goes.
#[derive(Debug, Clone, Copy, PartialEq, Eq, Structural)]
pub enum Stream {
    Stdout,
    Stderr,
}

/// One line of output: its stream and its text, without the line break.
#[derive(Debug)]
pub struct OutputLine {
    pub stream: Stream,
    pub text: String,
}

/// The character of a decimal digit.
pub open spec fn digit_char(d: nat) -> char {
    if d == 0 { '0' }
    else if d == 1 { '1' }
    else if d == 2 { '2' }
    else if d == 3 { '3' }
    else if d == 4 { '4' }
    else if d == 5 { '5' }
    else if d == 6 { '6' }
    else if d == 7 { '7' }
    else if d == 8 { '8' }
    else { '9' }
}

/// The decimal numeral of `n`, without leading zeros.
pub open spec fn decimal_digits(n: nat) -> Seq<char>
    decreases n,
{
    if n < 10 {
        seq![digit_char(n)]
    } else {
        decimal_digits(n / 10) + seq![digit_char(n % 10)]
    }
}

/// Why a lookup failed, in words.
pub open spec fn reason_text(e: FetchError) -> Seq<char> {
    match e {
        FetchError::Transport(cause) => cause@,
        FetchError::Parse => "error decoding response body"@,
        FetchError::InvalidResponse => "Invalid response from RPC"@,
    }
}

/// The stream of the line for an outcome.
pub open spec fn line_stream(outcome: Result<u64, FetchError>) -> Stream {
    match outcome {
        Ok(_) => Stream::Stdout,
        Err(_) => Stream::Stderr,
    }
}

/// The text of the line for `wallet` and its outcome.
pub open spec fn line_text(wallet: Seq<char>, outcome: Result<u64, FetchError>) -> Seq<char> {
    match outcome {
        Ok(n) => wallet + ": "@ + decimal_digits(n as nat) + " lamports"@,
        Err(e) => "Failed to get balance for "@ + wallet + ": "@ + reason_text(e),
    }
}

/// The lines of a run, one per position: the wallet there and its outcome.
pub open spec fn report_lines(
    wallets: Seq<String>,
    outcomes: Seq<Result<u64, FetchError>>,
) -> Seq<(Stream, Seq<char>)> {
    Seq::new(
        wallets.len(),
        |i: int| (line_stream(outcomes[i]), line_text(wallets[i]@, outcomes[i])),
    )
}

/// The items of `s` at the positions that `order` lists, in that order.
pub open spec fn in_order<A>(s: Seq<A>, order: Seq<int>) -> Seq<A> {
    order.map_values(|j: int| s[j])
}

/// The text of one decimal digit.
fn digit_text(d: u64) -> (r: &'static str)
    requires
        d < 10,
    ensures
        r@ == seq![digit_char(d as nat)],
{
    proof {
        reveal_strlit("0");
        reveal_strlit("1");
        reveal_strlit("2");
        reveal_strlit("3");
        reveal_strlit("4");
        reveal_strlit("5");
        reveal_strlit("6");
        reveal_strlit("7");
        reveal_strlit("8");
        reveal_strlit("9");
    }
    if d == 0 { "0" }
    else if d == 1 { "1" }
    else if d == 2 { "2" }
    else if d == 3 { "3" }
    else if d == 4 { "4" }
    else if d == 5 { "5" }
    else if d == 6 { "6" }
    else if d == 7 { "7" }
    else if d == 8 { "8" }
    else { "9" }
}

/// The decimal numeral of `n`.
pub fn decimal(n: u64) -> (r: String)
    ensures
        r@ == decimal_digits(n as nat),
    decreases n,
{
    if n < 10 {
        String::from_str(digit_text(n))
    } else {
        let mut s = decimal(n / 10);
        s.append(digit_text(n % 10));
        s
    }
}

/// Why a lookup failed, in words.
pub fn failure_reason(e: &FetchError) -> (r: String)
    ensures
        r@ == reason_text(*e),
{
    match e {
        FetchError::Transport(cause) => cause.clone(),
        FetchError::Parse => String::from_str("error decoding response body"),
        FetchError::InvalidResponse => String::from_str("Invalid response from RPC"),
    }
}

/// The line for `wallet`: its balance on standard output, or why it could not
/// be had on standard error.
pub fn report_line(wallet: &str, outcome: &Result<u64, FetchError>) -> (r: OutputLine)
    ensures
        r.stream == line_stream(*outcome),
        r.text@ == line_text(wallet@, *outcome),
{
    match outcome {
        Ok(n) => {
            let mut text = String::from_str(wallet);
            text.append(": ");
            let digits = decimal(*n);
            text.append(digits.as_str());
            text.append(" lamports");
            OutputLine { stream: Stream::Stdout, text }
        },
        Err(e) => {
            let mut text = String::from_str("Failed to get balance for ");
            text.append(wallet);
            text.append(": ");
            let reason = failure_reason(e);
            text.append(reason.as_str());
            OutputLine { stream: Stream::Stderr, text }
        },
    }
}

/// The lines of a run: for each wallet of `config`, in order, the line for the
/// outcome at the same position of `outcomes`.
pub fn report_all(config: &Config, outcomes: &Vec<Result<u64, FetchError>>) -> (r: Vec<OutputLine>)
    requires
        outcomes@.len() == config.wallets@.len(),
    ensures
        r@.len() == config.wallets@.len(),
        forall|i: int|
            0 <= i < r@.len() ==> (#[trigger] r@[i]).stream == report_lines(
                config.wallets@,
                outcomes@,
            )[i].0 && r@[i].text@ == report_lines(config.wallets@, outcomes@)[i].1,
{
    let mut lines: Vec<OutputLine> = Vec::new();
    let mut i: usize = 0;
    while i < config.wallets.len()
        invariant
            i <= config.wallets@.len(),
            outcomes@.len() == config.wallets@.len(),
            lines@.len() == i,
            forall|k: int|
                0 <= k < i ==> (#[trigger] lines@[k]).stream == line_stream(outcomes@[k])
                    && lines@[k].text@ == line_text(config.wallets@[k]@, outcomes@[k]),
        decreases config.wallets@.len() - i,
    {
        let line = report_line(config.wallets[i].as_str(), &outcomes[i]);
        lines.push(line);
        i = i + 1;
    }
    lines
}

/// One wallet's failure never hides or alters another's line: the line at a
/// position is a success line on standard output when that wallet's lookup
/// succeeded and a failure line naming the wallet on standard error when it
/// failed, whatever the other lookups gave.
pub proof fn failures_stay_isolated(
    wallets: Seq<String>,
    outcomes: Seq<Result<u64, FetchError>>,
    others: Seq<Result<u64, FetchError>>,
    i: int,
)
    requires
        outcomes.len() == wallets.len(),
        others.len() == wallets.len(),
        0 <= i < wallets.len(),
        others[i] == outcomes[i],
    ensures
        report_lines(wallets, others)[i] == report_lines(wallets, outcomes)[i],
        outcomes[i] is Ok ==> report_lines(wallets, outcomes)[i] == (
            Stream::Stdout,
            wallets[i]@ + ": "@ + decimal_digits(outcomes[i]->Ok_0 as nat) + " lamports"@,
        ),
        outcomes[i] is Err ==> report_lines(wallets, outcomes)[i] == (
            Stream::Stderr,
            "Failed to get balance for "@ + wallets[i]@ + ": "@ + reason_text(outcomes[i]->Err_0),
        ),
{
}

/// A run of N wallets gives exactly N lines, the line at each position being
/// that of the wallet there; taking the wallets with their outcomes in another
/// order (the order in which lookups complete) gives the same lines in that
/// order, so none is lost or doubled.
pub proof fn one_line_per_wallet(
    wallets: Seq<String>,
    outcomes: Seq<Result<u64, FetchError>>,
    order: Seq<int>,
)
    requires
        outcomes.len() == wallets.len(),
        order.len() == wallets.len(),
        forall|k: int| 0 <= k < order.len() ==> 0 <= #[trigger] order[k] < wallets.len(),
    ensures
        report_lines(wallets, outcomes).len() == wallets.len(),
        forall|k: int|
            0 <= k < wallets.len() ==> #[trigger] report_lines(wallets, outcomes)[k] == (
                line_stream(outcomes[k]),
                line_text(wallets[k]@, outcomes[k]),
            ),
        forall|k: int|
            0 <= k < order.len() ==> #[trigger] report_lines(
                in_order(wallets, order),
                in_order(outcomes, order),
            )[k] == report_lines(wallets, outcomes)[order[k]],
{
}

} // verus!
