//! Status-line assembly for the tray menu: one snapshot line plus the
//! individual menu-item lines, built from a summary whose fields may all be
//! absent. Short text fields are sanitized and clipped; counters render in
//! decimal. Monetary amounts reach these builders already formatted, since
//! their rounding is display work done by the caller.

use vstd::prelude::*;
use crate::text::{
    ascii_uppercase,
    dec_rep,
    sanitize_short,
    sanitize_spec,
    to_upper,
    u64_to_dec,
};

verus! {

/// One status summary as reported by the backend, every field optional.
pub struct TraySummary {
    /// Current runner state, free-form.
    pub runner_status: Option<String>,
    /// Whether the broker connection is up.
    pub broker_connected: Option<bool>,
    /// Polling errors seen so far.
    pub poll_errors: Option<u64>,
    /// Open positions held.
    pub open_positions: Option<u64>,
    /// Name of the active strategy.
    pub active_strategy: Option<String>,
    /// Name of the trading universe.
    pub universe: Option<String>,
    /// Optimizer jobs running.
    pub optimizer_active_jobs: Option<u64>,
    /// Optimizer jobs queued.
    pub optimizer_queue_depth: Option<u64>,
    /// Optimizer jobs stalled.
    pub optimizer_stalled_jobs: Option<u64>,
    /// When the summary was produced, free-form.
    pub last_update: Option<String>,
}

/// The view of an optional string field.
pub open spec fn opt_view(o: Option<String>) -> Option<Seq<char>> {
    match o {
        Some(s) => Some(s@),
        None => None,
    }
}

/// A counter's value, absent meaning zero.
pub open spec fn or_zero(o: Option<u64>) -> u64 {
    match o {
        Some(v) => v,
        None => 0,
    }
}

/// The displayed runner state: sanitized to at most twenty-four characters,
/// unknown when absent, and upper-cased.
pub open spec fn runner_text(runner_status: Option<Seq<char>>) -> Seq<char> {
    to_upper(sanitize_spec(runner_status, "unknown"@, 24))
}

/// The displayed broker state: connected only when the summary says so.
pub open spec fn broker_text(broker_connected: Option<bool>) -> Seq<char> {
    if broker_connected == Some(true) {
        "Connected"@
    } else {
        "Degraded"@
    }
}

/// The stalled-jobs part of the snapshot: present only when jobs stall.
pub open spec fn stalled_snapshot_suffix(stalled: u64) -> Seq<char> {
    if stalled > 0 {
        " | Stalled: "@ + dec_rep(stalled as nat)
    } else {
        Seq::empty()
    }
}

/// The stalled-jobs part of the summary menu line.
pub open spec fn stalled_summary_suffix(stalled: u64) -> Seq<char> {
    if stalled > 0 {
        " | Stalled "@ + dec_rep(stalled as nat)
    } else {
        Seq::empty()
    }
}

/// The one-line snapshot of a whole summary.
pub open spec fn snapshot_text(s: TraySummary) -> Seq<char> {
    "Runner: "@ + runner_text(opt_view(s.runner_status)) + " | Broker: "@ + broker_text(
        s.broker_connected,
    ) + " | Poll Errors: "@ + dec_rep(or_zero(s.poll_errors) as nat) + " | Open Positions: "@
        + dec_rep(or_zero(s.open_positions) as nat) + " | Jobs: "@ + dec_rep(
        or_zero(s.optimizer_active_jobs) as nat,
    ) + " active / "@ + dec_rep(or_zero(s.optimizer_queue_depth) as nat) + " queued"@
        + stalled_snapshot_suffix(or_zero(s.optimizer_stalled_jobs)) + " | Strategy: "@
        + sanitize_spec(opt_view(s.active_strategy), "None"@, 36) + " | Universe: "@
        + sanitize_spec(opt_view(s.universe), "N/A"@, 28) + " | Updated: "@ + sanitize_spec(
        opt_view(s.last_update),
        "-"@,
        24,
    )
}

/// Clone an optional string field.
fn clone_opt(o: &Option<String>) -> (r: Option<String>)
    ensures
        opt_view(r) == opt_view(*o),
{
    match o {
        Some(s) => Some(s.clone()),
        None => None,
    }
}

/// The value of an optional counter, absent meaning zero.
fn unwrap_counter(o: &Option<u64>) -> (v: u64)
    ensures
        v == or_zero(*o),
{
    match o {
        Some(v) => *v,
        None => 0,
    }
}

/// The displayed runner state of a summary.
pub fn runner_display(runner_status: &Option<String>) -> (r: String)
    ensures
        r@ == runner_text(opt_view(*runner_status)),
{
    let s = sanitize_short(clone_opt(runner_status), "unknown", 24);
    ascii_uppercase(s.as_str())
}

/// The displayed broker state of a summary.
pub fn broker_display(broker_connected: &Option<bool>) -> (r: &'static str)
    ensures
        r@ == broker_text(*broker_connected),
{
    match broker_connected {
        Some(true) => "Connected",
        _ => "Degraded",
    }
}

/// Whether a displayed runner state means the runner is running.
pub fn runner_is_running(runner: &str) -> (b: bool)
    ensures
        b == (runner@ == "RUNNING"@),
{
    let r = String::from_str(runner) == String::from_str("RUNNING");
    r
}

/// The tray menu label that toggles the runner.
pub fn toggle_label(is_running: bool) -> (s: &'static str)
    ensures
        is_running ==> s@ == "Pause Runner"@,
        !is_running ==> s@ == "Resume Runner"@,
{
    if is_running {
        "Pause Runner"
    } else {
        "Resume Runner"
    }
}

/// The runner menu line.
pub fn runner_line(runner: &str) -> (r: String)
    ensures
        r@ == "Runner: "@ + runner@,
{
    String::from_str("Runner: ").concat(runner)
}

/// The broker menu line.
pub fn broker_line(broker: &str, poll_errors: u64, open_positions: u64) -> (r: String)
    ensures
        r@ == "Broker: "@ + broker@ + " | Poll Errors: "@ + dec_rep(poll_errors as nat)
            + " | Open Positions: "@ + dec_rep(open_positions as nat),
{
    let r = String::from_str("Broker: ").concat(broker).concat(" | Poll Errors: ").concat(
        u64_to_dec(poll_errors).as_str(),
    ).concat(" | Open Positions: ").concat(u64_to_dec(open_positions).as_str());
    proof {
        assert(r@ =~= "Broker: "@ + broker@ + " | Poll Errors: "@ + dec_rep(poll_errors as nat)
            + " | Open Positions: "@ + dec_rep(open_positions as nat));
    }
    r
}

/// A monetary field for display: the formatted amount behind a currency
/// sign, or a placeholder when absent.
pub open spec fn money_text(amount: Option<Seq<char>>) -> Seq<char> {
    match amount {
        Some(a) => "$"@ + a,
        None => "N/A"@,
    }
}

/// The day's profit-and-loss for display. With a percentage, a non-negative
/// amount carries a plus sign before the amount and the percentage; without
/// one, the sign is always written. Both amounts arrive formatted, without
/// their sign.
pub open spec fn pnl_text(
    pnl: Option<Seq<char>>,
    pnl_pct: Option<Seq<char>>,
    non_negative: bool,
) -> Seq<char> {
    match (pnl, pnl_pct) {
        (Some(p), Some(pct)) => {
            let sign: Seq<char> = if non_negative {
                "+"@
            } else {
                ""@
            };
            sign + "$"@ + p + " ("@ + sign + pct + "%)"@
        },
        (Some(p), None) => {
            let sign: Seq<char> = if non_negative {
                "+"@
            } else {
                "-"@
            };
            sign + "$"@ + p
        },
        _ => "N/A"@,
    }
}

/// The account menu line, from already formatted, unsigned amounts.
pub fn account_line(
    equity: &Option<String>,
    cash: &Option<String>,
    pnl: &Option<String>,
    pnl_pct: &Option<String>,
    pnl_non_negative: bool,
) -> (r: String)
    ensures
        r@ == "Equity: "@ + money_text(opt_view(*equity)) + " | Cash: "@ + money_text(
            opt_view(*cash),
        ) + " | Day P&L: "@ + pnl_text(opt_view(*pnl), opt_view(*pnl_pct), pnl_non_negative),
{
    let equity_str = match equity {
        Some(v) => String::from_str("$").concat(v.as_str()),
        None => String::from_str("N/A"),
    };
    let cash_str = match cash {
        Some(v) => String::from_str("$").concat(v.as_str()),
        None => String::from_str("N/A"),
    };
    let pnl_str = match (pnl, pnl_pct) {
        (Some(p), Some(pct)) => {
            let sign = if pnl_non_negative {
                "+"
            } else {
                ""
            };
            String::from_str(sign).concat("$").concat(p.as_str()).concat(" (").concat(sign).concat(
                pct.as_str(),
            ).concat("%)")
        },
        (Some(p), None) => {
            let sign = if pnl_non_negative {
                "+"
            } else {
                "-"
            };
            String::from_str(sign).concat("$").concat(p.as_str())
        },
        _ => String::from_str("N/A"),
    };
    proof {
        reveal_strlit("");
        assert(""@ =~= Seq::<char>::empty());
        assert(pnl_str@ =~= pnl_text(opt_view(*pnl), opt_view(*pnl_pct), pnl_non_negative));
    }
    let r = String::from_str("Equity: ").concat(equity_str.as_str()).concat(" | Cash: ").concat(
        cash_str.as_str(),
    ).concat(" | Day P&L: ").concat(pnl_str.as_str());
    proof {
        assert(r@ =~= "Equity: "@ + money_text(opt_view(*equity)) + " | Cash: "@ + money_text(
            opt_view(*cash),
        ) + " | Day P&L: "@ + pnl_text(opt_view(*pnl), opt_view(*pnl_pct), pnl_non_negative));
    }
    r
}

/// The strategy-and-jobs menu line.
pub fn summary_line(
    strategy: &str,
    universe: &str,
    active_jobs: u64,
    queue_depth: u64,
    stalled_jobs: u64,
) -> (r: String)
    ensures
        r@ == "Strategy: "@ + strategy@ + " | Universe: "@ + universe@ + " | Jobs: "@ + dec_rep(
            active_jobs as nat,
        ) + "/"@ + dec_rep(queue_depth as nat) + stalled_summary_suffix(stalled_jobs),
{
    let mut r = String::from_str("Strategy: ").concat(strategy).concat(" | Universe: ").concat(
        universe,
    ).concat(" | Jobs: ").concat(u64_to_dec(active_jobs).as_str()).concat("/").concat(
        u64_to_dec(queue_depth).as_str(),
    );
    if stalled_jobs > 0 {
        r = r.concat(" | Stalled ").concat(u64_to_dec(stalled_jobs).as_str());
    }
    proof {
        assert(r@ =~= "Strategy: "@ + strategy@ + " | Universe: "@ + universe@ + " | Jobs: "@
            + dec_rep(active_jobs as nat) + "/"@ + dec_rep(queue_depth as nat)
            + stalled_summary_suffix(stalled_jobs));
    }
    r
}

/// The tray tooltip, from the displayed runner and broker states and an
/// already formatted equity amount.
pub fn tooltip_line(
    equity: &Option<String>,
    runner: &str,
    broker: &str,
    open_positions: u64,
    last_update: &str,
) -> (r: String)
    ensures
        r@ == "StocksBot | Equity "@ + money_text(opt_view(*equity)) + " | Runner "@ + runner@
            + " | Broker "@ + broker@ + " | Positions "@ + dec_rep(open_positions as nat) + " | "@
            + last_update@,
{
    let equity_str = match equity {
        Some(v) => String::from_str("$").concat(v.as_str()),
        None => String::from_str("N/A"),
    };
    let r = String::from_str("StocksBot | Equity ").concat(equity_str.as_str()).concat(
        " | Runner ",
    ).concat(runner).concat(" | Broker ").concat(broker).concat(" | Positions ").concat(
        u64_to_dec(open_positions).as_str(),
    ).concat(" | ").concat(last_update);
    proof {
        assert(r@ =~= "StocksBot | Equity "@ + money_text(opt_view(*equity)) + " | Runner "@
            + runner@ + " | Broker "@ + broker@ + " | Positions "@ + dec_rep(
            open_positions as nat,
        ) + " | "@ + last_update@);
    }
    r
}

/// The one-line snapshot of a whole summary, kept for status queries.
pub fn build_snapshot(s: &TraySummary) -> (r: String)
    ensures
        r@ == snapshot_text(*s),
{
    let runner = runner_display(&s.runner_status);
    let broker = broker_display(&s.broker_connected);
    let poll_errors = unwrap_counter(&s.poll_errors);
    let open_positions = unwrap_counter(&s.open_positions);
    let active_jobs = unwrap_counter(&s.optimizer_active_jobs);
    let queue_depth = unwrap_counter(&s.optimizer_queue_depth);
    let stalled_jobs = unwrap_counter(&s.optimizer_stalled_jobs);
    let strategy = sanitize_short(clone_opt(&s.active_strategy), "None", 36);
    let universe = sanitize_short(clone_opt(&s.universe), "N/A", 28);
    let last_update = sanitize_short(clone_opt(&s.last_update), "-", 24);
    let mut r = String::from_str("Runner: ").concat(runner.as_str()).concat(" | Broker: ").concat(
        broker,
    ).concat(" | Poll Errors: ").concat(u64_to_dec(poll_errors).as_str()).concat(
        " | Open Positions: ",
    ).concat(u64_to_dec(open_positions).as_str()).concat(" | Jobs: ").concat(
        u64_to_dec(active_jobs).as_str(),
    ).concat(" active / ").concat(u64_to_dec(queue_depth).as_str()).concat(" queued");
    if stalled_jobs > 0 {
        r = r.concat(" | Stalled: ").concat(u64_to_dec(stalled_jobs).as_str());
    }
    let r = r.concat(" | Strategy: ").concat(strategy.as_str()).concat(" | Universe: ").concat(
        universe.as_str(),
    ).concat(" | Updated: ").concat(last_update.as_str());
    proof {
        assert(r@ =~= snapshot_text(*s));
    }
    r
}

} // verus!
