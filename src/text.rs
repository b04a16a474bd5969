//! The texts shown in the tray title and the menu, and copied to the clipboard.
use crate::sensors::charge_state_from;
use crate::stats::{ChargeState, SystemStats};
use vstd::prelude::*;

verus! {

/// Bytes in one GB, as the memory label counts them.
pub const BYTES_TO_GB: u64 = 1073741824;

/// The character of a decimal digit.
pub open spec fn digit(d: int) -> char {
    if d == 0 {
        '0'
    } else if d == 1 {
        '1'
    } else if d == 2 {
        '2'
    } else if d == 3 {
        '3'
    } else if d == 4 {
        '4'
    } else if d == 5 {
        '5'
    } else if d == 6 {
        '6'
    } else if d == 7 {
        '7'
    } else if d == 8 {
        '8'
    } else {
        '9'
    }
}

/// `n` written in decimal, without leading zeros.
pub open spec fn decimal(n: nat) -> Seq<char>
    decreases n,
{
    if n < 10 {
        seq![digit(n as int)]
    } else {
        decimal(n / 10).push(digit((n % 10) as int))
    }
}

/// A value in tenths written with one decimal (`457` is `45.7`).
pub open spec fn tenths_text(t: nat) -> Seq<char> {
    decimal(t / 10) + seq!['.', digit((t % 10) as int)]
}

/// A value in hundredths written with two decimals (`800` is `8.00`).
pub open spec fn hundredths_text(h: nat) -> Seq<char> {
    decimal(h / 100) + seq!['.', digit(((h / 10) % 10) as int), digit((h % 10) as int)]
}

/// A percentage in tenths rounded to a whole percent, halves up.
pub open spec fn whole_percent(t: u32) -> nat {
    ((t + 5) / 10) as nat
}

/// A byte count in hundredths of a GB, rounded to the nearest hundredth.
pub open spec fn gb_hundredths(bytes: u64) -> nat {
    ((bytes * 100 + BYTES_TO_GB / 2) / (BYTES_TO_GB as int)) as nat
}

/// The tray title: the three whole percentages.
pub open spec fn tray_title_text(s: SystemStats) -> Seq<char> {
    "🔋"@ + decimal(whole_percent(s.battery_percent)) + "%   🧠"@ + decimal(
        whole_percent(s.cpu_usage),
    ) + "%   💾"@ + decimal(whole_percent(s.memory_percent)) + "%"@
}

/// The battery menu label.
pub open spec fn battery_text(s: SystemStats) -> Seq<char> {
    "🔋 Battery: "@ + decimal(whole_percent(s.battery_percent)) + "% ("@ + s.battery_state.label()
        + ")"@
}

/// The CPU menu label.
pub open spec fn cpu_text(s: SystemStats) -> Seq<char> {
    "🧠 CPU Usage: "@ + tenths_text(s.cpu_usage as nat) + "%"@
}

/// The memory menu label.
pub open spec fn memory_text(s: SystemStats) -> Seq<char> {
    "💾 Memory: "@ + tenths_text(s.memory_percent as nat) + "% ("@ + hundredths_text(
        gb_hundredths(s.memory_used),
    ) + " GB / "@ + hundredths_text(gb_hundredths(s.memory_total)) + " GB)"@
}

fn push_digit(s: &mut String, d: u64)
    requires
        d < 10,
    ensures
        final(s)@ == old(s)@.push(digit(d as int)),
{
    let ghost start = s@;
    if d == 0 {
        s.append("0");
        proof {
            reveal_strlit("0");
        }
    } else if d == 1 {
        s.append("1");
        proof {
            reveal_strlit("1");
        }
    } else if d == 2 {
        s.append("2");
        proof {
            reveal_strlit("2");
        }
    } else if d == 3 {
        s.append("3");
        proof {
            reveal_strlit("3");
        }
    } else if d == 4 {
        s.append("4");
        proof {
            reveal_strlit("4");
        }
    } else if d == 5 {
        s.append("5");
        proof {
            reveal_strlit("5");
        }
    } else if d == 6 {
        s.append("6");
        proof {
            reveal_strlit("6");
        }
    } else if d == 7 {
        s.append("7");
        proof {
            reveal_strlit("7");
        }
    } else if d == 8 {
        s.append("8");
        proof {
            reveal_strlit("8");
        }
    } else {
        s.append("9");
        proof {
            reveal_strlit("9");
        }
    }
    assert(s@ =~= start.push(digit(d as int)));
}

pub(crate) fn push_decimal(s: &mut String, n: u64)
    ensures
        final(s)@ == old(s)@ + decimal(n as nat),
    decreases n,
{
    let ghost start = s@;
    if n < 10 {
        push_digit(s, n);
        assert(s@ =~= start + decimal(n as nat));
    } else {
        push_decimal(s, n / 10);
        push_digit(s, n % 10);
        assert(s@ =~= start + decimal(n as nat));
    }
}

pub(crate) fn push_tenths(s: &mut String, t: u64)
    ensures
        final(s)@ == old(s)@ + tenths_text(t as nat),
{
    let ghost start = s@;
    push_decimal(s, t / 10);
    s.append(".");
    proof {
        reveal_strlit(".");
    }
    push_digit(s, t % 10);
    assert(s@ =~= start + tenths_text(t as nat));
}

fn push_hundredths(s: &mut String, h: u64)
    ensures
        final(s)@ == old(s)@ + hundredths_text(h as nat),
{
    let ghost start = s@;
    push_decimal(s, h / 100);
    s.append(".");
    proof {
        reveal_strlit(".");
    }
    push_digit(s, (h / 10) % 10);
    push_digit(s, h % 10);
    assert(s@ =~= start + hundredths_text(h as nat));
}

fn push_label(s: &mut String, state: ChargeState)
    ensures
        final(s)@ == old(s)@ + state.label(),
{
    match state {
        ChargeState::Charging => s.append("Charging"),
        ChargeState::Discharging => s.append("Discharging"),
        ChargeState::Full => s.append("Full"),
        ChargeState::Empty => s.append("Empty"),
        ChargeState::Unknown => s.append("Unknown"),
        ChargeState::NoBattery => s.append("No Battery"),
    }
}

pub(crate) fn rounded_percent(t: u32) -> (r: u64)
    ensures
        r == whole_percent(t),
{
    (t as u64 + 5) / 10
}

/// A byte count in hundredths of a GB (`1073741824` bytes is `100`).
pub fn bytes_to_gb(bytes: u64) -> (r: u64)
    ensures
        r == gb_hundredths(bytes),
{
    let scaled: u128 = bytes as u128 * 100 + (BYTES_TO_GB / 2) as u128;
    let q: u128 = scaled / (BYTES_TO_GB as u128);
    assert(q <= u64::MAX) by (nonlinear_arith)
        requires
            q == scaled / 1073741824,
            scaled <= u64::MAX * 100 + 536870912,
    ;
    q as u64
}

pub(crate) fn same_text(a: &str, b: &str) -> (r: bool)
    ensures
        r == (a@ == b@),
{
    String::from_str(a) == String::from_str(b)
}

impl ChargeState {
    /// The word for this state.
    pub fn to_text(&self) -> (r: String)
        ensures
            r@ == self.label(),
    {
        let mut s = String::new();
        push_label(&mut s, *self);
        assert(s@ =~= self.label());
        s
    }
}

/// The word for the state that a battery device reports.
pub fn format_battery_state(state: battery::State) -> (r: String)
    ensures
        r@ == charge_state_from(state).label(),
        state is Charging ==> r@ == "Charging"@,
        state is Discharging ==> r@ == "Discharging"@,
        state is Full ==> r@ == "Full"@,
        state is Empty ==> r@ == "Empty"@,
        !(state is Charging || state is Discharging || state is Full || state is Empty)
            ==> r@ == "Unknown"@,
{
    let c = ChargeState::from_battery_state(state);
    let mut s = String::new();
    push_label(&mut s, c);
    assert(s@ =~= c.label());
    s
}

/// The tray title for a snapshot.
pub fn format_tray_title(stats: &SystemStats) -> (r: String)
    ensures
        r@ == tray_title_text(*stats),
{
    let mut s = String::new();
    s.append("🔋");
    push_decimal(&mut s, rounded_percent(stats.battery_percent));
    s.append("%   🧠");
    push_decimal(&mut s, rounded_percent(stats.cpu_usage));
    s.append("%   💾");
    push_decimal(&mut s, rounded_percent(stats.memory_percent));
    s.append("%");
    assert(s@ =~= tray_title_text(*stats));
    s
}

/// The battery menu label for a snapshot.
pub fn format_battery_text(stats: &SystemStats) -> (r: String)
    ensures
        r@ == battery_text(*stats),
{
    let mut s = String::new();
    s.append("🔋 Battery: ");
    push_decimal(&mut s, rounded_percent(stats.battery_percent));
    s.append("% (");
    push_label(&mut s, stats.battery_state);
    s.append(")");
    assert(s@ =~= battery_text(*stats));
    s
}

/// The CPU menu label for a snapshot.
pub fn format_cpu_text(stats: &SystemStats) -> (r: String)
    ensures
        r@ == cpu_text(*stats),
{
    let mut s = String::new();
    s.append("🧠 CPU Usage: ");
    push_tenths(&mut s, stats.cpu_usage as u64);
    s.append("%");
    assert(s@ =~= cpu_text(*stats));
    s
}

/// The memory menu label for a snapshot.
pub fn format_memory_text(stats: &SystemStats) -> (r: String)
    ensures
        r@ == memory_text(*stats),
{
    let mut s = String::new();
    s.append("💾 Memory: ");
    push_tenths(&mut s, stats.memory_percent as u64);
    s.append("% (");
    push_hundredths(&mut s, bytes_to_gb(stats.memory_used));
    s.append(" GB / ");
    push_hundredths(&mut s, bytes_to_gb(stats.memory_total));
    s.append(" GB)");
    assert(s@ =~= memory_text(*stats));
    s
}

} // verus!
