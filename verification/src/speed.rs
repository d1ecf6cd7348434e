//! Upload and download speeds read from the Clash API of the core.
use vstd::prelude::*;
use vstd::string::StringExecFns;
use crate::node::{host_port, host_port_spec};
use crate::text::{dec_chars, dec_spec, digit_char, push_char, string_of, u64_to_string};

verus! {

/// Cumulative traffic counters, in bytes.
#[derive(Clone, Copy, Debug, Default, PartialEq, Eq)]
pub struct TrafficStats {
    pub up: u64,
    pub down: u64,
}

/// `num / den` rounded to the nearest integer, ties to the even one.
pub open spec fn round_half_even(num: nat, den: nat) -> nat
    recommends
        den > 0,
{
    let q = num / den;
    let r = num % den;
    if 2 * r < den {
        q
    } else if 2 * r > den {
        q + 1
    } else if q % 2 == 0 {
        q
    } else {
        q + 1
    }
}

/// The spacing of the `f64` values around `b`: 1 below 2^53, doubling with
/// each further bit.
pub open spec fn f64_unit(b: nat) -> nat
    decreases b,
{
    if b < 0x20_0000_0000_0000 {
        1
    } else {
        2 * f64_unit(b / 2)
    }
}

/// The value of `b as f64`: `b` rounded to the nearest multiple of its
/// spacing, ties to even.
pub open spec fn f64_value(b: nat) -> nat {
    round_half_even(b, f64_unit(b)) * f64_unit(b)
}

/// `{:.1}` of a value whose tenths, rounded, are `r`.
pub open spec fn fixed1(r: nat) -> Seq<char> {
    dec_spec(r / 10) + "."@ + seq![digit_char(r % 10)]
}

/// `{:.2}` of a value whose hundredths, rounded, are `r`.
pub open spec fn fixed2(r: nat) -> Seq<char> {
    dec_spec(r / 100) + "."@ + seq![digit_char((r / 10) % 10), digit_char(r % 10)]
}

/// A speed as shown: bytes per second below 1 KiB/s, KiB/s with one
/// decimal below 1 MiB/s, MiB/s with two decimals above.
pub open spec fn format_speed_spec(b: u64) -> Seq<char> {
    if b < 1024 {
        dec_spec(b as nat) + " B/s"@
    } else if b < 1024 * 1024 {
        fixed1(round_half_even(b as nat * 10, 1024)) + " KB/s"@
    } else {
        fixed2(round_half_even(f64_value(b as nat) * 100, 1024 * 1024)) + " MB/s"@
    }
}

/// `num / den` rounded to the nearest integer, ties to even.
fn round_div(num: u128, den: u128) -> (res: u128)
    requires
        0 < den <= 0x1_0000_0000,
        num < 0x8000_0000_0000_0000_0000_0000_0000_0000u128,
    ensures
        res == round_half_even(num as nat, den as nat),
{
    let q = num / den;
    let r = num % den;
    assert(q <= num) by (nonlinear_arith)
        requires
            q == num / den,
            den > 0,
    ;
    if 2 * r < den {
        q
    } else if 2 * r > den {
        q + 1
    } else if q % 2 == 0 {
        q
    } else {
        q + 1
    }
}

/// The value of `b as f64`.
fn f64_value_of(b: u64) -> (res: u128)
    ensures
        res == f64_value(b as nat),
        res <= 0x1_0000_0000_0000_0000 * 4096,
{
    let mut x: u128 = b as u128;
    let mut unit: u128 = 1;
    while x >= 0x20_0000_0000_0000
        invariant
            f64_unit(b as nat) == unit * f64_unit(x as nat),
            x * unit <= b,
            1 <= unit <= 4096,
        decreases x,
    {
        assert(unit < 2048) by (nonlinear_arith)
            requires
                x >= 0x20_0000_0000_0000,
                x * unit <= b,
                b < 0x1_0000_0000_0000_0000,
        ;
        assert((x / 2) * (unit * 2) <= x * unit) by (nonlinear_arith);
        assert(unit * (2 * f64_unit(x as nat / 2)) == (unit * 2) * f64_unit(x as nat / 2))
            by (nonlinear_arith);
        x = x / 2;
        unit = unit * 2;
    }
    assert(f64_unit(x as nat) == 1);
    assert(f64_unit(b as nat) == unit) by (nonlinear_arith)
        requires
            f64_unit(b as nat) == unit * f64_unit(x as nat),
            f64_unit(x as nat) == 1,
    ;
    let q = round_div(b as u128, unit);
    assert(q <= 0x1_0000_0000_0000_0000) by (nonlinear_arith)
        requires
            q == round_half_even(b as nat, unit as nat),
            unit >= 1,
            b < 0x1_0000_0000_0000_0000,
    ;
    assert(q * unit <= 0x1_0000_0000_0000_0000 * 4096) by (nonlinear_arith)
        requires
            q <= 0x1_0000_0000_0000_0000,
            unit <= 4096,
    ;
    q * unit
}

/// `{:.1}` of a value whose tenths, rounded, are `r`.
fn fixed1_string(r: u64) -> (res: String)
    ensures
        res@ == fixed1(r as nat),
{
    let mut s = u64_to_string(r / 10);
    s.append(".");
    push_char(&mut s, (48u8 + (r % 10) as u8) as char);
    assert(s@ =~= fixed1(r as nat));
    s
}

/// `{:.2}` of a value whose hundredths, rounded, are `r`.
fn fixed2_string(r: u64) -> (res: String)
    ensures
        res@ == fixed2(r as nat),
{
    let mut s = u64_to_string(r / 100);
    s.append(".");
    push_char(&mut s, (48u8 + ((r / 10) % 10) as u8) as char);
    push_char(&mut s, (48u8 + (r % 10) as u8) as char);
    assert(s@ =~= fixed2(r as nat));
    s
}

/// A speed in bytes per second, as shown.
pub fn format_speed(bytes_per_sec: u64) -> (res: String)
    ensures
        res@ == format_speed_spec(bytes_per_sec),
{
    if bytes_per_sec < 1024 {
        let mut s = u64_to_string(bytes_per_sec);
        s.append(" B/s");
        s
    } else if bytes_per_sec < 1024 * 1024 {
        let r = round_div(bytes_per_sec as u128 * 10, 1024);
        assert(r <= bytes_per_sec * 10) by (nonlinear_arith)
            requires
                r == round_half_even(bytes_per_sec as nat * 10, 1024),
        ;
        let mut s = fixed1_string(r as u64);
        s.append(" KB/s");
        s
    } else {
        let v = f64_value_of(bytes_per_sec);
        let r = round_div(v * 100, 1024 * 1024);
        assert(r <= 0x1_0000_0000_0000_0000) by (nonlinear_arith)
            requires
                r == round_half_even(v as nat * 100, 1024 * 1024),
                v <= 0x1_0000_0000_0000_0000 * 4096,
        ;
        let mut s = fixed2_string(r as u64);
        s.append(" MB/s");
        s
    }
}

/// Reads speeds from the Clash API: the difference between successive
/// traffic readings.
pub struct SpeedMonitor {
    pub api_base: String,
    pub last_stats: TrafficStats,
}

impl SpeedMonitor {
    /// A monitor for the Clash API on the loopback address at `port`, with
    /// no reading yet.
    pub fn new(port: u16) -> (res: Self)
        ensures
            res.api_base@ == "http://"@ + host_port_spec("127.0.0.1"@, port as nat),
            res.last_stats == (TrafficStats { up: 0, down: 0 }),
    {
        let mut api_base = "http://".to_owned();
        let hp = host_port("127.0.0.1", port as u64);
        api_base.append(hp.as_str());
        SpeedMonitor { api_base, last_stats: TrafficStats { up: 0, down: 0 } }
    }

    /// The URL of the traffic reading.
    pub fn traffic_url(&self) -> (res: String)
        ensures
            res@ == self.api_base@ + "/traffic"@,
    {
        let mut url = self.api_base.clone();
        url.append("/traffic");
        url
    }

    /// Records a new traffic reading and gives the upload and download
    /// speeds since the last one (0 where a counter went down).
    pub fn update(&mut self, stats: TrafficStats) -> (res: (String, String))
        ensures
            final(self).last_stats == stats,
            final(self).api_base@ == old(self).api_base@,
            res.0@ == format_speed_spec(
                if stats.up >= old(self).last_stats.up {
                    (stats.up - old(self).last_stats.up) as u64
                } else {
                    0u64
                },
            ),
            res.1@ == format_speed_spec(
                if stats.down >= old(self).last_stats.down {
                    (stats.down - old(self).last_stats.down) as u64
                } else {
                    0u64
                },
            ),
    {
        let up_speed = stats.up.saturating_sub(self.last_stats.up);
        let down_speed = stats.down.saturating_sub(self.last_stats.down);
        self.last_stats = stats;
        (format_speed(up_speed), format_speed(down_speed))
    }
}

}
