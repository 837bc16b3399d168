use vstd::prelude::*;
use vstd::slice::slice_subrange;

use crate::error::ErrorKind;
use crate::registry::{resolve_spec, SessionRegistry};

use crate::text::{
    bytes_equal, decimal_spec, decimal_value, has_prefix, parse_decimal, split_tokens, starts_with,
    tokens, views,
};

verus! {

/// Memory totals, in bytes.
#[derive(Debug, Clone, Copy, PartialEq, Eq, Structural)]
pub struct MemoryInfo {
    pub total: u64,
    pub used: u64,
    pub cached: Option<u64>,
    pub available: u64,
}

/// Load averages over 1, 5 and 15 minutes, in hundredths.
#[derive(Debug, Clone, Copy, PartialEq, Eq, Structural)]
pub struct LoadAverage {
    pub one: u64,
    pub five: u64,
    pub fifteen: u64,
}

/// The value that follows the first occurrence of word `key`, from word `i` on.
pub open spec fn lookup_from(w: Seq<Seq<u8>>, key: Seq<u8>, i: int) -> Option<u64>
    decreases w.len() - i,
{
    if i < 0 || i + 1 >= w.len() {
        None
    } else if w[i] == key {
        decimal_spec(w[i + 1])
    } else {
        lookup_from(w, key, i + 1)
    }
}

/// The number that follows word `key` among `w`.
pub fn lookup_value(w: &Vec<Vec<u8>>, key: &[u8]) -> (r: Option<u64>)
    ensures
        r == lookup_from(views(w@), key@, 0),
{
    let ghost ws = views(w@);
    let mut i: usize = 0;
    while i < w.len() && i + 1 < w.len()
        invariant
            i <= w@.len(),
            ws == views(w@),
            ws.len() == w@.len(),
            lookup_from(ws, key@, 0) == lookup_from(ws, key@, i as int),
        decreases w@.len() - i,
    {
        assert(ws[i as int] == w@[i as int]@);
        if bytes_equal(w[i].as_slice(), key) {
            assert(ws[i as int + 1] == w@[i as int + 1]@);
            return parse_decimal(w[i + 1].as_slice());
        }
        i = i + 1;
    }
    None
}

/// A count of KiB as bytes, when it fits.
pub open spec fn kib_spec(v: Option<u64>) -> Option<u64> {
    match v {
        Some(x) => if x * 1024 <= u64::MAX {
            Some((x * 1024) as u64)
        } else {
            None
        },
        None => None,
    }
}

fn kib_to_bytes(v: Option<u64>) -> (r: Option<u64>)
    ensures
        r == kib_spec(v),
{
    match v {
        Some(x) => x.checked_mul(1024),
        None => None,
    }
}

/// `MemTotal:`
pub open spec fn key_mem_total() -> Seq<u8> {
    seq![77u8, 101, 109, 84, 111, 116, 97, 108, 58]
}

/// `MemAvailable:`
pub open spec fn key_mem_available() -> Seq<u8> {
    seq![77u8, 101, 109, 65, 118, 97, 105, 108, 97, 98, 108, 101, 58]
}

/// `Cached:`
pub open spec fn key_cached() -> Seq<u8> {
    seq![67u8, 97, 99, 104, 101, 100, 58]
}

/// What `/proc/meminfo` says: total and available memory are required, the
/// cache is optional; all are given there in KiB.
pub open spec fn meminfo_spec(text: Seq<u8>) -> Option<MemoryInfo> {
    let w = tokens(text, false);
    let total = kib_spec(lookup_from(w, key_mem_total(), 0));
    let available = kib_spec(lookup_from(w, key_mem_available(), 0));
    if total is Some && available is Some && available->0 <= total->0 {
        Some(
            MemoryInfo {
                total: total->0,
                used: (total->0 - available->0) as u64,
                cached: kib_spec(lookup_from(w, key_cached(), 0)),
                available: available->0,
            },
        )
    } else {
        None
    }
}

/// Parses the output of `cat /proc/meminfo`.
pub fn parse_meminfo(text: &[u8]) -> (r: Option<MemoryInfo>)
    ensures
        r == meminfo_spec(text@),
{
    let w = split_tokens(text, false);
    let k_total: [u8; 9] = [77u8, 101, 109, 84, 111, 116, 97, 108, 58];
    let k_available: [u8; 13] = [77u8, 101, 109, 65, 118, 97, 105, 108, 97, 98, 108, 101, 58];
    let k_cached: [u8; 7] = [67u8, 97, 99, 104, 101, 100, 58];
    assert(k_total@ == key_mem_total());
    assert(k_available@ == key_mem_available());
    assert(k_cached@ == key_cached());
    let total = kib_to_bytes(lookup_value(&w, &k_total));
    let available = kib_to_bytes(lookup_value(&w, &k_available));
    match (total, available) {
        (Some(t), Some(a)) => {
            if a <= t {
                Some(
                    MemoryInfo {
                        total: t,
                        used: t - a,
                        cached: kib_to_bytes(lookup_value(&w, &k_cached)),
                        available: a,
                    },
                )
            } else {
                None
            }
        },
        _ => None,
    }
}

/// A load figure as the kernel prints it, `<digits>.<two digits>`, in hundredths.
pub open spec fn centi_spec(t: Seq<u8>) -> Option<u64> {
    if t.len() >= 4 && t[t.len() - 3] == 46 {
        let whole = decimal_spec(t.subrange(0, t.len() - 3));
        let frac = decimal_spec(t.subrange(t.len() - 2, t.len() as int));
        if whole is Some && frac is Some && whole->0 * 100 + frac->0 <= u64::MAX {
            Some((whole->0 * 100 + frac->0) as u64)
        } else {
            None
        }
    } else {
        None
    }
}

fn parse_centi(t: &[u8]) -> (r: Option<u64>)
    ensures
        r == centi_spec(t@),
{
    let n = t.len();
    if n < 4 || t[n - 3] != 46 {
        return None;
    }
    let whole = parse_decimal(slice_subrange(t, 0, n - 3));
    let frac = parse_decimal(slice_subrange(t, n - 2, n));
    match (whole, frac) {
        (Some(w), Some(f)) => {
            if w <= (u64::MAX - f) / 100 {
                Some(w * 100 + f)
            } else {
                None
            }
        },
        _ => None,
    }
}

/// What `/proc/loadavg` says: its first three words.
pub open spec fn loadavg_spec(text: Seq<u8>) -> Option<LoadAverage> {
    let w = tokens(text, false);
    if w.len() >= 3 && centi_spec(w[0]) is Some && centi_spec(w[1]) is Some && centi_spec(w[2]) is Some {
        Some(
            LoadAverage {
                one: centi_spec(w[0])->0,
                five: centi_spec(w[1])->0,
                fifteen: centi_spec(w[2])->0,
            },
        )
    } else {
        None
    }
}

/// Parses the output of `cat /proc/loadavg`.
pub fn parse_loadavg(text: &[u8]) -> (r: Option<LoadAverage>)
    ensures
        r == loadavg_spec(text@),
{
    let w = split_tokens(text, false);
    if w.len() < 3 {
        return None;
    }
    assert(views(w@)[0] == w@[0]@ && views(w@)[1] == w@[1]@ && views(w@)[2] == w@[2]@);
    match (parse_centi(w[0].as_slice()), parse_centi(w[1].as_slice()), parse_centi(w[2].as_slice())) {
        (Some(one), Some(five), Some(fifteen)) => Some(LoadAverage { one, five, fifteen }),
        _ => None,
    }
}


/// Cumulative CPU time counters of one `cpu` line of `/proc/stat`.
#[derive(Debug, Clone, Copy, PartialEq, Eq, Structural)]
pub struct CpuTimes {
    /// All counters added up.
    pub total: u64,
    /// Idle plus waiting for I/O.
    pub idle: u64,
}

/// CPU figures of one sample, percentages in 0..=100.
pub struct CpuInfo {
    pub usage: u64,
    pub cores: usize,
    pub cores_usage: Vec<u64>,
    /// Clock of the first processor, in whole MHz.
    pub frequency_mhz: Option<u64>,
    pub load_average: Option<LoadAverage>,
}

/// `cpu`
pub open spec fn label_cpu() -> Seq<u8> {
    seq![99u8, 112, 117]
}

/// The sum of the values of words `1..n`.
pub open spec fn counters_sum(w: Seq<Seq<u8>>, n: int) -> nat
    decreases n,
{
    if n <= 1 {
        0
    } else {
        counters_sum(w, n - 1) + decimal_value(w[n - 1])
    }
}

proof fn lemma_counters_sum_grows(w: Seq<Seq<u8>>, k: int, n: int)
    requires
        1 <= k <= n,
    ensures
        counters_sum(w, k) <= counters_sum(w, n),
    decreases n - k,
{
    if k < n {
        lemma_counters_sum_grows(w, k, n - 1);
    }
}

/// What one `cpu` line says: at least four counters after the label, all numbers.
pub open spec fn cpu_times_spec(line: Seq<u8>) -> Option<CpuTimes> {
    let w = tokens(line, false);
    if w.len() >= 5 && has_prefix(w[0], label_cpu()) && (forall|k: int|
        1 <= k < w.len() ==> (#[trigger] decimal_spec(w[k])) is Some) && counters_sum(w, w.len() as int)
        <= u64::MAX {
        Some(
            CpuTimes {
                total: counters_sum(w, w.len() as int) as u64,
                idle: (decimal_value(w[4]) + if w.len() >= 6 {
                    decimal_value(w[5])
                } else {
                    0
                }) as u64,
            },
        )
    } else {
        None
    }
}

/// Parses one `cpu` line of `/proc/stat`.
pub fn parse_cpu_line(line: &[u8]) -> (r: Option<CpuTimes>)
    ensures
        r == cpu_times_spec(line@),
{
    let w = split_tokens(line, false);
    let ghost ws = views(w@);
    let label: [u8; 3] = [99u8, 112, 117];
    assert(label@ == label_cpu());
    if w.len() < 5 {
        return None;
    }
    assert(ws[0] == w@[0]@);
    if !starts_with(w[0].as_slice(), &label) {
        return None;
    }
    let mut sum: u64 = 0;
    let mut idle: u64 = 0;
    let mut k: usize = 1;
    while k < w.len()
        invariant
            ws == views(w@),
            ws == tokens(line@, false),
            has_prefix(ws[0], label_cpu()),
            ws.len() == w@.len(),
            w@.len() >= 5,
            1 <= k <= w@.len(),
            forall|j: int| 1 <= j < k ==> (#[trigger] decimal_spec(ws[j])) is Some,
            sum == counters_sum(ws, k as int),
            idle == (if k > 4 {
                decimal_value(ws[4])
            } else {
                0
            }) + (if k > 5 {
                decimal_value(ws[5])
            } else {
                0
            }),
            idle <= sum,
        decreases w@.len() - k,
    {
        assert(ws[k as int] == w@[k as int]@);
        let v = match parse_decimal(w[k].as_slice()) {
            Some(v) => v,
            None => {
                assert(decimal_spec(ws[k as int]) is None);
                return None;
            },
        };
        assert(counters_sum(ws, k as int + 1) == sum + v);
        match sum.checked_add(v) {
            Some(s) => {
                sum = s;
            },
            None => {
                proof {
                    lemma_counters_sum_grows(ws, k as int + 1, ws.len() as int);
                }
                assert(counters_sum(ws, ws.len() as int) > u64::MAX);
                return None;
            },
        }
        if k == 4 || k == 5 {
            idle = idle + v;
        }
        k = k + 1;
    }
    Some(CpuTimes { total: sum, idle })
}

/// How many lines, from line `i` on, begin with `cpu`, plus `i`.
pub open spec fn cpu_line_end(lines: Seq<Seq<u8>>, i: int) -> int
    decreases lines.len() - i,
{
    if 0 <= i < lines.len() && has_prefix(lines[i], label_cpu()) {
        cpu_line_end(lines, i + 1)
    } else {
        i
    }
}

proof fn lemma_cpu_line_end_ge(lines: Seq<Seq<u8>>, i: int)
    requires
        0 <= i,
    ensures
        cpu_line_end(lines, i) >= i,
    decreases lines.len() - i,
{
    if 0 <= i < lines.len() && has_prefix(lines[i], label_cpu()) {
        lemma_cpu_line_end_ge(lines, i + 1);
    }
}

/// What `/proc/stat` says: the leading `cpu` lines, the aggregate first and
/// then one per core, each of which must parse.
pub open spec fn stat_spec(text: Seq<u8>) -> Option<Seq<CpuTimes>> {
    let lines = tokens(text, true);
    let n = cpu_line_end(lines, 0);
    if n >= 1 && forall|k: int| 0 <= k < n ==> (#[trigger] cpu_times_spec(lines[k])) is Some {
        Some(Seq::new(n as nat, |k: int| cpu_times_spec(lines[k])->0))
    } else {
        None
    }
}

/// Parses the output of `cat /proc/stat`.
pub fn parse_stat(text: &[u8]) -> (r: Option<Vec<CpuTimes>>)
    ensures
        r matches Some(v) ==> stat_spec(text@) == Some(v@),
        r is None ==> stat_spec(text@) is None,
{
    let lines = split_tokens(text, true);
    let ghost ls = views(lines@);
    let label: [u8; 3] = [99u8, 112, 117];
    assert(label@ == label_cpu());
    let mut out: Vec<CpuTimes> = Vec::new();
    let mut i: usize = 0;
    let mut more = lines.len() > 0 && starts_with(lines[0].as_slice(), &label);
    proof {
        if lines@.len() > 0 {
            assert(ls[0] == lines@[0]@);
        }
    }
    while more
        invariant
            more == (i < lines@.len() && has_prefix(ls[i as int], label_cpu())),
            label@ == label_cpu(),
            ls == tokens(text@, true),
            ls == views(lines@),
            ls.len() == lines@.len(),
            i <= lines@.len(),
            cpu_line_end(ls, 0) == cpu_line_end(ls, i as int),
            forall|k: int| 0 <= k < i ==> (#[trigger] cpu_times_spec(ls[k])) is Some,
            out@ =~= Seq::new(i as nat, |k: int| cpu_times_spec(ls[k])->0),
        decreases lines@.len() - i,
    {
        assert(ls[i as int] == lines@[i as int]@);
        assert(has_prefix(ls[i as int], label_cpu()));
        proof {
            lemma_cpu_line_end_ge(ls, i as int + 1);
        }
        match parse_cpu_line(lines[i].as_slice()) {
            Some(t) => {
                out.push(t);
            },
            None => {
                assert(cpu_times_spec(ls[i as int]) is None);
                return None;
            },
        }
        i = i + 1;
        more = i < lines.len() && starts_with(lines[i].as_slice(), &label);
        proof {
            if i < lines@.len() {
                assert(ls[i as int] == lines@[i as int]@);
            }
        }
    }
    if i == 0 {
        return None;
    }
    Some(out)
}

/// Busy share of the time between two samples, as a whole percentage.
pub open spec fn usage_spec(before: CpuTimes, after: CpuTimes) -> u64 {
    if after.total <= before.total {
        0
    } else {
        let dt = after.total - before.total;
        let di = if after.idle <= before.idle {
            0
        } else {
            after.idle - before.idle
        };
        let busy = if di >= dt {
            0
        } else {
            dt - di
        };
        (busy * 100 / dt) as u64
    }
}

/// The CPU usage between two samples of the counters.
pub fn usage_percent(before: CpuTimes, after: CpuTimes) -> (r: u64)
    ensures
        r == usage_spec(before, after),
        r <= 100,
{
    if after.total <= before.total {
        return 0;
    }
    let dt = after.total - before.total;
    let di = if after.idle <= before.idle {
        0
    } else {
        after.idle - before.idle
    };
    let busy = if di >= dt {
        0
    } else {
        dt - di
    };
    let p = (busy as u128) * 100 / (dt as u128);
    assert((busy as int) * 100 / (dt as int) <= 100) by (nonlinear_arith)
        requires
            busy <= dt,
            dt > 0,
    ;
    p as u64
}

/// Both samples of `/proc/stat` parse and list the same cores.
pub open spec fn cpu_ok(before: Seq<u8>, after: Seq<u8>) -> bool {
    stat_spec(before) is Some && stat_spec(after) is Some && stat_spec(before)->0.len() == stat_spec(
        after,
    )->0.len()
}

/// `c` holds what the two samples and the load average say.
pub open spec fn cpu_matches(
    c: CpuInfo,
    before: Seq<u8>,
    after: Seq<u8>,
    loadavg: Seq<u8>,
    cpuinfo: Seq<u8>,
) -> bool {
    let b = stat_spec(before)->0;
    let a = stat_spec(after)->0;
    &&& c.usage == usage_spec(b[0], a[0])
    &&& c.cores == b.len() - 1
    &&& c.cores_usage@ == Seq::new((b.len() - 1) as nat, |k: int| usage_spec(b[k + 1], a[k + 1]))
    &&& c.load_average == loadavg_spec(loadavg)
    &&& c.frequency_mhz == mhz_from(tokens(cpuinfo, false), 0)
}

/// CPU figures from two samples of `/proc/stat` taken an interval apart, and
/// `/proc/loadavg` and `/proc/cpuinfo`. The load and clock are optional; the counters are not, and both
/// samples must list the same cores.
pub fn cpu_info(before: &[u8], after: &[u8], loadavg: &[u8], cpuinfo: &[u8]) -> (r: Option<CpuInfo>)
    ensures
        r is Some <==> cpu_ok(before@, after@),
        r matches Some(c) ==> cpu_matches(c, before@, after@, loadavg@, cpuinfo@),
{
    let b = match parse_stat(before) {
        Some(b) => b,
        None => {
            return None;
        },
    };
    let a = match parse_stat(after) {
        Some(a) => a,
        None => {
            return None;
        },
    };
    if b.len() != a.len() {
        return None;
    }
    let mut cores_usage: Vec<u64> = Vec::new();
    let mut k: usize = 1;
    while k < b.len()
        invariant
            b@.len() == a@.len(),
            1 <= k <= b@.len(),
            cores_usage@ =~= Seq::new((k - 1) as nat, |j: int| usage_spec(b@[j + 1], a@[j + 1])),
        decreases b@.len() - k,
    {
        cores_usage.push(usage_percent(b[k], a[k]));
        k = k + 1;
    }
    Some(
        CpuInfo {
            usage: usage_percent(b[0], a[0]),
            cores: b.len() - 1,
            cores_usage,
            frequency_mhz: parse_cpu_mhz(cpuinfo),
            load_average: parse_loadavg(loadavg),
        },
    )
}

/// Bytes per unit of a size letter (`K` or `k`, `M`, `G`, `T`: powers of 1024);
/// zero for any other byte.
pub open spec fn unit_multiplier(b: u8) -> nat {
    if b == 75 || b == 107 {
        1024
    } else if b == 77 {
        1048576
    } else if b == 71 {
        1073741824
    } else if b == 84 {
        1099511627776
    } else {
        0
    }
}

fn unit_of(b: u8) -> (r: u64)
    ensures
        r == unit_multiplier(b),
{
    if b == 75 || b == 107 {
        1024
    } else if b == 77 {
        1048576
    } else if b == 71 {
        1073741824
    } else if b == 84 {
        1099511627776
    } else {
        0
    }
}

/// How many trailing bytes of `t` name its unit: a unit letter and `B`
/// (`KB`, `MB`, `GB`, `TB`), a unit letter alone (`K`, `M`, `G`, `T`), or none.
pub open spec fn suffix_len(t: Seq<u8>) -> nat {
    if t.len() >= 3 && t.last() == 66 && unit_multiplier(t[t.len() - 2]) > 0 {
        2
    } else if t.len() >= 2 && unit_multiplier(t.last()) > 0 {
        1
    } else {
        0
    }
}

/// How many digits follow the decimal point of `body`: one to three, or none
/// when there is no point among its last four bytes.
pub open spec fn frac_len(body: Seq<u8>) -> nat {
    if body.len() >= 2 && body[body.len() - 2] == 46 {
        1
    } else if body.len() >= 3 && body[body.len() - 3] == 46 {
        2
    } else if body.len() >= 4 && body[body.len() - 4] == 46 {
        3
    } else {
        0
    }
}

pub open spec fn pow10(f: nat) -> nat {
    if f == 0 {
        1
    } else if f == 1 {
        10
    } else if f == 2 {
        100
    } else {
        1000
    }
}

/// The number `body` spells, times `10^frac_len(body)`: digits, optionally
/// followed by a point and one to three digits.
pub open spec fn scaled_value(body: Seq<u8>) -> Option<nat> {
    let f = frac_len(body);
    let whole = if f > 0 {
        decimal_spec(body.subrange(0, body.len() - f - 1))
    } else {
        decimal_spec(body)
    };
    let frac = if f > 0 {
        decimal_spec(body.subrange(body.len() - f, body.len() as int))
    } else {
        Some(0u64)
    };
    if whole is Some && frac is Some {
        Some((whole->0 * pow10(f) + frac->0) as nat)
    } else {
        None
    }
}

/// A size as `df` prints it, in bytes (rounded down): a number with up to
/// three decimals and a unit suffix, or bare digits counting KiB.
pub open spec fn size_spec(t: Seq<u8>) -> Option<u64> {
    let s = suffix_len(t);
    let mult = if s == 0 {
        1024
    } else {
        unit_multiplier(t[t.len() - s])
    };
    let body = t.subrange(0, t.len() - s);
    let v = scaled_value(body);
    if v is Some && v->0 * mult / pow10(frac_len(body)) <= u64::MAX {
        Some((v->0 * mult / pow10(frac_len(body))) as u64)
    } else {
        None
    }
}

/// Parses a size such as `512`, `20K`, `5KB`, `1.5G`.
pub fn parse_size(t: &[u8]) -> (r: Option<u64>)
    ensures
        r == size_spec(t@),
{
    let n = t.len();
    let s: usize = if n >= 3 && t[n - 1] == 66 && unit_of(t[n - 2]) > 0 {
        2
    } else if n >= 2 && unit_of(t[n - 1]) > 0 {
        1
    } else {
        0
    };
    let mult: u64 = if s == 0 {
        1024
    } else {
        unit_of(t[n - s])
    };
    let body = slice_subrange(t, 0, n - s);
    let m = body.len();
    let f: usize = if m >= 2 && body[m - 2] == 46 {
        1
    } else if m >= 3 && body[m - 3] == 46 {
        2
    } else if m >= 4 && body[m - 4] == 46 {
        3
    } else {
        0
    };
    let p: u128 = if f == 0 {
        1
    } else if f == 1 {
        10
    } else if f == 2 {
        100
    } else {
        1000
    };
    let whole = if f > 0 {
        parse_decimal(slice_subrange(body, 0, m - f - 1))
    } else {
        parse_decimal(body)
    };
    let frac = if f > 0 {
        parse_decimal(slice_subrange(body, m - f, m))
    } else {
        Some(0u64)
    };
    proof {
        assert(body@ =~= t@.subrange(0, t@.len() - s));
    }
    match (whole, frac) {
        (Some(w), Some(fr)) => {
            assert((w as int) * (p as int) + (fr as int) <= 0x1_0000_0000_0000_0000 * 1001) by (
            nonlinear_arith)
                requires
                    w <= u64::MAX,
                    fr <= u64::MAX,
                    1 <= p <= 1000,
            ;
            let num = (w as u128) * p + (fr as u128);
            assert((num as int) * (mult as int) <= 0x1_0000_0000_0000_0000 * 1001 * 1099511627776)
                by (nonlinear_arith)
                requires
                    num <= 0x1_0000_0000_0000_0000 * 1001,
                    mult <= 1099511627776,
            ;
            let q = num * (mult as u128) / p;
            if q > u64::MAX as u128 {
                None
            } else {
                Some(q as u64)
            }
        },
        _ => None,
    }
}

/// The whole part of a number with up to three decimals.
pub open spec fn whole_spec(t: Seq<u8>) -> Option<u64> {
    if scaled_value(t) is Some {
        if frac_len(t) > 0 {
            decimal_spec(t.subrange(0, t.len() - frac_len(t) - 1))
        } else {
            decimal_spec(t)
        }
    } else {
        None
    }
}

fn parse_whole(t: &[u8]) -> (r: Option<u64>)
    ensures
        r == whole_spec(t@),
{
    let m = t.len();
    let f: usize = if m >= 2 && t[m - 2] == 46 {
        1
    } else if m >= 3 && t[m - 3] == 46 {
        2
    } else if m >= 4 && t[m - 4] == 46 {
        3
    } else {
        0
    };
    let whole = if f > 0 {
        parse_decimal(slice_subrange(t, 0, m - f - 1))
    } else {
        parse_decimal(t)
    };
    let frac = if f > 0 {
        parse_decimal(slice_subrange(t, m - f, m))
    } else {
        Some(0u64)
    };
    match (whole, frac) {
        (Some(w), Some(_)) => Some(w),
        _ => None,
    }
}

/// `MHz`
pub open spec fn word_mhz() -> Seq<u8> {
    seq![77u8, 72, 122]
}

/// The clock of the first processor that `/proc/cpuinfo` lists, from word `i`
/// on: the whole part of the number after the words `cpu MHz :`.
pub open spec fn mhz_from(w: Seq<Seq<u8>>, i: int) -> Option<u64>
    decreases w.len() - i,
{
    if i < 0 || i + 3 >= w.len() {
        None
    } else if w[i] == label_cpu() && w[i + 1] == word_mhz() && w[i + 2] == seq![58u8] {
        whole_spec(w[i + 3])
    } else {
        mhz_from(w, i + 1)
    }
}

/// Reads the processor clock, in whole MHz, from the output of `cat /proc/cpuinfo`.
pub fn parse_cpu_mhz(text: &[u8]) -> (r: Option<u64>)
    ensures
        r == mhz_from(tokens(text@, false), 0),
{
    let w = split_tokens(text, false);
    let ghost ws = views(w@);
    let cpu: [u8; 3] = [99u8, 112, 117];
    let mhz: [u8; 3] = [77u8, 72, 122];
    let colon: [u8; 1] = [58u8];
    assert(cpu@ == label_cpu() && mhz@ == word_mhz() && colon@ == seq![58u8]);
    let mut i: usize = 0;
    while w.len() >= 3 && i < w.len() - 3
        invariant
            i <= w@.len(),
            ws == views(w@),
            ws == tokens(text@, false),
            ws.len() == w@.len(),
            cpu@ == label_cpu() && mhz@ == word_mhz() && colon@ == seq![58u8],
            mhz_from(ws, 0) == mhz_from(ws, i as int),
        decreases w@.len() - i,
    {
        assert(ws[i as int] == w@[i as int]@ && ws[i + 1] == w@[i + 1]@ && ws[i + 2] == w@[i + 2]@
            && ws[i + 3] == w@[i + 3]@);
        if bytes_equal(w[i].as_slice(), &cpu) && bytes_equal(w[i + 1].as_slice(), &mhz)
            && bytes_equal(w[i + 2].as_slice(), &colon) {
            return parse_whole(w[i + 3].as_slice());
        }
        i = i + 1;
    }
    None
}

/// Usage of one mounted filesystem, sizes in bytes.
pub struct DiskInfo {
    pub mount: Vec<u8>,
    pub filesystem: Vec<u8>,
    pub total: u64,
    pub used: u64,
    pub available: u64,
    /// Used share of the usable space, as a whole percentage.
    pub usage: u64,
}

pub open spec fn percent_spec(part: nat, whole: nat) -> nat {
    if whole == 0 {
        0
    } else {
        part * 100 / whole
    }
}

/// A data line of `df -P -T`: source, type, size, used, available, capacity,
/// mount. Neither used nor available space may exceed the size. A mount point
/// that holds blanks is known by its first word.
pub open spec fn disk_line_ok(line: Seq<u8>) -> bool {
    let w = tokens(line, false);
    &&& w.len() >= 7
    &&& size_spec(w[2]) is Some && size_spec(w[3]) is Some && size_spec(w[4]) is Some
    &&& size_spec(w[3])->0 <= size_spec(w[2])->0
    &&& size_spec(w[4])->0 <= size_spec(w[2])->0
}

pub open spec fn disk_matches(d: DiskInfo, line: Seq<u8>) -> bool {
    let w = tokens(line, false);
    &&& d.filesystem@ == w[1]
    &&& d.mount@ == w[6]
    &&& d.total == size_spec(w[2])->0
    &&& d.used == size_spec(w[3])->0
    &&& d.available == size_spec(w[4])->0
    &&& d.used <= d.total
    &&& d.available <= d.total
    &&& d.usage == percent_spec(d.used as nat, d.used as nat + d.available as nat)
}

fn parse_disk_line(line: &[u8]) -> (r: Option<DiskInfo>)
    ensures
        r is Some <==> disk_line_ok(line@),
        r matches Some(d) ==> disk_matches(d, line@),
{
    let w = split_tokens(line, false);
    let ghost ws = views(w@);
    if w.len() < 7 {
        return None;
    }
    assert(ws[1] == w@[1]@ && ws[2] == w@[2]@ && ws[3] == w@[3]@ && ws[4] == w@[4]@ && ws[6] == w@[6]@);
    let total = parse_size(w[2].as_slice());
    let used = parse_size(w[3].as_slice());
    let available = parse_size(w[4].as_slice());
    match (total, used, available) {
        (Some(total), Some(used), Some(available)) => {
            if used > total || available > total {
                return None;
            }
            let whole = used as u128 + available as u128;
            let usage = if whole == 0 {
                0
            } else {
                assert((used as int) * 100 / (whole as int) <= 100) by (nonlinear_arith)
                    requires
                        used <= whole,
                        whole > 0,
                ;
                ((used as u128) * 100 / whole) as u64
            };
            Some(
                DiskInfo {
                    mount: w[6].clone(),
                    filesystem: w[1].clone(),
                    total,
                    used,
                    available,
                    usage,
                },
            )
        },
        _ => None,
    }
}

/// Every line after the header of `df`'s output parses, and there is one.
pub open spec fn disks_ok(text: Seq<u8>) -> bool {
    let lines = tokens(text, true);
    lines.len() >= 2 && forall|k: int| 1 <= k < lines.len() ==> #[trigger] disk_line_ok(lines[k])
}

/// `v` holds one record per line after the header, in order.
pub open spec fn disks_match(v: Seq<DiskInfo>, text: Seq<u8>) -> bool {
    v.len() == tokens(text, true).len() - 1 && forall|k: int|
        0 <= k < v.len() ==> disk_matches(#[trigger] v[k], tokens(text, true)[k + 1])
}

/// Parses the output of `df -P -T -k` (or `-h`): a header, then
/// one line per mount, each of which must parse.
pub fn parse_disks(text: &[u8]) -> (r: Option<Vec<DiskInfo>>)
    ensures
        r is Some <==> disks_ok(text@),
        r matches Some(v) ==> disks_match(v@, text@),
{
    let lines = split_tokens(text, true);
    let ghost ls = views(lines@);
    if lines.len() < 2 {
        return None;
    }
    let mut out: Vec<DiskInfo> = Vec::new();
    let mut i: usize = 1;
    while i < lines.len()
        invariant
            ls == views(lines@),
            ls == tokens(text@, true),
            ls.len() >= 2,
            1 <= i <= ls.len(),
            forall|k: int| 1 <= k < i ==> #[trigger] disk_line_ok(ls[k]),
            out@.len() == i - 1,
            forall|k: int| 0 <= k < out@.len() ==> disk_matches(#[trigger] out@[k], ls[k + 1]),
        decreases ls.len() - i,
    {
        assert(ls[i as int] == lines@[i as int]@);
        match parse_disk_line(lines[i].as_slice()) {
            Some(d) => {
                out.push(d);
            },
            None => {
                assert(!disk_line_ok(ls[i as int]));
                return None;
            },
        }
        i = i + 1;
    }
    Some(out)
}

/// Byte counters summed over the network interfaces, loopback left out.
#[derive(Debug, Clone, Copy, PartialEq, Eq, Structural)]
pub struct NetCounters {
    pub rx_bytes: u64,
    pub tx_bytes: u64,
}

/// Network throughput, in bytes per second, and totals, in bytes.
#[derive(Debug, Clone, Copy, PartialEq, Eq, Structural)]
pub struct NetworkInfo {
    pub download: u64,
    pub upload: u64,
    pub download_total: u64,
    pub upload_total: u64,
}

/// `lo:`
pub open spec fn label_loopback() -> Seq<u8> {
    seq![108u8, 111, 58]
}

/// An interface line of `/proc/net/dev`: `name:` then sixteen counters, of
/// which the first is bytes received and the ninth bytes sent.
pub open spec fn iface_line_ok(line: Seq<u8>) -> bool {
    let w = tokens(line, false);
    w.len() >= 17 && w[0].len() > 0 && w[0].last() == 58 && decimal_spec(w[1]) is Some && decimal_spec(
        w[9],
    ) is Some
}

/// Bytes received (or, with `tx`, sent) over interface lines `2..n`.
pub open spec fn net_sum(lines: Seq<Seq<u8>>, n: int, tx: bool) -> nat
    decreases n,
{
    if n <= 2 {
        0
    } else {
        let w = tokens(lines[n - 1], false);
        net_sum(lines, n - 1, tx) + if w[0] == label_loopback() {
            0nat
        } else if tx {
            decimal_value(w[9])
        } else {
            decimal_value(w[1])
        }
    }
}

proof fn lemma_net_sum_grows(lines: Seq<Seq<u8>>, k: int, n: int, tx: bool)
    requires
        2 <= k <= n,
    ensures
        net_sum(lines, k, tx) <= net_sum(lines, n, tx),
    decreases n - k,
{
    if k < n {
        lemma_net_sum_grows(lines, k, n - 1, tx);
    }
}

/// What `/proc/net/dev` says: two header lines, then interface lines that
/// must all parse; totals must fit.
pub open spec fn net_dev_spec(text: Seq<u8>) -> Option<NetCounters> {
    let lines = tokens(text, true);
    let n = lines.len() as int;
    if n >= 3 && (forall|k: int| 2 <= k < n ==> #[trigger] iface_line_ok(lines[k])) && net_sum(
        lines,
        n,
        false,
    ) <= u64::MAX && net_sum(lines, n, true) <= u64::MAX {
        Some(
            NetCounters {
                rx_bytes: net_sum(lines, n, false) as u64,
                tx_bytes: net_sum(lines, n, true) as u64,
            },
        )
    } else {
        None
    }
}

/// Parses the output of `cat /proc/net/dev`.
pub fn parse_net_dev(text: &[u8]) -> (r: Option<NetCounters>)
    ensures
        r == net_dev_spec(text@),
{
    let lines = split_tokens(text, true);
    let ghost ls = views(lines@);
    if lines.len() < 3 {
        return None;
    }
    let lo: [u8; 3] = [108u8, 111, 58];
    assert(lo@ == label_loopback());
    let mut rx: u64 = 0;
    let mut tx: u64 = 0;
    let mut overflow = false;
    let mut i: usize = 2;
    while i < lines.len()
        invariant
            ls == views(lines@),
            ls == tokens(text@, true),
            ls.len() >= 3,
            lo@ == label_loopback(),
            2 <= i <= ls.len(),
            forall|k: int| 2 <= k < i ==> #[trigger] iface_line_ok(ls[k]),
            !overflow ==> rx == net_sum(ls, i as int, false) && tx == net_sum(ls, i as int, true),
            overflow ==> net_sum(ls, i as int, false) > u64::MAX || net_sum(ls, i as int, true)
                > u64::MAX,
        decreases ls.len() - i,
    {
        assert(ls[i as int] == lines@[i as int]@);
        let w = split_tokens(lines[i].as_slice(), false);
        let ghost ws = views(w@);
        if w.len() < 17 || w[0].len() == 0 || w[0][w[0].len() - 1] != 58 {
            assert(!iface_line_ok(ls[i as int]));
            return None;
        }
        assert(ws[0] == w@[0]@ && ws[1] == w@[1]@ && ws[9] == w@[9]@);
        let r = parse_decimal(w[1].as_slice());
        let t = parse_decimal(w[9].as_slice());
        match (r, t) {
            (Some(r), Some(t)) => {
                let skip = bytes_equal(w[0].as_slice(), &lo);
                if !overflow && !skip {
                    match (rx.checked_add(r), tx.checked_add(t)) {
                        (Some(a), Some(b)) => {
                            rx = a;
                            tx = b;
                        },
                        _ => {
                            overflow = true;
                        },
                    }
                }
                proof {
                    lemma_net_sum_grows(ls, i as int, i as int + 1, false);
                    lemma_net_sum_grows(ls, i as int, i as int + 1, true);
                }
            },
            _ => {
                assert(!iface_line_ok(ls[i as int]));
                return None;
            },
        }
        i = i + 1;
    }
    if overflow {
        None
    } else {
        Some(NetCounters { rx_bytes: rx, tx_bytes: tx })
    }
}

/// Bytes per second between two readings of a counter taken `interval_ms`
/// apart; zero when the counter did not grow, capped at the largest `u64`.
pub open spec fn rate_spec(before: u64, after: u64, interval_ms: u64) -> u64 {
    if after <= before || interval_ms == 0 {
        0
    } else if (after - before) * 1000 / (interval_ms as int) > u64::MAX {
        u64::MAX
    } else {
        ((after - before) * 1000 / (interval_ms as int)) as u64
    }
}

pub fn rate_per_second(before: u64, after: u64, interval_ms: u64) -> (r: u64)
    ensures
        r == rate_spec(before, after, interval_ms),
{
    if after <= before || interval_ms == 0 {
        return 0;
    }
    let v = ((after - before) as u128) * 1000 / (interval_ms as u128);
    if v > u64::MAX as u128 {
        u64::MAX
    } else {
        v as u64
    }
}

/// Throughput from two readings of `/proc/net/dev` taken `interval_ms` apart.
pub fn network_info(before: &[u8], after: &[u8], interval_ms: u64) -> (r: Option<NetworkInfo>)
    ensures
        r is Some <==> net_dev_spec(before@) is Some && net_dev_spec(after@) is Some,
        r matches Some(n) ==> {
            let b = net_dev_spec(before@)->0;
            let a = net_dev_spec(after@)->0;
            &&& n.download == rate_spec(b.rx_bytes, a.rx_bytes, interval_ms)
            &&& n.upload == rate_spec(b.tx_bytes, a.tx_bytes, interval_ms)
            &&& n.download_total == a.rx_bytes
            &&& n.upload_total == a.tx_bytes
        },
{
    match (parse_net_dev(before), parse_net_dev(after)) {
        (Some(b), Some(a)) => Some(
            NetworkInfo {
                download: rate_per_second(b.rx_bytes, a.rx_bytes, interval_ms),
                upload: rate_per_second(b.tx_bytes, a.tx_bytes, interval_ms),
                download_total: a.rx_bytes,
                upload_total: a.tx_bytes,
            },
        ),
        _ => None,
    }
}

/// The raw output of each diagnostic command of one sample. A tool that is
/// missing on the host leaves output that its parser rejects.
pub struct MonitorOutputs {
    pub stat_before: Vec<u8>,
    pub stat_after: Vec<u8>,
    pub loadavg: Vec<u8>,
    pub cpuinfo: Vec<u8>,
    pub meminfo: Vec<u8>,
    pub disks: Vec<u8>,
    pub net_before: Vec<u8>,
    pub net_after: Vec<u8>,
    /// Time between the two readings of the counters.
    pub interval_ms: u64,
}

/// One point-in-time sample. A sub-record whose source could not be parsed is
/// absent; the others stand regardless.
pub struct MonitorSnapshot {
    pub cpu: Option<CpuInfo>,
    pub memory: Option<MemoryInfo>,
    pub disks: Option<Vec<DiskInfo>>,
    pub network: Option<NetworkInfo>,
}

/// Builds a snapshot, each sub-record from its own command's output alone.
pub fn build_snapshot(o: &MonitorOutputs) -> (r: MonitorSnapshot)
    ensures
        r.cpu is Some <==> cpu_ok(o.stat_before@, o.stat_after@),
        r.cpu matches Some(c) ==> cpu_matches(c, o.stat_before@, o.stat_after@, o.loadavg@, o.cpuinfo@),
        r.memory == meminfo_spec(o.meminfo@),
        r.disks is Some <==> disks_ok(o.disks@),
        r.disks matches Some(v) ==> disks_match(v@, o.disks@),
        r.network is Some <==> net_dev_spec(o.net_before@) is Some && net_dev_spec(o.net_after@) is Some,
        r.network matches Some(n) ==> n.download_total == net_dev_spec(o.net_after@)->0.rx_bytes
            && n.upload_total == net_dev_spec(o.net_after@)->0.tx_bytes && n.download == rate_spec(
            net_dev_spec(o.net_before@)->0.rx_bytes,
            net_dev_spec(o.net_after@)->0.rx_bytes,
            o.interval_ms,
        ) && n.upload == rate_spec(
            net_dev_spec(o.net_before@)->0.tx_bytes,
            net_dev_spec(o.net_after@)->0.tx_bytes,
            o.interval_ms,
        ),
{
    MonitorSnapshot {
        cpu: cpu_info(
            o.stat_before.as_slice(),
            o.stat_after.as_slice(),
            o.loadavg.as_slice(),
            o.cpuinfo.as_slice(),
        ),
        memory: parse_meminfo(o.meminfo.as_slice()),
        disks: parse_disks(o.disks.as_slice()),
        network: network_info(o.net_before.as_slice(), o.net_after.as_slice(), o.interval_ms),
    }
}


/// The parts of a snapshot.
#[derive(Debug, Clone, Copy, PartialEq, Eq, Structural)]
pub enum MonitorPart {
    Cpu,
    Memory,
    Disks,
    Network,
}

impl MonitorSnapshot {
    pub open spec fn present(&self, part: MonitorPart) -> bool {
        match part {
            MonitorPart::Cpu => self.cpu is Some,
            MonitorPart::Memory => self.memory is Some,
            MonitorPart::Disks => self.disks is Some,
            MonitorPart::Network => self.network is Some,
        }
    }

    /// Whether `part` was sampled, or flagged absent with `ParseFailure`.
    pub fn part_status(&self, part: MonitorPart) -> (r: Result<(), ErrorKind>)
        ensures
            r == (if self.present(part) {
                Ok::<(), ErrorKind>(())
            } else {
                Err(ErrorKind::ParseFailure)
            }),
    {
        let present = match part {
            MonitorPart::Cpu => self.cpu.is_some(),
            MonitorPart::Memory => self.memory.is_some(),
            MonitorPart::Disks => self.disks.is_some(),
            MonitorPart::Network => self.network.is_some(),
        };
        if present {
            Ok(())
        } else {
            Err(ErrorKind::ParseFailure)
        }
    }
}

pub struct GetSystemMonitorParams {
    pub server_id: String,
}

/// First step of `get_system_monitor`: the transport on which to run the
/// diagnostic commands, refused at once without a live session.
pub fn get_system_monitor_begin(registry: &SessionRegistry, params: &GetSystemMonitorParams) -> (r:
    Result<u64, ErrorKind>)
    requires
        registry.wf(),
    ensures
        r == resolve_spec(registry@, params.server_id@),
{
    registry.resolve(&params.server_id)
}
} // verus!
