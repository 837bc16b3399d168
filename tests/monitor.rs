use myssh::monitor::{
    build_snapshot, parse_cpu_mhz, cpu_info, network_info, parse_disks, parse_loadavg, parse_meminfo,
    parse_net_dev, parse_size, parse_stat, usage_percent, CpuTimes, LoadAverage, MonitorOutputs,
    MonitorPart,
};
use myssh::error::ErrorKind;
use myssh::text::{parse_decimal, split_tokens};

const MEMINFO: &str = "MemTotal:       16318480 kB\nMemFree:         1234567 kB\nMemAvailable:    8000000 kB\nBuffers:          100000 kB\nCached:          4000000 kB\nSwapCached:            0 kB\n";
const STAT_BEFORE: &str = "cpu  100 0 100 700 100 0 0 0 0 0\ncpu0 50 0 50 350 50 0 0 0 0 0\ncpu1 50 0 50 350 50 0 0 0 0 0\nintr 12345 0 0\nctxt 99\n";
const STAT_AFTER: &str = "cpu  200 0 200 1300 300 0 0 0 0 0\ncpu0 150 0 50 550 50 0 0 0 0 0\ncpu1 50 0 150 750 250 0 0 0 0 0\nintr 22345 0 0\nctxt 199\n";
const CPUINFO: &str = "processor\t: 0\nmodel name\t: Example CPU\ncpu MHz\t\t: 2400.125\ncache size\t: 512 KB\nprocessor\t: 1\ncpu MHz\t\t: 1800.000\n";
const LOADAVG: &str = "0.52 0.58 1.59 1/123 4567\n";
const DF: &str = "Filesystem     Type  1024-blocks     Used Available Capacity Mounted on\n/dev/sda1      ext4    102400000 51200000  51200000      50% /\ntmpfs          tmpfs        1024        0      1024       0% /run\n";
const NET_BEFORE: &str = "Inter-|   Receive                                                |  Transmit\n face |bytes    packets errs drop fifo frame compressed multicast|bytes    packets errs drop fifo colls carrier compressed\n    lo: 5000 50 0 0 0 0 0 0 5000 50 0 0 0 0 0 0\n  eth0: 100000 100 0 0 0 0 0 0 20000 80 0 0 0 0 0 0\n";
const NET_AFTER: &str = "Inter-|   Receive                                                |  Transmit\n face |bytes    packets errs drop fifo frame compressed multicast|bytes    packets errs drop fifo colls carrier compressed\n    lo: 9000 90 0 0 0 0 0 0 9000 90 0 0 0 0 0 0\n  eth0: 200000 200 0 0 0 0 0 0 30000 90 0 0 0 0 0 0\n";

fn outputs(meminfo: &str) -> MonitorOutputs {
    MonitorOutputs {
        stat_before: STAT_BEFORE.as_bytes().to_vec(),
        stat_after: STAT_AFTER.as_bytes().to_vec(),
        loadavg: LOADAVG.as_bytes().to_vec(),
        cpuinfo: CPUINFO.as_bytes().to_vec(),
        meminfo: meminfo.as_bytes().to_vec(),
        disks: DF.as_bytes().to_vec(),
        net_before: NET_BEFORE.as_bytes().to_vec(),
        net_after: NET_AFTER.as_bytes().to_vec(),
        interval_ms: 1000,
    }
}

#[test]
fn tokens_split_words_and_lines() {
    let w = split_tokens(b"  a bc\t d\n", false);
    assert_eq!(w, vec![b"a".to_vec(), b"bc".to_vec(), b"d".to_vec()]);
    let l = split_tokens(b"one\n\ntwo three\n", true);
    assert_eq!(l, vec![b"one".to_vec(), b"two three".to_vec()]);
    assert!(split_tokens(b"", false).is_empty());
}

#[test]
fn decimals() {
    assert_eq!(parse_decimal(b"0"), Some(0));
    assert_eq!(parse_decimal(b"18446744073709551615"), Some(u64::MAX));
    assert_eq!(parse_decimal(b"18446744073709551616"), None);
    assert_eq!(parse_decimal(b""), None);
    assert_eq!(parse_decimal(b"12a"), None);
}

#[test]
fn sizes_with_suffixes() {
    assert_eq!(parse_size(b"512"), Some(512 * 1024));
    assert_eq!(parse_size(b"3K"), Some(3072));
    assert_eq!(parse_size(b"7M"), Some(7 * 1048576));
    assert_eq!(parse_size(b"20G"), Some(20 * 1073741824));
    assert_eq!(parse_size(b"2T"), Some(2 * 1099511627776));
    assert_eq!(parse_size(b"1.5G"), Some(1610612736));
    assert_eq!(parse_size(b"5KB"), Some(5120));
    assert_eq!(parse_size(b"3MB"), Some(3 * 1048576));
    assert_eq!(parse_size(b"2GB"), Some(2 * 1073741824));
    assert_eq!(parse_size(b"1TB"), Some(1099511627776));
    assert_eq!(parse_size(b"0.25K"), Some(256));
    assert_eq!(parse_size(b"1.5"), Some(1536));
    assert_eq!(parse_size(b"1.2345G"), None);
    assert_eq!(parse_size(b".5G"), None);
    assert_eq!(parse_size(b"5B"), None);
    assert_eq!(parse_size(b"G"), None);
}

#[test]
fn meminfo_in_bytes() {
    let m = parse_meminfo(MEMINFO.as_bytes()).unwrap();
    assert_eq!(m.total, 16318480 * 1024);
    assert_eq!(m.available, 8000000 * 1024);
    assert_eq!(m.used, (16318480 - 8000000) * 1024);
    assert_eq!(m.cached, Some(4000000 * 1024));
    let no_cache = parse_meminfo(b"MemTotal: 100 kB\nMemAvailable: 40 kB\n").unwrap();
    assert_eq!(no_cache.cached, None);
    assert_eq!(no_cache.used, 60 * 1024);
    assert!(parse_meminfo(b"MemTotal: 100 kB\n").is_none());
    assert!(parse_meminfo(b"MemTotal: 10 kB\nMemAvailable: 40 kB\n").is_none());
}

#[test]
fn loadavg_in_hundredths() {
    assert_eq!(parse_loadavg(LOADAVG.as_bytes()), Some(LoadAverage { one: 52, five: 58, fifteen: 159 }));
    assert_eq!(parse_loadavg(b"0.5 0.58 1.59"), None);
    assert_eq!(parse_loadavg(b"0.52 0.58"), None);
}

#[test]
fn stat_counters() {
    let b = parse_stat(STAT_BEFORE.as_bytes()).unwrap();
    assert_eq!(b, vec![
        CpuTimes { total: 1000, idle: 800 },
        CpuTimes { total: 500, idle: 400 },
        CpuTimes { total: 500, idle: 400 },
    ]);
    assert!(parse_stat(b"intr 1 2 3\n").is_none());
    assert!(parse_stat(b"cpu 1 2 x 4 5\n").is_none());
}

#[test]
fn usage_between_samples() {
    assert_eq!(usage_percent(CpuTimes { total: 1000, idle: 800 }, CpuTimes { total: 2000, idle: 1600 }), 20);
    assert_eq!(usage_percent(CpuTimes { total: 1000, idle: 800 }, CpuTimes { total: 1000, idle: 800 }), 0);
    assert_eq!(usage_percent(CpuTimes { total: 0, idle: 0 }, CpuTimes { total: 10, idle: 0 }), 100);
}

#[test]
fn cpu_from_two_samples() {
    let c = cpu_info(STAT_BEFORE.as_bytes(), STAT_AFTER.as_bytes(), LOADAVG.as_bytes(), CPUINFO.as_bytes()).unwrap();
    assert_eq!(c.frequency_mhz, Some(2400));
    assert_eq!(c.usage, 20);
    assert_eq!(c.cores, 2);
    assert_eq!(c.cores_usage, vec![33, 14]);
    assert_eq!(c.load_average, Some(LoadAverage { one: 52, five: 58, fifteen: 159 }));
    assert!(cpu_info(STAT_BEFORE.as_bytes(), b"cpu 1 2 3 4 5\n", LOADAVG.as_bytes(), b"").is_none());
    let no_clock = cpu_info(STAT_BEFORE.as_bytes(), STAT_AFTER.as_bytes(), LOADAVG.as_bytes(), b"").unwrap();
    assert_eq!(no_clock.frequency_mhz, None);
}

#[test]
fn disks_from_df() {
    let d = parse_disks(DF.as_bytes()).unwrap();
    assert_eq!(d.len(), 2);
    assert_eq!(d[0].mount, b"/".to_vec());
    assert_eq!(d[0].filesystem, b"ext4".to_vec());
    assert_eq!(d[0].total, 102400000 * 1024);
    assert_eq!(d[0].used, 51200000 * 1024);
    assert_eq!(d[0].available, 51200000 * 1024);
    assert_eq!(d[0].usage, 50);
    assert_eq!(d[1].mount, b"/run".to_vec());
    assert_eq!(d[1].usage, 0);
    assert!(parse_disks(b"Filesystem Type Size Used Avail Use% Mounted on\n").is_none());
    assert!(parse_disks(b"df: not found\nbroken line\n").is_none());
    let h = parse_disks(b"Filesystem Type Size Used Avail Use% Mounted on\n/dev/vda1 xfs 40G 1.5G 38G 4% /\n").unwrap();
    assert_eq!(h[0].total, 40 * 1073741824);
    assert_eq!(h[0].used, 1610612736);
    assert_eq!(h[0].available, 38 * 1073741824);
    assert!(parse_disks(b"h\n/dev/x ext4 10 20 5 200% /\n").is_none());
    assert!(parse_disks(b"h\n/dev/x ext4 10 5 20 50% /\n").is_none());
}

#[test]
fn network_counters_and_rates() {
    let b = parse_net_dev(NET_BEFORE.as_bytes()).unwrap();
    assert_eq!(b.rx_bytes, 100000);
    assert_eq!(b.tx_bytes, 20000);
    let n = network_info(NET_BEFORE.as_bytes(), NET_AFTER.as_bytes(), 1000).unwrap();
    assert_eq!(n.download, 100000);
    assert_eq!(n.upload, 10000);
    assert_eq!(n.download_total, 200000);
    assert_eq!(n.upload_total, 30000);
    let half = network_info(NET_BEFORE.as_bytes(), NET_AFTER.as_bytes(), 2000).unwrap();
    assert_eq!(half.download, 50000);
    let reset = network_info(NET_AFTER.as_bytes(), NET_BEFORE.as_bytes(), 1000).unwrap();
    assert_eq!(reset.download, 0);
}

#[test]
fn snapshot_complete() {
    let snap = build_snapshot(&outputs(MEMINFO));
    assert!(snap.cpu.is_some());
    assert!(snap.memory.is_some());
    assert_eq!(snap.disks.as_ref().unwrap().len(), 2);
    assert!(snap.network.is_some());
}

#[test]
fn snapshot_with_missing_tool() {
    let snap = build_snapshot(&outputs("sh: 1: cat: /proc/meminfo: not found\n"));
    assert_eq!(snap.part_status(MonitorPart::Memory), Err(ErrorKind::ParseFailure));
    assert_eq!(snap.part_status(MonitorPart::Cpu), Ok(()));
    assert_eq!(snap.part_status(MonitorPart::Disks), Ok(()));
    assert_eq!(snap.part_status(MonitorPart::Network), Ok(()));
    assert!(snap.memory.is_none());
    assert_eq!(snap.cpu.unwrap().usage, 20);
    assert_eq!(snap.disks.unwrap().len(), 2);
    assert_eq!(snap.network.unwrap().download, 100000);
}

#[test]
fn cpu_clock_from_cpuinfo() {
    assert_eq!(parse_cpu_mhz(CPUINFO.as_bytes()), Some(2400));
    assert_eq!(parse_cpu_mhz(b"cpu MHz : 3000\n"), Some(3000));
    assert_eq!(parse_cpu_mhz(b"cpu MHz : fast\n"), None);
    assert_eq!(parse_cpu_mhz(b"model name : x\n"), None);
}
