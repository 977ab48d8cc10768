//! Per-VM counter snapshots and their construction from the host's raw
//! statistics.
use vstd::prelude::*;

verus! {

/// The value of the state counter that marks a running VM.
pub const STATE_RUNNING: u64 = 1;

/// One value of a raw statistics record.
pub enum CounterValue {
    Unsigned(u64),
    Text(String),
}

/// One named counter of a raw statistics record, as the host reports it.
pub struct RawCounter {
    pub field: String,
    pub value: CounterValue,
}

/// One VM's counters at one instant.
///
/// `timestamp` is a reading of a monotonic clock in nanoseconds, taken when
/// the snapshot was assembled.
pub struct VmMetrics {
    pub name: String,
    pub status: bool,
    pub id: u32,
    pub timestamp: u64,
    pub cpu_time: u64,
    pub mem_rss: u64,
    pub mem_cache: u64,
    pub net_name: String,
    pub net_rx: u64,
    pub net_tx: u64,
    pub disk_name: String,
    pub disk_path: String,
    pub disk_rx: u64,
    pub disk_wx: u64,
}

/// The text that stands for a name the host did not report.
pub open spec fn unknown() -> Seq<char> {
    "unknown"@
}

/// The counters that a snapshot keeps.
pub enum CounterKind {
    State,
    CpuTime,
    MemRss,
    MemCache,
    NetName,
    NetRx,
    NetTx,
    DiskName,
    DiskPath,
    DiskRx,
    DiskWx,
}

/// Which kept counter a raw counter name denotes, if any.
pub open spec fn kind_of(field: Seq<char>) -> Option<CounterKind> {
    if field == "state.state"@ {
        Some(CounterKind::State)
    } else if field == "cpu.time"@ {
        Some(CounterKind::CpuTime)
    } else if field == "balloon.rss"@ {
        Some(CounterKind::MemRss)
    } else if field == "balloon.disk_caches"@ {
        Some(CounterKind::MemCache)
    } else if field == "net.0.name"@ {
        Some(CounterKind::NetName)
    } else if field == "net.0.rx.bytes"@ {
        Some(CounterKind::NetRx)
    } else if field == "net.0.tx.bytes"@ {
        Some(CounterKind::NetTx)
    } else if field == "block.0.name"@ {
        Some(CounterKind::DiskName)
    } else if field == "block.0.path"@ {
        Some(CounterKind::DiskPath)
    } else if field == "block.0.rd.bytes"@ {
        Some(CounterKind::DiskRx)
    } else if field == "block.0.wd.bytes"@ {
        Some(CounterKind::DiskWx)
    } else {
        None
    }
}

/// The value that the last counter of kind `k` in `ps` carries, if any.
pub open spec fn last_value(ps: Seq<RawCounter>, k: CounterKind) -> Option<CounterValue>
    decreases ps.len(),
{
    if ps.len() == 0 {
        None
    } else if kind_of(ps.last().field@) == Some(k) {
        Some(ps.last().value)
    } else {
        last_value(ps.drop_last(), k)
    }
}

/// A numeric counter: zero when it is absent or does not hold a number.
pub open spec fn counter_u64(ps: Seq<RawCounter>, k: CounterKind) -> u64 {
    match last_value(ps, k) {
        Some(CounterValue::Unsigned(v)) => v,
        _ => 0,
    }
}

/// A text counter: `unknown` when it is absent or does not hold text.
pub open spec fn counter_text(ps: Seq<RawCounter>, k: CounterKind) -> Seq<char> {
    match last_value(ps, k) {
        Some(CounterValue::Text(s)) => s@,
        _ => unknown(),
    }
}

/// The counters of `m` are those that `ps` carries, with the documented
/// defaults for those it lacks or cannot give.
pub open spec fn counters_from(m: VmMetrics, ps: Seq<RawCounter>) -> bool {
    &&& m.status == (counter_u64(ps, CounterKind::State) == STATE_RUNNING)
    &&& m.cpu_time == counter_u64(ps, CounterKind::CpuTime)
    &&& m.mem_rss == counter_u64(ps, CounterKind::MemRss)
    &&& m.mem_cache == counter_u64(ps, CounterKind::MemCache)
    &&& m.net_name@ == counter_text(ps, CounterKind::NetName)
    &&& m.net_rx == counter_u64(ps, CounterKind::NetRx)
    &&& m.net_tx == counter_u64(ps, CounterKind::NetTx)
    &&& m.disk_name@ == counter_text(ps, CounterKind::DiskName)
    &&& m.disk_path@ == counter_text(ps, CounterKind::DiskPath)
    &&& m.disk_rx == counter_u64(ps, CounterKind::DiskRx)
    &&& m.disk_wx == counter_u64(ps, CounterKind::DiskWx)
}

impl Default for VmMetrics {
    fn default() -> (r: VmMetrics)
        ensures
            r.name@ == unknown(),
            r.id == 0,
            r.timestamp == 0,
            counters_from(r, Seq::empty()),
    {
        VmMetrics {
            name: String::from_str("unknown"),
            status: false,
            id: 0,
            timestamp: 0,
            cpu_time: 0,
            mem_rss: 0,
            mem_cache: 0,
            net_name: String::from_str("unknown"),
            net_rx: 0,
            net_tx: 0,
            disk_name: String::from_str("unknown"),
            disk_path: String::from_str("unknown"),
            disk_rx: 0,
            disk_wx: 0,
        }
    }
}

fn is_field(field: &String, key: &str) -> (r: bool)
    ensures
        r == (field@ == key@),
{
    field.eq(&String::from_str(key))
}

/// Classifies a raw counter name.
pub fn counter_kind(field: &String) -> (r: Option<CounterKind>)
    ensures
        r == kind_of(field@),
{
    if is_field(field, "state.state") {
        Some(CounterKind::State)
    } else if is_field(field, "cpu.time") {
        Some(CounterKind::CpuTime)
    } else if is_field(field, "balloon.rss") {
        Some(CounterKind::MemRss)
    } else if is_field(field, "balloon.disk_caches") {
        Some(CounterKind::MemCache)
    } else if is_field(field, "net.0.name") {
        Some(CounterKind::NetName)
    } else if is_field(field, "net.0.rx.bytes") {
        Some(CounterKind::NetRx)
    } else if is_field(field, "net.0.tx.bytes") {
        Some(CounterKind::NetTx)
    } else if is_field(field, "block.0.name") {
        Some(CounterKind::DiskName)
    } else if is_field(field, "block.0.path") {
        Some(CounterKind::DiskPath)
    } else if is_field(field, "block.0.rd.bytes") {
        Some(CounterKind::DiskRx)
    } else if is_field(field, "block.0.wd.bytes") {
        Some(CounterKind::DiskWx)
    } else {
        None
    }
}

fn text_of(v: &CounterValue) -> (r: String)
    ensures
        r@ == (match *v {
            CounterValue::Text(s) => s@,
            _ => unknown(),
        }),
{
    match v {
        CounterValue::Text(s) => s.clone(),
        CounterValue::Unsigned(_) => String::from_str("unknown"),
    }
}

fn number_of(v: &CounterValue) -> (r: u64)
    ensures
        r == (match *v {
            CounterValue::Unsigned(n) => n,
            _ => 0,
        }),
{
    match v {
        CounterValue::Unsigned(n) => *n,
        CounterValue::Text(_) => 0,
    }
}

proof fn lemma_last_value_step(ps: Seq<RawCounter>, i: int, k: CounterKind)
    requires
        0 <= i < ps.len(),
    ensures
        last_value(ps.subrange(0, i + 1), k) == (if kind_of(ps[i].field@) == Some(k) {
            Some(ps[i].value)
        } else {
            last_value(ps.subrange(0, i), k)
        }),
{
    assert(ps.subrange(0, i + 1).drop_last() =~= ps.subrange(0, i));
}

/// Builds a snapshot from one VM's raw statistics record.
///
/// The last counter of each known name decides its field; a missing or
/// ill-typed counter leaves the field at its default, and unknown names are
/// ignored.
pub fn parse_metrics(name: Option<String>, id: u32, timestamp: u64, params: &Vec<RawCounter>) -> (r: VmMetrics)
    ensures
        r.name@ == (match name {
            Some(n) => n@,
            None => unknown(),
        }),
        r.id == id,
        r.timestamp == timestamp,
        counters_from(r, params@),
{
    let mut m = VmMetrics::default();
    m.id = id;
    m.timestamp = timestamp;
    match name {
        Some(n) => {
            m.name = n;
        },
        None => {},
    }
    let mut state: u64 = 0;
    proof {
        assert(params@.subrange(0, 0) =~= Seq::<RawCounter>::empty());
    }
    let mut i: usize = 0;
    while i < params.len()
        invariant
            0 <= i <= params.len(),
            state == counter_u64(params@.subrange(0, i as int), CounterKind::State),
            counters_from(m, params@.subrange(0, i as int)),
            m.name@ == (match name {
                Some(n) => n@,
                None => unknown(),
            }),
            m.id == id,
            m.timestamp == timestamp,
        decreases params.len() - i,
    {
        let p = &params[i];
        proof {
            lemma_last_value_step(params@, i as int, CounterKind::State);
            lemma_last_value_step(params@, i as int, CounterKind::CpuTime);
            lemma_last_value_step(params@, i as int, CounterKind::MemRss);
            lemma_last_value_step(params@, i as int, CounterKind::MemCache);
            lemma_last_value_step(params@, i as int, CounterKind::NetName);
            lemma_last_value_step(params@, i as int, CounterKind::NetRx);
            lemma_last_value_step(params@, i as int, CounterKind::NetTx);
            lemma_last_value_step(params@, i as int, CounterKind::DiskName);
            lemma_last_value_step(params@, i as int, CounterKind::DiskPath);
            lemma_last_value_step(params@, i as int, CounterKind::DiskRx);
            lemma_last_value_step(params@, i as int, CounterKind::DiskWx);
        }
        match counter_kind(&p.field) {
            Some(CounterKind::State) => {
                state = number_of(&p.value);
                m.status = state == STATE_RUNNING;
            },
            Some(CounterKind::CpuTime) => m.cpu_time = number_of(&p.value),
            Some(CounterKind::MemRss) => m.mem_rss = number_of(&p.value),
            Some(CounterKind::MemCache) => m.mem_cache = number_of(&p.value),
            Some(CounterKind::NetName) => m.net_name = text_of(&p.value),
            Some(CounterKind::NetRx) => m.net_rx = number_of(&p.value),
            Some(CounterKind::NetTx) => m.net_tx = number_of(&p.value),
            Some(CounterKind::DiskName) => m.disk_name = text_of(&p.value),
            Some(CounterKind::DiskPath) => m.disk_path = text_of(&p.value),
            Some(CounterKind::DiskRx) => m.disk_rx = number_of(&p.value),
            Some(CounterKind::DiskWx) => m.disk_wx = number_of(&p.value),
            None => {},
        }
        i = i + 1;
    }
    proof {
        assert(params@.subrange(0, params@.len() as int) =~= params@);
    }
    m
}


/// The name of a snapshot of the VM `vm` taken at the time `stamp`.
pub open spec fn snapshot_name(vm: Seq<char>, stamp: Seq<char>) -> Seq<char> {
    vm + "-"@ + stamp
}

/// The description that asks the host for a disk snapshot of the VM `vm`,
/// named after it and the time `stamp`.
pub open spec fn snapshot_xml_of(vm: Seq<char>, stamp: Seq<char>) -> Seq<char> {
    "<domainsnapshot><name>"@ + snapshot_name(vm, stamp)
        + "</name><description>vmgr snapshot</description></domainsnapshot>"@
}

/// Writes the description of a snapshot of the VM `vm` taken at `stamp`.
pub fn snapshot_xml(vm: &str, stamp: &str) -> (r: String)
    ensures
        r@ == snapshot_xml_of(vm@, stamp@),
{
    let mut s = String::from_str("<domainsnapshot><name>");
    s.append(vm);
    s.append("-");
    s.append(stamp);
    s.append("</name><description>vmgr snapshot</description></domainsnapshot>");
    proof {
        assert(s@ =~= snapshot_xml_of(vm@, stamp@));
    }
    s
}

} // verus!
