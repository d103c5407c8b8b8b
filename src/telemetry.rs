use vstd::prelude::*;
use crate::state::ClientState;
use crate::text::chars_of;

verus! {

/// QUIC byte and datagram counters of one connection, or a sum of them.
/// Sums saturate at `u64::MAX`.
#[derive(Clone, Copy, Debug, PartialEq, Eq, Structural)]
pub struct Traffic {
    pub rx_bytes: u64,
    pub tx_bytes: u64,
    pub rx_dgrams: u64,
    pub tx_dgrams: u64,
}

pub open spec fn clamp_u64(x: int) -> u64 {
    if x > u64::MAX {
        u64::MAX
    } else {
        x as u64
    }
}

pub open spec fn sum_of(s: Seq<u64>) -> int
    decreases s.len(),
{
    if s.len() == 0 {
        0
    } else {
        sum_of(s.drop_last()) + s.last()
    }
}

pub open spec fn rx_bytes_of(s: Seq<Traffic>) -> Seq<u64> {
    s.map_values(|t: Traffic| t.rx_bytes)
}

pub open spec fn tx_bytes_of(s: Seq<Traffic>) -> Seq<u64> {
    s.map_values(|t: Traffic| t.tx_bytes)
}

pub open spec fn rx_dgrams_of(s: Seq<Traffic>) -> Seq<u64> {
    s.map_values(|t: Traffic| t.rx_dgrams)
}

pub open spec fn tx_dgrams_of(s: Seq<Traffic>) -> Seq<u64> {
    s.map_values(|t: Traffic| t.tx_dgrams)
}

/// Lifetime totals plus the counters of the live connections, each counter
/// saturating at `u64::MAX`.
pub open spec fn spec_report(base: Traffic, live: Seq<Traffic>) -> Traffic {
    Traffic {
        rx_bytes: clamp_u64(base.rx_bytes + sum_of(rx_bytes_of(live))),
        tx_bytes: clamp_u64(base.tx_bytes + sum_of(tx_bytes_of(live))),
        rx_dgrams: clamp_u64(base.rx_dgrams + sum_of(rx_dgrams_of(live))),
        tx_dgrams: clamp_u64(base.tx_dgrams + sum_of(tx_dgrams_of(live))),
    }
}

impl Traffic {
    pub open spec fn spec_le(self, o: Traffic) -> bool {
        self.rx_bytes <= o.rx_bytes && self.tx_bytes <= o.tx_bytes && self.rx_dgrams
            <= o.rx_dgrams && self.tx_dgrams <= o.tx_dgrams
    }

    pub open spec fn spec_plus(self, o: Traffic) -> Traffic {
        Traffic {
            rx_bytes: clamp_u64(self.rx_bytes + o.rx_bytes),
            tx_bytes: clamp_u64(self.tx_bytes + o.tx_bytes),
            rx_dgrams: clamp_u64(self.rx_dgrams + o.rx_dgrams),
            tx_dgrams: clamp_u64(self.tx_dgrams + o.tx_dgrams),
        }
    }

    pub fn zero() -> (r: Traffic)
        ensures
            r == (Traffic { rx_bytes: 0, tx_bytes: 0, rx_dgrams: 0, tx_dgrams: 0 }),
    {
        Traffic { rx_bytes: 0, tx_bytes: 0, rx_dgrams: 0, tx_dgrams: 0 }
    }

    /// Counter-wise saturating sum.
    pub fn plus(self, o: Traffic) -> (r: Traffic)
        ensures
            r == self.spec_plus(o),
    {
        Traffic {
            rx_bytes: self.rx_bytes.saturating_add(o.rx_bytes),
            tx_bytes: self.tx_bytes.saturating_add(o.tx_bytes),
            rx_dgrams: self.rx_dgrams.saturating_add(o.rx_dgrams),
            tx_dgrams: self.tx_dgrams.saturating_add(o.tx_dgrams),
        }
    }
}

proof fn lemma_report_one(o: Traffic)
    ensures
        sum_of(rx_bytes_of(seq![o])) == o.rx_bytes,
        sum_of(tx_bytes_of(seq![o])) == o.tx_bytes,
        sum_of(rx_dgrams_of(seq![o])) == o.rx_dgrams,
        sum_of(tx_dgrams_of(seq![o])) == o.tx_dgrams,
{
    let s = seq![o];
    assert(rx_bytes_of(s) =~= seq![o.rx_bytes]);
    assert(tx_bytes_of(s) =~= seq![o.tx_bytes]);
    assert(rx_dgrams_of(s) =~= seq![o.rx_dgrams]);
    assert(tx_dgrams_of(s) =~= seq![o.tx_dgrams]);
    lemma_sum_single(o.rx_bytes);
    lemma_sum_single(o.tx_bytes);
    lemma_sum_single(o.rx_dgrams);
    lemma_sum_single(o.tx_dgrams);
}

proof fn lemma_sum_single(x: u64)
    ensures
        sum_of(seq![x]) == x,
{
    assert(seq![x].drop_last() =~= Seq::<u64>::empty());
    assert(sum_of(Seq::<u64>::empty()) == 0);
}

proof fn lemma_sum_nonneg(s: Seq<u64>)
    ensures
        sum_of(s) >= 0,
    decreases s.len(),
{
    if s.len() > 0 {
        lemma_sum_nonneg(s.drop_last());
    }
}

proof fn lemma_sum_le(a: Seq<u64>, b: Seq<u64>)
    requires
        a.len() == b.len(),
        forall|i: int| 0 <= i < a.len() ==> a[i] <= b[i],
    ensures
        sum_of(a) <= sum_of(b),
    decreases a.len(),
{
    if a.len() > 0 {
        lemma_sum_le(a.drop_last(), b.drop_last());
    }
}

proof fn lemma_sum_remove(s: Seq<u64>, p: int)
    requires
        0 <= p < s.len(),
    ensures
        sum_of(s.remove(p)) + s[p] == sum_of(s),
    decreases s.len(),
{
    if p == s.len() - 1 {
        assert(s.remove(p) =~= s.drop_last());
    } else {
        let t = s.drop_last();
        lemma_sum_remove(t, p);
        assert(s.remove(p).drop_last() =~= t.remove(p));
    }
}

proof fn lemma_sum_push(s: Seq<u64>, x: u64)
    ensures
        sum_of(s.push(x)) == sum_of(s) + x,
{
    assert(s.push(x).drop_last() =~= s);
}

/// The sum of lifetime totals and live counters.
pub fn traffic_report(base: Traffic, live: &Vec<Traffic>) -> (r: Traffic)
    ensures
        r == spec_report(base, live@),
{
    let mut acc = base;
    let mut i: usize = 0;
    while i < live.len()
        invariant
            i <= live@.len(),
            acc == spec_report(base, live@.subrange(0, i as int)),
        decreases live@.len() - i,
    {
        let t = live[i];
        let ghost pre = live@.subrange(0, i as int);
        let ghost nxt = live@.subrange(0, i + 1);
        assert(nxt =~= pre.push(t));
        assert(rx_bytes_of(nxt) =~= rx_bytes_of(pre).push(t.rx_bytes));
        assert(tx_bytes_of(nxt) =~= tx_bytes_of(pre).push(t.tx_bytes));
        assert(rx_dgrams_of(nxt) =~= rx_dgrams_of(pre).push(t.rx_dgrams));
        assert(tx_dgrams_of(nxt) =~= tx_dgrams_of(pre).push(t.tx_dgrams));
        proof {
            lemma_sum_push(rx_bytes_of(pre), t.rx_bytes);
            lemma_sum_push(tx_bytes_of(pre), t.tx_bytes);
            lemma_sum_push(rx_dgrams_of(pre), t.rx_dgrams);
            lemma_sum_push(tx_dgrams_of(pre), t.tx_dgrams);
            lemma_sum_nonneg(rx_bytes_of(pre));
            lemma_sum_nonneg(tx_bytes_of(pre));
            lemma_sum_nonneg(rx_dgrams_of(pre));
            lemma_sum_nonneg(tx_dgrams_of(pre));
        }
        acc = acc.plus(t);
        i = i + 1;
    }
    assert(live@.subrange(0, i as int) =~= live@);
    acc
}

/// Reports never shrink when the totals and every live counter grow (QUIC
/// counters only grow while a connection lives).
pub proof fn lemma_report_monotone(b1: Traffic, l1: Seq<Traffic>, b2: Traffic, l2: Seq<Traffic>)
    requires
        b1.spec_le(b2),
        l1.len() == l2.len(),
        forall|i: int| 0 <= i < l1.len() ==> (#[trigger] l1[i]).spec_le(l2[i]),
    ensures
        spec_report(b1, l1).spec_le(spec_report(b2, l2)),
{
    assert forall|i: int| 0 <= i < l1.len() implies rx_bytes_of(l1)[i] <= rx_bytes_of(l2)[i]
        && tx_bytes_of(l1)[i] <= tx_bytes_of(l2)[i] && rx_dgrams_of(l1)[i] <= rx_dgrams_of(l2)[i]
        && tx_dgrams_of(l1)[i] <= tx_dgrams_of(l2)[i] by {
        assert(l1[i].spec_le(l2[i]));
    }
    lemma_sum_le(rx_bytes_of(l1), rx_bytes_of(l2));
    lemma_sum_le(tx_bytes_of(l1), tx_bytes_of(l2));
    lemma_sum_le(rx_dgrams_of(l1), rx_dgrams_of(l2));
    lemma_sum_le(tx_dgrams_of(l1), tx_dgrams_of(l2));
    lemma_sum_nonneg(rx_bytes_of(l1));
    lemma_sum_nonneg(tx_bytes_of(l1));
    lemma_sum_nonneg(rx_dgrams_of(l1));
    lemma_sum_nonneg(tx_dgrams_of(l1));
}

/// Moving a connection out of the live set while folding its final counters
/// (at least what it last showed) into the totals never shrinks the report,
/// nor counts that connection twice.
pub proof fn lemma_report_kept_by_fold(base: Traffic, live: Seq<Traffic>, p: int, last: Traffic)
    requires
        0 <= p < live.len(),
        live[p].spec_le(last),
    ensures
        spec_report(base, live).spec_le(spec_report(base.spec_plus(last), live.remove(p))),
{
    lemma_report_one(last);
    assert(rx_bytes_of(live.remove(p)) =~= rx_bytes_of(live).remove(p));
    assert(tx_bytes_of(live.remove(p)) =~= tx_bytes_of(live).remove(p));
    assert(rx_dgrams_of(live.remove(p)) =~= rx_dgrams_of(live).remove(p));
    assert(tx_dgrams_of(live.remove(p)) =~= tx_dgrams_of(live).remove(p));
    lemma_sum_remove(rx_bytes_of(live), p);
    lemma_sum_remove(tx_bytes_of(live), p);
    lemma_sum_remove(rx_dgrams_of(live), p);
    lemma_sum_remove(tx_dgrams_of(live), p);
    lemma_sum_nonneg(rx_bytes_of(live.remove(p)));
    lemma_sum_nonneg(tx_bytes_of(live.remove(p)));
    lemma_sum_nonneg(rx_dgrams_of(live.remove(p)));
    lemma_sum_nonneg(tx_dgrams_of(live.remove(p)));
}

/// A new live connection, whatever its counters, never shrinks the report.
pub proof fn lemma_report_kept_by_push(base: Traffic, live: Seq<Traffic>, fresh: Traffic)
    ensures
        spec_report(base, live).spec_le(spec_report(base, live.push(fresh))),
{
    assert(rx_bytes_of(live.push(fresh)) =~= rx_bytes_of(live).push(fresh.rx_bytes));
    assert(tx_bytes_of(live.push(fresh)) =~= tx_bytes_of(live).push(fresh.tx_bytes));
    assert(rx_dgrams_of(live.push(fresh)) =~= rx_dgrams_of(live).push(fresh.rx_dgrams));
    assert(tx_dgrams_of(live.push(fresh)) =~= tx_dgrams_of(live).push(fresh.tx_dgrams));
    lemma_sum_push(rx_bytes_of(live), fresh.rx_bytes);
    lemma_sum_push(tx_bytes_of(live), fresh.tx_bytes);
    lemma_sum_push(rx_dgrams_of(live), fresh.rx_dgrams);
    lemma_sum_push(tx_dgrams_of(live), fresh.tx_dgrams);
    lemma_sum_nonneg(rx_bytes_of(live));
    lemma_sum_nonneg(tx_bytes_of(live));
    lemma_sum_nonneg(rx_dgrams_of(live));
    lemma_sum_nonneg(tx_dgrams_of(live));
}

/// Reports compare counter by counter, so a chain of never-shrinking steps
/// never shrinks.
pub proof fn lemma_le_transitive(a: Traffic, b: Traffic, c: Traffic)
    requires
        a.spec_le(b),
        b.spec_le(c),
    ensures
        a.spec_le(c),
{
}

/// A record for the telemetry listener.
#[derive(Debug)]
pub enum Telemetry {
    State(ClientState),
    Log(String),
    Traffic(Traffic),
}

/// Relies on chrono's `Local::now` and `DelayedFormat`: the local wall-clock
/// time in the given strftime format. Nothing is known of the text.
#[verifier::external_body]
fn local_time_text(format: &str) -> (r: String)
    requires
        format@ == "%Y-%m-%d %H:%M:%S.%3f"@,
{
    chrono::Local::now().format(format).to_string()
}

/// A log line: the time stamp, a space, then the message.
pub fn log_line(stamp: &str, msg: &str) -> (r: String)
    ensures
        r@ == stamp@ + seq![' '] + msg@,
{
    let mut out = stamp.to_owned();
    out.push(' ');
    let cs = chars_of(msg);
    let ghost start = out@;
    let mut i: usize = 0;
    while i < cs.len()
        invariant
            i <= cs@.len(),
            cs@ == msg@,
            start == stamp@ + seq![' '],
            out@ == start + cs@.subrange(0, i as int),
        decreases cs@.len() - i,
    {
        out.push(cs[i]);
        i = i + 1;
        assert(out@ =~= start + cs@.subrange(0, i as int));
    }
    assert(cs@.subrange(0, i as int) =~= cs@);
    out
}

/// A log line stamped with the local time.
pub fn stamped_log_line(msg: &str) -> (r: String)
    ensures
        exists|stamp: Seq<char>| r@ == stamp + seq![' '] + msg@,
{
    let stamp = local_time_text("%Y-%m-%d %H:%M:%S.%3f");
    log_line(stamp.as_str(), msg)
}

} // verus!
