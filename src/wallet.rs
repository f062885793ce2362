//! The wallet's UTXO set: at most one entry per outpoint, in the order the
//! outpoints were first recorded.
use vstd::prelude::*;

verus! {

/// A previous transaction output: its transaction id and output index.
#[derive(Clone, Debug)]
pub struct JsonOutPoint {
    txid: Vec<u8>,
    vout: u32,
}

impl View for JsonOutPoint {
    type V = (Seq<u8>, u32);

    closed spec fn view(&self) -> (Seq<u8>, u32) {
        (self.txid@, self.vout)
    }
}

impl JsonOutPoint {
    pub fn new(txid: Vec<u8>, vout: u32) -> (r: JsonOutPoint)
        ensures
            r@ == (txid@, vout),
    {
        JsonOutPoint { txid, vout }
    }

    /// Same transaction id and output index.
    pub open spec fn same(&self, other: &JsonOutPoint) -> bool {
        self@ == other@
    }

    /// The transaction id, in internal byte order.
    pub fn txid(&self) -> (r: &[u8])
        ensures
            r@ == self@.0,
    {
        self.txid.as_slice()
    }

    /// The output index.
    pub fn vout(&self) -> (r: u32)
        ensures
            r == self@.1,
    {
        self.vout
    }

    /// Whether both name the same output.
    pub fn equals(&self, other: &JsonOutPoint) -> (r: bool)
        ensures
            r == self.same(other),
    {
        if self.vout != other.vout || self.txid.len() != other.txid.len() {
            return false;
        }
        let mut i: usize = 0;
        while i < self.txid.len()
            invariant
                self.txid@.len() == other.txid@.len(),
                i <= self.txid@.len(),
                self.txid@.subrange(0, i as int) == other.txid@.subrange(0, i as int),
            decreases self.txid@.len() - i,
        {
            if self.txid[i] != other.txid[i] {
                assert(self.txid@[i as int] != other.txid@[i as int]);
                return false;
            }
            assert(self.txid@.subrange(0, i + 1) =~= other.txid@.subrange(0, i + 1));
            i = i + 1;
        }
        assert(self.txid@ =~= self.txid@.subrange(0, i as int));
        assert(other.txid@ =~= other.txid@.subrange(0, i as int));
        true
    }

    /// A copy with the same transaction id and output index.
    pub fn copy(&self) -> (r: JsonOutPoint)
        ensures
            r@ == self@,
    {
        let t = self.txid.clone();
        assert(t@ =~= self.txid@);
        JsonOutPoint { txid: t, vout: self.vout }
    }
}

/// The unspent outputs known to the wallet, with their values in satoshis.
#[derive(Clone, Debug)]
pub struct WalletState {
    pub unspend_utxo: Vec<(JsonOutPoint, u64)>,
}

/// No outpoint occurs twice.
pub open spec fn distinct_outpoints(u: Seq<(JsonOutPoint, u64)>) -> bool {
    forall|i: int, j: int| #![trigger u[i], u[j]] 0 <= i < j < u.len() ==> !u[i].0.same(&u[j].0)
}

/// The entries of a UTXO list as (outpoint, value) pairs of plain values.
pub open spec fn entries(u: Seq<(JsonOutPoint, u64)>) -> Seq<((Seq<u8>, u32), u64)> {
    u.map_values(|e: (JsonOutPoint, u64)| (e.0@, e.1))
}

/// Records `amount` for outpoint `o`: an entry for `o` keeps its place and
/// takes the new amount; otherwise a new entry is appended.
pub open spec fn record(s: Seq<((Seq<u8>, u32), u64)>, o: (Seq<u8>, u32), amount: u64) -> Seq<((Seq<u8>, u32), u64)> {
    if exists|i: int| 0 <= i < s.len() && (#[trigger] s[i]).0 == o {
        let i = choose|i: int| 0 <= i < s.len() && (#[trigger] s[i]).0 == o;
        s.update(i, (o, amount))
    } else {
        s.push((o, amount))
    }
}

/// Records each entry of `l` in turn.
pub open spec fn record_all(s: Seq<((Seq<u8>, u32), u64)>, l: Seq<((Seq<u8>, u32), u64)>) -> Seq<((Seq<u8>, u32), u64)>
    decreases l.len(),
{
    if l.len() == 0 {
        s
    } else {
        record_all(record(s, l[0].0, l[0].1), l.drop_first())
    }
}

/// Reported UTXOs as (outpoint, value) pairs.
pub open spec fn reported(l: Seq<(Vec<u8>, u32, u64)>) -> Seq<((Seq<u8>, u32), u64)> {
    l.map_values(|t: (Vec<u8>, u32, u64)| ((t.0@, t.1), t.2))
}

/// The value recorded for `o`, if any.
pub open spec fn value_of(s: Seq<((Seq<u8>, u32), u64)>, o: (Seq<u8>, u32)) -> Option<u64> {
    if exists|i: int| 0 <= i < s.len() && (#[trigger] s[i]).0 == o {
        let i = choose|i: int| 0 <= i < s.len() && (#[trigger] s[i]).0 == o;
        Some(s[i].1)
    } else {
        None
    }
}

/// Keys are unique.
pub open spec fn distinct_keys(s: Seq<((Seq<u8>, u32), u64)>) -> bool {
    forall|i: int, j: int| #![trigger s[i], s[j]] 0 <= i < j < s.len() ==> s[i].0 != s[j].0
}

/// Recording an outpoint keeps keys unique, makes the new amount the one
/// recorded for it (the last write wins), and leaves every other outpoint's
/// value as it was.
pub proof fn lemma_record_last_write_wins(s: Seq<((Seq<u8>, u32), u64)>, o: (Seq<u8>, u32), amount: u64, other: (Seq<u8>, u32))
    requires
        distinct_keys(s),
    ensures
        distinct_keys(record(s, o, amount)),
        value_of(record(s, o, amount), o) == Some(amount),
        other != o ==> value_of(record(s, o, amount), other) == value_of(s, other),
{
    let r = record(s, o, amount);
    if exists|i: int| 0 <= i < s.len() && (#[trigger] s[i]).0 == o {
        let i = choose|i: int| 0 <= i < s.len() && (#[trigger] s[i]).0 == o;
        assert(r[i].0 == o);
        assert forall|a: int, b: int| #![trigger r[a], r[b]] 0 <= a < b < r.len() implies r[a].0 != r[b].0 by {
            assert(s[a].0 != s[b].0);
        }
        let k = choose|k: int| 0 <= k < r.len() && (#[trigger] r[k]).0 == o;
        assert(k == i) by {
            if k != i {
                if k < i {
                    assert(s[k].0 != s[i].0);
                } else {
                    assert(s[i].0 != s[k].0);
                }
            }
        }
        if other != o {
            if exists|j: int| 0 <= j < s.len() && (#[trigger] s[j]).0 == other {
                let j = choose|j: int| 0 <= j < s.len() && (#[trigger] s[j]).0 == other;
                assert(r[j].0 == other);
                let m = choose|m: int| 0 <= m < r.len() && (#[trigger] r[m]).0 == other;
                assert(m == j) by {
                    if m != j {
                        if m < j {
                            assert(r[m].0 != r[j].0);
                        } else {
                            assert(r[j].0 != r[m].0);
                        }
                    }
                }
            } else {
                assert forall|m: int| 0 <= m < r.len() implies (#[trigger] r[m]).0 != other by {
                    if m != i {
                        assert(r[m] == s[m]);
                    }
                }
            }
        }
    } else {
        assert(r[s.len() as int].0 == o);
        assert forall|a: int, b: int| #![trigger r[a], r[b]] 0 <= a < b < r.len() implies r[a].0 != r[b].0 by {
            if b == s.len() {
                assert(s[a].0 != o);
            } else {
                assert(s[a].0 != s[b].0);
            }
        }
        let k = choose|k: int| 0 <= k < r.len() && (#[trigger] r[k]).0 == o;
        assert(k == s.len()) by {
            if k < s.len() {
                assert(r[k] == s[k]);
            }
        }
        if other != o {
            if exists|j: int| 0 <= j < s.len() && (#[trigger] s[j]).0 == other {
                let j = choose|j: int| 0 <= j < s.len() && (#[trigger] s[j]).0 == other;
                assert(r[j] == s[j]);
                let m = choose|m: int| 0 <= m < r.len() && (#[trigger] r[m]).0 == other;
                assert(m == j) by {
                    if m != j {
                        if m < j {
                            assert(r[m].0 != r[j].0);
                        } else {
                            assert(r[j].0 != r[m].0);
                        }
                    }
                }
            } else {
                assert forall|m: int| 0 <= m < r.len() implies (#[trigger] r[m]).0 != other by {
                    if m < s.len() {
                        assert(r[m] == s[m]);
                    }
                }
            }
        }
    }
}

impl WalletState {
    pub open spec fn wf(&self) -> bool {
        distinct_outpoints(self.unspend_utxo@)
    }

    /// An empty UTXO set.
    pub fn init() -> (r: Self)
        ensures
            r.wf(),
            r.unspend_utxo@.len() == 0,
    {
        WalletState { unspend_utxo: Vec::new() }
    }

    /// Records `amount` for `outpoint`: an outpoint already present keeps its
    /// place and takes the new amount; a new one is appended.
    pub fn push_utxo(&mut self, outpoint: &JsonOutPoint, amount: u64)
        requires
            old(self).wf(),
        ensures
            final(self).wf(),
            entries(final(self).unspend_utxo@) == record(entries(old(self).unspend_utxo@), outpoint@, amount),
    {
        let n = self.unspend_utxo.len();
        let mut i: usize = 0;
        while i < n
            invariant
                n == self.unspend_utxo@.len(),
                self.unspend_utxo@ == old(self).unspend_utxo@,
                distinct_outpoints(self.unspend_utxo@),
                i <= n,
                forall|j: int| 0 <= j < i ==> !(#[trigger] self.unspend_utxo@[j].0).same(outpoint),
            decreases n - i,
        {
            if self.unspend_utxo[i].0.equals(outpoint) {
                let o = self.unspend_utxo[i].0.copy();
                let ghost u = self.unspend_utxo@;
                self.unspend_utxo.set(i, (o, amount));
                proof {
                    let v = self.unspend_utxo@;
                    assert forall|a: int, b: int| #![trigger v[a], v[b]] 0 <= a < b < v.len() implies !v[a].0.same(&v[b].0) by {
                        assert(!u[a].0.same(&u[b].0));
                    }
                    let e = entries(u);
                    assert(e[i as int].0 == outpoint@);
                    let k = choose|k: int| 0 <= k < e.len() && (#[trigger] e[k]).0 == outpoint@;
                    assert(k == i) by {
                        if k != i {
                            if k < i {
                                assert(!u[k].0.same(outpoint));
                            } else {
                                assert(!u[i as int].0.same(&u[k].0));
                            }
                        }
                    }
                    assert(entries(v) =~= e.update(i as int, (outpoint@, amount)));
                }
                return;
            }
            i = i + 1;
        }
        let o = outpoint.copy();
        self.unspend_utxo.push((o, amount));
        proof {
            let u = old(self).unspend_utxo@;
            let v = self.unspend_utxo@;
            assert forall|a: int, b: int| #![trigger v[a], v[b]] 0 <= a < b < v.len() implies !v[a].0.same(&v[b].0) by {
                if b == u.len() {
                    assert(!u[a].0.same(outpoint));
                } else {
                    assert(v[a] == u[a] && v[b] == u[b]);
                }
            }
            let e = entries(u);
            assert forall|k: int| 0 <= k < e.len() implies (#[trigger] e[k]).0 != outpoint@ by {
                assert(!u[k].0.same(outpoint));
            }
            assert(entries(v) =~= e.push((outpoint@, amount)));
        }
    }

    /// Records reported UTXOs, each given as (transaction id, output index,
    /// value), in order. Fails without changing anything, naming the first
    /// entry whose transaction id is not 32 bytes.
    pub fn record_utxos(&mut self, utxos: &Vec<(Vec<u8>, u32, u64)>) -> (r: Result<(), usize>)
        requires
            old(self).wf(),
        ensures
            final(self).wf(),
            r is Ok <==> forall|i: int| 0 <= i < utxos@.len() ==> (#[trigger] utxos@[i]).0@.len() == 32,
            r matches Err(i) ==> i < utxos@.len() && utxos@[i as int].0@.len() != 32
                && entries(final(self).unspend_utxo@) == entries(old(self).unspend_utxo@),
            r is Ok ==> entries(final(self).unspend_utxo@) == record_all(entries(old(self).unspend_utxo@), reported(utxos@)),
    {
        let n = utxos.len();
        let mut i: usize = 0;
        while i < n
            invariant
                n == utxos@.len(),
                i <= n,
                self.unspend_utxo@ == old(self).unspend_utxo@,
                self.wf(),
                forall|j: int| 0 <= j < i ==> (#[trigger] utxos@[j]).0@.len() == 32,
            decreases n - i,
        {
            if utxos[i].0.len() != 32 {
                return Err(i);
            }
            i = i + 1;
        }
        let ghost l = reported(utxos@);
        let mut k: usize = 0;
        assert(l.subrange(0, n as int) =~= l);
        while k < n
            invariant
                n == utxos@.len(),
                l == reported(utxos@),
                k <= n,
                self.wf(),
                record_all(entries(self.unspend_utxo@), l.subrange(k as int, n as int))
                    == record_all(entries(old(self).unspend_utxo@), l),
            decreases n - k,
        {
            let ghost before = entries(self.unspend_utxo@);
            let o = JsonOutPoint::new(utxos[k].0.clone(), utxos[k].1);
            assert(o@ =~= l[k as int].0);
            self.push_utxo(&o, utxos[k].2);
            proof {
                let rest = l.subrange(k as int, n as int);
                assert(rest[0] == l[k as int]);
                assert(rest.drop_first() =~= l.subrange(k + 1, n as int));
            }
            k = k + 1;
        }
        assert(l.subrange(n as int, n as int) =~= Seq::<((Seq<u8>, u32), u64)>::empty());
        Ok(())
    }

    /// A snapshot of the UTXO set.
    pub fn get_utxo(&self) -> (r: Vec<(JsonOutPoint, u64)>)
        ensures
            entries(r@) == entries(self.unspend_utxo@),
    {
        let mut r: Vec<(JsonOutPoint, u64)> = Vec::new();
        let mut i: usize = 0;
        while i < self.unspend_utxo.len()
            invariant
                i <= self.unspend_utxo@.len(),
                r@.len() == i,
                forall|j: int| 0 <= j < i ==> (#[trigger] r@[j]).0.same(&self.unspend_utxo@[j].0)
                    && r@[j].1 == self.unspend_utxo@[j].1,
            decreases self.unspend_utxo@.len() - i,
        {
            let o = self.unspend_utxo[i].0.copy();
            r.push((o, self.unspend_utxo[i].1));
            i = i + 1;
        }
        assert(entries(r@) =~= entries(self.unspend_utxo@));
        r
    }
}

} // verus!
