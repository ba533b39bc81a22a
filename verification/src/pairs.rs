//! The pair normalizer: a table from exchange-native symbols to canonical
//! `BASE/QUOTE` pair spellings.
//!
//! The table is built once at initialization and only read afterwards. A
//! lookup miss is a hard per-trade error, never a silent default, because
//! downstream aggregation keys on pair identity.

use vstd::prelude::*;
use vstd::string::*;

verus! {

/// The normalization table. Later insertions for the same symbol override
/// earlier ones; the view is the resulting map.
pub struct PairTable {
    entries: Vec<(String, String)>,
}

/// The map an entry list denotes: each entry binds its symbol, later entries
/// overriding earlier ones.
pub open spec fn entries_map(s: Seq<(String, String)>) -> Map<Seq<char>, Seq<char>>
    decreases s.len(),
{
    if s.len() == 0 {
        Map::empty()
    } else {
        entries_map(s.drop_last()).insert(s.last().0@, s.last().1@)
    }
}

/// When no entry from position `i` on binds `k`, the entries up to `i`
/// already decide `k`.
proof fn lemma_entries_map_suffix(s: Seq<(String, String)>, k: Seq<char>, i: int)
    requires
        0 <= i <= s.len(),
        forall|j: int| i <= j < s.len() ==> s[j].0@ != k,
    ensures
        entries_map(s).contains_key(k) == entries_map(s.take(i)).contains_key(k),
        entries_map(s).contains_key(k) ==> entries_map(s)[k] == entries_map(s.take(i))[k],
    decreases s.len() - i,
{
    if i == s.len() {
        assert(s.take(i) =~= s);
    } else {
        lemma_entries_map_suffix(s, k, i + 1);
        assert(s.take(i + 1).drop_last() =~= s.take(i));
        assert(s.take(i + 1).last() == s[i]);
    }
}

impl View for PairTable {
    type V = Map<Seq<char>, Seq<char>>;

    closed spec fn view(&self) -> Map<Seq<char>, Seq<char>> {
        entries_map(self.entries@)
    }
}

impl PairTable {
    /// An empty table.
    pub fn new() -> (t: PairTable)
        ensures
            t@ == Map::<Seq<char>, Seq<char>>::empty(),
    {
        PairTable { entries: Vec::new() }
    }

    /// Binds `symbol` to the canonical `pair`, overriding any earlier
    /// binding.
    pub fn insert(&mut self, symbol: String, pair: String)
        ensures
            final(self)@ == old(self)@.insert(symbol@, pair@),
    {
        let ghost before = self.entries@;
        self.entries.push((symbol, pair));
        proof {
            assert(self.entries@.drop_last() =~= before);
        }
    }

    /// Resolves a symbol: the canonical pair it is bound to, or `None`
    /// exactly when the table does not know it.
    pub fn lookup(&self, symbol: &str) -> (r: Option<String>)
        ensures
            r is Some <==> self@.contains_key(symbol@),
            r matches Some(p) ==> p@ == self@[symbol@],
    {
        let key: String = symbol.to_owned();
        let mut i: usize = self.entries.len();
        while i > 0
            invariant
                i <= self.entries.len(),
                key@ == symbol@,
                forall|j: int| i <= j < self.entries@.len() ==> self.entries@[j].0@ != symbol@,
            decreases i,
        {
            i = i - 1;
            let e = &self.entries[i];
            if e.0 == key {
                proof {
                    lemma_entries_map_suffix(self.entries@, symbol@, i as int + 1);
                    assert(self.entries@.take(i as int + 1).drop_last() =~= self.entries@.take(
                        i as int,
                    ));
                    assert(self.entries@.take(i as int + 1).last() == self.entries@[i as int]);
                }
                return Some(e.1.clone());
            }
        }
        proof {
            lemma_entries_map_suffix(self.entries@, symbol@, 0);
            assert(self.entries@.take(0) =~= Seq::<(String, String)>::empty());
        }
        None
    }
}

/// Only bytes below 128.
pub open spec fn ascii_only(b: Seq<u8>) -> bool {
    forall|i: int| 0 <= i < b.len() ==> b[i] < 128
}

/// Only ASCII decimal digits, at least one.
pub open spec fn all_ascii_digits(b: Seq<u8>) -> bool {
    b.len() > 0 && forall|i: int|
        0 <= i < b.len() ==> (('0' as u8) <= #[trigger] b[i] && b[i] <= ('9' as u8))
}

/// Text that `i64` parsing accepts: an optional sign, then digits.
pub open spec fn i64_text(b: Seq<u8>) -> bool {
    if b.len() == 0 {
        false
    } else if b[0] == ('+' as u8) || b[0] == ('-' as u8) {
        all_ascii_digits(b.subrange(1, b.len() as int))
    } else {
        all_ascii_digits(b)
    }
}

pub open spec fn ends_in_usd(b: Seq<u8>) -> bool {
    b.len() >= 3 && b[b.len() - 3] == ('U' as u8) && b[b.len() - 2] == ('S' as u8) && b[b.len()
        - 1] == ('D' as u8)
}

pub open spec fn ends_in_usdt(b: Seq<u8>) -> bool {
    b.len() >= 4 && b[b.len() - 4] == ('U' as u8) && b[b.len() - 3] == ('S' as u8) && b[b.len()
        - 2] == ('D' as u8) && b[b.len() - 1] == ('T' as u8)
}

/// The symbols a catalog resolver may safely be consulted on: ASCII, and
/// where the symbol looks like a dated future (six trailing integer-text
/// bytes after a separator), the part before the date must name a USD or
/// USDT settlement. Initialization code that fills the table from an
/// outside catalog resolver — which rejects other dated symbols by
/// panicking, and performs I/O, so it stays outside this library — filters
/// its symbols through this predicate first; a filtered-out symbol simply
/// stays out of the table.
pub open spec fn catalog_symbol_ok(b: Seq<u8>) -> bool {
    &&& ascii_only(b)
    &&& (b.len() > 7 && i64_text(b.subrange(b.len() - 6, b.len() as int)) ==> ends_in_usdt(
        b.subrange(0, b.len() - 7),
    ) || ends_in_usd(b.subrange(0, b.len() - 7)))
}

/// Whether every byte of `bs[from..to]` is an ASCII digit.
fn digits_run(bs: &[u8], from: usize, to: usize) -> (r: bool)
    requires
        from <= to <= bs@.len(),
    ensures
        r == all_ascii_digits(bs@.subrange(from as int, to as int)),
{
    if from == to {
        return false;
    }
    let mut i: usize = from;
    while i < to
        invariant
            from <= i <= to <= bs@.len(),
            forall|j: int|
                from <= j < i ==> (('0' as u8) <= #[trigger] bs@[j] && bs@[j] <= ('9' as u8)),
        decreases to - i,
    {
        let c = bs[i];
        if c < ('0' as u8) || c > ('9' as u8) {
            assert(bs@.subrange(from as int, to as int)[i - from] == bs@[i as int]);
            return false;
        }
        i = i + 1;
    }
    true
}

/// Decides [`catalog_symbol_ok`], so that initialization can consult the
/// catalog resolver on exactly the symbols it is safe on.
pub fn catalog_symbol_supported(symbol: &str) -> (r: bool)
    ensures
        r == catalog_symbol_ok(symbol.spec_bytes()),
{
    let bs = symbol.as_bytes();
    let n = bs.len();
    let mut i: usize = 0;
    while i < n
        invariant
            i <= n,
            n == bs@.len(),
            bs@ == symbol.spec_bytes(),
            forall|j: int| 0 <= j < i ==> bs@[j] < 128,
        decreases n - i,
    {
        if bs[i] >= 128 {
            return false;
        }
        i = i + 1;
    }
    if n > 7 {
        let dated = if bs[n - 6] == ('+' as u8) || bs[n - 6] == ('-' as u8) {
            digits_run(bs, n - 5, n)
        } else {
            digits_run(bs, n - 6, n)
        };
        proof {
            let tail = bs@.subrange(n - 6, n as int);
            assert(tail.subrange(1, tail.len() as int) =~= bs@.subrange(n - 5, n as int));
            assert(tail =~= bs@.subrange(n - 6, n as int));
        }
        if dated {
            let head_len = n - 7;
            let usdt = head_len >= 4 && bs[head_len - 4] == ('U' as u8) && bs[head_len - 3] == ('S'
                as u8) && bs[head_len - 2] == ('D' as u8) && bs[head_len - 1] == ('T' as u8);
            let usd = head_len >= 3 && bs[head_len - 3] == ('U' as u8) && bs[head_len - 2] == ('S'
                as u8) && bs[head_len - 1] == ('D' as u8);
            proof {
                let head = bs@.subrange(0, n - 7);
                assert(head.len() == n - 7);
            }
            return usdt || usd;
        }
    }
    true
}

} // verus!
