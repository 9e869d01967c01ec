//! The per-record diagnostic-context store.
//!
//! A fresh store is built for each record from that record's own tags
//! plus one reserved entry holding the locally formatted timestamp.  The
//! store is passed explicitly to the renderer and dropped with the
//! record, so no state can leak from one record to the next.

use vstd::prelude::*;

use crate::clock::{format_local_timestamp, ts_parses};
use crate::record::{LogRecord, RecordV};
use crate::text::{chars_eq, chars_of};

verus! {

/// The context value stored under `key`, if any; a later entry with the
/// same key shadows an earlier one.
pub open spec fn ctx_found(m: Seq<(Seq<char>, Seq<char>)>, key: Seq<char>) -> Option<Seq<char>>
    decreases m.len(),
{
    if m.len() == 0 {
        None
    } else if m.last().0 == key {
        Some(m.last().1)
    } else {
        ctx_found(m.drop_last(), key)
    }
}

/// The text a context reference renders: the stored value, or empty text
/// when the key is absent.
pub open spec fn ctx_chars(m: Seq<(Seq<char>, Seq<char>)>, key: Seq<char>) -> Seq<char> {
    match ctx_found(m, key) {
        Some(v) => v,
        None => Seq::<char>::empty(),
    }
}

/// The reserved key under which the formatted timestamp is stored.
pub open spec fn reserved_key() -> Seq<char> {
    seq!['_', '_', 'l', 'o', 'g', '-', 't', 'i', 'm', 'e', 's', 't', 'a', 'm', 'p']
}

/// The store a record gets: its own tags, then the reserved timestamp
/// entry with some formatted text `ts`.
pub open spec fn ctx_model(r: RecordV, ts: Seq<char>) -> Seq<(Seq<char>, Seq<char>)> {
    r.mdc.push((reserved_key(), ts))
}

/// The reserved key, as characters.
pub fn reserved_key_chars() -> (r: Vec<char>)
    ensures
        r@ == reserved_key(),
{
    proof {
        reveal_strlit("__log-timestamp");
    }
    let v = chars_of("__log-timestamp");
    proof {
        assert(v@ =~= reserved_key());
    }
    v
}

/// The views of the stored entry pairs, in order.
pub open spec fn entries_view(v: Seq<(Vec<char>, Vec<char>)>) -> Seq<(Seq<char>, Seq<char>)> {
    v.map_values(|p: (Vec<char>, Vec<char>)| (p.0@, p.1@))
}

/// A per-record mapping of diagnostic keys to values.
pub struct CtxStore {
    /// The entries, in insertion order; later entries shadow earlier ones.
    pub entries: Vec<(Vec<char>, Vec<char>)>,
}

impl View for CtxStore {
    type V = Seq<(Seq<char>, Seq<char>)>;

    open spec fn view(&self) -> Seq<(Seq<char>, Seq<char>)> {
        entries_view(self.entries@)
    }
}

impl CtxStore {
    /// Looks a key up; the latest entry for the key wins.
    pub fn get(&self, key: &Vec<char>) -> (r: Option<&Vec<char>>)
        ensures
            (match r {
                Some(v) => ctx_found(self@, key@) == Some(v@),
                None => ctx_found(self@, key@) is None,
            }),
    {
        let mut i: usize = self.entries.len();
        proof {
            assert(self@.take(i as int) =~= self@);
        }
        while i > 0
            invariant
                i <= self.entries@.len(),
                self@.len() == self.entries@.len(),
                ctx_found(self@, key@) == ctx_found(self@.take(i as int), key@),
            decreases i,
        {
            i = i - 1;
            proof {
                assert(self@.take(i + 1 as int).last() == self@[i as int]);
                assert(self@.take(i + 1 as int).drop_last() =~= self@.take(i as int));
                assert(self@[i as int] == (self.entries@[i as int].0@, self.entries@[i as int].1@));
            }
            if chars_eq(&self.entries[i].0, key) {
                return Some(&self.entries[i].1);
            }
        }
        proof {
            assert(self@.take(0) =~= Seq::<(Seq<char>, Seq<char>)>::empty());
        }
        None
    }
}

/// Builds the one store a record's rendering sees: exactly the record's
/// own tags, in order, followed by the reserved timestamp entry.  Nothing
/// from any other record can enter it.  On an unparsable timestamp the
/// reserved entry holds empty text.
pub fn build_context(rec: &LogRecord) -> (r: CtxStore)
    ensures
        r@ == ctx_model(rec@, r@.last().1),
        !ts_parses(rec@.time) ==> r@.last().1 == Seq::<char>::empty(),
{
    let mut entries: Vec<(Vec<char>, Vec<char>)> = Vec::new();
    let mut i: usize = 0;
    while i < rec.mdc.len()
        invariant
            i <= rec.mdc@.len(),
            entries_view(entries@) == rec@.mdc.take(i as int),
        decreases rec.mdc@.len() - i,
    {
        let ghost prior = entries@;
        let k = chars_of(rec.mdc[i].0.as_str());
        let v = chars_of(rec.mdc[i].1.as_str());
        let ghost kk = k@;
        let ghost vv = v@;
        proof {
            assert(kk == rec.mdc@[i as int].0@);
            assert(vv == rec.mdc@[i as int].1@);
            assert((kk, vv) == rec@.mdc[i as int]);
        }
        entries.push((k, v));
        proof {
            assert(entries_view(entries@).last() == (kk, vv));
            assert(entries_view(entries@).drop_last() =~= entries_view(prior));
            assert(rec@.mdc.take(i + 1 as int) =~= rec@.mdc.take(i as int).push(
                rec@.mdc[i as int],
            ));
            assert(entries_view(entries@) =~= rec@.mdc.take(i + 1 as int));
        }
        i = i + 1;
    }
    proof {
        assert(rec@.mdc.take(rec.mdc@.len() as int) =~= rec@.mdc);
    }
    let ts: Vec<char> = match format_local_timestamp(rec.time.as_str()) {
        Some(t) => chars_of(t.as_str()),
        None => Vec::new(),
    };
    let key = reserved_key_chars();
    let ghost tss = ts@;
    entries.push((key, ts));
    let r = CtxStore { entries };
    proof {
        assert(r@.last() == (reserved_key(), tss));
        assert(r@.drop_last() =~= rec@.mdc);
        assert(r@ =~= rec@.mdc.push((reserved_key(), tss)));
    }
    r
}

/// Context isolation: whatever value a key resolves to in the store a
/// record was given, it is that record's own — either the record's
/// reserved timestamp entry or one of the record's own tags.  No other
/// record's values can appear.
pub proof fn lemma_context_isolation(r: RecordV, ts: Seq<char>, key: Seq<char>)
    ensures
        (match ctx_found(ctx_model(r, ts), key) {
            Some(v) => (key == reserved_key() && v == ts) || ctx_found(r.mdc, key) == Some(v),
            None => true,
        }),
{
    let m = ctx_model(r, ts);
    assert(m.last() == (reserved_key(), ts));
    if m.last().0 == key {
    } else {
        assert(m.drop_last() =~= r.mdc);
    }
}

} // verus!
