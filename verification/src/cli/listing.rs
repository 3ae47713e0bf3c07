//! The list of registered names, in name order.
use vstd::prelude::*;
use crate::client::AccountInfo;
use crate::keys::Pubkey;
use crate::protocol::decode_name_record;
use crate::protocol::state::NameRecord;
use crate::text::utf8_lossy;
use super::names::decode_name;

verus! {

broadcast use vstd::seq_lib::group_to_multiset_ensures;

/// One registered name: the record account, the owner, the name's text and its length.
#[derive(Clone, Debug)]
pub struct NameListing {
    pub account: Pubkey,
    pub owner: Pubkey,
    pub name: String,
    pub len: u8,
}

/// The mathematical content of a listing entry.
pub open spec fn listing_view(l: NameListing) -> (Seq<u8>, Seq<u8>, Seq<char>, u8) {
    (l.account@, l.owner@, l.name@, l.len)
}

/// Text order: character by character by code point, a prefix first.
pub open spec fn text_le(a: Seq<char>, b: Seq<char>) -> bool
    decreases a.len(),
{
    if a.len() == 0 {
        true
    } else if b.len() == 0 {
        false
    } else if a[0] != b[0] {
        (a[0] as u32) < (b[0] as u32)
    } else {
        text_le(a.drop_first(), b.drop_first())
    }
}

/// Any two texts are ordered one way or the other.
pub proof fn text_order_is_total(a: Seq<char>, b: Seq<char>)
    ensures
        text_le(a, b) || text_le(b, a),
    decreases a.len(),
{
    if a.len() > 0 && b.len() > 0 && a[0] == b[0] {
        text_order_is_total(a.drop_first(), b.drop_first());
    }
    if a.len() > 0 && b.len() > 0 && a[0] != b[0] {
        vstd::utf8::char_u32_cast(a[0], a[0] as u32);
        vstd::utf8::char_u32_cast(b[0], b[0] as u32);
    }
}

/// Whether `a` comes no later than `b` in text order.
pub fn str_le(a: &str, b: &str) -> (r: bool)
    ensures
        r == text_le(a@, b@),
{
    let n = a.unicode_len();
    let m = b.unicode_len();
    let mut i: usize = 0;
    assert(a@.skip(0) =~= a@);
    assert(b@.skip(0) =~= b@);
    while i < n && i < m
        invariant
            i <= n,
            i <= m,
            n == a@.len(),
            m == b@.len(),
            forall|j: int| 0 <= j < i ==> a@[j] == b@[j],
            text_le(a@, b@) == text_le(a@.skip(i as int), b@.skip(i as int)),
        decreases n - i,
    {
        let x = a.get_char(i);
        let y = b.get_char(i);
        if x != y {
            proof {
                assert(a@.skip(i as int)[0] == x);
                assert(b@.skip(i as int)[0] == y);
            }
            return (x as u32) < (y as u32);
        }
        proof {
            assert(a@.skip(i as int).drop_first() =~= a@.skip(i as int + 1));
            assert(b@.skip(i as int).drop_first() =~= b@.skip(i as int + 1));
        }
        i = i + 1;
    }
    i == n
}

/// The name order of a list of entries: each entry's name comes no later than any
/// later entry's.
pub open spec fn sorted_by_name(s: Seq<(Seq<u8>, Seq<u8>, Seq<char>, u8)>) -> bool {
    forall|i: int, j: int| 0 <= i < j < s.len() ==> text_le(#[trigger] s[i].2, #[trigger] s[j].2)
}

/// The entries the registry accounts hold, in account order: those whose data holds a
/// name record, with the record's owner, its name's text and length.
pub open spec fn recorded_names(accounts: Seq<AccountInfo>) -> Seq<(Seq<u8>, Seq<u8>, Seq<char>, u8)>
    decreases accounts.len(),
{
    if accounts.len() == 0 {
        seq![]
    } else {
        let rest = recorded_names(accounts.drop_last());
        let a = accounts.last();
        let d = a.account.data@;
        if d.len() >= NameRecord::LEN {
            rest.push((a.pubkey@, d.subrange(0, 32), utf8_lossy(d.subrange(32, 32 + d[64] as int)), d[64]))
        } else {
            rest
        }
    }
}

/// Where an entry goes among entries already in name order: after every entry whose
/// name comes no later than its own, before the first whose name comes later.
pub open spec fn insert_pos(s: Seq<(Seq<u8>, Seq<u8>, Seq<char>, u8)>, e: (Seq<u8>, Seq<u8>, Seq<char>, u8)) -> int
    decreases s.len(),
{
    if s.len() == 0 {
        0
    } else if !text_le(s[0].2, e.2) {
        0
    } else {
        1 + insert_pos(s.drop_first(), e)
    }
}

/// The entries in name order, stably: each entry, taken in the given order, is put after
/// every entry already placed whose name comes no later than its own, so entries with
/// equal names keep their given order.
pub open spec fn name_order(entries: Seq<(Seq<u8>, Seq<u8>, Seq<char>, u8)>) -> Seq<(Seq<u8>, Seq<u8>, Seq<char>, u8)>
    decreases entries.len(),
{
    if entries.len() == 0 {
        seq![]
    } else {
        let s = name_order(entries.drop_last());
        s.insert(insert_pos(s, entries.last()), entries.last())
    }
}

proof fn lemma_insert_pos(s: Seq<(Seq<u8>, Seq<u8>, Seq<char>, u8)>, e: (Seq<u8>, Seq<u8>, Seq<char>, u8), p: int)
    requires
        0 <= p <= s.len(),
        forall|i: int| 0 <= i < p ==> text_le(#[trigger] s[i].2, e.2),
        p < s.len() ==> !text_le(s[p].2, e.2),
    ensures
        insert_pos(s, e) == p,
    decreases s.len(),
{
    if s.len() > 0 && p > 0 {
        assert(text_le(s[0].2, e.2));
        let t = s.drop_first();
        assert forall|i: int| 0 <= i < p - 1 implies text_le(#[trigger] t[i].2, e.2) by {
            assert(t[i] == s[i + 1]);
        }
        if p < s.len() {
            assert(t[p - 1] == s[p]);
        }
        lemma_insert_pos(t, e, p - 1);
    }
}

/// Every name record among the accounts has a length of at most 32.
pub open spec fn record_lengths_fit(accounts: Seq<AccountInfo>) -> bool {
    forall|k: int| 0 <= k < accounts.len() && (#[trigger] accounts[k]).account.data@.len() >= NameRecord::LEN
        ==> accounts[k].account.data@[64] <= 32
}

/// The registered names the accounts hold, sorted by name (entries with equal names keep
/// their account order).
pub fn name_listing(accounts: &Vec<AccountInfo>) -> (r: Vec<NameListing>)
    requires
        record_lengths_fit(accounts@),
    ensures
        r@.map_values(|l: NameListing| listing_view(l)) == name_order(recorded_names(accounts@)),
        r@.map_values(|l: NameListing| listing_view(l)).to_multiset() == recorded_names(accounts@).to_multiset(),
        sorted_by_name(r@.map_values(|l: NameListing| listing_view(l))),
{
    let mut out: Vec<NameListing> = Vec::new();
    let mut k: usize = 0;
    proof {
        assert(accounts@.take(0) =~= Seq::<AccountInfo>::empty());
        assert(out@.map_values(|l: NameListing| listing_view(l)) =~= Seq::empty());
        assert(Seq::<(Seq<u8>, Seq<u8>, Seq<char>, u8)>::empty().to_multiset() =~= vstd::multiset::Multiset::empty());
    }
    while k < accounts.len()
        invariant
            k <= accounts@.len(),
            record_lengths_fit(accounts@),
            out@.map_values(|l: NameListing| listing_view(l)).to_multiset() == recorded_names(accounts@.take(k as int)).to_multiset(),
            out@.map_values(|l: NameListing| listing_view(l)) == name_order(recorded_names(accounts@.take(k as int))),
            sorted_by_name(out@.map_values(|l: NameListing| listing_view(l))),
        decreases accounts@.len() - k,
    {
        proof {
            assert(accounts@.take(k as int + 1).drop_last() =~= accounts@.take(k as int));
            assert(accounts@.take(k as int + 1).last() == accounts@[k as int]);
        }
        let info = &accounts[k];
        match decode_name_record(info.account.data.as_slice()) {
            Some(record) => {
                proof {
                    assert(accounts@[k as int].account.data@.len() >= NameRecord::LEN);
                }
                let name = decode_name(&record);
                let entry = NameListing { account: info.pubkey, owner: record.owner, name, len: record.len };
                let ghost before = out@.map_values(|l: NameListing| listing_view(l));
                let mut p: usize = 0;
                while p < out.len() && str_le(out[p].name.as_str(), entry.name.as_str())
                    invariant
                        p <= out@.len(),
                        before == out@.map_values(|l: NameListing| listing_view(l)),
                        forall|i: int| 0 <= i < p ==> text_le(#[trigger] before[i].2, entry.name@),
                    decreases out@.len() - p,
                {
                    p = p + 1;
                }
                let ghost ev = listing_view(entry);
                proof {
                    if p < out@.len() {
                        assert(!text_le(before[p as int].2, entry.name@));
                    }
                    lemma_insert_pos(before, ev, p as int);
                }
                out.insert(p, entry);
                proof {
                    let after = out@.map_values(|l: NameListing| listing_view(l));
                    assert(after =~= before.insert(p as int, ev));
                    assert forall|i: int, j: int| 0 <= i < j < after.len() implies text_le(#[trigger] after[i].2, #[trigger] after[j].2) by {
                        if i < p && j == p {
                        } else if i == p && j > p {
                            assert(after[j] == before[j - 1]);
                            assert(!text_le(before[p as int].2, ev.2));
                            text_order_is_total(before[p as int].2, ev.2);
                            if j - 1 > p {
                                assert(text_le(before[p as int].2, before[j - 1].2));
                                text_order_is_total(ev.2, before[j - 1].2);
                                text_order_is_transitive(ev.2, before[p as int].2, before[j - 1].2);
                            }
                        } else if j < p {
                            assert(after[i] == before[i] && after[j] == before[j]);
                        } else if i < p && j > p {
                            assert(after[i] == before[i] && after[j] == before[j - 1]);
                        } else {
                            assert(after[i] == before[i - 1] && after[j] == before[j - 1]);
                        }
                    }
                    let d = accounts@[k as int].account.data@;
                    assert(record.name@.subrange(0, record.len as int) =~= d.subrange(32, 32 + d[64] as int));
                    assert(ev == (accounts@[k as int].pubkey@, d.subrange(0, 32), utf8_lossy(d.subrange(32, 32 + d[64] as int)), d[64]));
                    vstd::seq_lib::to_multiset_insert(before, p as int, ev);
                    let rn = recorded_names(accounts@.take(k as int));
                    assert(recorded_names(accounts@.take(k as int + 1)) == rn.push(ev));
                    assert(rn.push(ev).drop_last() =~= rn);
                    assert(rn.push(ev).last() == ev);
                    assert(after == name_order(rn.push(ev)));
                }
            },
            None => {},
        }
        k = k + 1;
    }
    proof {
        assert(accounts@.take(k as int) =~= accounts@);
    }
    out
}

/// Text order is transitive.
pub proof fn text_order_is_transitive(a: Seq<char>, b: Seq<char>, c: Seq<char>)
    requires
        text_le(a, b),
        text_le(b, c),
    ensures
        text_le(a, c),
    decreases a.len(),
{
    if a.len() > 0 && b.len() > 0 && c.len() > 0 && a[0] == b[0] && b[0] == c[0] {
        text_order_is_transitive(a.drop_first(), b.drop_first(), c.drop_first());
    }
}

} // verus!
