//! The free-form metadata of assets, made flat: an object under the key
//! `meta` gives its keys to the asset as if they stood at the top. From the
//! flat fields come the columns of a table of assets, each key once and in
//! the order of the texts, and the text of each cell.

use crate::model::{
    Asset, AssetView, Metadata, MetadataEntryView, MetadataField, MetadataFieldView,
};
use crate::text::{same_text, to_chars};
use vstd::prelude::*;

verus! {

/// The key whose object is taken apart.
pub open spec fn wrapper_key() -> Seq<char> {
    "meta"@
}

/// The fields that one entry stands for: the keys of its object where the
/// entry is the wrapper, else the entry itself with the text of its value.
pub open spec fn entry_fields(entry: MetadataEntryView) -> Seq<MetadataFieldView> {
    if entry.key == wrapper_key() && entry.nested.is_some() {
        entry.nested.unwrap()
    } else {
        seq![MetadataFieldView { key: entry.key, value: entry.text }]
    }
}

/// The flat fields of a metadata object, in the order of its entries.
pub open spec fn flat_fields(entries: Seq<MetadataEntryView>) -> Seq<MetadataFieldView>
    decreases entries.len(),
{
    if entries.len() == 0 {
        Seq::empty()
    } else {
        flat_fields(entries.drop_last()) + entry_fields(entries.last())
    }
}

/// Whether a field with the key `key` is among `fields`.
pub open spec fn has_key(fields: Seq<MetadataFieldView>, key: Seq<char>) -> bool {
    exists|i: int| 0 <= i < fields.len() && fields[i].key == key
}

/// Whether `i` is the place of the first field with the key `key`.
pub open spec fn is_first_with_key(fields: Seq<MetadataFieldView>, key: Seq<char>, i: int) -> bool {
    &&& 0 <= i < fields.len()
    &&& fields[i].key == key
    &&& forall|j: int| 0 <= j < i ==> fields[j].key != key
}

/// The text of the cell for `key`: the value of the first field with that
/// key, or nothing where there is none.
pub open spec fn cell_text(fields: Seq<MetadataFieldView>, key: Seq<char>) -> Seq<char> {
    if exists|i: int| is_first_with_key(fields, key, i) {
        fields[choose|i: int| is_first_with_key(fields, key, i)].value
    } else {
        Seq::empty()
    }
}

/// Whether the text `a` comes before the text `b`: at the first place where
/// they differ `a` has the smaller character, or `a` ends there and `b`
/// goes on.
pub open spec fn comes_before(a: Seq<char>, b: Seq<char>) -> bool
    decreases a.len(),
{
    if b.len() == 0 {
        false
    } else if a.len() == 0 {
        true
    } else if a.first() != b.first() {
        a.first() < b.first()
    } else {
        comes_before(a.drop_first(), b.drop_first())
    }
}

/// Whether each text comes before the next.
pub open spec fn ascending(keys: Seq<Seq<char>>) -> bool {
    forall|i: int, j: int| 0 <= i < j < keys.len() ==> comes_before(keys[i], keys[j])
}

/// Whether some asset has a flat field with the key `key`.
pub open spec fn key_in_use(assets: Seq<AssetView>, key: Seq<char>) -> bool {
    exists|i: int| 0 <= i < assets.len() && has_key(flat_fields(#[trigger] assets[i].metadata), key)
}

/// No text comes before itself.
pub proof fn lemma_before_irreflexive(a: Seq<char>)
    ensures
        !comes_before(a, a),
    decreases a.len(),
{
    if a.len() > 0 {
        lemma_before_irreflexive(a.drop_first());
    }
}

/// Of two different texts one comes before the other.
pub proof fn lemma_before_total(a: Seq<char>, b: Seq<char>)
    ensures
        a == b || comes_before(a, b) || comes_before(b, a),
    decreases a.len(),
{
    if a.len() == 0 || b.len() == 0 {
        if a.len() == 0 && b.len() == 0 {
            assert(a =~= b);
        }
    } else if a.first() == b.first() {
        lemma_before_total(a.drop_first(), b.drop_first());
        if a.drop_first() == b.drop_first() {
            assert(a =~= seq![a.first()] + a.drop_first());
            assert(b =~= seq![b.first()] + b.drop_first());
        }
    }
}

/// What comes before a text comes before all that the text comes before.
pub proof fn lemma_before_transitive(a: Seq<char>, b: Seq<char>, c: Seq<char>)
    requires
        comes_before(a, b),
        comes_before(b, c),
    ensures
        comes_before(a, c),
    decreases a.len(),
{
    if a.len() > 0 && a.first() == b.first() && b.first() == c.first() {
        lemma_before_transitive(a.drop_first(), b.drop_first(), c.drop_first());
    }
}

/// Whether the text `a` comes before the text `b`.
pub fn text_before(a: &Vec<char>, b: &Vec<char>) -> (r: bool)
    ensures
        r == comes_before(a@, b@),
{
    let mut i: usize = 0;
    assert(a@.skip(0) =~= a@);
    assert(b@.skip(0) =~= b@);
    while i < a.len() && i < b.len()
        invariant
            i <= a.len(),
            i <= b.len(),
            comes_before(a@, b@) == comes_before(a@.skip(i as int), b@.skip(i as int)),
        decreases a.len() - i,
    {
        proof {
            let x = a@.skip(i as int);
            let y = b@.skip(i as int);
            assert(x.first() == a@[i as int]);
            assert(y.first() == b@[i as int]);
            assert(x.drop_first() =~= a@.skip(i + 1));
            assert(y.drop_first() =~= b@.skip(i + 1));
        }
        if a[i] != b[i] {
            return a[i] < b[i];
        }
        i += 1;
    }
    i < b.len()
}

impl Metadata {
    /// The flat fields of the metadata.
    pub fn flat(&self) -> (r: Vec<MetadataField>)
        ensures
            r.deep_view() == flat_fields(self@),
    {
        let mut out: Vec<MetadataField> = Vec::new();
        let mut i: usize = 0;
        assert(self@.take(0) =~= Seq::empty());
        assert(out.deep_view() =~= flat_fields(self@.take(0)));
        while i < self.entries.len()
            invariant
                i <= self.entries.len(),
                out.deep_view() == flat_fields(self@.take(i as int)),
            decreases self.entries.len() - i,
        {
            let entry = &self.entries[i];
            let ghost before = out.deep_view();
            proof {
                assert(self@.take(i + 1).drop_last() =~= self@.take(i as int));
                assert(self@.take(i + 1).last() == entry@);
            }
            let unwrap = same_text(entry.key.as_str(), "meta") && entry.nested.is_some();
            if unwrap {
                let nested = entry.nested.as_ref().unwrap();
                let mut k: usize = 0;
                while k < nested.len()
                    invariant
                        k <= nested.len(),
                        out.deep_view() == before + nested.deep_view().take(k as int),
                    decreases nested.len() - k,
                {
                    let ghost so_far = out.deep_view();
                    out.push(nested[k].clone());
                    proof {
                        assert(out.deep_view() =~= so_far.push(nested.deep_view()[k as int]));
                        assert(nested.deep_view().take(k + 1) =~= nested.deep_view().take(
                            k as int,
                        ).push(nested.deep_view()[k as int]));
                    }
                    k += 1;
                }
                proof {
                    assert(nested.deep_view().take(nested.len() as int) =~= nested.deep_view());
                }
            } else {
                out.push(MetadataField { key: entry.key.clone(), value: entry.text.clone() });
                proof {
                    assert(out.deep_view() =~= before + entry_fields(entry@));
                }
            }
            i += 1;
        }
        assert(self@.take(self.entries.len() as int) =~= self@);
        out
    }
}

/// The text of the cell for `key`.
pub fn cell(fields: &Vec<MetadataField>, key: &str) -> (r: String)
    ensures
        r@ == cell_text(fields.deep_view(), key@),
{
    let mut i: usize = 0;
    while i < fields.len()
        invariant
            i <= fields.len(),
            forall|j: int| 0 <= j < i ==> fields.deep_view()[j].key != key@,
        decreases fields.len() - i,
    {
        if same_text(fields[i].key.as_str(), key) {
            proof {
                let all = fields.deep_view();
                assert(is_first_with_key(all, key@, i as int));
                let k = choose|k: int| is_first_with_key(all, key@, k);
                assert(is_first_with_key(all, key@, k));
                if k < i {
                    assert(all[k].key != key@);
                } else if i < k {
                    assert(all[i as int].key != key@);
                }
            }
            return fields[i].value.clone();
        }
        i += 1;
    }
    assert forall|k: int| !is_first_with_key(fields.deep_view(), key@, k) by {}
    String::new()
}

/// Whether the text of `a` comes before the characters `b`.
pub fn key_before(a: &String, b: &Vec<char>) -> (r: bool)
    ensures
        r == comes_before(a@, b@),
{
    let here = to_chars(a.as_str());
    text_before(&here, b)
}

/// Puts `key` at its place among the ascending `keys`, unless it is there.
pub fn insert_key(keys: &mut Vec<String>, key: &str)
    requires
        ascending(old(keys).deep_view()),
    ensures
        ascending(final(keys).deep_view()),
        forall|k: Seq<char>|
            #[trigger] final(keys).deep_view().contains(k) <==> (old(keys).deep_view().contains(k)
                || k == key@),
{
    let ghost before = keys.deep_view();
    let wanted = to_chars(key);
    let mut i: usize = 0;
    while i < keys.len() && key_before(&keys[i], &wanted)
        invariant
            keys.deep_view() == before,
            ascending(before),
            wanted@ == key@,
            i <= keys.len(),
            forall|j: int| 0 <= j < i ==> comes_before(before[j], key@),
        decreases keys.len() - i,
    {
        i += 1;
    }
    assert(i < keys.len() ==> !comes_before(before[i as int], key@));
    proof {
        assert forall|j: int| 0 <= j < i implies before[j] != key@ by {
            lemma_before_irreflexive(key@);
        }
    }
    if i < keys.len() && same_text(keys[i].as_str(), key) {
        proof {
            assert(before[i as int] == key@);
            assert(before.contains(key@));
        }
        return ;
    }
    keys.insert(i, key.to_owned());
    proof {
        let after = keys.deep_view();
        assert(after =~= before.take(i as int).push(key@) + before.skip(i as int));
        if i < before.len() {
            lemma_before_total(before[i as int], key@);
            assert(comes_before(key@, before[i as int]));
        }
        assert forall|x: int, y: int| 0 <= x < y < after.len() implies comes_before(
            after[x],
            after[y],
        ) by {
            if y < i {
            } else if y == i {
            } else if x == i {
                if y - 1 > i {
                    lemma_before_transitive(key@, before[i as int], before[y - 1]);
                }
            } else if x < i {
                assert(after[x] == before[x]);
                assert(after[y] == before[y - 1]);
            } else {
                assert(after[x] == before[x - 1]);
                assert(after[y] == before[y - 1]);
            }
        }
        assert forall|k: Seq<char>| #[trigger]
            after.contains(k) <==> (before.contains(k) || k == key@) by {
            if after.contains(k) {
                let z = choose|z: int| 0 <= z < after.len() && after[z] == k;
                if z < i {
                    assert(before[z] == k);
                } else if z > i {
                    assert(before[z - 1] == k);
                }
            }
            if before.contains(k) {
                let z = choose|z: int| 0 <= z < before.len() && before[z] == k;
                if z < i {
                    assert(after[z] == k);
                } else {
                    assert(after[z + 1] == k);
                }
            }
            if k == key@ {
                assert(after[i as int] == k);
            }
        }
    }
}

/// The columns of a table of `assets`: the key of every flat field of every
/// asset, each once, in ascending order.
pub fn column_keys(assets: &Vec<Asset>) -> (r: Vec<String>)
    ensures
        ascending(r.deep_view()),
        forall|k: Seq<char>|
            #[trigger] r.deep_view().contains(k) <==> key_in_use(assets.deep_view(), k),
{
    let mut keys: Vec<String> = Vec::new();
    let ghost all = assets.deep_view();
    let mut a: usize = 0;
    assert(keys.deep_view() =~= Seq::empty());
    while a < assets.len()
        invariant
            all == assets.deep_view(),
            a <= assets.len(),
            ascending(keys.deep_view()),
            forall|k: Seq<char>|
                #[trigger] keys.deep_view().contains(k) <==> key_in_use(all.take(a as int), k),
        decreases assets.len() - a,
    {
        let fields = assets[a].metadata.flat();
        let ghost flat = fields.deep_view();
        let ghost start = keys.deep_view();
        let mut f: usize = 0;
        assert(flat.take(0) =~= Seq::empty());
        while f < fields.len()
            invariant
                flat == fields.deep_view(),
                f <= fields.len(),
                ascending(keys.deep_view()),
                forall|k: Seq<char>|
                    #[trigger] keys.deep_view().contains(k) <==> (start.contains(k) || has_key(
                        flat.take(f as int),
                        k,
                    )),
            decreases fields.len() - f,
        {
            let ghost so_far = keys.deep_view();
            insert_key(&mut keys, fields[f].key.as_str());
            proof {
                assert(flat[f as int].key == fields[f as int].key@);
                assert forall|k: Seq<char>| #[trigger]
                    keys.deep_view().contains(k) <==> (start.contains(k) || has_key(
                        flat.take(f + 1),
                        k,
                    )) by {
                    assert(so_far.contains(k) <==> (start.contains(k) || has_key(
                        flat.take(f as int),
                        k,
                    )));
                    lemma_has_key_grows(flat, f as int, k);
                }
            }
            f += 1;
        }
        proof {
            assert(flat.take(fields.len() as int) =~= flat);
            assert(flat == flat_fields(all[a as int].metadata));
            assert forall|k: Seq<char>| #[trigger]
                keys.deep_view().contains(k) <==> key_in_use(all.take(a + 1), k) by {
                assert(start.contains(k) <==> key_in_use(all.take(a as int), k));
                lemma_key_in_use_grows(all, a as int, k);
            }
        }
        a += 1;
    }
    assert(all.take(assets.len() as int) =~= all);
    keys
}

/// One more field has the keys had so far, and its own.
pub proof fn lemma_has_key_grows(fields: Seq<MetadataFieldView>, n: int, key: Seq<char>)
    requires
        0 <= n < fields.len(),
    ensures
        has_key(fields.take(n + 1), key) <==> (has_key(fields.take(n), key) || key
            == fields[n].key),
{
    let grown = fields.take(n + 1);
    let short = fields.take(n);
    if has_key(grown, key) {
        let z = choose|z: int| 0 <= z < grown.len() && grown[z].key == key;
        if z < n {
            assert(short[z].key == key);
        }
    }
    if has_key(short, key) {
        let z = choose|z: int| 0 <= z < short.len() && short[z].key == key;
        assert(grown[z].key == key);
    }
    if key == fields[n].key {
        assert(grown[n].key == key);
    }
}

/// One more asset has the keys in use so far, and its own.
pub proof fn lemma_key_in_use_grows(assets: Seq<AssetView>, n: int, key: Seq<char>)
    requires
        0 <= n < assets.len(),
    ensures
        key_in_use(assets.take(n + 1), key) <==> (key_in_use(assets.take(n), key) || has_key(
            flat_fields(assets[n].metadata),
            key,
        )),
{
    let grown = assets.take(n + 1);
    let short = assets.take(n);
    if key_in_use(grown, key) {
        let z = choose|z: int|
            0 <= z < grown.len() && has_key(flat_fields(#[trigger] grown[z].metadata), key);
        if z < n {
            assert(short[z] == grown[z]);
            assert(has_key(flat_fields(short[z].metadata), key));
        } else {
            assert(grown[z] == assets[n]);
        }
    }
    if key_in_use(short, key) {
        let z = choose|z: int|
            0 <= z < short.len() && has_key(flat_fields(#[trigger] short[z].metadata), key);
        assert(grown[z] == short[z]);
        assert(has_key(flat_fields(grown[z].metadata), key));
    }
    if has_key(flat_fields(assets[n].metadata), key) {
        assert(grown[n] == assets[n]);
        assert(has_key(flat_fields(grown[n].metadata), key));
    }
}

/// Ascending texts are all different: a table has no column twice.
pub proof fn law_ascending_keys_are_distinct(keys: Seq<Seq<char>>)
    requires
        ascending(keys),
    ensures
        keys.no_duplicates(),
{
    assert forall|i: int, j: int| 0 <= i < keys.len() && 0 <= j < keys.len() && i != j implies keys[i]
        != keys[j] by {
        lemma_before_irreflexive(keys[i]);
        if i < j {
            assert(comes_before(keys[i], keys[j]));
        } else {
            assert(comes_before(keys[j], keys[i]));
        }
    }
}

/// Two ascending lists of the same texts are the same list: the columns of
/// a table are fixed by the keys that are in use.
pub proof fn law_ascending_keys_are_unique(a: Seq<Seq<char>>, b: Seq<Seq<char>>)
    requires
        ascending(a),
        ascending(b),
        forall|k: Seq<char>| a.contains(k) <==> b.contains(k),
    ensures
        a == b,
    decreases a.len(),
{
    if a.len() == 0 {
        if b.len() > 0 {
            assert(b.contains(b[0]));
        }
        assert(a =~= b);
    } else if b.len() == 0 {
        assert(a.contains(a[0]));
    } else {
        // The first of each list comes before all others of its list, so
        // the two firsts are the same text.
        assert(a.contains(a[0]));
        assert(b.contains(b[0]));
        let i = choose|i: int| 0 <= i < b.len() && b[i] == a[0];
        let j = choose|j: int| 0 <= j < a.len() && a[j] == b[0];
        if i > 0 && j > 0 {
            assert(comes_before(b[0], b[i]));
            assert(comes_before(a[0], a[j]));
            lemma_before_transitive(a[0], b[0], a[0]);
            lemma_before_irreflexive(a[0]);
        }
        if i > 0 {
            assert(j == 0);
            assert(comes_before(b[0], b[i]));
            lemma_before_irreflexive(a[0]);
        }
        assert(a[0] == b[0]);
        let ra = a.drop_first();
        let rb = b.drop_first();
        assert forall|k: Seq<char>| ra.contains(k) <==> rb.contains(k) by {
            if ra.contains(k) {
                let z = choose|z: int| 0 <= z < ra.len() && ra[z] == k;
                assert(a[z + 1] == k);
                assert(comes_before(a[0], a[z + 1]));
                assert(a.contains(k));
                let w = choose|w: int| 0 <= w < b.len() && b[w] == k;
                if w == 0 {
                    lemma_before_irreflexive(k);
                }
                assert(rb[w - 1] == k);
            }
            if rb.contains(k) {
                let z = choose|z: int| 0 <= z < rb.len() && rb[z] == k;
                assert(b[z + 1] == k);
                assert(comes_before(b[0], b[z + 1]));
                assert(b.contains(k));
                let w = choose|w: int| 0 <= w < a.len() && a[w] == k;
                if w == 0 {
                    lemma_before_irreflexive(k);
                }
                assert(ra[w - 1] == k);
            }
        }
        assert forall|x: int, y: int| 0 <= x < y < ra.len() implies comes_before(ra[x], ra[y]) by {
            assert(comes_before(a[x + 1], a[y + 1]));
        }
        assert forall|x: int, y: int| 0 <= x < y < rb.len() implies comes_before(rb[x], rb[y]) by {
            assert(comes_before(b[x + 1], b[y + 1]));
        }
        law_ascending_keys_are_unique(ra, rb);
        assert(a =~= seq![a[0]] + ra);
        assert(b =~= seq![b[0]] + rb);
    }
}

/// The columns that a table shows when it is panned `offset` columns to the
/// right: the columns from that place on, and none where the table is
/// panned past its last column.
pub open spec fn columns_from(keys: Seq<Seq<char>>, offset: u16) -> Seq<Seq<char>> {
    if offset < keys.len() {
        keys.skip(offset as int)
    } else {
        Seq::empty()
    }
}

/// The columns that a table shows when it is panned `offset` columns to the
/// right.
pub fn shown_columns(keys: &Vec<String>, offset: u16) -> (r: Vec<String>)
    ensures
        r.deep_view() == columns_from(keys.deep_view(), offset),
{
    let mut r: Vec<String> = Vec::new();
    let start: usize = offset as usize;
    if start >= keys.len() {
        assert(r.deep_view() =~= Seq::empty());
        return r;
    }
    let mut i: usize = start;
    while i < keys.len()
        invariant
            start <= i <= keys.len(),
            r.len() == i - start,
            forall|k: int| 0 <= k < i - start ==> (#[trigger] r[k])@ == keys[start + k]@,
        decreases keys.len() - i,
    {
        r.push(keys[i].clone());
        i += 1;
    }
    assert(r.deep_view() =~= keys.deep_view().skip(offset as int));
    r
}

} // verus!
