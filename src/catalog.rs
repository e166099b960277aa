//! The voice catalog: built from the speech engine's speaker list, and
//! rendered as the text shown to users.

use vstd::prelude::*;
use crate::store::Voice;
use crate::text::{decimal2, numeral_value, to_decimal2, strip_quotes, without_quotes, parse_numeral};

verus! {

/// One style of a speaker, as the speech engine renders its id and name.
pub struct Style {
    pub id: String,
    pub name: String,
}

/// A speaker of the speech engine, with its styles.
pub struct Speaker {
    pub name: String,
    pub styles: Vec<Style>,
}

impl View for Style {
    type V = (Seq<char>, Seq<char>);

    open spec fn view(&self) -> (Seq<char>, Seq<char>) {
        (self.id@, self.name@)
    }
}

impl View for Speaker {
    type V = (Seq<char>, Seq<(Seq<char>, Seq<char>)>);

    open spec fn view(&self) -> (Seq<char>, Seq<(Seq<char>, Seq<char>)>) {
        (self.name@, self.styles@.map_values(|s: Style| s@))
    }
}

/// The catalog entries of one speaker: one per style, labelled with the
/// speaker's name, a space and the style's name.
pub open spec fn speaker_entries(sp: (Seq<char>, Seq<(Seq<char>, Seq<char>)>)) -> Seq<
    (Seq<char>, Seq<char>),
> {
    sp.1.map_values(|st: (Seq<char>, Seq<char>)| (st.0, sp.0 + seq![' '] + st.1))
}

/// The catalog entries of all speakers, in order.
pub open spec fn flattened(sps: Seq<(Seq<char>, Seq<(Seq<char>, Seq<char>)>)>) -> Seq<
    (Seq<char>, Seq<char>),
>
    decreases sps.len(),
{
    if sps.len() == 0 {
        Seq::empty()
    } else {
        flattened(sps.drop_last()) + speaker_entries(sps.last())
    }
}

/// One line of the catalog as shown to users.
pub open spec fn voice_line(v: (nat, Seq<char>)) -> Seq<char> {
    "・"@ + decimal2(v.0) + " "@ + without_quotes(v.1) + "\n"@
}

/// The catalog as shown to users: one line per voice, in order.
pub open spec fn listing(vs: Seq<(nat, Seq<char>)>) -> Seq<char>
    decreases vs.len(),
{
    if vs.len() == 0 {
        Seq::empty()
    } else {
        listing(vs.drop_last()) + voice_line(vs.last())
    }
}

/// Where a voice with id `k` goes in `s`, looking from index `j` on: before
/// the first voice with a larger id.
pub open spec fn insert_pos_from(s: Seq<(nat, Seq<char>)>, k: nat, j: int) -> int
    decreases s.len() - j,
{
    if j < 0 || j >= s.len() {
        s.len() as int
    } else if s[j].0 > k {
        j
    } else {
        insert_pos_from(s, k, j + 1)
    }
}

/// The catalog ordered by id; voices with equal ids keep their order.
pub open spec fn sorted_by_id(vs: Seq<(nat, Seq<char>)>) -> Seq<(nat, Seq<char>)>
    decreases vs.len(),
{
    if vs.len() == 0 {
        vs
    } else {
        let s = sorted_by_id(vs.drop_last());
        s.insert(insert_pos_from(s, vs.last().0, 0), vs.last())
    }
}

/// The voices of `s` are in order of id.
pub open spec fn ordered_by_id(s: Seq<(nat, Seq<char>)>) -> bool {
    forall|i: int, j: int| 0 <= i < j < s.len() ==> #[trigger] s[i].0 <= #[trigger] s[j].0
}

proof fn lemma_insert_pos(s: Seq<(nat, Seq<char>)>, k: nat, j: int)
    requires
        0 <= j <= s.len(),
    ensures
        j <= insert_pos_from(s, k, j) <= s.len(),
        forall|i: int| j <= i < insert_pos_from(s, k, j) ==> #[trigger] s[i].0 <= k,
        insert_pos_from(s, k, j) < s.len() ==> s[insert_pos_from(s, k, j)].0 > k,
    decreases s.len() - j,
{
    if j < s.len() && s[j].0 <= k {
        lemma_insert_pos(s, k, j + 1);
    }
}

/// The pretty listing's order: ordering the catalog by id gives voices in
/// order of id, and the same voices as many times each as the catalog has.
pub proof fn sorted_by_id_sorts(vs: Seq<(nat, Seq<char>)>)
    ensures
        ordered_by_id(sorted_by_id(vs)),
        sorted_by_id(vs).to_multiset() == vs.to_multiset(),
        sorted_by_id(vs).len() == vs.len(),
    decreases vs.len(),
{
    broadcast use vstd::seq_lib::to_multiset_insert, vstd::seq_lib::to_multiset_build;

    if vs.len() > 0 {
        let s = sorted_by_id(vs.drop_last());
        let e = vs.last();
        sorted_by_id_sorts(vs.drop_last());
        lemma_insert_pos(s, e.0, 0);
        let p = insert_pos_from(s, e.0, 0);
        let r = s.insert(p, e);
        assert forall|i: int, j: int| 0 <= i < j < r.len() implies #[trigger] r[i].0 <= #[trigger] r[j].0 by {
            if j > p && i < p {
                assert(r[j] == s[j - 1]);
                if p < s.len() {
                    assert(s[p].0 <= s[j - 1].0);
                }
            } else if j > p && i == p {
                assert(r[j] == s[j - 1]);
                assert(s[p].0 <= s[j - 1].0);
            }
        }
        assert(vs.drop_last().push(e) =~= vs);
    }
}

/// The raw catalog entries, one per style of each speaker.
pub fn flatten_speakers(speakers: &Vec<Speaker>) -> (r: Vec<(String, String)>)
    ensures
        r@.map_values(|e: (String, String)| (e.0@, e.1@)) == flattened(
            speakers@.map_values(|s: Speaker| s@),
        ),
{
    let ghost sv = speakers@.map_values(|s: Speaker| s@);
    let mut r: Vec<(String, String)> = Vec::new();
    let mut i: usize = 0;
    while i < speakers.len()
        invariant
            i <= speakers@.len(),
            sv == speakers@.map_values(|s: Speaker| s@),
            r@.map_values(|e: (String, String)| (e.0@, e.1@)) == flattened(sv.take(i as int)),
        decreases speakers@.len() - i,
    {
        let sp = &speakers[i];
        let ghost base = r@.map_values(|e: (String, String)| (e.0@, e.1@));
        let ghost ents = speaker_entries(sv[i as int]);
        let mut j: usize = 0;
        while j < sp.styles.len()
            invariant
                i < speakers@.len(),
                j <= sp.styles@.len(),
                sp == &speakers@[i as int],
                ents == speaker_entries(sv[i as int]),
                sv[i as int] == sp@,
                r@.map_values(|e: (String, String)| (e.0@, e.1@)) == base + ents.take(j as int),
            decreases sp.styles@.len() - j,
        {
            let st = &sp.styles[j];
            let mut label = sp.name.clone();
            proof {
                reveal_strlit(" ");
            }
            label.append(" ");
            label.append(st.name.as_str());
            let ghost before = r@;
            r.push((st.id.clone(), label));
            assert(r@.map_values(|e: (String, String)| (e.0@, e.1@)) =~= before.map_values(
                |e: (String, String)| (e.0@, e.1@),
            ).push((st.id@, label@)));
            assert(sp@.1[j as int] == st@);
            assert(label@ =~= sp.name@ + seq![' '] + st.name@);
            assert(ents[j as int] == (st.id@, label@));
            assert(ents.take(j + 1) =~= ents.take(j as int).push(ents[j as int]));
            j = j + 1;
        }
        assert(ents.take(j as int) =~= ents);
        assert(sv.take(i + 1).drop_last() =~= sv.take(i as int));
        i = i + 1;
    }
    assert(sv.take(i as int) =~= sv);
    r
}

/// The voices of the raw entries `raw`, whose ids must all be decimal
/// numerals; `None` when one is not.
pub fn parse_voices(raw: &Vec<(String, String)>) -> (r: Option<Vec<Voice>>)
    ensures
        r is Some <==> forall|i: int| 0 <= i < raw@.len() ==> (#[trigger] numeral_value(raw@[i].0@)) is Some,
        r matches Some(v) ==> v@.len() == raw@.len() && forall|i: int| 0 <= i < raw@.len() ==> #[trigger] v@[i]@ == (numeral_value(raw@[i].0@)->Some_0 as nat, raw@[i].1@),
{
    let mut v: Vec<Voice> = Vec::new();
    let mut i: usize = 0;
    while i < raw.len()
        invariant
            i <= raw@.len(),
            v@.len() == i,
            forall|k: int| 0 <= k < i ==> (#[trigger] numeral_value(raw@[k].0@)) is Some,
            forall|k: int| 0 <= k < i ==> #[trigger] v@[k]@ == (numeral_value(raw@[k].0@)->Some_0 as nat, raw@[k].1@),
        decreases raw@.len() - i,
    {
        match parse_numeral(raw[i].0.as_str()) {
            Some(id) => {
                v.push(Voice { id, label: raw[i].1.clone() });
            },
            None => {
                return None;
            },
        }
        i = i + 1;
    }
    Some(v)
}

fn copy_voice(v: &Voice) -> (r: Voice)
    ensures
        r@ == v@,
{
    Voice { id: v.id, label: v.label.clone() }
}

/// The catalog as shown to users: one line per voice, in the given order.
pub fn render_listing(vs: &Vec<Voice>) -> (r: String)
    ensures
        r@ == listing(vs@.map_values(|v: Voice| v@)),
{
    let ghost vv = vs@.map_values(|v: Voice| v@);
    let mut r = String::new();
    let mut i: usize = 0;
    while i < vs.len()
        invariant
            i <= vs@.len(),
            vv == vs@.map_values(|v: Voice| v@),
            r@ == listing(vv.take(i as int)),
        decreases vs@.len() - i,
    {
        let v = &vs[i];
        let ghost before = r@;
        r.append("・");
        r.append(to_decimal2(v.id).as_str());
        r.append(" ");
        r.append(strip_quotes(v.label.as_str()).as_str());
        r.append("\n");
        proof {
            assert(vv.take(i + 1).drop_last() =~= vv.take(i as int));
            assert(r@ =~= before + voice_line(vv[i as int]));
        }
        i = i + 1;
    }
    assert(vv.take(i as int) =~= vv);
    r
}

/// The catalog ordered by id, voices with equal ids in their original order.
pub fn sort_by_id(vs: &Vec<Voice>) -> (r: Vec<Voice>)
    ensures
        r@.map_values(|v: Voice| v@) == sorted_by_id(vs@.map_values(|v: Voice| v@)),
{
    let ghost vv = vs@.map_values(|v: Voice| v@);
    let mut r: Vec<Voice> = Vec::new();
    let mut i: usize = 0;
    while i < vs.len()
        invariant
            i <= vs@.len(),
            vv == vs@.map_values(|v: Voice| v@),
            r@.map_values(|v: Voice| v@) == sorted_by_id(vv.take(i as int)),
        decreases vs@.len() - i,
    {
        let k = vs[i].id;
        let ghost rv = r@.map_values(|v: Voice| v@);
        let mut j: usize = 0;
        while j < r.len() && r[j].id <= k
            invariant
                j <= r@.len(),
                rv == r@.map_values(|v: Voice| v@),
                insert_pos_from(rv, k as nat, 0) == insert_pos_from(rv, k as nat, j as int),
            decreases r@.len() - j,
        {
            j = j + 1;
        }
        let ghost before = r@;
        r.insert(j, copy_voice(&vs[i]));
        proof {
            assert(vv.take(i + 1).drop_last() =~= vv.take(i as int));
            assert(vv.take(i + 1).last() == vv[i as int]);
            assert(r@.map_values(|v: Voice| v@) =~= rv.insert(j as int, vv[i as int]));
        }
        i = i + 1;
    }
    assert(vv.take(i as int) =~= vv);
    r
}

} // verus!
