//! The S3 store: its settings, and what the admin pages read from its XML
//! listings.
use vstd::prelude::*;
use crate::text::{owned, chars_of, find, find_from, pieces_from, before_first, before_first_exec, second_piece,
    second_piece_exec, copy_range, parse_i64, parse_i64_exec, lemma_find_from_some, string_of, occurs_at};

verus! {

/// Where and how the S3 store runs.
#[derive(Debug, Clone)]
pub struct RustFsConfig {
    pub namespace: String,
    pub image: String,
    pub pvc_size: String,
    pub access_key: String,
    pub secret_key: String,
}

impl RustFsConfig {
    pub fn new(namespace: &str, image: &str, pvc_size: &str, access_key: &str, secret_key: &str) -> (c: RustFsConfig)
        ensures
            c.namespace@ == namespace@,
            c.image@ == image@,
            c.pvc_size@ == pvc_size@,
            c.access_key@ == access_key@,
            c.secret_key@ == secret_key@,
    {
        RustFsConfig {
            namespace: owned(namespace),
            image: owned(image),
            pvc_size: owned(pvc_size),
            access_key: owned(access_key),
            secret_key: owned(secret_key),
        }
    }
}

/// The name inside `<Name>...</Name>` of one `<Bucket>` entry.
pub open spec fn bucket_name(p: Seq<char>) -> Option<Seq<char>> {
    match second_piece(p, "<Name>"@) {
        Some(x) => Some(before_first(x, "</Name>"@)),
        None => None,
    }
}

/// The key and size of one `<Contents>` entry; a size that is no number counts as 0.
pub open spec fn object_entry(p: Seq<char>) -> Option<(Seq<char>, i64)> {
    match second_piece(p, "<Key>"@) {
        Some(k) => match second_piece(p, "<Size>"@) {
            Some(z) => Some((before_first(k, "</Key>"@), match parse_i64(before_first(z, "</Size>"@)) {
                Some(n) => n,
                None => 0i64,
            })),
            None => None,
        },
        None => None,
    }
}

/// The bucket names of the entries `ps`, in order, skipping entries without a name.
pub open spec fn names_of(ps: Seq<Seq<char>>) -> Seq<Seq<char>>
    decreases ps.len(),
{
    if ps.len() == 0 {
        Seq::<Seq<char>>::empty()
    } else {
        (match bucket_name(ps[0]) {
            Some(n) => seq![n],
            None => Seq::<Seq<char>>::empty(),
        }) + names_of(ps.drop_first())
    }
}

/// The objects of the entries `ps`, in order, skipping entries without key or size.
pub open spec fn entries_of(ps: Seq<Seq<char>>) -> Seq<(Seq<char>, i64)>
    decreases ps.len(),
{
    if ps.len() == 0 {
        Seq::<(Seq<char>, i64)>::empty()
    } else {
        (match object_entry(ps[0]) {
            Some(e) => seq![e],
            None => Seq::<(Seq<char>, i64)>::empty(),
        }) + entries_of(ps.drop_first())
    }
}

/// The entries of a listing: the pieces after each opening `tag`.
pub open spec fn entries_after(xml: Seq<char>, tag: Seq<char>) -> Seq<Seq<char>> {
    pieces_from(xml, tag, 0).skip(1)
}

/// The bucket names of a `ListBuckets` answer.
pub open spec fn listed_buckets(xml: Seq<char>) -> Seq<Seq<char>> {
    names_of(entries_after(xml, "<Bucket>"@))
}

/// The objects of a `ListObjectsV2` answer.
pub open spec fn listed_objects(xml: Seq<char>) -> Seq<(Seq<char>, i64)> {
    entries_of(entries_after(xml, "<Contents>"@))
}

/// Where the first entry begins, or `None` where there is none.
fn first_entry(x: &Vec<char>, pat: &Vec<char>) -> (r: Option<usize>)
    requires pat.len() > 0,
    ensures
        match r {
            Some(start) => start <= x.len() && entries_after(x@, pat@) == pieces_from(x@, pat@, start as int),
            None => entries_after(x@, pat@) == Seq::<Seq<char>>::empty(),
        },
{
    proof {
        lemma_find_from_some(x@, pat@, 0);
    }
    match find(x, pat, 0) {
        Some(j) => {
            assert(occurs_at(x@, pat@, j as int));
            assert(j + pat.len() <= x.len());
            let start = j + pat.len();
            assert(pieces_from(x@, pat@, 0) == seq![x@.subrange(0, j as int)] + pieces_from(x@, pat@, start as int));
            assert(pieces_from(x@, pat@, 0).skip(1) =~= pieces_from(x@, pat@, start as int));
            Some(start)
        }
        None => {
            assert(pieces_from(x@, pat@, 0) == seq![x@.subrange(0, x@.len() as int)]);
            assert(pieces_from(x@, pat@, 0).skip(1) =~= Seq::<Seq<char>>::empty());
            None
        }
    }
}

/// The end of the entry that begins at `pos`, and where the next one begins.
fn next_entry(x: &Vec<char>, pat: &Vec<char>, pos: usize) -> (r: (usize, Option<usize>))
    requires pat.len() > 0, pos <= x.len(),
    ensures
        pos <= r.0 <= x.len(),
        match r.1 {
            Some(next) => pos < next <= x.len()
                && pieces_from(x@, pat@, pos as int) == seq![x@.subrange(pos as int, r.0 as int)] + pieces_from(x@, pat@, next as int),
            None => pieces_from(x@, pat@, pos as int) == seq![x@.subrange(pos as int, r.0 as int)],
        },
{
    proof {
        lemma_find_from_some(x@, pat@, pos as int);
    }
    match find(x, pat, pos) {
        Some(j) => {
            assert(occurs_at(x@, pat@, j as int));
            assert(j + pat.len() <= x.len());
            (j, Some(j + pat.len()))
        }
        None => (x.len(), None),
    }
}

fn bucket_name_exec(p: &Vec<char>) -> (r: Option<String>)
    ensures
        match r {
            Some(n) => bucket_name(p@) == Some(n@),
            None => bucket_name(p@) is None,
        },
{
    match second_piece_exec(p, &chars_of("<Name>")) {
        Some(x) => Some(string_of(&before_first_exec(&x, &chars_of("</Name>")))),
        None => None,
    }
}

fn object_entry_exec(p: &Vec<char>) -> (r: Option<(String, i64)>)
    ensures
        match r {
            Some(e) => object_entry(p@) == Some((e.0@, e.1)),
            None => object_entry(p@) is None,
        },
{
    let k = match second_piece_exec(p, &chars_of("<Key>")) {
        Some(k) => k,
        None => return None,
    };
    let z = match second_piece_exec(p, &chars_of("<Size>")) {
        Some(z) => z,
        None => return None,
    };
    let key = string_of(&before_first_exec(&k, &chars_of("</Key>")));
    let size = match parse_i64_exec(&before_first_exec(&z, &chars_of("</Size>"))) {
        Some(n) => n,
        None => 0,
    };
    Some((key, size))
}

/// The bucket names of a `ListBuckets` answer: the text of the first
/// `<Name>...</Name>` in each `<Bucket>` entry, in order.
pub fn parse_bucket_names(xml: &str) -> (names: Vec<String>)
    ensures names@.map_values(|n: String| n@) == listed_buckets(xml@),
{
    let x = chars_of(xml);
    let pat = chars_of("<Bucket>");
    proof {
        reveal_strlit("<Bucket>");
    }
    let mut names: Vec<String> = Vec::new();
    let mut pos = match first_entry(&x, &pat) {
        Some(s) => s,
        None => {
            assert(names@.map_values(|n: String| n@) =~= listed_buckets(xml@));
            return names;
        }
    };
    let ghost all = entries_after(x@, pat@);
    assert(names@.map_values(|n: String| n@) + names_of(pieces_from(x@, pat@, pos as int)) =~= names_of(all));
    loop
        invariant
            pat@ == "<Bucket>"@,
            pat.len() > 0,
            x@ == xml@,
            all == entries_after(x@, pat@),
            pos <= x.len(),
            names@.map_values(|n: String| n@) + names_of(pieces_from(x@, pat@, pos as int)) == names_of(all),
        decreases x.len() - pos,
    {
        let (end, next) = next_entry(&x, &pat, pos);
        let piece = copy_range(&x, pos, end);
        let ghost before = names@.map_values(|n: String| n@);
        let ghost ps = pieces_from(x@, pat@, pos as int);
        assert(ps[0] == piece@);
        match bucket_name_exec(&piece) {
            Some(n) => {
                names.push(n);
                assert(names@.map_values(|n: String| n@) =~= before.push(n@));
            }
            None => {
                assert(names@.map_values(|n: String| n@) =~= before);
            }
        }
        match next {
            Some(nx) => {
                assert(ps.drop_first() =~= pieces_from(x@, pat@, nx as int));
                assert(names@.map_values(|n: String| n@) + names_of(pieces_from(x@, pat@, nx as int)) =~= names_of(all));
                pos = nx;
            }
            None => {
                assert(ps.drop_first() =~= Seq::<Seq<char>>::empty());
                assert(names_of(ps.drop_first()) =~= Seq::<Seq<char>>::empty());
                assert(names@.map_values(|n: String| n@) =~= names_of(all));
                return names;
            }
        }
    }
}

/// The objects of a `ListObjectsV2` answer: for each `<Contents>` entry its
/// `<Key>` and `<Size>`, in order; a size that is no number counts as 0.
pub fn parse_object_listing(xml: &str) -> (objects: Vec<(String, i64)>)
    ensures objects@.map_values(|o: (String, i64)| (o.0@, o.1)) == listed_objects(xml@),
{
    let x = chars_of(xml);
    let pat = chars_of("<Contents>");
    proof {
        reveal_strlit("<Contents>");
    }
    let mut objects: Vec<(String, i64)> = Vec::new();
    let mut pos = match first_entry(&x, &pat) {
        Some(s) => s,
        None => {
            assert(objects@.map_values(|o: (String, i64)| (o.0@, o.1)) =~= listed_objects(xml@));
            return objects;
        }
    };
    let ghost all = entries_after(x@, pat@);
    assert(objects@.map_values(|o: (String, i64)| (o.0@, o.1)) + entries_of(pieces_from(x@, pat@, pos as int)) =~= entries_of(all));
    loop
        invariant
            pat@ == "<Contents>"@,
            pat.len() > 0,
            x@ == xml@,
            all == entries_after(x@, pat@),
            pos <= x.len(),
            objects@.map_values(|o: (String, i64)| (o.0@, o.1)) + entries_of(pieces_from(x@, pat@, pos as int)) == entries_of(all),
        decreases x.len() - pos,
    {
        let (end, next) = next_entry(&x, &pat, pos);
        let piece = copy_range(&x, pos, end);
        let ghost before = objects@.map_values(|o: (String, i64)| (o.0@, o.1));
        let ghost ps = pieces_from(x@, pat@, pos as int);
        assert(ps[0] == piece@);
        match object_entry_exec(&piece) {
            Some(e) => {
                let ghost ev = (e.0@, e.1);
                objects.push(e);
                assert(objects@.map_values(|o: (String, i64)| (o.0@, o.1)) =~= before.push(ev));
            }
            None => {
                assert(objects@.map_values(|o: (String, i64)| (o.0@, o.1)) =~= before);
            }
        }
        match next {
            Some(nx) => {
                assert(ps.drop_first() =~= pieces_from(x@, pat@, nx as int));
                assert(objects@.map_values(|o: (String, i64)| (o.0@, o.1)) + entries_of(pieces_from(x@, pat@, nx as int)) =~= entries_of(all));
                pos = nx;
            }
            None => {
                assert(ps.drop_first() =~= Seq::<Seq<char>>::empty());
                assert(entries_of(ps.drop_first()) =~= Seq::<(Seq<char>, i64)>::empty());
                assert(objects@.map_values(|o: (String, i64)| (o.0@, o.1)) =~= entries_of(all));
                return objects;
            }
        }
    }
}

/// Listing entries one after the other lists their objects one after the other.
pub proof fn lemma_entries_concat(ps: Seq<Seq<char>>, qs: Seq<Seq<char>>)
    ensures entries_of(ps + qs) == entries_of(ps) + entries_of(qs),
    decreases ps.len(),
{
    if ps.len() == 0 {
        assert(ps + qs =~= qs);
        assert(entries_of(ps) + entries_of(qs) =~= entries_of(qs));
    } else {
        let s = ps + qs;
        assert(s[0] == ps[0]);
        assert(s.drop_first() =~= ps.drop_first() + qs);
        lemma_entries_concat(ps.drop_first(), qs);
        let head = match object_entry(ps[0]) {
            Some(e) => seq![e],
            None => Seq::<(Seq<char>, i64)>::empty(),
        };
        assert(head + (entries_of(ps.drop_first()) + entries_of(qs)) =~= (head + entries_of(ps.drop_first())) + entries_of(qs));
    }
}

/// An entry with a key and a size is listed as one object, and one without
/// them as none.
pub proof fn lemma_single_entry(p: Seq<char>)
    ensures
        object_entry(p) is Some ==> entries_of(seq![p]) == seq![object_entry(p).unwrap()],
        object_entry(p) is None ==> entries_of(seq![p]) == Seq::<(Seq<char>, i64)>::empty(),
{
    let s = seq![p];
    assert(s[0] == p);
    assert(s.drop_first() =~= Seq::<Seq<char>>::empty());
    assert(entries_of(Seq::<Seq<char>>::empty()) == Seq::<(Seq<char>, i64)>::empty());
    match object_entry(p) {
        Some(e) => { assert(seq![e] + Seq::<(Seq<char>, i64)>::empty() =~= seq![e]); }
        None => { assert(Seq::<(Seq<char>, i64)>::empty() + Seq::<(Seq<char>, i64)>::empty() =~= Seq::<(Seq<char>, i64)>::empty()); }
    }
}

/// The objects of a run of entries are exactly, in order, the object of
/// each entry that has a key and a size, the last entry included.
pub proof fn lemma_entries_each_listed(ps: Seq<Seq<char>>)
    ensures
        entries_of(ps) == ps.filter_map(|p: Seq<char>| object_entry(p)),
        entries_of(ps).len() == ps.filter(|p: Seq<char>| object_entry(p) is Some).len(),
    decreases ps.len(),
{
    if ps.len() > 0 {
        let init = ps.drop_last();
        let last = ps.last();
        assert(ps =~= init + seq![last]);
        lemma_entries_concat(init, seq![last]);
        lemma_single_entry(last);
        lemma_entries_each_listed(init);
        let pred = |p: Seq<char>| object_entry(p) is Some;
        reveal(Seq::filter);
        assert(ps.filter(pred) == (if pred(last) { init.filter(pred).push(last) } else { init.filter(pred) }));
        if object_entry(last) is None {
            assert(entries_of(init) + Seq::<(Seq<char>, i64)>::empty() =~= entries_of(init));
        }
    }
}

/// The objects of a `ListObjectsV2` answer are, in order, one for each
/// `<Contents>` entry that has a key and a size.
pub proof fn lemma_listed_objects_each_entry(xml: Seq<char>)
    ensures
        listed_objects(xml) == entries_after(xml, "<Contents>"@).filter_map(|p: Seq<char>| object_entry(p)),
        listed_objects(xml).len() == entries_after(xml, "<Contents>"@).filter(|p: Seq<char>| object_entry(p) is Some).len(),
{
    lemma_entries_each_listed(entries_after(xml, "<Contents>"@));
}

/// Listing bucket entries one after the other lists their names one after the other.
pub proof fn lemma_names_concat(ps: Seq<Seq<char>>, qs: Seq<Seq<char>>)
    ensures names_of(ps + qs) == names_of(ps) + names_of(qs),
    decreases ps.len(),
{
    if ps.len() == 0 {
        assert(ps + qs =~= qs);
        assert(names_of(ps) + names_of(qs) =~= names_of(qs));
    } else {
        let s = ps + qs;
        assert(s[0] == ps[0]);
        assert(s.drop_first() =~= ps.drop_first() + qs);
        lemma_names_concat(ps.drop_first(), qs);
        let head = match bucket_name(ps[0]) {
            Some(n) => seq![n],
            None => Seq::<Seq<char>>::empty(),
        };
        assert(head + (names_of(ps.drop_first()) + names_of(qs)) =~= (head + names_of(ps.drop_first())) + names_of(qs));
    }
}

/// The names of a run of bucket entries are exactly, in order, the name of
/// each entry that has one, the last entry included.
pub proof fn lemma_names_each_listed(ps: Seq<Seq<char>>)
    ensures
        names_of(ps) == ps.filter_map(|p: Seq<char>| bucket_name(p)),
        names_of(ps).len() == ps.filter(|p: Seq<char>| bucket_name(p) is Some).len(),
    decreases ps.len(),
{
    if ps.len() > 0 {
        let init = ps.drop_last();
        let last = ps.last();
        assert(ps =~= init + seq![last]);
        lemma_names_concat(init, seq![last]);
        let one = seq![last];
        assert(one[0] == last);
        assert(one.drop_first() =~= Seq::<Seq<char>>::empty());
        assert(names_of(Seq::<Seq<char>>::empty()) == Seq::<Seq<char>>::empty());
        lemma_names_each_listed(init);
        let pred = |p: Seq<char>| bucket_name(p) is Some;
        reveal(Seq::filter);
        assert(ps.filter(pred) == (if pred(last) { init.filter(pred).push(last) } else { init.filter(pred) }));
        match bucket_name(last) {
            Some(n) => { assert(seq![n] + Seq::<Seq<char>>::empty() =~= seq![n]); }
            None => {
                assert(Seq::<Seq<char>>::empty() + Seq::<Seq<char>>::empty() =~= Seq::<Seq<char>>::empty());
                assert(names_of(init) + Seq::<Seq<char>>::empty() =~= names_of(init));
            }
        }
    }
}

/// The names of a `ListBuckets` answer are, in order, one for each `<Bucket>`
/// entry that has a `<Name>`.
pub proof fn lemma_listed_buckets_each_entry(xml: Seq<char>)
    ensures
        listed_buckets(xml) == entries_after(xml, "<Bucket>"@).filter_map(|p: Seq<char>| bucket_name(p)),
        listed_buckets(xml).len() == entries_after(xml, "<Bucket>"@).filter(|p: Seq<char>| bucket_name(p) is Some).len(),
{
    lemma_names_each_listed(entries_after(xml, "<Bucket>"@));
}

/// Whether any of the store's pods is running, by the pods' phases.
pub fn any_running(phases: &Vec<Option<String>>) -> (b: bool)
    ensures b == exists|i: int| 0 <= i < phases@.len() && (#[trigger] phases@[i] matches Some(p) && p@ == "Running"@),
{
    let mut i: usize = 0;
    while i < phases.len()
        invariant
            0 <= i <= phases.len(),
            forall|j: int| 0 <= j < i ==> !(#[trigger] phases@[j] matches Some(p) && p@ == "Running"@),
        decreases phases.len() - i,
    {
        match &phases[i] {
            Some(p) => {
                if crate::text::str_eq(p.as_str(), "Running") {
                    return true;
                }
            }
            None => {}
        }
        i += 1;
    }
    false
}


/// How one attempt to create the store's volume claim went.
pub enum PvcOutcome {
    /// The claim was created.
    Created,
    /// The API answered 409: a claim of that name is still there.
    Conflict,
    /// Any other failure.
    Failed,
}

/// What to do after an attempt to create the volume claim.
#[derive(Debug, Clone, Copy, PartialEq, Eq, Structural)]
pub enum PvcAction {
    /// Go on with the deployment.
    Proceed,
    /// Delete the old claim, wait three seconds and try again.
    DeleteAndRetry,
    /// Give up: the deployment fails with the error.
    GiveUp,
}

/// The most attempts made to create the volume claim.
pub const PVC_ATTEMPTS: u32 = 10;

/// The decision after attempt `attempt` (counted from 0) ended with `outcome`:
/// a conflict is retried while attempts are left, any other failure ends the
/// deployment.
pub open spec fn pvc_decision(attempt: u32, outcome: PvcOutcome) -> PvcAction {
    match outcome {
        PvcOutcome::Created => PvcAction::Proceed,
        PvcOutcome::Conflict => if attempt + 1 < PVC_ATTEMPTS { PvcAction::DeleteAndRetry } else { PvcAction::GiveUp },
        PvcOutcome::Failed => PvcAction::GiveUp,
    }
}

/// Decides what follows an attempt to create the volume claim.
pub fn pvc_next(attempt: u32, outcome: &PvcOutcome) -> (a: PvcAction)
    ensures a == pvc_decision(attempt, *outcome),
{
    match outcome {
        PvcOutcome::Created => PvcAction::Proceed,
        PvcOutcome::Conflict => if attempt < PVC_ATTEMPTS - 1 { PvcAction::DeleteAndRetry } else { PvcAction::GiveUp },
        PvcOutcome::Failed => PvcAction::GiveUp,
    }
}

/// The attempts to create the volume claim end: the last allowed attempt is
/// never followed by another, whatever it answered.
pub proof fn lemma_pvc_attempts_end(attempt: u32, outcome: PvcOutcome)
    requires attempt + 1 >= PVC_ATTEMPTS,
    ensures pvc_decision(attempt, outcome) != PvcAction::DeleteAndRetry,
{
}
} // verus!
