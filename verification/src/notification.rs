//! S3 event notifications: the targets a bucket's notification settings name,
//! and the `_SUCCESS` markers that fire them.
use vstd::prelude::*;
use crate::text::{chars_of, owned, concat2, string_of_range, split_all, split_all_exec, splitn, splitn_char, find, find_from,
    lemma_find_from_some, trim, trim_bounds, ends_with, views};

verus! {

/// The target one trimmed line of the settings names, with its kind, where the
/// line is `<QueueArn>arn</QueueArn>` (SQS), `<TopicArn>arn</TopicArn>` (SNS)
/// or `<CloudFunctionArn>arn</CloudFunctionArn>` (Lambda); text after the
/// closing tag is ignored.
pub open spec fn line_target(t: Seq<char>) -> Option<(Seq<char>, Seq<char>)> {
    if "<QueueArn>"@.is_prefix_of(t) {
        tagged(t.skip(10), "</QueueArn>"@, "SQS"@)
    } else if "<TopicArn>"@.is_prefix_of(t) {
        tagged(t.skip(10), "</TopicArn>"@, "SNS"@)
    } else if "<CloudFunctionArn>"@.is_prefix_of(t) {
        tagged(t.skip(18), "</CloudFunctionArn>"@, "Lambda"@)
    } else {
        None
    }
}

/// The text before `close`, with `kind`, where `close` occurs in `rest`.
pub open spec fn tagged(rest: Seq<char>, close: Seq<char>, kind: Seq<char>) -> Option<(Seq<char>, Seq<char>)> {
    match find_from(rest, close, 0) {
        Some(e) => Some((rest.take(e), kind)),
        None => None,
    }
}

/// The targets named by the lines `lines`, in order.
pub open spec fn lines_targets(lines: Seq<Seq<char>>) -> Seq<(Seq<char>, Seq<char>)>
    decreases lines.len(),
{
    if lines.len() == 0 {
        Seq::<(Seq<char>, Seq<char>)>::empty()
    } else {
        let r = lines_targets(lines.drop_last());
        match line_target(trim(lines.last())) {
            Some(t) => r.push(t),
            None => r,
        }
    }
}

/// The targets a notification configuration names, line by line.
pub open spec fn config_targets(config: Seq<char>) -> Seq<(Seq<char>, Seq<char>)> {
    lines_targets(split_all(config, '\n'))
}

pub open spec fn pair_views(v: Seq<(String, String)>) -> Seq<(Seq<char>, Seq<char>)> {
    v.map_values(|p: (String, String)| (p.0@, p.1@))
}

fn starts_at(s: &Vec<char>, start: usize, end: usize, p: &str) -> (b: bool)
    requires start <= end <= s.len(),
    ensures b == p@.is_prefix_of(s@.subrange(start as int, end as int)),
{
    let cp = chars_of(p);
    if cp.len() > end - start {
        return false;
    }
    let mut i: usize = 0;
    while i < cp.len()
        invariant
            start <= end <= s.len(),
            cp@ == p@,
            cp.len() <= end - start,
            0 <= i <= cp.len(),
            forall|k: int| 0 <= k < i ==> cp@[k] == s@[start + k],
        decreases cp.len() - i,
    {
        if s[start + i] != cp[i] {
            assert(s@.subrange(start as int, end as int)[i as int] == s@[start + i]);
            return false;
        }
        i += 1;
    }
    assert(p@ =~= s@.subrange(start as int, end as int).subrange(0, p@.len() as int));
    true
}

fn tagged_exec(s: &Vec<char>, start: usize, end: usize, close: &str, kind: &str) -> (r: Option<(String, String)>)
    requires start <= end <= s.len(),
    ensures
        match r {
            Some(p) => tagged(s@.subrange(start as int, end as int), close@, kind@) == Some((p.0@, p.1@)),
            None => tagged(s@.subrange(start as int, end as int), close@, kind@) is None,
        },
{
    let rest = string_of_range(s, start, end);
    let rc = chars_of(rest.as_str());
    let cc = chars_of(close);
    proof {
        lemma_find_from_some(rc@, cc@, 0);
    }
    match find(&rc, &cc, 0) {
        Some(e) => {
            let arn = string_of_range(&rc, 0, e);
            assert(arn@ =~= rc@.take(e as int));
            Some((arn, owned(kind)))
        }
        None => None,
    }
}

/// The target of the line `s[start..end]`.
fn line_target_exec(s: &Vec<char>, start: usize, end: usize) -> (r: Option<(String, String)>)
    requires start <= end <= s.len(),
    ensures
        match r {
            Some(p) => line_target(trim(s@.subrange(start as int, end as int))) == Some((p.0@, p.1@)),
            None => line_target(trim(s@.subrange(start as int, end as int))) is None,
        },
{
    let (a, b) = trim_bounds(s, start, end);
    let ghost t = s@.subrange(a as int, b as int);
    proof {
        reveal_strlit("<QueueArn>");
        reveal_strlit("<TopicArn>");
        reveal_strlit("<CloudFunctionArn>");
    }
    if starts_at(s, a, b, "<QueueArn>") {
        assert(s@.subrange(a + 10, b as int) =~= t.skip(10));
        tagged_exec(s, a + 10, b, "</QueueArn>", "SQS")
    } else if starts_at(s, a, b, "<TopicArn>") {
        assert(s@.subrange(a + 10, b as int) =~= t.skip(10));
        tagged_exec(s, a + 10, b, "</TopicArn>", "SNS")
    } else if starts_at(s, a, b, "<CloudFunctionArn>") {
        assert(s@.subrange(a + 18, b as int) =~= t.skip(18));
        tagged_exec(s, a + 18, b, "</CloudFunctionArn>", "Lambda")
    } else {
        None
    }
}

/// The targets a bucket's notification configuration names, with their kinds
/// (`SQS`, `SNS` or `Lambda`), in the order of its lines.
pub fn parse_event_targets(config: &str) -> (targets: Vec<(String, String)>)
    ensures pair_views(targets@) == config_targets(config@),
{
    let lines = split_all_exec(config, '\n');
    let ghost ls = views(lines@);
    let mut targets: Vec<(String, String)> = Vec::new();
    let mut k: usize = 0;
    while k < lines.len()
        invariant
            ls == views(lines@),
            0 <= k <= lines.len(),
            pair_views(targets@) == lines_targets(ls.take(k as int)),
        decreases lines.len() - k,
    {
        let line = chars_of(lines[k].as_str());
        assert(line@.subrange(0, line@.len() as int) =~= ls[k as int]);
        assert(ls.take(k + 1).drop_last() =~= ls.take(k as int));
        let ghost before = pair_views(targets@);
        match line_target_exec(&line, 0, line.len()) {
            Some(t) => {
                targets.push(t);
                assert(pair_views(targets@) =~= before.push((t.0@, t.1@)));
            }
            None => {}
        }
        k += 1;
    }
    assert(ls.take(k as int) =~= ls);
    targets
}

/// The text kept of a path: everything after its leading slashes.
pub open spec fn strip_slashes(s: Seq<char>) -> Seq<char>
    decreases s.len(),
{
    if s.len() > 0 && s[0] == '/' { strip_slashes(s.drop_first()) } else { s }
}

/// The bucket and key of an upload path `/{bucket}/{key}` whose key ends with
/// `_SUCCESS`: such an upload marks finished output and fires notifications.
pub open spec fn success_marker(path: Seq<char>) -> Option<(Seq<char>, Seq<char>)> {
    let parts = splitn_char(strip_slashes(path), 2, '/');
    if parts.len() == 2 && "_SUCCESS"@.is_suffix_of(parts[1]) {
        Some((parts[0], parts[1]))
    } else {
        None
    }
}

/// Reads the bucket and key of a successful upload that marks finished output.
pub fn success_marker_target(path: &str) -> (r: Option<(String, String)>)
    ensures
        match r {
            Some(p) => success_marker(path@) == Some((p.0@, p.1@)),
            None => success_marker(path@) is None,
        },
{
    let cs = chars_of(path);
    let mut i: usize = 0;
    assert(cs@.skip(0) =~= cs@);
    while i < cs.len() && cs[i] == '/'
        invariant
            0 <= i <= cs.len(),
            cs@ == path@,
            strip_slashes(path@) == strip_slashes(cs@.skip(i as int)),
        decreases cs.len() - i,
    {
        assert(cs@.skip(i as int).drop_first() =~= cs@.skip(i + 1));
        i += 1;
    }
    let rest = string_of_range(&cs, i, cs.len());
    assert(rest@ =~= cs@.skip(i as int));
    assert(strip_slashes(cs@.skip(i as int)) == cs@.skip(i as int));
    let parts = splitn(rest.as_str(), 2, '/');
    if parts.len() == 2 && ends_with(parts[1].as_str(), "_SUCCESS") {
        Some((parts[0].clone(), parts[1].clone()))
    } else {
        None
    }
}

/// Whether an object key marks finished output.
pub fn is_success_marker(key: &str) -> (b: bool)
    ensures b == "_SUCCESS"@.is_suffix_of(key@),
{
    ends_with(key, "_SUCCESS")
}

/// The key of the marker under `prefix`, and the address at which the S3
/// store holds it: `{prefix}_SUCCESS` and `{rustfs_url}/{bucket}/{prefix}_SUCCESS`.
pub fn success_marker_location(rustfs_url: &str, bucket: &str, prefix: &str) -> (r: (String, String))
    ensures
        r.0@ == prefix@ + "_SUCCESS"@,
        r.1@ == rustfs_url@ + "/"@ + bucket@ + "/"@ + prefix@ + "_SUCCESS"@,
{
    let key = concat2(prefix, "_SUCCESS");
    let mut url = concat2(rustfs_url, "/");
    url.append(bucket);
    url.append("/");
    url.append(key.as_str());
    (key, url)
}


/// The marker an upload through the proxy sets: a successful (2xx) `PUT` of a
/// key that ends with `_SUCCESS`, with its bucket and key.
pub open spec fn proxied_marker_spec(status: u16, method: Seq<char>, path: Seq<char>) -> Option<(Seq<char>, Seq<char>)> {
    if 200 <= status < 300 && method == "PUT"@ { success_marker(path) } else { None }
}

/// Reads, from an upload the proxy forwarded and its answer's status, the
/// marker it set, if any.
pub fn proxied_marker(status: u16, method: &str, path: &str) -> (r: Option<(String, String)>)
    ensures
        match r {
            Some(p) => proxied_marker_spec(status, method@, path@) == Some((p.0@, p.1@)),
            None => proxied_marker_spec(status, method@, path@) is None,
        },
{
    if 200 <= status && status < 300 && crate::text::str_eq(method, "PUT") {
        success_marker_target(path)
    } else {
        None
    }
}

/// The notifications a marker at `bucket`/`key` sends: one for each target of
/// the bucket's configuration, in order; none where the key marks nothing.
pub fn marker_events(bucket: &str, key: &str, targets: &Vec<(String, String)>) -> (events: Vec<crate::events::BusEvent>)
    ensures
        !"_SUCCESS"@.is_suffix_of(key@) ==> events@.len() == 0,
        "_SUCCESS"@.is_suffix_of(key@) ==> events@.len() == targets@.len(),
        "_SUCCESS"@.is_suffix_of(key@) ==> forall|i: int| 0 <= i < targets@.len() ==>
            (#[trigger] events@[i] matches crate::events::BusEvent::S3Notification { bucket: b, key: k, target_arn, target_type }
                && b@ == bucket@ && k@ == key@ && target_arn@ == targets@[i].0@ && target_type@ == targets@[i].1@),
{
    let mut events: Vec<crate::events::BusEvent> = Vec::new();
    if !is_success_marker(key) {
        return events;
    }
    let mut i: usize = 0;
    while i < targets.len()
        invariant
            "_SUCCESS"@.is_suffix_of(key@),
            0 <= i <= targets.len(),
            events@.len() == i,
            forall|j: int| 0 <= j < i ==>
                (#[trigger] events@[j] matches crate::events::BusEvent::S3Notification { bucket: b, key: k, target_arn, target_type }
                    && b@ == bucket@ && k@ == key@ && target_arn@ == targets@[j].0@ && target_type@ == targets@[j].1@),
        decreases targets.len() - i,
    {
        events.push(crate::events::BusEvent::S3Notification {
            bucket: owned(bucket),
            key: owned(key),
            target_arn: targets[i].0.clone(),
            target_type: targets[i].1.clone(),
        });
        i += 1;
    }
    events
}
/// Every target a configuration names is of kind `SQS`, `SNS` or `Lambda`.
pub proof fn lemma_target_kinds(lines: Seq<Seq<char>>)
    ensures
        forall|i: int| 0 <= i < lines_targets(lines).len() ==>
            (#[trigger] lines_targets(lines)[i]).1 == "SQS"@ || lines_targets(lines)[i].1 == "SNS"@
                || lines_targets(lines)[i].1 == "Lambda"@,
    decreases lines.len(),
{
    if lines.len() > 0 {
        lemma_target_kinds(lines.drop_last());
        let r = lines_targets(lines.drop_last());
        match line_target(trim(lines.last())) {
            Some(t) => {
                assert(lines_targets(lines) == r.push(t));
                assert forall|i: int| 0 <= i < lines_targets(lines).len() implies
                    (#[trigger] lines_targets(lines)[i]).1 == "SQS"@ || lines_targets(lines)[i].1 == "SNS"@
                        || lines_targets(lines)[i].1 == "Lambda"@ by {
                    if i < r.len() {
                        assert(lines_targets(lines)[i] == r[i]);
                    }
                }
            }
            None => {}
        }
    }
}

/// An upload marks finished output only with a key that ends in `_SUCCESS`
/// and a bucket name that holds no slash.
pub proof fn lemma_marker_shape(path: Seq<char>)
    ensures
        success_marker(path) matches Some(m) ==> "_SUCCESS"@.is_suffix_of(m.1) && crate::text::free_of(m.0, '/'),
{
    let parts = splitn_char(strip_slashes(path), 2, '/');
    if parts.len() == 2 {
        crate::text::lemma_splitn_pieces_free(strip_slashes(path), 2, '/');
        assert(crate::text::free_of(parts[0], '/'));
    }
}
/// The targets of a configuration are those of its lines, in line order:
/// for lines holding no line break, the configuration made of them, one per
/// line, names the targets of the lines one after another.
pub proof fn lemma_targets_in_line_order(lines: Seq<Seq<char>>)
    requires
        lines.len() >= 1,
        forall|i: int| 0 <= i < lines.len() ==> crate::text::free_of(#[trigger] lines[i], '\n'),
    ensures
        config_targets(crate::text::join_char(lines, '\n')) == lines_targets(lines),
{
    let text = crate::text::join_char(lines, '\n');
    crate::text::lemma_splitn_join(lines, lines.len(), '\n');
    crate::text::lemma_splitn_join(lines, text.len() + 1, '\n');
}

/// Where every line names a target, the targets are one per line, in order.
pub proof fn lemma_one_target_per_line(lines: Seq<Seq<char>>)
    requires forall|i: int| 0 <= i < lines.len() ==> (#[trigger] line_target(trim(lines[i]))) is Some,
    ensures
        lines_targets(lines) == Seq::new(lines.len(), |i: int| line_target(trim(lines[i]))->0),
    decreases lines.len(),
{
    if lines.len() == 0 {
        assert(lines_targets(lines) =~= Seq::new(lines.len(), |i: int| line_target(trim(lines[i]))->0));
    } else {
        let init = lines.drop_last();
        assert forall|i: int| 0 <= i < init.len() implies (#[trigger] line_target(trim(init[i]))) is Some by {
            assert(init[i] == lines[i]);
            assert(line_target(trim(lines[i])) is Some);
        }
        lemma_one_target_per_line(init);
        assert(line_target(trim(lines[lines.len() - 1])) is Some);
        assert(lines_targets(lines) =~= Seq::new(lines.len(), |i: int| line_target(trim(lines[i]))->0));
    }
}
} // verus!
