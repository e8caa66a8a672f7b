//! Connection profiles: the saved records that identify a cluster, and
//! the bookkeeping the tool performs on the list of them.
//!
//! Persistence itself (reading and writing the configuration file) is
//! the caller's job; this module owns the semantics: stable identity,
//! replace-by-id saves, the grouping of profiles for display, and how a
//! topic-discovery outcome is recorded on a profile.

use vstd::prelude::*;

verus! {

/// A saved profile: a cluster's hosts plus display metadata.  Identity
/// is `id`, generated once and stable across edits.
#[derive(Clone, Debug)]
pub struct ConnectionConfig {
    pub id: String,
    pub group_label: String,
    pub display_name: String,
    pub hosts: Vec<String>,
    pub cached_topics: Vec<String>,
    pub cached_group_ids: Vec<String>,
    pub last_message: Option<String>,
}

/// The profiles whose id differs from `id`: the ones a save under `id`
/// preserves.
pub open spec fn others(configs: Seq<ConnectionConfig>, id: Seq<char>) -> Seq<ConnectionConfig> {
    configs.filter(|c: ConnectionConfig| c.id@ != id)
}

/// The group labels of a profile list, in list order.
pub open spec fn labels_of(configs: Seq<ConnectionConfig>) -> Seq<Seq<char>> {
    configs.map_values(|c: ConnectionConfig| c.group_label@)
}

/// The texts of a list of strings.
pub open spec fn texts_of(strings: Seq<String>) -> Seq<Seq<char>> {
    strings.map_values(|s: String| s@)
}

/// Each label of `labels`, kept at its first occurrence only.
pub open spec fn first_occurrences(labels: Seq<Seq<char>>) -> Seq<Seq<char>>
    decreases labels.len(),
{
    if labels.len() == 0 {
        Seq::empty()
    } else {
        let rest = first_occurrences(labels.drop_last());
        if rest.contains(labels.last()) {
            rest
        } else {
            rest.push(labels.last())
        }
    }
}

proof fn lemma_filter_push(s: Seq<ConnectionConfig>, c: ConnectionConfig, id: Seq<char>)
    ensures
        others(s.push(c), id) == if c.id@ != id {
            others(s, id).push(c)
        } else {
            others(s, id)
        },
{
    reveal_with_fuel(Seq::filter, 2);
    assert(s.push(c).drop_last() =~= s);
    assert(s.push(c).last() == c);
}

/// Save a profile into the list: the record with the same id is
/// superseded, every other record is preserved in order, and the saved
/// record ends the list.  Nothing is ever deleted by a save.
pub fn upsert(configs: Vec<ConnectionConfig>, item: ConnectionConfig) -> (r: Vec<
    ConnectionConfig,
>)
    ensures
        r@ == others(configs@, item.id@).push(item),
{
    let ghost original: Seq<ConnectionConfig> = configs@;
    let ghost id: Seq<char> = item.id@;
    let mut remaining = configs;
    let mut out: Vec<ConnectionConfig> = Vec::new();
    let ghost mut i: int = 0;
    while remaining.len() > 0
        invariant
            0 <= i <= original.len(),
            remaining@ == original.subrange(i, original.len() as int),
            out@ == others(original.subrange(0, i), id),
            id == item.id@,
        decreases remaining.len(),
    {
        let c = remaining.remove(0);
        proof {
            assert(c == original[i]);
            assert(original.subrange(0, i + 1) =~= original.subrange(0, i).push(c));
            lemma_filter_push(original.subrange(0, i), c, id);
            assert(remaining@ =~= original.subrange(i + 1, original.len() as int));
        }
        if !c.id.eq(&item.id) {
            out.push(c);
        }
        proof {
            i = i + 1;
        }
    }
    proof {
        assert(original.subrange(0, i) =~= original);
    }
    out.push(item);
    out
}

/// Whether some string in `v` has the text of `s`.
pub fn contains_string(v: &Vec<String>, s: &String) -> (r: bool)
    ensures
        r == texts_of(v@).contains(s@),
{
    let mut i: usize = 0;
    while i < v.len()
        invariant
            i <= v@.len(),
            forall|j: int| 0 <= j < i ==> v@[j]@ != s@,
        decreases v@.len() - i,
    {
        if v[i].eq(s) {
            proof {
                assert(texts_of(v@)[i as int] == s@);
            }
            return true;
        }
        i = i + 1;
    }
    proof {
        assert forall|j: int| 0 <= j < texts_of(v@).len() implies texts_of(v@)[j] != s@ by {
            assert(texts_of(v@)[j] == v@[j]@);
        }
    }
    false
}

/// The group labels under which the profiles are displayed: each
/// label once, in order of its first appearance in the list.
pub fn group_labels(configs: &Vec<ConnectionConfig>) -> (r: Vec<String>)
    ensures
        texts_of(r@) == first_occurrences(labels_of(configs@)),
{
    let mut out: Vec<String> = Vec::new();
    let mut i: usize = 0;
    while i < configs.len()
        invariant
            i <= configs@.len(),
            texts_of(out@) == first_occurrences(labels_of(configs@.subrange(0, i as int))),
        decreases configs@.len() - i,
    {
        let ghost prefix: Seq<ConnectionConfig> = configs@.subrange(0, i as int);
        let ghost next: Seq<ConnectionConfig> = configs@.subrange(0, i as int + 1);
        let label = &configs[i].group_label;
        proof {
            assert(next.drop_last() =~= prefix);
            assert(labels_of(next).drop_last() =~= labels_of(prefix));
            assert(labels_of(next).last() == label@);
        }
        if !contains_string(&out, label) {
            out.push(label.clone());
        }
        proof {
            assert(texts_of(out@) =~= first_occurrences(labels_of(next)));
        }
        i = i + 1;
    }
    proof {
        assert(configs@.subrange(0, i as int) =~= configs@);
    }
    out
}

/// Relies on uuid::Uuid::new_v4 together with uuid's Display form: a
/// freshly generated random identifier, rendered hyphenated as exactly
/// 36 characters.  Nothing but its length is assumed of the text, and
/// two calls may well differ.
#[verifier::external_body]
fn fresh_profile_id() -> (r: String)
    ensures
        r@.len() == 36,
{
    uuid::Uuid::new_v4().to_string()
}

/// Give a profile its stable identity: a profile saved for the first
/// time (empty id) receives a freshly generated 36-character id; a
/// profile that already has one keeps it.  No other field is touched.
pub fn ensure_id(config: &mut ConnectionConfig)
    ensures
        old(config).id@.len() > 0 ==> *final(config) == *old(config),
        old(config).id@.len() == 0 ==> final(config).id@.len() == 36,
        final(config).group_label == old(config).group_label,
        final(config).display_name == old(config).display_name,
        final(config).hosts == old(config).hosts,
        final(config).cached_topics == old(config).cached_topics,
        final(config).cached_group_ids == old(config).cached_group_ids,
        final(config).last_message == old(config).last_message,
{
    if config.id.as_str().is_empty() {
        config.id = fresh_profile_id();
    }
}

/// The message recorded on a profile when topic discovery succeeds.
pub open spec fn discovery_success_text() -> Seq<char> {
    "connected"@
}

/// Record a topic-discovery outcome on a profile.  On success the
/// discovered topics replace the cached ones and a success message is
/// set; on failure the broker's message is kept verbatim and the cached
/// topics survive.  Identity and display fields are never touched.
pub fn apply_topic_discovery(config: &mut ConnectionConfig, outcome: Result<Vec<String>, String>)
    ensures
        final(config).id == old(config).id,
        final(config).group_label == old(config).group_label,
        final(config).display_name == old(config).display_name,
        final(config).hosts == old(config).hosts,
        final(config).cached_group_ids == old(config).cached_group_ids,
        match outcome {
            Ok(topics) => {
                &&& final(config).cached_topics == topics
                &&& final(config).last_message matches Some(m) && m@
                    == discovery_success_text()
            },
            Err(e) => {
                &&& final(config).cached_topics == old(config).cached_topics
                &&& final(config).last_message matches Some(m) && m@ == e@
            },
        },
{
    match outcome {
        Ok(topics) => {
            config.cached_topics = topics;
            config.last_message = Some("connected".to_owned());
        },
        Err(e) => {
            config.last_message = Some(e);
        },
    }
}

} // verus!
