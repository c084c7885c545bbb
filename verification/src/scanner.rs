//! The repository scanner: turns the candidate packages of the enabled
//! and disabled folders into one ordered snapshot of mod records,
//! sorted by case-insensitive filename.

use vstd::prelude::*;

use crate::archive::{zip_entry_bytes, zip_list_entries, zip_parses, zip_read_entry};
use crate::classifier::{classify_archive, spec_classify};
use crate::jsonmeta::{json_i64_field, json_string_field, read_json_i64_field,
    read_json_string_field};
use crate::mod_data::{spec_meta_absent, spec_mod_data, ModData, ModDataView, ModMeta,
    ModMetaView};
use crate::text::{le_ci, spec_le_chars, spec_lower};

verus! {

/// One candidate package: the name of a directory child and its bytes,
/// or `None` when the file could not be read.
pub struct ModSource {
    pub filename: String,
    pub bytes: Option<Vec<u8>>,
}

pub ghost struct ModSourceView {
    pub filename: Seq<char>,
    pub bytes: Option<Seq<u8>>,
}

impl View for ModSource {
    type V = ModSourceView;

    open spec fn view(&self) -> ModSourceView {
        ModSourceView {
            filename: self.filename@,
            bytes: match self.bytes {
                Some(b) => Some(b@),
                None => None,
            },
        }
    }
}

/// The metadata fields of the package's embedded `EternalMod.json`
/// document; every field absent when the entry is missing or
/// unreadable.
pub open spec fn spec_meta_of(bytes: Seq<u8>) -> ModMetaView {
    match zip_entry_bytes(bytes, "EternalMod.json"@) {
        Some(d) => ModMetaView {
            name: json_string_field(d, "name"@),
            author: json_string_field(d, "author"@),
            description: json_string_field(d, "description"@),
            version: json_string_field(d, "version"@),
            load_priority: json_i64_field(d, "loadPriority"@),
            required_version: json_i64_field(d, "requiredVersion"@),
        },
        None => spec_meta_absent(),
    }
}

/// Reads the metadata document of an archive.
fn read_meta(bytes: &Vec<u8>) -> (r: ModMeta)
    ensures
        r@ == spec_meta_of(bytes@),
{
    match zip_read_entry(bytes, "EternalMod.json") {
        Some(d) => ModMeta {
            name: read_json_string_field(&d, "name"),
            author: read_json_string_field(&d, "author"),
            description: read_json_string_field(&d, "description"),
            version: read_json_string_field(&d, "version"),
            load_priority: read_json_i64_field(&d, "loadPriority"),
            required_version: read_json_i64_field(&d, "requiredVersion"),
        },
        None => ModMeta::absent(),
    }
}

/// The record the scanner builds for one candidate: an unreadable or
/// unparsable package yields an invalid record, an archive yields a
/// valid record with the classifier's verdict and its metadata.
pub open spec fn spec_build_record(
    src: ModSourceView,
    is_enabled: bool,
    only_online_safe: bool,
    snd: Seq<Seq<char>>,
) -> ModDataView {
    match src.bytes {
        Some(b) => if zip_parses(b) {
            spec_mod_data(
                src.filename,
                true,
                is_enabled,
                spec_classify(b, snd),
                only_online_safe,
                spec_meta_of(b),
            )
        } else {
            spec_mod_data(src.filename, false, is_enabled, false, only_online_safe,
                spec_meta_absent())
        },
        None => spec_mod_data(src.filename, false, is_enabled, false, only_online_safe,
            spec_meta_absent()),
    }
}

/// Builds the record for one candidate package; every candidate yields
/// exactly one record.
pub fn build_record(
    src: &ModSource,
    is_enabled: bool,
    only_online_safe: bool,
    snd_containers: &Vec<String>,
) -> (r: ModData)
    ensures
        r@ == spec_build_record(src@, is_enabled, only_online_safe, snd_containers.deep_view()),
{
    match &src.bytes {
        Some(b) => {
            let opened = zip_list_entries(b);
            if opened.is_some() {
                let safe = classify_archive(b, snd_containers);
                let meta = read_meta(b);
                ModData::new(src.filename.as_str(), true, is_enabled, safe, only_online_safe,
                    meta)
            } else {
                ModData::new(src.filename.as_str(), false, is_enabled, false, only_online_safe,
                    ModMeta::absent())
            }
        },
        None => ModData::new(src.filename.as_str(), false, is_enabled, false, only_online_safe,
            ModMeta::absent()),
    }
}

/// The sort key of a record: its case-folded filename.
pub open spec fn spec_record_key(m: ModDataView) -> Seq<char> {
    spec_lower(m.filename)
}

/// Order of two records in the snapshot.
pub open spec fn spec_le_records(a: ModDataView, b: ModDataView) -> bool {
    spec_le_chars(spec_record_key(a), spec_record_key(b))
}

/// Where insertion sort puts `m` in `s`: before the first element that
/// `m` is at most.
pub open spec fn spec_insert_pos(m: ModDataView, s: Seq<ModDataView>) -> int
    decreases s.len(),
{
    if s.len() == 0 {
        0
    } else if spec_le_records(m, s[0]) {
        0
    } else {
        1 + spec_insert_pos(m, s.drop_first())
    }
}

proof fn lemma_insert_pos(m: ModDataView, s: Seq<ModDataView>)
    ensures
        0 <= spec_insert_pos(m, s) <= s.len(),
        forall|t: int| 0 <= t < spec_insert_pos(m, s) ==> !spec_le_records(m, s[t]),
        spec_insert_pos(m, s) < s.len() ==> spec_le_records(m, s[spec_insert_pos(m, s)]),
    decreases s.len(),
{
    if s.len() > 0 && !spec_le_records(m, s[0]) {
        lemma_insert_pos(m, s.drop_first());
        let p = spec_insert_pos(m, s);
        assert forall|t: int| 0 <= t < p implies !spec_le_records(m, s[t]) by {
            if t > 0 {
                assert(s.drop_first()[t - 1] == s[t]);
                assert(!spec_le_records(m, s.drop_first()[t - 1]));
            }
        }
        if p < s.len() {
            assert(s.drop_first()[p - 1] == s[p]);
        }
    }
}

proof fn lemma_views_push(s: Seq<ModData>, m: ModData)
    ensures
        spec_views(s.push(m)) =~= spec_views(s).push(m@),
{
    assert(forall|t: int| 0 <= t < s.len() ==> #[trigger] s.push(m)[t] == s[t]);
}

/// One insertion-sort step.
pub open spec fn spec_insert_record(m: ModDataView, s: Seq<ModDataView>) -> Seq<ModDataView> {
    s.insert(spec_insert_pos(m, s), m)
}

/// Insertion sort of a record sequence by case-insensitive filename.
pub open spec fn spec_sort_records(s: Seq<ModDataView>) -> Seq<ModDataView>
    decreases s.len(),
{
    if s.len() == 0 {
        Seq::empty()
    } else {
        spec_insert_record(s.last(), spec_sort_records(s.drop_last()))
    }
}

/// The views of a record vector.
pub open spec fn spec_views(s: Seq<ModData>) -> Seq<ModDataView> {
    s.map_values(|m: ModData| m@)
}

/// Inserts `m` into `v` at its insertion-sort position.
fn sorted_insert(v: &mut Vec<ModData>, m: ModData)
    ensures
        spec_views(final(v)@) == spec_insert_record(m@, spec_views(old(v)@)),
{
    proof {
        lemma_insert_pos(m@, spec_views(v@));
    }
    let n: usize = v.len();
    let mut j: usize = 0;
    while j < n && !le_ci(m.filename.as_str(), v[j].filename.as_str())
        invariant
            n == v@.len(),
            j <= n,
            forall|t: int| 0 <= t < j ==> !spec_le_records(m@, spec_views(v@)[t]),
        decreases n - j,
    {
        assert(spec_views(v@)[j as int] == v@[j as int]@);
        j = j + 1;
    }
    assert(j < n ==> spec_le_records(m@, spec_views(v@)[j as int])) by {
        if j < n {
            assert(spec_views(v@)[j as int] == v@[j as int]@);
        }
    }
    assert(j as int == spec_insert_pos(m@, spec_views(v@)));
    v.insert(j, m);
    assert(spec_views(v@) =~= spec_insert_record(m@, spec_views(old(v)@)));
}

/// Sorts records by case-insensitive filename, ascending.
pub fn sort_records(input: Vec<ModData>) -> (r: Vec<ModData>)
    ensures
        spec_views(r@) == spec_sort_records(spec_views(input@)),
{
    let mut input = input;
    let mut out: Vec<ModData> = Vec::new();
    let n: usize = input.len();
    let ghost all: Seq<ModDataView> = spec_views(input@);
    let mut i: usize = 0;
    while i < n
        invariant
            n == all.len(),
            i <= n,
            input@.len() == n - i,
            spec_views(input@) =~= all.skip(i as int),
            spec_views(out@) == spec_sort_records(all.take(i as int)),
        decreases n - i,
    {
        let ghost prev = input@;
        let m = input.remove(0);
        assert(m@ == all[i as int]) by {
            assert(spec_views(prev)[0] == prev[0]@);
        }
        sorted_insert(&mut out, m);
        proof {
            let taken = all.take(i + 1);
            assert(taken.drop_last() =~= all.take(i as int));
            assert(taken.last() == all[i as int]);
            assert(forall|t: int| 0 <= t < prev.len() ==> spec_views(prev)[t] == prev[t]@);
            assert(spec_views(input@) =~= all.skip(i + 1)) by {
                assert(forall|t: int| 0 <= t < input@.len() ==> #[trigger] input@[t] == prev[t
                    + 1]);
                assert(forall|t: int| 0 <= t < input@.len() ==> #[trigger] spec_views(input@)[t]
                    == spec_views(prev)[t + 1]);
            }
        }
        i = i + 1;
    }
    assert(all.take(n as int) =~= all);
    out
}

/// The snapshot the scanner produces: one record per candidate of each
/// folder, enabled first, then sorted by case-insensitive filename.
pub open spec fn spec_scan(
    enabled: Seq<ModSourceView>,
    disabled: Seq<ModSourceView>,
    snd: Seq<Seq<char>>,
    only_online_safe: bool,
) -> Seq<ModDataView> {
    spec_sort_records(
        enabled.map_values(|s: ModSourceView| spec_build_record(s, true, only_online_safe, snd))
            + disabled.map_values(
            |s: ModSourceView| spec_build_record(s, false, only_online_safe, snd),
        ),
    )
}

/// Determinism: for one directory state — the same candidates, sound
/// banks and policy — any two snapshots the scanner's contract admits
/// are identical, order and fields included.
pub proof fn lemma_scan_deterministic(
    enabled: Seq<ModSourceView>,
    disabled: Seq<ModSourceView>,
    snd: Seq<Seq<char>>,
    only_online_safe: bool,
    r1: Seq<ModDataView>,
    r2: Seq<ModDataView>,
)
    requires
        r1 == spec_scan(enabled, disabled, snd, only_online_safe),
        r2 == spec_scan(enabled, disabled, snd, only_online_safe),
    ensures
        r1 == r2,
{
}

/// The snapshot order: each record's case-folded filename is at most
/// its successor's.
pub open spec fn spec_sorted_records(s: Seq<ModDataView>) -> bool {
    forall|i: int| 0 <= i < s.len() - 1 ==> spec_le_records(#[trigger] s[i], s[i + 1])
}

proof fn lemma_le_chars_total(x: Seq<char>, y: Seq<char>)
    ensures
        spec_le_chars(x, y) || spec_le_chars(y, x),
    decreases x.len(),
{
    if x.len() == 0 {
        assert(spec_le_chars(x, y));
    } else if y.len() == 0 {
        assert(spec_le_chars(y, x));
    } else if x[0] == y[0] {
        lemma_le_chars_total(x.drop_first(), y.drop_first());
    } else {
        vstd::utf8::char_u32_cast(x[0], x[0] as u32);
        vstd::utf8::char_u32_cast(y[0], y[0] as u32);
        assert((x[0] as u32) < (y[0] as u32) || (y[0] as u32) < (x[0] as u32));
    }
}

proof fn lemma_insert_sorted(m: ModDataView, s: Seq<ModDataView>)
    requires
        spec_sorted_records(s),
    ensures
        spec_sorted_records(spec_insert_record(m, s)),
{
    lemma_insert_pos(m, s);
    let p = spec_insert_pos(m, s);
    let r = spec_insert_record(m, s);
    s.insert_ensures(p, m);
    assert forall|i: int| 0 <= i < r.len() - 1 implies spec_le_records(#[trigger] r[i], r[i + 1]) by {
        if i + 1 < p {
            assert(r[i] == s[i] && r[i + 1] == s[i + 1]);
        } else if i + 1 == p {
            assert(r[i] == s[i] && r[i + 1] == m);
            assert(!spec_le_records(m, s[i]));
            lemma_le_chars_total(spec_record_key(m), spec_record_key(s[i]));
        } else if i == p {
            assert(r[i] == m && r[i + 1] == s[i]);
            assert(spec_le_records(m, s[p]));
        } else {
            assert(r[i] == s[i - 1] && r[i + 1] == s[i]);
        }
    }
}

/// Ordering: the scanner's snapshot is sorted ascending by
/// case-insensitive filename.
pub proof fn lemma_sort_records_sorted(s: Seq<ModDataView>)
    ensures
        spec_sorted_records(spec_sort_records(s)),
    decreases s.len(),
{
    if s.len() > 0 {
        lemma_sort_records_sorted(s.drop_last());
        lemma_insert_sorted(s.last(), spec_sort_records(s.drop_last()));
    }
}

/// Ordering of the whole scan: whatever the two folders hold, the
/// snapshot the scanner owes is sorted ascending by case-insensitive
/// filename.
pub proof fn lemma_scan_sorted(
    enabled: Seq<ModSourceView>,
    disabled: Seq<ModSourceView>,
    snd: Seq<Seq<char>>,
    only_online_safe: bool,
)
    ensures
        spec_sorted_records(spec_scan(enabled, disabled, snd, only_online_safe)),
{
    lemma_sort_records_sorted(
        enabled.map_values(|s: ModSourceView| spec_build_record(s, true, only_online_safe, snd))
            + disabled.map_values(
            |s: ModSourceView| spec_build_record(s, false, only_online_safe, snd),
        ),
    );
}

proof fn lemma_sort_len(s: Seq<ModDataView>)
    ensures
        spec_sort_records(s).len() == s.len(),
    decreases s.len(),
{
    if s.len() > 0 {
        lemma_sort_len(s.drop_last());
        lemma_insert_pos(s.last(), spec_sort_records(s.drop_last()));
    }
}

/// Every directory entry yields exactly one record: the snapshot is as
/// long as the two candidate lists together, however many candidates
/// were unreadable or unparsable.
pub proof fn lemma_scan_one_record_per_candidate(
    enabled: Seq<ModSourceView>,
    disabled: Seq<ModSourceView>,
    snd: Seq<Seq<char>>,
    only_online_safe: bool,
)
    ensures
        spec_scan(enabled, disabled, snd, only_online_safe).len() == enabled.len()
            + disabled.len(),
{
    lemma_sort_len(
        enabled.map_values(|s: ModSourceView| spec_build_record(s, true, only_online_safe, snd))
            + disabled.map_values(
            |s: ModSourceView| spec_build_record(s, false, only_online_safe, snd),
        ),
    );
}

/// Two records that agree on everything but the policy-derived
/// severity fields: same filename, flags and metadata texts.
pub open spec fn spec_same_identity(a: ModDataView, b: ModDataView) -> bool {
    &&& a.filename == b.filename
    &&& a.is_valid == b.is_valid
    &&& a.is_enabled == b.is_enabled
    &&& a.is_online_safe == b.is_online_safe
    &&& a.name == b.name
    &&& a.author == b.author
    &&& a.description == b.description
    &&& a.version == b.version
    &&& a.load_priority == b.load_priority
    &&& a.required_version == b.required_version
}

/// Position by position, the two snapshots hold records of the same
/// identity.
pub open spec fn spec_pairwise_identity(x: Seq<ModDataView>, y: Seq<ModDataView>) -> bool {
    &&& x.len() == y.len()
    &&& forall|i: int| 0 <= i < x.len() ==> spec_same_identity(#[trigger] x[i], y[i])
}

proof fn lemma_insert_pos_aligned(
    m1: ModDataView,
    m2: ModDataView,
    s1: Seq<ModDataView>,
    s2: Seq<ModDataView>,
)
    requires
        spec_same_identity(m1, m2),
        spec_pairwise_identity(s1, s2),
    ensures
        spec_insert_pos(m1, s1) == spec_insert_pos(m2, s2),
    decreases s1.len(),
{
    if s1.len() > 0 {
        assert(spec_same_identity(s1[0], s2[0]));
        assert(spec_le_records(m1, s1[0]) == spec_le_records(m2, s2[0]));
        assert(spec_pairwise_identity(s1.drop_first(), s2.drop_first())) by {
            assert(forall|i: int|
                0 <= i < s1.drop_first().len() ==> s1.drop_first()[i] == s1[i + 1]
                    && s2.drop_first()[i] == s2[i + 1]);
        }
        lemma_insert_pos_aligned(m1, m2, s1.drop_first(), s2.drop_first());
    }
}

proof fn lemma_insert_aligned(
    m1: ModDataView,
    m2: ModDataView,
    s1: Seq<ModDataView>,
    s2: Seq<ModDataView>,
)
    requires
        spec_same_identity(m1, m2),
        spec_pairwise_identity(s1, s2),
    ensures
        spec_pairwise_identity(spec_insert_record(m1, s1), spec_insert_record(m2, s2)),
{
    lemma_insert_pos_aligned(m1, m2, s1, s2);
    lemma_insert_pos(m1, s1);
    lemma_insert_pos(m2, s2);
    let p = spec_insert_pos(m1, s1);
    s1.insert_ensures(p, m1);
    s2.insert_ensures(p, m2);
    let r1 = spec_insert_record(m1, s1);
    let r2 = spec_insert_record(m2, s2);
    assert forall|i: int| 0 <= i < r1.len() implies spec_same_identity(#[trigger] r1[i], r2[i]) by {
        if i < p {
            assert(r1[i] == s1[i] && r2[i] == s2[i]);
        } else if i == p {
            assert(r1[i] == m1 && r2[i] == m2);
        } else {
            assert(r1[i] == s1[i - 1] && r2[i] == s2[i - 1]);
        }
    }
}

proof fn lemma_sort_aligned(x: Seq<ModDataView>, y: Seq<ModDataView>)
    requires
        spec_pairwise_identity(x, y),
    ensures
        spec_pairwise_identity(spec_sort_records(x), spec_sort_records(y)),
    decreases x.len(),
{
    if x.len() > 0 {
        assert(spec_pairwise_identity(x.drop_last(), y.drop_last())) by {
            assert(forall|i: int|
                0 <= i < x.drop_last().len() ==> x.drop_last()[i] == x[i] && y.drop_last()[i]
                    == y[i]);
        }
        lemma_sort_aligned(x.drop_last(), y.drop_last());
        assert(spec_same_identity(x.last(), y.last()));
        lemma_insert_aligned(
            x.last(),
            y.last(),
            spec_sort_records(x.drop_last()),
            spec_sort_records(y.drop_last()),
        );
    }
}

/// The policy flag is non-structural: two scans of one directory state
/// under different online-safe-only policies yield snapshots of the
/// same length whose records agree, position by position, on filename,
/// flags and metadata — only the severity tier and its derived texts
/// may differ.
pub proof fn lemma_policy_changes_only_tiers(
    enabled: Seq<ModSourceView>,
    disabled: Seq<ModSourceView>,
    snd: Seq<Seq<char>>,
    policy_a: bool,
    policy_b: bool,
)
    ensures
        spec_pairwise_identity(
            spec_scan(enabled, disabled, snd, policy_a),
            spec_scan(enabled, disabled, snd, policy_b),
        ),
{
    let xs = enabled.map_values(|s: ModSourceView| spec_build_record(s, true, policy_a, snd))
        + disabled.map_values(|s: ModSourceView| spec_build_record(s, false, policy_a, snd));
    let ys = enabled.map_values(|s: ModSourceView| spec_build_record(s, true, policy_b, snd))
        + disabled.map_values(|s: ModSourceView| spec_build_record(s, false, policy_b, snd));
    assert(spec_pairwise_identity(xs, ys)) by {
        assert forall|i: int| 0 <= i < xs.len() implies spec_same_identity(
            #[trigger] xs[i],
            ys[i],
        ) by {
            if i < enabled.len() {
                assert(xs[i] == spec_build_record(enabled[i], true, policy_a, snd));
                assert(ys[i] == spec_build_record(enabled[i], true, policy_b, snd));
            } else {
                let j = i - enabled.len();
                assert(xs[i] == spec_build_record(disabled[j], false, policy_a, snd));
                assert(ys[i] == spec_build_record(disabled[j], false, policy_b, snd));
            }
        }
    }
    lemma_sort_aligned(xs, ys);
}

/// A record's tier follows the decision table applied to its own flags
/// and the scan's policy.
pub open spec fn spec_status_consistent(m: ModDataView, policy: bool) -> bool {
    m.status == crate::mod_data::spec_status(m.is_valid, m.is_online_safe, policy, m.is_enabled)
}

proof fn lemma_insert_preserves_status(m: ModDataView, s: Seq<ModDataView>, policy: bool)
    requires
        spec_status_consistent(m, policy),
        forall|i: int| 0 <= i < s.len() ==> spec_status_consistent(#[trigger] s[i], policy),
    ensures
        forall|i: int|
            0 <= i < spec_insert_record(m, s).len() ==> spec_status_consistent(
                #[trigger] spec_insert_record(m, s)[i],
                policy,
            ),
{
    lemma_insert_pos(m, s);
    let p = spec_insert_pos(m, s);
    s.insert_ensures(p, m);
    let r = spec_insert_record(m, s);
    assert forall|i: int| 0 <= i < r.len() implies spec_status_consistent(
        #[trigger] r[i],
        policy,
    ) by {
        if i < p {
            assert(r[i] == s[i]);
        } else if i == p {
            assert(r[i] == m);
        } else {
            assert(r[i] == s[i - 1]);
        }
    }
}

proof fn lemma_sort_preserves_status(s: Seq<ModDataView>, policy: bool)
    requires
        forall|i: int| 0 <= i < s.len() ==> spec_status_consistent(#[trigger] s[i], policy),
    ensures
        forall|i: int|
            0 <= i < spec_sort_records(s).len() ==> spec_status_consistent(
                #[trigger] spec_sort_records(s)[i],
                policy,
            ),
    decreases s.len(),
{
    if s.len() > 0 {
        assert(forall|i: int|
            0 <= i < s.drop_last().len() ==> #[trigger] s.drop_last()[i] == s[i]);
        lemma_sort_preserves_status(s.drop_last(), policy);
        lemma_insert_preserves_status(s.last(), spec_sort_records(s.drop_last()), policy);
    }
}

/// Every record of a snapshot carries the severity tier the decision
/// table assigns from its own flags and the policy the scan ran under.
pub proof fn lemma_scan_statuses_follow_policy(
    enabled: Seq<ModSourceView>,
    disabled: Seq<ModSourceView>,
    snd: Seq<Seq<char>>,
    only_online_safe: bool,
)
    ensures
        forall|i: int|
            0 <= i < spec_scan(enabled, disabled, snd, only_online_safe).len()
                ==> spec_status_consistent(
                #[trigger] spec_scan(enabled, disabled, snd, only_online_safe)[i],
                only_online_safe,
            ),
{
    let xs = enabled.map_values(
        |s: ModSourceView| spec_build_record(s, true, only_online_safe, snd),
    ) + disabled.map_values(
        |s: ModSourceView| spec_build_record(s, false, only_online_safe, snd),
    );
    assert(forall|i: int|
        0 <= i < xs.len() ==> spec_status_consistent(#[trigger] xs[i], only_online_safe)) by {
        assert forall|i: int| 0 <= i < xs.len() implies spec_status_consistent(
            #[trigger] xs[i],
            only_online_safe,
        ) by {
            if i < enabled.len() {
                assert(xs[i] == spec_build_record(enabled[i], true, only_online_safe, snd));
            } else {
                let j = i - enabled.len();
                assert(xs[i] == spec_build_record(disabled[j], false, only_online_safe, snd));
            }
        }
    }
    lemma_sort_preserves_status(xs, only_online_safe);
}

/// The views of a source vector.
pub open spec fn spec_source_views(s: Seq<ModSource>) -> Seq<ModSourceView> {
    s.map_values(|m: ModSource| m@)
}

/// Scans the two folders' candidates into one sorted snapshot. Every
/// candidate yields exactly one record: unreadable or unparsable
/// packages become invalid records and never abort the scan.
pub fn scan(
    enabled: &Vec<ModSource>,
    disabled: &Vec<ModSource>,
    snd_containers: &Vec<String>,
    only_online_safe: bool,
) -> (r: Vec<ModData>)
    ensures
        spec_views(r@) == spec_scan(
            spec_source_views(enabled@),
            spec_source_views(disabled@),
            snd_containers.deep_view(),
            only_online_safe,
        ),
{
    let ghost snd: Seq<Seq<char>> = snd_containers.deep_view();
    let ghost en_built: Seq<ModDataView> = spec_source_views(enabled@).map_values(
        |s: ModSourceView| spec_build_record(s, true, only_online_safe, snd),
    );
    let ghost dis_built: Seq<ModDataView> = spec_source_views(disabled@).map_values(
        |s: ModSourceView| spec_build_record(s, false, only_online_safe, snd),
    );
    let mut records: Vec<ModData> = Vec::new();
    let en_n: usize = enabled.len();
    let mut i: usize = 0;
    while i < en_n
        invariant
            en_n == enabled@.len(),
            i <= en_n,
            en_built.len() == en_n,
            en_built == spec_source_views(enabled@).map_values(
                |s: ModSourceView| spec_build_record(s, true, only_online_safe, snd),
            ),
            snd == snd_containers.deep_view(),
            spec_views(records@) =~= en_built.take(i as int),
        decreases en_n - i,
    {
        let m = build_record(&enabled[i], true, only_online_safe, snd_containers);
        assert(m@ == en_built[i as int]) by {
            assert(spec_source_views(enabled@)[i as int] == enabled@[i as int]@);
        }
        let ghost prevr = records@;
        records.push(m);
        proof {
            lemma_views_push(prevr, m);
            assert(en_built.take(i + 1) =~= en_built.take(i as int).push(en_built[i as int]));
        }
        assert(spec_views(records@) =~= en_built.take(i + 1));
        i = i + 1;
    }
    let dis_n: usize = disabled.len();
    let mut i: usize = 0;
    while i < dis_n
        invariant
            dis_n == disabled@.len(),
            i <= dis_n,
            en_built.len() == en_n,
            dis_built.len() == dis_n,
            dis_built == spec_source_views(disabled@).map_values(
                |s: ModSourceView| spec_build_record(s, false, only_online_safe, snd),
            ),
            snd == snd_containers.deep_view(),
            spec_views(records@) =~= en_built + dis_built.take(i as int),
        decreases dis_n - i,
    {
        let m = build_record(&disabled[i], false, only_online_safe, snd_containers);
        assert(m@ == dis_built[i as int]) by {
            assert(spec_source_views(disabled@)[i as int] == disabled@[i as int]@);
        }
        let ghost prevr = records@;
        records.push(m);
        proof {
            lemma_views_push(prevr, m);
            assert((en_built + dis_built.take(i as int)).push(dis_built[i as int]) =~= en_built
                + dis_built.take(i + 1));
        }
        assert(spec_views(records@) =~= en_built + dis_built.take(i + 1));
        i = i + 1;
    }
    assert(spec_views(records@) =~= en_built + dis_built);
    sort_records(records)
}

} // verus!
