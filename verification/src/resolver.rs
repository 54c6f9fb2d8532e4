//! Fuzzy station-name resolution.
//!
//! A searchable index is built once over the station names (a name with a
//! parenthetical qualifier is indexed in both its full and stripped forms)
//! and resolves free-text queries to zero, one or two station identifiers.
//! The similarity search itself is done by the `simsearch` crate; what it
//! returns is post-processed by verified code, including the deliberate
//! carve-out for the one known duplicate-name pair, which is kept as an
//! explicit lookup table built from the dataset at construction time.

use vstd::prelude::*;

use simsearch::{SearchOptions, SimSearch};

use crate::names::{contains_seq, has_parenthetical_str, strip_parenthetical, tokens_for};
use crate::stations::Station;

verus! {

/// The search engine type of the `simsearch` crate, opaque to verification.
#[verifier::external_type_specification]
#[verifier::external_body]
#[verifier::reject_recursive_types(Id)]
pub struct ExSimSearch<Id: Eq + PartialEq + Clone + core::hash::Hash + Ord>(SimSearch<Id>);

/// What the fuzzy engine holds: for each identifier present in the engine,
/// the token strings that were handed to it for that identifier.
pub uninterp spec fn engine_entries(e: SimSearch<usize>) -> Map<int, Seq<Seq<char>>>;

/// The entry table of an engine with nothing inserted.
pub open spec fn no_entries() -> Map<int, Seq<Seq<char>>> {
    Map::empty()
}

/// Relies on simsearch::SimSearch::new_with and the SearchOptions builder:
/// a newly created engine holds no entries. The engine is configured the
/// way the game searches: whole strings as tokens (no whitespace
/// splitting) and Levenshtein-distance scoring, with the engine's default
/// acceptance threshold.
#[verifier::external_body]
fn engine_new() -> (engine: SimSearch<usize>)
    ensures
        engine_entries(engine) == no_entries(),
{
    SimSearch::new_with(SearchOptions::new().stop_whitespace(false).levenshtein(true))
}

/// Relies on simsearch::SimSearch::insert: it replaces the identifier's
/// entry with the one given token and leaves every other entry alone.
#[verifier::external_body]
fn engine_insert(e: &mut SimSearch<usize>, id: usize, token: &str)
    ensures
        engine_entries(*final(e)) == engine_entries(*old(e)).insert(id as int, seq![token@]),
{
    e.insert(id, token);
}

/// Relies on simsearch::SimSearch::insert_tokens: it replaces the
/// identifier's entry with the two given tokens and leaves every other
/// entry alone.
#[verifier::external_body]
fn engine_insert_pair(e: &mut SimSearch<usize>, id: usize, token: &str, alias: &str)
    ensures
        engine_entries(*final(e)) == engine_entries(*old(e)).insert(id as int, seq![token@, alias@]),
{
    e.insert_tokens(id, &[token, alias]);
}

/// Relies on simsearch::SimSearch::search: every identifier it returns was
/// inserted into the engine, and none is returned twice. In which order
/// hits of equal similarity come back is not modelled.
#[verifier::external_body]
fn engine_search(e: &SimSearch<usize>, pattern: &str) -> (hits: Vec<usize>)
    ensures
        forall|i: int|
            0 <= i < hits@.len() ==> engine_entries(*e).dom().contains(#[trigger] hits@[i] as int),
        forall|i: int, j: int| 0 <= i < j < hits@.len() ==> hits@[i] != hits@[j],
{
    e.search(pattern)
}

/// One entry of the duplicate-name lookup table: stations whose names share
/// the key substring.
#[derive(Clone, Debug)]
pub struct DuplicateGroup {
    /// The shared name substring the group is keyed by.
    pub key: String,
    /// Identifiers of the stations sharing it.
    pub members: Vec<usize>,
}

/// The display names of a station list.
pub open spec fn names_of(stations: Seq<Station>) -> Seq<Seq<char>> {
    Seq::new(stations.len(), |i: int| stations[i].name@)
}

/// Indices among the first `n` names whose name contains `key`, in
/// ascending order.
pub open spec fn matching_upto(names: Seq<Seq<char>>, key: Seq<char>, n: int) -> Seq<int>
    decreases n,
{
    if n <= 0 {
        Seq::empty()
    } else if contains_seq(names[n - 1], key) {
        matching_upto(names, key, n - 1).push(n - 1)
    } else {
        matching_upto(names, key, n - 1)
    }
}

/// The members of a duplicate-name group: the first two stations whose
/// names contain the key (or every one of them, when fewer than two match).
pub open spec fn dup_members(names: Seq<Seq<char>>, key: Seq<char>) -> Seq<int> {
    let all = matching_upto(names, key, names.len() as int);
    if all.len() <= 2 {
        all
    } else {
        all.take(2)
    }
}

/// The matching indices are in range, strictly ascending, and each names a
/// station whose name contains the key.
pub proof fn lemma_matching_upto_props(names: Seq<Seq<char>>, key: Seq<char>, n: int)
    requires
        n <= names.len(),
    ensures
        forall|k: int|
            0 <= k < matching_upto(names, key, n).len() ==> {
                &&& 0 <= #[trigger] matching_upto(names, key, n)[k] < n
                &&& contains_seq(names[matching_upto(names, key, n)[k]], key)
            },
        forall|k1: int, k2: int|
            0 <= k1 < k2 < matching_upto(names, key, n).len() ==> matching_upto(names, key, n)[k1]
                < matching_upto(names, key, n)[k2],
    decreases n,
{
    if n > 0 {
        lemma_matching_upto_props(names, key, n - 1);
        let prev = matching_upto(names, key, n - 1);
        let cur = matching_upto(names, key, n);
        assert forall|k: int| 0 <= k < cur.len() implies (0 <= #[trigger] cur[k] < n
            && contains_seq(names[cur[k]], key)) by {
            if contains_seq(names[n - 1], key) {
                if k < prev.len() {
                    assert(cur[k] == prev[k]);
                } else {
                    assert(cur[k] == n - 1);
                }
            } else {
                assert(cur[k] == prev[k]);
            }
        }
        assert forall|k1: int, k2: int| 0 <= k1 < k2 < cur.len() implies cur[k1] < cur[k2] by {
            if contains_seq(names[n - 1], key) {
                if k2 < prev.len() {
                    assert(cur[k1] == prev[k1] && cur[k2] == prev[k2]);
                } else {
                    assert(cur[k2] == n - 1);
                    assert(cur[k1] == prev[k1] < n - 1);
                }
            } else {
                assert(cur[k1] == prev[k1] && cur[k2] == prev[k2]);
            }
        }
    }
}

/// Scanning further names only extends the matching list: the list for a
/// shorter prefix is a prefix of the list for a longer one.
pub proof fn lemma_matching_upto_prefix(names: Seq<Seq<char>>, key: Seq<char>, i: int, j: int)
    requires
        0 <= i <= j,
    ensures
        matching_upto(names, key, i).len() <= matching_upto(names, key, j).len(),
        matching_upto(names, key, i) == matching_upto(names, key, j).take(
            matching_upto(names, key, i).len() as int,
        ),
    decreases j - i,
{
    if i < j {
        lemma_matching_upto_prefix(names, key, i, j - 1);
        let mi = matching_upto(names, key, i);
        let mj1 = matching_upto(names, key, j - 1);
        let mj = matching_upto(names, key, j);
        assert(mi =~= mj.take(mi.len() as int));
    }
}

/// Collects the members of a duplicate-name group: the first two stations
/// whose names contain the key.
pub fn find_duplicate_members(stations: &Vec<Station>, key: &str) -> (members: Vec<usize>)
    ensures
        members@.len() == dup_members(names_of(stations@), key@).len(),
        forall|k: int|
            0 <= k < members@.len() ==> #[trigger] members@[k] as int == dup_members(
                names_of(stations@),
                key@,
            )[k],
{
    let ghost names = names_of(stations@);
    let n = stations.len();
    let mut members: Vec<usize> = Vec::new();
    let mut i: usize = 0;
    while i < n && members.len() < 2
        invariant
            0 <= i <= n,
            n == stations@.len(),
            names == names_of(stations@),
            members@.len() == matching_upto(names, key@, i as int).len() <= 2,
            forall|k: int|
                0 <= k < members@.len() ==> #[trigger] members@[k] as int == matching_upto(
                    names,
                    key@,
                    i as int,
                )[k],
        decreases n - i,
    {
        if crate::names::contains_substring(stations[i].name.as_str(), key) {
            members.push(i);
        }
        i = i + 1;
    }
    proof {
        lemma_matching_upto_prefix(names, key@, i as int, n as int);
        let mi = matching_upto(names, key@, i as int);
        let mn = matching_upto(names, key@, n as int);
        if members@.len() == 2 {
            if mn.len() <= 2 {
                assert(mn =~= mn.take(mi.len() as int));
            }
        } else {
            assert(i == n);
        }
    }
    members
}

/// The position of the first group listing the identifier, or -1 when no
/// group lists it.
pub open spec fn group_index_of(groups: Seq<DuplicateGroup>, id: usize) -> int
    decreases groups.len(),
{
    if groups.len() == 0 {
        -1
    } else if groups[0].members@.contains(id) {
        0
    } else {
        let rest = group_index_of(groups.drop_first(), id);
        if rest == -1 {
            -1
        } else {
            rest + 1
        }
    }
}

/// When no group before `g0` lists the identifier and group `g0` does, the
/// identifier's group is `g0`.
proof fn lemma_group_index_found(groups: Seq<DuplicateGroup>, id: usize, g0: int)
    requires
        0 <= g0 < groups.len(),
        groups[g0].members@.contains(id),
        forall|g: int| 0 <= g < g0 ==> !(#[trigger] groups[g]).members@.contains(id),
    ensures
        group_index_of(groups, id) == g0,
    decreases groups.len(),
{
    if g0 > 0 {
        assert(!groups[0].members@.contains(id));
        assert(groups.drop_first()[g0 - 1] == groups[g0]);
        assert forall|g: int| 0 <= g < g0 - 1 implies !(#[trigger] groups.drop_first()[g]).members@.contains(
            id,
        ) by {
            assert(groups.drop_first()[g] == groups[g + 1]);
        }
        lemma_group_index_found(groups.drop_first(), id, g0 - 1);
    }
}

/// When no group lists the identifier, it has no group.
proof fn lemma_group_index_none(groups: Seq<DuplicateGroup>, id: usize)
    requires
        forall|g: int| 0 <= g < groups.len() ==> !(#[trigger] groups[g]).members@.contains(id),
    ensures
        group_index_of(groups, id) == -1,
    decreases groups.len(),
{
    if groups.len() > 0 {
        assert forall|g: int|
            0 <= g < groups.drop_first().len() implies !(#[trigger] groups.drop_first()[g]).members@.contains(
            id,
        ) by {
            assert(groups.drop_first()[g] == groups[g + 1]);
        }
        lemma_group_index_none(groups.drop_first(), id);
    }
}

/// The identifier's group, when there is one, really lists it.
pub proof fn lemma_group_index_of_props(groups: Seq<DuplicateGroup>, id: usize)
    ensures
        group_index_of(groups, id) != -1 ==> {
            &&& 0 <= group_index_of(groups, id) < groups.len()
            &&& groups[group_index_of(groups, id)].members@.contains(id)
        },
    decreases groups.len(),
{
    if groups.len() > 0 && !groups[0].members@.contains(id) {
        lemma_group_index_of_props(groups.drop_first(), id);
        if group_index_of(groups.drop_first(), id) != -1 {
            assert(groups.drop_first()[group_index_of(groups.drop_first(), id)] == groups[
            group_index_of(groups, id)]);
        }
    }
}

/// What resolution makes of the raw search hits: nothing stays nothing; a
/// best hit that belongs to a duplicate-name group widens to that whole
/// group; any other best hit stands alone.
pub open spec fn spec_resolve_hits(groups: Seq<DuplicateGroup>, hits: Seq<usize>) -> Seq<usize> {
    if hits.len() == 0 {
        Seq::empty()
    } else {
        let g = group_index_of(groups, hits[0]);
        if g == -1 {
            seq![hits[0]]
        } else {
            groups[g].members@
        }
    }
}

/// Whether the vector holds the value.
fn vec_contains_usize(v: &Vec<usize>, x: usize) -> (r: bool)
    ensures
        r == v@.contains(x),
{
    let mut i: usize = 0;
    while i < v.len()
        invariant
            0 <= i <= v@.len(),
            forall|k: int| 0 <= k < i ==> v@[k] != x,
        decreases v@.len() - i,
    {
        if v[i] == x {
            return true;
        }
        i = i + 1;
    }
    false
}

/// A copy of a vector of identifiers.
fn copy_ids(v: &Vec<usize>) -> (r: Vec<usize>)
    ensures
        r@ == v@,
{
    let mut r: Vec<usize> = Vec::new();
    let mut i: usize = 0;
    while i < v.len()
        invariant
            0 <= i <= v@.len(),
            r@ == v@.take(i as int),
        decreases v@.len() - i,
    {
        r.push(v[i]);
        proof {
            assert(r@ =~= v@.take(i + 1));
        }
        i = i + 1;
    }
    proof {
        assert(r@ =~= v@);
    }
    r
}

/// Applies the duplicate-name carve-out to the raw search hits.
pub fn resolve_hits(groups: &Vec<DuplicateGroup>, hits: &Vec<usize>) -> (ids: Vec<usize>)
    ensures
        ids@ == spec_resolve_hits(groups@, hits@),
{
    if hits.len() == 0 {
        let ids: Vec<usize> = Vec::new();
        return ids;
    }
    let first = hits[0];
    let mut g: usize = 0;
    while g < groups.len()
        invariant
            0 <= g <= groups@.len(),
            hits@.len() > 0,
            first == hits@[0],
            forall|gg: int| 0 <= gg < g ==> !(#[trigger] groups@[gg]).members@.contains(first),
        decreases groups@.len() - g,
    {
        if vec_contains_usize(&groups[g].members, first) {
            proof {
                lemma_group_index_found(groups@, first, g as int);
            }
            let ids = copy_ids(&groups[g].members);
            proof {
                assert(ids@ == spec_resolve_hits(groups@, hits@));
            }
            return ids;
        }
        g = g + 1;
    }
    proof {
        lemma_group_index_none(groups@, first);
    }
    let mut ids: Vec<usize> = Vec::new();
    ids.push(first);
    proof {
        assert(ids@ =~= seq![first]);
    }
    ids
}

/// The substring shared by the one known duplicate-name pair of the
/// reference dataset.
pub open spec fn dup_key() -> Seq<char> {
    "Edgware Road"@
}

/// The substring shared by the one known duplicate-name pair of the
/// reference dataset.
pub fn duplicate_name_key() -> (key: String)
    ensures
        key@ == dup_key(),
{
    String::from_str("Edgware Road")
}

/// The searchable station index: the fuzzy engine over full and stripped
/// names, and the duplicate-name lookup table.
pub struct StationIndex {
    /// The fuzzy engine the names were inserted into.
    pub engine: SimSearch<usize>,
    /// The duplicate-name lookup table, built from the dataset.
    pub groups: Vec<DuplicateGroup>,
    /// How many stations were indexed.
    pub station_count: usize,
}

impl StationIndex {
    /// Every identifier the engine or the lookup table can produce names a
    /// station.
    pub open spec fn wf(self) -> bool {
        &&& forall|id: int|
            engine_entries(self.engine).dom().contains(id) ==> 0 <= id < self.station_count
        &&& forall|g: int, k: int|
            0 <= g < self.groups@.len() && 0 <= k < self.groups@[g].members@.len()
                ==> (#[trigger] self.groups@[g].members@[k]) < self.station_count
    }

    /// The index was built from this station list: the engine holds exactly
    /// the token strings of each station's name, and the lookup table holds
    /// the one known duplicate-name group.
    pub open spec fn consistent_with(self, stations: Seq<Station>) -> bool {
        &&& self.station_count == stations.len()
        &&& engine_entries(self.engine).dom() == Set::new(|i: int| 0 <= i < stations.len())
        &&& forall|i: int|
            0 <= i < stations.len() ==> #[trigger] engine_entries(self.engine)[i] == tokens_for(
                stations[i].name@,
            )
        &&& self.groups@.len() == 1
        &&& self.groups@[0].key@ == dup_key()
        &&& self.groups@[0].members@.len() == dup_members(names_of(stations), dup_key()).len()
        &&& forall|k: int|
            0 <= k < self.groups@[0].members@.len() ==> #[trigger] self.groups@[0].members@[k] as int
                == dup_members(names_of(stations), dup_key())[k]
    }

    /// Builds the index over a station list: each name is inserted (with
    /// its stripped form as an alias when it carries a parenthetical
    /// qualifier), and the duplicate-name table is collected.
    pub fn build(stations: &Vec<Station>) -> (index: StationIndex)
        ensures
            index.wf(),
            index.consistent_with(stations@),
    {
        let mut engine = engine_new();
        let n = stations.len();
        let mut i: usize = 0;
        while i < n
            invariant
                0 <= i <= n,
                n == stations@.len(),
                engine_entries(engine).dom() =~= Set::new(|j: int| 0 <= j < i as int),
                forall|j: int|
                    0 <= j < i as int ==> #[trigger] engine_entries(engine)[j] == tokens_for(
                        stations@[j].name@,
                    ),
            decreases n - i,
        {
            let name_owned = stations[i].name.clone();
            let name = name_owned.as_str();
            if has_parenthetical_str(name) {
                let stripped = strip_parenthetical(name);
                engine_insert_pair(&mut engine, i, name, stripped.as_str());
            } else {
                engine_insert(&mut engine, i, name);
            }
            proof {
                assert(engine_entries(engine).dom() =~= Set::new(|j: int| 0 <= j < i + 1));
            }
            i = i + 1;
        }
        let key = duplicate_name_key();
        let members = find_duplicate_members(stations, key.as_str());
        let mut groups: Vec<DuplicateGroup> = Vec::new();
        groups.push(DuplicateGroup { key, members });
        let index = StationIndex { engine, groups, station_count: n };
        proof {
            let names = names_of(stations@);
            lemma_matching_upto_props(names, dup_key(), n as int);
            let all = matching_upto(names, dup_key(), n as int);
            let dup = dup_members(names, dup_key());
            assert forall|g: int, k: int|
                0 <= g < index.groups@.len() && 0 <= k < index.groups@[g].members@.len() implies (
            #[trigger] index.groups@[g].members@[k]) < index.station_count by {
                assert(index.groups@[g].members@[k] as int == dup[k]);
                assert(dup[k] == all[k]);
                assert(0 <= all[k] < n);
            }
        }
        index
    }

    /// Resolves free-text input: no identifiers when nothing is similar
    /// enough to the query, the whole duplicate-name group when the best
    /// hit belongs to one, and the single best hit otherwise.
    pub fn resolve(&self, query: &str) -> (ids: Vec<usize>)
        requires
            self.wf(),
        ensures
            forall|k: int| 0 <= k < ids@.len() ==> (#[trigger] ids@[k]) < self.station_count,
            exists|hits: Seq<usize>|
                {
                    &&& #[trigger] spec_resolve_hits(self.groups@, hits) == ids@
                    &&& forall|i: int|
                        0 <= i < hits.len() ==> engine_entries(self.engine).dom().contains(
                            #[trigger] hits[i] as int,
                        )
                    &&& forall|i: int, j: int| 0 <= i < j < hits.len() ==> hits[i] != hits[j]
                },
    {
        let hits = engine_search(&self.engine, query);
        let ids = resolve_hits(&self.groups, &hits);
        proof {
            if hits@.len() > 0 {
                let gi = group_index_of(self.groups@, hits@[0]);
                lemma_group_index_of_props(self.groups@, hits@[0]);
                if gi == -1 {
                    assert(ids@ == seq![hits@[0]]);
                    assert(engine_entries(self.engine).dom().contains(hits@[0] as int));
                } else {
                    assert(ids@ == self.groups@[gi].members@);
                }
            }
            assert(spec_resolve_hits(self.groups@, hits@) == ids@);
        }
        ids
    }
}

/// The duplicate-name carve-out, at the level of the lookup table: when the
/// best hit belongs to the duplicate group and the dataset holds at least
/// two stations whose names contain the group's key, resolution returns
/// exactly two distinct identifiers, both of stations whose names contain
/// the key; when the best hit belongs to no group, resolution returns
/// exactly the one best hit.
pub proof fn lemma_duplicate_carve_out(index: StationIndex, stations: Seq<Station>, hits: Seq<
    usize,
>)
    requires
        index.consistent_with(stations),
        hits.len() > 0,
    ensures
        group_index_of(index.groups@, hits[0]) != -1 && matching_upto(
            names_of(stations),
            dup_key(),
            stations.len() as int,
        ).len() >= 2 ==> {
            let ids = spec_resolve_hits(index.groups@, hits);
            &&& ids.len() == 2
            &&& ids[0] != ids[1]
            &&& contains_seq(stations[ids[0] as int].name@, dup_key())
            &&& contains_seq(stations[ids[1] as int].name@, dup_key())
        },
        group_index_of(index.groups@, hits[0]) == -1 ==> spec_resolve_hits(index.groups@, hits)
            == seq![hits[0]],
{
    let names = names_of(stations);
    let key = dup_key();
    let n = stations.len() as int;
    lemma_matching_upto_props(names, key, n);
    let all = matching_upto(names, key, n);
    let dup = dup_members(names, key);
    let gi = group_index_of(index.groups@, hits[0]);
    if gi != -1 && all.len() >= 2 {
        lemma_group_index_of_props(index.groups@, hits[0]);
        assert(gi == 0);
        let ids = spec_resolve_hits(index.groups@, hits);
        assert(ids == index.groups@[0].members@);
        assert(dup.len() == 2);
        assert(ids[0] as int == dup[0] && ids[1] as int == dup[1]);
        assert(dup[0] == all[0] && dup[1] == all[1]);
        assert(all[0] < all[1]);
        assert(contains_seq(names[all[0]], key) && contains_seq(names[all[1]], key));
        assert(names[all[0]] == stations[all[0]].name@);
        assert(names[all[1]] == stations[all[1]].name@);
    }
}

} // verus!
