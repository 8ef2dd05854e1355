//! The name maps the scanners look names up in: Chinese character, weapon
//! and artifact-set names to GOOD keys, and the constellation bonuses and
//! set rarities by GOOD key. They are built from the entries of the
//! published mappings file and the user's renamed characters.
use vstd::prelude::*;
use crate::config::NameOverrides;
use crate::talents::ConstBonus;
use crate::text::{str_eq, trim_seq, trim_str};

verus! {

// ---------------------------------------------------------------------------
// Maps as lists of pairs
// ---------------------------------------------------------------------------

/// The position of the first pair of `m` whose key is `k`.
pub open spec fn first_key<V>(m: Seq<(String, V)>, k: Seq<char>) -> Option<int>
    decreases m.len(),
{
    if m.len() == 0 {
        None
    } else {
        match first_key(m.drop_last(), k) {
            Some(i) => Some(i),
            None => if m.last().0@ == k {
                Some(m.len() - 1)
            } else {
                None
            },
        }
    }
}

/// The value stored under `k`.
pub open spec fn lookup<V>(m: Seq<(String, V)>, k: Seq<char>) -> Option<V> {
    match first_key(m, k) {
        Some(i) => Some(m[i].1),
        None => None,
    }
}

/// The value stored under `k`, taken as text.
pub open spec fn lookup_text(m: Seq<(String, String)>, k: Seq<char>) -> Option<Seq<char>> {
    match first_key(m, k) {
        Some(i) => Some(m[i].1@),
        None => None,
    }
}

pub(crate) proof fn lemma_first_key_bounds<V>(m: Seq<(String, V)>, k: Seq<char>)
    ensures
        first_key(m, k) matches Some(i) ==> 0 <= i < m.len() && m[i].0@ == k,
    decreases m.len(),
{
    if m.len() > 0 {
        lemma_first_key_bounds(m.drop_last(), k);
    }
}

proof fn lemma_first_key_prefix<V>(m: Seq<(String, V)>, k: Seq<char>, n: int)
    requires
        0 <= n <= m.len(),
        first_key(m.take(n), k) is Some,
    ensures
        first_key(m, k) == first_key(m.take(n), k),
    decreases m.len() - n,
{
    if n < m.len() {
        assert(m.take(n + 1).drop_last() =~= m.take(n));
        lemma_first_key_prefix(m, k, n + 1);
    } else {
        assert(m.take(n) =~= m);
    }
}

/// Updating a value leaves every key's position as it was.
proof fn lemma_first_key_update<V>(m: Seq<(String, V)>, i: int, e: (String, V), k: Seq<char>)
    requires
        0 <= i < m.len(),
        e.0@ == m[i].0@,
    ensures
        first_key(m.update(i, e), k) == first_key(m, k),
    decreases m.len(),
{
    if m.len() > 0 {
        if i < m.len() - 1 {
            assert(m.update(i, e).drop_last() =~= m.drop_last().update(i, e));
            lemma_first_key_update(m.drop_last(), i, e, k);
        } else {
            assert(m.update(i, e).drop_last() =~= m.drop_last());
        }
    }
}

pub(crate) fn find_key<V>(m: &Vec<(String, V)>, k: &String) -> (r: Option<usize>)
    ensures
        match r {
            Some(i) => first_key(m@, k@) == Some(i as int),
            None => first_key(m@, k@) is None,
        },
{
    let mut i: usize = 0;
    while i < m.len()
        invariant
            i <= m.len(),
            first_key(m@.take(i as int), k@) is None,
        decreases m.len() - i,
    {
        assert(m@.take(i + 1).drop_last() =~= m@.take(i as int));
        if m[i].0 == *k {
            proof {
                lemma_first_key_prefix(m@, k@, i + 1);
            }
            return Some(i);
        }
        i += 1;
    }
    assert(m@.take(m.len() as int) =~= m@);
    None
}

/// Store `v` under `k`, replacing what was stored there; every other key
/// keeps its value.
pub fn map_insert<V>(m: &mut Vec<(String, V)>, k: String, v: V)
    ensures
        lookup(final(m)@, k@) == Some(v),
        forall|j: Seq<char>| j != k@ ==> lookup(final(m)@, j) == lookup(old(m)@, j),
{
    match find_key(m, &k) {
        Some(i) => {
            let ghost before = m@;
            proof {
                lemma_first_key_bounds(before, k@);
            }
            m.set(i, (k, v));
            assert forall|j: Seq<char>| true implies first_key(m@, j) == first_key(before, j) by {
                lemma_first_key_update(before, i as int, m@[i as int], j);
            }
            assert forall|j: Seq<char>| j != k@ implies lookup(m@, j) == lookup(before, j) by {
                lemma_first_key_bounds(before, j);
            }
        },
        None => {
            let ghost before = m@;
            m.push((k, v));
            assert(m@.drop_last() =~= before);
            assert forall|j: Seq<char>| j != k@ implies lookup(m@, j) == lookup(before, j) by {
                lemma_first_key_bounds(before, j);
            }
        },
    }
}

/// Store the text `v` under `k`.
pub fn map_insert_text(m: &mut Vec<(String, String)>, k: String, v: String)
    ensures
        lookup_text(final(m)@, k@) == Some(v@),
        forall|j: Seq<char>| j != k@ ==> lookup_text(final(m)@, j) == lookup_text(old(m)@, j),
{
    let ghost vv = v@;
    let ghost before = m@;
    map_insert(m, k, v);
    proof {
        lemma_first_key_bounds(m@, k@);
        assert forall|j: Seq<char>| j != k@ implies lookup_text(m@, j) == lookup_text(before, j) by {
            lemma_first_key_bounds(m@, j);
            lemma_first_key_bounds(before, j);
            assert(lookup(m@, j) == lookup(before, j));
        }
    }
}

// ---------------------------------------------------------------------------
// The mappings file
// ---------------------------------------------------------------------------

/// A character of the mappings file: its GOOD key, Chinese name, and which
/// talents its C3 and C5 raise.
#[derive(Clone, Debug)]
pub struct CharacterEntry {
    pub id: String,
    pub zh: Option<String>,
    pub c3: Option<String>,
    pub c5: Option<String>,
}

/// A weapon of the mappings file.
#[derive(Clone, Debug)]
pub struct WeaponEntry {
    pub id: String,
    pub zh: Option<String>,
}

/// An artifact set of the mappings file, with its highest rarity.
#[derive(Clone, Debug)]
pub struct ArtifactSetEntry {
    pub id: String,
    pub zh: Option<String>,
    pub rarity: Option<i32>,
}

/// The entries of the mappings file.
#[derive(Clone, Debug)]
pub struct MappingsFile {
    pub characters: Vec<CharacterEntry>,
    pub weapons: Vec<WeaponEntry>,
    pub artifact_sets: Vec<ArtifactSetEntry>,
}

/// All name maps.
pub struct MappingManager {
    /// Chinese character name -> GOOD character key.
    pub character_name_map: Vec<(String, String)>,
    /// GOOD character key -> constellation bonuses.
    pub character_const_bonus: Vec<(String, ConstBonus)>,
    /// Chinese weapon name -> GOOD weapon key.
    pub weapon_name_map: Vec<(String, String)>,
    /// Chinese set name -> GOOD set key.
    pub artifact_set_map: Vec<(String, String)>,
    /// GOOD set key -> highest rarity.
    pub artifact_set_max_rarity: Vec<(String, i32)>,
}

/// The key of the last of the first `n` characters named `k`.
pub open spec fn character_named(cs: Seq<CharacterEntry>, k: Seq<char>, n: int) -> Option<Seq<char>>
    decreases n,
{
    if n <= 0 {
        None
    } else if cs[n - 1].zh matches Some(z) && z@ == k {
        Some(cs[n - 1].id@)
    } else {
        character_named(cs, k, n - 1)
    }
}

/// The key of the last of the first `n` weapons named `k`.
pub open spec fn weapon_named(ws: Seq<WeaponEntry>, k: Seq<char>, n: int) -> Option<Seq<char>>
    decreases n,
{
    if n <= 0 {
        None
    } else if ws[n - 1].zh matches Some(z) && z@ == k {
        Some(ws[n - 1].id@)
    } else {
        weapon_named(ws, k, n - 1)
    }
}

/// The key of the last of the first `n` sets named `k`.
pub open spec fn set_named(ss: Seq<ArtifactSetEntry>, k: Seq<char>, n: int) -> Option<Seq<char>>
    decreases n,
{
    if n <= 0 {
        None
    } else if ss[n - 1].zh matches Some(z) && z@ == k {
        Some(ss[n - 1].id@)
    } else {
        set_named(ss, k, n - 1)
    }
}

/// The rarity of the last of the first `n` sets with key `k` and a rarity.
pub open spec fn set_rarity(ss: Seq<ArtifactSetEntry>, k: Seq<char>, n: int) -> Option<i32>
    decreases n,
{
    if n <= 0 {
        None
    } else if ss[n - 1].id@ == k && ss[n - 1].rarity is Some {
        ss[n - 1].rarity
    } else {
        set_rarity(ss, k, n - 1)
    }
}

/// The bonuses of the last of the first `n` characters with key `k` that
/// has any.
pub open spec fn bonus_entry(cs: Seq<CharacterEntry>, k: Seq<char>, n: int) -> Option<(Option<String>, Option<String>)>
    decreases n,
{
    if n <= 0 {
        None
    } else if cs[n - 1].id@ == k && (cs[n - 1].c3 is Some || cs[n - 1].c5 is Some) {
        Some((cs[n - 1].c3, cs[n - 1].c5))
    } else {
        bonus_entry(cs, k, n - 1)
    }
}

/// The bonus map agrees with the first `n` characters on the key `k`.
pub open spec fn bonus_agrees(
    m: Seq<(String, ConstBonus)>,
    cs: Seq<CharacterEntry>,
    k: Seq<char>,
    n: int,
) -> bool {
    match bonus_entry(cs, k, n) {
        Some((c3, c5)) => lookup(m, k) matches Some(b) && b.c3 == c3 && b.c5 == c5,
        None => lookup(m, k) is None,
    }
}

/// A renamed character: the trimmed name, when not blank, stands for the
/// character `id`.
pub open spec fn override_names(name: Option<String>, id: Seq<char>, k: Seq<char>) -> bool {
    name matches Some(n) && trim_seq(n@).len() > 0 && trim_seq(n@) == k
}

/// The character key the name `k` stands for: the renamed characters come
/// last and win (Manekina, Manekin, Wanderer, Traveler, in that order of
/// precedence), then the last character of the file with that name.
pub open spec fn character_key(data: MappingsFile, ov: NameOverrides, k: Seq<char>) -> Option<Seq<char>> {
    if override_names(ov.manekina_name, "Manekina"@, k) {
        Some("Manekina"@)
    } else if override_names(ov.manekin_name, "Manekin"@, k) {
        Some("Manekin"@)
    } else if override_names(ov.wanderer_name, "Wanderer"@, k) {
        Some("Wanderer"@)
    } else if override_names(ov.traveler_name, "Traveler"@, k) {
        Some("Traveler"@)
    } else {
        character_named(data.characters@, k, data.characters@.len() as int)
    }
}

fn clone_opt(o: &Option<String>) -> (r: Option<String>)
    ensures
        r == *o,
{
    match o {
        Some(s) => Some(s.clone()),
        None => None,
    }
}

fn apply_override(m: &mut Vec<(String, String)>, name: &Option<String>, id: &str)
    ensures
        forall|k: Seq<char>|
            lookup_text(final(m)@, k) == if override_names(*name, id@, k) {
                Some(id@)
            } else {
                lookup_text(old(m)@, k)
            },
{
    match name {
        Some(n) => {
            let t = trim_str(n.as_str());
            if t.as_str().unicode_len() > 0 {
                map_insert_text(m, t, String::from_str(id));
            }
        },
        None => {},
    }
}

impl MappingManager {
    /// Build the maps from the entries of the mappings file and the user's
    /// renamed characters. Where a name (or key) occurs twice, the later
    /// entry wins; renamed characters win over the file.
    pub fn new(data: &MappingsFile, overrides: &NameOverrides) -> (r: Self)
        ensures
            forall|k: Seq<char>|
                lookup_text(#[trigger] r.character_name_map@, k) == character_key(*data, *overrides, k),
            forall|k: Seq<char>|
                lookup_text(#[trigger] r.weapon_name_map@, k) == weapon_named(
                    data.weapons@,
                    k,
                    data.weapons@.len() as int,
                ),
            forall|k: Seq<char>|
                lookup_text(#[trigger] r.artifact_set_map@, k) == set_named(
                    data.artifact_sets@,
                    k,
                    data.artifact_sets@.len() as int,
                ),
            forall|k: Seq<char>|
                lookup(#[trigger] r.artifact_set_max_rarity@, k) == set_rarity(
                    data.artifact_sets@,
                    k,
                    data.artifact_sets@.len() as int,
                ),
            forall|k: Seq<char>|
                #[trigger] bonus_agrees(
                    r.character_const_bonus@,
                    data.characters@,
                    k,
                    data.characters@.len() as int,
                ),
    {
        let mut names: Vec<(String, String)> = Vec::new();
        let mut bonus: Vec<(String, ConstBonus)> = Vec::new();
        let cs = &data.characters;
        let mut i: usize = 0;
        while i < cs.len()
            invariant
                i <= cs@.len(),
                cs == &data.characters,
                forall|k: Seq<char>| lookup_text(names@, k) == character_named(cs@, k, i as int),
                forall|k: Seq<char>| #[trigger] bonus_agrees(bonus@, cs@, k, i as int),
            decreases cs.len() - i,
        {
            let e = &cs[i];
            match &e.zh {
                Some(z) => map_insert_text(&mut names, z.clone(), e.id.clone()),
                None => {},
            }
            let ghost before = bonus@;
            if e.c3.is_some() || e.c5.is_some() {
                map_insert(
                    &mut bonus,
                    e.id.clone(),
                    ConstBonus { c3: clone_opt(&e.c3), c5: clone_opt(&e.c5) },
                );
            }
            assert forall|k: Seq<char>| #[trigger] bonus_agrees(bonus@, cs@, k, i + 1) by {
                assert(bonus_agrees(before, cs@, k, i as int));
            }
            i += 1;
        }
        apply_override(&mut names, &overrides.traveler_name, "Traveler");
        apply_override(&mut names, &overrides.wanderer_name, "Wanderer");
        apply_override(&mut names, &overrides.manekin_name, "Manekin");
        apply_override(&mut names, &overrides.manekina_name, "Manekina");
        let mut weapons: Vec<(String, String)> = Vec::new();
        let ws = &data.weapons;
        let mut j: usize = 0;
        while j < ws.len()
            invariant
                j <= ws@.len(),
                ws == &data.weapons,
                forall|k: Seq<char>| lookup_text(weapons@, k) == weapon_named(ws@, k, j as int),
            decreases ws.len() - j,
        {
            match &ws[j].zh {
                Some(z) => map_insert_text(&mut weapons, z.clone(), ws[j].id.clone()),
                None => {},
            }
            j += 1;
        }
        let mut sets: Vec<(String, String)> = Vec::new();
        let mut rarity: Vec<(String, i32)> = Vec::new();
        let ss = &data.artifact_sets;
        let mut s: usize = 0;
        while s < ss.len()
            invariant
                s <= ss@.len(),
                ss == &data.artifact_sets,
                forall|k: Seq<char>| lookup_text(sets@, k) == set_named(ss@, k, s as int),
                forall|k: Seq<char>| lookup(rarity@, k) == set_rarity(ss@, k, s as int),
            decreases ss.len() - s,
        {
            match &ss[s].zh {
                Some(z) => map_insert_text(&mut sets, z.clone(), ss[s].id.clone()),
                None => {},
            }
            match ss[s].rarity {
                Some(r) => map_insert(&mut rarity, ss[s].id.clone(), r),
                None => {},
            }
            s += 1;
        }
        MappingManager {
            character_name_map: names,
            character_const_bonus: bonus,
            weapon_name_map: weapons,
            artifact_set_map: sets,
            artifact_set_max_rarity: rarity,
        }
    }
}

} // verus!
