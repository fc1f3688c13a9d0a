//! Finding the races: which race directories are shown and in which order,
//! which data directory is used, which race the command line asks for, and
//! the per-race elevation exaggeration settings.
use vstd::prelude::*;

verus! {

broadcast use vstd::string::group_string_axioms;

/// Strict lexicographic order on byte strings: a proper prefix comes first.
pub open spec fn lex_lt(a: Seq<u8>, b: Seq<u8>) -> bool
    decreases a.len(),
{
    if a.len() == 0 {
        b.len() > 0
    } else if b.len() == 0 {
        false
    } else if a[0] < b[0] {
        true
    } else if a[0] > b[0] {
        false
    } else {
        lex_lt(a.drop_first(), b.drop_first())
    }
}

proof fn lemma_lex_irreflexive(a: Seq<u8>)
    ensures
        !lex_lt(a, a),
    decreases a.len(),
{
    if a.len() > 0 {
        lemma_lex_irreflexive(a.drop_first());
    }
}

proof fn lemma_lex_total(a: Seq<u8>, b: Seq<u8>)
    ensures
        a == b || lex_lt(a, b) || lex_lt(b, a),
    decreases a.len(),
{
    if a.len() > 0 && b.len() > 0 && a[0] == b[0] {
        lemma_lex_total(a.drop_first(), b.drop_first());
        if a.drop_first() == b.drop_first() {
            assert(a =~= seq![a[0]] + a.drop_first());
            assert(b =~= seq![b[0]] + b.drop_first());
        }
    } else if a.len() == 0 && b.len() == 0 {
        assert(a =~= b);
    }
}

proof fn lemma_lex_transitive(a: Seq<u8>, b: Seq<u8>, c: Seq<u8>)
    requires
        lex_lt(a, b),
        lex_lt(b, c),
    ensures
        lex_lt(a, c),
    decreases a.len(),
{
    if a.len() > 0 && b.len() > 0 && c.len() > 0 && a[0] == b[0] && b[0] == c[0] {
        lemma_lex_transitive(a.drop_first(), b.drop_first(), c.drop_first());
    }
}

/// Whether `a` orders strictly before `b`, from the bytes of its file name.
pub fn bytes_lt(a: &Vec<u8>, b: &Vec<u8>) -> (r: bool)
    ensures
        r == lex_lt(a@, b@),
{
    let mut i: usize = 0;
    assert(a@.skip(0) =~= a@);
    assert(b@.skip(0) =~= b@);
    while i < a.len() && i < b.len()
        invariant
            i <= a@.len(),
            i <= b@.len(),
            lex_lt(a@, b@) == lex_lt(a@.skip(i as int), b@.skip(i as int)),
        decreases a@.len() - i,
    {
        if a[i] < b[i] {
            return true;
        }
        if a[i] > b[i] {
            return false;
        }
        assert(a@.skip(i as int).drop_first() =~= a@.skip(i + 1));
        assert(b@.skip(i as int).drop_first() =~= b@.skip(i + 1));
        i += 1;
    }
    i == a.len() && i < b.len()
}

/// Whether entry `i` orders strictly before entry `j`: by name, then by
/// position among the entries.
pub open spec fn entry_before(names: Seq<Seq<u8>>, i: int, j: int) -> bool {
    lex_lt(names[i], names[j]) || (names[i] == names[j] && i < j)
}

/// The entries of a directory listing that hold a race, in the order in
/// which they are shown: `usable[i]` says whether entry `i` is a directory
/// that holds the metadata, profile and country map files and whose metadata
/// parses. The result lists every usable entry once, no other, sorted by name.
pub fn order_race_dirs(names: &Vec<Vec<u8>>, usable: &Vec<bool>) -> (order: Vec<usize>)
    requires
        names@.len() == usable@.len(),
    ensures
        forall|k: int| 0 <= k < order@.len() ==> #[trigger] order@[k] < names@.len() && usable@[order@[k] as int],
        forall|i: int| 0 <= i < names@.len() && usable@[i] ==> order@.contains(i as usize),
        forall|k: int, l: int| 0 <= k < l < order@.len() ==> #[trigger] order@[k] != #[trigger] order@[l],
        forall|k: int, l: int|
            0 <= k < l < order@.len() ==> entry_before(
                names@.map_values(|v: Vec<u8>| v@),
                #[trigger] order@[k] as int,
                #[trigger] order@[l] as int,
            ),
{
    let ghost nm = names@.map_values(|v: Vec<u8>| v@);
    let n = names.len();
    let mut order: Vec<usize> = Vec::new();
    let mut i: usize = 0;
    while i < n
        invariant
            n == names@.len(),
            n == usable@.len(),
            nm == names@.map_values(|v: Vec<u8>| v@),
            i <= n,
            forall|k: int| 0 <= k < order@.len() ==> #[trigger] order@[k] < i && usable@[order@[k] as int],
            forall|j: int| 0 <= j < i && usable@[j] ==> order@.contains(j as usize),
            forall|k: int, l: int|
                0 <= k < l < order@.len() ==> entry_before(nm, #[trigger] order@[k] as int, #[trigger] order@[l] as int),
        decreases n - i,
    {
        if usable[i] {
            let mut p: usize = 0;
            while p < order.len() && !bytes_lt(&names[i], &names[order[p]])
                invariant
                    n == names@.len(),
                    nm == names@.map_values(|v: Vec<u8>| v@),
                    i < n,
                    p <= order@.len(),
                    forall|k: int| 0 <= k < order@.len() ==> #[trigger] order@[k] < i,
                    forall|k: int| 0 <= k < p ==> entry_before(nm, #[trigger] order@[k] as int, i as int),
                decreases order@.len() - p,
            {
                proof {
                    let j = order@[p as int] as int;
                    assert(nm[i as int] == names@[i as int]@);
                    assert(nm[j] == names@[j]@);
                    lemma_lex_total(nm[j], nm[i as int]);
                }
                p += 1;
            }
            proof {
                if p < order@.len() {
                    assert(nm[i as int] == names@[i as int]@);
                    assert(nm[order@[p as int] as int] == names@[order@[p as int] as int]@);
                    assert(entry_before(nm, i as int, order@[p as int] as int));
                }
            }
            let ghost before = order@;
            order.insert(p, i);
            proof {
                assert forall|k: int, l: int|
                    0 <= k < l < order@.len() implies entry_before(
                    nm,
                    #[trigger] order@[k] as int,
                    #[trigger] order@[l] as int,
                ) by {
                    if l < p {
                        assert(order@[k] == before[k] && order@[l] == before[l]);
                    } else if l == p {
                        assert(order@[k] == before[k]);
                    } else if k == p {
                        assert(order@[l] == before[l - 1]);
                        if l - 1 > p {
                            let m = before[p as int] as int;
                            let x = before[l - 1] as int;
                            assert(entry_before(nm, i as int, m));
                            assert(entry_before(nm, m, x));
                            if lex_lt(nm[i as int], nm[m]) && lex_lt(nm[m], nm[x]) {
                                lemma_lex_transitive(nm[i as int], nm[m], nm[x]);
                            }
                        }
                    } else if k < p {
                        assert(order@[k] == before[k] && order@[l] == before[l - 1]);
                    } else {
                        assert(order@[k] == before[k - 1] && order@[l] == before[l - 1]);
                    }
                }
                assert forall|j: int| 0 <= j < i + 1 && usable@[j] implies order@.contains(j as usize) by {
                    if j == i {
                        assert(order@[p as int] == i);
                    } else {
                        let k = choose|k: int| 0 <= k < before.len() && before[k] == j as usize;
                        if k < p {
                            assert(order@[k] == j as usize);
                        } else {
                            assert(order@[k + 1] == j as usize);
                        }
                    }
                }
                assert forall|k: int| 0 <= k < order@.len() implies #[trigger] order@[k] < i + 1
                    && usable@[order@[k] as int] by {
                    if k < p {
                        assert(order@[k] == before[k]);
                    } else if k > p {
                        assert(order@[k] == before[k - 1]);
                    }
                }
            }
        }
        i += 1;
    }
    proof {
        assert forall|k: int, l: int| 0 <= k < l < order@.len() implies #[trigger] order@[k]
            != #[trigger] order@[l] by {
            lemma_lex_irreflexive(nm[order@[k] as int]);
        }
    }
    order
}

/// The data directory to use among the candidates, in order of preference:
/// the first one that holds a race directory, or else the first candidate.
pub fn pick_data_dir(has_races: &Vec<bool>) -> (idx: usize)
    ensures
        (exists|i: int| 0 <= i < has_races@.len() && has_races@[i]) ==> has_races@[idx as int] && forall|j: int|
            0 <= j < idx ==> !#[trigger] has_races@[j],
        (forall|i: int| 0 <= i < has_races@.len() ==> !#[trigger] has_races@[i]) ==> idx == 0,
{
    let mut i: usize = 0;
    while i < has_races.len()
        invariant
            i <= has_races@.len(),
            forall|j: int| 0 <= j < i ==> !#[trigger] has_races@[j],
        decreases has_races@.len() - i,
    {
        if has_races[i] {
            return i;
        }
        i += 1;
    }
    0
}

/// The position in `args` of the race asked for on the command line: the
/// argument that follows the first `--race` which has a successor.
pub fn race_argument(args: &Vec<String>) -> (pos: Option<usize>)
    ensures
        match pos {
            Some(p) => 1 <= p < args@.len() && args@[p - 1]@ == "--race"@ && forall|j: int|
                0 <= j < p - 1 ==> (#[trigger] args@[j])@ != "--race"@,
            None => forall|j: int| 0 <= j < args@.len() - 1 ==> (#[trigger] args@[j])@ != "--race"@,
        },
{
    let flag = "--race".to_string();
    let mut i: usize = 0;
    while args.len() > 1 && i < args.len() - 1
        invariant
            flag@ == "--race"@,
            i + 1 <= args@.len() || i == 0,
            forall|j: int| 0 <= j < i ==> (#[trigger] args@[j])@ != "--race"@,
        decreases args@.len() - i,
    {
        if args[i] == flag {
            return Some(i + 1);
        }
        i += 1;
    }
    None
}

/// The race to start with and whether to start in the menu: the race whose
/// identifier was asked for, shown directly; otherwise the first race, in the menu.
pub fn initial_race(ids: &Vec<String>, requested: Option<&String>) -> (r: (usize, bool))
    ensures
        requested is None ==> r == (0usize, true),
        requested matches Some(id) ==> ((exists|i: int| 0 <= i < ids@.len() && (#[trigger] ids@[i])@ == id@)
            ==> r.0 < ids@.len() && ids@[r.0 as int]@ == id@ && !r.1),
        requested matches Some(id) ==> forall|j: int| 0 <= j < r.0 ==> (#[trigger] ids@[j])@ != id@,
        requested matches Some(id) ==> (!(exists|i: int| 0 <= i < ids@.len() && (#[trigger] ids@[i])@ == id@)
            ==> r == (0usize, true)),
{
    match requested {
        None => (0, true),
        Some(id) => {
            let mut i: usize = 0;
            while i < ids.len()
                invariant
                    requested == Some(id),
                    i <= ids@.len(),
                    forall|j: int| 0 <= j < i ==> (#[trigger] ids@[j])@ != id@,
                decreases ids@.len() - i,
            {
                if ids[i] == *id {
                    assert(ids@[i as int]@ == id@);
                    assert(exists|k: int| 0 <= k < ids@.len() && (#[trigger] ids@[k])@ == id@);
                    return (i, false);
                }
                i += 1;
            }
            (0, true)
        },
    }
}

/// Bit pattern of the single-precision value 1.0, the exaggeration of a race
/// that has none stored.
pub const UNIT_EXAGGERATION: u32 = 0x3F80_0000;

/// The elevation exaggeration of a race in the 2D profile and in the 3D
/// trace, as bit patterns of single-precision values.
#[derive(Clone, Copy, PartialEq, Eq, Structural, Debug)]
pub struct RaceExaggeration {
    pub exaggeration_2d: u32,
    pub exaggeration_3d: u32,
}

impl Default for RaceExaggeration {
    /// No exaggeration: 1.0 in both views.
    fn default() -> (r: RaceExaggeration)
        ensures
            r.exaggeration_2d == UNIT_EXAGGERATION,
            r.exaggeration_3d == UNIT_EXAGGERATION,
    {
        RaceExaggeration { exaggeration_2d: UNIT_EXAGGERATION, exaggeration_3d: UNIT_EXAGGERATION }
    }
}

/// The exaggeration of a race that has none stored.
pub open spec fn unit_exaggeration() -> RaceExaggeration {
    RaceExaggeration { exaggeration_2d: UNIT_EXAGGERATION, exaggeration_3d: UNIT_EXAGGERATION }
}

/// The exaggeration stored for each race, keyed by race identifier.
pub struct ExaggerationTable {
    pub entries: Vec<(String, RaceExaggeration)>,
}

impl ExaggerationTable {
    /// No identifier occurs twice.
    pub open spec fn wf(self) -> bool {
        forall|i: int, j: int|
            0 <= i < j < self.entries@.len() ==> (#[trigger] self.entries@[i]).0@ != (
            #[trigger] self.entries@[j]).0@
    }

    /// The exaggeration stored for race `id`, or none (1.0 in both views).
    pub open spec fn lookup(self, id: Seq<char>) -> RaceExaggeration {
        if exists|i: int| 0 <= i < self.entries@.len() && (#[trigger] self.entries@[i]).0@ == id {
            let i = choose|i: int| 0 <= i < self.entries@.len() && (#[trigger] self.entries@[i]).0@ == id;
            self.entries@[i].1
        } else {
            unit_exaggeration()
        }
    }

    /// An empty table.
    pub fn new() -> (t: ExaggerationTable)
        ensures
            t.wf(),
            t.entries@.len() == 0,
            forall|id: Seq<char>| #[trigger] t.lookup(id) == unit_exaggeration(),
    {
        ExaggerationTable { entries: Vec::new() }
    }

    fn find(&self, id: &String) -> (r: Option<usize>)
        ensures
            match r {
                Some(i) => i < self.entries@.len() && self.entries@[i as int].0@ == id@,
                None => forall|i: int| 0 <= i < self.entries@.len() ==> (#[trigger] self.entries@[i]).0@ != id@,
            },
    {
        let mut i: usize = 0;
        while i < self.entries.len()
            invariant
                i <= self.entries@.len(),
                forall|j: int| 0 <= j < i ==> (#[trigger] self.entries@[j]).0@ != id@,
            decreases self.entries@.len() - i,
        {
            if self.entries[i].0 == *id {
                return Some(i);
            }
            i += 1;
        }
        None
    }

    /// The exaggeration of race `id`: the one stored, or none (1.0 in both views).
    pub fn get(&self, id: &String) -> (r: RaceExaggeration)
        requires
            self.wf(),
        ensures
            r == self.lookup(id@),
    {
        match self.find(id) {
            Some(i) => {
                proof {
                    let j = choose|j: int| 0 <= j < self.entries@.len() && (#[trigger] self.entries@[j]).0@ == id@;
                    assert(j == i as int);
                }
                self.entries[i].1
            },
            None => RaceExaggeration::default(),
        }
    }

    /// Stores the exaggeration of race `id`, replacing the one stored before:
    /// reading it back gives `ex`, and every other race keeps its own.
    pub fn set(&mut self, id: &String, ex: RaceExaggeration)
        requires
            old(self).wf(),
        ensures
            final(self).wf(),
            final(self).lookup(id@) == ex,
            forall|other: Seq<char>| other != id@ ==> #[trigger] final(self).lookup(other) == old(self).lookup(other),
    {
        let ghost before = self.entries@;
        match self.find(id) {
            Some(i) => {
                let key = self.entries[i].0.clone();
                self.entries.set(i, (key, ex));
                proof {
                    assert forall|other: Seq<char>| other != id@ implies #[trigger] self.lookup(other)
                        == old(self).lookup(other) by {
                        if exists|k: int| 0 <= k < before.len() && (#[trigger] before[k]).0@ == other {
                            let k = choose|k: int| 0 <= k < before.len() && (#[trigger] before[k]).0@ == other;
                            assert(self.entries@[k] == before[k]);
                        }
                        if exists|k: int| 0 <= k < self.entries@.len() && (#[trigger] self.entries@[k]).0@ == other {
                            let k = choose|k: int| 0 <= k < self.entries@.len() && (#[trigger] self.entries@[k]).0@ == other;
                            assert(self.entries@[k] == before[k]);
                        }
                    }
                    assert(self.entries@[i as int].0@ == id@);
                }
            },
            None => {
                let key = id.clone();
                self.entries.push((key, ex));
                proof {
                    let last = self.entries@.len() - 1;
                    assert(self.entries@[last].0@ == id@);
                    assert forall|other: Seq<char>| other != id@ implies #[trigger] self.lookup(other)
                        == old(self).lookup(other) by {
                        if exists|k: int| 0 <= k < before.len() && (#[trigger] before[k]).0@ == other {
                            let k = choose|k: int| 0 <= k < before.len() && (#[trigger] before[k]).0@ == other;
                            assert(self.entries@[k] == before[k]);
                        }
                        if exists|k: int| 0 <= k < self.entries@.len() && (#[trigger] self.entries@[k]).0@ == other {
                            let k = choose|k: int| 0 <= k < self.entries@.len() && (#[trigger] self.entries@[k]).0@ == other;
                            assert(k != last);
                            assert(self.entries@[k] == before[k]);
                        }
                    }
                }
            },
        }
    }
}

/// The stored settings of the application.
pub struct Settings {
    pub use_metallic: bool,
    pub use_neon_green: bool,
    pub show_shadows: bool,
    pub use_brushed: bool,
    /// Half-width of the normal smoothing window in metallic rendering.
    pub metallic_smoothing: u32,
    pub white_sky: bool,
    pub races: ExaggerationTable,
}

impl Default for Settings {
    /// The settings of a first start: neon green, shadows and brushed effect
    /// on, metallic rendering and white sky off, a smoothing of 30, no race
    /// exaggeration stored.
    fn default() -> (s: Settings)
        ensures
            !s.use_metallic,
            s.use_neon_green,
            s.show_shadows,
            s.use_brushed,
            s.metallic_smoothing == 30,
            !s.white_sky,
            s.races.wf(),
            s.races.entries@.len() == 0,
    {
        Settings {
            use_metallic: false,
            use_neon_green: true,
            show_shadows: true,
            use_brushed: true,
            metallic_smoothing: 30,
            white_sky: false,
            races: ExaggerationTable::new(),
        }
    }
}

} // verus!
