//! The build plan: an ordered list of Dockerfile stages plus runtime settings.
use vstd::prelude::*;
use crate::text::{before, chars_of, eq_str, lemma_before_asymmetric, lemma_before_total, lemma_before_transitive, precedes, same, views};

verus! {

/// Environment variables, kept sorted by name with each name present once, so
/// they render in a stable order.
#[derive(Debug)]
pub struct EnvMap {
    entries: Vec<(String, String)>,
}

/// Entries in strictly increasing name order.
pub open spec fn sorted_entries(e: Seq<(Seq<char>, Seq<char>)>) -> bool {
    forall|i: int, j: int| 0 <= i < j < e.len() ==> before(#[trigger] e[i].0, #[trigger] e[j].0)
}

/// The value bound to `key`, if any.
pub open spec fn lookup(e: Seq<(Seq<char>, Seq<char>)>, key: Seq<char>) -> Option<Seq<char>>
    decreases e.len(),
{
    if e.len() == 0 {
        None
    } else if e[0].0 == key {
        Some(e[0].1)
    } else {
        lookup(e.drop_first(), key)
    }
}

/// `lookup` finds the first entry bound to `key`, and nothing when there is none.
pub proof fn lemma_lookup_first(e: Seq<(Seq<char>, Seq<char>)>, key: Seq<char>)
    ensures
        forall|j: int|
            0 <= j < e.len() && e[j].0 == key && (forall|k: int| 0 <= k < j ==> e[k].0 != key)
                ==> lookup(e, key) == Some(e[j].1),
        (forall|j: int| 0 <= j < e.len() ==> e[j].0 != key) ==> lookup(e, key) is None,
        lookup(e, key) is Some ==> exists|j: int| 0 <= j < e.len() && e[j].0 == key,
    decreases e.len(),
{
    if e.len() > 0 {
        let d = e.drop_first();
        lemma_lookup_first(d, key);
        assert forall|j: int|
            0 <= j < e.len() && e[j].0 == key && (forall|k: int| 0 <= k < j ==> e[k].0 != key)
            implies lookup(e, key) == Some(e[j].1) by {
            if j > 0 {
                assert(e[0].0 != key);
                assert(d[j - 1].0 == key);
                assert forall|k: int| 0 <= k < j - 1 implies d[k].0 != key by {
                    assert(e[k + 1].0 != key);
                }
            }
        }
        if (forall|j: int| 0 <= j < e.len() ==> e[j].0 != key) {
            assert(e[0].0 != key);
            assert forall|j: int| 0 <= j < d.len() implies d[j].0 != key by {
                assert(e[j + 1].0 != key);
            }
        }
        if lookup(e, key) is Some && e[0].0 != key {
            let j = choose|j: int| 0 <= j < d.len() && d[j].0 == key;
            assert(e[j + 1].0 == key);
        }
    }
}

/// The map an entry sequence stands for.
pub open spec fn as_map(e: Seq<(Seq<char>, Seq<char>)>) -> Map<Seq<char>, Seq<char>> {
    Map::new(|k: Seq<char>| lookup(e, k) is Some, |k: Seq<char>| lookup(e, k)->0)
}

impl View for EnvMap {
    type V = Seq<(Seq<char>, Seq<char>)>;

    closed spec fn view(&self) -> Seq<(Seq<char>, Seq<char>)> {
        self.entries@.map_values(|p: (String, String)| (p.0@, p.1@))
    }
}

impl EnvMap {
    #[verifier::type_invariant]
    spec fn sorted(&self) -> bool {
        sorted_entries(self@)
    }

    /// An empty map.
    pub fn new() -> (m: EnvMap)
        ensures
            m@ == Seq::<(Seq<char>, Seq<char>)>::empty(),
    {
        let m = EnvMap { entries: Vec::new() };
        assert(m@ =~= Seq::<(Seq<char>, Seq<char>)>::empty());
        m
    }

    pub fn len(&self) -> (n: usize)
        ensures
            n == self@.len(),
    {
        self.entries.len()
    }

    pub fn is_empty(&self) -> (b: bool)
        ensures
            b == (self@.len() == 0),
    {
        self.entries.len() == 0
    }

    /// The entries, in increasing name order.
    pub fn entries(&self) -> (e: &Vec<(String, String)>)
        ensures
            e@.map_values(|p: (String, String)| (p.0@, p.1@)) == self@,
            sorted_entries(self@),
    {
        proof {
            use_type_invariant(self);
        }
        &self.entries
    }

    /// The value bound to `key`.
    pub fn get(&self, key: &str) -> (r: Option<&String>)
        ensures
            r is Some <==> lookup(self@, key@) is Some,
            r matches Some(v) ==> v@ == lookup(self@, key@)->0,
    {
        proof {
            use_type_invariant(self);
        }
        let k = chars_of(key);
        let mut i: usize = 0;
        while i < self.entries.len()
            invariant
                i <= self@.len(),
                k@ == key@,
                sorted_entries(self@),
                self@.len() == self.entries@.len(),
                forall|j: int| 0 <= j < i ==> self@[j].0 != key@,
            decreases self@.len() - i,
        {
            let name = chars_of(self.entries[i].0.as_str());
            if same(&name, &k) {
                proof {
                    assert(self@[i as int].0 == key@);
                    lemma_lookup_first(self@, key@);
                }
                return Some(&self.entries[i].1);
            }
            i = i + 1;
        }
        proof {
            lemma_lookup_first(self@, key@);
        }
        None
    }

    /// A copy of the map.
    pub fn duplicate(&self) -> (m: EnvMap)
        ensures
            m@ == self@,
    {
        proof {
            use_type_invariant(self);
        }
        let mut entries: Vec<(String, String)> = Vec::new();
        let mut i: usize = 0;
        while i < self.entries.len()
            invariant
                i <= self.entries@.len(),
                entries@.map_values(|p: (String, String)| (p.0@, p.1@)) == self@.take(i as int),
                self@.len() == self.entries@.len(),
            decreases self.entries@.len() - i,
        {
            let k = self.entries[i].0.clone();
            let v = self.entries[i].1.clone();
            assert(k@ == self.entries@[i as int].0@);
            assert(v@ == self.entries@[i as int].1@);
            proof {
                assert(self@[i as int] == (self.entries@[i as int].0@, self.entries@[i as int].1@));
            }
            let ghost before = entries@;
            entries.push((k, v));
            proof {
                assert(entries@ == before.push((k, v)));
                assert(entries@.map_values(|p: (String, String)| (p.0@, p.1@)) =~= before.map_values(
                    |p: (String, String)| (p.0@, p.1@),
                ).push((k@, v@)));
                assert(entries@.map_values(|p: (String, String)| (p.0@, p.1@)) =~= self@.take(
                    i + 1,
                ));
            }
            i = i + 1;
        }
        assert(self@.take(self@.len() as int) =~= self@);
        EnvMap { entries }
    }

    /// Bind `key` to `value`, replacing an earlier binding of `key`.
    pub fn insert(&mut self, key: String, value: String)
        ensures
            as_map(final(self)@) == as_map(old(self)@).insert(key@, value@),
    {
        proof {
            use_type_invariant(&*self);
        }
        let k = chars_of(key.as_str());
        let ghost old_e = self@;
        let mut i: usize = 0;
        while i < self.entries.len()
            invariant
                i <= old_e.len(),
                k@ == key@,
                self@ == old_e,
                sorted_entries(old_e),
                forall|j: int| 0 <= j < i ==> before(old_e[j].0, key@),
            ensures
                i <= old_e.len(),
                self@ == old_e,
                forall|j: int| 0 <= j < i ==> before(old_e[j].0, key@),
                i < old_e.len() ==> !before(old_e[i as int].0, key@),
            decreases old_e.len() - i,
        {
            let name = chars_of(self.entries[i].0.as_str());
            if !precedes(&name, &k) {
                break;
            }
            i = i + 1;
        }
        let replace = i < self.entries.len() && same(&chars_of(self.entries[i].0.as_str()), &k);
        proof {
            if i < old_e.len() && !replace {
                lemma_before_total(old_e[i as int].0, key@);
                assert(before(key@, old_e[i as int].0));
            }
        }
        let mut v: Vec<(String, String)> = Vec::new();
        std::mem::swap(&mut v, &mut self.entries);
        if replace {
            v.remove(i);
        }
        v.insert(i, (key, value));
        let ghost e = v@.map_values(|p: (String, String)| (p.0@, p.1@));
        proof {
            if replace {
                assert(e =~= old_e.update(i as int, (key@, value@)));
                assert(forall|x: int| 0 <= x < e.len() ==> #[trigger] e[x].0 == old_e[x].0);
            } else {
                assert(e =~= old_e.insert(i as int, (key@, value@)));
            }
            assert forall|a: int, b: int| 0 <= a < b < e.len() implies before(
                #[trigger] e[a].0,
                #[trigger] e[b].0,
            ) by {
                if replace {
                    assert(e[a].0 == old_e[a].0);
                    assert(e[b].0 == old_e[b].0);
                } else {
                    if b < i {
                        assert(e[a].0 == old_e[a].0 && e[b].0 == old_e[b].0);
                    } else if b == i {
                        assert(e[a].0 == old_e[a].0);
                    } else if a < i {
                        assert(e[a].0 == old_e[a].0 && e[b].0 == old_e[b - 1].0);
                        assert(before(old_e[a].0, old_e[b - 1].0));
                    } else if a == i {
                        assert(e[b].0 == old_e[b - 1].0);
                        if b - 1 > i {
                            assert(before(old_e[i as int].0, old_e[b - 1].0));
                            lemma_before_transitive(key@, old_e[i as int].0, old_e[b - 1].0);
                        }
                    } else {
                        assert(e[a].0 == old_e[a - 1].0 && e[b].0 == old_e[b - 1].0);
                        assert(before(old_e[a - 1].0, old_e[b - 1].0));
                    }
                }
            }
            assert(sorted_entries(e));
            assert forall|q: Seq<char>| #[trigger] lookup(e, q) == if q == key@ {
                Some(value@)
            } else {
                lookup(old_e, q)
            } by {
                lemma_lookup_sorted(e, q);
                lemma_lookup_sorted(old_e, q);
                if q == key@ {
                    assert(e[i as int].0 == q);
                } else if lookup(old_e, q) is Some {
                    let j = choose|j: int| 0 <= j < old_e.len() && old_e[j].0 == q;
                    if replace || j < i {
                        assert(j != i || !replace);
                        assert(e[j].0 == q && e[j].1 == old_e[j].1);
                    } else {
                        assert(e[j + 1].0 == q && e[j + 1].1 == old_e[j].1);
                    }
                } else {
                    assert forall|j: int| 0 <= j < e.len() implies e[j].0 != q by {
                        if j == i {
                        } else if replace || j < i {
                            assert(e[j].0 == old_e[j].0);
                        } else {
                            assert(e[j].0 == old_e[j - 1].0);
                        }
                    }
                }
            }
            assert(as_map(e) =~= as_map(old_e).insert(key@, value@));
        }
        self.entries = v;
    }
}

/// In a sorted sequence a name occurs at most once, so `lookup` returns the
/// value at the one index holding it.
pub proof fn lemma_lookup_sorted(e: Seq<(Seq<char>, Seq<char>)>, key: Seq<char>)
    requires
        sorted_entries(e),
    ensures
        forall|j: int| 0 <= j < e.len() && e[j].0 == key ==> lookup(e, key) == Some(e[j].1),
        lookup(e, key) is None <==> forall|j: int| 0 <= j < e.len() ==> e[j].0 != key,
{
    lemma_lookup_first(e, key);
    assert forall|j: int| 0 <= j < e.len() && e[j].0 == key implies lookup(e, key) == Some(
        e[j].1,
    ) by {
        assert forall|k: int| 0 <= k < j implies e[k].0 != key by {
            assert(before(e[k].0, e[j].0));
            lemma_before_asymmetric(e[k].0, e[j].0);
        }
    }
}

} // verus!

verus! {

/// A RUN command with optional cache mounts.
#[derive(Debug)]
pub struct Command {
    /// Shell command to execute
    pub run: String,
    /// Cache mount paths (`BuildKit` `RUN --mount=type=cache`)
    pub cache_mounts: Vec<String>,
}

/// Copy files from the build context.
#[derive(Debug)]
pub struct CopyDirective {
    /// Source path (relative to build context)
    pub src: String,
    /// Destination path inside the container
    pub dest: String,
}

/// Copy files from a previous build stage.
#[derive(Debug)]
pub struct CopyFrom {
    /// Stage name to copy from
    pub stage: String,
    /// Source path in the other stage
    pub src: String,
    /// Destination path in this stage
    pub dest: String,
}

/// A single Dockerfile stage.
#[derive(Debug)]
pub struct Stage {
    /// Stage name (e.g. "deps", "build", "runtime")
    pub name: String,
    /// Base image for this stage
    pub base_image: String,
    /// Working directory inside the container
    pub workdir: String,
    /// Commands to run
    pub commands: Vec<Command>,
    /// Files to copy from the build context
    pub copy_files: Vec<CopyDirective>,
    /// Files to copy from another stage
    pub copy_from: Vec<CopyFrom>,
}

/// A complete build plan for a detected project.
#[derive(Debug)]
pub struct BuildPlan {
    /// Provider that generated this plan
    pub provider: String,
    /// Build stages (multi-stage Dockerfile)
    pub stages: Vec<Stage>,
    /// Detected or inferred start command
    pub start_command: Option<String>,
    /// Detected or inferred port
    pub port: Option<u16>,
    /// Environment variables to set in the runtime image (from config).
    pub env: EnvMap,
    /// Environment variables set in the build stage (from config).
    pub build_env: EnvMap,
    /// Directories to prepend to `PATH` in the runtime image (from config).
    pub paths: Vec<String>,
    /// `BuildKit` secret ids mounted on build-stage commands (from config).
    pub secrets: Vec<String>,
}

pub struct CommandView {
    pub run: Seq<char>,
    pub cache_mounts: Seq<Seq<char>>,
}

pub struct CopyView {
    pub src: Seq<char>,
    pub dest: Seq<char>,
}

pub struct CopyFromView {
    pub stage: Seq<char>,
    pub src: Seq<char>,
    pub dest: Seq<char>,
}

pub struct StageView {
    pub name: Seq<char>,
    pub base_image: Seq<char>,
    pub workdir: Seq<char>,
    pub commands: Seq<CommandView>,
    pub copy_files: Seq<CopyView>,
    pub copy_from: Seq<CopyFromView>,
}

pub struct PlanView {
    pub provider: Seq<char>,
    pub stages: Seq<StageView>,
    pub start_command: Option<Seq<char>>,
    pub port: Option<u16>,
    pub env: Seq<(Seq<char>, Seq<char>)>,
    pub build_env: Seq<(Seq<char>, Seq<char>)>,
    pub paths: Seq<Seq<char>>,
    pub secrets: Seq<Seq<char>>,
}

impl View for Command {
    type V = CommandView;

    open spec fn view(&self) -> CommandView {
        CommandView { run: self.run@, cache_mounts: views(self.cache_mounts@) }
    }
}

impl View for CopyDirective {
    type V = CopyView;

    open spec fn view(&self) -> CopyView {
        CopyView { src: self.src@, dest: self.dest@ }
    }
}

impl View for CopyFrom {
    type V = CopyFromView;

    open spec fn view(&self) -> CopyFromView {
        CopyFromView { stage: self.stage@, src: self.src@, dest: self.dest@ }
    }
}

pub open spec fn command_views(v: Seq<Command>) -> Seq<CommandView> {
    v.map_values(|c: Command| c@)
}

pub open spec fn copy_views(v: Seq<CopyDirective>) -> Seq<CopyView> {
    v.map_values(|c: CopyDirective| c@)
}

pub open spec fn copy_from_views(v: Seq<CopyFrom>) -> Seq<CopyFromView> {
    v.map_values(|c: CopyFrom| c@)
}

pub open spec fn stage_views(v: Seq<Stage>) -> Seq<StageView> {
    v.map_values(|s: Stage| s@)
}

pub open spec fn opt_view(o: Option<String>) -> Option<Seq<char>> {
    match o {
        Some(s) => Some(s@),
        None => None,
    }
}

impl View for Stage {
    type V = StageView;

    open spec fn view(&self) -> StageView {
        StageView {
            name: self.name@,
            base_image: self.base_image@,
            workdir: self.workdir@,
            commands: command_views(self.commands@),
            copy_files: copy_views(self.copy_files@),
            copy_from: copy_from_views(self.copy_from@),
        }
    }
}

impl View for BuildPlan {
    type V = PlanView;

    open spec fn view(&self) -> PlanView {
        PlanView {
            provider: self.provider@,
            stages: stage_views(self.stages@),
            start_command: opt_view(self.start_command),
            port: self.port,
            env: self.env@,
            build_env: self.build_env@,
            paths: views(self.paths@),
            secrets: views(self.secrets@),
        }
    }
}

/// Whether the stage at `i` is the first one named `build`.
pub open spec fn first_build(s: Seq<StageView>, i: int) -> bool {
    &&& 0 <= i < s.len()
    &&& s[i].name == "build"@
    &&& forall|j: int| 0 <= j < i ==> s[j].name != "build"@
}

/// The stage where the application is built: the first stage named `build`,
/// otherwise the first stage.
pub open spec fn build_index(s: Seq<StageView>) -> int {
    if exists|i: int| first_build(s, i) {
        choose|i: int| first_build(s, i)
    } else {
        0
    }
}

pub proof fn lemma_first_build_unique(s: Seq<StageView>, i: int, j: int)
    requires
        first_build(s, i),
        first_build(s, j),
    ensures
        i == j,
{
}

pub proof fn lemma_build_index(s: Seq<StageView>)
    ensures
        forall|i: int| first_build(s, i) ==> build_index(s) == i,
        (forall|i: int| 0 <= i < s.len() ==> s[i].name != "build"@) ==> build_index(s) == 0,
        0 <= build_index(s),
        s.len() > 0 ==> build_index(s) < s.len(),
{
    if exists|i: int| first_build(s, i) {
        let c = choose|i: int| first_build(s, i);
        assert forall|i: int| first_build(s, i) implies build_index(s) == i by {
            lemma_first_build_unique(s, c, i);
        }
    }
}

impl Default for BuildPlan {
    fn default() -> (p: BuildPlan)
        ensures
            p@ == (PlanView {
                provider: Seq::empty(),
                stages: Seq::empty(),
                start_command: None,
                port: None,
                env: Seq::empty(),
                build_env: Seq::empty(),
                paths: Seq::empty(),
                secrets: Seq::empty(),
            }),
    {
        let p = BuildPlan {
            provider: String::new(),
            stages: Vec::new(),
            start_command: None,
            port: None,
            env: EnvMap::new(),
            build_env: EnvMap::new(),
            paths: Vec::new(),
            secrets: Vec::new(),
        };
        assert(stage_views(p.stages@) =~= Seq::empty());
        assert(views(p.paths@) =~= Seq::empty());
        assert(views(p.secrets@) =~= Seq::empty());
        p
    }
}

impl BuildPlan {
    /// Index of the stage where the application is built, so build-time
    /// settings (build env, pre/post hooks) target the right place: the stage
    /// named `build` when there is one, otherwise the first stage.
    pub fn build_stage_index(&self) -> (i: usize)
        ensures
            i == build_index(self@.stages),
    {
        let mut i: usize = 0;
        while i < self.stages.len()
            invariant
                i <= self@.stages.len(),
                forall|j: int| 0 <= j < i ==> self@.stages[j].name != "build"@,
            decreases self@.stages.len() - i,
        {
            if eq_str(self.stages[i].name.as_str(), "build") {
                proof {
                    assert(first_build(self@.stages, i as int));
                    lemma_build_index(self@.stages);
                }
                return i;
            }
            i = i + 1;
        }
        proof {
            lemma_build_index(self@.stages);
        }
        0
    }
}

} // verus!

verus! {

/// Reading a key back after binding it gives the bound value, and every
/// other key reads as before.
pub proof fn law_env_read_after_write(
    before: Seq<(Seq<char>, Seq<char>)>,
    after: Seq<(Seq<char>, Seq<char>)>,
    key: Seq<char>,
    value: Seq<char>,
)
    requires
        as_map(after) == as_map(before).insert(key, value),
    ensures
        lookup(after, key) == Some(value),
        forall|other: Seq<char>| other != key ==> #[trigger] lookup(after, other) == lookup(before, other),
{
    assert(as_map(after).dom().contains(key));
    assert(as_map(after)[key] == value);
    assert forall|other: Seq<char>| other != key implies #[trigger] lookup(after, other) == lookup(
        before,
        other,
    ) by {
        assert(as_map(after).dom().contains(other) == as_map(before).dom().contains(other));
        if lookup(before, other) is Some {
            assert(as_map(after)[other] == as_map(before)[other]);
        }
    }
}

} // verus!
