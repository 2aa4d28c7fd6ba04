//! The Redis part of the configuration: a map from designation to the
//! instance (URL and base key) that serves it, built from the list of
//! instances in the configuration file.
use vstd::prelude::*;
use std::collections::HashMap;

verus! {

broadcast use vstd::std_specs::hash::group_hash_axioms;

/// The purpose a configured Redis instance serves.
#[derive(Clone, Copy, Debug, PartialEq, Eq, Structural, Hash)]
pub enum RedisDesignation {
    RenderWorkerChache,
    PreloadArticleWorkerChache,
}

/// The key under which a designation is stored in the configuration's table.
pub open spec fn designation_key(d: RedisDesignation) -> u32 {
    match d {
        RedisDesignation::RenderWorkerChache => 0,
        RedisDesignation::PreloadArticleWorkerChache => 1,
    }
}

impl RedisDesignation {
    fn key(&self) -> (r: u32)
        ensures
            r == designation_key(*self),
    {
        match self {
            RedisDesignation::RenderWorkerChache => 0,
            RedisDesignation::PreloadArticleWorkerChache => 1,
        }
    }
}

/// Where the instance of one designation is reached, and its key prefix.
#[derive(Debug)]
pub struct RedisAccess {
    pub url: String,
    pub base_key: String,
}

impl Clone for RedisAccess {
    fn clone(&self) -> (r: Self)
        ensures
            r == *self,
    {
        RedisAccess { url: self.url.clone(), base_key: self.base_key.clone() }
    }
}

/// Why the Redis configuration is refused or cannot answer.
#[derive(Debug, PartialEq, Eq, Structural)]
pub enum RedisConfigError {
    DuplicateDesignation(RedisDesignation),
    MissingDesignation(RedisDesignation),
}

/// The Redis configuration: at most one instance per designation.
#[derive(Debug)]
pub struct RedisConfig {
    designations: HashMap<u32, RedisAccess>,
}

impl RedisConfig {
    /// Every key of the table stands for a designation.
    pub closed spec fn well_formed(&self) -> bool {
        forall|k: u32| #[trigger] self.designations@.contains_key(k) ==> k < 2
    }
}

impl View for RedisConfig {
    type V = Map<RedisDesignation, RedisAccess>;

    /// The access configured for each designation.
    closed spec fn view(&self) -> Map<RedisDesignation, RedisAccess> {
        Map::new(
            |d: RedisDesignation| self.designations@.contains_key(designation_key(d)),
            |d: RedisDesignation| self.designations@[designation_key(d)],
        )
    }
}

impl Clone for RedisConfig {
    fn clone(&self) -> (r: Self)
        ensures
            r@ == self@,
            r.well_formed() == self.well_formed(),
    {
        let r = RedisConfig { designations: self.designations.clone() };
        assert(r.designations@ == self.designations@);
        r
    }
}

impl Default for RedisConfig {
    fn default() -> (r: Self)
        ensures
            r@ == Map::<RedisDesignation, RedisAccess>::empty(),
            r.well_formed(),
    {
        let r = RedisConfig { designations: HashMap::new() };
        assert(r@ =~= Map::<RedisDesignation, RedisAccess>::empty());
        r
    }
}

impl RedisConfig {
    /// The access configured for `designation`; `MissingDesignation` where there is none.
    pub fn get_access(&self, designation: &RedisDesignation) -> (r: Result<
        RedisAccess,
        RedisConfigError,
    >)
        ensures
            match r {
                Ok(access) => self@.contains_key(*designation) && access == self@[*designation],
                Err(e) => !self@.contains_key(*designation) && e
                    == RedisConfigError::MissingDesignation(*designation),
            },
    {
        let key = designation.key();
        match self.designations.get(&key) {
            Some(access) => Ok(access.clone()),
            None => Err(RedisConfigError::MissingDesignation(*designation)),
        }
    }
}

} // verus!

verus! {

/// One designation served by an instance in the configuration file.
#[derive(Clone, Debug)]
pub struct RedisInstanceDesignation {
    pub base_key: String,
    pub designation: RedisDesignation,
}

/// One Redis instance in the configuration file and the designations it serves.
#[derive(Clone, Debug)]
pub struct RedisInstance {
    pub url: String,
    pub designations: Vec<RedisInstanceDesignation>,
}

/// The Redis section of the configuration file, as written there.
#[derive(Clone, Debug)]
pub struct RedisConfigSerde {
    pub instances: Vec<RedisInstance>,
}

/// The (designation, access) pairs one instance contributes, in the order of its designations.
pub open spec fn instance_entries(inst: RedisInstance) -> Seq<(RedisDesignation, RedisAccess)> {
    inst.designations@.map_values(
        |d: RedisInstanceDesignation|
            (d.designation, RedisAccess { url: inst.url, base_key: d.base_key }),
    )
}

/// The (designation, access) pairs of all instances, instance by instance.
pub open spec fn config_entries(instances: Seq<RedisInstance>) -> Seq<
    (RedisDesignation, RedisAccess),
>
    decreases instances.len(),
{
    if instances.len() == 0 {
        Seq::empty()
    } else {
        config_entries(instances.drop_last()) + instance_entries(instances.last())
    }
}

/// The table that results from entering the pairs in order, a later pair overwriting an earlier one.
pub open spec fn entries_map(s: Seq<(RedisDesignation, RedisAccess)>) -> Map<
    RedisDesignation,
    RedisAccess,
>
    decreases s.len(),
{
    if s.len() == 0 {
        Map::empty()
    } else {
        entries_map(s.drop_last()).insert(s.last().0, s.last().1)
    }
}

/// The first designation, in order, that a pair gives a second time; `None` if none does.
pub open spec fn first_duplicate(s: Seq<(RedisDesignation, RedisAccess)>) -> Option<
    RedisDesignation,
>
    decreases s.len(),
{
    if s.len() == 0 {
        None
    } else if first_duplicate(s.drop_last()) is Some {
        first_duplicate(s.drop_last())
    } else if entries_map(s.drop_last()).contains_key(s.last().0) {
        Some(s.last().0)
    } else {
        None
    }
}

proof fn lemma_config_entries_push(instances: Seq<RedisInstance>, i: int)
    requires
        0 <= i < instances.len(),
    ensures
        config_entries(instances.take(i + 1)) == config_entries(instances.take(i))
            + instance_entries(instances[i]),
{
    assert(instances.take(i + 1).drop_last() =~= instances.take(i));
}

impl RedisConfig {
    /// Builds the table from the configuration file's instances. Each designation
    /// may be served by one instance only: the first one given twice is reported.
    pub fn try_from(value: RedisConfigSerde) -> (r: Result<RedisConfig, RedisConfigError>)
        ensures
            match r {
                Ok(cfg) => {
                    &&& first_duplicate(config_entries(value.instances@)) is None
                    &&& cfg@ == entries_map(config_entries(value.instances@))
                    &&& cfg.well_formed()
                },
                Err(e) => {
                    &&& first_duplicate(config_entries(value.instances@)) is Some
                    &&& e == RedisConfigError::DuplicateDesignation(
                        first_duplicate(config_entries(value.instances@))->0,
                    )
                },
            },
    {
        let mut out = RedisConfig::default();
        let n = value.instances.len();
        let mut i: usize = 0;
        while i < n
            invariant
                n == value.instances@.len(),
                0 <= i <= n,
                out.well_formed(),
                first_duplicate(config_entries(value.instances@.take(i as int))) is None,
                out@ == entries_map(config_entries(value.instances@.take(i as int))),
            decreases n - i,
        {
            let inst = &value.instances[i];
            let m = inst.designations.len();
            let ghost before = config_entries(value.instances@.take(i as int));
            let mut j: usize = 0;
            while j < m
                invariant
                    n == value.instances@.len(),
                    i < n,
                    *inst == value.instances@[i as int],
                    before == config_entries(value.instances@.take(i as int)),
                    m == inst.designations@.len(),
                    0 <= j <= m,
                    out.well_formed(),
                    first_duplicate(before + instance_entries(*inst).take(j as int)) is None,
                    out@ == entries_map(before + instance_entries(*inst).take(j as int)),
                decreases m - j,
            {
                let inst_des = &inst.designations[j];
                let ghost prefix = before + instance_entries(*inst).take(j as int);
                let ghost entry = instance_entries(*inst)[j as int];
                let key = inst_des.designation.key();
                let access = RedisAccess { url: inst.url.clone(), base_key: inst_des.base_key.clone() };
                assert(entry == (inst_des.designation, access));
                assert((before + instance_entries(*inst).take(j + 1)) =~= prefix.push(entry));
                assert(prefix.push(entry).drop_last() =~= prefix);
                let previous = out.designations.insert(key, access);
                if previous.is_some() {
                    assert(entries_map(prefix).contains_key(inst_des.designation));
                    proof {
                        lemma_first_duplicate_extends(
                            prefix.push(entry),
                            instance_entries(*inst).skip(j + 1),
                        );
                        assert(prefix.push(entry) + instance_entries(*inst).skip(j + 1)
                            =~= before + instance_entries(*inst));
                        lemma_config_entries_push(value.instances@, i as int);
                        let rest = lemma_config_entries_prefix(value.instances@, i + 1);
                        assert(first_duplicate(prefix.push(entry)) == Some(entry.0));
                        assert(first_duplicate(before + instance_entries(*inst)) == Some(entry.0));
                        lemma_first_duplicate_extends(before + instance_entries(*inst), rest);
                        assert(first_duplicate(config_entries(value.instances@)) == Some(entry.0));
                    }
                    return Err(RedisConfigError::DuplicateDesignation(inst_des.designation));
                }
                assert(out@ =~= entries_map(prefix.push(entry)));
                j = j + 1;
            }
            proof {
                assert(instance_entries(*inst).take(m as int) =~= instance_entries(*inst));
                lemma_config_entries_push(value.instances@, i as int);
            }
            i = i + 1;
        }
        assert(value.instances@.take(n as int) =~= value.instances@);
        Ok(out)
    }
}

/// The pairs of the first `k` instances come first among the pairs of all of them.
proof fn lemma_config_entries_prefix(instances: Seq<RedisInstance>, k: int) -> (rest: Seq<
    (RedisDesignation, RedisAccess),
>)
    requires
        0 <= k <= instances.len(),
    ensures
        config_entries(instances) == config_entries(instances.take(k)) + rest,
    decreases instances.len(),
{
    if k == instances.len() {
        assert(instances.take(k) =~= instances);
        assert(config_entries(instances) + Seq::empty() =~= config_entries(instances));
        Seq::empty()
    } else {
        let front = instances.drop_last();
        let t = lemma_config_entries_prefix(front, k);
        assert(front.take(k) =~= instances.take(k));
        let rest = t + instance_entries(instances.last());
        assert(config_entries(instances) =~= config_entries(instances.take(k)) + rest);
        rest
    }
}

/// Appending pairs does not change the first duplicate of a prefix that has one.
proof fn lemma_first_duplicate_extends(
    s: Seq<(RedisDesignation, RedisAccess)>,
    t: Seq<(RedisDesignation, RedisAccess)>,
)
    requires
        first_duplicate(s) is Some,
    ensures
        first_duplicate(s + t) == first_duplicate(s),
    decreases t.len(),
{
    if t.len() > 0 {
        lemma_first_duplicate_extends(s, t.drop_last());
        assert((s + t).drop_last() =~= s + t.drop_last());
    } else {
        assert(s + t =~= s);
    }
}

/// Where no designation is given twice, the table holds for every pair's
/// designation that pair's access, and nothing for a designation no pair gives.
pub proof fn lemma_entries_map_lookup(s: Seq<(RedisDesignation, RedisAccess)>, d: RedisDesignation)
    requires
        first_duplicate(s) is None,
    ensures
        forall|i: int|
            0 <= i < s.len() ==> entries_map(s).contains_key(#[trigger] s[i].0) && entries_map(
                s,
            )[s[i].0] == s[i].1,
        entries_map(s).contains_key(d) ==> exists|i: int| 0 <= i < s.len() && #[trigger] s[i].0 == d,
    decreases s.len(),
{
    if s.len() > 0 {
        let front = s.drop_last();
        lemma_entries_map_lookup(front, d);
        assert forall|i: int| 0 <= i < s.len() implies entries_map(s).contains_key(
            #[trigger] s[i].0,
        ) && entries_map(s)[s[i].0] == s[i].1 by {
            if i < s.len() - 1 {
                assert(front[i] == s[i]);
            }
        }
        if entries_map(s).contains_key(d) && d != s.last().0 {
            let i = choose|i: int| 0 <= i < front.len() && #[trigger] front[i].0 == d;
            assert(s[i] == front[i]);
        }
    }
}

/// A successful build answers each designation an instance lists with that
/// instance's URL and the base key given for it, and refuses every other designation.
pub proof fn lemma_config_answers(value: RedisConfigSerde, d: RedisDesignation)
    requires
        first_duplicate(config_entries(value.instances@)) is None,
    ensures
        forall|i: int|
            0 <= i < config_entries(value.instances@).len() ==> {
                let e = #[trigger] config_entries(value.instances@)[i];
                entries_map(config_entries(value.instances@)).contains_key(e.0)
                    && entries_map(config_entries(value.instances@))[e.0] == e.1
            },
        (forall|i: int|
            0 <= i < config_entries(value.instances@).len()
                ==> #[trigger] config_entries(value.instances@)[i].0 != d) ==> !entries_map(
            config_entries(value.instances@),
        ).contains_key(d),
{
    lemma_entries_map_lookup(config_entries(value.instances@), d);
}

/// `first_duplicate` is `None` exactly when no two pairs give the same designation,
/// and a designation it reports is given by two pairs.
pub proof fn lemma_first_duplicate_meaning(s: Seq<(RedisDesignation, RedisAccess)>)
    ensures
        first_duplicate(s) is None <==> forall|i: int, j: int|
            0 <= i < j < s.len() ==> #[trigger] s[i].0 != #[trigger] s[j].0,
        first_duplicate(s) is Some ==> exists|i: int, j: int|
            0 <= i < j < s.len() && #[trigger] s[i].0 == first_duplicate(s)->0
                && #[trigger] s[j].0 == first_duplicate(s)->0,
    decreases s.len(),
{
    if s.len() > 0 {
        let front = s.drop_last();
        let last = s.len() - 1;
        lemma_first_duplicate_meaning(front);
        if first_duplicate(front) is Some {
            let (i, j) = choose|i: int, j: int|
                0 <= i < j < front.len() && #[trigger] front[i].0 == first_duplicate(front)->0
                    && #[trigger] front[j].0 == first_duplicate(front)->0;
            assert(s[i] == front[i] && s[j] == front[j]);
        } else if entries_map(front).contains_key(s.last().0) {
            lemma_entries_map_lookup(front, s.last().0);
            let i = choose|i: int| 0 <= i < front.len() && #[trigger] front[i].0 == s.last().0;
            assert(s[i] == front[i]);
            assert(s[i].0 == s[last].0);
        } else {
            assert forall|i: int, j: int| 0 <= i < j < s.len() implies #[trigger] s[i].0
                != #[trigger] s[j].0 by {
                assert(s[i] == front[i]);
                if j < last {
                    assert(s[j] == front[j]);
                } else {
                    lemma_entries_map_lookup(front, s.last().0);
                    assert(entries_map(front).contains_key(front[i].0));
                }
            }
        }
    }
}

/// Each designation an instance lists comes with that instance's URL and the
/// base key written next to that very designation, in the order listed.
pub proof fn law_instance_entries(inst: RedisInstance)
    ensures
        instance_entries(inst).len() == inst.designations@.len(),
        forall|i: int|
            0 <= i < inst.designations@.len() ==> #[trigger] instance_entries(inst)[i] == (
                inst.designations@[i].designation,
                RedisAccess { url: inst.url, base_key: inst.designations@[i].base_key },
            ),
{
}

/// After a successful build, the designation listed `j`-th by the `i`-th instance
/// is answered with that instance's URL and the base key written next to it.
pub proof fn law_config_answers_listed(value: RedisConfigSerde, i: int, j: int)
    requires
        first_duplicate(config_entries(value.instances@)) is None,
        0 <= i < value.instances@.len(),
        0 <= j < value.instances@[i].designations@.len(),
    ensures
        ({
            let inst = value.instances@[i];
            let listed = inst.designations@[j];
            let table = entries_map(config_entries(value.instances@));
            &&& table.contains_key(listed.designation)
            &&& table[listed.designation] == RedisAccess { url: inst.url, base_key: listed.base_key }
        }),
{
    let instances = value.instances@;
    let inst = instances[i];
    lemma_config_entries_push(instances, i);
    let rest = lemma_config_entries_prefix(instances, i + 1);
    let front = config_entries(instances.take(i));
    let all = config_entries(instances);
    assert(all == front + instance_entries(inst) + rest);
    let k = front.len() + j;
    law_instance_entries(inst);
    assert(all[k] == instance_entries(inst)[j]);
    lemma_entries_map_lookup(all, inst.designations@[j].designation);
    assert(0 <= k < all.len());
    assert(entries_map(all).contains_key(all[k].0) && entries_map(all)[all[k].0] == all[k].1);
}

} // verus!
