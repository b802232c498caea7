//! The table of aliases: short names bound to directories, taken from the
//! environment and from the home directory of the user, sorted by name.

use vstd::prelude::*;
use crate::probe::{is_dir, PathStatus};
use crate::text::{
    lemma_precedes_antisymmetric,
    lemma_precedes_reflexive,
    lemma_precedes_total,
    lemma_precedes_transitive,
    name_precedes,
    precedes,
};

verus! {

/// An alias as a mathematical value: a name and the directory it stands for.
pub struct Alias {
    pub name: Seq<char>,
    pub directory: Seq<char>,
}

/// One entry of the alias table.
#[derive(Debug, PartialEq, Eq)]
pub struct AliasEntry {
    /// The name, as it is written after the `$` of a path.
    pub name: String,
    /// The directory that the name stands for.
    pub directory: String,
}

impl View for AliasEntry {
    type V = Alias;

    open spec fn view(&self) -> Alias {
        Alias { name: self.name@, directory: self.directory@ }
    }
}

/// A variable of the environment as a mathematical value.
pub struct EnvVarView {
    pub name: Seq<char>,
    pub value: Seq<char>,
    pub status: PathStatus,
}

/// One variable of the environment, with what the filesystem said of its
/// value when it was read.
#[derive(Debug, PartialEq, Eq)]
pub struct EnvVar {
    /// The name of the variable.
    pub name: String,
    /// Its value.
    pub value: String,
    /// The status of the value, read as a path.
    pub status: PathStatus,
}

impl View for EnvVar {
    type V = EnvVarView;

    open spec fn view(&self) -> EnvVarView {
        EnvVarView { name: self.name@, value: self.value@, status: self.status }
    }
}

/// Why no alias table could be made.
#[derive(Debug, Clone, Copy, PartialEq, Eq, Structural)]
pub enum AliasError {
    /// The home directory of the user could not be found.
    HomeUnavailable,
}

/// The name of the alias of the home directory.
pub open spec fn home_name() -> Seq<char> {
    "HOME"@
}

/// The entries of a list as mathematical values.
pub open spec fn alias_views(entries: Seq<AliasEntry>) -> Seq<Alias> {
    entries.map_values(|entry: AliasEntry| entry@)
}

/// The variables of a list as mathematical values.
pub open spec fn env_views(vars: Seq<EnvVar>) -> Seq<EnvVarView> {
    vars.map_values(|var: EnvVar| var@)
}

/// The aliases that the environment gives: one for each variable whose
/// value is an existing directory, in the order of the variables.
pub open spec fn directories(vars: Seq<EnvVarView>) -> Seq<Alias>
    decreases vars.len(),
{
    if vars.len() == 0 {
        Seq::empty()
    } else {
        let earlier = directories(vars.drop_last());
        if vars.last().status.spec_is_dir() {
            earlier.push(Alias { name: vars.last().name, directory: vars.last().value })
        } else {
            earlier
        }
    }
}

/// All aliases before sorting: those of the environment, then the alias
/// `HOME` for the home directory, whether or not the environment has
/// already given one of that name.
pub open spec fn candidates(vars: Seq<EnvVarView>, home: Seq<char>) -> Seq<Alias> {
    directories(vars).push(Alias { name: home_name(), directory: home })
}

/// The names of `table` ascend in ordinal order.
pub open spec fn sorted_by_name(table: Seq<Alias>) -> bool {
    forall|i: int, j: int|
        0 <= i < j < table.len() ==> precedes(#[trigger] table[i].name, #[trigger] table[j].name)
}

/// The test that picks the aliases called `name`.
pub open spec fn named(name: Seq<char>) -> spec_fn(Alias) -> bool {
    |alias: Alias| alias.name == name
}

/// `table` holds what `given` holds, sorted by name, and aliases of one
/// name stand in the order in which they were given.
pub open spec fn is_stable_sort_of(table: Seq<Alias>, given: Seq<Alias>) -> bool {
    &&& sorted_by_name(table)
    &&& forall|name: Seq<char>| #[trigger]
        table.filter(named(name)) == given.filter(named(name))
}

/// Where `alias` goes into the sorted `table`: just behind the last entry
/// whose name comes no later than its own, at the front where there is
/// none.
pub open spec fn slot(table: Seq<Alias>, alias: Alias) -> int
    decreases table.len(),
{
    if table.len() == 0 {
        0
    } else if precedes(table.last().name, alias.name) {
        table.len() as int
    } else {
        slot(table.drop_last(), alias)
    }
}

/// The sorted `table` with `alias` put in its place.
pub open spec fn placed(table: Seq<Alias>, alias: Alias) -> Seq<Alias> {
    table.insert(slot(table, alias), alias)
}

/// The aliases of `given` sorted by name, those of one name in the order
/// in which they were given: each is put in its place in turn.
pub open spec fn sorted_table(given: Seq<Alias>) -> Seq<Alias>
    decreases given.len(),
{
    if given.len() == 0 {
        Seq::empty()
    } else {
        placed(sorted_table(given.drop_last()), given.last())
    }
}

/// The place of an alias lies within the table; no entry from there on
/// comes no later than the alias, and the entry just before does.
pub proof fn lemma_slot_divides(table: Seq<Alias>, alias: Alias)
    ensures
        0 <= slot(table, alias) <= table.len(),
        forall|i: int|
            slot(table, alias) <= i < table.len() ==> !precedes(
                #[trigger] table[i].name,
                alias.name,
            ),
        slot(table, alias) > 0 ==> precedes(table[slot(table, alias) - 1].name, alias.name),
    decreases table.len(),
{
    if table.len() > 0 && !precedes(table.last().name, alias.name) {
        let front = table.drop_last();
        lemma_slot_divides(front, alias);
        assert forall|i: int| slot(table, alias) <= i < table.len() implies !precedes(
            #[trigger] table[i].name,
            alias.name,
        ) by {
            if i < front.len() {
                assert(table[i] == front[i]);
            }
        }
    }
}

/// What an alias put at `at` adds to the aliases of each name, where no
/// entry from `at` on comes no later than it.
proof fn lemma_insert_filter(table: Seq<Alias>, at: int, alias: Alias, name: Seq<char>)
    requires
        0 <= at <= table.len(),
        forall|i: int| at <= i < table.len() ==> !precedes(#[trigger] table[i].name, alias.name),
    ensures
        table.insert(at, alias).filter(named(name)) == if alias.name == name {
            table.filter(named(name)).push(alias)
        } else {
            table.filter(named(name))
        },
{
    let head = table.subrange(0, at);
    let tail = table.subrange(at, table.len() as int);
    let pick = named(name);
    assert(table =~= head + tail);
    Seq::filter_distributes_over_add(head, tail, pick);
    Seq::filter_distributes_over_add(head.push(alias), tail, pick);
    head.lemma_filter_push(alias, pick);
    if alias.name == name {
        assert(tail.all(|other: Alias| !pick(other))) by {
            assert forall|i: int| 0 <= i < tail.len() implies !pick(#[trigger] tail[i]) by {
                lemma_precedes_reflexive(name);
            }
        }
        tail.lemma_all_neg_filter_empty(pick);
        assert(head.filter(pick).push(alias) + tail.filter(pick) =~= (head.filter(pick)
            + tail.filter(pick)).push(alias));
    }
}

/// An alias put behind an entry that comes no later than it, and before
/// entries that all come later, leaves the table sorted.
proof fn lemma_insert_sorted(table: Seq<Alias>, at: int, alias: Alias)
    requires
        sorted_by_name(table),
        0 <= at <= table.len(),
        at > 0 ==> precedes(table[at - 1].name, alias.name),
        forall|i: int| at <= i < table.len() ==> !precedes(#[trigger] table[i].name, alias.name),
    ensures
        sorted_by_name(table.insert(at, alias)),
{
    let grown = table.insert(at, alias);
    assert forall|i: int, j: int| 0 <= i < j < grown.len() implies precedes(
        #[trigger] grown[i].name,
        #[trigger] grown[j].name,
    ) by {
        if j == at && i < at - 1 {
            lemma_precedes_transitive(table[i].name, table[at - 1].name, alias.name);
        } else if i == at {
            lemma_precedes_total(table[j - 1].name, alias.name);
        }
    }
}

/// Putting an alias in its place keeps a table a stable sort: of what was
/// given before, and the alias behind it.
pub proof fn lemma_placed_is_stable_sort(table: Seq<Alias>, given: Seq<Alias>, alias: Alias)
    requires
        is_stable_sort_of(table, given),
    ensures
        is_stable_sort_of(placed(table, alias), given.push(alias)),
{
    let at = slot(table, alias);
    lemma_slot_divides(table, alias);
    lemma_insert_sorted(table, at, alias);
    assert forall|name: Seq<char>| #[trigger]
        placed(table, alias).filter(named(name)) == given.push(alias).filter(named(name)) by {
        lemma_insert_filter(table, at, alias, name);
        given.lemma_filter_push(alias, named(name));
    }
}

/// The sorted table is sorted by name, and holds under each name the
/// aliases that were given under it, in the order in which they were given.
pub proof fn lemma_sorted_table_is_stable_sort(given: Seq<Alias>)
    ensures
        is_stable_sort_of(sorted_table(given), given),
    decreases given.len(),
{
    if given.len() > 0 {
        lemma_sorted_table_is_stable_sort(given.drop_last());
        lemma_placed_is_stable_sort(
            sorted_table(given.drop_last()),
            given.drop_last(),
            given.last(),
        );
        assert(given.drop_last().push(given.last()) =~= given);
    } else {
        assert(given =~= Seq::empty());
    }
}

/// The sorted table holds every alias that was given.
pub proof fn lemma_sorted_table_keeps(given: Seq<Alias>, k: int)
    requires
        0 <= k < given.len(),
    ensures
        sorted_table(given).contains(given[k]),
{
    let pick = named(given[k].name);
    lemma_sorted_table_is_stable_sort(given);
    given.lemma_filter_contains(pick, k);
    sorted_table(given).lemma_filter_contains_rev(pick, given[k]);
}

/// Whatever the environment holds, the table is sorted by name and holds
/// the alias `HOME` for the home directory.
pub proof fn lemma_table_sorted_with_home(vars: Seq<EnvVarView>, home: Seq<char>)
    ensures
        sorted_by_name(sorted_table(candidates(vars, home))),
        sorted_table(candidates(vars, home)).contains(
            Alias { name: home_name(), directory: home },
        ),
{
    let given = candidates(vars, home);
    lemma_sorted_table_is_stable_sort(given);
    lemma_sorted_table_keeps(given, given.len() - 1);
}

/// The aliases of the name of the last entry end with that entry.
proof fn lemma_last_ends_its_group(table: Seq<Alias>)
    requires
        table.len() > 0,
    ensures
        table.filter(named(table.last().name)).len() > 0,
        table.filter(named(table.last().name)).last() == table.last(),
{
    assert(table.drop_last().push(table.last()) =~= table);
    table.drop_last().lemma_filter_push(table.last(), named(table.last().name));
}

/// A table that holds no alias of any name is empty.
proof fn lemma_no_group_no_entry(table: Seq<Alias>)
    requires
        forall|name: Seq<char>| (#[trigger] table.filter(named(name))).len() == 0,
    ensures
        table.len() == 0,
{
    if table.len() > 0 {
        lemma_last_ends_its_group(table);
    }
}

/// In a sorted table, the name of every alias comes no later than the
/// name of the last.
proof fn lemma_group_precedes_last(table: Seq<Alias>, name: Seq<char>)
    requires
        sorted_by_name(table),
        table.filter(named(name)).len() > 0,
    ensures
        precedes(name, table.last().name),
{
    let pick = named(name);
    let member = table.filter(pick)[0];
    table.lemma_filter_pred(pick, 0);
    table.lemma_filter_contains_rev(pick, member);
    let i = choose|i: int| 0 <= i < table.len() && table[i] == member;
    if i == table.len() - 1 {
        lemma_precedes_reflexive(name);
    }
}

/// A list has one stable sort only: two tables that are both sorted by
/// name, and hold under every name the aliases given under it in the
/// order given, are the same table.
pub proof fn lemma_stable_sort_unique(one: Seq<Alias>, other: Seq<Alias>, given: Seq<Alias>)
    requires
        is_stable_sort_of(one, given),
        is_stable_sort_of(other, given),
    ensures
        one == other,
    decreases one.len(),
{
    assert forall|name: Seq<char>| #[trigger]
        one.filter(named(name)) == other.filter(named(name)) by {
        assert(other.filter(named(name)) == given.filter(named(name)));
    }
    if one.len() == 0 {
        assert forall|name: Seq<char>| (#[trigger] other.filter(named(name))).len() == 0 by {
            one.lemma_filter_len(named(name));
        }
        lemma_no_group_no_entry(other);
    } else {
        let last = one.last();
        lemma_last_ends_its_group(one);
        other.lemma_filter_len(named(last.name));
        lemma_last_ends_its_group(other);
        lemma_group_precedes_last(other, last.name);
        lemma_group_precedes_last(one, other.last().name);
        lemma_precedes_antisymmetric(last.name, other.last().name);
        assert(other.last() == last);
        let front = one.drop_last();
        let rest = other.drop_last();
        assert(front.push(last) =~= one);
        assert(rest.push(last) =~= other);
        assert forall|name: Seq<char>| #[trigger]
            rest.filter(named(name)) == front.filter(named(name)) by {
            front.lemma_filter_push(last, named(name));
            rest.lemma_filter_push(last, named(name));
            if last.name == name {
                assert(front.filter(named(name)) =~= front.filter(named(name)).push(
                    last,
                ).drop_last());
                assert(rest.filter(named(name)) =~= rest.filter(named(name)).push(
                    last,
                ).drop_last());
            }
        }
        assert forall|i: int, j: int| 0 <= i < j < front.len() implies precedes(
            #[trigger] front[i].name,
            #[trigger] front[j].name,
        ) by {
            assert(front[i] == one[i] && front[j] == one[j]);
        }
        assert forall|i: int, j: int| 0 <= i < j < rest.len() implies precedes(
            #[trigger] rest[i].name,
            #[trigger] rest[j].name,
        ) by {
            assert(rest[i] == other[i] && rest[j] == other[j]);
        }
        lemma_stable_sort_unique(front, rest, front);
    }
}

/// The sorted table is the one stable sort of what was given: every table
/// that is sorted by name and keeps the aliases of each name in the order
/// given is the sorted table.
pub proof fn lemma_stable_sort_is_sorted_table(table: Seq<Alias>, given: Seq<Alias>)
    requires
        is_stable_sort_of(table, given),
    ensures
        table == sorted_table(given),
{
    lemma_sorted_table_is_stable_sort(given);
    lemma_stable_sort_unique(table, sorted_table(given), given);
}

/// Puts `entry` in its place in the sorted list `entries`.
fn insert_sorted(entries: &mut Vec<AliasEntry>, entry: AliasEntry)
    ensures
        alias_views(final(entries)@) == placed(alias_views(old(entries)@), entry@),
{
    let ghost table = alias_views(entries@);
    let mut at: usize = entries.len();
    assert(table.take(at as int) =~= table);
    while at > 0 && !name_precedes(entries[at - 1].name.as_str(), entry.name.as_str())
        invariant
            at <= entries.len(),
            table == alias_views(entries@),
            slot(table, entry@) == slot(table.take(at as int), entry@),
        decreases at,
    {
        assert(table.take(at as int).drop_last() =~= table.take(at - 1));
        at -= 1;
    }
    entries.insert(at, entry);
}

/// Calls `dirs::home_dir`, which asks the system for the home directory of
/// the user and hands back `None` where it finds none. A path that is not
/// Unicode counts as none. Nothing is stated of the result: it depends on
/// the environment of the process.
#[verifier::external_body]
fn home_directory() -> Option<String> {
    dirs::home_dir().and_then(|path| path.to_str().map(|text| text.to_owned()))
}

/// The table of aliases, sorted by name. It always holds an alias `HOME`.
#[derive(Debug)]
pub struct AliasIndex {
    entries: Vec<AliasEntry>,
}

impl View for AliasIndex {
    type V = Seq<Alias>;

    closed spec fn view(&self) -> Seq<Alias> {
        alias_views(self.entries@)
    }
}

impl AliasIndex {
    #[verifier::type_invariant]
    spec fn sorted_with_home(self) -> bool {
        &&& sorted_by_name(alias_views(self.entries@))
        &&& exists|i: int|
            0 <= i < self.entries@.len() && (#[trigger] self.entries@[i]).name@ == home_name()
    }

    /// Makes the table of the variables `vars` and the home directory
    /// `home`: an alias for each variable that names a directory, and the
    /// alias `HOME`, sorted by name.
    pub fn build(vars: &Vec<EnvVar>, home: &str) -> (index: AliasIndex)
        ensures
            index@ == sorted_table(candidates(env_views(vars@), home@)),
            sorted_by_name(index@),
            index@.contains(Alias { name: home_name(), directory: home@ }),
    {
        let mut entries: Vec<AliasEntry> = Vec::new();
        let ghost all = env_views(vars@);
        for k in 0..vars.len()
            invariant
                all == env_views(vars@),
                alias_views(entries@) == sorted_table(directories(all.take(k as int))),
        {
            let var = &vars[k];
            proof {
                assert(all.take(k + 1).drop_last() =~= all.take(k as int));
                let grown = directories(all.take(k as int)).push(
                    Alias { name: var@.name, directory: var@.value },
                );
                assert(grown.drop_last() =~= directories(all.take(k as int)));
            }
            if is_dir(&var.status) {
                let entry = AliasEntry { name: var.name.clone(), directory: var.value.clone() };
                insert_sorted(&mut entries, entry);
            }
        }
        assert(all.take(vars.len() as int) =~= all);
        let entry = AliasEntry { name: "HOME".to_owned(), directory: home.to_owned() };
        let ghost alias = entry@;
        insert_sorted(&mut entries, entry);
        proof {
            let table = alias_views(entries@);
            assert(candidates(all, home@).drop_last() =~= directories(all));
            lemma_table_sorted_with_home(all, home@);
            let i = choose|i: int| 0 <= i < table.len() && table[i] == alias;
            assert(entries@[i].name@ == home_name());
        }
        AliasIndex { entries }
    }

    /// Makes the table from the variables and the outcome of the search
    /// for the home directory. Without a home directory there is no table.
    pub fn assemble(vars: &Vec<EnvVar>, home: Option<String>) -> (made: Result<
        AliasIndex,
        AliasError,
    >)
        ensures
            match home {
                Some(path) => made is Ok && made->Ok_0@ == sorted_table(
                    candidates(env_views(vars@), path@),
                ),
                None => made == Err::<AliasIndex, AliasError>(AliasError::HomeUnavailable),
            },
    {
        match home {
            Some(path) => Ok(AliasIndex::build(vars, path.as_str())),
            None => Err(AliasError::HomeUnavailable),
        }
    }

    /// Makes the table from the variables and the home directory that the
    /// system reports. Whatever directory that is, the table is the one
    /// that [`AliasIndex::assemble`] makes of it.
    pub fn from_environment(vars: &Vec<EnvVar>) -> (made: Result<AliasIndex, AliasError>)
        ensures
            match made {
                Ok(index) => exists|home: Seq<char>|
                    index@ == sorted_table(#[trigger] candidates(env_views(vars@), home)),
                Err(error) => error == AliasError::HomeUnavailable,
            },
    {
        AliasIndex::assemble(vars, home_directory())
    }

    /// The entries in the order of the table: sorted by name, `HOME` among
    /// them.
    pub fn entries(&self) -> (entries: &Vec<AliasEntry>)
        ensures
            alias_views(entries@) == self@,
            entries@.len() == self@.len(),
            forall|i: int| 0 <= i < entries@.len() ==> (#[trigger] entries@[i])@ == self@[i],
            sorted_by_name(self@),
            exists|i: int| 0 <= i < self@.len() && (#[trigger] self@[i]).name == home_name(),
    {
        proof {
            use_type_invariant(self);
            let i = choose|i: int|
                0 <= i < self.entries@.len() && (#[trigger] self.entries@[i]).name@ == home_name();
            assert(self@[i].name == home_name());
        }
        &self.entries
    }

    /// The number of entries; the alias `HOME` is one of them.
    pub fn len(&self) -> (n: usize)
        ensures
            n == self@.len(),
            n > 0,
    {
        proof {
            use_type_invariant(self);
        }
        self.entries.len()
    }
}

} // verus!
