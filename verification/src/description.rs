//! Names and descriptions of the things of the world, looked up by an
//! identifier such as `tile.wall`.

use vstd::prelude::*;
use vstd::string::StringExecFns;
use fnv::FnvHashMap;

verus! {

/// `fnv::FnvHasher`, the hasher of the table of descriptions. A value of
/// it is never looked into.
#[verifier::external_type_specification]
#[verifier::external_body]
pub struct ExFnvHasher(fnv::FnvHasher);

/// `std::hash::BuildHasherDefault`, which gives a hash table a fresh
/// hasher for each key. A value of it is never looked into.
#[verifier::external_type_specification]
#[verifier::external_body]
#[verifier::reject_recursive_types(H)]
pub struct ExBuildHasherDefault<H>(std::hash::BuildHasherDefault<H>);

/// What a thing is called and what is said about it.
pub struct Description {
    name: String,
    description: String,
}

/// A description as two texts.
pub struct DescriptionView {
    pub name: Seq<char>,
    pub description: Seq<char>,
}

impl View for Description {
    type V = DescriptionView;

    closed spec fn view(&self) -> DescriptionView {
        DescriptionView { name: self.name@, description: self.description@ }
    }
}

impl Description {
    /// The description of a thing called `name`, of which `desc` is
    /// said.
    pub fn new(name: String, desc: String) -> (d: Description)
        ensures
            d@ == (DescriptionView { name: name@, description: desc@ }),
    {
        Description { name: name, description: desc }
    }

    /// What the thing is called.
    pub fn name(&self) -> (name: &str)
        ensures
            name@ == self@.name,
    {
        self.name.as_str()
    }
}

/// What a hash table of descriptions holds: the description under each
/// identifier. The table is an `fnv::FnvHashMap`, the hash map of the
/// standard library with the hasher of `fnv`; what the three functions
/// below say of it is taken on trust from the documentation of the
/// standard library.
pub uninterp spec fn table_entries(table: FnvHashMap<String, Description>) -> Map<
    Seq<char>,
    DescriptionView,
>;

/// Calls `HashMap::default`. Taken on trust: the new table holds
/// nothing.
#[verifier::external_body]
fn table_new() -> (table: FnvHashMap<String, Description>)
    ensures
        table_entries(table) == (Map::<Seq<char>, DescriptionView>::empty()),
{
    FnvHashMap::default()
}

/// Calls `HashMap::insert`. Taken on trust: afterwards the table holds
/// `value` under `key`, in place of what it held there, and everything
/// else as before.
#[verifier::external_body]
fn table_insert(table: &mut FnvHashMap<String, Description>, key: String, value: Description)
    ensures
        table_entries(*final(table)) == table_entries(*old(table)).insert(key@, value@),
{
    table.insert(key, value);
}

/// Calls `HashMap::get`. Taken on trust: the result is the description
/// that the table holds under `key`, and there is none exactly where the
/// table holds nothing under `key`.
#[verifier::external_body]
fn table_get<'a>(table: &'a FnvHashMap<String, Description>, key: &str) -> (found: Option<
    &'a Description,
>)
    ensures
        match found {
            Some(description) => table_entries(*table).contains_key(key@) && description@
                == table_entries(*table)[key@],
            None => !table_entries(*table).contains_key(key@),
        },
{
    table.get(key)
}

/// The descriptions of a game, by identifier.
pub struct Descriptions {
    table: FnvHashMap<String, Description>,
}

impl View for Descriptions {
    type V = Map<Seq<char>, DescriptionView>;

    closed spec fn view(&self) -> Map<Seq<char>, DescriptionView> {
        table_entries(self.table)
    }
}

/// The identifier of the entry `entry` of the file `file`: the two names
/// with a full stop between them.
pub open spec fn qualified(file: Seq<char>, entry: Seq<char>) -> Seq<char> {
    file + seq!['.'] + entry
}

/// `table` and, under their qualified names, `entries`. A later entry
/// takes the place of an earlier one of the same name.
pub open spec fn with_entries(
    table: Map<Seq<char>, DescriptionView>,
    file: Seq<char>,
    entries: Seq<(String, Description)>,
) -> Map<Seq<char>, DescriptionView>
    decreases entries.len(),
{
    if entries.len() == 0 {
        table
    } else {
        with_entries(table, file, entries.drop_last()).insert(
            qualified(file, entries.last().0@),
            entries.last().1@,
        )
    }
}

impl Descriptions {
    /// A table without descriptions.
    pub fn new() -> (d: Descriptions)
        ensures
            d@ == (Map::<Seq<char>, DescriptionView>::empty()),
    {
        Descriptions { table: table_new() }
    }

    /// Puts `description` under `id`.
    pub fn insert(&mut self, id: String, description: Description)
        ensures
            final(self)@ == old(self)@.insert(id@, description@),
    {
        table_insert(&mut self.table, id, description);
    }

    /// The description under `id`, if there is one.
    pub fn get(&self, id: &str) -> (found: Option<&Description>)
        ensures
            match found {
                Some(description) => self@.contains_key(id@) && description@ == self@[id@],
                None => !self@.contains_key(id@),
            },
    {
        table_get(&self.table, id)
    }

    /// Takes in the entries of the file `name`, each under its qualified
    /// name.
    pub fn load_file(&mut self, name: &str, entries: Vec<(String, Description)>)
        ensures
            final(self)@ == with_entries(old(self)@, name@, entries@),
    {
        let ghost all = entries@;
        for entry in it: entries
            invariant
                it.seq() == all,
                self@ == with_entries(old(self)@, name@, all.take(it.index() as int)),
        {
            let ghost i = it.index() as int;
            let (entry_name, desc) = entry;
            let mut qualifying_name = String::from_str(name);
            qualifying_name.append(".");
            qualifying_name.append(entry_name.as_str());
            proof {
                reveal_strlit(".");
                assert("."@ =~= seq!['.']);
                assert(all.take(i + 1).drop_last() =~= all.take(i));
            }
            self.insert(qualifying_name, desc);
        }
        assert(all.take(all.len() as int) =~= all);
    }
}

/// The descriptions of the tiles, from the entries of the file `tile`.
pub fn load_descriptions(entries: Vec<(String, Description)>) -> (descs: Descriptions)
    ensures
        descs@ == with_entries(Map::empty(), "tile"@, entries@),
{
    let mut descs = Descriptions::new();
    descs.load_file("tile", entries);
    descs
}

/// A thing that has a description.
pub trait Describe {
    /// The identifier under which the description is kept.
    spec fn id(&self) -> Seq<char>;

    /// The identifier under which the description is kept.
    fn desc_id(&self) -> (id: String)
        ensures
            id@ == self.id(),
    ;

    /// Looks up the description of this thing.
    fn description<'a>(&self, descriptions: &'a Descriptions) -> (description: &'a Description)
        requires
            descriptions@.contains_key(self.id()),
        ensures
            description@ == descriptions@[self.id()],
    {
        let id = self.desc_id();
        match descriptions.get(id.as_str()) {
            Some(description) => description,
            None => vstd::pervasive::unreached(),
        }
    }
}

} // verus!
