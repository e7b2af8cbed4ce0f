//! The configuration a run works from: the hosts that can be dumped, the
//! buckets that archives go to, and the jobs that pair one with the other.
//! It is loaded once and never changed afterwards.

use vstd::prelude::*;

verus! {

/// A database server and the credentials to dump from it.
#[derive(Debug, PartialEq, Eq)]
pub struct DatabaseConfig {
    pub db_host: String,
    pub db_port: u16,
    pub db_username: String,
    pub db_password: String,
}

pub struct DatabaseConfigView {
    pub db_host: Seq<char>,
    pub db_port: u16,
    pub db_username: Seq<char>,
    pub db_password: Seq<char>,
}

impl View for DatabaseConfig {
    type V = DatabaseConfigView;

    open spec fn view(&self) -> DatabaseConfigView {
        DatabaseConfigView {
            db_host: self.db_host@,
            db_port: self.db_port,
            db_username: self.db_username@,
            db_password: self.db_password@,
        }
    }
}

impl Clone for DatabaseConfig {
    fn clone(&self) -> (copy: Self)
        ensures
            copy == *self,
    {
        DatabaseConfig {
            db_host: self.db_host.clone(),
            db_port: self.db_port,
            db_username: self.db_username.clone(),
            db_password: self.db_password.clone(),
        }
    }
}

/// A storage bucket and the application key that may write to it.
#[derive(Debug, PartialEq, Eq)]
pub struct BackblazeConfig {
    pub application_id: String,
    pub application_key: String,
    pub bucket_id: String,
}

pub struct BackblazeConfigView {
    pub application_id: Seq<char>,
    pub application_key: Seq<char>,
    pub bucket_id: Seq<char>,
}

impl View for BackblazeConfig {
    type V = BackblazeConfigView;

    open spec fn view(&self) -> BackblazeConfigView {
        BackblazeConfigView {
            application_id: self.application_id@,
            application_key: self.application_key@,
            bucket_id: self.bucket_id@,
        }
    }
}

impl Clone for BackblazeConfig {
    fn clone(&self) -> (copy: Self)
        ensures
            copy == *self,
    {
        BackblazeConfig {
            application_id: self.application_id.clone(),
            application_key: self.application_key.clone(),
            bucket_id: self.bucket_id.clone(),
        }
    }
}

/// One backup job. `db_host` and `bucket` name entries of the host and bucket
/// tables; nothing checks them before the job is due. `databases` is `*` for
/// every database of the host, or the names to dump together.
#[derive(Debug, PartialEq, Eq)]
pub struct BackupConfig {
    pub db_name: String,
    pub db_host: String,
    pub bucket: String,
    pub remote_path: String,
    pub databases: String,
}

pub struct BackupConfigView {
    pub db_name: Seq<char>,
    pub db_host: Seq<char>,
    pub bucket: Seq<char>,
    pub remote_path: Seq<char>,
    pub databases: Seq<char>,
}

impl View for BackupConfig {
    type V = BackupConfigView;

    open spec fn view(&self) -> BackupConfigView {
        BackupConfigView {
            db_name: self.db_name@,
            db_host: self.db_host@,
            bucket: self.bucket@,
            remote_path: self.remote_path@,
            databases: self.databases@,
        }
    }
}

impl Clone for BackupConfig {
    fn clone(&self) -> (copy: Self)
        ensures
            copy == *self,
    {
        BackupConfig {
            db_name: self.db_name.clone(),
            db_host: self.db_host.clone(),
            bucket: self.bucket.clone(),
            remote_path: self.remote_path.clone(),
            databases: self.databases.clone(),
        }
    }
}

/// Settings that belong to no host, bucket or job.
#[derive(Debug, Clone, Copy, PartialEq, Eq)]
pub struct MiscConfig {
    /// Hours between the end of one cycle and the start of the next.
    pub backup_interval: u64,
}

pub const SECONDS_PER_HOUR: u64 = 3600;

impl MiscConfig {
    /// The pause between two cycles in seconds, or `None` where that number
    /// does not fit in 64 bits.
    pub fn interval_seconds(&self) -> (seconds: Option<u64>)
        ensures
            seconds == if self.backup_interval * SECONDS_PER_HOUR <= u64::MAX {
                Some((self.backup_interval * SECONDS_PER_HOUR) as u64)
            } else {
                None
            },
    {
        self.backup_interval.checked_mul(SECONDS_PER_HOUR)
    }
}

/// The names of `listing`, in order.
pub open spec fn names_of<V>(listing: Seq<(Seq<char>, V)>) -> Seq<Seq<char>> {
    Seq::new(listing.len(), |i: int| listing[i].0)
}

/// The mapping that `listing` spells out. Where a name occurs twice it maps
/// to one of its values; a table never holds such a listing.
pub open spec fn mapping_of<V>(listing: Seq<(Seq<char>, V)>) -> Map<Seq<char>, V> {
    Map::new(
        |name: Seq<char>| names_of(listing).contains(name),
        |name: Seq<char>| listing[names_of(listing).index_of(name)].1,
    )
}

#[derive(Debug)]
struct Entry<T: View> {
    name: String,
    value: T,
}

/// A mapping from names to values that remembers the order in which the names
/// came in. No name occurs twice.
#[derive(Debug)]
pub struct Table<T: View> {
    entries: Vec<Entry<T>>,
}

impl<T: View> Table<T> {
    /// The entries in the order in which their names were first inserted.
    pub closed spec fn listing(&self) -> Seq<(Seq<char>, T::V)> {
        Seq::new(self.entries@.len(), |i: int| (self.entries@[i].name@, self.entries@[i].value@))
    }

    #[verifier::type_invariant]
    spec fn names_are_distinct(&self) -> bool {
        names_of(self.listing()).no_duplicates()
    }

    /// A table without entries.
    pub fn new() -> (table: Self)
        ensures
            table.listing() == Seq::<(Seq<char>, T::V)>::empty(),
            table@ == Map::<Seq<char>, T::V>::empty(),
    {
        let table = Table { entries: Vec::new() };
        assert(table.listing() =~= Seq::<(Seq<char>, T::V)>::empty());
        assert(table@ =~= Map::<Seq<char>, T::V>::empty());
        table
    }

    /// The number of entries, which is the number of names: in a table that
    /// exists at run time no name is listed twice.
    pub fn len(&self) -> (n: usize)
        ensures
            n == self.listing().len(),
            n == self@.len(),
            names_of(self.listing()).no_duplicates(),
    {
        proof {
            use_type_invariant(self);
            lemma_mapping_of_distinct(self.listing());
        }
        self.entries.len()
    }

    /// The name of the entry at `index`.
    pub fn name_at(&self, index: usize) -> (name: &String)
        requires
            index < self.listing().len(),
        ensures
            name@ == self.listing()[index as int].0,
    {
        &self.entries[index].name
    }

    /// The value of the entry at `index`.
    pub fn value_at(&self, index: usize) -> (value: &T)
        requires
            index < self.listing().len(),
        ensures
            value@ == self.listing()[index as int].1,
    {
        &self.entries[index].value
    }

    /// Where `name` stands in the listing, if it does.
    pub fn position(&self, name: &String) -> (found: Option<usize>)
        ensures
            match found {
                Some(index) => index < self.listing().len() && self.listing()[index as int].0
                    == name@,
                None => !self@.contains_key(name@),
            },
    {
        let mut index: usize = 0;
        while index < self.entries.len()
            invariant
                index <= self.entries@.len(),
                forall|i: int| 0 <= i < index ==> self.listing()[i].0 != name@,
            decreases self.entries@.len() - index,
        {
            if self.entries[index].name == *name {
                return Some(index);
            }
            index += 1;
        }
        None
    }

    /// The value that `name` maps to.
    pub fn get(&self, name: &String) -> (found: Option<&T>)
        ensures
            match found {
                Some(value) => self@.contains_key(name@) && self@[name@] == value@,
                None => !self@.contains_key(name@),
            },
    {
        match self.position(name) {
            Some(index) => {
                proof {
                    use_type_invariant(self);
                    lemma_mapping_of_distinct(self.listing());
                }
                Some(&self.entries[index].value)
            },
            None => None,
        }
    }

    /// Maps `name` to `value`. A name that is new goes to the end of the
    /// listing; one that was there keeps its place and loses its old value.
    pub fn insert(&mut self, name: String, value: T)
        ensures
            final(self)@ == old(self)@.insert(name@, value@),
            final(self).listing() == match names_of(old(self).listing()).index_of_first(name@) {
                Some(index) => old(self).listing().update(index, (name@, value@)),
                None => old(self).listing().push((name@, value@)),
            },
    {
        let ghost before = self.listing();
        proof {
            use_type_invariant(&*self);
            lemma_mapping_of_distinct(before);
            names_of(before).index_of_first_ensures(name@);
        }
        let found = self.position(&name);
        proof {
            match found {
                Some(index) => {
                    assert(names_of(before)[index as int] == name@);
                    assert(names_of(before).index_of_first(name@) == Some(index as int));
                },
                None => {
                    assert(!names_of(before).contains(name@));
                },
            }
        }
        let mut entries: Vec<Entry<T>> = Vec::new();
        core::mem::swap(&mut self.entries, &mut entries);
        let ghost after = match found {
            Some(index) => before.update(index as int, (name@, value@)),
            None => before.push((name@, value@)),
        };
        match found {
            Some(index) => {
                entries.set(index, Entry { name, value });
                proof {
                    assert(names_of(after) =~= names_of(before));
                }
            },
            None => {
                entries.push(Entry { name, value });
                proof {
                    assert(names_of(after) =~= names_of(before).push(name@));
                }
            },
        }
        proof {
            assert(Seq::new(entries@.len(), |i: int| (entries@[i].name@, entries@[i].value@))
                =~= after);
            lemma_mapping_after_insert(before, after, name@, value@);
        }
        core::mem::swap(&mut self.entries, &mut entries);
    }
}

impl<T: View> View for Table<T> {
    type V = Map<Seq<char>, T::V>;

    open spec fn view(&self) -> Map<Seq<char>, T::V> {
        mapping_of(self.listing())
    }
}

/// In a listing without a repeated name the mapping has one key for each
/// entry, and gives each name the value listed with it.
pub proof fn lemma_mapping_of_distinct<V>(listing: Seq<(Seq<char>, V)>)
    requires
        names_of(listing).no_duplicates(),
    ensures
        mapping_of(listing).dom().finite(),
        mapping_of(listing).len() == listing.len(),
        forall|i: int|
            0 <= i < listing.len() ==> mapping_of(listing).contains_key(#[trigger] listing[i].0)
                && mapping_of(listing)[listing[i].0] == listing[i].1,
{
    let names = names_of(listing);
    assert forall|i: int| 0 <= i < listing.len() implies mapping_of(listing).contains_key(
        #[trigger] listing[i].0,
    ) && mapping_of(listing)[listing[i].0] == listing[i].1 by {
        assert(names[i] == listing[i].0);
        let j = names.index_of(listing[i].0);
        assert(0 <= j < names.len() && names[j] == names[i]);
    }
    names.unique_seq_to_set();
    assert(mapping_of(listing).dom() =~= names.to_set());
}

proof fn lemma_mapping_after_insert<V>(
    before: Seq<(Seq<char>, V)>,
    after: Seq<(Seq<char>, V)>,
    name: Seq<char>,
    value: V,
)
    requires
        names_of(before).no_duplicates(),
        after == match names_of(before).index_of_first(name) {
            Some(index) => before.update(index, (name, value)),
            None => before.push((name, value)),
        },
    ensures
        names_of(after).no_duplicates(),
        mapping_of(after) == mapping_of(before).insert(name, value),
{
    let old_names = names_of(before);
    let new_names = names_of(after);
    old_names.index_of_first_ensures(name);
    match old_names.index_of_first(name) {
        Some(index) => {
            assert(new_names =~= old_names);
        },
        None => {
            assert(new_names =~= old_names.push(name));
        },
    }
    lemma_mapping_of_distinct(before);
    lemma_mapping_of_distinct(after);
    assert forall|key: Seq<char>| #[trigger]
        mapping_of(after).contains_key(key) == mapping_of(before).insert(
            name,
            value,
        ).contains_key(key) by {
        if old_names.contains(key) {
            let i = old_names.index_of(key);
            assert(new_names[i] == key);
        }
        if new_names.contains(key) && key != name {
            let i = new_names.index_of(key);
            assert(old_names[i] == key);
        }
        if key == name {
            match old_names.index_of_first(name) {
                Some(index) => {
                    assert(new_names[index] == name);
                },
                None => {
                    assert(new_names[before.len() as int] == name);
                },
            }
        }
    }
    assert forall|key: Seq<char>| #[trigger]
        mapping_of(after).contains_key(key) implies mapping_of(after)[key] == mapping_of(
            before,
        ).insert(name, value)[key] by {
        let i = new_names.index_of(key);
        assert(after[i].0 == key);
        if key != name {
            assert(before[i].0 == key);
            assert(after[i] == before[i]);
        }
    }
    assert(mapping_of(after) =~= mapping_of(before).insert(name, value));
}

/// Everything a run reads: the pause between cycles and the three tables.
#[derive(Debug)]
pub struct Config {
    pub config: MiscConfig,
    pub hosts: Table<DatabaseConfig>,
    pub databases: Table<BackupConfig>,
    pub buckets: Table<BackblazeConfig>,
}

pub struct ConfigView {
    pub backup_interval: u64,
    pub hosts: Map<Seq<char>, DatabaseConfigView>,
    pub databases: Seq<(Seq<char>, BackupConfigView)>,
    pub buckets: Map<Seq<char>, BackblazeConfigView>,
}

impl View for Config {
    type V = ConfigView;

    open spec fn view(&self) -> ConfigView {
        ConfigView {
            backup_interval: self.config.backup_interval,
            hosts: self.hosts@,
            databases: self.databases.listing(),
            buckets: self.buckets@,
        }
    }
}

} // verus!
