//! The user database: every user name with its credential, held in memory
//! between a whole-file load and a whole-file save.

use vstd::prelude::*;

verus! {

/// One stored credential. It holds the hash of a password, never the password.
#[derive(Debug)]
pub struct User {
    pub password_hash: String,
}

impl View for User {
    type V = Seq<char>;

    open spec fn view(&self) -> Seq<char> {
        self.password_hash@
    }
}

impl Clone for User {
    fn clone(&self) -> (copy: Self)
        ensures
            copy == *self,
    {
        User { password_hash: self.password_hash.clone() }
    }
}

/// Why the database could not be loaded or saved.
#[derive(Clone, Copy, Debug, PartialEq, Eq, Structural)]
pub enum StoreError {
    /// The backing file could not be read or written.
    Io,
    /// The backing file does not hold a user database, or the database could
    /// not be encoded.
    Serialization,
}

/// What reading the backing file came to, before any rule of the database
/// is applied to it.
pub enum StoreFile {
    /// There is no backing file yet.
    Missing,
    /// The file is there and could not be read.
    Unreadable,
    /// The file was read and is not a table of users.
    Malformed,
    /// The users that the file lists, each name with its credential.
    Records(Vec<(String, User)>),
}

/// The names and password hashes of a list of records.
pub open spec fn entries_of(records: Seq<(String, User)>) -> Seq<(Seq<char>, Seq<char>)> {
    Seq::new(records.len(), |i: int| (records[i].0@, records[i].1@))
}

/// The mapping that a list of entries stands for. Where a name occurs twice,
/// the later entry counts.
pub open spec fn entries_map(entries: Seq<(Seq<char>, Seq<char>)>) -> Map<Seq<char>, Seq<char>>
    decreases entries.len(),
{
    if entries.len() == 0 {
        Map::empty()
    } else {
        entries_map(entries.drop_last()).insert(entries.last().0, entries.last().1)
    }
}

/// No name occurs twice in `entries`.
pub open spec fn distinct_names(entries: Seq<(Seq<char>, Seq<char>)>) -> bool {
    forall|i: int, j: int| 0 <= i < j < entries.len() ==> entries[i].0 != entries[j].0
}

/// No entry of `entries` has the empty name.
pub open spec fn all_named(entries: Seq<(Seq<char>, Seq<char>)>) -> bool {
    forall|i: int| 0 <= i < entries.len() ==> (#[trigger] entries[i]).0.len() > 0
}

/// What every database satisfies: it is finite and no user has the empty name.
pub open spec fn valid_store(db: Map<Seq<char>, Seq<char>>) -> bool {
    &&& db.dom().finite()
    &&& forall|name: Seq<char>| db.contains_key(name) ==> name.len() > 0
}

/// The names of [`entries_map`] are the names of the entries.
pub proof fn lemma_entries_map_names(entries: Seq<(Seq<char>, Seq<char>)>)
    ensures
        entries_map(entries).dom().finite(),
        forall|name: Seq<char>|
            entries_map(entries).contains_key(name) <==> exists|i: int|
                0 <= i < entries.len() && (#[trigger] entries[i]).0 == name,
    decreases entries.len(),
{
    if entries.len() > 0 {
        let front = entries.drop_last();
        lemma_entries_map_names(front);
        assert forall|name: Seq<char>|
            entries_map(entries).contains_key(name) <==> exists|i: int|
                0 <= i < entries.len() && (#[trigger] entries[i]).0 == name by {
            if entries_map(front).contains_key(name) {
                let i = choose|i: int| 0 <= i < front.len() && (#[trigger] front[i]).0 == name;
                assert(entries[i].0 == name);
            }
            if exists|i: int| 0 <= i < entries.len() && (#[trigger] entries[i]).0 == name {
                let i = choose|i: int| 0 <= i < entries.len() && (#[trigger] entries[i]).0 == name;
                if i < front.len() {
                    assert(front[i].0 == name);
                }
            }
        }
    }
}

/// Where no name occurs twice, [`entries_map`] gives each name the hash that
/// stands beside it.
pub proof fn lemma_entries_map_value(entries: Seq<(Seq<char>, Seq<char>)>, i: int)
    requires
        distinct_names(entries),
        0 <= i < entries.len(),
    ensures
        entries_map(entries).contains_key(entries[i].0),
        entries_map(entries)[entries[i].0] == entries[i].1,
    decreases entries.len(),
{
    if i < entries.len() - 1 {
        lemma_entries_map_value(entries.drop_last(), i);
    }
}

/// A list of named entries stands for a valid database.
pub proof fn lemma_entries_map_valid(entries: Seq<(Seq<char>, Seq<char>)>)
    requires
        all_named(entries),
    ensures
        valid_store(entries_map(entries)),
{
    lemma_entries_map_names(entries);
}

/// The user database: a mapping from user name to credential, in which every
/// name is non-empty and stands once.
#[derive(Debug)]
pub struct UserDatabase {
    records: Vec<(String, User)>,
}

impl View for UserDatabase {
    type V = Map<Seq<char>, Seq<char>>;

    /// The password hash of each user, by user name.
    closed spec fn view(&self) -> Map<Seq<char>, Seq<char>> {
        entries_map(entries_of(self.records@))
    }
}

impl UserDatabase {
    #[verifier::type_invariant]
    spec fn well_formed(self) -> bool {
        &&& distinct_names(entries_of(self.records@))
        &&& all_named(entries_of(self.records@))
    }

    /// A database without users.
    pub fn new() -> (db: Self)
        ensures
            db@ == Map::<Seq<char>, Seq<char>>::empty(),
            valid_store(db@),
    {
        UserDatabase { records: Vec::new() }
    }

    /// The place of the record of `name`, if it has one.
    fn find(&self, name: &str) -> (at: Option<usize>)
        ensures
            match at {
                Some(i) => i < self.records.len() && self.records[i as int].0@ == name@,
                None => !self@.contains_key(name@),
            },
    {
        let mut i: usize = 0;
        while i < self.records.len()
            invariant
                i <= self.records.len(),
                forall|j: int| 0 <= j < i ==> self.records[j].0@ != name@,
            decreases self.records.len() - i,
        {
            if self.records[i].0.as_str().eq(name) {
                return Some(i);
            }
            i = i + 1;
        }
        proof {
            lemma_entries_map_names(entries_of(self.records@));
        }
        None
    }

    /// Whether `name` is a user of the database.
    pub fn contains_key(&self, name: &str) -> (known: bool)
        ensures
            known == self@.contains_key(name@),
    {
        proof {
            use_type_invariant(self);
        }
        match self.find(name) {
            Some(i) => {
                proof {
                    lemma_entries_map_value(entries_of(self.records@), i as int);
                }
                true
            },
            None => false,
        }
    }

    /// The credential of `name`, if `name` is a user of the database.
    pub fn get(&self, name: &str) -> (found: Option<&User>)
        ensures
            match found {
                Some(user) => self@.contains_key(name@) && user@ == self@[name@],
                None => !self@.contains_key(name@),
            },
    {
        proof {
            use_type_invariant(self);
        }
        match self.find(name) {
            Some(i) => {
                proof {
                    lemma_entries_map_value(entries_of(self.records@), i as int);
                }
                Some(&self.records[i].1)
            },
            None => None,
        }
    }

    /// Stores `user` under `name`, in place of the credential that `name` had
    /// if it had one. The empty name is refused: the database stays as it was
    /// and the answer is `false`.
    pub fn insert(&mut self, name: String, user: User) -> (stored: bool)
        ensures
            stored == (name@.len() > 0),
            stored ==> final(self)@ == old(self)@.insert(name@, user@),
            !stored ==> final(self)@ == old(self)@,
            valid_store(final(self)@),
    {
        proof {
            use_type_invariant(&*self);
            lemma_entries_map_valid(entries_of(self.records@));
        }
        if name.as_str().is_empty() {
            return false;
        }
        let found = self.find(name.as_str());
        let ghost before = entries_of(self.records@);
        let ghost entry = (name@, user@);
        let mut records: Vec<(String, User)> = Vec::new();
        std::mem::swap(&mut records, &mut self.records);
        match found {
            Some(i) => {
                records.set(i, (name, user));
                proof {
                    let after = entries_of(records@);
                    assert(after =~= before.update(i as int, entry));
                    lemma_overwrite(before, i as int, entry.1);
                }
            },
            None => {
                records.push((name, user));
                proof {
                    let after = entries_of(records@);
                    assert(after =~= before.push(entry));
                    assert(after.drop_last() =~= before);
                    lemma_entries_map_names(before);
                    assert(distinct_names(after));
                }
            },
        }
        self.records = records;
        proof {
            lemma_entries_map_valid(entries_of(self.records@));
        }
        true
    }

    /// Every user with its credential, each once, in no particular order.
    pub fn records(&self) -> (records: Vec<(String, User)>)
        ensures
            entries_map(entries_of(records@)) == self@,
            distinct_names(entries_of(records@)),
            all_named(entries_of(records@)),
    {
        proof {
            use_type_invariant(self);
        }
        let mut records: Vec<(String, User)> = Vec::new();
        let mut i: usize = 0;
        while i < self.records.len()
            invariant
                i <= self.records.len(),
                records.len() == i,
                forall|j: int| 0 <= j < i ==> (#[trigger] records[j]) == self.records[j],
            decreases self.records.len() - i,
        {
            let name = self.records[i].0.clone();
            let user = self.records[i].1.clone();
            records.push((name, user));
            i = i + 1;
        }
        proof {
            assert(records@ =~= self.records@);
        }
        records
    }

    /// The database that `records` lists. A record with the empty name makes
    /// the list malformed; where a name occurs twice, the later record counts.
    pub fn from_records(records: Vec<(String, User)>) -> (loaded: Result<Self, StoreError>)
        ensures
            match loaded {
                Ok(db) => all_named(entries_of(records@)) && db@ == entries_map(
                    entries_of(records@),
                ) && valid_store(db@),
                Err(e) => !all_named(entries_of(records@)) && e == StoreError::Serialization,
            },
    {
        let mut db = UserDatabase::new();
        let mut i: usize = 0;
        let ghost entries = entries_of(records@);
        while i < records.len()
            invariant
                i <= records.len(),
                entries == entries_of(records@),
                all_named(entries.take(i as int)),
                db@ == entries_map(entries.take(i as int)),
                valid_store(db@),
            decreases records.len() - i,
        {
            let name = records[i].0.clone();
            let user = records[i].1.clone();
            proof {
                assert(entries.take(i + 1).drop_last() =~= entries.take(i as int));
            }
            let stored = db.insert(name, user);
            if !stored {
                proof {
                    assert(entries[i as int].0.len() == 0);
                }
                return Err(StoreError::Serialization);
            }
            proof {
                assert(all_named(entries.take(i + 1)));
            }
            i = i + 1;
        }
        proof {
            assert(entries.take(i as int) =~= entries);
        }
        Ok(db)
    }
}

/// Overwriting the hash of a name that stands once overwrites it in the map.
proof fn lemma_overwrite(entries: Seq<(Seq<char>, Seq<char>)>, i: int, hash: Seq<char>)
    requires
        distinct_names(entries),
        all_named(entries),
        0 <= i < entries.len(),
    ensures
        distinct_names(entries.update(i, (entries[i].0, hash))),
        all_named(entries.update(i, (entries[i].0, hash))),
        entries_map(entries.update(i, (entries[i].0, hash))) == entries_map(entries).insert(
            entries[i].0,
            hash,
        ),
{
    let name = entries[i].0;
    let after = entries.update(i, (name, hash));
    let left = entries_map(after);
    let right = entries_map(entries).insert(name, hash);
    lemma_entries_map_names(entries);
    lemma_entries_map_names(after);
    assert forall|key: Seq<char>| left.contains_key(key) <==> right.contains_key(key) by {
        if right.contains_key(key) && key != name {
            let j = choose|j: int| 0 <= j < entries.len() && (#[trigger] entries[j]).0 == key;
            assert(after[j].0 == key);
        }
        if key == name {
            assert(after[i].0 == key);
        }
    }
    assert forall|key: Seq<char>| left.contains_key(key) implies left[key] == right[key] by {
        let j = choose|j: int| 0 <= j < after.len() && (#[trigger] after[j]).0 == key;
        lemma_entries_map_value(after, j);
        if j != i {
            lemma_entries_map_value(entries, j);
        }
    }
}

/// `entries` lists the database `db`: every user once, with its hash, and
/// nobody else.
pub open spec fn is_listing(
    db: Map<Seq<char>, Seq<char>>,
    entries: Seq<(Seq<char>, Seq<char>)>,
) -> bool {
    &&& entries_map(entries) == db
    &&& distinct_names(entries)
    &&& all_named(entries)
}

/// The database that a backing file stands for, or the error that it gives.
pub open spec fn load_result(file: StoreFile) -> Result<Map<Seq<char>, Seq<char>>, StoreError> {
    match file {
        StoreFile::Missing => Ok(Map::empty()),
        StoreFile::Unreadable => Err(StoreError::Io),
        StoreFile::Malformed => Err(StoreError::Serialization),
        StoreFile::Records(records) => if all_named(entries_of(records@)) {
            Ok(entries_map(entries_of(records@)))
        } else {
            Err(StoreError::Serialization)
        },
    }
}

/// A load's result with the database replaced by its mapping.
pub open spec fn loaded_view(loaded: Result<UserDatabase, StoreError>) -> Result<
    Map<Seq<char>, Seq<char>>,
    StoreError,
> {
    match loaded {
        Ok(db) => Ok(db@),
        Err(e) => Err(e),
    }
}

/// Turns what reading the backing file came to into the database: a missing
/// file is the empty database, a file that could not be read is an I/O
/// failure, and one that does not list named users is a serialization failure.
pub fn load_db(file: StoreFile) -> (loaded: Result<UserDatabase, StoreError>)
    ensures
        loaded_view(loaded) == load_result(file),
        loaded matches Ok(db) ==> valid_store(db@),
{
    match file {
        StoreFile::Missing => Ok(UserDatabase::new()),
        StoreFile::Unreadable => Err(StoreError::Io),
        StoreFile::Malformed => Err(StoreError::Serialization),
        StoreFile::Records(records) => UserDatabase::from_records(records),
    }
}

/// The whole database as the backing file has to hold it after a save.
pub fn save_db(db: &UserDatabase) -> (file: StoreFile)
    ensures
        file matches StoreFile::Records(records) && is_listing(db@, entries_of(records@)),
{
    StoreFile::Records(db.records())
}

/// Loading what a save wrote gives the database that was saved: the same
/// users with the same password hashes.
pub proof fn law_save_then_load(db: Map<Seq<char>, Seq<char>>, file: StoreFile)
    requires
        file matches StoreFile::Records(records) && is_listing(db, entries_of(records@)),
    ensures
        load_result(file) == Ok::<Map<Seq<char>, Seq<char>>, StoreError>(db),
{
}

/// Every database that a load gives is valid: finite, and without the empty
/// user name.
pub proof fn law_loaded_store_is_valid(file: StoreFile)
    ensures
        load_result(file) matches Ok(db) ==> valid_store(db),
{
    if let StoreFile::Records(records) = file {
        if all_named(entries_of(records@)) {
            lemma_entries_map_valid(entries_of(records@));
        }
    }
}

} // verus!
