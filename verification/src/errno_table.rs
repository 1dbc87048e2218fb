//! Putting the table of error codes together from the definitions in the
//! kernel's headers.
//!
//! Every code needs a description; two codes of the kernel come without one
//! in the headers and get theirs here. A name may be defined again with the
//! same number, and then takes the later description; with another number it
//! is a contradiction. An alias has to stand for a name that is defined.
use crate::errno_gen::{Entry, Errno};
use vstd::prelude::*;
use vstd::string::*;

verus! {

/// A code: its name, its number and its description.
#[derive(Debug, PartialEq, Eq)]
pub struct Definition {
    pub name: Vec<u8>,
    pub value: i32,
    pub description: Vec<u8>,
}

/// Another name for a code: the name, and the name that it stands for.
#[derive(Debug, PartialEq, Eq)]
pub struct Alias {
    pub name: Vec<u8>,
    pub target: Vec<u8>,
}

/// Why a table cannot be made of the definitions.
#[derive(Debug, PartialEq, Eq)]
pub enum TableError {
    /// The code of this name has no description.
    NoDescription(Vec<u8>),
    /// A name is defined twice with different numbers; this is the number of
    /// the earlier definition.
    DefinedTwice(i32),
    /// The alias stands for a name that is not defined.
    UnknownAlias(Vec<u8>, Vec<u8>),
}

/// What a table holds: codes and aliases, each in the order in which their
/// names first came.
pub struct TableView {
    pub defs: Seq<(Seq<u8>, i32, Seq<u8>)>,
    pub aliases: Seq<(Seq<u8>, Seq<u8>)>,
}

/// Why a table cannot be made, in terms of what the definitions say.
pub enum Refusal {
    NoDescription(Seq<u8>),
    DefinedTwice(i32),
    UnknownAlias(Seq<u8>, Seq<u8>),
}

impl View for Definition {
    type V = (Seq<u8>, i32, Seq<u8>);

    open spec fn view(&self) -> (Seq<u8>, i32, Seq<u8>) {
        (self.name@, self.value, self.description@)
    }
}

impl View for Alias {
    type V = (Seq<u8>, Seq<u8>);

    open spec fn view(&self) -> (Seq<u8>, Seq<u8>) {
        (self.name@, self.target@)
    }
}

impl View for TableError {
    type V = Refusal;

    open spec fn view(&self) -> Refusal {
        match self {
            TableError::NoDescription(name) => Refusal::NoDescription(name@),
            TableError::DefinedTwice(other) => Refusal::DefinedTwice(*other),
            TableError::UnknownAlias(name, target) => Refusal::UnknownAlias(name@, target@),
        }
    }
}

/// The table of error codes.
#[derive(Debug)]
pub struct Table {
    defs: Vec<Definition>,
    aliases: Vec<Alias>,
}

impl View for Table {
    type V = TableView;

    closed spec fn view(&self) -> TableView {
        TableView {
            defs: self.defs@.map_values(|d: Definition| d@),
            aliases: self.aliases@.map_values(|a: Alias| a@),
        }
    }
}

/// The description of the codes that have none in the headers.
pub open spec fn default_description(name: Seq<u8>) -> Option<Seq<u8>> {
    if name == "ERESTARTSYS".spec_bytes() {
        Some("Restart syscall".spec_bytes())
    } else if name == "ERESTARTNOINTR".spec_bytes() {
        Some("Restart if no interrupt".spec_bytes())
    } else {
        None
    }
}

/// The description of a code: the one that its definition gives, else the
/// one that is provided here.
pub open spec fn description_of(name: Seq<u8>, given: Option<Seq<u8>>) -> Option<Seq<u8>> {
    match given {
        Some(text) => Some(text),
        None => default_description(name),
    }
}

/// The place of the first code among `defs` from `from` on that has the
/// name.
pub open spec fn def_position(defs: Seq<(Seq<u8>, i32, Seq<u8>)>, name: Seq<u8>, from: int)
    -> Option<int>
    decreases defs.len() - from,
{
    if from < 0 || from >= defs.len() {
        None
    } else if defs[from].0 == name {
        Some(from)
    } else {
        def_position(defs, name, from + 1)
    }
}

/// The place of the first alias among `aliases` from `from` on that has the
/// name.
pub open spec fn alias_position(aliases: Seq<(Seq<u8>, Seq<u8>)>, name: Seq<u8>, from: int)
    -> Option<int>
    decreases aliases.len() - from,
{
    if from < 0 || from >= aliases.len() {
        None
    } else if aliases[from].0 == name {
        Some(from)
    } else {
        alias_position(aliases, name, from + 1)
    }
}

/// The entries with `item` in the place `at`, or at the end if there is no
/// such place.
pub open spec fn put<T>(items: Seq<T>, at: Option<int>, item: T) -> Seq<T> {
    match at {
        Some(i) => items.update(i, item),
        None => items.push(item),
    }
}

/// The table after one more definition.
pub open spec fn added(t: TableView, e: Entry) -> Result<TableView, Refusal> {
    match e {
        Entry::Define(name, value, comment) => match description_of(name, comment) {
            None => Err(Refusal::NoDescription(name)),
            Some(text) => {
                let at = def_position(t.defs, name, 0);
                if at is Some && t.defs[at->0].1 != value {
                    Err(Refusal::DefinedTwice(t.defs[at->0].1))
                } else {
                    Ok(TableView { defs: put(t.defs, at, (name, value, text)), aliases: t.aliases })
                }
            },
        },
        Entry::Alias(name, target, _) => Ok(
            TableView {
                defs: t.defs,
                aliases: put(t.aliases, alias_position(t.aliases, name, 0), (name, target)),
            },
        ),
    }
}

/// The table after the definitions from `from` on, or why there is none: the
/// first refusal ends it.
pub open spec fn built(t: TableView, entries: Seq<Entry>, from: int) -> Result<TableView, Refusal>
    decreases entries.len() - from,
{
    if from < 0 || from >= entries.len() {
        Ok(t)
    } else {
        match added(t, entries[from]) {
            Ok(next) => built(next, entries, from + 1),
            Err(refusal) => Err(refusal),
        }
    }
}

/// The first alias from `from` on that stands for a name which is not
/// defined.
pub open spec fn unknown_alias(t: TableView, from: int) -> Option<(Seq<u8>, Seq<u8>)>
    decreases t.aliases.len() - from,
{
    if from < 0 || from >= t.aliases.len() {
        None
    } else if def_position(t.defs, t.aliases[from].1, 0) is None {
        Some(t.aliases[from])
    } else {
        unknown_alias(t, from + 1)
    }
}

/// Whether two texts are the same.
pub fn bytes_eq(a: &[u8], b: &[u8]) -> (r: bool)
    ensures
        r == (a@ == b@),
{
    if a.len() != b.len() {
        return false;
    }
    let mut i: usize = 0;
    while i < a.len()
        invariant
            i <= a@.len(),
            a@.len() == b@.len(),
            forall|k: int| 0 <= k < i ==> a@[k] == b@[k],
        decreases a@.len() - i,
    {
        if a[i] != b[i] {
            return false;
        }
        i += 1;
    }
    assert(a@ =~= b@);
    true
}

fn copy(text: &[u8]) -> (r: Vec<u8>)
    ensures
        r@ == text@,
{
    let mut out: Vec<u8> = Vec::new();
    let mut i: usize = 0;
    while i < text.len()
        invariant
            i <= text@.len(),
            out@ == text@.subrange(0, i as int),
        decreases text@.len() - i,
    {
        out.push(text[i]);
        assert(out@ =~= text@.subrange(0, i + 1));
        i += 1;
    }
    assert(out@ =~= text@);
    out
}

/// The description of a code: the one that its definition gives, else the
/// one that is provided here.
pub fn describe(name: &[u8], given: &Option<Vec<u8>>) -> (r: Option<Vec<u8>>)
    ensures
        crate::errno_gen::text_of(r) == description_of(name@, crate::errno_gen::text_of(*given)),
{
    match given {
        Some(text) => Some(copy(text.as_slice())),
        None => {
            if bytes_eq(name, "ERESTARTSYS".as_bytes()) {
                Some(copy("Restart syscall".as_bytes()))
            } else if bytes_eq(name, "ERESTARTNOINTR".as_bytes()) {
                Some(copy("Restart if no interrupt".as_bytes()))
            } else {
                None
            }
        },
    }
}

impl Table {
    /// The table without any code.
    pub fn new() -> (r: Self)
        ensures
            r@.defs.len() == 0,
            r@.aliases.len() == 0,
    {
        Table { defs: Vec::new(), aliases: Vec::new() }
    }

    /// The codes, in the order in which their names first came.
    pub fn definitions(&self) -> (r: &[Definition])
        ensures
            r@.map_values(|d: Definition| d@) == self@.defs,
    {
        self.defs.as_slice()
    }

    /// The aliases, in the order in which their names first came.
    pub fn aliases(&self) -> (r: &[Alias])
        ensures
            r@.map_values(|a: Alias| a@) == self@.aliases,
    {
        self.aliases.as_slice()
    }

    fn find_def(&self, name: &[u8]) -> (r: Option<usize>)
        ensures
            r is Some <==> def_position(self@.defs, name@, 0) is Some,
            r matches Some(i) ==> Some(i as int) == def_position(self@.defs, name@, 0) && i
                < self.defs@.len(),
    {
        let mut i: usize = 0;
        while i < self.defs.len()
            invariant
                i <= self.defs@.len(),
                self@.defs.len() == self.defs@.len(),
                def_position(self@.defs, name@, 0) == def_position(self@.defs, name@, i as int),
            decreases self.defs@.len() - i,
        {
            assert(self@.defs[i as int] == self.defs@[i as int]@);
            if bytes_eq(self.defs[i].name.as_slice(), name) {
                return Some(i);
            }
            i += 1;
        }
        None
    }

    fn find_alias(&self, name: &[u8]) -> (r: Option<usize>)
        ensures
            r is Some <==> alias_position(self@.aliases, name@, 0) is Some,
            r matches Some(i) ==> Some(i as int) == alias_position(self@.aliases, name@, 0) && i
                < self.aliases@.len(),
    {
        let mut i: usize = 0;
        while i < self.aliases.len()
            invariant
                i <= self.aliases@.len(),
                self@.aliases.len() == self.aliases@.len(),
                alias_position(self@.aliases, name@, 0) == alias_position(
                    self@.aliases,
                    name@,
                    i as int,
                ),
            decreases self.aliases@.len() - i,
        {
            assert(self@.aliases[i as int] == self.aliases@[i as int]@);
            if bytes_eq(self.aliases[i].name.as_slice(), name) {
                return Some(i);
            }
            i += 1;
        }
        None
    }

    /// Takes one more definition into the table. A definition that is refused
    /// leaves the table as it was.
    pub fn add(&mut self, entry: &Errno) -> (r: Result<(), TableError>)
        ensures
            match added(old(self)@, entry@) {
                Ok(t) => r is Ok && final(self)@ == t,
                Err(refusal) => r matches Err(e) && e@ == refusal && final(self)@ == old(self)@,
            },
    {
        match entry {
            Errno::Define(name, value, comment) => {
                let text = match describe(name.as_slice(), comment) {
                    Some(text) => text,
                    None => {
                        return Err(TableError::NoDescription(copy(name.as_slice())));
                    },
                };
                let def = Definition { name: copy(name.as_slice()), value: *value, description: text };
                let ghost before = self.defs@.map_values(|d: Definition| d@);
                match self.find_def(name.as_slice()) {
                    Some(i) => {
                        assert(before[i as int] == self.defs@[i as int]@);
                        let other: i32 = self.defs[i].value;
                        if other != *value {
                            return Err(TableError::DefinedTwice(other));
                        }
                        self.defs.set(i, def);
                        assert(self.defs@.map_values(|d: Definition| d@) =~= before.update(
                            i as int,
                            def@,
                        ));
                    },
                    None => {
                        self.defs.push(def);
                        assert(self.defs@.map_values(|d: Definition| d@) =~= before.push(def@));
                    },
                }
                Ok(())
            },
            Errno::Alias(name, target, _) => {
                let alias = Alias { name: copy(name.as_slice()), target: copy(target.as_slice()) };
                let ghost before = self.aliases@.map_values(|a: Alias| a@);
                match self.find_alias(name.as_slice()) {
                    Some(i) => {
                        self.aliases.set(i, alias);
                        assert(self.aliases@.map_values(|a: Alias| a@) =~= before.update(
                            i as int,
                            alias@,
                        ));
                    },
                    None => {
                        self.aliases.push(alias);
                        assert(self.aliases@.map_values(|a: Alias| a@) =~= before.push(alias@));
                    },
                }
                Ok(())
            },
        }
    }

    /// The table of the definitions, taken in their order, or the first
    /// refusal.
    pub fn from_entries(entries: &[Errno]) -> (r: Result<Self, TableError>)
        ensures
            match built(
                TableView { defs: Seq::empty(), aliases: Seq::empty() },
                entries@.map_values(|e: Errno| e@),
                0,
            ) {
                Ok(t) => r matches Ok(table) && table@ == t,
                Err(refusal) => r matches Err(e) && e@ == refusal,
            },
    {
        let mut table = Table::new();
        let ghost all = entries@.map_values(|e: Errno| e@);
        let ghost empty = TableView { defs: Seq::empty(), aliases: Seq::empty() };
        assert(table@.defs =~= empty.defs && table@.aliases =~= empty.aliases);
        let mut i: usize = 0;
        while i < entries.len()
            invariant
                i <= entries@.len(),
                all == entries@.map_values(|e: Errno| e@),
                empty == (TableView { defs: Seq::empty(), aliases: Seq::empty() }),
                built(empty, all, 0) == built(table@, all, i as int),
            decreases entries@.len() - i,
        {
            assert(all[i as int] == entries@[i as int]@);
            let ghost before = table@;
            match table.add(&entries[i]) {
                Ok(()) => {},
                Err(e) => {
                    assert(built(before, all, i as int) == Err::<TableView, Refusal>(e@));
                    return Err(e);
                },
            }
            i += 1;
        }
        Ok(table)
    }

    /// Checks that every alias stands for a name that is defined, and names
    /// the first that does not.
    pub fn check_aliases(&self) -> (r: Result<(), TableError>)
        ensures
            match unknown_alias(self@, 0) {
                None => r is Ok,
                Some(alias) => r matches Err(e) && e@ == Refusal::UnknownAlias(alias.0, alias.1),
            },
    {
        let mut i: usize = 0;
        while i < self.aliases.len()
            invariant
                i <= self.aliases@.len(),
                self@.aliases.len() == self.aliases@.len(),
                unknown_alias(self@, 0) == unknown_alias(self@, i as int),
            decreases self.aliases@.len() - i,
        {
            assert(self@.aliases[i as int] == self.aliases@[i as int]@);
            if self.find_def(self.aliases[i].target.as_slice()).is_none() {
                return Err(
                    TableError::UnknownAlias(
                        copy(self.aliases[i].name.as_slice()),
                        copy(self.aliases[i].target.as_slice()),
                    ),
                );
            }
            i += 1;
        }
        Ok(())
    }
}

} // verus!
