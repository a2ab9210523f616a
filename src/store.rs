use vstd::prelude::*;

use crate::entries::{Kind, Listing};
use crate::listing::{list_text, ListTemps};

verus! {

/// Why an operation was refused.
#[derive(Clone, Copy, Debug, PartialEq, Eq, Structural)]
pub enum StoreError {
    /// The template name, or the source path, does not exist.
    NotFound,
    /// The name is already taken: in the store on add, in the working
    /// directory on clone.
    Conflict,
    /// No rename was given and the source path has no final component to
    /// name the template by.
    NoName,
}

/// What the caller found at the path to be added.
#[derive(Debug)]
pub struct Source {
    /// The final component of the canonical path, if it has one.
    pub file_name: Option<String>,
    /// Whether the path is a regular file or a directory.
    pub kind: Kind,
}

/// Copy the source into the store as `templates/<name>`: for a directory,
/// its contents go into a new directory of that name.
#[derive(Debug)]
pub struct Ingest {
    pub name: String,
    pub kind: Kind,
}

/// Delete `templates/<name>`: the whole tree for a directory.
#[derive(Debug)]
pub struct Removal {
    pub name: String,
    pub kind: Kind,
}

/// Copy `templates/<name>` into the working directory as `<name>`.
#[derive(Debug)]
pub struct Materialize {
    pub name: String,
    pub kind: Kind,
}

/// The steps of an update: the removal, if the old template existed, and then
/// the addition or the reason it was refused. The removal stands even where
/// the addition is refused.
#[derive(Debug)]
pub struct Update {
    pub removed: Option<Removal>,
    pub added: Result<Ingest, StoreError>,
}

/// The operations, for their result lines.
#[derive(Clone, Copy, Debug, PartialEq, Eq, Structural)]
pub enum Op {
    Added,
    Removed,
    Updated,
    Cloned,
}

/// The name a template gets on add: the rename if one is given, else the
/// source's final path component.
pub open spec fn effective_name(source: Source, rename: Option<String>) -> Option<Seq<char>> {
    match rename {
        Some(r) => Some(r@),
        None => match source.file_name {
            Some(f) => Some(f@),
            None => None,
        },
    }
}

/// The outcome of adding `source` under `rename` to a store whose templates
/// are `m`: the new template's name, or the error.
pub open spec fn add_result(
    m: Map<Seq<char>, Kind>,
    source: Option<Source>,
    rename: Option<String>,
) -> Result<Seq<char>, StoreError> {
    match source {
        None => Err(StoreError::NotFound),
        Some(src) => match effective_name(src, rename) {
            None => Err(StoreError::NoName),
            Some(n) => if m.contains_key(n) {
                Err(StoreError::Conflict)
            } else {
                Ok(n)
            },
        },
    }
}

/// The store's templates after that add.
pub open spec fn after_add(
    m: Map<Seq<char>, Kind>,
    source: Option<Source>,
    rename: Option<String>,
) -> Map<Seq<char>, Kind> {
    match add_result(m, source, rename) {
        Ok(n) => m.insert(n, source.unwrap().kind),
        Err(_) => m,
    }
}

/// The outcome of removing `name`: the kind of what is deleted, or the error.
pub open spec fn remove_result(m: Map<Seq<char>, Kind>, name: Seq<char>) -> Result<
    Kind,
    StoreError,
> {
    if m.contains_key(name) {
        Ok(m[name])
    } else {
        Err(StoreError::NotFound)
    }
}

/// The store's templates after removing `name`.
pub open spec fn after_remove(m: Map<Seq<char>, Kind>, name: Seq<char>) -> Map<Seq<char>, Kind> {
    m.remove(name)
}

/// The store's templates after an update: remove `name`, then add.
pub open spec fn after_update(
    m: Map<Seq<char>, Kind>,
    source: Option<Source>,
    name: Seq<char>,
    rename: Option<String>,
) -> Map<Seq<char>, Kind> {
    if m.contains_key(name) {
        after_add(m.remove(name), source, rename)
    } else {
        m
    }
}

/// The outcome of cloning `name` into a working directory whose entries are
/// `cwd`: the kind of what is copied, or the error. Any entry of that name in
/// the working directory is a conflict, for file and directory templates
/// alike, so nothing there is ever overwritten or merged into.
pub open spec fn clone_result(
    m: Map<Seq<char>, Kind>,
    name: Seq<char>,
    cwd: Map<Seq<char>, Kind>,
) -> Result<Kind, StoreError> {
    if !m.contains_key(name) {
        Err(StoreError::NotFound)
    } else if cwd.contains_key(name) {
        Err(StoreError::Conflict)
    } else {
        Ok(m[name])
    }
}

/// The working directory's entries after that clone.
pub open spec fn after_clone(
    m: Map<Seq<char>, Kind>,
    name: Seq<char>,
    cwd: Map<Seq<char>, Kind>,
) -> Map<Seq<char>, Kind> {
    match clone_result(m, name, cwd) {
        Ok(k) => cwd.insert(name, k),
        Err(_) => cwd,
    }
}

/// The word that ends an operation's result line.
pub open spec fn op_word(op: Op) -> Seq<char> {
    match op {
        Op::Added => seq!['a', 'd', 'd', 'e', 'd'],
        Op::Removed => seq!['r', 'e', 'm', 'o', 'v', 'e', 'd'],
        Op::Updated => seq!['u', 'p', 'd', 'a', 't', 'e', 'd'],
        Op::Cloned => seq!['c', 'l', 'o', 'n', 'e', 'd'],
    }
}

/// `"Template <name> <word>"`.
pub open spec fn report_text(op: Op, name: Seq<char>) -> Seq<char> {
    seq!['T', 'e', 'm', 'p', 'l', 'a', 't', 'e', ' '] + name + seq![' '] + op_word(op)
}

/// The result line of a successful operation on the template `name`.
pub fn report(op: Op, name: &String) -> (r: String)
    ensures
        r@ == report_text(op, name@),
{
    let mut s = String::new();
    s.append("Template ");
    s.append(name.as_str());
    s.append(" ");
    let word = match op {
        Op::Added => "added",
        Op::Removed => "removed",
        Op::Updated => "updated",
        Op::Cloned => "cloned",
    };
    s.append(word);
    proof {
        reveal_strlit("Template ");
        reveal_strlit(" ");
        reveal_strlit("added");
        reveal_strlit("removed");
        reveal_strlit("updated");
        reveal_strlit("cloned");
        assert(word@ == op_word(op));
        assert(s@ =~= report_text(op, name@));
    }
    s
}

/// The templates directory of the store: one template per top-level entry,
/// named by it.
pub struct Store {
    templates: Listing,
}

impl View for Store {
    type V = Map<Seq<char>, Kind>;

    closed spec fn view(&self) -> Map<Seq<char>, Kind> {
        self.templates@
    }
}

impl Store {
    /// Template names are unique.
    pub closed spec fn wf(&self) -> bool {
        self.templates.wf()
    }

    /// The template names in the order in which the directory gave them.
    pub closed spec fn names(&self) -> Seq<Seq<char>> {
        self.templates.names()
    }

    /// The names of a well-formed store are its templates, each once.
    pub proof fn lemma_names(&self)
        requires
            self.wf(),
        ensures
            self.names().no_duplicates(),
            forall|k: Seq<char>| self.names().contains(k) <==> self@.contains_key(k),
    {
        self.templates.lemma_names();
    }

    /// The store whose templates directory has the given entries.
    pub fn from_listing(templates: Listing) -> (r: Store)
        requires
            templates.wf(),
        ensures
            r.wf(),
            r@ == templates@,
            r.names() == templates.names(),
    {
        Store { templates }
    }

    /// Whether a template called `name` exists.
    pub fn has_template(&self, name: &String) -> (r: bool)
        requires
            self.wf(),
        ensures
            r == self@.contains_key(name@),
    {
        self.templates.contains(name)
    }

    /// Registers `source` as a template named `rename`, or after its final
    /// path component; a name that is taken is a conflict, never an
    /// overwrite. `None` for a source path that does not exist.
    pub fn add(&mut self, source: Option<Source>, rename: Option<String>) -> (r: Result<
        Ingest,
        StoreError,
    >)
        requires
            old(self).wf(),
        ensures
            final(self).wf(),
            final(self)@ == after_add(old(self)@, source, rename),
            match r {
                Ok(ing) => add_result(old(self)@, source, rename) == Ok::<Seq<char>, StoreError>(
                    ing.name@,
                ) && ing.kind == source.unwrap().kind,
                Err(e) => add_result(old(self)@, source, rename) == Err::<Seq<char>, StoreError>(e),
            },
            r matches Ok(ing) ==> final(self).names() == old(self).names().push(ing.name@),
            r is Err ==> final(self).names() == old(self).names(),
    {
        let src = match source {
            None => {
                return Err(StoreError::NotFound);
            },
            Some(src) => src,
        };
        let name = match rename {
            Some(r) => r,
            None => match src.file_name {
                Some(f) => f,
                None => {
                    return Err(StoreError::NoName);
                },
            },
        };
        let kind = src.kind;
        if self.templates.insert(name.clone(), kind) {
            Ok(Ingest { name, kind })
        } else {
            Err(StoreError::Conflict)
        }
    }

    /// Deletes the template `name`; the step says what to delete.
    pub fn remove(&mut self, name: &String) -> (r: Result<Removal, StoreError>)
        requires
            old(self).wf(),
        ensures
            final(self).wf(),
            final(self)@ == after_remove(old(self)@, name@),
            match r {
                Ok(rem) => rem.name@ == name@ && remove_result(old(self)@, name@) == Ok::<
                    Kind,
                    StoreError,
                >(rem.kind),
                Err(e) => remove_result(old(self)@, name@) == Err::<Kind, StoreError>(e),
            },
            r is Err ==> final(self).names() == old(self).names(),
            r is Ok ==> exists|i: int|
                0 <= i < old(self).names().len() && old(self).names()[i] == name@
                    && final(self).names() == old(self).names().remove(i),
    {
        match self.templates.remove(name) {
            None => Err(StoreError::NotFound),
            Some(kind) => {
                proof {
                    let i = choose|i: int|
                        0 <= i < old(self).templates.names().len()
                            && old(self).templates.names()[i] == name@
                            && self.templates.names() == old(self).templates.names().remove(i);
                    assert(old(self).names()[i] == name@);
                }
                Ok(Removal { name: name.clone(), kind })
            },
        }
    }

    /// Replaces the template `name` by removing it and then adding `source`
    /// under `rename` (or its own name). Not atomic: where the addition is
    /// refused, the old template stays removed.
    pub fn update(&mut self, source: Option<Source>, name: &String, rename: Option<String>) -> (r:
        Update)
        requires
            old(self).wf(),
        ensures
            final(self).wf(),
            final(self)@ == after_update(old(self)@, source, name@, rename),
            r.removed is None <==> !old(self)@.contains_key(name@),
            r.removed is None ==> r.added == Err::<Ingest, StoreError>(StoreError::NotFound),
            r.removed matches Some(rem) ==> rem.name@ == name@ && rem.kind == old(self)@[name@],
            r.removed is Some ==> match r.added {
                Ok(ing) => add_result(old(self)@.remove(name@), source, rename) == Ok::<
                    Seq<char>,
                    StoreError,
                >(ing.name@) && ing.kind == source.unwrap().kind,
                Err(e) => add_result(old(self)@.remove(name@), source, rename) == Err::<
                    Seq<char>,
                    StoreError,
                >(e),
            },
    {
        match self.remove(name) {
            Err(e) => Update { removed: None, added: Err(e) },
            Ok(rem) => {
                let added = self.add(source, rename);
                Update { removed: Some(rem), added }
            },
        }
    }

    /// Copies the template `name` into the working directory `cwd` under its
    /// own name. Refused where no such template exists, or where `cwd`
    /// already has an entry of that name, which then stays as it is.
    pub fn clone_into(&self, name: &String, cwd: &mut Listing) -> (r: Result<
        Materialize,
        StoreError,
    >)
        requires
            self.wf(),
            old(cwd).wf(),
        ensures
            final(cwd).wf(),
            final(cwd)@ == after_clone(self@, name@, old(cwd)@),
            match r {
                Ok(mat) => mat.name@ == name@ && clone_result(self@, name@, old(cwd)@) == Ok::<
                    Kind,
                    StoreError,
                >(mat.kind),
                Err(e) => clone_result(self@, name@, old(cwd)@) == Err::<Kind, StoreError>(e),
            },
            r is Err ==> *final(cwd) == *old(cwd),
    {
        let kind = match self.templates.kind_of(name) {
            None => {
                return Err(StoreError::NotFound);
            },
            Some(k) => k,
        };
        if cwd.insert(name.clone(), kind) {
            Ok(Materialize { name: name.clone(), kind })
        } else {
            Err(StoreError::Conflict)
        }
    }

    /// The printed list of templates: one `" - <name>"` line each.
    pub fn list_temps(&self) -> (r: String)
        requires
            self.wf(),
        ensures
            r@ == list_text(self.names()),
    {
        let list = ListTemps::from_names(self.templates.names_vec());
        list.get_list_for_print()
    }
}

} // verus!
