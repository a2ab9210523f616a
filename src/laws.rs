use vstd::prelude::*;

use crate::entries::Kind;
use crate::store::{
    add_result, after_add, after_clone, after_remove, after_update, clone_result, effective_name,
    remove_result, Source, StoreError,
};

verus! {

/// Adding a source under a free name and then cloning that name into a
/// working directory that lacks it puts an entry of the source's kind,
/// under the template's name, into the working directory.
pub proof fn law_add_then_clone(
    m: Map<Seq<char>, Kind>,
    source: Source,
    rename: Option<String>,
    cwd: Map<Seq<char>, Kind>,
)
    requires
        effective_name(source, rename) is Some,
        !m.contains_key(effective_name(source, rename).unwrap()),
        !cwd.contains_key(effective_name(source, rename).unwrap()),
    ensures
        ({
            let n = effective_name(source, rename).unwrap();
            let stored = after_add(m, Some(source), rename);
            &&& add_result(m, Some(source), rename) == Ok::<Seq<char>, StoreError>(n)
            &&& stored == m.insert(n, source.kind)
            &&& clone_result(stored, n, cwd) == Ok::<Kind, StoreError>(source.kind)
            &&& after_clone(stored, n, cwd) == cwd.insert(n, source.kind)
        }),
{
}

/// Adding anything under the name of an existing template is a conflict and
/// leaves the store as it was.
pub proof fn law_add_never_overwrites(m: Map<Seq<char>, Kind>, source: Source, name: String)
    requires
        m.contains_key(name@),
    ensures
        add_result(m, Some(source), Some(name)) == Err::<Seq<char>, StoreError>(
            StoreError::Conflict,
        ),
        after_add(m, Some(source), Some(name)) == m,
{
}

/// Cloning a template into a working directory that already has an entry of
/// its name is a conflict and leaves the working directory as it was.
pub proof fn law_clone_never_overwrites(
    m: Map<Seq<char>, Kind>,
    name: Seq<char>,
    cwd: Map<Seq<char>, Kind>,
)
    requires
        m.contains_key(name),
        cwd.contains_key(name),
    ensures
        clone_result(m, name, cwd) == Err::<Kind, StoreError>(StoreError::Conflict),
        after_clone(m, name, cwd) == cwd,
{
}

/// After a template is removed it is gone: removing or cloning it again
/// finds nothing.
pub proof fn law_remove_is_total(m: Map<Seq<char>, Kind>, name: Seq<char>, cwd: Map<Seq<char>, Kind>)
    ensures
        !after_remove(m, name).contains_key(name),
        remove_result(after_remove(m, name), name) == Err::<Kind, StoreError>(StoreError::NotFound),
        clone_result(after_remove(m, name), name, cwd) == Err::<Kind, StoreError>(
            StoreError::NotFound,
        ),
{
}

/// Three adds under distinct free names leave exactly those three templates
/// beside the ones that were there.
pub proof fn law_adds_accumulate(
    m: Map<Seq<char>, Kind>,
    a: Source,
    ra: Option<String>,
    b: Source,
    rb: Option<String>,
    c: Source,
    rc: Option<String>,
)
    requires
        effective_name(a, ra) is Some,
        effective_name(b, rb) is Some,
        effective_name(c, rc) is Some,
        !m.contains_key(effective_name(a, ra).unwrap()),
        !m.contains_key(effective_name(b, rb).unwrap()),
        !m.contains_key(effective_name(c, rc).unwrap()),
        effective_name(a, ra) != effective_name(b, rb),
        effective_name(a, ra) != effective_name(c, rc),
        effective_name(b, rb) != effective_name(c, rc),
    ensures
        after_add(after_add(after_add(m, Some(a), ra), Some(b), rb), Some(c), rc).dom() == m.dom()
            + set![
            effective_name(a, ra).unwrap(),
            effective_name(b, rb).unwrap(),
            effective_name(c, rc).unwrap(),
        ],
{
    let m3 = after_add(after_add(after_add(m, Some(a), ra), Some(b), rb), Some(c), rc);
    assert(m3.dom() =~= m.dom() + set![
        effective_name(a, ra).unwrap(),
        effective_name(b, rb).unwrap(),
        effective_name(c, rc).unwrap(),
    ]);
}

/// An update whose new source path does not exist still removes the named
/// template: it is lost.
pub proof fn law_failed_update_loses_template(
    m: Map<Seq<char>, Kind>,
    name: Seq<char>,
    rename: Option<String>,
)
    requires
        m.contains_key(name),
    ensures
        after_update(m, None, name, rename) == m.remove(name),
        !after_update(m, None, name, rename).contains_key(name),
{
}

} // verus!
