use vstd::prelude::*;

use crate::chars::str_eq;
use crate::model::{doc_view, CustomWidget, DocValue, MainConfig, Windows};
use crate::strmap::{assoc_map, StrMap};

verus! {

/// The value bound to `k` in an association sequence; a later binding
/// wins, as the host overwrites earlier ones.
pub open spec fn env_lookup(env: Seq<(String, DocValue)>, k: Seq<char>) -> Option<DocValue>
    decreases env.len(),
{
    if env.len() == 0 {
        None
    } else if env.last().0@ == k {
        Some(env.last().1)
    } else {
        env_lookup(env.drop_last(), k)
    }
}

/// The entries of the table bound to `k`, or nothing when `k` is unbound
/// or bound to something that is not a table.
pub open spec fn table_of(env: Seq<(String, DocValue)>, k: Seq<char>) -> Seq<(String, DocValue)> {
    match env_lookup(env, k) {
        Some(DocValue::Table(t)) => t@,
        _ => Seq::empty(),
    }
}

/// The string bound to `k` among `fields`; a non-string value counts as
/// absent.
pub open spec fn str_field(fields: Seq<(String, DocValue)>, k: Seq<char>) -> Option<String> {
    match env_lookup(fields, k) {
        Some(DocValue::Str(s)) => Some(s),
        _ => None,
    }
}

/// The window a declaration's fields describe: each recognized key read
/// as a string, every other key ignored.
pub open spec fn spec_window_of(fields: Seq<(String, DocValue)>) -> Windows {
    Windows {
        width: str_field(fields, "width"@),
        height: str_field(fields, "height"@),
        win_type: str_field(fields, "win_type"@),
        offset_x: str_field(fields, "offset_x"@),
        position: str_field(fields, "position"@),
        left_contents: str_field(fields, "left_contents"@),
        center_contents: str_field(fields, "center_contents"@),
        right_contents: str_field(fields, "right_contents"@),
    }
}

/// The custom widget a declaration's fields describe.
pub open spec fn spec_custom_of(fields: Seq<(String, DocValue)>) -> CustomWidget {
    CustomWidget { type_: str_field(fields, "type"@), content: str_field(fields, "content"@) }
}

/// The window map a `windows` table denotes: one entry per child that is
/// itself a table, later children shadowing earlier ones.
pub open spec fn spec_windows_map(entries: Seq<(String, DocValue)>) -> Map<Seq<char>, Windows>
    decreases entries.len(),
{
    if entries.len() == 0 {
        Map::empty()
    } else {
        let rest = spec_windows_map(entries.drop_last());
        match entries.last().1 {
            DocValue::Table(fields) => rest.insert(entries.last().0@, spec_window_of(fields@)),
            _ => rest,
        }
    }
}

/// The custom-widget map a `custom` table denotes.
pub open spec fn spec_customs_map(entries: Seq<(String, DocValue)>) -> Map<Seq<char>, CustomWidget>
    decreases entries.len(),
{
    if entries.len() == 0 {
        Map::empty()
    } else {
        let rest = spec_customs_map(entries.drop_last());
        match entries.last().1 {
            DocValue::Table(fields) => rest.insert(entries.last().0@, spec_custom_of(fields@)),
            _ => rest,
        }
    }
}

/// The index of the winning binding of `key`, scanning from the end.
pub fn env_find(env: &Vec<(String, DocValue)>, key: &str) -> (r: Option<usize>)
    ensures
        r matches Some(i) ==> i < env@.len() && env@[i as int].0@ == key@ && env_lookup(
            env@,
            key@,
        ) == Some(env@[i as int].1),
        r is None ==> env_lookup(env@, key@) is None,
{
    let n = env.len();
    let mut i: usize = n;
    proof {
        assert(env@.take(n as int) =~= env@);
    }
    while i > 0
        invariant
            0 <= i <= n,
            n == env@.len(),
            env_lookup(env@, key@) == env_lookup(env@.take(i as int), key@),
        decreases i,
    {
        proof {
            assert(env@.take(i as int).drop_last() =~= env@.take(i - 1));
            assert(env@.take(i as int).last() == env@[i - 1]);
        }
        let e = &env[i - 1];
        if str_eq(e.0.as_str(), key) {
            return Some(i - 1);
        }
        i = i - 1;
    }
    proof {
        assert(env@.take(0) =~= Seq::<(String, DocValue)>::empty());
    }
    None
}

/// Read the string field `key` out of a declaration's field table.
pub fn str_field_of(fields: &Vec<(String, DocValue)>, key: &str) -> (r: Option<String>)
    ensures
        r == str_field(fields@, key@),
{
    match env_find(fields, key) {
        Some(i) => {
            let e = &fields[i];
            match &e.1 {
                DocValue::Str(s) => Some(s.clone()),
                _ => None,
            }
        },
        None => None,
    }
}

/// Project one window declaration.
pub fn window_of(fields: &Vec<(String, DocValue)>) -> (r: Windows)
    ensures
        r == spec_window_of(fields@),
{
    Windows {
        width: str_field_of(fields, "width"),
        height: str_field_of(fields, "height"),
        win_type: str_field_of(fields, "win_type"),
        offset_x: str_field_of(fields, "offset_x"),
        position: str_field_of(fields, "position"),
        left_contents: str_field_of(fields, "left_contents"),
        center_contents: str_field_of(fields, "center_contents"),
        right_contents: str_field_of(fields, "right_contents"),
    }
}

/// Project one custom-widget declaration.
pub fn custom_of(fields: &Vec<(String, DocValue)>) -> (r: CustomWidget)
    ensures
        r == spec_custom_of(fields@),
{
    CustomWidget { type_: str_field_of(fields, "type"), content: str_field_of(fields, "content") }
}

/// Project a `windows` table: children that are tables become windows,
/// all other children are passed over.
pub fn parse_windows(entries: &Vec<(String, DocValue)>) -> (r: StrMap<Windows>)
    ensures
        r@ == spec_windows_map(entries@),
{
    let mut out = StrMap::<Windows>::new();
    let n = entries.len();
    let mut i: usize = 0;
    while i < n
        invariant
            0 <= i <= n,
            n == entries@.len(),
            out@ == spec_windows_map(entries@.take(i as int)),
        decreases n - i,
    {
        proof {
            assert(entries@.take(i + 1).drop_last() =~= entries@.take(i as int));
            assert(entries@.take(i + 1).last() == entries@[i as int]);
        }
        let e = &entries[i];
        match &e.1 {
            DocValue::Table(fields) => {
                let w = window_of(fields);
                out.insert(e.0.clone(), w);
            },
            _ => {},
        }
        i = i + 1;
    }
    proof {
        assert(entries@.take(n as int) =~= entries@);
    }
    out
}

/// Project a `custom` table.
pub fn parse_custom(entries: &Vec<(String, DocValue)>) -> (r: StrMap<CustomWidget>)
    ensures
        r@ == spec_customs_map(entries@),
{
    let mut out = StrMap::<CustomWidget>::new();
    let n = entries.len();
    let mut i: usize = 0;
    while i < n
        invariant
            0 <= i <= n,
            n == entries@.len(),
            out@ == spec_customs_map(entries@.take(i as int)),
        decreases n - i,
    {
        proof {
            assert(entries@.take(i + 1).drop_last() =~= entries@.take(i as int));
            assert(entries@.take(i + 1).last() == entries@[i as int]);
        }
        let e = &entries[i];
        match &e.1 {
            DocValue::Table(fields) => {
                let w = custom_of(fields);
                out.insert(e.0.clone(), w);
            },
            _ => {},
        }
        i = i + 1;
    }
    proof {
        assert(entries@.take(n as int) =~= entries@);
    }
    out
}

/// Project a `boo` table: every entry is kept, its value carried through
/// with the same abstract tree.
pub fn parse_boo(entries: &Vec<(String, DocValue)>) -> (r: StrMap<DocValue>)
    ensures
        r@.dom() == assoc_map(entries@).dom(),
        forall|k: Seq<char>|
            r@.dom().contains(k) ==> doc_view(#[trigger] r@[k]) == doc_view(assoc_map(entries@)[k]),
{
    let mut out = StrMap::<DocValue>::new();
    let n = entries.len();
    let mut i: usize = 0;
    while i < n
        invariant
            0 <= i <= n,
            n == entries@.len(),
            out@.dom() =~= assoc_map(entries@.take(i as int)).dom(),
            forall|k: Seq<char>|
                out@.dom().contains(k) ==> doc_view(#[trigger] out@[k]) == doc_view(
                    assoc_map(entries@.take(i as int))[k],
                ),
        decreases n - i,
    {
        proof {
            assert(entries@.take(i + 1).drop_last() =~= entries@.take(i as int));
            assert(entries@.take(i + 1).last() == entries@[i as int]);
        }
        let e = &entries[i];
        let v = crate::model::doc_clone(&e.1);
        out.insert(e.0.clone(), v);
        i = i + 1;
    }
    proof {
        assert(entries@.take(n as int) =~= entries@);
        assert(out@.dom() =~= assoc_map(entries@).dom());
    }
    out
}

/// Project a whole evaluated environment into the typed configuration:
/// the `windows`, `custom` and `boo` tables become their typed maps, and
/// a missing or non-table binding projects to an empty map.
pub fn project(env: &Vec<(String, DocValue)>) -> (r: MainConfig)
    ensures
        r.windows@ == spec_windows_map(table_of(env@, "windows"@)),
        r.custom@ == spec_customs_map(table_of(env@, "custom"@)),
        r.boo@.dom() == assoc_map(table_of(env@, "boo"@)).dom(),
        forall|k: Seq<char>|
            r.boo@.dom().contains(k) ==> doc_view(#[trigger] r.boo@[k]) == doc_view(
                assoc_map(table_of(env@, "boo"@))[k],
            ),
{
    let windows = match env_find(env, "windows") {
        Some(i) => {
            let e = &env[i];
            match &e.1 {
                DocValue::Table(t) => parse_windows(t),
                _ => StrMap::new(),
            }
        },
        None => StrMap::new(),
    };
    let custom = match env_find(env, "custom") {
        Some(i) => {
            let e = &env[i];
            match &e.1 {
                DocValue::Table(t) => parse_custom(t),
                _ => StrMap::new(),
            }
        },
        None => StrMap::new(),
    };
    let boo = match env_find(env, "boo") {
        Some(i) => {
            let e = &env[i];
            match &e.1 {
                DocValue::Table(t) => parse_boo(t),
                _ => StrMap::new(),
            }
        },
        None => StrMap::new(),
    };
    MainConfig { windows, custom, boo }
}

} // verus!
