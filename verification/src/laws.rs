use vstd::prelude::*;

use crate::model::{doc_view, DocValue, MainConfig, Windows};
use crate::project::{
    env_lookup, spec_custom_of, spec_customs_map, spec_window_of, spec_windows_map, str_field,
    table_of,
};
use crate::strmap::assoc_map;

verus! {

/// A `windows` table's children that are tables appear in the window map
/// under their own name, projected field by field; a name bound to no
/// child is absent.
pub proof fn lemma_windows_map_lookup(entries: Seq<(String, DocValue)>, w: Seq<char>)
    ensures
        env_lookup(entries, w) matches Some(DocValue::Table(f)) ==> spec_windows_map(
            entries,
        ).contains_key(w) && spec_windows_map(entries)[w] == spec_window_of(f@),
        env_lookup(entries, w) is None ==> !spec_windows_map(entries).contains_key(w),
    decreases entries.len(),
{
    if entries.len() > 0 {
        lemma_windows_map_lookup(entries.drop_last(), w);
    }
}

/// The same, for a `custom` table.
pub proof fn lemma_customs_map_lookup(entries: Seq<(String, DocValue)>, w: Seq<char>)
    ensures
        env_lookup(entries, w) matches Some(DocValue::Table(f)) ==> spec_customs_map(
            entries,
        ).contains_key(w) && spec_customs_map(entries)[w] == spec_custom_of(f@),
        env_lookup(entries, w) is None ==> !spec_customs_map(entries).contains_key(w),
    decreases entries.len(),
{
    if entries.len() > 0 {
        lemma_customs_map_lookup(entries.drop_last(), w);
    }
}

/// Law: when the document's `windows` table binds `w` to a table of
/// fields, the projected window for `w` holds exactly the string fields
/// of that table — each recognized key that is bound to a string is
/// present with that string, and every other field is absent.
pub proof fn lemma_window_projection(env: Seq<(String, DocValue)>, w: Seq<char>, f: Vec<(String, DocValue)>)
    requires
        env_lookup(table_of(env, "windows"@), w) == Some(DocValue::Table(f)),
    ensures
        spec_windows_map(table_of(env, "windows"@)).contains_key(w),
        spec_windows_map(table_of(env, "windows"@))[w] == (Windows {
            width: str_field(f@, "width"@),
            height: str_field(f@, "height"@),
            win_type: str_field(f@, "win_type"@),
            offset_x: str_field(f@, "offset_x"@),
            position: str_field(f@, "position"@),
            left_contents: str_field(f@, "left_contents"@),
            center_contents: str_field(f@, "center_contents"@),
            right_contents: str_field(f@, "right_contents"@),
        }),
{
    lemma_windows_map_lookup(table_of(env, "windows"@), w);
}

/// Law: a document lacking a top-level `windows` binding projects to an
/// empty window map.
pub proof fn lemma_missing_windows(env: Seq<(String, DocValue)>)
    requires
        env_lookup(env, "windows"@) is None,
    ensures
        spec_windows_map(table_of(env, "windows"@)) == Map::<Seq<char>, Windows>::empty(),
{
}

/// Law: projection is deterministic — two configurations projected from
/// the same environment agree on the window map, the custom-widget map,
/// and the `boo` namespace up to the values' abstract trees. Running the
/// projector twice therefore yields equal results.
pub proof fn lemma_project_deterministic(env: Seq<(String, DocValue)>, a: MainConfig, b: MainConfig)
    requires
        a.windows@ == spec_windows_map(table_of(env, "windows"@)),
        b.windows@ == spec_windows_map(table_of(env, "windows"@)),
        a.custom@ == spec_customs_map(table_of(env, "custom"@)),
        b.custom@ == spec_customs_map(table_of(env, "custom"@)),
        a.boo@.dom() == assoc_map(table_of(env, "boo"@)).dom(),
        b.boo@.dom() == assoc_map(table_of(env, "boo"@)).dom(),
        forall|k: Seq<char>|
            a.boo@.dom().contains(k) ==> doc_view(#[trigger] a.boo@[k]) == doc_view(
                assoc_map(table_of(env, "boo"@))[k],
            ),
        forall|k: Seq<char>|
            b.boo@.dom().contains(k) ==> doc_view(#[trigger] b.boo@[k]) == doc_view(
                assoc_map(table_of(env, "boo"@))[k],
            ),
    ensures
        a.windows@ == b.windows@,
        a.custom@ == b.custom@,
        a.boo@.dom() == b.boo@.dom(),
        forall|k: Seq<char>|
            a.boo@.dom().contains(k) ==> doc_view(#[trigger] a.boo@[k]) == doc_view(b.boo@[k]),
{
}

} // verus!
