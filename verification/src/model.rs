use vstd::prelude::*;

use crate::strmap::{DeepClone, StrMap};

verus! {

/// A value pulled out of the evaluated script's global environment: a
/// string, a string-keyed table, or anything else, kept opaque.
#[derive(Debug, PartialEq)]
pub enum DocValue {
    Str(String),
    Table(Vec<(String, DocValue)>),
    Other,
}

/// The abstract shape of a [`DocValue`]: strings as character sequences,
/// tables as association sequences.
pub enum DocView {
    Str(Seq<char>),
    Table(Seq<(Seq<char>, DocView)>),
    Other,
}

/// The abstract tree a document value denotes.
pub open spec fn doc_view(v: DocValue) -> DocView
    decreases v, 1int,
{
    match v {
        DocValue::Str(s) => DocView::Str(s@),
        DocValue::Table(entries) => {
            proof {
                assert(decreases_to!(v => entries));
                assert(decreases_to!(entries => entries@));
            }
            DocView::Table(table_view(entries@))
        },
        DocValue::Other => DocView::Other,
    }
}

/// The abstract view of a table's entries, in order.
pub open spec fn table_view(s: Seq<(String, DocValue)>) -> Seq<(Seq<char>, DocView)>
    decreases s, 0int,
{
    if s.len() == 0 {
        Seq::empty()
    } else {
        proof {
            assert(decreases_to!(s => s[s.len() - 1]));
            assert(decreases_to!(s[s.len() - 1] => s[s.len() - 1].1));
        }
        table_view(s.drop_last()).push((s.last().0@, doc_view(s.last().1)))
    }
}

/// Each table entry's view sits at the entry's own position.
pub proof fn lemma_table_view(s: Seq<(String, DocValue)>)
    ensures
        table_view(s).len() == s.len(),
        forall|i: int|
            0 <= i < s.len() ==> #[trigger] table_view(s)[i] == (s[i].0@, doc_view(s[i].1)),
    decreases s.len(),
{
    if s.len() > 0 {
        lemma_table_view(s.drop_last());
    }
}

/// A copy of a document value, denoting the same abstract tree.
pub fn doc_clone(v: &DocValue) -> (r: DocValue)
    ensures
        doc_view(r) == doc_view(*v),
    decreases *v,
{
    match v {
        DocValue::Str(s) => DocValue::Str(s.clone()),
        DocValue::Other => DocValue::Other,
        DocValue::Table(entries) => {
            let n = entries.len();
            let mut out: Vec<(String, DocValue)> = Vec::new();
            let mut i: usize = 0;
            while i < n
                invariant
                    0 <= i <= n,
                    n == entries@.len(),
                    *v == DocValue::Table(*entries),
                    out@.len() == i,
                    forall|j: int|
                        0 <= j < i ==> (#[trigger] out@[j]).0@ == entries@[j].0@ && doc_view(
                            out@[j].1,
                        ) == doc_view(entries@[j].1),
                decreases n - i,
            {
                proof {
                    let w: DocValue = *v;
                    assert(decreases_to!(w => w->Table_0));
                    assert(w->Table_0 == *entries);
                    assert(decreases_to!(*entries => entries@));
                    assert(decreases_to!(entries@ => entries@[i as int]));
                    assert(decreases_to!(entries@[i as int] => entries@[i as int].1));
                }
                let e = &entries[i];
                out.push((e.0.clone(), doc_clone(&e.1)));
                i = i + 1;
            }
            let r = DocValue::Table(out);
            proof {
                lemma_table_view(out@);
                lemma_table_view(entries@);
                assert(table_view(out@) =~= table_view(entries@));
            }
            r
        },
    }
}

/// One named panel of the bar: the fields of a window declaration,
/// projected verbatim from the document; a field that was not a string is
/// absent.
#[derive(Debug, Clone, PartialEq, Eq)]
pub struct Windows {
    pub width: Option<String>,
    pub height: Option<String>,
    pub win_type: Option<String>,
    pub offset_x: Option<String>,
    pub position: Option<String>,
    pub left_contents: Option<String>,
    pub center_contents: Option<String>,
    pub right_contents: Option<String>,
}

impl DeepClone for Windows {
    fn deep_clone(&self) -> (r: Self) {
        Windows {
            width: self.width.deep_clone(),
            height: self.height.deep_clone(),
            win_type: self.win_type.deep_clone(),
            offset_x: self.offset_x.deep_clone(),
            position: self.position.deep_clone(),
            left_contents: self.left_contents.deep_clone(),
            center_contents: self.center_contents.deep_clone(),
            right_contents: self.right_contents.deep_clone(),
        }
    }
}

/// One named custom widget: its kind and its display text.
#[derive(Debug, Clone, PartialEq, Eq)]
pub struct CustomWidget {
    pub type_: Option<String>,
    pub content: Option<String>,
}

impl DeepClone for CustomWidget {
    fn deep_clone(&self) -> (r: Self) {
        CustomWidget { type_: self.type_.deep_clone(), content: self.content.deep_clone() }
    }
}

/// The list of window names a document may put first; kept for callers
/// that want an ordered selection of windows.
#[derive(Debug, Clone, PartialEq, Eq)]
pub struct MainSection {
    pub windows: Vec<String>,
}

/// The typed projection of a whole document.
#[derive(Debug, PartialEq)]
pub struct MainConfig {
    pub windows: StrMap<Windows>,
    pub custom: StrMap<CustomWidget>,
    pub boo: StrMap<DocValue>,
}

/// The kind of top-level window a declaration asks for, after trimming
/// and lowering the declared `win_type`.
#[derive(Debug, Clone, Copy, PartialEq, Eq, Structural)]
pub enum WinType {
    Dock,
    Float,
    Window,
    Other,
}

} // verus!
