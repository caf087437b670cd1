use vstd::prelude::*;

use crate::chars::{
    chars_of, is_i32_numeral, lower_chars, lower_seq, parse_i32_chars, signed_val, str_eq,
    sub_chars, trimmed, trimmed_chars,
};
use crate::model::{CustomWidget, WinType, Windows};
use crate::strmap::StrMap;

verus! {

/// The window kind a trimmed, lowered `win_type` string names.
pub open spec fn classify_win_type(s: Seq<char>) -> WinType {
    if s == seq!['d', 'o', 'c', 'k'] {
        WinType::Dock
    } else if s == seq!['f', 'l', 'o', 'a', 't'] {
        WinType::Float
    } else if s == seq!['w', 'i', 'n', 'd', 'o', 'w'] {
        WinType::Window
    } else {
        WinType::Other
    }
}

/// The window kind a declaration asks for: its `win_type`, trimmed of
/// white space and read without regard to ASCII case; absence means a
/// floating window.
pub open spec fn spec_win_type(w: Windows) -> WinType {
    match w.win_type {
        None => WinType::Float,
        Some(s) => classify_win_type(lower_seq(trimmed(s@))),
    }
}

fn classify_chars(t: &Vec<char>) -> (r: WinType)
    ensures
        r == classify_win_type(t@),
{
    let n = t.len();
    if n == 4 && t[0] == 'd' && t[1] == 'o' && t[2] == 'c' && t[3] == 'k' {
        proof {
            assert(t@ =~= seq!['d', 'o', 'c', 'k']);
        }
        WinType::Dock
    } else if n == 5 && t[0] == 'f' && t[1] == 'l' && t[2] == 'o' && t[3] == 'a' && t[4] == 't' {
        proof {
            assert(t@ =~= seq!['f', 'l', 'o', 'a', 't']);
        }
        WinType::Float
    } else if n == 6 && t[0] == 'w' && t[1] == 'i' && t[2] == 'n' && t[3] == 'd' && t[4] == 'o'
        && t[5] == 'w' {
        proof {
            assert(t@ =~= seq!['w', 'i', 'n', 'd', 'o', 'w']);
        }
        WinType::Window
    } else {
        WinType::Other
    }
}

/// The window kind of a declaration, as the renderer reads it.
pub fn effective_win_type(w: &Windows) -> (r: WinType)
    ensures
        r == spec_win_type(*w),
{
    match &w.win_type {
        None => WinType::Float,
        Some(s) => {
            let cs = chars_of(s.as_str());
            let t = trimmed_chars(&cs);
            let l = lower_chars(&t);
            classify_chars(&l)
        },
    }
}

/// The size a declared dimension denotes: the parsed value where the
/// field holds a decimal integer, the renderer's default otherwise.
pub open spec fn spec_effective_dim(field: Option<String>, default: i32) -> i32 {
    match field {
        None => default,
        Some(s) => if is_i32_numeral(s@) {
            signed_val(s@) as i32
        } else {
            default
        },
    }
}

fn effective_dim(field: &Option<String>, default: i32) -> (r: i32)
    ensures
        r == spec_effective_dim(*field, default),
{
    match field {
        None => default,
        Some(s) => {
            let cs = chars_of(s.as_str());
            match parse_i32_chars(&cs) {
                Some(v) => v,
                None => default,
            }
        },
    }
}

/// The width the renderer gives a window: its `width` field, or 600.
pub fn effective_width(w: &Windows) -> (r: i32)
    ensures
        r == spec_effective_dim(w.width, 600),
{
    effective_dim(&w.width, 600)
}

/// The height the renderer gives a window: its `height` field, or 60.
pub fn effective_height(w: &Windows) -> (r: i32)
    ensures
        r == spec_effective_dim(w.height, 60),
{
    effective_dim(&w.height, 60)
}

/// The text a widget reference puts in a content slot: references of the
/// form `custom.<name>` naming a widget of kind `label` show the
/// widget's content, or the literal `missing` without one; every other
/// reference shows nothing.
pub open spec fn spec_resolve(refstr: Seq<char>, customs: Map<Seq<char>, CustomWidget>) -> Option<
    Seq<char>,
> {
    if refstr.len() >= 7 && refstr.subrange(0, 7) == seq!['c', 'u', 's', 't', 'o', 'm', '.'] {
        let name = refstr.subrange(7, refstr.len() as int);
        if customs.contains_key(name) {
            let cw = customs[name];
            match cw.type_ {
                Some(t) => if t@ == seq!['l', 'a', 'b', 'e', 'l'] {
                    match cw.content {
                        Some(c) => Some(c@),
                        None => Some(seq!['m', 'i', 's', 's', 'i', 'n', 'g']),
                    }
                } else {
                    None
                },
                None => None,
            }
        } else {
            None
        }
    } else {
        None
    }
}

/// Resolve a content slot's widget reference against the custom-widget
/// map, yielding the label text to show, if any.
pub fn resolve_widget_ref(refstr: &str, customs: &StrMap<CustomWidget>) -> (r: Option<String>)
    ensures
        spec_resolve(refstr@, customs@) matches Some(text) ==> (r matches Some(s) && s@ == text),
        spec_resolve(refstr@, customs@) is None ==> r is None,
{
    let cs = chars_of(refstr);
    let n = cs.len();
    if n < 7 {
        return None;
    }
    if !(cs[0] == 'c' && cs[1] == 'u' && cs[2] == 's' && cs[3] == 't' && cs[4] == 'o' && cs[5]
        == 'm' && cs[6] == '.') {
        proof {
            assert(refstr@.subrange(0, 7) != seq!['c', 'u', 's', 't', 'o', 'm', '.']);
        }
        return None;
    }
    proof {
        assert(refstr@.subrange(0, 7) =~= seq!['c', 'u', 's', 't', 'o', 'm', '.']);
    }
    let name = sub_chars(&cs, 7, n);
    match customs.get_ref_chars(&name) {
        None => None,
        Some(cw) => match &cw.type_ {
            Some(t) => {
                if str_eq(t.as_str(), "label") {
                    proof {
                        reveal_strlit("label");
                        assert("label"@ =~= seq!['l', 'a', 'b', 'e', 'l']);
                    }
                    match &cw.content {
                        Some(c) => Some(c.clone()),
                        None => {
                            let m = "missing".to_owned();
                            proof {
                                reveal_strlit("missing");
                                assert(m@ =~= seq!['m', 'i', 's', 's', 'i', 'n', 'g']);
                            }
                            Some(m)
                        },
                    }
                } else {
                    proof {
                        reveal_strlit("label");
                        assert("label"@ =~= seq!['l', 'a', 'b', 'e', 'l']);
                    }
                    None
                }
            },
            None => None,
        },
    }
}

} // verus!
