//! Choosing a default clipboard target from a list of target names.
use vstd::prelude::*;

use crate::chars::str_eq;

verus! {

/// The index the default-target walk ends on: the first `UTF8_STRING`
/// entry wins outright; otherwise the last `STRING` entry; otherwise the
/// last `TEXT` entry; otherwise nothing.
pub open spec fn spec_default_target(names: Seq<Seq<char>>) -> Option<int> {
    if exists|i: int| 0 <= i < names.len() && names[i] == "UTF8_STRING"@ {
        Some(
            choose|i: int|
                0 <= i < names.len() && names[i] == "UTF8_STRING"@ && (forall|j: int|
                    0 <= j < i ==> names[j] != "UTF8_STRING"@),
        )
    } else if exists|i: int| 0 <= i < names.len() && names[i] == "STRING"@ {
        Some(
            choose|i: int|
                0 <= i < names.len() && names[i] == "STRING"@ && (forall|j: int|
                    i < j < names.len() ==> names[j] != "STRING"@),
        )
    } else if exists|i: int| 0 <= i < names.len() && names[i] == "TEXT"@ {
        Some(
            choose|i: int|
                0 <= i < names.len() && names[i] == "TEXT"@ && (forall|j: int|
                    i < j < names.len() ==> names[j] != "TEXT"@),
        )
    } else {
        None
    }
}

/// Which entry of `names` the default-target selection ends on. The walk
/// mirrors the selection order: stop at the first `UTF8_STRING`; before
/// that, every `STRING` reselects, and a `TEXT` selects only while no
/// `STRING` was seen.
pub fn select_default_target(names: &Vec<String>) -> (r: Option<usize>)
    ensures
        match r {
            Some(i) => i < names@.len() && spec_default_target(names.deep_view()) == Some(i as int),
            None => spec_default_target(names.deep_view()) is None,
        },
{
    let ghost ns = names.deep_view();
    let mut selected: Option<usize> = None;
    let mut string_set = false;
    let mut i: usize = 0;
    while i < names.len()
        invariant
            i <= names.len(),
            ns == names.deep_view(),
            forall|j: int| 0 <= j < i ==> ns[j] != "UTF8_STRING"@,
            string_set <==> exists|j: int| 0 <= j < i && ns[j] == "STRING"@,
            string_set ==> (match selected {
                Some(s) => s < i && ns[s as int] == "STRING"@ && (forall|j: int|
                    s < j < i ==> ns[j] != "STRING"@),
                None => false,
            }),
            !string_set ==> (match selected {
                Some(s) => s < i && ns[s as int] == "TEXT"@ && (forall|j: int|
                    s < j < i ==> ns[j] != "TEXT"@),
                None => forall|j: int| 0 <= j < i ==> ns[j] != "TEXT"@,
            }),
        decreases names.len() - i,
    {
        proof {
            assert(names.deep_view()[i as int] == names@[i as int]@);
        }
        let name = names[i].as_str();
        if str_eq(name, "UTF8_STRING") {
            proof {
                assert(ns[i as int] == "UTF8_STRING"@);
            }
            return Some(i);
        } else if str_eq(name, "STRING") {
            selected = Some(i);
            string_set = true;
        } else if str_eq(name, "TEXT") {
            if !string_set {
                selected = Some(i);
            }
        }
        i += 1;
    }
    selected
}

} // verus!
