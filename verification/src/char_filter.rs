//! Character filters: predicates over single characters, expressed as a
//! union of single values and inclusive code point ranges.
use vstd::prelude::*;

use crate::EngineError;
use crate::config::{
    CharacterFilter, CharacterRange, range_valid, ranges_all_valid, ranges_panic_free,
};

verus! {

/// One filter rule: a single character, or an inclusive character interval.
#[derive(Debug, Clone, Copy, PartialEq, Eq, Structural)]
pub enum CharFilterComponent {
    Single(char),
    Range(char, char),
}

/// Whether `c` is matched by the component: equal to the single character,
/// or inside the inclusive range (a reversed range matches nothing).
pub open spec fn component_matches(comp: CharFilterComponent, c: char) -> bool {
    match comp {
        CharFilterComponent::Single(single_char) => c == single_char,
        CharFilterComponent::Range(first, last) => first <= c && c <= last,
    }
}

/// Whether any component of the sequence matches `c`.
pub open spec fn filter_matches(comps: Seq<CharFilterComponent>, c: char) -> bool {
    exists|i: int| 0 <= i < comps.len() && component_matches(comps[i], c)
}

/// The filter component described by a well-formed range entry.
pub open spec fn spec_component_of(r: CharacterRange) -> CharFilterComponent {
    if r.single is Some {
        CharFilterComponent::Single(r.single->0 as char)
    } else {
        CharFilterComponent::Range(r.start->0 as char, r.end->0 as char)
    }
}

impl CharFilterComponent {
    pub fn matches(&self, ch: char) -> (r: bool)
        ensures
            r == component_matches(*self, ch),
    {
        match self {
            CharFilterComponent::Single(single_char) => ch == *single_char,
            CharFilterComponent::Range(first, last) => *first <= ch && ch <= *last,
        }
    }
}

/// A compiled character filter: matches a character when any of its
/// components does.
#[derive(Debug, Clone, PartialEq)]
pub struct CharFilter {
    components: Vec<CharFilterComponent>,
}

impl View for CharFilter {
    type V = Seq<CharFilterComponent>;

    closed spec fn view(&self) -> Seq<CharFilterComponent> {
        self.components@
    }
}

impl DeepView for CharFilter {
    type V = Seq<CharFilterComponent>;

    open spec fn deep_view(&self) -> Seq<CharFilterComponent> {
        self.view()
    }
}

impl CharFilter {
    pub fn new(components: Vec<CharFilterComponent>) -> (r: CharFilter)
        ensures
            r@ == components@,
    {
        CharFilter { components }
    }

    /// Whether any component matches `ch`; components are tested in order
    /// and the search stops at the first match.
    pub fn matches(&self, ch: char) -> (r: bool)
        ensures
            r == filter_matches(self@, ch),
    {
        let mut i: usize = 0;
        while i < self.components.len()
            invariant
                i <= self.components.len(),
                forall|j: int| 0 <= j < i ==> !component_matches(self@[j], ch),
            decreases self.components.len() - i,
        {
            if self.components[i].matches(ch) {
                return true;
            }
            i += 1;
        }
        false
    }

    /// Compiles a filter definition. Fails when a range entry carries
    /// neither a single value nor both a start and an end.
    pub fn from_config(filter_config: &CharacterFilter) -> (r: Result<CharFilter, EngineError>)
        requires
            ranges_panic_free(filter_config@),
        ensures
            match r {
                Ok(f) => {
                    &&& ranges_all_valid(filter_config@)
                    &&& f@ == filter_config@.map_values(|rr: CharacterRange| spec_component_of(rr))
                },
                Err(e) => {
                    &&& e == EngineError::InvalidCharacterRange
                    &&& !ranges_all_valid(filter_config@)
                },
            },
    {
        let ranges = filter_config.ranges();
        let mut components: Vec<CharFilterComponent> = Vec::new();
        let mut i: usize = 0;
        while i < ranges.len()
            invariant
                i <= ranges.len(),
                ranges@ == filter_config@,
                ranges_panic_free(filter_config@),
                forall|j: int| 0 <= j < i ==> range_valid(#[trigger] filter_config@[j]),
                components@ == filter_config@.subrange(0, i as int).map_values(
                    |rr: CharacterRange| spec_component_of(rr),
                ),
            decreases ranges.len() - i,
        {
            let range = &ranges[i];
            match range.single() {
                Some(v) => {
                    components.push(CharFilterComponent::Single(char_from_u32(v)));
                },
                None => {
                    match (range.start(), range.end()) {
                        (Some(s), Some(e)) => {
                            components.push(
                                CharFilterComponent::Range(char_from_u32(s), char_from_u32(e)),
                            );
                        },
                        _ => {
                            return Err(EngineError::InvalidCharacterRange);
                        },
                    }
                },
            }
            proof {
                assert(components@ =~= filter_config@.subrange(0, (i + 1) as int).map_values(
                    |rr: CharacterRange| spec_component_of(rr),
                ));
            }
            i += 1;
        }
        proof {
            assert(components@ =~= filter_config@.map_values(
                |rr: CharacterRange| spec_component_of(rr),
            ));
        }
        Ok(CharFilter { components })
    }
}

/// Relies on `char::from_u32`: for a non-surrogate scalar value it returns
/// the character with exactly that code point.
#[verifier::external_body]
fn char_from_u32(v: u32) -> (c: char)
    requires
        vstd::utf8::is_scalar(v),
    ensures
        c as u32 == v,
{
    char::from_u32(v).unwrap()
}

} // verus!
