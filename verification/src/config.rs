//! Configuration data feeding the transformation engine: character filter
//! definitions, transformation descriptors, and named profiles.
use vstd::prelude::*;

verus! {

/// One entry of a character filter definition: either a single code point
/// (`single`) or an inclusive code point interval (`start` and `end`).
#[derive(Debug, Clone, Copy, PartialEq, Eq)]
pub struct CharacterRange {
    pub single: Option<u32>,
    pub start: Option<u32>,
    pub end: Option<u32>,
}

/// A range entry is well-formed when it carries a single value or both bounds.
pub open spec fn range_valid(r: CharacterRange) -> bool {
    r.single is Some || (r.start is Some && r.end is Some)
}

/// Every code point the entry names is a Unicode scalar value.
pub open spec fn range_scalars_ok(r: CharacterRange) -> bool {
    if r.single is Some {
        vstd::utf8::is_scalar(r.single->0)
    } else if r.start is Some && r.end is Some {
        vstd::utf8::is_scalar(r.start->0) && vstd::utf8::is_scalar(r.end->0)
    } else {
        true
    }
}

/// Every range entry of the definition is well-formed.
pub open spec fn ranges_all_valid(rs: Seq<CharacterRange>) -> bool {
    forall|i: int| 0 <= i < rs.len() ==> range_valid(#[trigger] rs[i])
}

/// Compiling the definition reaches no invalid code point: every entry that
/// is well-formed and preceded only by well-formed entries names Unicode
/// scalar values only.
pub open spec fn ranges_panic_free(rs: Seq<CharacterRange>) -> bool {
    forall|i: int|
        0 <= i < rs.len() && (forall|j: int| 0 <= j < i ==> range_valid(#[trigger] rs[j]))
            && range_valid(#[trigger] rs[i]) ==> range_scalars_ok(rs[i])
}

impl CharacterRange {
    pub fn for_single(value: u32) -> (r: CharacterRange)
        ensures
            r == (CharacterRange { single: Some(value), start: None, end: None }),
    {
        CharacterRange { single: Some(value), start: None, end: None }
    }

    pub fn for_range(start: u32, end: u32) -> (r: CharacterRange)
        ensures
            r == (CharacterRange { single: None, start: Some(start), end: Some(end) }),
    {
        CharacterRange { single: None, start: Some(start), end: Some(end) }
    }

    pub fn single(&self) -> (r: Option<u32>)
        ensures
            r == self.single,
    {
        self.single
    }

    pub fn start(&self) -> (r: Option<u32>)
        ensures
            r == self.start,
    {
        self.start
    }

    pub fn end(&self) -> (r: Option<u32>)
        ensures
            r == self.end,
    {
        self.end
    }
}

/// A character filter definition: a list of range entries.
#[derive(Debug, Clone, PartialEq)]
pub struct CharacterFilter {
    pub ranges: Vec<CharacterRange>,
}

impl View for CharacterFilter {
    type V = Seq<CharacterRange>;

    open spec fn view(&self) -> Seq<CharacterRange> {
        self.ranges@
    }
}

impl CharacterFilter {
    pub fn new(ranges: Vec<CharacterRange>) -> (r: CharacterFilter)
        ensures
            r@ == ranges@,
    {
        CharacterFilter { ranges }
    }

    pub fn ranges(&self) -> (r: &Vec<CharacterRange>)
        ensures
            r@ == self@,
    {
        &self.ranges
    }

    /// An owned copy holding the same range entries.
    pub fn duplicate(&self) -> (r: CharacterFilter)
        ensures
            r@ == self@,
    {
        let mut ranges: Vec<CharacterRange> = Vec::new();
        let mut i: usize = 0;
        while i < self.ranges.len()
            invariant
                i <= self.ranges.len(),
                ranges@ == self.ranges@.subrange(0, i as int),
            decreases self.ranges.len() - i,
        {
            ranges.push(self.ranges[i]);
            proof {
                assert(ranges@ =~= self.ranges@.subrange(0, (i + 1) as int));
            }
            i += 1;
        }
        proof {
            assert(ranges@ =~= self.ranges@);
        }
        CharacterFilter { ranges }
    }
}

/// A transformation action descriptor: remove matched characters, or replace
/// them through a template string.
#[derive(Debug, Clone, PartialEq)]
pub enum TransformationAction {
    Remove,
    Replace(String),
}

/// The abstract value of a [`TransformationAction`].
pub enum TransformationActionView {
    Remove,
    Replace(Seq<char>),
}

impl View for TransformationAction {
    type V = TransformationActionView;

    open spec fn view(&self) -> TransformationActionView {
        match self {
            TransformationAction::Remove => TransformationActionView::Remove,
            TransformationAction::Replace(t) => TransformationActionView::Replace(t@),
        }
    }
}

/// A filter reference inside a transformation: by name, or an inline value.
#[derive(Debug, Clone, PartialEq)]
pub enum WrappedFilter {
    Reference(String),
    Value(CharacterFilter),
}

/// The abstract value of a [`WrappedFilter`].
pub enum WrappedFilterView {
    Reference(Seq<char>),
    Value(Seq<CharacterRange>),
}

impl View for WrappedFilter {
    type V = WrappedFilterView;

    open spec fn view(&self) -> WrappedFilterView {
        match self {
            WrappedFilter::Reference(n) => WrappedFilterView::Reference(n@),
            WrappedFilter::Value(f) => WrappedFilterView::Value(f@),
        }
    }
}

impl WrappedFilter {
    /// The materialized filter definition this reference stands for: the
    /// named definition looked up in `config` (or `None` when the name is
    /// absent), or the inline value itself.
    pub fn character_filter(&self, config: &Config) -> (r: Option<CharacterFilter>)
        ensures
            match self@ {
                WrappedFilterView::Reference(n) => match r {
                    Some(f) => spec_lookup_filter(config@.filters, n) == Some(f@),
                    None => spec_lookup_filter(config@.filters, n) is None,
                },
                WrappedFilterView::Value(v) => match r {
                    Some(f) => f@ == v,
                    None => false,
                },
            },
    {
        match self {
            WrappedFilter::Reference(name) => config.filter_by_name(name.as_str()),
            WrappedFilter::Value(f) => Some(f.duplicate()),
        }
    }
}

impl DeepView for WrappedFilter {
    type V = WrappedFilterView;

    open spec fn deep_view(&self) -> WrappedFilterView {
        self.view()
    }
}

/// One transformation step descriptor: filter references plus an action.
#[derive(Debug, Clone, PartialEq)]
pub struct Transformation {
    pub filters: Vec<WrappedFilter>,
    pub action: TransformationAction,
}

/// The abstract value of a [`Transformation`].
pub struct TransformationView {
    pub filters: Seq<WrappedFilterView>,
    pub action: TransformationActionView,
}

impl View for Transformation {
    type V = TransformationView;

    open spec fn view(&self) -> TransformationView {
        TransformationView {
            filters: self.filters.deep_view(),
            action: self.action@,
        }
    }
}

impl DeepView for Transformation {
    type V = TransformationView;

    open spec fn deep_view(&self) -> TransformationView {
        self.view()
    }
}

impl Transformation {
    pub fn new(filters: Vec<WrappedFilter>, action: TransformationAction) -> (r: Transformation)
        ensures
            r@.filters == filters.deep_view(),
            r@.action == action@,
    {
        Transformation { filters, action }
    }

    pub fn filters(&self) -> (r: &Vec<WrappedFilter>)
        ensures
            r.deep_view() == self@.filters,
    {
        &self.filters
    }

    pub fn action(&self) -> (r: &TransformationAction)
        ensures
            r@ == self@.action,
    {
        &self.action
    }
}

/// A named, ordered pipeline of transformation step descriptors.
#[derive(Debug, Clone, PartialEq)]
pub struct TransformationProfile {
    pub name: String,
    pub display_name: Option<String>,
    pub description: Option<String>,
    pub transformations: Vec<Transformation>,
}

/// The abstract value of a [`TransformationProfile`].
pub struct TransformationProfileView {
    pub name: Seq<char>,
    pub display_name: Option<Seq<char>>,
    pub description: Option<Seq<char>>,
    pub transformations: Seq<TransformationView>,
}

impl View for TransformationProfile {
    type V = TransformationProfileView;

    open spec fn view(&self) -> TransformationProfileView {
        TransformationProfileView {
            name: self.name@,
            display_name: self.display_name.deep_view(),
            description: self.description.deep_view(),
            transformations: self.transformations.deep_view(),
        }
    }
}

impl DeepView for TransformationProfile {
    type V = TransformationProfileView;

    open spec fn deep_view(&self) -> TransformationProfileView {
        self.view()
    }
}

impl TransformationProfile {
    pub fn name(&self) -> (r: &str)
        ensures
            r@ == self@.name,
    {
        self.name.as_str()
    }

    pub fn display_name(&self) -> (r: &Option<String>)
        ensures
            r.deep_view() == self@.display_name,
    {
        &self.display_name
    }

    pub fn description(&self) -> (r: &Option<String>)
        ensures
            r.deep_view() == self@.description,
    {
        &self.description
    }

    pub fn transformations(&self) -> (r: &Vec<Transformation>)
        ensures
            r.deep_view() == self@.transformations,
    {
        &self.transformations
    }

    /// The built-in pass-through profile: no transformation steps.
    pub fn identity() -> (r: TransformationProfile)
        ensures
            r@.name == "identity"@,
            r@.display_name == Some("Identity transformation"@),
            r@.description == Some("Does not change the text."@),
            r@.transformations == Seq::<TransformationView>::empty(),
    {
        let r = TransformationProfile {
            name: "identity".to_owned(),
            display_name: Some("Identity transformation".to_owned()),
            description: Some("Does not change the text.".to_owned()),
            transformations: Vec::new(),
        };
        proof {
            assert(r@.transformations =~= Seq::<TransformationView>::empty());
        }
        r
    }
}

/// The whole configuration: named filter definitions, profiles, and the
/// optional default / GUI replacement profile names.
#[derive(Debug, Clone, PartialEq)]
pub struct Config {
    pub filters: Vec<(String, CharacterFilter)>,
    pub profiles: Vec<TransformationProfile>,
    pub default_profile: Option<String>,
    pub gui_replacement_profile: Option<String>,
}

/// The abstract value of a [`Config`].
pub struct ConfigView {
    pub filters: Seq<(Seq<char>, Seq<CharacterRange>)>,
    pub profiles: Seq<TransformationProfileView>,
    pub default_profile: Option<Seq<char>>,
    pub gui_replacement_profile: Option<Seq<char>>,
}

impl View for Config {
    type V = ConfigView;

    open spec fn view(&self) -> ConfigView {
        ConfigView {
            filters: self.filters@.map_values(|p: (String, CharacterFilter)| (p.0@, p.1@)),
            profiles: self.profiles.deep_view(),
            default_profile: self.default_profile.deep_view(),
            gui_replacement_profile: self.gui_replacement_profile.deep_view(),
        }
    }
}

/// The first filter definition bound to `name`, if any.
pub open spec fn spec_lookup_filter(
    filters: Seq<(Seq<char>, Seq<CharacterRange>)>,
    name: Seq<char>,
) -> Option<Seq<CharacterRange>>
    decreases filters.len(),
{
    if filters.len() == 0 {
        None
    } else if filters[0].0 == name {
        Some(filters[0].1)
    } else {
        spec_lookup_filter(filters.drop_first(), name)
    }
}

/// The first profile named `name`, if any.
pub open spec fn spec_lookup_profile(
    profiles: Seq<TransformationProfileView>,
    name: Seq<char>,
) -> Option<TransformationProfileView>
    decreases profiles.len(),
{
    if profiles.len() == 0 {
        None
    } else if profiles[0].name == name {
        Some(profiles[0])
    } else {
        spec_lookup_profile(profiles.drop_first(), name)
    }
}

impl Config {
    pub fn new(
        filters: Vec<(String, CharacterFilter)>,
        profiles: Vec<TransformationProfile>,
        default_profile: Option<String>,
        gui_replacement_profile: Option<String>,
    ) -> (r: Config)
        ensures
            r == (Config { filters, profiles, default_profile, gui_replacement_profile }),
    {
        Config { filters, profiles, default_profile, gui_replacement_profile }
    }

    pub fn filters(&self) -> (r: &Vec<(String, CharacterFilter)>)
        ensures
            r@.map_values(|p: (String, CharacterFilter)| (p.0@, p.1@)) == self@.filters,
    {
        &self.filters
    }

    pub fn profiles(&self) -> (r: &Vec<TransformationProfile>)
        ensures
            r.deep_view() == self@.profiles,
    {
        &self.profiles
    }

    pub fn default_profile_name(&self) -> (r: &Option<String>)
        ensures
            r.deep_view() == self@.default_profile,
    {
        &self.default_profile
    }

    pub fn gui_replacement_profile_name(&self) -> (r: &Option<String>)
        ensures
            r.deep_view() == self@.gui_replacement_profile,
    {
        &self.gui_replacement_profile
    }

    /// The filter definition bound to `name`, duplicated out of the mapping.
    pub fn filter_by_name(&self, name: &str) -> (r: Option<CharacterFilter>)
        ensures
            match r {
                Some(f) => spec_lookup_filter(self@.filters, name@) == Some(f@),
                None => spec_lookup_filter(self@.filters, name@) is None,
            },
    {
        let mut i: usize = 0;
        proof {
            assert(self@.filters.skip(0) =~= self@.filters);
        }
        while i < self.filters.len()
            invariant
                i <= self.filters.len(),
                spec_lookup_filter(self@.filters, name@) == spec_lookup_filter(
                    self@.filters.skip(i as int),
                    name@,
                ),
            decreases self.filters.len() - i,
        {
            proof {
                lemma_lookup_filter_step(self@.filters, i as int, name@);
            }
            if crate::chars::str_eq(self.filters[i].0.as_str(), name) {
                return Some(self.filters[i].1.duplicate());
            }
            i += 1;
        }
        None
    }

    /// The profile named by the `default_profile` entry, if any.
    pub fn default_profile(&self) -> (r: Option<TransformationProfile>)
        ensures
            match self@.default_profile {
                Some(n) => match r {
                    Some(p) => spec_lookup_profile(self@.profiles, n) == Some(p@),
                    None => spec_lookup_profile(self@.profiles, n) is None,
                },
                None => r is None,
            },
    {
        match &self.default_profile {
            Some(name) => self.profile_by_name_str(name.as_str()),
            None => None,
        }
    }

    /// The profile named by the `gui_replacement_profile` entry, if any.
    pub fn gui_replacement_profile(&self) -> (r: Option<TransformationProfile>)
        ensures
            match self@.gui_replacement_profile {
                Some(n) => match r {
                    Some(p) => spec_lookup_profile(self@.profiles, n) == Some(p@),
                    None => spec_lookup_profile(self@.profiles, n) is None,
                },
                None => r is None,
            },
    {
        match &self.gui_replacement_profile {
            Some(name) => self.profile_by_name_str(name.as_str()),
            None => None,
        }
    }

    /// The first profile whose name equals `name`, duplicated.
    pub fn profile_by_name_str(&self, name: &str) -> (r: Option<TransformationProfile>)
        ensures
            match r {
                Some(p) => spec_lookup_profile(self@.profiles, name@) == Some(p@),
                None => spec_lookup_profile(self@.profiles, name@) is None,
            },
    {
        let mut i: usize = 0;
        proof {
            assert(self@.profiles.skip(0) =~= self@.profiles);
        }
        while i < self.profiles.len()
            invariant
                i <= self.profiles.len(),
                spec_lookup_profile(self@.profiles, name@) == spec_lookup_profile(
                    self@.profiles.skip(i as int),
                    name@,
                ),
            decreases self.profiles.len() - i,
        {
            proof {
                lemma_lookup_profile_step(self@.profiles, i as int, name@);
            }
            if crate::chars::str_eq(self.profiles[i].name.as_str(), name) {
                return Some(duplicate_profile(&self.profiles[i]));
            }
            i += 1;
        }
        None
    }
}

proof fn lemma_lookup_filter_step(
    filters: Seq<(Seq<char>, Seq<CharacterRange>)>,
    i: int,
    name: Seq<char>,
)
    requires
        0 <= i < filters.len(),
    ensures
        spec_lookup_filter(filters.skip(i), name) == if filters[i].0 == name {
            Some(filters[i].1)
        } else {
            spec_lookup_filter(filters.skip(i + 1), name)
        },
{
    assert(filters.skip(i).drop_first() =~= filters.skip(i + 1));
    assert(filters.skip(i)[0] == filters[i]);
}

proof fn lemma_lookup_profile_step(profiles: Seq<TransformationProfileView>, i: int, name: Seq<char>)
    requires
        0 <= i < profiles.len(),
    ensures
        spec_lookup_profile(profiles.skip(i), name) == if profiles[i].name == name {
            Some(profiles[i])
        } else {
            spec_lookup_profile(profiles.skip(i + 1), name)
        },
{
    assert(profiles.skip(i).drop_first() =~= profiles.skip(i + 1));
    assert(profiles.skip(i)[0] == profiles[i]);
}

/// An owned copy of a wrapped filter with the same abstract value.
pub fn duplicate_wrapped_filter(w: &WrappedFilter) -> (r: WrappedFilter)
    ensures
        r@ == w@,
{
    match w {
        WrappedFilter::Reference(n) => WrappedFilter::Reference(n.clone()),
        WrappedFilter::Value(f) => WrappedFilter::Value(f.duplicate()),
    }
}

/// An owned copy of an action descriptor with the same abstract value.
pub fn duplicate_action(a: &TransformationAction) -> (r: TransformationAction)
    ensures
        r@ == a@,
{
    match a {
        TransformationAction::Remove => TransformationAction::Remove,
        TransformationAction::Replace(t) => TransformationAction::Replace(t.clone()),
    }
}

/// An owned copy of a transformation descriptor with the same abstract value.
pub fn duplicate_transformation(t: &Transformation) -> (r: Transformation)
    ensures
        r@ == t@,
{
    let mut filters: Vec<WrappedFilter> = Vec::new();
    let mut i: usize = 0;
    while i < t.filters.len()
        invariant
            i <= t.filters.len(),
            filters@.len() == i,
            forall|j: int| 0 <= j < i ==> #[trigger] filters@[j]@ == t.filters@[j]@,
        decreases t.filters.len() - i,
    {
        filters.push(duplicate_wrapped_filter(&t.filters[i]));
        i += 1;
    }
    let action = duplicate_action(&t.action);
    proof {
        assert(filters.deep_view() =~= t.filters.deep_view());
    }
    Transformation { filters, action }
}

/// An owned copy of a profile with the same abstract value.
pub fn duplicate_profile(p: &TransformationProfile) -> (r: TransformationProfile)
    ensures
        r@ == p@,
{
    let mut transformations: Vec<Transformation> = Vec::new();
    let mut i: usize = 0;
    while i < p.transformations.len()
        invariant
            i <= p.transformations.len(),
            transformations@.len() == i,
            forall|j: int| 0 <= j < i ==> #[trigger] transformations@[j]@ == p.transformations@[j]@,
        decreases p.transformations.len() - i,
    {
        transformations.push(duplicate_transformation(&p.transformations[i]));
        i += 1;
    }
    proof {
        assert(transformations.deep_view() =~= p.transformations.deep_view());
    }
    TransformationProfile {
        name: p.name.clone(),
        display_name: match &p.display_name {
            Some(n) => Some(n.clone()),
            None => None,
        },
        description: match &p.description {
            Some(d) => Some(d.clone()),
            None => None,
        },
        transformations,
    }
}

} // verus!
