//! Configuration-file lookup: which files are tried, in which order. The
//! reading and parsing of a candidate file is the caller's concern; this
//! module only computes the candidates.
use vstd::prelude::*;

use crate::chars::{lower_of, lowercase};

verus! {

/// The characters of the kebab-case form of `s`.
pub uninterp spec fn kebab_of(s: Seq<char>) -> Seq<char>;

/// The characters of the snake_case form of `s`.
pub uninterp spec fn snake_of(s: Seq<char>) -> Seq<char>;

/// Relies on convert_case's `Casing::to_case` with `Case::Kebab`: the
/// result depends on the input characters alone.
#[verifier::external_body]
fn to_kebab_case(s: &str) -> (r: String)
    ensures
        r@ == kebab_of(s@),
{
    convert_case::Casing::to_case(&s, convert_case::Case::Kebab)
}

/// Relies on convert_case's `Casing::to_case` with `Case::Snake`: the
/// result depends on the input characters alone.
#[verifier::external_body]
fn to_snake_case(s: &str) -> (r: String)
    ensures
        r@ == snake_of(s@),
{
    convert_case::Casing::to_case(&s, convert_case::Case::Snake)
}

/// The system-wide configuration directories derived from the application
/// name: `/etc/` joined with the name as given, lowercased, kebab-cased
/// and snake-cased.
pub open spec fn spec_system_paths(app: Seq<char>) -> Seq<Seq<char>> {
    seq![
        "/etc/"@ + app,
        "/etc/"@ + lower_of(app),
        "/etc/"@ + kebab_of(app),
        "/etc/"@ + snake_of(app),
    ]
}

/// One candidate per suffix for one directory: the full file path and the
/// suffix it was built from.
pub open spec fn spec_path_candidates(
    path: Seq<char>,
    base: Seq<char>,
    suffixes: Seq<Seq<char>>,
) -> Seq<(Seq<char>, Seq<char>)> {
    suffixes.map_values(|sfx: Seq<char>| (path + "/"@ + base + sfx, sfx))
}

/// All candidates over the search paths, later paths first (the search
/// walks the path list in reverse).
pub open spec fn spec_candidates_from(
    paths: Seq<Seq<char>>,
    base: Seq<char>,
    suffixes: Seq<Seq<char>>,
) -> Seq<(Seq<char>, Seq<char>)>
    decreases paths.len(),
{
    if paths.len() == 0 {
        Seq::empty()
    } else {
        spec_path_candidates(paths.last(), base, suffixes) + spec_candidates_from(
            paths.drop_last(),
            base,
            suffixes,
        )
    }
}

proof fn lemma_candidates_cons(
    x: Seq<char>,
    s: Seq<Seq<char>>,
    base: Seq<char>,
    suffixes: Seq<Seq<char>>,
)
    ensures
        spec_candidates_from(seq![x] + s, base, suffixes) == spec_candidates_from(
            s,
            base,
            suffixes,
        ) + spec_path_candidates(x, base, suffixes),
    decreases s.len(),
{
    let t = seq![x] + s;
    if s.len() == 0 {
        assert(t.last() == x);
        assert(t.drop_last() =~= Seq::<Seq<char>>::empty());
        assert(spec_candidates_from(s, base, suffixes) + spec_path_candidates(x, base, suffixes)
            =~= spec_path_candidates(x, base, suffixes) + spec_candidates_from(
            Seq::empty(),
            base,
            suffixes,
        ));
    } else {
        assert(t.last() == s.last());
        assert(t.drop_last() =~= seq![x] + s.drop_last());
        lemma_candidates_cons(x, s.drop_last(), base, suffixes);
        assert(spec_path_candidates(s.last(), base, suffixes) + (spec_candidates_from(
            s.drop_last(),
            base,
            suffixes,
        ) + spec_path_candidates(x, base, suffixes)) =~= (spec_path_candidates(
            s.last(),
            base,
            suffixes,
        ) + spec_candidates_from(s.drop_last(), base, suffixes)) + spec_path_candidates(
            x,
            base,
            suffixes,
        ));
    }
}

/// Where configuration files are looked for: identifying names, the file
/// base name, the directories searched and the suffixes tried.
#[derive(Debug, Clone)]
pub struct ConfigurationLoader {
    pub qualifier: String,
    pub organization: String,
    pub application: String,
    pub base_name: String,
    pub search_paths: Vec<String>,
    pub file_suffixes: Vec<String>,
}

/// The abstract value of a [`ConfigurationLoader`].
pub struct ConfigurationLoaderView {
    pub qualifier: Seq<char>,
    pub organization: Seq<char>,
    pub application: Seq<char>,
    pub base_name: Seq<char>,
    pub search_paths: Seq<Seq<char>>,
    pub file_suffixes: Seq<Seq<char>>,
}

impl View for ConfigurationLoader {
    type V = ConfigurationLoaderView;

    open spec fn view(&self) -> ConfigurationLoaderView {
        ConfigurationLoaderView {
            qualifier: self.qualifier@,
            organization: self.organization@,
            application: self.application@,
            base_name: self.base_name@,
            search_paths: self.search_paths.deep_view(),
            file_suffixes: self.file_suffixes.deep_view(),
        }
    }
}

/// An owned copy of a string vector with the same abstract value.
fn duplicate_strings(v: &Vec<String>) -> (r: Vec<String>)
    ensures
        r.deep_view() == v.deep_view(),
{
    let mut r: Vec<String> = Vec::new();
    let mut i: usize = 0;
    while i < v.len()
        invariant
            i <= v.len(),
            r@.len() == i,
            forall|j: int| 0 <= j < i ==> #[trigger] r@[j]@ == v@[j]@,
        decreases v.len() - i,
    {
        r.push(v[i].clone());
        i += 1;
    }
    proof {
        assert(r.deep_view() =~= v.deep_view());
    }
    r
}

impl ConfigurationLoader {
    /// The suffixes tried by default, in order.
    pub fn default_file_suffixes() -> (r: Vec<String>)
        ensures
            r.deep_view() == seq![".yaml"@, ".json"@, ".toml"@, ".properties"@],
    {
        let mut r: Vec<String> = Vec::new();
        r.push(".yaml".to_owned());
        r.push(".json".to_owned());
        r.push(".toml".to_owned());
        r.push(".properties".to_owned());
        proof {
            assert(r.deep_view() =~= seq![".yaml"@, ".json"@, ".toml"@, ".properties"@]);
        }
        r
    }

    /// The system-wide configuration directories for an application name;
    /// see [`spec_system_paths`].
    pub fn system_config_paths(application: &str) -> (r: Vec<String>)
        ensures
            r.deep_view() == spec_system_paths(application@),
    {
        let mut r: Vec<String> = Vec::new();
        let mut p = "/etc/".to_owned();
        p.append(application);
        r.push(p);
        let mut p = "/etc/".to_owned();
        let lowered = lowercase(application);
        p.append(lowered.as_str());
        r.push(p);
        let mut p = "/etc/".to_owned();
        let kebab = to_kebab_case(application);
        p.append(kebab.as_str());
        r.push(p);
        let mut p = "/etc/".to_owned();
        let snake = to_snake_case(application);
        p.append(snake.as_str());
        r.push(p);
        proof {
            assert(r.deep_view() =~= spec_system_paths(application@));
        }
        r
    }

    /// An owned copy with the same abstract value.
    pub fn duplicate(&self) -> (r: ConfigurationLoader)
        ensures
            r@ == self@,
    {
        ConfigurationLoader {
            qualifier: self.qualifier.clone(),
            organization: self.organization.clone(),
            application: self.application.clone(),
            base_name: self.base_name.clone(),
            search_paths: duplicate_strings(&self.search_paths),
            file_suffixes: duplicate_strings(&self.file_suffixes),
        }
    }

    /// Every configuration file the search would try, in try order: the
    /// search paths are walked in reverse, and for each directory every
    /// suffix is tried in order. Each candidate carries its full path and
    /// the suffix it was built from.
    pub fn candidate_files(&self) -> (r: Vec<(String, String)>)
        ensures
            r.deep_view() == spec_candidates_from(
                self@.search_paths,
                self@.base_name,
                self@.file_suffixes,
            ),
    {
        let ghost paths = self@.search_paths;
        let ghost base = self@.base_name;
        let ghost sfx = self@.file_suffixes;
        let mut out: Vec<(String, String)> = Vec::new();
        let mut i: usize = self.search_paths.len();
        proof {
            assert(paths.skip(i as int) =~= Seq::<Seq<char>>::empty());
            assert(out.deep_view() =~= spec_candidates_from(paths.skip(i as int), base, sfx));
        }
        while i > 0
            invariant
                i <= self.search_paths.len(),
                paths == self@.search_paths,
                base == self@.base_name,
                sfx == self@.file_suffixes,
                out.deep_view() == spec_candidates_from(paths.skip(i as int), base, sfx),
            decreases i,
        {
            i -= 1;
            let ghost acc0 = out.deep_view();
            proof {
                assert(paths.skip(i as int) =~= seq![paths[i as int]] + paths.skip(i as int + 1));
                lemma_candidates_cons(paths[i as int], paths.skip(i as int + 1), base, sfx);
            }
            let ghost n0 = out@.len() as int;
            let mut j: usize = 0;
            while j < self.file_suffixes.len()
                invariant
                    j <= self.file_suffixes.len(),
                    i < self.search_paths.len(),
                    paths == self@.search_paths,
                    base == self@.base_name,
                    sfx == self@.file_suffixes,
                    acc0.len() == n0,
                    acc0 == spec_candidates_from(paths.skip(i as int + 1), base, sfx),
                    out@.len() == n0 + j,
                    forall|k: int| 0 <= k < n0 ==> #[trigger] out@[k].deep_view() == acc0[k],
                    forall|k: int|
                        n0 <= k < n0 + j ==> #[trigger] out@[k].deep_view()
                            == spec_path_candidates(paths[i as int], base, sfx)[k - n0],
                decreases self.file_suffixes.len() - j,
            {
                let mut full = self.search_paths[i].clone();
                full.append("/");
                full.append(self.base_name.as_str());
                full.append(self.file_suffixes[j].as_str());
                let ghost fullv = full@;
                out.push((full, self.file_suffixes[j].clone()));
                proof {
                    assert(fullv == paths[i as int] + "/"@ + base + sfx[j as int]);
                    assert(out@[n0 + j].deep_view() == spec_path_candidates(
                        paths[i as int],
                        base,
                        sfx,
                    )[(n0 + j) - n0]);
                }
                j += 1;
            }
            proof {
                assert(forall|k: int|
                    0 <= k < out@.len() ==> out.deep_view()[k] == #[trigger] out@[k].deep_view());
                assert(out.deep_view() =~= acc0 + spec_path_candidates(paths[i as int], base, sfx));
                assert(paths.skip(i as int) =~= seq![paths[i as int]] + paths.skip(i as int + 1));
                lemma_candidates_cons(paths[i as int], paths.skip(i as int + 1), base, sfx);
                assert(out.deep_view() =~= spec_candidates_from(paths.skip(i as int), base, sfx));
            }
        }
        proof {
            assert(paths.skip(0) =~= paths);
        }
        out
    }
}

/// Builds a [`ConfigurationLoader`] step by step.
pub struct ConfigurationLoaderBuilder {
    loader: ConfigurationLoader,
}

impl View for ConfigurationLoaderBuilder {
    type V = ConfigurationLoaderView;

    closed spec fn view(&self) -> ConfigurationLoaderView {
        self.loader@
    }
}

impl ConfigurationLoaderBuilder {
    /// A builder initialized with the base name `config`, the default
    /// suffixes, and the system-wide search paths for the application
    /// name. Directories that only the environment can name (the user's
    /// configuration directory, the working directory) are the caller's
    /// concern and go in through [`Self::search_paths`].
    pub fn new(qualifier: &str, organization: &str, application: &str) -> (r:
        ConfigurationLoaderBuilder)
        ensures
            r@.qualifier == qualifier@,
            r@.organization == organization@,
            r@.application == application@,
            r@.base_name == "config"@,
            r@.search_paths == spec_system_paths(application@),
            r@.file_suffixes == seq![".yaml"@, ".json"@, ".toml"@, ".properties"@],
    {
        ConfigurationLoaderBuilder {
            loader: ConfigurationLoader {
                qualifier: qualifier.to_owned(),
                organization: organization.to_owned(),
                application: application.to_owned(),
                base_name: "config".to_owned(),
                search_paths: ConfigurationLoader::system_config_paths(application),
                file_suffixes: ConfigurationLoader::default_file_suffixes(),
            },
        }
    }

    /// Replaces the base file name.
    pub fn base_name(&mut self, value: &str)
        ensures
            final(self)@ == (ConfigurationLoaderView { base_name: value@, ..old(self)@ }),
    {
        self.loader.base_name = value.to_owned();
    }

    /// Replaces the search paths.
    pub fn search_paths(&mut self, value: Vec<String>)
        ensures
            final(self)@ == (ConfigurationLoaderView {
                search_paths: value.deep_view(),
                ..old(self)@
            }),
    {
        self.loader.search_paths = value;
    }

    /// Replaces the suffix list.
    pub fn file_suffixes(&mut self, value: Vec<String>)
        ensures
            final(self)@ == (ConfigurationLoaderView {
                file_suffixes: value.deep_view(),
                ..old(self)@
            }),
    {
        self.loader.file_suffixes = value;
    }

    /// The loader built so far, as an owned value.
    pub fn build(&mut self) -> (r: ConfigurationLoader)
        ensures
            final(self)@ == old(self)@,
            r@ == old(self)@,
    {
        self.loader.duplicate()
    }
}

} // verus!
