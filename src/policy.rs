use vstd::prelude::*;

verus! {

/// globset's compiled set of globs, carried as an opaque value.
#[verifier::external_type_specification]
#[verifier::external_body]
pub struct ExGlobSet(globset::GlobSet);

/// globset's error for a pattern it cannot parse or a set it cannot compile.
#[verifier::external_type_specification]
#[verifier::external_body]
pub struct ExGlobError(globset::Error);

/// Whether globset accepts `pattern` as a glob under its default options.
pub uninterp spec fn glob_parses(pattern: Seq<char>) -> bool;

/// Whether the glob `pattern`, under globset's default options, matches `path`.
pub uninterp spec fn glob_matches(pattern: Seq<char>, path: Seq<char>) -> bool;

/// Whether globset::GlobSet::new compiles the globs parsed from `patterns` into a set.
pub uninterp spec fn glob_set_builds(patterns: Seq<Seq<char>>) -> bool;

/// The patterns that a compiled glob set was built from, in order.
pub uninterp spec fn glob_set_patterns(set: globset::GlobSet) -> Seq<Seq<char>>;

/// The patterns as character sequences.
pub open spec fn views_of(patterns: Seq<String>) -> Seq<Seq<char>> {
    patterns.map_values(|p: String| p@)
}

/// Relies on globset::Glob::new to parse each pattern and on globset::GlobSet::new to
/// compile the parsed globs together: the result is a set exactly when every pattern parses
/// and the parsed globs compile; no pattern at all gives the empty set (`GlobSet::new` returns
/// `GlobSet::empty()` for no globs). A set that is built holds exactly the given patterns, in
/// order.
#[verifier::external_body]
fn compile_glob_set(patterns: &Vec<String>) -> (r: Result<globset::GlobSet, globset::Error>)
    ensures
        r is Ok <==> ((forall|i: int|
            0 <= i < patterns@.len() ==> glob_parses(#[trigger] patterns@[i]@)) && glob_set_builds(
            views_of(patterns@),
        )),
        patterns@.len() == 0 ==> r is Ok,
        r is Ok ==> glob_set_patterns(r->Ok_0) == views_of(patterns@),
{
    let globs = patterns.iter().map(|p| globset::Glob::new(p)).collect::<Result<Vec<_>, _>>()?;
    globset::GlobSet::new(globs)
}

/// Relies on globset::GlobSet::is_match: true when any glob of the set matches the path.
#[verifier::external_body]
fn glob_set_is_match(set: &globset::GlobSet, path: &str) -> (r: bool)
    ensures
        r == (exists|i: int|
            0 <= i < glob_set_patterns(*set).len() && glob_matches(
                #[trigger] glob_set_patterns(*set)[i],
                path@,
            )),
{
    set.is_match(path)
}

/// The conflict-ignore policy: a set of glob patterns over repository-relative paths.
pub struct IgnorePolicy {
    set: globset::GlobSet,
}

/// Why an ignore policy could not be built.
pub enum PolicyError {
    /// A pattern is not a valid glob, or the set could not be compiled.
    InvalidPattern,
}

impl IgnorePolicy {
    /// The patterns of the policy.
    pub closed spec fn patterns(&self) -> Seq<Seq<char>> {
        glob_set_patterns(self.set)
    }

    /// Whether `path` matches one of the policy's patterns.
    pub open spec fn ignores(&self, path: Seq<char>) -> bool {
        exists|i: int| 0 <= i < self.patterns().len() && glob_matches(#[trigger] self.patterns()[i], path)
    }

    /// Builds the policy from glob patterns: it is built exactly when every pattern parses
    /// and globset compiles them together, always for no pattern at all.
    pub fn from_patterns(patterns: &Vec<String>) -> (r: Result<IgnorePolicy, PolicyError>)
        ensures
            r is Ok <==> ((forall|i: int|
                0 <= i < patterns@.len() ==> glob_parses(#[trigger] patterns@[i]@))
                && glob_set_builds(views_of(patterns@))),
            patterns@.len() == 0 ==> r is Ok,
            r is Ok ==> r->Ok_0.patterns() == views_of(patterns@),
    {
        match compile_glob_set(patterns) {
            Ok(set) => Ok(IgnorePolicy { set }),
            Err(_) => Err(PolicyError::InvalidPattern),
        }
    }

    /// Whether `path` matches one of the policy's patterns.
    pub fn is_ignored(&self, path: &str) -> (r: bool)
        ensures
            r == self.ignores(path@),
    {
        glob_set_is_match(&self.set, path)
    }
}

} // verus!
