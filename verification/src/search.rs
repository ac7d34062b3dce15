use vstd::prelude::*;

verus! {

/// One job as listed by the server's home page: enough to filter by name
/// and to render a listing line.
#[derive(Clone, Debug, PartialEq, Eq)]
pub struct JobSummary {
    pub name: String,
    pub url: String,
    pub color: Option<String>,
}

/// One view (a named grouping of jobs) as listed by the server.
#[derive(Clone, Debug, PartialEq, Eq)]
pub struct ViewSummary {
    pub name: String,
    pub url: String,
}

/// Whether the regex grammar accepts the pattern: exactly the patterns on
/// which compilation succeeds.
pub uninterp spec fn pattern_compiles(pattern: Seq<char>) -> bool;

/// Whether the pattern matches anywhere in the text.
pub uninterp spec fn regex_matches(pattern: Seq<char>, text: Seq<char>) -> bool;

#[verifier::external_type_specification]
#[verifier::external_body]
pub struct ExRegex(regex::Regex);

/// A search pattern together with its compiled form. `compile` is the
/// only constructor, so the compiled regex always belongs to the stored
/// pattern.
pub struct Matcher {
    pattern: String,
    regex: regex::Regex,
}

impl Matcher {
    /// The pattern this matcher was compiled from.
    pub closed spec fn pattern_view(self) -> Seq<char> {
        self.pattern@
    }

    /// Relies on regex::Regex::new: compilation succeeds exactly on the
    /// patterns the regex grammar accepts, a function of the pattern
    /// alone.
    #[verifier::external_body]
    fn compile_regex(pattern: &str) -> (r: Option<regex::Regex>)
        ensures
            r is Some <==> pattern_compiles(pattern@),
    {
        regex::Regex::new(pattern).ok()
    }

    /// Compile a pattern; `None` exactly when the pattern is invalid.
    pub fn compile(pattern: &str) -> (r: Option<Matcher>)
        ensures
            r is Some <==> pattern_compiles(pattern@),
            r matches Some(m) ==> m.pattern_view() == pattern@,
    {
        match Self::compile_regex(pattern) {
            Some(regex) => Some(Matcher { pattern: pattern.to_owned(), regex }),
            None => None,
        }
    }

    /// Relies on regex::Regex::is_match: whether the pattern matches
    /// anywhere in the text, a function of pattern and text alone. The
    /// matcher's regex is the compilation of its stored pattern.
    #[verifier::external_body]
    pub fn is_match(&self, text: &str) -> (r: bool)
        ensures
            r == regex_matches(self.pattern_view(), text@),
    {
        self.regex.is_match(text)
    }
}

/// Filtering a pushed element commutes with filtering the prefix.
pub(crate) proof fn lemma_filter_push<A>(s: Seq<A>, x: A, pred: spec_fn(A) -> bool)
    ensures
        s.push(x).filter(pred) == if pred(x) {
            s.filter(pred).push(x)
        } else {
            s.filter(pred)
        },
{
    reveal(Seq::filter);
    assert(s.push(x).drop_last() =~= s);
    assert(s.push(x).last() == x);
}

pub open spec fn job_name_matches(pattern: Seq<char>) -> spec_fn(JobSummary) -> bool {
    |job: JobSummary| regex_matches(pattern, job.name@)
}

pub open spec fn view_name_matches(pattern: Seq<char>) -> spec_fn(ViewSummary) -> bool {
    |view: ViewSummary| regex_matches(pattern, view.name@)
}

/// The jobs whose names the pattern matches, in their original order.
/// `None` exactly when the pattern does not compile, in which case no
/// search can run.
pub fn search_job(jobs: Vec<JobSummary>, pattern: &str) -> (r: Option<Vec<JobSummary>>)
    ensures
        r is Some <==> pattern_compiles(pattern@),
        r matches Some(found) ==> found@ == jobs@.filter(job_name_matches(pattern@)),
{
    let matcher = match Matcher::compile(pattern) {
        Some(m) => m,
        None => {
            return None;
        },
    };
    let ghost all = jobs@;
    let ghost pred = job_name_matches(pattern@);
    let mut jobs = jobs;
    let mut found: Vec<JobSummary> = Vec::new();
    proof {
        assert(all.take(0) =~= Seq::<JobSummary>::empty());
        assert(Seq::<JobSummary>::empty().filter(pred) =~= Seq::<JobSummary>::empty()) by {
            reveal(Seq::filter);
        }
    }
    while jobs.len() > 0
        invariant
            matcher.pattern_view() == pattern@,
            pred == job_name_matches(pattern@),
            jobs@.len() <= all.len(),
            jobs@ == all.skip(all.len() - jobs@.len()),
            found@ == all.take(all.len() - jobs@.len()).filter(pred),
        decreases jobs.len(),
    {
        let ghost k: int = all.len() - jobs@.len();
        let job = jobs.remove(0);
        proof {
            assert(jobs@ =~= all.skip(k + 1));
            assert(job == all[k]);
        }
        if matcher.is_match(job.name.as_str()) {
            found.push(job);
        }
        proof {
            assert(all.take(k + 1) =~= all.take(k).push(all[k]));
            lemma_filter_push(all.take(k), all[k], pred);
            assert(pred(all[k]) == regex_matches(pattern@, all[k].name@));
            assert(found@ == all.take(k + 1).filter(pred));
        }
    }
    proof {
        assert(all.take(all.len() as int) =~= all);
    }
    Some(found)
}

/// The views whose names the pattern matches when a pattern is given, or
/// every view when none is; `None` exactly when a given pattern does not
/// compile.
pub fn list_views(views: Vec<ViewSummary>, pattern: Option<&str>) -> (r: Option<Vec<ViewSummary>>)
    ensures
        r is Some <==> (pattern matches Some(p) ==> pattern_compiles(p@)),
        pattern is None ==> r == Some(views),
        pattern matches Some(p) ==> (r matches Some(found) ==> found@ == views@.filter(
            view_name_matches(p@),
        )),
{
    let pattern = match pattern {
        Some(p) => p,
        None => {
            return Some(views);
        },
    };
    let matcher = match Matcher::compile(pattern) {
        Some(m) => m,
        None => {
            return None;
        },
    };
    let ghost all = views@;
    let ghost pred = view_name_matches(pattern@);
    let mut views = views;
    let mut found: Vec<ViewSummary> = Vec::new();
    proof {
        assert(all.take(0) =~= Seq::<ViewSummary>::empty());
        assert(Seq::<ViewSummary>::empty().filter(pred) =~= Seq::<ViewSummary>::empty()) by {
            reveal(Seq::filter);
        }
    }
    while views.len() > 0
        invariant
            matcher.pattern_view() == pattern@,
            pred == view_name_matches(pattern@),
            views@.len() <= all.len(),
            views@ == all.skip(all.len() - views@.len()),
            found@ == all.take(all.len() - views@.len()).filter(pred),
        decreases views.len(),
    {
        let ghost k: int = all.len() - views@.len();
        let view = views.remove(0);
        proof {
            assert(views@ =~= all.skip(k + 1));
            assert(view == all[k]);
        }
        if matcher.is_match(view.name.as_str()) {
            found.push(view);
        }
        proof {
            assert(all.take(k + 1) =~= all.take(k).push(all[k]));
            lemma_filter_push(all.take(k), all[k], pred);
            assert(found@ == all.take(k + 1).filter(pred));
        }
    }
    proof {
        assert(all.take(all.len() as int) =~= all);
    }
    Some(found)
}

} // verus!
